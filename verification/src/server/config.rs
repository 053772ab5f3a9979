use vstd::prelude::*;

verus! {

/// `x` lies in the range of `i32`.
pub open spec fn fits_i32(x: int) -> bool {
    i32::MIN <= x <= i32::MAX
}

/// The length in bytes of a frame buffer of `width` by `height` pixels of
/// `bytes_per_pixel` bytes each, computed in `i32` as `width * height`, then
/// times `bytes_per_pixel`. There is none (`None`) when either product leaves
/// the range of `i32` or the result is negative.
pub open spec fn frame_buffer_len_of(width: int, height: int, bytes_per_pixel: int) -> Option<nat> {
    if !fits_i32(width * height) || !fits_i32(width * height * bytes_per_pixel) {
        None
    } else if width * height * bytes_per_pixel < 0 {
        None
    } else {
        Some((width * height * bytes_per_pixel) as nat)
    }
}

/// For a screen whose width and height are not negative and whose pixels
/// take at least one byte, the frame buffer's length is defined exactly
/// when `width * height * bytes_per_pixel` fits in an `i32`, and is then that
/// product.
pub proof fn frame_buffer_len_defined(width: int, height: int, bytes_per_pixel: int)
    requires
        0 <= width <= i32::MAX,
        0 <= height <= i32::MAX,
        1 <= bytes_per_pixel <= i32::MAX,
    ensures
        frame_buffer_len_of(width, height, bytes_per_pixel) is Some <==> width * height
            * bytes_per_pixel <= i32::MAX,
        frame_buffer_len_of(width, height, bytes_per_pixel) is Some ==> frame_buffer_len_of(
            width,
            height,
            bytes_per_pixel,
        ) == Some((width * height * bytes_per_pixel) as nat),
{
    assert(0 <= width * height <= width * height * bytes_per_pixel) by (nonlinear_arith)
        requires
            0 <= width,
            0 <= height,
            1 <= bytes_per_pixel,
    ;
}

/// The settings a VNC server screen is created with.
pub struct ServerConfig {
    pub(crate) width: i32,
    pub(crate) height: i32,
    pub(crate) bits_per_sample: i32,
    pub(crate) samples_per_pixel: i32,
    pub(crate) bytes_per_pixel: i32,
}

impl ServerConfig {
    /// The screen width in pixels.
    pub closed spec fn spec_width(&self) -> i32 {
        self.width
    }

    /// The screen height in pixels.
    pub closed spec fn spec_height(&self) -> i32 {
        self.height
    }

    /// The bits of each colour sample.
    pub closed spec fn spec_bits_per_sample(&self) -> i32 {
        self.bits_per_sample
    }

    /// The colour samples of each pixel.
    pub closed spec fn spec_samples_per_pixel(&self) -> i32 {
        self.samples_per_pixel
    }

    /// The bytes of each pixel.
    pub closed spec fn spec_bytes_per_pixel(&self) -> i32 {
        self.bytes_per_pixel
    }

    /// Creates a new [`ServerConfig`] with given width, height,
    /// bits_per_sample, samples_per_pixel and bytes_per_pixel
    pub fn new(
        width: i32,
        height: i32,
        bits_per_sample: i32,
        samples_per_pixel: i32,
        bytes_per_pixel: i32,
    ) -> (r: Self)
        ensures
            r.width() == width,
            r.height() == height,
            r.bits_per_sample() == bits_per_sample,
            r.samples_per_pixel() == samples_per_pixel,
            r.bytes_per_pixel() == bytes_per_pixel,
    {
        Self { width, height, bits_per_sample, samples_per_pixel, bytes_per_pixel }
    }

    /// The screen width in pixels.
    #[verifier::when_used_as_spec(spec_width)]
    pub fn width(&self) -> (r: i32)
        ensures
            r == self.spec_width(),
    {
        self.width
    }

    /// The screen height in pixels.
    #[verifier::when_used_as_spec(spec_height)]
    pub fn height(&self) -> (r: i32)
        ensures
            r == self.spec_height(),
    {
        self.height
    }

    /// The bits of each colour sample.
    #[verifier::when_used_as_spec(spec_bits_per_sample)]
    pub fn bits_per_sample(&self) -> (r: i32)
        ensures
            r == self.spec_bits_per_sample(),
    {
        self.bits_per_sample
    }

    /// The colour samples of each pixel.
    #[verifier::when_used_as_spec(spec_samples_per_pixel)]
    pub fn samples_per_pixel(&self) -> (r: i32)
        ensures
            r == self.spec_samples_per_pixel(),
    {
        self.samples_per_pixel
    }

    /// The bytes of each pixel.
    #[verifier::when_used_as_spec(spec_bytes_per_pixel)]
    pub fn bytes_per_pixel(&self) -> (r: i32)
        ensures
            r == self.spec_bytes_per_pixel(),
    {
        self.bytes_per_pixel
    }

    /// The length in bytes of the frame buffer of a screen with these
    /// settings: `width * height * bytes_per_pixel`, or `None` where that
    /// product overflows `i32` or is negative.
    pub fn frame_buffer_len(&self) -> (r: Option<usize>)
        ensures
            match frame_buffer_len_of(self.width() as int, self.height() as int, self.bytes_per_pixel() as int) {
                Some(n) => r == Some(n as usize) && n <= i32::MAX,
                None => r is None,
            },
    {
        match self.width.checked_mul(self.height) {
            Some(area) => match area.checked_mul(self.bytes_per_pixel) {
                Some(len) => {
                    if len < 0 {
                        None
                    } else {
                        Some(len as usize)
                    }
                },
                None => None,
            },
            None => None,
        }
    }
}

impl Default for ServerConfig {
    /// Default value
    ///
    /// ## Value
    ///
    /// - `width` = 400,
    /// - `height` = 300,
    /// - `bits_per_sample` =  8,
    /// - `samples_per_pixel` = 3,
    /// - `bytes_per_pixel` = 4,
    fn default() -> (r: Self)
        ensures
            r.width() == 400,
            r.height() == 300,
            r.bits_per_sample() == 8,
            r.samples_per_pixel() == 3,
            r.bytes_per_pixel() == 4,
    {
        Self { width: 400, height: 300, bits_per_sample: 8, samples_per_pixel: 3, bytes_per_pixel: 4 }
    }
}

} // verus!
