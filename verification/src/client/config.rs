use vstd::prelude::*;

verus! {

/// A pixel format as callers describe it: `big_endian` may be left out.
#[derive(Clone, Copy, Debug, PartialEq, Eq, Structural)]
pub struct RfbPixelFormat {
    pub bits_per_pixel: u8,
    pub depth: u8,
    pub big_endian: Option<u8>,
    pub true_colour: u8,
    pub red_max: u16,
    pub green_max: u16,
    pub blue_max: u16,
    pub red_shift: u8,
    pub green_shift: u8,
    pub blue_shift: u8,
}

/// A pixel format in the flat layout of libvncserver's `rfbPixelFormat`:
/// every field present, with the two padding fields of the protocol.
#[derive(Clone, Copy, Debug, PartialEq, Eq, Structural)]
pub struct RawPixelFormat {
    pub bits_per_pixel: u8,
    pub depth: u8,
    pub big_endian: u8,
    pub true_colour: u8,
    pub red_max: u16,
    pub green_max: u16,
    pub blue_max: u16,
    pub red_shift: u8,
    pub green_shift: u8,
    pub blue_shift: u8,
    pub pad1: u8,
    pub pad2: u16,
}

/// The flat form of `f`: each field kept, a missing `big_endian` written as
/// 0, and both padding fields 0.
pub open spec fn raw_pixel_format(f: RfbPixelFormat) -> RawPixelFormat {
    RawPixelFormat {
        bits_per_pixel: f.bits_per_pixel,
        depth: f.depth,
        big_endian: match f.big_endian {
            Some(b) => b,
            None => 0,
        },
        true_colour: f.true_colour,
        red_max: f.red_max,
        green_max: f.green_max,
        blue_max: f.blue_max,
        red_shift: f.red_shift,
        green_shift: f.green_shift,
        blue_shift: f.blue_shift,
        pad1: 0,
        pad2: 0,
    }
}

/// Two pixel formats have the same flat form exactly when they agree on
/// every field, where a missing `big_endian` counts as 0.
pub proof fn raw_pixel_format_identifies(f: RfbPixelFormat, g: RfbPixelFormat)
    ensures
        raw_pixel_format(f) == raw_pixel_format(g) <==> {
            &&& f.bits_per_pixel == g.bits_per_pixel
            &&& f.depth == g.depth
            &&& f.big_endian.unwrap_or(0) == g.big_endian.unwrap_or(0)
            &&& f.true_colour == g.true_colour
            &&& f.red_max == g.red_max
            &&& f.green_max == g.green_max
            &&& f.blue_max == g.blue_max
            &&& f.red_shift == g.red_shift
            &&& f.green_shift == g.green_shift
            &&& f.blue_shift == g.blue_shift
        },
{
}

/// Converting a pixel format copies every field as given, whatever its
/// byte order: only a missing `big_endian` is filled in, with 0, and both
/// padding fields are 0.
pub proof fn raw_pixel_format_copies_fields(v: RfbPixelFormat)
    ensures
        ({
            let r = <RawPixelFormat as vstd::std_specs::convert::FromSpec<RfbPixelFormat>>::from_spec(v);
            &&& r == raw_pixel_format(v)
            &&& r.bits_per_pixel == v.bits_per_pixel
            &&& r.depth == v.depth
            &&& r.big_endian == v.big_endian.unwrap_or(0)
            &&& r.true_colour == v.true_colour
            &&& r.red_max == v.red_max
            &&& r.green_max == v.green_max
            &&& r.blue_max == v.blue_max
            &&& r.red_shift == v.red_shift
            &&& r.green_shift == v.green_shift
            &&& r.blue_shift == v.blue_shift
            &&& r.pad1 == 0
            &&& r.pad2 == 0
        }),
{
}

impl From<RfbPixelFormat> for RawPixelFormat {
    fn from(value: RfbPixelFormat) -> (r: Self)
        ensures
            r.bits_per_pixel == value.bits_per_pixel,
            r.depth == value.depth,
            r.big_endian == value.big_endian.unwrap_or(0),
            r.true_colour == value.true_colour,
            r.red_max == value.red_max,
            r.green_max == value.green_max,
            r.blue_max == value.blue_max,
            r.red_shift == value.red_shift,
            r.green_shift == value.green_shift,
            r.blue_shift == value.blue_shift,
            r.pad1 == 0,
            r.pad2 == 0,
    {
        let RfbPixelFormat {
            bits_per_pixel,
            depth,
            big_endian,
            true_colour,
            red_max,
            green_max,
            blue_max,
            red_shift,
            green_shift,
            blue_shift,
        } = value;
        Self {
            bits_per_pixel,
            depth,
            big_endian: match big_endian {
                Some(b) => b,
                None => 0,
            },
            true_colour,
            red_max,
            green_max,
            blue_max,
            red_shift,
            green_shift,
            blue_shift,
            pad1: 0,
            pad2: 0,
        }
    }
}

impl vstd::std_specs::convert::FromSpecImpl<RfbPixelFormat> for RawPixelFormat {
    open spec fn obeys_from_spec() -> bool {
        true
    }

    open spec fn from_spec(v: RfbPixelFormat) -> Self {
        raw_pixel_format(v)
    }
}

/// The pixel layout a VNC client asks for.
pub struct ClientConfig {
    pub(crate) bits_per_sample: i32,
    pub(crate) samples_per_pixel: i32,
    pub(crate) bytes_per_pixel: i32,
}

impl ClientConfig {
    /// The bits of each colour sample.
    pub closed spec fn spec_bits_per_sample(&self) -> i32 {
        self.bits_per_sample
    }

    /// The colour samples of each pixel.
    pub closed spec fn spec_samples_per_pixel(&self) -> i32 {
        self.samples_per_pixel
    }

    /// The bytes of each pixel.
    pub closed spec fn spec_bytes_per_pixel(&self) -> i32 {
        self.bytes_per_pixel
    }

    /// Creates a new [`ClientConfig`] with given bits_per_sample, samples_per_pixel and bytes_per_pixel
    pub fn new(bits_per_sample: i32, samples_per_pixel: i32, bytes_per_pixel: i32) -> (r: Self)
        ensures
            r.bits_per_sample() == bits_per_sample,
            r.samples_per_pixel() == samples_per_pixel,
            r.bytes_per_pixel() == bytes_per_pixel,
    {
        Self { bits_per_sample, samples_per_pixel, bytes_per_pixel }
    }

    /// The bits of each colour sample.
    #[verifier::when_used_as_spec(spec_bits_per_sample)]
    pub fn bits_per_sample(&self) -> (r: i32)
        ensures
            r == self.spec_bits_per_sample(),
    {
        self.bits_per_sample
    }

    /// The colour samples of each pixel.
    #[verifier::when_used_as_spec(spec_samples_per_pixel)]
    pub fn samples_per_pixel(&self) -> (r: i32)
        ensures
            r == self.spec_samples_per_pixel(),
    {
        self.samples_per_pixel
    }

    /// The bytes of each pixel.
    #[verifier::when_used_as_spec(spec_bytes_per_pixel)]
    pub fn bytes_per_pixel(&self) -> (r: i32)
        ensures
            r == self.spec_bytes_per_pixel(),
    {
        self.bytes_per_pixel
    }
}

impl Default for ClientConfig {
    /// Default value
    ///
    /// ## Value
    ///
    /// - `bits_per_sample` =  8,
    /// - `samples_per_pixel` = 3,
    /// - `bytes_per_pixel` = 4,
    fn default() -> (r: Self)
        ensures
            r.bits_per_sample() == 8,
            r.samples_per_pixel() == 3,
            r.bytes_per_pixel() == 4,
    {
        Self { bits_per_sample: 8, samples_per_pixel: 3, bytes_per_pixel: 4 }
    }
}

} // verus!
