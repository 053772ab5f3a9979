use libvnc::client::config::{ClientConfig, RawPixelFormat, RfbPixelFormat};
use libvnc::server::config::ServerConfig;

fn sample_format(big_endian: Option<u8>) -> RfbPixelFormat {
    RfbPixelFormat {
        bits_per_pixel: 32,
        depth: 24,
        big_endian,
        true_colour: 1,
        red_max: 255,
        green_max: 254,
        blue_max: 253,
        red_shift: 16,
        green_shift: 8,
        blue_shift: 0,
    }
}

#[test]
fn client_config_new_keeps_values() {
    let c = ClientConfig::new(8, 3, 4);
    assert_eq!(c.bits_per_sample(), 8);
    assert_eq!(c.samples_per_pixel(), 3);
    assert_eq!(c.bytes_per_pixel(), 4);
    let c = ClientConfig::new(-1, 0, 16);
    assert_eq!((c.bits_per_sample(), c.samples_per_pixel(), c.bytes_per_pixel()), (-1, 0, 16));
}

#[test]
fn client_config_default_values() {
    let c = ClientConfig::default();
    assert_eq!((c.bits_per_sample(), c.samples_per_pixel(), c.bytes_per_pixel()), (8, 3, 4));
}

#[test]
fn server_config_new_keeps_values() {
    let c = ServerConfig::new(640, 480, 8, 3, 4);
    assert_eq!(
        (c.width(), c.height(), c.bits_per_sample(), c.samples_per_pixel(), c.bytes_per_pixel()),
        (640, 480, 8, 3, 4)
    );
}

#[test]
fn server_config_default_values() {
    let c = ServerConfig::default();
    assert_eq!(
        (c.width(), c.height(), c.bits_per_sample(), c.samples_per_pixel(), c.bytes_per_pixel()),
        (400, 300, 8, 3, 4)
    );
}

#[test]
fn frame_buffer_len_of_default_screen() {
    assert_eq!(ServerConfig::default().frame_buffer_len(), Some(480000));
    assert_eq!(ServerConfig::new(640, 480, 8, 3, 4).frame_buffer_len(), Some(1228800));
    assert_eq!(ServerConfig::new(0, 480, 8, 3, 4).frame_buffer_len(), Some(0));
}

#[test]
fn frame_buffer_len_overflow_is_none() {
    // the product of all three overflows
    assert_eq!(ServerConfig::new(40000, 40000, 8, 3, 4).frame_buffer_len(), None);
    // width * height alone overflows, even though the pixel size is 0
    assert_eq!(ServerConfig::new(100000, 100000, 8, 3, 0).frame_buffer_len(), None);
    // the largest product that still fits
    assert_eq!(
        ServerConfig::new(i32::MAX, 1, 8, 3, 1).frame_buffer_len(),
        Some(i32::MAX as usize)
    );
    assert_eq!(ServerConfig::new(i32::MAX, 1, 8, 3, 2).frame_buffer_len(), None);
}

#[test]
fn frame_buffer_len_negative_is_none() {
    assert_eq!(ServerConfig::new(-1, 300, 8, 3, 4).frame_buffer_len(), None);
    assert_eq!(ServerConfig::new(400, 300, 8, 3, -4).frame_buffer_len(), None);
    // two negative factors give a positive length
    assert_eq!(ServerConfig::new(-2, -3, 8, 3, 4).frame_buffer_len(), Some(24));
}

#[test]
fn raw_pixel_format_missing_big_endian_is_zero() {
    let raw = RawPixelFormat::from(sample_format(None));
    assert_eq!(
        raw,
        RawPixelFormat {
            bits_per_pixel: 32,
            depth: 24,
            big_endian: 0,
            true_colour: 1,
            red_max: 255,
            green_max: 254,
            blue_max: 253,
            red_shift: 16,
            green_shift: 8,
            blue_shift: 0,
            pad1: 0,
            pad2: 0,
        }
    );
}

#[test]
fn raw_pixel_format_keeps_given_big_endian() {
    let raw = RawPixelFormat::from(sample_format(Some(1)));
    assert_eq!(raw.big_endian, 1);
    assert_eq!((raw.pad1, raw.pad2), (0, 0));
    let raw: RawPixelFormat = sample_format(Some(7)).into();
    assert_eq!(raw.big_endian, 7);
}

#[test]
fn raw_pixel_format_zero_and_missing_big_endian_agree() {
    assert_eq!(
        RawPixelFormat::from(sample_format(Some(0))),
        RawPixelFormat::from(sample_format(None))
    );
    assert_ne!(
        RawPixelFormat::from(sample_format(Some(1))),
        RawPixelFormat::from(sample_format(None))
    );
}
