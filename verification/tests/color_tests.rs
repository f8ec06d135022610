use shortvid::color::{parse_hex_color, rgb_to_yuv};
use shortvid::error::VideoError;

#[test]
fn parse_hex_color_basic() {
    assert_eq!(parse_hex_color("#000000").unwrap(), (0, 0, 0));
    assert_eq!(parse_hex_color("#ffffff").unwrap(), (255, 255, 255));
    assert_eq!(parse_hex_color("#1a1a1a").unwrap(), (26, 26, 26));
    assert_eq!(parse_hex_color("#00ff10").unwrap(), (0, 255, 16));
}

#[test]
fn parse_hex_color_without_prefix() {
    assert_eq!(parse_hex_color("000000").unwrap(), (0, 0, 0));
    assert_eq!(parse_hex_color("3498db").unwrap(), (0x34, 0x98, 0xdb));
}

#[test]
fn parse_hex_color_upper_case() {
    assert_eq!(parse_hex_color("#00FF10").unwrap(), (0, 255, 16));
    assert_eq!(parse_hex_color("ABCDEF").unwrap(), (0xab, 0xcd, 0xef));
}

#[test]
fn parse_hex_color_round_trip() {
    for v in [0u8, 1, 15, 16, 127, 128, 254, 255] {
        let s = format!("{:02x}{:02x}{:02x}", v, v ^ 0x5a, 255 - v);
        let with_hash = format!("#{}", s);
        assert_eq!(parse_hex_color(&s).unwrap(), (v, v ^ 0x5a, 255 - v));
        assert_eq!(parse_hex_color(&with_hash).unwrap(), (v, v ^ 0x5a, 255 - v));
    }
}

#[test]
fn parse_hex_color_rejects_bad_shapes() {
    for bad in ["", "#", "#12345", "#1234567", "12345", "1234567", "##12345", "#12345g", "gggggg", "#12 456", "#１２３４５６"] {
        match parse_hex_color(bad) {
            Err(VideoError::InvalidColorFormat(s)) => assert_eq!(s, bad),
            other => panic!("expected InvalidColorFormat for {:?}, got {:?}", bad, other),
        }
    }
}

#[test]
fn rgb_to_yuv_black_and_white() {
    assert_eq!(rgb_to_yuv(0, 0, 0), (0, 128, 128));
    assert_eq!(rgb_to_yuv(255, 255, 255), (255, 128, 128));
}

#[test]
fn rgb_to_yuv_primaries() {
    assert_eq!(rgb_to_yuv(255, 0, 0), (76, 84, 255));
    assert_eq!(rgb_to_yuv(0, 255, 0), (150, 43, 21));
    assert_eq!(rgb_to_yuv(0, 0, 255), (29, 255, 107));
}

#[test]
fn rgb_to_yuv_stays_in_range() {
    // The transform clamps mathematically: sample the cube and check the
    // exact fixed-point formulas agree at every sampled point.
    let mut c: u16 = 0;
    while c < 256 {
        let v = c as u8;
        let (y, u, w) = rgb_to_yuv(v, 255 - v, v);
        let vi = v as u32;
        assert_eq!(y as u32, (299 * vi + 587 * (255 - vi) + 114 * vi + 500) / 1000);
        assert_eq!(u as u32, (500 * vi + 128000 - 169 * vi - 331 * (255 - vi)) / 1000);
        assert_eq!(w as u32, (500 * vi + 128000 - 419 * (255 - vi) - 81 * vi) / 1000);
        c += 17;
    }
}
