use tiled_json::DIAG_FLIP_FLAG;
use tiled_json::HORZ_FLIP_FLAG;
use tiled_json::VERT_FLIP_FLAG;
use tiled_json::color::Color;
use tiled_json::color::hex_char_to_u8;
use tiled_json::color::hex_set_to_u8;
use tiled_json::color::u8_to_hex_char;
use tiled_json::color::u8_to_hex_string;
use tiled_json::gid_flipped_diagonally;
use tiled_json::gid_flipped_horizontally;
use tiled_json::gid_flipped_hvd;
use tiled_json::gid_flipped_vertically;
use tiled_json::gid_without_flags;

#[test]
fn gid_flag_tests_match_bits() {
    let gid = 0x8000_0005u32;
    assert!(gid_flipped_horizontally(gid));
    assert!(!gid_flipped_vertically(gid));
    assert!(!gid_flipped_diagonally(gid));
    assert_eq!(gid_flipped_hvd(gid), (true, false, false));
    assert_eq!(gid_flipped_hvd(0xE000_0001), (true, true, true));
    assert_eq!(gid_flipped_hvd(17), (false, false, false));
}

#[test]
fn gid_without_flags_strips_exactly_the_top_three_bits() {
    assert_eq!(gid_without_flags(0x8000_0005), 5);
    assert_eq!(gid_without_flags(0xE000_0001), 1);
    assert_eq!(gid_without_flags(42), 42);
    assert_eq!(gid_without_flags(0x1FFF_FFFF), 0x1FFF_FFFF);
}

#[test]
fn stripping_and_flags_rebuild_the_gid() {
    // gid_without_flags(gid) | flags == gid, for a spread of gids.
    let flags_mask = HORZ_FLIP_FLAG | VERT_FLIP_FLAG | DIAG_FLIP_FLAG;
    let samples: Vec<u32> = vec![0, 1, 42, 0x8000_0005, 0xE000_0001, 0xFFFF_FFFF, 0x2000_0000];
    for gid in samples {
        let flags = gid & flags_mask;
        assert_eq!(gid_without_flags(gid) | flags, gid);
        assert_eq!(gid_without_flags(gid) & flags_mask, 0);
    }
}

#[test]
fn color_parses_rrggbb() {
    let c = Color::new("#0a1B2c");
    assert_eq!((c.red(), c.green(), c.blue(), c.alpha()), (0x0a, 0x1b, 0x2c, 0xff));
}

#[test]
fn color_parses_aarrggbb() {
    let c = Color::new("#80FF0001");
    assert_eq!((c.alpha(), c.red(), c.green(), c.blue()), (0x80, 0xff, 0x00, 0x01));
}

#[test]
fn color_falls_back_on_bad_shape() {
    let fallback = Color { r: 255, g: 0, b: 255, a: 255 };
    assert_eq!(Color::new("notahexcolor"), fallback);
    assert_eq!(Color::new(""), fallback);
    assert_eq!(Color::new("112233"), fallback);
    assert_eq!(Color::new("#12345"), fallback);
    assert_eq!(Color::default_color(), fallback);
    assert_eq!(Color::default_color_string(), "#FFFF00FF");
}

#[test]
fn color_treats_bad_digits_as_zero() {
    let c = Color::new("#zz10ff");
    assert_eq!((c.red(), c.green(), c.blue(), c.alpha()), (0x00, 0x10, 0xff, 0xff));
}

#[test]
fn hex_digit_conversions() {
    assert_eq!(hex_char_to_u8('0'), 0);
    assert_eq!(hex_char_to_u8('a'), 10);
    assert_eq!(hex_char_to_u8('F'), 15);
    assert_eq!(hex_char_to_u8('!'), 0);
    assert_eq!(hex_set_to_u8('1', '0'), 16);
    assert_eq!(hex_set_to_u8('f', 'f'), 255);
    assert_eq!(u8_to_hex_char(0x0), '0');
    assert_eq!(u8_to_hex_char(0xA), 'A');
    assert_eq!(u8_to_hex_string(0x5E), "5E");
    assert_eq!(u8_to_hex_string(0x00), "00");
}

#[test]
fn color_formats_as_aarrggbb() {
    let c = Color { r: 0x12, g: 0x34, b: 0x56, a: 0xFF };
    assert_eq!(c.as_hex_string(), "#FF123456");
    // Formatting the parse of a round shape gives the input back, upper-cased.
    assert_eq!(Color::new("#80FF0001").as_hex_string(), "#80FF0001");
}
