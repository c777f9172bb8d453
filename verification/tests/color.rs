use logig560::color::{parse_hex_color, InvalidHexColor};
use logig560::{Rgb8, RgbColor, Zone, ZoneColors, ZoneId};

#[test]
fn all_zones_follow_logical_array_order() {
    assert_eq!(
        Zone::all(),
        [Zone::LeftRear, Zone::LeftFront, Zone::RightFront, Zone::RightRear]
    );
}

#[test]
fn logical_zone_conversions_preserve_every_zone() {
    let pairs = [
        (ZoneId::LeftRear, Zone::LeftRear),
        (ZoneId::LeftFront, Zone::LeftFront),
        (ZoneId::RightFront, Zone::RightFront),
        (ZoneId::RightRear, Zone::RightRear),
    ];

    for (api, core) in pairs {
        assert_eq!(Zone::from(api), core);
        assert_eq!(ZoneId::from(core), api);
    }
}

#[test]
fn rgb_conversions_preserve_channel_values() {
    let api = RgbColor { red: 17, green: 34, blue: 51 };
    let core = Rgb8 { r: 17, g: 34, b: 51 };

    assert_eq!(Rgb8::from(api), core);
    assert_eq!(RgbColor::from(core), api);
}

#[test]
fn parses_six_digit_hex_colors() {
    assert_eq!(parse_hex_color("12aBf0").unwrap(), Rgb8 { r: 0x12, g: 0xab, b: 0xf0 });
}

#[test]
fn rejects_malformed_colors() {
    for value in ["12345", "1234567", "not-a-color", "12345g"] {
        assert!(parse_hex_color(value).is_err(), "accepted {value}");
    }
}

#[test]
fn hex_colors_cover_the_full_channel_range() {
    assert_eq!(parse_hex_color("000000"), Ok(Rgb8 { r: 0, g: 0, b: 0 }));
    assert_eq!(parse_hex_color("FFffFF"), Ok(Rgb8 { r: 255, g: 255, b: 255 }));
    assert_eq!(parse_hex_color("14c8f4"), Ok(Rgb8 { r: 0x14, g: 0xc8, b: 0xf4 }));
}

#[test]
fn non_ascii_six_character_text_is_not_a_color() {
    assert_eq!(parse_hex_color("12345é"), Err(InvalidHexColor));
    assert_eq!(parse_hex_color(""), Err(InvalidHexColor));
    assert_eq!(parse_hex_color(" 12345"), Err(InvalidHexColor));
}

#[test]
fn invalid_color_message_names_the_expected_form() {
    assert_eq!(
        InvalidHexColor.message(),
        "invalid color: expected exactly six hexadecimal digits (RRGGBB)"
    );
}

#[test]
fn zone_colors_are_read_by_logical_zone() {
    let colors = ZoneColors([
        Rgb8 { r: 1, g: 0, b: 0 },
        Rgb8 { r: 2, g: 0, b: 0 },
        Rgb8 { r: 3, g: 0, b: 0 },
        Rgb8 { r: 4, g: 0, b: 0 },
    ]);
    assert_eq!(colors.get(Zone::LeftRear).r, 1);
    assert_eq!(colors.get(Zone::LeftFront).r, 2);
    assert_eq!(colors.get(Zone::RightFront).r, 3);
    assert_eq!(colors.get(Zone::RightRear).r, 4);
    assert_eq!(Zone::RightFront.index(), 2);
}

#[test]
fn black_is_all_zero() {
    assert_eq!(Rgb8::black(), Rgb8 { r: 0, g: 0, b: 0 });
    assert_eq!(ZoneColors::black(), ZoneColors([Rgb8 { r: 0, g: 0, b: 0 }; 4]));
}
