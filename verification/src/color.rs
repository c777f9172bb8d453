//! Colors and the four logical speaker zones.

use vstd::prelude::*;

use crate::api::{RgbColor, ZoneId};

verus! {

/// An 8-bit sRGB color as written to the device.
#[derive(Clone, Copy, Debug, Default, PartialEq, Eq, Structural)]
pub struct Rgb8 {
    pub r: u8,
    pub g: u8,
    pub b: u8,
}

impl Rgb8 {
    /// The color that turns a zone off.
    pub fn black() -> (black: Rgb8)
        ensures
            black == (Rgb8 { r: 0, g: 0, b: 0 }),
    {
        Rgb8 { r: 0, g: 0, b: 0 }
    }
}

/// The value of an ASCII hexadecimal digit, either case.
pub open spec fn hex_digit_value(c: char) -> Option<u8> {
    let code = c as u32;
    if 48 <= code <= 57 {
        Some((code - 48) as u8)
    } else if 65 <= code <= 70 {
        Some((code - 55) as u8)
    } else if 97 <= code <= 102 {
        Some((code - 87) as u8)
    } else {
        None
    }
}

/// The color written `RRGGBB`: exactly six hexadecimal digits, nothing else.
pub open spec fn hex_color_of(text: Seq<char>) -> Option<Rgb8> {
    if text.len() == 6 && forall|i: int| 0 <= i < 6 ==> (#[trigger] hex_digit_value(text[i])) is Some {
        let d = |i: int| hex_digit_value(text[i])->0;
        Some(Rgb8 {
            r: (16 * d(0) + d(1)) as u8,
            g: (16 * d(2) + d(3)) as u8,
            b: (16 * d(4) + d(5)) as u8,
        })
    } else {
        None
    }
}

/// Whether `c` is an ASCII hexadecimal digit: 0-9, a-f or A-F.
pub open spec fn is_ascii_hex_digit(c: char) -> bool {
    ||| ('0' as u32) <= (c as u32) <= ('9' as u32)
    ||| ('a' as u32) <= (c as u32) <= ('f' as u32)
    ||| ('A' as u32) <= (c as u32) <= ('F' as u32)
}

/// The number an ASCII hexadecimal digit stands for in base 16: the
/// digits 0-9 for themselves, the letters a-f and A-F for 10 to 15.
pub open spec fn base16_value(c: char) -> int {
    if ('0' as u32) <= (c as u32) <= ('9' as u32) {
        c as u32 - ('0' as u32)
    } else if ('a' as u32) <= (c as u32) <= ('f' as u32) {
        c as u32 - ('a' as u32) + 10
    } else {
        c as u32 - ('A' as u32) + 10
    }
}

/// Every text of six ASCII hexadecimal digits is a color, each channel the
/// base-16 value of its two digits; any other text is not a color.
pub proof fn lemma_hex_colors_parse(text: Seq<char>)
    ensures
        (text.len() == 6 && forall|i: int| 0 <= i < 6 ==> #[trigger] is_ascii_hex_digit(text[i]))
            ==> hex_color_of(text) == Some(Rgb8 {
            r: (16 * base16_value(text[0]) + base16_value(text[1])) as u8,
            g: (16 * base16_value(text[2]) + base16_value(text[3])) as u8,
            b: (16 * base16_value(text[4]) + base16_value(text[5])) as u8,
        }),
        !(text.len() == 6 && forall|i: int| 0 <= i < 6 ==> #[trigger] is_ascii_hex_digit(text[i]))
            ==> hex_color_of(text) is None,
{
    assert forall|c: char| #[trigger] hex_digit_value(c) is Some <==> is_ascii_hex_digit(c) by {}
    assert forall|c: char| is_ascii_hex_digit(c) implies #[trigger] hex_digit_value(c) == Some(
        base16_value(c) as u8,
    ) by {}
    if text.len() == 6 && forall|i: int| 0 <= i < 6 ==> #[trigger] is_ascii_hex_digit(text[i]) {
        assert(is_ascii_hex_digit(text[0]) && is_ascii_hex_digit(text[1]) && is_ascii_hex_digit(text[2]));
        assert(is_ascii_hex_digit(text[3]) && is_ascii_hex_digit(text[4]) && is_ascii_hex_digit(text[5]));
    } else if text.len() == 6 {
        let i = choose|i: int| 0 <= i < 6 && !#[trigger] is_ascii_hex_digit(text[i]);
        assert(hex_digit_value(text[i]) is None);
    }
}

/// A color that is not written as six hexadecimal digits.
#[derive(Clone, Copy, Debug, PartialEq, Eq, Structural)]
pub struct InvalidHexColor;

impl InvalidHexColor {
    /// The message shown for the rejected text.
    pub fn message(&self) -> (message: String)
        ensures
            message@ == "invalid color: expected exactly six hexadecimal digits (RRGGBB)"@,
    {
        String::from_str("invalid color: expected exactly six hexadecimal digits (RRGGBB)")
    }
}

fn hex_digit(c: char) -> (value: Option<u8>)
    ensures
        value == hex_digit_value(c),
{
    let code = c as u32;
    if 48 <= code && code <= 57 {
        Some((code - 48) as u8)
    } else if 65 <= code && code <= 70 {
        Some((code - 55) as u8)
    } else if 97 <= code && code <= 102 {
        Some((code - 87) as u8)
    } else {
        None
    }
}

/// Parses a color written `RRGGBB`, digits in either case.
pub fn parse_hex_color(text: &str) -> (color: Result<Rgb8, InvalidHexColor>)
    ensures
        color == (match hex_color_of(text@) {
            Some(c) => Ok::<Rgb8, InvalidHexColor>(c),
            None => Err(InvalidHexColor),
        }),
{
    let len = text.unicode_len();
    if len != 6 {
        return Err(InvalidHexColor);
    }
    let mut digits: [u8; 6] = [0; 6];
    let mut i: usize = 0;
    while i < 6
        invariant
            len == 6,
            text@.len() == 6,
            0 <= i <= 6,
            forall|j: int| 0 <= j < i ==> hex_digit_value(#[trigger] text@[j]) == Some(digits[j]),
        decreases 6 - i,
    {
        match hex_digit(text.get_char(i)) {
            Some(value) => {
                digits[i] = value;
            },
            None => {
                return Err(InvalidHexColor);
            },
        }
        i = i + 1;
    }
    proof {
        assert forall|j: int| 0 <= j < 6 implies (#[trigger] hex_digit_value(text@[j])) is Some by {
            assert(hex_digit_value(text@[j]) == Some(digits[j]));
        }
        assert(forall|j: int| 0 <= j < 6 ==> digits[j] < 16);
    }
    Ok(Rgb8 {
        r: digits[0] * 16 + digits[1],
        g: digits[2] * 16 + digits[3],
        b: digits[4] * 16 + digits[5],
    })
}

/// The four lighting zones of the G560, in their logical order.
#[derive(Clone, Copy, Debug, PartialEq, Eq, Structural)]
pub enum Zone {
    LeftRear,
    LeftFront,
    RightFront,
    RightRear,
}

/// Position of a zone in the logical order.
pub open spec fn zone_index(zone: Zone) -> int {
    match zone {
        Zone::LeftRear => 0,
        Zone::LeftFront => 1,
        Zone::RightFront => 2,
        Zone::RightRear => 3,
    }
}

impl Zone {
    /// All zones in logical order.
    pub fn all() -> (zones: [Zone; 4])
        ensures
            forall|i: int| 0 <= i < 4 ==> zone_index(#[trigger] zones[i]) == i,
    {
        [Zone::LeftRear, Zone::LeftFront, Zone::RightFront, Zone::RightRear]
    }

    /// Position of this zone in the logical order.
    pub fn index(self) -> (index: usize)
        ensures
            index == zone_index(self),
    {
        match self {
            Zone::LeftRear => 0,
            Zone::LeftFront => 1,
            Zone::RightFront => 2,
            Zone::RightRear => 3,
        }
    }
}

/// The value with every zone off.
pub open spec fn all_black() -> ZoneColors {
    ZoneColors([Rgb8 { r: 0, g: 0, b: 0 }, Rgb8 { r: 0, g: 0, b: 0 }, Rgb8 { r: 0, g: 0, b: 0 }, Rgb8 { r: 0, g: 0, b: 0 }])
}

/// One color per zone, indexed by the logical zone order.
#[derive(Clone, Copy, Debug, Default, Eq)]
pub struct ZoneColors(pub [Rgb8; 4]);

impl PartialEq for ZoneColors {
    fn eq(&self, other: &ZoneColors) -> (same: bool) {
        self.0[0] == other.0[0] && self.0[1] == other.0[1] && self.0[2] == other.0[2]
            && self.0[3] == other.0[3]
    }
}

impl vstd::std_specs::cmp::PartialEqSpecImpl for ZoneColors {
    open spec fn obeys_eq_spec() -> bool {
        true
    }

    open spec fn eq_spec(&self, other: &ZoneColors) -> bool {
        self.0[0] == other.0[0] && self.0[1] == other.0[1] && self.0[2] == other.0[2]
            && self.0[3] == other.0[3]
    }
}

impl ZoneColors {
    /// Every zone off.
    pub fn black() -> (black: ZoneColors)
        ensures
            black == all_black(),
    {
        ZoneColors([Rgb8::black(), Rgb8::black(), Rgb8::black(), Rgb8::black()])
    }

    /// The color of one zone.
    pub fn get(self, zone: Zone) -> (color: Rgb8)
        ensures
            color == self.0[zone_index(zone)],
    {
        self.0[zone.index()]
    }
}

/// The logical zone a client zone name refers to.
pub open spec fn zone_of_id(id: ZoneId) -> Zone {
    match id {
        ZoneId::LeftRear => Zone::LeftRear,
        ZoneId::LeftFront => Zone::LeftFront,
        ZoneId::RightFront => Zone::RightFront,
        ZoneId::RightRear => Zone::RightRear,
    }
}

/// The client name of a logical zone.
pub open spec fn id_of_zone(zone: Zone) -> ZoneId {
    match zone {
        Zone::LeftRear => ZoneId::LeftRear,
        Zone::LeftFront => ZoneId::LeftFront,
        Zone::RightFront => ZoneId::RightFront,
        Zone::RightRear => ZoneId::RightRear,
    }
}

impl From<ZoneId> for Zone {
    fn from(id: ZoneId) -> (zone: Zone) {
        match id {
            ZoneId::LeftRear => Zone::LeftRear,
            ZoneId::LeftFront => Zone::LeftFront,
            ZoneId::RightFront => Zone::RightFront,
            ZoneId::RightRear => Zone::RightRear,
        }
    }
}

impl vstd::std_specs::convert::FromSpecImpl<ZoneId> for Zone {
    open spec fn obeys_from_spec() -> bool {
        true
    }

    open spec fn from_spec(id: ZoneId) -> Zone {
        zone_of_id(id)
    }
}

impl From<Zone> for ZoneId {
    fn from(zone: Zone) -> (id: ZoneId) {
        match zone {
            Zone::LeftRear => ZoneId::LeftRear,
            Zone::LeftFront => ZoneId::LeftFront,
            Zone::RightFront => ZoneId::RightFront,
            Zone::RightRear => ZoneId::RightRear,
        }
    }
}

impl vstd::std_specs::convert::FromSpecImpl<Zone> for ZoneId {
    open spec fn obeys_from_spec() -> bool {
        true
    }

    open spec fn from_spec(zone: Zone) -> ZoneId {
        id_of_zone(zone)
    }
}

/// A client color as a device color.
pub open spec fn rgb_of_color(color: RgbColor) -> Rgb8 {
    Rgb8 { r: color.red, g: color.green, b: color.blue }
}

/// A device color as a client color.
pub open spec fn color_of_rgb(rgb: Rgb8) -> RgbColor {
    RgbColor { red: rgb.r, green: rgb.g, blue: rgb.b }
}

impl From<RgbColor> for Rgb8 {
    fn from(color: RgbColor) -> (rgb: Rgb8) {
        Rgb8 { r: color.red, g: color.green, b: color.blue }
    }
}

impl vstd::std_specs::convert::FromSpecImpl<RgbColor> for Rgb8 {
    open spec fn obeys_from_spec() -> bool {
        true
    }

    open spec fn from_spec(color: RgbColor) -> Rgb8 {
        rgb_of_color(color)
    }
}

impl From<Rgb8> for RgbColor {
    fn from(rgb: Rgb8) -> (color: RgbColor) {
        RgbColor { red: rgb.r, green: rgb.g, blue: rgb.b }
    }
}

impl vstd::std_specs::convert::FromSpecImpl<Rgb8> for RgbColor {
    open spec fn obeys_from_spec() -> bool {
        true
    }

    open spec fn from_spec(rgb: Rgb8) -> RgbColor {
        color_of_rgb(rgb)
    }
}

/// Converting a zone name to a zone and back, or a zone to its name and
/// back, gives back what was converted; the same holds for colors.
pub proof fn lemma_conversions_round_trip(id: ZoneId, zone: Zone, color: RgbColor, rgb: Rgb8)
    ensures
        id_of_zone(zone_of_id(id)) == id,
        zone_of_id(id_of_zone(zone)) == zone,
        zone_index(zone_of_id(id)) == crate::api::zone_id_index(id),
        rgb_of_color(color_of_rgb(rgb)) == rgb,
        color_of_rgb(rgb_of_color(color)) == color,
{
}

} // verus!
