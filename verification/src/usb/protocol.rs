//! The HID output report that sets one G560 zone to a solid color.

use vstd::prelude::*;

use crate::color::{zone_index, Rgb8, Zone};

verus! {

/// Length in bytes of every output report.
pub const REPORT_LEN: usize = 20;

/// The protocol index the device firmware uses for a logical zone.
pub open spec fn spec_zone_index(zone: Zone) -> u8 {
    match zone {
        Zone::LeftRear => 0x02,
        Zone::LeftFront => 0x00,
        Zone::RightFront => 0x01,
        Zone::RightRear => 0x03,
    }
}

/// The solid-color report for a protocol zone index: a fixed header, the
/// index, the mode byte, the three channels, then zero padding.
pub open spec fn solid_report(index: u8, color: Rgb8) -> Seq<u8> {
    seq![0x11u8, 0xffu8, 0x04u8, 0x3au8, index, 0x01u8, color.r, color.g, color.b]
        + Seq::new(11, |i: int| 0u8)
}

/// Protocol index of a logical zone (as mapped on firmware 90.64).
pub fn zone_protocol_index(zone: Zone) -> (index: u8)
    ensures
        index == spec_zone_index(zone),
        index <= 3,
{
    match zone {
        Zone::LeftRear => 0x02,
        Zone::LeftFront => 0x00,
        Zone::RightFront => 0x01,
        Zone::RightRear => 0x03,
    }
}

/// Report that sets the zone with protocol index `index` to `color`.
pub fn encode_solid_index(index: u8, color: Rgb8) -> (report: [u8; REPORT_LEN])
    ensures
        report@ == solid_report(index, color),
{
    let report: [u8; REPORT_LEN] = [
        0x11, 0xff, 0x04, 0x3a, index, 0x01, color.r, color.g, color.b, 0, 0, 0, 0, 0, 0, 0, 0, 0,
        0, 0,
    ];
    assert(report@ =~= solid_report(index, color));
    report
}

/// Report that sets a logical zone to `color`.
pub fn encode_solid(zone: Zone, color: Rgb8) -> (report: [u8; REPORT_LEN])
    ensures
        report@ == solid_report(spec_zone_index(zone), color),
{
    encode_solid_index(zone_protocol_index(zone), color)
}

/// Distinct logical zones are written to distinct protocol indices.
pub proof fn lemma_zone_index_injective(a: Zone, b: Zone)
    ensures
        spec_zone_index(a) == spec_zone_index(b) <==> a == b,
        spec_zone_index(a) <= 3,
{
}

} // verus!
