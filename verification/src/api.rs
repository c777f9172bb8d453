//! Types shared with clients of the lighting service, and validation of
//! grouped manual-zone updates.

use vstd::prelude::*;

verus! {

/// Version of the client protocol that snapshots report.
pub const API_VERSION: u32 = 1;

/// The name the lighting service owns on the session bus.
pub const BUS_NAME: &'static str = "org.logilightshow.Service1";

/// The lighting service's object path on the session bus.
pub const OBJECT_PATH: &'static str = "/org/logilightshow/Service1";

/// The lighting service's interface name.
pub const INTERFACE_NAME: &'static str = "org.logilightshow.Service1";

/// A logical speaker zone as clients name it.
#[derive(Clone, Copy, Debug, PartialEq, Eq, Structural)]
pub enum ZoneId {
    LeftRear,
    LeftFront,
    RightFront,
    RightRear,
}

#[derive(Clone, Copy, Debug, PartialEq, Eq, Structural)]
pub enum LightingMode {
    Manual,
    ContentAware,
}

#[derive(Clone, Copy, Debug, PartialEq, Eq, Structural)]
pub enum CaptureBackend {
    DesktopPortal,
    Gamescope,
}

#[derive(Clone, Copy, Debug, PartialEq, Eq, Structural)]
pub enum HealthState {
    Unknown,
    Starting,
    Ready,
    Recovering,
    Unavailable,
    Failed,
}

#[derive(Clone, Copy, Debug, PartialEq, Eq, Structural)]
pub struct RgbColor {
    pub red: u8,
    pub green: u8,
    pub blue: u8,
}

#[derive(Clone, Copy, Debug, PartialEq, Eq, Structural)]
pub struct ManualZone {
    pub zone: ZoneId,
    pub color: RgbColor,
    pub brightness: u8,
}

#[derive(Clone, Copy, Debug, PartialEq, Eq, Structural)]
pub struct ZoneColor {
    pub zone: ZoneId,
    pub color: RgbColor,
}

#[derive(Clone, Copy, Debug, PartialEq, Eq, Structural)]
pub struct ManualZoneUpdate {
    pub zone: ZoneId,
    pub color: RgbColor,
    pub brightness: u8,
}

#[derive(Clone, Copy, Debug, PartialEq, Eq)]
pub struct DiagnosticCounters {
    pub captured_frames: u64,
    pub newest_value_replacements: u64,
    pub capture_stalls: u64,
    pub usb_recoveries: u64,
    pub usb_report_failures: u64,
    pub capture_rate_millihertz: u64,
    pub last_successful_write_age_ms: Option<u64>,
}

#[derive(Clone, Debug, PartialEq, Eq)]
pub struct ServiceSnapshot {
    pub api_version: u32,
    pub revision: u64,
    pub lights_enabled: bool,
    pub mode: LightingMode,
    pub manual_zones: Vec<ManualZone>,
    pub pending: bool,
    pub capture_backend: Option<CaptureBackend>,
    pub service_health: HealthState,
    pub device_health: HealthState,
    pub capture_health: HealthState,
    pub writer_health: HealthState,
    pub diagnostics: DiagnosticCounters,
    pub confirmed_colors: Vec<ZoneColor>,
    pub setup_complete: bool,
}

/// Errors that the service answers a refused request with.
#[derive(Clone, Copy, Debug, PartialEq, Eq, Structural)]
pub enum ApiError {
    EmptyManualUpdate,
    DuplicateZone(ZoneId),
    InvalidBrightness(u8),
    ModeConflict,
}

/// Position of a zone in the logical order left-rear, left-front,
/// right-front, right-rear.
pub open spec fn zone_id_index(zone: ZoneId) -> int {
    match zone {
        ZoneId::LeftRear => 0,
        ZoneId::LeftFront => 1,
        ZoneId::RightFront => 2,
        ZoneId::RightRear => 3,
    }
}

/// What is wrong with update `i` given the updates before it, if anything:
/// the brightness is checked before the zone is compared with earlier ones.
pub open spec fn update_error_at(updates: Seq<ManualZoneUpdate>, i: int) -> Option<ApiError> {
    if updates[i].brightness > 100 {
        Some(ApiError::InvalidBrightness(updates[i].brightness))
    } else if exists|j: int| 0 <= j < i && updates[j].zone == updates[i].zone {
        Some(ApiError::DuplicateZone(updates[i].zone))
    } else {
        None
    }
}

/// The first error among the first `n` updates, scanning in order.
pub open spec fn first_update_error(updates: Seq<ManualZoneUpdate>, n: nat) -> Option<ApiError>
    decreases n,
{
    if n == 0 {
        None
    } else {
        match first_update_error(updates, (n - 1) as nat) {
            Some(error) => Some(error),
            None => update_error_at(updates, n - 1),
        }
    }
}

/// The outcome of validating a grouped manual update.
pub open spec fn manual_updates_verdict(updates: Seq<ManualZoneUpdate>) -> Result<(), ApiError> {
    if updates.len() == 0 {
        Err(ApiError::EmptyManualUpdate)
    } else {
        match first_update_error(updates, updates.len()) {
            Some(error) => Err(error),
            None => Ok(()),
        }
    }
}

/// A grouped update is acceptable: it names at least one zone, no zone twice,
/// and every brightness lies in 0..=100.
pub open spec fn manual_updates_acceptable(updates: Seq<ManualZoneUpdate>) -> bool {
    &&& updates.len() > 0
    &&& forall|i: int| 0 <= i < updates.len() ==> #[trigger] updates[i].brightness <= 100
    &&& forall|i: int, j: int|
        0 <= i < j < updates.len() ==> #[trigger] updates[i].zone != #[trigger] updates[j].zone
}

proof fn lemma_first_error_none_iff(updates: Seq<ManualZoneUpdate>, n: nat)
    requires
        n <= updates.len(),
    ensures
        first_update_error(updates, n) is None <==> (
            (forall|i: int| 0 <= i < n ==> #[trigger] updates[i].brightness <= 100)
            && (forall|i: int, j: int|
                0 <= i < j < n ==> #[trigger] updates[i].zone != #[trigger] updates[j].zone)),
    decreases n,
{
    if n > 0 {
        lemma_first_error_none_iff(updates, (n - 1) as nat);
        let k = n - 1;
        if first_update_error(updates, n) is None {
            assert forall|i: int, j: int| 0 <= i < j < n implies #[trigger] updates[i].zone
                != #[trigger] updates[j].zone by {
                if j == k {
                    assert(update_error_at(updates, k) is None);
                }
            }
        }
    }
}

/// Checks a grouped manual update: at least one zone, no zone twice, and
/// brightness at most 100, reporting the first problem in list order.
pub fn validate_manual_updates(updates: &[ManualZoneUpdate]) -> (result: Result<(), ApiError>)
    ensures
        result == manual_updates_verdict(updates@),
        result is Ok <==> manual_updates_acceptable(updates@),
{
    proof {
        lemma_first_error_none_iff(updates@, updates@.len());
    }
    if updates.len() == 0 {
        return Err(ApiError::EmptyManualUpdate);
    }
    let mut seen: [bool; 4] = [false; 4];
    let mut i: usize = 0;
    while i < updates.len()
        invariant
            i <= updates@.len(),
            updates@.len() > 0,
            first_update_error(updates@, i as nat) is None,
            forall|z: ZoneId| #[trigger] seen[zone_id_index(z)] <==> exists|j: int|
                0 <= j < i && updates@[j].zone == z,
        decreases updates@.len() - i,
    {
        let update = updates[i];
        if update.brightness > 100 {
            assert(first_update_error(updates@, (i + 1) as nat) == Some(
                ApiError::InvalidBrightness(update.brightness),
            ));
            proof {
                lemma_first_error_prefix(updates@, (i + 1) as nat, updates@.len());
            }
            return Err(ApiError::InvalidBrightness(update.brightness));
        }
        let index: usize = match update.zone {
            ZoneId::LeftRear => 0,
            ZoneId::LeftFront => 1,
            ZoneId::RightFront => 2,
            ZoneId::RightRear => 3,
        };
        assert(index == zone_id_index(update.zone));
        if seen[index] {
            assert(seen[zone_id_index(update.zone)]);
            assert(first_update_error(updates@, (i + 1) as nat) == Some(
                ApiError::DuplicateZone(update.zone),
            ));
            proof {
                lemma_first_error_prefix(updates@, (i + 1) as nat, updates@.len());
            }
            return Err(ApiError::DuplicateZone(update.zone));
        }
        seen[index] = true;
        assert(update_error_at(updates@, i as int) is None);
        assert forall|z: ZoneId| #[trigger] seen[zone_id_index(z)] <==> exists|j: int|
            0 <= j < i + 1 && updates@[j].zone == z by {
            if z == update.zone {
                assert(updates@[i as int].zone == z);
            } else {
                assert(zone_id_index(z) != index);
            }
        }
        i = i + 1;
    }
    Ok(())
}

/// Once an error is found in a prefix, it stays the first error of any
/// longer prefix.
proof fn lemma_first_error_prefix(updates: Seq<ManualZoneUpdate>, m: nat, n: nat)
    requires
        m <= n,
        first_update_error(updates, m) is Some,
    ensures
        first_update_error(updates, n) == first_update_error(updates, m),
    decreases n - m,
{
    if n > m {
        lemma_first_error_prefix(updates, m, (n - 1) as nat);
    }
}

} // verus!
