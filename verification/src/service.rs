//! The lighting service's decisions: how a client request maps onto the
//! controller, how write outcomes are recorded, what a snapshot reports and
//! when the capture permission must be saved.

use vstd::prelude::*;

use crate::api::{ApiError, CaptureBackend, LightingMode, ManualZoneUpdate, ServiceSnapshot};
use crate::color::{all_black, ZoneColors};
use crate::control::model::{
    confirm_step, failure_step, manual_update_step, set_lights_step, set_mode_step,
    setup_complete_step, ControllerModel, ModelEffect,
};
use crate::engine::{LightUpdateStatus, RecoverySnapshot};

verus! {

/// A request a client sends to the service.
pub enum ClientCommand {
    GetSnapshot,
    SetLightsEnabled { enabled: bool },
    SetMode { mode: LightingMode },
    SetManualZones { updates: Vec<ManualZoneUpdate> },
    MarkSetupComplete,
    ChooseDesktopDisplay,
    RestartCapture,
}

pub struct ClientRequest {
    pub id: u64,
    pub command: ClientCommand,
}

/// The service's answer to a request.
pub enum RequestResult {
    Succeeded { snapshot: ServiceSnapshot },
    Failed { error: ApiError },
}

/// What the service does for a request after updating the model.
#[derive(Clone, Copy, Debug, PartialEq, Eq)]
pub enum CommandPlan {
    /// Answer with the current snapshot; nothing else changes.
    Respond,
    /// Answer with this error; nothing changed.
    Reject(ApiError),
    /// Restart capture, first forgetting the saved capture permission if
    /// asked to.
    RestartCapture { clear_restore_token: bool },
    /// Save the configuration, then carry out this effect.
    Apply(ModelEffect),
}

/// Applies a client request to the model and says what the service must do
/// next. Snapshot requests and capture restarts leave the model untouched;
/// choosing a display only means something for the desktop portal backend.
pub fn plan_client_command(model: &mut ControllerModel, command: &ClientCommand, backend: CaptureBackend) -> (plan: CommandPlan)
    ensures
        match command {
            ClientCommand::GetSnapshot => plan == CommandPlan::Respond && final(model)@ == old(model)@,
            ClientCommand::SetLightsEnabled { enabled } => {
                let (next, effect) = set_lights_step(old(model)@, *enabled);
                final(model)@ == next && plan == CommandPlan::Apply(effect)
            },
            ClientCommand::SetMode { mode } => {
                let (next, effect) = set_mode_step(old(model)@, *mode);
                final(model)@ == next && plan == CommandPlan::Apply(effect)
            },
            ClientCommand::SetManualZones { updates } => {
                let (next, result) = manual_update_step(old(model)@, updates@);
                &&& final(model)@ == next
                &&& plan == match result {
                    Ok(effect) => CommandPlan::Apply(effect),
                    Err(error) => CommandPlan::Reject(error),
                }
            },
            ClientCommand::MarkSetupComplete => final(model)@ == setup_complete_step(old(model)@)
                && plan == CommandPlan::Apply(ModelEffect::NoWrite),
            ClientCommand::ChooseDesktopDisplay => final(model)@ == old(model)@ && plan == if backend
                == CaptureBackend::DesktopPortal {
                CommandPlan::RestartCapture { clear_restore_token: true }
            } else {
                CommandPlan::Respond
            },
            ClientCommand::RestartCapture => final(model)@ == old(model)@ && plan
                == CommandPlan::RestartCapture { clear_restore_token: false },
        },
{
    match command {
        ClientCommand::GetSnapshot => CommandPlan::Respond,
        ClientCommand::SetLightsEnabled { enabled } => CommandPlan::Apply(
            model.set_lights_enabled(*enabled),
        ),
        ClientCommand::SetMode { mode } => CommandPlan::Apply(model.set_mode(*mode)),
        ClientCommand::MarkSetupComplete => CommandPlan::Apply(model.mark_setup_complete()),
        ClientCommand::SetManualZones { updates } => match model.apply_manual_updates(
            updates.as_slice(),
        ) {
            Ok(effect) => CommandPlan::Apply(effect),
            Err(error) => CommandPlan::Reject(error),
        },
        ClientCommand::ChooseDesktopDisplay => {
            if backend != CaptureBackend::DesktopPortal {
                CommandPlan::Respond
            } else {
                CommandPlan::RestartCapture { clear_restore_token: true }
            }
        },
        ClientCommand::RestartCapture => CommandPlan::RestartCapture { clear_restore_token: false },
    }
}

/// Records the outcome of a write of `colors` forwarded from the engine
/// (`None` when the write failed): a rendered or unchanged write is
/// confirmed, a failure is recorded, and an expired update changes nothing.
/// Returns whether the model changed in a way worth publishing.
pub fn record_write_outcome(model: &mut ControllerModel, colors: ZoneColors, outcome: Option<LightUpdateStatus>) -> (publish: bool)
    ensures
        match outcome {
            Some(LightUpdateStatus::Rendered) | Some(LightUpdateStatus::Unchanged) => final(model)@
                == confirm_step(old(model)@, colors) && publish,
            Some(LightUpdateStatus::Expired) => final(model)@ == old(model)@ && !publish,
            None => final(model)@ == failure_step(old(model)@) && publish,
        },
{
    match outcome {
        Some(LightUpdateStatus::Rendered) | Some(LightUpdateStatus::Unchanged) => {
            model.confirm_write(colors);
            true
        },
        Some(LightUpdateStatus::Expired) => false,
        None => {
            model.record_failure();
            true
        },
    }
}

/// Records the outcome of a blackout forwarded from the engine: a success
/// confirms black, a failure changes nothing. Returns whether to publish.
pub fn record_blackout_outcome(model: &mut ControllerModel, succeeded: bool) -> (publish: bool)
    ensures
        succeeded ==> final(model)@ == confirm_step(old(model)@, all_black()) && publish,
        !succeeded ==> final(model)@ == old(model)@ && !publish,
{
    if succeeded {
        model.confirm_write(ZoneColors::black());
        true
    } else {
        false
    }
}

/// Whether an engine that stopped with an error (other than a cancelled
/// capture selection) must be followed by a blackout and a recorded
/// failure: only while content-aware lighting is wanted and the service is
/// not shutting down.
pub fn engine_failure_needs_blackout(model: &ControllerModel, shutting_down: bool) -> (needed: bool)
    ensures
        needed == (model@.config.mode == LightingMode::ContentAware && model@.config.lights_enabled
            && !shutting_down),
{
    let config = model.config();
    config.mode == LightingMode::ContentAware && config.lights_enabled && !shutting_down
}

/// What the service does once its initial blackout succeeded.
#[derive(Clone, Copy, Debug, PartialEq, Eq, Structural)]
pub enum StartupAction {
    /// Write the saved manual colors.
    WriteManual,
    /// Start content-aware capture.
    StartEngine,
    /// Keep the lights off.
    StayDark,
}

/// The saved configuration decides the start: with the lights on, manual
/// mode writes its colors and content-aware mode starts the engine; with
/// the lights off nothing more happens.
pub fn startup_action(model: &ControllerModel) -> (action: StartupAction)
    ensures
        action == if !model@.config.lights_enabled {
            StartupAction::StayDark
        } else if model@.config.mode == LightingMode::Manual {
            StartupAction::WriteManual
        } else {
            StartupAction::StartEngine
        },
{
    let config = model.config();
    if !config.lights_enabled {
        StartupAction::StayDark
    } else if config.mode == LightingMode::Manual {
        StartupAction::WriteManual
    } else {
        StartupAction::StartEngine
    }
}

/// What the running engine reports for a snapshot.
#[derive(Clone, Copy, Debug, PartialEq, Eq)]
pub struct EngineReport {
    pub backend: CaptureBackend,
    pub captured_frames: u64,
    pub dropped_frames: u64,
    pub capture_stalls: u64,
    pub elapsed_millis: u64,
}

/// Frames per second times 1000 over the engine's lifetime (0 before the
/// first millisecond); the frame count saturates before scaling.
pub open spec fn spec_capture_rate(captured: u64, elapsed_millis: u64) -> u64 {
    if elapsed_millis == 0 {
        0
    } else {
        let scaled = if captured * 1_000_000 > u64::MAX {
            u64::MAX as int
        } else {
            captured * 1_000_000
        };
        (scaled / (elapsed_millis as int)) as u64
    }
}

pub fn capture_rate_millihertz(captured: u64, elapsed_millis: u64) -> (rate: u64)
    ensures
        rate == spec_capture_rate(captured, elapsed_millis),
{
    if elapsed_millis == 0 {
        return 0;
    }
    let scaled = match captured.checked_mul(1_000_000) {
        Some(product) => product,
        None => u64::MAX,
    };
    scaled / elapsed_millis
}

/// Adds what the engine and the light sink know to a model snapshot: the
/// capture backend and capture counters while an engine runs, and the USB
/// recovery counters always.
pub fn augment_snapshot(snapshot: ServiceSnapshot, engine: Option<EngineReport>, sink: RecoverySnapshot) -> (augmented: ServiceSnapshot)
    ensures
        augmented.capture_backend == match engine {
            Some(report) => Some(report.backend),
            None => None::<CaptureBackend>,
        },
        augmented.diagnostics.captured_frames == match engine {
            Some(report) => report.captured_frames,
            None => snapshot.diagnostics.captured_frames,
        },
        augmented.diagnostics.newest_value_replacements == match engine {
            Some(report) => report.dropped_frames,
            None => snapshot.diagnostics.newest_value_replacements,
        },
        augmented.diagnostics.capture_stalls == match engine {
            Some(report) => report.capture_stalls,
            None => snapshot.diagnostics.capture_stalls,
        },
        augmented.diagnostics.capture_rate_millihertz == match engine {
            Some(report) => spec_capture_rate(report.captured_frames, report.elapsed_millis),
            None => snapshot.diagnostics.capture_rate_millihertz,
        },
        augmented.diagnostics.usb_recoveries == sink.reopen_count,
        augmented.diagnostics.usb_report_failures == sink.usb_write_failures,
        augmented.diagnostics.last_successful_write_age_ms
            == snapshot.diagnostics.last_successful_write_age_ms,
        augmented.api_version == snapshot.api_version,
        augmented.revision == snapshot.revision,
        augmented.lights_enabled == snapshot.lights_enabled,
        augmented.mode == snapshot.mode,
        augmented.manual_zones == snapshot.manual_zones,
        augmented.pending == snapshot.pending,
        augmented.service_health == snapshot.service_health,
        augmented.device_health == snapshot.device_health,
        augmented.capture_health == snapshot.capture_health,
        augmented.writer_health == snapshot.writer_health,
        augmented.confirmed_colors == snapshot.confirmed_colors,
        augmented.setup_complete == snapshot.setup_complete,
{
    let mut snapshot = snapshot;
    match engine {
        Some(report) => {
            snapshot.capture_backend = Some(report.backend);
            snapshot.diagnostics.captured_frames = report.captured_frames;
            snapshot.diagnostics.newest_value_replacements = report.dropped_frames;
            snapshot.diagnostics.capture_stalls = report.capture_stalls;
            snapshot.diagnostics.capture_rate_millihertz = capture_rate_millihertz(
                report.captured_frames,
                report.elapsed_millis,
            );
        },
        None => {
            snapshot.capture_backend = None;
        },
    }
    snapshot.diagnostics.usb_recoveries = sink.reopen_count;
    snapshot.diagnostics.usb_report_failures = sink.usb_write_failures;
    snapshot
}

fn same_token(a: &String, b: &String) -> (same: bool)
    ensures
        same == (a@ == b@),
{
    crate::setup::str_eq(a.as_str(), b.as_str())
}

/// The restore token to save after the portal granted `granted`, if the
/// saved one differs: a granted token is kept unless it is already saved.
pub fn restore_token_to_save(saved: &Option<String>, granted: &Option<String>) -> (save: Option<String>)
    ensures
        match granted {
            None => save is None,
            Some(token) => match saved {
                Some(current) if current@ == token@ => save is None,
                _ => save matches Some(new) && new@ == token@,
            },
        },
{
    match granted {
        None => None,
        Some(token) => match saved {
            Some(current) => {
                if same_token(current, token) {
                    None
                } else {
                    Some(token.clone())
                }
            },
            None => Some(token.clone()),
        },
    }
}

/// A client's view of its connection to the service.
#[derive(Clone, Debug)]
pub enum ConnectionState {
    Connecting,
    Connected,
    Disconnected { reason: String },
}

/// The pause before a client's first reconnection attempt, in milliseconds.
pub const RECONNECT_INITIAL_MILLIS: u64 = 250;

/// The longest pause between reconnection attempts, in milliseconds.
pub const RECONNECT_MAX_MILLIS: u64 = 5000;

/// The pause after the one of `current` milliseconds: twice as long, up to
/// the ceiling.
pub fn next_reconnect_delay_millis(current: u64) -> (next: u64)
    ensures
        next == (if 2 * current <= RECONNECT_MAX_MILLIS { 2 * current } else { RECONNECT_MAX_MILLIS as int }),
{
    if current <= RECONNECT_MAX_MILLIS / 2 {
        current * 2
    } else {
        RECONNECT_MAX_MILLIS
    }
}

} // verus!
