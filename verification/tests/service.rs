use logig560::config::AppConfig;
use logig560::control::model::{ControllerModel, ModelEffect};
use logig560::engine::{LightUpdateStatus, RecoverySnapshot};
use logig560::service::{
    augment_snapshot, capture_rate_millihertz, engine_failure_needs_blackout,
    next_reconnect_delay_millis, plan_client_command, record_blackout_outcome,
    record_write_outcome, restore_token_to_save, startup_action, ClientCommand, CommandPlan,
    EngineReport, StartupAction,
    RECONNECT_INITIAL_MILLIS, RECONNECT_MAX_MILLIS,
};
use logig560::{
    ApiError, CaptureBackend, HealthState, LightingMode, ManualZoneUpdate, Rgb8, RgbColor,
    ZoneColors, ZoneId,
};

const RED: Rgb8 = Rgb8 { r: 255, g: 0, b: 0 };

fn model() -> ControllerModel {
    ControllerModel::new(AppConfig::default()).unwrap()
}

#[test]
fn snapshot_requests_change_nothing() {
    let mut model = model();
    let before = model.snapshot();
    assert_eq!(
        plan_client_command(&mut model, &ClientCommand::GetSnapshot, CaptureBackend::DesktopPortal),
        CommandPlan::Respond
    );
    assert_eq!(model.snapshot(), before);
}

#[test]
fn manual_updates_apply_or_are_rejected() {
    let mut model = model();
    let red = ManualZoneUpdate {
        zone: ZoneId::LeftRear,
        color: RgbColor { red: 255, green: 0, blue: 0 },
        brightness: 100,
    };
    let plan = plan_client_command(
        &mut model,
        &ClientCommand::SetManualZones { updates: vec![red] },
        CaptureBackend::DesktopPortal,
    );
    assert!(matches!(plan, CommandPlan::Apply(ModelEffect::Write(colors)) if colors.0[0] == RED));
    let plan = plan_client_command(
        &mut model,
        &ClientCommand::SetManualZones { updates: vec![] },
        CaptureBackend::DesktopPortal,
    );
    assert_eq!(plan, CommandPlan::Reject(ApiError::EmptyManualUpdate));
}

#[test]
fn choosing_a_display_only_restarts_the_portal_capture() {
    let mut model = model();
    assert_eq!(
        plan_client_command(&mut model, &ClientCommand::ChooseDesktopDisplay, CaptureBackend::DesktopPortal),
        CommandPlan::RestartCapture { clear_restore_token: true }
    );
    assert_eq!(
        plan_client_command(&mut model, &ClientCommand::ChooseDesktopDisplay, CaptureBackend::Gamescope),
        CommandPlan::Respond
    );
    assert_eq!(
        plan_client_command(&mut model, &ClientCommand::RestartCapture, CaptureBackend::Gamescope),
        CommandPlan::RestartCapture { clear_restore_token: false }
    );
}

#[test]
fn mode_and_light_requests_carry_the_model_effect() {
    let mut model = model();
    assert_eq!(
        plan_client_command(
            &mut model,
            &ClientCommand::SetMode { mode: LightingMode::ContentAware },
            CaptureBackend::DesktopPortal
        ),
        CommandPlan::Apply(ModelEffect::StartContentAware)
    );
    assert_eq!(
        plan_client_command(
            &mut model,
            &ClientCommand::SetLightsEnabled { enabled: false },
            CaptureBackend::DesktopPortal
        ),
        CommandPlan::Apply(ModelEffect::PriorityBlackout)
    );
    assert_eq!(
        plan_client_command(&mut model, &ClientCommand::MarkSetupComplete, CaptureBackend::DesktopPortal),
        CommandPlan::Apply(ModelEffect::NoWrite)
    );
    assert!(model.snapshot().setup_complete);
}

#[test]
fn write_outcomes_confirm_or_record_failures() {
    let mut model = model();
    let colors = ZoneColors([RED; 4]);
    assert!(record_write_outcome(&mut model, colors, Some(LightUpdateStatus::Rendered)));
    assert_eq!(model.snapshot().writer_health, HealthState::Ready);
    assert_eq!(model.snapshot().confirmed_colors[0].color, RgbColor::from(RED));

    let before = model.snapshot();
    assert!(!record_write_outcome(&mut model, ZoneColors::black(), Some(LightUpdateStatus::Expired)));
    assert_eq!(model.snapshot(), before);

    assert!(record_write_outcome(&mut model, colors, None));
    assert_eq!(model.snapshot().writer_health, HealthState::Failed);
}

#[test]
fn blackout_outcomes_confirm_black_only_on_success() {
    let mut model = model();
    record_write_outcome(&mut model, ZoneColors([RED; 4]), Some(LightUpdateStatus::Unchanged));
    let before = model.snapshot();
    assert!(!record_blackout_outcome(&mut model, false));
    assert_eq!(model.snapshot(), before);
    assert!(record_blackout_outcome(&mut model, true));
    assert_eq!(model.snapshot().confirmed_colors[2].color, RgbColor::from(Rgb8::black()));
}

#[test]
fn engine_failures_black_out_only_while_content_aware_lighting_is_wanted() {
    let manual = model();
    assert!(!engine_failure_needs_blackout(&manual, false));
    let content = ControllerModel::new(AppConfig {
        mode: LightingMode::ContentAware,
        ..AppConfig::default()
    })
    .unwrap();
    assert!(engine_failure_needs_blackout(&content, false));
    assert!(!engine_failure_needs_blackout(&content, true));
    let dark = ControllerModel::new(AppConfig {
        mode: LightingMode::ContentAware,
        lights_enabled: false,
        ..AppConfig::default()
    })
    .unwrap();
    assert!(!engine_failure_needs_blackout(&dark, false));
}

#[test]
fn capture_rate_is_in_millihertz() {
    assert_eq!(capture_rate_millihertz(0, 0), 0);
    assert_eq!(capture_rate_millihertz(20, 1_000), 20_000);
    assert_eq!(capture_rate_millihertz(1, 3), 333_333);
    assert_eq!(capture_rate_millihertz(u64::MAX, 1), u64::MAX);
}

#[test]
fn snapshots_carry_engine_and_usb_counters() {
    let snapshot = model().snapshot();
    let sink = RecoverySnapshot {
        open_failures: 4,
        usb_write_failures: 3,
        reopen_count: 2,
        blackout_failures: 1,
    };
    let report = EngineReport {
        backend: CaptureBackend::Gamescope,
        captured_frames: 40,
        dropped_frames: 5,
        capture_stalls: 1,
        elapsed_millis: 2_000,
    };
    let augmented = augment_snapshot(snapshot.clone(), Some(report), sink);
    assert_eq!(augmented.capture_backend, Some(CaptureBackend::Gamescope));
    assert_eq!(augmented.diagnostics.captured_frames, 40);
    assert_eq!(augmented.diagnostics.newest_value_replacements, 5);
    assert_eq!(augmented.diagnostics.capture_stalls, 1);
    assert_eq!(augmented.diagnostics.capture_rate_millihertz, 20_000);
    assert_eq!(augmented.diagnostics.usb_recoveries, 2);
    assert_eq!(augmented.diagnostics.usb_report_failures, 3);
    assert_eq!(augmented.revision, snapshot.revision);

    let idle = augment_snapshot(snapshot.clone(), None, sink);
    assert_eq!(idle.capture_backend, None);
    assert_eq!(idle.diagnostics.captured_frames, snapshot.diagnostics.captured_frames);
}

#[test]
fn a_granted_token_is_saved_unless_it_is_already_saved() {
    let token = Some("abc".to_owned());
    assert_eq!(restore_token_to_save(&None, &token), token);
    assert_eq!(restore_token_to_save(&token, &token), None);
    assert_eq!(restore_token_to_save(&Some("old".to_owned()), &token), token);
    assert_eq!(restore_token_to_save(&token, &None), None);
}

#[test]
fn reconnection_pauses_double_up_to_five_seconds() {
    let mut delay = RECONNECT_INITIAL_MILLIS;
    let mut seen = vec![delay];
    for _ in 0..6 {
        delay = next_reconnect_delay_millis(delay);
        seen.push(delay);
    }
    assert_eq!(seen, [250, 500, 1_000, 2_000, 4_000, 5_000, 5_000]);
    assert_eq!(next_reconnect_delay_millis(u64::MAX), RECONNECT_MAX_MILLIS);
}

#[test]
fn startup_follows_the_saved_mode_and_light_switch() {
    assert_eq!(startup_action(&model()), StartupAction::WriteManual);
    let content = ControllerModel::new(AppConfig {
        mode: LightingMode::ContentAware,
        ..AppConfig::default()
    })
    .unwrap();
    assert_eq!(startup_action(&content), StartupAction::StartEngine);
    let dark = ControllerModel::new(AppConfig {
        mode: LightingMode::ContentAware,
        lights_enabled: false,
        ..AppConfig::default()
    })
    .unwrap();
    assert_eq!(startup_action(&dark), StartupAction::StayDark);
}
