use std::sync::Arc;

use logig560::engine::{
    blackout_generation, generation_is_live, normal_transition_durations, plan_write,
    resume_generation, CaptureRecoveryMetrics, CaptureRecoverySnapshot, LightingWriterState,
    RecoveryMetrics, RecoverySnapshot, RetryBackoff, SampledUpdate, WriteFailureResponse, WriteFailureTracker, WriteFollowUp,
    WriteOutcome, update_was_dropped, writer_keeps_running,
    WritePlan, ZoneMaskCache, CAPTURE_STALL_TIMEOUT_NANOS, LIGHT_UPDATE_INTERVAL_NANOS,
    NORMAL_FADE_TO_BLACK_NANOS,
};
use logig560::frame::MaskError;
use logig560::transition::{ZoneFade, DEFAULT_TRANSITION_DURATION_NANOS};
use logig560::{Rgb8, ZoneColors};

const MILLI: u64 = 1_000_000;
const BLACK: Rgb8 = Rgb8 { r: 0, g: 0, b: 0 };

#[test]
fn mask_cache_reuses_dimensions_and_rebuilds_on_either_dimension_change() {
    let mut cache = ZoneMaskCache::new();

    let initial = cache.get_or_compile(160, 90).unwrap();
    let same = cache.get_or_compile(160, 90).unwrap();
    assert!(Arc::ptr_eq(&initial, &same));

    let width_changed = cache.get_or_compile(161, 90).unwrap();
    assert!(!Arc::ptr_eq(&same, &width_changed));
    let same_new_width = cache.get_or_compile(161, 90).unwrap();
    assert!(Arc::ptr_eq(&width_changed, &same_new_width));

    let height_changed = cache.get_or_compile(161, 91).unwrap();
    assert!(!Arc::ptr_eq(&same_new_width, &height_changed));
}

#[test]
fn mask_cache_keeps_its_masks_when_a_size_cannot_be_compiled() {
    let mut cache = ZoneMaskCache::new();
    let held = cache.get_or_compile(4, 4).unwrap();
    assert!(matches!(cache.get_or_compile(0, 4), Err(MaskError::ZeroWidth)));
    let again = cache.cached_for(4, 4).unwrap();
    assert!(Arc::ptr_eq(&held, &again));
    assert!(cache.cached_for(5, 4).is_none());
}

fn update(red: u8) -> SampledUpdate {
    SampledUpdate {
        captured_at: 0,
        colors: ZoneColors([Rgb8 { r: red, g: 0, b: 0 }; 4]),
        capture_generation: 0,
    }
}

#[test]
fn writer_state_reports_each_unrendered_target_replacement_once() {
    let now = 10 * MILLI;
    let mut state = LightingWriterState::new();

    assert_eq!(state.accept_update(update(10), now, true), Some(false));
    assert_eq!(state.accept_update(update(20), now, true), Some(true));
    state.mark_displayed(ZoneColors([Rgb8 { r: 20, g: 0, b: 0 }; 4]));
    assert_eq!(state.accept_update(update(30), now, true), Some(false));
}

#[test]
fn writer_state_uses_90ms_transition_with_a_45ms_midpoint() {
    let now = 10 * MILLI;
    let red = Rgb8 { r: 255, g: 0, b: 0 };
    let target = ZoneColors([red; 4]);
    let sample = SampledUpdate { captured_at: 0, colors: target, capture_generation: 0 };
    let mut state = LightingWriterState::new();

    assert_eq!(state.accept_update(sample, now, true), Some(false));
    let midpoint = state.transition.fades_at(now + 45 * MILLI);
    for fade in midpoint {
        assert_eq!(
            fade,
            ZoneFade::Fading { start: BLACK, target: red, elapsed: 45 * MILLI, duration: 90 * MILLI }
        );
    }
    assert_eq!(state.transition.fades_at(now + 90 * MILLI), [ZoneFade::Settled(red); 4]);
    assert!(state.transition.is_complete(now + 90 * MILLI));
    assert!(!state.transition.is_complete(now + 89 * MILLI));
}

#[test]
fn normal_black_targets_fade_longer_per_zone() {
    let now = 10 * MILLI;
    let visible = Rgb8 { r: 80, g: 20, b: 5 };
    let blue = Rgb8 { r: 0, g: 0, b: 120 };
    let mut state = LightingWriterState::new();
    state.displayed = ZoneColors([visible; 4]);
    let target = ZoneColors([BLACK, blue, BLACK, blue]);
    let sample = SampledUpdate { captured_at: 0, colors: target, capture_generation: 0 };

    assert_eq!(state.accept_update(sample, now, true), Some(false));
    let at_ninety = state.transition.fades_at(now + 90 * MILLI);
    let fading_to_black =
        ZoneFade::Fading { start: visible, target: BLACK, elapsed: 90 * MILLI, duration: 200 * MILLI };
    assert_eq!(at_ninety[0], fading_to_black);
    assert_eq!(at_ninety[1], ZoneFade::Settled(blue));
    assert_eq!(at_ninety[2], fading_to_black);
    assert_eq!(at_ninety[3], ZoneFade::Settled(blue));
    assert_eq!(
        state.transition.fades_at(now + 200 * MILLI),
        [
            ZoneFade::Settled(BLACK),
            ZoneFade::Settled(blue),
            ZoneFade::Settled(BLACK),
            ZoneFade::Settled(blue)
        ]
    );
}

#[test]
fn fade_durations_depend_on_going_dark() {
    let lit = ZoneColors([Rgb8 { r: 9, g: 9, b: 9 }; 4]);
    let target = ZoneColors([BLACK, Rgb8 { r: 1, g: 0, b: 0 }, BLACK, BLACK]);
    assert_eq!(
        normal_transition_durations(lit, target),
        [
            NORMAL_FADE_TO_BLACK_NANOS,
            DEFAULT_TRANSITION_DURATION_NANOS,
            NORMAL_FADE_TO_BLACK_NANOS,
            NORMAL_FADE_TO_BLACK_NANOS
        ]
    );
    assert_eq!(
        normal_transition_durations(ZoneColors([BLACK; 4]), ZoneColors([BLACK; 4])),
        [DEFAULT_TRANSITION_DURATION_NANOS; 4]
    );
}

#[test]
fn accepted_update_schedules_the_next_write_one_interval_later() {
    let mut state = LightingWriterState::new();
    state.accept_update(update(1), 5 * MILLI, true);
    assert_eq!(state.next_write, Some(5 * MILLI + LIGHT_UPDATE_INTERVAL_NANOS));
    state.accept_update(update(2), 7 * MILLI, true);
    assert_eq!(state.next_write, Some(5 * MILLI + LIGHT_UPDATE_INTERVAL_NANOS));
    state.accept_update(update(3), 7 * MILLI, false);
    assert_eq!(state.next_write, Some(7 * MILLI + LIGHT_UPDATE_INTERVAL_NANOS));
    assert!(state.transition_active);
}

#[test]
fn safety_blackout_refuses_older_generations() {
    let mut state = LightingWriterState::new();
    state.accept_update(update(1), MILLI, true);
    let blackout = blackout_generation(0);
    let resume = resume_generation(blackout);
    assert!(state.prepare_safety(resume));
    assert_eq!(state.accept_update(update(5), 2 * MILLI, true), None);
    let fresh = SampledUpdate { capture_generation: resume, ..update(6) };
    assert_eq!(state.accept_update(fresh, 2 * MILLI, true), Some(false));
}

#[test]
fn generations_fence_frames_across_a_blackout() {
    assert_eq!(blackout_generation(0), 1);
    assert_eq!(blackout_generation(1), 1);
    assert_eq!(resume_generation(1), 2);
    assert_eq!(resume_generation(u64::MAX), 0);
    assert!(generation_is_live(2, 2));
    assert!(!generation_is_live(1, 1));
    assert!(!generation_is_live(0, 2));
}

#[test]
fn write_scheduling_stops_after_the_final_target() {
    let mut state = LightingWriterState::new();
    state.accept_update(update(9), 0, false);
    state.schedule_after_write(30 * MILLI, false);
    assert_eq!(state.next_write, Some(30 * MILLI + LIGHT_UPDATE_INTERVAL_NANOS));
    state.schedule_after_write(95 * MILLI, false);
    assert_eq!(state.next_write, Some(95 * MILLI));
    state.schedule_after_write(100 * MILLI, true);
    assert_eq!(state.next_write, None);
    assert!(!state.transition_active);
}

#[test]
fn dropping_and_expiring_clear_the_current_update() {
    let mut state = LightingWriterState::new();
    state.accept_update(update(9), 0, false);
    assert!(state.clear_as_dropped());
    assert!(!state.clear_as_dropped());
    state.accept_update(update(9), 0, false);
    state.mark_displayed(ZoneColors([Rgb8 { r: 9, g: 0, b: 0 }; 4]));
    state.expire();
    assert_eq!(state.displayed, ZoneColors([BLACK; 4]));
    assert!(state.current_update.is_none());
    state.accept_update(update(3), 0, false);
    state.go_idle();
    assert_eq!(state.next_write, None);
    state.mark_black();
    assert_eq!(state.displayed, ZoneColors([BLACK; 4]));
}

#[test]
fn retry_backoff_waits_250ms_then_doubles_and_caps_at_five_seconds() {
    let mut retry = RetryBackoff::default();
    for expected in [250, 500, 1_000, 2_000, 4_000, 5_000, 5_000] {
        assert_eq!(retry.next_delay(), expected);
    }
    retry.reset();
    assert_eq!(retry.next_delay(), 250);
}

#[test]
fn stale_captures_are_written_as_black() {
    assert_eq!(plan_write(None), WritePlan::Plain);
    assert_eq!(plan_write(Some(0)), WritePlan::Update);
    assert_eq!(plan_write(Some(CAPTURE_STALL_TIMEOUT_NANOS - 1)), WritePlan::Update);
    assert_eq!(plan_write(Some(CAPTURE_STALL_TIMEOUT_NANOS)), WritePlan::ExpireToBlack);
}

#[test]
fn three_failures_in_a_row_ask_for_a_reopen() {
    let mut tracker = WriteFailureTracker::new();
    assert_eq!(tracker.record_failure(), WriteFailureResponse::RetrySameSink);
    assert_eq!(tracker.record_failure(), WriteFailureResponse::RetrySameSink);
    assert_eq!(tracker.record_failure(), WriteFailureResponse::BlackoutAndReopen);
    assert!(tracker.is_below_threshold());
    assert_eq!(tracker.record_failure(), WriteFailureResponse::RetrySameSink);
    tracker.record_success();
    assert_eq!(tracker.record_failure(), WriteFailureResponse::RetrySameSink);
    assert_eq!(tracker.record_failure(), WriteFailureResponse::RetrySameSink);
    assert_eq!(tracker.record_failure(), WriteFailureResponse::BlackoutAndReopen);
}

#[test]
fn recovery_counters_are_shared_between_clones() {
    let metrics = RecoveryMetrics::new();
    let clone = metrics.clone();
    clone.record_open_failure();
    clone.record_write_failure();
    clone.record_write_failure();
    metrics.record_reopen();
    metrics.record_blackout_failure();
    assert_eq!(
        metrics.snapshot(),
        RecoverySnapshot {
            open_failures: 1,
            usb_write_failures: 2,
            reopen_count: 1,
            blackout_failures: 1
        }
    );

    let capture = CaptureRecoveryMetrics::new();
    capture.clone().record_stream_failure();
    capture.record_open_failure();
    capture.record_successful_reopen();
    capture.record_shutdown_failure();
    assert_eq!(
        capture.snapshot(),
        CaptureRecoverySnapshot {
            open_failures: 1,
            stream_failures: 1,
            successful_reopens: 1,
            shutdown_failures: 1
        }
    );
}

fn writer_with_update(generation_colors: ZoneColors) -> LightingWriterState {
    let mut state = LightingWriterState::new();
    let sample = SampledUpdate { captured_at: 0, colors: generation_colors, capture_generation: 0 };
    assert_eq!(state.accept_update(sample, 10 * MILLI, false), Some(false));
    state
}

#[test]
fn write_outcomes_decide_the_writer_follow_up() {
    let red = ZoneColors([Rgb8 { r: 200, g: 0, b: 0 }; 4]);

    let mut state = writer_with_update(red);
    let follow_up = state.apply_write_outcome(WriteOutcome::Rendered, red);
    assert_eq!(follow_up, WriteFollowUp { rendered: true, dropped: false, schedule: true, stop: false });
    assert_eq!(state.displayed, red);
    assert!(state.current_update_rendered);

    let mut state = writer_with_update(red);
    let follow_up = state.apply_write_outcome(WriteOutcome::Unchanged, red);
    assert_eq!(follow_up, WriteFollowUp { rendered: false, dropped: false, schedule: true, stop: false });

    let mut state = writer_with_update(red);
    let follow_up = state.apply_write_outcome(WriteOutcome::Expired, red);
    assert_eq!(follow_up, WriteFollowUp { rendered: false, dropped: true, schedule: true, stop: false });
    assert_eq!(state.displayed, ZoneColors([BLACK; 4]));
    assert!(state.current_update.is_none());

    let mut state = writer_with_update(red);
    let follow_up = state.apply_write_outcome(WriteOutcome::Cancelled, red);
    assert_eq!(follow_up, WriteFollowUp { rendered: false, dropped: true, schedule: false, stop: false });
    assert!(state.current_update.is_none());

    let mut state = writer_with_update(red);
    let follow_up = state.apply_write_outcome(WriteOutcome::Failed, red);
    assert_eq!(follow_up, WriteFollowUp { rendered: false, dropped: false, schedule: false, stop: true });
    assert!(state.current_update.is_some());
}

#[test]
fn blackout_outcome_marks_black_or_stops() {
    let red = ZoneColors([Rgb8 { r: 200, g: 0, b: 0 }; 4]);
    let mut state = writer_with_update(red);
    state.apply_write_outcome(WriteOutcome::Rendered, red);
    assert!(!state.apply_blackout_outcome(true));
    assert_eq!(state.displayed, ZoneColors([BLACK; 4]));
    let mut state = writer_with_update(red);
    state.apply_write_outcome(WriteOutcome::Rendered, red);
    assert!(state.apply_blackout_outcome(false));
    assert_eq!(state.displayed, red);
}

#[test]
fn dropped_updates_and_writer_lifetime() {
    assert!(update_was_dropped(None));
    assert!(update_was_dropped(Some(true)));
    assert!(!update_was_dropped(Some(false)));
    let idle = LightingWriterState::new();
    assert!(!writer_keeps_running(false, false, &idle));
    assert!(writer_keeps_running(true, false, &idle));
    assert!(writer_keeps_running(false, true, &idle));
    let fading = writer_with_update(ZoneColors([Rgb8 { r: 1, g: 1, b: 1 }; 4]));
    assert!(writer_keeps_running(false, false, &fading));
}
