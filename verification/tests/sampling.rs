use logig560::capture::brightness::{frame_brightness, CaptureTestSummary, FrameBrightness};
use logig560::engine::CAPTURE_STALL_TIMEOUT_NANOS;
use logig560::frame::RgbFrame;
use logig560::sampling::{
    capture_outcome, dropped_frames, engine_outcome, CaptureOutcome, EngineErrorSource,
    EngineOutcome, SamplingAction, SamplingEvent, SamplingLoop, WriterEnding,
};

#[test]
fn stall_after_half_a_second_requests_one_safety_blackout() {
    let mut sampling = SamplingLoop::new(1_000);
    assert_eq!(sampling.stall_deadline(), Some(1_000 + CAPTURE_STALL_TIMEOUT_NANOS));
    let early = SamplingEvent::StallTimerFired { now: 1_000 + CAPTURE_STALL_TIMEOUT_NANOS - 1 };
    assert_eq!(sampling.step(early), SamplingAction::Wait);
    let due = SamplingEvent::StallTimerFired { now: 1_000 + CAPTURE_STALL_TIMEOUT_NANOS };
    assert_eq!(sampling.step(due), SamplingAction::RequestSafetyBlackout);
    assert_eq!(sampling.capture_stalls(), 1);
    assert_eq!(sampling.stall_deadline(), None);
    assert_eq!(sampling.step(due), SamplingAction::Wait);
    assert_eq!(sampling.capture_stalls(), 1);
}

#[test]
fn live_frame_rearms_the_stall_timer() {
    let mut sampling = SamplingLoop::new(0);
    sampling.step(SamplingEvent::StallTimerFired { now: CAPTURE_STALL_TIMEOUT_NANOS });
    let arrived = SamplingEvent::FrameArrived { frame_generation: 2, current_generation: 2, now: 7_000 };
    assert_eq!(sampling.step(arrived), SamplingAction::SampleFrame);
    assert_eq!(sampling.stall_deadline(), Some(7_000 + CAPTURE_STALL_TIMEOUT_NANOS));
}

#[test]
fn fenced_frames_are_dropped_and_counted() {
    let mut sampling = SamplingLoop::new(0);
    let stale = SamplingEvent::FrameArrived { frame_generation: 1, current_generation: 2, now: 10 };
    assert_eq!(sampling.step(stale), SamplingAction::DropFrame);
    assert_eq!(sampling.stall_deadline(), Some(CAPTURE_STALL_TIMEOUT_NANOS));
    let ready = SamplingEvent::SampleReady { frame_generation: 1, current_generation: 3, cancel_set: false };
    assert_eq!(sampling.step(ready), SamplingAction::DropFrame);
    assert_eq!(sampling.step(SamplingEvent::UpdateSent { replaced: true }), SamplingAction::CountReplaced);
    assert_eq!(sampling.step(SamplingEvent::UpdateSent { replaced: false }), SamplingAction::Wait);
    assert_eq!(sampling.sampled_replacements(), 3);
}

#[test]
fn live_sample_is_sent_unless_cancelled() {
    let mut sampling = SamplingLoop::new(0);
    let ready = SamplingEvent::SampleReady { frame_generation: 4, current_generation: 4, cancel_set: false };
    assert_eq!(sampling.step(ready), SamplingAction::SendUpdate);
    let cancelled = SamplingEvent::SampleReady { frame_generation: 4, current_generation: 4, cancel_set: true };
    assert_eq!(sampling.step(cancelled), SamplingAction::Shutdown);
    assert!(!sampling.failed());
}

#[test]
fn every_ending_shuts_down_and_stays_down() {
    for event in [
        SamplingEvent::Cancelled,
        SamplingEvent::CancelSignal { set: true },
        SamplingEvent::FrameChannelClosed,
        SamplingEvent::UpdateChannelClosed,
    ] {
        let mut sampling = SamplingLoop::new(0);
        assert_eq!(sampling.step(event), SamplingAction::Shutdown);
        assert!(!sampling.failed());
        let frame = SamplingEvent::FrameArrived { frame_generation: 0, current_generation: 0, now: 1 };
        assert_eq!(sampling.step(frame), SamplingAction::Shutdown);
    }
    let mut sampling = SamplingLoop::new(0);
    assert_eq!(sampling.step(SamplingEvent::CancelSignal { set: false }), SamplingAction::Wait);
    assert_eq!(sampling.step(SamplingEvent::SafetyBlackoutFailed), SamplingAction::Shutdown);
    assert!(sampling.failed());
    let mut sampling = SamplingLoop::new(0);
    assert_eq!(sampling.step(SamplingEvent::SamplingFailed), SamplingAction::Shutdown);
    assert!(sampling.failed());
}

#[test]
fn primary_error_order_and_writer_failures() {
    assert_eq!(
        engine_outcome(true, true, true, WriterEnding::Completed),
        EngineOutcome::Primary(EngineErrorSource::Sampling)
    );
    assert_eq!(
        engine_outcome(false, true, true, WriterEnding::Failed),
        EngineOutcome::PrimaryAndWriter(EngineErrorSource::Capture)
    );
    assert_eq!(
        engine_outcome(false, false, true, WriterEnding::Completed),
        EngineOutcome::Primary(EngineErrorSource::TeardownBlackout)
    );
    assert_eq!(engine_outcome(false, false, false, WriterEnding::Failed), EngineOutcome::WriterFailed);
    assert_eq!(engine_outcome(true, false, false, WriterEnding::JoinFailed), EngineOutcome::WriterJoinFailed);
    assert_eq!(engine_outcome(false, false, false, WriterEnding::Completed), EngineOutcome::Stats);
}

#[test]
fn dropped_frames_add_up_or_overflow() {
    assert_eq!(dropped_frames(2, 3, 4), Some(9));
    assert_eq!(dropped_frames(u64::MAX, 1, 0), None);
    assert_eq!(dropped_frames(u64::MAX - 1, 0, 1), Some(u64::MAX));
}

#[test]
fn capture_errors_come_first() {
    assert_eq!(capture_outcome(false, false), CaptureOutcome::Stats);
    assert_eq!(capture_outcome(true, false), CaptureOutcome::CaptureError);
    assert_eq!(capture_outcome(false, true), CaptureOutcome::ShutdownError);
    assert_eq!(capture_outcome(true, true), CaptureOutcome::BothErrors);
}

#[test]
fn brightness_reads_complete_rows_up_to_the_width() {
    // Two pixels per row, a stride of 8 bytes (2 padding bytes), two full
    // rows and a trailing partial row that is not read.
    let pixels = vec![
        10, 40, 5, 0, 0, 0, 250, 250, //
        31, 31, 31, 1, 2, 200, 99, 99, //
        255, 255,
    ];
    let frame = RgbFrame { width: 2, height: 2, stride: 8, pixels };
    let brightness = frame_brightness(&frame);
    assert_eq!(brightness, FrameBrightness { peak_component: 200, visible_pixels: 2 });
}

#[test]
fn black_frame_has_no_peak() {
    let frame = RgbFrame { width: 1, height: 1, stride: 3, pixels: vec![0, 0, 0] };
    assert_eq!(frame_brightness(&frame), FrameBrightness { peak_component: 0, visible_pixels: 0 });
}

#[test]
fn capture_test_summary_keeps_peaks_and_counts_lit_frames() {
    let mut summary = CaptureTestSummary::new();
    summary.record(FrameBrightness { peak_component: 0, visible_pixels: 0 });
    summary.record(FrameBrightness { peak_component: 90, visible_pixels: 12 });
    summary.record(FrameBrightness { peak_component: 40, visible_pixels: 30 });
    assert_eq!(summary.non_black_frames, 2);
    assert_eq!(summary.peak_visible_pixels, 30);
    assert_eq!(summary.peak_component, 90);
}

#[test]
fn frames_during_a_blackout_generation_are_dropped() {
    let mut sampling = SamplingLoop::new(0);
    let during = SamplingEvent::FrameArrived { frame_generation: 3, current_generation: 3, now: 5 };
    assert_eq!(sampling.step(during), SamplingAction::DropFrame);
    let ready = SamplingEvent::SampleReady { frame_generation: 3, current_generation: 3, cancel_set: false };
    assert_eq!(sampling.step(ready), SamplingAction::DropFrame);
    assert_eq!(sampling.sampled_replacements(), 2);
}
