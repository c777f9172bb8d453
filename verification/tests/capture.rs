use logig560::capture::error::{
    capture_error_is_retryable, capture_was_cancelled, with_cleanup_failure, CaptureError,
};
use logig560::capture::gamescope::{
    advance_frame_deadline, frame_from_mapped_bgrx, BgrxLayoutError, FRAME_INTERVAL_NANOS,
};
use logig560::capture::gstreamer::{
    caps_dimensions, CapsRangeError,
    frame_to_repeat, held_frame, held_frame_allowed, pack_dimensions, STATIC_FRAME_HOLD_NANOS, proportional_dimensions, record_shutdown,
    shutdown_result, shutdown_steps, OutputCapsState, PendingCaps, ShutdownState,
    frame_from_plane, SCALED_OUTPUT_WIDTH,
};
use logig560::capture::portal::{
    check_stream_count, portal_failure, selection_options, CursorKind, PersistKind, SourceKind,
};
use logig560::frame::RgbFrame;

const MILLI: u64 = 1_000_000;

#[test]
fn pacing_stays_at_twenty_fps_on_a_sixty_hz_source() {
    let start: u64 = 1_000 * MILLI;
    let mut next_frame_due = None;
    let accepted = (0..60)
        .filter(|tick| advance_frame_deadline(&mut next_frame_due, start + 16_666_667 * tick))
        .count();

    assert_eq!(accepted, 20);
}

#[test]
fn late_callback_does_not_move_the_long_term_schedule() {
    let start: u64 = 1_000 * MILLI;
    let mut next_frame_due = None;

    assert!(advance_frame_deadline(&mut next_frame_due, start));
    assert!(advance_frame_deadline(&mut next_frame_due, start + 66 * MILLI));
    assert!(!advance_frame_deadline(&mut next_frame_due, start + 99 * MILLI));
    assert!(advance_frame_deadline(&mut next_frame_due, start + 100 * MILLI));
}

#[test]
fn first_frame_is_accepted_and_schedules_one_interval_later() {
    let mut next_frame_due = None;
    assert!(advance_frame_deadline(&mut next_frame_due, 5 * MILLI));
    assert_eq!(next_frame_due, Some(5 * MILLI + FRAME_INTERVAL_NANOS));
}

#[test]
fn proportional_dimensions_use_actual_portrait_and_ultrawide_caps() {
    assert_eq!(proportional_dimensions(1080, 1920, 160), Some((160, 284)));
    assert_eq!(proportional_dimensions(2100, 900, 160), Some((160, 69)));
    assert_eq!(proportional_dimensions(0, 900, 160), None);
}

#[test]
fn proportional_dimensions_refuse_empty_sizes_and_keep_one_row() {
    assert_eq!(proportional_dimensions(1920, 0, 160), None);
    assert_eq!(proportional_dimensions(1920, 1080, 0), None);
    assert_eq!(proportional_dimensions(10_000, 1, SCALED_OUTPUT_WIDTH), Some((160, 1)));
    assert_eq!(proportional_dimensions(1920, 1080, SCALED_OUTPUT_WIDTH), Some((160, 90)));
}

#[test]
fn held_frame_is_blocked_during_caps_renegotiation() {
    let frame = RgbFrame::new(160, 90, 480, vec![0; 160 * 90 * 3]).unwrap();

    assert!(held_frame(&Some(frame.clone()), 0).is_none());
    assert!(held_frame(&Some(frame.clone()), pack_dimensions((160, 69))).is_none());
    assert_eq!(held_frame(&Some(frame.clone()), pack_dimensions((160, 90))), Some(frame));
}

#[test]
fn no_held_frame_without_a_last_frame() {
    assert!(held_frame(&None, pack_dimensions((160, 90))).is_none());
    assert!(held_frame_allowed(160, 90, pack_dimensions((160, 90))));
    assert!(!held_frame_allowed(0, 0, 0));
}

#[test]
fn packed_dimensions_put_width_in_the_high_half() {
    assert_eq!(pack_dimensions((160, 90)), (160_u64 << 32) | 90);
    assert_eq!(pack_dimensions((0, 0)), 0);
}

#[test]
fn newer_caps_request_prevents_delayed_update_from_reopening_stale_gate() {
    let mut state = OutputCapsState::new();
    let mut applied = Vec::new();

    let (portrait_revision, start_worker) = state.request((160, 284));
    assert!(start_worker);
    let first = state.take_pending().unwrap();
    assert_eq!(first, PendingCaps { revision: portrait_revision, dimensions: (160, 284) });
    assert_eq!(state.expected, 0);

    let (_, start_again) = state.request((160, 69));
    assert!(!start_again);
    assert_eq!(state.expected, 0);
    applied.push(first.dimensions);
    assert!(state.finish_install(first));
    assert_eq!(state.expected, 0);

    let second = state.take_pending().unwrap();
    assert_eq!(second.dimensions, (160, 69));
    assert_eq!(state.expected, 0);
    applied.push(second.dimensions);
    assert!(!state.finish_install(second));

    assert_eq!(applied.as_slice(), &[(160, 284), (160, 69)]);
    assert_eq!(state.expected, pack_dimensions((160, 69)));
    assert!(!state.worker_running);
}

#[test]
fn invalidation_keeps_the_latch_closed_after_a_delayed_install() {
    let mut state = OutputCapsState::new();
    state.request((160, 90));
    let pending = state.take_pending().unwrap();
    state.invalidate();
    assert!(!state.finish_install(pending));
    assert_eq!(state.expected, 0);
    assert!(!state.worker_running);
    assert_eq!(state.take_pending(), None);
}

#[test]
fn shutdown_attempts_both_operations_and_is_safe_to_repeat() {
    let mut state = ShutdownState::default();
    let (mut pipeline_stops, mut portal_closes) = (0, 0);

    let (stop, close) = shutdown_steps(&state);
    assert!(stop && close);
    pipeline_stops += 1;
    portal_closes += 1;
    record_shutdown(&mut state, Some(false), Some(true));
    let first = shutdown_result(Some("failed once".to_owned()), None);
    assert!(first.is_err());
    assert_eq!((pipeline_stops, portal_closes), (1, 1));

    for _ in 0..2 {
        let (stop, close) = shutdown_steps(&state);
        let pipeline = if stop {
            pipeline_stops += 1;
            Some(true)
        } else {
            None
        };
        let portal = if close {
            portal_closes += 1;
            Some(true)
        } else {
            None
        };
        record_shutdown(&mut state, pipeline, portal);
        assert!(shutdown_result(None, None).is_ok());
    }
    assert_eq!((pipeline_stops, portal_closes), (2, 1));
}

#[test]
fn shutdown_failures_are_joined_in_step_order() {
    match shutdown_result(Some("a".to_owned()), Some("b".to_owned())) {
        Err(CaptureError::Shutdown { message }) => assert_eq!(message, "pipeline: a; portal: b"),
        other => panic!("unexpected {other:?}"),
    }
    match shutdown_result(None, Some("gone".to_owned())) {
        Err(CaptureError::Shutdown { message }) => assert_eq!(message, "portal: gone"),
        other => panic!("unexpected {other:?}"),
    }
}

#[test]
fn failed_pipeline_setup_stops_partial_pipeline_and_closes_portal() {
    let primary = CaptureError::GStreamer { stage: "injected pipeline setup", message: "failed".to_owned() };
    let state = ShutdownState::default();
    assert_eq!(shutdown_steps(&state), (true, true));

    let error = match shutdown_result(None, None) {
        Ok(()) => primary,
        Err(cleanup) => with_cleanup_failure(primary, cleanup),
    };
    assert!(matches!(error, CaptureError::GStreamer { .. }));
}

#[test]
fn cleanup_failure_keeps_both_errors() {
    let error = with_cleanup_failure(
        CaptureError::EndOfStream,
        CaptureError::Shutdown { message: "portal: closed".to_owned() },
    );
    match error {
        CaptureError::Cleanup { primary, cleanup } => {
            assert!(matches!(*primary, CaptureError::EndOfStream));
            assert!(matches!(*cleanup, CaptureError::Shutdown { .. }));
        }
        other => panic!("unexpected {other:?}"),
    }
}

#[test]
fn retry_depends_on_the_error_and_whether_capture_ever_opened() {
    let portal = CaptureError::Portal { message: "busy".to_owned() };
    assert!(capture_error_is_retryable(&portal, false));
    let pipeline = CaptureError::Pipeline {
        element: "src".to_owned(),
        message: "lost".to_owned(),
        debug: String::new(),
    };
    assert!(!capture_error_is_retryable(&pipeline, false));
    assert!(capture_error_is_retryable(&pipeline, true));
    assert!(!capture_error_is_retryable(&CaptureError::CaptureCancelled, true));
    assert!(!capture_error_is_retryable(&CaptureError::EndOfStream, true));
    let wrapped = with_cleanup_failure(portal, CaptureError::EndOfStream);
    assert!(capture_error_is_retryable(&wrapped, false));
}

#[test]
fn cancellation_is_found_among_the_causes() {
    let portal = CaptureError::Portal { message: "x".to_owned() };
    let cancelled = CaptureError::CaptureCancelled;
    assert!(capture_was_cancelled(&[&portal, &cancelled]));
    assert!(!capture_was_cancelled(&[&portal]));
    assert!(!capture_was_cancelled(&[]));
}

#[test]
fn selection_is_one_hidden_cursor_monitor_with_persistent_permission() {
    let options = selection_options(Some("saved-token".to_owned()));

    assert_eq!(options.source, SourceKind::Monitor);
    assert!(!options.multiple);
    assert_eq!(options.cursor, CursorKind::Hidden);
    assert_eq!(options.persist, PersistKind::ExplicitlyRevoked);
    assert_eq!(options.restore_token.as_deref(), Some("saved-token"));
}

#[test]
fn portal_cancellation_is_a_typed_user_state() {
    let error = portal_failure(true, "Cancelled".to_owned());

    assert!(matches!(error, CaptureError::CaptureCancelled));
}

#[test]
fn other_portal_failures_keep_their_message() {
    match portal_failure(false, "no portal".to_owned()) {
        CaptureError::Portal { message } => assert_eq!(message, "no portal"),
        other => panic!("unexpected {other:?}"),
    }
}

#[test]
fn portal_must_return_exactly_one_stream() {
    assert!(check_stream_count(1).is_ok());
    assert!(matches!(
        check_stream_count(2),
        Err(CaptureError::UnexpectedStreamCount { count: 2 })
    ));
    assert!(matches!(
        check_stream_count(0),
        Err(CaptureError::UnexpectedStreamCount { count: 0 })
    ));
}

#[test]
fn copies_padded_rgb_frame_with_reported_stride() {
    let pixels = vec![1, 2, 3, 4, 5, 6, 0xaa, 0xbb, 7, 8, 9, 10, 11, 12, 0xcc, 0xdd];

    let frame = frame_from_plane(2, 2, 8, &pixels).unwrap();

    assert_eq!(frame.width, 2);
    assert_eq!(frame.height, 2);
    assert_eq!(frame.stride, 8);
    assert_eq!(frame.pixels, pixels);
}

#[test]
fn plane_with_negative_stride_or_short_data_is_refused() {
    assert!(frame_from_plane(2, 2, -8, &[0; 16]).is_err());
    assert!(frame_from_plane(2, 2, 8, &[0; 15]).is_err());
}

#[test]
fn gamescope_bgrx_frame_is_scaled_to_rgb() {
    // 320 x 2 BGRx source: every pixel (x, y) has blue = x % 256, green = y, red = 7.
    let width = 320_usize;
    let height = 2_usize;
    let stride = width * 4;
    let mut source = vec![0_u8; stride * height];
    for y in 0..height {
        for x in 0..width {
            let base = y * stride + x * 4;
            source[base] = (x % 256) as u8;
            source[base + 1] = y as u8;
            source[base + 2] = 7;
            source[base + 3] = 0xff;
        }
    }

    let frame = frame_from_mapped_bgrx(320, 2, 0, stride as i32, &source).unwrap();

    assert_eq!((frame.width, frame.height, frame.stride), (160, 1, 480));
    assert_eq!(frame.pixels.len(), 480);
    // Target pixel x samples source pixel 2x of row 0.
    assert_eq!(&frame.pixels[0..3], &[7, 0, 0]);
    assert_eq!(&frame.pixels[3..6], &[7, 0, 2]);
    assert_eq!(&frame.pixels[477..480], &[7, 0, (318 % 256) as u8]);
}

#[test]
fn gamescope_layout_errors_are_typed() {
    assert_eq!(
        frame_from_mapped_bgrx(0, 2, 0, 0, &[]).unwrap_err(),
        BgrxLayoutError::InvalidDimensions
    );
    assert_eq!(
        frame_from_mapped_bgrx(320, 2, 0, -1, &[]).unwrap_err(),
        BgrxLayoutError::NegativeStride
    );
    assert_eq!(
        frame_from_mapped_bgrx(320, 2, 0, 100, &[]).unwrap_err(),
        BgrxLayoutError::StrideTooSmall { stride: 100, minimum: 1280 }
    );
    assert_eq!(
        frame_from_mapped_bgrx(320, 2, 4, 1280, &[0; 100]).unwrap_err(),
        BgrxLayoutError::BufferTooShort { len: 100, required: 4 + 1280 + 1280 }
    );
}

#[test]
fn scaled_dimensions_must_fit_signed_caps_fields() {
    assert_eq!(caps_dimensions((160, 90)), Ok((160, 90)));
    assert_eq!(caps_dimensions((u32::MAX, 90)), Err(CapsRangeError::Width(u32::MAX)));
    assert_eq!(caps_dimensions((160, 1 << 31)), Err(CapsRangeError::Height(1 << 31)));
    assert_eq!(caps_dimensions((1 << 31, 1 << 31)), Err(CapsRangeError::Width(1 << 31)));
}

#[test]
fn last_frame_repeats_only_after_200_ms_of_silence() {
    let frame = RgbFrame::new(160, 90, 480, vec![0; 160 * 90 * 3]).unwrap();
    let expected = pack_dimensions((160, 90));
    assert_eq!(STATIC_FRAME_HOLD_NANOS, 200_000_000);
    assert!(frame_to_repeat(&Some(frame.clone()), expected, 199_999_999).is_none());
    assert_eq!(frame_to_repeat(&Some(frame.clone()), expected, 200_000_000), Some(frame.clone()));
    assert!(frame_to_repeat(&None, expected, 500_000_000).is_none());
    assert!(frame_to_repeat(&Some(frame), 0, 500_000_000).is_none());
}
