//! The decisions of the lighting pipeline: retry pacing, capture
//! generations around safety blackouts, the writer's fade and write
//! schedule, and when a failing light sink is reopened. Times are
//! nanoseconds on a monotonic clock.

use vstd::prelude::*;

use std::sync::atomic::{AtomicU64, Ordering};
use std::sync::Arc;
use std::time::Duration;

use crate::color::{all_black, Rgb8, ZoneColors};
use crate::frame::{g560_assignment, MaskError, ZoneMasks};
use crate::transition::{
    fade_complete_at, TransitionController, TransitionState, DEFAULT_TRANSITION_DURATION_NANOS,
};

verus! {

/// How a light update ended.
#[derive(Clone, Copy, Debug, PartialEq, Eq, Structural)]
pub enum LightUpdateStatus {
    Rendered,
    Unchanged,
    Expired,
}

/// A frame older than this is stale, and no frame for this long is a
/// capture stall (500 ms).
pub const CAPTURE_STALL_TIMEOUT_NANOS: u64 = 500_000_000;
/// Pause between writes while a fade runs (20 ms).
pub const LIGHT_UPDATE_INTERVAL_NANOS: u64 = 20_000_000;
/// Fade used when a lit zone goes fully black (200 ms).
pub const NORMAL_FADE_TO_BLACK_NANOS: u64 = 200_000_000;
/// Longest wait for a safety blackout to be acknowledged (1 s).
pub const SAFETY_BLACKOUT_TIMEOUT_NANOS: u64 = 1_000_000_000;
/// Consecutive write failures after which the light sink is reopened.
pub const MAX_CONSECUTIVE_WRITE_FAILURES: usize = 3;
/// First retry delay (250 ms).
pub const INITIAL_RETRY_DELAY_MILLIS: u64 = 250;
/// Longest retry delay (5 s).
pub const MAX_RETRY_DELAY_MILLIS: u64 = 5_000;

/// The delay before retry number `failures + 1`: 250 ms, doubling with
/// each failure, never more than 5 s.
pub open spec fn retry_delay_millis(failures: nat) -> nat {
    let uncapped = INITIAL_RETRY_DELAY_MILLIS * vstd::arithmetic::power2::pow2(failures);
    if uncapped > MAX_RETRY_DELAY_MILLIS {
        MAX_RETRY_DELAY_MILLIS as nat
    } else {
        uncapped as nat
    }
}

/// Bounded exponential backoff between reconnection attempts.
#[derive(Debug, Default)]
pub struct RetryBackoff {
    failures: u32,
}

impl RetryBackoff {
    /// Failures counted since the last reset.
    pub closed spec fn failures(&self) -> nat {
        self.failures as nat
    }

    pub fn new() -> (backoff: RetryBackoff)
        ensures
            backoff.failures() == 0,
    {
        RetryBackoff { failures: 0 }
    }

    /// Forgets earlier failures.
    pub fn reset(&mut self)
        ensures
            final(self).failures() == 0,
    {
        self.failures = 0;
    }

    /// The delay to wait before the next attempt, in milliseconds, counting
    /// one more failure (the count saturates).
    pub fn next_delay(&mut self) -> (delay: u64)
        ensures
            delay == retry_delay_millis(old(self).failures()),
            final(self).failures() == if old(self).failures() == u32::MAX {
                u32::MAX as nat
            } else {
                old(self).failures() + 1
            },
    {
        proof {
            vstd::arithmetic::power2::lemma2_to64();
            lemma_retry_delay_caps(self.failures as nat);
        }
        let delay = match self.failures {
            0 => 250,
            1 => 500,
            2 => 1_000,
            3 => 2_000,
            4 => 4_000,
            _ => 5_000,
        };
        self.failures = self.failures.saturating_add(1);
        delay
    }
}

/// From five failures on, the delay is at its cap.
proof fn lemma_retry_delay_caps(failures: nat)
    ensures
        failures >= 5 ==> retry_delay_millis(failures) == MAX_RETRY_DELAY_MILLIS,
    decreases failures,
{
    vstd::arithmetic::power2::lemma2_to64();
    if failures > 5 {
        lemma_retry_delay_caps((failures - 1) as nat);
        vstd::arithmetic::power2::lemma_pow2_unfold(failures);
        vstd::arithmetic::power2::lemma_pow2_pos((failures - 1) as nat);
    }
}

/// Retry delays never shrink as failures accumulate, and never exceed the
/// cap.
pub proof fn lemma_retry_delay_monotonic(a: nat, b: nat)
    requires
        a <= b,
    ensures
        retry_delay_millis(a) <= retry_delay_millis(b),
        retry_delay_millis(b) <= MAX_RETRY_DELAY_MILLIS,
        retry_delay_millis(0) == INITIAL_RETRY_DELAY_MILLIS,
{
    vstd::arithmetic::power2::lemma2_to64();
    vstd::arithmetic::power2::lemma_pow2_strictly_increases(a, b + 1);
    if a < b {
        vstd::arithmetic::power2::lemma_pow2_strictly_increases(a, b);
    }
}

/// Counts of capture recovery events.
#[derive(Clone, Copy, Debug, Default, PartialEq, Eq, Structural)]
pub struct CaptureRecoverySnapshot {
    pub open_failures: u64,
    pub stream_failures: u64,
    pub successful_reopens: u64,
    pub shutdown_failures: u64,
}

pub struct CaptureRecoveryCounters {
    open_failures: AtomicU64,
    stream_failures: AtomicU64,
    successful_reopens: AtomicU64,
    shutdown_failures: AtomicU64,
}

/// Shared capture recovery counters; clones observe the same counts.
#[derive(Clone)]
pub struct CaptureRecoveryMetrics(Arc<CaptureRecoveryCounters>);

impl CaptureRecoveryMetrics {
    /// Fresh counters, all at zero. The counts live in std atomics, whose
    /// values vstd leaves unspecified, so no contract here states them.
    pub fn new() -> CaptureRecoveryMetrics {
        CaptureRecoveryMetrics(
            Arc::new(
                CaptureRecoveryCounters {
                    open_failures: AtomicU64::new(0),
                    stream_failures: AtomicU64::new(0),
                    successful_reopens: AtomicU64::new(0),
                    shutdown_failures: AtomicU64::new(0),
                },
            ),
        )
    }

    /// The current counts. Other holders may count concurrently, so no
    /// particular values are promised.
    pub fn snapshot(&self) -> CaptureRecoverySnapshot {
        CaptureRecoverySnapshot {
            open_failures: self.0.open_failures.load(Ordering::Relaxed),
            stream_failures: self.0.stream_failures.load(Ordering::Relaxed),
            successful_reopens: self.0.successful_reopens.load(Ordering::Relaxed),
            shutdown_failures: self.0.shutdown_failures.load(Ordering::Relaxed),
        }
    }

    pub fn record_open_failure(&self) {
        self.0.open_failures.fetch_add(1, Ordering::Relaxed);
    }

    pub fn record_stream_failure(&self) {
        self.0.stream_failures.fetch_add(1, Ordering::Relaxed);
    }

    pub fn record_successful_reopen(&self) {
        self.0.successful_reopens.fetch_add(1, Ordering::Relaxed);
    }

    pub fn record_shutdown_failure(&self) {
        self.0.shutdown_failures.fetch_add(1, Ordering::Relaxed);
    }
}

/// Counts of light sink recovery events.
#[derive(Clone, Copy, Debug, Default, PartialEq, Eq, Structural)]
pub struct RecoverySnapshot {
    pub open_failures: u64,
    pub usb_write_failures: u64,
    pub reopen_count: u64,
    pub blackout_failures: u64,
}

pub struct RecoveryCounters {
    open_failures: AtomicU64,
    usb_write_failures: AtomicU64,
    reopen_count: AtomicU64,
    blackout_failures: AtomicU64,
}

/// Shared light sink recovery counters; clones observe the same counts.
#[derive(Clone)]
pub struct RecoveryMetrics(Arc<RecoveryCounters>);

impl RecoveryMetrics {
    /// Fresh counters, all at zero. The counts live in std atomics, whose
    /// values vstd leaves unspecified, so no contract here states them.
    pub fn new() -> RecoveryMetrics {
        RecoveryMetrics(
            Arc::new(
                RecoveryCounters {
                    open_failures: AtomicU64::new(0),
                    usb_write_failures: AtomicU64::new(0),
                    reopen_count: AtomicU64::new(0),
                    blackout_failures: AtomicU64::new(0),
                },
            ),
        )
    }

    /// The current counts. Other holders may count concurrently, so no
    /// particular values are promised.
    pub fn snapshot(&self) -> RecoverySnapshot {
        RecoverySnapshot {
            open_failures: self.0.open_failures.load(Ordering::Relaxed),
            usb_write_failures: self.0.usb_write_failures.load(Ordering::Relaxed),
            reopen_count: self.0.reopen_count.load(Ordering::Relaxed),
            blackout_failures: self.0.blackout_failures.load(Ordering::Relaxed),
        }
    }

    pub fn record_open_failure(&self) {
        self.0.open_failures.fetch_add(1, Ordering::Relaxed);
    }

    pub fn record_write_failure(&self) {
        self.0.usb_write_failures.fetch_add(1, Ordering::Relaxed);
    }

    pub fn record_reopen(&self) {
        self.0.reopen_count.fetch_add(1, Ordering::Relaxed);
    }

    pub fn record_blackout_failure(&self) {
        self.0.blackout_failures.fetch_add(1, Ordering::Relaxed);
    }
}

/// Live engine counters and capture-to-write latency percentiles.
#[derive(Clone, Copy, Debug)]
pub struct EngineSnapshot {
    pub elapsed: Duration,
    pub captured_frames: u64,
    pub rendered_updates: u64,
    pub dropped_frames: u64,
    pub capture_stalls: u64,
    pub capture_to_write_p50_us: u64,
    pub capture_to_write_p95_us: u64,
    pub capture_to_write_p99_us: u64,
}

/// The generation recorded while a safety blackout is in force: an odd
/// generation, entered from an even one by one step (wrapping).
pub open spec fn spec_blackout_generation(previous: u64) -> u64 {
    if previous % 2 == 0 {
        if previous == u64::MAX {
            0
        } else {
            (previous + 1) as u64
        }
    } else {
        previous
    }
}

/// The generation that resumes capture after a blackout (one step on,
/// wrapping).
pub open spec fn spec_resume_generation(blackout: u64) -> u64 {
    if blackout == u64::MAX {
        0
    } else {
        (blackout + 1) as u64
    }
}

/// The generation to hold during a safety blackout requested while the
/// generation is `previous`.
pub fn blackout_generation(previous: u64) -> (generation: u64)
    ensures
        generation == spec_blackout_generation(previous),
        generation % 2 == 1,
{
    if previous % 2 == 0 {
        previous + 1
    } else {
        previous
    }
}

/// The generation that a completed blackout hands back to capture.
pub fn resume_generation(blackout: u64) -> (generation: u64)
    ensures
        generation == spec_resume_generation(blackout),
{
    if blackout == u64::MAX {
        0
    } else {
        blackout + 1
    }
}

/// Whether a frame or sample of `frame_generation` may still be used while
/// the generation is `current`: it must be from the current generation and
/// no blackout may be in force.
pub fn generation_is_live(frame_generation: u64, current: u64) -> (live: bool)
    ensures
        live == (frame_generation == current && frame_generation % 2 == 0),
{
    frame_generation == current && frame_generation % 2 == 0
}

/// Nothing captured before or during a safety blackout can light the
/// zones after it: neither the generation that was current when the
/// blackout was requested nor the blackout generation itself is live once
/// capture resumes, and nothing is live during the blackout.
pub proof fn lemma_blackout_fences_old_frames(previous: u64)
    ensures
        spec_blackout_generation(previous) % 2 == 1,
        spec_resume_generation(spec_blackout_generation(previous)) % 2 == 0,
        previous != spec_resume_generation(spec_blackout_generation(previous)),
        spec_blackout_generation(previous) != spec_resume_generation(
            spec_blackout_generation(previous),
        ),
{
}

/// A sampled set of zone colors ready for the writer.
#[derive(Clone, Copy, Debug, PartialEq, Eq)]
pub struct SampledUpdate {
    pub captured_at: u64,
    pub colors: ZoneColors,
    pub capture_generation: u64,
}

/// The fade durations for moving from `displayed` to `target`: a lit zone
/// going fully black fades over 200 ms, every other zone over 90 ms.
pub open spec fn spec_transition_durations(displayed: ZoneColors, target: ZoneColors) -> [u64; 4] {
    [
        zone_duration(displayed.0[0], target.0[0]),
        zone_duration(displayed.0[1], target.0[1]),
        zone_duration(displayed.0[2], target.0[2]),
        zone_duration(displayed.0[3], target.0[3]),
    ]
}

pub open spec fn zone_duration(displayed: Rgb8, target: Rgb8) -> u64 {
    let black = Rgb8 { r: 0, g: 0, b: 0 };
    if displayed != black && target == black {
        NORMAL_FADE_TO_BLACK_NANOS
    } else {
        DEFAULT_TRANSITION_DURATION_NANOS
    }
}

/// A zone whose shown color has any nonzero channel and whose target has
/// every channel zero fades over 200 ms; every other zone over 90 ms.
pub proof fn lemma_fade_durations(displayed: ZoneColors, target: ZoneColors, zone: int)
    requires
        0 <= zone < 4,
    ensures
        spec_transition_durations(displayed, target)[zone] == if (displayed.0[zone].r != 0
            || displayed.0[zone].g != 0 || displayed.0[zone].b != 0) && target.0[zone].r == 0
            && target.0[zone].g == 0 && target.0[zone].b == 0 {
            200_000_000u64
        } else {
            90_000_000u64
        },
{
}

fn zone_duration_exec(displayed: Rgb8, target: Rgb8) -> (duration: u64)
    ensures
        duration == zone_duration(displayed, target),
{
    let black = Rgb8::black();
    if displayed != black && target == black {
        NORMAL_FADE_TO_BLACK_NANOS
    } else {
        DEFAULT_TRANSITION_DURATION_NANOS
    }
}

/// Per-zone fade durations for a normal (non-safety) target change.
pub fn normal_transition_durations(displayed: ZoneColors, target: ZoneColors) -> (durations: [u64; 4])
    ensures
        durations == spec_transition_durations(displayed, target),
{
    [
        zone_duration_exec(displayed.0[0], target.0[0]),
        zone_duration_exec(displayed.0[1], target.0[1]),
        zone_duration_exec(displayed.0[2], target.0[2]),
        zone_duration_exec(displayed.0[3], target.0[3]),
    ]
}

/// What the lighting writer is showing and what it will write next.
pub struct LightingWriterState {
    /// The colors last shown on the device.
    pub displayed: ZoneColors,
    /// The fade toward the current target.
    pub transition: TransitionController,
    /// Whether writes are still due for the current fade.
    pub transition_active: bool,
    /// The newest accepted update.
    pub current_update: Option<SampledUpdate>,
    /// Whether any frame of the current update reached the device.
    pub current_update_rendered: bool,
    /// The capture generation whose updates are accepted.
    pub accepted_generation: u64,
    /// When the next write is due.
    pub next_write: Option<u64>,
}

/// An update is replaced or dropped without ever reaching the device.
pub open spec fn drops_unrendered(state: &LightingWriterState) -> bool {
    state.current_update is Some && !state.current_update_rendered
}

impl LightingWriterState {
    /// A writer showing black, with nothing to write.
    pub fn new() -> (state: LightingWriterState)
        ensures
            state.displayed == all_black(),
            state.transition@.start == all_black(),
            state.transition@.target == all_black(),
            state.transition@.started_at is None,
            !state.transition_active,
            state.current_update is None,
            !state.current_update_rendered,
            state.accepted_generation == 0,
            state.next_write is None,
    {
        LightingWriterState {
            displayed: ZoneColors::black(),
            transition: TransitionController::new(
                ZoneColors::black(),
                DEFAULT_TRANSITION_DURATION_NANOS,
            ),
            transition_active: false,
            current_update: None,
            current_update_rendered: false,
            accepted_generation: 0,
            next_write: None,
        }
    }

    /// Accepts an update of the accepted generation, fading from what is
    /// displayed to its colors, and reports whether it displaced an update
    /// that never reached the device. An update of another generation is
    /// refused (`None`) and changes nothing. The next write is due one
    /// update interval from `now`, unless `preserve_write_deadline` keeps
    /// an existing deadline.
    pub fn accept_update(&mut self, update: SampledUpdate, now: u64, preserve_write_deadline: bool) -> (accepted: Option<bool>)
        requires
            now <= u64::MAX - LIGHT_UPDATE_INTERVAL_NANOS,
        ensures
            update.capture_generation != old(self).accepted_generation ==> accepted is None
                && *final(self) == *old(self),
            update.capture_generation == old(self).accepted_generation ==> {
                &&& accepted == Some(drops_unrendered(old(self)))
                &&& final(self).displayed == old(self).displayed
                &&& final(self).transition@ == (TransitionState {
                    start: old(self).displayed,
                    target: update.colors,
                    started_at: Some(now),
                    durations: spec_transition_durations(old(self).displayed, update.colors),
                })
                &&& final(self).current_update == Some(update)
                &&& !final(self).current_update_rendered
                &&& final(self).transition_active
                &&& final(self).accepted_generation == old(self).accepted_generation
                &&& final(self).next_write == if preserve_write_deadline && old(self).next_write is Some {
                    old(self).next_write
                } else {
                    Some((now + LIGHT_UPDATE_INTERVAL_NANOS) as u64)
                }
            },
    {
        if update.capture_generation != self.accepted_generation {
            return None;
        }
        let dropped_unrendered = self.current_update.is_some() && !self.current_update_rendered;
        let durations = normal_transition_durations(self.displayed, update.colors);
        let mut transition = TransitionController::new(
            self.displayed,
            DEFAULT_TRANSITION_DURATION_NANOS,
        );
        transition.retarget_with_zone_durations(self.displayed, update.colors, now, durations);
        self.transition = transition;
        self.current_update = Some(update);
        self.current_update_rendered = false;
        self.transition_active = true;
        if !preserve_write_deadline || self.next_write.is_none() {
            self.next_write = Some(now + LIGHT_UPDATE_INTERVAL_NANOS);
        }
        Some(dropped_unrendered)
    }

    /// Prepares for a safety blackout: forgets the current update, stops
    /// fading, and from now on accepts only `resume_generation`. Reports
    /// whether an update was dropped before reaching the device.
    pub fn prepare_safety(&mut self, resume_generation: u64) -> (dropped: bool)
        ensures
            dropped == drops_unrendered(old(self)),
            final(self).displayed == old(self).displayed,
            final(self).accepted_generation == resume_generation,
            final(self).current_update is None,
            !final(self).current_update_rendered,
            final(self).transition@.start == all_black(),
            final(self).transition@.target == all_black(),
            final(self).transition@.started_at is None,
            !final(self).transition_active,
            final(self).next_write is None,
    {
        let dropped_unrendered = self.current_update.is_some() && !self.current_update_rendered;
        self.accepted_generation = resume_generation;
        self.current_update = None;
        self.current_update_rendered = false;
        self.transition = TransitionController::new(
            ZoneColors::black(),
            DEFAULT_TRANSITION_DURATION_NANOS,
        );
        self.transition_active = false;
        self.next_write = None;
        dropped_unrendered
    }

    /// Records colors that reached the device for the current update.
    pub fn mark_displayed(&mut self, colors: ZoneColors)
        ensures
            *final(self) == (LightingWriterState {
                displayed: colors,
                current_update_rendered: true,
                ..*old(self)
            }),
    {
        self.displayed = colors;
        self.current_update_rendered = true;
    }

    /// Records a completed blackout: the device shows black.
    pub fn mark_black(&mut self)
        ensures
            *final(self) == (LightingWriterState { displayed: all_black(), ..*old(self) }),
    {
        self.displayed = ZoneColors::black();
    }

    /// Drops the current update after an interrupted write, reporting
    /// whether it never reached the device.
    pub fn clear_as_dropped(&mut self) -> (dropped: bool)
        ensures
            dropped == drops_unrendered(old(self)),
            *final(self) == (LightingWriterState {
                current_update: None,
                current_update_rendered: false,
                transition_active: false,
                next_write: None,
                ..*old(self)
            }),
    {
        let dropped_unrendered = self.current_update.is_some() && !self.current_update_rendered;
        self.current_update = None;
        self.current_update_rendered = false;
        self.transition_active = false;
        self.next_write = None;
        dropped_unrendered
    }

    /// Records that the sink refused the update as stale and showed black
    /// instead.
    pub fn expire(&mut self)
        ensures
            *final(self) == (LightingWriterState {
                displayed: all_black(),
                current_update: None,
                current_update_rendered: false,
                transition_active: false,
                next_write: None,
                ..*old(self)
            }),
    {
        self.displayed = ZoneColors::black();
        self.current_update = None;
        self.current_update_rendered = false;
        self.transition_active = false;
        self.next_write = None;
    }

    /// A write came due with no update to write: stop writing.
    pub fn go_idle(&mut self)
        ensures
            *final(self) == (LightingWriterState {
                transition_active: false,
                next_write: None,
                ..*old(self)
            }),
    {
        self.transition_active = false;
        self.next_write = None;
    }

    /// Schedules after a write that finished at `finished_at` with no newer
    /// update waiting. If that write showed the final target, writing stops;
    /// otherwise the next write is due one interval later, or at once if the
    /// fade finished while the write was in flight.
    pub fn schedule_after_write(&mut self, finished_at: u64, wrote_final_target: bool)
        requires
            finished_at <= u64::MAX - LIGHT_UPDATE_INTERVAL_NANOS,
        ensures
            *final(self) == (LightingWriterState {
                transition_active: !wrote_final_target,
                next_write: if wrote_final_target {
                    None
                } else if fade_complete_at(old(self).transition@, finished_at) {
                    Some(finished_at)
                } else {
                    Some((finished_at + LIGHT_UPDATE_INTERVAL_NANOS) as u64)
                },
                ..*old(self)
            }),
    {
        self.transition_active = !wrote_final_target;
        self.next_write = if wrote_final_target {
            None
        } else if self.transition.is_complete(finished_at) {
            Some(finished_at)
        } else {
            Some(finished_at + LIGHT_UPDATE_INTERVAL_NANOS)
        };
    }
}

/// What became of one write of the writer's colors.
#[derive(Clone, Copy, Debug, PartialEq, Eq, Structural)]
pub enum WriteOutcome {
    /// The colors reached the device.
    Rendered,
    /// The device already showed them.
    Unchanged,
    /// The sink found the update too old and showed black instead.
    Expired,
    /// The sink's recovery was cancelled before the write.
    Cancelled,
    /// The write failed.
    Failed,
}

/// What the writer does after a write.
#[derive(Clone, Copy, Debug, PartialEq, Eq, Structural)]
pub struct WriteFollowUp {
    /// Count a rendered update and record its latency.
    pub rendered: bool,
    /// Count a dropped frame.
    pub dropped: bool,
    /// Take a newer update or schedule the next write.
    pub schedule: bool,
    /// Stop the writer with the write's error.
    pub stop: bool,
}

/// Whether an update handed to `accept_update` ends up dropped: refused
/// as stale (`None`), or displacing an update that never reached the
/// device (`Some(true)`).
pub fn update_was_dropped(accepted: Option<bool>) -> (dropped: bool)
    ensures
        dropped == (accepted != Some(false)),
{
    match accepted {
        Some(displaced_unrendered) => displaced_unrendered,
        None => true,
    }
}

/// The writer runs while updates or safety commands may still arrive, or
/// while a fade still needs writes.
pub fn writer_keeps_running(updates_open: bool, safety_open: bool, state: &LightingWriterState) -> (running: bool)
    ensures
        running == (updates_open || safety_open || state.transition_active),
{
    updates_open || safety_open || state.transition_active
}

impl LightingWriterState {
    /// Records what became of a write of `colors`. Colors that reached the
    /// device, or that it already showed, become the displayed ones, and a
    /// rendered update is counted; an expired update is dropped and the
    /// device shows black; after any of these the writer schedules on. A
    /// cancelled recovery drops the current update (counted if it never
    /// reached the device) without scheduling. A failed write stops the
    /// writer and changes nothing.
    pub fn apply_write_outcome(&mut self, outcome: WriteOutcome, colors: ZoneColors) -> (follow_up: WriteFollowUp)
        ensures
            match outcome {
                WriteOutcome::Rendered => follow_up == (WriteFollowUp {
                    rendered: true,
                    dropped: false,
                    schedule: true,
                    stop: false,
                }) && *final(self) == (LightingWriterState {
                    displayed: colors,
                    current_update_rendered: true,
                    ..*old(self)
                }),
                WriteOutcome::Unchanged => follow_up == (WriteFollowUp {
                    rendered: false,
                    dropped: false,
                    schedule: true,
                    stop: false,
                }) && *final(self) == (LightingWriterState {
                    displayed: colors,
                    current_update_rendered: true,
                    ..*old(self)
                }),
                WriteOutcome::Expired => follow_up == (WriteFollowUp {
                    rendered: false,
                    dropped: true,
                    schedule: true,
                    stop: false,
                }) && *final(self) == (LightingWriterState {
                    displayed: all_black(),
                    current_update: None,
                    current_update_rendered: false,
                    transition_active: false,
                    next_write: None,
                    ..*old(self)
                }),
                WriteOutcome::Cancelled => follow_up == (WriteFollowUp {
                    rendered: false,
                    dropped: drops_unrendered(old(self)),
                    schedule: false,
                    stop: false,
                }) && *final(self) == (LightingWriterState {
                    current_update: None,
                    current_update_rendered: false,
                    transition_active: false,
                    next_write: None,
                    ..*old(self)
                }),
                WriteOutcome::Failed => follow_up == (WriteFollowUp {
                    rendered: false,
                    dropped: false,
                    schedule: false,
                    stop: true,
                }) && *final(self) == *old(self),
            },
    {
        match outcome {
            WriteOutcome::Rendered => {
                self.mark_displayed(colors);
                WriteFollowUp { rendered: true, dropped: false, schedule: true, stop: false }
            },
            WriteOutcome::Unchanged => {
                self.mark_displayed(colors);
                WriteFollowUp { rendered: false, dropped: false, schedule: true, stop: false }
            },
            WriteOutcome::Expired => {
                self.expire();
                WriteFollowUp { rendered: false, dropped: true, schedule: true, stop: false }
            },
            WriteOutcome::Cancelled => {
                let dropped = self.clear_as_dropped();
                WriteFollowUp { rendered: false, dropped, schedule: false, stop: false }
            },
            WriteOutcome::Failed => WriteFollowUp {
                rendered: false,
                dropped: false,
                schedule: false,
                stop: true,
            },
        }
    }

    /// Records how a safety blackout ended: a completed one leaves the
    /// device black and the writer running; a failed or timed-out one stops
    /// the writer and changes nothing. Returns whether to stop.
    pub fn apply_blackout_outcome(&mut self, completed: bool) -> (stop: bool)
        ensures
            stop == !completed,
            completed ==> *final(self) == (LightingWriterState { displayed: all_black(), ..*old(self) }),
            !completed ==> *final(self) == *old(self),
    {
        if completed {
            self.mark_black();
            false
        } else {
            true
        }
    }
}

/// Reuses compiled zone masks while the frame size stays the same.
pub struct ZoneMaskCache {
    current: Option<Arc<ZoneMasks>>,
}

impl ZoneMaskCache {
    pub fn new() -> (cache: ZoneMaskCache)
        ensures
            cache.cached() is None,
    {
        ZoneMaskCache { current: None }
    }

    /// The masks held, if any.
    pub closed spec fn cached(&self) -> Option<ZoneMasks> {
        match self.current {
            Some(masks) => Some(*masks),
            None => None,
        }
    }

    /// The held masks if they were built for `width` x `height`.
    pub fn cached_for(&self, width: usize, height: usize) -> (masks: Option<Arc<ZoneMasks>>)
        ensures
            masks is Some <==> (self.cached() matches Some(held) && held.spec_width() == width
                && held.spec_height() == height),
            masks matches Some(found) ==> self.cached() == Some(*found),
    {
        match &self.current {
            Some(masks) => {
                if masks.width() == width && masks.height() == height {
                    Some(masks.clone())
                } else {
                    None
                }
            },
            None => None,
        }
    }

    /// The G560 masks for `width` x `height`: the held ones when they were
    /// built for that size, otherwise freshly compiled ones, which are held
    /// from then on. A size that cannot be compiled changes nothing.
    pub fn get_or_compile(&mut self, width: usize, height: usize) -> (result: Result<
        Arc<ZoneMasks>,
        MaskError,
    >)
        ensures
            (old(self).cached() matches Some(held) && held.spec_width() == width
                && held.spec_height() == height) ==> (result matches Ok(masks)
                && old(self).cached() == Some(*masks) && final(self).cached() == old(self).cached()),
            !(old(self).cached() matches Some(held) && held.spec_width() == width
                && held.spec_height() == height) ==> {
                &&& width == 0 ==> result == Err::<Arc<ZoneMasks>, MaskError>(MaskError::ZeroWidth)
                &&& width > 0 && height == 0 ==> result == Err::<Arc<ZoneMasks>, MaskError>(
                    MaskError::ZeroHeight,
                )
                &&& width > 0 && height > 0 && width * height > usize::MAX ==> result == Err::<
                    Arc<ZoneMasks>,
                    MaskError,
                >(MaskError::PixelCountOverflow)
                &&& result is Err ==> final(self).cached() == old(self).cached()
                &&& width > 0 && height > 0 && width * height <= usize::MAX ==> (result matches Ok(
                    masks,
                ) && masks.spec_width() == width && masks.spec_height() == height
                    && masks.assignment() == g560_assignment(width as int, height as int)
                    && masks.well_formed() && final(self).cached() == Some(*masks))
            },
    {
        match self.cached_for(width, height) {
            Some(masks) => Ok(masks),
            None => match ZoneMasks::compile_g560(width, height) {
                Ok(masks) => Ok(self.install(masks)),
                Err(error) => Err(error),
            },
        }
    }

    /// Holds `masks` from now on, replacing anything held before.
    pub fn install(&mut self, masks: ZoneMasks) -> (installed: Arc<ZoneMasks>)
        ensures
            *installed == masks,
            final(self).cached() == Some(masks),
    {
        let shared = Arc::new(masks);
        self.current = Some(shared.clone());
        shared
    }
}

/// Which write a recovering light sink performs for an update.
#[derive(Clone, Copy, Debug, PartialEq, Eq, Structural)]
pub enum WritePlan {
    /// Write the update with its capture time.
    Update,
    /// Write the colors as a plain write (no capture time).
    Plain,
    /// The capture is stale: write black and report the update expired.
    ExpireToBlack,
}

/// Chooses the write for an update captured `age` ago (`None` for a plain
/// write): anything captured at least the stall timeout ago is stale.
pub fn plan_write(age: Option<u64>) -> (plan: WritePlan)
    ensures
        plan == match age {
            None => WritePlan::Plain,
            Some(age) => if age < CAPTURE_STALL_TIMEOUT_NANOS {
                WritePlan::Update
            } else {
                WritePlan::ExpireToBlack
            },
        },
{
    match age {
        None => WritePlan::Plain,
        Some(age) => if age < CAPTURE_STALL_TIMEOUT_NANOS {
            WritePlan::Update
        } else {
            WritePlan::ExpireToBlack
        },
    }
}

/// What a light sink does after a failed write, before the backoff pause.
#[derive(Clone, Copy, Debug, PartialEq, Eq, Structural)]
pub enum WriteFailureResponse {
    /// Keep the open sink and write again.
    RetrySameSink,
    /// Black the open sink out, close it, and open a new one.
    BlackoutAndReopen,
}

/// Counts consecutive write failures of a light sink and decides when to
/// give up on the open device and reopen it. The count always stays below
/// the reopen threshold.
pub struct WriteFailureTracker {
    consecutive: usize,
}

impl WriteFailureTracker {
    #[verifier::type_invariant]
    spec fn below_threshold(&self) -> bool {
        self.consecutive < MAX_CONSECUTIVE_WRITE_FAILURES
    }

    /// Failures since the last success or reopen.
    pub closed spec fn consecutive(&self) -> nat {
        self.consecutive as nat
    }

    pub fn new() -> (tracker: WriteFailureTracker)
        ensures
            tracker.consecutive() == 0,
    {
        WriteFailureTracker { consecutive: 0 }
    }

    /// A write succeeded.
    pub fn record_success(&mut self)
        ensures
            final(self).consecutive() == 0,
    {
        self.consecutive = 0;
    }

    /// A write failed. On the third failure in a row the open sink is given
    /// up: it is blacked out, closed and reopened, and a new count starts.
    /// Before that the same sink is retried.
    pub fn record_failure(&mut self) -> (response: WriteFailureResponse)
        ensures
            (response == WriteFailureResponse::BlackoutAndReopen) == (old(self).consecutive() + 1
                >= MAX_CONSECUTIVE_WRITE_FAILURES),
            (response == WriteFailureResponse::RetrySameSink) == (old(self).consecutive() + 1
                < MAX_CONSECUTIVE_WRITE_FAILURES),
            final(self).consecutive() == if response == WriteFailureResponse::BlackoutAndReopen {
                0
            } else {
                old(self).consecutive() + 1
            },
    {
        proof {
            use_type_invariant(&*self);
        }
        let next = self.consecutive + 1;
        if next >= MAX_CONSECUTIVE_WRITE_FAILURES {
            self.consecutive = 0;
            WriteFailureResponse::BlackoutAndReopen
        } else {
            self.consecutive = next;
            WriteFailureResponse::RetrySameSink
        }
    }

    /// Whether the count is below the reopen threshold; it always is.
    pub fn is_below_threshold(&self) -> (below: bool)
        ensures
            below == (self.consecutive() < MAX_CONSECUTIVE_WRITE_FAILURES),
            below,
    {
        proof {
            use_type_invariant(self);
        }
        self.consecutive < MAX_CONSECUTIVE_WRITE_FAILURES
    }
}

} // verus!
