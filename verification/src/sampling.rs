//! The decisions of the engine's sampling loop and of its teardown: when a
//! capture stall blacks the lights out, which frames are dropped as stale,
//! when the loop stops, which error the engine reports, and how many frames
//! it dropped. Times are nanoseconds on the engine's monotonic clock.

use vstd::prelude::*;

use crate::engine::{generation_is_live, CAPTURE_STALL_TIMEOUT_NANOS};

verus! {

/// What happened to the sampling loop.
#[derive(Clone, Copy, Debug, PartialEq, Eq, Structural)]
pub enum SamplingEvent {
    /// The user cancelled the engine.
    Cancelled,
    /// The shared cancel flag changed; `set` is whether it now asks to stop
    /// (a closed flag channel counts as set).
    CancelSignal { set: bool },
    /// The stall timer went off at `now`.
    StallTimerFired { now: u64 },
    /// The writer could not be asked for the safety blackout.
    SafetyBlackoutFailed,
    /// A captured frame of `frame_generation` arrived at `now`, while the
    /// capture generation is `current_generation`.
    FrameArrived { frame_generation: u64, current_generation: u64, now: u64 },
    /// The capture side closed its frame channel.
    FrameChannelClosed,
    /// Compiling the zone masks or running the sampler failed.
    SamplingFailed,
    /// Sampling of a frame of `frame_generation` finished; `cancel_set` is
    /// whether the cancel flag was set by then.
    SampleReady { frame_generation: u64, current_generation: u64, cancel_set: bool },
    /// The update was handed to the writer; `replaced` is whether it
    /// displaced one the writer had not taken yet.
    UpdateSent { replaced: bool },
    /// The writer closed its update channel.
    UpdateChannelClosed,
}

/// What the sampling loop does next.
#[derive(Clone, Copy, Debug, PartialEq, Eq, Structural)]
pub enum SamplingAction {
    /// Wait for the next frame (an unfinished sample is abandoned).
    Wait,
    /// Ask the writer to black the lights out and fence off older frames,
    /// then wait for the next frame.
    RequestSafetyBlackout,
    /// Count one dropped frame and wait for the next.
    DropFrame,
    /// Re-arm the stall timer at the stall deadline and sample the frame.
    SampleFrame,
    /// Hand the sampled colors to the writer.
    SendUpdate,
    /// Count one dropped frame: a sent update displaced an older one.
    CountReplaced,
    /// Leave the loop: cancel the pipeline, black the lights out, and join
    /// the tasks.
    Shutdown,
}

/// The sampling loop between events.
pub struct SamplingLoop {
    stall_deadline: Option<u64>,
    capture_stalls: u64,
    sampled_replacements: u64,
    failed: bool,
    stopped: bool,
}

/// A frame of `frame_generation` is live under `current`: the same
/// generation, and no blackout in force (blackout generations are odd).
pub open spec fn spec_live(frame_generation: u64, current: u64) -> bool {
    frame_generation == current && frame_generation % 2 == 0
}

/// The stall deadline a live frame at `now` sets: 500 ms later.
pub open spec fn spec_stall_deadline_after(now: u64) -> u64 {
    (now + CAPTURE_STALL_TIMEOUT_NANOS) as u64
}

impl SamplingLoop {
    /// When the stall timer goes off; `None` while a stall is already being
    /// handled, until the next live frame.
    pub closed spec fn deadline(&self) -> Option<u64> {
        self.stall_deadline
    }

    /// Stalls seen so far.
    pub closed spec fn stalls(&self) -> u64 {
        self.capture_stalls
    }

    /// Frames dropped by the sampling loop so far.
    pub closed spec fn replacements(&self) -> u64 {
        self.sampled_replacements
    }

    /// Whether the loop stopped on a failure of its own.
    pub closed spec fn has_failed(&self) -> bool {
        self.failed
    }

    /// Whether the loop has stopped.
    pub closed spec fn has_stopped(&self) -> bool {
        self.stopped
    }

    /// A loop started at `now`: the first frame is due within 500 ms.
    pub fn new(now: u64) -> (state: SamplingLoop)
        requires
            now <= u64::MAX - CAPTURE_STALL_TIMEOUT_NANOS,
        ensures
            state.deadline() == Some(spec_stall_deadline_after(now)),
            state.stalls() == 0,
            state.replacements() == 0,
            !state.has_failed(),
            !state.has_stopped(),
    {
        SamplingLoop {
            stall_deadline: Some(now + CAPTURE_STALL_TIMEOUT_NANOS),
            capture_stalls: 0,
            sampled_replacements: 0,
            failed: false,
            stopped: false,
        }
    }

    /// When the stall timer goes off, if it is armed.
    pub fn stall_deadline(&self) -> (deadline: Option<u64>)
        ensures
            deadline == self.deadline(),
    {
        self.stall_deadline
    }

    /// Stalls seen so far.
    pub fn capture_stalls(&self) -> (stalls: u64)
        ensures
            stalls == self.stalls(),
    {
        self.capture_stalls
    }

    /// Frames dropped by the sampling loop so far.
    pub fn sampled_replacements(&self) -> (replacements: u64)
        ensures
            replacements == self.replacements(),
    {
        self.sampled_replacements
    }

    /// Whether the loop stopped on a failure of its own.
    pub fn failed(&self) -> (failed: bool)
        ensures
            failed == self.has_failed(),
    {
        self.failed
    }

    /// Takes one event and says what to do. A stopped loop only shuts down.
    /// The loop stops on cancellation, a set cancel flag, a closed channel,
    /// or a failure of its own (a refused safety blackout, failed sampling).
    /// A stall timer that goes off at or after its deadline asks for a safety
    /// blackout, counts a stall and disarms the timer until a live frame
    /// arrives. A frame of a fenced-off generation, on arrival or after
    /// sampling, is dropped and counted; a live one re-arms the timer 500 ms
    /// after its arrival and is sampled, and its colors are sent unless the
    /// cancel flag was set meanwhile. An update that displaced another is
    /// counted as a dropped frame.
    pub fn step(&mut self, event: SamplingEvent) -> (action: SamplingAction)
        requires
            old(self).stalls() < u64::MAX,
            old(self).replacements() < u64::MAX,
            event matches SamplingEvent::FrameArrived { now, .. } ==> now <= u64::MAX
                - CAPTURE_STALL_TIMEOUT_NANOS,
        ensures
            old(self).has_stopped() ==> action == SamplingAction::Shutdown && *final(self)
                == *old(self),
            !old(self).has_stopped() ==> match event {
                SamplingEvent::Cancelled | SamplingEvent::FrameChannelClosed
                | SamplingEvent::UpdateChannelClosed => {
                    &&& action == SamplingAction::Shutdown
                    &&& final(self).has_stopped()
                    &&& final(self).has_failed() == old(self).has_failed()
                    &&& final(self).deadline() == old(self).deadline()
                    &&& final(self).stalls() == old(self).stalls()
                    &&& final(self).replacements() == old(self).replacements()
                },
                SamplingEvent::CancelSignal { set } => if set {
                    &&& action == SamplingAction::Shutdown
                    &&& final(self).has_stopped()
                    &&& final(self).has_failed() == old(self).has_failed()
                    &&& final(self).deadline() == old(self).deadline()
                    &&& final(self).stalls() == old(self).stalls()
                    &&& final(self).replacements() == old(self).replacements()
                } else {
                    action == SamplingAction::Wait && *final(self) == *old(self)
                },
                SamplingEvent::SafetyBlackoutFailed | SamplingEvent::SamplingFailed => {
                    &&& action == SamplingAction::Shutdown
                    &&& final(self).has_stopped()
                    &&& final(self).has_failed()
                    &&& final(self).deadline() == old(self).deadline()
                    &&& final(self).stalls() == old(self).stalls()
                    &&& final(self).replacements() == old(self).replacements()
                },
                SamplingEvent::StallTimerFired { now } => match old(self).deadline() {
                    Some(deadline) if deadline <= now => {
                        &&& action == SamplingAction::RequestSafetyBlackout
                        &&& final(self).deadline() is None
                        &&& final(self).stalls() == old(self).stalls() + 1
                        &&& final(self).replacements() == old(self).replacements()
                        &&& final(self).has_failed() == old(self).has_failed()
                        &&& !final(self).has_stopped()
                    },
                    _ => action == SamplingAction::Wait && *final(self) == *old(self),
                },
                SamplingEvent::FrameArrived { frame_generation, current_generation, now } => if spec_live(
                    frame_generation,
                    current_generation,
                ) {
                    &&& action == SamplingAction::SampleFrame
                    &&& final(self).deadline() == Some(spec_stall_deadline_after(now))
                    &&& final(self).stalls() == old(self).stalls()
                    &&& final(self).replacements() == old(self).replacements()
                    &&& final(self).has_failed() == old(self).has_failed()
                    &&& !final(self).has_stopped()
                } else {
                    &&& action == SamplingAction::DropFrame
                    &&& final(self).deadline() == old(self).deadline()
                    &&& final(self).stalls() == old(self).stalls()
                    &&& final(self).replacements() == old(self).replacements() + 1
                    &&& final(self).has_failed() == old(self).has_failed()
                    &&& !final(self).has_stopped()
                },
                SamplingEvent::SampleReady { frame_generation, current_generation, cancel_set } => if cancel_set {
                    &&& action == SamplingAction::Shutdown
                    &&& final(self).has_stopped()
                    &&& final(self).has_failed() == old(self).has_failed()
                    &&& final(self).deadline() == old(self).deadline()
                    &&& final(self).stalls() == old(self).stalls()
                    &&& final(self).replacements() == old(self).replacements()
                } else if spec_live(frame_generation, current_generation) {
                    action == SamplingAction::SendUpdate && *final(self) == *old(self)
                } else {
                    &&& action == SamplingAction::DropFrame
                    &&& final(self).deadline() == old(self).deadline()
                    &&& final(self).stalls() == old(self).stalls()
                    &&& final(self).replacements() == old(self).replacements() + 1
                    &&& final(self).has_failed() == old(self).has_failed()
                    &&& !final(self).has_stopped()
                },
                SamplingEvent::UpdateSent { replaced } => if replaced {
                    &&& action == SamplingAction::CountReplaced
                    &&& final(self).deadline() == old(self).deadline()
                    &&& final(self).stalls() == old(self).stalls()
                    &&& final(self).replacements() == old(self).replacements() + 1
                    &&& final(self).has_failed() == old(self).has_failed()
                    &&& !final(self).has_stopped()
                } else {
                    action == SamplingAction::Wait && *final(self) == *old(self)
                },
            },
    {
        if self.stopped {
            return SamplingAction::Shutdown;
        }
        match event {
            SamplingEvent::Cancelled | SamplingEvent::FrameChannelClosed
            | SamplingEvent::UpdateChannelClosed => {
                self.stopped = true;
                SamplingAction::Shutdown
            },
            SamplingEvent::CancelSignal { set } => {
                if set {
                    self.stopped = true;
                    SamplingAction::Shutdown
                } else {
                    SamplingAction::Wait
                }
            },
            SamplingEvent::SafetyBlackoutFailed | SamplingEvent::SamplingFailed => {
                self.failed = true;
                self.stopped = true;
                SamplingAction::Shutdown
            },
            SamplingEvent::StallTimerFired { now } => {
                match self.stall_deadline {
                    Some(deadline) => {
                        if deadline <= now {
                            self.stall_deadline = None;
                            self.capture_stalls = self.capture_stalls + 1;
                            SamplingAction::RequestSafetyBlackout
                        } else {
                            SamplingAction::Wait
                        }
                    },
                    None => SamplingAction::Wait,
                }
            },
            SamplingEvent::FrameArrived { frame_generation, current_generation, now } => {
                if generation_is_live(frame_generation, current_generation) {
                    self.stall_deadline = Some(now + CAPTURE_STALL_TIMEOUT_NANOS);
                    SamplingAction::SampleFrame
                } else {
                    self.sampled_replacements = self.sampled_replacements + 1;
                    SamplingAction::DropFrame
                }
            },
            SamplingEvent::SampleReady { frame_generation, current_generation, cancel_set } => {
                if cancel_set {
                    self.stopped = true;
                    SamplingAction::Shutdown
                } else if generation_is_live(frame_generation, current_generation) {
                    SamplingAction::SendUpdate
                } else {
                    self.sampled_replacements = self.sampled_replacements + 1;
                    SamplingAction::DropFrame
                }
            },
            SamplingEvent::UpdateSent { replaced } => {
                if replaced {
                    self.sampled_replacements = self.sampled_replacements + 1;
                    SamplingAction::CountReplaced
                } else {
                    SamplingAction::Wait
                }
            },
        }
    }
}

/// Where the error an engine run reports comes from.
#[derive(Clone, Copy, Debug, PartialEq, Eq, Structural)]
pub enum EngineErrorSource {
    /// The sampling loop's own failure.
    Sampling,
    /// The capture task failed or could not be joined.
    Capture,
    /// The teardown blackout could not be requested.
    TeardownBlackout,
}

/// How the writer task ended.
#[derive(Clone, Copy, Debug, PartialEq, Eq, Structural)]
pub enum WriterEnding {
    /// It finished and reported its statistics.
    Completed,
    /// It finished with an error.
    Failed,
    /// It could not be joined.
    JoinFailed,
}

/// What an engine run returns.
#[derive(Clone, Copy, Debug, PartialEq, Eq, Structural)]
pub enum EngineOutcome {
    /// The writer task could not be joined: that error alone.
    WriterJoinFailed,
    /// The primary error, with the writer's error appended.
    PrimaryAndWriter(EngineErrorSource),
    /// The primary error alone.
    Primary(EngineErrorSource),
    /// The writer's error alone.
    WriterFailed,
    /// The run's statistics.
    Stats,
}

/// The first error among the sampling loop's, the capture task's and the
/// teardown blackout's, in that order.
pub open spec fn spec_primary_error(sampling_failed: bool, capture_failed: bool, teardown_failed: bool) -> Option<EngineErrorSource> {
    if sampling_failed {
        Some(EngineErrorSource::Sampling)
    } else if capture_failed {
        Some(EngineErrorSource::Capture)
    } else if teardown_failed {
        Some(EngineErrorSource::TeardownBlackout)
    } else {
        None
    }
}

/// Decides what an engine run returns once its tasks ended. A writer that
/// could not be joined ends the run with that error; otherwise the primary
/// error wins, with a writer failure appended to it; a writer failure alone
/// is reported as such; and only a run without any error gives statistics.
pub fn engine_outcome(
    sampling_failed: bool,
    capture_failed: bool,
    teardown_failed: bool,
    writer: WriterEnding,
) -> (outcome: EngineOutcome)
    ensures
        outcome == match writer {
            WriterEnding::JoinFailed => EngineOutcome::WriterJoinFailed,
            WriterEnding::Failed => match spec_primary_error(sampling_failed, capture_failed, teardown_failed) {
                Some(source) => EngineOutcome::PrimaryAndWriter(source),
                None => EngineOutcome::WriterFailed,
            },
            WriterEnding::Completed => match spec_primary_error(sampling_failed, capture_failed, teardown_failed) {
                Some(source) => EngineOutcome::Primary(source),
                None => EngineOutcome::Stats,
            },
        },
{
    let primary = if sampling_failed {
        Some(EngineErrorSource::Sampling)
    } else if capture_failed {
        Some(EngineErrorSource::Capture)
    } else if teardown_failed {
        Some(EngineErrorSource::TeardownBlackout)
    } else {
        None
    };
    match writer {
        WriterEnding::JoinFailed => EngineOutcome::WriterJoinFailed,
        WriterEnding::Failed => match primary {
            Some(source) => EngineOutcome::PrimaryAndWriter(source),
            None => EngineOutcome::WriterFailed,
        },
        WriterEnding::Completed => match primary {
            Some(source) => EngineOutcome::Primary(source),
            None => EngineOutcome::Stats,
        },
    }
}

/// The frames a run dropped: those the capture channel replaced, those the
/// sampling loop dropped, and the updates the writer never rendered; `None`
/// if the total does not fit in a `u64`.
pub fn dropped_frames(frame_replacements: u64, sampled_replacements: u64, stale_updates: u64) -> (total: Option<u64>)
    ensures
        frame_replacements + sampled_replacements + stale_updates <= u64::MAX ==> total == Some(
            (frame_replacements + sampled_replacements + stale_updates) as u64,
        ),
        frame_replacements + sampled_replacements + stale_updates > u64::MAX ==> total is None,
{
    match frame_replacements.checked_add(sampled_replacements) {
        Some(partial) => partial.checked_add(stale_updates),
        None => None,
    }
}

/// What the capture task returns once its loop and the source's shutdown
/// ended.
#[derive(Clone, Copy, Debug, PartialEq, Eq, Structural)]
pub enum CaptureOutcome {
    /// Both ended well: the capture statistics.
    Stats,
    /// The capture loop's error.
    CaptureError,
    /// The shutdown's error.
    ShutdownError,
    /// The capture loop's error, with the shutdown's appended.
    BothErrors,
}

/// The capture loop's error comes first; a shutdown error is reported
/// alone, or appended to it.
pub fn capture_outcome(capture_failed: bool, shutdown_failed: bool) -> (outcome: CaptureOutcome)
    ensures
        outcome == if capture_failed && shutdown_failed {
            CaptureOutcome::BothErrors
        } else if capture_failed {
            CaptureOutcome::CaptureError
        } else if shutdown_failed {
            CaptureOutcome::ShutdownError
        } else {
            CaptureOutcome::Stats
        },
{
    match (capture_failed, shutdown_failed) {
        (true, true) => CaptureOutcome::BothErrors,
        (true, false) => CaptureOutcome::CaptureError,
        (false, true) => CaptureOutcome::ShutdownError,
        (false, false) => CaptureOutcome::Stats,
    }
}

} // verus!
