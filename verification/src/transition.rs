//! Per-zone fade timing. A fade runs from the colors visible when it was
//! retargeted to the new target, each zone over its own duration; what a
//! zone shows part-way through is blended outside this module.

use vstd::prelude::*;

use crate::color::{Rgb8, ZoneColors};

verus! {

/// The normal fade duration in nanoseconds (90 ms).
pub const DEFAULT_TRANSITION_DURATION_NANOS: u64 = 90_000_000;

/// Where one zone's fade stands at a given moment.
#[derive(Clone, Copy, Debug, PartialEq, Eq, Structural)]
pub enum ZoneFade {
    /// The zone shows its target.
    Settled(Rgb8),
    /// The zone is `elapsed` nanoseconds into a fade of `duration`
    /// nanoseconds (with `elapsed < duration`) from `start` to `target`.
    Fading { start: Rgb8, target: Rgb8, elapsed: u64, duration: u64 },
}

/// Fade state for the four zones. Times are nanoseconds on a monotonic
/// clock.
#[derive(Clone, Copy, Debug)]
pub struct TransitionController {
    start: ZoneColors,
    target: ZoneColors,
    started_at: Option<u64>,
    durations: [u64; 4],
}

/// The abstract fade state.
pub struct TransitionState {
    pub start: ZoneColors,
    pub target: ZoneColors,
    pub started_at: Option<u64>,
    pub durations: [u64; 4],
}

impl View for TransitionController {
    type V = TransitionState;

    closed spec fn view(&self) -> TransitionState {
        TransitionState {
            start: self.start,
            target: self.target,
            started_at: self.started_at,
            durations: self.durations,
        }
    }
}

/// Time since `started`, or zero for a moment before it.
pub open spec fn elapsed_since(now: u64, started: u64) -> u64 {
    if now >= started {
        (now - started) as u64
    } else {
        0
    }
}

/// Where zone `i` stands at `now`: settled on its target when no fade was
/// ever started or its duration has fully elapsed, fading otherwise.
pub open spec fn zone_fade_at(state: TransitionState, i: int, now: u64) -> ZoneFade {
    match state.started_at {
        None => ZoneFade::Settled(state.target.0[i]),
        Some(started) => {
            let elapsed = elapsed_since(now, started);
            if elapsed >= state.durations[i] {
                ZoneFade::Settled(state.target.0[i])
            } else {
                ZoneFade::Fading {
                    start: state.start.0[i],
                    target: state.target.0[i],
                    elapsed,
                    duration: state.durations[i],
                }
            }
        },
    }
}

/// Every zone has reached its target at `now`.
pub open spec fn fade_complete_at(state: TransitionState, now: u64) -> bool {
    match state.started_at {
        None => true,
        Some(started) => forall|i: int|
            0 <= i < 4 ==> elapsed_since(now, started) >= #[trigger] state.durations[i],
    }
}

impl TransitionController {
    /// A controller resting on `initial`, using `duration` for every zone.
    pub fn new(initial: ZoneColors, duration: u64) -> (controller: TransitionController)
        ensures
            controller@.start == initial,
            controller@.target == initial,
            controller@.started_at is None,
            controller@.durations == [duration, duration, duration, duration],
    {
        TransitionController {
            start: initial,
            target: initial,
            started_at: None,
            durations: [duration, duration, duration, duration],
        }
    }

    /// Starts a fade at `now` from `visible` (what the zones show at `now`)
    /// to `target`, with a duration per zone.
    pub fn retarget_with_zone_durations(
        &mut self,
        visible: ZoneColors,
        target: ZoneColors,
        now: u64,
        durations: [u64; 4],
    )
        ensures
            final(self)@ == (TransitionState {
                start: visible,
                target,
                started_at: Some(now),
                durations,
            }),
    {
        self.start = visible;
        self.target = target;
        self.started_at = Some(now);
        self.durations = durations;
    }

    /// Starts a fade at `now` from `visible` to `target`, keeping the
    /// current per-zone durations.
    pub fn retarget(&mut self, visible: ZoneColors, target: ZoneColors, now: u64)
        ensures
            final(self)@ == (TransitionState {
                start: visible,
                target,
                started_at: Some(now),
                durations: old(self)@.durations,
            }),
    {
        let durations = self.durations;
        self.retarget_with_zone_durations(visible, target, now, durations);
    }

    /// The fade target.
    pub fn target(&self) -> (target: ZoneColors)
        ensures
            target == self@.target,
    {
        self.target
    }

    /// Where each zone's fade stands at `now`.
    pub fn fades_at(&self, now: u64) -> (fades: [ZoneFade; 4])
        ensures
            forall|i: int| 0 <= i < 4 ==> #[trigger] fades[i] == zone_fade_at(self@, i, now),
    {
        [self.zone_fade(0, now), self.zone_fade(1, now), self.zone_fade(2, now), self.zone_fade(3, now)]
    }

    fn zone_fade(&self, index: usize, now: u64) -> (fade: ZoneFade)
        requires
            index < 4,
        ensures
            fade == zone_fade_at(self@, index as int, now),
    {
        match self.started_at {
            None => ZoneFade::Settled(self.target.0[index]),
            Some(started) => {
                let elapsed = if now >= started {
                    now - started
                } else {
                    0
                };
                let duration = self.durations[index];
                if elapsed >= duration {
                    ZoneFade::Settled(self.target.0[index])
                } else {
                    ZoneFade::Fading {
                        start: self.start.0[index],
                        target: self.target.0[index],
                        elapsed,
                        duration,
                    }
                }
            },
        }
    }

    /// Whether every zone has reached its target at `now`.
    pub fn is_complete(&self, now: u64) -> (complete: bool)
        ensures
            complete == fade_complete_at(self@, now),
    {
        match self.started_at {
            None => true,
            Some(started) => {
                let elapsed = if now >= started {
                    now - started
                } else {
                    0
                };
                let complete = elapsed >= self.durations[0] && elapsed >= self.durations[1]
                    && elapsed >= self.durations[2] && elapsed >= self.durations[3];
                proof {
                    if complete {
                        assert forall|i: int| 0 <= i < 4 implies elapsed_since(now, started)
                            >= #[trigger] self.durations[i] by {
                            if i == 0 {
                            } else if i == 1 {
                            } else if i == 2 {
                            } else {
                            }
                        }
                    } else {
                        let d = self@.durations;
                        assert(elapsed < d[0] || elapsed < d[1] || elapsed < d[2] || elapsed < d[3]);
                    }
                }
                complete
            },
        }
    }
}

/// A fade is complete exactly when every zone has settled on its target.
pub proof fn lemma_complete_iff_all_settled(state: TransitionState, now: u64)
    ensures
        fade_complete_at(state, now) <==> forall|i: int|
            0 <= i < 4 ==> #[trigger] zone_fade_at(state, i, now) == ZoneFade::Settled(
                state.target.0[i],
            ),
{
    if state.started_at is Some {
        if forall|i: int|
            0 <= i < 4 ==> #[trigger] zone_fade_at(state, i, now) == ZoneFade::Settled(
                state.target.0[i],
            ) {
            assert forall|i: int| 0 <= i < 4 implies elapsed_since(now, state.started_at.unwrap())
                >= #[trigger] state.durations[i] by {
                assert(zone_fade_at(state, i, now) == ZoneFade::Settled(state.target.0[i]));
            }
        }
    }
}

/// Once every zone has settled it stays settled at every later moment.
pub proof fn lemma_complete_stays_complete(state: TransitionState, now: u64, later: u64)
    requires
        now <= later,
        fade_complete_at(state, now),
    ensures
        fade_complete_at(state, later),
{
}

} // verus!
