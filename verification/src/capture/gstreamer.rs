//! The arithmetic and bookkeeping behind the desktop capture pipeline:
//! output scaling, the output-caps latch, held frames and shutdown.

use vstd::prelude::*;

use crate::capture::error::CaptureError;
use crate::frame::{frame_layout_verdict, FrameError, RgbFrame};

verus! {

/// Width of the scaled frames handed to the sampler.
pub const SCALED_OUTPUT_WIDTH: u32 = 160;

/// The height that keeps the source's aspect ratio at `target_width`,
/// rounded to nearest, at least 1.
pub open spec fn spec_proportional_height(
    source_width: u32,
    source_height: u32,
    target_width: u32,
) -> int {
    let height = (source_height * target_width + source_width / 2) / (source_width as int);
    if height < 1 {
        1
    } else {
        height
    }
}

/// The dimensions `proportional_dimensions` gives.
pub open spec fn proportional_dimensions_spec(source_width: u32, source_height: u32, target_width: u32) -> Option<(u32, u32)> {
    if source_width == 0 || source_height == 0 || target_width == 0 {
        None
    } else if (source_height * target_width + source_width / 2) / (source_width as int) > u32::MAX {
        None
    } else {
        Some((target_width, spec_proportional_height(source_width, source_height, target_width) as u32))
    }
}

/// Scaled dimensions keep the requested width and the source's aspect
/// ratio: the height is at least 1 and, unless the exact height is below
/// one half, lies within one half of `source_height * target_width /
/// source_width`.
pub proof fn lemma_proportional_dimensions_keep_aspect(source_width: u32, source_height: u32, target_width: u32)
    ensures
        proportional_dimensions_spec(source_width, source_height, target_width) matches Some((w, h))
            ==> {
            &&& w == target_width
            &&& h >= 1
            &&& 2 * source_height * target_width >= source_width ==> {
                &&& 2 * (h * source_width - source_height * target_width) <= source_width
                &&& 2 * (source_height * target_width - h * source_width) <= source_width
            }
        },
{
    if source_width > 0 && source_height > 0 && target_width > 0 {
        let sw = source_width as int;
        let n = source_height * target_width + sw / 2;
        let q = n / sw;
        vstd::arithmetic::div_mod::lemma_fundamental_div_mod(n, sw);
        let r = n % sw;
        assert(0 <= r < sw);
        assert(n == sw * q + r);
        if 2 * source_height * target_width >= source_width {
            assert(q >= 1) by (nonlinear_arith)
                requires
                    n == sw * q + r,
                    0 <= r < sw,
                    n == source_height * target_width + sw / 2,
                    2 * source_height * target_width >= sw,
                    sw > 0,
            ;
            assert(q * sw == sw * q) by (nonlinear_arith);
        }
    }
}

/// Scales source dimensions to `target_width` keeping the aspect ratio.
/// Any zero dimension, or a height that does not fit in `u32`, gives `None`.
pub fn proportional_dimensions(source_width: u32, source_height: u32, target_width: u32) -> (dimensions: Option<(u32, u32)>)
    ensures
        dimensions == proportional_dimensions_spec(source_width, source_height, target_width),
        source_width == 0 || source_height == 0 || target_width == 0 ==> dimensions is None,
        source_width > 0 && source_height > 0 && target_width > 0 ==> {
            let height = (source_height * target_width + source_width / 2) / (source_width as int);
            &&& height > u32::MAX ==> dimensions is None
            &&& height <= u32::MAX ==> dimensions == Some(
                (target_width, spec_proportional_height(source_width, source_height, target_width) as u32),
            )
        },
{
    if source_width == 0 || source_height == 0 || target_width == 0 {
        return None;
    }
    proof {
        assert((source_height as u64) * (target_width as u64) <= 0xffff_ffff * 0xffff_ffffu64) by (nonlinear_arith)
            requires
                source_height <= 0xffff_ffff,
                target_width <= 0xffff_ffff,
        ;
    }
    let numerator = (source_height as u64) * (target_width as u64) + (source_width as u64) / 2;
    let height = numerator / (source_width as u64);
    if height > 0xffff_ffff {
        return None;
    }
    let height = height as u32;
    Some((target_width, if height < 1 { 1 } else { height }))
}

/// The dimensions packed into one word (width in the high half), as the
/// output latch stores them; zero means the latch is closed.
pub open spec fn spec_pack(width: u32, height: u32) -> u64 {
    (width * 0x1_0000_0000 + height) as u64
}

pub fn pack_dimensions(dimensions: (u32, u32)) -> (packed: u64)
    ensures
        packed == spec_pack(dimensions.0, dimensions.1),
{
    let (width, height) = dimensions;
    let packed = (width as u64) * 0x1_0000_0000 + (height as u64);
    packed
}

/// Distinct dimensions pack to distinct words, and only 0 x 0 packs to 0.
pub proof fn lemma_pack_injective(a: (u32, u32), b: (u32, u32))
    ensures
        spec_pack(a.0, a.1) == spec_pack(b.0, b.1) <==> a == b,
        spec_pack(a.0, a.1) == 0 <==> a.0 == 0 && a.1 == 0,
{
}

/// Which scaled dimension does not fit the signed 32-bit caps fields.
#[derive(Clone, Copy, Debug, PartialEq, Eq, Structural)]
pub enum CapsRangeError {
    Width(u32),
    Height(u32),
}

/// Scaled dimensions as the signed 32-bit width and height of video caps;
/// the width is checked first.
pub fn caps_dimensions(dimensions: (u32, u32)) -> (result: Result<(i32, i32), CapsRangeError>)
    ensures
        dimensions.0 > i32::MAX ==> result == Err::<(i32, i32), CapsRangeError>(CapsRangeError::Width(dimensions.0)),
        dimensions.0 <= i32::MAX && dimensions.1 > i32::MAX ==> result == Err::<(i32, i32), CapsRangeError>(
            CapsRangeError::Height(dimensions.1),
        ),
        dimensions.0 <= i32::MAX && dimensions.1 <= i32::MAX ==> result == Ok::<(i32, i32), CapsRangeError>(
            (dimensions.0 as i32, dimensions.1 as i32),
        ),
{
    let (width, height) = dimensions;
    if width > 0x7fff_ffff {
        return Err(CapsRangeError::Width(width));
    }
    if height > 0x7fff_ffff {
        return Err(CapsRangeError::Height(height));
    }
    Ok((width as i32, height as i32))
}

/// A caps change waiting to be installed, identified by the revision at
/// which it was requested.
#[derive(Clone, Copy, Debug, PartialEq, Eq)]
pub struct PendingCaps {
    pub revision: u64,
    pub dimensions: (u32, u32),
}

/// Bookkeeping for output caps changes. At most one worker installs caps
/// at a time; while a change is pending or being installed the latch value
/// (`expected`) is 0, so no frame of a stale size passes.
#[derive(Debug)]
pub struct OutputCapsState {
    pub revision: u64,
    pub pending: Option<PendingCaps>,
    pub worker_running: bool,
    pub expected: u64,
}

pub open spec fn next_caps_revision(revision: u64) -> u64 {
    if revision == u64::MAX {
        0
    } else {
        (revision + 1) as u64
    }
}

impl OutputCapsState {
    pub fn new() -> (state: OutputCapsState)
        ensures
            state.revision == 0,
            state.pending is None,
            !state.worker_running,
            state.expected == 0,
    {
        OutputCapsState { revision: 0, pending: None, worker_running: false, expected: 0 }
    }

    /// Requests new output dimensions: they replace any pending request
    /// under a new revision and the latch closes. Returns the revision, and
    /// whether the caller must start the install worker (none is running).
    pub fn request(&mut self, dimensions: (u32, u32)) -> (result: (u64, bool))
        ensures
            final(self).revision == next_caps_revision(old(self).revision),
            result.0 == final(self).revision,
            final(self).pending == Some(PendingCaps { revision: result.0, dimensions }),
            final(self).expected == 0,
            result.1 == !old(self).worker_running,
            final(self).worker_running,
    {
        self.revision = if self.revision == u64::MAX {
            0
        } else {
            self.revision + 1
        };
        self.pending = Some(PendingCaps { revision: self.revision, dimensions });
        self.expected = 0;
        if self.worker_running {
            (self.revision, false)
        } else {
            self.worker_running = true;
            (self.revision, true)
        }
    }

    /// Forgets any pending request and closes the latch.
    pub fn invalidate(&mut self)
        ensures
            final(self).revision == next_caps_revision(old(self).revision),
            final(self).pending is None,
            final(self).expected == 0,
            final(self).worker_running == old(self).worker_running,
    {
        self.revision = if self.revision == u64::MAX {
            0
        } else {
            self.revision + 1
        };
        self.pending = None;
        self.expected = 0;
    }

    /// The worker takes the pending request to install it; with none left,
    /// the worker stops.
    pub fn take_pending(&mut self) -> (taken: Option<PendingCaps>)
        ensures
            taken == old(self).pending,
            final(self).pending is None,
            final(self).revision == old(self).revision,
            final(self).expected == old(self).expected,
            final(self).worker_running == (old(self).worker_running && taken is Some),
    {
        match self.pending {
            Some(update) => {
                self.pending = None;
                Some(update)
            },
            None => {
                self.worker_running = false;
                None
            },
        }
    }

    /// The worker finished installing `installed`. If no newer request or
    /// invalidation came meanwhile, the latch opens for its dimensions and the
    /// worker stops; if a newer request is pending the worker continues
    /// (returns true); otherwise it stops with the latch closed.
    pub fn finish_install(&mut self, installed: PendingCaps) -> (continue_worker: bool)
        ensures
            final(self).revision == old(self).revision,
            final(self).pending == old(self).pending,
            old(self).revision == installed.revision ==> !continue_worker && final(self).expected
                == spec_pack(installed.dimensions.0, installed.dimensions.1)
                && !final(self).worker_running,
            old(self).revision != installed.revision ==> final(self).expected
                == old(self).expected && continue_worker == old(self).pending is Some
                && final(self).worker_running == (old(self).worker_running && continue_worker),
    {
        if self.revision == installed.revision {
            self.expected = pack_dimensions(installed.dimensions);
            self.worker_running = false;
            return false;
        }
        if self.pending.is_none() {
            self.worker_running = false;
            return false;
        }
        true
    }
}

/// How long the portal may stay silent before the last frame is repeated
/// (200 ms).
pub const STATIC_FRAME_HOLD_NANOS: u64 = 200_000_000;

/// The frame to repeat after `waited_nanos` of portal silence: none before
/// 200 ms have passed, then the held frame, if the latch allows it.
pub fn frame_to_repeat(last_frame: &Option<RgbFrame>, expected: u64, waited_nanos: u64) -> (repeat: Option<RgbFrame>)
    ensures
        waited_nanos < STATIC_FRAME_HOLD_NANOS ==> repeat is None,
        waited_nanos >= STATIC_FRAME_HOLD_NANOS ==> (repeat is Some <==> (last_frame matches Some(
            frame,
        ) && expected != 0 && frame.width <= u32::MAX && frame.height <= u32::MAX && spec_pack(
            frame.width as u32,
            frame.height as u32,
        ) == expected)),
        repeat matches Some(copy) ==> (last_frame matches Some(frame) && copy.width == frame.width
            && copy.height == frame.height && copy.stride == frame.stride && copy.pixels@
            == frame.pixels@),
{
    if waited_nanos < STATIC_FRAME_HOLD_NANOS {
        None
    } else {
        held_frame(last_frame, expected)
    }
}

/// Whether a held frame of `width` x `height` may be repeated while the
/// latch holds `expected`: the latch must be open for exactly that size.
pub fn held_frame_allowed(width: usize, height: usize, expected: u64) -> (allowed: bool)
    ensures
        allowed == (expected != 0 && width <= u32::MAX && height <= u32::MAX && spec_pack(
            width as u32,
            height as u32,
        ) == expected),
{
    if width > 0xffff_ffff || height > 0xffff_ffff {
        return false;
    }
    expected != 0 && pack_dimensions((width as u32, height as u32)) == expected
}

/// The last valid frame again, if the latch is open for its size.
pub fn held_frame(last_frame: &Option<RgbFrame>, expected: u64) -> (held: Option<RgbFrame>)
    ensures
        held is Some <==> (last_frame matches Some(frame) && expected != 0 && frame.width
            <= u32::MAX && frame.height <= u32::MAX && spec_pack(
            frame.width as u32,
            frame.height as u32,
        ) == expected),
        held matches Some(copy) ==> (last_frame matches Some(frame) && copy.width == frame.width
            && copy.height == frame.height && copy.stride == frame.stride && copy.pixels@
            == frame.pixels@),
{
    match last_frame {
        None => None,
        Some(frame) => {
            if held_frame_allowed(frame.width, frame.height, expected) {
                let pixels = frame.pixels.clone();
                assert(pixels@ =~= frame.pixels@);
                Some(
                    RgbFrame {
                        width: frame.width,
                        height: frame.height,
                        stride: frame.stride,
                        pixels,
                    },
                )
            } else {
                None
            }
        },
    }
}

/// Which parts of the capture have been shut down.
#[derive(Clone, Copy, Debug, Default, PartialEq, Eq, Structural)]
pub struct ShutdownState {
    pub pipeline_stopped: bool,
    pub portal_closed: bool,
}

/// The steps a shutdown still has to attempt: stopping the pipeline and
/// closing the portal, each only if not already done.
pub fn shutdown_steps(state: &ShutdownState) -> (steps: (bool, bool))
    ensures
        steps == (!state.pipeline_stopped, !state.portal_closed),
{
    (!state.pipeline_stopped, !state.portal_closed)
}

/// Records the outcome of the attempted shutdown steps; a step is marked
/// done only if it was attempted and succeeded.
pub fn record_shutdown(state: &mut ShutdownState, pipeline_stopped: Option<bool>, portal_closed: Option<bool>)
    ensures
        final(state).pipeline_stopped == (old(state).pipeline_stopped || pipeline_stopped == Some(true)),
        final(state).portal_closed == (old(state).portal_closed || portal_closed == Some(true)),
{
    if pipeline_stopped == Some(true) {
        state.pipeline_stopped = true;
    }
    if portal_closed == Some(true) {
        state.portal_closed = true;
    }
}

/// The text that joins the failures of one shutdown attempt: each
/// attempted step that failed, as `pipeline: ...` then `portal: ...`,
/// separated by `; `.
pub open spec fn shutdown_failure_text(pipeline: Option<Seq<char>>, portal: Option<Seq<char>>) -> Seq<char> {
    match (pipeline, portal) {
        (Some(p), Some(q)) => "pipeline: "@ + p + "; portal: "@ + q,
        (Some(p), None) => "pipeline: "@ + p,
        (None, Some(q)) => "portal: "@ + q,
        (None, None) => Seq::empty(),
    }
}

/// The outcome of one shutdown attempt from the failure messages of its
/// steps: success when no attempted step failed, otherwise a shutdown error
/// naming each failure.
pub fn shutdown_result(pipeline_failure: Option<String>, portal_failure: Option<String>) -> (result: Result<(), CaptureError>)
    ensures
        pipeline_failure is None && portal_failure is None ==> result is Ok,
        !(pipeline_failure is None && portal_failure is None) ==> (result matches Err(
            CaptureError::Shutdown { message },
        ) && message@ == shutdown_failure_text(
            match pipeline_failure { Some(p) => Some(p@), None => None },
            match portal_failure { Some(q) => Some(q@), None => None },
        )),
{
    proof {
        reveal_strlit("pipeline: ");
        reveal_strlit("; portal: ");
        reveal_strlit("portal: ");
    }
    match (pipeline_failure, portal_failure) {
        (None, None) => Ok(()),
        (Some(p), None) => {
            let mut message = String::from_str("pipeline: ");
            message.append(p.as_str());
            Err(CaptureError::Shutdown { message })
        },
        (None, Some(q)) => {
            let mut message = String::from_str("portal: ");
            message.append(q.as_str());
            Err(CaptureError::Shutdown { message })
        },
        (Some(p), Some(q)) => {
            let mut message = String::from_str("pipeline: ");
            message.append(p.as_str());
            message.append("; portal: ");
            message.append(q.as_str());
            Err(CaptureError::Shutdown { message })
        },
    }
}

/// Copies an RGB plane into a frame: the stride must not be negative and
/// the plane must hold `stride * height` bytes, of which exactly that
/// prefix is kept.
pub fn frame_from_plane(width: usize, height: usize, stride: i32, plane: &[u8]) -> (result: Result<RgbFrame, FrameError>)
    ensures
        stride >= 0 && (stride as int) * height <= usize::MAX && (stride as int) * height <= plane@.len() ==> match frame_layout_verdict(
            width as int,
            height as int,
            stride as int,
            (stride as int) * height,
        ) {
            Ok(()) => result matches Ok(frame) && frame.width == width && frame.height == height
                && frame.stride == stride && frame.pixels@ == plane@.take((stride as int) * height),
            Err(error) => result == Err::<RgbFrame, FrameError>(error),
        },
        stride < 0 ==> result == Err::<RgbFrame, FrameError>(FrameError::StrideTooSmall),
        stride >= 0 && (stride as int) * height > usize::MAX ==> result == Err::<RgbFrame, FrameError>(
            FrameError::LengthOverflow,
        ),
        stride >= 0 && (stride as int) * height <= usize::MAX && (stride as int) * height > plane@.len()
            ==> result == Err::<RgbFrame, FrameError>(FrameError::WrongLength),
{
    if stride < 0 {
        return Err(FrameError::StrideTooSmall);
    }
    let stride = stride as usize;
    let byte_len = match stride.checked_mul(height) {
        Some(len) => len,
        None => return Err(FrameError::LengthOverflow),
    };
    if plane.len() < byte_len {
        return Err(FrameError::WrongLength);
    }
    let mut pixels: Vec<u8> = Vec::new();
    let mut i: usize = 0;
    while i < byte_len
        invariant
            i <= byte_len <= plane@.len(),
            pixels@ =~= plane@.take(i as int),
        decreases byte_len - i,
    {
        pixels.push(plane[i]);
        i = i + 1;
    }
    RgbFrame::new(width, height, stride, pixels)
}

} // verus!
