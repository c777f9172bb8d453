//! Capture failures and which of them are worth retrying.

use vstd::prelude::*;

verus! {

#[derive(Debug)]
pub enum CaptureError {
    CaptureCancelled,
    Portal { message: String },
    UnexpectedStreamCount { count: usize },
    GStreamer { stage: &'static str, message: String },
    PipeWire { stage: &'static str, message: String },
    MissingSampleData { missing: &'static str },
    UnsupportedCaps { caps: String },
    InvalidFrameLayout { message: String },
    EndOfStream,
    Pipeline { element: String, message: String, debug: String },
    Shutdown { message: String },
    Cleanup { primary: Box<CaptureError>, cleanup: Box<CaptureError> },
}

/// Whether capture should be reopened after `error`. A portal failure is
/// always worth a retry; pipeline, shutdown, GStreamer and PipeWire
/// failures only once a capture has opened successfully; a cleanup failure
/// is judged by its primary error; anything else is permanent.
pub open spec fn spec_retryable(error: CaptureError, has_opened: bool) -> bool
    decreases error,
{
    match error {
        CaptureError::Portal { .. } => true,
        CaptureError::Pipeline { .. } | CaptureError::Shutdown { .. } => has_opened,
        CaptureError::GStreamer { .. } | CaptureError::PipeWire { .. } => has_opened,
        CaptureError::Cleanup { primary, .. } => spec_retryable(*primary, has_opened),
        _ => false,
    }
}

pub fn capture_error_is_retryable(error: &CaptureError, has_opened: bool) -> (retry: bool)
    ensures
        retry == spec_retryable(*error, has_opened),
    decreases error,
{
    match error {
        CaptureError::Portal { .. } => true,
        CaptureError::Pipeline { .. } | CaptureError::Shutdown { .. } => has_opened,
        CaptureError::GStreamer { .. } | CaptureError::PipeWire { .. } => has_opened,
        CaptureError::Cleanup { primary, .. } => capture_error_is_retryable(primary, has_opened),
        CaptureError::CaptureCancelled
        | CaptureError::UnexpectedStreamCount { .. }
        | CaptureError::MissingSampleData { .. }
        | CaptureError::UnsupportedCaps { .. }
        | CaptureError::InvalidFrameLayout { .. }
        | CaptureError::EndOfStream => false,
    }
}

/// Whether any capture error among the causes of a failure is the user
/// cancelling the capture selection.
pub fn capture_was_cancelled(causes: &[&CaptureError]) -> (cancelled: bool)
    ensures
        cancelled == exists|i: int| 0 <= i < causes@.len() && #[trigger] causes@[i] is CaptureCancelled,
{
    let mut i: usize = 0;
    while i < causes.len()
        invariant
            i <= causes@.len(),
            forall|j: int| 0 <= j < i ==> !(#[trigger] causes@[j] is CaptureCancelled),
        decreases causes@.len() - i,
    {
        match causes[i] {
            CaptureError::CaptureCancelled => return true,
            _ => {},
        }
        i = i + 1;
    }
    false
}

/// Joins a failure with a failure of the cleanup that followed it.
pub fn with_cleanup_failure(primary: CaptureError, cleanup: CaptureError) -> (error: CaptureError)
    ensures
        error == (CaptureError::Cleanup { primary: Box::new(primary), cleanup: Box::new(cleanup) }),
{
    CaptureError::Cleanup { primary: Box::new(primary), cleanup: Box::new(cleanup) }
}

} // verus!
