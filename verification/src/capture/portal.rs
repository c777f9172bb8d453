//! What the screencast portal is asked for, and how its failures read.

use vstd::prelude::*;

use crate::capture::error::CaptureError;

verus! {

/// The kind of source the portal offers for selection.
#[derive(Clone, Copy, Debug, PartialEq, Eq, Structural)]
pub enum SourceKind {
    Monitor,
    Window,
    Virtual,
}

/// How the pointer appears in the captured stream.
#[derive(Clone, Copy, Debug, PartialEq, Eq, Structural)]
pub enum CursorKind {
    Hidden,
    Embedded,
    Metadata,
}

/// How long the portal keeps the granted permission.
#[derive(Clone, Copy, Debug, PartialEq, Eq, Structural)]
pub enum PersistKind {
    DoNot,
    Application,
    ExplicitlyRevoked,
}

/// The source selection requested from the portal.
#[derive(Clone, Debug, PartialEq, Eq)]
pub struct CaptureSelectionOptions {
    pub source: SourceKind,
    pub multiple: bool,
    pub cursor: CursorKind,
    pub persist: PersistKind,
    pub restore_token: Option<String>,
}

/// The screen capture that goes through the desktop portal.
pub struct PortalCapture;

/// One monitor, without the pointer, with a permission that lasts until the
/// user revokes it, restored from `restore_token` when one was saved.
pub fn selection_options(restore_token: Option<String>) -> (options: CaptureSelectionOptions)
    ensures
        options.source == SourceKind::Monitor,
        !options.multiple,
        options.cursor == CursorKind::Hidden,
        options.persist == PersistKind::ExplicitlyRevoked,
        options.restore_token == restore_token,
{
    CaptureSelectionOptions {
        source: SourceKind::Monitor,
        multiple: false,
        cursor: CursorKind::Hidden,
        persist: PersistKind::ExplicitlyRevoked,
        restore_token,
    }
}

/// The capture error for a failed portal request: the user's cancellation
/// is a state of its own, anything else keeps the portal's message.
pub fn portal_failure(cancelled: bool, message: String) -> (error: CaptureError)
    ensures
        cancelled ==> error is CaptureCancelled,
        !cancelled ==> (error matches CaptureError::Portal { message: m } && m@ == message@),
{
    if cancelled {
        CaptureError::CaptureCancelled
    } else {
        CaptureError::Portal { message }
    }
}

/// The error for a portal start that returned `count` streams, unless it
/// returned exactly the one stream that was asked for.
pub fn check_stream_count(count: usize) -> (result: Result<(), CaptureError>)
    ensures
        count == 1 ==> result is Ok,
        count != 1 ==> (result matches Err(CaptureError::UnexpectedStreamCount { count: c }) && c == count),
{
    if count != 1 {
        Err(CaptureError::UnexpectedStreamCount { count })
    } else {
        Ok(())
    }
}

} // verus!
