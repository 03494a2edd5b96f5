//! What the file watcher decides.
//!
//! The watcher waits for notifications about the shared file. Only a
//! modification makes it read the file again; what it read, or that it
//! could not read, goes to [`crate::session::Session::refresh`].

use notify::EventKind;
use vstd::prelude::*;

verus! {

/// What to do about one notification.
#[derive(Clone, Copy, Debug, PartialEq, Eq, Structural)]
pub enum WatchStep {
    /// Read the file again and hand the outcome to the session.
    Reread,
    /// Nothing; wait for the next notification.
    Ignore,
}

/// A modification calls for a reread, anything else for nothing.
pub open spec fn watch_step(modified: bool) -> WatchStep {
    if modified {
        WatchStep::Reread
    } else {
        WatchStep::Ignore
    }
}

/// Decides what to do once it is known whether the notification reports a
/// modification.
pub fn step_for(modified: bool) -> (step: WatchStep)
    ensures
        step == watch_step(modified),
{
    if modified {
        WatchStep::Reread
    } else {
        WatchStep::Ignore
    }
}

/// Decides what to do about a notification of the given kind: a reread for
/// a modification of any detail, nothing for every other kind.
pub fn on_notification(kind: &EventKind) -> (step: WatchStep)
    ensures
        step == watch_step(kind is Modify),
{
    step_for(kind.is_modify())
}

} // verus!
