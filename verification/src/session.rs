//! The session engine: the state machine of one live byte-relay session. The
//! process edge polls the operator's command stream and the peer's byte stream
//! in turn and hands each observation to [`session_step`], which decides what
//! to do with it and whether the session goes on.

use vstd::prelude::*;

use crate::text::is_exit_command;

verus! {

/// Where the session stands after a step.
#[derive(Clone, Copy, PartialEq, Eq, Structural, Debug)]
pub enum SessionStatus {
    /// The session goes on; keep polling both directions.
    Active,
    /// The session ended normally: an exit command, or the peer closed the
    /// stream. Not an error.
    Closed,
    /// The session ended because a stream write failed; the error propagates
    /// upward.
    Failed,
}

/// One observation made while a session is active.
pub enum SessionEvent {
    /// The operator typed a command; these are its raw bytes.
    Command(Vec<u8>),
    /// A read from the peer's stream returned these bytes. An empty read
    /// signals orderly closure by the peer.
    StreamData(Vec<u8>),
    /// A write to the peer's stream failed.
    WriteFailed,
    /// Neither direction produced data within its poll deadline.
    Idle,
}

/// What the process edge must do after a step.
pub enum SessionAction {
    /// Write these bytes, unmodified, to the peer's stream.
    Send(Vec<u8>),
    /// Show these bytes, unmodified, on the operator's display.
    Display(Vec<u8>),
    /// Nothing to write or display.
    Pass,
}

/// The outcome of one session step.
pub struct SessionStep {
    pub status: SessionStatus,
    pub action: SessionAction,
}

/// Decides one step of an active session.
///
/// A command that trims to `exit` or `quit` closes the session and is never
/// sent to the stream; any other command is sent byte for byte. A zero-length
/// stream read closes the session without an error; any other read is shown
/// byte for byte. A failed write ends the session as a failure.
pub fn session_step(ev: SessionEvent) -> (r: SessionStep)
    ensures
        match ev {
            SessionEvent::Command(m) => {
                if is_exit_command(m@) {
                    r.status is Closed && r.action is Pass
                } else {
                    r.status is Active && (r.action matches SessionAction::Send(out) && out@
                        == m@)
                }
            },
            SessionEvent::StreamData(d) => {
                if d@.len() == 0 {
                    r.status is Closed && r.action is Pass
                } else {
                    r.status is Active && (r.action matches SessionAction::Display(out) && out@
                        == d@)
                }
            },
            SessionEvent::WriteFailed => r.status is Failed && r.action is Pass,
            SessionEvent::Idle => r.status is Active && r.action is Pass,
        },
{
    match ev {
        SessionEvent::Command(m) => {
            if crate::text::is_exit_command_bytes(&m) {
                SessionStep { status: SessionStatus::Closed, action: SessionAction::Pass }
            } else {
                SessionStep { status: SessionStatus::Active, action: SessionAction::Send(m) }
            }
        },
        SessionEvent::StreamData(d) => {
            if d.len() == 0 {
                SessionStep { status: SessionStatus::Closed, action: SessionAction::Pass }
            } else {
                SessionStep { status: SessionStatus::Active, action: SessionAction::Display(d) }
            }
        },
        SessionEvent::WriteFailed => SessionStep {
            status: SessionStatus::Failed,
            action: SessionAction::Pass,
        },
        SessionEvent::Idle => SessionStep {
            status: SessionStatus::Active,
            action: SessionAction::Pass,
        },
    }
}

} // verus!
