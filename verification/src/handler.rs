//! The message handler: the state machine that runs on the UI thread and
//! decides, message by message, whether the message loop goes on.

use vstd::prelude::*;
use crate::trace::{
    action_at, lemma_established_by, lemma_preserved_from, lemma_state_at_next, state_at,
};

verus! {

/// Identifier of the message that the system sends when the window is destroyed.
pub const WM_DESTROY: u32 = 0x0002;

/// First identifier of the range that is left to applications.
pub const WM_APP: u32 = 0x8000;

/// Identifier of the notification "the user was verified".
pub const WM_VERIFIED: u32 = 0x8001;

/// Identifier of the notification "the user was not verified".
pub const WM_REJECTED: u32 = 0x8002;

/// Exit code of a run that ends because the window was destroyed.
pub const EXIT_CLOSED: i32 = 0;

/// Exit code of a run that ends because verification was rejected.
pub const EXIT_REJECTED: i32 = 1;

/// State of the message handler.
#[derive(Clone, Copy, Debug, PartialEq, Eq, Structural)]
pub enum HandlerState {
    /// The loop is running and no termination was requested.
    Running,
    /// Termination with the given exit code was requested. Nothing leaves this state.
    Terminating(i32),
}

/// What the caller has to do with the message that was dispatched.
#[derive(Clone, Copy, Debug, PartialEq, Eq, Structural)]
pub enum PlatformAction {
    /// Write a diagnostic line that says that the user was verified.
    LogVerified,
    /// Ask the message loop to end with the given exit code.
    PostQuit(i32),
    /// Hand the message to the platform's default window procedure, unmodified.
    DefaultHandling,
    /// Do nothing: the message arrived after termination was requested.
    Discard,
}

/// True for the three messages that the handler treats itself.
pub open spec fn is_special(msg: u32) -> bool {
    msg == WM_VERIFIED || msg == WM_REJECTED || msg == WM_DESTROY
}

/// The state that follows `state` when `msg` is dispatched.
pub open spec fn next_state(state: HandlerState, msg: u32) -> HandlerState {
    match state {
        HandlerState::Terminating(code) => HandlerState::Terminating(code),
        HandlerState::Running => if msg == WM_REJECTED {
            HandlerState::Terminating(EXIT_REJECTED)
        } else if msg == WM_DESTROY {
            HandlerState::Terminating(EXIT_CLOSED)
        } else {
            HandlerState::Running
        },
    }
}

/// The action that dispatching `msg` in `state` asks for.
pub open spec fn action_for(state: HandlerState, msg: u32) -> PlatformAction {
    if !is_special(msg) {
        PlatformAction::DefaultHandling
    } else {
        match state {
            HandlerState::Terminating(_) => PlatformAction::Discard,
            HandlerState::Running => if msg == WM_VERIFIED {
                PlatformAction::LogVerified
            } else if msg == WM_REJECTED {
                PlatformAction::PostQuit(EXIT_REJECTED)
            } else {
                PlatformAction::PostQuit(EXIT_CLOSED)
            },
        }
    }
}

/// Dispatches one message: returns the next state and the action to perform.
pub fn handle_message(state: HandlerState, msg: u32) -> (r: (HandlerState, PlatformAction))
    ensures
        r.0 == next_state(state, msg),
        r.1 == action_for(state, msg),
{
    match state {
        HandlerState::Terminating(code) => {
            if msg == WM_VERIFIED || msg == WM_REJECTED || msg == WM_DESTROY {
                (HandlerState::Terminating(code), PlatformAction::Discard)
            } else {
                (HandlerState::Terminating(code), PlatformAction::DefaultHandling)
            }
        },
        HandlerState::Running => {
            if msg == WM_VERIFIED {
                (HandlerState::Running, PlatformAction::LogVerified)
            } else if msg == WM_REJECTED {
                (HandlerState::Terminating(EXIT_REJECTED), PlatformAction::PostQuit(EXIT_REJECTED))
            } else if msg == WM_DESTROY {
                (HandlerState::Terminating(EXIT_CLOSED), PlatformAction::PostQuit(EXIT_CLOSED))
            } else {
                (HandlerState::Running, PlatformAction::DefaultHandling)
            }
        },
    }
}

/// The handler as a machine that runs over a sequence of messages.
pub open spec fn machine() -> spec_fn(HandlerState, u32) -> (HandlerState, PlatformAction) {
    |state: HandlerState, msg: u32| (next_state(state, msg), action_for(state, msg))
}

/// The message that makes the running handler ask for the given exit code,
/// if there is one.
pub open spec fn cause_of_exit(code: i32) -> Option<u32> {
    if code == EXIT_REJECTED {
        Some(WM_REJECTED)
    } else if code == EXIT_CLOSED {
        Some(WM_DESTROY)
    } else {
        None
    }
}

/// The notification "verified" leaves the running handler running: it is
/// logged, and no exit code is asked for.
pub proof fn law_verified_keeps_running()
    ensures
        next_state(HandlerState::Running, WM_VERIFIED) == HandlerState::Running,
        action_for(HandlerState::Running, WM_VERIFIED) == PlatformAction::LogVerified,
{
}

/// The notification "rejected" makes the running handler ask for exit code
/// 1, and the destruction of the window for exit code 0.
pub proof fn law_rejected_and_destroy_terminate()
    ensures
        next_state(HandlerState::Running, WM_REJECTED) == HandlerState::Terminating(1),
        action_for(HandlerState::Running, WM_REJECTED) == PlatformAction::PostQuit(1),
        next_state(HandlerState::Running, WM_DESTROY) == HandlerState::Terminating(0),
        action_for(HandlerState::Running, WM_DESTROY) == PlatformAction::PostQuit(0),
{
}

/// A message that is none of the three that the handler treats goes to the
/// platform's default handling and changes nothing, whatever the state.
pub proof fn law_other_messages_pass_through(state: HandlerState, msg: u32)
    requires
        !is_special(msg),
    ensures
        next_state(state, msg) == state,
        action_for(state, msg) == PlatformAction::DefaultHandling,
{
}

/// Once an exit code was asked for, no message changes it and none has an
/// effect of the handler's own: the three messages that the handler treats
/// are discarded.
pub proof fn law_terminating_is_absorbing(code: i32, msg: u32)
    ensures
        next_state(HandlerState::Terminating(code), msg) == HandlerState::Terminating(code),
        action_for(HandlerState::Terminating(code), msg) == if is_special(msg) {
            PlatformAction::Discard
        } else {
            PlatformAction::DefaultHandling
        },
{
}

/// In a run of the handler from `Running`, whatever the messages, the end of
/// the loop is asked for at most once: after the step that asks for it, no
/// step asks again, and none logs a verification.
pub proof fn law_quit_is_asked_once(msgs: Seq<u32>, i: int, j: int)
    requires
        0 <= i < j < msgs.len(),
        action_at(machine(), HandlerState::Running, msgs, i) is PostQuit,
    ensures
        !(action_at(machine(), HandlerState::Running, msgs, j) is PostQuit),
        !(action_at(machine(), HandlerState::Running, msgs, j) is LogVerified),
        state_at(machine(), HandlerState::Running, msgs, j) == state_at(
            machine(),
            HandlerState::Running,
            msgs,
            i + 1,
        ),
{
    let settled = state_at(machine(), HandlerState::Running, msgs, i + 1);
    let same = |state: HandlerState| state == settled;
    lemma_state_at_next(machine(), HandlerState::Running, msgs, i);
    assert(settled is Terminating);
    lemma_preserved_from(machine(), HandlerState::Running, msgs, same, i + 1, j);
}

/// In a run of the handler from `Running`, whatever the messages, the exit
/// code that the handler has asked for is 1 or 0, and it tells why: 1 was
/// asked for by a step that took the notification "rejected", 0 by a step
/// that took the destruction of the window. Returns the index of that step.
pub proof fn law_exit_code_tells_cause(msgs: Seq<u32>, k: int, code: i32) -> (j: int)
    requires
        0 <= k <= msgs.len(),
        state_at(machine(), HandlerState::Running, msgs, k) == HandlerState::Terminating(code),
    ensures
        0 <= j < k,
        cause_of_exit(code) == Some(msgs[j]),
        state_at(machine(), HandlerState::Running, msgs, j) == HandlerState::Running,
        action_at(machine(), HandlerState::Running, msgs, j) == PlatformAction::PostQuit(code),
{
    let asked = |state: HandlerState| state == HandlerState::Terminating(code);
    let asks = |action: PlatformAction| action == PlatformAction::PostQuit(code);
    lemma_established_by(machine(), HandlerState::Running, msgs, asked, asks, k)
}

} // verus!
