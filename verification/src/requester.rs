//! The verification requester: asks whether the platform's verifier is
//! available and, if it is, asks it to challenge the user. It runs once, on
//! a context of its own, and ends with exactly one outcome.

use vstd::prelude::*;
use crate::trace::{
    action_at, lemma_established_by, lemma_preserved_from, lemma_state_at_end,
    lemma_state_at_next, run, state_at,
};
use crate::platform::{
    not_verified_text, unavailable_text, Availability, Outcome, OutcomeView, VerificationResult,
    WindowHandle,
};

verus! {

/// Text that the verification prompt shows to the user.
pub open spec fn prompt_text() -> Seq<char> {
    "Please verify your identity"@
}

/// How far the requester has come.
#[derive(Clone, Copy, Debug, PartialEq, Eq, Structural)]
pub enum RequesterPhase {
    /// Nothing was asked yet.
    Idle,
    /// The availability query is under way.
    CheckingAvailability,
    /// The identity challenge is under way.
    RequestingVerification,
    /// The outcome was handed out. Nothing leaves this phase.
    Done,
}

/// The requester: the window that it works for, and its phase.
#[derive(Clone, Copy, Debug, PartialEq, Eq, Structural)]
pub struct Requester {
    pub window: WindowHandle,
    pub phase: RequesterPhase,
}

/// What happened outside since the last action.
#[derive(Clone, Debug, PartialEq, Eq)]
pub enum RequesterEvent {
    /// The requester is asked to begin.
    Start,
    /// The platform answered the availability query.
    AvailabilityReported(Availability),
    /// The platform answered the identity challenge.
    VerificationReported(VerificationResult),
    /// The platform call that was under way failed; holds the platform's description.
    PlatformFailed(String),
}

/// Mathematical value of a [`RequesterEvent`].
pub enum RequesterEventView {
    Start,
    AvailabilityReported(Availability),
    VerificationReported(VerificationResult),
    PlatformFailed(Seq<char>),
}

impl View for RequesterEvent {
    type V = RequesterEventView;

    open spec fn view(&self) -> RequesterEventView {
        match *self {
            RequesterEvent::Start => RequesterEventView::Start,
            RequesterEvent::AvailabilityReported(a) => RequesterEventView::AvailabilityReported(a),
            RequesterEvent::VerificationReported(v) => RequesterEventView::VerificationReported(v),
            RequesterEvent::PlatformFailed(text) => RequesterEventView::PlatformFailed(text@),
        }
    }
}

/// What the caller has to do next.
#[derive(Clone, Debug, PartialEq, Eq)]
pub enum RequesterAction {
    /// Query the availability of the verifier and report the answer.
    CheckAvailability,
    /// Challenge the user, with the prompt shown over the given window, and report the answer.
    RequestVerification { window: WindowHandle, prompt: String },
    /// The attempt is over with this outcome.
    Complete(Outcome),
    /// The event does not concern the current phase: do nothing.
    Nothing,
}

/// Mathematical value of a [`RequesterAction`].
pub enum RequesterActionView {
    CheckAvailability,
    RequestVerification { window: WindowHandle, prompt: Seq<char> },
    Complete(OutcomeView),
    Nothing,
}

impl View for RequesterAction {
    type V = RequesterActionView;

    open spec fn view(&self) -> RequesterActionView {
        match *self {
            RequesterAction::CheckAvailability => RequesterActionView::CheckAvailability,
            RequesterAction::RequestVerification { window, prompt } => {
                RequesterActionView::RequestVerification { window, prompt: prompt@ }
            },
            RequesterAction::Complete(outcome) => RequesterActionView::Complete(outcome@),
            RequesterAction::Nothing => RequesterActionView::Nothing,
        }
    }
}

/// The outcome that an availability other than `Available` ends the attempt with.
pub open spec fn outcome_of_availability(a: Availability) -> Option<OutcomeView> {
    if a == Availability::Available {
        None
    } else {
        Some(OutcomeView::Rejected(unavailable_text()))
    }
}

/// The outcome that an answer to the identity challenge ends the attempt with.
pub open spec fn outcome_of_verification(v: VerificationResult) -> OutcomeView {
    if v == VerificationResult::Verified {
        OutcomeView::Verified
    } else {
        OutcomeView::Rejected(not_verified_text())
    }
}

/// The requester's transition relation, as a function: the requester after
/// `event`, and the action it asks for.
///
/// An event that the current phase does not wait for changes nothing and asks
/// for nothing; in particular nothing happens once the phase is `Done`.
pub open spec fn transition(r: Requester, event: RequesterEventView) -> (
    Requester,
    RequesterActionView,
) {
    match (r.phase, event) {
        (RequesterPhase::Idle, RequesterEventView::Start) => (
            Requester { window: r.window, phase: RequesterPhase::CheckingAvailability },
            RequesterActionView::CheckAvailability,
        ),
        (
            RequesterPhase::CheckingAvailability,
            RequesterEventView::AvailabilityReported(a),
        ) => match outcome_of_availability(a) {
            None => (
                Requester { window: r.window, phase: RequesterPhase::RequestingVerification },
                RequesterActionView::RequestVerification {
                    window: r.window,
                    prompt: prompt_text(),
                },
            ),
            Some(outcome) => (
                Requester { window: r.window, phase: RequesterPhase::Done },
                RequesterActionView::Complete(outcome),
            ),
        },
        (
            RequesterPhase::RequestingVerification,
            RequesterEventView::VerificationReported(v),
        ) => (
            Requester { window: r.window, phase: RequesterPhase::Done },
            RequesterActionView::Complete(outcome_of_verification(v)),
        ),
        (RequesterPhase::CheckingAvailability, RequesterEventView::PlatformFailed(text)) => (
            Requester { window: r.window, phase: RequesterPhase::Done },
            RequesterActionView::Complete(OutcomeView::Error(text)),
        ),
        (RequesterPhase::RequestingVerification, RequesterEventView::PlatformFailed(text)) => (
            Requester { window: r.window, phase: RequesterPhase::Done },
            RequesterActionView::Complete(OutcomeView::Error(text)),
        ),
        _ => (r, RequesterActionView::Nothing),
    }
}

impl Requester {
    /// A requester for the given window that has not begun.
    pub fn new(window: WindowHandle) -> (r: Requester)
        ensures
            r == (Requester { window, phase: RequesterPhase::Idle }),
    {
        Requester { window, phase: RequesterPhase::Idle }
    }

    /// Tells whether the outcome was handed out.
    pub fn is_done(&self) -> (b: bool)
        ensures
            b == (self.phase == RequesterPhase::Done),
    {
        match self.phase {
            RequesterPhase::Done => true,
            _ => false,
        }
    }

    /// Takes one event: returns the requester after it and the action to perform.
    pub fn step(self, event: RequesterEvent) -> (r: (Requester, RequesterAction))
        ensures
            r.0 == transition(self, event@).0,
            r.1@ == transition(self, event@).1,
    {
        let window = self.window;
        match self.phase {
            RequesterPhase::Idle => match event {
                RequesterEvent::Start => (
                    Requester { window, phase: RequesterPhase::CheckingAvailability },
                    RequesterAction::CheckAvailability,
                ),
                _ => (self, RequesterAction::Nothing),
            },
            RequesterPhase::CheckingAvailability => match event {
                RequesterEvent::AvailabilityReported(a) => match a {
                    Availability::Available => (
                        Requester { window, phase: RequesterPhase::RequestingVerification },
                        RequesterAction::RequestVerification {
                            window,
                            prompt: "Please verify your identity".to_owned(),
                        },
                    ),
                    _ => (
                        Requester { window, phase: RequesterPhase::Done },
                        RequesterAction::Complete(Outcome::unavailable()),
                    ),
                },
                RequesterEvent::PlatformFailed(text) => (
                    Requester { window, phase: RequesterPhase::Done },
                    RequesterAction::Complete(Outcome::Error(text)),
                ),
                _ => (self, RequesterAction::Nothing),
            },
            RequesterPhase::RequestingVerification => match event {
                RequesterEvent::VerificationReported(v) => match v {
                    VerificationResult::Verified => (
                        Requester { window, phase: RequesterPhase::Done },
                        RequesterAction::Complete(Outcome::Verified),
                    ),
                    _ => (
                        Requester { window, phase: RequesterPhase::Done },
                        RequesterAction::Complete(Outcome::not_verified()),
                    ),
                },
                RequesterEvent::PlatformFailed(text) => (
                    Requester { window, phase: RequesterPhase::Done },
                    RequesterAction::Complete(Outcome::Error(text)),
                ),
                _ => (self, RequesterAction::Nothing),
            },
            RequesterPhase::Done => (self, RequesterAction::Nothing),
        }
    }
}

/// The requester as a machine that runs over a sequence of events.
pub open spec fn machine() -> spec_fn(Requester, RequesterEventView) -> (
    Requester,
    RequesterActionView,
) {
    |r: Requester, event: RequesterEventView| transition(r, event)
}

/// The requester that has not begun, for use in contracts.
pub open spec fn initial(window: WindowHandle) -> Requester {
    Requester { window, phase: RequesterPhase::Idle }
}

/// Whatever the verifier reports other than "available", the requester that
/// waits for that report ends with the rejection "verifier is not
/// available"; and in no phase does such a report lead to `Verified`.
pub proof fn law_unavailable_is_rejected(r: Requester, a: Availability)
    requires
        a != Availability::Available,
    ensures
        r.phase == RequesterPhase::CheckingAvailability ==> transition(
            r,
            RequesterEventView::AvailabilityReported(a),
        ) == (
            Requester { window: r.window, phase: RequesterPhase::Done },
            RequesterActionView::Complete(OutcomeView::Rejected(unavailable_text())),
        ),
        transition(r, RequesterEventView::AvailabilityReported(a)).1
            != RequesterActionView::Complete(OutcomeView::Verified),
{
}

/// Whatever the verifier answers to the challenge other than "verified", the
/// requester that waits for that answer ends with the rejection "failed to
/// verify"; and in no phase does such an answer lead to `Verified`.
pub proof fn law_unverified_is_rejected(r: Requester, v: VerificationResult)
    requires
        v != VerificationResult::Verified,
    ensures
        r.phase == RequesterPhase::RequestingVerification ==> transition(
            r,
            RequesterEventView::VerificationReported(v),
        ) == (
            Requester { window: r.window, phase: RequesterPhase::Done },
            RequesterActionView::Complete(OutcomeView::Rejected(not_verified_text())),
        ),
        transition(r, RequesterEventView::VerificationReported(v)).1
            != RequesterActionView::Complete(OutcomeView::Verified),
{
}

/// A platform call that fails while the requester waits for its answer ends
/// the attempt with an error that carries the platform's description.
pub proof fn law_platform_failure_is_error(r: Requester, text: Seq<char>)
    requires
        r.phase == RequesterPhase::CheckingAvailability || r.phase
            == RequesterPhase::RequestingVerification,
    ensures
        transition(r, RequesterEventView::PlatformFailed(text)) == (
            Requester { window: r.window, phase: RequesterPhase::Done },
            RequesterActionView::Complete(OutcomeView::Error(text)),
        ),
{
}

/// The challenge is only ever issued in answer to the report "available".
pub proof fn law_challenge_needs_availability(r: Requester, event: RequesterEventView)
    requires
        transition(r, event).1 is RequestVerification,
    ensures
        r.phase == RequesterPhase::CheckingAvailability,
        event == RequesterEventView::AvailabilityReported(Availability::Available),
        transition(r, event).1 == (RequesterActionView::RequestVerification {
            window: r.window,
            prompt: prompt_text(),
        }),
{
}

/// In a run of the requester from its beginning, whatever the events, no two
/// steps hand out an outcome, and no step after the outcome asks for anything.
pub proof fn law_at_most_one_outcome(
    window: WindowHandle,
    events: Seq<RequesterEventView>,
    i: int,
    j: int,
)
    requires
        0 <= i < j < events.len(),
        action_at(machine(), initial(window), events, i) is Complete,
    ensures
        action_at(machine(), initial(window), events, j) == RequesterActionView::Nothing,
{
    let done = |r: Requester| r.phase == RequesterPhase::Done;
    lemma_state_at_next(machine(), initial(window), events, i);
    assert(done(state_at(machine(), initial(window), events, i + 1)));
    assert forall|r: Requester, e: RequesterEventView| done(r) implies done(
        #[trigger] machine()(r, e).0,
    ) by {}
    lemma_preserved_from(machine(), initial(window), events, done, i + 1, j);
}

/// A run of the requester that has reached `Done` has handed out an outcome,
/// and a run that has not has handed out none.
pub proof fn law_done_iff_outcome(window: WindowHandle, events: Seq<RequesterEventView>)
    ensures
        run(machine(), initial(window), events).phase == RequesterPhase::Done <==> exists|i: int|
            0 <= i < events.len() && #[trigger] action_at(
                machine(),
                initial(window),
                events,
                i,
            ) is Complete,
{
    let m = machine();
    let init = initial(window);
    let n = events.len() as int;
    let done = |r: Requester| r.phase == RequesterPhase::Done;
    let completes = |a: RequesterActionView| a is Complete;
    lemma_state_at_end(m, init, events);
    if done(run(m, init, events)) {
        let i = lemma_established_by(m, init, events, done, completes, n);
        assert(action_at(m, init, events, i) is Complete);
    }
    if exists|i: int| 0 <= i < n && #[trigger] action_at(m, init, events, i) is Complete {
        let i = choose|i: int| 0 <= i < n && #[trigger] action_at(m, init, events, i) is Complete;
        lemma_state_at_next(m, init, events, i);
        lemma_preserved_from(m, init, events, done, i + 1, n);
    }
}

} // verus!
