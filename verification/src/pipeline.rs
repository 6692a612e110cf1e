//! The background pipeline: the requester followed by the notifier, as one
//! machine. It is what the worker context runs, once, from `Start` to the
//! posted notification.

use vstd::prelude::*;
use crate::notifier;
use crate::notifier::{
    Notification, Notifier, NotifierAction, NotifierActionView, NotifierEvent, NotifierEventView,
    NotifierPhase,
};
use crate::platform::{
    not_verified_text, unavailable_text, Availability, VerificationResult, WindowHandle,
};
use crate::requester;
use crate::requester::{
    Requester, RequesterAction, RequesterActionView, RequesterEvent, RequesterEventView,
    RequesterPhase,
};
use crate::trace::{
    action_at, lemma_established_by, lemma_invariant, lemma_preserved_from, lemma_state_at_end,
    lemma_state_at_next, run, state_at,
};

verus! {

/// The pipeline: its requester and its notifier.
#[derive(Clone, Copy, Debug, PartialEq, Eq, Structural)]
pub struct Pipeline {
    pub requester: Requester,
    pub notifier: Notifier,
}

/// What happened outside since the last action.
#[derive(Clone, Debug, PartialEq, Eq)]
pub enum PipelineEvent {
    /// The worker context is up and the pipeline is asked to begin.
    Start,
    /// The platform answered the availability query.
    AvailabilityReported(Availability),
    /// The platform answered the identity challenge.
    VerificationReported(VerificationResult),
    /// The platform call that was under way failed; holds the platform's description.
    PlatformFailed(String),
    /// The user dismissed the error dialog.
    DialogDismissed,
}

/// Mathematical value of a [`PipelineEvent`].
pub enum PipelineEventView {
    Start,
    AvailabilityReported(Availability),
    VerificationReported(VerificationResult),
    PlatformFailed(Seq<char>),
    DialogDismissed,
}

impl View for PipelineEvent {
    type V = PipelineEventView;

    open spec fn view(&self) -> PipelineEventView {
        match *self {
            PipelineEvent::Start => PipelineEventView::Start,
            PipelineEvent::AvailabilityReported(a) => PipelineEventView::AvailabilityReported(a),
            PipelineEvent::VerificationReported(v) => PipelineEventView::VerificationReported(v),
            PipelineEvent::PlatformFailed(text) => PipelineEventView::PlatformFailed(text@),
            PipelineEvent::DialogDismissed => PipelineEventView::DialogDismissed,
        }
    }
}

/// What the worker context has to do next.
#[derive(Clone, Debug, PartialEq, Eq)]
pub enum PipelineAction {
    /// Query the availability of the verifier and report the answer.
    CheckAvailability,
    /// Challenge the user, with the prompt shown over the given window, and report the answer.
    RequestVerification { window: WindowHandle, prompt: String },
    /// Show a modal dialog of this style over `parent`, wait until the user
    /// dismisses it, and report the dismissal.
    ShowErrorDialog { parent: WindowHandle, title: String, text: String, style: u32 },
    /// Post the notification to the queue of `window`, without waiting for
    /// the window to treat it.
    Post { window: WindowHandle, notification: Notification },
    /// The event does not concern the current phase: do nothing.
    Nothing,
}

/// Mathematical value of a [`PipelineAction`].
pub enum PipelineActionView {
    CheckAvailability,
    RequestVerification { window: WindowHandle, prompt: Seq<char> },
    ShowErrorDialog { parent: WindowHandle, title: Seq<char>, text: Seq<char>, style: u32 },
    Post { window: WindowHandle, notification: Notification },
    Nothing,
}

impl View for PipelineAction {
    type V = PipelineActionView;

    open spec fn view(&self) -> PipelineActionView {
        match *self {
            PipelineAction::CheckAvailability => PipelineActionView::CheckAvailability,
            PipelineAction::RequestVerification { window, prompt } => {
                PipelineActionView::RequestVerification { window, prompt: prompt@ }
            },
            PipelineAction::ShowErrorDialog { parent, title, text, style } => {
                PipelineActionView::ShowErrorDialog { parent, title: title@, text: text@, style }
            },
            PipelineAction::Post { window, notification } => {
                PipelineActionView::Post { window, notification }
            },
            PipelineAction::Nothing => PipelineActionView::Nothing,
        }
    }
}

/// The action of the pipeline that stands for an action of its notifier.
pub open spec fn lift(action: NotifierActionView) -> PipelineActionView {
    match action {
        NotifierActionView::ShowErrorDialog { parent, title, text, style } => {
            PipelineActionView::ShowErrorDialog { parent, title, text, style }
        },
        NotifierActionView::Post { window, notification } => {
            PipelineActionView::Post { window, notification }
        },
        NotifierActionView::Nothing => PipelineActionView::Nothing,
    }
}

/// The event of the requester that an event of the pipeline stands for, if
/// it concerns the requester.
pub open spec fn requester_event(event: PipelineEventView) -> Option<RequesterEventView> {
    match event {
        PipelineEventView::Start => Some(RequesterEventView::Start),
        PipelineEventView::AvailabilityReported(a) => Some(
            RequesterEventView::AvailabilityReported(a),
        ),
        PipelineEventView::VerificationReported(v) => Some(
            RequesterEventView::VerificationReported(v),
        ),
        PipelineEventView::PlatformFailed(text) => Some(RequesterEventView::PlatformFailed(text)),
        PipelineEventView::DialogDismissed => None,
    }
}

/// The pipeline's transition relation, as a function: the pipeline after
/// `event`, and the action it asks for.
///
/// A dismissal goes to the notifier. Every other event goes to the
/// requester; when the requester answers with its outcome, the notifier
/// takes that outcome in the same step, and its action is the step's action.
pub open spec fn transition(p: Pipeline, event: PipelineEventView) -> (
    Pipeline,
    PipelineActionView,
) {
    match requester_event(event) {
        None => {
            let (n, action) = notifier::transition(
                p.notifier,
                NotifierEventView::DialogDismissed,
            );
            (Pipeline { requester: p.requester, notifier: n }, lift(action))
        },
        Some(e) => {
            let (r, action) = requester::transition(p.requester, e);
            match action {
                RequesterActionView::CheckAvailability => (
                    Pipeline { requester: r, notifier: p.notifier },
                    PipelineActionView::CheckAvailability,
                ),
                RequesterActionView::RequestVerification { window, prompt } => (
                    Pipeline { requester: r, notifier: p.notifier },
                    PipelineActionView::RequestVerification { window, prompt },
                ),
                RequesterActionView::Nothing => (
                    Pipeline { requester: r, notifier: p.notifier },
                    PipelineActionView::Nothing,
                ),
                RequesterActionView::Complete(outcome) => {
                    let (n, shown) = notifier::transition(
                        p.notifier,
                        NotifierEventView::OutcomeReady(outcome),
                    );
                    (Pipeline { requester: r, notifier: n }, lift(shown))
                },
            }
        },
    }
}

impl Pipeline {
    /// The requester and the notifier work for the same window, and the
    /// notifier still waits exactly as long as the requester is not done.
    pub open spec fn wf(self) -> bool {
        &&& self.requester.window == self.notifier.window
        &&& (self.notifier.phase == NotifierPhase::Waiting) == (self.requester.phase
            != RequesterPhase::Done)
    }

    /// A pipeline for the given window that has not begun.
    pub fn new(window: WindowHandle) -> (p: Pipeline)
        ensures
            p == initial(window),
            p.wf(),
    {
        Pipeline { requester: Requester::new(window), notifier: Notifier::new(window) }
    }

    /// Tells whether the notification was posted: the pipeline's work is over.
    pub fn is_finished(&self) -> (b: bool)
        ensures
            b == (self.notifier.phase == NotifierPhase::Delivered),
    {
        self.notifier.is_delivered()
    }

    /// Takes one event: returns the pipeline after it and the action to perform.
    pub fn step(self, event: PipelineEvent) -> (r: (Pipeline, PipelineAction))
        ensures
            r.0 == transition(self, event@).0,
            r.1@ == transition(self, event@).1,
            self.wf() ==> r.0.wf(),
    {
        let inner = match event {
            PipelineEvent::DialogDismissed => {
                let (n, action) = self.notifier.step(NotifierEvent::DialogDismissed);
                return (Pipeline { requester: self.requester, notifier: n }, lift_action(action));
            },
            PipelineEvent::Start => RequesterEvent::Start,
            PipelineEvent::AvailabilityReported(a) => RequesterEvent::AvailabilityReported(a),
            PipelineEvent::VerificationReported(v) => RequesterEvent::VerificationReported(v),
            PipelineEvent::PlatformFailed(text) => RequesterEvent::PlatformFailed(text),
        };
        let (r, action) = self.requester.step(inner);
        match action {
            RequesterAction::CheckAvailability => (
                Pipeline { requester: r, notifier: self.notifier },
                PipelineAction::CheckAvailability,
            ),
            RequesterAction::RequestVerification { window, prompt } => (
                Pipeline { requester: r, notifier: self.notifier },
                PipelineAction::RequestVerification { window, prompt },
            ),
            RequesterAction::Nothing => (
                Pipeline { requester: r, notifier: self.notifier },
                PipelineAction::Nothing,
            ),
            RequesterAction::Complete(outcome) => {
                let (n, shown) = self.notifier.step(NotifierEvent::OutcomeReady(outcome));
                (Pipeline { requester: r, notifier: n }, lift_action(shown))
            },
        }
    }
}

/// The action of the pipeline that stands for an action of its notifier.
fn lift_action(action: NotifierAction) -> (lifted: PipelineAction)
    ensures
        lifted@ == lift(action@),
{
    match action {
        NotifierAction::ShowErrorDialog { parent, title, text, style } => {
            PipelineAction::ShowErrorDialog { parent, title, text, style }
        },
        NotifierAction::Post { window, notification } => {
            PipelineAction::Post { window, notification }
        },
        NotifierAction::Nothing => PipelineAction::Nothing,
    }
}

/// The pipeline as a machine that runs over a sequence of events.
pub open spec fn machine() -> spec_fn(Pipeline, PipelineEventView) -> (
    Pipeline,
    PipelineActionView,
) {
    |p: Pipeline, event: PipelineEventView| transition(p, event)
}

/// The pipeline that has not begun, for use in contracts.
pub open spec fn initial(window: WindowHandle) -> Pipeline {
    Pipeline { requester: requester::initial(window), notifier: notifier::initial(window) }
}

/// Every state of a run of the pipeline from its beginning is well formed.
pub proof fn law_runs_stay_well_formed(
    window: WindowHandle,
    events: Seq<PipelineEventView>,
    k: int,
)
    requires
        0 <= k <= events.len(),
    ensures
        state_at(machine(), initial(window), events, k).wf(),
        state_at(machine(), initial(window), events, k).requester.window == window,
{
    let holds = |p: Pipeline| p.wf() && p.requester.window == window;
    lemma_invariant(machine(), initial(window), events, holds, k);
}

/// Whatever the verifier reports other than "available", the pipeline that
/// waits for that report shows the dialog "verifier is not available" over
/// its window, and posts nothing in that step.
pub proof fn law_unavailable_is_shown(p: Pipeline, a: Availability)
    requires
        p.wf(),
        p.requester.phase == RequesterPhase::CheckingAvailability,
        a != Availability::Available,
    ensures
        transition(p, PipelineEventView::AvailabilityReported(a)).1
            == (PipelineActionView::ShowErrorDialog {
            parent: p.requester.window,
            title: notifier::dialog_title(),
            text: unavailable_text(),
            style: notifier::MB_ICONERROR,
        }),
        transition(p, PipelineEventView::AvailabilityReported(a)).0.notifier.phase
            == NotifierPhase::DialogOpen,
{
}

/// Whatever the verifier answers to the challenge, the pipeline that waits
/// for that answer posts `Verified` at once if the answer is "verified", and
/// else shows the dialog "failed to verify" over its window.
pub proof fn law_answer_decides(p: Pipeline, v: VerificationResult)
    requires
        p.wf(),
        p.requester.phase == RequesterPhase::RequestingVerification,
    ensures
        v == VerificationResult::Verified ==> transition(
            p,
            PipelineEventView::VerificationReported(v),
        ).1 == (PipelineActionView::Post {
            window: p.requester.window,
            notification: Notification::Verified,
        }),
        v != VerificationResult::Verified ==> transition(
            p,
            PipelineEventView::VerificationReported(v),
        ).1 == (PipelineActionView::ShowErrorDialog {
            parent: p.requester.window,
            title: notifier::dialog_title(),
            text: not_verified_text(),
            style: notifier::MB_ICONERROR,
        }),
{
}

/// A platform call that fails while the pipeline waits for its answer makes
/// the pipeline show a dialog with the platform's description.
pub proof fn law_platform_failure_is_shown(p: Pipeline, text: Seq<char>)
    requires
        p.wf(),
        p.requester.phase == RequesterPhase::CheckingAvailability || p.requester.phase
            == RequesterPhase::RequestingVerification,
    ensures
        transition(p, PipelineEventView::PlatformFailed(text)).1
            == (PipelineActionView::ShowErrorDialog {
            parent: p.requester.window,
            title: notifier::dialog_title(),
            text,
            style: notifier::MB_ICONERROR,
        }),
{
}

/// In a run of the pipeline from its beginning, whatever the events, the
/// step that posts `Rejected` is the one that takes a dismissal of the
/// dialog, and the dialog was shown by an earlier step. Returns the index of
/// that earlier step.
pub proof fn law_rejection_follows_dialog(
    window: WindowHandle,
    events: Seq<PipelineEventView>,
    i: int,
) -> (j: int)
    requires
        0 <= i < events.len(),
        action_at(machine(), initial(window), events, i) matches PipelineActionView::Post {
            notification,
            ..
        } && notification == Notification::Rejected,
    ensures
        events[i] == PipelineEventView::DialogDismissed,
        0 <= j < i,
        action_at(machine(), initial(window), events, j) is ShowErrorDialog,
{
    let open = |p: Pipeline| p.notifier.phase == NotifierPhase::DialogOpen;
    let shows = |a: PipelineActionView| a is ShowErrorDialog;
    assert(open(state_at(machine(), initial(window), events, i)));
    lemma_established_by(machine(), initial(window), events, open, shows, i)
}

/// In a run of the pipeline from its beginning, whatever the events, the
/// step that posts `Verified` is the one that takes the verifier's answer
/// "verified", and an earlier step took the report "available". Returns the
/// index of that earlier step.
pub proof fn law_verified_needs_verifier(
    window: WindowHandle,
    events: Seq<PipelineEventView>,
    i: int,
) -> (j: int)
    requires
        0 <= i < events.len(),
        action_at(machine(), initial(window), events, i) matches PipelineActionView::Post {
            notification,
            ..
        } && notification == Notification::Verified,
    ensures
        events[i] == PipelineEventView::VerificationReported(VerificationResult::Verified),
        0 <= j < i,
        events[j] == PipelineEventView::AvailabilityReported(Availability::Available),
        action_at(machine(), initial(window), events, j) is RequestVerification,
{
    let asked = |p: Pipeline| p.requester.phase == RequesterPhase::RequestingVerification;
    let asks = |a: PipelineActionView| a is RequestVerification;
    law_runs_stay_well_formed(window, events, i);
    assert(asked(state_at(machine(), initial(window), events, i)));
    lemma_established_by(machine(), initial(window), events, asked, asks, i)
}

/// In a run of the pipeline from its beginning, whatever the events, the
/// verifier is queried at most once: no step after the query asks for it
/// again.
pub proof fn law_runs_once(window: WindowHandle, events: Seq<PipelineEventView>, i: int, j: int)
    requires
        0 <= i < j < events.len(),
        action_at(machine(), initial(window), events, i) is CheckAvailability,
    ensures
        !(action_at(machine(), initial(window), events, j) is CheckAvailability),
{
    let begun = |p: Pipeline| p.requester.phase != RequesterPhase::Idle;
    lemma_state_at_next(machine(), initial(window), events, i);
    assert(begun(state_at(machine(), initial(window), events, i + 1)));
    lemma_preserved_from(machine(), initial(window), events, begun, i + 1, j);
}

/// In a run of the pipeline from its beginning, whatever the events, at most
/// one notification is posted, and no step after the post asks for anything.
pub proof fn law_at_most_one_notification(
    window: WindowHandle,
    events: Seq<PipelineEventView>,
    i: int,
    j: int,
)
    requires
        0 <= i < j < events.len(),
        action_at(machine(), initial(window), events, i) is Post,
    ensures
        action_at(machine(), initial(window), events, j) == PipelineActionView::Nothing,
{
    let over = |p: Pipeline|
        p.notifier.phase == NotifierPhase::Delivered && p.requester.phase == RequesterPhase::Done;
    law_runs_stay_well_formed(window, events, i);
    lemma_state_at_next(machine(), initial(window), events, i);
    assert(over(state_at(machine(), initial(window), events, i + 1)));
    lemma_preserved_from(machine(), initial(window), events, over, i + 1, j);
}

/// A run of the pipeline from its beginning is finished exactly when one of
/// its steps has posted a notification.
pub proof fn law_finished_iff_posted(window: WindowHandle, events: Seq<PipelineEventView>)
    ensures
        run(machine(), initial(window), events).notifier.phase == NotifierPhase::Delivered
            <==> exists|i: int|
            0 <= i < events.len() && #[trigger] action_at(
                machine(),
                initial(window),
                events,
                i,
            ) is Post,
{
    let m = machine();
    let init = initial(window);
    let n = events.len() as int;
    let delivered = |p: Pipeline| p.notifier.phase == NotifierPhase::Delivered;
    let posts = |a: PipelineActionView| a is Post;
    lemma_state_at_end(m, init, events);
    if delivered(run(m, init, events)) {
        let i = lemma_established_by(m, init, events, delivered, posts, n);
        assert(action_at(m, init, events, i) is Post);
    }
    if exists|i: int| 0 <= i < n && #[trigger] action_at(m, init, events, i) is Post {
        let i = choose|i: int| 0 <= i < n && #[trigger] action_at(m, init, events, i) is Post;
        lemma_state_at_next(m, init, events, i);
        lemma_preserved_from(m, init, events, delivered, i + 1, n);
    }
}

/// In a run of the pipeline from its beginning, whatever the events, at most
/// one outcome is produced: the step that ends the attempt either posts
/// `Verified` or shows the dialog, and no later step does either of the two
/// again but to post the rejection that the dialog announced.
pub proof fn law_at_most_one_outcome(
    window: WindowHandle,
    events: Seq<PipelineEventView>,
    i: int,
    j: int,
)
    requires
        0 <= i < j < events.len(),
        ends_attempt(action_at(machine(), initial(window), events, i)),
    ensures
        !ends_attempt(action_at(machine(), initial(window), events, j)),
{
    let done = |p: Pipeline| p.wf() && p.requester.phase == RequesterPhase::Done;
    law_runs_stay_well_formed(window, events, i);
    lemma_state_at_next(machine(), initial(window), events, i);
    assert(done(state_at(machine(), initial(window), events, i + 1)));
    lemma_preserved_from(machine(), initial(window), events, done, i + 1, j);
}

/// True for the two actions by which the pipeline makes an outcome known:
/// the post of `Verified`, and the dialog that shows a failure.
pub open spec fn ends_attempt(action: PipelineActionView) -> bool {
    match action {
        PipelineActionView::ShowErrorDialog { .. } => true,
        PipelineActionView::Post { notification, .. } => notification == Notification::Verified,
        _ => false,
    }
}

} // verus!
