//! The result notifier: brings the outcome of the verification attempt to
//! the window's message queue. A failure is first shown to the user in a
//! modal dialog; the notification is posted only when that dialog is gone.

use vstd::prelude::*;
use crate::handler::{WM_REJECTED, WM_VERIFIED};
use crate::trace::{
    action_at, lemma_established_by, lemma_preserved_from, lemma_state_at_next, state_at,
};
use crate::platform::{Outcome, OutcomeView, WindowHandle};

verus! {

/// Style of the dialog that reports a failure: the error icon.
pub const MB_ICONERROR: u32 = 0x0000_0010;

/// Title of the dialog that reports a failure.
pub open spec fn dialog_title() -> Seq<char> {
    "Error"@
}

/// The two notifications that the window's queue can receive.
#[derive(Clone, Copy, Debug, PartialEq, Eq, Structural)]
pub enum Notification {
    Verified,
    Rejected,
}

impl Notification {
    /// Identifier of the message that carries this notification.
    pub open spec fn spec_message_id(self) -> u32 {
        match self {
            Notification::Verified => WM_VERIFIED,
            Notification::Rejected => WM_REJECTED,
        }
    }

    /// Identifier of the message that carries this notification.
    pub fn message_id(self) -> (id: u32)
        ensures
            id == self.spec_message_id(),
    {
        match self {
            Notification::Verified => WM_VERIFIED,
            Notification::Rejected => WM_REJECTED,
        }
    }
}

/// How far the notifier has come.
#[derive(Clone, Copy, Debug, PartialEq, Eq, Structural)]
pub enum NotifierPhase {
    /// No outcome has arrived yet.
    Waiting,
    /// The error dialog is on screen and was not dismissed yet.
    DialogOpen,
    /// The notification was posted. Nothing leaves this phase.
    Delivered,
}

/// The notifier: the window that it notifies, and its phase.
#[derive(Clone, Copy, Debug, PartialEq, Eq, Structural)]
pub struct Notifier {
    pub window: WindowHandle,
    pub phase: NotifierPhase,
}

/// What happened outside since the last action.
#[derive(Clone, Debug, PartialEq, Eq)]
pub enum NotifierEvent {
    /// The verification attempt ended with this outcome.
    OutcomeReady(Outcome),
    /// The user dismissed the error dialog.
    DialogDismissed,
}

/// Mathematical value of a [`NotifierEvent`].
pub enum NotifierEventView {
    OutcomeReady(OutcomeView),
    DialogDismissed,
}

impl View for NotifierEvent {
    type V = NotifierEventView;

    open spec fn view(&self) -> NotifierEventView {
        match *self {
            NotifierEvent::OutcomeReady(outcome) => NotifierEventView::OutcomeReady(outcome@),
            NotifierEvent::DialogDismissed => NotifierEventView::DialogDismissed,
        }
    }
}

/// What the caller has to do next.
#[derive(Clone, Debug, PartialEq, Eq)]
pub enum NotifierAction {
    /// Show a modal dialog of this style over `parent`, wait until the user
    /// dismisses it, and report the dismissal.
    ShowErrorDialog { parent: WindowHandle, title: String, text: String, style: u32 },
    /// Post the notification to the queue of `window`, without waiting for
    /// the window to treat it.
    Post { window: WindowHandle, notification: Notification },
    /// The event does not concern the current phase: do nothing.
    Nothing,
}

/// Mathematical value of a [`NotifierAction`].
pub enum NotifierActionView {
    ShowErrorDialog { parent: WindowHandle, title: Seq<char>, text: Seq<char>, style: u32 },
    Post { window: WindowHandle, notification: Notification },
    Nothing,
}

impl View for NotifierAction {
    type V = NotifierActionView;

    open spec fn view(&self) -> NotifierActionView {
        match *self {
            NotifierAction::ShowErrorDialog { parent, title, text, style } => {
                NotifierActionView::ShowErrorDialog { parent, title: title@, text: text@, style }
            },
            NotifierAction::Post { window, notification } => {
                NotifierActionView::Post { window, notification }
            },
            NotifierAction::Nothing => NotifierActionView::Nothing,
        }
    }
}

/// The notifier's transition relation, as a function: the notifier after
/// `event`, and the action it asks for.
///
/// An event that the current phase does not wait for changes nothing and
/// asks for nothing.
pub open spec fn transition(n: Notifier, event: NotifierEventView) -> (
    Notifier,
    NotifierActionView,
) {
    match (n.phase, event) {
        (NotifierPhase::Waiting, NotifierEventView::OutcomeReady(outcome)) => {
            if outcome is Verified {
                (
                    Notifier { window: n.window, phase: NotifierPhase::Delivered },
                    NotifierActionView::Post {
                        window: n.window,
                        notification: Notification::Verified,
                    },
                )
            } else {
                (
                    Notifier { window: n.window, phase: NotifierPhase::DialogOpen },
                    NotifierActionView::ShowErrorDialog {
                        parent: n.window,
                        title: dialog_title(),
                        text: outcome.description(),
                        style: MB_ICONERROR,
                    },
                )
            }
        },
        (NotifierPhase::DialogOpen, NotifierEventView::DialogDismissed) => (
            Notifier { window: n.window, phase: NotifierPhase::Delivered },
            NotifierActionView::Post { window: n.window, notification: Notification::Rejected },
        ),
        _ => (n, NotifierActionView::Nothing),
    }
}

impl Notifier {
    /// A notifier for the given window that waits for the outcome.
    pub fn new(window: WindowHandle) -> (n: Notifier)
        ensures
            n == (Notifier { window, phase: NotifierPhase::Waiting }),
    {
        Notifier { window, phase: NotifierPhase::Waiting }
    }

    /// Tells whether the notification was posted.
    pub fn is_delivered(&self) -> (b: bool)
        ensures
            b == (self.phase == NotifierPhase::Delivered),
    {
        match self.phase {
            NotifierPhase::Delivered => true,
            _ => false,
        }
    }

    /// Takes one event: returns the notifier after it and the action to perform.
    pub fn step(self, event: NotifierEvent) -> (r: (Notifier, NotifierAction))
        ensures
            r.0 == transition(self, event@).0,
            r.1@ == transition(self, event@).1,
    {
        let window = self.window;
        match self.phase {
            NotifierPhase::Waiting => match event {
                NotifierEvent::OutcomeReady(outcome) => match outcome {
                    Outcome::Verified => (
                        Notifier { window, phase: NotifierPhase::Delivered },
                        NotifierAction::Post { window, notification: Notification::Verified },
                    ),
                    Outcome::Rejected(text) => (
                        Notifier { window, phase: NotifierPhase::DialogOpen },
                        NotifierAction::ShowErrorDialog {
                            parent: window,
                            title: "Error".to_owned(),
                            text,
                            style: MB_ICONERROR,
                        },
                    ),
                    Outcome::Error(text) => (
                        Notifier { window, phase: NotifierPhase::DialogOpen },
                        NotifierAction::ShowErrorDialog {
                            parent: window,
                            title: "Error".to_owned(),
                            text,
                            style: MB_ICONERROR,
                        },
                    ),
                },
                NotifierEvent::DialogDismissed => (self, NotifierAction::Nothing),
            },
            NotifierPhase::DialogOpen => match event {
                NotifierEvent::DialogDismissed => (
                    Notifier { window, phase: NotifierPhase::Delivered },
                    NotifierAction::Post { window, notification: Notification::Rejected },
                ),
                NotifierEvent::OutcomeReady(_) => (self, NotifierAction::Nothing),
            },
            NotifierPhase::Delivered => (self, NotifierAction::Nothing),
        }
    }
}

/// The notifier as a machine that runs over a sequence of events.
pub open spec fn machine() -> spec_fn(Notifier, NotifierEventView) -> (
    Notifier,
    NotifierActionView,
) {
    |n: Notifier, event: NotifierEventView| transition(n, event)
}

/// The notifier that waits for the outcome, for use in contracts.
pub open spec fn initial(window: WindowHandle) -> Notifier {
    Notifier { window, phase: NotifierPhase::Waiting }
}

/// The two notifications travel under different message identifiers, both
/// in the range that is left to applications.
pub proof fn law_message_ids_distinct()
    ensures
        Notification::Verified.spec_message_id() != Notification::Rejected.spec_message_id(),
        Notification::Verified.spec_message_id() > crate::handler::WM_APP,
        Notification::Rejected.spec_message_id() > crate::handler::WM_APP,
{
}

/// A verified outcome is posted at once, with no dialog.
pub proof fn law_verified_is_posted_at_once(window: WindowHandle)
    ensures
        transition(initial(window), NotifierEventView::OutcomeReady(OutcomeView::Verified)) == (
            Notifier { window, phase: NotifierPhase::Delivered },
            NotifierActionView::Post { window, notification: Notification::Verified },
        ),
{
}

/// A failure is first shown in a dialog over the window, titled "Error" and
/// with the error icon, whose text is the failure's description; nothing is posted by that step.
/// The rejection is posted by the step that takes the dismissal.
pub proof fn law_failure_is_shown_then_posted(window: WindowHandle, outcome: OutcomeView)
    requires
        outcome.is_failure(),
    ensures
        transition(initial(window), NotifierEventView::OutcomeReady(outcome)) == (
            Notifier { window, phase: NotifierPhase::DialogOpen },
            NotifierActionView::ShowErrorDialog {
                parent: window,
                title: dialog_title(),
                text: outcome.description(),
                style: MB_ICONERROR,
            },
        ),
        transition(
            Notifier { window, phase: NotifierPhase::DialogOpen },
            NotifierEventView::DialogDismissed,
        ) == (
            Notifier { window, phase: NotifierPhase::Delivered },
            NotifierActionView::Post { window, notification: Notification::Rejected },
        ),
{
}

/// In a run of the notifier from its beginning, whatever the events, the
/// step that posts the rejection is the one that takes a dismissal of the
/// dialog, and the dialog was shown by an earlier step. Returns the index of
/// that earlier step.
pub proof fn law_rejection_follows_dialog(
    window: WindowHandle,
    events: Seq<NotifierEventView>,
    i: int,
) -> (j: int)
    requires
        0 <= i < events.len(),
        action_at(machine(), initial(window), events, i) matches NotifierActionView::Post {
            notification,
            ..
        } && notification == Notification::Rejected,
    ensures
        events[i] == NotifierEventView::DialogDismissed,
        0 <= j < i,
        action_at(machine(), initial(window), events, j) is ShowErrorDialog,
        events[j] matches NotifierEventView::OutcomeReady(outcome) && outcome.is_failure(),
{
    let open = |n: Notifier| n.phase == NotifierPhase::DialogOpen;
    let shows = |a: NotifierActionView| a is ShowErrorDialog;
    assert(open(state_at(machine(), initial(window), events, i)));
    let j = lemma_established_by(machine(), initial(window), events, open, shows, i);
    j
}

/// In a run of the notifier from its beginning, whatever the events, no two
/// steps post a notification, and no step after the post asks for anything.
pub proof fn law_at_most_one_notification(
    window: WindowHandle,
    events: Seq<NotifierEventView>,
    i: int,
    j: int,
)
    requires
        0 <= i < j < events.len(),
        action_at(machine(), initial(window), events, i) is Post,
    ensures
        action_at(machine(), initial(window), events, j) == NotifierActionView::Nothing,
{
    let delivered = |n: Notifier| n.phase == NotifierPhase::Delivered;
    lemma_state_at_next(machine(), initial(window), events, i);
    assert(delivered(state_at(machine(), initial(window), events, i + 1)));
    lemma_preserved_from(machine(), initial(window), events, delivered, i + 1, j);
}

} // verus!
