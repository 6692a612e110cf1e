use consent_window::handler::{WM_APP, WM_REJECTED, WM_VERIFIED};
use consent_window::notifier::{
    Notification, Notifier, NotifierAction, NotifierEvent, NotifierPhase,
};
use consent_window::platform::{Outcome, WindowHandle};

fn window() -> WindowHandle {
    WindowHandle { raw: 9 }
}

fn in_phase(phase: NotifierPhase) -> Notifier {
    Notifier { window: window(), phase }
}

#[test]
fn notification_message_ids() {
    assert_eq!(Notification::Verified.message_id(), WM_VERIFIED);
    assert_eq!(Notification::Rejected.message_id(), WM_REJECTED);
    assert_eq!(Notification::Verified.message_id(), 0x8001);
    assert_eq!(Notification::Rejected.message_id(), 0x8002);
    assert_eq!(Notification::Verified.message_id(), WM_APP + 1);
    assert_eq!(Notification::Rejected.message_id(), WM_APP + 2);
}

#[test]
fn new_notifier_waits() {
    let n = Notifier::new(window());
    assert_eq!(n, in_phase(NotifierPhase::Waiting));
    assert!(!n.is_delivered());
}

#[test]
fn verified_is_posted_without_dialog() {
    let (n, action) = Notifier::new(window()).step(NotifierEvent::OutcomeReady(Outcome::Verified));
    assert_eq!(n, in_phase(NotifierPhase::Delivered));
    assert!(n.is_delivered());
    assert_eq!(
        action,
        NotifierAction::Post { window: window(), notification: Notification::Verified }
    );
}

#[test]
fn rejection_is_shown_before_it_is_posted() {
    let (n, action) = Notifier::new(window())
        .step(NotifierEvent::OutcomeReady(Outcome::Rejected(String::from("failed to verify"))));
    assert_eq!(n, in_phase(NotifierPhase::DialogOpen));
    assert!(!n.is_delivered());
    assert_eq!(
        action,
        NotifierAction::ShowErrorDialog {
            parent: window(),
            title: String::from("Error"),
            text: String::from("failed to verify"),
            style: 0x10,
        }
    );
    let (n, action) = n.step(NotifierEvent::DialogDismissed);
    assert_eq!(n, in_phase(NotifierPhase::Delivered));
    assert_eq!(
        action,
        NotifierAction::Post { window: window(), notification: Notification::Rejected }
    );
}

#[test]
fn error_is_shown_with_the_platform_description() {
    let (n, action) = Notifier::new(window())
        .step(NotifierEvent::OutcomeReady(Outcome::Error(String::from("The RPC server is down"))));
    assert_eq!(n, in_phase(NotifierPhase::DialogOpen));
    assert_eq!(
        action,
        NotifierAction::ShowErrorDialog {
            parent: window(),
            title: String::from("Error"),
            text: String::from("The RPC server is down"),
            style: 0x10,
        }
    );
    let (_, action) = n.step(NotifierEvent::DialogDismissed);
    assert_eq!(
        action,
        NotifierAction::Post { window: window(), notification: Notification::Rejected }
    );
}

#[test]
fn dismissal_without_dialog_is_ignored() {
    let (n, action) = Notifier::new(window()).step(NotifierEvent::DialogDismissed);
    assert_eq!(n, in_phase(NotifierPhase::Waiting));
    assert_eq!(action, NotifierAction::Nothing);
}

#[test]
fn second_outcome_is_ignored_while_dialog_is_open() {
    let open = in_phase(NotifierPhase::DialogOpen);
    let (n, action) = open.step(NotifierEvent::OutcomeReady(Outcome::Verified));
    assert_eq!(n, open);
    assert_eq!(action, NotifierAction::Nothing);
}

#[test]
fn delivered_notifier_ignores_everything() {
    let delivered = in_phase(NotifierPhase::Delivered);
    let events = vec![
        NotifierEvent::OutcomeReady(Outcome::Verified),
        NotifierEvent::OutcomeReady(Outcome::Rejected(String::from("x"))),
        NotifierEvent::OutcomeReady(Outcome::Error(String::from("y"))),
        NotifierEvent::DialogDismissed,
    ];
    for event in events {
        let (n, action) = delivered.step(event);
        assert_eq!(n, delivered);
        assert_eq!(action, NotifierAction::Nothing);
    }
}

#[test]
fn notifier_posts_once_whatever_follows() {
    let events = vec![
        NotifierEvent::DialogDismissed,
        NotifierEvent::OutcomeReady(Outcome::Error(String::from("e"))),
        NotifierEvent::OutcomeReady(Outcome::Verified),
        NotifierEvent::DialogDismissed,
        NotifierEvent::DialogDismissed,
        NotifierEvent::OutcomeReady(Outcome::Verified),
    ];
    let mut n = Notifier::new(window());
    let mut actions = Vec::new();
    for event in events {
        let (next, action) = n.step(event);
        n = next;
        if action != NotifierAction::Nothing {
            actions.push(action);
        }
    }
    assert_eq!(
        actions,
        vec![
            NotifierAction::ShowErrorDialog {
                parent: window(),
                title: String::from("Error"),
                text: String::from("e"),
                style: 0x10,
            },
            NotifierAction::Post { window: window(), notification: Notification::Rejected },
        ]
    );
}

#[test]
fn dialog_style_is_the_error_icon() {
    assert_eq!(consent_window::notifier::MB_ICONERROR, 16);
}
