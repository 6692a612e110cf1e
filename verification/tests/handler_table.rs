use consent_window::handler::{
    handle_message, HandlerState, PlatformAction, EXIT_CLOSED, EXIT_REJECTED, WM_APP, WM_DESTROY,
    WM_REJECTED, WM_VERIFIED,
};

#[test]
fn message_identifiers() {
    assert_eq!(WM_DESTROY, 2);
    assert_eq!(WM_APP, 32768);
    assert_eq!(WM_VERIFIED, WM_APP + 1);
    assert_eq!(WM_REJECTED, WM_APP + 2);
    assert_eq!(EXIT_CLOSED, 0);
    assert_eq!(EXIT_REJECTED, 1);
}

#[test]
fn verified_is_logged_and_the_loop_goes_on() {
    assert_eq!(
        handle_message(HandlerState::Running, WM_VERIFIED),
        (HandlerState::Running, PlatformAction::LogVerified)
    );
}

#[test]
fn rejected_asks_for_exit_code_one() {
    assert_eq!(
        handle_message(HandlerState::Running, WM_REJECTED),
        (HandlerState::Terminating(1), PlatformAction::PostQuit(1))
    );
}

#[test]
fn destroy_asks_for_exit_code_zero() {
    assert_eq!(
        handle_message(HandlerState::Running, WM_DESTROY),
        (HandlerState::Terminating(0), PlatformAction::PostQuit(0))
    );
}

#[test]
fn other_messages_get_default_handling() {
    for msg in [0u32, 1, 3, 0x000F, 0x0010, 0x0012, 0x0201, 0x7FFF, 0x8000, 0x8003, u32::MAX] {
        assert_eq!(
            handle_message(HandlerState::Running, msg),
            (HandlerState::Running, PlatformAction::DefaultHandling)
        );
        assert_eq!(
            handle_message(HandlerState::Terminating(1), msg),
            (HandlerState::Terminating(1), PlatformAction::DefaultHandling)
        );
        assert_eq!(
            handle_message(HandlerState::Terminating(0), msg),
            (HandlerState::Terminating(0), PlatformAction::DefaultHandling)
        );
    }
}

#[test]
fn terminating_discards_the_three_special_messages() {
    for code in [0, 1, -3, 77] {
        for msg in [WM_VERIFIED, WM_REJECTED, WM_DESTROY] {
            assert_eq!(
                handle_message(HandlerState::Terminating(code), msg),
                (HandlerState::Terminating(code), PlatformAction::Discard)
            );
        }
    }
}

#[test]
fn handler_asks_for_quit_once_whatever_follows() {
    let msgs = [
        0x0001u32,
        WM_VERIFIED,
        0x000F,
        WM_DESTROY,
        WM_REJECTED,
        WM_DESTROY,
        WM_VERIFIED,
        0x0082,
    ];
    let mut state = HandlerState::Running;
    let mut actions = Vec::new();
    for msg in msgs {
        let (next, action) = handle_message(state, msg);
        state = next;
        actions.push(action);
    }
    assert_eq!(state, HandlerState::Terminating(0));
    assert_eq!(
        actions,
        vec![
            PlatformAction::DefaultHandling,
            PlatformAction::LogVerified,
            PlatformAction::DefaultHandling,
            PlatformAction::PostQuit(0),
            PlatformAction::Discard,
            PlatformAction::Discard,
            PlatformAction::Discard,
            PlatformAction::DefaultHandling,
        ]
    );
}
