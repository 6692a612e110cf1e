use consent_window::controller::{ControllerAction, ControllerEvent, ControllerPhase, Lifecycle};
use consent_window::handler::{HandlerState, PlatformAction, WM_DESTROY};
use consent_window::pipeline::{Pipeline, PipelineAction, PipelineEvent};
use consent_window::platform::{Availability, VerificationResult, WindowHandle};

/// What the simulated platform answers to the two calls of the pipeline.
struct Verifier {
    availability: Result<i32, String>,
    verification: Result<i32, String>,
}

/// What the simulated platform has seen.
struct Screen {
    dialogs: Vec<(String, String)>,
    dialog_open: bool,
    log: Vec<String>,
    exit: Option<i32>,
}

fn handle() -> WindowHandle {
    WindowHandle { raw: 0x0001_0A46 }
}

fn start_process() -> Lifecycle {
    let mut l = Lifecycle::new();
    let events = vec![
        ControllerEvent::Launch,
        ControllerEvent::ClassRegistered,
        ControllerEvent::WindowCreated(handle()),
        ControllerEvent::WindowShown,
        ControllerEvent::PipelineSpawned,
    ];
    let mut last = ControllerAction::Nothing;
    for event in events {
        let (next, action) = l.step(event);
        l = next;
        last = action;
    }
    assert_eq!(last, ControllerAction::RunMessageLoop);
    l
}

/// Runs the pipeline up to the point where it waits for the user to dismiss
/// the dialog, or to its end. Returns the message that it posted, if any.
fn run_pipeline(p: &mut Pipeline, verifier: &Verifier, screen: &mut Screen) -> Option<u32> {
    let mut event = PipelineEvent::Start;
    loop {
        let (next, action) = p.step(event);
        *p = next;
        event = match action {
            PipelineAction::CheckAvailability => match &verifier.availability {
                Ok(code) => PipelineEvent::AvailabilityReported(Availability::from_code(*code)),
                Err(text) => PipelineEvent::PlatformFailed(text.clone()),
            },
            PipelineAction::RequestVerification { window, prompt } => {
                assert_eq!(window, handle());
                assert_eq!(prompt, "Please verify your identity");
                match &verifier.verification {
                    Ok(code) => {
                        PipelineEvent::VerificationReported(VerificationResult::from_code(*code))
                    },
                    Err(text) => PipelineEvent::PlatformFailed(text.clone()),
                }
            },
            PipelineAction::ShowErrorDialog { parent, title, text, style } => {
                assert_eq!(parent, handle());
                assert_eq!(style, 0x10);
                screen.dialogs.push((title, text));
                screen.dialog_open = true;
                return None;
            },
            PipelineAction::Post { window, notification } => {
                assert_eq!(window, handle());
                assert!(!screen.dialog_open);
                return Some(notification.message_id());
            },
            PipelineAction::Nothing => return None,
        };
    }
}

fn dismiss_dialog(p: &mut Pipeline, screen: &mut Screen) -> Option<u32> {
    assert!(screen.dialog_open);
    screen.dialog_open = false;
    let (next, action) = p.step(PipelineEvent::DialogDismissed);
    *p = next;
    match action {
        PipelineAction::Post { notification, .. } => Some(notification.message_id()),
        _ => None,
    }
}

/// Dispatches one message and lets the simulated platform do what was asked
/// for; a quit that was asked for is retrieved by the loop right away.
fn dispatch(l: &mut Lifecycle, msg: u32, screen: &mut Screen) {
    let (next, action) = l.step(ControllerEvent::MessageDispatched(msg));
    *l = next;
    match action {
        ControllerAction::Handle(PlatformAction::LogVerified) => {
            screen.log.push(String::from("verified"));
        },
        ControllerAction::Handle(PlatformAction::PostQuit(code)) => {
            let (next, action) = l.step(ControllerEvent::QuitReceived(code));
            *l = next;
            match action {
                ControllerAction::Exit(code) => screen.exit = Some(code),
                other => panic!("the loop did not end: {:?}", other),
            }
        },
        _ => {},
    }
}

fn blank_screen() -> Screen {
    Screen { dialogs: Vec::new(), dialog_open: false, log: Vec::new(), exit: None }
}

#[test]
fn verified_user_keeps_the_window_until_closing_it() {
    let verifier = Verifier { availability: Ok(0), verification: Ok(0) };
    let mut screen = blank_screen();
    let mut l = start_process();
    let mut p = Pipeline::new(handle());

    let posted = run_pipeline(&mut p, &verifier, &mut screen);
    assert_eq!(posted, Some(0x8001));
    assert!(screen.dialogs.is_empty());

    dispatch(&mut l, 0x8001, &mut screen);
    assert_eq!(screen.log, vec![String::from("verified")]);
    assert_eq!(screen.exit, None);
    assert_eq!(l.phase, ControllerPhase::Looping(handle()));
    assert_eq!(l.handler, HandlerState::Running);
    assert_eq!(l.exit_status(), None);

    dispatch(&mut l, 0x000F, &mut screen);
    assert_eq!(screen.exit, None);

    dispatch(&mut l, WM_DESTROY, &mut screen);
    assert_eq!(screen.exit, Some(0));
    assert_eq!(l.exit_status(), Some(0));
}

#[test]
fn unavailable_verifier_shows_dialog_then_exits_with_one() {
    let verifier = Verifier { availability: Ok(1), verification: Ok(0) };
    let mut screen = blank_screen();
    let mut l = start_process();
    let mut p = Pipeline::new(handle());

    let posted = run_pipeline(&mut p, &verifier, &mut screen);
    assert_eq!(posted, None);
    assert_eq!(
        screen.dialogs,
        vec![(String::from("Error"), String::from("verifier is not available"))]
    );
    assert_eq!(l.exit_status(), None);
    assert_eq!(screen.exit, None);

    let posted = dismiss_dialog(&mut p, &mut screen);
    assert_eq!(posted, Some(0x8002));

    dispatch(&mut l, 0x8002, &mut screen);
    assert_eq!(screen.exit, Some(1));
    assert_eq!(l.exit_status(), Some(1));
    assert_eq!(screen.dialogs.len(), 1);
    assert!(screen.log.is_empty());
}

#[test]
fn canceled_challenge_shows_dialog_then_exits_with_one() {
    let verifier = Verifier { availability: Ok(0), verification: Ok(6) };
    let mut screen = blank_screen();
    let mut l = start_process();
    let mut p = Pipeline::new(handle());

    assert_eq!(run_pipeline(&mut p, &verifier, &mut screen), None);
    assert_eq!(screen.dialogs, vec![(String::from("Error"), String::from("failed to verify"))]);
    let posted = dismiss_dialog(&mut p, &mut screen);
    assert_eq!(posted, Some(0x8002));
    dispatch(&mut l, 0x8002, &mut screen);
    assert_eq!(screen.exit, Some(1));
}

#[test]
fn platform_error_shows_its_description_then_exits_with_one() {
    let verifier = Verifier {
        availability: Ok(0),
        verification: Err(String::from("The operation was canceled by the user. (0x800704C7)")),
    };
    let mut screen = blank_screen();
    let mut l = start_process();
    let mut p = Pipeline::new(handle());

    assert_eq!(run_pipeline(&mut p, &verifier, &mut screen), None);
    assert_eq!(
        screen.dialogs,
        vec![(
            String::from("Error"),
            String::from("The operation was canceled by the user. (0x800704C7)")
        )]
    );
    let posted = dismiss_dialog(&mut p, &mut screen);
    dispatch(&mut l, posted.unwrap(), &mut screen);
    assert_eq!(screen.exit, Some(1));
}

#[test]
fn window_closed_before_the_result_drops_the_late_notification() {
    let mut screen = blank_screen();
    let mut l = start_process();

    dispatch(&mut l, WM_DESTROY, &mut screen);
    assert_eq!(screen.exit, Some(0));
    assert_eq!(l.exit_status(), Some(0));
    let ended = l;

    for verifier in [
        Verifier { availability: Ok(0), verification: Ok(0) },
        Verifier { availability: Ok(3), verification: Ok(0) },
    ] {
        let mut p = Pipeline::new(handle());
        let mut late = run_pipeline(&mut p, &verifier, &mut screen);
        if late.is_none() {
            late = dismiss_dialog(&mut p, &mut screen);
        }
        let (next, action) = l.step(ControllerEvent::MessageDispatched(late.unwrap()));
        l = next;
        assert_eq!(action, ControllerAction::Nothing);
        assert_eq!(l, ended);
        assert_eq!(l.exit_status(), Some(0));
    }
    assert!(screen.log.is_empty());
}

#[test]
fn window_closed_while_the_dialog_is_open_exits_with_zero() {
    let verifier = Verifier { availability: Ok(4), verification: Ok(0) };
    let mut screen = blank_screen();
    let mut l = start_process();
    let mut p = Pipeline::new(handle());

    assert_eq!(run_pipeline(&mut p, &verifier, &mut screen), None);
    dispatch(&mut l, WM_DESTROY, &mut screen);
    assert_eq!(screen.exit, Some(0));

    let late = dismiss_dialog(&mut p, &mut screen).unwrap();
    let (next, action) = l.step(ControllerEvent::MessageDispatched(late));
    assert_eq!(action, ControllerAction::Nothing);
    assert_eq!(next.exit_status(), Some(0));
}

#[test]
fn failed_startup_spawns_nothing_and_runs_no_loop() {
    let mut l = Lifecycle::new();
    let mut actions = Vec::new();
    let events = vec![
        ControllerEvent::Launch,
        ControllerEvent::ClassRegistered,
        ControllerEvent::WindowCreationFailed(String::from("out of handles")),
        ControllerEvent::WindowShown,
        ControllerEvent::PipelineSpawned,
        ControllerEvent::QuitReceived(0),
    ];
    for event in events {
        let (next, action) = l.step(event);
        l = next;
        actions.push(action);
    }
    assert_eq!(actions[2], ControllerAction::FailStartup(String::from("out of handles")));
    for action in &actions {
        assert!(!matches!(action, ControllerAction::SpawnPipeline(_)));
        assert_ne!(*action, ControllerAction::RunMessageLoop);
        assert!(!matches!(action, ControllerAction::Exit(_)));
    }
    assert_eq!(l.phase, ControllerPhase::Failed);
    assert_eq!(l.exit_status(), None);
}
