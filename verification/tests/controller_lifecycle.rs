use consent_window::controller::{
    ControllerAction, ControllerEvent, ControllerPhase, Lifecycle, WINDOW_HEIGHT, WINDOW_STYLE,
    WINDOW_WIDTH, WS_CAPTION, WS_OVERLAPPED, WS_SYSMENU, WS_VISIBLE,
};
use consent_window::handler::{HandlerState, PlatformAction, WM_DESTROY, WM_REJECTED, WM_VERIFIED};
use consent_window::platform::WindowHandle;

fn window() -> WindowHandle {
    WindowHandle { raw: 0x0003_0F2C }
}

fn run_from(start: Lifecycle, events: Vec<ControllerEvent>) -> (Lifecycle, Vec<ControllerAction>) {
    let mut l = start;
    let mut actions = Vec::new();
    for event in events {
        let (next, action) = l.step(event);
        l = next;
        actions.push(action);
    }
    (l, actions)
}

fn run(events: Vec<ControllerEvent>) -> (Lifecycle, Vec<ControllerAction>) {
    run_from(Lifecycle::new(), events)
}

fn startup() -> Vec<ControllerEvent> {
    vec![
        ControllerEvent::Launch,
        ControllerEvent::ClassRegistered,
        ControllerEvent::WindowCreated(window()),
        ControllerEvent::WindowShown,
        ControllerEvent::PipelineSpawned,
    ]
}

fn looping() -> Lifecycle {
    Lifecycle { phase: ControllerPhase::Looping(window()), handler: HandlerState::Running }
}

fn every_event() -> Vec<ControllerEvent> {
    vec![
        ControllerEvent::Launch,
        ControllerEvent::ClassRegistered,
        ControllerEvent::ClassRegistrationFailed(String::from("a")),
        ControllerEvent::WindowCreated(WindowHandle { raw: 1 }),
        ControllerEvent::WindowCreationFailed(String::from("b")),
        ControllerEvent::WindowShown,
        ControllerEvent::PipelineSpawned,
        ControllerEvent::MessageDispatched(WM_VERIFIED),
        ControllerEvent::MessageDispatched(WM_REJECTED),
        ControllerEvent::MessageDispatched(WM_DESTROY),
        ControllerEvent::MessageDispatched(0x000F),
        ControllerEvent::QuitReceived(0),
        ControllerEvent::QuitReceived(1),
    ]
}

#[test]
fn window_geometry_and_style() {
    assert_eq!(WINDOW_WIDTH, 300);
    assert_eq!(WINDOW_HEIGHT, 200);
    assert_eq!(WS_OVERLAPPED, 0);
    assert_eq!(WS_CAPTION, 12582912);
    assert_eq!(WS_SYSMENU, 524288);
    assert_eq!(WS_VISIBLE, 268435456);
    assert_eq!(WINDOW_STYLE, WS_OVERLAPPED | WS_CAPTION | WS_SYSMENU | WS_VISIBLE);
}

#[test]
fn new_lifecycle_is_initial_and_running() {
    let l = Lifecycle::new();
    assert_eq!(l, Lifecycle { phase: ControllerPhase::Initial, handler: HandlerState::Running });
    assert_eq!(l.exit_status(), None);
}

#[test]
fn startup_goes_register_create_show_spawn_loop() {
    let (l, actions) = run(startup());
    assert_eq!(
        actions,
        vec![
            ControllerAction::RegisterClass,
            ControllerAction::CreateWindow {
                title: String::from("verify"),
                width: 300,
                height: 200,
                style: 0x10C8_0000,
            },
            ControllerAction::ShowWindow(window()),
            ControllerAction::SpawnPipeline(window()),
            ControllerAction::RunMessageLoop,
        ]
    );
    assert_eq!(l, looping());
    assert_eq!(l.exit_status(), None);
}

#[test]
fn class_registration_failure_is_fatal() {
    let (l, actions) = run(vec![
        ControllerEvent::Launch,
        ControllerEvent::ClassRegistrationFailed(String::from("Class already exists.")),
    ]);
    assert_eq!(
        actions,
        vec![
            ControllerAction::RegisterClass,
            ControllerAction::FailStartup(String::from("Class already exists.")),
        ]
    );
    assert_eq!(l.phase, ControllerPhase::Failed);
    assert_eq!(l.exit_status(), None);
}

#[test]
fn window_creation_failure_is_fatal() {
    let (l, actions) = run(vec![
        ControllerEvent::Launch,
        ControllerEvent::ClassRegistered,
        ControllerEvent::WindowCreationFailed(String::from("Cannot find window class.")),
    ]);
    assert_eq!(
        actions[2],
        ControllerAction::FailStartup(String::from("Cannot find window class."))
    );
    assert_eq!(l.phase, ControllerPhase::Failed);
}

#[test]
fn failed_startup_never_starts_the_loop() {
    let failures = vec![
        vec![ControllerEvent::Launch, ControllerEvent::ClassRegistrationFailed(String::from("r"))],
        vec![
            ControllerEvent::Launch,
            ControllerEvent::ClassRegistered,
            ControllerEvent::WindowCreationFailed(String::from("c")),
        ],
    ];
    for failure in failures {
        let (failed, _) = run(failure);
        let mut later = startup();
        later.extend(every_event());
        let (l, actions) = run_from(failed, later);
        assert_eq!(l, failed);
        for action in actions {
            assert_eq!(action, ControllerAction::Nothing);
        }
    }
}

#[test]
fn failure_reports_out_of_turn_are_ignored() {
    let (l, action) =
        Lifecycle::new().step(ControllerEvent::ClassRegistrationFailed(String::from("x")));
    assert_eq!((l, action), (Lifecycle::new(), ControllerAction::Nothing));
    let (l, action) = looping().step(ControllerEvent::WindowCreationFailed(String::from("x")));
    assert_eq!((l, action), (looping(), ControllerAction::Nothing));
    let registering =
        Lifecycle { phase: ControllerPhase::RegisteringClass, handler: HandlerState::Running };
    let (l, action) = registering.step(ControllerEvent::WindowCreationFailed(String::from("x")));
    assert_eq!((l, action), (registering, ControllerAction::Nothing));
}

#[test]
fn startup_events_out_of_turn_are_ignored() {
    let (l, actions) = run(vec![
        ControllerEvent::ClassRegistered,
        ControllerEvent::WindowCreated(window()),
        ControllerEvent::WindowShown,
        ControllerEvent::PipelineSpawned,
        ControllerEvent::QuitReceived(1),
    ]);
    assert_eq!(l, Lifecycle::new());
    for action in actions {
        assert_eq!(action, ControllerAction::Nothing);
    }
}

#[test]
fn pipeline_is_spawned_once() {
    let mut events = startup();
    events.extend(startup());
    events.push(ControllerEvent::WindowShown);
    events.push(ControllerEvent::PipelineSpawned);
    let (l, actions) = run(events);
    let spawns = actions
        .iter()
        .filter(|a| matches!(a, ControllerAction::SpawnPipeline(_)))
        .count();
    let loops = actions.iter().filter(|a| **a == ControllerAction::RunMessageLoop).count();
    assert_eq!(spawns, 1);
    assert_eq!(loops, 1);
    assert_eq!(l, looping());
}

#[test]
fn messages_reach_the_handler_during_startup() {
    let creating =
        Lifecycle { phase: ControllerPhase::CreatingWindow, handler: HandlerState::Running };
    let (l, action) = creating.step(ControllerEvent::MessageDispatched(0x0081));
    assert_eq!(l, creating);
    assert_eq!(action, ControllerAction::Handle(PlatformAction::DefaultHandling));
    let (l, action) = l.step(ControllerEvent::MessageDispatched(WM_DESTROY));
    assert_eq!(
        l,
        Lifecycle { phase: ControllerPhase::CreatingWindow, handler: HandlerState::Terminating(0) }
    );
    assert_eq!(action, ControllerAction::Handle(PlatformAction::PostQuit(0)));
}

#[test]
fn quit_ends_the_loop_with_the_asked_code() {
    let asked = Lifecycle {
        phase: ControllerPhase::Looping(window()),
        handler: HandlerState::Terminating(1),
    };
    let (l, action) = asked.step(ControllerEvent::QuitReceived(1));
    assert_eq!(action, ControllerAction::Exit(1));
    assert_eq!(l.phase, ControllerPhase::Exited(1));
    assert_eq!(l.exit_status(), Some(1));
    let (l, action) = asked.step(ControllerEvent::QuitReceived(0));
    assert_eq!(action, ControllerAction::Exit(1));
    assert_eq!(l.exit_status(), Some(1));
}

#[test]
fn quit_that_nobody_asked_for_ends_the_loop_with_the_carried_code() {
    let (l, action) = looping().step(ControllerEvent::QuitReceived(7));
    assert_eq!(action, ControllerAction::Exit(7));
    assert_eq!(l.exit_status(), Some(7));
    let (l, action) = looping().step(ControllerEvent::QuitReceived(0));
    assert_eq!(action, ControllerAction::Exit(0));
    assert_eq!(l.exit_status(), Some(0));
}

#[test]
fn quit_outside_the_loop_is_ignored() {
    let spawning = Lifecycle {
        phase: ControllerPhase::SpawningPipeline(window()),
        handler: HandlerState::Terminating(0),
    };
    let (l, action) = spawning.step(ControllerEvent::QuitReceived(0));
    assert_eq!((l, action), (spawning, ControllerAction::Nothing));
}

#[test]
fn exited_lifecycle_ignores_everything() {
    for code in [0, 1] {
        let exited = Lifecycle {
            phase: ControllerPhase::Exited(code),
            handler: HandlerState::Terminating(code),
        };
        let mut events = every_event();
        events.extend(startup());
        let (l, actions) = run_from(exited, events);
        assert_eq!(l, exited);
        assert_eq!(l.exit_status(), Some(code));
        for action in actions {
            assert_eq!(action, ControllerAction::Nothing);
        }
    }
}
