//! The window controller: brings the window up step by step, hands the
//! verification over to the background pipeline, runs the message loop and
//! carries the exit code out of it. One record holds all of its state.

use vstd::prelude::*;
use crate::handler;
use crate::handler::{handle_message, HandlerState, PlatformAction};
use crate::notifier::Notification;
use crate::platform::WindowHandle;
use crate::trace::{
    action_at, lemma_established_by, lemma_preserved_from, lemma_state_at_end,
    lemma_state_at_next, run, state_at,
};

verus! {

/// Width of the window, in pixels.
pub const WINDOW_WIDTH: i32 = 300;

/// Height of the window, in pixels.
pub const WINDOW_HEIGHT: i32 = 200;

/// Style bit of an overlapped window.
pub const WS_OVERLAPPED: u32 = 0x0000_0000;

/// Style bits of a window with a title bar.
pub const WS_CAPTION: u32 = 0x00C0_0000;

/// Style bit of a window with a system menu.
pub const WS_SYSMENU: u32 = 0x0008_0000;

/// Style bit of a window that is visible from the start.
pub const WS_VISIBLE: u32 = 0x1000_0000;

/// Style of the window: overlapped, with title bar and system menu, visible.
pub const WINDOW_STYLE: u32 = 0x10C8_0000;

/// Title of the window.
pub open spec fn window_title() -> Seq<char> {
    "verify"@
}

/// How far the controller has come.
#[derive(Clone, Copy, Debug, PartialEq, Eq, Structural)]
pub enum ControllerPhase {
    /// Nothing was asked of the platform yet.
    Initial,
    /// The registration of the window class is under way.
    RegisteringClass,
    /// The class is registered and the creation of the window is under way.
    CreatingWindow,
    /// The window exists and is being shown.
    ShowingWindow(WindowHandle),
    /// The window is shown and the background pipeline is being spawned.
    SpawningPipeline(WindowHandle),
    /// The message loop runs.
    Looping(WindowHandle),
    /// The message loop has ended with this exit code. Nothing leaves this phase.
    Exited(i32),
    /// Startup has failed before the message loop. Nothing leaves this phase.
    Failed,
}

/// The lifecycle record of the process: the controller's phase, and the
/// state of the message handler with the exit code that it may have asked for.
#[derive(Clone, Copy, Debug, PartialEq, Eq, Structural)]
pub struct Lifecycle {
    pub phase: ControllerPhase,
    pub handler: HandlerState,
}

/// What happened outside since the last action.
#[derive(Clone, Debug, PartialEq, Eq)]
pub enum ControllerEvent {
    /// The process has started.
    Launch,
    /// The platform registered the window class.
    ClassRegistered,
    /// The platform refused the window class; holds the platform's description.
    ClassRegistrationFailed(String),
    /// The platform created the window.
    WindowCreated(WindowHandle),
    /// The platform created no window; holds the platform's description.
    WindowCreationFailed(String),
    /// The window was shown.
    WindowShown,
    /// The background pipeline is on its way.
    PipelineSpawned,
    /// The platform handed a message to the window's message procedure.
    MessageDispatched(u32),
    /// The message loop retrieved the quit signal, which carries this code.
    QuitReceived(i32),
}

/// Mathematical value of a [`ControllerEvent`].
pub enum ControllerEventView {
    Launch,
    ClassRegistered,
    ClassRegistrationFailed(Seq<char>),
    WindowCreated(WindowHandle),
    WindowCreationFailed(Seq<char>),
    WindowShown,
    PipelineSpawned,
    MessageDispatched(u32),
    QuitReceived(i32),
}

impl View for ControllerEvent {
    type V = ControllerEventView;

    open spec fn view(&self) -> ControllerEventView {
        match *self {
            ControllerEvent::Launch => ControllerEventView::Launch,
            ControllerEvent::ClassRegistered => ControllerEventView::ClassRegistered,
            ControllerEvent::ClassRegistrationFailed(text) => {
                ControllerEventView::ClassRegistrationFailed(text@)
            },
            ControllerEvent::WindowCreated(window) => ControllerEventView::WindowCreated(window),
            ControllerEvent::WindowCreationFailed(text) => {
                ControllerEventView::WindowCreationFailed(text@)
            },
            ControllerEvent::WindowShown => ControllerEventView::WindowShown,
            ControllerEvent::PipelineSpawned => ControllerEventView::PipelineSpawned,
            ControllerEvent::MessageDispatched(msg) => ControllerEventView::MessageDispatched(msg),
            ControllerEvent::QuitReceived(code) => ControllerEventView::QuitReceived(code),
        }
    }
}

/// What the caller has to do next.
#[derive(Clone, Debug, PartialEq, Eq)]
pub enum ControllerAction {
    /// Register the window class, with the message procedure as its
    /// callback, and report how that went.
    RegisterClass,
    /// Create the top-level window and report how that went.
    CreateWindow { title: String, width: i32, height: i32, style: u32 },
    /// Show the window and report that it is shown.
    ShowWindow(WindowHandle),
    /// Start the background pipeline for this window on a context of its
    /// own, detached, and report that it is on its way.
    SpawnPipeline(WindowHandle),
    /// Retrieve and dispatch messages until the quit signal comes, and report it.
    RunMessageLoop,
    /// Inside the message procedure: do with the message what the handler decided.
    Handle(PlatformAction),
    /// End the process with this exit code.
    Exit(i32),
    /// Give up before the message loop and report the failure to the process's caller.
    FailStartup(String),
    /// The event does not concern the current phase: do nothing.
    Nothing,
}

/// Mathematical value of a [`ControllerAction`].
pub enum ControllerActionView {
    RegisterClass,
    CreateWindow { title: Seq<char>, width: i32, height: i32, style: u32 },
    ShowWindow(WindowHandle),
    SpawnPipeline(WindowHandle),
    RunMessageLoop,
    Handle(PlatformAction),
    Exit(i32),
    FailStartup(Seq<char>),
    Nothing,
}

impl View for ControllerAction {
    type V = ControllerActionView;

    open spec fn view(&self) -> ControllerActionView {
        match *self {
            ControllerAction::RegisterClass => ControllerActionView::RegisterClass,
            ControllerAction::CreateWindow { title, width, height, style } => {
                ControllerActionView::CreateWindow { title: title@, width, height, style }
            },
            ControllerAction::ShowWindow(window) => ControllerActionView::ShowWindow(window),
            ControllerAction::SpawnPipeline(window) => ControllerActionView::SpawnPipeline(window),
            ControllerAction::RunMessageLoop => ControllerActionView::RunMessageLoop,
            ControllerAction::Handle(action) => ControllerActionView::Handle(action),
            ControllerAction::Exit(code) => ControllerActionView::Exit(code),
            ControllerAction::FailStartup(text) => ControllerActionView::FailStartup(text@),
            ControllerAction::Nothing => ControllerActionView::Nothing,
        }
    }
}

impl ControllerPhase {
    /// True for the two phases that nothing leaves.
    pub open spec fn is_final(self) -> bool {
        self is Exited || self is Failed
    }
}

/// The exit code that the loop ends with when the quit signal carries
/// `carried`: the code that the handler asked for, if it asked for one.
pub open spec fn exit_code(handler: HandlerState, carried: i32) -> i32 {
    match handler {
        HandlerState::Terminating(code) => code,
        HandlerState::Running => carried,
    }
}

/// The controller's transition relation, as a function: the record after
/// `event`, and the action it asks for.
///
/// A dispatched message goes to the message handler in every phase but the
/// two final ones, where it is dropped. Every other event moves the
/// controller on if its phase waits for that event, and else changes nothing
/// and asks for nothing.
pub open spec fn transition(l: Lifecycle, event: ControllerEventView) -> (
    Lifecycle,
    ControllerActionView,
) {
    match (l.phase, event) {
        (phase, ControllerEventView::MessageDispatched(msg)) => {
            if phase.is_final() {
                (l, ControllerActionView::Nothing)
            } else {
                (
                    Lifecycle { phase, handler: handler::next_state(l.handler, msg) },
                    ControllerActionView::Handle(handler::action_for(l.handler, msg)),
                )
            }
        },
        (ControllerPhase::Initial, ControllerEventView::Launch) => (
            Lifecycle { phase: ControllerPhase::RegisteringClass, handler: l.handler },
            ControllerActionView::RegisterClass,
        ),
        (ControllerPhase::RegisteringClass, ControllerEventView::ClassRegistered) => (
            Lifecycle { phase: ControllerPhase::CreatingWindow, handler: l.handler },
            ControllerActionView::CreateWindow {
                title: window_title(),
                width: WINDOW_WIDTH,
                height: WINDOW_HEIGHT,
                style: WINDOW_STYLE,
            },
        ),
        (
            ControllerPhase::RegisteringClass,
            ControllerEventView::ClassRegistrationFailed(text),
        ) => (
            Lifecycle { phase: ControllerPhase::Failed, handler: l.handler },
            ControllerActionView::FailStartup(text),
        ),
        (ControllerPhase::CreatingWindow, ControllerEventView::WindowCreated(window)) => (
            Lifecycle { phase: ControllerPhase::ShowingWindow(window), handler: l.handler },
            ControllerActionView::ShowWindow(window),
        ),
        (ControllerPhase::CreatingWindow, ControllerEventView::WindowCreationFailed(text)) => (
            Lifecycle { phase: ControllerPhase::Failed, handler: l.handler },
            ControllerActionView::FailStartup(text),
        ),
        (ControllerPhase::ShowingWindow(window), ControllerEventView::WindowShown) => (
            Lifecycle { phase: ControllerPhase::SpawningPipeline(window), handler: l.handler },
            ControllerActionView::SpawnPipeline(window),
        ),
        (ControllerPhase::SpawningPipeline(window), ControllerEventView::PipelineSpawned) => (
            Lifecycle { phase: ControllerPhase::Looping(window), handler: l.handler },
            ControllerActionView::RunMessageLoop,
        ),
        (ControllerPhase::Looping(_), ControllerEventView::QuitReceived(carried)) => (
            Lifecycle {
                phase: ControllerPhase::Exited(exit_code(l.handler, carried)),
                handler: l.handler,
            },
            ControllerActionView::Exit(exit_code(l.handler, carried)),
        ),
        _ => (l, ControllerActionView::Nothing),
    }
}

/// The record of a process that has just started, for use in contracts.
pub open spec fn initial() -> Lifecycle {
    Lifecycle { phase: ControllerPhase::Initial, handler: HandlerState::Running }
}

impl Lifecycle {
    /// The record of a process that has just started.
    pub fn new() -> (l: Lifecycle)
        ensures
            l == initial(),
    {
        Lifecycle { phase: ControllerPhase::Initial, handler: HandlerState::Running }
    }

    /// The exit code of a run whose message loop has ended, else `None`.
    pub fn exit_status(&self) -> (code: Option<i32>)
        ensures
            code == (match self.phase {
                ControllerPhase::Exited(c) => Some(c),
                _ => None,
            }),
    {
        match self.phase {
            ControllerPhase::Exited(c) => Some(c),
            _ => None,
        }
    }

    /// Takes one event: returns the record after it and the action to perform.
    pub fn step(self, event: ControllerEvent) -> (r: (Lifecycle, ControllerAction))
        ensures
            r.0 == transition(self, event@).0,
            r.1@ == transition(self, event@).1,
    {
        let handler = self.handler;
        match event {
            ControllerEvent::MessageDispatched(msg) => match self.phase {
                ControllerPhase::Exited(_) => (self, ControllerAction::Nothing),
                ControllerPhase::Failed => (self, ControllerAction::Nothing),
                phase => {
                    let (next, action) = handle_message(handler, msg);
                    (Lifecycle { phase, handler: next }, ControllerAction::Handle(action))
                },
            },
            ControllerEvent::Launch => match self.phase {
                ControllerPhase::Initial => (
                    Lifecycle { phase: ControllerPhase::RegisteringClass, handler },
                    ControllerAction::RegisterClass,
                ),
                _ => (self, ControllerAction::Nothing),
            },
            ControllerEvent::ClassRegistered => match self.phase {
                ControllerPhase::RegisteringClass => (
                    Lifecycle { phase: ControllerPhase::CreatingWindow, handler },
                    ControllerAction::CreateWindow {
                        title: "verify".to_owned(),
                        width: WINDOW_WIDTH,
                        height: WINDOW_HEIGHT,
                        style: WINDOW_STYLE,
                    },
                ),
                _ => (self, ControllerAction::Nothing),
            },
            ControllerEvent::ClassRegistrationFailed(text) => match self.phase {
                ControllerPhase::RegisteringClass => (
                    Lifecycle { phase: ControllerPhase::Failed, handler },
                    ControllerAction::FailStartup(text),
                ),
                _ => (self, ControllerAction::Nothing),
            },
            ControllerEvent::WindowCreated(window) => match self.phase {
                ControllerPhase::CreatingWindow => (
                    Lifecycle { phase: ControllerPhase::ShowingWindow(window), handler },
                    ControllerAction::ShowWindow(window),
                ),
                _ => (self, ControllerAction::Nothing),
            },
            ControllerEvent::WindowCreationFailed(text) => match self.phase {
                ControllerPhase::CreatingWindow => (
                    Lifecycle { phase: ControllerPhase::Failed, handler },
                    ControllerAction::FailStartup(text),
                ),
                _ => (self, ControllerAction::Nothing),
            },
            ControllerEvent::WindowShown => match self.phase {
                ControllerPhase::ShowingWindow(window) => (
                    Lifecycle { phase: ControllerPhase::SpawningPipeline(window), handler },
                    ControllerAction::SpawnPipeline(window),
                ),
                _ => (self, ControllerAction::Nothing),
            },
            ControllerEvent::PipelineSpawned => match self.phase {
                ControllerPhase::SpawningPipeline(window) => (
                    Lifecycle { phase: ControllerPhase::Looping(window), handler },
                    ControllerAction::RunMessageLoop,
                ),
                _ => (self, ControllerAction::Nothing),
            },
            ControllerEvent::QuitReceived(carried) => match self.phase {
                ControllerPhase::Looping(_) => {
                    let code = match handler {
                        HandlerState::Terminating(asked) => asked,
                        HandlerState::Running => carried,
                    };
                    (
                        Lifecycle { phase: ControllerPhase::Exited(code), handler },
                        ControllerAction::Exit(code),
                    )
                },
                _ => (self, ControllerAction::Nothing),
            },
        }
    }
}

/// The controller as a machine that runs over a sequence of events.
pub open spec fn machine() -> spec_fn(Lifecycle, ControllerEventView) -> (
    Lifecycle,
    ControllerActionView,
) {
    |l: Lifecycle, event: ControllerEventView| transition(l, event)
}

/// True when `event` tells a controller in phase `phase` that the step of
/// startup that it waits for has failed.
pub open spec fn startup_fails(phase: ControllerPhase, event: ControllerEventView) -> bool {
    ||| phase is RegisteringClass && event is ClassRegistrationFailed
    ||| phase is CreatingWindow && event is WindowCreationFailed
}

/// The description that a failure event carries.
pub open spec fn failure_text(event: ControllerEventView) -> Seq<char> {
    match event {
        ControllerEventView::ClassRegistrationFailed(text) => text,
        ControllerEventView::WindowCreationFailed(text) => text,
        _ => Seq::empty(),
    }
}

/// The style of the window is made of the four style bits that it names.
pub proof fn law_window_style_bits()
    ensures
        WINDOW_STYLE == WS_OVERLAPPED | WS_CAPTION | WS_SYSMENU | WS_VISIBLE,
{
    assert(0x10C8_0000u32 == 0x0000_0000u32 | 0x00C0_0000u32 | 0x0008_0000u32 | 0x1000_0000u32)
        by (bit_vector);
}

/// In a run of the controller from the start of the process, whatever the
/// events: when the registration of the class or the creation of the window
/// fails, that step reports the failure with the platform's description,
/// the record is `Failed` from then on, and the message loop is never
/// started, neither before that step nor after it.
pub proof fn law_startup_failure_is_fatal(events: Seq<ControllerEventView>, i: int, k: int)
    requires
        0 <= i < events.len(),
        0 <= k < events.len(),
        startup_fails(state_at(machine(), initial(), events, i).phase, events[i]),
    ensures
        action_at(machine(), initial(), events, i) == ControllerActionView::FailStartup(
            failure_text(events[i]),
        ),
        !(action_at(machine(), initial(), events, k) is RunMessageLoop),
        !(state_at(machine(), initial(), events, k).phase is Looping),
        !(state_at(machine(), initial(), events, k).phase is Exited),
        k > i ==> state_at(machine(), initial(), events, k).phase is Failed,
        run(machine(), initial(), events).phase is Failed,
{
    let m = machine();
    let failed = |l: Lifecycle| l.phase is Failed;
    let started = |l: Lifecycle| l.phase is Looping || l.phase is Exited;
    lemma_state_at_next(m, initial(), events, i);
    lemma_state_at_end(m, initial(), events);
    lemma_preserved_from(m, initial(), events, failed, i + 1, events.len() as int);
    if k > i {
        lemma_preserved_from(m, initial(), events, failed, i + 1, k);
    } else if k < i {
        lemma_state_at_next(m, initial(), events, k);
        if started(state_at(m, initial(), events, k)) {
            lemma_preserved_from(m, initial(), events, started, k, i);
        }
        if started(state_at(m, initial(), events, k + 1)) {
            lemma_preserved_from(m, initial(), events, started, k + 1, i);
        }
    }
}

/// In a run of the controller from the start of the process, whatever the
/// events, the background pipeline is spawned at most once.
pub proof fn law_pipeline_is_spawned_once(events: Seq<ControllerEventView>, i: int, j: int)
    requires
        0 <= i < j < events.len(),
        action_at(machine(), initial(), events, i) is SpawnPipeline,
    ensures
        !(action_at(machine(), initial(), events, j) is SpawnPipeline),
{
    let spawned = |l: Lifecycle|
        l.phase is SpawningPipeline || l.phase is Looping || l.phase is Exited;
    lemma_state_at_next(machine(), initial(), events, i);
    assert(spawned(state_at(machine(), initial(), events, i + 1)));
    lemma_preserved_from(machine(), initial(), events, spawned, i + 1, j);
}

/// In a run of the controller from the start of the process, whatever the
/// events, the pipeline is spawned for a window only after the platform has
/// created that window. Returns the index of the step that took the creation.
pub proof fn law_pipeline_needs_window(
    events: Seq<ControllerEventView>,
    k: int,
    window: WindowHandle,
) -> (j: int)
    requires
        0 <= k < events.len(),
        action_at(machine(), initial(), events, k) == ControllerActionView::SpawnPipeline(window),
    ensures
        0 <= j < k,
        events[j] == ControllerEventView::WindowCreated(window),
        state_at(machine(), initial(), events, j).phase is CreatingWindow,
{
    let exists_window = |l: Lifecycle| l.phase == ControllerPhase::ShowingWindow(window);
    let shows = |a: ControllerActionView| a == ControllerActionView::ShowWindow(window);
    assert(exists_window(state_at(machine(), initial(), events, k)));
    lemma_established_by(machine(), initial(), events, exists_window, shows, k)
}

/// In a run of the controller from the start of the process, whatever the
/// events, the message loop is started at most once, and only after the
/// pipeline was spawned. Returns the index of the step that spawned it.
pub proof fn law_loop_follows_spawn(events: Seq<ControllerEventView>, k: int) -> (j: int)
    requires
        0 <= k < events.len(),
        action_at(machine(), initial(), events, k) is RunMessageLoop,
    ensures
        0 <= j < k,
        action_at(machine(), initial(), events, j) is SpawnPipeline,
        forall|later: int|
            k < later < events.len() ==> !(#[trigger] action_at(
                machine(),
                initial(),
                events,
                later,
            ) is RunMessageLoop),
{
    let m = machine();
    let spawning = |l: Lifecycle| l.phase is SpawningPipeline;
    let spawns = |a: ControllerActionView| a is SpawnPipeline;
    let started = |l: Lifecycle| l.phase is Looping || l.phase is Exited;
    assert(spawning(state_at(m, initial(), events, k)));
    lemma_state_at_next(m, initial(), events, k);
    assert forall|later: int| k < later < events.len() implies !(#[trigger] action_at(
        m,
        initial(),
        events,
        later,
    ) is RunMessageLoop) by {
        lemma_preserved_from(m, initial(), events, started, k + 1, later);
    }
    lemma_established_by(m, initial(), events, spawning, spawns, k)
}

/// What a notification of the pipeline does to a record whose loop has not
/// ended and whose handler has asked for no exit code: `Verified` is logged
/// and changes nothing; `Rejected` asks for the end of the loop with exit
/// code 1, and the loop then ends with 1 whatever the quit signal carries.
pub proof fn law_notification_decides(l: Lifecycle, notification: Notification, carried: i32)
    requires
        !l.phase.is_final(),
        l.handler == HandlerState::Running,
    ensures
        notification == Notification::Verified ==> transition(
            l,
            ControllerEventView::MessageDispatched(notification.spec_message_id()),
        ) == (l, ControllerActionView::Handle(PlatformAction::LogVerified)),
        notification == Notification::Rejected ==> transition(
            l,
            ControllerEventView::MessageDispatched(notification.spec_message_id()),
        ) == (
            Lifecycle { phase: l.phase, handler: HandlerState::Terminating(1) },
            ControllerActionView::Handle(PlatformAction::PostQuit(1)),
        ),
        notification == Notification::Rejected && l.phase is Looping ==> transition(
            transition(
                l,
                ControllerEventView::MessageDispatched(notification.spec_message_id()),
            ).0,
            ControllerEventView::QuitReceived(carried),
        ).1 == ControllerActionView::Exit(1),
{
}

/// In a run of the controller from the start of the process, whatever the
/// events, nothing happens after the end: from the step at which the record
/// is `Exited` or `Failed`, every event, a late notification included,
/// leaves the record as it is and asks for nothing.
pub proof fn law_nothing_after_the_end(events: Seq<ControllerEventView>, i: int, j: int)
    requires
        0 <= i <= j < events.len(),
        state_at(machine(), initial(), events, i).phase.is_final(),
    ensures
        state_at(machine(), initial(), events, j) == state_at(machine(), initial(), events, i),
        action_at(machine(), initial(), events, j) == ControllerActionView::Nothing,
        run(machine(), initial(), events) == state_at(machine(), initial(), events, i),
{
    let end = state_at(machine(), initial(), events, i);
    let same = |l: Lifecycle| l == end;
    lemma_preserved_from(machine(), initial(), events, same, i, j);
    lemma_preserved_from(machine(), initial(), events, same, i, events.len() as int);
    lemma_state_at_end(machine(), initial(), events);
}

/// In a run of the controller from the start of the process, whatever the
/// events, the exit code that the handler has asked for is 1 or 0, and it
/// tells why: 1 was asked for by a step that dispatched the notification
/// "rejected", 0 by a step that dispatched the destruction of the window.
/// Returns the index of that step.
pub proof fn law_asked_exit_code_tells_cause(
    events: Seq<ControllerEventView>,
    k: int,
    code: i32,
) -> (j: int)
    requires
        0 <= k <= events.len(),
        state_at(machine(), initial(), events, k).handler == HandlerState::Terminating(code),
    ensures
        0 <= j < k,
        handler::cause_of_exit(code) matches Some(msg) && events[j]
            == ControllerEventView::MessageDispatched(msg),
        action_at(machine(), initial(), events, j) == ControllerActionView::Handle(
            PlatformAction::PostQuit(code),
        ),
{
    let asked = |l: Lifecycle| l.handler == HandlerState::Terminating(code);
    let asks = |a: ControllerActionView|
        a == ControllerActionView::Handle(PlatformAction::PostQuit(code));
    lemma_established_by(machine(), initial(), events, asked, asks, k)
}

/// In a run of the controller from the start of the process, whatever the
/// events, the loop ends with the exit code that the handler asked for, and
/// with the code that the quit signal carried if the handler asked for none.
/// Returns the index of the step that took the quit signal.
pub proof fn law_exit_code_is_the_asked_one(
    events: Seq<ControllerEventView>,
    k: int,
    code: i32,
) -> (j: int)
    requires
        0 <= k <= events.len(),
        state_at(machine(), initial(), events, k).phase == ControllerPhase::Exited(code),
    ensures
        0 <= j < k,
        events[j] matches ControllerEventView::QuitReceived(carried) && code == exit_code(
            state_at(machine(), initial(), events, k).handler,
            carried,
        ),
        state_at(machine(), initial(), events, j).phase is Looping,
        action_at(machine(), initial(), events, j) == ControllerActionView::Exit(code),
{
    let m = machine();
    let exited = |l: Lifecycle| l.phase == ControllerPhase::Exited(code);
    let exits = |a: ControllerActionView| a == ControllerActionView::Exit(code);
    let j = lemma_established_by(m, initial(), events, exited, exits, k);
    lemma_state_at_next(m, initial(), events, j);
    let end = state_at(m, initial(), events, j + 1);
    let same = |l: Lifecycle| l == end;
    lemma_preserved_from(m, initial(), events, same, j + 1, k);
    j
}

} // verus!
