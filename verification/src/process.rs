//! A model of the whole process: the controller on the UI context, the
//! pipeline on the background context, and between them the message queue
//! of the window. Nothing here is executed; the model is what the laws
//! about the two contexts together are stated over.
//!
//! The two contexts take their steps in any order. What the model assumes
//! of the platform is written into its transition function: the queue hands
//! messages out in the order in which they were posted; the quit signal is
//! handed out when it was asked for and the queue is empty; only the
//! pipeline posts the two notifications; and what is posted after the loop
//! has ended is dropped.

use vstd::prelude::*;
use crate::controller;
use crate::controller::{
    ControllerActionView, ControllerEventView, ControllerPhase, Lifecycle,
};
use crate::handler::{HandlerState, PlatformAction, WM_REJECTED, WM_VERIFIED};
use crate::notifier::{Notification, NotifierPhase};
use crate::pipeline;
use crate::pipeline::{Pipeline, PipelineActionView, PipelineEventView};
use crate::platform::{Availability, VerificationResult};
use crate::requester::RequesterPhase;
use crate::trace::{
    action_at, lemma_established_by, lemma_invariant, lemma_preserved_from, lemma_state_at_next,
    state_at,
};

verus! {

/// The process: the lifecycle record, the pipeline once it was spawned, and
/// the messages that were posted to the window and not yet retrieved,
/// oldest first.
pub struct Process {
    pub lifecycle: Lifecycle,
    pub pipeline: Option<Pipeline>,
    pub queue: Seq<u32>,
}

/// One step of the process.
pub enum ProcessEvent {
    /// The platform reports to the UI context how a step of startup went.
    Startup(ControllerEventView),
    /// The platform reports to the background context.
    Background(PipelineEventView),
    /// The platform posts a message of its own to the window.
    Posted(u32),
    /// The message loop retrieves what is next: the oldest message, which is
    /// dispatched, or the quit signal.
    Retrieve,
}

/// What a step of the process asks of the platform.
pub enum ProcessAction {
    /// The UI context is asked for this.
    Ui(ControllerActionView),
    /// The background context is asked for this.
    Worker(PipelineActionView),
    /// Nothing is asked for.
    Nothing,
}

/// True for the identifiers of the two notifications.
pub open spec fn is_notification(msg: u32) -> bool {
    msg == WM_VERIFIED || msg == WM_REJECTED
}

/// True in the phases in which the window exists and its loop has not ended.
pub open spec fn window_exists(phase: ControllerPhase) -> bool {
    phase is ShowingWindow || phase is SpawningPipeline || phase is Looping
}

/// The queue after the pipeline has performed `action`: a notification is
/// appended, unless the loop has ended, in which case it is dropped.
pub open spec fn queue_after(
    queue: Seq<u32>,
    phase: ControllerPhase,
    action: PipelineActionView,
) -> Seq<u32> {
    match action {
        PipelineActionView::Post { notification, .. } => if phase.is_final() {
            queue
        } else {
            queue.push(notification.spec_message_id())
        },
        _ => queue,
    }
}

/// The transition function of the process.
pub open spec fn transition(p: Process, event: ProcessEvent) -> (Process, ProcessAction) {
    match event {
        ProcessEvent::Startup(e) => {
            if e is MessageDispatched || e is QuitReceived {
                (p, ProcessAction::Nothing)
            } else {
                let (lifecycle, action) = controller::transition(p.lifecycle, e);
                let pipeline = match action {
                    ControllerActionView::SpawnPipeline(window) => Some(pipeline::initial(window)),
                    _ => p.pipeline,
                };
                (Process { lifecycle, pipeline, queue: p.queue }, ProcessAction::Ui(action))
            }
        },
        ProcessEvent::Background(e) => match p.pipeline {
            None => (p, ProcessAction::Nothing),
            Some(running) => {
                let (pipeline, action) = pipeline::transition(running, e);
                (
                    Process {
                        lifecycle: p.lifecycle,
                        pipeline: Some(pipeline),
                        queue: queue_after(p.queue, p.lifecycle.phase, action),
                    },
                    ProcessAction::Worker(action),
                )
            },
        },
        ProcessEvent::Posted(msg) => {
            if window_exists(p.lifecycle.phase) && !is_notification(msg) {
                (
                    Process {
                        lifecycle: p.lifecycle,
                        pipeline: p.pipeline,
                        queue: p.queue.push(msg),
                    },
                    ProcessAction::Nothing,
                )
            } else {
                (p, ProcessAction::Nothing)
            }
        },
        ProcessEvent::Retrieve => {
            if !(p.lifecycle.phase is Looping) {
                (p, ProcessAction::Nothing)
            } else if p.queue.len() > 0 {
                let (lifecycle, action) = controller::transition(
                    p.lifecycle,
                    ControllerEventView::MessageDispatched(p.queue.first()),
                );
                (
                    Process { lifecycle, pipeline: p.pipeline, queue: p.queue.drop_first() },
                    ProcessAction::Ui(action),
                )
            } else {
                match p.lifecycle.handler {
                    HandlerState::Running => (p, ProcessAction::Nothing),
                    HandlerState::Terminating(code) => {
                        let (lifecycle, action) = controller::transition(
                            p.lifecycle,
                            ControllerEventView::QuitReceived(code),
                        );
                        (
                            Process { lifecycle, pipeline: p.pipeline, queue: p.queue },
                            ProcessAction::Ui(action),
                        )
                    },
                }
            }
        },
    }
}

/// The process as a machine that runs over a sequence of events.
pub open spec fn machine() -> spec_fn(Process, ProcessEvent) -> (Process, ProcessAction) {
    |p: Process, event: ProcessEvent| transition(p, event)
}

/// The process that has just started.
pub open spec fn initial() -> Process {
    Process { lifecycle: controller::initial(), pipeline: None, queue: Seq::empty() }
}

/// True when the action is the post of the given notification by the pipeline.
pub open spec fn posts(action: ProcessAction, notification: Notification) -> bool {
    action matches ProcessAction::Worker(PipelineActionView::Post { notification: n, .. }) && n
        == notification
}

/// True when the action is the dialog that the pipeline shows for a failure.
pub open spec fn shows_dialog(action: ProcessAction) -> bool {
    action matches ProcessAction::Worker(PipelineActionView::ShowErrorDialog { .. })
}

impl Process {
    /// What holds of every state of a run: the pipeline exists exactly from
    /// the phase in which it is spawned, it is well formed and works for
    /// the window that was created, and nothing waits in the queue of a
    /// window that does not exist yet.
    pub open spec fn wf(self) -> bool {
        &&& self.pipeline is None <==> (self.lifecycle.phase is Initial || self.lifecycle.phase
            is RegisteringClass || self.lifecycle.phase is CreatingWindow
            || self.lifecycle.phase is ShowingWindow || self.lifecycle.phase is Failed)
        &&& self.pipeline matches Some(pipeline) ==> pipeline.wf()
        &&& self.pipeline matches Some(pipeline) ==> (match self.lifecycle.phase {
            ControllerPhase::SpawningPipeline(window) => pipeline.requester.window == window,
            ControllerPhase::Looping(window) => pipeline.requester.window == window,
            _ => true,
        })
        &&& (self.lifecycle.phase is Initial || self.lifecycle.phase is RegisteringClass
            || self.lifecycle.phase is CreatingWindow || self.lifecycle.phase is Failed)
            ==> self.queue.len() == 0
    }
}

/// Every state of a run of the process from its start is well formed.
pub proof fn law_runs_stay_well_formed(events: Seq<ProcessEvent>, k: int)
    requires
        0 <= k <= events.len(),
    ensures
        state_at(machine(), initial(), events, k).wf(),
{
    let holds = |p: Process| p.wf();
    assert forall|p: Process, e: ProcessEvent| holds(p) implies holds(
        #[trigger] machine()(p, e).0,
    ) by {
        lemma_step_keeps_well_formed(p, e);
    }
    lemma_invariant(machine(), initial(), events, holds, k);
}

proof fn lemma_step_keeps_well_formed(p: Process, e: ProcessEvent)
    requires
        p.wf(),
    ensures
        transition(p, e).0.wf(),
{
}

/// A message is in the queue after a step only if it was there before, or
/// if the step posted it: the pipeline one of its notifications, the
/// platform any other message.
proof fn lemma_step_fills_queue(p: Process, e: ProcessEvent, msg: u32)
    requires
        transition(p, e).0.queue.contains(msg),
        !p.queue.contains(msg),
    ensures
        is_notification(msg) ==> exists|n: Notification|
            posts(transition(p, e).1, n) && n.spec_message_id() == msg,
        !is_notification(msg) ==> e == ProcessEvent::Posted(msg),
{
    let after = transition(p, e).0.queue;
    let i = choose|i: int| 0 <= i < after.len() && after[i] == msg;
    match e {
        ProcessEvent::Startup(_) => {},
        ProcessEvent::Background(_) => {
            match transition(p, e).1 {
                ProcessAction::Worker(PipelineActionView::Post { notification, .. }) => {
                    if i < p.queue.len() {
                        assert(p.queue[i] == msg);
                    }
                    assert(posts(transition(p, e).1, notification));
                    assert(notification.spec_message_id() == msg);
                },
                _ => {},
            }
        },
        ProcessEvent::Posted(posted) => {
            if after != p.queue {
                if i < p.queue.len() {
                    assert(p.queue[i] == msg);
                }
            }
        },
        ProcessEvent::Retrieve => {
            if after != p.queue {
                assert(p.queue[i + 1] == msg);
            }
        },
    }
}

/// In a run of the process from its start, whatever the order of the steps:
/// a notification is dispatched only after the pipeline has posted it.
/// Returns the index of the step that posted it.
pub proof fn law_dispatch_follows_post(
    events: Seq<ProcessEvent>,
    k: int,
    notification: Notification,
) -> (j: int)
    requires
        0 <= k <= events.len(),
        state_at(machine(), initial(), events, k).queue.contains(notification.spec_message_id()),
    ensures
        0 <= j < k,
        posts(action_at(machine(), initial(), events, j), notification),
{
    let msg = notification.spec_message_id();
    let queued = |p: Process| p.queue.contains(msg);
    let posted = |a: ProcessAction| posts(a, notification);
    assert forall|p: Process, e: ProcessEvent|
        !queued(p) && queued(#[trigger] machine()(p, e).0) implies posted(machine()(p, e).1) by {
        lemma_step_fills_queue(p, e, msg);
    }
    lemma_established_by(machine(), initial(), events, queued, posted, k)
}

/// In a run of the process from its start, whatever the order of the steps:
/// the loop ends with exit code 1 only after the pipeline has shown the
/// error dialog, the user has dismissed it, and the pipeline has then posted
/// the rejection. Returns the indices of the step that showed the dialog and
/// of the step that took its dismissal.
pub proof fn law_rejection_exit_follows_dialog(events: Seq<ProcessEvent>, k: int) -> (r: (
    int,
    int,
))
    requires
        0 <= k < events.len(),
        action_at(machine(), initial(), events, k) == ProcessAction::Ui(
            ControllerActionView::Exit(1),
        ),
    ensures
        0 <= r.0 < r.1 < k,
        shows_dialog(action_at(machine(), initial(), events, r.0)),
        events[r.1] == ProcessEvent::Background(PipelineEventView::DialogDismissed),
        posts(action_at(machine(), initial(), events, r.1), Notification::Rejected),
{
    let m = machine();
    let asked = |p: Process| p.lifecycle.handler == HandlerState::Terminating(1);
    let asks = |a: ProcessAction|
        a == ProcessAction::Ui(ControllerActionView::Handle(PlatformAction::PostQuit(1)));
    assert(asked(state_at(m, initial(), events, k)));
    let dispatched = lemma_established_by(m, initial(), events, asked, asks, k);
    let before = state_at(m, initial(), events, dispatched);
    assert(before.queue.len() > 0 && before.queue[0] == WM_REJECTED);
    let dismissed = law_dispatch_follows_post(events, dispatched, Notification::Rejected);
    let open = |p: Process|
        p.pipeline matches Some(pipeline) && pipeline.notifier.phase == NotifierPhase::DialogOpen;
    let shows = |a: ProcessAction| shows_dialog(a);
    assert(open(state_at(m, initial(), events, dismissed)));
    let shown = lemma_established_by(m, initial(), events, open, shows, dismissed);
    (shown, dismissed)
}

/// In a run of the process from its start, whatever the order of the steps:
/// a verification is logged only after the verifier was reported available
/// and has answered "verified". Returns the indices of the steps that took
/// the report and the answer.
pub proof fn law_verified_log_follows_verifier(events: Seq<ProcessEvent>, k: int) -> (r: (
    int,
    int,
))
    requires
        0 <= k < events.len(),
        action_at(machine(), initial(), events, k) == ProcessAction::Ui(
            ControllerActionView::Handle(PlatformAction::LogVerified),
        ),
    ensures
        0 <= r.0 < r.1 < k,
        events[r.0] == ProcessEvent::Background(
            PipelineEventView::AvailabilityReported(Availability::Available),
        ),
        events[r.1] == ProcessEvent::Background(
            PipelineEventView::VerificationReported(VerificationResult::Verified),
        ),
        posts(action_at(machine(), initial(), events, r.1), Notification::Verified),
{
    let m = machine();
    let before = state_at(m, initial(), events, k);
    assert(before.queue.len() > 0 && before.queue[0] == WM_VERIFIED);
    let answered = law_dispatch_follows_post(events, k, Notification::Verified);
    law_runs_stay_well_formed(events, answered);
    let asked = |p: Process|
        p.pipeline matches Some(pipeline) && pipeline.requester.phase
            == RequesterPhase::RequestingVerification;
    let asks = |a: ProcessAction|
        a matches ProcessAction::Worker(PipelineActionView::RequestVerification { .. });
    assert(asked(state_at(m, initial(), events, answered)));
    let reported = lemma_established_by(m, initial(), events, asked, asks, answered);
    (reported, answered)
}

/// In a run of the process from its start, whatever the order of the steps:
/// the verifier is queried at most once. The pipeline is spawned once and
/// runs once.
pub proof fn law_verifier_is_queried_once(events: Seq<ProcessEvent>, i: int, j: int)
    requires
        0 <= i < j < events.len(),
        action_at(machine(), initial(), events, i) == ProcessAction::Worker(
            PipelineActionView::CheckAvailability,
        ),
    ensures
        action_at(machine(), initial(), events, j) != ProcessAction::Worker(
            PipelineActionView::CheckAvailability,
        ),
        !(action_at(machine(), initial(), events, j) matches ProcessAction::Ui(
            ControllerActionView::SpawnPipeline(_),
        )),
{
    let m = machine();
    let begun = |p: Process|
        p.wf() && (p.pipeline matches Some(pipeline) && pipeline.requester.phase
            != RequesterPhase::Idle);
    law_runs_stay_well_formed(events, i);
    law_runs_stay_well_formed(events, i + 1);
    lemma_state_at_next(m, initial(), events, i);
    assert(begun(state_at(m, initial(), events, i + 1)));
    assert forall|p: Process, e: ProcessEvent| begun(p) implies begun(#[trigger] m(p, e).0) by {
        lemma_step_keeps_well_formed(p, e);
    }
    lemma_preserved_from(m, initial(), events, begun, i + 1, j);
}

/// In a run of the process from its start, whatever the order of the steps:
/// the pipeline makes one outcome known, once. After the step that posts a
/// notification, the background context is asked for nothing more.
pub proof fn law_one_notification_per_run(events: Seq<ProcessEvent>, i: int, j: int)
    requires
        0 <= i < j < events.len(),
        action_at(machine(), initial(), events, i) matches ProcessAction::Worker(
            PipelineActionView::Post { .. },
        ),
    ensures
        action_at(machine(), initial(), events, j) matches ProcessAction::Worker(a) ==> a
            == PipelineActionView::Nothing,
        !(action_at(machine(), initial(), events, j) matches ProcessAction::Ui(
            ControllerActionView::SpawnPipeline(_),
        )),
{
    let m = machine();
    let over = |p: Process|
        p.wf() && (p.pipeline matches Some(pipeline) && pipeline.notifier.phase
            == NotifierPhase::Delivered);
    law_runs_stay_well_formed(events, i);
    law_runs_stay_well_formed(events, i + 1);
    lemma_state_at_next(m, initial(), events, i);
    assert(over(state_at(m, initial(), events, i + 1)));
    assert forall|p: Process, e: ProcessEvent| over(p) implies over(#[trigger] m(p, e).0) by {
        lemma_step_keeps_well_formed(p, e);
    }
    lemma_preserved_from(m, initial(), events, over, i + 1, j);
}

/// In a run of the process from its start, whatever the order of the steps:
/// once the loop has ended, the lifecycle record and the queue stay as they
/// are. What the pipeline posts from then on is dropped, and no step asks
/// anything of the UI context.
pub proof fn law_nothing_reaches_an_ended_loop(events: Seq<ProcessEvent>, i: int, j: int)
    requires
        0 <= i <= j < events.len(),
        state_at(machine(), initial(), events, i).lifecycle.phase is Exited,
    ensures
        state_at(machine(), initial(), events, j).lifecycle == state_at(
            machine(),
            initial(),
            events,
            i,
        ).lifecycle,
        state_at(machine(), initial(), events, j + 1).queue == state_at(
            machine(),
            initial(),
            events,
            i,
        ).queue,
        action_at(machine(), initial(), events, j) matches ProcessAction::Ui(a) ==> a
            == ControllerActionView::Nothing,
{
    let m = machine();
    let end = state_at(m, initial(), events, i);
    let same = |p: Process| p.lifecycle == end.lifecycle && p.queue == end.queue;
    lemma_preserved_from(m, initial(), events, same, i, j);
    lemma_preserved_from(m, initial(), events, same, i, j + 1);
}

/// In a run of the process from its start, whatever the order of the steps:
/// the loop ends with exit code 1 or 0, and only after the handler was
/// handed the message that asks for that code: the notification "rejected"
/// for 1, the destruction of the window for 0. Returns the index of the
/// step that dispatched that message.
pub proof fn law_exit_code_tells_cause(events: Seq<ProcessEvent>, k: int, code: i32) -> (j: int)
    requires
        0 <= k < events.len(),
        action_at(machine(), initial(), events, k) == ProcessAction::Ui(
            ControllerActionView::Exit(code),
        ),
    ensures
        code == 0 || code == 1,
        0 <= j < k,
        events[j] == ProcessEvent::Retrieve,
        state_at(machine(), initial(), events, j).queue.len() > 0,
        crate::handler::cause_of_exit(code) == Some(
            state_at(machine(), initial(), events, j).queue.first(),
        ),
{
    let m = machine();
    let asked = |p: Process| p.lifecycle.handler == HandlerState::Terminating(code);
    let asks = |a: ProcessAction|
        a == ProcessAction::Ui(ControllerActionView::Handle(PlatformAction::PostQuit(code)));
    assert(asked(state_at(m, initial(), events, k)));
    lemma_established_by(m, initial(), events, asked, asks, k)
}

/// In a run of the process from its start, whatever the order of the steps:
/// when the registration of the class or the creation of the window fails,
/// no pipeline is ever spawned, the background context is never asked for
/// anything, and the message loop never runs.
pub proof fn law_failed_startup_starts_nothing(events: Seq<ProcessEvent>, i: int, k: int)
    requires
        0 <= i < events.len(),
        0 <= k < events.len(),
        events[i] matches ProcessEvent::Startup(e) && controller::startup_fails(
            state_at(machine(), initial(), events, i).lifecycle.phase,
            e,
        ),
    ensures
        state_at(machine(), initial(), events, k).pipeline is None,
        !(action_at(machine(), initial(), events, k) is Worker),
        !(action_at(machine(), initial(), events, k) matches ProcessAction::Ui(
            ControllerActionView::SpawnPipeline(_),
        )),
        action_at(machine(), initial(), events, k) != ProcessAction::Ui(
            ControllerActionView::RunMessageLoop,
        ),
        !(action_at(machine(), initial(), events, k) matches ProcessAction::Ui(
            ControllerActionView::Exit(_),
        )),
{
    let m = machine();
    let failed = |p: Process| p.lifecycle.phase is Failed;
    let spawned = |p: Process|
        p.lifecycle.phase is SpawningPipeline || p.lifecycle.phase is Looping
            || p.lifecycle.phase is Exited;
    law_runs_stay_well_formed(events, k);
    law_runs_stay_well_formed(events, k + 1);
    lemma_state_at_next(m, initial(), events, i);
    lemma_state_at_next(m, initial(), events, k);
    if k > i {
        lemma_preserved_from(m, initial(), events, failed, i + 1, k);
    } else {
        if spawned(state_at(m, initial(), events, k)) {
            lemma_preserved_from(m, initial(), events, spawned, k, i);
        }
        if k < i && spawned(state_at(m, initial(), events, k + 1)) {
            lemma_preserved_from(m, initial(), events, spawned, k + 1, i);
        }
    }
}

} // verus!
