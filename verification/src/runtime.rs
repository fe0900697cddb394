//! The decisions of the overlay's frame loop.
//!
//! The runner creates the window, then alternates between draining the message queue
//! and drawing one frame. Each outcome it observes is an [`LoopEvent`]; [`step`] says
//! which phase the loop is in next and which work the runner does now.
use vstd::prelude::*;

verus! {

/// Where the frame loop stands.
#[derive(PartialEq, Eq, Structural, Clone, Copy, Debug)]
pub enum Phase {
    /// The window and the GPU context are being created.
    Starting,
    /// Messages are being taken from the queue.
    Pumping,
    /// A frame was started and its surface texture requested.
    Acquiring,
    /// The frame was rendered and presented and its composition committed.
    Presenting,
    /// The loop ended after a quit message; the application was shut down.
    Finished,
    /// The loop ended with an error.
    Failed,
}

/// An outcome that the runner observed.
#[derive(PartialEq, Eq, Structural, Clone, Copy, Debug)]
pub enum LoopEvent {
    /// The window and GPU context exist.
    ContextCreated,
    /// The window or GPU context could not be created.
    ContextFailed,
    /// A message was taken from the queue; `quit` tells whether it is the quit message.
    MessageReceived { quit: bool },
    /// The message queue is empty.
    QueueEmpty,
    /// The surface handed out a texture for the frame.
    TextureAcquired,
    /// The surface handed out no usable texture.
    TextureUnavailable,
    /// The composition device committed the frame.
    Committed,
    /// The composition device refused to commit.
    CommitFailed,
}

/// Why the loop ended with an error.
#[derive(PartialEq, Eq, Structural, Clone, Copy, Debug)]
pub enum RunError {
    /// The window or GPU context could not be created.
    WindowInit,
    /// The surface handed out no usable texture.
    SurfaceTexture,
    /// The composition device refused to commit.
    Commit,
}

/// The work that the runner does in response to an event.
#[derive(PartialEq, Eq, Structural, Clone, Copy, Debug)]
pub enum LoopAction {
    /// Register the event handler, install the input hooks, initialize and first
    /// update the application, and show the window.
    Launch,
    /// Translate and dispatch the message just taken.
    Dispatch,
    /// Update the application with the time since the previous frame and request the
    /// surface texture.
    BeginFrame,
    /// Render the application onto the texture, present it and commit the composition.
    Present,
    /// Take the next message from the queue.
    Poll,
    /// Remove the input hooks, shut the application down and end the loop with success.
    Shutdown,
    /// End the loop with this error, without shutting the application down.
    Fail(RunError),
    /// Nothing: the event has no meaning in this phase.
    Ignore,
}

/// One piece of the work that the runner does, in the order an action lists them.
#[derive(PartialEq, Eq, Structural, Clone, Copy, Debug)]
pub enum Task {
    /// Register the application as the receiver of the hooks' events.
    RegisterHandler,
    /// Install the keyboard and mouse hooks.
    InstallHooks,
    /// Initialize the application.
    InitApp,
    /// Update the application once with a time step of zero.
    FirstUpdate,
    /// Show the overlay window.
    ShowWindow,
    /// Translate the message just taken (virtual keys into characters).
    TranslateMessage,
    /// Hand the message just taken to its window procedure.
    DispatchMessage,
    /// Take the next message from the queue, if one waits.
    PollMessage,
    /// Update the application with the time since the previous frame.
    UpdateApp,
    /// Request the surface texture for the frame.
    AcquireTexture,
    /// Let the application render onto the frame's canvas.
    RenderApp,
    /// Present the frame's texture.
    PresentFrame,
    /// Commit the composition.
    CommitFrame,
    /// Remove the keyboard and mouse hooks.
    RemoveHooks,
    /// Shut the application down.
    ShutdownApp,
}

/// The tasks that an action stands for, in the order the runner performs them.
pub open spec fn tasks_of(action: LoopAction) -> Seq<Task> {
    match action {
        LoopAction::Launch => seq![
            Task::RegisterHandler,
            Task::InstallHooks,
            Task::InitApp,
            Task::FirstUpdate,
            Task::ShowWindow,
            Task::PollMessage,
        ],
        LoopAction::Dispatch => seq![Task::TranslateMessage, Task::DispatchMessage, Task::PollMessage],
        LoopAction::BeginFrame => seq![Task::UpdateApp, Task::AcquireTexture],
        LoopAction::Present => seq![Task::RenderApp, Task::PresentFrame, Task::CommitFrame],
        LoopAction::Poll => seq![Task::PollMessage],
        LoopAction::Shutdown => seq![Task::RemoveHooks, Task::ShutdownApp],
        LoopAction::Fail(_) => seq![],
        LoopAction::Ignore => seq![],
    }
}

/// The tasks that an action stands for, in the order the runner performs them.
pub fn tasks(action: LoopAction) -> (list: Vec<Task>)
    ensures
        list@ == tasks_of(action),
{
    let mut list: Vec<Task> = Vec::new();
    match action {
        LoopAction::Launch => {
            list.push(Task::RegisterHandler);
            list.push(Task::InstallHooks);
            list.push(Task::InitApp);
            list.push(Task::FirstUpdate);
            list.push(Task::ShowWindow);
            list.push(Task::PollMessage);
        },
        LoopAction::Dispatch => {
            list.push(Task::TranslateMessage);
            list.push(Task::DispatchMessage);
            list.push(Task::PollMessage);
        },
        LoopAction::BeginFrame => {
            list.push(Task::UpdateApp);
            list.push(Task::AcquireTexture);
        },
        LoopAction::Present => {
            list.push(Task::RenderApp);
            list.push(Task::PresentFrame);
            list.push(Task::CommitFrame);
        },
        LoopAction::Poll => {
            list.push(Task::PollMessage);
        },
        LoopAction::Shutdown => {
            list.push(Task::RemoveHooks);
            list.push(Task::ShutdownApp);
        },
        LoopAction::Fail(_) | LoopAction::Ignore => {},
    }
    assert(list@ =~= tasks_of(action));
    list
}

/// One decision of the loop: the next phase and the work to do now.
#[derive(PartialEq, Eq, Structural, Clone, Copy, Debug)]
pub struct Step {
    /// The phase after the event.
    pub next: Phase,
    /// The work to do now.
    pub action: LoopAction,
}

/// The loop's decision for an event in a phase.
pub open spec fn step_of(phase: Phase, event: LoopEvent) -> Step {
    match (phase, event) {
        (Phase::Starting, LoopEvent::ContextCreated) => Step { next: Phase::Pumping, action: LoopAction::Launch },
        (Phase::Starting, LoopEvent::ContextFailed) => Step {
            next: Phase::Failed,
            action: LoopAction::Fail(RunError::WindowInit),
        },
        (Phase::Pumping, LoopEvent::MessageReceived { quit }) => if quit {
            Step { next: Phase::Finished, action: LoopAction::Shutdown }
        } else {
            Step { next: Phase::Pumping, action: LoopAction::Dispatch }
        },
        (Phase::Pumping, LoopEvent::QueueEmpty) => Step { next: Phase::Acquiring, action: LoopAction::BeginFrame },
        (Phase::Acquiring, LoopEvent::TextureAcquired) => Step { next: Phase::Presenting, action: LoopAction::Present },
        (Phase::Acquiring, LoopEvent::TextureUnavailable) => Step {
            next: Phase::Failed,
            action: LoopAction::Fail(RunError::SurfaceTexture),
        },
        (Phase::Presenting, LoopEvent::Committed) => Step { next: Phase::Pumping, action: LoopAction::Poll },
        (Phase::Presenting, LoopEvent::CommitFailed) => Step {
            next: Phase::Failed,
            action: LoopAction::Fail(RunError::Commit),
        },
        _ => Step { next: phase, action: LoopAction::Ignore },
    }
}

/// The loop has ended.
pub open spec fn is_over(phase: Phase) -> bool {
    phase == Phase::Finished || phase == Phase::Failed
}

/// The loop's decision for an event in a phase.
pub fn step(phase: Phase, event: LoopEvent) -> (s: Step)
    ensures
        s == step_of(phase, event),
{
    match (phase, event) {
        (Phase::Starting, LoopEvent::ContextCreated) => Step { next: Phase::Pumping, action: LoopAction::Launch },
        (Phase::Starting, LoopEvent::ContextFailed) => Step {
            next: Phase::Failed,
            action: LoopAction::Fail(RunError::WindowInit),
        },
        (Phase::Pumping, LoopEvent::MessageReceived { quit }) => if quit {
            Step { next: Phase::Finished, action: LoopAction::Shutdown }
        } else {
            Step { next: Phase::Pumping, action: LoopAction::Dispatch }
        },
        (Phase::Pumping, LoopEvent::QueueEmpty) => Step { next: Phase::Acquiring, action: LoopAction::BeginFrame },
        (Phase::Acquiring, LoopEvent::TextureAcquired) => Step { next: Phase::Presenting, action: LoopAction::Present },
        (Phase::Acquiring, LoopEvent::TextureUnavailable) => Step {
            next: Phase::Failed,
            action: LoopAction::Fail(RunError::SurfaceTexture),
        },
        (Phase::Presenting, LoopEvent::Committed) => Step { next: Phase::Pumping, action: LoopAction::Poll },
        (Phase::Presenting, LoopEvent::CommitFailed) => Step {
            next: Phase::Failed,
            action: LoopAction::Fail(RunError::Commit),
        },
        _ => Step { next: phase, action: LoopAction::Ignore },
    }
}

impl RunError {
    /// The text that the loop reports for this error.
    pub fn message(&self) -> (text: &'static str)
        ensures
            *self == RunError::WindowInit ==> text@ == "window initialization failed"@,
            *self == RunError::SurfaceTexture ==> text@ == "Failed to get texture"@,
            *self == RunError::Commit ==> text@ == "Failed to commit comp device"@,
    {
        match self {
            RunError::WindowInit => "window initialization failed",
            RunError::SurfaceTexture => "Failed to get texture",
            RunError::Commit => "Failed to commit comp device",
        }
    }
}

/// Once the loop has ended it stays ended, and no event makes it do any more work.
pub proof fn lemma_end_is_final(phase: Phase, event: LoopEvent)
    requires
        is_over(phase),
    ensures
        step_of(phase, event) == (Step { next: phase, action: LoopAction::Ignore }),
{
}

/// The application is shut down exactly when the quit message is taken from the
/// queue, and that ends the loop with success; an error ends the loop without a
/// shutdown.
pub proof fn lemma_shutdown_only_on_quit(phase: Phase, event: LoopEvent)
    ensures
        step_of(phase, event).action == LoopAction::Shutdown <==> (phase == Phase::Pumping
            && event == (LoopEvent::MessageReceived { quit: true })),
        step_of(phase, event).action == LoopAction::Shutdown ==> step_of(phase, event).next == Phase::Finished,
        step_of(phase, event).action is Fail <==> (!is_over(phase) && step_of(phase, event).next == Phase::Failed),
{
}

/// A frame is rendered and presented only once its texture was acquired, and the
/// next frame begins only after the message queue was found empty.
pub proof fn lemma_frame_order(phase: Phase, event: LoopEvent)
    ensures
        step_of(phase, event).action == LoopAction::Present <==> (phase == Phase::Acquiring
            && event == LoopEvent::TextureAcquired),
        step_of(phase, event).action == LoopAction::BeginFrame <==> (phase == Phase::Pumping
            && event == LoopEvent::QueueEmpty),
{
}

/// The phase after the first `n` events of a run that begins in `Starting`.
pub open spec fn phase_after(events: Seq<LoopEvent>, n: int) -> Phase
    decreases n,
{
    if n <= 0 {
        Phase::Starting
    } else {
        step_of(phase_after(events, n - 1), events[n - 1]).next
    }
}

/// The work done in response to the `i`-th event of a run that begins in `Starting`.
pub open spec fn action_at(events: Seq<LoopEvent>, i: int) -> LoopAction {
    step_of(phase_after(events, i), events[i]).action
}

/// Work that touches the launched application: dispatching messages, frames, polling
/// and shutting down.
pub open spec fn needs_launch(action: LoopAction) -> bool {
    action == LoopAction::Dispatch || action == LoopAction::BeginFrame || action == LoopAction::Present
        || action == LoopAction::Poll || action == LoopAction::Shutdown
}

/// Some of the first `n` events of the run launched the application.
pub open spec fn launched_before(events: Seq<LoopEvent>, n: int) -> bool {
    exists|i: int| 0 <= i < n && #[trigger] action_at(events, i) == LoopAction::Launch
}

/// The run is still starting exactly while nothing launched; once it is in the
/// loop (or finished) something launched.
proof fn lemma_phase_tracks_launch(events: Seq<LoopEvent>, n: int)
    requires
        0 <= n <= events.len(),
    ensures
        phase_after(events, n) == Phase::Starting ==> !launched_before(events, n),
        (phase_after(events, n) == Phase::Pumping || phase_after(events, n) == Phase::Acquiring
            || phase_after(events, n) == Phase::Presenting || phase_after(events, n) == Phase::Finished)
            ==> launched_before(events, n),
    decreases n,
{
    if n > 0 {
        lemma_phase_tracks_launch(events, n - 1);
        let p = phase_after(events, n - 1);
        assert(phase_after(events, n) == step_of(p, events[n - 1]).next);
        if action_at(events, n - 1) == LoopAction::Launch {
            assert(launched_before(events, n));
        }
        if launched_before(events, n - 1) {
            let i = choose|i: int| 0 <= i < n - 1 && #[trigger] action_at(events, i) == LoopAction::Launch;
            assert(0 <= i < n && action_at(events, i) == LoopAction::Launch);
        }
        if phase_after(events, n) == Phase::Starting {
            assert(p == Phase::Starting);
            assert(action_at(events, n - 1) != LoopAction::Launch);
            assert forall|i: int| 0 <= i < n implies #[trigger] action_at(events, i) != LoopAction::Launch by {
                if i < n - 1 {
                    assert(!launched_before(events, n - 1));
                }
            }
        }
    }
}

/// Over any run, the application is launched at most once, and nothing that
/// touches it (messages, frames, shutdown) happens before it was launched.
pub proof fn lemma_launch_once_and_first(events: Seq<LoopEvent>, j: int)
    requires
        0 <= j < events.len(),
    ensures
        action_at(events, j) == LoopAction::Launch ==> forall|i: int|
            0 <= i < j ==> #[trigger] action_at(events, i) != LoopAction::Launch,
        needs_launch(action_at(events, j)) ==> exists|i: int|
            0 <= i < j && #[trigger] action_at(events, i) == LoopAction::Launch,
{
    lemma_phase_tracks_launch(events, j);
    let p = phase_after(events, j);
    if action_at(events, j) == LoopAction::Launch {
        assert(p == Phase::Starting);
    }
    if needs_launch(action_at(events, j)) {
        assert(p == Phase::Pumping || p == Phase::Acquiring || p == Phase::Presenting);
    }
}

/// Inside each action the application is called in a fixed order: it is
/// initialized, then updated with a zero time step, then the window is shown; a
/// frame updates the application before the frame's texture is requested, and
/// renders before presenting and committing; the hooks are removed before the
/// application is shut down, and nothing follows the shutdown.
pub proof fn lemma_task_order(action: LoopAction)
    ensures
        tasks_of(action).contains(Task::InitApp) ==> tasks_of(action).index_of(Task::InitApp)
            < tasks_of(action).index_of(Task::FirstUpdate)
            < tasks_of(action).index_of(Task::ShowWindow),
        tasks_of(action).contains(Task::UpdateApp) ==> tasks_of(action).index_of(Task::UpdateApp)
            < tasks_of(action).index_of(Task::AcquireTexture),
        tasks_of(action).contains(Task::RenderApp) ==> tasks_of(action).index_of(Task::RenderApp)
            < tasks_of(action).index_of(Task::PresentFrame)
            < tasks_of(action).index_of(Task::CommitFrame),
        tasks_of(action).contains(Task::ShutdownApp) ==> tasks_of(action).index_of(Task::RemoveHooks)
            < tasks_of(action).index_of(Task::ShutdownApp)
            && tasks_of(action).last() == Task::ShutdownApp,
        tasks_of(action).contains(Task::InitApp) <==> action == LoopAction::Launch,
        tasks_of(action).contains(Task::ShutdownApp) <==> action == LoopAction::Shutdown,
{
    let t = tasks_of(action);
    match action {
        LoopAction::Launch => {
            assert(t[2] == Task::InitApp && t[3] == Task::FirstUpdate && t[4] == Task::ShowWindow);
            assert(t.index_of(Task::InitApp) == 2);
            assert(t.index_of(Task::FirstUpdate) == 3);
            assert(t.index_of(Task::ShowWindow) == 4);
            assert(!t.contains(Task::UpdateApp));
            assert(!t.contains(Task::RenderApp));
            assert(!t.contains(Task::ShutdownApp));
        },
        LoopAction::BeginFrame => {
            assert(t[0] == Task::UpdateApp && t[1] == Task::AcquireTexture);
            assert(t.index_of(Task::UpdateApp) == 0);
            assert(t.index_of(Task::AcquireTexture) == 1);
            assert(!t.contains(Task::InitApp));
            assert(!t.contains(Task::RenderApp));
            assert(!t.contains(Task::ShutdownApp));
        },
        LoopAction::Present => {
            assert(t[0] == Task::RenderApp && t[1] == Task::PresentFrame && t[2] == Task::CommitFrame);
            assert(t.index_of(Task::RenderApp) == 0);
            assert(t.index_of(Task::PresentFrame) == 1);
            assert(t.index_of(Task::CommitFrame) == 2);
            assert(!t.contains(Task::InitApp));
            assert(!t.contains(Task::UpdateApp));
            assert(!t.contains(Task::ShutdownApp));
        },
        LoopAction::Shutdown => {
            assert(t[0] == Task::RemoveHooks && t[1] == Task::ShutdownApp);
            assert(t.index_of(Task::RemoveHooks) == 0);
            assert(t.index_of(Task::ShutdownApp) == 1);
            assert(!t.contains(Task::InitApp));
            assert(!t.contains(Task::UpdateApp));
            assert(!t.contains(Task::RenderApp));
        },
        LoopAction::Dispatch => {
            assert(!t.contains(Task::InitApp));
            assert(!t.contains(Task::UpdateApp));
            assert(!t.contains(Task::RenderApp));
            assert(!t.contains(Task::ShutdownApp));
        },
        LoopAction::Poll => {
            assert(!t.contains(Task::InitApp));
            assert(!t.contains(Task::UpdateApp));
            assert(!t.contains(Task::RenderApp));
            assert(!t.contains(Task::ShutdownApp));
        },
        _ => {
            assert(t.len() == 0);
            assert(!t.contains(Task::InitApp));
            assert(!t.contains(Task::UpdateApp));
            assert(!t.contains(Task::RenderApp));
            assert(!t.contains(Task::ShutdownApp));
        },
    }
}

/// Over any run, the application is initialized at most once, and it is updated,
/// rendered or shut down only in a later step than the one that initialized it;
/// once it was shut down nothing more is done.
pub proof fn lemma_init_once_and_first(events: Seq<LoopEvent>, j: int)
    requires
        0 <= j < events.len(),
    ensures
        tasks_of(action_at(events, j)).contains(Task::InitApp) ==> forall|i: int|
            0 <= i < j ==> !#[trigger] tasks_of(action_at(events, i)).contains(Task::InitApp),
        (tasks_of(action_at(events, j)).contains(Task::UpdateApp)
            || tasks_of(action_at(events, j)).contains(Task::RenderApp)
            || tasks_of(action_at(events, j)).contains(Task::ShutdownApp)) ==> exists|i: int|
            0 <= i < j && #[trigger] tasks_of(action_at(events, i)).contains(Task::InitApp),
        forall|i: int| 0 <= i < j && #[trigger] tasks_of(action_at(events, i)).contains(Task::ShutdownApp)
            ==> tasks_of(action_at(events, j)).len() == 0,
{
    lemma_task_order(action_at(events, j));
    lemma_launch_once_and_first(events, j);
    assert forall|i: int| 0 <= i < j implies
        (#[trigger] tasks_of(action_at(events, i)).contains(Task::InitApp) <==> action_at(events, i) == LoopAction::Launch)
        && (tasks_of(action_at(events, i)).contains(Task::ShutdownApp) <==> action_at(events, i) == LoopAction::Shutdown) by {
        lemma_task_order(action_at(events, i));
    }
    if needs_launch(action_at(events, j)) {
        let i = choose|i: int| 0 <= i < j && #[trigger] action_at(events, i) == LoopAction::Launch;
        lemma_task_order(action_at(events, i));
        assert(tasks_of(action_at(events, i)).contains(Task::InitApp));
    }
    assert forall|i: int| 0 <= i < j && #[trigger] tasks_of(action_at(events, i)).contains(Task::ShutdownApp)
        implies tasks_of(action_at(events, j)).len() == 0 by {
        lemma_task_order(action_at(events, i));
        lemma_shutdown_stays_finished(events, i, j);
    }
}

/// The loop's transitions: creating the window launches the application and starts
/// pumping, or fails with the window error; an ordinary message is dispatched and a
/// quit message shuts down; an empty queue begins a frame; an acquired texture is
/// rendered and presented, a missing one fails; a committed frame goes back to the
/// queue, a refused commit fails. Anything else changes nothing and does nothing.
pub proof fn lemma_loop_transitions(phase: Phase, event: LoopEvent)
    ensures
        phase == Phase::Starting && event == LoopEvent::ContextCreated ==> step_of(phase, event)
            == (Step { next: Phase::Pumping, action: LoopAction::Launch }),
        phase == Phase::Starting && event == LoopEvent::ContextFailed ==> step_of(phase, event)
            == (Step { next: Phase::Failed, action: LoopAction::Fail(RunError::WindowInit) }),
        phase == Phase::Pumping && event == (LoopEvent::MessageReceived { quit: false }) ==> step_of(phase, event)
            == (Step { next: Phase::Pumping, action: LoopAction::Dispatch }),
        phase == Phase::Pumping && event == (LoopEvent::MessageReceived { quit: true }) ==> step_of(phase, event)
            == (Step { next: Phase::Finished, action: LoopAction::Shutdown }),
        phase == Phase::Pumping && event == LoopEvent::QueueEmpty ==> step_of(phase, event)
            == (Step { next: Phase::Acquiring, action: LoopAction::BeginFrame }),
        phase == Phase::Acquiring && event == LoopEvent::TextureAcquired ==> step_of(phase, event)
            == (Step { next: Phase::Presenting, action: LoopAction::Present }),
        phase == Phase::Acquiring && event == LoopEvent::TextureUnavailable ==> step_of(phase, event)
            == (Step { next: Phase::Failed, action: LoopAction::Fail(RunError::SurfaceTexture) }),
        phase == Phase::Presenting && event == LoopEvent::Committed ==> step_of(phase, event)
            == (Step { next: Phase::Pumping, action: LoopAction::Poll }),
        phase == Phase::Presenting && event == LoopEvent::CommitFailed ==> step_of(phase, event)
            == (Step { next: Phase::Failed, action: LoopAction::Fail(RunError::Commit) }),
        step_of(phase, event).action == LoopAction::Ignore <==> step_of(phase, event).next == phase
            && !(phase == Phase::Pumping && event == (LoopEvent::MessageReceived { quit: false })),
{
}

/// Every action that keeps the loop going ends with the task that observes the
/// next outcome: launching, dispatching and polling end by taking a message, a
/// frame's start ends by requesting its texture, and presenting ends with the
/// commit; an ending action (a failure, or nothing to do) has no tasks.
pub proof fn lemma_actions_end_by_observing(action: LoopAction)
    ensures
        (action == LoopAction::Launch || action == LoopAction::Dispatch || action == LoopAction::Poll)
            ==> tasks_of(action).len() > 0 && tasks_of(action).last() == Task::PollMessage,
        action == LoopAction::BeginFrame ==> tasks_of(action).last() == Task::AcquireTexture,
        action == LoopAction::Present ==> tasks_of(action).last() == Task::CommitFrame,
        (action is Fail || action == LoopAction::Ignore) ==> tasks_of(action).len() == 0,
        action == LoopAction::Dispatch ==> tasks_of(action)[0] == Task::TranslateMessage
            && tasks_of(action)[1] == Task::DispatchMessage,
        action == LoopAction::Launch ==> tasks_of(action)[0] == Task::RegisterHandler
            && tasks_of(action)[1] == Task::InstallHooks,
{
}

/// After the shutdown step the run stays finished, doing nothing.
proof fn lemma_shutdown_stays_finished(events: Seq<LoopEvent>, i: int, j: int)
    requires
        0 <= i < j <= events.len(),
        action_at(events, i) == LoopAction::Shutdown,
    ensures
        phase_after(events, j) == Phase::Finished,
        j < events.len() ==> action_at(events, j) == LoopAction::Ignore,
    decreases j - i,
{
    if j == i + 1 {
        lemma_shutdown_only_on_quit(phase_after(events, i), events[i]);
    } else {
        lemma_shutdown_stays_finished(events, i, j - 1);
        lemma_end_is_final(phase_after(events, j - 1), events[j - 1]);
    }
    if j < events.len() {
        lemma_end_is_final(phase_after(events, j), events[j]);
    }
}

} // verus!
