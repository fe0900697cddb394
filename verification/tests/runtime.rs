use windows_sys::Win32::UI::WindowsAndMessaging as wm;
use real_gpu_app::runtime::{step, tasks, LoopAction, LoopEvent, Phase, RunError, Step, Task};
use real_gpu_app::text::text_color;
use real_gpu_app::texture::{frame_bytes, row_bytes};
use real_gpu_app::window::{
    display_affinity, window_reply, WindowReply, HTTRANSPARENT, WDA_EXCLUDEFROMCAPTURE, WDA_NONE,
    WM_DESTROY, WM_ERASEBKGND, WM_NCHITTEST, WM_QUIT,
};

const ALL_EVENTS: [LoopEvent; 9] = [
    LoopEvent::ContextCreated,
    LoopEvent::ContextFailed,
    LoopEvent::MessageReceived { quit: true },
    LoopEvent::MessageReceived { quit: false },
    LoopEvent::QueueEmpty,
    LoopEvent::TextureAcquired,
    LoopEvent::TextureUnavailable,
    LoopEvent::Committed,
    LoopEvent::CommitFailed,
];

#[test]
fn a_normal_run() {
    let mut phase = Phase::Starting;
    let script = [
        (LoopEvent::ContextCreated, LoopAction::Launch, Phase::Pumping),
        (LoopEvent::MessageReceived { quit: false }, LoopAction::Dispatch, Phase::Pumping),
        (LoopEvent::QueueEmpty, LoopAction::BeginFrame, Phase::Acquiring),
        (LoopEvent::TextureAcquired, LoopAction::Present, Phase::Presenting),
        (LoopEvent::Committed, LoopAction::Poll, Phase::Pumping),
        (LoopEvent::MessageReceived { quit: true }, LoopAction::Shutdown, Phase::Finished),
    ];
    for (event, action, next) in script {
        let s = step(phase, event);
        assert_eq!(s, Step { next, action });
        phase = s.next;
    }
}

#[test]
fn failures_end_the_loop_without_shutdown() {
    assert_eq!(
        step(Phase::Starting, LoopEvent::ContextFailed),
        Step { next: Phase::Failed, action: LoopAction::Fail(RunError::WindowInit) }
    );
    assert_eq!(
        step(Phase::Acquiring, LoopEvent::TextureUnavailable),
        Step { next: Phase::Failed, action: LoopAction::Fail(RunError::SurfaceTexture) }
    );
    assert_eq!(
        step(Phase::Presenting, LoopEvent::CommitFailed),
        Step { next: Phase::Failed, action: LoopAction::Fail(RunError::Commit) }
    );
}

#[test]
fn error_messages() {
    assert_eq!(RunError::WindowInit.message(), "window initialization failed");
    assert_eq!(RunError::SurfaceTexture.message(), "Failed to get texture");
    assert_eq!(RunError::Commit.message(), "Failed to commit comp device");
}

#[test]
fn ended_loop_ignores_everything() {
    for phase in [Phase::Finished, Phase::Failed] {
        for event in ALL_EVENTS {
            assert_eq!(step(phase, event), Step { next: phase, action: LoopAction::Ignore });
        }
    }
}

#[test]
fn shutdown_only_on_quit() {
    let phases = [
        Phase::Starting,
        Phase::Pumping,
        Phase::Acquiring,
        Phase::Presenting,
        Phase::Finished,
        Phase::Failed,
    ];
    for phase in phases {
        for event in ALL_EVENTS {
            let s = step(phase, event);
            let quits = phase == Phase::Pumping && event == LoopEvent::MessageReceived { quit: true };
            assert_eq!(s.action == LoopAction::Shutdown, quits);
        }
    }
}

#[test]
fn out_of_place_events_are_ignored() {
    assert_eq!(step(Phase::Starting, LoopEvent::QueueEmpty), Step { next: Phase::Starting, action: LoopAction::Ignore });
    assert_eq!(step(Phase::Pumping, LoopEvent::Committed), Step { next: Phase::Pumping, action: LoopAction::Ignore });
    assert_eq!(
        step(Phase::Acquiring, LoopEvent::MessageReceived { quit: true }),
        Step { next: Phase::Acquiring, action: LoopAction::Ignore }
    );
}

#[test]
fn window_constants_match_windows_sys() {
    assert_eq!(WM_DESTROY, wm::WM_DESTROY);
    assert_eq!(WM_NCHITTEST, wm::WM_NCHITTEST);
    assert_eq!(WM_ERASEBKGND, wm::WM_ERASEBKGND);
    assert_eq!(WM_QUIT, wm::WM_QUIT);
    assert_eq!(WDA_NONE, wm::WDA_NONE);
    assert_eq!(WDA_EXCLUDEFROMCAPTURE, wm::WDA_EXCLUDEFROMCAPTURE);
    assert_eq!(HTTRANSPARENT, wm::HTTRANSPARENT as isize);
}

#[test]
fn window_replies() {
    assert_eq!(window_reply(WM_DESTROY), WindowReply::PostQuit);
    assert_eq!(window_reply(WM_NCHITTEST), WindowReply::Answer(-1));
    assert_eq!(window_reply(WM_ERASEBKGND), WindowReply::Answer(1));
    assert_eq!(window_reply(0x000F), WindowReply::Default);
}

#[test]
fn capture_affinity() {
    assert_eq!(display_affinity(true), 0x11);
    assert_eq!(display_affinity(false), 0);
}

#[test]
fn text_color_packs_alpha_red_green_blue() {
    assert_eq!(text_color((0x12, 0x34, 0x56, 0x78)), 0x7812_3456);
    assert_eq!(text_color((255, 255, 255, 255)), 0xFFFF_FFFF);
    assert_eq!(text_color((1, 0, 0, 0)), 0x0001_0000);
    let packed = glyphon::Color(text_color((9, 8, 7, 6)));
    assert_eq!((packed.r(), packed.g(), packed.b(), packed.a()), (9, 8, 7, 6));
}

#[test]
fn texture_layout() {
    assert_eq!(row_bytes(1920), 7680);
    assert_eq!(row_bytes(u32::MAX / 4), u32::MAX - 3);
    assert_eq!(frame_bytes(1920, 1080), 8_294_400);
    assert_eq!(frame_bytes(0, 1080), 0);
}

#[test]
fn frames_follow_an_empty_queue_and_an_acquired_texture() {
    let phases = [
        Phase::Starting,
        Phase::Pumping,
        Phase::Acquiring,
        Phase::Presenting,
        Phase::Finished,
        Phase::Failed,
    ];
    for phase in phases {
        for event in ALL_EVENTS {
            let s = step(phase, event);
            assert_eq!(
                s.action == LoopAction::Present,
                phase == Phase::Acquiring && event == LoopEvent::TextureAcquired
            );
            assert_eq!(
                s.action == LoopAction::BeginFrame,
                phase == Phase::Pumping && event == LoopEvent::QueueEmpty
            );
        }
    }
}

#[test]
fn launch_happens_once_and_first() {
    // Every run of four events, starting from the start.
    let n = ALL_EVENTS.len();
    for code in 0..n.pow(4) {
        let mut phase = Phase::Starting;
        let mut launches = 0;
        let mut c = code;
        for _ in 0..4 {
            let event = ALL_EVENTS[c % n];
            c /= n;
            let s = step(phase, event);
            match s.action {
                LoopAction::Launch => launches += 1,
                LoopAction::Dispatch
                | LoopAction::BeginFrame
                | LoopAction::Present
                | LoopAction::Poll
                | LoopAction::Shutdown => assert_eq!(launches, 1),
                _ => {}
            }
            assert!(launches <= 1);
            phase = s.next;
        }
    }
}

#[test]
fn each_action_lists_its_tasks_in_order() {
    assert_eq!(
        tasks(LoopAction::Launch),
        vec![
            Task::RegisterHandler,
            Task::InstallHooks,
            Task::InitApp,
            Task::FirstUpdate,
            Task::ShowWindow,
            Task::PollMessage,
        ]
    );
    assert_eq!(tasks(LoopAction::Dispatch), vec![Task::TranslateMessage, Task::DispatchMessage, Task::PollMessage]);
    assert_eq!(tasks(LoopAction::BeginFrame), vec![Task::UpdateApp, Task::AcquireTexture]);
    assert_eq!(tasks(LoopAction::Present), vec![Task::RenderApp, Task::PresentFrame, Task::CommitFrame]);
    assert_eq!(tasks(LoopAction::Poll), vec![Task::PollMessage]);
    assert_eq!(tasks(LoopAction::Shutdown), vec![Task::RemoveHooks, Task::ShutdownApp]);
    assert!(tasks(LoopAction::Fail(RunError::Commit)).is_empty());
    assert!(tasks(LoopAction::Ignore).is_empty());
}
