//! The overlay window's answers to the messages it receives, and its capture setting.
use vstd::prelude::*;

verus! {

// Window-message codes and answers (winuser.h).
/// The window is being destroyed.
pub const WM_DESTROY: u32 = 0x0002;
/// The system asks which part of the window lies under the cursor.
pub const WM_NCHITTEST: u32 = 0x0084;
/// The background must be erased.
pub const WM_ERASEBKGND: u32 = 0x0014;
/// The message loop must end.
pub const WM_QUIT: u32 = 0x0012;
/// Hit-test answer: the point belongs to whatever lies underneath the window.
pub const HTTRANSPARENT: isize = -1;
/// Display affinity: the window shows up in screen captures.
pub const WDA_NONE: u32 = 0x00;
/// Display affinity: the window is left out of screen captures.
pub const WDA_EXCLUDEFROMCAPTURE: u32 = 0x11;

/// How the window procedure answers a message.
#[derive(PartialEq, Eq, Structural, Clone, Copy, Debug)]
pub enum WindowReply {
    /// Post the quit message (exit code 0) and answer 0.
    PostQuit,
    /// Answer with this value and do nothing else.
    Answer(isize),
    /// Leave the message to the default window procedure.
    Default,
}

/// The answer of the overlay window to a message: it quits when destroyed, lets every
/// click fall through to the windows underneath, and never erases its background.
pub open spec fn window_reply_of(message: u32) -> WindowReply {
    if message == WM_DESTROY {
        WindowReply::PostQuit
    } else if message == WM_NCHITTEST {
        WindowReply::Answer(HTTRANSPARENT)
    } else if message == WM_ERASEBKGND {
        WindowReply::Answer(1)
    } else {
        WindowReply::Default
    }
}

/// How the overlay window answers a message.
pub fn window_reply(message: u32) -> (reply: WindowReply)
    ensures
        reply == window_reply_of(message),
{
    if message == WM_DESTROY {
        WindowReply::PostQuit
    } else if message == WM_NCHITTEST {
        WindowReply::Answer(HTTRANSPARENT)
    } else if message == WM_ERASEBKGND {
        WindowReply::Answer(1)
    } else {
        WindowReply::Default
    }
}

/// The display affinity that hides the overlay from screen captures, or shows it again.
pub fn display_affinity(hide: bool) -> (affinity: u32)
    ensures
        affinity == (if hide { WDA_EXCLUDEFROMCAPTURE } else { WDA_NONE }),
{
    if hide {
        WDA_EXCLUDEFROMCAPTURE
    } else {
        WDA_NONE
    }
}

/// The overlay quits when it is destroyed, is transparent to every hit test so
/// clicks fall through to the windows underneath, claims its background as erased,
/// and leaves every other message to the default procedure; hiding it from capture
/// and showing it again are different affinities, the second the default one.
pub proof fn lemma_window_answers(message: u32, hide: bool)
    ensures
        message == WM_DESTROY ==> window_reply_of(message) == WindowReply::PostQuit,
        message == WM_NCHITTEST ==> window_reply_of(message) == WindowReply::Answer(-1isize),
        message == WM_ERASEBKGND ==> window_reply_of(message) == WindowReply::Answer(1isize),
        (message != WM_DESTROY && message != WM_NCHITTEST && message != WM_ERASEBKGND) ==> window_reply_of(message)
            == WindowReply::Default,
        WDA_NONE == 0 && WDA_EXCLUDEFROMCAPTURE != WDA_NONE,
{
}

} // verus!
