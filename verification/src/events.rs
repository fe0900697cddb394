//! Input events, and how the low-level keyboard and mouse hooks decide on them.
//!
//! A hook hands over a message code, a flags word and the message's payload. The
//! functions here decide which [`OverlayEvent`] (if any) the overlay sees, and whether
//! the hook swallows the message or forwards it along the hook chain.
use vstd::prelude::*;

verus! {

// Window-message codes delivered to the low-level hooks (winuser.h).
/// A key was pressed.
pub const WM_KEYDOWN: u32 = 0x0100;
/// A key was released.
pub const WM_KEYUP: u32 = 0x0101;
/// A key was pressed while ALT was held (or F10).
pub const WM_SYSKEYDOWN: u32 = 0x0104;
/// A key was released while ALT was held.
pub const WM_SYSKEYUP: u32 = 0x0105;
/// The cursor moved.
pub const WM_MOUSEMOVE: u32 = 0x0200;
/// The left button was pressed.
pub const WM_LBUTTONDOWN: u32 = 0x0201;
/// The left button was released.
pub const WM_LBUTTONUP: u32 = 0x0202;
/// The right button was pressed.
pub const WM_RBUTTONDOWN: u32 = 0x0204;
/// The right button was released.
pub const WM_RBUTTONUP: u32 = 0x0205;
/// The middle button was pressed.
pub const WM_MBUTTONDOWN: u32 = 0x0207;
/// The middle button was released.
pub const WM_MBUTTONUP: u32 = 0x0208;
/// The vertical wheel turned.
pub const WM_MOUSEWHEEL: u32 = 0x020A;
/// A side (X) button was pressed; the data word's high word names which one.
pub const WM_XBUTTONDOWN: u32 = 0x020B;
/// A side (X) button was released; the data word's high word names which one.
pub const WM_XBUTTONUP: u32 = 0x020C;
/// High word of an X-button data word: the first side button.
pub const XBUTTON1: u32 = 0x0001;
/// High word of an X-button data word: the second side button.
pub const XBUTTON2: u32 = 0x0002;
/// Keyboard-hook flag: the event was injected by a call to `SendInput`.
pub const LLKHF_INJECTED: u32 = 0x10;
/// Mouse-hook flag: the event was injected by a call to `SendInput`.
pub const LLMHF_INJECTED: u32 = 0x01;

/// Dictates how an input event should be processed after being intercepted by the overlay.
#[derive(PartialEq, Eq, Structural, Clone, Copy, Debug)]
pub enum EventResult {
    /// The event is consumed by the overlay application. It will **not** be passed down
    /// to the underlying windows or applications (swallowed input).
    Consumed,
    /// The event is ignored or partially reacted to, allowing it to propagate normally
    /// through the OS down to target foreground applications.
    Propagated,
}

/// Identifies standard hardware mouse button mappings.
#[derive(PartialEq, Eq, Structural, Clone, Copy, Debug)]
pub enum MouseButton {
    /// Left mouse button.
    Left,
    /// Right mouse button.
    Right,
    /// Middle wheel click mouse button.
    Middle,
    /// Extended side button 1.
    X1,
    /// Extended side button 2.
    X2,
}

/// A unified event container representing structural asynchronous hardware input events.
#[derive(PartialEq, Eq, Structural, Clone, Copy, Debug)]
pub enum OverlayEvent {
    /// A keyboard button pressed state trigger.
    KeyDown {
        /// The virtual key code identifier (e.g., `VK_ESCAPE`, `0x41` for 'A').
        vk: u32,
    },
    /// A keyboard button released state trigger.
    KeyUp {
        /// The virtual key code identifier.
        vk: u32,
    },
    /// Absolute hardware cursor position motion coordinates tracking.
    MouseMove {
        /// Global desktop x-coordinate position.
        x: i32,
        /// Global desktop y-coordinate position.
        y: i32,
    },
    /// A mouse button pressed state trigger.
    MouseDown {
        /// The specific mouse button triggered.
        button: MouseButton,
    },
    /// A mouse button released state trigger.
    MouseUp {
        /// The specific mouse button released.
        button: MouseButton,
    },
    /// Vertical mouse wheel scrolling rotation delta tracker.
    MouseWheel {
        /// Rotation wheel travel step value (multiples of standard 120 units).
        delta: i16,
    },
}

/// Receives the events that the input hooks intercept.
///
/// The answer decides whether the intercepted input reaches the other applications.
pub trait EventsHandler {
    /// Reacts to one intercepted event.
    fn handle_event(&mut self, event: OverlayEvent) -> EventResult;
}

/// What a hook procedure does with the message it was handed.
#[derive(PartialEq, Eq, Structural, Clone, Copy, Debug)]
pub enum HookAction {
    /// Return a nonzero value: the message goes no further.
    Swallow,
    /// Hand the message to the next hook in the chain.
    Forward,
}

/// The wheel rotation carried in the high word of a mouse-hook data word,
/// read as a signed 16-bit number.
pub open spec fn wheel_delta_of(mouse_data: u32) -> int {
    let high = mouse_data as int / 0x10000;
    if high < 0x8000 { high } else { high - 0x10000 }
}

/// The keyboard-hook flags carry the injected bit (bit 4).
pub open spec fn key_injected(flags: u32) -> bool {
    (flags / 0x10) % 2 == 1
}

/// The mouse-hook flags carry the injected bit (bit 0).
pub open spec fn mouse_injected(flags: u32) -> bool {
    flags % 2 == 1
}

/// The event that the keyboard hook reports for a message, if any: messages with a
/// negative hook code and injected keystrokes are never reported.
pub open spec fn keyboard_event_of(code: i32, message: u32, flags: u32, vk: u32) -> Option<OverlayEvent> {
    if code < 0 || key_injected(flags) {
        None
    } else if message == WM_KEYDOWN || message == WM_SYSKEYDOWN {
        Some(OverlayEvent::KeyDown { vk })
    } else if message == WM_KEYUP || message == WM_SYSKEYUP {
        Some(OverlayEvent::KeyUp { vk })
    } else {
        None
    }
}

/// The side button that an X-button message's data word names in its high word, if any.
pub open spec fn x_button_of(mouse_data: u32) -> Option<MouseButton> {
    let high = mouse_data as int / 0x10000;
    if high == XBUTTON1 {
        Some(MouseButton::X1)
    } else if high == XBUTTON2 {
        Some(MouseButton::X2)
    } else {
        None
    }
}

/// The event that the mouse hook reports for a message, if any: messages with a
/// negative hook code and injected mouse input are never reported, nor an
/// X-button message that names neither side button.
pub open spec fn mouse_event_of(code: i32, message: u32, flags: u32, x: i32, y: i32, mouse_data: u32) -> Option<OverlayEvent> {
    if code < 0 || mouse_injected(flags) {
        None
    } else if message == WM_MOUSEMOVE {
        Some(OverlayEvent::MouseMove { x, y })
    } else if message == WM_LBUTTONDOWN {
        Some(OverlayEvent::MouseDown { button: MouseButton::Left })
    } else if message == WM_LBUTTONUP {
        Some(OverlayEvent::MouseUp { button: MouseButton::Left })
    } else if message == WM_RBUTTONDOWN {
        Some(OverlayEvent::MouseDown { button: MouseButton::Right })
    } else if message == WM_RBUTTONUP {
        Some(OverlayEvent::MouseUp { button: MouseButton::Right })
    } else if message == WM_MBUTTONDOWN {
        Some(OverlayEvent::MouseDown { button: MouseButton::Middle })
    } else if message == WM_MBUTTONUP {
        Some(OverlayEvent::MouseUp { button: MouseButton::Middle })
    } else if message == WM_MOUSEWHEEL {
        Some(OverlayEvent::MouseWheel { delta: wheel_delta_of(mouse_data) as i16 })
    } else if message == WM_XBUTTONDOWN {
        match x_button_of(mouse_data) {
            Some(button) => Some(OverlayEvent::MouseDown { button }),
            None => None,
        }
    } else if message == WM_XBUTTONUP {
        match x_button_of(mouse_data) {
            Some(button) => Some(OverlayEvent::MouseUp { button }),
            None => None,
        }
    } else {
        None
    }
}

/// The side button that an X-button message's data word names, if any.
pub fn x_button(mouse_data: u32) -> (button: Option<MouseButton>)
    ensures
        button == x_button_of(mouse_data),
{
    let high = mouse_data / 0x10000;
    if high == XBUTTON1 {
        Some(MouseButton::X1)
    } else if high == XBUTTON2 {
        Some(MouseButton::X2)
    } else {
        None
    }
}

/// What a hook does once the handler has answered.
pub open spec fn verdict_of(response: EventResult) -> HookAction {
    match response {
        EventResult::Consumed => HookAction::Swallow,
        EventResult::Propagated => HookAction::Forward,
    }
}

/// The signed wheel rotation in the high word of a mouse-hook data word.
pub fn wheel_delta(mouse_data: u32) -> (delta: i16)
    ensures
        delta as int == wheel_delta_of(mouse_data),
{
    let delta = ((mouse_data >> 16u32) & 0xffffu32) as i16;
    assert(((mouse_data >> 16u32) & 0xffffu32) as i16 as int == if mouse_data / 0x10000 < 0x8000 {
        (mouse_data / 0x10000) as int
    } else {
        (mouse_data / 0x10000) as int - 0x10000
    }) by (bit_vector);
    delta
}

/// Decides which event, if any, a keyboard-hook message stands for.
pub fn keyboard_hook_event(code: i32, message: u32, flags: u32, vk: u32) -> (event: Option<OverlayEvent>)
    ensures
        event == keyboard_event_of(code, message, flags, vk),
{
    assert(flags & LLKHF_INJECTED != 0 <==> (flags / 0x10) % 2 == 1) by (bit_vector);
    if code < 0 || flags & LLKHF_INJECTED != 0 {
        None
    } else if message == WM_KEYDOWN || message == WM_SYSKEYDOWN {
        Some(OverlayEvent::KeyDown { vk })
    } else if message == WM_KEYUP || message == WM_SYSKEYUP {
        Some(OverlayEvent::KeyUp { vk })
    } else {
        None
    }
}

/// Decides which event, if any, a mouse-hook message stands for.
pub fn mouse_hook_event(code: i32, message: u32, flags: u32, x: i32, y: i32, mouse_data: u32) -> (event: Option<OverlayEvent>)
    ensures
        event == mouse_event_of(code, message, flags, x, y, mouse_data),
{
    assert(flags & LLMHF_INJECTED != 0 <==> flags % 2 == 1) by (bit_vector);
    if code < 0 || flags & LLMHF_INJECTED != 0 {
        None
    } else if message == WM_MOUSEMOVE {
        Some(OverlayEvent::MouseMove { x, y })
    } else if message == WM_LBUTTONDOWN {
        Some(OverlayEvent::MouseDown { button: MouseButton::Left })
    } else if message == WM_LBUTTONUP {
        Some(OverlayEvent::MouseUp { button: MouseButton::Left })
    } else if message == WM_RBUTTONDOWN {
        Some(OverlayEvent::MouseDown { button: MouseButton::Right })
    } else if message == WM_RBUTTONUP {
        Some(OverlayEvent::MouseUp { button: MouseButton::Right })
    } else if message == WM_MBUTTONDOWN {
        Some(OverlayEvent::MouseDown { button: MouseButton::Middle })
    } else if message == WM_MBUTTONUP {
        Some(OverlayEvent::MouseUp { button: MouseButton::Middle })
    } else if message == WM_MOUSEWHEEL {
        let delta = wheel_delta(mouse_data);
        Some(OverlayEvent::MouseWheel { delta })
    } else if message == WM_XBUTTONDOWN {
        match x_button(mouse_data) {
            Some(button) => Some(OverlayEvent::MouseDown { button }),
            None => None,
        }
    } else if message == WM_XBUTTONUP {
        match x_button(mouse_data) {
            Some(button) => Some(OverlayEvent::MouseUp { button }),
            None => None,
        }
    } else {
        None
    }
}

/// What a hook does with a message once the handler has answered: a consumed
/// event is swallowed, a propagated one travels on.
pub fn hook_verdict(response: EventResult) -> (action: HookAction)
    ensures
        action == verdict_of(response),
{
    match response {
        EventResult::Consumed => HookAction::Swallow,
        EventResult::Propagated => HookAction::Forward,
    }
}

/// What a hook did with one message: the event it reported to the handler (if
/// any), the handler's answer to that event, and the hook's resulting action.
#[derive(PartialEq, Eq, Structural, Clone, Copy, Debug)]
pub struct HookOutcome {
    /// The event reported to the handler, if the message stands for one.
    pub event: Option<OverlayEvent>,
    /// The handler's answer; present exactly when an event was reported.
    pub response: Option<EventResult>,
    /// What the hook procedure does with the message.
    pub action: HookAction,
}

/// The outcome of a hook for a message that stands for `event` (if any), when the
/// handler answered `response`: the action follows the answer, and a message that
/// stands for no event is forwarded without asking.
pub open spec fn outcome_is(outcome: HookOutcome, event: Option<OverlayEvent>) -> bool {
    &&& outcome.event == event
    &&& (outcome.response is Some <==> event is Some)
    &&& outcome.action == match outcome.response {
        Some(r) => verdict_of(r),
        None => HookAction::Forward,
    }
}

/// The handler is asked only when the message stands for an event, about exactly
/// that event; it is handed back unused when it was not asked.
pub open spec fn handler_asked<F: FnOnce(OverlayEvent) -> EventResult>(
    outcome: HookOutcome,
    handler: F,
    unused: Option<F>,
) -> bool {
    &&& outcome.event matches Some(e) ==> (outcome.response matches Some(r) && call_ensures(handler, (e,), r))
    &&& unused == (if outcome.event is None { Some(handler) } else { None })
}

/// Runs the keyboard hook's decision for one message: the handler is asked, once,
/// only when the message stands for an event and only about that event, and the
/// message is swallowed exactly when the handler consumed it. A handler that was
/// not asked is handed back.
pub fn route_keyboard<F: FnOnce(OverlayEvent) -> EventResult>(handler: F, code: i32, message: u32, flags: u32, vk: u32) -> (routed: (HookOutcome, Option<F>))
    requires
        forall|e: OverlayEvent| call_requires(handler, (e,)),
    ensures
        outcome_is(routed.0, keyboard_event_of(code, message, flags, vk)),
        handler_asked(routed.0, handler, routed.1),
{
    let event = keyboard_hook_event(code, message, flags, vk);
    match event {
        Some(e) => {
            let response = handler(e);
            (HookOutcome { event, response: Some(response), action: hook_verdict(response) }, None)
        },
        None => (HookOutcome { event, response: None, action: HookAction::Forward }, Some(handler)),
    }
}

/// Runs the mouse hook's decision for one message: the handler is asked, once,
/// only when the message stands for an event and only about that event, and the
/// message is swallowed exactly when the handler consumed it. A handler that was
/// not asked is handed back.
pub fn route_mouse<F: FnOnce(OverlayEvent) -> EventResult>(handler: F, code: i32, message: u32, flags: u32, x: i32, y: i32, mouse_data: u32) -> (routed: (HookOutcome, Option<F>))
    requires
        forall|e: OverlayEvent| call_requires(handler, (e,)),
    ensures
        outcome_is(routed.0, mouse_event_of(code, message, flags, x, y, mouse_data)),
        handler_asked(routed.0, handler, routed.1),
{
    let event = mouse_hook_event(code, message, flags, x, y, mouse_data);
    match event {
        Some(e) => {
            let response = handler(e);
            (HookOutcome { event, response: Some(response), action: hook_verdict(response) }, None)
        },
        None => (HookOutcome { event, response: None, action: HookAction::Forward }, Some(handler)),
    }
}

/// Every key press and release that was not injected is reported, whatever the
/// other flag bits (extended key, ALT down, key up) say, with the key code the hook
/// delivered; any other message reaches nobody.
pub proof fn lemma_keys_are_reported(code: i32, message: u32, flags: u32, vk: u32)
    requires
        code >= 0,
        flags & LLKHF_INJECTED == 0,
    ensures
        (message == WM_KEYDOWN || message == WM_SYSKEYDOWN) ==> keyboard_event_of(code, message, flags, vk)
            == Some(OverlayEvent::KeyDown { vk }),
        (message == WM_KEYUP || message == WM_SYSKEYUP) ==> keyboard_event_of(code, message, flags, vk)
            == Some(OverlayEvent::KeyUp { vk }),
        (message != WM_KEYDOWN && message != WM_SYSKEYDOWN && message != WM_KEYUP && message != WM_SYSKEYUP)
            ==> keyboard_event_of(code, message, flags, vk) is None,
{
    assert(flags & LLKHF_INJECTED == 0 ==> (flags / 0x10) % 2 == 0) by (bit_vector);
}

/// A negative hook code is never reported, for keys and mouse alike.
pub proof fn lemma_negative_code_is_ignored(code: i32, message: u32, flags: u32, vk: u32, x: i32, y: i32, mouse_data: u32)
    requires
        code < 0,
    ensures
        keyboard_event_of(code, message, flags, vk) is None,
        mouse_event_of(code, message, flags, x, y, mouse_data) is None,
{
}

/// Every mouse message that was not injected is reported as the matching event: a
/// move at exactly the point the hook delivered (anywhere on the desktop, negative
/// coordinates included), each button press and release with its button, a wheel
/// turn whose 16-bit pattern is the data word's high word, and a side-button
/// message with the button its high word names; any other message reaches nobody.
pub proof fn lemma_mouse_messages_are_reported(code: i32, message: u32, flags: u32, x: i32, y: i32, mouse_data: u32)
    requires
        code >= 0,
        flags & LLMHF_INJECTED == 0,
    ensures
        message == WM_MOUSEMOVE ==> mouse_event_of(code, message, flags, x, y, mouse_data)
            == Some(OverlayEvent::MouseMove { x, y }),
        message == WM_LBUTTONDOWN ==> mouse_event_of(code, message, flags, x, y, mouse_data)
            == Some(OverlayEvent::MouseDown { button: MouseButton::Left }),
        message == WM_LBUTTONUP ==> mouse_event_of(code, message, flags, x, y, mouse_data)
            == Some(OverlayEvent::MouseUp { button: MouseButton::Left }),
        message == WM_RBUTTONDOWN ==> mouse_event_of(code, message, flags, x, y, mouse_data)
            == Some(OverlayEvent::MouseDown { button: MouseButton::Right }),
        message == WM_RBUTTONUP ==> mouse_event_of(code, message, flags, x, y, mouse_data)
            == Some(OverlayEvent::MouseUp { button: MouseButton::Right }),
        message == WM_MBUTTONDOWN ==> mouse_event_of(code, message, flags, x, y, mouse_data)
            == Some(OverlayEvent::MouseDown { button: MouseButton::Middle }),
        message == WM_MBUTTONUP ==> mouse_event_of(code, message, flags, x, y, mouse_data)
            == Some(OverlayEvent::MouseUp { button: MouseButton::Middle }),
        message == WM_MOUSEWHEEL ==> (mouse_event_of(code, message, flags, x, y, mouse_data) matches Some(
            OverlayEvent::MouseWheel { delta },
        ) && (delta as int) % 0x10000 == mouse_data as int / 0x10000),
        (message == WM_XBUTTONDOWN && mouse_data as int / 0x10000 == 1) ==> mouse_event_of(code, message, flags, x, y, mouse_data)
            == Some(OverlayEvent::MouseDown { button: MouseButton::X1 }),
        (message == WM_XBUTTONDOWN && mouse_data as int / 0x10000 == 2) ==> mouse_event_of(code, message, flags, x, y, mouse_data)
            == Some(OverlayEvent::MouseDown { button: MouseButton::X2 }),
        (message == WM_XBUTTONUP && mouse_data as int / 0x10000 == 1) ==> mouse_event_of(code, message, flags, x, y, mouse_data)
            == Some(OverlayEvent::MouseUp { button: MouseButton::X1 }),
        (message == WM_XBUTTONUP && mouse_data as int / 0x10000 == 2) ==> mouse_event_of(code, message, flags, x, y, mouse_data)
            == Some(OverlayEvent::MouseUp { button: MouseButton::X2 }),
        ((message == WM_XBUTTONDOWN || message == WM_XBUTTONUP) && mouse_data as int / 0x10000 != 1
            && mouse_data as int / 0x10000 != 2) ==> mouse_event_of(code, message, flags, x, y, mouse_data) is None,
        (message != WM_MOUSEMOVE && message != WM_LBUTTONDOWN && message != WM_LBUTTONUP
            && message != WM_RBUTTONDOWN && message != WM_RBUTTONUP && message != WM_MBUTTONDOWN
            && message != WM_MBUTTONUP && message != WM_MOUSEWHEEL && message != WM_XBUTTONDOWN
            && message != WM_XBUTTONUP) ==> mouse_event_of(code, message, flags, x, y, mouse_data) is None,
{
    assert(flags & LLMHF_INJECTED == 0 ==> flags % 2 == 0) by (bit_vector);
    if message == WM_MOUSEWHEEL {
        let high = mouse_data as int / 0x10000;
        assert(0 <= high < 0x10000);
        let d = wheel_delta_of(mouse_data);
        assert(-0x8000 <= d < 0x8000);
        assert((d as i16) as int == d);
        assert(d % 0x10000 == high);
    }
}

/// The hook's verdict follows the handler's answer: a consumed event is swallowed,
/// a propagated one is handed on, and the two answers never give the same action.
pub proof fn lemma_verdict_follows_answer(response: EventResult)
    ensures
        verdict_of(response) == HookAction::Swallow <==> response == EventResult::Consumed,
        verdict_of(response) == HookAction::Forward <==> response == EventResult::Propagated,
{
}

} // verus!
