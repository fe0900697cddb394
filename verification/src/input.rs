//! The input records that are handed to `SendInput` to inject an [`OverlayEvent`].
use vstd::prelude::*;
use crate::events::{
    OverlayEvent, MouseButton, keyboard_event_of, mouse_event_of, LLKHF_INJECTED,
    LLMHF_INJECTED,
};

verus! {

// Flag words of the keyboard and mouse input records (winuser.h).
/// The key is being released.
pub const KEYEVENTF_KEYUP: u32 = 0x0002;
/// Movement occurred.
pub const MOUSEEVENTF_MOVE: u32 = 0x0001;
/// The left button was pressed.
pub const MOUSEEVENTF_LEFTDOWN: u32 = 0x0002;
/// The left button was released.
pub const MOUSEEVENTF_LEFTUP: u32 = 0x0004;
/// The right button was pressed.
pub const MOUSEEVENTF_RIGHTDOWN: u32 = 0x0008;
/// The right button was released.
pub const MOUSEEVENTF_RIGHTUP: u32 = 0x0010;
/// The middle button was pressed.
pub const MOUSEEVENTF_MIDDLEDOWN: u32 = 0x0020;
/// The middle button was released.
pub const MOUSEEVENTF_MIDDLEUP: u32 = 0x0040;
/// An X button was pressed.
pub const MOUSEEVENTF_XDOWN: u32 = 0x0080;
/// An X button was released.
pub const MOUSEEVENTF_XUP: u32 = 0x0100;
/// The wheel was moved; the amount is in the data word.
pub const MOUSEEVENTF_WHEEL: u32 = 0x0800;
/// The coordinates are absolute (normalized) rather than relative.
pub const MOUSEEVENTF_ABSOLUTE: u32 = 0x8000;
/// Absolute coordinates span the whole virtual desktop, not only the primary screen.
pub const MOUSEEVENTF_VIRTUALDESK: u32 = 0x4000;
/// The largest normalized absolute coordinate: the far edge of the desktop.
pub const NORMALIZED_MAX: i32 = 65535;

/// The virtual desktop, in pixels: the rectangle that holds every screen.
#[derive(PartialEq, Eq, Structural, Clone, Copy, Debug)]
pub struct Desktop {
    /// The left edge.
    pub left: i32,
    /// The top edge.
    pub top: i32,
    /// The width.
    pub width: i32,
    /// The height.
    pub height: i32,
}

/// One input record, as the fields of an `INPUT` structure; every field that is
/// not listed here (scan code, time stamp, extra information) is zero.
#[derive(PartialEq, Eq, Structural, Clone, Copy, Debug)]
pub enum RawInput {
    /// A `KEYBDINPUT` record.
    Keyboard {
        /// The virtual-key code.
        vk: u16,
        /// The `KEYEVENTF_*` flags.
        flags: u32,
    },
    /// A `MOUSEINPUT` record.
    Mouse {
        /// Horizontal position or motion.
        dx: i32,
        /// Vertical position or motion.
        dy: i32,
        /// Wheel amount or X-button number, depending on the flags.
        mouse_data: u32,
        /// The `MOUSEEVENTF_*` flags.
        flags: u32,
    },
}

/// The number carried in the data word of an X-button record: 1 for the first
/// X button, 2 for the second, 0 for the other buttons.
pub open spec fn button_data_of(button: MouseButton) -> u32 {
    match button {
        MouseButton::X1 => 1,
        MouseButton::X2 => 2,
        _ => 0,
    }
}

/// The flag that reports a press of the button.
pub open spec fn press_flag_of(button: MouseButton) -> u32 {
    match button {
        MouseButton::Left => MOUSEEVENTF_LEFTDOWN,
        MouseButton::Right => MOUSEEVENTF_RIGHTDOWN,
        MouseButton::Middle => MOUSEEVENTF_MIDDLEDOWN,
        MouseButton::X1 | MouseButton::X2 => MOUSEEVENTF_XDOWN,
    }
}

/// The flag that reports a release of the button.
pub open spec fn release_flag_of(button: MouseButton) -> u32 {
    match button {
        MouseButton::Left => MOUSEEVENTF_LEFTUP,
        MouseButton::Right => MOUSEEVENTF_RIGHTUP,
        MouseButton::Middle => MOUSEEVENTF_MIDDLEUP,
        MouseButton::X1 | MouseButton::X2 => MOUSEEVENTF_XUP,
    }
}

/// The data word of a wheel record: the rotation itself (in the units of 120 per
/// notch that the event carries), as a 32-bit two's-complement number.
pub open spec fn wheel_data_of(delta: i16) -> int {
    if delta >= 0 { delta as int } else { delta + 0x1_0000_0000 }
}

/// A desktop coordinate on the normalized absolute scale, along one axis of the
/// desktop that starts at `origin` and is `extent` pixels long: the first pixel
/// is 0, the last is 65535, and the pixels between are spread evenly (rounded
/// down). A point beyond an edge is taken at that edge; a desktop of one pixel or
/// none maps everything to 0.
pub open spec fn absolute_axis_of(p: i32, origin: i32, extent: i32) -> int {
    if extent <= 1 {
        0
    } else {
        let offset = p - origin;
        let within = if offset < 0 { 0 } else if offset > extent - 1 { extent - 1 } else { offset };
        within * NORMALIZED_MAX / (extent - 1)
    }
}

/// The record that injects an event. A key code is cut to its low 16 bits; a
/// cursor position is sent as an absolute move across the virtual desktop.
pub open spec fn raw_input_of(event: OverlayEvent, desktop: Desktop) -> RawInput {
    match event {
        OverlayEvent::KeyDown { vk } => RawInput::Keyboard { vk: (vk % 0x10000) as u16, flags: 0 },
        OverlayEvent::KeyUp { vk } => RawInput::Keyboard { vk: (vk % 0x10000) as u16, flags: KEYEVENTF_KEYUP },
        OverlayEvent::MouseMove { x, y } => RawInput::Mouse {
            dx: absolute_axis_of(x, desktop.left, desktop.width) as i32,
            dy: absolute_axis_of(y, desktop.top, desktop.height) as i32,
            mouse_data: 0,
            flags: (MOUSEEVENTF_MOVE + MOUSEEVENTF_VIRTUALDESK + MOUSEEVENTF_ABSOLUTE) as u32,
        },
        OverlayEvent::MouseDown { button } => RawInput::Mouse {
            dx: 0,
            dy: 0,
            mouse_data: button_data_of(button),
            flags: press_flag_of(button),
        },
        OverlayEvent::MouseUp { button } => RawInput::Mouse {
            dx: 0,
            dy: 0,
            mouse_data: button_data_of(button),
            flags: release_flag_of(button),
        },
        OverlayEvent::MouseWheel { delta } => RawInput::Mouse {
            dx: 0,
            dy: 0,
            mouse_data: wheel_data_of(delta) as u32,
            flags: MOUSEEVENTF_WHEEL,
        },
    }
}

fn button_data(button: MouseButton) -> (data: u32)
    ensures
        data == button_data_of(button),
{
    match button {
        MouseButton::X1 => 0x0001,
        MouseButton::X2 => 0x0002,
        _ => 0,
    }
}

fn wheel_data(delta: i16) -> (data: u32)
    ensures
        data as int == wheel_data_of(delta),
{
    let data = delta as i32 as u32;
    assert(delta as i32 as u32 == (if delta >= 0 {
        delta as int
    } else {
        delta as int + 0x1_0000_0000
    }) as u32) by (bit_vector);
    data
}

/// A desktop coordinate on the normalized absolute scale along one axis.
pub fn absolute_axis(p: i32, origin: i32, extent: i32) -> (n: i32)
    ensures
        n as int == absolute_axis_of(p, origin, extent),
        0 <= n <= NORMALIZED_MAX,
{
    if extent <= 1 {
        return 0;
    }
    let offset: i64 = p as i64 - origin as i64;
    let last: i64 = extent as i64 - 1;
    let within: i64 = if offset < 0 {
        0
    } else if offset > last {
        last
    } else {
        offset
    };
    assert(0 <= within * 65535 <= last * 65535) by (nonlinear_arith)
        requires
            0 <= within <= last,
    ;
    assert((within * 65535) / (last as int) <= 65535) by (nonlinear_arith)
        requires
            0 <= within <= last,
            0 < last,
    ;
    let scaled: i64 = within * 65535;
    (scaled / last) as i32
}

/// The input record that injects `event` on `desktop`; exactly one record stands
/// for each event.
pub fn input_record(event: &OverlayEvent, desktop: Desktop) -> (record: RawInput)
    ensures
        record == raw_input_of(*event, desktop),
{
    match event {
        OverlayEvent::KeyDown { vk } => {
            let code = *vk as u16;
            assert(*vk as u16 == (*vk % 0x10000) as u16) by (bit_vector);
            RawInput::Keyboard { vk: code, flags: 0 }
        },
        OverlayEvent::KeyUp { vk } => {
            let code = *vk as u16;
            assert(*vk as u16 == (*vk % 0x10000) as u16) by (bit_vector);
            RawInput::Keyboard { vk: code, flags: KEYEVENTF_KEYUP }
        },
        OverlayEvent::MouseMove { x, y } => {
            let flags = MOUSEEVENTF_MOVE | MOUSEEVENTF_VIRTUALDESK | MOUSEEVENTF_ABSOLUTE;
            assert(MOUSEEVENTF_MOVE | MOUSEEVENTF_VIRTUALDESK | MOUSEEVENTF_ABSOLUTE == 0xC001u32) by (bit_vector);
            let dx = absolute_axis(*x, desktop.left, desktop.width);
            let dy = absolute_axis(*y, desktop.top, desktop.height);
            RawInput::Mouse { dx, dy, mouse_data: 0, flags }
        },
        OverlayEvent::MouseDown { button } => {
            let flags = match button {
                MouseButton::Left => MOUSEEVENTF_LEFTDOWN,
                MouseButton::Right => MOUSEEVENTF_RIGHTDOWN,
                MouseButton::Middle => MOUSEEVENTF_MIDDLEDOWN,
                MouseButton::X1 | MouseButton::X2 => MOUSEEVENTF_XDOWN,
            };
            RawInput::Mouse { dx: 0, dy: 0, mouse_data: button_data(*button), flags }
        },
        OverlayEvent::MouseUp { button } => {
            let flags = match button {
                MouseButton::Left => MOUSEEVENTF_LEFTUP,
                MouseButton::Right => MOUSEEVENTF_RIGHTUP,
                MouseButton::Middle => MOUSEEVENTF_MIDDLEUP,
                MouseButton::X1 | MouseButton::X2 => MOUSEEVENTF_XUP,
            };
            RawInput::Mouse { dx: 0, dy: 0, mouse_data: button_data(*button), flags }
        },
        OverlayEvent::MouseWheel { delta } => RawInput::Mouse {
            dx: 0,
            dy: 0,
            mouse_data: wheel_data(*delta),
            flags: MOUSEEVENTF_WHEEL,
        },
    }
}

/// A wheel record carries the rotation itself: its data word, read as a signed
/// 32-bit number, is the event's rotation.
pub proof fn lemma_wheel_amount(delta: i16, desktop: Desktop)
    ensures
        raw_input_of(OverlayEvent::MouseWheel { delta }, desktop) matches RawInput::Mouse { mouse_data, flags, .. }
            && mouse_data as i32 == delta as i32 && flags == MOUSEEVENTF_WHEEL,
{
    assert((if delta >= 0 { delta as int } else { delta as int + 0x1_0000_0000 }) as u32 as i32 == delta as i32)
        by (bit_vector);
}

/// A cursor position lands on the desktop's scale: the first pixel of each axis
/// goes to 0, the last to 65535, every position to a value in between, and a
/// position further right (or down) never to a smaller value.
pub proof fn lemma_absolute_axis_spans_desktop(origin: i32, extent: i32, p: i32, q: i32)
    requires
        extent > 1,
        origin + extent - 1 <= i32::MAX,
    ensures
        absolute_axis_of(origin, origin, extent) == 0,
        absolute_axis_of((origin + extent - 1) as i32, origin, extent) == NORMALIZED_MAX,
        0 <= absolute_axis_of(p, origin, extent) <= NORMALIZED_MAX,
        p <= q ==> absolute_axis_of(p, origin, extent) <= absolute_axis_of(q, origin, extent),
{
    let last = extent - 1;
    let wp = if p - origin < 0 { 0 } else if p - origin > last { last } else { p - origin };
    let wq = if q - origin < 0 { 0 } else if q - origin > last { last } else { q - origin };
    assert(wp * 65535 / last <= 65535 && 0 <= wp * 65535 / last) by (nonlinear_arith)
        requires
            0 <= wp <= last,
            0 < last,
    ;
    assert(last * 65535 / last == 65535) by (nonlinear_arith)
        requires
            0 < last,
    ;
    if p <= q {
        assert(wp <= wq);
        assert(wp * 65535 / last <= wq * 65535 / last) by (nonlinear_arith)
            requires
                0 <= wp <= wq,
                0 < last,
        ;
    }
}

/// A key code below 65536 is sent unchanged, for a press and for a release alike;
/// the two records differ only in the key-up flag.
pub proof fn lemma_key_code_preserved(vk: u32, desktop: Desktop)
    requires
        vk < 0x10000,
    ensures
        raw_input_of(OverlayEvent::KeyDown { vk }, desktop) == (RawInput::Keyboard { vk: vk as u16, flags: 0 }),
        raw_input_of(OverlayEvent::KeyUp { vk }, desktop) == (RawInput::Keyboard { vk: vk as u16, flags: KEYEVENTF_KEYUP }),
{
}

/// A button's release record carries the same data word as its press record, and
/// its flag is the press flag moved up by one bit.
pub proof fn lemma_release_mirrors_press(button: MouseButton, desktop: Desktop)
    ensures
        raw_input_of(OverlayEvent::MouseDown { button }, desktop) matches RawInput::Mouse { mouse_data: down_data, flags: down_flags, .. }
            && raw_input_of(OverlayEvent::MouseUp { button }, desktop) matches RawInput::Mouse { mouse_data: up_data, flags: up_flags, .. }
            && down_data == up_data && up_flags == 2 * down_flags,
{
}

/// Injected input never reaches the overlay's own handler: the hooks report no
/// event for any keyboard or mouse message that carries the injected flag.
pub proof fn lemma_injected_input_is_ignored(code: i32, message: u32, flags: u32, vk: u32, x: i32, y: i32, mouse_data: u32)
    ensures
        flags & LLKHF_INJECTED != 0 ==> keyboard_event_of(code, message, flags, vk) is None,
        flags & LLMHF_INJECTED != 0 ==> mouse_event_of(code, message, flags, x, y, mouse_data) is None,
{
    assert(flags & LLKHF_INJECTED != 0 ==> (flags / 0x10) % 2 == 1) by (bit_vector);
    assert(flags & LLMHF_INJECTED != 0 ==> flags % 2 == 1) by (bit_vector);
}

/// What each event injects: a key press is a keyboard record with no flags and a
/// release one with the key-up flag, both with the key code's low 16 bits; a move is
/// an absolute move across the virtual desktop; a press or release carries its
/// button's own flag (left, right, middle, or X for the side buttons, whose data word
/// is 1 or 2), and a wheel turn the wheel flag; no record but a move has a nonzero
/// position.
pub proof fn lemma_records_per_event(event: OverlayEvent, desktop: Desktop)
    ensures
        event matches OverlayEvent::KeyDown { vk } ==> raw_input_of(event, desktop) matches RawInput::Keyboard { vk: code, flags }
            && code as int == vk as int % 0x10000 && flags == 0,
        event matches OverlayEvent::KeyUp { vk } ==> raw_input_of(event, desktop) matches RawInput::Keyboard { vk: code, flags }
            && code as int == vk as int % 0x10000 && flags == KEYEVENTF_KEYUP,
        event matches OverlayEvent::MouseMove { x, y } ==> raw_input_of(event, desktop) matches RawInput::Mouse { dx, dy, mouse_data, flags }
            && dx == absolute_axis_of(x, desktop.left, desktop.width)
            && dy == absolute_axis_of(y, desktop.top, desktop.height)
            && mouse_data == 0 && flags == 0xC001,
        event == (OverlayEvent::MouseDown { button: MouseButton::Left }) ==> raw_input_of(event, desktop)
            == (RawInput::Mouse { dx: 0, dy: 0, mouse_data: 0, flags: MOUSEEVENTF_LEFTDOWN }),
        event == (OverlayEvent::MouseUp { button: MouseButton::Left }) ==> raw_input_of(event, desktop)
            == (RawInput::Mouse { dx: 0, dy: 0, mouse_data: 0, flags: MOUSEEVENTF_LEFTUP }),
        event == (OverlayEvent::MouseDown { button: MouseButton::Right }) ==> raw_input_of(event, desktop)
            == (RawInput::Mouse { dx: 0, dy: 0, mouse_data: 0, flags: MOUSEEVENTF_RIGHTDOWN }),
        event == (OverlayEvent::MouseUp { button: MouseButton::Right }) ==> raw_input_of(event, desktop)
            == (RawInput::Mouse { dx: 0, dy: 0, mouse_data: 0, flags: MOUSEEVENTF_RIGHTUP }),
        event == (OverlayEvent::MouseDown { button: MouseButton::Middle }) ==> raw_input_of(event, desktop)
            == (RawInput::Mouse { dx: 0, dy: 0, mouse_data: 0, flags: MOUSEEVENTF_MIDDLEDOWN }),
        event == (OverlayEvent::MouseUp { button: MouseButton::Middle }) ==> raw_input_of(event, desktop)
            == (RawInput::Mouse { dx: 0, dy: 0, mouse_data: 0, flags: MOUSEEVENTF_MIDDLEUP }),
        event == (OverlayEvent::MouseDown { button: MouseButton::X1 }) ==> raw_input_of(event, desktop)
            == (RawInput::Mouse { dx: 0, dy: 0, mouse_data: 1, flags: MOUSEEVENTF_XDOWN }),
        event == (OverlayEvent::MouseUp { button: MouseButton::X1 }) ==> raw_input_of(event, desktop)
            == (RawInput::Mouse { dx: 0, dy: 0, mouse_data: 1, flags: MOUSEEVENTF_XUP }),
        event == (OverlayEvent::MouseDown { button: MouseButton::X2 }) ==> raw_input_of(event, desktop)
            == (RawInput::Mouse { dx: 0, dy: 0, mouse_data: 2, flags: MOUSEEVENTF_XDOWN }),
        event == (OverlayEvent::MouseUp { button: MouseButton::X2 }) ==> raw_input_of(event, desktop)
            == (RawInput::Mouse { dx: 0, dy: 0, mouse_data: 2, flags: MOUSEEVENTF_XUP }),
        event matches OverlayEvent::MouseWheel { delta } ==> raw_input_of(event, desktop) matches RawInput::Mouse { dx, dy, mouse_data, flags }
            && dx == 0 && dy == 0 && flags == MOUSEEVENTF_WHEEL && mouse_data as i32 == delta as i32,
{
    if let OverlayEvent::KeyDown { vk } = event {
        assert(((vk % 0x10000) as u16) as int == vk as int % 0x10000);
    }
    if let OverlayEvent::KeyUp { vk } = event {
        assert(((vk % 0x10000) as u16) as int == vk as int % 0x10000);
    }
    if let OverlayEvent::MouseMove { x, y } = event {
        lemma_absolute_axis_in_range(x, desktop.left, desktop.width);
        lemma_absolute_axis_in_range(y, desktop.top, desktop.height);
    }
    if let OverlayEvent::MouseWheel { delta } = event {
        lemma_wheel_amount(delta, desktop);
    }
}

/// A normalized coordinate lies between 0 and 65535.
proof fn lemma_absolute_axis_in_range(p: i32, origin: i32, extent: i32)
    ensures
        0 <= absolute_axis_of(p, origin, extent) <= NORMALIZED_MAX,
{
    if extent > 1 {
        let last = extent - 1;
        let wp = if p - origin < 0 { 0 } else if p - origin > last { last } else { p - origin };
        assert(wp * 65535 / last <= 65535 && 0 <= wp * 65535 / last) by (nonlinear_arith)
            requires
                0 <= wp <= last,
                0 < last,
        ;
    }
}

} // verus!
