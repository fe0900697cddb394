use windows_sys::Win32::UI::Input::KeyboardAndMouse as km;
use real_gpu_app::events::{MouseButton, OverlayEvent};
use real_gpu_app::input::{
    absolute_axis, input_record, Desktop, RawInput, KEYEVENTF_KEYUP, MOUSEEVENTF_VIRTUALDESK, NORMALIZED_MAX, MOUSEEVENTF_ABSOLUTE, MOUSEEVENTF_LEFTDOWN,
    MOUSEEVENTF_LEFTUP, MOUSEEVENTF_MIDDLEDOWN, MOUSEEVENTF_MIDDLEUP, MOUSEEVENTF_MOVE,
    MOUSEEVENTF_RIGHTDOWN, MOUSEEVENTF_RIGHTUP, MOUSEEVENTF_WHEEL, MOUSEEVENTF_XDOWN,
    MOUSEEVENTF_XUP,
};

const DESKTOP: Desktop = Desktop { left: 0, top: 0, width: 1920, height: 1080 };

#[test]
fn flag_values_match_windows_sys() {
    assert_eq!(MOUSEEVENTF_VIRTUALDESK, km::MOUSEEVENTF_VIRTUALDESK);
    assert_eq!(KEYEVENTF_KEYUP, km::KEYEVENTF_KEYUP);
    assert_eq!(MOUSEEVENTF_MOVE, km::MOUSEEVENTF_MOVE);
    assert_eq!(MOUSEEVENTF_ABSOLUTE, km::MOUSEEVENTF_ABSOLUTE);
    assert_eq!(MOUSEEVENTF_LEFTDOWN, km::MOUSEEVENTF_LEFTDOWN);
    assert_eq!(MOUSEEVENTF_LEFTUP, km::MOUSEEVENTF_LEFTUP);
    assert_eq!(MOUSEEVENTF_RIGHTDOWN, km::MOUSEEVENTF_RIGHTDOWN);
    assert_eq!(MOUSEEVENTF_RIGHTUP, km::MOUSEEVENTF_RIGHTUP);
    assert_eq!(MOUSEEVENTF_MIDDLEDOWN, km::MOUSEEVENTF_MIDDLEDOWN);
    assert_eq!(MOUSEEVENTF_MIDDLEUP, km::MOUSEEVENTF_MIDDLEUP);
    assert_eq!(MOUSEEVENTF_XDOWN, km::MOUSEEVENTF_XDOWN);
    assert_eq!(MOUSEEVENTF_XUP, km::MOUSEEVENTF_XUP);
    assert_eq!(MOUSEEVENTF_WHEEL, km::MOUSEEVENTF_WHEEL);
}

#[test]
fn key_records() {
    assert_eq!(input_record(&OverlayEvent::KeyDown { vk: 0x41 }, DESKTOP), RawInput::Keyboard { vk: 0x41, flags: 0 });
    assert_eq!(input_record(&OverlayEvent::KeyUp { vk: 0x1B }, DESKTOP), RawInput::Keyboard { vk: 0x1B, flags: 2 });
    // A key code is cut to its low 16 bits.
    assert_eq!(input_record(&OverlayEvent::KeyDown { vk: 0x1_0041 }, DESKTOP), RawInput::Keyboard { vk: 0x41, flags: 0 });
}

#[test]
fn move_record_is_absolute_over_the_virtual_desktop() {
    // A desktop of two 1920 x 1080 screens, the second one left of the primary.
    let desktop = Desktop { left: -1920, top: 0, width: 3840, height: 1080 };
    assert_eq!(
        input_record(&OverlayEvent::MouseMove { x: -1920, y: 0 }, desktop),
        RawInput::Mouse { dx: 0, dy: 0, mouse_data: 0, flags: 0xC001 }
    );
    assert_eq!(
        input_record(&OverlayEvent::MouseMove { x: 1919, y: 1079 }, desktop),
        RawInput::Mouse { dx: 65535, dy: 65535, mouse_data: 0, flags: 0xC001 }
    );
    // (0 + 1920) * 65535 / 3839 = 32776, 540 * 65535 / 1079 = 32797.
    assert_eq!(
        input_record(&OverlayEvent::MouseMove { x: 0, y: 540 }, desktop),
        RawInput::Mouse { dx: 32776, dy: 32797, mouse_data: 0, flags: 0xC001 }
    );
}

#[test]
fn positions_beyond_the_desktop_are_taken_at_its_edge() {
    assert_eq!(absolute_axis(-5000, 0, 1920), 0);
    assert_eq!(absolute_axis(5000, 0, 1920), NORMALIZED_MAX);
    assert_eq!(absolute_axis(i32::MAX, i32::MIN, i32::MAX), NORMALIZED_MAX);
    assert_eq!(absolute_axis(123, 0, 1), 0);
    assert_eq!(absolute_axis(123, 0, -4), 0);
    let mut previous = 0;
    for p in 0..1920 {
        let n = absolute_axis(p, 0, 1920);
        assert!(previous <= n && n <= NORMALIZED_MAX);
        previous = n;
    }
    assert_eq!(previous, NORMALIZED_MAX);
}

#[test]
fn button_records() {
    let cases = [
        (MouseButton::Left, 0u32, 0x0002u32, 0x0004u32),
        (MouseButton::Right, 0, 0x0008, 0x0010),
        (MouseButton::Middle, 0, 0x0020, 0x0040),
        (MouseButton::X1, 1, 0x0080, 0x0100),
        (MouseButton::X2, 2, 0x0080, 0x0100),
    ];
    for (button, data, down, up) in cases {
        assert_eq!(
            input_record(&OverlayEvent::MouseDown { button }, DESKTOP),
            RawInput::Mouse { dx: 0, dy: 0, mouse_data: data, flags: down }
        );
        assert_eq!(
            input_record(&OverlayEvent::MouseUp { button }, DESKTOP),
            RawInput::Mouse { dx: 0, dy: 0, mouse_data: data, flags: up }
        );
        assert_eq!(up, 2 * down);
    }
}

#[test]
fn wheel_records() {
    assert_eq!(
        input_record(&OverlayEvent::MouseWheel { delta: 120 }, DESKTOP),
        RawInput::Mouse { dx: 0, dy: 0, mouse_data: 120, flags: 0x0800 }
    );
    assert_eq!(
        input_record(&OverlayEvent::MouseWheel { delta: -120 }, DESKTOP),
        RawInput::Mouse { dx: 0, dy: 0, mouse_data: 0xFFFF_FF88, flags: 0x0800 }
    );
}

#[test]
fn wheel_record_carries_the_rotation() {
    for delta in [i16::MIN, -240, -120, -1, 0, 1, 120, 240, i16::MAX] {
        match input_record(&OverlayEvent::MouseWheel { delta }, DESKTOP) {
            RawInput::Mouse { dx, dy, mouse_data, flags } => {
                assert_eq!((dx, dy, flags), (0, 0, MOUSEEVENTF_WHEEL));
                assert_eq!(mouse_data as i32, delta as i32);
            }
            other => panic!("unexpected record {:?}", other),
        }
    }
}
