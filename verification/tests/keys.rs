use lemo_gui::event::KeyCode;
use lemo_gui::sdl2_impl::{self, SdlKeycode};
use lemo_gui::winit_impl::{self, WinitKeyCode};

#[test]
fn winit_keys_translate_to_their_names() {
    assert_eq!(winit_impl::translate_key(WinitKeyCode::Digit1), KeyCode::Key1);
    assert_eq!(winit_impl::translate_key(WinitKeyCode::Digit0), KeyCode::Key0);
    assert_eq!(winit_impl::translate_key(WinitKeyCode::KeyA), KeyCode::A);
    assert_eq!(winit_impl::translate_key(WinitKeyCode::Enter), KeyCode::Return);
    assert_eq!(winit_impl::translate_key(WinitKeyCode::PrintScreen), KeyCode::Snapshot);
    assert_eq!(winit_impl::translate_key(WinitKeyCode::CapsLock), KeyCode::Capital);
    assert_eq!(winit_impl::translate_key(WinitKeyCode::NumpadEqual), KeyCode::NumpadEquals);
    assert_eq!(winit_impl::translate_key(WinitKeyCode::SuperLeft), KeyCode::LWin);
    assert_eq!(winit_impl::translate_key(WinitKeyCode::Backquote), KeyCode::Grave);
    assert_eq!(winit_impl::translate_key(WinitKeyCode::Quote), KeyCode::Apostrophe);
    assert_eq!(winit_impl::translate_key(WinitKeyCode::F24), KeyCode::F24);
}

#[test]
fn winit_unnamed_key_is_unlabeled() {
    assert_eq!(winit_impl::translate_key(WinitKeyCode::Other), KeyCode::Unlabeled);
}

#[test]
fn winit_named_keys_never_collide() {
    let keys = [
        WinitKeyCode::Digit1,
        WinitKeyCode::Numpad1,
        WinitKeyCode::KeyA,
        WinitKeyCode::Enter,
        WinitKeyCode::NumpadEnter,
        WinitKeyCode::Minus,
        WinitKeyCode::NumpadSubtract,
        WinitKeyCode::Period,
        WinitKeyCode::NumpadDecimal,
    ];
    for (i, a) in keys.iter().enumerate() {
        for (j, b) in keys.iter().enumerate() {
            let same = winit_impl::translate_key(*a) == winit_impl::translate_key(*b);
            assert_eq!(same, i == j);
        }
    }
}

#[test]
fn sdl_keys_translate_to_their_names() {
    assert_eq!(sdl2_impl::translate_key(SdlKeycode::Num1), KeyCode::Numpad1);
    assert_eq!(sdl2_impl::translate_key(SdlKeycode::Kp1), KeyCode::Numpad1);
    assert_eq!(sdl2_impl::translate_key(SdlKeycode::A), KeyCode::A);
    assert_eq!(sdl2_impl::translate_key(SdlKeycode::Prior), KeyCode::Period);
    assert_eq!(sdl2_impl::translate_key(SdlKeycode::KpPeriod), KeyCode::Period);
    assert_eq!(sdl2_impl::translate_key(SdlKeycode::Underscore), KeyCode::Underline);
    assert_eq!(sdl2_impl::translate_key(SdlKeycode::LGui), KeyCode::LGui);
    assert_eq!(sdl2_impl::translate_key(SdlKeycode::KpTab), KeyCode::Tab);
    assert_eq!(sdl2_impl::translate_key(SdlKeycode::KpClear), KeyCode::Clear);
    assert_eq!(sdl2_impl::translate_key(SdlKeycode::Eject), KeyCode::Eject);
}

#[test]
fn sdl_unnamed_key_is_unlabeled() {
    assert_eq!(sdl2_impl::translate_key(SdlKeycode::Other), KeyCode::Unlabeled);
    assert_ne!(sdl2_impl::translate_key(SdlKeycode::Sleep), KeyCode::Unlabeled);
}
