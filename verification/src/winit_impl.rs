//! Decisions of the winit backend: key translation, event conversion and
//! what the window loop does with each window event. The backend itself
//! hands these functions plain values taken from winit's types.
use vstd::prelude::*;

use crate::event::{
    char_event, is_control, other_event, spec_char_event, spec_is_control, spec_other_event,
    EventType, GEvent, KeyCode, Mouse, State,
};

verus! {

/// The physical keys of winit that the toolkit gives a name of its own;
/// every other physical key is `Other`.
#[derive(Clone, Copy, Debug, PartialEq, Eq, Structural)]
pub enum WinitKeyCode {
    Digit1, Digit2, Digit3, Digit4, Digit5, Digit6, Digit7, Digit8, Digit9, Digit0, KeyA,
    KeyB, KeyC, KeyD, KeyE, KeyF, KeyG, KeyH, KeyI, KeyJ, KeyK, KeyL, KeyM, KeyN, KeyO,
    KeyP, KeyQ, KeyR, KeyS, KeyT, KeyU, KeyV, KeyW, KeyX, KeyY, KeyZ, Escape, F1, F2,
    F3, F4, F5, F6, F7, F8, F9, F10, F11, F12, F13, F14, F15, F16, F17, F18, F19, F20,
    F21, F22, F23, F24, PrintScreen, ScrollLock, Pause, Insert, Home, Delete, End, PageDown,
    PageUp, ArrowLeft, ArrowUp, ArrowRight, ArrowDown, Backspace, Enter, Space, Tab, CapsLock,
    NumLock, Numpad0, Numpad1, Numpad2, Numpad3, Numpad4, Numpad5, Numpad6, Numpad7, Numpad8,
    Numpad9, NumpadAdd, NumpadSubtract, NumpadMultiply, NumpadDivide, NumpadDecimal, NumpadComma,
    NumpadEnter, NumpadEqual, AltLeft, AltRight, ControlLeft, ControlRight, ShiftLeft,
    ShiftRight, SuperLeft, SuperRight, Minus, Equal, Backquote, BracketLeft, BracketRight,
    Backslash, Semicolon, Quote, Comma, Slash, Period, Other,
}

/// Key code that the toolkit uses for a winit physical key.
pub open spec fn winit_key_code(key: WinitKeyCode) -> KeyCode {
    match key {
            WinitKeyCode::Digit1 => KeyCode::Key1,
            WinitKeyCode::Digit2 => KeyCode::Key2,
            WinitKeyCode::Digit3 => KeyCode::Key3,
            WinitKeyCode::Digit4 => KeyCode::Key4,
            WinitKeyCode::Digit5 => KeyCode::Key5,
            WinitKeyCode::Digit6 => KeyCode::Key6,
            WinitKeyCode::Digit7 => KeyCode::Key7,
            WinitKeyCode::Digit8 => KeyCode::Key8,
            WinitKeyCode::Digit9 => KeyCode::Key9,
            WinitKeyCode::Digit0 => KeyCode::Key0,
            WinitKeyCode::KeyA => KeyCode::A,
            WinitKeyCode::KeyB => KeyCode::B,
            WinitKeyCode::KeyC => KeyCode::C,
            WinitKeyCode::KeyD => KeyCode::D,
            WinitKeyCode::KeyE => KeyCode::E,
            WinitKeyCode::KeyF => KeyCode::F,
            WinitKeyCode::KeyG => KeyCode::G,
            WinitKeyCode::KeyH => KeyCode::H,
            WinitKeyCode::KeyI => KeyCode::I,
            WinitKeyCode::KeyJ => KeyCode::J,
            WinitKeyCode::KeyK => KeyCode::K,
            WinitKeyCode::KeyL => KeyCode::L,
            WinitKeyCode::KeyM => KeyCode::M,
            WinitKeyCode::KeyN => KeyCode::N,
            WinitKeyCode::KeyO => KeyCode::O,
            WinitKeyCode::KeyP => KeyCode::P,
            WinitKeyCode::KeyQ => KeyCode::Q,
            WinitKeyCode::KeyR => KeyCode::R,
            WinitKeyCode::KeyS => KeyCode::S,
            WinitKeyCode::KeyT => KeyCode::T,
            WinitKeyCode::KeyU => KeyCode::U,
            WinitKeyCode::KeyV => KeyCode::V,
            WinitKeyCode::KeyW => KeyCode::W,
            WinitKeyCode::KeyX => KeyCode::X,
            WinitKeyCode::KeyY => KeyCode::Y,
            WinitKeyCode::KeyZ => KeyCode::Z,
            WinitKeyCode::Escape => KeyCode::Escape,
            WinitKeyCode::F1 => KeyCode::F1,
            WinitKeyCode::F2 => KeyCode::F2,
            WinitKeyCode::F3 => KeyCode::F3,
            WinitKeyCode::F4 => KeyCode::F4,
            WinitKeyCode::F5 => KeyCode::F5,
            WinitKeyCode::F6 => KeyCode::F6,
            WinitKeyCode::F7 => KeyCode::F7,
            WinitKeyCode::F8 => KeyCode::F8,
            WinitKeyCode::F9 => KeyCode::F9,
            WinitKeyCode::F10 => KeyCode::F10,
            WinitKeyCode::F11 => KeyCode::F11,
            WinitKeyCode::F12 => KeyCode::F12,
            WinitKeyCode::F13 => KeyCode::F13,
            WinitKeyCode::F14 => KeyCode::F14,
            WinitKeyCode::F15 => KeyCode::F15,
            WinitKeyCode::F16 => KeyCode::F16,
            WinitKeyCode::F17 => KeyCode::F17,
            WinitKeyCode::F18 => KeyCode::F18,
            WinitKeyCode::F19 => KeyCode::F19,
            WinitKeyCode::F20 => KeyCode::F20,
            WinitKeyCode::F21 => KeyCode::F21,
            WinitKeyCode::F22 => KeyCode::F22,
            WinitKeyCode::F23 => KeyCode::F23,
            WinitKeyCode::F24 => KeyCode::F24,
            WinitKeyCode::PrintScreen => KeyCode::Snapshot,
            WinitKeyCode::ScrollLock => KeyCode::Scroll,
            WinitKeyCode::Pause => KeyCode::Pause,
            WinitKeyCode::Insert => KeyCode::Insert,
            WinitKeyCode::Home => KeyCode::Home,
            WinitKeyCode::Delete => KeyCode::Delete,
            WinitKeyCode::End => KeyCode::End,
            WinitKeyCode::PageDown => KeyCode::PageDown,
            WinitKeyCode::PageUp => KeyCode::PageUp,
            WinitKeyCode::ArrowLeft => KeyCode::Left,
            WinitKeyCode::ArrowUp => KeyCode::Up,
            WinitKeyCode::ArrowRight => KeyCode::Right,
            WinitKeyCode::ArrowDown => KeyCode::Down,
            WinitKeyCode::Backspace => KeyCode::Backspace,
            WinitKeyCode::Enter => KeyCode::Return,
            WinitKeyCode::Space => KeyCode::Space,
            WinitKeyCode::Tab => KeyCode::Tab,
            WinitKeyCode::CapsLock => KeyCode::Capital,
            WinitKeyCode::NumLock => KeyCode::Numlock,
            WinitKeyCode::Numpad0 => KeyCode::Numpad0,
            WinitKeyCode::Numpad1 => KeyCode::Numpad1,
            WinitKeyCode::Numpad2 => KeyCode::Numpad2,
            WinitKeyCode::Numpad3 => KeyCode::Numpad3,
            WinitKeyCode::Numpad4 => KeyCode::Numpad4,
            WinitKeyCode::Numpad5 => KeyCode::Numpad5,
            WinitKeyCode::Numpad6 => KeyCode::Numpad6,
            WinitKeyCode::Numpad7 => KeyCode::Numpad7,
            WinitKeyCode::Numpad8 => KeyCode::Numpad8,
            WinitKeyCode::Numpad9 => KeyCode::Numpad9,
            WinitKeyCode::NumpadAdd => KeyCode::NumpadAdd,
            WinitKeyCode::NumpadSubtract => KeyCode::NumpadSubtract,
            WinitKeyCode::NumpadMultiply => KeyCode::NumpadMultiply,
            WinitKeyCode::NumpadDivide => KeyCode::NumpadDivide,
            WinitKeyCode::NumpadDecimal => KeyCode::NumpadDecimal,
            WinitKeyCode::NumpadComma => KeyCode::NumpadComma,
            WinitKeyCode::NumpadEnter => KeyCode::NumpadEnter,
            WinitKeyCode::NumpadEqual => KeyCode::NumpadEquals,
            WinitKeyCode::AltLeft => KeyCode::LAlt,
            WinitKeyCode::AltRight => KeyCode::RAlt,
            WinitKeyCode::ControlLeft => KeyCode::LControl,
            WinitKeyCode::ControlRight => KeyCode::RControl,
            WinitKeyCode::ShiftLeft => KeyCode::LShift,
            WinitKeyCode::ShiftRight => KeyCode::RShift,
            WinitKeyCode::SuperLeft => KeyCode::LWin,
            WinitKeyCode::SuperRight => KeyCode::RWin,
            WinitKeyCode::Minus => KeyCode::Minus,
            WinitKeyCode::Equal => KeyCode::Equals,
            WinitKeyCode::Backquote => KeyCode::Grave,
            WinitKeyCode::BracketLeft => KeyCode::LBracket,
            WinitKeyCode::BracketRight => KeyCode::RBracket,
            WinitKeyCode::Backslash => KeyCode::Backslash,
            WinitKeyCode::Semicolon => KeyCode::Semicolon,
            WinitKeyCode::Quote => KeyCode::Apostrophe,
            WinitKeyCode::Comma => KeyCode::Comma,
            WinitKeyCode::Slash => KeyCode::Slash,
            WinitKeyCode::Period => KeyCode::Period,
            WinitKeyCode::Other => KeyCode::Unlabeled,
    }
}

/// The winit key that a key code comes from (`Other` for the key codes that
/// no winit key is translated to).
pub open spec fn winit_key_source(code: KeyCode) -> WinitKeyCode {
    match code {
            KeyCode::Key1 => WinitKeyCode::Digit1,
            KeyCode::Key2 => WinitKeyCode::Digit2,
            KeyCode::Key3 => WinitKeyCode::Digit3,
            KeyCode::Key4 => WinitKeyCode::Digit4,
            KeyCode::Key5 => WinitKeyCode::Digit5,
            KeyCode::Key6 => WinitKeyCode::Digit6,
            KeyCode::Key7 => WinitKeyCode::Digit7,
            KeyCode::Key8 => WinitKeyCode::Digit8,
            KeyCode::Key9 => WinitKeyCode::Digit9,
            KeyCode::Key0 => WinitKeyCode::Digit0,
            KeyCode::A => WinitKeyCode::KeyA,
            KeyCode::B => WinitKeyCode::KeyB,
            KeyCode::C => WinitKeyCode::KeyC,
            KeyCode::D => WinitKeyCode::KeyD,
            KeyCode::E => WinitKeyCode::KeyE,
            KeyCode::F => WinitKeyCode::KeyF,
            KeyCode::G => WinitKeyCode::KeyG,
            KeyCode::H => WinitKeyCode::KeyH,
            KeyCode::I => WinitKeyCode::KeyI,
            KeyCode::J => WinitKeyCode::KeyJ,
            KeyCode::K => WinitKeyCode::KeyK,
            KeyCode::L => WinitKeyCode::KeyL,
            KeyCode::M => WinitKeyCode::KeyM,
            KeyCode::N => WinitKeyCode::KeyN,
            KeyCode::O => WinitKeyCode::KeyO,
            KeyCode::P => WinitKeyCode::KeyP,
            KeyCode::Q => WinitKeyCode::KeyQ,
            KeyCode::R => WinitKeyCode::KeyR,
            KeyCode::S => WinitKeyCode::KeyS,
            KeyCode::T => WinitKeyCode::KeyT,
            KeyCode::U => WinitKeyCode::KeyU,
            KeyCode::V => WinitKeyCode::KeyV,
            KeyCode::W => WinitKeyCode::KeyW,
            KeyCode::X => WinitKeyCode::KeyX,
            KeyCode::Y => WinitKeyCode::KeyY,
            KeyCode::Z => WinitKeyCode::KeyZ,
            KeyCode::Escape => WinitKeyCode::Escape,
            KeyCode::F1 => WinitKeyCode::F1,
            KeyCode::F2 => WinitKeyCode::F2,
            KeyCode::F3 => WinitKeyCode::F3,
            KeyCode::F4 => WinitKeyCode::F4,
            KeyCode::F5 => WinitKeyCode::F5,
            KeyCode::F6 => WinitKeyCode::F6,
            KeyCode::F7 => WinitKeyCode::F7,
            KeyCode::F8 => WinitKeyCode::F8,
            KeyCode::F9 => WinitKeyCode::F9,
            KeyCode::F10 => WinitKeyCode::F10,
            KeyCode::F11 => WinitKeyCode::F11,
            KeyCode::F12 => WinitKeyCode::F12,
            KeyCode::F13 => WinitKeyCode::F13,
            KeyCode::F14 => WinitKeyCode::F14,
            KeyCode::F15 => WinitKeyCode::F15,
            KeyCode::F16 => WinitKeyCode::F16,
            KeyCode::F17 => WinitKeyCode::F17,
            KeyCode::F18 => WinitKeyCode::F18,
            KeyCode::F19 => WinitKeyCode::F19,
            KeyCode::F20 => WinitKeyCode::F20,
            KeyCode::F21 => WinitKeyCode::F21,
            KeyCode::F22 => WinitKeyCode::F22,
            KeyCode::F23 => WinitKeyCode::F23,
            KeyCode::F24 => WinitKeyCode::F24,
            KeyCode::Snapshot => WinitKeyCode::PrintScreen,
            KeyCode::Scroll => WinitKeyCode::ScrollLock,
            KeyCode::Pause => WinitKeyCode::Pause,
            KeyCode::Insert => WinitKeyCode::Insert,
            KeyCode::Home => WinitKeyCode::Home,
            KeyCode::Delete => WinitKeyCode::Delete,
            KeyCode::End => WinitKeyCode::End,
            KeyCode::PageDown => WinitKeyCode::PageDown,
            KeyCode::PageUp => WinitKeyCode::PageUp,
            KeyCode::Left => WinitKeyCode::ArrowLeft,
            KeyCode::Up => WinitKeyCode::ArrowUp,
            KeyCode::Right => WinitKeyCode::ArrowRight,
            KeyCode::Down => WinitKeyCode::ArrowDown,
            KeyCode::Backspace => WinitKeyCode::Backspace,
            KeyCode::Return => WinitKeyCode::Enter,
            KeyCode::Space => WinitKeyCode::Space,
            KeyCode::Tab => WinitKeyCode::Tab,
            KeyCode::Capital => WinitKeyCode::CapsLock,
            KeyCode::Numlock => WinitKeyCode::NumLock,
            KeyCode::Numpad0 => WinitKeyCode::Numpad0,
            KeyCode::Numpad1 => WinitKeyCode::Numpad1,
            KeyCode::Numpad2 => WinitKeyCode::Numpad2,
            KeyCode::Numpad3 => WinitKeyCode::Numpad3,
            KeyCode::Numpad4 => WinitKeyCode::Numpad4,
            KeyCode::Numpad5 => WinitKeyCode::Numpad5,
            KeyCode::Numpad6 => WinitKeyCode::Numpad6,
            KeyCode::Numpad7 => WinitKeyCode::Numpad7,
            KeyCode::Numpad8 => WinitKeyCode::Numpad8,
            KeyCode::Numpad9 => WinitKeyCode::Numpad9,
            KeyCode::NumpadAdd => WinitKeyCode::NumpadAdd,
            KeyCode::NumpadSubtract => WinitKeyCode::NumpadSubtract,
            KeyCode::NumpadMultiply => WinitKeyCode::NumpadMultiply,
            KeyCode::NumpadDivide => WinitKeyCode::NumpadDivide,
            KeyCode::NumpadDecimal => WinitKeyCode::NumpadDecimal,
            KeyCode::NumpadComma => WinitKeyCode::NumpadComma,
            KeyCode::NumpadEnter => WinitKeyCode::NumpadEnter,
            KeyCode::NumpadEquals => WinitKeyCode::NumpadEqual,
            KeyCode::LAlt => WinitKeyCode::AltLeft,
            KeyCode::RAlt => WinitKeyCode::AltRight,
            KeyCode::LControl => WinitKeyCode::ControlLeft,
            KeyCode::RControl => WinitKeyCode::ControlRight,
            KeyCode::LShift => WinitKeyCode::ShiftLeft,
            KeyCode::RShift => WinitKeyCode::ShiftRight,
            KeyCode::LWin => WinitKeyCode::SuperLeft,
            KeyCode::RWin => WinitKeyCode::SuperRight,
            KeyCode::Minus => WinitKeyCode::Minus,
            KeyCode::Equals => WinitKeyCode::Equal,
            KeyCode::Grave => WinitKeyCode::Backquote,
            KeyCode::LBracket => WinitKeyCode::BracketLeft,
            KeyCode::RBracket => WinitKeyCode::BracketRight,
            KeyCode::Backslash => WinitKeyCode::Backslash,
            KeyCode::Semicolon => WinitKeyCode::Semicolon,
            KeyCode::Apostrophe => WinitKeyCode::Quote,
            KeyCode::Comma => WinitKeyCode::Comma,
            KeyCode::Slash => WinitKeyCode::Slash,
            KeyCode::Period => WinitKeyCode::Period,
            _ => WinitKeyCode::Other,
    }
}

/// Translates a winit physical key into the toolkit's key code.
pub fn translate_key(key: WinitKeyCode) -> (code: KeyCode)
    ensures
        code == winit_key_code(key),
        key != WinitKeyCode::Other ==> winit_key_source(code) == key,
{
    proof {
        lemma_translate_key_injective(key, key);
    }
    let code = match key {
            WinitKeyCode::Digit1 => KeyCode::Key1,
            WinitKeyCode::Digit2 => KeyCode::Key2,
            WinitKeyCode::Digit3 => KeyCode::Key3,
            WinitKeyCode::Digit4 => KeyCode::Key4,
            WinitKeyCode::Digit5 => KeyCode::Key5,
            WinitKeyCode::Digit6 => KeyCode::Key6,
            WinitKeyCode::Digit7 => KeyCode::Key7,
            WinitKeyCode::Digit8 => KeyCode::Key8,
            WinitKeyCode::Digit9 => KeyCode::Key9,
            WinitKeyCode::Digit0 => KeyCode::Key0,
            WinitKeyCode::KeyA => KeyCode::A,
            WinitKeyCode::KeyB => KeyCode::B,
            WinitKeyCode::KeyC => KeyCode::C,
            WinitKeyCode::KeyD => KeyCode::D,
            WinitKeyCode::KeyE => KeyCode::E,
            WinitKeyCode::KeyF => KeyCode::F,
            WinitKeyCode::KeyG => KeyCode::G,
            WinitKeyCode::KeyH => KeyCode::H,
            WinitKeyCode::KeyI => KeyCode::I,
            WinitKeyCode::KeyJ => KeyCode::J,
            WinitKeyCode::KeyK => KeyCode::K,
            WinitKeyCode::KeyL => KeyCode::L,
            WinitKeyCode::KeyM => KeyCode::M,
            WinitKeyCode::KeyN => KeyCode::N,
            WinitKeyCode::KeyO => KeyCode::O,
            WinitKeyCode::KeyP => KeyCode::P,
            WinitKeyCode::KeyQ => KeyCode::Q,
            WinitKeyCode::KeyR => KeyCode::R,
            WinitKeyCode::KeyS => KeyCode::S,
            WinitKeyCode::KeyT => KeyCode::T,
            WinitKeyCode::KeyU => KeyCode::U,
            WinitKeyCode::KeyV => KeyCode::V,
            WinitKeyCode::KeyW => KeyCode::W,
            WinitKeyCode::KeyX => KeyCode::X,
            WinitKeyCode::KeyY => KeyCode::Y,
            WinitKeyCode::KeyZ => KeyCode::Z,
            WinitKeyCode::Escape => KeyCode::Escape,
            WinitKeyCode::F1 => KeyCode::F1,
            WinitKeyCode::F2 => KeyCode::F2,
            WinitKeyCode::F3 => KeyCode::F3,
            WinitKeyCode::F4 => KeyCode::F4,
            WinitKeyCode::F5 => KeyCode::F5,
            WinitKeyCode::F6 => KeyCode::F6,
            WinitKeyCode::F7 => KeyCode::F7,
            WinitKeyCode::F8 => KeyCode::F8,
            WinitKeyCode::F9 => KeyCode::F9,
            WinitKeyCode::F10 => KeyCode::F10,
            WinitKeyCode::F11 => KeyCode::F11,
            WinitKeyCode::F12 => KeyCode::F12,
            WinitKeyCode::F13 => KeyCode::F13,
            WinitKeyCode::F14 => KeyCode::F14,
            WinitKeyCode::F15 => KeyCode::F15,
            WinitKeyCode::F16 => KeyCode::F16,
            WinitKeyCode::F17 => KeyCode::F17,
            WinitKeyCode::F18 => KeyCode::F18,
            WinitKeyCode::F19 => KeyCode::F19,
            WinitKeyCode::F20 => KeyCode::F20,
            WinitKeyCode::F21 => KeyCode::F21,
            WinitKeyCode::F22 => KeyCode::F22,
            WinitKeyCode::F23 => KeyCode::F23,
            WinitKeyCode::F24 => KeyCode::F24,
            WinitKeyCode::PrintScreen => KeyCode::Snapshot,
            WinitKeyCode::ScrollLock => KeyCode::Scroll,
            WinitKeyCode::Pause => KeyCode::Pause,
            WinitKeyCode::Insert => KeyCode::Insert,
            WinitKeyCode::Home => KeyCode::Home,
            WinitKeyCode::Delete => KeyCode::Delete,
            WinitKeyCode::End => KeyCode::End,
            WinitKeyCode::PageDown => KeyCode::PageDown,
            WinitKeyCode::PageUp => KeyCode::PageUp,
            WinitKeyCode::ArrowLeft => KeyCode::Left,
            WinitKeyCode::ArrowUp => KeyCode::Up,
            WinitKeyCode::ArrowRight => KeyCode::Right,
            WinitKeyCode::ArrowDown => KeyCode::Down,
            WinitKeyCode::Backspace => KeyCode::Backspace,
            WinitKeyCode::Enter => KeyCode::Return,
            WinitKeyCode::Space => KeyCode::Space,
            WinitKeyCode::Tab => KeyCode::Tab,
            WinitKeyCode::CapsLock => KeyCode::Capital,
            WinitKeyCode::NumLock => KeyCode::Numlock,
            WinitKeyCode::Numpad0 => KeyCode::Numpad0,
            WinitKeyCode::Numpad1 => KeyCode::Numpad1,
            WinitKeyCode::Numpad2 => KeyCode::Numpad2,
            WinitKeyCode::Numpad3 => KeyCode::Numpad3,
            WinitKeyCode::Numpad4 => KeyCode::Numpad4,
            WinitKeyCode::Numpad5 => KeyCode::Numpad5,
            WinitKeyCode::Numpad6 => KeyCode::Numpad6,
            WinitKeyCode::Numpad7 => KeyCode::Numpad7,
            WinitKeyCode::Numpad8 => KeyCode::Numpad8,
            WinitKeyCode::Numpad9 => KeyCode::Numpad9,
            WinitKeyCode::NumpadAdd => KeyCode::NumpadAdd,
            WinitKeyCode::NumpadSubtract => KeyCode::NumpadSubtract,
            WinitKeyCode::NumpadMultiply => KeyCode::NumpadMultiply,
            WinitKeyCode::NumpadDivide => KeyCode::NumpadDivide,
            WinitKeyCode::NumpadDecimal => KeyCode::NumpadDecimal,
            WinitKeyCode::NumpadComma => KeyCode::NumpadComma,
            WinitKeyCode::NumpadEnter => KeyCode::NumpadEnter,
            WinitKeyCode::NumpadEqual => KeyCode::NumpadEquals,
            WinitKeyCode::AltLeft => KeyCode::LAlt,
            WinitKeyCode::AltRight => KeyCode::RAlt,
            WinitKeyCode::ControlLeft => KeyCode::LControl,
            WinitKeyCode::ControlRight => KeyCode::RControl,
            WinitKeyCode::ShiftLeft => KeyCode::LShift,
            WinitKeyCode::ShiftRight => KeyCode::RShift,
            WinitKeyCode::SuperLeft => KeyCode::LWin,
            WinitKeyCode::SuperRight => KeyCode::RWin,
            WinitKeyCode::Minus => KeyCode::Minus,
            WinitKeyCode::Equal => KeyCode::Equals,
            WinitKeyCode::Backquote => KeyCode::Grave,
            WinitKeyCode::BracketLeft => KeyCode::LBracket,
            WinitKeyCode::BracketRight => KeyCode::RBracket,
            WinitKeyCode::Backslash => KeyCode::Backslash,
            WinitKeyCode::Semicolon => KeyCode::Semicolon,
            WinitKeyCode::Quote => KeyCode::Apostrophe,
            WinitKeyCode::Comma => KeyCode::Comma,
            WinitKeyCode::Slash => KeyCode::Slash,
            WinitKeyCode::Period => KeyCode::Period,
            WinitKeyCode::Other => KeyCode::Unlabeled,
    };
    code
}

/// Distinct named winit keys get distinct key codes, and exactly the keys
/// without a name of their own become `Unlabeled`.
pub proof fn lemma_translate_key_injective(a: WinitKeyCode, b: WinitKeyCode)
    ensures
        a != WinitKeyCode::Other ==> winit_key_source(winit_key_code(a)) == a,
        (winit_key_code(a) == KeyCode::Unlabeled) <==> (a == WinitKeyCode::Other),
        a != WinitKeyCode::Other && b != WinitKeyCode::Other && winit_key_code(a) == winit_key_code(b)
            ==> a == b,
{
    if b != WinitKeyCode::Other {
        assert(winit_key_source(winit_key_code(b)) == b);
    }
}

/// winit's mouse buttons.
#[derive(Clone, Copy, Debug, PartialEq, Eq, Structural)]
pub enum WinitMouseButton {
    Left,
    Right,
    Middle,
    Back,
    Forward,
    Other(u16),
}

/// winit's press state of a button or key.
#[derive(Clone, Copy, Debug, PartialEq, Eq, Structural)]
pub enum WinitElementState {
    Pressed,
    Released,
}

/// The window events of winit, with what the toolkit reads of each.
/// `CursorMoved` carries no position: the caller records the position in
/// its event context itself. `text` is the first character of the text that
/// a key press produced, if it produced any.
#[derive(Clone, Debug, PartialEq, Eq)]
pub enum WinitWindowEvent {
    CloseRequested,
    Resized { width: u32, height: u32 },
    CursorMoved,
    RedrawRequested,
    ImeEnabled,
    ImePreedit,
    ImeCommit(Vec<char>),
    MouseInput { state: WinitElementState, button: WinitMouseButton },
    KeyboardInput {
        state: WinitElementState,
        physical_key: Option<WinitKeyCode>,
        text: Option<char>,
    },
    Other,
}

pub open spec fn spec_mouse_from(button: WinitMouseButton) -> Mouse {
    match button {
        WinitMouseButton::Left => Mouse::Left,
        WinitMouseButton::Right => Mouse::Right,
        WinitMouseButton::Middle => Mouse::Middle,
        _ => Mouse::Other,
    }
}

/// The toolkit's mouse button for a winit mouse button.
pub fn mouse_from(button: WinitMouseButton) -> (m: Mouse)
    ensures
        m == spec_mouse_from(button),
        (m == Mouse::Left) == (button == WinitMouseButton::Left),
        (m == Mouse::Right) == (button == WinitMouseButton::Right),
        (m == Mouse::Middle) == (button == WinitMouseButton::Middle),
{
    match button {
        WinitMouseButton::Left => Mouse::Left,
        WinitMouseButton::Right => Mouse::Right,
        WinitMouseButton::Middle => Mouse::Middle,
        _ => Mouse::Other,
    }
}

pub open spec fn spec_state_from(state: WinitElementState) -> State {
    match state {
        WinitElementState::Pressed => State::Pressed,
        WinitElementState::Released => State::Released,
    }
}

/// The toolkit's press state for a winit press state.
pub fn state_from(state: WinitElementState) -> (s: State)
    ensures
        s == spec_state_from(state),
        (s == State::Pressed) == (state == WinitElementState::Pressed),
        (s == State::Released) == (state == WinitElementState::Released),
{
    match state {
        WinitElementState::Pressed => State::Pressed,
        WinitElementState::Released => State::Released,
    }
}

/// The event that widgets receive for a winit window event: a mouse button,
/// the character that a key typed (when it is not a control character), the
/// key itself, or `Other`.
pub open spec fn spec_gevent_from(event: WinitWindowEvent) -> GEvent {
    match event {
        WinitWindowEvent::MouseInput { state, button } => GEvent {
            event: EventType::Mouse(spec_mouse_from(button)),
            state: spec_state_from(state),
        },
        WinitWindowEvent::KeyboardInput { state, physical_key, text } => {
            if text.is_some() && !spec_is_control(text.unwrap()) {
                spec_char_event(text.unwrap())
            } else {
                GEvent {
                    event: EventType::KeyBoard(
                        match physical_key {
                            Some(k) => Some(winit_key_code(k)),
                            None => None,
                        },
                    ),
                    state: spec_state_from(state),
                }
            }
        },
        _ => spec_other_event(),
    }
}

/// Converts a winit window event into the event that widgets receive.
pub fn gevent_from(event: &WinitWindowEvent) -> (g: GEvent)
    ensures
        g == spec_gevent_from(*event),
{
    match event {
        WinitWindowEvent::MouseInput { state, button } => GEvent {
            event: EventType::Mouse(mouse_from(*button)),
            state: state_from(*state),
        },
        WinitWindowEvent::KeyboardInput { state, physical_key, text } => {
            let keycode = match physical_key {
                Some(k) => Some(translate_key(*k)),
                None => None,
            };
            if let Some(c) = text {
                if !is_control(*c) {
                    return char_event(*c);
                }
            }
            GEvent { event: EventType::KeyBoard(keycode), state: state_from(*state) }
        },
        _ => other_event(),
    }
}

/// One `ReceivedCharacter` event per character, in order.
pub open spec fn spec_char_events(chars: Seq<char>) -> Seq<GEvent> {
    chars.map_values(|c: char| spec_char_event(c))
}

/// Builds one `ReceivedCharacter` event per character, in order.
pub fn char_events(chars: &Vec<char>) -> (events: Vec<GEvent>)
    ensures
        events@ == spec_char_events(chars@),
{
    let mut events: Vec<GEvent> = Vec::new();
    let mut i: usize = 0;
    while i < chars.len()
        invariant
            i <= chars.len(),
            events@ == spec_char_events(chars@.take(i as int)),
        decreases chars.len() - i,
    {
        events.push(char_event(chars[i]));
        proof {
            assert(chars@.take(i + 1) == chars@.take(i as int).push(chars@[i as int]));
        }
        i = i + 1;
    }
    proof {
        assert(chars@.take(chars@.len() as int) == chars@);
    }
    events
}

/// What the window loop does with one window event.
#[derive(Clone, Debug, PartialEq, Eq)]
pub enum WinitAction {
    /// The event belongs to another window.
    Ignore,
    /// Leave the event loop.
    Exit,
    /// Commit the component tree, deliver `Other`, present the frame and
    /// move the IME box to the caret.
    Redraw,
    /// Move the IME box to the caret.
    PlaceIme,
    /// Deliver each event in order; ask for a redraw when any listener
    /// reports a change.
    DeliverEach(Vec<GEvent>),
    /// Reconfigure the surface to `resize` and ask for a redraw (when it is
    /// `Some`), record the cursor position (when `move_cursor`), then deliver
    /// `event` and ask for a redraw when the listener reports a change.
    Deliver { resize: Option<(u32, u32)>, move_cursor: bool, event: GEvent },
}

/// Whether `action` is what the window loop does with `event`; `same_window`
/// tells whether the event belongs to the toolkit's window.
pub open spec fn is_window_event_action(
    same_window: bool,
    event: WinitWindowEvent,
    action: WinitAction,
) -> bool {
    if !same_window {
        action == WinitAction::Ignore
    } else {
        match event {
            WinitWindowEvent::CloseRequested => action == WinitAction::Exit,
            WinitWindowEvent::RedrawRequested => action == WinitAction::Redraw,
            WinitWindowEvent::ImeEnabled => action == WinitAction::PlaceIme,
            WinitWindowEvent::ImePreedit => action == WinitAction::PlaceIme,
            WinitWindowEvent::ImeCommit(chars) => match action {
                WinitAction::DeliverEach(events) => events@ == spec_char_events(chars@),
                _ => false,
            },
            WinitWindowEvent::Resized { width, height } => action == WinitAction::Deliver {
                resize: Some((width, height)),
                move_cursor: false,
                event: spec_other_event(),
            },
            WinitWindowEvent::CursorMoved => action == WinitAction::Deliver {
                resize: None,
                move_cursor: true,
                event: spec_other_event(),
            },
            _ => action == WinitAction::Deliver {
                resize: None,
                move_cursor: false,
                event: spec_gevent_from(event),
            },
        }
    }
}

/// The event that a key press or release of winit gives: the character it
/// typed when that is no control character, else the key (if winit could
/// name it) with the press state.
pub open spec fn key_input_event(
    state: WinitElementState,
    physical_key: Option<WinitKeyCode>,
    text: Option<char>,
) -> GEvent {
    if text is Some && !spec_is_control(text.unwrap()) {
        GEvent { event: EventType::ReceivedCharacter(text.unwrap()), state: State::NoState }
    } else {
        GEvent {
            event: EventType::KeyBoard(
                match physical_key {
                    Some(k) => Some(winit_key_code(k)),
                    None => None,
                },
            ),
            state: if state == WinitElementState::Pressed {
                State::Pressed
            } else {
                State::Released
            },
        }
    }
}

/// Whether `action` delivers `event` to the widgets and nothing more.
pub open spec fn delivers_only(action: WinitAction, event: GEvent) -> bool {
    action == WinitAction::Deliver { resize: None, move_cursor: false, event }
}

/// What the window loop does with the events of its window, and with
/// those of other windows: a mouse button reaches the widgets as the press
/// or release of that very button, a key as its typed character or as that
/// key, committed IME text character by character; closing exits, a
/// redraw redraws, a resize resizes the surface, a cursor move records the
/// cursor; the events of other windows are ignored.
pub open spec fn window_event_law(same_window: bool, event: WinitWindowEvent, action: WinitAction) -> bool {
    &&& !same_window ==> action == WinitAction::Ignore
    &&& same_window ==> {
        &&& event is CloseRequested ==> action == WinitAction::Exit
        &&& event is RedrawRequested ==> action == WinitAction::Redraw
        &&& (event is ImeEnabled || event is ImePreedit) ==> action == WinitAction::PlaceIme
        &&& event matches WinitWindowEvent::MouseInput { state, button } ==> delivers_only(
            action,
            GEvent {
                event: EventType::Mouse(spec_mouse_from(button)),
                state: if state == WinitElementState::Pressed {
                    State::Pressed
                } else {
                    State::Released
                },
            },
        )
        &&& event matches WinitWindowEvent::KeyboardInput { state, physical_key, text }
            ==> delivers_only(action, key_input_event(state, physical_key, text))
        &&& event matches WinitWindowEvent::ImeCommit(chars) ==> (action matches WinitAction::DeliverEach(
            events,
        ) && events@.len() == chars@.len() && forall|i: int|
            0 <= i < chars@.len() ==> #[trigger] events@[i] == GEvent {
                event: EventType::ReceivedCharacter(chars@[i]),
                state: State::NoState,
            })
        &&& event matches WinitWindowEvent::Resized { width, height } ==> action
            == WinitAction::Deliver {
            resize: Some((width, height)),
            move_cursor: false,
            event: GEvent { event: EventType::Other, state: State::NoState },
        }
        &&& event is CursorMoved ==> action == WinitAction::Deliver {
            resize: None,
            move_cursor: true,
            event: GEvent { event: EventType::Other, state: State::NoState },
        }
        &&& event is Other ==> delivers_only(
            action,
            GEvent { event: EventType::Other, state: State::NoState },
        )
    }
}

/// The window-loop decision follows [`window_event_law`]; in particular a
/// mouse button or key of the toolkit's window always reaches the widgets
/// as what it is.
pub proof fn lemma_window_event_delivers_input(
    same_window: bool,
    event: WinitWindowEvent,
    action: WinitAction,
)
    requires
        is_window_event_action(same_window, event, action),
    ensures
        window_event_law(same_window, event, action),
{
    if same_window {
        if let WinitWindowEvent::ImeCommit(chars) = event {
            if let WinitAction::DeliverEach(events) = action {
                assert forall|i: int| 0 <= i < chars@.len() implies #[trigger] events@[i] == GEvent {
                    event: EventType::ReceivedCharacter(chars@[i]),
                    state: State::NoState,
                } by {
                    assert(events@[i] == spec_char_events(chars@)[i]);
                }
            }
        }
    }
}

/// winit's left, right and middle buttons are the toolkit's left, right and
/// middle buttons, every other button is `Other`; a press is a press and a
/// release a release.
pub proof fn lemma_buttons_and_states(button: WinitMouseButton, state: WinitElementState)
    ensures
        (spec_mouse_from(button) == Mouse::Left) == (button == WinitMouseButton::Left),
        (spec_mouse_from(button) == Mouse::Right) == (button == WinitMouseButton::Right),
        (spec_mouse_from(button) == Mouse::Middle) == (button == WinitMouseButton::Middle),
        (spec_state_from(state) == State::Pressed) == (state == WinitElementState::Pressed),
        (spec_state_from(state) == State::Released) == (state == WinitElementState::Released),
{
}

/// Decides what the window loop does with a window event.
pub fn window_event_action(same_window: bool, event: &WinitWindowEvent) -> (action: WinitAction)
    ensures
        is_window_event_action(same_window, *event, action),
        window_event_law(same_window, *event, action),
{
    let action = window_event_decision(same_window, event);
    proof {
        lemma_window_event_delivers_input(same_window, *event, action);
    }
    action
}

fn window_event_decision(same_window: bool, event: &WinitWindowEvent) -> (action: WinitAction)
    ensures
        is_window_event_action(same_window, *event, action),
{
    if !same_window {
        return WinitAction::Ignore;
    }
    match event {
        WinitWindowEvent::CloseRequested => WinitAction::Exit,
        WinitWindowEvent::RedrawRequested => WinitAction::Redraw,
        WinitWindowEvent::ImeEnabled => WinitAction::PlaceIme,
        WinitWindowEvent::ImePreedit => WinitAction::PlaceIme,
        WinitWindowEvent::ImeCommit(chars) => WinitAction::DeliverEach(char_events(chars)),
        WinitWindowEvent::Resized { width, height } => WinitAction::Deliver {
            resize: Some((*width, *height)),
            move_cursor: false,
            event: other_event(),
        },
        WinitWindowEvent::CursorMoved => WinitAction::Deliver {
            resize: None,
            move_cursor: true,
            event: other_event(),
        },
        _ => WinitAction::Deliver { resize: None, move_cursor: false, event: gevent_from(event) },
    }
}

/// A call that widgets make on an event context during a frame.
pub enum ContextCall<M, P> {
    SetCursorPos(P),
    SetEvent(GEvent),
    SetMessage(Option<M>),
    SendMessage(M),
}

/// The event of the latest `SetEvent` among `calls`, if there is one.
pub open spec fn latest_event<M, P>(calls: Seq<ContextCall<M, P>>) -> Option<GEvent>
    decreases calls.len(),
{
    if calls.len() == 0 {
        None
    } else {
        match calls.last() {
            ContextCall::SetEvent(e) => Some(e),
            _ => latest_event(calls.drop_last()),
        }
    }
}

/// The position of the latest `SetCursorPos` among `calls`, if there is one.
pub open spec fn latest_cursor<M, P>(calls: Seq<ContextCall<M, P>>) -> Option<P>
    decreases calls.len(),
{
    if calls.len() == 0 {
        None
    } else {
        match calls.last() {
            ContextCall::SetCursorPos(p) => Some(p),
            _ => latest_cursor(calls.drop_last()),
        }
    }
}

/// The message left by the latest `SetMessage` or `SendMessage` among
/// `calls`, if there is one: `Some(m)` for `SetMessage(m)`, `Some(Some(m))`
/// for `SendMessage(m)`.
pub open spec fn latest_message<M, P>(calls: Seq<ContextCall<M, P>>) -> Option<Option<M>>
    decreases calls.len(),
{
    if calls.len() == 0 {
        None
    } else {
        match calls.last() {
            ContextCall::SetMessage(m) => Some(m),
            ContextCall::SendMessage(m) => Some(Some(m)),
            _ => latest_message(calls.drop_last()),
        }
    }
}

/// The cursor position after `calls` on a context whose position was `start`.
pub open spec fn cursor_after<M, P>(start: P, calls: Seq<ContextCall<M, P>>) -> P {
    match latest_cursor(calls) {
        Some(p) => p,
        None => start,
    }
}

/// The message after `calls` on a context whose message was `start`.
pub open spec fn message_after<M, P>(start: Option<M>, calls: Seq<ContextCall<M, P>>) -> Option<M> {
    match latest_message(calls) {
        Some(m) => m,
        None => start,
    }
}

/// The current event after `calls` on a context whose current event was
/// `start`: that of the latest `SetEvent`, or `start` when there is none.
pub open spec fn event_after<M, P>(start: Option<GEvent>, calls: Seq<ContextCall<M, P>>) -> Option<GEvent> {
    match latest_event(calls) {
        Some(e) => Some(e),
        None => start,
    }
}

/// Event context of the winit backend: the window, the last cursor position,
/// the current event and the message that widgets sent in this frame.
/// `P` is the cursor position type.
pub struct WEventContext<M, W, P> {
    pub window: W,
    cursor_pos: P,
    window_event: Option<GEvent>,
    message: Option<M>,
}

impl<M, W, P: Copy> WEventContext<M, W, P> {
    /// The window of this context.
    pub closed spec fn win(&self) -> W {
        self.window
    }

    /// Last recorded cursor position.
    pub closed spec fn cursor(&self) -> P {
        self.cursor_pos
    }

    /// The current event, if one was set.
    pub closed spec fn current_event(&self) -> Option<GEvent> {
        self.window_event
    }

    /// The message of this frame, if any.
    pub closed spec fn current_message(&self) -> Option<M> {
        self.message
    }

    /// A context for `window` with the cursor at `cursor_pos`, no event and
    /// no message.
    pub fn new(window: W, cursor_pos: P) -> (ctx: Self)
        ensures
            ctx.win() == window,
            ctx.cursor() == cursor_pos,
            ctx.current_event() is None,
            ctx.current_message() is None,
    {
        WEventContext { window, cursor_pos, window_event: None, message: None }
    }

    /// Records the cursor position.
    pub fn set_cursor_pos(&mut self, pos: P)
        ensures
            final(self).cursor() == pos,
            final(self).win() == old(self).win(),
            final(self).current_event() == old(self).current_event(),
            final(self).current_message() == old(self).current_message(),
    {
        self.cursor_pos = pos;
    }

    /// The last recorded cursor position.
    pub fn get_cursor_pos(&self) -> (pos: P)
        ensures
            pos == self.cursor(),
    {
        self.cursor_pos
    }

    /// Makes `event` the current event.
    pub fn set_event(&mut self, event: GEvent)
        ensures
            final(self).current_event() == Some(event),
            final(self).win() == old(self).win(),
            final(self).cursor() == old(self).cursor(),
            final(self).current_message() == old(self).current_message(),
    {
        self.window_event = Some(event);
    }

    /// The current event; one must have been set.
    pub fn get_event(&self) -> (event: GEvent)
        requires
            self.current_event() is Some,
        ensures
            Some(event) == self.current_event(),
    {
        self.window_event.unwrap()
    }

    /// The message of this frame, if any.
    pub fn get_message(&self) -> (m: Option<&M>)
        ensures
            m is Some <==> self.current_message() is Some,
            m is Some ==> *m.unwrap() == self.current_message().unwrap(),
    {
        self.message.as_ref()
    }

    /// Replaces the message of this frame.
    pub fn set_message(&mut self, message: Option<M>)
        ensures
            final(self).current_message() == message,
            final(self).win() == old(self).win(),
            final(self).cursor() == old(self).cursor(),
            final(self).current_event() == old(self).current_event(),
    {
        self.message = message;
    }

    /// Sends a message to the widgets of this frame.
    pub fn send_message(&mut self, message: M)
        ensures
            final(self).current_message() == Some(message),
            final(self).win() == old(self).win(),
            final(self).cursor() == old(self).cursor(),
            final(self).current_event() == old(self).current_event(),
    {
        self.message = Some(message);
    }

    /// Makes `calls` on the context, in order. The current event, the cursor
    /// position and the message are then those that the latest call of each
    /// kind left, or stay as they were when there is none; so on a new context `get_event` can be called exactly
    /// when one of the calls set an event, and gives back the latest one.
    pub fn make_calls(&mut self, calls: Vec<ContextCall<M, P>>)
        ensures
            final(self).current_event() == event_after(old(self).current_event(), calls@),
            final(self).cursor() == cursor_after(old(self).cursor(), calls@),
            final(self).current_message() == message_after(old(self).current_message(), calls@),
            final(self).win() == old(self).win(),
    {
        let ghost all = calls@;
        let n = calls.len();
        let mut rest = calls;
        let mut k: usize = 0;
        while rest.len() > 0
            invariant
                k <= all.len(),
                all.len() == n,
                rest@ == all.skip(k as int),
                self.current_event() == event_after(old(self).current_event(), all.take(k as int)),
                self.cursor() == cursor_after(old(self).cursor(), all.take(k as int)),
                self.current_message() == message_after(
                    old(self).current_message(),
                    all.take(k as int),
                ),
                self.win() == old(self).win(),
            decreases rest.len(),
        {
            assert(k < all.len());
            let call = rest.remove(0);
            proof {
                assert(call == all[k as int]);
                assert(all.take(k + 1).drop_last() =~= all.take(k as int));
                assert(all.take(k + 1).last() == all[k as int]);
            }
            match call {
                ContextCall::SetCursorPos(p) => self.set_cursor_pos(p),
                ContextCall::SetEvent(e) => self.set_event(e),
                ContextCall::SetMessage(m) => self.set_message(m),
                ContextCall::SendMessage(m) => self.send_message(m),
            }
            k = k + 1;
            assert(rest@ =~= all.skip(k as int));
        }
        assert(all.take(k as int) =~= all);
    }
}

} // verus!
