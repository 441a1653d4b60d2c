//! Decisions of the SDL2 backend: key translation, event conversion and
//! what the event loop does with each SDL event. The backend itself hands
//! these functions plain values taken from SDL's types.
use vstd::prelude::*;

use crate::event::{
    char_event, other_event, spec_char_event, spec_other_event, EventType, GEvent, KeyCode, Mouse,
    State,
};
use crate::winit_impl::{char_events, spec_char_events};

verus! {

/// The SDL key codes that the toolkit gives a name of its own; every other
/// SDL key code is `Other`.
#[derive(Clone, Copy, Debug, PartialEq, Eq, Structural)]
pub enum SdlKeycode {
    Num0, Num1, Num2, Num3, Num4, Num5, Num6, Num7, Num8, Num9, A, B, C, D, E, F, G, H,
    I, J, K, L, M, N, O, P, Q, R, S, T, U, V, W, X, Y, Z, Escape, F1, F2, F3, F4, F5,
    F6, F7, F8, F9, F10, F11, F12, F13, F14, F15, F16, F17, F18, F19, F20, F21, F22, F23,
    F24, PrintScreen, ScrollLock, Pause, Insert, Home, Delete, End, PageDown, PageUp,
    Left, Up, Right, Down, Backspace, Return, Space, Tab, NumLockClear, Kp0, Kp1, Kp2,
    Kp3, Kp4, Kp5, Kp6, Kp7, Kp8, Kp9, KpPlus, KpMinus, KpMultiply, KpDivide, KpDecimal,
    KpComma, KpEnter, KpEquals, Copy, Paste, Cut, At, Caret, Equals, Plus, Power, Asterisk,
    Semicolon, Backslash, Colon, Comma, Calculator, Underscore, Period, LAlt, RAlt, LeftBracket,
    RightBracket, LShift, RShift, LCtrl, RCtrl, LGui, RGui, VolumeDown, VolumeUp, Mail,
    MediaSelect, Minus, Mute, Slash, Sleep, Stop, Exclaim, Quotedbl, Hash, Dollar, Percent,
    Ampersand, Quote, LeftParen, RightParen, Less, Greater, Question, Backquote, CapsLock,
    KpPeriod, Application, Execute, Help, Menu, Select, Again, Undo, Find, KpEqualsAS400,
    AltErase, Sysreq, Cancel, Clear, Prior, Return2, Separator, Out, Oper, ClearAgain,
    CrSel, ExSel, Kp00, Kp000, ThousandsSeparator, DecimalSeparator, CurrencyUnit, CurrencySubUnit,
    KpLeftParen, KpRightParen, KpLeftBrace, KpRightBrace, KpTab, KpBackspace, KpA, KpB,
    KpC, KpD, KpE, KpF, KpXor, KpPower, KpPercent, KpLess, KpGreater, KpAmpersand, KpDblAmpersand,
    KpVerticalBar, KpDblVerticalBar, KpColon, KpHash, KpSpace, KpAt, KpExclam, KpMemStore,
    KpMemRecall, KpMemClear, KpMemAdd, KpMemSubtract, KpMemMultiply, KpMemDivide, KpPlusMinus,
    KpClear, KpClearEntry, KpBinary, KpOctal, KpHexadecimal, Mode, AudioNext, AudioPrev,
    AudioStop, AudioPlay, AudioMute, Www, Computer, AcSearch, AcHome, AcBack, AcForward,
    AcStop, AcRefresh, AcBookmarks, BrightnessDown, BrightnessUp, DisplaySwitch, KbdIllumToggle,
    KbdIllumDown, KbdIllumUp, Eject, Other,
}

/// Key code that the toolkit uses for an SDL key code.
pub open spec fn sdl_key_code(key: SdlKeycode) -> KeyCode {
    match key {
            SdlKeycode::Num0 => KeyCode::Numpad0,
            SdlKeycode::Num1 => KeyCode::Numpad1,
            SdlKeycode::Num2 => KeyCode::Numpad2,
            SdlKeycode::Num3 => KeyCode::Numpad3,
            SdlKeycode::Num4 => KeyCode::Numpad4,
            SdlKeycode::Num5 => KeyCode::Numpad5,
            SdlKeycode::Num6 => KeyCode::Numpad6,
            SdlKeycode::Num7 => KeyCode::Numpad7,
            SdlKeycode::Num8 => KeyCode::Numpad8,
            SdlKeycode::Num9 => KeyCode::Numpad9,
            SdlKeycode::A => KeyCode::A,
            SdlKeycode::B => KeyCode::B,
            SdlKeycode::C => KeyCode::C,
            SdlKeycode::D => KeyCode::D,
            SdlKeycode::E => KeyCode::E,
            SdlKeycode::F => KeyCode::F,
            SdlKeycode::G => KeyCode::G,
            SdlKeycode::H => KeyCode::H,
            SdlKeycode::I => KeyCode::I,
            SdlKeycode::J => KeyCode::J,
            SdlKeycode::K => KeyCode::K,
            SdlKeycode::L => KeyCode::L,
            SdlKeycode::M => KeyCode::M,
            SdlKeycode::N => KeyCode::N,
            SdlKeycode::O => KeyCode::O,
            SdlKeycode::P => KeyCode::P,
            SdlKeycode::Q => KeyCode::Q,
            SdlKeycode::R => KeyCode::R,
            SdlKeycode::S => KeyCode::S,
            SdlKeycode::T => KeyCode::T,
            SdlKeycode::U => KeyCode::U,
            SdlKeycode::V => KeyCode::V,
            SdlKeycode::W => KeyCode::W,
            SdlKeycode::X => KeyCode::X,
            SdlKeycode::Y => KeyCode::Y,
            SdlKeycode::Z => KeyCode::Z,
            SdlKeycode::Escape => KeyCode::Escape,
            SdlKeycode::F1 => KeyCode::F1,
            SdlKeycode::F2 => KeyCode::F2,
            SdlKeycode::F3 => KeyCode::F3,
            SdlKeycode::F4 => KeyCode::F4,
            SdlKeycode::F5 => KeyCode::F5,
            SdlKeycode::F6 => KeyCode::F6,
            SdlKeycode::F7 => KeyCode::F7,
            SdlKeycode::F8 => KeyCode::F8,
            SdlKeycode::F9 => KeyCode::F9,
            SdlKeycode::F10 => KeyCode::F10,
            SdlKeycode::F11 => KeyCode::F11,
            SdlKeycode::F12 => KeyCode::F12,
            SdlKeycode::F13 => KeyCode::F13,
            SdlKeycode::F14 => KeyCode::F14,
            SdlKeycode::F15 => KeyCode::F15,
            SdlKeycode::F16 => KeyCode::F16,
            SdlKeycode::F17 => KeyCode::F17,
            SdlKeycode::F18 => KeyCode::F18,
            SdlKeycode::F19 => KeyCode::F19,
            SdlKeycode::F20 => KeyCode::F20,
            SdlKeycode::F21 => KeyCode::F21,
            SdlKeycode::F22 => KeyCode::F22,
            SdlKeycode::F23 => KeyCode::F23,
            SdlKeycode::F24 => KeyCode::F24,
            SdlKeycode::PrintScreen => KeyCode::Snapshot,
            SdlKeycode::ScrollLock => KeyCode::Scroll,
            SdlKeycode::Pause => KeyCode::Pause,
            SdlKeycode::Insert => KeyCode::Insert,
            SdlKeycode::Home => KeyCode::Home,
            SdlKeycode::Delete => KeyCode::Delete,
            SdlKeycode::End => KeyCode::End,
            SdlKeycode::PageDown => KeyCode::PageDown,
            SdlKeycode::PageUp => KeyCode::PageUp,
            SdlKeycode::Left => KeyCode::Left,
            SdlKeycode::Up => KeyCode::Up,
            SdlKeycode::Right => KeyCode::Right,
            SdlKeycode::Down => KeyCode::Down,
            SdlKeycode::Backspace => KeyCode::Backspace,
            SdlKeycode::Return => KeyCode::Return,
            SdlKeycode::Space => KeyCode::Space,
            SdlKeycode::Tab => KeyCode::Tab,
            SdlKeycode::NumLockClear => KeyCode::Numlock,
            SdlKeycode::Kp0 => KeyCode::Numpad0,
            SdlKeycode::Kp1 => KeyCode::Numpad1,
            SdlKeycode::Kp2 => KeyCode::Numpad2,
            SdlKeycode::Kp3 => KeyCode::Numpad3,
            SdlKeycode::Kp4 => KeyCode::Numpad4,
            SdlKeycode::Kp5 => KeyCode::Numpad5,
            SdlKeycode::Kp6 => KeyCode::Numpad6,
            SdlKeycode::Kp7 => KeyCode::Numpad7,
            SdlKeycode::Kp8 => KeyCode::Numpad8,
            SdlKeycode::Kp9 => KeyCode::Numpad9,
            SdlKeycode::KpPlus => KeyCode::NumpadAdd,
            SdlKeycode::KpMinus => KeyCode::NumpadSubtract,
            SdlKeycode::KpMultiply => KeyCode::NumpadMultiply,
            SdlKeycode::KpDivide => KeyCode::NumpadDivide,
            SdlKeycode::KpDecimal => KeyCode::NumpadDecimal,
            SdlKeycode::KpComma => KeyCode::NumpadComma,
            SdlKeycode::KpEnter => KeyCode::NumpadEnter,
            SdlKeycode::KpEquals => KeyCode::NumpadEquals,
            SdlKeycode::Copy => KeyCode::Copy,
            SdlKeycode::Paste => KeyCode::Paste,
            SdlKeycode::Cut => KeyCode::Cut,
            SdlKeycode::At => KeyCode::At,
            SdlKeycode::Caret => KeyCode::Caret,
            SdlKeycode::Equals => KeyCode::Equals,
            SdlKeycode::Plus => KeyCode::Plus,
            SdlKeycode::Power => KeyCode::Power,
            SdlKeycode::Asterisk => KeyCode::Asterisk,
            SdlKeycode::Semicolon => KeyCode::Semicolon,
            SdlKeycode::Backslash => KeyCode::Backslash,
            SdlKeycode::Colon => KeyCode::Colon,
            SdlKeycode::Comma => KeyCode::Comma,
            SdlKeycode::Calculator => KeyCode::Calculator,
            SdlKeycode::Underscore => KeyCode::Underline,
            SdlKeycode::Period => KeyCode::Period,
            SdlKeycode::LAlt => KeyCode::LAlt,
            SdlKeycode::RAlt => KeyCode::RAlt,
            SdlKeycode::LeftBracket => KeyCode::LBracket,
            SdlKeycode::RightBracket => KeyCode::RBracket,
            SdlKeycode::LShift => KeyCode::LShift,
            SdlKeycode::RShift => KeyCode::RShift,
            SdlKeycode::LCtrl => KeyCode::LControl,
            SdlKeycode::RCtrl => KeyCode::RControl,
            SdlKeycode::LGui => KeyCode::LGui,
            SdlKeycode::RGui => KeyCode::RGui,
            SdlKeycode::VolumeDown => KeyCode::VolumeDown,
            SdlKeycode::VolumeUp => KeyCode::VolumeUp,
            SdlKeycode::Mail => KeyCode::Mail,
            SdlKeycode::MediaSelect => KeyCode::MediaSelect,
            SdlKeycode::Minus => KeyCode::Minus,
            SdlKeycode::Mute => KeyCode::Mute,
            SdlKeycode::Slash => KeyCode::Slash,
            SdlKeycode::Sleep => KeyCode::Sleep,
            SdlKeycode::Stop => KeyCode::Stop,
            SdlKeycode::Exclaim => KeyCode::Exclaim,
            SdlKeycode::Quotedbl => KeyCode::Quotedbl,
            SdlKeycode::Hash => KeyCode::Hash,
            SdlKeycode::Dollar => KeyCode::Dollar,
            SdlKeycode::Percent => KeyCode::Percent,
            SdlKeycode::Ampersand => KeyCode::Ampersand,
            SdlKeycode::Quote => KeyCode::Quote,
            SdlKeycode::LeftParen => KeyCode::LeftParen,
            SdlKeycode::RightParen => KeyCode::RightParen,
            SdlKeycode::Less => KeyCode::Less,
            SdlKeycode::Greater => KeyCode::Greater,
            SdlKeycode::Question => KeyCode::Question,
            SdlKeycode::Backquote => KeyCode::Backquote,
            SdlKeycode::CapsLock => KeyCode::CapsLock,
            SdlKeycode::KpPeriod => KeyCode::Period,
            SdlKeycode::Application => KeyCode::Application,
            SdlKeycode::Execute => KeyCode::Execute,
            SdlKeycode::Help => KeyCode::Help,
            SdlKeycode::Menu => KeyCode::Menu,
            SdlKeycode::Select => KeyCode::Select,
            SdlKeycode::Again => KeyCode::Again,
            SdlKeycode::Undo => KeyCode::Undo,
            SdlKeycode::Find => KeyCode::Find,
            SdlKeycode::KpEqualsAS400 => KeyCode::KpEqualsAS400,
            SdlKeycode::AltErase => KeyCode::AltErase,
            SdlKeycode::Sysreq => KeyCode::Sysreq,
            SdlKeycode::Cancel => KeyCode::Cancel,
            SdlKeycode::Clear => KeyCode::Clear,
            SdlKeycode::Prior => KeyCode::Period,
            SdlKeycode::Return2 => KeyCode::Return2,
            SdlKeycode::Separator => KeyCode::Separator,
            SdlKeycode::Out => KeyCode::Out,
            SdlKeycode::Oper => KeyCode::Oper,
            SdlKeycode::ClearAgain => KeyCode::ClearAgain,
            SdlKeycode::CrSel => KeyCode::CrSel,
            SdlKeycode::ExSel => KeyCode::ExSel,
            SdlKeycode::Kp00 => KeyCode::Kp00,
            SdlKeycode::Kp000 => KeyCode::Kp000,
            SdlKeycode::ThousandsSeparator => KeyCode::ThousandsSeparator,
            SdlKeycode::DecimalSeparator => KeyCode::DecimalSeparator,
            SdlKeycode::CurrencyUnit => KeyCode::CurrencyUnit,
            SdlKeycode::CurrencySubUnit => KeyCode::CurrencySubUnit,
            SdlKeycode::KpLeftParen => KeyCode::KpLeftParen,
            SdlKeycode::KpRightParen => KeyCode::KpRightParen,
            SdlKeycode::KpLeftBrace => KeyCode::KpLeftBrace,
            SdlKeycode::KpRightBrace => KeyCode::KpRightBrace,
            SdlKeycode::KpTab => KeyCode::Tab,
            SdlKeycode::KpBackspace => KeyCode::Backspace,
            SdlKeycode::KpA => KeyCode::KpA,
            SdlKeycode::KpB => KeyCode::KpB,
            SdlKeycode::KpC => KeyCode::KpC,
            SdlKeycode::KpD => KeyCode::KpD,
            SdlKeycode::KpE => KeyCode::KpE,
            SdlKeycode::KpF => KeyCode::KpF,
            SdlKeycode::KpXor => KeyCode::KpXor,
            SdlKeycode::KpPower => KeyCode::KpPower,
            SdlKeycode::KpPercent => KeyCode::Percent,
            SdlKeycode::KpLess => KeyCode::Less,
            SdlKeycode::KpGreater => KeyCode::Greater,
            SdlKeycode::KpAmpersand => KeyCode::Ampersand,
            SdlKeycode::KpDblAmpersand => KeyCode::KpDblAmpersand,
            SdlKeycode::KpVerticalBar => KeyCode::KpVerticalBar,
            SdlKeycode::KpDblVerticalBar => KeyCode::KpDblVerticalBar,
            SdlKeycode::KpColon => KeyCode::Colon,
            SdlKeycode::KpHash => KeyCode::Hash,
            SdlKeycode::KpSpace => KeyCode::Space,
            SdlKeycode::KpAt => KeyCode::At,
            SdlKeycode::KpExclam => KeyCode::Exclaim,
            SdlKeycode::KpMemStore => KeyCode::KpMemStore,
            SdlKeycode::KpMemRecall => KeyCode::KpMemRecall,
            SdlKeycode::KpMemClear => KeyCode::KpMemClear,
            SdlKeycode::KpMemAdd => KeyCode::KpMemAdd,
            SdlKeycode::KpMemSubtract => KeyCode::KpMemSubtract,
            SdlKeycode::KpMemMultiply => KeyCode::KpMemMultiply,
            SdlKeycode::KpMemDivide => KeyCode::KpMemDivide,
            SdlKeycode::KpPlusMinus => KeyCode::KpPlusMinus,
            SdlKeycode::KpClear => KeyCode::Clear,
            SdlKeycode::KpClearEntry => KeyCode::KpClearEntry,
            SdlKeycode::KpBinary => KeyCode::KpBinary,
            SdlKeycode::KpOctal => KeyCode::KpOctal,
            SdlKeycode::KpHexadecimal => KeyCode::KpHexadecimal,
            SdlKeycode::Mode => KeyCode::Mode,
            SdlKeycode::AudioNext => KeyCode::AudioNext,
            SdlKeycode::AudioPrev => KeyCode::AudioPrev,
            SdlKeycode::AudioStop => KeyCode::AudioStop,
            SdlKeycode::AudioPlay => KeyCode::AudioPlay,
            SdlKeycode::AudioMute => KeyCode::AudioMute,
            SdlKeycode::Www => KeyCode::Www,
            SdlKeycode::Computer => KeyCode::Computer,
            SdlKeycode::AcSearch => KeyCode::AcSearch,
            SdlKeycode::AcHome => KeyCode::AcHome,
            SdlKeycode::AcBack => KeyCode::AcBack,
            SdlKeycode::AcForward => KeyCode::AcForward,
            SdlKeycode::AcStop => KeyCode::AcStop,
            SdlKeycode::AcRefresh => KeyCode::AcRefresh,
            SdlKeycode::AcBookmarks => KeyCode::AcBookmarks,
            SdlKeycode::BrightnessDown => KeyCode::BrightnessDown,
            SdlKeycode::BrightnessUp => KeyCode::BrightnessUp,
            SdlKeycode::DisplaySwitch => KeyCode::DisplaySwitch,
            SdlKeycode::KbdIllumToggle => KeyCode::KbdIllumToggle,
            SdlKeycode::KbdIllumDown => KeyCode::KbdIllumDown,
            SdlKeycode::KbdIllumUp => KeyCode::KbdIllumUp,
            SdlKeycode::Eject => KeyCode::Eject,
            SdlKeycode::Other => KeyCode::Unlabeled,
    }
}

/// The SDL key that a key code comes from: for a key code that several SDL
/// keys give (a key and its keypad twin), the main key; `Other` for the key
/// codes that no SDL key is translated to.
pub open spec fn sdl_key_source(code: KeyCode) -> SdlKeycode {
    match code {
        KeyCode::Numpad0 => SdlKeycode::Num0,
        KeyCode::Numpad1 => SdlKeycode::Num1,
        KeyCode::Numpad2 => SdlKeycode::Num2,
        KeyCode::Numpad3 => SdlKeycode::Num3,
        KeyCode::Numpad4 => SdlKeycode::Num4,
        KeyCode::Numpad5 => SdlKeycode::Num5,
        KeyCode::Numpad6 => SdlKeycode::Num6,
        KeyCode::Numpad7 => SdlKeycode::Num7,
        KeyCode::Numpad8 => SdlKeycode::Num8,
        KeyCode::Numpad9 => SdlKeycode::Num9,
        KeyCode::A => SdlKeycode::A,
        KeyCode::B => SdlKeycode::B,
        KeyCode::C => SdlKeycode::C,
        KeyCode::D => SdlKeycode::D,
        KeyCode::E => SdlKeycode::E,
        KeyCode::F => SdlKeycode::F,
        KeyCode::G => SdlKeycode::G,
        KeyCode::H => SdlKeycode::H,
        KeyCode::I => SdlKeycode::I,
        KeyCode::J => SdlKeycode::J,
        KeyCode::K => SdlKeycode::K,
        KeyCode::L => SdlKeycode::L,
        KeyCode::M => SdlKeycode::M,
        KeyCode::N => SdlKeycode::N,
        KeyCode::O => SdlKeycode::O,
        KeyCode::P => SdlKeycode::P,
        KeyCode::Q => SdlKeycode::Q,
        KeyCode::R => SdlKeycode::R,
        KeyCode::S => SdlKeycode::S,
        KeyCode::T => SdlKeycode::T,
        KeyCode::U => SdlKeycode::U,
        KeyCode::V => SdlKeycode::V,
        KeyCode::W => SdlKeycode::W,
        KeyCode::X => SdlKeycode::X,
        KeyCode::Y => SdlKeycode::Y,
        KeyCode::Z => SdlKeycode::Z,
        KeyCode::Escape => SdlKeycode::Escape,
        KeyCode::F1 => SdlKeycode::F1,
        KeyCode::F2 => SdlKeycode::F2,
        KeyCode::F3 => SdlKeycode::F3,
        KeyCode::F4 => SdlKeycode::F4,
        KeyCode::F5 => SdlKeycode::F5,
        KeyCode::F6 => SdlKeycode::F6,
        KeyCode::F7 => SdlKeycode::F7,
        KeyCode::F8 => SdlKeycode::F8,
        KeyCode::F9 => SdlKeycode::F9,
        KeyCode::F10 => SdlKeycode::F10,
        KeyCode::F11 => SdlKeycode::F11,
        KeyCode::F12 => SdlKeycode::F12,
        KeyCode::F13 => SdlKeycode::F13,
        KeyCode::F14 => SdlKeycode::F14,
        KeyCode::F15 => SdlKeycode::F15,
        KeyCode::F16 => SdlKeycode::F16,
        KeyCode::F17 => SdlKeycode::F17,
        KeyCode::F18 => SdlKeycode::F18,
        KeyCode::F19 => SdlKeycode::F19,
        KeyCode::F20 => SdlKeycode::F20,
        KeyCode::F21 => SdlKeycode::F21,
        KeyCode::F22 => SdlKeycode::F22,
        KeyCode::F23 => SdlKeycode::F23,
        KeyCode::F24 => SdlKeycode::F24,
        KeyCode::Snapshot => SdlKeycode::PrintScreen,
        KeyCode::Scroll => SdlKeycode::ScrollLock,
        KeyCode::Pause => SdlKeycode::Pause,
        KeyCode::Insert => SdlKeycode::Insert,
        KeyCode::Home => SdlKeycode::Home,
        KeyCode::Delete => SdlKeycode::Delete,
        KeyCode::End => SdlKeycode::End,
        KeyCode::PageDown => SdlKeycode::PageDown,
        KeyCode::PageUp => SdlKeycode::PageUp,
        KeyCode::Left => SdlKeycode::Left,
        KeyCode::Up => SdlKeycode::Up,
        KeyCode::Right => SdlKeycode::Right,
        KeyCode::Down => SdlKeycode::Down,
        KeyCode::Backspace => SdlKeycode::Backspace,
        KeyCode::Return => SdlKeycode::Return,
        KeyCode::Space => SdlKeycode::Space,
        KeyCode::Tab => SdlKeycode::Tab,
        KeyCode::Numlock => SdlKeycode::NumLockClear,
        KeyCode::NumpadAdd => SdlKeycode::KpPlus,
        KeyCode::NumpadSubtract => SdlKeycode::KpMinus,
        KeyCode::NumpadMultiply => SdlKeycode::KpMultiply,
        KeyCode::NumpadDivide => SdlKeycode::KpDivide,
        KeyCode::NumpadDecimal => SdlKeycode::KpDecimal,
        KeyCode::NumpadComma => SdlKeycode::KpComma,
        KeyCode::NumpadEnter => SdlKeycode::KpEnter,
        KeyCode::NumpadEquals => SdlKeycode::KpEquals,
        KeyCode::Copy => SdlKeycode::Copy,
        KeyCode::Paste => SdlKeycode::Paste,
        KeyCode::Cut => SdlKeycode::Cut,
        KeyCode::At => SdlKeycode::At,
        KeyCode::Caret => SdlKeycode::Caret,
        KeyCode::Equals => SdlKeycode::Equals,
        KeyCode::Plus => SdlKeycode::Plus,
        KeyCode::Power => SdlKeycode::Power,
        KeyCode::Asterisk => SdlKeycode::Asterisk,
        KeyCode::Semicolon => SdlKeycode::Semicolon,
        KeyCode::Backslash => SdlKeycode::Backslash,
        KeyCode::Colon => SdlKeycode::Colon,
        KeyCode::Comma => SdlKeycode::Comma,
        KeyCode::Calculator => SdlKeycode::Calculator,
        KeyCode::Underline => SdlKeycode::Underscore,
        KeyCode::Period => SdlKeycode::Period,
        KeyCode::LAlt => SdlKeycode::LAlt,
        KeyCode::RAlt => SdlKeycode::RAlt,
        KeyCode::LBracket => SdlKeycode::LeftBracket,
        KeyCode::RBracket => SdlKeycode::RightBracket,
        KeyCode::LShift => SdlKeycode::LShift,
        KeyCode::RShift => SdlKeycode::RShift,
        KeyCode::LControl => SdlKeycode::LCtrl,
        KeyCode::RControl => SdlKeycode::RCtrl,
        KeyCode::LGui => SdlKeycode::LGui,
        KeyCode::RGui => SdlKeycode::RGui,
        KeyCode::VolumeDown => SdlKeycode::VolumeDown,
        KeyCode::VolumeUp => SdlKeycode::VolumeUp,
        KeyCode::Mail => SdlKeycode::Mail,
        KeyCode::MediaSelect => SdlKeycode::MediaSelect,
        KeyCode::Minus => SdlKeycode::Minus,
        KeyCode::Mute => SdlKeycode::Mute,
        KeyCode::Slash => SdlKeycode::Slash,
        KeyCode::Sleep => SdlKeycode::Sleep,
        KeyCode::Stop => SdlKeycode::Stop,
        KeyCode::Exclaim => SdlKeycode::Exclaim,
        KeyCode::Quotedbl => SdlKeycode::Quotedbl,
        KeyCode::Hash => SdlKeycode::Hash,
        KeyCode::Dollar => SdlKeycode::Dollar,
        KeyCode::Percent => SdlKeycode::Percent,
        KeyCode::Ampersand => SdlKeycode::Ampersand,
        KeyCode::Quote => SdlKeycode::Quote,
        KeyCode::LeftParen => SdlKeycode::LeftParen,
        KeyCode::RightParen => SdlKeycode::RightParen,
        KeyCode::Less => SdlKeycode::Less,
        KeyCode::Greater => SdlKeycode::Greater,
        KeyCode::Question => SdlKeycode::Question,
        KeyCode::Backquote => SdlKeycode::Backquote,
        KeyCode::CapsLock => SdlKeycode::CapsLock,
        KeyCode::Application => SdlKeycode::Application,
        KeyCode::Execute => SdlKeycode::Execute,
        KeyCode::Help => SdlKeycode::Help,
        KeyCode::Menu => SdlKeycode::Menu,
        KeyCode::Select => SdlKeycode::Select,
        KeyCode::Again => SdlKeycode::Again,
        KeyCode::Undo => SdlKeycode::Undo,
        KeyCode::Find => SdlKeycode::Find,
        KeyCode::KpEqualsAS400 => SdlKeycode::KpEqualsAS400,
        KeyCode::AltErase => SdlKeycode::AltErase,
        KeyCode::Sysreq => SdlKeycode::Sysreq,
        KeyCode::Cancel => SdlKeycode::Cancel,
        KeyCode::Clear => SdlKeycode::Clear,
        KeyCode::Return2 => SdlKeycode::Return2,
        KeyCode::Separator => SdlKeycode::Separator,
        KeyCode::Out => SdlKeycode::Out,
        KeyCode::Oper => SdlKeycode::Oper,
        KeyCode::ClearAgain => SdlKeycode::ClearAgain,
        KeyCode::CrSel => SdlKeycode::CrSel,
        KeyCode::ExSel => SdlKeycode::ExSel,
        KeyCode::Kp00 => SdlKeycode::Kp00,
        KeyCode::Kp000 => SdlKeycode::Kp000,
        KeyCode::ThousandsSeparator => SdlKeycode::ThousandsSeparator,
        KeyCode::DecimalSeparator => SdlKeycode::DecimalSeparator,
        KeyCode::CurrencyUnit => SdlKeycode::CurrencyUnit,
        KeyCode::CurrencySubUnit => SdlKeycode::CurrencySubUnit,
        KeyCode::KpLeftParen => SdlKeycode::KpLeftParen,
        KeyCode::KpRightParen => SdlKeycode::KpRightParen,
        KeyCode::KpLeftBrace => SdlKeycode::KpLeftBrace,
        KeyCode::KpRightBrace => SdlKeycode::KpRightBrace,
        KeyCode::KpA => SdlKeycode::KpA,
        KeyCode::KpB => SdlKeycode::KpB,
        KeyCode::KpC => SdlKeycode::KpC,
        KeyCode::KpD => SdlKeycode::KpD,
        KeyCode::KpE => SdlKeycode::KpE,
        KeyCode::KpF => SdlKeycode::KpF,
        KeyCode::KpXor => SdlKeycode::KpXor,
        KeyCode::KpPower => SdlKeycode::KpPower,
        KeyCode::KpDblAmpersand => SdlKeycode::KpDblAmpersand,
        KeyCode::KpVerticalBar => SdlKeycode::KpVerticalBar,
        KeyCode::KpDblVerticalBar => SdlKeycode::KpDblVerticalBar,
        KeyCode::KpMemStore => SdlKeycode::KpMemStore,
        KeyCode::KpMemRecall => SdlKeycode::KpMemRecall,
        KeyCode::KpMemClear => SdlKeycode::KpMemClear,
        KeyCode::KpMemAdd => SdlKeycode::KpMemAdd,
        KeyCode::KpMemSubtract => SdlKeycode::KpMemSubtract,
        KeyCode::KpMemMultiply => SdlKeycode::KpMemMultiply,
        KeyCode::KpMemDivide => SdlKeycode::KpMemDivide,
        KeyCode::KpPlusMinus => SdlKeycode::KpPlusMinus,
        KeyCode::KpClearEntry => SdlKeycode::KpClearEntry,
        KeyCode::KpBinary => SdlKeycode::KpBinary,
        KeyCode::KpOctal => SdlKeycode::KpOctal,
        KeyCode::KpHexadecimal => SdlKeycode::KpHexadecimal,
        KeyCode::Mode => SdlKeycode::Mode,
        KeyCode::AudioNext => SdlKeycode::AudioNext,
        KeyCode::AudioPrev => SdlKeycode::AudioPrev,
        KeyCode::AudioStop => SdlKeycode::AudioStop,
        KeyCode::AudioPlay => SdlKeycode::AudioPlay,
        KeyCode::AudioMute => SdlKeycode::AudioMute,
        KeyCode::Www => SdlKeycode::Www,
        KeyCode::Computer => SdlKeycode::Computer,
        KeyCode::AcSearch => SdlKeycode::AcSearch,
        KeyCode::AcHome => SdlKeycode::AcHome,
        KeyCode::AcBack => SdlKeycode::AcBack,
        KeyCode::AcForward => SdlKeycode::AcForward,
        KeyCode::AcStop => SdlKeycode::AcStop,
        KeyCode::AcRefresh => SdlKeycode::AcRefresh,
        KeyCode::AcBookmarks => SdlKeycode::AcBookmarks,
        KeyCode::BrightnessDown => SdlKeycode::BrightnessDown,
        KeyCode::BrightnessUp => SdlKeycode::BrightnessUp,
        KeyCode::DisplaySwitch => SdlKeycode::DisplaySwitch,
        KeyCode::KbdIllumToggle => SdlKeycode::KbdIllumToggle,
        KeyCode::KbdIllumDown => SdlKeycode::KbdIllumDown,
        KeyCode::KbdIllumUp => SdlKeycode::KbdIllumUp,
        KeyCode::Eject => SdlKeycode::Eject,
        _ => SdlKeycode::Other,
    }
}

/// The main key of which an SDL key is a twin, if it is one: the keypad keys
/// (and `Prior`) that give the same key code as another key.
pub open spec fn sdl_key_twin(key: SdlKeycode) -> Option<SdlKeycode> {
    match key {
        SdlKeycode::Kp0 => Some(SdlKeycode::Num0),
        SdlKeycode::Kp1 => Some(SdlKeycode::Num1),
        SdlKeycode::Kp2 => Some(SdlKeycode::Num2),
        SdlKeycode::Kp3 => Some(SdlKeycode::Num3),
        SdlKeycode::Kp4 => Some(SdlKeycode::Num4),
        SdlKeycode::Kp5 => Some(SdlKeycode::Num5),
        SdlKeycode::Kp6 => Some(SdlKeycode::Num6),
        SdlKeycode::Kp7 => Some(SdlKeycode::Num7),
        SdlKeycode::Kp8 => Some(SdlKeycode::Num8),
        SdlKeycode::Kp9 => Some(SdlKeycode::Num9),
        SdlKeycode::KpBackspace => Some(SdlKeycode::Backspace),
        SdlKeycode::KpSpace => Some(SdlKeycode::Space),
        SdlKeycode::KpTab => Some(SdlKeycode::Tab),
        SdlKeycode::KpAt => Some(SdlKeycode::At),
        SdlKeycode::KpColon => Some(SdlKeycode::Colon),
        SdlKeycode::KpPeriod => Some(SdlKeycode::Period),
        SdlKeycode::Prior => Some(SdlKeycode::Period),
        SdlKeycode::KpExclam => Some(SdlKeycode::Exclaim),
        SdlKeycode::KpHash => Some(SdlKeycode::Hash),
        SdlKeycode::KpPercent => Some(SdlKeycode::Percent),
        SdlKeycode::KpAmpersand => Some(SdlKeycode::Ampersand),
        SdlKeycode::KpLess => Some(SdlKeycode::Less),
        SdlKeycode::KpGreater => Some(SdlKeycode::Greater),
        SdlKeycode::KpClear => Some(SdlKeycode::Clear),
        _ => None,
    }
}

/// Translates an SDL key code into the toolkit's key code.
pub fn translate_key(key: SdlKeycode) -> (code: KeyCode)
    ensures
        code == sdl_key_code(key),
        key != SdlKeycode::Other && sdl_key_twin(key) is None ==> sdl_key_source(code) == key,
        sdl_key_twin(key) matches Some(main) ==> code == sdl_key_code(main),
{
    proof {
        lemma_key_comes_back(key);
    }
    let code = match key {
            SdlKeycode::Num0 => KeyCode::Numpad0,
            SdlKeycode::Num1 => KeyCode::Numpad1,
            SdlKeycode::Num2 => KeyCode::Numpad2,
            SdlKeycode::Num3 => KeyCode::Numpad3,
            SdlKeycode::Num4 => KeyCode::Numpad4,
            SdlKeycode::Num5 => KeyCode::Numpad5,
            SdlKeycode::Num6 => KeyCode::Numpad6,
            SdlKeycode::Num7 => KeyCode::Numpad7,
            SdlKeycode::Num8 => KeyCode::Numpad8,
            SdlKeycode::Num9 => KeyCode::Numpad9,
            SdlKeycode::A => KeyCode::A,
            SdlKeycode::B => KeyCode::B,
            SdlKeycode::C => KeyCode::C,
            SdlKeycode::D => KeyCode::D,
            SdlKeycode::E => KeyCode::E,
            SdlKeycode::F => KeyCode::F,
            SdlKeycode::G => KeyCode::G,
            SdlKeycode::H => KeyCode::H,
            SdlKeycode::I => KeyCode::I,
            SdlKeycode::J => KeyCode::J,
            SdlKeycode::K => KeyCode::K,
            SdlKeycode::L => KeyCode::L,
            SdlKeycode::M => KeyCode::M,
            SdlKeycode::N => KeyCode::N,
            SdlKeycode::O => KeyCode::O,
            SdlKeycode::P => KeyCode::P,
            SdlKeycode::Q => KeyCode::Q,
            SdlKeycode::R => KeyCode::R,
            SdlKeycode::S => KeyCode::S,
            SdlKeycode::T => KeyCode::T,
            SdlKeycode::U => KeyCode::U,
            SdlKeycode::V => KeyCode::V,
            SdlKeycode::W => KeyCode::W,
            SdlKeycode::X => KeyCode::X,
            SdlKeycode::Y => KeyCode::Y,
            SdlKeycode::Z => KeyCode::Z,
            SdlKeycode::Escape => KeyCode::Escape,
            SdlKeycode::F1 => KeyCode::F1,
            SdlKeycode::F2 => KeyCode::F2,
            SdlKeycode::F3 => KeyCode::F3,
            SdlKeycode::F4 => KeyCode::F4,
            SdlKeycode::F5 => KeyCode::F5,
            SdlKeycode::F6 => KeyCode::F6,
            SdlKeycode::F7 => KeyCode::F7,
            SdlKeycode::F8 => KeyCode::F8,
            SdlKeycode::F9 => KeyCode::F9,
            SdlKeycode::F10 => KeyCode::F10,
            SdlKeycode::F11 => KeyCode::F11,
            SdlKeycode::F12 => KeyCode::F12,
            SdlKeycode::F13 => KeyCode::F13,
            SdlKeycode::F14 => KeyCode::F14,
            SdlKeycode::F15 => KeyCode::F15,
            SdlKeycode::F16 => KeyCode::F16,
            SdlKeycode::F17 => KeyCode::F17,
            SdlKeycode::F18 => KeyCode::F18,
            SdlKeycode::F19 => KeyCode::F19,
            SdlKeycode::F20 => KeyCode::F20,
            SdlKeycode::F21 => KeyCode::F21,
            SdlKeycode::F22 => KeyCode::F22,
            SdlKeycode::F23 => KeyCode::F23,
            SdlKeycode::F24 => KeyCode::F24,
            SdlKeycode::PrintScreen => KeyCode::Snapshot,
            SdlKeycode::ScrollLock => KeyCode::Scroll,
            SdlKeycode::Pause => KeyCode::Pause,
            SdlKeycode::Insert => KeyCode::Insert,
            SdlKeycode::Home => KeyCode::Home,
            SdlKeycode::Delete => KeyCode::Delete,
            SdlKeycode::End => KeyCode::End,
            SdlKeycode::PageDown => KeyCode::PageDown,
            SdlKeycode::PageUp => KeyCode::PageUp,
            SdlKeycode::Left => KeyCode::Left,
            SdlKeycode::Up => KeyCode::Up,
            SdlKeycode::Right => KeyCode::Right,
            SdlKeycode::Down => KeyCode::Down,
            SdlKeycode::Backspace => KeyCode::Backspace,
            SdlKeycode::Return => KeyCode::Return,
            SdlKeycode::Space => KeyCode::Space,
            SdlKeycode::Tab => KeyCode::Tab,
            SdlKeycode::NumLockClear => KeyCode::Numlock,
            SdlKeycode::Kp0 => KeyCode::Numpad0,
            SdlKeycode::Kp1 => KeyCode::Numpad1,
            SdlKeycode::Kp2 => KeyCode::Numpad2,
            SdlKeycode::Kp3 => KeyCode::Numpad3,
            SdlKeycode::Kp4 => KeyCode::Numpad4,
            SdlKeycode::Kp5 => KeyCode::Numpad5,
            SdlKeycode::Kp6 => KeyCode::Numpad6,
            SdlKeycode::Kp7 => KeyCode::Numpad7,
            SdlKeycode::Kp8 => KeyCode::Numpad8,
            SdlKeycode::Kp9 => KeyCode::Numpad9,
            SdlKeycode::KpPlus => KeyCode::NumpadAdd,
            SdlKeycode::KpMinus => KeyCode::NumpadSubtract,
            SdlKeycode::KpMultiply => KeyCode::NumpadMultiply,
            SdlKeycode::KpDivide => KeyCode::NumpadDivide,
            SdlKeycode::KpDecimal => KeyCode::NumpadDecimal,
            SdlKeycode::KpComma => KeyCode::NumpadComma,
            SdlKeycode::KpEnter => KeyCode::NumpadEnter,
            SdlKeycode::KpEquals => KeyCode::NumpadEquals,
            SdlKeycode::Copy => KeyCode::Copy,
            SdlKeycode::Paste => KeyCode::Paste,
            SdlKeycode::Cut => KeyCode::Cut,
            SdlKeycode::At => KeyCode::At,
            SdlKeycode::Caret => KeyCode::Caret,
            SdlKeycode::Equals => KeyCode::Equals,
            SdlKeycode::Plus => KeyCode::Plus,
            SdlKeycode::Power => KeyCode::Power,
            SdlKeycode::Asterisk => KeyCode::Asterisk,
            SdlKeycode::Semicolon => KeyCode::Semicolon,
            SdlKeycode::Backslash => KeyCode::Backslash,
            SdlKeycode::Colon => KeyCode::Colon,
            SdlKeycode::Comma => KeyCode::Comma,
            SdlKeycode::Calculator => KeyCode::Calculator,
            SdlKeycode::Underscore => KeyCode::Underline,
            SdlKeycode::Period => KeyCode::Period,
            SdlKeycode::LAlt => KeyCode::LAlt,
            SdlKeycode::RAlt => KeyCode::RAlt,
            SdlKeycode::LeftBracket => KeyCode::LBracket,
            SdlKeycode::RightBracket => KeyCode::RBracket,
            SdlKeycode::LShift => KeyCode::LShift,
            SdlKeycode::RShift => KeyCode::RShift,
            SdlKeycode::LCtrl => KeyCode::LControl,
            SdlKeycode::RCtrl => KeyCode::RControl,
            SdlKeycode::LGui => KeyCode::LGui,
            SdlKeycode::RGui => KeyCode::RGui,
            SdlKeycode::VolumeDown => KeyCode::VolumeDown,
            SdlKeycode::VolumeUp => KeyCode::VolumeUp,
            SdlKeycode::Mail => KeyCode::Mail,
            SdlKeycode::MediaSelect => KeyCode::MediaSelect,
            SdlKeycode::Minus => KeyCode::Minus,
            SdlKeycode::Mute => KeyCode::Mute,
            SdlKeycode::Slash => KeyCode::Slash,
            SdlKeycode::Sleep => KeyCode::Sleep,
            SdlKeycode::Stop => KeyCode::Stop,
            SdlKeycode::Exclaim => KeyCode::Exclaim,
            SdlKeycode::Quotedbl => KeyCode::Quotedbl,
            SdlKeycode::Hash => KeyCode::Hash,
            SdlKeycode::Dollar => KeyCode::Dollar,
            SdlKeycode::Percent => KeyCode::Percent,
            SdlKeycode::Ampersand => KeyCode::Ampersand,
            SdlKeycode::Quote => KeyCode::Quote,
            SdlKeycode::LeftParen => KeyCode::LeftParen,
            SdlKeycode::RightParen => KeyCode::RightParen,
            SdlKeycode::Less => KeyCode::Less,
            SdlKeycode::Greater => KeyCode::Greater,
            SdlKeycode::Question => KeyCode::Question,
            SdlKeycode::Backquote => KeyCode::Backquote,
            SdlKeycode::CapsLock => KeyCode::CapsLock,
            SdlKeycode::KpPeriod => KeyCode::Period,
            SdlKeycode::Application => KeyCode::Application,
            SdlKeycode::Execute => KeyCode::Execute,
            SdlKeycode::Help => KeyCode::Help,
            SdlKeycode::Menu => KeyCode::Menu,
            SdlKeycode::Select => KeyCode::Select,
            SdlKeycode::Again => KeyCode::Again,
            SdlKeycode::Undo => KeyCode::Undo,
            SdlKeycode::Find => KeyCode::Find,
            SdlKeycode::KpEqualsAS400 => KeyCode::KpEqualsAS400,
            SdlKeycode::AltErase => KeyCode::AltErase,
            SdlKeycode::Sysreq => KeyCode::Sysreq,
            SdlKeycode::Cancel => KeyCode::Cancel,
            SdlKeycode::Clear => KeyCode::Clear,
            SdlKeycode::Prior => KeyCode::Period,
            SdlKeycode::Return2 => KeyCode::Return2,
            SdlKeycode::Separator => KeyCode::Separator,
            SdlKeycode::Out => KeyCode::Out,
            SdlKeycode::Oper => KeyCode::Oper,
            SdlKeycode::ClearAgain => KeyCode::ClearAgain,
            SdlKeycode::CrSel => KeyCode::CrSel,
            SdlKeycode::ExSel => KeyCode::ExSel,
            SdlKeycode::Kp00 => KeyCode::Kp00,
            SdlKeycode::Kp000 => KeyCode::Kp000,
            SdlKeycode::ThousandsSeparator => KeyCode::ThousandsSeparator,
            SdlKeycode::DecimalSeparator => KeyCode::DecimalSeparator,
            SdlKeycode::CurrencyUnit => KeyCode::CurrencyUnit,
            SdlKeycode::CurrencySubUnit => KeyCode::CurrencySubUnit,
            SdlKeycode::KpLeftParen => KeyCode::KpLeftParen,
            SdlKeycode::KpRightParen => KeyCode::KpRightParen,
            SdlKeycode::KpLeftBrace => KeyCode::KpLeftBrace,
            SdlKeycode::KpRightBrace => KeyCode::KpRightBrace,
            SdlKeycode::KpTab => KeyCode::Tab,
            SdlKeycode::KpBackspace => KeyCode::Backspace,
            SdlKeycode::KpA => KeyCode::KpA,
            SdlKeycode::KpB => KeyCode::KpB,
            SdlKeycode::KpC => KeyCode::KpC,
            SdlKeycode::KpD => KeyCode::KpD,
            SdlKeycode::KpE => KeyCode::KpE,
            SdlKeycode::KpF => KeyCode::KpF,
            SdlKeycode::KpXor => KeyCode::KpXor,
            SdlKeycode::KpPower => KeyCode::KpPower,
            SdlKeycode::KpPercent => KeyCode::Percent,
            SdlKeycode::KpLess => KeyCode::Less,
            SdlKeycode::KpGreater => KeyCode::Greater,
            SdlKeycode::KpAmpersand => KeyCode::Ampersand,
            SdlKeycode::KpDblAmpersand => KeyCode::KpDblAmpersand,
            SdlKeycode::KpVerticalBar => KeyCode::KpVerticalBar,
            SdlKeycode::KpDblVerticalBar => KeyCode::KpDblVerticalBar,
            SdlKeycode::KpColon => KeyCode::Colon,
            SdlKeycode::KpHash => KeyCode::Hash,
            SdlKeycode::KpSpace => KeyCode::Space,
            SdlKeycode::KpAt => KeyCode::At,
            SdlKeycode::KpExclam => KeyCode::Exclaim,
            SdlKeycode::KpMemStore => KeyCode::KpMemStore,
            SdlKeycode::KpMemRecall => KeyCode::KpMemRecall,
            SdlKeycode::KpMemClear => KeyCode::KpMemClear,
            SdlKeycode::KpMemAdd => KeyCode::KpMemAdd,
            SdlKeycode::KpMemSubtract => KeyCode::KpMemSubtract,
            SdlKeycode::KpMemMultiply => KeyCode::KpMemMultiply,
            SdlKeycode::KpMemDivide => KeyCode::KpMemDivide,
            SdlKeycode::KpPlusMinus => KeyCode::KpPlusMinus,
            SdlKeycode::KpClear => KeyCode::Clear,
            SdlKeycode::KpClearEntry => KeyCode::KpClearEntry,
            SdlKeycode::KpBinary => KeyCode::KpBinary,
            SdlKeycode::KpOctal => KeyCode::KpOctal,
            SdlKeycode::KpHexadecimal => KeyCode::KpHexadecimal,
            SdlKeycode::Mode => KeyCode::Mode,
            SdlKeycode::AudioNext => KeyCode::AudioNext,
            SdlKeycode::AudioPrev => KeyCode::AudioPrev,
            SdlKeycode::AudioStop => KeyCode::AudioStop,
            SdlKeycode::AudioPlay => KeyCode::AudioPlay,
            SdlKeycode::AudioMute => KeyCode::AudioMute,
            SdlKeycode::Www => KeyCode::Www,
            SdlKeycode::Computer => KeyCode::Computer,
            SdlKeycode::AcSearch => KeyCode::AcSearch,
            SdlKeycode::AcHome => KeyCode::AcHome,
            SdlKeycode::AcBack => KeyCode::AcBack,
            SdlKeycode::AcForward => KeyCode::AcForward,
            SdlKeycode::AcStop => KeyCode::AcStop,
            SdlKeycode::AcRefresh => KeyCode::AcRefresh,
            SdlKeycode::AcBookmarks => KeyCode::AcBookmarks,
            SdlKeycode::BrightnessDown => KeyCode::BrightnessDown,
            SdlKeycode::BrightnessUp => KeyCode::BrightnessUp,
            SdlKeycode::DisplaySwitch => KeyCode::DisplaySwitch,
            SdlKeycode::KbdIllumToggle => KeyCode::KbdIllumToggle,
            SdlKeycode::KbdIllumDown => KeyCode::KbdIllumDown,
            SdlKeycode::KbdIllumUp => KeyCode::KbdIllumUp,
            SdlKeycode::Eject => KeyCode::Eject,
            SdlKeycode::Other => KeyCode::Unlabeled,
    };
    code
}

/// Exactly the SDL keys without a name of their own become `Unlabeled`.
pub proof fn lemma_translate_key_unlabeled(key: SdlKeycode)
    ensures
        (sdl_key_code(key) == KeyCode::Unlabeled) <==> (key == SdlKeycode::Other),
{
}

/// [`lemma_key_comes_back`] for the keys of part 1 of the table.
#[verifier::spinoff_prover]
#[verifier::rlimit(50)]
proof fn lemma_key_comes_back_part1(a: SdlKeycode)
    requires
        a is Num0 || a is Num1 || a is Num2 || a is Num3 || a is Num4 || a is Num5 || a is Num6 || a is Num7 || a is Num8 || a is Num9 || a is A || a is B || a is C || a is D || a is E || a is F || a is G || a is H || a is I || a is J || a is K || a is L || a is M || a is N || a is O || a is P || a is Q || a is R || a is S || a is T,
    ensures
        a != SdlKeycode::Other && sdl_key_twin(a) is None ==> sdl_key_source(sdl_key_code(a)) == a,
        sdl_key_twin(a) matches Some(main) ==> sdl_key_twin(main) is None && main != SdlKeycode::Other
            && sdl_key_code(a) == sdl_key_code(main),
{
    match a {
        SdlKeycode::Num0 => {},
        SdlKeycode::Num1 => {},
        SdlKeycode::Num2 => {},
        SdlKeycode::Num3 => {},
        SdlKeycode::Num4 => {},
        SdlKeycode::Num5 => {},
        SdlKeycode::Num6 => {},
        SdlKeycode::Num7 => {},
        SdlKeycode::Num8 => {},
        SdlKeycode::Num9 => {},
        SdlKeycode::A => {},
        SdlKeycode::B => {},
        SdlKeycode::C => {},
        SdlKeycode::D => {},
        SdlKeycode::E => {},
        SdlKeycode::F => {},
        SdlKeycode::G => {},
        SdlKeycode::H => {},
        SdlKeycode::I => {},
        SdlKeycode::J => {},
        SdlKeycode::K => {},
        SdlKeycode::L => {},
        SdlKeycode::M => {},
        SdlKeycode::N => {},
        SdlKeycode::O => {},
        SdlKeycode::P => {},
        SdlKeycode::Q => {},
        SdlKeycode::R => {},
        SdlKeycode::S => {},
        SdlKeycode::T => {},
        _ => {},
    }
}

/// [`lemma_key_comes_back`] for the keys of part 2 of the table.
#[verifier::spinoff_prover]
#[verifier::rlimit(50)]
proof fn lemma_key_comes_back_part2(a: SdlKeycode)
    requires
        a is U || a is V || a is W || a is X || a is Y || a is Z || a is Escape || a is F1 || a is F2 || a is F3 || a is F4 || a is F5 || a is F6 || a is F7 || a is F8 || a is F9 || a is F10 || a is F11 || a is F12 || a is F13 || a is F14 || a is F15 || a is F16 || a is F17 || a is F18 || a is F19 || a is F20 || a is F21 || a is F22 || a is F23,
    ensures
        a != SdlKeycode::Other && sdl_key_twin(a) is None ==> sdl_key_source(sdl_key_code(a)) == a,
        sdl_key_twin(a) matches Some(main) ==> sdl_key_twin(main) is None && main != SdlKeycode::Other
            && sdl_key_code(a) == sdl_key_code(main),
{
    match a {
        SdlKeycode::U => {},
        SdlKeycode::V => {},
        SdlKeycode::W => {},
        SdlKeycode::X => {},
        SdlKeycode::Y => {},
        SdlKeycode::Z => {},
        SdlKeycode::Escape => {},
        SdlKeycode::F1 => {},
        SdlKeycode::F2 => {},
        SdlKeycode::F3 => {},
        SdlKeycode::F4 => {},
        SdlKeycode::F5 => {},
        SdlKeycode::F6 => {},
        SdlKeycode::F7 => {},
        SdlKeycode::F8 => {},
        SdlKeycode::F9 => {},
        SdlKeycode::F10 => {},
        SdlKeycode::F11 => {},
        SdlKeycode::F12 => {},
        SdlKeycode::F13 => {},
        SdlKeycode::F14 => {},
        SdlKeycode::F15 => {},
        SdlKeycode::F16 => {},
        SdlKeycode::F17 => {},
        SdlKeycode::F18 => {},
        SdlKeycode::F19 => {},
        SdlKeycode::F20 => {},
        SdlKeycode::F21 => {},
        SdlKeycode::F22 => {},
        SdlKeycode::F23 => {},
        _ => {},
    }
}

/// [`lemma_key_comes_back`] for the keys of part 3 of the table.
#[verifier::spinoff_prover]
#[verifier::rlimit(50)]
proof fn lemma_key_comes_back_part3(a: SdlKeycode)
    requires
        a is F24 || a is PrintScreen || a is ScrollLock || a is Pause || a is Insert || a is Home || a is Delete || a is End || a is PageDown || a is PageUp || a is Left || a is Up || a is Right || a is Down || a is Backspace || a is Return || a is Space || a is Tab || a is NumLockClear || a is Kp0 || a is Kp1 || a is Kp2 || a is Kp3 || a is Kp4 || a is Kp5 || a is Kp6 || a is Kp7 || a is Kp8 || a is Kp9 || a is KpPlus,
    ensures
        a != SdlKeycode::Other && sdl_key_twin(a) is None ==> sdl_key_source(sdl_key_code(a)) == a,
        sdl_key_twin(a) matches Some(main) ==> sdl_key_twin(main) is None && main != SdlKeycode::Other
            && sdl_key_code(a) == sdl_key_code(main),
{
    match a {
        SdlKeycode::F24 => {},
        SdlKeycode::PrintScreen => {},
        SdlKeycode::ScrollLock => {},
        SdlKeycode::Pause => {},
        SdlKeycode::Insert => {},
        SdlKeycode::Home => {},
        SdlKeycode::Delete => {},
        SdlKeycode::End => {},
        SdlKeycode::PageDown => {},
        SdlKeycode::PageUp => {},
        SdlKeycode::Left => {},
        SdlKeycode::Up => {},
        SdlKeycode::Right => {},
        SdlKeycode::Down => {},
        SdlKeycode::Backspace => {},
        SdlKeycode::Return => {},
        SdlKeycode::Space => {},
        SdlKeycode::Tab => {},
        SdlKeycode::NumLockClear => {},
        SdlKeycode::Kp0 => {},
        SdlKeycode::Kp1 => {},
        SdlKeycode::Kp2 => {},
        SdlKeycode::Kp3 => {},
        SdlKeycode::Kp4 => {},
        SdlKeycode::Kp5 => {},
        SdlKeycode::Kp6 => {},
        SdlKeycode::Kp7 => {},
        SdlKeycode::Kp8 => {},
        SdlKeycode::Kp9 => {},
        SdlKeycode::KpPlus => {},
        _ => {},
    }
}

/// [`lemma_key_comes_back`] for the keys of part 4 of the table.
#[verifier::spinoff_prover]
#[verifier::rlimit(50)]
proof fn lemma_key_comes_back_part4(a: SdlKeycode)
    requires
        a is KpMinus || a is KpMultiply || a is KpDivide || a is KpDecimal || a is KpComma || a is KpEnter || a is KpEquals || a is Copy || a is Paste || a is Cut || a is At || a is Caret || a is Equals || a is Plus || a is Power || a is Asterisk || a is Semicolon || a is Backslash || a is Colon || a is Comma || a is Calculator || a is Underscore || a is Period || a is LAlt || a is RAlt || a is LeftBracket || a is RightBracket || a is LShift || a is RShift || a is LCtrl,
    ensures
        a != SdlKeycode::Other && sdl_key_twin(a) is None ==> sdl_key_source(sdl_key_code(a)) == a,
        sdl_key_twin(a) matches Some(main) ==> sdl_key_twin(main) is None && main != SdlKeycode::Other
            && sdl_key_code(a) == sdl_key_code(main),
{
    match a {
        SdlKeycode::KpMinus => {},
        SdlKeycode::KpMultiply => {},
        SdlKeycode::KpDivide => {},
        SdlKeycode::KpDecimal => {},
        SdlKeycode::KpComma => {},
        SdlKeycode::KpEnter => {},
        SdlKeycode::KpEquals => {},
        SdlKeycode::Copy => {},
        SdlKeycode::Paste => {},
        SdlKeycode::Cut => {},
        SdlKeycode::At => {},
        SdlKeycode::Caret => {},
        SdlKeycode::Equals => {},
        SdlKeycode::Plus => {},
        SdlKeycode::Power => {},
        SdlKeycode::Asterisk => {},
        SdlKeycode::Semicolon => {},
        SdlKeycode::Backslash => {},
        SdlKeycode::Colon => {},
        SdlKeycode::Comma => {},
        SdlKeycode::Calculator => {},
        SdlKeycode::Underscore => {},
        SdlKeycode::Period => {},
        SdlKeycode::LAlt => {},
        SdlKeycode::RAlt => {},
        SdlKeycode::LeftBracket => {},
        SdlKeycode::RightBracket => {},
        SdlKeycode::LShift => {},
        SdlKeycode::RShift => {},
        SdlKeycode::LCtrl => {},
        _ => {},
    }
}

/// [`lemma_key_comes_back`] for the keys of part 5 of the table.
#[verifier::spinoff_prover]
#[verifier::rlimit(50)]
proof fn lemma_key_comes_back_part5(a: SdlKeycode)
    requires
        a is RCtrl || a is LGui || a is RGui || a is VolumeDown || a is VolumeUp || a is Mail || a is MediaSelect || a is Minus || a is Mute || a is Slash || a is Sleep || a is Stop || a is Exclaim || a is Quotedbl || a is Hash || a is Dollar || a is Percent || a is Ampersand || a is Quote || a is LeftParen || a is RightParen || a is Less || a is Greater || a is Question || a is Backquote || a is CapsLock || a is KpPeriod || a is Application || a is Execute || a is Help,
    ensures
        a != SdlKeycode::Other && sdl_key_twin(a) is None ==> sdl_key_source(sdl_key_code(a)) == a,
        sdl_key_twin(a) matches Some(main) ==> sdl_key_twin(main) is None && main != SdlKeycode::Other
            && sdl_key_code(a) == sdl_key_code(main),
{
    match a {
        SdlKeycode::RCtrl => {},
        SdlKeycode::LGui => {},
        SdlKeycode::RGui => {},
        SdlKeycode::VolumeDown => {},
        SdlKeycode::VolumeUp => {},
        SdlKeycode::Mail => {},
        SdlKeycode::MediaSelect => {},
        SdlKeycode::Minus => {},
        SdlKeycode::Mute => {},
        SdlKeycode::Slash => {},
        SdlKeycode::Sleep => {},
        SdlKeycode::Stop => {},
        SdlKeycode::Exclaim => {},
        SdlKeycode::Quotedbl => {},
        SdlKeycode::Hash => {},
        SdlKeycode::Dollar => {},
        SdlKeycode::Percent => {},
        SdlKeycode::Ampersand => {},
        SdlKeycode::Quote => {},
        SdlKeycode::LeftParen => {},
        SdlKeycode::RightParen => {},
        SdlKeycode::Less => {},
        SdlKeycode::Greater => {},
        SdlKeycode::Question => {},
        SdlKeycode::Backquote => {},
        SdlKeycode::CapsLock => {},
        SdlKeycode::KpPeriod => {},
        SdlKeycode::Application => {},
        SdlKeycode::Execute => {},
        SdlKeycode::Help => {},
        _ => {},
    }
}

/// [`lemma_key_comes_back`] for the keys of part 6 of the table.
#[verifier::spinoff_prover]
#[verifier::rlimit(50)]
proof fn lemma_key_comes_back_part6(a: SdlKeycode)
    requires
        a is Menu || a is Select || a is Again || a is Undo || a is Find || a is KpEqualsAS400 || a is AltErase || a is Sysreq || a is Cancel || a is Clear || a is Prior || a is Return2 || a is Separator || a is Out || a is Oper || a is ClearAgain || a is CrSel || a is ExSel || a is Kp00 || a is Kp000 || a is ThousandsSeparator || a is DecimalSeparator || a is CurrencyUnit || a is CurrencySubUnit || a is KpLeftParen || a is KpRightParen || a is KpLeftBrace || a is KpRightBrace || a is KpTab || a is KpBackspace,
    ensures
        a != SdlKeycode::Other && sdl_key_twin(a) is None ==> sdl_key_source(sdl_key_code(a)) == a,
        sdl_key_twin(a) matches Some(main) ==> sdl_key_twin(main) is None && main != SdlKeycode::Other
            && sdl_key_code(a) == sdl_key_code(main),
{
    match a {
        SdlKeycode::Menu => {},
        SdlKeycode::Select => {},
        SdlKeycode::Again => {},
        SdlKeycode::Undo => {},
        SdlKeycode::Find => {},
        SdlKeycode::KpEqualsAS400 => {},
        SdlKeycode::AltErase => {},
        SdlKeycode::Sysreq => {},
        SdlKeycode::Cancel => {},
        SdlKeycode::Clear => {},
        SdlKeycode::Prior => {},
        SdlKeycode::Return2 => {},
        SdlKeycode::Separator => {},
        SdlKeycode::Out => {},
        SdlKeycode::Oper => {},
        SdlKeycode::ClearAgain => {},
        SdlKeycode::CrSel => {},
        SdlKeycode::ExSel => {},
        SdlKeycode::Kp00 => {},
        SdlKeycode::Kp000 => {},
        SdlKeycode::ThousandsSeparator => {},
        SdlKeycode::DecimalSeparator => {},
        SdlKeycode::CurrencyUnit => {},
        SdlKeycode::CurrencySubUnit => {},
        SdlKeycode::KpLeftParen => {},
        SdlKeycode::KpRightParen => {},
        SdlKeycode::KpLeftBrace => {},
        SdlKeycode::KpRightBrace => {},
        SdlKeycode::KpTab => {},
        SdlKeycode::KpBackspace => {},
        _ => {},
    }
}

/// [`lemma_key_comes_back`] for the keys of part 7 of the table.
#[verifier::spinoff_prover]
#[verifier::rlimit(50)]
proof fn lemma_key_comes_back_part7(a: SdlKeycode)
    requires
        a is KpA || a is KpB || a is KpC || a is KpD || a is KpE || a is KpF || a is KpXor || a is KpPower || a is KpPercent || a is KpLess || a is KpGreater || a is KpAmpersand || a is KpDblAmpersand || a is KpVerticalBar || a is KpDblVerticalBar || a is KpColon || a is KpHash || a is KpSpace || a is KpAt || a is KpExclam || a is KpMemStore || a is KpMemRecall || a is KpMemClear || a is KpMemAdd || a is KpMemSubtract || a is KpMemMultiply || a is KpMemDivide || a is KpPlusMinus || a is KpClear || a is KpClearEntry,
    ensures
        a != SdlKeycode::Other && sdl_key_twin(a) is None ==> sdl_key_source(sdl_key_code(a)) == a,
        sdl_key_twin(a) matches Some(main) ==> sdl_key_twin(main) is None && main != SdlKeycode::Other
            && sdl_key_code(a) == sdl_key_code(main),
{
    match a {
        SdlKeycode::KpA => {},
        SdlKeycode::KpB => {},
        SdlKeycode::KpC => {},
        SdlKeycode::KpD => {},
        SdlKeycode::KpE => {},
        SdlKeycode::KpF => {},
        SdlKeycode::KpXor => {},
        SdlKeycode::KpPower => {},
        SdlKeycode::KpPercent => {},
        SdlKeycode::KpLess => {},
        SdlKeycode::KpGreater => {},
        SdlKeycode::KpAmpersand => {},
        SdlKeycode::KpDblAmpersand => {},
        SdlKeycode::KpVerticalBar => {},
        SdlKeycode::KpDblVerticalBar => {},
        SdlKeycode::KpColon => {},
        SdlKeycode::KpHash => {},
        SdlKeycode::KpSpace => {},
        SdlKeycode::KpAt => {},
        SdlKeycode::KpExclam => {},
        SdlKeycode::KpMemStore => {},
        SdlKeycode::KpMemRecall => {},
        SdlKeycode::KpMemClear => {},
        SdlKeycode::KpMemAdd => {},
        SdlKeycode::KpMemSubtract => {},
        SdlKeycode::KpMemMultiply => {},
        SdlKeycode::KpMemDivide => {},
        SdlKeycode::KpPlusMinus => {},
        SdlKeycode::KpClear => {},
        SdlKeycode::KpClearEntry => {},
        _ => {},
    }
}

/// [`lemma_key_comes_back`] for the keys of part 8 of the table.
#[verifier::spinoff_prover]
#[verifier::rlimit(50)]
proof fn lemma_key_comes_back_part8(a: SdlKeycode)
    requires
        a is KpBinary || a is KpOctal || a is KpHexadecimal || a is Mode || a is AudioNext || a is AudioPrev || a is AudioStop || a is AudioPlay || a is AudioMute || a is Www || a is Computer || a is AcSearch || a is AcHome || a is AcBack || a is AcForward || a is AcStop || a is AcRefresh || a is AcBookmarks || a is BrightnessDown || a is BrightnessUp || a is DisplaySwitch || a is KbdIllumToggle || a is KbdIllumDown || a is KbdIllumUp || a is Eject || a is Other,
    ensures
        a != SdlKeycode::Other && sdl_key_twin(a) is None ==> sdl_key_source(sdl_key_code(a)) == a,
        sdl_key_twin(a) matches Some(main) ==> sdl_key_twin(main) is None && main != SdlKeycode::Other
            && sdl_key_code(a) == sdl_key_code(main),
{
    match a {
        SdlKeycode::KpBinary => {},
        SdlKeycode::KpOctal => {},
        SdlKeycode::KpHexadecimal => {},
        SdlKeycode::Mode => {},
        SdlKeycode::AudioNext => {},
        SdlKeycode::AudioPrev => {},
        SdlKeycode::AudioStop => {},
        SdlKeycode::AudioPlay => {},
        SdlKeycode::AudioMute => {},
        SdlKeycode::Www => {},
        SdlKeycode::Computer => {},
        SdlKeycode::AcSearch => {},
        SdlKeycode::AcHome => {},
        SdlKeycode::AcBack => {},
        SdlKeycode::AcForward => {},
        SdlKeycode::AcStop => {},
        SdlKeycode::AcRefresh => {},
        SdlKeycode::AcBookmarks => {},
        SdlKeycode::BrightnessDown => {},
        SdlKeycode::BrightnessUp => {},
        SdlKeycode::DisplaySwitch => {},
        SdlKeycode::KbdIllumToggle => {},
        SdlKeycode::KbdIllumDown => {},
        SdlKeycode::KbdIllumUp => {},
        SdlKeycode::Eject => {},
        SdlKeycode::Other => {},
        _ => {},
    }
}

/// A named SDL key that is no twin is translated to a key code that comes
/// back from that key; a twin gives the key code of its main key.
proof fn lemma_key_comes_back(a: SdlKeycode)
    ensures
        a != SdlKeycode::Other && sdl_key_twin(a) is None ==> sdl_key_source(sdl_key_code(a)) == a,
        sdl_key_twin(a) matches Some(main) ==> sdl_key_twin(main) is None && main != SdlKeycode::Other
            && sdl_key_code(a) == sdl_key_code(main),
{
    if a is Num0 || a is Num1 || a is Num2 || a is Num3 || a is Num4 || a is Num5 || a is Num6 || a is Num7 || a is Num8 || a is Num9 || a is A || a is B || a is C || a is D || a is E || a is F || a is G || a is H || a is I || a is J || a is K || a is L || a is M || a is N || a is O || a is P || a is Q || a is R || a is S || a is T {
        lemma_key_comes_back_part1(a);
    } else if a is U || a is V || a is W || a is X || a is Y || a is Z || a is Escape || a is F1 || a is F2 || a is F3 || a is F4 || a is F5 || a is F6 || a is F7 || a is F8 || a is F9 || a is F10 || a is F11 || a is F12 || a is F13 || a is F14 || a is F15 || a is F16 || a is F17 || a is F18 || a is F19 || a is F20 || a is F21 || a is F22 || a is F23 {
        lemma_key_comes_back_part2(a);
    } else if a is F24 || a is PrintScreen || a is ScrollLock || a is Pause || a is Insert || a is Home || a is Delete || a is End || a is PageDown || a is PageUp || a is Left || a is Up || a is Right || a is Down || a is Backspace || a is Return || a is Space || a is Tab || a is NumLockClear || a is Kp0 || a is Kp1 || a is Kp2 || a is Kp3 || a is Kp4 || a is Kp5 || a is Kp6 || a is Kp7 || a is Kp8 || a is Kp9 || a is KpPlus {
        lemma_key_comes_back_part3(a);
    } else if a is KpMinus || a is KpMultiply || a is KpDivide || a is KpDecimal || a is KpComma || a is KpEnter || a is KpEquals || a is Copy || a is Paste || a is Cut || a is At || a is Caret || a is Equals || a is Plus || a is Power || a is Asterisk || a is Semicolon || a is Backslash || a is Colon || a is Comma || a is Calculator || a is Underscore || a is Period || a is LAlt || a is RAlt || a is LeftBracket || a is RightBracket || a is LShift || a is RShift || a is LCtrl {
        lemma_key_comes_back_part4(a);
    } else if a is RCtrl || a is LGui || a is RGui || a is VolumeDown || a is VolumeUp || a is Mail || a is MediaSelect || a is Minus || a is Mute || a is Slash || a is Sleep || a is Stop || a is Exclaim || a is Quotedbl || a is Hash || a is Dollar || a is Percent || a is Ampersand || a is Quote || a is LeftParen || a is RightParen || a is Less || a is Greater || a is Question || a is Backquote || a is CapsLock || a is KpPeriod || a is Application || a is Execute || a is Help {
        lemma_key_comes_back_part5(a);
    } else if a is Menu || a is Select || a is Again || a is Undo || a is Find || a is KpEqualsAS400 || a is AltErase || a is Sysreq || a is Cancel || a is Clear || a is Prior || a is Return2 || a is Separator || a is Out || a is Oper || a is ClearAgain || a is CrSel || a is ExSel || a is Kp00 || a is Kp000 || a is ThousandsSeparator || a is DecimalSeparator || a is CurrencyUnit || a is CurrencySubUnit || a is KpLeftParen || a is KpRightParen || a is KpLeftBrace || a is KpRightBrace || a is KpTab || a is KpBackspace {
        lemma_key_comes_back_part6(a);
    } else if a is KpA || a is KpB || a is KpC || a is KpD || a is KpE || a is KpF || a is KpXor || a is KpPower || a is KpPercent || a is KpLess || a is KpGreater || a is KpAmpersand || a is KpDblAmpersand || a is KpVerticalBar || a is KpDblVerticalBar || a is KpColon || a is KpHash || a is KpSpace || a is KpAt || a is KpExclam || a is KpMemStore || a is KpMemRecall || a is KpMemClear || a is KpMemAdd || a is KpMemSubtract || a is KpMemMultiply || a is KpMemDivide || a is KpPlusMinus || a is KpClear || a is KpClearEntry {
        lemma_key_comes_back_part7(a);
    } else if a is KpBinary || a is KpOctal || a is KpHexadecimal || a is Mode || a is AudioNext || a is AudioPrev || a is AudioStop || a is AudioPlay || a is AudioMute || a is Www || a is Computer || a is AcSearch || a is AcHome || a is AcBack || a is AcForward || a is AcStop || a is AcRefresh || a is AcBookmarks || a is BrightnessDown || a is BrightnessUp || a is DisplaySwitch || a is KbdIllumToggle || a is KbdIllumDown || a is KbdIllumUp || a is Eject || a is Other {
        lemma_key_comes_back_part8(a);
    }
}

/// Every named SDL key is translated to the key code it names: the key code
/// comes back from that key, except that a keypad twin gives the key code of
/// its main key. So two named keys that are no twins never give the same
/// key code.
pub proof fn lemma_translate_key_names(a: SdlKeycode, b: SdlKeycode)
    ensures
        a != SdlKeycode::Other && sdl_key_twin(a) is None ==> sdl_key_source(sdl_key_code(a)) == a,
        sdl_key_twin(a) matches Some(main) ==> sdl_key_twin(main) is None && main != SdlKeycode::Other
            && sdl_key_code(a) == sdl_key_code(main),
        a != SdlKeycode::Other && b != SdlKeycode::Other && sdl_key_twin(a) is None && sdl_key_twin(b)
            is None && sdl_key_code(a) == sdl_key_code(b) ==> a == b,
{
    lemma_key_comes_back(a);
    lemma_key_comes_back(b);
}

/// SDL's mouse buttons.
#[derive(Clone, Copy, Debug, PartialEq, Eq, Structural)]
pub enum SdlMouseButton {
    Unknown,
    Left,
    Middle,
    Right,
    X1,
    X2,
}

pub open spec fn spec_mouse_from(button: SdlMouseButton) -> Mouse {
    match button {
        SdlMouseButton::Left => Mouse::Left,
        SdlMouseButton::Middle => Mouse::Middle,
        SdlMouseButton::Right => Mouse::Right,
        _ => Mouse::Other,
    }
}

/// The toolkit's mouse button for an SDL mouse button.
pub fn mouse_from(button: SdlMouseButton) -> (m: Mouse)
    ensures
        m == spec_mouse_from(button),
        (m == Mouse::Left) == (button == SdlMouseButton::Left),
        (m == Mouse::Right) == (button == SdlMouseButton::Right),
        (m == Mouse::Middle) == (button == SdlMouseButton::Middle),
{
    match button {
        SdlMouseButton::Unknown => Mouse::Other,
        SdlMouseButton::Left => Mouse::Left,
        SdlMouseButton::Middle => Mouse::Middle,
        SdlMouseButton::Right => Mouse::Right,
        SdlMouseButton::X1 => Mouse::Other,
        SdlMouseButton::X2 => Mouse::Other,
    }
}

/// SDL's window events, with what the toolkit reads of each.
#[derive(Clone, Copy, Debug, PartialEq, Eq, Structural)]
pub enum SdlWindowEvent {
    Resized(i32, i32),
    SizeChanged(i32, i32),
    FocusGained,
    Close,
    Other,
}

/// SDL's events, with what the toolkit reads of each. `window_id` is the id
/// of the window that the event was sent to.
#[derive(Clone, Debug, PartialEq, Eq)]
pub enum SdlEvent {
    Window { window_id: u32, win_event: SdlWindowEvent },
    Quit,
    MouseMotion { window_id: u32, x: i32, y: i32 },
    TextInput { window_id: u32, text: Vec<char> },
    TextEditing { window_id: u32 },
    MouseButtonDown { window_id: u32, mouse_btn: SdlMouseButton },
    MouseButtonUp { window_id: u32, mouse_btn: SdlMouseButton },
    KeyDown { window_id: u32, keycode: Option<SdlKeycode> },
    KeyUp { window_id: u32, keycode: Option<SdlKeycode> },
    User,
    Other,
}

pub open spec fn spec_key_event(keycode: Option<SdlKeycode>, state: State) -> GEvent {
    GEvent {
        event: EventType::KeyBoard(
            match keycode {
                Some(k) => Some(sdl_key_code(k)),
                None => None,
            },
        ),
        state,
    }
}

/// The event that widgets receive for an SDL event: the first character of
/// typed text, a key or mouse button with its press state, or `Other`.
pub open spec fn spec_gevent_from(event: SdlEvent) -> GEvent {
    match event {
        SdlEvent::TextInput { text, .. } => if text@.len() > 0 {
            spec_char_event(text@[0])
        } else {
            spec_other_event()
        },
        SdlEvent::KeyDown { keycode, .. } => spec_key_event(keycode, State::Pressed),
        SdlEvent::KeyUp { keycode, .. } => spec_key_event(keycode, State::Released),
        SdlEvent::MouseButtonDown { mouse_btn, .. } => GEvent {
            event: EventType::Mouse(spec_mouse_from(mouse_btn)),
            state: State::Pressed,
        },
        SdlEvent::MouseButtonUp { mouse_btn, .. } => GEvent {
            event: EventType::Mouse(spec_mouse_from(mouse_btn)),
            state: State::Released,
        },
        _ => spec_other_event(),
    }
}

fn key_event(keycode: Option<SdlKeycode>, state: State) -> (e: GEvent)
    ensures
        e == spec_key_event(keycode, state),
{
    let key_code = match keycode {
        Some(key) => Some(translate_key(key)),
        None => None,
    };
    GEvent { event: EventType::KeyBoard(key_code), state }
}

/// Converts an SDL event into the event that widgets receive.
pub fn gevent_from(event: &SdlEvent) -> (g: GEvent)
    ensures
        g == spec_gevent_from(*event),
{
    match event {
        SdlEvent::TextInput { text, .. } => {
            if text.len() > 0 {
                char_event(text[0])
            } else {
                other_event()
            }
        },
        SdlEvent::KeyDown { keycode, .. } => key_event(*keycode, State::Pressed),
        SdlEvent::KeyUp { keycode, .. } => key_event(*keycode, State::Released),
        SdlEvent::MouseButtonDown { mouse_btn, .. } => GEvent {
            event: EventType::Mouse(mouse_from(*mouse_btn)),
            state: State::Pressed,
        },
        SdlEvent::MouseButtonUp { mouse_btn, .. } => GEvent {
            event: EventType::Mouse(mouse_from(*mouse_btn)),
            state: State::Released,
        },
        _ => other_event(),
    }
}

/// The id of the window that an event was sent to, for the events that have one.
pub open spec fn spec_window_id(event: SdlEvent) -> Option<u32> {
    match event {
        SdlEvent::Window { window_id, .. } => Some(window_id),
        SdlEvent::MouseMotion { window_id, .. } => Some(window_id),
        SdlEvent::TextInput { window_id, .. } => Some(window_id),
        SdlEvent::TextEditing { window_id } => Some(window_id),
        SdlEvent::MouseButtonDown { window_id, .. } => Some(window_id),
        SdlEvent::MouseButtonUp { window_id, .. } => Some(window_id),
        SdlEvent::KeyDown { window_id, .. } => Some(window_id),
        SdlEvent::KeyUp { window_id, .. } => Some(window_id),
        _ => None,
    }
}

fn window_id(event: &SdlEvent) -> (id: Option<u32>)
    ensures
        id == spec_window_id(*event),
{
    match event {
        SdlEvent::Window { window_id, .. } => Some(*window_id),
        SdlEvent::MouseMotion { window_id, .. } => Some(*window_id),
        SdlEvent::TextInput { window_id, .. } => Some(*window_id),
        SdlEvent::TextEditing { window_id } => Some(*window_id),
        SdlEvent::MouseButtonDown { window_id, .. } => Some(*window_id),
        SdlEvent::MouseButtonUp { window_id, .. } => Some(*window_id),
        SdlEvent::KeyDown { window_id, .. } => Some(*window_id),
        SdlEvent::KeyUp { window_id, .. } => Some(*window_id),
        _ => None,
    }
}

/// What the event loop does with one SDL event.
#[derive(Clone, Debug, PartialEq, Eq)]
pub enum SdlAction {
    /// Nothing; the frame stays clean.
    Ignore,
    /// Reconfigure the surface; the frame is dirty.
    Resize { width: u32, height: u32 },
    /// Start text input; the frame stays clean.
    StartTextInput,
    /// Close the window and end the program.
    Exit,
    /// Record the cursor position, deliver `Other`; the frame is dirty when
    /// the listener reports a change.
    MoveCursor { x: i32, y: i32 },
    /// Deliver each event in order; the frame is dirty when any listener
    /// reports a change.
    DeliverEach(Vec<GEvent>),
    /// Deliver the event; the frame is dirty when the listener reports a change.
    Deliver(GEvent),
}

/// Whether `action` is what the event loop does with `event` for the window
/// with id `own_id`. Events for another window (an id other than 0 and
/// `own_id`) and user events are ignored.
pub open spec fn is_dispatch_action(own_id: u32, event: SdlEvent, action: SdlAction) -> bool {
    if event == SdlEvent::User {
        action == SdlAction::Ignore
    } else if spec_window_id(event) matches Some(id) && id != 0 && id != own_id {
        action == SdlAction::Ignore
    } else {
        match event {
            SdlEvent::Window { win_event, .. } => match win_event {
                SdlWindowEvent::Resized(w, h) => action == SdlAction::Resize {
                    width: w as u32,
                    height: h as u32,
                },
                SdlWindowEvent::SizeChanged(w, h) => action == SdlAction::Resize {
                    width: w as u32,
                    height: h as u32,
                },
                SdlWindowEvent::FocusGained => action == SdlAction::StartTextInput,
                SdlWindowEvent::Close => action == SdlAction::Exit,
                SdlWindowEvent::Other => action == SdlAction::Ignore,
            },
            SdlEvent::Quit => action == SdlAction::Exit,
            SdlEvent::MouseMotion { x, y, .. } => action == SdlAction::MoveCursor { x, y },
            SdlEvent::TextInput { text, .. } => match action {
                SdlAction::DeliverEach(events) => events@ == spec_char_events(text@),
                _ => false,
            },
            SdlEvent::MouseButtonDown { .. } => action == SdlAction::Deliver(spec_gevent_from(event)),
            SdlEvent::MouseButtonUp { .. } => action == SdlAction::Deliver(spec_gevent_from(event)),
            SdlEvent::KeyDown { .. } => action == SdlAction::Deliver(spec_gevent_from(event)),
            SdlEvent::KeyUp { .. } => action == SdlAction::Deliver(spec_gevent_from(event)),
            _ => action == SdlAction::Ignore,
        }
    }
}

/// Whether `id` names the toolkit's window `own_id` (SDL uses 0 for events
/// that belong to no window in particular).
pub open spec fn is_own_window(own_id: u32, id: u32) -> bool {
    id == 0 || id == own_id
}

/// What the event loop does with the input of its own window, and with
/// everything else: mouse buttons and keys reach the widgets as the press or
/// release of that very button or key, typed text reaches them character by
/// character, a cursor move moves the cursor to where it went, quitting or
/// closing ends the program, a resize resizes the surface, and events of
/// other windows and user events are dropped.
pub open spec fn sdl_dispatch_law(own_id: u32, event: SdlEvent, action: SdlAction) -> bool {
    &&& event is User ==> action == SdlAction::Ignore
    &&& event is Quit ==> action == SdlAction::Exit
    &&& event matches SdlEvent::MouseButtonDown { window_id, mouse_btn } ==> action == if is_own_window(
        own_id,
        window_id,
    ) {
        SdlAction::Deliver(
            GEvent { event: EventType::Mouse(spec_mouse_from(mouse_btn)), state: State::Pressed },
        )
    } else {
        SdlAction::Ignore
    }
    &&& event matches SdlEvent::MouseButtonUp { window_id, mouse_btn } ==> action == if is_own_window(
        own_id,
        window_id,
    ) {
        SdlAction::Deliver(
            GEvent { event: EventType::Mouse(spec_mouse_from(mouse_btn)), state: State::Released },
        )
    } else {
        SdlAction::Ignore
    }
    &&& event matches SdlEvent::KeyDown { window_id, keycode } ==> action == if is_own_window(
        own_id,
        window_id,
    ) {
        SdlAction::Deliver(
            GEvent {
                event: EventType::KeyBoard(
                    match keycode {
                        Some(k) => Some(sdl_key_code(k)),
                        None => None,
                    },
                ),
                state: State::Pressed,
            },
        )
    } else {
        SdlAction::Ignore
    }
    &&& event matches SdlEvent::KeyUp { window_id, keycode } ==> action == if is_own_window(
        own_id,
        window_id,
    ) {
        SdlAction::Deliver(
            GEvent {
                event: EventType::KeyBoard(
                    match keycode {
                        Some(k) => Some(sdl_key_code(k)),
                        None => None,
                    },
                ),
                state: State::Released,
            },
        )
    } else {
        SdlAction::Ignore
    }
    &&& event matches SdlEvent::MouseMotion { window_id, x, y } ==> action == if is_own_window(
        own_id,
        window_id,
    ) {
        SdlAction::MoveCursor { x, y }
    } else {
        SdlAction::Ignore
    }
    &&& event matches SdlEvent::TextInput { window_id, text } ==> if is_own_window(own_id, window_id) {
        action matches SdlAction::DeliverEach(events) && events@.len() == text@.len() && forall|i: int|
            0 <= i < text@.len() ==> #[trigger] events@[i] == GEvent {
                event: EventType::ReceivedCharacter(text@[i]),
                state: State::NoState,
            }
    } else {
        action == SdlAction::Ignore
    }
    &&& event matches SdlEvent::Window { window_id, win_event } ==> action == if !is_own_window(
        own_id,
        window_id,
    ) {
        SdlAction::Ignore
    } else {
        match win_event {
            SdlWindowEvent::Close => SdlAction::Exit,
            SdlWindowEvent::Resized(w, h) => SdlAction::Resize { width: w as u32, height: h as u32 },
            SdlWindowEvent::SizeChanged(w, h) => SdlAction::Resize {
                width: w as u32,
                height: h as u32,
            },
            SdlWindowEvent::FocusGained => SdlAction::StartTextInput,
            SdlWindowEvent::Other => SdlAction::Ignore,
        }
    }
}

/// The dispatch decision follows [`sdl_dispatch_law`]; in particular a
/// mouse button or key of the toolkit's own window always reaches the
/// widgets as the press or release of that button or key.
pub proof fn lemma_dispatch_delivers_input(own_id: u32, event: SdlEvent, action: SdlAction)
    requires
        is_dispatch_action(own_id, event, action),
    ensures
        sdl_dispatch_law(own_id, event, action),
{
    if let SdlEvent::TextInput { window_id, text } = event {
        if is_own_window(own_id, window_id) {
            if let SdlAction::DeliverEach(events) = action {
                assert forall|i: int| 0 <= i < text@.len() implies #[trigger] events@[i] == GEvent {
                    event: EventType::ReceivedCharacter(text@[i]),
                    state: State::NoState,
                } by {
                    assert(events@[i] == spec_char_events(text@)[i]);
                }
            }
        }
    }
}

/// SDL's left, right and middle buttons are the toolkit's left, right and
/// middle buttons; every other button is `Other`.
pub proof fn lemma_mouse_buttons(button: SdlMouseButton)
    ensures
        (spec_mouse_from(button) == Mouse::Left) == (button == SdlMouseButton::Left),
        (spec_mouse_from(button) == Mouse::Right) == (button == SdlMouseButton::Right),
        (spec_mouse_from(button) == Mouse::Middle) == (button == SdlMouseButton::Middle),
{
}

/// Decides what the event loop does with an SDL event for the window with
/// id `own_id`.
pub fn dispatch_event(own_id: u32, event: &SdlEvent) -> (action: SdlAction)
    ensures
        is_dispatch_action(own_id, *event, action),
        sdl_dispatch_law(own_id, *event, action),
{
    let action = dispatch_decision(own_id, event);
    proof {
        lemma_dispatch_delivers_input(own_id, *event, action);
    }
    action
}

fn dispatch_decision(own_id: u32, event: &SdlEvent) -> (action: SdlAction)
    ensures
        is_dispatch_action(own_id, *event, action),
{
    if let SdlEvent::User = event {
        return SdlAction::Ignore;
    }
    if let Some(id) = window_id(event) {
        if id != 0 && id != own_id {
            return SdlAction::Ignore;
        }
    }
    match event {
        SdlEvent::Window { win_event, .. } => match win_event {
            SdlWindowEvent::Resized(w, h) => SdlAction::Resize {
                width: *w as u32,
                height: *h as u32,
            },
            SdlWindowEvent::SizeChanged(w, h) => SdlAction::Resize {
                width: *w as u32,
                height: *h as u32,
            },
            SdlWindowEvent::FocusGained => SdlAction::StartTextInput,
            SdlWindowEvent::Close => SdlAction::Exit,
            SdlWindowEvent::Other => SdlAction::Ignore,
        },
        SdlEvent::Quit => SdlAction::Exit,
        SdlEvent::MouseMotion { x, y, .. } => SdlAction::MoveCursor { x: *x, y: *y },
        SdlEvent::TextInput { text, .. } => SdlAction::DeliverEach(char_events(text)),
        SdlEvent::TextEditing { .. } => SdlAction::Ignore,
        SdlEvent::MouseButtonDown { .. } => SdlAction::Deliver(gevent_from(event)),
        SdlEvent::MouseButtonUp { .. } => SdlAction::Deliver(gevent_from(event)),
        SdlEvent::KeyDown { .. } => SdlAction::Deliver(gevent_from(event)),
        SdlEvent::KeyUp { .. } => SdlAction::Deliver(gevent_from(event)),
        _ => SdlAction::Ignore,
    }
}

/// Event context of the SDL2 backend: the window, the last cursor position,
/// the current event and the message that widgets sent in this frame.
/// `P` is the cursor position type.
pub struct SEventContext<M, W, P> {
    pub window: W,
    cursor_pos: P,
    window_event: Option<GEvent>,
    message: Option<M>,
}

impl<M, W, P: Copy> SEventContext<M, W, P> {
    /// The window of this context.
    pub closed spec fn win(&self) -> W {
        self.window
    }

    /// Last recorded cursor position.
    pub closed spec fn cursor(&self) -> P {
        self.cursor_pos
    }

    /// The current event, if one was set.
    pub closed spec fn current_event(&self) -> Option<GEvent> {
        self.window_event
    }

    /// The message of this frame, if any.
    pub closed spec fn current_message(&self) -> Option<M> {
        self.message
    }

    /// A context for `window` with the cursor at `cursor_pos`, no event and
    /// no message.
    pub fn new(window: W, cursor_pos: P) -> (ctx: Self)
        ensures
            ctx.win() == window,
            ctx.cursor() == cursor_pos,
            ctx.current_event() is None,
            ctx.current_message() is None,
    {
        SEventContext { window, cursor_pos, window_event: None, message: None }
    }

    /// Records the cursor position.
    pub fn set_cursor_pos(&mut self, pos: P)
        ensures
            final(self).cursor() == pos,
            final(self).win() == old(self).win(),
            final(self).current_event() == old(self).current_event(),
            final(self).current_message() == old(self).current_message(),
    {
        self.cursor_pos = pos;
    }

    /// The last recorded cursor position.
    pub fn get_cursor_pos(&self) -> (pos: P)
        ensures
            pos == self.cursor(),
    {
        self.cursor_pos
    }

    /// Makes `event` the current event.
    pub fn set_event(&mut self, event: GEvent)
        ensures
            final(self).current_event() == Some(event),
            final(self).win() == old(self).win(),
            final(self).cursor() == old(self).cursor(),
            final(self).current_message() == old(self).current_message(),
    {
        self.window_event = Some(event);
    }

    /// The current event, or `Other` when none was set.
    pub fn get_event(&self) -> (event: GEvent)
        ensures
            event == match self.current_event() {
                Some(e) => e,
                None => spec_other_event(),
            },
    {
        if let Some(event) = self.window_event {
            event
        } else {
            other_event()
        }
    }

    /// The message of this frame, if any.
    pub fn get_message(&self) -> (m: Option<&M>)
        ensures
            m is Some <==> self.current_message() is Some,
            m is Some ==> *m.unwrap() == self.current_message().unwrap(),
    {
        self.message.as_ref()
    }

    /// Replaces the message of this frame.
    pub fn set_message(&mut self, message: Option<M>)
        ensures
            final(self).current_message() == message,
            final(self).win() == old(self).win(),
            final(self).cursor() == old(self).cursor(),
            final(self).current_event() == old(self).current_event(),
    {
        self.message = message;
    }

    /// Sends a message to the widgets of this frame.
    pub fn send_message(&mut self, message: M)
        ensures
            final(self).current_message() == Some(message),
            final(self).win() == old(self).win(),
            final(self).cursor() == old(self).cursor(),
            final(self).current_event() == old(self).current_event(),
    {
        self.message = Some(message);
    }
}

} // verus!
