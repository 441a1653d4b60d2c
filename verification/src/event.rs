//! Input events of the toolkit, independent of the windowing backend.
use vstd::prelude::*;

verus! {

/// Mouse buttons that widgets react to.
#[derive(Clone, Copy, Debug, PartialEq, Eq, Structural)]
pub enum Mouse {
    Left,
    Right,
    Middle,
    Other,
}

/// Press state that goes with an event.
#[derive(Clone, Copy, Debug, PartialEq, Eq, Structural)]
pub enum State {
    Pressed,
    Released,
    NoState,
}

/// Mouse cursor shapes a widget may ask for.
#[derive(Clone, Copy, Debug, PartialEq, Eq, Structural)]
pub enum Cursor {
    Default,
    Text,
}

/// Backend-independent key codes.
#[derive(Clone, Copy, Debug, PartialEq, Eq, Structural)]
pub enum KeyCode {
    Key1, Key2, Key3, Key4, Key5, Key6, Key7, Key8, Key9, Key0, A, B, C, D, E, F, G, H,
    I, J, K, L, M, N, O, P, Q, R, S, T, U, V, W, X, Y, Z, Escape, F1, F2, F3, F4, F5,
    F6, F7, F8, F9, F10, F11, F12, F13, F14, F15, F16, F17, F18, F19, F20, F21, F22, F23,
    F24, Snapshot, Scroll, Pause, Insert, Home, Delete, End, PageDown, PageUp, Left, Up,
    Right, Down, Backspace, Return, Space, Tab, Capital, Numlock, Numpad0, Numpad1, Numpad2,
    Numpad3, Numpad4, Numpad5, Numpad6, Numpad7, Numpad8, Numpad9, NumpadAdd, NumpadSubtract,
    NumpadMultiply, NumpadDivide, NumpadDecimal, NumpadComma, NumpadEnter, NumpadEquals,
    LAlt, RAlt, LControl, RControl, LShift, RShift, LWin, RWin, Minus, Equals, Grave,
    LBracket, RBracket, Backslash, Semicolon, Apostrophe, Comma, Slash, Period, Copy,
    Paste, Cut, At, Caret, Plus, Power, Asterisk, Colon, Calculator, Underline, LGui,
    RGui, VolumeDown, VolumeUp, Mail, MediaSelect, Mute, Sleep, Stop, Exclaim, Quotedbl,
    Hash, Dollar, Percent, Ampersand, Quote, LeftParen, RightParen, Less, Greater, Question,
    Backquote, CapsLock, Application, Execute, Help, Menu, Select, Again, Undo, Find,
    KpEqualsAS400, AltErase, Sysreq, Cancel, Clear, Return2, Separator, Out, Oper, ClearAgain,
    CrSel, ExSel, Kp00, Kp000, ThousandsSeparator, DecimalSeparator, CurrencyUnit, CurrencySubUnit,
    KpLeftParen, KpRightParen, KpLeftBrace, KpRightBrace, KpA, KpB, KpC, KpD, KpE, KpF,
    KpXor, KpPower, KpDblAmpersand, KpVerticalBar, KpDblVerticalBar, KpMemStore, KpMemRecall,
    KpMemClear, KpMemAdd, KpMemSubtract, KpMemMultiply, KpMemDivide, KpPlusMinus, KpClearEntry,
    KpBinary, KpOctal, KpHexadecimal, Mode, AudioNext, AudioPrev, AudioStop, AudioPlay,
    AudioMute, Www, Computer, AcSearch, AcHome, AcBack, AcForward, AcStop, AcRefresh,
    AcBookmarks, BrightnessDown, BrightnessUp, DisplaySwitch, KbdIllumToggle, KbdIllumDown,
    KbdIllumUp, Eject, Unlabeled,
}

/// What happened: a mouse button, a key (if the backend could name it),
/// a typed character, or anything else.
#[derive(Clone, Copy, Debug, PartialEq, Eq, Structural)]
pub enum EventType {
    Mouse(Mouse),
    KeyBoard(Option<KeyCode>),
    ReceivedCharacter(char),
    Other,
}

/// An event as widgets see it.
#[derive(Clone, Copy, Debug, PartialEq, Eq, Structural)]
pub struct GEvent {
    pub event: EventType,
    pub state: State,
}

/// The event that carries no information: used when a frame is redrawn or
/// the cursor only moved.
pub open spec fn spec_other_event() -> GEvent {
    GEvent { event: EventType::Other, state: State::NoState }
}

/// Builds the event that carries no information.
pub fn other_event() -> (e: GEvent)
    ensures
        e == spec_other_event(),
{
    GEvent { event: EventType::Other, state: State::NoState }
}

/// The event for one typed character.
pub open spec fn spec_char_event(c: char) -> GEvent {
    GEvent { event: EventType::ReceivedCharacter(c), state: State::NoState }
}

/// Builds the event for one typed character.
pub fn char_event(c: char) -> (e: GEvent)
    ensures
        e == spec_char_event(c),
{
    GEvent { event: EventType::ReceivedCharacter(c), state: State::NoState }
}

/// A character is a control character when its Unicode general category is
/// `Cc`, which is exactly the code points U+0000..=U+001F and U+007F..=U+009F.
pub open spec fn spec_is_control(c: char) -> bool {
    (c as u32) <= 0x1f || (0x7f <= (c as u32) && (c as u32) <= 0x9f)
}

/// Whether `c` is a control character (general category `Cc`).
pub fn is_control(c: char) -> (r: bool)
    ensures
        r == spec_is_control(c),
{
    let v = c as u32;
    v <= 0x1f || (0x7f <= v && v <= 0x9f)
}

} // verus!
