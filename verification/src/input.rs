//! How widgets and window states react to input: the click feedback of a
//! widget and the keys that highlight the demo buttons.
use vstd::prelude::*;

use crate::event::{EventType, GEvent, KeyCode, State};

verus! {

/// What a widget does with the current event.
#[derive(Clone, Copy, Debug, PartialEq, Eq)]
pub enum ClickResponse<M> {
    /// The cursor is outside the widget or the widget sends no message:
    /// the event is not the widget's.
    Ignored,
    /// A press inside the widget: show the hover color and send the message.
    Pressed(M),
    /// A release inside the widget: show the background color again.
    Released,
    /// Another event inside the widget: it is the widget's, nothing changes.
    Held,
}

/// The click feedback of a widget: `inside` tells whether the cursor is over
/// it, `state` is the press state of the current event and `message` what
/// the widget sends when pressed. The event is the widget's exactly when the
/// cursor is inside and there is a message.
pub fn action_animation<M>(inside: bool, state: State, message: Option<M>) -> (r: ClickResponse<M>)
    ensures
        r == if inside && message is Some {
            match state {
                State::Pressed => ClickResponse::Pressed(message.unwrap()),
                State::Released => ClickResponse::Released,
                State::NoState => ClickResponse::Held,
            }
        } else {
            ClickResponse::<M>::Ignored
        },
{
    if inside {
        if let Some(m) = message {
            return match state {
                State::Pressed => ClickResponse::Pressed(m),
                State::Released => ClickResponse::Released,
                State::NoState => ClickResponse::Held,
            };
        }
    }
    ClickResponse::Ignored
}

/// Whether a response means that the widget took the event.
pub fn is_handled<M>(r: &ClickResponse<M>) -> (b: bool)
    ensures
        b == !(*r is Ignored),
{
    !matches!(r, ClickResponse::Ignored)
}

/// The state of the two-button demo window: which button the keys
/// highlight (0: none, 1: the first, held by Space, 2: the second, held by
/// the left Alt key) and the size of the surface.
pub struct GlobalState {
    pub use_complex: u8,
    pub width: u32,
    pub height: u32,
}

/// The key of a keyboard event, if it is one.
pub open spec fn key_of(event: GEvent) -> Option<KeyCode> {
    match event.event {
        EventType::KeyBoard(Some(k)) => Some(k),
        _ => None,
    }
}

impl GlobalState {
    /// No button highlighted, on a surface of `width` by `height`.
    pub fn new(width: u32, height: u32) -> (s: Self)
        ensures
            s.use_complex == 0,
            s.width == width,
            s.height == height,
    {
        GlobalState { use_complex: 0, width, height }
    }

    /// The surface takes the new size.
    pub fn resize(&mut self, width: u32, height: u32)
        ensures
            final(self).width == width,
            final(self).height == height,
            final(self).use_complex == old(self).use_complex,
    {
        self.width = width;
        self.height = height;
    }

    /// Space highlights the first button while it is down, the left Alt key
    /// the second; releasing either removes the highlight. Returns whether
    /// the event was one of these two keys.
    pub fn input(&mut self, event: &GEvent) -> (handled: bool)
        ensures
            handled == (key_of(*event) == Some(KeyCode::Space) || key_of(*event) == Some(
                KeyCode::LAlt,
            )),
            final(self).use_complex == if !handled {
                old(self).use_complex
            } else if event.state == State::Pressed {
                if key_of(*event) == Some(KeyCode::Space) {
                    1u8
                } else {
                    2u8
                }
            } else if event.state == State::Released {
                0u8
            } else {
                old(self).use_complex
            },
            final(self).width == old(self).width,
            final(self).height == old(self).height,
    {
        match event.event {
            EventType::KeyBoard(Some(KeyCode::Space)) => {
                if event.state == State::Pressed {
                    self.use_complex = 1;
                } else if event.state == State::Released {
                    self.use_complex = 0;
                }
                true
            },
            EventType::KeyBoard(Some(KeyCode::LAlt)) => {
                if event.state == State::Pressed {
                    self.use_complex = 2;
                } else if event.state == State::Released {
                    self.use_complex = 0;
                }
                true
            },
            _ => false,
        }
    }

    /// Nothing changes between frames.
    pub fn update(&mut self)
        ensures
            final(self).use_complex == old(self).use_complex,
            final(self).width == old(self).width,
            final(self).height == old(self).height,
    {
    }
}

/// The state of the one-button demo window: whether Space highlights the
/// button, and the size of the surface.
pub struct GlobeState {
    pub use_complex: bool,
    pub width: u32,
    pub height: u32,
}

impl GlobeState {
    /// No highlight, on a surface of `width` by `height`.
    pub fn new(width: u32, height: u32) -> (s: Self)
        ensures
            !s.use_complex,
            s.width == width,
            s.height == height,
    {
        GlobeState { use_complex: false, width, height }
    }

    /// The surface takes the new size.
    pub fn resize(&mut self, width: u32, height: u32)
        ensures
            final(self).width == width,
            final(self).height == height,
            final(self).use_complex == old(self).use_complex,
    {
        self.width = width;
        self.height = height;
    }

    /// Space highlights the button exactly while it is pressed. Returns
    /// whether the event was the Space key.
    pub fn input(&mut self, event: &GEvent) -> (handled: bool)
        ensures
            handled == (key_of(*event) == Some(KeyCode::Space)),
            final(self).use_complex == if handled {
                event.state == State::Pressed
            } else {
                old(self).use_complex
            },
            final(self).width == old(self).width,
            final(self).height == old(self).height,
    {
        match event.event {
            EventType::KeyBoard(Some(KeyCode::Space)) => {
                self.use_complex = event.state == State::Pressed;
                true
            },
            _ => false,
        }
    }

    /// Nothing changes between frames.
    pub fn update(&mut self)
        ensures
            final(self).use_complex == old(self).use_complex,
            final(self).width == old(self).width,
            final(self).height == old(self).height,
    {
    }
}

} // verus!
