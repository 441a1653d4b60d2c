use lemo_gui::event::{is_control, EventType, GEvent, KeyCode, Mouse, State};
use lemo_gui::sdl2_impl::{
    self, SEventContext, SdlAction, SdlEvent, SdlKeycode, SdlMouseButton, SdlWindowEvent,
};
use lemo_gui::winit_impl::{
    self, ContextCall, WEventContext, WinitAction, WinitElementState, WinitKeyCode, WinitMouseButton,
    WinitWindowEvent,
};

fn other() -> GEvent {
    GEvent { event: EventType::Other, state: State::NoState }
}

fn ch(c: char) -> GEvent {
    GEvent { event: EventType::ReceivedCharacter(c), state: State::NoState }
}

#[test]
fn control_characters_are_the_cc_category() {
    for c in ['\0', '\n', '\r', '\u{1b}', '\u{7f}', '\u{80}', '\u{9f}'] {
        assert!(is_control(c));
        assert_eq!(is_control(c), c.is_control());
    }
    for c in [' ', 'a', '\u{a0}', '中', '\u{20}'] {
        assert!(!is_control(c));
        assert_eq!(is_control(c), c.is_control());
    }
}

#[test]
fn winit_mouse_buttons_and_states() {
    assert_eq!(winit_impl::mouse_from(WinitMouseButton::Left), Mouse::Left);
    assert_eq!(winit_impl::mouse_from(WinitMouseButton::Right), Mouse::Right);
    assert_eq!(winit_impl::mouse_from(WinitMouseButton::Middle), Mouse::Middle);
    assert_eq!(winit_impl::mouse_from(WinitMouseButton::Back), Mouse::Other);
    assert_eq!(winit_impl::mouse_from(WinitMouseButton::Other(7)), Mouse::Other);
    assert_eq!(winit_impl::state_from(WinitElementState::Pressed), State::Pressed);
    assert_eq!(winit_impl::state_from(WinitElementState::Released), State::Released);
}

#[test]
fn winit_typed_text_wins_over_the_key() {
    let e = WinitWindowEvent::KeyboardInput {
        state: WinitElementState::Pressed,
        physical_key: Some(WinitKeyCode::KeyA),
        text: Some('a'),
    };
    assert_eq!(winit_impl::gevent_from(&e), ch('a'));
}

#[test]
fn winit_control_text_gives_the_key() {
    let e = WinitWindowEvent::KeyboardInput {
        state: WinitElementState::Pressed,
        physical_key: Some(WinitKeyCode::Enter),
        text: Some('\r'),
    };
    assert_eq!(
        winit_impl::gevent_from(&e),
        GEvent { event: EventType::KeyBoard(Some(KeyCode::Return)), state: State::Pressed }
    );
    let released = WinitWindowEvent::KeyboardInput {
        state: WinitElementState::Released,
        physical_key: None,
        text: None,
    };
    assert_eq!(
        winit_impl::gevent_from(&released),
        GEvent { event: EventType::KeyBoard(None), state: State::Released }
    );
}

#[test]
fn winit_mouse_input_and_other_events() {
    let e = WinitWindowEvent::MouseInput {
        state: WinitElementState::Released,
        button: WinitMouseButton::Right,
    };
    assert_eq!(
        winit_impl::gevent_from(&e),
        GEvent { event: EventType::Mouse(Mouse::Right), state: State::Released }
    );
    assert_eq!(winit_impl::gevent_from(&WinitWindowEvent::Other), other());
    assert_eq!(winit_impl::gevent_from(&WinitWindowEvent::CursorMoved), other());
}

#[test]
fn winit_window_event_actions() {
    assert_eq!(
        winit_impl::window_event_action(false, &WinitWindowEvent::CloseRequested),
        WinitAction::Ignore
    );
    assert_eq!(
        winit_impl::window_event_action(true, &WinitWindowEvent::CloseRequested),
        WinitAction::Exit
    );
    assert_eq!(
        winit_impl::window_event_action(true, &WinitWindowEvent::RedrawRequested),
        WinitAction::Redraw
    );
    assert_eq!(
        winit_impl::window_event_action(true, &WinitWindowEvent::ImePreedit),
        WinitAction::PlaceIme
    );
    assert_eq!(
        winit_impl::window_event_action(true, &WinitWindowEvent::ImeCommit(vec!['你', '好'])),
        WinitAction::DeliverEach(vec![ch('你'), ch('好')])
    );
    assert_eq!(
        winit_impl::window_event_action(
            true,
            &WinitWindowEvent::Resized { width: 800, height: 600 }
        ),
        WinitAction::Deliver { resize: Some((800, 600)), move_cursor: false, event: other() }
    );
    assert_eq!(
        winit_impl::window_event_action(true, &WinitWindowEvent::CursorMoved),
        WinitAction::Deliver { resize: None, move_cursor: true, event: other() }
    );
    let key = WinitWindowEvent::KeyboardInput {
        state: WinitElementState::Pressed,
        physical_key: Some(WinitKeyCode::Escape),
        text: None,
    };
    assert_eq!(
        winit_impl::window_event_action(true, &key),
        WinitAction::Deliver {
            resize: None,
            move_cursor: false,
            event: GEvent { event: EventType::KeyBoard(Some(KeyCode::Escape)), state: State::Pressed }
        }
    );
}

#[test]
fn winit_context_reads_back_what_was_written() {
    let mut ctx: WEventContext<u32, &str, (i32, i32)> = WEventContext::new("window", (-1, -1));
    assert_eq!(ctx.get_cursor_pos(), (-1, -1));
    assert!(ctx.get_message().is_none());
    ctx.set_cursor_pos((3, 4));
    assert_eq!(ctx.get_cursor_pos(), (3, 4));
    ctx.set_event(ch('x'));
    assert_eq!(ctx.get_event(), ch('x'));
    ctx.send_message(7);
    assert_eq!(ctx.get_message(), Some(&7));
    ctx.set_message(None);
    assert_eq!(ctx.get_message(), None);
    assert_eq!(ctx.window, "window");
}

#[test]
fn winit_context_keeps_the_latest_event() {
    let mut ctx: WEventContext<u32, &str, (i32, i32)> = WEventContext::new("window", (-1, -1));
    ctx.make_calls(vec![
        ContextCall::SetCursorPos((1, 2)),
        ContextCall::SetEvent(ch('a')),
        ContextCall::SendMessage(3),
        ContextCall::SetEvent(ch('b')),
        ContextCall::SetMessage(None),
    ]);
    assert_eq!(ctx.get_event(), ch('b'));
    assert_eq!(ctx.get_cursor_pos(), (1, 2));
    assert_eq!(ctx.get_message(), None);
    ctx.make_calls(vec![ContextCall::SendMessage(5)]);
    assert_eq!(ctx.get_event(), ch('b'));
    assert_eq!(ctx.get_message(), Some(&5));
}

#[test]
fn sdl_mouse_buttons() {
    assert_eq!(sdl2_impl::mouse_from(SdlMouseButton::Unknown), Mouse::Other);
    assert_eq!(sdl2_impl::mouse_from(SdlMouseButton::Left), Mouse::Left);
    assert_eq!(sdl2_impl::mouse_from(SdlMouseButton::Middle), Mouse::Middle);
    assert_eq!(sdl2_impl::mouse_from(SdlMouseButton::Right), Mouse::Right);
    assert_eq!(sdl2_impl::mouse_from(SdlMouseButton::X1), Mouse::Other);
    assert_eq!(sdl2_impl::mouse_from(SdlMouseButton::X2), Mouse::Other);
}

#[test]
fn sdl_events_convert() {
    let text = SdlEvent::TextInput { window_id: 1, text: vec!['h', 'i'] };
    assert_eq!(sdl2_impl::gevent_from(&text), ch('h'));
    let empty = SdlEvent::TextInput { window_id: 1, text: vec![] };
    assert_eq!(sdl2_impl::gevent_from(&empty), other());
    let down = SdlEvent::KeyDown { window_id: 1, keycode: Some(SdlKeycode::Return) };
    assert_eq!(
        sdl2_impl::gevent_from(&down),
        GEvent { event: EventType::KeyBoard(Some(KeyCode::Return)), state: State::Pressed }
    );
    let up = SdlEvent::KeyUp { window_id: 1, keycode: None };
    assert_eq!(
        sdl2_impl::gevent_from(&up),
        GEvent { event: EventType::KeyBoard(None), state: State::Released }
    );
    let click = SdlEvent::MouseButtonDown { window_id: 1, mouse_btn: SdlMouseButton::Left };
    assert_eq!(
        sdl2_impl::gevent_from(&click),
        GEvent { event: EventType::Mouse(Mouse::Left), state: State::Pressed }
    );
    let release = SdlEvent::MouseButtonUp { window_id: 1, mouse_btn: SdlMouseButton::X1 };
    assert_eq!(
        sdl2_impl::gevent_from(&release),
        GEvent { event: EventType::Mouse(Mouse::Other), state: State::Released }
    );
    assert_eq!(sdl2_impl::gevent_from(&SdlEvent::Quit), other());
}

#[test]
fn sdl_dispatch_filters_windows_and_user_events() {
    assert_eq!(sdl2_impl::dispatch_event(1, &SdlEvent::User), SdlAction::Ignore);
    let foreign = SdlEvent::KeyDown { window_id: 2, keycode: Some(SdlKeycode::A) };
    assert_eq!(sdl2_impl::dispatch_event(1, &foreign), SdlAction::Ignore);
    let any_window = SdlEvent::KeyDown { window_id: 0, keycode: Some(SdlKeycode::A) };
    assert_eq!(
        sdl2_impl::dispatch_event(1, &any_window),
        SdlAction::Deliver(GEvent { event: EventType::KeyBoard(Some(KeyCode::A)), state: State::Pressed })
    );
}

#[test]
fn sdl_dispatch_actions() {
    let resized = SdlEvent::Window { window_id: 1, win_event: SdlWindowEvent::Resized(640, 480) };
    assert_eq!(
        sdl2_impl::dispatch_event(1, &resized),
        SdlAction::Resize { width: 640, height: 480 }
    );
    let changed = SdlEvent::Window { window_id: 1, win_event: SdlWindowEvent::SizeChanged(-1, 2) };
    assert_eq!(
        sdl2_impl::dispatch_event(1, &changed),
        SdlAction::Resize { width: u32::MAX, height: 2 }
    );
    let focus = SdlEvent::Window { window_id: 1, win_event: SdlWindowEvent::FocusGained };
    assert_eq!(sdl2_impl::dispatch_event(1, &focus), SdlAction::StartTextInput);
    let close = SdlEvent::Window { window_id: 1, win_event: SdlWindowEvent::Close };
    assert_eq!(sdl2_impl::dispatch_event(1, &close), SdlAction::Exit);
    let moved = SdlEvent::Window { window_id: 1, win_event: SdlWindowEvent::Other };
    assert_eq!(sdl2_impl::dispatch_event(1, &moved), SdlAction::Ignore);
    assert_eq!(sdl2_impl::dispatch_event(1, &SdlEvent::Quit), SdlAction::Exit);
    let motion = SdlEvent::MouseMotion { window_id: 1, x: 5, y: 9 };
    assert_eq!(sdl2_impl::dispatch_event(1, &motion), SdlAction::MoveCursor { x: 5, y: 9 });
    let text = SdlEvent::TextInput { window_id: 1, text: vec!['a', 'b'] };
    assert_eq!(sdl2_impl::dispatch_event(1, &text), SdlAction::DeliverEach(vec![ch('a'), ch('b')]));
    let editing = SdlEvent::TextEditing { window_id: 1 };
    assert_eq!(sdl2_impl::dispatch_event(1, &editing), SdlAction::Ignore);
    assert_eq!(sdl2_impl::dispatch_event(1, &SdlEvent::Other), SdlAction::Ignore);
    let up = SdlEvent::MouseButtonUp { window_id: 1, mouse_btn: SdlMouseButton::Right };
    assert_eq!(
        sdl2_impl::dispatch_event(1, &up),
        SdlAction::Deliver(GEvent { event: EventType::Mouse(Mouse::Right), state: State::Released })
    );
}

#[test]
fn sdl_context_defaults_to_other_event() {
    let mut ctx: SEventContext<String, (), (i32, i32)> = SEventContext::new((), (-1, -1));
    assert_eq!(ctx.get_event(), other());
    ctx.set_event(ch('z'));
    assert_eq!(ctx.get_event(), ch('z'));
    ctx.send_message("hi".to_string());
    assert_eq!(ctx.get_message().map(|s| s.as_str()), Some("hi"));
    ctx.set_cursor_pos((10, 20));
    assert_eq!(ctx.get_cursor_pos(), (10, 20));
}
