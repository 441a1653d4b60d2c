use lemo_gui::container::GlobalState as ComponentStack;
use lemo_gui::counter::{Counter, Ms};
use lemo_gui::event::{EventType, GEvent, KeyCode, Mouse, State};
use lemo_gui::input::{action_animation, is_handled, ClickResponse, GlobalState, GlobeState};

fn key(k: KeyCode, state: State) -> GEvent {
    GEvent { event: EventType::KeyBoard(Some(k)), state }
}

#[test]
fn click_feedback() {
    assert_eq!(action_animation(true, State::Pressed, Some(1)), ClickResponse::Pressed(1));
    assert_eq!(action_animation(true, State::Released, Some(1)), ClickResponse::Released);
    assert_eq!(action_animation(true, State::NoState, Some(1)), ClickResponse::Held);
    assert_eq!(action_animation(false, State::Pressed, Some(1)), ClickResponse::Ignored);
    assert_eq!(action_animation::<u8>(true, State::Pressed, None), ClickResponse::Ignored);
    assert!(is_handled(&ClickResponse::<u8>::Held));
    assert!(!is_handled(&ClickResponse::<u8>::Ignored));
}

#[test]
fn space_and_alt_highlight_buttons() {
    let mut s = GlobalState::new(800, 600);
    assert!(s.input(&key(KeyCode::Space, State::Pressed)));
    assert_eq!(s.use_complex, 1);
    assert!(s.input(&key(KeyCode::Space, State::Released)));
    assert_eq!(s.use_complex, 0);
    assert!(s.input(&key(KeyCode::LAlt, State::Pressed)));
    assert_eq!(s.use_complex, 2);
    assert!(!s.input(&key(KeyCode::A, State::Pressed)));
    assert_eq!(s.use_complex, 2);
    assert!(!s.input(&GEvent { event: EventType::Mouse(Mouse::Left), state: State::Pressed }));
    assert!(s.input(&key(KeyCode::LAlt, State::Released)));
    assert_eq!(s.use_complex, 0);
    s.resize(10, 20);
    assert_eq!((s.width, s.height), (10, 20));
    s.update();
    assert_eq!(s.use_complex, 0);
}

#[test]
fn space_highlights_the_single_button() {
    let mut s = GlobeState::new(1, 1);
    assert!(s.input(&key(KeyCode::Space, State::Pressed)));
    assert!(s.use_complex);
    assert!(!s.input(&key(KeyCode::LAlt, State::Pressed)));
    assert!(s.use_complex);
    assert!(s.input(&key(KeyCode::Space, State::Released)));
    assert!(!s.use_complex);
}

#[test]
fn components_remember_their_index() {
    let mut s: ComponentStack<&str> = ComponentStack::new();
    assert_eq!(s.add_comp(Some(5), "a"), Some(0));
    assert_eq!(s.add_comp(None, "b"), Some(1));
    assert_eq!(s.add_comp(Some(1), "c"), None);
    assert_eq!(s.comp_grap_stack, vec!["a", "c", "b"]);
}

#[test]
fn counter_counts() {
    let mut c = Counter::new();
    assert_eq!(c.value, 0);
    assert_eq!(c.text, "文本测试");
    c.update(&Ms::Add);
    c.update(&Ms::Add);
    c.update(&Ms::Sub);
    assert_eq!(c.value, 1);
    c.update(&Ms::Text("hello".to_string()));
    assert_eq!(c.text, "hello");
    assert_eq!(c.value, 1);
}
