use lemo_gui::closures::{closure, closure1, closure2, closure3};
use std::cell::Cell;

fn num<T: std::fmt::Debug>(x: T) -> T {
    x
}

#[test]
fn closure_calls_function_once_with_argument() {
    let seen = Cell::new(0);
    let f = |x: i32| {
        seen.set(seen.get() + x);
        x
    };
    assert_eq!(closure(&f), 12);
    assert_eq!(seen.get(), 12);
    assert_eq!(closure(|x| x + 2), 14);
}

#[test]
fn closure1_calls_function_with_argument() {
    let seen = Cell::new(0);
    let f = |x: i32| {
        seen.set(x);
        x
    };
    closure1::<i32, _>(12, &f);
    assert_eq!(seen.get(), 12);
    closure1(12, &num::<i32>);
}

#[test]
fn closure2_calls_boxed_function() {
    let seen = Cell::new(0.0f32);
    let f = |x: f32| {
        seen.set(x);
        x
    };
    closure2::<f32, _>(12., Box::new(f));
    assert_eq!(seen.get(), 12.0);
    closure2(12., Box::new(num::<f32>));
}

#[test]
fn closure3_adds_twelve() {
    let f = closure3();
    assert_eq!(f(2), 14);
    assert_eq!(f(-12), 0);
    assert_eq!(f(i32::MAX - 12), i32::MAX);
}
