//! Small helpers that call functions handed to them.
use vstd::prelude::*;

verus! {

/// Calls `num` with 12 and returns what it gives back.
pub fn closure<F: Fn(i32) -> i32>(num: F) -> (r: i32)
    requires
        num.requires((12i32,)),
    ensures
        num.ensures((12i32,), r),
{
    num(12)
}

/// Calls `num` with `x` and drops the result.
pub fn closure1<T, F: Fn(T) -> T>(x: T, num: &F)
    requires
        num.requires((x,)),
{
    num(x);
}

/// Calls the boxed `num` with `x` and drops the result.
pub fn closure2<T, F: Fn(T) -> T>(x: T, num: Box<F>)
    requires
        num.requires((x,)),
{
    (*num)(x);
}

/// A function that adds 12 to its argument; the sum must fit in `i32`.
pub fn closure3() -> (f: impl Fn(i32) -> i32)
    ensures
        forall|x: i32| x <= i32::MAX - 12 ==> #[trigger] f.requires((x,)),
        forall|x: i32, r: i32| #[trigger] f.ensures((x,), r) ==> r == x + 12,
{
    let num: i32 = 12;
    let add = move |x: i32| -> (r: i32)
        requires
            x <= i32::MAX - 12,
        ensures
            r == x + 12,
        {
            x + num
        };
    add
}

} // verus!
