//! Partial application: `curry_add` turns two-argument addition into a
//! chain of single-argument functions.

use vstd::prelude::*;

verus! {

/// Returns a function that adds `a` to its argument. The returned
/// function captures `a` by value: it may be called any number of times,
/// with different arguments, and each call returns exactly `a + b`.
///
/// The returned function accepts every `b` for which `a + b` fits in the
/// result type, and never returns anything but `a + b`.
pub fn curry_add(a: i32) -> (f: impl Fn(i32) -> i32)
    ensures
        forall|b: i32| i32::MIN <= a + b <= i32::MAX ==> #[trigger] call_requires(f, (b,)),
        forall|b: i32, r: i32| #[trigger] call_ensures(f, (b,), r) ==> r == a + b,
{
    (move |b: i32| -> (r: i32)
        requires
            i32::MIN <= a + b <= i32::MAX,
        ensures
            r == a + b,
        { a + b })
}

} // verus!
