//! Mapping, composition and folding over sequences: `map`, `compose`
//! and `sum`.

use vstd::prelude::*;

verus! {

/// Applies `f` to each element of `vec`, in order, producing a new vector.
///
/// The input may be mapped wherever `f` accepts every element. The result
/// has the same length as the input, and each output element is a value
/// that `f` may return for the corresponding input element.
pub fn map<T, U, F: Fn(T) -> U>(vec: Vec<T>, f: F) -> (r: Vec<U>)
    requires
        forall|i: int| 0 <= i < vec@.len() ==> call_requires(f, (vec@[i],)),
    ensures
        r@.len() == vec@.len(),
        forall|i: int| 0 <= i < vec@.len() ==> call_ensures(f, (vec@[i],), #[trigger] r@[i]),
{
    let ghost orig = vec@;
    let mut input = vec;
    let mut out: Vec<U> = Vec::new();
    while input.len() > 0
        invariant
            out@.len() + input@.len() == orig.len(),
            input@ == orig.subrange(out@.len() as int, orig.len() as int),
            forall|i: int| 0 <= i < orig.len() ==> call_requires(f, (orig[i],)),
            forall|i: int| 0 <= i < out@.len() ==> call_ensures(f, (orig[i],), #[trigger] out@[i]),
        decreases input@.len(),
    {
        let x = input.remove(0);
        let y = f(x);
        out.push(y);
        assert(input@ =~= orig.subrange(out@.len() as int, orig.len() as int));
    }
    out
}

/// Holds when `y` is a value that `f` may return when handed some value
/// that `g` may return for the input `x`: the relational meaning of the
/// pointwise composition of `f` after `g`.
pub open spec fn composed_call<T, U, V, F: Fn(U) -> V, G: Fn(T) -> U>(
    f: F,
    g: G,
    x: T,
    y: V,
) -> bool {
    exists|u: U| call_ensures(g, (x,), u) && #[trigger] call_ensures(f, (u,), y)
}

/// Applies the composition of `f` after `g` to each element of `vec`,
/// in order: element `i` of the result is `f(g(vec[i]))`.
pub fn compose<T, U, V, F: Fn(U) -> V, G: Fn(T) -> U>(vec: Vec<T>, f: F, g: G) -> (r: Vec<V>)
    requires
        forall|i: int| 0 <= i < vec@.len() ==> call_requires(g, (vec@[i],)),
        forall|i: int, u: U|
            0 <= i < vec@.len() && #[trigger] call_ensures(g, (vec@[i],), u) ==> call_requires(
                f,
                (u,),
            ),
    ensures
        r@.len() == vec@.len(),
        forall|i: int| 0 <= i < vec@.len() ==> #[trigger] composed_call(f, g, vec@[i], r@[i]),
{
    let ghost orig = vec@;
    let mut input = vec;
    let mut out: Vec<V> = Vec::new();
    while input.len() > 0
        invariant
            out@.len() + input@.len() == orig.len(),
            input@ == orig.subrange(out@.len() as int, orig.len() as int),
            forall|i: int| 0 <= i < orig.len() ==> call_requires(g, (orig[i],)),
            forall|i: int, u: U|
                0 <= i < orig.len() && #[trigger] call_ensures(g, (orig[i],), u) ==> call_requires(
                    f,
                    (u,),
                ),
            forall|i: int| 0 <= i < out@.len() ==> #[trigger] composed_call(f, g, orig[i], out@[i]),
        decreases input@.len(),
    {
        let ghost n = out@.len() as int;
        let x = input.remove(0);
        let u = g(x);
        let v = f(u);
        out.push(v);
        proof {
            assert(composed_call(f, g, orig[n], out@[n]));
        }
        assert(input@ =~= orig.subrange(out@.len() as int, orig.len() as int));
    }
    out
}

/// The left fold of addition over a sequence, starting at zero.
pub open spec fn seq_sum(s: Seq<i32>) -> int
    decreases s.len(),
{
    if s.len() == 0 {
        0
    } else {
        seq_sum(s.drop_last()) + s.last()
    }
}

/// Folds the vector down to the sum of its elements, starting at zero;
/// an empty vector sums to zero.
///
/// The precondition only excludes inputs where some running total along
/// the left fold would leave the range of the result type.
pub fn sum(vec: Vec<i32>) -> (r: i32)
    requires
        forall|i: int|
            0 <= i <= vec@.len() ==> i32::MIN <= #[trigger] seq_sum(vec@.take(i)) <= i32::MAX,
    ensures
        r == seq_sum(vec@),
{
    let mut acc: i32 = 0;
    let mut k: usize = 0;
    assert(vec@.take(0) =~= Seq::<i32>::empty());
    while k < vec.len()
        invariant
            0 <= k <= vec@.len(),
            acc == seq_sum(vec@.take(k as int)),
            forall|i: int|
                0 <= i <= vec@.len() ==> i32::MIN <= #[trigger] seq_sum(vec@.take(i)) <= i32::MAX,
        decreases vec@.len() - k,
    {
        proof {
            assert(vec@.take(k as int + 1).drop_last() =~= vec@.take(k as int));
            assert(vec@.take(k as int + 1).last() == vec@[k as int]);
            assert(seq_sum(vec@.take(k as int + 1)) == seq_sum(vec@.take(k as int)) + vec@[k as int]);
        }
        acc = acc + vec[k];
        k = k + 1;
    }
    assert(vec@.take(vec@.len() as int) =~= vec@);
    acc
}

} // verus!
