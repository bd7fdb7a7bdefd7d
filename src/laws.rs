//! Laws that the combinators and the wrapper obey together.

use crate::{mapped, value_of, same_variant, MyBound};
use std::ops::Bound;
use vstd::prelude::*;
use vstd::std_specs::convert::FromSpec;

verus! {

/// Every endpoint is exactly one of included, excluded and unbounded, so
/// exactly one of `is_included`, `is_excluded` and `is_unbounded` holds.
pub proof fn lemma_exactly_one_variant<T>(b: Bound<T>)
    ensures
        b is Included || b is Excluded || b is Unbounded,
        !(b is Included && b is Excluded),
        !(b is Included && b is Unbounded),
        !(b is Excluded && b is Unbounded),
{
}

/// Two endpoints with the same variant and the same payload are equal.
proof fn lemma_same_variant_value_eq<T>(a: Bound<T>, b: Bound<T>)
    requires
        same_variant(a, b),
        value_of(a) == value_of(b),
    ensures
        a == b,
{
    match a {
        Bound::Included(x) => {
            assert(value_of(b) == Some(x));
        },
        Bound::Excluded(x) => {
            assert(value_of(b) == Some(x));
        },
        Bound::Unbounded => {},
    }
}

/// Wrapping an endpoint in `MyBound` and converting it back gives the
/// endpoint unchanged.
pub proof fn lemma_wrap_round_trip<T>(b: Bound<T>)
    ensures
        <Bound<T> as FromSpec<MyBound<T>>>::from_spec(
            <MyBound<T> as FromSpec<Bound<T>>>::from_spec(b),
        ) == b,
{
}

/// Converting a `MyBound` to its endpoint and wrapping that again gives the
/// wrapper unchanged.
pub proof fn lemma_unwrap_round_trip<T>(w: MyBound<T>)
    ensures
        <MyBound<T> as FromSpec<Bound<T>>>::from_spec(
            <Bound<T> as FromSpec<MyBound<T>>>::from_spec(w),
        ) == w,
{
}

/// Mapping a function that hands back its argument leaves the endpoint as it
/// was.
pub proof fn lemma_map_identity<T, F: FnOnce(T) -> T>(b: Bound<T>, f: F, r: Bound<T>)
    requires
        forall|x: T, y: T| f.ensures((x,), y) ==> y == x,
        mapped(b, f, r),
    ensures
        r == b,
{
    lemma_same_variant_value_eq(r, b);
}

/// Mapping `f` and then `g` gives what mapping their composition `h` gives:
/// an outcome of `h`, and the only one where `h` has a single result for each
/// argument.
pub proof fn lemma_map_compose<T, U, V, F: FnOnce(T) -> U, G: FnOnce(U) -> V, H: FnOnce(T) -> V>(
    b: Bound<T>,
    f: F,
    g: G,
    h: H,
    m: Bound<U>,
    r: Bound<V>,
)
    requires
        forall|x: T, y: U, z: V| f.ensures((x,), y) && g.ensures((y,), z) ==> h.ensures((x,), z),
        mapped(b, f, m),
        mapped(m, g, r),
    ensures
        mapped(b, h, r),
        (forall|x: T, z1: V, z2: V| h.ensures((x,), z1) && h.ensures((x,), z2) ==> z1 == z2)
            ==> (forall|r2: Bound<V>| mapped(b, h, r2) ==> r2 == r),
{
    if forall|x: T, z1: V, z2: V| h.ensures((x,), z1) && h.ensures((x,), z2) ==> z1 == z2 {
        assert forall|r2: Bound<V>| mapped(b, h, r2) implies r2 == r by {
            lemma_same_variant_value_eq(r2, r);
        }
    }
}

} // verus!
