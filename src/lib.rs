//! Combinators over std's `Bound`: queries, projections, and extraction of
//! the payload.

use std::ops::Bound;
use vstd::prelude::*;

pub mod laws;
mod ranges;
mod wrapper;

pub use ranges::MyRangeBounds;
pub use wrapper::MyBound;

verus! {

/// std's three-way range endpoint, whose variants Verus reads as they stand.
#[verifier::external_type_specification]
#[verifier::reject_recursive_types(T)]
pub struct ExBound<T>(Bound<T>);

/// The payload of an endpoint: the boundary value of an included or excluded
/// endpoint, nothing for an unbounded one.
pub open spec fn value_of<T>(b: Bound<T>) -> Option<T> {
    match b {
        Bound::Included(x) => Some(x),
        Bound::Excluded(x) => Some(x),
        Bound::Unbounded => None,
    }
}

/// Two endpoints, of possibly different payload types, have the same variant.
pub open spec fn same_variant<A, B>(a: Bound<A>, b: Bound<B>) -> bool {
    &&& (a is Included <==> b is Included)
    &&& (a is Excluded <==> b is Excluded)
    &&& (a is Unbounded <==> b is Unbounded)
}

/// `r` is an outcome of mapping `f` over `b`: same variant, and the new payload
/// is one that `f` may return for the old one.
pub open spec fn mapped<T, U, F: FnOnce(T) -> U>(b: Bound<T>, f: F, r: Bound<U>) -> bool {
    &&& same_variant(b, r)
    &&& (value_of(b) is Some ==> f.ensures((value_of(b)->0,), value_of(r)->0))
}

/// The payload of `b`, or `def` where there is none.
pub open spec fn value_or<T>(b: Bound<T>, def: T) -> T {
    match value_of(b) {
        Some(x) => x,
        None => def,
    }
}

/// Whether the endpoint is part of the range.
pub fn is_included<T>(bound: &Bound<T>) -> (r: bool)
    ensures
        r == (*bound is Included),
{
    match bound {
        Bound::Included(_) => true,
        _ => false,
    }
}

/// Whether the endpoint is a limit that the range does not reach.
pub fn is_excluded<T>(bound: &Bound<T>) -> (r: bool)
    ensures
        r == (*bound is Excluded),
{
    match bound {
        Bound::Excluded(_) => true,
        _ => false,
    }
}

/// Whether the range has no limit on this side.
pub fn is_unbounded<T>(bound: &Bound<T>) -> (r: bool)
    ensures
        r == (*bound is Unbounded),
{
    match bound {
        Bound::Unbounded => true,
        _ => false,
    }
}

/// Applies `f` to the payload, if any, keeping the variant.
pub fn map<T, U, F: FnOnce(T) -> U>(bound: Bound<T>, f: F) -> (r: Bound<U>)
    requires
        value_of(bound) is Some ==> f.requires((value_of(bound)->0,)),
    ensures
        mapped(bound, f, r),
{
    match bound {
        Bound::Excluded(b) => Bound::Excluded(f(b)),
        Bound::Included(b) => Bound::Included(f(b)),
        Bound::Unbounded => Bound::Unbounded,
    }
}

/// Relies on `AsRef::as_ref`: the view that the payload type's own impl gives.
#[verifier::external_body]
fn view_of<U: ?Sized, T: AsRef<U>>(t: &T) -> &U {
    t.as_ref()
}

/// Relies on `AsMut::as_mut`: the mutable view that the payload type's own
/// impl gives.
#[verifier::external_body]
fn view_mut_of<U: ?Sized, T: AsMut<U>>(t: &mut T) -> &mut U {
    t.as_mut()
}

/// Borrows the payload through its `AsRef` view, keeping the variant; the
/// source is left as it was.
pub fn as_ref<U: ?Sized, T: AsRef<U>>(bound: &Bound<T>) -> (r: Bound<&U>)
    ensures
        same_variant(*bound, r),
{
    match bound {
        Bound::Excluded(b) => Bound::Excluded(view_of(b)),
        Bound::Included(b) => Bound::Included(view_of(b)),
        Bound::Unbounded => Bound::Unbounded,
    }
}

/// Borrows the payload mutably through its `AsMut` view, keeping the variant.
/// Writes through the result land in the payload; the variant of the source
/// never changes.
pub fn as_mut<U: ?Sized, T: AsMut<U>>(bound: &mut Bound<T>) -> (r: Bound<&mut U>)
    ensures
        same_variant(*old(bound), r),
        same_variant(*old(bound), *final(bound)),
{
    match bound {
        Bound::Excluded(b) => Bound::Excluded(view_mut_of(b)),
        Bound::Included(b) => Bound::Included(view_mut_of(b)),
        Bound::Unbounded => Bound::Unbounded,
    }
}

/// The payload; an unbounded endpoint has none to give.
pub fn unwrap<T>(bound: Bound<T>) -> (r: T)
    requires
        !(bound is Unbounded),
    ensures
        value_of(bound) == Some(r),
{
    expect(bound, "called `rangetools::unwrap()` on a `Unbounded` value")
}

/// The payload, or `def` for an unbounded endpoint.
pub fn unwrap_or<T>(bound: Bound<T>, def: T) -> (r: T)
    ensures
        r == value_or(bound, def),
{
    match bound {
        Bound::Excluded(b) => b,
        Bound::Included(b) => b,
        Bound::Unbounded => def,
    }
}

/// The payload, or what `f` returns for an unbounded endpoint; `f` is called
/// only then.
pub fn unwrap_or_else<T, F>(bound: Bound<T>, f: F) -> (r: T)
    where
        F: FnOnce() -> T,
    requires
        bound is Unbounded ==> f.requires(()),
    ensures
        value_of(bound) is Some ==> r == value_of(bound)->0,
        bound is Unbounded ==> f.ensures((), r),
{
    match bound {
        Bound::Excluded(b) => b,
        Bound::Included(b) => b,
        Bound::Unbounded => f(),
    }
}

/// The payload; an unbounded endpoint has none, and `msg` is what the failure
/// would report.
pub fn expect<T>(bound: Bound<T>, msg: &str) -> (r: T)
    requires
        !(bound is Unbounded),
    ensures
        value_of(bound) == Some(r),
{
    match bound {
        Bound::Excluded(b) => b,
        Bound::Included(b) => b,
        Bound::Unbounded => {
            // Ruled out by the precondition; a caller that Verus does not
            // check still fails here, with `msg` as the panic message.
            let absent: Option<T> = None;
            absent.expect(msg)
        },
    }
}

/// An owned endpoint holding a clone of the borrowed payload.
pub fn cloned<T: Clone>(bound: Bound<&T>) -> (r: Bound<T>)
    ensures
        same_variant(bound, r),
        value_of(bound) is Some ==> vstd::pervasive::cloned(*value_of(bound)->0, value_of(r)->0),
{
    map(bound, |t: &T| -> (c: T) ensures vstd::pervasive::cloned(*t, c) { t.clone() })
}

/// An owned endpoint holding a clone of the mutably borrowed payload, which is
/// left as it was.
pub fn cloned_mut<T: Clone>(bound: Bound<&mut T>) -> (r: Bound<T>)
    ensures
        same_variant(bound, r),
        value_of(bound) is Some ==> vstd::pervasive::cloned(*value_of(bound)->0, value_of(r)->0),
{
    map(bound, |t: &mut T| -> (c: T)
        ensures
            vstd::pervasive::cloned(*old(t), c),
            *final(t) == *old(t),
        { t.clone() })
}

/// An owned endpoint holding a copy of the borrowed payload.
pub fn copied<T: Copy>(bound: Bound<&T>) -> (r: Bound<T>)
    ensures
        same_variant(bound, r),
        value_of(bound) is Some ==> value_of(r) == Some(*value_of(bound)->0),
{
    map(bound, |t: &T| -> (c: T) ensures c == *t { *t })
}

/// An owned endpoint holding a copy of the mutably borrowed payload, which is
/// left as it was.
pub fn copied_mut<T: Copy>(bound: Bound<&mut T>) -> (r: Bound<T>)
    ensures
        same_variant(bound, r),
        value_of(bound) is Some ==> value_of(r) == Some(*value_of(bound)->0),
{
    map(bound, |t: &mut T| -> (c: T)
        ensures
            c == *old(t),
            *final(t) == *old(t),
        { *t })
}

} // verus!
