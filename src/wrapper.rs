//! `MyBound`: a façade over `Bound` that offers every combinator as a method.

use crate::{value_of, same_variant, mapped, value_or};
use std::ops::Bound;
use vstd::prelude::*;

verus! {

/// A range endpoint with the combinators of this crate as methods.
#[verifier::reject_recursive_types(T)]
pub struct MyBound<T>(pub Bound<T>);

impl<T> View for MyBound<T> {
    type V = Bound<T>;

    open spec fn view(&self) -> Bound<T> {
        self.0
    }
}

impl<T> MyBound<T> {
    /// Whether the endpoint is part of the range.
    pub fn is_included(&self) -> (r: bool)
        ensures
            r == (self@ is Included),
    {
        crate::is_included(&self.0)
    }

    /// Whether the endpoint is a limit that the range does not reach.
    pub fn is_excluded(&self) -> (r: bool)
        ensures
            r == (self@ is Excluded),
    {
        crate::is_excluded(&self.0)
    }

    /// Whether the range has no limit on this side.
    pub fn is_unbounded(&self) -> (r: bool)
        ensures
            r == (self@ is Unbounded),
    {
        crate::is_unbounded(&self.0)
    }

    /// Applies `f` to the payload, if any, keeping the variant.
    pub fn map<U, F: FnOnce(T) -> U>(self, f: F) -> (r: MyBound<U>)
        requires
            value_of(self@) is Some ==> f.requires((value_of(self@)->0,)),
        ensures
            mapped(self@, f, r@),
    {
        MyBound(crate::map(self.0, f))
    }

    /// Borrows the payload through its `AsRef` view, keeping the variant.
    pub fn as_ref<U: ?Sized>(&self) -> (r: MyBound<&U>)
        where
            T: AsRef<U>,
        ensures
            same_variant(self@, r@),
    {
        MyBound(crate::as_ref(&self.0))
    }

    /// Borrows the payload mutably through its `AsMut` view, keeping the
    /// variant.
    pub fn as_mut<U: ?Sized>(&mut self) -> (r: MyBound<&mut U>)
        where
            T: AsMut<U>,
        ensures
            same_variant(old(self)@, r@),
            same_variant(old(self)@, final(self)@),
    {
        MyBound(crate::as_mut(&mut self.0))
    }

    /// The payload; an unbounded endpoint has none to give.
    pub fn unwrap(self) -> (r: T)
        requires
            !(self@ is Unbounded),
        ensures
            value_of(self@) == Some(r),
    {
        crate::unwrap(self.0)
    }

    /// The payload, or `def` for an unbounded endpoint.
    pub fn unwrap_or(self, def: T) -> (r: T)
        ensures
            r == value_or(self@, def),
    {
        crate::unwrap_or(self.0, def)
    }

    /// The payload, or what `f` returns for an unbounded endpoint.
    pub fn unwrap_or_else<F>(self, f: F) -> (r: T)
        where
            F: FnOnce() -> T,
        requires
            self@ is Unbounded ==> f.requires(()),
        ensures
            value_of(self@) is Some ==> r == value_of(self@)->0,
            self@ is Unbounded ==> f.ensures((), r),
    {
        crate::unwrap_or_else(self.0, f)
    }

    /// The payload; `msg` is what the failure on an unbounded endpoint would
    /// report.
    pub fn expect(self, msg: &str) -> (r: T)
        requires
            !(self@ is Unbounded),
        ensures
            value_of(self@) == Some(r),
    {
        crate::expect(self.0, msg)
    }
}

impl<'a, T> MyBound<&'a T> {
    /// An owned endpoint holding a clone of the payload.
    pub fn cloned(self) -> (r: MyBound<T>)
        where
            T: Clone,
        ensures
            same_variant(self@, r@),
            value_of(self@) is Some ==> vstd::pervasive::cloned(*value_of(self@)->0, value_of(r@)->0),
    {
        MyBound(crate::cloned(self.0))
    }

    /// An owned endpoint holding a copy of the payload.
    pub fn copied(self) -> (r: MyBound<T>)
        where
            T: Copy,
        ensures
            same_variant(self@, r@),
            value_of(self@) is Some ==> value_of(r@) == Some(*value_of(self@)->0),
    {
        MyBound(crate::copied(self.0))
    }
}

impl<'a, T> MyBound<&'a mut T> {
    /// An owned endpoint holding a clone of the payload.
    pub fn cloned(self) -> (r: MyBound<T>)
        where
            T: Clone,
        ensures
            same_variant(self@, r@),
            value_of(self@) is Some ==> vstd::pervasive::cloned(*value_of(self@)->0, value_of(r@)->0),
    {
        MyBound(crate::cloned_mut(self.0))
    }

    /// An owned endpoint holding a copy of the payload.
    pub fn copied(self) -> (r: MyBound<T>)
        where
            T: Copy,
        ensures
            same_variant(self@, r@),
            value_of(self@) is Some ==> value_of(r@) == Some(*value_of(self@)->0),
    {
        MyBound(crate::copied_mut(self.0))
    }
}

impl<T> From<Bound<T>> for MyBound<T> {
    fn from(src: Bound<T>) -> (r: MyBound<T>)
        ensures
            r@ == src,
    {
        MyBound(src)
    }
}

impl<T> vstd::std_specs::convert::FromSpecImpl<Bound<T>> for MyBound<T> {
    open spec fn obeys_from_spec() -> bool {
        true
    }

    open spec fn from_spec(src: Bound<T>) -> MyBound<T> {
        MyBound(src)
    }
}

impl<T> From<MyBound<T>> for Bound<T> {
    fn from(src: MyBound<T>) -> (r: Bound<T>)
        ensures
            r == src@,
    {
        src.0
    }
}

impl<T> vstd::std_specs::convert::FromSpecImpl<MyBound<T>> for Bound<T> {
    open spec fn obeys_from_spec() -> bool {
        true
    }

    open spec fn from_spec(src: MyBound<T>) -> Bound<T> {
        src.0
    }
}

} // verus!
