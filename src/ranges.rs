//! Endpoints of std's range types, handed out as `MyBound`.

use crate::{same_variant, value_of, MyBound};
use std::ops::{Bound, Range, RangeFrom, RangeFull, RangeInclusive, RangeTo, RangeToInclusive};
use vstd::prelude::*;

verus! {

/// std's `a..`, whose field Verus reads as it stands.
#[verifier::external_type_specification]
#[verifier::reject_recursive_types(Idx)]
pub struct ExRangeFrom<Idx>(RangeFrom<Idx>);

/// std's `..b`, whose field Verus reads as it stands.
#[verifier::external_type_specification]
#[verifier::reject_recursive_types(Idx)]
pub struct ExRangeTo<Idx>(RangeTo<Idx>);

/// std's `..=b`, whose field Verus reads as it stands.
#[verifier::external_type_specification]
#[verifier::reject_recursive_types(Idx)]
pub struct ExRangeToInclusive<Idx>(RangeToInclusive<Idx>);

/// std's `..`.
#[verifier::external_type_specification]
pub struct ExRangeFull(RangeFull);

/// Relies on `RangeInclusive::start_bound` (of `RangeBounds`): the start
/// endpoint of `a..=b`, whose fields are private to std.
#[verifier::external_body]
fn inclusive_start<T>(range: &RangeInclusive<T>) -> (r: Bound<&T>)
    ensures
        r == Bound::Included(&range@.start),
{
    std::ops::RangeBounds::start_bound(range)
}

/// Relies on `RangeInclusive::end_bound` (of `RangeBounds`): the end endpoint
/// of `a..=b`, which std reports as excluded once the range is exhausted.
#[verifier::external_body]
fn inclusive_end<T>(range: &RangeInclusive<T>) -> (r: Bound<&T>)
    ensures
        !range@.exhausted ==> r == Bound::Included(&range@.end),
{
    std::ops::RangeBounds::end_bound(range)
}

/// The two endpoints of a range, each wrapped in `MyBound`.
pub trait MyRangeBounds<T: ?Sized> {
    /// Where the range starts.
    fn start_bound(&self) -> MyBound<&T>;

    /// Where the range ends.
    fn end_bound(&self) -> MyBound<&T>;
}

impl<T> MyRangeBounds<T> for Range<T> {
    fn start_bound(&self) -> (r: MyBound<&T>)
        ensures
            r@ == Bound::Included(&self.start),
    {
        MyBound(Bound::Included(&self.start))
    }

    fn end_bound(&self) -> (r: MyBound<&T>)
        ensures
            r@ == Bound::Excluded(&self.end),
    {
        MyBound(Bound::Excluded(&self.end))
    }
}

impl<T> MyRangeBounds<T> for RangeInclusive<T> {
    fn start_bound(&self) -> (r: MyBound<&T>)
        ensures
            r@ == Bound::Included(&self@.start),
    {
        MyBound(inclusive_start(self))
    }

    fn end_bound(&self) -> (r: MyBound<&T>)
        ensures
            !self@.exhausted ==> r@ == Bound::Included(&self@.end),
    {
        MyBound(inclusive_end(self))
    }
}

impl<T> MyRangeBounds<T> for RangeFrom<T> {
    fn start_bound(&self) -> (r: MyBound<&T>)
        ensures
            r@ == Bound::Included(&self.start),
    {
        MyBound(Bound::Included(&self.start))
    }

    fn end_bound(&self) -> (r: MyBound<&T>)
        ensures
            r@ == Bound::<&T>::Unbounded,
    {
        MyBound(Bound::Unbounded)
    }
}

impl<T> MyRangeBounds<T> for RangeTo<T> {
    fn start_bound(&self) -> (r: MyBound<&T>)
        ensures
            r@ == Bound::<&T>::Unbounded,
    {
        MyBound(Bound::Unbounded)
    }

    fn end_bound(&self) -> (r: MyBound<&T>)
        ensures
            r@ == Bound::Excluded(&self.end),
    {
        MyBound(Bound::Excluded(&self.end))
    }
}

impl<T> MyRangeBounds<T> for RangeToInclusive<T> {
    fn start_bound(&self) -> (r: MyBound<&T>)
        ensures
            r@ == Bound::<&T>::Unbounded,
    {
        MyBound(Bound::Unbounded)
    }

    fn end_bound(&self) -> (r: MyBound<&T>)
        ensures
            r@ == Bound::Included(&self.end),
    {
        MyBound(Bound::Included(&self.end))
    }
}

/// `..` has no limit on either side.
impl<T: ?Sized> MyRangeBounds<T> for RangeFull {
    fn start_bound(&self) -> MyBound<&T> {
        MyBound(Bound::Unbounded)
    }

    fn end_bound(&self) -> MyBound<&T> {
        MyBound(Bound::Unbounded)
    }
}

/// A borrowing view of an endpoint held by value.
fn borrow_bound<T>(b: &Bound<T>) -> (r: Bound<&T>)
    ensures
        same_variant(*b, r),
        value_of(*b) is Some ==> value_of(r) == Some(&value_of(*b)->0),
{
    match b {
        Bound::Included(x) => Bound::Included(x),
        Bound::Excluded(x) => Bound::Excluded(x),
        Bound::Unbounded => Bound::Unbounded,
    }
}

/// A pair of endpoints, start first, as std reads it.
impl<T> MyRangeBounds<T> for (Bound<T>, Bound<T>) {
    fn start_bound(&self) -> (r: MyBound<&T>)
        ensures
            same_variant(self.0, r@),
            value_of(self.0) is Some ==> value_of(r@) == Some(&value_of(self.0)->0),
    {
        MyBound(borrow_bound(&self.0))
    }

    fn end_bound(&self) -> (r: MyBound<&T>)
        ensures
            same_variant(self.1, r@),
            value_of(self.1) is Some ==> value_of(r@) == Some(&value_of(self.1)->0),
    {
        MyBound(borrow_bound(&self.1))
    }
}

} // verus!
