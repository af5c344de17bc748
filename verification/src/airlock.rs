//! The exchange cell ("airlock").
//!
//! A single slot, shared by the driver and the suspension handle, that holds
//! at most one pending value, tagged by direction: nothing pending, a resume
//! argument pending for the body, or a yielded value pending for the driver.
//! It is a sequencing primitive across alternating, non-overlapping turns of
//! a single logical thread of control, not a concurrency primitive: at most
//! one side is ever actually executing.

use vstd::prelude::*;

verus! {

/// The content of the exchange cell.
pub enum Next<Y, R> {
    /// Nothing is pending.
    Empty,
    /// A resume argument, written by the driver, waiting for the body.
    Resume(R),
    /// A yielded value, written by the body, waiting for the driver.
    Yield(Y),
}

/// The resume argument held by a `Resume` slot.
pub open spec fn resume_of<Y, R>(n: Next<Y, R>) -> R
    recommends
        n is Resume,
{
    match n {
        Next::Resume(r) => r,
        _ => arbitrary(),
    }
}

/// The yielded value held by a `Yield` slot.
pub open spec fn yield_of<Y, R>(n: Next<Y, R>) -> Y
    recommends
        n is Yield,
{
    match n {
        Next::Yield(y) => y,
        _ => arbitrary(),
    }
}

/// The exchange cell: one slot, never more than one pending value.
///
/// A write must not overwrite a pending value of its own direction: that
/// would mean a body that suspended twice without the driver reading the
/// first value, or a driver that resumed twice without reading a yield.
/// Both are ruled out by precondition rather than detected at run time.
pub struct Airlock<Y, R> {
    slot: Next<Y, R>,
}

impl<Y, R> View for Airlock<Y, R> {
    type V = Next<Y, R>;

    closed spec fn view(&self) -> Next<Y, R> {
        self.slot
    }
}

impl<Y, R> Airlock<Y, R> {
    /// Creates an empty cell.
    pub fn new() -> (a: Self)
        ensures
            a@ is Empty,
    {
        Airlock { slot: Next::Empty }
    }

    /// Stores a resume argument for the body.
    ///
    /// The cell must not already hold a resume argument: a pending yielded
    /// value may be overwritten only in the other direction, never this one.
    pub fn put_resume(&mut self, value: R)
        requires
            !(old(self)@ is Resume),
        ensures
            final(self)@ == Next::<Y, R>::Resume(value),
    {
        self.slot = Next::Resume(value);
    }

    /// Stores a yielded value for the driver.
    ///
    /// The cell must not already hold a yielded value.  A still-pending
    /// resume argument may be overwritten: it is the hand-in value of a step
    /// in which the body chose not to read it.
    pub fn put_yield(&mut self, value: Y)
        requires
            !(old(self)@ is Yield),
        ensures
            final(self)@ == Next::<Y, R>::Yield(value),
    {
        self.slot = Next::Yield(value);
    }

    /// Removes and returns whatever is stored, resetting the cell to empty.
    pub fn take(&mut self) -> (n: Next<Y, R>)
        ensures
            final(self)@ is Empty,
            n == old(self)@,
    {
        let mut n = Next::Empty;
        core::mem::swap(&mut n, &mut self.slot);
        n
    }

    /// Reports whether the cell is empty.
    pub fn is_empty(&self) -> (b: bool)
        ensures
            b == (self@ is Empty),
    {
        matches!(self.slot, Next::Empty)
    }
}

} // verus!
