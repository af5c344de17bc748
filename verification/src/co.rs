//! The suspension handle ("Co").
//!
//! The object through which the coroutine body talks to the exchange cell.
//! A suspension is the only way the body can pause, and it has two halves:
//! [`Co::yield_with`] places the yielded value into the cell, after which the
//! body's poll must report pending and remember where to resume; on the next
//! poll, [`Co::take_resume`] removes the resume argument the driver placed
//! into the cell and hands it to the body.
//!
//! Besides the cell itself, the handle carries two ghost histories: every
//! value the body has yielded and every resume argument it has received.
//! The driver's contracts are stated over these histories.

use crate::airlock::{resume_of, Airlock, Next};
use vstd::prelude::*;

verus! {

/// The suspension handle: the body's side of the exchange cell.
pub struct Co<Y, R> {
    airlock: Airlock<Y, R>,
    yield_log: Ghost<Seq<Y>>,
    resume_log: Ghost<Seq<R>>,
}

impl<Y, R> Co<Y, R> {
    /// The current content of the exchange cell.
    pub closed spec fn slot(&self) -> Next<Y, R> {
        self.airlock@
    }

    /// Every value the body has yielded so far, oldest first.
    pub closed spec fn yields(&self) -> Seq<Y> {
        self.yield_log@
    }

    /// Every resume argument the body has received so far, oldest first.
    pub closed spec fn resumes(&self) -> Seq<R> {
        self.resume_log@
    }

    /// Creates a handle over a fresh, empty cell, with empty histories.
    pub(crate) fn new() -> (co: Self)
        ensures
            co.slot() is Empty,
            co.yields() == Seq::<Y>::empty(),
            co.resumes() == Seq::<R>::empty(),
    {
        Co {
            airlock: Airlock::new(),
            yield_log: Ghost(Seq::empty()),
            resume_log: Ghost(Seq::empty()),
        }
    }

    /// First half of a suspension: places a yielded value into the cell.
    ///
    /// After this call the body's poll must report pending without touching
    /// the cell again; the driver then removes the value and reports it.
    /// A second yield without an intervening driver step is ruled out.  A
    /// still-pending resume argument is overwritten: it was the hand-in value
    /// of a step in which the body chose not to read it.
    pub fn yield_with(&mut self, value: Y)
        requires
            !(old(self).slot() is Yield),
        ensures
            final(self).slot() == Next::<Y, R>::Yield(value),
            final(self).yields() == old(self).yields().push(value),
            final(self).resumes() == old(self).resumes(),
    {
        self.airlock.put_yield(value);
        self.yield_log = Ghost(self.yield_log@.push(value));
    }

    /// Second half of a suspension: removes and returns the resume argument
    /// the driver placed into the cell, leaving the cell empty.
    ///
    /// The value returned is exactly the value the driver passed in, with no
    /// transformation.
    pub fn take_resume(&mut self) -> (r: R)
        requires
            old(self).slot() is Resume,
        ensures
            final(self).slot() is Empty,
            r == resume_of(old(self).slot()),
            final(self).resumes() == old(self).resumes().push(r),
            final(self).yields() == old(self).yields(),
    {
        let n = self.airlock.take();
        match n {
            Next::Resume(r) => {
                self.resume_log = Ghost(self.resume_log@.push(r));
                r
            },
            _ => unreached(),
        }
    }

    /// Driver side: stores the resume argument of the step that begins.
    pub(crate) fn put_resume(&mut self, value: R)
        requires
            !(old(self).slot() is Resume),
        ensures
            final(self).slot() == Next::<Y, R>::Resume(value),
            final(self).yields() == old(self).yields(),
            final(self).resumes() == old(self).resumes(),
    {
        self.airlock.put_resume(value);
    }

    /// Driver side: removes and returns whatever the cell holds.
    pub(crate) fn take_slot(&mut self) -> (n: Next<Y, R>)
        ensures
            final(self).slot() is Empty,
            n == old(self).slot(),
            final(self).yields() == old(self).yields(),
            final(self).resumes() == old(self).resumes(),
    {
        self.airlock.take()
    }

    /// Driver side: reports whether the cell is empty.
    pub(crate) fn slot_is_empty(&self) -> (b: bool)
        ensures
            b == (self.slot() is Empty),
    {
        self.airlock.is_empty()
    }
}

} // verus!
