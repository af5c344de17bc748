//! Ready-made coroutine bodies.
//!
//! Each is a small explicit state machine implementing
//! [`crate::generator::Pollable`], and each exercises a different shape of
//! the protocol: a body that yields a fixed run of values before finishing,
//! a body that finishes at once without ever suspending, and a body that
//! reads its resume argument every step and echoes a value derived from it.
//!
//! Each body's [`Pollable::transition`] relation pins its turns exactly, so
//! a caller of the driver can prove which value every step yields and what
//! the completion returns, not merely that the protocol was obeyed.

use crate::co::Co;
use crate::generator::{is_deterministic, GeneratorState, Poll, Pollable};
use vstd::prelude::*;

verus! {

/// A body that yields `1`, then `2`, then finishes with `"done"`.
///
/// It never reads its first hand-in value: that value is left in the cell
/// and overwritten by the first yield.
pub struct TwoYields {
    stage: u8,
}

impl TwoYields {
    /// Which turn comes next: `0` before the first, `3` once finished.
    pub closed spec fn stage_spec(&self) -> u8 {
        self.stage
    }

    /// The one fresh state of this body type.
    pub closed spec fn initial() -> TwoYields {
        TwoYields { stage: 0 }
    }

    /// A fresh body, paused before its first turn.
    pub fn new() -> (b: Self)
        ensures
            b == TwoYields::initial(),
            !b.done(),
            b.stage_spec() == 0,
    {
        TwoYields { stage: 0 }
    }
}

impl Pollable<u64, u64> for TwoYields {
    type Output = String;

    closed spec fn done(&self) -> bool {
        self.stage >= 3
    }

    open spec fn transition(
        pre: TwoYields,
        input: u64,
        read: bool,
        post: TwoYields,
        outcome: GeneratorState<u64, String>,
    ) -> bool {
        if pre.stage_spec() == 0 {
            &&& !read
            &&& post.stage_spec() == 1
            &&& outcome == GeneratorState::<u64, String>::Yielded(1u64)
        } else if pre.stage_spec() == 1 {
            &&& read
            &&& post.stage_spec() == 2
            &&& outcome == GeneratorState::<u64, String>::Yielded(2u64)
        } else if pre.stage_spec() == 2 {
            &&& read
            &&& post.stage_spec() == 3
            &&& outcome matches GeneratorState::Completed(s) && s@ == "done"@
        } else {
            false
        }
    }

    fn poll(&mut self, co: &mut Co<u64, u64>) -> (p: Poll<String>) {
        let ghost entry_resumes = co.resumes();
        if self.stage == 0 {
            co.yield_with(1);
            self.stage = 1;
            Poll::Pending
        } else if self.stage == 1 {
            let _handed_in = co.take_resume();
            co.yield_with(2);
            self.stage = 2;
            proof {
                assert(co.resumes().len() == entry_resumes.len() + 1);
            }
            Poll::Pending
        } else {
            let _handed_in = co.take_resume();
            self.stage = 3;
            proof {
                assert(co.resumes().len() == entry_resumes.len() + 1);
            }
            Poll::Ready("done".to_owned())
        }
    }
}

/// A body that never suspends: its first turn finishes at once with `42`,
/// leaving its hand-in value unread.
pub struct ImmediateReturn {
    finished: bool,
}

impl ImmediateReturn {
    /// The one fresh state of this body type.
    pub closed spec fn initial() -> ImmediateReturn {
        ImmediateReturn { finished: false }
    }

    /// A fresh body, paused before its first turn.
    pub fn new() -> (b: Self)
        ensures
            b == ImmediateReturn::initial(),
            !b.done(),
    {
        ImmediateReturn { finished: false }
    }
}

impl Pollable<u64, ()> for ImmediateReturn {
    type Output = u64;

    closed spec fn done(&self) -> bool {
        self.finished
    }

    open spec fn transition(
        pre: ImmediateReturn,
        input: (),
        read: bool,
        post: ImmediateReturn,
        outcome: GeneratorState<u64, u64>,
    ) -> bool {
        &&& !read
        &&& post.done()
        &&& outcome == GeneratorState::<u64, u64>::Completed(42u64)
    }

    fn poll(&mut self, _co: &mut Co<u64, ()>) -> (p: Poll<u64>) {
        self.finished = true;
        Poll::Ready(42)
    }
}

/// A body that reads its resume argument `n` every step, accumulates the
/// arguments it has received, and echoes `2 * n` back (wrapping around on
/// overflow); it finishes with the accumulated total when handed `0`.
pub struct DoubleEcho {
    finished: bool,
    total: u64,
}

impl DoubleEcho {
    /// The sum of the hand-in values received so far, wrapping on overflow.
    pub closed spec fn total_spec(&self) -> u64 {
        self.total
    }

    /// The one fresh state of this body type.
    pub closed spec fn initial() -> DoubleEcho {
        DoubleEcho { finished: false, total: 0 }
    }

    /// A fresh body, paused before its first turn, with an empty total.
    pub fn new() -> (b: Self)
        ensures
            b == DoubleEcho::initial(),
            !b.done(),
            b.total_spec() == 0,
    {
        DoubleEcho { finished: false, total: 0 }
    }
}

impl Pollable<u64, u64> for DoubleEcho {
    type Output = u64;

    closed spec fn done(&self) -> bool {
        self.finished
    }

    open spec fn transition(
        pre: DoubleEcho,
        input: u64,
        read: bool,
        post: DoubleEcho,
        outcome: GeneratorState<u64, u64>,
    ) -> bool {
        &&& read
        &&& post.total_spec() == pre.total_spec().wrapping_add(input)
        &&& post.done() == (input == 0)
        &&& outcome == if input == 0 {
            GeneratorState::<u64, u64>::Completed(post.total_spec())
        } else {
            GeneratorState::<u64, u64>::Yielded(input.wrapping_add(input))
        }
    }

    fn poll(&mut self, co: &mut Co<u64, u64>) -> (p: Poll<u64>) {
        let ghost entry_resumes = co.resumes();
        let n = co.take_resume();
        proof {
            assert(co.resumes().len() == entry_resumes.len() + 1);
        }
        self.total = self.total.wrapping_add(n);
        if n == 0 {
            self.finished = true;
            Poll::Ready(self.total)
        } else {
            co.yield_with(n.wrapping_add(n));
            Poll::Pending
        }
    }
}

/// [`ImmediateReturn`] is deterministic: each state and hand-in admits one
/// turn only.
pub proof fn lemma_immediate_return_deterministic()
    ensures
        is_deterministic::<u64, (), ImmediateReturn>(),
{
}

/// [`DoubleEcho`] is deterministic: each state and hand-in admits one turn
/// only.
pub proof fn lemma_double_echo_deterministic()
    ensures
        is_deterministic::<u64, u64, DoubleEcho>(),
{
}

} // verus!
