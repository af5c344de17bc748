//! The coroutine driver ("Gen") and its step engine.
//!
//! The driver owns the pollable computation and the exchange cell.  Its one
//! operation, [`Gen::resume_with`], writes the caller's input into the cell,
//! advances the computation by exactly one suspension point or to completion,
//! and extracts the outcome.  Between steps the cell is empty; once a
//! [`GeneratorState::Completed`] outcome has been reported the driver is
//! permanently inert, and a further step is ruled out by precondition.

use crate::airlock::{resume_of, yield_of, Next};
use crate::co::Co;
use vstd::prelude::*;

verus! {

/// The outcome of one driver step: either the body paused and produced a
/// value and can be resumed again, or it finished with a final result and
/// must not be resumed again.
#[derive(Debug, PartialEq, Eq)]
pub enum GeneratorState<Y, T> {
    /// The body suspended, producing an intermediate value.
    Yielded(Y),
    /// The body ran to completion, producing its final result.
    Completed(T),
}

/// What one advance of a pollable computation reports: either it paused at a
/// suspension point, or it finished with a value.
#[derive(Debug, PartialEq, Eq)]
pub enum Poll<T> {
    /// The computation suspended; a yielded value waits in the cell.
    Pending,
    /// The computation finished with this value.
    Ready(T),
}

/// The outcome that one turn of a body amounts to: a pending report is a
/// yield of the value left in the cell; a ready report is a completion with
/// the final result.
pub open spec fn turn_outcome<Y, R, T>(p: Poll<T>, slot: Next<Y, R>) -> GeneratorState<Y, T> {
    match p {
        Poll::Pending => GeneratorState::Yielded(yield_of(slot)),
        Poll::Ready(t) => GeneratorState::Completed(t),
    }
}

/// A pollable computation: the suspendable body of a coroutine, written as an
/// explicit state machine that remembers its own pause point.
///
/// Each call to `poll` is one turn of the body: it runs from its last
/// suspension point until it either suspends again or finishes.  A
/// suspension is the pair of [`Co::yield_with`] followed by returning
/// [`Poll::Pending`]; on the next turn the body picks the resume argument up
/// with [`Co::take_resume`].  The contract pins the protocol down:
///
/// * a turn that reports pending has yielded exactly one value, which waits
///   in the cell for the driver;
/// * a turn that reports ready has yielded nothing and left no yielded value
///   behind, and the body is done for good;
/// * the only resume argument a turn can consume is the one the driver wrote
///   for this very step, received unchanged;
/// * every turn lies in the body type's own transition relation, so what a
///   particular body yields, returns, and becomes is pinned as exactly as
///   its [`Pollable::transition`] chooses to say.
pub trait Pollable<Y, R>: Sized {
    /// The type of the body's final result.
    type Output;

    /// Whether the body has already run to completion.
    spec fn done(&self) -> bool;

    /// The body type's transition relation: whether one turn may take the
    /// body from state `pre` to state `post` when handed `input`, reading
    /// the hand-in (`read`) or leaving it unread, and ending in `outcome` —
    /// a yield of a value or a completion with a final result.
    spec fn transition(
        pre: Self,
        input: R,
        read: bool,
        post: Self,
        outcome: GeneratorState<Y, Self::Output>,
    ) -> bool;

    /// Advances the body by exactly one turn.  At entry the cell holds the
    /// resume argument of the step that is underway.
    fn poll(&mut self, co: &mut Co<Y, R>) -> (p: Poll<Self::Output>)
        requires
            !old(self).done(),
            old(co).slot() is Resume,
        ensures
            p is Pending ==> !final(self).done(),
            p is Pending ==> final(co).slot() is Yield && final(co).yields() == old(
                co,
            ).yields().push(yield_of(final(co).slot())),
            p is Ready ==> final(self).done(),
            p is Ready ==> final(co).yields() == old(co).yields() && !(final(co).slot() is Yield),
            final(co).resumes() == old(co).resumes() || final(co).resumes() == old(
                co,
            ).resumes().push(resume_of(old(co).slot())),
            Self::transition(
                *old(self),
                resume_of(old(co).slot()),
                final(co).resumes() != old(co).resumes(),
                *final(self),
                turn_outcome(p, final(co).slot()),
            ),
    ;
}

/// Whether a body type can make at most one turn from each state and input:
/// its transition relation is a function of the pre-state and the hand-in
/// value alone.
pub open spec fn is_deterministic<Y, R, F: Pollable<Y, R>>() -> bool {
    forall|
        pre: F,
        input: R,
        read1: bool,
        post1: F,
        o1: GeneratorState<Y, F::Output>,
        read2: bool,
        post2: F,
        o2: GeneratorState<Y, F::Output>,
    |
        #[trigger] F::transition(pre, input, read1, post1, o1) && #[trigger] F::transition(
            pre,
            input,
            read2,
            post2,
            o2,
        ) ==> read1 == read2 && post1 == post2 && o1 == o2
}

/// The step inputs that a body has read, in step order: one element for each
/// step whose `read` flag is set, namely that step's input, unchanged.
pub open spec fn received_inputs<R>(inputs: Seq<R>, reads: Seq<bool>) -> Seq<R>
    recommends
        inputs.len() == reads.len(),
    decreases inputs.len(),
{
    if inputs.len() == 0 || reads.len() == 0 {
        Seq::empty()
    } else if reads.last() {
        received_inputs(inputs.drop_last(), reads.drop_last()).push(inputs.last())
    } else {
        received_inputs(inputs.drop_last(), reads.drop_last())
    }
}

/// The values carried by the `Yielded` outcomes of a step history, in step
/// order.
pub open spec fn yielded_values<Y, T>(outcomes: Seq<GeneratorState<Y, T>>) -> Seq<Y>
    decreases outcomes.len(),
{
    if outcomes.len() == 0 {
        Seq::empty()
    } else {
        match outcomes.last() {
            GeneratorState::Yielded(y) => yielded_values(outcomes.drop_last()).push(y),
            GeneratorState::Completed(_) => yielded_values(outcomes.drop_last()),
        }
    }
}

/// The coroutine driver: owns the body and the exchange cell, and steps the
/// body one suspension point at a time.
pub struct Gen<Y, R, F> where F: Pollable<Y, R> {
    co: Co<Y, R>,
    body: F,
    trace: Ghost<Seq<GeneratorState<Y, F::Output>>>,
    input_log: Ghost<Seq<R>>,
    read_log: Ghost<Seq<bool>>,
}

impl<Y, R, F> Gen<Y, R, F> where F: Pollable<Y, R> {
    /// The content of the exchange cell.
    pub closed spec fn slot(&self) -> Next<Y, R> {
        self.co.slot()
    }

    /// Every value the body has yielded so far, oldest first.
    pub closed spec fn yields(&self) -> Seq<Y> {
        self.co.yields()
    }

    /// Every resume argument the body has received so far, oldest first.
    pub closed spec fn resumes(&self) -> Seq<R> {
        self.co.resumes()
    }

    /// The outcome of every step taken so far, oldest first.
    pub closed spec fn outcomes(&self) -> Seq<GeneratorState<Y, F::Output>> {
        self.trace@
    }

    /// The input handed in by every step taken so far, oldest first.
    pub closed spec fn inputs(&self) -> Seq<R> {
        self.input_log@
    }

    /// For every step taken so far, whether the body read that step's
    /// hand-in value.
    pub closed spec fn reads(&self) -> Seq<bool> {
        self.read_log@
    }

    /// The current state of the owned body.
    pub closed spec fn body_spec(&self) -> F {
        self.body
    }

    /// Whether a `Completed` outcome has been reported.  A completed driver
    /// is permanently inert: no further step may be taken.
    pub open spec fn completed(&self) -> bool {
        self.outcomes().len() > 0 && self.outcomes().last() is Completed
    }

    /// Well-formedness, established by construction and preserved by every
    /// step: between steps the exchange cell is empty; a `Completed` outcome
    /// can stand only as the last of the history; and while no completion
    /// has been reported the body can still be advanced.
    pub closed spec fn wf(&self) -> bool {
        &&& self.slot() is Empty
        &&& (!self.completed() ==> !self.body.done())
        &&& forall|i: int|
            0 <= i < self.outcomes().len() - 1 ==> self.outcomes()[i] is Yielded
        &&& self.inputs().len() == self.outcomes().len()
        &&& self.reads().len() == self.outcomes().len()
        &&& self.resumes() == received_inputs(self.inputs(), self.reads())
        &&& self.yields() == yielded_values(self.outcomes())
    }

    /// Creates a driver around a body that has not yet run.
    pub fn new(body: F) -> (g: Self)
        requires
            !body.done(),
        ensures
            g.wf(),
            !g.completed(),
            g.outcomes() == Seq::<GeneratorState<Y, F::Output>>::empty(),
            g.yields() == Seq::<Y>::empty(),
            g.resumes() == Seq::<R>::empty(),
            g.inputs() == Seq::<R>::empty(),
            g.body_spec() == body,
    {
        Gen {
            co: Co::new(),
            body,
            trace: Ghost(Seq::empty()),
            input_log: Ghost(Seq::empty()),
            read_log: Ghost(Seq::empty()),
        }
    }

    /// Resumes execution of the coroutine.
    ///
    /// The argument is written into the exchange cell; the body, if it reads
    /// it at all this step, receives exactly this value.  The body then runs
    /// until its next suspension or to completion — never further, never
    /// less.  If it suspended, the one value it yielded is removed from the
    /// cell and reported as `Yielded`; if it finished, its final result is
    /// reported as `Completed` and the driver is permanently inert.  Either
    /// way the exchange cell is empty again when this returns.
    pub fn resume_with(&mut self, arg: R) -> (r: GeneratorState<Y, F::Output>)
        requires
            old(self).wf(),
            !old(self).completed(),
        ensures
            final(self).wf(),
            final(self).slot() is Empty,
            final(self).outcomes() == old(self).outcomes().push(r),
            final(self).completed() == (r is Completed),
            r matches GeneratorState::Yielded(y) ==> final(self).yields() == old(
                self,
            ).yields().push(y),
            r is Completed ==> final(self).yields() == old(self).yields(),
            final(self).resumes() == old(self).resumes() || final(self).resumes() == old(
                self,
            ).resumes().push(arg),
            final(self).inputs() == old(self).inputs().push(arg),
            final(self).reads() == old(self).reads().push(
                final(self).resumes() != old(self).resumes(),
            ),
            F::transition(
                old(self).body_spec(),
                arg,
                final(self).reads().last(),
                final(self).body_spec(),
                r,
            ),
    {
        let ghost pre_resumes = self.co.resumes();
        let ghost pre_inputs = self.input_log@;
        let ghost pre_reads = self.read_log@;
        self.co.put_resume(arg);
        let p = self.body.poll(&mut self.co);
        self.input_log = Ghost(self.input_log@.push(arg));
        self.read_log = Ghost(self.read_log@.push(self.co.resumes() != pre_resumes));
        let ghost pre_trace = self.trace@;
        proof {
            assert(self.input_log@.drop_last() =~= pre_inputs);
            assert(self.read_log@.drop_last() =~= pre_reads);
        }
        match p {
            Poll::Pending => {
                match self.co.take_slot() {
                    Next::Yield(y) => {
                        let r = GeneratorState::Yielded(y);
                        self.trace = Ghost(self.trace@.push(r));
                        proof {
                            assert(self.trace@.drop_last() =~= pre_trace);
                        }
                        r
                    },
                    _ => unreached(),
                }
            },
            Poll::Ready(t) => {
                let _discarded = self.co.take_slot();
                let r = GeneratorState::Completed(t);
                self.trace = Ghost(self.trace@.push(r));
                proof {
                    assert(self.trace@.drop_last() =~= pre_trace);
                }
                r
            },
        }
    }

    /// Reports whether the exchange cell is empty.  Between steps this is
    /// always the case.
    pub fn cell_is_empty(&self) -> (b: bool)
        ensures
            b == (self.slot() is Empty),
    {
        self.co.slot_is_empty()
    }
}

impl<Y, F> Gen<Y, (), F> where F: Pollable<Y, ()> {
    /// Resumes execution of the coroutine with the unit value: the
    /// convenience form of [`Gen::resume_with`] when the resume argument
    /// carries no information.
    pub fn resume(&mut self) -> (r: GeneratorState<Y, F::Output>)
        requires
            old(self).wf(),
            !old(self).completed(),
        ensures
            final(self).wf(),
            final(self).slot() is Empty,
            final(self).outcomes() == old(self).outcomes().push(r),
            final(self).completed() == (r is Completed),
            r matches GeneratorState::Yielded(y) ==> final(self).yields() == old(
                self,
            ).yields().push(y),
            r is Completed ==> final(self).yields() == old(self).yields(),
            final(self).resumes() == old(self).resumes() || final(self).resumes() == old(
                self,
            ).resumes().push(()),
            final(self).inputs() == old(self).inputs().push(()),
            F::transition(
                old(self).body_spec(),
                (),
                final(self).reads().last(),
                final(self).body_spec(),
                r,
            ),
    {
        self.resume_with(())
    }
}

/// Alternation law: in the outcome history of a well-formed driver, a
/// `Completed` outcome can stand only at the very end — every outcome before
/// the last is `Yielded`, so repeated stepping observes a run of `Yielded`
/// results followed by at most one terminal `Completed`.
pub proof fn lemma_alternation<Y, R, F: Pollable<Y, R>>(g: &Gen<Y, R, F>, i: int)
    requires
        g.wf(),
        0 <= i < g.outcomes().len(),
        g.outcomes()[i] is Completed,
    ensures
        i == g.outcomes().len() - 1,
{
}

/// Value fidelity law: the resume arguments a well-formed driver's body has
/// received are exactly the inputs of the steps in which the body read its
/// hand-in value — each received unchanged, in step order, with no
/// transformation.  The left-hand history is kept by the suspension handle
/// as the body picks values up; the right-hand one is kept by the driver as
/// the caller hands them in.
pub proof fn lemma_value_fidelity<Y, R, F: Pollable<Y, R>>(g: &Gen<Y, R, F>)
    requires
        g.wf(),
    ensures
        g.resumes() == received_inputs(g.inputs(), g.reads()),
        g.inputs().len() == g.outcomes().len(),
        g.reads().len() == g.outcomes().len(),
{
}

/// Single-step law: each step advances the body exactly to its next
/// suspension or to completion, never further and never less — the values
/// the body has yielded are exactly the values of the `Yielded` outcomes
/// reported so far, one per suspension, in step order, each reported
/// unchanged.
pub proof fn lemma_single_step<Y, R, F: Pollable<Y, R>>(g: &Gen<Y, R, F>)
    requires
        g.wf(),
    ensures
        g.yields() == yielded_values(g.outcomes()),
{
}

/// Determinism law: steps of a deterministic body type repeat exactly.  Two
/// turns taken from equal body states with equal hand-in values agree in
/// everything observable: whether the hand-in was read, the body state
/// reached, and the outcome reported — so two drivers over equal fresh
/// bodies, stepped with equal inputs, report equal outcome histories, and
/// their bodies receive equal values.
pub proof fn lemma_deterministic_step<Y, R, F: Pollable<Y, R>>(
    pre: F,
    input: R,
    read1: bool,
    post1: F,
    o1: GeneratorState<Y, F::Output>,
    read2: bool,
    post2: F,
    o2: GeneratorState<Y, F::Output>,
)
    requires
        is_deterministic::<Y, R, F>(),
        F::transition(pre, input, read1, post1, o1),
        F::transition(pre, input, read2, post2, o2),
    ensures
        read1 == read2,
        post1 == post2,
        o1 == o2,
{
}

/// Emptiness law: between steps — that is, whenever the driver is
/// well-formed — the exchange cell holds nothing.
pub proof fn lemma_cell_empty_between_steps<Y, R, F: Pollable<Y, R>>(g: &Gen<Y, R, F>)
    requires
        g.wf(),
    ensures
        g.slot() is Empty,
{
}

} // verus!
