//! A heap-allocated, single-step-resumable coroutine.
//!
//! A coroutine is a computation that can pause at points chosen by its own
//! body, hand a value out to its caller at each pause, and later be resumed
//! with a value handed back in.  Three pieces collaborate:
//!
//! * the exchange cell ([`airlock`]): a single slot that carries exactly one
//!   value per turn between the driver and the body;
//! * the suspension handle ([`co`]): the object through which the body yields
//!   values out and receives resume arguments back;
//! * the driver ([`generator`]): owns the body and the cell, and advances the
//!   body by exactly one suspension point (or to completion) per step.
//!
//! The body is written as a pollable computation: an explicit state machine
//! implementing [`generator::Pollable`], advanced one turn per call.  The
//! driver and the body never run concurrently; they alternate turns of one
//! logical thread of control, handing values across through the cell.
//!
//! [`bodies`] holds a few ready-made bodies that exercise the protocol.

pub mod airlock;
pub mod bodies;
pub mod co;
pub mod generator;
