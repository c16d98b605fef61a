//! A doubling counter: an unbounded power of two that grows by one exponent
//! per tick, with a modulus that says on which ticks the display should
//! refresh.
//!
//! * [`bigint`] gives contracts to the big-integer operations the counter uses.
//! * [`model`] is the mathematical model of the counter and the laws it obeys.
//! * [`counter`] is the executable counter, proved against the model.

pub mod bigint;
pub mod counter;
pub mod model;
