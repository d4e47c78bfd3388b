//! A freestanding greeting program, as a verified library: what the entry
//! point writes and returns, and what the fatal-error handler decides.
//! The program around it performs the write, the exit and the idle loop.

pub mod entry;
pub mod fault;

pub use entry::{entry, greeting, Outcome};
pub use fault::{my_panic, step, Action, Event, State, Transition};
