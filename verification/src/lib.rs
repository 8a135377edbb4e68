//! A small bytecode virtual machine that validates a candidate secret key,
//! together with the search heuristic that refines a candidate from the
//! feedback of failed runs.
//!
//! The machine executes a caller-supplied byte buffer (the "tape") that serves
//! both as the instruction stream and as a value stack.  `engine` holds the
//! machine itself; `driver` holds the per-position search heuristic.

pub mod driver;
pub mod engine;
