//! Concurrency primitives for state machines driven by an event loop:
//! a periodic ticker, a one-shot value handoff, and a guarded machine.
pub mod time;
pub mod timer;
pub mod future;
pub mod machine;
pub mod sync;
