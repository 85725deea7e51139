//! Verified core of a small fire-control firmware: a fixed-capacity FIFO
//! event queue driven by monotonic counters, a declarative state-machine
//! compiler that turns a table of named transitions into a checked
//! transition-set table, and the fire-control machine itself with its
//! event-dispatch algorithm and per-state/per-event hooks.

pub mod compiler;
pub mod fsm;
pub mod print;
pub mod queue;
