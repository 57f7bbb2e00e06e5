//! A single-tape Turing machine, proved against a mathematical model.
//!
//! - `tape`: the sparse tape and the range of positions that the trace shows.
//! - `rule`: read patterns, write actions, movements and transitions.
//! - `machine`: the model of a run, and the machine that follows it step by
//!   step.
//! - `laws`: what holds of every machine.
//! - `trace`: how a machine is shown before each step.
//! - `loader`: the textual definition format.
//! - `number`, `scan`, `text`: decimal integers, the fields of a rule line,
//!   and helpers on characters.

pub mod laws;
pub mod loader;
pub mod machine;
pub mod number;
pub mod rule;
pub mod scan;
pub mod tape;
pub mod text;
pub mod trace;
