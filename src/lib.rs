//! Decision logic of an interactive front-end to an embedded script evaluator:
//! joining typed lines into submissions, the session state machine that reacts
//! to lines and evaluation outcomes, rendering of results, and the choice of
//! run mode from command-line flags.

pub mod buffer;
pub mod launch;
pub mod laws;
pub mod outcome;
pub mod session;
pub mod text;
