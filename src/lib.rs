//! A harness that runs caller-supplied script code after a fixed prelude,
//! in a fresh variable scope, and reads back the variable `output`.

pub mod script;
pub mod outcome;
pub mod engine;
pub mod harness;
