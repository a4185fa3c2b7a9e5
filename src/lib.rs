//! A log sink that renders each record as an aligned terminal line and ships
//! the same line to a remote log stream guarded by a write token.
//!
//! - `format`: level labels, tag padding and the widest-tag state.
//! - `retry`: capped exponential backoff decisions.
//! - `ship`: the describe-then-append sequence for one record, as a state machine.
//! - `facade`: the entry point that ties formatting and shipping together.

pub mod facade;
pub mod format;
pub mod retry;
pub mod ship;
