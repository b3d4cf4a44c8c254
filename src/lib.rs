//! Planning, executing and collecting a batch of independent ledger transfers.
//!
//! A batch pairs sender secrets with recipient addresses, drops pairs whose
//! recipient does not parse, runs one transfer per remaining pair and gathers
//! exactly one outcome per transfer.

pub mod keys;
pub mod dispatch;
pub mod executor;
pub mod results;
