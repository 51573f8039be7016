//! The handlers of the four operations, each on the records it was handed.

pub mod close;
pub mod create;
pub mod vote;
