//! What the operations of the library are for, stated of their inputs and results.

pub mod bundling;
pub mod decoding;
pub mod functions;
pub mod listing;
pub mod operations;
pub mod preparing;
pub mod replaying;
pub mod reporting;
pub mod sequencing;
pub mod simulating;
pub mod values;
