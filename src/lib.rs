//! Concurrent batch download core: the shared rate-limit governor, the
//! per-track retry state machine, the segmented-transfer assembler, the
//! output naming rules and the outcome summary.

pub mod governor;
pub mod error;
pub mod task;
pub mod manifest;
pub mod assembler;
pub mod naming;
pub mod summary;
pub mod input;
pub mod cli;
pub mod batch;
