//! Candidate production for a collator of a child chain.
//!
//! The library holds the decisions of the pipeline; the outside services it drives
//! (block status, proposer, importer, state, announcement) answer through events.
pub mod collator;
pub mod extract;
pub mod inherents;
pub mod laws;
pub mod scale;
pub mod status;

pub use status::{check_block_status, BlockStatus};
