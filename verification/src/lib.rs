//! Versioned decoding of a rollup contract's operation data.
//!
//! A rollup contract is redeployed over time, and each revision may lay out the
//! operations of a block differently in transaction calldata. This crate holds
//! the closed set of revisions, the step from one revision to the next, the
//! block chunk sizes a revision accepts, and the dispatcher that hands a
//! payload to the codec of its revision and stamps every decoded block with
//! that revision.

pub mod decode;
pub mod error;
pub mod order;
pub mod rollup_ops;
pub mod version;

pub use decode::Codec;
pub use error::{MalformedPayload, UnsupportedVersion};
pub use rollup_ops::RollupOpsBlock;
pub use version::ZkSyncContractVersion;
