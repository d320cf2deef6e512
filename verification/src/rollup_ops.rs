//! The block of rollup operations that a codec reads from a payload.

use crate::version::ZkSyncContractVersion;
use vstd::prelude::*;

verus! {

/// One decoded batch of rollup operations.
///
/// What a batch holds is the business of the codec that reads it, so the
/// block is generic in its content. The dispatcher touches the revision tag
/// and nothing else.
#[derive(Debug, Clone, PartialEq, Eq)]
pub struct RollupOpsBlock<T> {
    /// What the codec read from the payload.
    pub content: T,
    /// The contract revision under which the block was decoded; a codec
    /// leaves it unset.
    pub contract_version: Option<ZkSyncContractVersion>,
}

impl<T> RollupOpsBlock<T> {
    /// The same block, tagged with `version`.
    pub open spec fn tagged(self, version: ZkSyncContractVersion) -> Self {
        RollupOpsBlock { content: self.content, contract_version: Some(version) }
    }
}

} // verus!
