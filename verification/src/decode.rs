//! The dispatcher: from a revision and a payload to tagged blocks.
//!
//! The codecs themselves live elsewhere and are handed in by the caller. What
//! is decided here is which of them reads a payload, and what becomes of the
//! outcome.

use crate::error::MalformedPayload;
use crate::rollup_ops::RollupOpsBlock;
use crate::version::ZkSyncContractVersion;
use vstd::prelude::*;

verus! {

/// The byte layouts in which the contract has written its blocks.
#[derive(Debug, Clone, Copy, PartialEq, Eq, Structural)]
pub enum Codec {
    /// The layout of the early revisions: one payload holds one block.
    Default,
    /// The layout that came with revision 4: one payload holds any number of
    /// blocks.
    V4,
}

/// The outcome of the default codec as a sequence of blocks: the one block it
/// read, or its error.
pub open spec fn single_outcome<T, E>(decoded: Result<RollupOpsBlock<T>, E>) -> Result<
    Seq<RollupOpsBlock<T>>,
    E,
> {
    match decoded {
        Ok(block) => Ok(seq![block]),
        Err(details) => Err(details),
    }
}

/// The outcome of a codec that reads several blocks, with the blocks as a
/// sequence.
pub open spec fn outcome_view<T, E>(decoded: Result<Vec<RollupOpsBlock<T>>, E>) -> Result<
    Seq<RollupOpsBlock<T>>,
    E,
> {
    match decoded {
        Ok(blocks) => Ok(blocks@),
        Err(details) => Err(details),
    }
}

impl ZkSyncContractVersion {
    /// The codec that reads the payloads of a revision.
    pub open spec fn codec_of(self) -> Codec {
        match self {
            ZkSyncContractVersion::V0
            | ZkSyncContractVersion::V1
            | ZkSyncContractVersion::V2
            | ZkSyncContractVersion::V3 => Codec::Default,
            ZkSyncContractVersion::V4 => Codec::V4,
        }
    }

    /// `blocks`, each tagged with this revision, in the same order.
    pub open spec fn tagged_blocks<T>(self, blocks: Seq<RollupOpsBlock<T>>) -> Seq<
        RollupOpsBlock<T>,
    > {
        Seq::new(blocks.len(), |i: int| blocks[i].tagged(self))
    }

    /// What the dispatcher owes for the outcome `decoded` of the selected
    /// codec: every block tagged and nothing else changed, or the codec's
    /// error as it came.
    pub open spec fn stamped<T, E>(self, decoded: Result<Seq<RollupOpsBlock<T>>, E>) -> Result<
        Seq<RollupOpsBlock<T>>,
        MalformedPayload<E>,
    > {
        match decoded {
            Ok(blocks) => Ok(self.tagged_blocks(blocks)),
            Err(details) => Err(MalformedPayload { details }),
        }
    }

    /// Tagging keeps the number of blocks, their order and their content, and
    /// leaves every block with this revision as its tag.
    pub proof fn lemma_tagged_blocks<T>(self, blocks: Seq<RollupOpsBlock<T>>, i: int)
        requires
            0 <= i < blocks.len(),
        ensures
            self.tagged_blocks(blocks).len() == blocks.len(),
            self.tagged_blocks(blocks)[i].content == blocks[i].content,
            self.tagged_blocks(blocks)[i].contract_version == Some(self),
    {
    }

    /// A decode succeeds exactly when the codec did, with as many blocks as
    /// the codec produced; when the codec failed, its error comes back as it
    /// was and no block does.
    pub proof fn lemma_stamped_all_or_nothing<T, E>(
        self,
        decoded: Result<Seq<RollupOpsBlock<T>>, E>,
    )
        ensures
            self.stamped(decoded) is Ok <==> decoded is Ok,
            decoded matches Ok(blocks) ==> self.stamped(decoded)->Ok_0.len() == blocks.len(),
            decoded matches Err(details) ==> self.stamped(decoded)->Err_0.details == details,
    {
    }

    /// Selects the codec for the payloads of this revision.
    pub fn codec(&self) -> (codec: Codec)
        ensures
            codec == self.codec_of(),
    {
        match self {
            ZkSyncContractVersion::V0
            | ZkSyncContractVersion::V1
            | ZkSyncContractVersion::V2
            | ZkSyncContractVersion::V3 => Codec::Default,
            ZkSyncContractVersion::V4 => Codec::V4,
        }
    }

    /// Finishes a decode under a revision whose codec reads several blocks:
    /// tags every block that the codec produced with this revision, or passes
    /// the codec's error on.
    pub fn stamp_all<T, E>(&self, decoded: Result<Vec<RollupOpsBlock<T>>, E>) -> (result: Result<
        Vec<RollupOpsBlock<T>>,
        MalformedPayload<E>,
    >)
        ensures
            outcome_view(result) == self.stamped(outcome_view(decoded)),
    {
        match decoded {
            Ok(mut blocks) => {
                let ghost decoded_blocks = blocks@;
                let mut i: usize = 0;
                while i < blocks.len()
                    invariant
                        i <= blocks.len(),
                        blocks.len() == decoded_blocks.len(),
                        forall|j: int| 0 <= j < i ==> blocks[j] == decoded_blocks[j].tagged(*self),
                        forall|j: int| i <= j < blocks.len() ==> blocks[j] == decoded_blocks[j],
                    decreases blocks.len() - i,
                {
                    blocks[i].contract_version = Some(*self);
                    i += 1;
                }
                assert(blocks@ =~= self.tagged_blocks(decoded_blocks));
                Ok(blocks)
            },
            Err(details) => Err(MalformedPayload { details }),
        }
    }

    /// Finishes a decode under a revision whose codec reads one block: returns
    /// that block alone, tagged with this revision, or passes the codec's
    /// error on.
    pub fn stamp_one<T, E>(&self, decoded: Result<RollupOpsBlock<T>, E>) -> (result: Result<
        Vec<RollupOpsBlock<T>>,
        MalformedPayload<E>,
    >)
        ensures
            outcome_view(result) == self.stamped(single_outcome(decoded)),
    {
        let blocks = match decoded {
            Ok(block) => Ok(vec![block]),
            Err(details) => Err(details),
        };
        assert(outcome_view(blocks) == single_outcome(decoded)) by {
            if let Ok(block) = decoded {
                assert(blocks->Ok_0@ =~= seq![block]);
            }
        }
        self.stamp_all(blocks)
    }

    /// Decodes the blocks of rollup operations in `data`, the calldata of a
    /// transaction sent to the contract at this revision.
    ///
    /// Revisions 0 to 3 read `data` with `default_codec`, which yields one
    /// block; revision 4 reads it with `v4_codec`, which yields any number.
    /// Every block comes back tagged with this revision, in the order the
    /// codec produced it. If the codec fails, so does the decode, with the
    /// codec's error and no blocks.
    ///
    /// Only the codec of this revision has to accept `data`; the other one is
    /// not run.
    pub fn rollup_ops_blocks_from_bytes<T, E, D, L>(
        &self,
        data: Vec<u8>,
        default_codec: D,
        v4_codec: L,
    ) -> (result: Result<Vec<RollupOpsBlock<T>>, MalformedPayload<E>>) where
        D: FnOnce(Vec<u8>) -> Result<RollupOpsBlock<T>, E>,
        L: FnOnce(Vec<u8>) -> Result<Vec<RollupOpsBlock<T>>, E>,

        requires
            self.codec_of() == Codec::Default ==> default_codec.requires((data,)),
            self.codec_of() == Codec::V4 ==> v4_codec.requires((data,)),
        ensures
            self.codec_of() == Codec::Default ==> exists|decoded: Result<RollupOpsBlock<T>, E>|
                {
                    &&& #[trigger] default_codec.ensures((data,), decoded)
                    &&& outcome_view(result) == self.stamped(single_outcome(decoded))
                },
            self.codec_of() == Codec::V4 ==> exists|decoded: Result<Vec<RollupOpsBlock<T>>, E>|
                {
                    &&& #[trigger] v4_codec.ensures((data,), decoded)
                    &&& outcome_view(result) == self.stamped(outcome_view(decoded))
                },
            self.codec_of() == Codec::Default ==> (result matches Ok(blocks) ==> blocks.len() == 1),
            result matches Ok(blocks) ==> forall|i: int|
                0 <= i < blocks.len() ==> (#[trigger] blocks[i]).contract_version == Some(*self),
    {
        match self.codec() {
            Codec::Default => self.stamp_one(default_codec(data)),
            Codec::V4 => self.stamp_all(v4_codec(data)),
        }
    }
}

} // verus!
