//! The contract revisions and their integer wire values.

use crate::error::UnsupportedVersion;
use vstd::prelude::*;
use vstd::std_specs::convert::{FromSpecImpl, TryFromSpecImpl};

verus! {

/// A deployed revision of the rollup contract.
///
/// The revisions are numbered from zero without gaps, in the order of their
/// deployment; [`ZkSyncContractVersion::code`] is that number. A value of
/// this type always names one of them: the only way in from an integer is
/// `try_from`, which refuses every other number.
#[derive(Debug, Clone, Copy, PartialEq, Eq, Ord, Structural)]
pub enum ZkSyncContractVersion {
    V0,
    V1,
    V2,
    V3,
    V4,
}

impl ZkSyncContractVersion {
    /// The wire value of a revision: its position in the order of deployment.
    pub open spec fn code(self) -> int {
        match self {
            ZkSyncContractVersion::V0 => 0,
            ZkSyncContractVersion::V1 => 1,
            ZkSyncContractVersion::V2 => 2,
            ZkSyncContractVersion::V3 => 3,
            ZkSyncContractVersion::V4 => 4,
        }
    }

    /// The revision with the wire value `code`, if there is one.
    pub open spec fn from_code(code: int) -> Option<Self> {
        if code == 0 {
            Some(ZkSyncContractVersion::V0)
        } else if code == 1 {
            Some(ZkSyncContractVersion::V1)
        } else if code == 2 {
            Some(ZkSyncContractVersion::V2)
        } else if code == 3 {
            Some(ZkSyncContractVersion::V3)
        } else if code == 4 {
            Some(ZkSyncContractVersion::V4)
        } else {
            None
        }
    }

    /// Whether no later revision is known.
    pub open spec fn is_latest(self) -> bool {
        self == ZkSyncContractVersion::V4
    }

    /// The block chunk sizes that the verifier contract of a revision accepts,
    /// in ascending order.
    ///
    /// Every revision so far accepts the same sizes. The lookup still names
    /// each revision, so that a later one can be given sizes of its own.
    pub open spec fn block_chunk_sizes(self) -> Seq<usize> {
        match self {
            ZkSyncContractVersion::V0
            | ZkSyncContractVersion::V1
            | ZkSyncContractVersion::V2
            | ZkSyncContractVersion::V3
            | ZkSyncContractVersion::V4 => seq![10, 32, 72, 156, 322, 654],
        }
    }

    /// Increments the contract version by one.
    ///
    /// There is nothing after the latest revision, so the caller has to rule
    /// that one out before the call.
    pub fn upgrade(&mut self)
        requires
            !old(self).is_latest(),
        ensures
            final(self).code() == old(self).code() + 1,
    {
        let next: u32 = i32::from(*self) as u32 + 1;
        *self = Self::try_from(next).expect("cannot upgrade latest contract version");
    }

    /// Returns the block chunk sizes supported by the verifier contract of
    /// this revision.
    pub fn available_block_chunk_sizes(&self) -> (sizes: &'static [usize])
        ensures
            sizes@ == self.block_chunk_sizes(),
            sizes@ == seq![10usize, 32, 72, 156, 322, 654],
    {
        match self {
            ZkSyncContractVersion::V0
            | ZkSyncContractVersion::V1
            | ZkSyncContractVersion::V2
            | ZkSyncContractVersion::V3
            | ZkSyncContractVersion::V4 => &[10, 32, 72, 156, 322, 654],
        }
    }

    /// The wire values are exactly the numbers 0 to 4.
    pub proof fn lemma_code_in_range(self)
        ensures
            0 <= self.code() <= 4,
    {
    }

    /// Two revisions with the same wire value are the same revision.
    pub proof fn lemma_code_injective(self, other: Self)
        requires
            self.code() == other.code(),
        ensures
            self == other,
    {
    }

    /// Reading a number from 0 to 4 gives a revision, and writing that
    /// revision gives the number back.
    pub proof fn lemma_read_then_write(code: int)
        requires
            0 <= code <= 4,
        ensures
            Self::from_code(code) matches Some(version) && version.code() == code,
    {
    }

    /// Writing a revision and reading the number back gives the revision.
    pub proof fn lemma_write_then_read(self)
        ensures
            Self::from_code(self.code()) == Some(self),
    {
    }

    /// No number outside 0 to 4 names a revision.
    pub proof fn lemma_unsupported_code(code: int)
        requires
            code < 0 || code > 4,
        ensures
            Self::from_code(code) is None,
    {
    }

    /// The chunk sizes of every revision are strictly ascending, so no size
    /// occurs twice.
    pub proof fn lemma_block_chunk_sizes_ascending(self, i: int, j: int)
        requires
            0 <= i < j < self.block_chunk_sizes().len(),
        ensures
            self.block_chunk_sizes()[i] < self.block_chunk_sizes()[j],
    {
    }
}

impl TryFromSpecImpl<u32> for ZkSyncContractVersion {
    open spec fn obeys_try_from_spec() -> bool {
        true
    }

    open spec fn try_from_spec(value: u32) -> Result<Self, UnsupportedVersion> {
        match Self::from_code(value as int) {
            Some(version) => Ok(version),
            None => Err(UnsupportedVersion { value }),
        }
    }
}

impl TryFrom<u32> for ZkSyncContractVersion {
    type Error = UnsupportedVersion;

    /// Reads a wire value. It is accepted if and only if it is one of 0 to 4;
    /// any other is refused, and the refusal carries it.
    fn try_from(value: u32) -> (result: Result<Self, UnsupportedVersion>)
        ensures
            result is Ok <==> value <= 4,
            result matches Ok(version) ==> Self::from_code(value as int) == Some(version)
                && version.code() == value,
            result matches Err(refused) ==> refused == (UnsupportedVersion { value }),
    {
        match value {
            0 => Ok(ZkSyncContractVersion::V0),
            1 => Ok(ZkSyncContractVersion::V1),
            2 => Ok(ZkSyncContractVersion::V2),
            3 => Ok(ZkSyncContractVersion::V3),
            4 => Ok(ZkSyncContractVersion::V4),
            _ => Err(UnsupportedVersion { value }),
        }
    }
}

impl FromSpecImpl<ZkSyncContractVersion> for i32 {
    open spec fn obeys_from_spec() -> bool {
        true
    }

    open spec fn from_spec(val: ZkSyncContractVersion) -> i32 {
        val.code() as i32
    }
}

impl From<ZkSyncContractVersion> for i32 {
    /// Writes the wire value of a revision.
    fn from(val: ZkSyncContractVersion) -> (code: i32)
        ensures
            code == val.code(),
    {
        match val {
            ZkSyncContractVersion::V0 => 0,
            ZkSyncContractVersion::V1 => 1,
            ZkSyncContractVersion::V2 => 2,
            ZkSyncContractVersion::V3 => 3,
            ZkSyncContractVersion::V4 => 4,
        }
    }
}

} // verus!
