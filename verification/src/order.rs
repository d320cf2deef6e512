//! The order of the revisions: that of their deployment.

use crate::version::ZkSyncContractVersion;
use core::cmp::Ordering;
use vstd::prelude::*;
use vstd::std_specs::cmp::{PartialOrdSpec, PartialOrdSpecImpl};

verus! {

impl PartialOrdSpecImpl for ZkSyncContractVersion {
    open spec fn obeys_partial_cmp_spec() -> bool {
        true
    }

    /// Revisions compare as their wire values do.
    open spec fn partial_cmp_spec(&self, other: &Self) -> Option<Ordering> {
        if self.code() < other.code() {
            Some(Ordering::Less)
        } else if self.code() == other.code() {
            Some(Ordering::Equal)
        } else {
            Some(Ordering::Greater)
        }
    }
}

impl PartialOrd for ZkSyncContractVersion {
    /// Compares two revisions by their wire values; any two can be compared.
    fn partial_cmp(&self, other: &Self) -> (order: Option<Ordering>) {
        let left: i32 = i32::from(*self);
        let right: i32 = i32::from(*other);
        if left < right {
            Some(Ordering::Less)
        } else if left == right {
            Some(Ordering::Equal)
        } else {
            Some(Ordering::Greater)
        }
    }
}

/// Any two revisions can be compared; they compare as equal exactly when they
/// are the same revision, and one is behind the other exactly when the other
/// is ahead of it.
pub proof fn lemma_order_total(a: ZkSyncContractVersion, b: ZkSyncContractVersion)
    ensures
        PartialOrdSpec::partial_cmp_spec(&a, &b) is Some,
        PartialOrdSpec::partial_cmp_spec(&a, &b) == Some(Ordering::Equal) <==> a == b,
        PartialOrdSpec::partial_cmp_spec(&a, &b) == Some(Ordering::Less)
            <==> PartialOrdSpec::partial_cmp_spec(&b, &a) == Some(Ordering::Greater),
{
}

/// What is behind an earlier revision is behind every later one.
pub proof fn lemma_order_transitive(
    a: ZkSyncContractVersion,
    b: ZkSyncContractVersion,
    c: ZkSyncContractVersion,
)
    requires
        PartialOrdSpec::partial_cmp_spec(&a, &b) == Some(Ordering::Less),
        PartialOrdSpec::partial_cmp_spec(&b, &c) == Some(Ordering::Less),
    ensures
        PartialOrdSpec::partial_cmp_spec(&a, &c) == Some(Ordering::Less),
{
}

/// No revision is ahead of the latest.
pub proof fn lemma_latest_is_greatest(a: ZkSyncContractVersion)
    ensures
        PartialOrdSpec::partial_cmp_spec(&a, &ZkSyncContractVersion::V4) != Some(
            Ordering::Greater,
        ),
{
}

} // verus!
