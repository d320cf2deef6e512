//! What can go wrong: an integer that names no revision, and a payload that
//! the codec of its revision cannot read.

use vstd::prelude::*;

verus! {

/// An integer that is not the wire value of any known contract revision.
#[derive(Debug, Clone, Copy, PartialEq, Eq, Structural)]
pub struct UnsupportedVersion {
    /// The integer that was offered.
    pub value: u32,
}

/// A payload that does not have the layout its revision's codec expects.
#[derive(Debug, Clone, PartialEq, Eq)]
pub struct MalformedPayload<E> {
    /// The codec's own account of the failure, exactly as the codec gave it.
    pub details: E,
}

} // verus!
