//! Node identities.

use vstd::prelude::*;

verus! {

/// Identity of one node (one "chain" of the underlying platform).
///
/// The game rules only ever store identities and compare them for
/// equality, so a plain numeric key carries everything the logic reads;
/// the surrounding program maps the platform's real identifiers to these
/// keys and back.
#[derive(Clone, Copy, Debug, PartialEq, Eq, Structural)]
pub struct ChainId {
    pub value: u64,
}

impl ChainId {
    pub fn new(value: u64) -> (r: ChainId)
        ensures
            r.value == value,
    {
        ChainId { value }
    }
}

} // verus!
