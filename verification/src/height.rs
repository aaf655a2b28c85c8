//! Two-part positions on a chain.

use vstd::prelude::*;

verus! {

/// A position on a chain: the revision the chain is in, and the block number within it.
///
/// Heights are ordered by revision first and block number second.
#[derive(Clone, Copy, Debug, PartialEq, Eq, Hash, Structural)]
pub struct Height {
    pub revision_number: u64,
    pub revision_height: u64,
}

impl Height {
    /// `self` comes strictly before `other`.
    pub open spec fn spec_lt(self, other: Height) -> bool {
        self.revision_number < other.revision_number || (self.revision_number
            == other.revision_number && self.revision_height < other.revision_height)
    }

    /// `self` comes before `other` or is `other`.
    pub open spec fn spec_le(self, other: Height) -> bool {
        self.spec_lt(other) || self == other
    }

    /// The height with these two parts.
    pub fn new(revision_number: u64, revision_height: u64) -> (height: Height)
        ensures
            height.revision_number == revision_number,
            height.revision_height == revision_height,
    {
        Height { revision_number, revision_height }
    }

    #[verifier::when_used_as_spec(spec_lt)]
    pub fn lt(self, other: Height) -> (before: bool)
        ensures
            before == self.spec_lt(other),
    {
        self.revision_number < other.revision_number || (self.revision_number
            == other.revision_number && self.revision_height < other.revision_height)
    }

    #[verifier::when_used_as_spec(spec_le)]
    pub fn le(self, other: Height) -> (not_after: bool)
        ensures
            not_after == self.spec_le(other),
    {
        self.lt(other) || (self.revision_number == other.revision_number && self.revision_height
            == other.revision_height)
    }
}

/// Any two heights are comparable, and exactly one of "before", "same" and "after" holds.
pub proof fn law_height_order_is_total(a: Height, b: Height)
    ensures
        a.spec_lt(b) || a == b || b.spec_lt(a),
        !(a.spec_lt(b) && b.spec_lt(a)),
        !(a.spec_lt(b) && a == b),
        a.spec_le(b) <==> !b.spec_lt(a),
{
}

/// The order on heights is transitive.
pub proof fn law_height_order_is_transitive(a: Height, b: Height, c: Height)
    requires
        a.spec_le(b),
        b.spec_le(c),
    ensures
        a.spec_le(c),
        a.spec_lt(b) || b.spec_lt(c) ==> a.spec_lt(c),
{
}

} // verus!
