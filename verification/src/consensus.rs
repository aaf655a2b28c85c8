//! Consensus states: what a client keeps of each block it has verified.

use vstd::prelude::*;
use crate::time::Timestamp;

verus! {

/// Whether two byte strings hold the same bytes.
pub fn same_bytes(left: &Vec<u8>, right: &Vec<u8>) -> (same: bool)
    ensures
        same == (left@ == right@),
{
    if left.len() != right.len() {
        return false;
    }
    let mut i: usize = 0;
    while i < left.len()
        invariant
            i <= left.len(),
            left.len() == right.len(),
            forall|j: int| 0 <= j < i ==> left@[j] == right@[j],
        decreases left.len() - i,
    {
        if left[i] != right[i] {
            return false;
        }
        i += 1;
    }
    assert(left@ =~= right@);
    true
}

/// A copy of a byte string.
pub fn copy_bytes(bytes: &Vec<u8>) -> (copy: Vec<u8>)
    ensures
        copy@ == bytes@,
{
    let mut copy: Vec<u8> = Vec::new();
    let mut i: usize = 0;
    while i < bytes.len()
        invariant
            i <= bytes.len(),
            copy@ == bytes@.take(i as int),
        decreases bytes.len() - i,
    {
        copy.push(bytes[i]);
        assert(bytes@.take(i + 1) =~= bytes@.take(i as int).push(bytes@[i as int]));
        i += 1;
    }
    assert(bytes@.take(bytes.len() as int) =~= bytes@);
    copy
}

/// The length of a SHA-256 digest in bytes.
pub const SHA256_LEN: usize = 32;

/// A SHA-256 digest, or the empty hash of a field that was left out.
#[derive(Debug, PartialEq, Eq)]
pub struct Digest {
    pub(crate) bytes: Vec<u8>,
}

impl View for Digest {
    type V = Seq<u8>;

    closed spec fn view(&self) -> Seq<u8> {
        self.bytes@
    }
}

/// Whether `bytes` can be the bytes of a [`Digest`]: none at all, or a whole digest.
pub open spec fn is_hash_len(len: nat) -> bool {
    len == 0 || len == SHA256_LEN
}

impl Digest {
    #[verifier::type_invariant]
    pub closed spec fn well_formed(self) -> bool {
        is_hash_len(self.bytes@.len())
    }

    /// The hash with these bytes, if they are none or thirty-two.
    pub fn from_bytes(bytes: Vec<u8>) -> (hash: Option<Digest>)
        ensures
            hash is Some <==> is_hash_len(bytes@.len()),
            hash matches Some(h) ==> h@ == bytes@,
    {
        if bytes.len() == 0 || bytes.len() == SHA256_LEN {
            Some(Digest { bytes })
        } else {
            None
        }
    }

    /// The bytes of the hash.
    pub fn as_bytes(&self) -> (bytes: &Vec<u8>)
        ensures
            bytes@ == self@,
            is_hash_len(bytes@.len()),
    {
        proof {
            use_type_invariant(self);
        }
        &self.bytes
    }

    /// Whether the two hashes hold the same bytes.
    pub fn same_as(&self, other: &Digest) -> (same: bool)
        ensures
            same == (self@ == other@),
    {
        same_bytes(&self.bytes, &other.bytes)
    }

}

impl Clone for Digest {
    fn clone(&self) -> (copy: Self)
        ensures
            copy@ == self@,
    {
        proof {
            use_type_invariant(self);
        }
        Digest { bytes: copy_bytes(&self.bytes) }
    }
}

/// What a Tendermint client keeps of one verified block.
#[derive(Debug, PartialEq, Eq)]
pub struct TendermintConsensusState {
    /// The block's time.
    pub timestamp: Timestamp,
    /// The commitment root: the application's state hash after the block.
    pub root: Vec<u8>,
    /// The hash of the validator set that signs the next block.
    pub next_validators_hash: Digest,
}

/// A [`TendermintConsensusState`] as a mathematical value.
pub struct TendermintConsensusStateView {
    pub timestamp: Timestamp,
    pub root: Seq<u8>,
    pub next_validators_hash: Seq<u8>,
}

impl View for TendermintConsensusState {
    type V = TendermintConsensusStateView;

    open spec fn view(&self) -> TendermintConsensusStateView {
        TendermintConsensusStateView {
            timestamp: self.timestamp,
            root: self.root@,
            next_validators_hash: self.next_validators_hash@,
        }
    }
}

impl TendermintConsensusState {
    /// Whether the two states agree in every field, byte for byte.
    pub fn same_as(&self, other: &TendermintConsensusState) -> (same: bool)
        ensures
            same == (self@ == other@),
    {
        self.timestamp == other.timestamp && same_bytes(&self.root, &other.root)
            && self.next_validators_hash.same_as(&other.next_validators_hash)
    }
}

impl Clone for TendermintConsensusState {
    fn clone(&self) -> (copy: Self)
        ensures
            copy@ == self@,
    {
        TendermintConsensusState {
            timestamp: self.timestamp,
            root: copy_bytes(&self.root),
            next_validators_hash: self.next_validators_hash.clone(),
        }
    }
}

/// What a mock client keeps of one block.
#[derive(Clone, Copy, Debug, PartialEq, Eq, Structural)]
pub struct MockConsensusState {
    pub timestamp: Timestamp,
}

/// A consensus state of a client of any kind.
#[derive(Debug, PartialEq, Eq)]
pub enum AnyConsensusState {
    Tendermint(TendermintConsensusState),
    Mock(MockConsensusState),
}

/// An [`AnyConsensusState`] as a mathematical value.
pub enum AnyConsensusStateView {
    Tendermint(TendermintConsensusStateView),
    Mock(MockConsensusState),
}

impl View for AnyConsensusState {
    type V = AnyConsensusStateView;

    open spec fn view(&self) -> AnyConsensusStateView {
        match self {
            AnyConsensusState::Tendermint(state) => AnyConsensusStateView::Tendermint(state@),
            AnyConsensusState::Mock(state) => AnyConsensusStateView::Mock(*state),
        }
    }
}

impl Clone for AnyConsensusState {
    fn clone(&self) -> (copy: Self)
        ensures
            copy@ == self@,
    {
        match self {
            AnyConsensusState::Tendermint(state) => AnyConsensusState::Tendermint(state.clone()),
            AnyConsensusState::Mock(state) => AnyConsensusState::Mock(*state),
        }
    }
}

} // verus!
