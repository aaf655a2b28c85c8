//! Headers: what a caller submits to advance a client.
//!
//! A Tendermint header carries a signed block header and two validator sets as the `tendermint`
//! crate holds them. Their insides are closed to proof, so this module reads from them the few
//! values that validation decides on and gives each reading a name that contracts can speak of.

use vstd::prelude::*;
use crate::consensus::{Digest, TendermintConsensusStateView, is_hash_len};
use crate::height::Height;
use crate::time::{Timestamp, in_time_range};

verus! {

/// `tendermint::block::signed_header::SignedHeader`: a block header with its commit. Opaque.
#[verifier::external_type_specification]
#[verifier::external_body]
pub struct ExSignedHeader(tendermint::block::signed_header::SignedHeader);

/// `tendermint::validator::Set`: an ordered list of validators with their voting powers. Opaque.
#[verifier::external_type_specification]
#[verifier::external_body]
pub struct ExValidatorSet(tendermint::validator::Set);

/// The fields of a signed block header that validation reads.
#[derive(Debug, PartialEq, Eq)]
pub struct BlockSummary {
    /// The identifier of the chain that produced the block.
    pub chain_id: String,
    /// The block's number within its revision.
    pub height: u64,
    /// The block's time.
    pub time: Timestamp,
    /// The application's state hash after the block.
    pub app_hash: Vec<u8>,
    /// The hash of the validator set that signs the next block.
    pub next_validators_hash: Digest,
}

/// A [`BlockSummary`] as a mathematical value.
pub struct BlockSummaryView {
    pub chain_id: Seq<char>,
    pub height: u64,
    pub time: Timestamp,
    pub app_hash: Seq<u8>,
    pub next_validators_hash: Seq<u8>,
}

impl View for BlockSummary {
    type V = BlockSummaryView;

    open spec fn view(&self) -> BlockSummaryView {
        BlockSummaryView {
            chain_id: self.chain_id@,
            height: self.height,
            time: self.time,
            app_hash: self.app_hash@,
            next_validators_hash: self.next_validators_hash@,
        }
    }
}

/// What [`read_block`] finds in a signed header.
pub uninterp spec fn block_summary(
    signed_header: tendermint::block::signed_header::SignedHeader,
) -> BlockSummaryView;

/// The revision number that `ibc::core::ics24_host::identifier::ChainId::chain_version` reads
/// from a chain identifier.
pub uninterp spec fn chain_revision(chain_id: Seq<char>) -> u64;

/// The voting powers of the validators of a set, in the set's order.
pub uninterp spec fn validator_powers(set: tendermint::validator::Set) -> Seq<u64>;

/// The Merkle hash that `tendermint::validator::Set::hash` computes over a set.
pub uninterp spec fn validator_set_hash(set: tendermint::validator::Set) -> Seq<u8>;

/// Reads the public fields `chain_id`, `height`, `time`, `app_hash` and `next_validators_hash`
/// of the header inside `signed_header`. Trusted: the result is a function of the signed header
/// alone, its time lies in the years 1 to 9999 (as `tendermint::Time` guarantees), and its hash
/// is empty or 32 bytes long (the two variants of `tendermint::Hash`).
#[verifier::external_body]
pub(crate) fn read_block(signed_header: &tendermint::block::signed_header::SignedHeader) -> (summary:
    BlockSummary)
    ensures
        summary@ == block_summary(*signed_header),
        in_time_range(summary.time.spec_seconds(), summary.time.spec_nanos()),
        is_hash_len(summary.next_validators_hash@.len()),
{
    let header = &signed_header.header;
    let time = tendermint_proto::google::protobuf::Timestamp::from(header.time);
    BlockSummary {
        chain_id: header.chain_id.as_str().to_string(),
        height: header.height.value(),
        time: Timestamp { seconds: time.seconds, nanos: time.nanos as u32 },
        app_hash: header.app_hash.value(),
        next_validators_hash: Digest { bytes: header.next_validators_hash.as_bytes().to_vec() },
    }
}

/// Calls `ibc::core::ics24_host::identifier::ChainId::chain_version`, which parses the revision
/// number that ends a chain identifier such as `cosmoshub-4`, and gives 0 where there is none.
/// Trusted: the result is a function of the text alone.
#[verifier::external_body]
pub(crate) fn read_chain_revision(chain_id: &str) -> (revision: u64)
    ensures
        revision == chain_revision(chain_id@),
{
    ibc::core::ics24_host::identifier::ChainId::chain_version(chain_id)
}

/// Hands out the voting power of each validator of `set`, through
/// `tendermint::validator::Set::validators` and `tendermint::validator::Info::power`.
/// Trusted: the result is a function of the set alone.
#[verifier::external_body]
pub(crate) fn read_validator_powers(set: &tendermint::validator::Set) -> (powers: Vec<u64>)
    ensures
        powers@ == validator_powers(*set),
{
    set.validators().iter().map(|validator| validator.power()).collect()
}

/// Calls `tendermint::validator::Set::hash`. Trusted: the result is a function of the set alone,
/// and it is a SHA-256 digest, 32 bytes long.
#[verifier::external_body]
pub(crate) fn hash_validator_set(set: &tendermint::validator::Set) -> (hash: Digest)
    ensures
        hash@ == validator_set_hash(*set),
        hash@.len() == 32,
{
    Digest { bytes: set.hash().as_bytes().to_vec() }
}

/// A header of a Tendermint chain, as a caller submits it: nothing in it is trusted yet.
pub struct TendermintHeader {
    /// The block header and the commit that signs it.
    pub signed_header: tendermint::block::signed_header::SignedHeader,
    /// The validator set that signed the header.
    pub validator_set: tendermint::validator::Set,
    /// The height of the consensus state that the header claims to extend.
    pub trusted_height: Height,
    /// The validator set that the consensus state at `trusted_height` committed to.
    pub trusted_validator_set: tendermint::validator::Set,
}

impl TendermintHeader {
    /// The fields of the signed block header.
    pub open spec fn block(&self) -> BlockSummaryView {
        block_summary(self.signed_header)
    }

    /// The height that the header claims: the revision that its chain identifier ends in, and
    /// its block number.
    pub open spec fn spec_height(&self) -> Height {
        Height {
            revision_number: chain_revision(self.block().chain_id),
            revision_height: self.block().height,
        }
    }

    /// The consensus state that accepting the header would record.
    pub open spec fn consensus_state(&self) -> TendermintConsensusStateView {
        TendermintConsensusStateView {
            timestamp: self.block().time,
            root: self.block().app_hash,
            next_validators_hash: self.block().next_validators_hash,
        }
    }

    /// The hash of the validator set that the header declares as trusted.
    pub open spec fn trusted_validators_hash(&self) -> Seq<u8> {
        validator_set_hash(self.trusted_validator_set)
    }

    #[verifier::when_used_as_spec(spec_height)]
    pub fn height(&self) -> (height: Height)
        ensures
            height == self.spec_height(),
    {
        let block = read_block(&self.signed_header);
        Height {
            revision_number: read_chain_revision(block.chain_id.as_str()),
            revision_height: block.height,
        }
    }
}

/// A header of a mock chain.
#[derive(Clone, Copy, Debug, PartialEq, Eq, Structural)]
pub struct MockHeader {
    pub height: Height,
    pub timestamp: Timestamp,
}

/// A header of a chain of any kind.
pub enum AnyHeader {
    Tendermint(TendermintHeader),
    Mock(MockHeader),
}

} // verus!
