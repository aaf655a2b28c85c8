//! Whether a header may advance a client.
//!
//! The checks run in a fixed order and the first that fails decides the rejection. The order is
//! written down once, as [`update_outcome`], and the executable validation is proved to return
//! exactly what it says.

use vstd::prelude::*;
use crate::client::{AnyClientState, ClientData, ClientId, TendermintClientState};
use crate::consensus::{
    AnyConsensusState,
    AnyConsensusStateView,
    TendermintConsensusState,
    TendermintConsensusStateView,
};
use crate::error::{Error, ErrorView, InvalidHeaderDetail, InvalidHeaderDetailView, Outcome,
    outcome_of};
use crate::header::{AnyHeader, TendermintHeader, hash_validator_set, read_block};
use crate::msgs::MsgUpdateAnyClient;
use crate::store::ClientStore;
use crate::time::Timestamp;
use crate::verification::{
    as_light_client_options,
    check_voting_power,
    header_verdict,
    interpret_verdict,
    light_client_options,
    run_verifier,
    to_verifier_options,
    verdict_outcome,
    voting_power_in_range,
};

verus! {

/// A frozen client takes no updates.
pub open spec fn frozen_outcome(client: ClientData) -> Outcome {
    if client.client_state.spec_is_frozen() {
        Err(ErrorView::Frozen)
    } else {
        Ok(())
    }
}

/// Whether the client's newest consensus state can still be extended at the store's block time.
///
/// It must be stored and be a Tendermint state, and the client is expired exactly when more
/// than the trusting period has passed since the state's time. A state whose time lies after
/// the block time has not expired.
pub open spec fn expiry_outcome<S: ClientStore>(store: &S, client: ClientData) -> Outcome {
    match store.consensus_state(client.client_id, client.client_state.spec_latest_height()) {
        None => Err(ErrorView::MissingTrustedAnchor),
        Some(AnyConsensusStateView::Mock(_)) => Err(ErrorView::TypeMismatch),
        Some(AnyConsensusStateView::Tendermint(latest)) => {
            let elapsed = store.block_timestamp().unix_nanos() - latest.timestamp.unix_nanos();
            if client.client_state.expires_after(elapsed) {
                Err(ErrorView::Expired)
            } else {
                Ok(())
            }
        },
    }
}

/// Whether the consensus state that `header` leads to is already stored at the header's height:
/// `Ok(true)` if the stored state is the same in every byte, `Ok(false)` if none is stored or
/// another one is, and a rejection if what is stored is not a Tendermint state.
pub open spec fn committed_outcome<S: ClientStore>(
    store: &S,
    client_id: ClientId,
    header: TendermintHeader,
) -> Result<bool, ErrorView> {
    match store.consensus_state(client_id, header.spec_height()) {
        None => Ok(false),
        Some(AnyConsensusStateView::Mock(_)) => Err(ErrorView::TypeMismatch),
        Some(AnyConsensusStateView::Tendermint(stored)) => Ok(stored == header.consensus_state()),
    }
}

/// The header must be of the revision that the client follows.
pub open spec fn revision_outcome(
    client_state: TendermintClientState,
    header: TendermintHeader,
) -> Outcome {
    if header.spec_height().revision_number != client_state.chain_id.version {
        Err(ErrorView::RevisionMismatch)
    } else {
        Ok(())
    }
}

/// The header must lie strictly above the height that it claims to extend.
pub open spec fn height_outcome(header: TendermintHeader) -> Outcome {
    if header.spec_height().spec_le(header.trusted_height) {
        Err(ErrorView::HeightNotMonotonic)
    } else {
        Ok(())
    }
}

/// The header's trusted validator set must hash to what the trusted consensus state recorded
/// as the hash of the next validators.
pub open spec fn validator_set_outcome(
    header: TendermintHeader,
    anchor: TendermintConsensusStateView,
) -> Outcome {
    if header.trusted_validators_hash() != anchor.next_validators_hash {
        Err(ErrorView::ValidatorSetHashMismatch)
    } else {
        Ok(())
    }
}

/// The last steps of an update's validation, from the trusted consensus state on: the trusted
/// validator set must match, then the header must be one that the verifier can be asked about
/// (a trusted block number that has a successor, a trust threshold that the verifier accepts,
/// voting power that it can count), and then the verifier decides.
pub open spec fn anchored_outcome(
    client_state: TendermintClientState,
    header: TendermintHeader,
    anchor: TendermintConsensusStateView,
    now: Timestamp,
) -> Outcome {
    if validator_set_outcome(header, anchor) is Err {
        validator_set_outcome(header, anchor)
    } else if header.trusted_height.revision_height >= i64::MAX {
        Err(ErrorView::InvalidHeader(InvalidHeaderDetailView::TrustedHeightOutOfRange))
    } else if !client_state.trust_level.spec_is_valid() {
        Err(ErrorView::InvalidHeader(InvalidHeaderDetailView::TrustThresholdOutOfRange))
    } else if !voting_power_in_range(header, client_state.trust_level) {
        Err(ErrorView::InvalidHeader(InvalidHeaderDetailView::VotingPowerOutOfRange))
    } else {
        verdict_outcome(
            header_verdict(
                header,
                anchor.timestamp,
                anchor.next_validators_hash,
                light_client_options(client_state),
                now,
            ),
        )
    }
}

/// The validation of a Tendermint header for a Tendermint client that is present, not frozen and
/// not expired.
pub open spec fn tendermint_outcome<S: ClientStore>(
    store: &S,
    client_id: ClientId,
    client_state: TendermintClientState,
    header: TendermintHeader,
) -> Outcome {
    match committed_outcome(store, client_id, header) {
        Err(error) => Err(error),
        Ok(true) => Err(ErrorView::AlreadyCommitted),
        Ok(false) => if revision_outcome(client_state, header) is Err {
            revision_outcome(client_state, header)
        } else if height_outcome(header) is Err {
            height_outcome(header)
        } else {
            match store.consensus_state(client_id, header.trusted_height) {
                None => Err(ErrorView::MissingTrustedAnchor),
                Some(AnyConsensusStateView::Mock(_)) => Err(ErrorView::TypeMismatch),
                Some(AnyConsensusStateView::Tendermint(anchor)) => anchored_outcome(
                    client_state,
                    header,
                    anchor,
                    store.block_timestamp(),
                ),
            }
        },
    }
}

/// What the validation of an update returns: the first of the checks that fails, in this order,
/// or acceptance.
///
/// 1. The client must exist.
/// 2. It must not be frozen.
/// 3. Its newest consensus state must not have expired.
/// 4. The client and the header must both be of the Tendermint kind.
/// 5. The update must not be stored already.
/// 6. The header's revision must be the client's.
/// 7. The header's height must lie above its trusted height.
/// 8. A Tendermint consensus state must be stored at the trusted height.
/// 9. The header's trusted validator set must hash to what that state recorded.
/// 10. The header must be one that the verifier can be asked about, and the verifier must
///     accept it.
pub open spec fn update_outcome<S: ClientStore>(store: &S, msg: &MsgUpdateAnyClient) -> Outcome {
    match store.client(msg.client_id) {
        None => Err(ErrorView::NotFound),
        Some(client) => if frozen_outcome(client) is Err {
            frozen_outcome(client)
        } else if expiry_outcome(store, client) is Err {
            expiry_outcome(store, client)
        } else {
            match (client.client_state, msg.header) {
                (
                    AnyClientState::Tendermint(client_state),
                    AnyHeader::Tendermint(header),
                ) => tendermint_outcome(store, client.client_id, client_state, header),
                _ => Err(ErrorView::TypeMismatch),
            }
        },
    }
}

/// Rejects an update for a frozen client.
pub fn client_is_not_frozen(client: &ClientData) -> (result: Result<(), Error>)
    ensures
        outcome_of(result) == frozen_outcome(*client),
{
    if client.client_state.is_frozen() {
        Err(Error::Frozen)
    } else {
        Ok(())
    }
}

/// Rejects a header whose revision number is not the one that the client follows.
pub fn header_revision_matches_client_state(
    trusted_client_state: &TendermintClientState,
    untrusted_header: &TendermintHeader,
) -> (result: Result<(), Error>)
    ensures
        outcome_of(result) == revision_outcome(*trusted_client_state, *untrusted_header),
{
    if untrusted_header.height().revision_number != trusted_client_state.chain_id.version() {
        Err(Error::RevisionMismatch)
    } else {
        Ok(())
    }
}

/// Rejects a header whose height is not strictly above the height that it claims to extend.
pub fn header_height_is_consistent(untrusted_header: &TendermintHeader) -> (result: Result<
    (),
    Error,
>)
    ensures
        outcome_of(result) == height_outcome(*untrusted_header),
{
    if untrusted_header.height().le(untrusted_header.trusted_height) {
        Err(Error::HeightNotMonotonic)
    } else {
        Ok(())
    }
}

/// Rejects a header whose trusted validator set does not hash to the next-validators hash of
/// the consensus state that it extends; otherwise hands out that validator set.
pub fn verify_header_validator_set<'h>(
    untrusted_header: &'h TendermintHeader,
    last_trusted_consensus_state: &TendermintConsensusState,
) -> (result: Result<&'h tendermint::validator::Set, Error>)
    ensures
        match result {
            Ok(set) => validator_set_outcome(*untrusted_header, last_trusted_consensus_state@)
                is Ok && *set == untrusted_header.trusted_validator_set,
            Err(error) => validator_set_outcome(*untrusted_header, last_trusted_consensus_state@)
                == Err::<(), ErrorView>(error@),
        },
{
    let hash = hash_validator_set(&untrusted_header.trusted_validator_set);
    if !hash.same_as(&last_trusted_consensus_state.next_validators_hash) {
        Err(Error::ValidatorSetHashMismatch)
    } else {
        Ok(&untrusted_header.trusted_validator_set)
    }
}

/// The consensus state that accepting `header` would record.
pub fn consensus_state_of(header: &TendermintHeader) -> (state: TendermintConsensusState)
    ensures
        state@ == header.consensus_state(),
{
    let block = read_block(&header.signed_header);
    TendermintConsensusState {
        timestamp: block.time,
        root: block.app_hash,
        next_validators_hash: block.next_validators_hash,
    }
}

/// The validator-set check and the verifier's decision, for a header whose trusted consensus
/// state has been found.
pub fn verify_against_anchor(
    client_state: &TendermintClientState,
    header: &TendermintHeader,
    anchor: &TendermintConsensusState,
    now: &Timestamp,
) -> (result: Result<(), Error>)
    ensures
        outcome_of(result) == anchored_outcome(*client_state, *header, anchor@, *now),
{
    match verify_header_validator_set(header, anchor) {
        Err(error) => {
            return Err(error);
        },
        Ok(_) => {},
    }
    if header.trusted_height.revision_height >= i64::MAX as u64 {
        return Err(Error::InvalidHeader(InvalidHeaderDetail::TrustedHeightOutOfRange));
    }
    let options = as_light_client_options(client_state);
    if !options.trust_threshold.is_valid() {
        return Err(Error::InvalidHeader(InvalidHeaderDetail::TrustThresholdOutOfRange));
    }
    if !check_voting_power(header, &options.trust_threshold) {
        return Err(Error::InvalidHeader(InvalidHeaderDetail::VotingPowerOutOfRange));
    }
    let verifier_options = to_verifier_options(&options);
    let verdict = run_verifier(
        header,
        &anchor.timestamp,
        &anchor.next_validators_hash,
        &verifier_options,
        now,
    );
    interpret_verdict(verdict)
}

/// The first three steps of an update's validation, each on its own.
pub trait Inner: ClientStore {
    /// Looks the client of the message up.
    fn client_is_present(&self, msg: &MsgUpdateAnyClient) -> (result: Result<ClientData, Error>)
        ensures
            match result {
                Ok(client) => self.client(msg.client_id) == Some(client),
                Err(error) => self.client(msg.client_id) is None && error@ == ErrorView::NotFound,
            },
    {
        match self.get_client_data(&msg.client_id) {
            Some(client) => Ok(client),
            None => Err(Error::NotFound),
        }
    }

    /// Rejects an update for a client whose newest consensus state is missing, is not a
    /// Tendermint state, or is older than the trusting period at the block time.
    fn client_is_not_expired(&self, client: &ClientData) -> (result: Result<(), Error>)
        ensures
            outcome_of(result) == expiry_outcome(self, *client),
    {
        let latest_consensus_state = match self.get_verified_consensus_state(
            client.client_state.latest_height(),
            &client.client_id,
        ) {
            Some(state) => state,
            None => {
                return Err(Error::MissingTrustedAnchor);
            },
        };
        let latest_consensus_state_tm = match latest_consensus_state {
            AnyConsensusState::Tendermint(state) => state,
            AnyConsensusState::Mock(_) => {
                return Err(Error::TypeMismatch);
            },
        };
        let now = self.get_block_timestamp();
        let time_elapsed = match now.duration_since(&latest_consensus_state_tm.timestamp) {
            Some(elapsed) => elapsed,
            // The state's time lies after the block time: no time has passed since.
            None => {
                return Ok(());
            },
        };
        if client.client_state.expired(time_elapsed) {
            Err(Error::Expired)
        } else {
            Ok(())
        }
    }

    /// Whether the consensus state that the header leads to is already stored at the header's
    /// height. A missing state is no error: the update is then not committed yet.
    fn update_is_already_committed(
        &self,
        client_id: &ClientId,
        untrusted_header: &TendermintHeader,
    ) -> (result: Result<bool, Error>)
        ensures
            match result {
                Ok(committed) => committed_outcome(self, *client_id, *untrusted_header) == Ok::<
                    bool,
                    ErrorView,
                >(committed),
                Err(error) => committed_outcome(self, *client_id, *untrusted_header) == Err::<
                    bool,
                    ErrorView,
                >(error@),
            },
    {
        let untrusted_consensus_state = consensus_state_of(untrusted_header);
        match self.get_verified_consensus_state(untrusted_header.height(), client_id) {
            Some(AnyConsensusState::Tendermint(stored)) => Ok(
                stored.same_as(&untrusted_consensus_state),
            ),
            Some(AnyConsensusState::Mock(_)) => Err(Error::TypeMismatch),
            None => Ok(false),
        }
    }
}

impl<T: ClientStore> Inner for T {

}

/// The validation of a request to advance a client by a header.
pub trait UpdateClientCheck: ClientStore + Inner {
    /// Accepts the header if every check of [`update_outcome`] passes, and rejects it with the
    /// first that fails. Nothing is written: the caller stores the new consensus state and
    /// advances the client.
    fn validate(&self, msg: &MsgUpdateAnyClient) -> (result: Result<(), Error>)
        ensures
            outcome_of(result) == update_outcome(self, msg),
    {
        let client_data = match self.client_is_present(msg) {
            Ok(client) => client,
            Err(error) => {
                return Err(error);
            },
        };
        match client_is_not_frozen(&client_data) {
            Err(error) => {
                return Err(error);
            },
            Ok(()) => {},
        }
        match self.client_is_not_expired(&client_data) {
            Err(error) => {
                return Err(error);
            },
            Ok(()) => {},
        }
        let trusted_client_state = match client_data.client_state {
            AnyClientState::Tendermint(state) => state,
            AnyClientState::Mock(_) => {
                return Err(Error::TypeMismatch);
            },
        };
        let untrusted_header = match &msg.header {
            AnyHeader::Tendermint(header) => header,
            AnyHeader::Mock(_) => {
                return Err(Error::TypeMismatch);
            },
        };
        // A duplicate is rejected before any signature is checked.
        match self.update_is_already_committed(&client_data.client_id, untrusted_header) {
            Err(error) => {
                return Err(error);
            },
            Ok(true) => {
                return Err(Error::AlreadyCommitted);
            },
            Ok(false) => {},
        }
        match header_revision_matches_client_state(&trusted_client_state, untrusted_header) {
            Err(error) => {
                return Err(error);
            },
            Ok(()) => {},
        }
        match header_height_is_consistent(untrusted_header) {
            Err(error) => {
                return Err(error);
            },
            Ok(()) => {},
        }
        // The header names the consensus state that it extends.
        let last_trusted_consensus_state = match self.get_verified_consensus_state(
            untrusted_header.trusted_height,
            &client_data.client_id,
        ) {
            Some(AnyConsensusState::Tendermint(state)) => state,
            Some(AnyConsensusState::Mock(_)) => {
                return Err(Error::TypeMismatch);
            },
            None => {
                return Err(Error::MissingTrustedAnchor);
            },
        };
        let now = self.get_block_timestamp();
        verify_against_anchor(
            &trusted_client_state,
            untrusted_header,
            &last_trusted_consensus_state,
            &now,
        )
    }
}

impl<T: ClientStore> UpdateClientCheck for T {

}

} // verus!
