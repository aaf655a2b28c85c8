//! What holds of every validation of an update, whatever the store and the header.

use vstd::prelude::*;
use crate::client::{AnyClientState, ClientData, TendermintClientState};
use crate::consensus::{AnyConsensusStateView, TendermintConsensusStateView};
use crate::error::{ErrorView, InvalidHeaderDetailView, VotingPowerTally};
use crate::header::{AnyHeader, TendermintHeader};
use crate::msgs::MsgUpdateAnyClient;
use crate::store::ClientStore;
use crate::update_client::{
    committed_outcome,
    expiry_outcome,
    frozen_outcome,
    height_outcome,
    revision_outcome,
    update_outcome,
    validator_set_outcome,
};
use crate::verification::{
    VerdictView,
    header_verdict,
    light_client_options,
    verifier_is_total,
};

verus! {

/// The client of `msg` is a Tendermint client that is present, not frozen and not expired, and
/// `msg` carries the Tendermint header `header` for it.
pub open spec fn reaches_header_checks<S: ClientStore>(
    store: &S,
    msg: &MsgUpdateAnyClient,
    client: ClientData,
    client_state: TendermintClientState,
    header: TendermintHeader,
) -> bool {
    &&& store.client(msg.client_id) == Some(client)
    &&& frozen_outcome(client) is Ok
    &&& expiry_outcome(store, client) is Ok
    &&& client.client_state == AnyClientState::Tendermint(client_state)
    &&& msg.header == AnyHeader::Tendermint(header)
}

/// The validation of `msg` has got as far as the consensus state `anchor` that `header` claims
/// to extend: the header is new, of the client's revision and above its trusted height, and
/// `anchor` is stored at that height.
pub open spec fn reaches_anchor<S: ClientStore>(
    store: &S,
    msg: &MsgUpdateAnyClient,
    client: ClientData,
    client_state: TendermintClientState,
    header: TendermintHeader,
    anchor: TendermintConsensusStateView,
) -> bool {
    &&& reaches_header_checks(store, msg, client, client_state, header)
    &&& committed_outcome(store, client.client_id, header) == Ok::<bool, ErrorView>(false)
    &&& revision_outcome(client_state, header) is Ok
    &&& height_outcome(header) is Ok
    &&& store.consensus_state(client.client_id, header.trusted_height) == Some(
        AnyConsensusStateView::Tendermint(anchor),
    )
}

/// Once a client is recorded as frozen, every update for it is rejected as frozen, whatever
/// header it carries.
pub proof fn law_frozen_client_takes_no_update<S: ClientStore>(
    store: &S,
    msg: &MsgUpdateAnyClient,
    client: ClientData,
)
    requires
        store.client(msg.client_id) == Some(client),
        client.client_state.spec_is_frozen(),
    ensures
        update_outcome(store, msg) == Err::<(), ErrorView>(ErrorView::Frozen),
{
}

/// A header that is not strictly above its own trusted height is never accepted and never
/// reaches the verifier: the update is rejected by one of the checks up to the height check,
/// whatever the signatures are.
pub proof fn law_height_must_increase<S: ClientStore>(
    store: &S,
    msg: &MsgUpdateAnyClient,
    header: TendermintHeader,
)
    requires
        msg.header == AnyHeader::Tendermint(header),
        header.spec_height().spec_le(header.trusted_height),
    ensures
        update_outcome(store, msg) matches Err(error) && (error == ErrorView::NotFound || error
            == ErrorView::Frozen || error == ErrorView::MissingTrustedAnchor || error
            == ErrorView::Expired || error == ErrorView::TypeMismatch || error
            == ErrorView::AlreadyCommitted || error == ErrorView::RevisionMismatch || error
            == ErrorView::HeightNotMonotonic),
{
}

/// Where the checks before it pass, a header that is not strictly above its own trusted height
/// is rejected for that reason.
pub proof fn law_height_strictness<S: ClientStore>(
    store: &S,
    msg: &MsgUpdateAnyClient,
    client: ClientData,
    client_state: TendermintClientState,
    header: TendermintHeader,
)
    requires
        reaches_header_checks(store, msg, client, client_state, header),
        committed_outcome(store, client.client_id, header) == Ok::<bool, ErrorView>(false),
        revision_outcome(client_state, header) is Ok,
        header.spec_height().spec_le(header.trusted_height),
    ensures
        update_outcome(store, msg) == Err::<(), ErrorView>(ErrorView::HeightNotMonotonic),
{
}

/// A header whose consensus state is already stored at its height is rejected as a duplicate,
/// before its revision, its height or its signatures are looked at. The store is only read, so
/// what is stored stays as it was.
pub proof fn law_duplicate_update_is_rejected<S: ClientStore>(
    store: &S,
    msg: &MsgUpdateAnyClient,
    client: ClientData,
    client_state: TendermintClientState,
    header: TendermintHeader,
)
    requires
        reaches_header_checks(store, msg, client, client_state, header),
        store.consensus_state(client.client_id, header.spec_height()) == Some(
            AnyConsensusStateView::Tendermint(header.consensus_state()),
        ),
    ensures
        update_outcome(store, msg) == Err::<(), ErrorView>(ErrorView::AlreadyCommitted),
{
}

/// A header of another revision than the client's is never accepted and never reaches the
/// verifier, whatever the signatures are.
pub proof fn law_revision_must_match<S: ClientStore>(
    store: &S,
    msg: &MsgUpdateAnyClient,
    client: ClientData,
    client_state: TendermintClientState,
    header: TendermintHeader,
)
    requires
        store.client(msg.client_id) == Some(client),
        client.client_state == AnyClientState::Tendermint(client_state),
        msg.header == AnyHeader::Tendermint(header),
        header.spec_height().revision_number != client_state.chain_id.version,
    ensures
        update_outcome(store, msg) matches Err(error) && (error == ErrorView::Frozen || error
            == ErrorView::MissingTrustedAnchor || error == ErrorView::Expired || error
            == ErrorView::TypeMismatch || error == ErrorView::AlreadyCommitted || error
            == ErrorView::RevisionMismatch),
{
}

/// Where the checks before it pass, a header of another revision than the client's is rejected
/// for that reason.
pub proof fn law_revision_gating<S: ClientStore>(
    store: &S,
    msg: &MsgUpdateAnyClient,
    client: ClientData,
    client_state: TendermintClientState,
    header: TendermintHeader,
)
    requires
        reaches_header_checks(store, msg, client, client_state, header),
        committed_outcome(store, client.client_id, header) == Ok::<bool, ErrorView>(false),
        header.spec_height().revision_number != client_state.chain_id.version,
    ensures
        update_outcome(store, msg) == Err::<(), ErrorView>(ErrorView::RevisionMismatch),
{
}

/// Where the validation reaches the trusted consensus state, a header whose trusted validator
/// set does not hash to what that state recorded is rejected for that reason, before the
/// verifier sees a signature.
pub proof fn law_trust_chaining<S: ClientStore>(
    store: &S,
    msg: &MsgUpdateAnyClient,
    client: ClientData,
    client_state: TendermintClientState,
    header: TendermintHeader,
    anchor: TendermintConsensusStateView,
)
    requires
        reaches_anchor(store, msg, client, client_state, header, anchor),
        header.trusted_validators_hash() != anchor.next_validators_hash,
    ensures
        update_outcome(store, msg) == Err::<(), ErrorView>(
            ErrorView::ValidatorSetHashMismatch,
        ),
{
}

/// Every check of an update's validation passes: the validation reaches the consensus state
/// `anchor`, the header's trusted validator set is the one that `anchor` committed to, the header
/// is one that the verifier can be asked about, and the verifier finds it valid.
pub open spec fn passes_every_check<S: ClientStore>(
    store: &S,
    msg: &MsgUpdateAnyClient,
    client: ClientData,
    client_state: TendermintClientState,
    header: TendermintHeader,
    anchor: TendermintConsensusStateView,
) -> bool {
    &&& reaches_anchor(store, msg, client, client_state, header, anchor)
    &&& validator_set_outcome(header, anchor) is Ok
    &&& verifier_is_total(header, client_state.trust_level)
    &&& header_verdict(
        header,
        anchor.timestamp,
        anchor.next_validators_hash,
        light_client_options(client_state),
        store.block_timestamp(),
    ) == VerdictView::Success
}

/// An update is accepted only if its client is present, not frozen and not expired, its header
/// is new, of the client's revision and strictly above its trusted height, its trusted validator
/// set is the one that the trusted consensus state committed to, and the verifier finds the
/// header valid.
pub proof fn law_accepted_update_passed_every_check<S: ClientStore>(
    store: &S,
    msg: &MsgUpdateAnyClient,
)
    requires
        update_outcome(store, msg) is Ok,
    ensures
        exists|
            client: ClientData,
            client_state: TendermintClientState,
            header: TendermintHeader,
            anchor: TendermintConsensusStateView,
        |
            {
                &&& #[trigger] passes_every_check(store, msg, client, client_state, header, anchor)
                &&& header.trusted_height.spec_lt(header.spec_height())
                &&& header.spec_height().revision_number == client_state.chain_id.version
            },
{
    let client = store.client(msg.client_id)->Some_0;
    let client_state = client.client_state->Tendermint_0;
    let header = msg.header->Tendermint_0;
    let anchor = store.consensus_state(client.client_id, header.trusted_height)->Some_0->Tendermint_0;
    assert(passes_every_check(store, msg, client, client_state, header, anchor));
}

/// An update that passes every check is accepted. Together with
/// [`law_accepted_update_passed_every_check`]: an update is accepted exactly when every check
/// passes.
///
/// The verifier is asked only about headers within its bounds ([`verifier_is_total`]): beyond
/// them its arithmetic overflows, and the update is rejected as invalid without a verdict.
pub proof fn law_valid_update_is_accepted<S: ClientStore>(
    store: &S,
    msg: &MsgUpdateAnyClient,
    client: ClientData,
    client_state: TendermintClientState,
    header: TendermintHeader,
    anchor: TendermintConsensusStateView,
)
    requires
        passes_every_check(store, msg, client, client_state, header, anchor),
    ensures
        update_outcome(store, msg) is Ok,
{
}

/// Where every check up to the verifier passes and the verifier finds too little trusted voting
/// power behind the header, the update is rejected with the verifier's own tally, and neither
/// accepted nor rejected as invalid.
pub proof fn law_insufficient_trust_carries_the_tally<S: ClientStore>(
    store: &S,
    msg: &MsgUpdateAnyClient,
    client: ClientData,
    client_state: TendermintClientState,
    header: TendermintHeader,
    anchor: TendermintConsensusStateView,
    tally: VotingPowerTally,
)
    requires
        reaches_anchor(store, msg, client, client_state, header, anchor),
        validator_set_outcome(header, anchor) is Ok,
        verifier_is_total(header, client_state.trust_level),
        header_verdict(
            header,
            anchor.timestamp,
            anchor.next_validators_hash,
            light_client_options(client_state),
            store.block_timestamp(),
        ) == VerdictView::NotEnoughTrust(tally),
    ensures
        update_outcome(store, msg) == Err::<(), ErrorView>(ErrorView::InsufficientTrust(tally)),
        !(update_outcome(store, msg) matches Err(ErrorView::InvalidHeader(_))),
{
}

/// A header whose trusted validator set matches but that lies beyond the verifier's bounds is
/// rejected as invalid, and the verifier is not asked.
pub proof fn law_header_beyond_the_verifier_is_invalid<S: ClientStore>(
    store: &S,
    msg: &MsgUpdateAnyClient,
    client: ClientData,
    client_state: TendermintClientState,
    header: TendermintHeader,
    anchor: TendermintConsensusStateView,
)
    requires
        reaches_anchor(store, msg, client, client_state, header, anchor),
        validator_set_outcome(header, anchor) is Ok,
        !verifier_is_total(header, client_state.trust_level),
    ensures
        update_outcome(store, msg) matches Err(ErrorView::InvalidHeader(detail)) && !(detail
            is Verifier),
{
}

/// Where the validation reaches the verifier, the verifier's verdict decides alone: too little
/// voting power and an invalid header are told apart, and each carries what the verifier found.
pub proof fn law_verdict_decides<S: ClientStore>(
    store: &S,
    msg: &MsgUpdateAnyClient,
    client: ClientData,
    client_state: TendermintClientState,
    header: TendermintHeader,
    anchor: TendermintConsensusStateView,
)
    requires
        reaches_anchor(store, msg, client, client_state, header, anchor),
        validator_set_outcome(header, anchor) is Ok,
        verifier_is_total(header, client_state.trust_level),
    ensures
        match header_verdict(
            header,
            anchor.timestamp,
            anchor.next_validators_hash,
            light_client_options(client_state),
            store.block_timestamp(),
        ) {
            VerdictView::Success => update_outcome(store, msg) is Ok,
            VerdictView::NotEnoughTrust(tally) => update_outcome(store, msg) == Err::<
                (),
                ErrorView,
            >(ErrorView::InsufficientTrust(tally)),
            VerdictView::Invalid(finding) => update_outcome(store, msg) == Err::<(), ErrorView>(
                ErrorView::InvalidHeader(InvalidHeaderDetailView::Verifier(finding)),
            ),
        },
{
}

/// A client whose newest consensus state is a Tendermint state has expired exactly when more
/// than the trusting period has passed since that state's time. In particular a state whose time
/// lies after the block time has not expired.
pub proof fn law_expiry_is_age_beyond_the_trusting_period<S: ClientStore>(
    store: &S,
    client: ClientData,
    latest: TendermintConsensusStateView,
)
    requires
        store.consensus_state(client.client_id, client.client_state.spec_latest_height())
            == Some(AnyConsensusStateView::Tendermint(latest)),
    ensures
        expiry_outcome(store, client) == (if client.client_state.expires_after(
            store.block_timestamp().unix_nanos() - latest.timestamp.unix_nanos(),
        ) {
            Err::<(), ErrorView>(ErrorView::Expired)
        } else {
            Ok::<(), ErrorView>(())
        }),
        store.block_timestamp().unix_nanos() <= latest.timestamp.unix_nanos() ==> expiry_outcome(
            store,
            client,
        ) is Ok,
{
}

/// A client whose newest consensus state is older than the trusting period is rejected as
/// expired, whatever header the update carries.
pub proof fn law_expired_client_takes_no_update<S: ClientStore>(
    store: &S,
    msg: &MsgUpdateAnyClient,
    client: ClientData,
    latest: TendermintConsensusStateView,
)
    requires
        store.client(msg.client_id) == Some(client),
        !client.client_state.spec_is_frozen(),
        store.consensus_state(client.client_id, client.client_state.spec_latest_height())
            == Some(AnyConsensusStateView::Tendermint(latest)),
        client.client_state.expires_after(
            store.block_timestamp().unix_nanos() - latest.timestamp.unix_nanos(),
        ),
    ensures
        update_outcome(store, msg) == Err::<(), ErrorView>(ErrorView::Expired),
{
}

} // verus!
