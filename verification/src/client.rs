//! Clients: which kind they are, how they are named, and what each one records.

use vstd::prelude::*;
use crate::height::Height;
use crate::time::Duration;

verus! {

/// The kinds of light client that a message can name.
///
/// Updates are validated for Tendermint clients only; the mock kind stands for every client
/// whose headers this crate cannot judge.
#[derive(Clone, Copy, Debug, PartialEq, Eq, Hash, Structural)]
pub enum ClientType {
    Tendermint,
    Mock,
}

impl ClientType {
    /// The tag that identifiers of this kind of client start with.
    pub fn as_str(&self) -> (tag: &'static str)
        ensures
            tag@ == self.tag(),
    {
        match self {
            ClientType::Tendermint => "07-tendermint",
            ClientType::Mock => "9999-mock",
        }
    }

    /// The tag of this kind of client, as text.
    pub open spec fn tag(&self) -> Seq<char> {
        match self {
            ClientType::Tendermint => "07-tendermint"@,
            ClientType::Mock => "9999-mock"@,
        }
    }
}

/// The handle of one client: its kind, and the count of clients that were created before it.
///
/// Written out, an identifier is the kind's tag, a dash and the counter.
#[derive(Clone, Copy, Debug, PartialEq, Eq, Hash, Structural)]
pub struct ClientId {
    pub client_type: ClientType,
    pub counter: u64,
}

/// The share of a trusted validator set's voting power that must back a new header.
#[derive(Clone, Copy, Debug, PartialEq, Eq, Hash, Structural)]
pub struct TrustThreshold {
    pub numerator: u64,
    pub denominator: u64,
}

impl TrustThreshold {
    /// The fraction lies in `[1/3, 1)`, and three times its numerator fits in 64 bits.
    ///
    /// These are the fractions that the verifier accepts as a trust threshold.
    pub open spec fn spec_is_valid(&self) -> bool {
        &&& self.numerator < self.denominator
        &&& 3 * self.numerator >= self.denominator
        &&& 3 * self.numerator <= u64::MAX
    }

    #[verifier::when_used_as_spec(spec_is_valid)]
    pub fn is_valid(&self) -> (valid: bool)
        ensures
            valid == self.spec_is_valid(),
    {
        self.numerator < self.denominator && self.numerator <= u64::MAX / 3 && 3
            * self.numerator >= self.denominator
    }
}

/// The part of a chain's identifier that validation reads: the revision the chain is in.
#[derive(Clone, Copy, Debug, PartialEq, Eq, Hash, Structural)]
pub struct ChainId {
    pub version: u64,
}

impl ChainId {
    /// The revision that the chain is in.
    pub fn version(&self) -> (version: u64)
        ensures
            version == self.version,
    {
        self.version
    }
}

/// What a Tendermint client records about the chain it follows.
#[derive(Clone, Copy, Debug, PartialEq, Eq, Structural)]
pub struct TendermintClientState {
    pub chain_id: ChainId,
    pub trust_level: TrustThreshold,
    pub trusting_period: Duration,
    pub max_clock_drift: Duration,
    pub latest_height: Height,
    pub frozen_height: Option<Height>,
}

impl TendermintClientState {
    /// Whether a consensus state is too old to extend once `nanos` nanoseconds have passed
    /// since its block's time: that is, once more than the trusting period has passed.
    pub open spec fn expires_after(&self, nanos: int) -> bool {
        nanos > self.trusting_period.total_nanos()
    }

    /// Whether a consensus state is too old to extend once `elapsed` has passed since its
    /// block's time.
    pub open spec fn spec_expired(&self, elapsed: Duration) -> bool {
        self.expires_after(elapsed.total_nanos())
    }

    #[verifier::when_used_as_spec(spec_expired)]
    pub fn expired(&self, elapsed: Duration) -> (expired: bool)
        ensures
            expired == self.spec_expired(elapsed),
    {
        elapsed.exceeds(&self.trusting_period)
    }
}

/// What a mock client records. It never expires.
#[derive(Clone, Copy, Debug, PartialEq, Eq, Structural)]
pub struct MockClientState {
    pub latest_height: Height,
    pub frozen_height: Option<Height>,
}

/// The state of a client of any kind.
#[derive(Clone, Copy, Debug, PartialEq, Eq, Structural)]
pub enum AnyClientState {
    Tendermint(TendermintClientState),
    Mock(MockClientState),
}

impl AnyClientState {
    /// The kind of client that the state belongs to.
    pub open spec fn spec_client_type(&self) -> ClientType {
        match self {
            AnyClientState::Tendermint(_) => ClientType::Tendermint,
            AnyClientState::Mock(_) => ClientType::Mock,
        }
    }

    /// The height of the newest consensus state that the client has verified.
    pub open spec fn spec_latest_height(&self) -> Height {
        match self {
            AnyClientState::Tendermint(state) => state.latest_height,
            AnyClientState::Mock(state) => state.latest_height,
        }
    }

    /// The height at which the client was frozen, if it was.
    pub open spec fn spec_frozen_height(&self) -> Option<Height> {
        match self {
            AnyClientState::Tendermint(state) => state.frozen_height,
            AnyClientState::Mock(state) => state.frozen_height,
        }
    }

    /// A client is frozen from the moment a frozen height is recorded for it.
    pub open spec fn spec_is_frozen(&self) -> bool {
        self.spec_frozen_height() is Some
    }

    /// Whether the client's newest consensus state is too old to extend once `nanos`
    /// nanoseconds have passed since its block's time.
    pub open spec fn expires_after(&self, nanos: int) -> bool {
        match self {
            AnyClientState::Tendermint(state) => state.expires_after(nanos),
            AnyClientState::Mock(_) => false,
        }
    }

    /// Whether the client's newest consensus state is too old to extend once `elapsed` has
    /// passed since its block's time.
    pub open spec fn spec_expired(&self, elapsed: Duration) -> bool {
        self.expires_after(elapsed.total_nanos())
    }

    #[verifier::when_used_as_spec(spec_client_type)]
    pub fn client_type(&self) -> (client_type: ClientType)
        ensures
            client_type == self.spec_client_type(),
    {
        match self {
            AnyClientState::Tendermint(_) => ClientType::Tendermint,
            AnyClientState::Mock(_) => ClientType::Mock,
        }
    }

    #[verifier::when_used_as_spec(spec_latest_height)]
    pub fn latest_height(&self) -> (height: Height)
        ensures
            height == self.spec_latest_height(),
    {
        match self {
            AnyClientState::Tendermint(state) => state.latest_height,
            AnyClientState::Mock(state) => state.latest_height,
        }
    }

    #[verifier::when_used_as_spec(spec_frozen_height)]
    pub fn frozen_height(&self) -> (height: Option<Height>)
        ensures
            height == self.spec_frozen_height(),
    {
        match self {
            AnyClientState::Tendermint(state) => state.frozen_height,
            AnyClientState::Mock(state) => state.frozen_height,
        }
    }

    #[verifier::when_used_as_spec(spec_is_frozen)]
    pub fn is_frozen(&self) -> (frozen: bool)
        ensures
            frozen == self.spec_is_frozen(),
    {
        self.frozen_height().is_some()
    }

    #[verifier::when_used_as_spec(spec_expired)]
    pub fn expired(&self, elapsed: Duration) -> (expired: bool)
        ensures
            expired == self.spec_expired(elapsed),
    {
        match self {
            AnyClientState::Tendermint(state) => state.expired(elapsed),
            AnyClientState::Mock(_) => false,
        }
    }

    /// The same client with `height` recorded as the height it was frozen at: every other
    /// field is kept.
    pub open spec fn spec_with_frozen_height(self, height: Height) -> AnyClientState {
        match self {
            AnyClientState::Tendermint(state) => AnyClientState::Tendermint(
                TendermintClientState {
                    chain_id: state.chain_id,
                    trust_level: state.trust_level,
                    trusting_period: state.trusting_period,
                    max_clock_drift: state.max_clock_drift,
                    latest_height: state.latest_height,
                    frozen_height: Some(height),
                },
            ),
            AnyClientState::Mock(state) => AnyClientState::Mock(
                MockClientState { latest_height: state.latest_height, frozen_height: Some(height) },
            ),
        }
    }

    /// The same client with `height` recorded as the height it was frozen at.
    #[verifier::when_used_as_spec(spec_with_frozen_height)]
    pub fn with_frozen_height(self, height: Height) -> (frozen: AnyClientState)
        ensures
            frozen == self.spec_with_frozen_height(height),
            frozen.spec_is_frozen(),
    {
        match self {
            AnyClientState::Tendermint(state) => AnyClientState::Tendermint(
                TendermintClientState { frozen_height: Some(height), ..state },
            ),
            AnyClientState::Mock(state) => AnyClientState::Mock(
                MockClientState { frozen_height: Some(height), ..state },
            ),
        }
    }
}

/// A client as the chain holds it: its handle and its state.
#[derive(Clone, Copy, Debug, PartialEq, Eq, Structural)]
pub struct ClientData {
    pub client_id: ClientId,
    pub client_state: AnyClientState,
}

} // verus!
