//! Why a message was rejected.

use vstd::prelude::*;
use crate::client::TrustThreshold;

verus! {

/// The voting power that backs a header, as the verifier counted it.
#[derive(Clone, Copy, Debug, PartialEq, Eq, Structural)]
pub struct VotingPowerTally {
    /// The voting power of the whole validator set.
    pub total: u64,
    /// The voting power of the validators whose signatures were counted.
    pub tallied: u64,
    /// The share of `total` that `tallied` had to exceed.
    pub trust_threshold: TrustThreshold,
}

/// Why a header cannot be accepted as valid.
#[derive(Debug, PartialEq, Eq)]
pub enum InvalidHeaderDetail {
    /// The verifier found the header invalid; the text is its finding.
    Verifier(String),
    /// The block number of the trusted height is too large for a Tendermint chain.
    TrustedHeightOutOfRange,
    /// The client's trust threshold is not a fraction that the verifier accepts.
    TrustThresholdOutOfRange,
    /// A validator set holds more validators or more voting power than the verifier can count.
    VotingPowerOutOfRange,
}

/// An [`InvalidHeaderDetail`] as a mathematical value.
pub enum InvalidHeaderDetailView {
    Verifier(Seq<char>),
    TrustedHeightOutOfRange,
    TrustThresholdOutOfRange,
    VotingPowerOutOfRange,
}

impl View for InvalidHeaderDetail {
    type V = InvalidHeaderDetailView;

    open spec fn view(&self) -> InvalidHeaderDetailView {
        match self {
            InvalidHeaderDetail::Verifier(finding) => InvalidHeaderDetailView::Verifier(finding@),
            InvalidHeaderDetail::TrustedHeightOutOfRange =>
                InvalidHeaderDetailView::TrustedHeightOutOfRange,
            InvalidHeaderDetail::TrustThresholdOutOfRange =>
                InvalidHeaderDetailView::TrustThresholdOutOfRange,
            InvalidHeaderDetail::VotingPowerOutOfRange =>
                InvalidHeaderDetailView::VotingPowerOutOfRange,
        }
    }
}

/// Why a message was rejected. Each rejection is final for the message.
#[derive(Debug, PartialEq, Eq)]
pub enum Error {
    /// No client has the identifier that the message names.
    NotFound,
    /// The client is frozen.
    Frozen,
    /// More than the trusting period has passed since the time of the client's newest
    /// consensus state.
    Expired,
    /// The client, the header or a stored consensus state is not of the Tendermint kind, or the
    /// kind of a client to create is not one that identifiers can be made for.
    TypeMismatch,
    /// The consensus state that the header leads to is already stored at the header's height.
    AlreadyCommitted,
    /// The header's revision number is not the client's.
    RevisionMismatch,
    /// The header's height is not above the height that it claims to extend.
    HeightNotMonotonic,
    /// No consensus state is stored at a height that validation has to start from.
    MissingTrustedAnchor,
    /// The header's trusted validator set does not hash to what the trusted consensus state
    /// recorded.
    ValidatorSetHashMismatch,
    /// The signatures carry too little of the trusted voting power.
    InsufficientTrust(VotingPowerTally),
    /// The header is invalid, or cannot be put to the verifier.
    InvalidHeader(InvalidHeaderDetail),
}

/// An [`Error`] as a mathematical value.
pub enum ErrorView {
    NotFound,
    Frozen,
    Expired,
    TypeMismatch,
    AlreadyCommitted,
    RevisionMismatch,
    HeightNotMonotonic,
    MissingTrustedAnchor,
    ValidatorSetHashMismatch,
    InsufficientTrust(VotingPowerTally),
    InvalidHeader(InvalidHeaderDetailView),
}

impl View for Error {
    type V = ErrorView;

    open spec fn view(&self) -> ErrorView {
        match self {
            Error::NotFound => ErrorView::NotFound,
            Error::Frozen => ErrorView::Frozen,
            Error::Expired => ErrorView::Expired,
            Error::TypeMismatch => ErrorView::TypeMismatch,
            Error::AlreadyCommitted => ErrorView::AlreadyCommitted,
            Error::RevisionMismatch => ErrorView::RevisionMismatch,
            Error::HeightNotMonotonic => ErrorView::HeightNotMonotonic,
            Error::MissingTrustedAnchor => ErrorView::MissingTrustedAnchor,
            Error::ValidatorSetHashMismatch => ErrorView::ValidatorSetHashMismatch,
            Error::InsufficientTrust(tally) => ErrorView::InsufficientTrust(*tally),
            Error::InvalidHeader(detail) => ErrorView::InvalidHeader(detail@),
        }
    }
}

/// The outcome of a validation as a mathematical value: acceptance, or the reason for rejection.
pub type Outcome = Result<(), ErrorView>;

/// The mathematical value of a validation's result.
pub open spec fn outcome_of(result: Result<(), Error>) -> Outcome {
    match result {
        Ok(()) => Ok(()),
        Err(error) => Err(error@),
    }
}

} // verus!
