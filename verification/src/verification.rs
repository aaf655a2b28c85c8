//! The Tendermint light-client verifier, and the checks that make it safe to call.
//!
//! The verifier decides whether the signatures of an untrusted header carry enough of the voting
//! power of a trusted validator set. It is the work of the `tendermint-light-client-verifier`
//! crate and is believed here, not proved: its verdict on given inputs has a name,
//! [`header_verdict`], and everything around the call is verified against that name.

use vstd::prelude::*;
use tendermint::trust_threshold::TrustThresholdFraction;
use tendermint_light_client_verifier::options::Options;
use tendermint_light_client_verifier::types::{TrustedBlockState, UntrustedBlockState};
use tendermint_light_client_verifier::Verdict as VerifierVerdict;
use tendermint_light_client_verifier::{ProdVerifier, Verifier};
use tendermint::Time as VerifierTime;
use crate::client::{TendermintClientState, TrustThreshold};
use crate::consensus::Digest;
use crate::error::{Error, ErrorView, InvalidHeaderDetail, InvalidHeaderDetailView, Outcome,
    VotingPowerTally, outcome_of};
use crate::header::{TendermintHeader, read_validator_powers, validator_powers};
use crate::time::{Duration, Timestamp};

verus! {

/// `tendermint_light_client_verifier::options::Options`: the verifier's parameters. Opaque.
#[verifier::external_type_specification]
#[verifier::external_body]
pub struct ExVerifierOptions(Options);

/// What the verifier is told about how far to trust.
#[derive(Clone, Copy, Debug, PartialEq, Eq, Structural)]
pub struct VerificationOptions {
    /// The share of the trusted validators' voting power that must have signed.
    pub trust_threshold: TrustThreshold,
    /// How long a consensus state may be extended after its block's time.
    pub trusting_period: Duration,
    /// How far ahead of the local clock a header's time may lie.
    pub clock_drift: Duration,
}

/// What the verifier found.
#[derive(Debug, PartialEq, Eq)]
pub enum Verdict {
    /// The header is valid and carries enough trusted voting power.
    Success,
    /// The header's signatures carry too little of the trusted voting power.
    NotEnoughTrust(VotingPowerTally),
    /// The header is invalid; the text says why.
    Invalid(String),
}

/// A [`Verdict`] as a mathematical value.
pub enum VerdictView {
    Success,
    NotEnoughTrust(VotingPowerTally),
    Invalid(Seq<char>),
}

impl View for Verdict {
    type V = VerdictView;

    open spec fn view(&self) -> VerdictView {
        match self {
            Verdict::Success => VerdictView::Success,
            Verdict::NotEnoughTrust(tally) => VerdictView::NotEnoughTrust(*tally),
            Verdict::Invalid(finding) => VerdictView::Invalid(finding@),
        }
    }
}

/// The parameters that an `Options` value holds.
pub uninterp spec fn options_of(options: Options) -> VerificationOptions;

/// The verdict of `ProdVerifier::verify` on an untrusted header, given the time and the
/// next-validators hash of the consensus state at the header's trusted height, the verifier's
/// parameters and the current time.
pub uninterp spec fn header_verdict(
    header: TendermintHeader,
    trusted_time: Timestamp,
    next_validators_hash: Seq<u8>,
    options: VerificationOptions,
    now: Timestamp,
) -> VerdictView;

/// Builds the verifier's `Options` through `TrustThresholdFraction::new` and
/// `core::time::Duration::new`. Trusted: the result holds the values it was built from.
/// `TrustThresholdFraction::new` multiplies the numerator by three and accepts the fractions in
/// `[1/3, 1)`; `requires` leaves the others out.
#[verifier::external_body]
pub(crate) fn to_verifier_options(options: &VerificationOptions) -> (converted: Options)
    requires
        options.trust_threshold.spec_is_valid(),
    ensures
        options_of(converted) == *options,
{
    let threshold = options.trust_threshold;
    let (period, drift) = (options.trusting_period, options.clock_drift);
    Options {
        trust_threshold: TrustThresholdFraction::new(threshold.numerator, threshold.denominator)
            .unwrap(),
        trusting_period: core::time::Duration::new(period.seconds, period.nanos),
        clock_drift: core::time::Duration::new(drift.seconds, drift.nanos),
    }
}

/// The sum of a list of voting powers.
pub open spec fn total_power(powers: Seq<u64>) -> int
    decreases powers.len(),
{
    if powers.len() == 0 {
        0
    } else {
        total_power(powers.drop_last()) + powers.last()
    }
}

/// A list of voting powers sums to at least as much as each of its prefixes.
pub proof fn lemma_total_power_of_prefix(powers: Seq<u64>, n: int)
    requires
        0 <= n <= powers.len(),
    ensures
        0 <= total_power(powers.take(n)) <= total_power(powers),
    decreases powers.len(),
{
    if n == powers.len() {
        assert(powers.take(n) =~= powers);
        if powers.len() > 0 {
            lemma_total_power_of_prefix(powers.drop_last(), n - 1);
            assert(powers.drop_last().take(n - 1) =~= powers.drop_last());
        }
    } else {
        lemma_total_power_of_prefix(powers.drop_last(), n);
        assert(powers.drop_last().take(n) =~= powers.take(n));
    }
}

/// The sum of `powers`, or `None` if it does not fit in 64 bits.
pub fn checked_total_power(powers: &Vec<u64>) -> (total: Option<u64>)
    ensures
        total is Some <==> total_power(powers@) <= u64::MAX,
        total matches Some(t) ==> t == total_power(powers@),
{
    let mut sum: u64 = 0;
    let mut i: usize = 0;
    while i < powers.len()
        invariant
            i <= powers.len(),
            sum == total_power(powers@.take(i as int)),
        decreases powers.len() - i,
    {
        proof {
            assert(powers@.take(i + 1).drop_last() =~= powers@.take(i as int));
            lemma_total_power_of_prefix(powers@, i + 1);
        }
        match sum.checked_add(powers[i]) {
            Some(next) => {
                sum = next;
            },
            None => {
                return None;
            },
        }
        i += 1;
    }
    assert(powers@.take(powers.len() as int) =~= powers@);
    Some(sum)
}

/// The inputs on which the verifier runs to a verdict.
///
/// The verifier increments the trusted block number, indexes the signatures by a 32-bit number,
/// and adds and multiplies voting powers in 64 bits: three times the power of the header's
/// validators, and the power of the trusted validators times the threshold's denominator.
/// Outside these bounds it may stop the process.
pub open spec fn verifier_is_total(header: TendermintHeader, threshold: TrustThreshold) -> bool {
    &&& header.trusted_height.revision_height < i64::MAX
    &&& threshold.spec_is_valid()
    &&& voting_power_in_range(header, threshold)
}

/// The part of [`verifier_is_total`] that speaks of the validator sets.
pub open spec fn voting_power_in_range(header: TendermintHeader, threshold: TrustThreshold) -> bool {
    &&& validator_powers(header.validator_set).len() <= u32::MAX
    &&& 3 * total_power(validator_powers(header.validator_set)) <= u64::MAX
    &&& total_power(validator_powers(header.trusted_validator_set)) * threshold.denominator
        <= u64::MAX
}

/// Whether the validator sets of `header` are within what the verifier can count.
pub fn check_voting_power(header: &TendermintHeader, threshold: &TrustThreshold) -> (in_range: bool)
    ensures
        in_range == voting_power_in_range(*header, *threshold),
{
    let signers = read_validator_powers(&header.validator_set);
    let trusted = read_validator_powers(&header.trusted_validator_set);
    if signers.len() > u32::MAX as usize {
        return false;
    }
    let signers_fit = match checked_total_power(&signers) {
        Some(total) => total <= u64::MAX / 3,
        None => false,
    };
    let trusted_fit = match checked_total_power(&trusted) {
        Some(total) => total.checked_mul(threshold.denominator).is_some(),
        None => {
            proof {
                lemma_product_exceeds(total_power(trusted@), threshold.denominator as int);
            }
            threshold.denominator == 0
        },
    };
    signers_fit && trusted_fit
}

/// A number above the 64-bit range stays above it when multiplied by a positive number.
proof fn lemma_product_exceeds(total: int, factor: int)
    requires
        total > u64::MAX,
        factor >= 0,
    ensures
        factor > 0 ==> total * factor > u64::MAX,
        factor == 0 ==> total * factor == 0,
{
    assert(factor > 0 ==> total * factor >= total) by (nonlinear_arith)
        requires
            total > 0,
            factor >= 0,
    ;
}

/// Calls `ProdVerifier::verify` of `tendermint-light-client-verifier`: the header's signed
/// header and validator set as the untrusted state, without a next validator set; as the trusted
/// state the given time, the block number of the header's trusted height, the header's trusted
/// validator set and the given hash. Trusted: the verdict is a function of these inputs alone.
/// The verifier's finding on an invalid header is kept as its `Debug` text. The two times are
/// built with `tendermint::Time::from_unix_timestamp`, which succeeds for every [`Timestamp`];
/// `requires` leaves out the inputs on which the verifier's arithmetic overflows.
#[verifier::external_body]
pub(crate) fn run_verifier(
    header: &TendermintHeader,
    trusted_time: &Timestamp,
    next_validators_hash: &Digest,
    options: &Options,
    now: &Timestamp,
) -> (verdict: Verdict)
    requires
        verifier_is_total(*header, options_of(*options).trust_threshold),
    ensures
        verdict@ == header_verdict(
            *header,
            *trusted_time,
            next_validators_hash@,
            options_of(*options),
            *now,
        ),
{
    match ProdVerifier::default().verify(
        UntrustedBlockState { signed_header: &header.signed_header, validators: &header.validator_set, next_validators: None },
        TrustedBlockState {
            header_time: VerifierTime::from_unix_timestamp(trusted_time.seconds, trusted_time.nanos).unwrap(),
            height: header.trusted_height.revision_height.try_into().unwrap(),
            next_validators: &header.trusted_validator_set,
            next_validators_hash: next_validators_hash.bytes.clone().try_into().unwrap(),
        },
        options,
        VerifierTime::from_unix_timestamp(now.seconds, now.nanos).unwrap(),
    ) {
        VerifierVerdict::Success => Verdict::Success,
        VerifierVerdict::NotEnoughTrust(tally) => Verdict::NotEnoughTrust(VotingPowerTally { total: tally.total, tallied: tally.tallied, trust_threshold: TrustThreshold { numerator: tally.trust_threshold.numerator(), denominator: tally.trust_threshold.denominator() } }),
        VerifierVerdict::Invalid(detail) => Verdict::Invalid(format!("{:?}", detail)),
    }
}

/// The parameters that a client's state gives the verifier.
pub open spec fn light_client_options(client_state: TendermintClientState) -> VerificationOptions {
    VerificationOptions {
        trust_threshold: client_state.trust_level,
        trusting_period: client_state.trusting_period,
        clock_drift: client_state.max_clock_drift,
    }
}

/// The parameters that `client_state` gives the verifier.
pub fn as_light_client_options(client_state: &TendermintClientState) -> (options:
    VerificationOptions)
    ensures
        options == light_client_options(*client_state),
{
    VerificationOptions {
        trust_threshold: client_state.trust_level,
        trusting_period: client_state.trusting_period,
        clock_drift: client_state.max_clock_drift,
    }
}

/// What a verdict means for the update: success accepts it, each other verdict rejects it with
/// what the verifier found.
pub open spec fn verdict_outcome(verdict: VerdictView) -> Outcome {
    match verdict {
        VerdictView::Success => Ok(()),
        VerdictView::NotEnoughTrust(tally) => Err(ErrorView::InsufficientTrust(tally)),
        VerdictView::Invalid(finding) => Err(
            ErrorView::InvalidHeader(InvalidHeaderDetailView::Verifier(finding)),
        ),
    }
}

/// Turns the verifier's verdict into the result of the update's validation.
pub fn interpret_verdict(verdict: Verdict) -> (result: Result<(), Error>)
    ensures
        outcome_of(result) == verdict_outcome(verdict@),
{
    match verdict {
        Verdict::Success => Ok(()),
        Verdict::NotEnoughTrust(tally) => Err(Error::InsufficientTrust(tally)),
        Verdict::Invalid(finding) => Err(Error::InvalidHeader(InvalidHeaderDetail::Verifier(finding))),
    }
}

} // verus!
