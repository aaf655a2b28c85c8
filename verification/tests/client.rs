use ibc_client_validation::client::{
    AnyClientState, ChainId, ClientType, MockClientState, TendermintClientState, TrustThreshold,
};
use ibc_client_validation::height::Height;
use ibc_client_validation::time::Duration;

fn tendermint_state() -> TendermintClientState {
    TendermintClientState {
        chain_id: ChainId { version: 4 },
        trust_level: TrustThreshold { numerator: 1, denominator: 3 },
        trusting_period: Duration::from_secs(100),
        max_clock_drift: Duration::from_secs(5),
        latest_height: Height::new(4, 10),
        frozen_height: None,
    }
}

#[test]
fn client_types_have_their_tags() {
    assert_eq!(ClientType::Tendermint.as_str(), "07-tendermint");
    assert_eq!(ClientType::Mock.as_str(), "9999-mock");
}

#[test]
fn trust_threshold_lies_between_a_third_and_one() {
    let valid = |numerator, denominator| TrustThreshold { numerator, denominator }.is_valid();
    assert!(valid(1, 3));
    assert!(valid(2, 3));
    assert!(valid(1, 2));
    assert!(valid(99, 100));
    assert!(!valid(1, 4));
    assert!(!valid(3, 3));
    assert!(!valid(4, 3));
    assert!(!valid(0, 0));
    assert!(!valid(0, 1));
    assert!(!valid(1, 0));
    // Three times the numerator must fit in 64 bits.
    assert!(valid(u64::MAX / 3, u64::MAX));
    assert!(!valid(u64::MAX / 3 + 1, u64::MAX));
    assert!(!valid(u64::MAX - 1, u64::MAX));
}

#[test]
fn the_library_accepts_the_thresholds_that_tendermint_accepts() {
    for (numerator, denominator) in [(1, 3), (2, 3), (1, 4), (3, 3), (0, 0), (5, 4), (1, 2), (0, 1)] {
        assert_eq!(
            TrustThreshold { numerator, denominator }.is_valid(),
            tendermint::trust_threshold::TrustThresholdFraction::new(numerator, denominator).is_ok(),
            "{}/{}",
            numerator,
            denominator
        );
    }
}

#[test]
fn tendermint_client_expires_after_its_trusting_period() {
    let state = tendermint_state();
    assert!(!state.expired(Duration::from_secs(99)));
    assert!(!state.expired(Duration::from_secs(100)));
    assert!(state.expired(Duration::new(100, 1).unwrap()));
    assert!(state.expired(Duration::from_secs(101)));
    let any = AnyClientState::Tendermint(state);
    assert!(!any.expired(Duration::from_secs(100)));
    assert!(any.expired(Duration::from_secs(101)));
}

#[test]
fn mock_client_never_expires() {
    let any = AnyClientState::Mock(MockClientState {
        latest_height: Height::new(0, 1),
        frozen_height: None,
    });
    assert!(!any.expired(Duration::from_secs(u64::MAX)));
    assert_eq!(any.client_type(), ClientType::Mock);
    assert_eq!(any.latest_height(), Height::new(0, 1));
    assert!(!any.is_frozen());
}

#[test]
fn client_state_hands_out_what_it_records() {
    let any = AnyClientState::Tendermint(tendermint_state());
    assert_eq!(any.client_type(), ClientType::Tendermint);
    assert_eq!(any.latest_height(), Height::new(4, 10));
    assert_eq!(any.frozen_height(), None);
    assert!(!any.is_frozen());
    assert_eq!(tendermint_state().chain_id.version(), 4);
}

#[test]
fn freezing_keeps_everything_but_the_frozen_height() {
    let frozen = AnyClientState::Tendermint(tendermint_state()).with_frozen_height(Height::new(4, 8));
    assert!(frozen.is_frozen());
    let mut expected = tendermint_state();
    expected.frozen_height = Some(Height::new(4, 8));
    assert_eq!(frozen, AnyClientState::Tendermint(expected));

    // Freezing again keeps the client frozen.
    let again = frozen.with_frozen_height(Height::new(4, 9));
    assert!(again.is_frozen());
    expected.frozen_height = Some(Height::new(4, 9));
    assert_eq!(again, AnyClientState::Tendermint(expected));

    let mock = AnyClientState::Mock(MockClientState {
        latest_height: Height::new(0, 1),
        frozen_height: None,
    })
    .with_frozen_height(Height::new(0, 1));
    assert_eq!(
        mock,
        AnyClientState::Mock(MockClientState {
            latest_height: Height::new(0, 1),
            frozen_height: Some(Height::new(0, 1)),
        })
    );
}
