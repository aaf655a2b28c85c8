use ibc_client_validation::consensus::{
    copy_bytes, same_bytes, AnyConsensusState, Digest, MockConsensusState,
    TendermintConsensusState, SHA256_LEN,
};
use ibc_client_validation::time::Timestamp;

fn consensus(seconds: i64, root: Vec<u8>, hash_byte: u8) -> TendermintConsensusState {
    TendermintConsensusState {
        timestamp: Timestamp::from_unix_timestamp(seconds, 0).unwrap(),
        root,
        next_validators_hash: Digest::from_bytes(vec![hash_byte; 32]).unwrap(),
    }
}

#[test]
fn same_bytes_compares_every_byte() {
    assert!(same_bytes(&vec![], &vec![]));
    assert!(same_bytes(&vec![1, 2, 3], &vec![1, 2, 3]));
    assert!(!same_bytes(&vec![1, 2, 3], &vec![1, 2, 4]));
    assert!(!same_bytes(&vec![9, 2, 3], &vec![1, 2, 3]));
    assert!(!same_bytes(&vec![1, 2], &vec![1, 2, 3]));
    assert!(!same_bytes(&vec![1, 2, 3], &vec![]));
}

#[test]
fn copy_bytes_copies() {
    assert_eq!(copy_bytes(&vec![]), Vec::<u8>::new());
    assert_eq!(copy_bytes(&vec![7, 0, 255]), vec![7, 0, 255]);
}

#[test]
fn digest_is_empty_or_thirty_two_bytes() {
    assert_eq!(SHA256_LEN, 32);
    assert!(Digest::from_bytes(vec![]).is_some());
    assert!(Digest::from_bytes(vec![0; 32]).is_some());
    assert!(Digest::from_bytes(vec![0; 31]).is_none());
    assert!(Digest::from_bytes(vec![0; 33]).is_none());
    assert!(Digest::from_bytes(vec![0; 1]).is_none());
    let digest = Digest::from_bytes(vec![5; 32]).unwrap();
    assert_eq!(digest.as_bytes(), &vec![5; 32]);
    assert_eq!(digest.clone(), digest);
}

#[test]
fn the_library_accepts_the_hashes_that_tendermint_accepts() {
    for len in [0usize, 1, 20, 31, 32, 33, 64] {
        let bytes = vec![3u8; len];
        let theirs: Result<tendermint::Hash, _> = bytes.clone().try_into();
        assert_eq!(Digest::from_bytes(bytes).is_some(), theirs.is_ok(), "{}", len);
    }
}

#[test]
fn digests_compare_by_their_bytes() {
    let one = Digest::from_bytes(vec![1; 32]).unwrap();
    let other = Digest::from_bytes(vec![2; 32]).unwrap();
    let empty = Digest::from_bytes(vec![]).unwrap();
    assert!(one.same_as(&one.clone()));
    assert!(!one.same_as(&other));
    assert!(!one.same_as(&empty));
    assert!(empty.same_as(&Digest::from_bytes(vec![]).unwrap()));
}

#[test]
fn consensus_states_compare_in_every_field() {
    let base = consensus(10, vec![1, 2], 7);
    assert!(base.same_as(&base.clone()));
    assert!(base.same_as(&consensus(10, vec![1, 2], 7)));
    assert!(!base.same_as(&consensus(11, vec![1, 2], 7)));
    assert!(!base.same_as(&consensus(10, vec![1, 3], 7)));
    assert!(!base.same_as(&consensus(10, vec![1, 2, 0], 7)));
    assert!(!base.same_as(&consensus(10, vec![1, 2], 8)));
}

#[test]
fn clones_are_equal_to_what_they_copy() {
    let tendermint = AnyConsensusState::Tendermint(consensus(10, vec![1, 2], 7));
    assert_eq!(tendermint.clone(), tendermint);
    let mock = AnyConsensusState::Mock(MockConsensusState {
        timestamp: Timestamp::from_unix_timestamp(3, 4).unwrap(),
    });
    assert_eq!(mock.clone(), mock);
    assert_ne!(mock, tendermint);
}
