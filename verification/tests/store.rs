use ibc_client_validation::client::{
    AnyClientState, ClientData, ClientId, ClientType, MockClientState,
};
use ibc_client_validation::consensus::{AnyConsensusState, MockConsensusState};
use ibc_client_validation::height::Height;
use ibc_client_validation::store::{ClientStore, MemoryStore};
use ibc_client_validation::time::Timestamp;

fn block_time(seconds: i64) -> Timestamp {
    Timestamp::from_unix_timestamp(seconds, 0).unwrap()
}

fn id(counter: u64) -> ClientId {
    ClientId { client_type: ClientType::Mock, counter }
}

fn client(counter: u64, latest: u64) -> ClientData {
    ClientData {
        client_id: id(counter),
        client_state: AnyClientState::Mock(MockClientState {
            latest_height: Height::new(0, latest),
            frozen_height: None,
        }),
    }
}

fn mock_state(seconds: i64) -> AnyConsensusState {
    AnyConsensusState::Mock(MockConsensusState { timestamp: block_time(seconds) })
}

#[test]
fn new_store_is_empty() {
    let store = MemoryStore::new(block_time(5), 9);
    assert_eq!(store.get_client_data(&id(0)), None);
    assert_eq!(store.get_verified_consensus_state(Height::new(0, 1), &id(0)), None);
    assert_eq!(store.client_counter(), 0);
    assert_eq!(store.get_block_timestamp(), block_time(5));
    assert_eq!(store.get_block_height(), 9);
}

#[test]
fn clients_are_found_by_their_identifier() {
    let mut store = MemoryStore::new(block_time(5), 9);
    store.put_client(client(0, 10));
    store.put_client(client(1, 20));
    assert_eq!(store.get_client_data(&id(0)), Some(client(0, 10)));
    assert_eq!(store.get_client_data(&id(1)), Some(client(1, 20)));
    assert_eq!(store.get_client_data(&id(2)), None);
    let tendermint = ClientId { client_type: ClientType::Tendermint, counter: 0 };
    assert_eq!(store.get_client_data(&tendermint), None);
}

#[test]
fn a_newer_client_entry_hides_the_older_one() {
    let mut store = MemoryStore::new(block_time(5), 9);
    store.put_client(client(0, 10));
    store.put_client(client(1, 20));
    store.put_client(client(0, 30));
    assert_eq!(store.get_client_data(&id(0)), Some(client(0, 30)));
    assert_eq!(store.get_client_data(&id(1)), Some(client(1, 20)));
}

#[test]
fn consensus_states_are_found_by_client_and_height() {
    let mut store = MemoryStore::new(block_time(5), 9);
    store.put_consensus_state(id(0), Height::new(0, 1), mock_state(100));
    store.put_consensus_state(id(0), Height::new(0, 2), mock_state(200));
    store.put_consensus_state(id(1), Height::new(0, 1), mock_state(300));
    assert_eq!(store.get_verified_consensus_state(Height::new(0, 1), &id(0)), Some(mock_state(100)));
    assert_eq!(store.get_verified_consensus_state(Height::new(0, 2), &id(0)), Some(mock_state(200)));
    assert_eq!(store.get_verified_consensus_state(Height::new(0, 1), &id(1)), Some(mock_state(300)));
    assert_eq!(store.get_verified_consensus_state(Height::new(0, 2), &id(1)), None);
    assert_eq!(store.get_verified_consensus_state(Height::new(1, 1), &id(0)), None);
}

#[test]
fn a_newer_consensus_state_hides_the_older_one() {
    let mut store = MemoryStore::new(block_time(5), 9);
    store.put_consensus_state(id(0), Height::new(0, 1), mock_state(100));
    store.put_consensus_state(id(0), Height::new(0, 1), mock_state(150));
    assert_eq!(store.get_verified_consensus_state(Height::new(0, 1), &id(0)), Some(mock_state(150)));
}

#[test]
fn writes_leave_the_block_and_the_counter_alone() {
    let mut store = MemoryStore::new(block_time(5), 9);
    store.counter = 4;
    store.put_client(client(0, 10));
    store.put_consensus_state(id(0), Height::new(0, 1), mock_state(100));
    assert_eq!(store.client_counter(), 4);
    assert_eq!(store.get_block_timestamp(), block_time(5));
    assert_eq!(store.get_block_height(), 9);
}
