//! What validation reads of the chain's own state.

use vstd::prelude::*;
use crate::client::{ClientData, ClientId};
use crate::consensus::{AnyConsensusState, AnyConsensusStateView};
use crate::height::Height;
use crate::time::Timestamp;

verus! {

/// A read view of the clients, their verified consensus states and the block being built.
///
/// The spec functions say what the store holds; each executable method returns just that.
pub trait ClientStore: Sized {
    /// The client with this identifier, if there is one.
    spec fn client(&self, client_id: ClientId) -> Option<ClientData>;

    /// The verified consensus state of this client at this height, if there is one.
    spec fn consensus_state(&self, client_id: ClientId, height: Height) -> Option<
        AnyConsensusStateView,
    >;

    /// The number of clients created so far.
    spec fn counter(&self) -> u64;

    /// The time of the block being built.
    spec fn block_timestamp(&self) -> Timestamp;

    /// The height of the block being built.
    spec fn block_height(&self) -> u64;

    fn get_client_data(&self, client_id: &ClientId) -> (data: Option<ClientData>)
        ensures
            data == self.client(*client_id),
    ;

    fn get_verified_consensus_state(&self, height: Height, client_id: &ClientId) -> (state: Option<
        AnyConsensusState,
    >)
        ensures
            state is Some <==> self.consensus_state(*client_id, height) is Some,
            state matches Some(s) ==> Some(s@) == self.consensus_state(*client_id, height),
    ;

    fn client_counter(&self) -> (counter: u64)
        ensures
            counter == self.counter(),
    ;

    fn get_block_timestamp(&self) -> (now: Timestamp)
        ensures
            now == self.block_timestamp(),
    ;

    fn get_block_height(&self) -> (height: u64)
        ensures
            height == self.block_height(),
    ;
}

/// A consensus state with the client and the height it belongs to.
pub struct ConsensusEntry {
    pub client_id: ClientId,
    pub height: Height,
    pub state: AnyConsensusState,
}

/// The client that the newest entry for `client_id` records, newest entries first.
pub open spec fn find_client(clients: Seq<ClientData>, client_id: ClientId) -> Option<ClientData>
    decreases clients.len(),
{
    if clients.len() == 0 {
        None
    } else if clients[0].client_id == client_id {
        Some(clients[0])
    } else {
        find_client(clients.drop_first(), client_id)
    }
}

/// The consensus state that the newest entry for `client_id` at `height` records, newest entries
/// first.
pub open spec fn find_consensus_state(
    entries: Seq<ConsensusEntry>,
    client_id: ClientId,
    height: Height,
) -> Option<AnyConsensusStateView>
    decreases entries.len(),
{
    if entries.len() == 0 {
        None
    } else if entries[0].client_id == client_id && entries[0].height == height {
        Some(entries[0].state@)
    } else {
        find_consensus_state(entries.drop_first(), client_id, height)
    }
}

/// A store in memory: a snapshot of the chain's state for one validation, or a chain in a test.
///
/// Entries are kept newest first, and a newer entry for the same key hides an older one.
pub struct MemoryStore {
    pub clients: Vec<ClientData>,
    pub consensus_states: Vec<ConsensusEntry>,
    pub counter: u64,
    pub block_timestamp: Timestamp,
    pub block_height: u64,
}

impl MemoryStore {
    /// A store without clients, in a block of the given time and height.
    pub fn new(block_timestamp: Timestamp, block_height: u64) -> (store: MemoryStore)
        ensures
            forall|client_id: ClientId| store.client(client_id) is None,
            forall|client_id: ClientId, height: Height|
                store.consensus_state(client_id, height) is None,
            store.counter() == 0,
            store.block_timestamp() == block_timestamp,
            store.block_height() == block_height,
    {
        MemoryStore {
            clients: Vec::new(),
            consensus_states: Vec::new(),
            counter: 0,
            block_timestamp,
            block_height,
        }
    }

    /// Records `data` as the client with the identifier it carries.
    pub fn put_client(&mut self, data: ClientData)
        ensures
            final(self).client(data.client_id) == Some(data),
            forall|other: ClientId|
                other != data.client_id ==> final(self).client(other) == old(self).client(other),
            forall|client_id: ClientId, height: Height|
                final(self).consensus_state(client_id, height) == old(self).consensus_state(
                    client_id,
                    height,
                ),
            final(self).counter() == old(self).counter(),
            final(self).block_timestamp() == old(self).block_timestamp(),
            final(self).block_height() == old(self).block_height(),
    {
        self.clients.insert(0, data);
        proof {
            assert(self.clients@.drop_first() =~= old(self).clients@);
        }
    }

    /// Records `state` as the consensus state of `client_id` at `height`.
    pub fn put_consensus_state(
        &mut self,
        client_id: ClientId,
        height: Height,
        state: AnyConsensusState,
    )
        ensures
            final(self).consensus_state(client_id, height) == Some(state@),
            forall|other_id: ClientId, other_height: Height|
                other_id != client_id || other_height != height ==> final(self).consensus_state(
                    other_id,
                    other_height,
                ) == old(self).consensus_state(other_id, other_height),
            forall|other: ClientId| final(self).client(other) == old(self).client(other),
            final(self).counter() == old(self).counter(),
            final(self).block_timestamp() == old(self).block_timestamp(),
            final(self).block_height() == old(self).block_height(),
    {
        self.consensus_states.insert(0, ConsensusEntry { client_id, height, state });
        proof {
            assert(self.consensus_states@.drop_first() =~= old(self).consensus_states@);
        }
    }
}

impl ClientStore for MemoryStore {
    open spec fn client(&self, client_id: ClientId) -> Option<ClientData> {
        find_client(self.clients@, client_id)
    }

    open spec fn consensus_state(&self, client_id: ClientId, height: Height) -> Option<
        AnyConsensusStateView,
    > {
        find_consensus_state(self.consensus_states@, client_id, height)
    }

    open spec fn counter(&self) -> u64 {
        self.counter
    }

    open spec fn block_timestamp(&self) -> Timestamp {
        self.block_timestamp
    }

    open spec fn block_height(&self) -> u64 {
        self.block_height
    }

    fn get_client_data(&self, client_id: &ClientId) -> (data: Option<ClientData>) {
        let mut i: usize = 0;
        assert(self.clients@.skip(0) =~= self.clients@);
        while i < self.clients.len()
            invariant
                i <= self.clients.len(),
                find_client(self.clients@, *client_id) == find_client(
                    self.clients@.skip(i as int),
                    *client_id,
                ),
            decreases self.clients.len() - i,
        {
            let entry = self.clients[i];
            if entry.client_id == *client_id {
                return Some(entry);
            }
            proof {
                assert(self.clients@.skip(i as int).drop_first() =~= self.clients@.skip(i + 1));
            }
            i += 1;
        }
        None
    }

    fn get_verified_consensus_state(&self, height: Height, client_id: &ClientId) -> (state: Option<
        AnyConsensusState,
    >) {
        let mut i: usize = 0;
        assert(self.consensus_states@.skip(0) =~= self.consensus_states@);
        while i < self.consensus_states.len()
            invariant
                i <= self.consensus_states.len(),
                find_consensus_state(self.consensus_states@, *client_id, height)
                    == find_consensus_state(
                    self.consensus_states@.skip(i as int),
                    *client_id,
                    height,
                ),
            decreases self.consensus_states.len() - i,
        {
            let entry = &self.consensus_states[i];
            if entry.client_id == *client_id && entry.height == height {
                return Some(entry.state.clone());
            }
            proof {
                assert(self.consensus_states@.skip(i as int).drop_first()
                    =~= self.consensus_states@.skip(i + 1));
            }
            i += 1;
        }
        None
    }

    fn client_counter(&self) -> (counter: u64) {
        self.counter
    }

    fn get_block_timestamp(&self) -> (now: Timestamp) {
        self.block_timestamp
    }

    fn get_block_height(&self) -> (height: u64) {
        self.block_height
    }
}

} // verus!
