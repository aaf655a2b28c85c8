//! The two messages that validation judges.

use vstd::prelude::*;
use crate::client::{AnyClientState, ClientId};
use crate::consensus::AnyConsensusState;
use crate::header::AnyHeader;

verus! {

/// A request to create a client from an initial client state and consensus state.
pub struct MsgCreateAnyClient {
    pub client_state: AnyClientState,
    pub consensus_state: AnyConsensusState,
}

/// A request to advance a client by a header.
pub struct MsgUpdateAnyClient {
    pub client_id: ClientId,
    pub header: AnyHeader,
}

} // verus!
