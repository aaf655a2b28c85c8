//! Whether a client can be created.

use vstd::prelude::*;
use crate::client::ClientType;
use crate::error::{Error, ErrorView, Outcome, outcome_of};
use crate::identifier::{client_identifier, make_client_identifier};
use crate::msgs::MsgCreateAnyClient;
use crate::store::ClientStore;

verus! {

/// What the attempt to make an identifier means for the creation: with an identifier the client
/// can be created, without one its kind is not one that clients can be made of.
pub open spec fn creation_outcome(identifier: Option<Seq<char>>) -> Outcome {
    match identifier {
        Some(_) => Ok(()),
        None => Err(ErrorView::TypeMismatch),
    }
}

/// Turns the attempt to make an identifier into the result of the creation's validation.
pub fn interpret_identifier(identifier: Option<String>) -> (result: Result<(), Error>)
    ensures
        outcome_of(result) == creation_outcome(
            match identifier {
                Some(text) => Some(text@),
                None => None,
            },
        ),
{
    match identifier {
        Some(_) => Ok(()),
        None => Err(Error::TypeMismatch),
    }
}

/// Whether a client of the kind `client_type` can be created after `counter` others: whether an
/// identifier can be made for it, as it can for every Tendermint client.
pub fn client_can_be_created(client_type: ClientType, counter: u64) -> (result: Result<(), Error>)
    ensures
        outcome_of(result) == creation_outcome(client_identifier(client_type.tag(), counter)),
        client_type == ClientType::Tendermint ==> result is Ok,
{
    interpret_identifier(make_client_identifier(client_type.as_str(), counter))
}

/// The validation of a request to create a client.
pub trait CreateClientCheck: ClientStore {
    /// Accepts the request if an identifier can be made for a client of the requested kind
    /// under the store's client counter, as it can for every Tendermint client. Nothing is
    /// written: the caller creates the client and advances the counter.
    fn validate(&self, msg: &MsgCreateAnyClient) -> (result: Result<(), Error>)
        ensures
            outcome_of(result) == creation_outcome(
                client_identifier(msg.client_state.spec_client_type().tag(), self.counter()),
            ),
            msg.client_state is Tendermint ==> result is Ok,
    {
        let counter = self.client_counter();
        client_can_be_created(msg.client_state.client_type(), counter)
    }
}

impl<T: ClientStore> CreateClientCheck for T {

}

} // verus!
