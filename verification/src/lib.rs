//! Validation of light-client creation and update messages.
//!
//! A light client follows a remote chain through headers that anybody may submit. This crate
//! decides whether such a header may advance a client: it reads what the chain already holds
//! through [`store::ClientStore`], runs the structural checks itself and hands the signatures to
//! the Tendermint light-client verifier. Nothing here writes: a caller applies an accepted update.

pub mod height;
pub mod time;

pub mod client;
pub mod consensus;
pub mod header;
pub mod error;
pub mod msgs;
pub mod identifier;
pub mod create_client;
pub mod store;
pub mod update_client;
pub mod laws;
pub mod verification;
