//! Validity predicate for the connection handshake between two chains.
//!
//! A transaction that writes a connection object is accepted only when the change is a
//! step of the handshake (a new end in `Init` or `TryOpen`, or an `Init`/`TryOpen` end
//! becoming `Open`) and the counterparty's proofs check out under its light client.
//! The host supplies its storage views and light clients through `reader::ConnectionReader`.

pub mod connection;
pub mod dkg_session_keys;
pub mod host;
pub mod reader;
pub mod storage;
pub mod types;
