use vstd::prelude::*;

use crate::types::{ConnectionEnd, ConnectionEndView, Height, opt_conn};

verus! {

/// What the predicate reads: connection objects in the views before and after the
/// transaction, the light client's stored states, and the client's verification
/// of membership proofs. A host implements it over its storage and its light clients.
///
/// Each spec function names what the host observes; the methods return exactly it,
/// so a validation is a function of these observations alone. A host treats a storage
/// read that fails as an absent value: the predicate then rejects rather than errors.
pub trait ConnectionReader {
    /// The connection end stored under `conn_id` after the transaction.
    spec fn spec_connection_end(&self, conn_id: Seq<char>) -> Option<ConnectionEndView>;

    /// The connection end stored under `conn_id` before the transaction.
    spec fn spec_connection_end_pre(&self, conn_id: Seq<char>) -> Option<ConnectionEndView>;

    /// Whether a value is stored under the key of `conn_id` before the transaction.
    spec fn spec_has_connection_pre(&self, conn_id: Seq<char>) -> bool;

    /// Whether a value is stored under the key of `conn_id` after the transaction.
    spec fn spec_has_connection_post(&self, conn_id: Seq<char>) -> bool;

    /// Whether the light client `client_id` has a client state.
    spec fn spec_has_client_state(&self, client_id: Seq<char>) -> bool;

    /// Whether the light client `client_id` has a consensus state at `height`.
    spec fn spec_has_client_consensus_state(&self, client_id: Seq<char>, height: Height) -> bool;

    /// Whether this chain has its own consensus state at `height`.
    spec fn spec_has_host_consensus_state(&self, height: Height) -> bool;

    /// Whether `proof` shows, under client `client_id` at `height`, that the counterparty
    /// stores `expected` under connection `conn_id` in the namespace `prefix`.
    spec fn spec_verify_connection_state(
        &self,
        client_id: Seq<char>,
        height: Height,
        prefix: Seq<u8>,
        proof: Seq<u8>,
        conn_id: Option<Seq<char>>,
        expected: ConnectionEndView,
    ) -> bool;

    /// Whether `proof` shows, under client `client_id` at `height`, that the counterparty's
    /// client `counterparty_client_id` records this chain's client state.
    spec fn spec_verify_client_full_state(
        &self,
        client_id: Seq<char>,
        height: Height,
        prefix: Seq<u8>,
        counterparty_client_id: Seq<char>,
        proof: Seq<u8>,
    ) -> bool;

    /// Whether `proof` shows, under client `client_id` at `height`, that the counterparty's
    /// client `counterparty_client_id` records this chain's consensus state at `height`.
    spec fn spec_verify_client_consensus_state(
        &self,
        client_id: Seq<char>,
        height: Height,
        prefix: Seq<u8>,
        counterparty_client_id: Seq<char>,
        proof: Seq<u8>,
    ) -> bool;

    /// The height of this chain's current block.
    spec fn spec_block_height(&self) -> u64;

    /// The number of connections created on this chain so far.
    spec fn spec_connection_counter(&self) -> u64;

    fn block_height(&self) -> (r: u64)
        ensures
            r == self.spec_block_height(),
    ;

    fn connection_counter(&self) -> (r: u64)
        ensures
            r == self.spec_connection_counter(),
    ;

    fn connection_end(&self, conn_id: &String) -> (r: Option<ConnectionEnd>)
        ensures
            opt_conn(r) == self.spec_connection_end(conn_id@),
    ;

    fn connection_end_pre(&self, conn_id: &String) -> (r: Option<ConnectionEnd>)
        ensures
            opt_conn(r) == self.spec_connection_end_pre(conn_id@),
    ;

    fn has_connection_pre(&self, conn_id: &String) -> (r: bool)
        ensures
            r == self.spec_has_connection_pre(conn_id@),
    ;

    fn has_connection_post(&self, conn_id: &String) -> (r: bool)
        ensures
            r == self.spec_has_connection_post(conn_id@),
    ;

    fn has_client_state(&self, client_id: &String) -> (r: bool)
        ensures
            r == self.spec_has_client_state(client_id@),
    ;

    fn has_client_consensus_state(&self, client_id: &String, height: Height) -> (r: bool)
        ensures
            r == self.spec_has_client_consensus_state(client_id@, height),
    ;

    fn has_host_consensus_state(&self, height: Height) -> (r: bool)
        ensures
            r == self.spec_has_host_consensus_state(height),
    ;

    fn verify_connection_state(
        &self,
        client_id: &String,
        height: Height,
        prefix: &Vec<u8>,
        proof: &Vec<u8>,
        conn_id: &Option<String>,
        expected: &ConnectionEnd,
    ) -> (r: bool)
        ensures
            r == self.spec_verify_connection_state(
                client_id@,
                height,
                prefix@,
                proof@,
                crate::types::opt_chars(*conn_id),
                expected@,
            ),
    ;

    fn verify_client_full_state(
        &self,
        client_id: &String,
        height: Height,
        prefix: &Vec<u8>,
        counterparty_client_id: &String,
        proof: &Vec<u8>,
    ) -> (r: bool)
        ensures
            r == self.spec_verify_client_full_state(
                client_id@,
                height,
                prefix@,
                counterparty_client_id@,
                proof@,
            ),
    ;

    fn verify_client_consensus_state(
        &self,
        client_id: &String,
        height: Height,
        prefix: &Vec<u8>,
        counterparty_client_id: &String,
        proof: &Vec<u8>,
    ) -> (r: bool)
        ensures
            r == self.spec_verify_client_consensus_state(
                client_id@,
                height,
                prefix@,
                counterparty_client_id@,
                proof@,
            ),
    ;
}

/// This chain's current height: revision 0 at the current block height.
pub fn host_current_height<C: ConnectionReader>(ctx: &C) -> (r: Height)
    ensures
        r == (Height { revision_number: 0, revision_height: ctx.spec_block_height() }),
{
    Height { revision_number: 0, revision_height: ctx.block_height() }
}

/// The oldest height of this chain that proofs may cite: revision 0, block 1.
pub fn host_oldest_height() -> (r: Height)
    ensures
        r == (Height { revision_number: 0, revision_height: 1 }),
{
    Height { revision_number: 0, revision_height: 1 }
}

} // verus!
