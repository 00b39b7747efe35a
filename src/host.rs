use vstd::prelude::*;

use crate::reader::ConnectionReader;
use crate::types::{
    bytes_equal, copy_end, end_equal, opt_chars, opt_string_equal, ConnectionEnd,
    ConnectionEndView, Height, opt_conn,
};

verus! {

/// A proof that the in-memory light client accepts for the connection object `connection`
/// stored under `connection_id`.
#[derive(Clone, Debug)]
pub struct ConnectionProof {
    pub proof: Vec<u8>,
    pub connection_id: Option<String>,
    pub connection: ConnectionEnd,
}

/// A proof that the in-memory light client accepts for the counterparty client `client_id`'s
/// record of this chain, at `height`.
#[derive(Clone, Debug)]
pub struct StateProof {
    pub proof: Vec<u8>,
    pub client_id: String,
    pub height: Height,
}

/// A host held in memory: the connection ends before and after the transaction, the light
/// clients with their consensus heights, this chain's own consensus heights, and the proofs
/// that its light client accepts. Where an identifier occurs twice, the first entry counts.
#[derive(Clone, Debug)]
pub struct MemoryHost {
    pub pre: Vec<(String, ConnectionEnd)>,
    pub post: Vec<(String, ConnectionEnd)>,
    pub clients: Vec<String>,
    pub consensus_states: Vec<(String, Height)>,
    pub host_consensus_states: Vec<Height>,
    pub connection_proofs: Vec<ConnectionProof>,
    pub client_proofs: Vec<StateProof>,
    pub consensus_proofs: Vec<StateProof>,
    pub block_height: u64,
    pub connection_counter: u64,
}

/// The first connection end stored under `id`.
pub open spec fn find_end(entries: Seq<(String, ConnectionEnd)>, id: Seq<char>) -> Option<
    ConnectionEndView,
>
    decreases entries.len(),
{
    if entries.len() == 0 {
        None
    } else if entries[0].0@ == id {
        Some(entries[0].1@)
    } else {
        find_end(entries.drop_first(), id)
    }
}

pub open spec fn has_entry(entries: Seq<(String, ConnectionEnd)>, id: Seq<char>) -> bool {
    exists|i: int| 0 <= i < entries.len() && (#[trigger] entries[i]).0@ == id
}

pub open spec fn has_state_proof(
    proofs: Seq<StateProof>,
    client_id: Seq<char>,
    height: Height,
    proof: Seq<u8>,
) -> bool {
    exists|i: int|
        0 <= i < proofs.len() && (#[trigger] proofs[i]).proof@ == proof && proofs[i].client_id@
            == client_id && proofs[i].height == height
}

/// An identifier that has a first entry has an entry.
pub proof fn lemma_find_end_has_entry(entries: Seq<(String, ConnectionEnd)>, id: Seq<char>)
    ensures
        find_end(entries, id) is Some ==> has_entry(entries, id),
    decreases entries.len(),
{
    if entries.len() > 0 && entries[0].0@ != id {
        lemma_find_end_has_entry(entries.drop_first(), id);
        if find_end(entries.drop_first(), id) is Some {
            let i = choose|i: int|
                0 <= i < entries.drop_first().len() && (#[trigger] entries.drop_first()[i]).0@
                    == id;
            assert(entries[i + 1] == entries.drop_first()[i]);
        }
    }
}

/// A memory host reads a connection end before the transaction only where its pre view
/// holds that identifier, as the forward-step law asks of a reader.
pub proof fn lemma_memory_host_pre_view_consistent(host: &MemoryHost, conn_id: Seq<char>)
    ensures
        host.spec_connection_end_pre(conn_id) is Some ==> host.spec_has_connection_pre(conn_id),
{
    lemma_find_end_has_entry(host.pre@, conn_id);
}

fn lookup_end(entries: &Vec<(String, ConnectionEnd)>, id: &String) -> (r: Option<ConnectionEnd>)
    ensures
        opt_conn(r) == find_end(entries@, id@),
{
    let mut i: usize = 0;
    assert(entries@.subrange(0, entries@.len() as int) =~= entries@);
    while i < entries.len()
        invariant
            i <= entries.len(),
            find_end(entries@.subrange(i as int, entries@.len() as int), id@) == find_end(
                entries@,
                id@,
            ),
        decreases entries.len() - i,
    {
        let ghost rest = entries@.subrange(i as int, entries@.len() as int);
        assert(rest[0] == entries@[i as int]);
        if entries[i].0 == *id {
            return Some(copy_end(&entries[i].1));
        }
        assert(entries@.subrange(i + 1, entries@.len() as int) =~= rest.drop_first());
        i = i + 1;
    }
    assert(entries@.subrange(i as int, entries@.len() as int).len() == 0);
    None
}

fn contains_entry(entries: &Vec<(String, ConnectionEnd)>, id: &String) -> (r: bool)
    ensures
        r == has_entry(entries@, id@),
{
    let mut i: usize = 0;
    while i < entries.len()
        invariant
            i <= entries.len(),
            forall|j: int| 0 <= j < i ==> (#[trigger] entries@[j]).0@ != id@,
        decreases entries.len() - i,
    {
        if entries[i].0 == *id {
            assert(entries@[i as int].0@ == id@);
            return true;
        }
        i = i + 1;
    }
    false
}

fn contains_state_proof(proofs: &Vec<StateProof>, client_id: &String, height: Height, proof: &Vec<u8>) -> (r: bool)
    ensures
        r == has_state_proof(proofs@, client_id@, height, proof@),
{
    let mut i: usize = 0;
    while i < proofs.len()
        invariant
            i <= proofs.len(),
            forall|j: int|
                0 <= j < i ==> !((#[trigger] proofs@[j]).proof@ == proof@ && proofs@[j].client_id@
                    == client_id@ && proofs@[j].height == height),
        decreases proofs.len() - i,
    {
        let p = &proofs[i];
        if p.client_id == *client_id && p.height == height && bytes_equal(&p.proof, proof) {
            return true;
        }
        i = i + 1;
    }
    false
}

impl ConnectionReader for MemoryHost {
    open spec fn spec_connection_end(&self, conn_id: Seq<char>) -> Option<ConnectionEndView> {
        find_end(self.post@, conn_id)
    }

    open spec fn spec_connection_end_pre(&self, conn_id: Seq<char>) -> Option<ConnectionEndView> {
        find_end(self.pre@, conn_id)
    }

    open spec fn spec_has_connection_pre(&self, conn_id: Seq<char>) -> bool {
        has_entry(self.pre@, conn_id)
    }

    open spec fn spec_has_connection_post(&self, conn_id: Seq<char>) -> bool {
        has_entry(self.post@, conn_id)
    }

    open spec fn spec_has_client_state(&self, client_id: Seq<char>) -> bool {
        exists|i: int| 0 <= i < self.clients@.len() && (#[trigger] self.clients@[i])@ == client_id
    }

    open spec fn spec_has_client_consensus_state(&self, client_id: Seq<char>, height: Height) -> bool {
        exists|i: int|
            0 <= i < self.consensus_states@.len() && (#[trigger] self.consensus_states@[i]).0@
                == client_id && self.consensus_states@[i].1 == height
    }

    open spec fn spec_has_host_consensus_state(&self, height: Height) -> bool {
        self.host_consensus_states@.contains(height)
    }

    open spec fn spec_verify_connection_state(
        &self,
        client_id: Seq<char>,
        height: Height,
        prefix: Seq<u8>,
        proof: Seq<u8>,
        conn_id: Option<Seq<char>>,
        expected: ConnectionEndView,
    ) -> bool {
        exists|i: int|
            0 <= i < self.connection_proofs@.len() && (#[trigger] self.connection_proofs@[i]).proof@
                == proof && opt_chars(self.connection_proofs@[i].connection_id) == conn_id
                && self.connection_proofs@[i].connection@ == expected
    }

    open spec fn spec_verify_client_full_state(
        &self,
        client_id: Seq<char>,
        height: Height,
        prefix: Seq<u8>,
        counterparty_client_id: Seq<char>,
        proof: Seq<u8>,
    ) -> bool {
        has_state_proof(self.client_proofs@, counterparty_client_id, height, proof)
    }

    open spec fn spec_verify_client_consensus_state(
        &self,
        client_id: Seq<char>,
        height: Height,
        prefix: Seq<u8>,
        counterparty_client_id: Seq<char>,
        proof: Seq<u8>,
    ) -> bool {
        has_state_proof(self.consensus_proofs@, counterparty_client_id, height, proof)
    }

    open spec fn spec_block_height(&self) -> u64 {
        self.block_height
    }

    open spec fn spec_connection_counter(&self) -> u64 {
        self.connection_counter
    }

    fn block_height(&self) -> (r: u64) {
        self.block_height
    }

    fn connection_counter(&self) -> (r: u64) {
        self.connection_counter
    }

    fn connection_end(&self, conn_id: &String) -> (r: Option<ConnectionEnd>) {
        lookup_end(&self.post, conn_id)
    }

    fn connection_end_pre(&self, conn_id: &String) -> (r: Option<ConnectionEnd>) {
        lookup_end(&self.pre, conn_id)
    }

    fn has_connection_pre(&self, conn_id: &String) -> (r: bool) {
        contains_entry(&self.pre, conn_id)
    }

    fn has_connection_post(&self, conn_id: &String) -> (r: bool) {
        contains_entry(&self.post, conn_id)
    }

    fn has_client_state(&self, client_id: &String) -> (r: bool) {
        let mut i: usize = 0;
        while i < self.clients.len()
            invariant
                i <= self.clients@.len(),
                forall|j: int| 0 <= j < i ==> (#[trigger] self.clients@[j])@ != client_id@,
            decreases self.clients.len() - i,
        {
            if self.clients[i] == *client_id {
                return true;
            }
            i = i + 1;
        }
        false
    }

    fn has_client_consensus_state(&self, client_id: &String, height: Height) -> (r: bool) {
        let mut i: usize = 0;
        while i < self.consensus_states.len()
            invariant
                i <= self.consensus_states@.len(),
                forall|j: int|
                    0 <= j < i ==> !((#[trigger] self.consensus_states@[j]).0@ == client_id@
                        && self.consensus_states@[j].1 == height),
            decreases self.consensus_states.len() - i,
        {
            if self.consensus_states[i].0 == *client_id && self.consensus_states[i].1 == height {
                return true;
            }
            i = i + 1;
        }
        false
    }

    fn has_host_consensus_state(&self, height: Height) -> (r: bool) {
        let mut i: usize = 0;
        while i < self.host_consensus_states.len()
            invariant
                i <= self.host_consensus_states@.len(),
                forall|j: int| 0 <= j < i ==> self.host_consensus_states@[j] != height,
            decreases self.host_consensus_states.len() - i,
        {
            if self.host_consensus_states[i] == height {
                assert(self.host_consensus_states@[i as int] == height);
                return true;
            }
            i = i + 1;
        }
        false
    }

    fn verify_connection_state(
        &self,
        client_id: &String,
        height: Height,
        prefix: &Vec<u8>,
        proof: &Vec<u8>,
        conn_id: &Option<String>,
        expected: &ConnectionEnd,
    ) -> (r: bool) {
        let mut i: usize = 0;
        while i < self.connection_proofs.len()
            invariant
                i <= self.connection_proofs@.len(),
                forall|j: int|
                    0 <= j < i ==> !((#[trigger] self.connection_proofs@[j]).proof@ == proof@
                        && opt_chars(self.connection_proofs@[j].connection_id) == opt_chars(
                        *conn_id,
                    ) && self.connection_proofs@[j].connection@ == expected@),
            decreases self.connection_proofs.len() - i,
        {
            let p = &self.connection_proofs[i];
            if bytes_equal(&p.proof, proof) && opt_string_equal(&p.connection_id, conn_id)
                && end_equal(&p.connection, expected) {
                return true;
            }
            i = i + 1;
        }
        false
    }

    fn verify_client_full_state(
        &self,
        client_id: &String,
        height: Height,
        prefix: &Vec<u8>,
        counterparty_client_id: &String,
        proof: &Vec<u8>,
    ) -> (r: bool) {
        contains_state_proof(&self.client_proofs, counterparty_client_id, height, proof)
    }

    fn verify_client_consensus_state(
        &self,
        client_id: &String,
        height: Height,
        prefix: &Vec<u8>,
        counterparty_client_id: &String,
        proof: &Vec<u8>,
    ) -> (r: bool) {
        contains_state_proof(&self.consensus_proofs, counterparty_client_id, height, proof)
    }
}

} // verus!
