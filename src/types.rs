use vstd::prelude::*;

verus! {

/// Errors on which the predicate cannot form an opinion.
#[derive(PartialEq, Eq, Structural, Clone, Copy, Debug)]
pub enum Error {
    /// The storage key carries no valid connection identifier.
    KeyError,
    /// The transaction payload is not the message that the phase expects.
    DecodingTxDataError,
    /// A field of a decoded payload is invalid.
    IbcDataError,
    /// A required proof is missing from the proof bundle.
    IbcProofError,
}

/// How the value under a key changed between the pre and post views.
#[derive(PartialEq, Eq, Structural, Clone, Copy, Debug)]
pub enum StateChange {
    Created,
    Updated,
    Deleted,
    NotExists,
}

/// The handshake state of a connection end.
#[derive(PartialEq, Eq, Structural, Clone, Copy, Debug)]
pub enum State {
    Uninitialized,
    Init,
    TryOpen,
    Open,
}

/// A point in a chain's history: revision number and height in that revision.
#[derive(PartialEq, Eq, Structural, Clone, Copy, Debug)]
pub struct Height {
    pub revision_number: u64,
    pub revision_height: u64,
}

/// A protocol version: an identifier and the features it offers.
#[derive(Clone, Debug)]
pub struct Version {
    pub identifier: String,
    pub features: Vec<String>,
}

pub struct VersionView {
    pub identifier: Seq<char>,
    pub features: Seq<Seq<char>>,
}

impl View for Version {
    type V = VersionView;

    open spec fn view(&self) -> VersionView {
        VersionView {
            identifier: self.identifier@,
            features: self.features@.map_values(|f: String| f@),
        }
    }
}

/// The identity of a connection end as seen from the other chain.
#[derive(Clone, Debug)]
pub struct Counterparty {
    pub client_id: String,
    pub connection_id: Option<String>,
    pub prefix: Vec<u8>,
}

pub struct CounterpartyView {
    pub client_id: Seq<char>,
    pub connection_id: Option<Seq<char>>,
    pub prefix: Seq<u8>,
}

pub open spec fn opt_chars(o: Option<String>) -> Option<Seq<char>> {
    match o {
        Some(s) => Some(s@),
        None => None,
    }
}

pub open spec fn opt_bytes(o: Option<Vec<u8>>) -> Option<Seq<u8>> {
    match o {
        Some(b) => Some(b@),
        None => None,
    }
}

impl View for Counterparty {
    type V = CounterpartyView;

    open spec fn view(&self) -> CounterpartyView {
        CounterpartyView {
            client_id: self.client_id@,
            connection_id: opt_chars(self.connection_id),
            prefix: self.prefix@,
        }
    }
}

/// A connection object as stored on a chain.
#[derive(Clone, Debug)]
pub struct ConnectionEnd {
    pub state: State,
    pub client_id: String,
    pub counterparty: Counterparty,
    pub versions: Vec<Version>,
    pub delay_period: u64,
}

pub struct ConnectionEndView {
    pub state: State,
    pub client_id: Seq<char>,
    pub counterparty: CounterpartyView,
    pub versions: Seq<VersionView>,
    pub delay_period: u64,
}

pub open spec fn versions_view(v: Seq<Version>) -> Seq<VersionView> {
    v.map_values(|x: Version| x@)
}

impl View for ConnectionEnd {
    type V = ConnectionEndView;

    open spec fn view(&self) -> ConnectionEndView {
        ConnectionEndView {
            state: self.state,
            client_id: self.client_id@,
            counterparty: self.counterparty@,
            versions: versions_view(self.versions@),
            delay_period: self.delay_period,
        }
    }
}

pub open spec fn opt_conn(o: Option<ConnectionEnd>) -> Option<ConnectionEndView> {
    match o {
        Some(c) => Some(c@),
        None => None,
    }
}

/// The proofs that a handshake message carries, all taken at `height`.
#[derive(Clone, Debug)]
pub struct Proofs {
    pub height: Height,
    pub object_proof: Vec<u8>,
    pub client_proof: Option<Vec<u8>>,
    pub consensus_proof: Option<Vec<u8>>,
}

pub struct ProofsView {
    pub height: Height,
    pub object_proof: Seq<u8>,
    pub client_proof: Option<Seq<u8>>,
    pub consensus_proof: Option<Seq<u8>>,
}

impl View for Proofs {
    type V = ProofsView;

    open spec fn view(&self) -> ProofsView {
        ProofsView {
            height: self.height,
            object_proof: self.object_proof@,
            client_proof: opt_bytes(self.client_proof),
            consensus_proof: opt_bytes(self.consensus_proof),
        }
    }
}

/// Payload of the TRY step.
#[derive(Clone, Debug)]
pub struct ConnectionOpenTryData {
    pub client_id: Option<String>,
    pub counterparty: Option<Counterparty>,
    pub counterparty_versions: Vec<Version>,
    pub delay_period: u64,
    pub proofs: Proofs,
}

/// Payload of the ACK step.
#[derive(Clone, Debug)]
pub struct ConnectionOpenAckData {
    pub connection_id: String,
    pub counterpart_connection_id: String,
    pub version: Version,
    pub proofs: Proofs,
}

/// Payload of the CONFIRM step.
#[derive(Clone, Debug)]
pub struct ConnectionOpenConfirmData {
    pub connection_id: String,
    pub proofs: Proofs,
}

/// What the transaction's bytes decode to.
#[derive(Clone, Debug)]
pub enum TxData {
    OpenTry(ConnectionOpenTryData),
    OpenAck(ConnectionOpenAckData),
    OpenConfirm(ConnectionOpenConfirmData),
    /// The bytes are none of the handshake messages.
    Unrecognized,
}

pub(crate) fn strings_equal(a: &Vec<String>, b: &Vec<String>) -> (r: bool)
    ensures
        r == (a@.map_values(|s: String| s@) == b@.map_values(|s: String| s@)),
{
    let ghost av = a@.map_values(|s: String| s@);
    let ghost bv = b@.map_values(|s: String| s@);
    if a.len() != b.len() {
        assert(av.len() != bv.len());
        return false;
    }
    let mut i: usize = 0;
    while i < a.len()
        invariant
            a.len() == b.len(),
            i <= a.len(),
            av == a@.map_values(|s: String| s@),
            bv == b@.map_values(|s: String| s@),
            forall|j: int| 0 <= j < i ==> av[j] == bv[j],
        decreases a.len() - i,
    {
        if a[i] != b[i] {
            assert(av[i as int] != bv[i as int]);
            return false;
        }
        i = i + 1;
    }
    assert(av =~= bv);
    true
}

pub(crate) fn version_equal(a: &Version, b: &Version) -> (r: bool)
    ensures
        r == (a@ == b@),
{
    a.identifier == b.identifier && strings_equal(&a.features, &b.features)
}

pub(crate) fn versions_contain(vs: &Vec<Version>, v: &Version) -> (r: bool)
    ensures
        r == versions_view(vs@).contains(v@),
{
    let ghost vv = versions_view(vs@);
    let mut i: usize = 0;
    while i < vs.len()
        invariant
            i <= vs.len(),
            vv == versions_view(vs@),
            forall|j: int| 0 <= j < i ==> vv[j] != v@,
        decreases vs.len() - i,
    {
        if version_equal(&vs[i], v) {
            assert(vv[i as int] == v@);
            return true;
        }
        i = i + 1;
    }
    false
}

pub(crate) fn copy_version(v: &Version) -> (r: Version)
    ensures
        r@ == v@,
{
    let features = v.features.clone();
    assert(features@.map_values(|s: String| s@) =~= v.features@.map_values(|s: String| s@));
    Version { identifier: v.identifier.clone(), features }
}

pub(crate) fn copy_versions(vs: &Vec<Version>) -> (r: Vec<Version>)
    ensures
        versions_view(r@) == versions_view(vs@),
{
    let mut r: Vec<Version> = Vec::new();
    let mut i: usize = 0;
    while i < vs.len()
        invariant
            i <= vs.len(),
            r@.len() == i,
            forall|j: int| 0 <= j < i ==> r@[j]@ == vs@[j]@,
        decreases vs.len() - i,
    {
        r.push(copy_version(&vs[i]));
        i = i + 1;
    }
    assert(versions_view(r@) =~= versions_view(vs@));
    r
}

pub(crate) fn bytes_equal(a: &Vec<u8>, b: &Vec<u8>) -> (r: bool)
    ensures
        r == (a@ == b@),
{
    if a.len() != b.len() {
        return false;
    }
    let mut i: usize = 0;
    while i < a.len()
        invariant
            a.len() == b.len(),
            i <= a.len(),
            forall|j: int| 0 <= j < i ==> a@[j] == b@[j],
        decreases a.len() - i,
    {
        if a[i] != b[i] {
            return false;
        }
        i = i + 1;
    }
    assert(a@ =~= b@);
    true
}

pub(crate) fn opt_string_equal(a: &Option<String>, b: &Option<String>) -> (r: bool)
    ensures
        r == (opt_chars(*a) == opt_chars(*b)),
{
    match (a, b) {
        (Some(x), Some(y)) => *x == *y,
        (None, None) => true,
        _ => false,
    }
}

pub(crate) fn end_equal(a: &ConnectionEnd, b: &ConnectionEnd) -> (r: bool)
    ensures
        r == (a@ == b@),
{
    a.state == b.state && a.client_id == b.client_id && a.counterparty.client_id
        == b.counterparty.client_id && opt_string_equal(
        &a.counterparty.connection_id,
        &b.counterparty.connection_id,
    ) && bytes_equal(&a.counterparty.prefix, &b.counterparty.prefix) && a.delay_period
        == b.delay_period && versions_equal(&a.versions, &b.versions)
}

pub(crate) fn versions_equal(a: &Vec<Version>, b: &Vec<Version>) -> (r: bool)
    ensures
        r == (versions_view(a@) == versions_view(b@)),
{
    let ghost av = versions_view(a@);
    let ghost bv = versions_view(b@);
    if a.len() != b.len() {
        assert(av.len() != bv.len());
        return false;
    }
    let mut i: usize = 0;
    while i < a.len()
        invariant
            a.len() == b.len(),
            i <= a.len(),
            av == versions_view(a@),
            bv == versions_view(b@),
            forall|j: int| 0 <= j < i ==> av[j] == bv[j],
        decreases a.len() - i,
    {
        if !version_equal(&a[i], &b[i]) {
            assert(av[i as int] != bv[i as int]);
            return false;
        }
        i = i + 1;
    }
    assert(av =~= bv);
    true
}

pub(crate) fn copy_bytes(v: &Vec<u8>) -> (r: Vec<u8>)
    ensures
        r@ == v@,
{
    let r = v.clone();
    assert(r@ =~= v@);
    r
}

pub(crate) fn copy_end(c: &ConnectionEnd) -> (r: ConnectionEnd)
    ensures
        r@ == c@,
{
    let connection_id = match &c.counterparty.connection_id {
        Some(s) => Some(s.clone()),
        None => None,
    };
    ConnectionEnd {
        state: c.state,
        client_id: c.client_id.clone(),
        counterparty: Counterparty {
            client_id: c.counterparty.client_id.clone(),
            connection_id,
            prefix: copy_bytes(&c.counterparty.prefix),
        },
        versions: copy_versions(&c.versions),
        delay_period: c.delay_period,
    }
}

} // verus!
