use vstd::prelude::*;

use crate::types::Error;

verus! {

/// Addresses of the ledger's own modules.
#[derive(PartialEq, Eq, Structural, Clone, Copy, Debug)]
pub enum InternalAddress {
    PoS,
    PosSlashPool,
    Parameters,
    Ibc,
}

/// An account address: established, implicit (derived from a key), or internal.
#[derive(Debug)]
pub enum Address {
    Established(String),
    Implicit(String),
    Internal(InternalAddress),
}

pub open spec fn internal_raw(a: InternalAddress) -> Seq<char> {
    match a {
        InternalAddress::PoS => "PoS"@,
        InternalAddress::PosSlashPool => "PosSlashPool"@,
        InternalAddress::Parameters => "Parameters"@,
        InternalAddress::Ibc => "IBC"@,
    }
}

pub open spec fn address_raw(a: Address) -> Seq<char> {
    match a {
        Address::Established(s) => s@,
        Address::Implicit(s) => s@,
        Address::Internal(k) => internal_raw(k),
    }
}

impl Clone for Address {
    fn clone(&self) -> (r: Self)
        ensures
            r == *self,
    {
        match self {
            Address::Established(s) => Address::Established(s.clone()),
            Address::Implicit(s) => Address::Implicit(s.clone()),
            Address::Internal(k) => Address::Internal(*k),
        }
    }
}

impl Address {
    /// The address as a plain string.
    pub fn raw(&self) -> (r: String)
        ensures
            r@ == address_raw(*self),
    {
        match self {
            Address::Established(s) => s.clone(),
            Address::Implicit(s) => s.clone(),
            Address::Internal(k) => match k {
                InternalAddress::PoS => String::from_str("PoS"),
                InternalAddress::PosSlashPool => String::from_str("PosSlashPool"),
                InternalAddress::Parameters => String::from_str("Parameters"),
                InternalAddress::Ibc => String::from_str("IBC"),
            },
        }
    }
}

/// One segment of a storage key.
#[derive(Debug)]
pub enum DbKeySeg {
    AddressSeg(Address),
    StringSeg(String),
}

pub open spec fn seg_raw(s: DbKeySeg) -> Seq<char> {
    match s {
        DbKeySeg::AddressSeg(a) => address_raw(a),
        DbKeySeg::StringSeg(s) => s@,
    }
}

impl DbKeySeg {
    /// The segment as a plain string.
    pub fn raw(&self) -> (r: String)
        ensures
            r@ == seg_raw(*self),
    {
        match self {
            DbKeySeg::AddressSeg(a) => a.raw(),
            DbKeySeg::StringSeg(s) => s.clone(),
        }
    }
}

/// A storage key: a sequence of segments.
#[derive(Debug)]
pub struct Key {
    pub segments: Vec<DbKeySeg>,
}

/// A segment that holds the string `s`.
pub open spec fn is_string_seg(seg: DbKeySeg, s: Seq<char>) -> bool {
    match seg {
        DbKeySeg::StringSeg(t) => t@ == s,
        _ => false,
    }
}

/// Characters allowed in an identifier: ASCII letters and digits, and `._+-#[]<>`.
pub open spec fn is_identifier_char(c: char) -> bool {
    ('a' <= c && c <= 'z') || ('A' <= c && c <= 'Z') || ('0' <= c && c <= '9') || c == '.'
        || c == '_' || c == '+' || c == '-' || c == '#' || c == '[' || c == ']' || c == '<'
        || c == '>'
}

pub const CONNECTION_ID_MIN_LEN: usize = 10;

pub const IDENTIFIER_MAX_LEN: usize = 64;

/// A well-formed connection identifier.
pub open spec fn is_connection_identifier(s: Seq<char>) -> bool {
    CONNECTION_ID_MIN_LEN <= s.len() <= IDENTIFIER_MAX_LEN && forall|i: int|
        0 <= i < s.len() ==> #[trigger] is_identifier_char(s[i])
}

fn identifier_char(c: char) -> (r: bool)
    ensures
        r == is_identifier_char(c),
{
    ('a' <= c && c <= 'z') || ('A' <= c && c <= 'Z') || ('0' <= c && c <= '9') || c == '.'
        || c == '_' || c == '+' || c == '-' || c == '#' || c == '[' || c == ']' || c == '<'
        || c == '>'
}

/// Whether `s` is a well-formed connection identifier.
pub fn valid_connection_id(s: &str) -> (r: bool)
    ensures
        r == is_connection_identifier(s@),
{
    let n = s.unicode_len();
    if n < CONNECTION_ID_MIN_LEN || n > IDENTIFIER_MAX_LEN {
        return false;
    }
    let mut i: usize = 0;
    while i < n
        invariant
            n == s@.len(),
            i <= n,
            forall|j: int| 0 <= j < i ==> #[trigger] is_identifier_char(s@[j]),
        decreases n - i,
    {
        if !identifier_char(s.get_char(i)) {
            return false;
        }
        i = i + 1;
    }
    true
}

/// The key under which connection `id` is stored: `#IBC/connections/{id}`.
pub open spec fn is_connection_key(segs: Seq<DbKeySeg>, id: Seq<char>) -> bool {
    &&& segs.len() == 3
    &&& segs[0] == DbKeySeg::AddressSeg(Address::Internal(InternalAddress::Ibc))
    &&& is_string_seg(segs[1], "connections"@)
    &&& is_string_seg(segs[2], id)
}

/// The connection identifier that a key carries in its third segment.
pub open spec fn spec_connection_id(segs: Seq<DbKeySeg>) -> Result<Seq<char>, Error> {
    if segs.len() > 2 && is_connection_identifier(seg_raw(segs[2])) {
        Ok(seg_raw(segs[2]))
    } else {
        Err(Error::KeyError)
    }
}

/// The storage key of connection `conn_id`.
pub fn connection_key(conn_id: &String) -> (r: Key)
    ensures
        is_connection_key(r.segments@, conn_id@),
{
    let segments = vec![
        DbKeySeg::AddressSeg(Address::Internal(InternalAddress::Ibc)),
        DbKeySeg::StringSeg(String::from_str("connections")),
        DbKeySeg::StringSeg(conn_id.clone()),
    ];
    Key { segments }
}

/// The connection identifier that `key` carries.
pub fn connection_id(key: &Key) -> (r: Result<String, Error>)
    ensures
        match r {
            Ok(id) => spec_connection_id(key.segments@) == Ok::<Seq<char>, Error>(id@),
            Err(e) => spec_connection_id(key.segments@) == Err::<Seq<char>, Error>(e),
        },
{
    if key.segments.len() <= 2 {
        return Err(Error::KeyError);
    }
    let raw = key.segments[2].raw();
    if valid_connection_id(raw.as_str()) {
        Ok(raw)
    } else {
        Err(Error::KeyError)
    }
}

/// A connection key that is too short carries no identifier.
pub proof fn lemma_short_key_has_no_connection_id(segs: Seq<DbKeySeg>)
    requires
        segs.len() < 3,
    ensures
        spec_connection_id(segs) == Err::<Seq<char>, Error>(Error::KeyError),
{
}

/// Reading the identifier back from the key of a well-formed identifier gives that identifier.
pub proof fn lemma_connection_id_of_connection_key(segs: Seq<DbKeySeg>, id: Seq<char>)
    requires
        is_connection_key(segs, id),
        is_connection_identifier(id),
    ensures
        spec_connection_id(segs) == Ok::<Seq<char>, Error>(id),
{
}

} // verus!
