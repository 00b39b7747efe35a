use vstd::prelude::*;

use crate::storage::{Address, DbKeySeg, Key};

verus! {

/// Last segment of the key that holds an owner's public DKG session key.
pub open spec fn dkg_pk_storage_key() -> Seq<char> {
    "dkg_pk_key"@
}

/// The owner named by a public DKG session key, if `segs` is one.
pub open spec fn dkg_pk_owner(segs: Seq<DbKeySeg>) -> Option<Address> {
    if segs.len() == 2 {
        match (segs[0], segs[1]) {
            (DbKeySeg::AddressSeg(owner), DbKeySeg::StringSeg(k)) => if k@ == dkg_pk_storage_key() {
                Some(owner)
            } else {
                None
            },
            _ => None,
        }
    } else {
        None
    }
}

/// Obtain a storage key for user's public dkg session key.
pub fn dkg_pk_key(owner: &Address) -> (r: Key)
    ensures
        r.segments@.len() == 2,
        dkg_pk_owner(r.segments@) == Some(*owner),
{
    let segments = vec![
        DbKeySeg::AddressSeg(owner.clone()),
        DbKeySeg::StringSeg(String::from_str("dkg_pk_key")),
    ];
    Key { segments }
}

/// Check if the given storage key is a public dkg session key. If it is,
/// returns the owner.
pub fn is_dkg_pk_key(key: &Key) -> (r: Option<&Address>)
    ensures
        match r {
            Some(a) => dkg_pk_owner(key.segments@) == Some(*a),
            None => dkg_pk_owner(key.segments@) is None,
        },
{
    if key.segments.len() != 2 {
        return None;
    }
    match (&key.segments[0], &key.segments[1]) {
        (DbKeySeg::AddressSeg(owner), DbKeySeg::StringSeg(k)) => {
            let expected = String::from_str("dkg_pk_key");
            if *k == expected {
                Some(owner)
            } else {
                None
            }
        },
        _ => None,
    }
}

} // verus!
