use vstd::prelude::*;

use borsh::BorshSerialize;

use crate::reader::ConnectionReader;
use crate::storage::{
    connection_id, internal_raw, spec_connection_id, valid_connection_id, Address, InternalAddress,
    Key, is_connection_identifier, DbKeySeg,
};
use crate::types::{
    ConnectionEnd, ConnectionEndView, ConnectionOpenAckData, ConnectionOpenConfirmData,
    ConnectionOpenTryData, Counterparty, CounterpartyView, Error, Proofs, ProofsView, State,
    StateChange, TxData, Height, Version, VersionView, versions_view, copy_versions,
    versions_contain,
};
use vstd::utf8::{encode_utf8, is_ascii_chars, is_ascii_chars_encode_utf8};

verus! {

/// `n` as four little-endian bytes.
pub open spec fn u32_le_bytes(n: nat) -> Seq<u8> {
    seq![
        (n % 256) as u8,
        ((n / 256) % 256) as u8,
        ((n / 65536) % 256) as u8,
        ((n / 16777216) % 256) as u8,
    ]
}

/// Borsh's encoding of a string: its UTF-8 length in four little-endian bytes, then its
/// UTF-8 bytes.
pub open spec fn borsh_string_bytes(s: Seq<char>) -> Seq<u8> {
    u32_le_bytes(encode_utf8(s).len()) + encode_utf8(s)
}

/// Relies on borsh's `BorshSerialize` for `String` (borsh 0.9 `ser/mod.rs`): the byte length
/// as a little-endian `u32`, then the bytes; into a `Vec` it fails only when the length does
/// not fit in a `u32`.
#[verifier::external_body]
fn borsh_encode_string(s: &String) -> (r: Vec<u8>)
    requires
        encode_utf8(s@).len() <= u32::MAX,
    ensures
        r@ == borsh_string_bytes(s@),
{
    s.try_to_vec().expect("the length fits in a u32")
}

/// This chain's commitment prefix: the borsh encoding of the IBC module's address.
pub open spec fn spec_commitment_prefix() -> Seq<u8> {
    borsh_string_bytes(internal_raw(InternalAddress::Ibc))
}

/// The namespace under which this chain's connection objects are committed.
pub fn commitment_prefix() -> (r: Vec<u8>)
    ensures
        r@ == spec_commitment_prefix(),
{
    let addr = Address::Internal(InternalAddress::Ibc);
    let raw = addr.raw();
    proof {
        reveal_strlit("IBC");
        assert(is_ascii_chars(raw@));
        is_ascii_chars_encode_utf8(raw@);
    }
    borsh_encode_string(&raw)
}

/// Classifies a change by whether a value is present before and after.
pub open spec fn classify(pre: bool, post: bool) -> StateChange {
    if pre {
        if post {
            StateChange::Updated
        } else {
            StateChange::Deleted
        }
    } else if post {
        StateChange::Created
    } else {
        StateChange::NotExists
    }
}

/// Classifies a change by whether a value is present before and after.
pub fn state_change(pre: bool, post: bool) -> (r: StateChange)
    ensures
        r == classify(pre, post),
{
    if pre {
        if post {
            StateChange::Updated
        } else {
            StateChange::Deleted
        }
    } else if post {
        StateChange::Created
    } else {
        StateChange::NotExists
    }
}

/// A proof bundle is well formed: taken at a non-zero height, with an object proof.
pub open spec fn proofs_well_formed(p: ProofsView) -> bool {
    p.height.revision_height != 0 && p.object_proof.len() > 0
}

/// The outcome of checking `proofs` for `conn` against the counterparty's `expected` end.
pub open spec fn spec_verify_connection_proof<C: ConnectionReader>(
    ctx: &C,
    conn: ConnectionEndView,
    expected: ConnectionEndView,
    proofs: ProofsView,
) -> Result<bool, Error> {
    let client_id = conn.client_id;
    let height = proofs.height;
    let cp = conn.counterparty;
    if !ctx.spec_has_client_state(client_id) {
        Ok(false)
    } else if !ctx.spec_has_client_consensus_state(client_id, height) {
        Ok(false)
    } else if !ctx.spec_verify_connection_state(
        client_id,
        height,
        cp.prefix,
        proofs.object_proof,
        cp.connection_id,
        expected,
    ) {
        Ok(false)
    } else if proofs.client_proof is None {
        Err(Error::IbcProofError)
    } else if !ctx.spec_verify_client_full_state(
        client_id,
        height,
        cp.prefix,
        cp.client_id,
        proofs.client_proof->Some_0,
    ) {
        Ok(false)
    } else if !ctx.spec_has_host_consensus_state(height) {
        Ok(false)
    } else if proofs.consensus_proof is None {
        Err(Error::IbcProofError)
    } else {
        Ok(
            ctx.spec_verify_client_consensus_state(
                client_id,
                height,
                cp.prefix,
                cp.client_id,
                proofs.consensus_proof->Some_0,
            ),
        )
    }
}

/// The counterparty's end that a TRY step proves: `Init`, citing this chain's client.
pub open spec fn expected_try_end(
    client_id: Seq<char>,
    counterparty_client_id: Seq<char>,
    versions: Seq<VersionView>,
    delay_period: u64,
) -> ConnectionEndView {
    ConnectionEndView {
        state: State::Init,
        client_id: counterparty_client_id,
        counterparty: CounterpartyView {
            client_id,
            connection_id: None,
            prefix: spec_commitment_prefix(),
        },
        versions,
        delay_period,
    }
}

/// The counterparty's end that an ACK (`TryOpen`) or CONFIRM (`Open`) step proves for `conn`.
pub open spec fn expected_end_for(
    conn: ConnectionEndView,
    state: State,
    conn_id: Seq<char>,
    versions: Seq<VersionView>,
) -> ConnectionEndView {
    ConnectionEndView {
        state,
        client_id: conn.counterparty.client_id,
        counterparty: CounterpartyView {
            client_id: conn.client_id,
            connection_id: Some(conn_id),
            prefix: spec_commitment_prefix(),
        },
        versions,
        delay_period: conn.delay_period,
    }
}

/// The outcome of the TRY step for the new connection `conn`.
pub open spec fn spec_try<C: ConnectionReader>(
    ctx: &C,
    conn: ConnectionEndView,
    tx: TxData,
) -> Result<bool, Error> {
    match tx {
        TxData::OpenTry(data) => match (data.client_id, data.counterparty) {
            (Some(client_id), Some(cp)) => if !proofs_well_formed(data.proofs@) {
                Err(Error::IbcDataError)
            } else {
                spec_verify_connection_proof(
                    ctx,
                    conn,
                    expected_try_end(
                        client_id@,
                        cp.client_id@,
                        versions_view(data.counterparty_versions@),
                        data.delay_period,
                    ),
                    data.proofs@,
                )
            },
            _ => Ok(false),
        },
        _ => Err(Error::DecodingTxDataError),
    }
}

/// The outcome of the ACK step, for `conn` moving from `Init` to `Open`.
pub open spec fn spec_ack<C: ConnectionReader>(
    ctx: &C,
    conn: ConnectionEndView,
    tx: TxData,
) -> Result<bool, Error> {
    match tx {
        TxData::OpenAck(data) => if conn.versions.contains(data.version@) {
            Ok(false)
        } else if conn.counterparty.connection_id is Some && !is_connection_identifier(
            data.counterpart_connection_id@,
        ) {
            Err(Error::IbcDataError)
        } else if conn.counterparty.connection_id is Some
            && conn.counterparty.connection_id->Some_0 != data.counterpart_connection_id@ {
            Ok(false)
        } else if !is_connection_identifier(data.connection_id@) {
            Err(Error::IbcDataError)
        } else if !proofs_well_formed(data.proofs@) {
            Err(Error::IbcDataError)
        } else {
            spec_verify_connection_proof(
                ctx,
                conn,
                expected_end_for(conn, State::TryOpen, data.connection_id@, seq![data.version@]),
                data.proofs@,
            )
        },
        _ => Err(Error::DecodingTxDataError),
    }
}

/// The outcome of the CONFIRM step, for `conn` moving from `TryOpen` to `Open`.
pub open spec fn spec_confirm<C: ConnectionReader>(
    ctx: &C,
    conn: ConnectionEndView,
    tx: TxData,
) -> Result<bool, Error> {
    match tx {
        TxData::OpenConfirm(data) => if !is_connection_identifier(data.connection_id@) {
            Err(Error::IbcDataError)
        } else if !proofs_well_formed(data.proofs@) {
            Err(Error::IbcDataError)
        } else {
            spec_verify_connection_proof(
                ctx,
                conn,
                expected_end_for(conn, State::Open, data.connection_id@, conn.versions),
                data.proofs@,
            )
        },
        _ => Err(Error::DecodingTxDataError),
    }
}

/// The outcome for a connection that the transaction created.
pub open spec fn spec_validate_created<C: ConnectionReader>(
    ctx: &C,
    conn: ConnectionEndView,
    tx: TxData,
) -> Result<bool, Error> {
    match conn.state {
        State::Init => Ok(ctx.spec_has_client_state(conn.client_id)),
        State::TryOpen => spec_try(ctx, conn, tx),
        _ => Ok(false),
    }
}

/// The outcome for a connection that the transaction updated.
pub open spec fn spec_validate_updated<C: ConnectionReader>(
    ctx: &C,
    conn_id: Seq<char>,
    conn: ConnectionEndView,
    tx: TxData,
) -> Result<bool, Error> {
    if conn.state != State::Open {
        Ok(false)
    } else {
        match ctx.spec_connection_end_pre(conn_id) {
            None => Ok(false),
            Some(prev) => match prev.state {
                State::Init => spec_ack(ctx, conn, tx),
                State::TryOpen => spec_confirm(ctx, conn, tx),
                _ => Ok(false),
            },
        }
    }
}

/// Whether the transaction's write under the connection key `key` is a permitted step of
/// the handshake.
pub open spec fn spec_validate_connection<C: ConnectionReader>(
    ctx: &C,
    key: Seq<DbKeySeg>,
    tx: TxData,
) -> Result<bool, Error> {
    match spec_connection_id(key) {
        Err(e) => Err(e),
        Ok(conn_id) => match ctx.spec_connection_end(conn_id) {
            None => Ok(false),
            Some(conn) => match classify(
                ctx.spec_has_connection_pre(conn_id),
                ctx.spec_has_connection_post(conn_id),
            ) {
                StateChange::Created => spec_validate_created(ctx, conn, tx),
                StateChange::Updated => spec_validate_updated(ctx, conn_id, conn, tx),
                _ => Ok(false),
            },
        },
    }
}

fn check_proofs(p: &Proofs) -> (r: Result<(), Error>)
    ensures
        r is Ok <==> proofs_well_formed(p@),
        r is Err ==> r == Err::<(), Error>(Error::IbcDataError),
{
    if p.height.revision_height == 0 || p.object_proof.len() == 0 {
        Err(Error::IbcDataError)
    } else {
        Ok(())
    }
}

/// Checks the proofs of a handshake message for `conn` against the counterparty's
/// `expected` end: the connection object, the counterparty's record of this chain's
/// client, and its record of this chain's consensus state, all at the proofs' height.
/// A failed check is `Ok(false)`; a missing client or consensus proof is an error.
pub fn verify_connection_proof<C: ConnectionReader>(
    ctx: &C,
    conn: &ConnectionEnd,
    expected: &ConnectionEnd,
    proofs: &Proofs,
) -> (r: Result<bool, Error>)
    ensures
        r == spec_verify_connection_proof(ctx, conn@, expected@, proofs@),
{
    let client_id = &conn.client_id;
    if !ctx.has_client_state(client_id) {
        return Ok(false);
    }
    let height = proofs.height;
    if !ctx.has_client_consensus_state(client_id, height) {
        return Ok(false);
    }
    let counterparty = &conn.counterparty;
    let prefix = &counterparty.prefix;
    if !ctx.verify_connection_state(
        client_id,
        height,
        prefix,
        &proofs.object_proof,
        &counterparty.connection_id,
        expected,
    ) {
        return Ok(false);
    }
    let client_proof = match &proofs.client_proof {
        Some(p) => p,
        None => return Err(Error::IbcProofError),
    };
    if !ctx.verify_client_full_state(
        client_id,
        height,
        prefix,
        &counterparty.client_id,
        client_proof,
    ) {
        return Ok(false);
    }
    if !ctx.has_host_consensus_state(height) {
        return Ok(false);
    }
    let consensus_proof = match &proofs.consensus_proof {
        Some(p) => p,
        None => return Err(Error::IbcProofError),
    };
    Ok(
        ctx.verify_client_consensus_state(
            client_id,
            height,
            prefix,
            &counterparty.client_id,
            consensus_proof,
        ),
    )
}

fn verify_connection_try_proof<C: ConnectionReader>(
    ctx: &C,
    conn: &ConnectionEnd,
    tx_data: TxData,
) -> (r: Result<bool, Error>)
    ensures
        r == spec_try(ctx, conn@, tx_data),
{
    let data = match tx_data {
        TxData::OpenTry(d) => d,
        _ => return Err(Error::DecodingTxDataError),
    };
    let ConnectionOpenTryData { client_id, counterparty, counterparty_versions, delay_period, proofs } = data;
    let client_id = match client_id {
        Some(id) => id,
        None => return Ok(false),
    };
    let counterpart_client_id = match counterparty {
        Some(c) => c.client_id,
        None => return Ok(false),
    };
    let expected_conn = ConnectionEnd {
        state: State::Init,
        client_id: counterpart_client_id,
        counterparty: Counterparty {
            client_id,
            connection_id: None,
            prefix: commitment_prefix(),
        },
        versions: counterparty_versions,
        delay_period,
    };
    check_proofs(&proofs)?;
    verify_connection_proof(ctx, conn, &expected_conn, &proofs)
}

fn verify_connection_ack_proof<C: ConnectionReader>(
    ctx: &C,
    conn: &ConnectionEnd,
    tx_data: TxData,
) -> (r: Result<bool, Error>)
    ensures
        r == spec_ack(ctx, conn@, tx_data),
{
    let data = match tx_data {
        TxData::OpenAck(d) => d,
        _ => return Err(Error::DecodingTxDataError),
    };
    let ConnectionOpenAckData { connection_id, counterpart_connection_id, version, proofs } = data;
    // version check
    if versions_contain(&conn.versions, &version) {
        return Ok(false);
    }
    // counterpart connection ID check
    if let Some(recorded) = &conn.counterparty.connection_id {
        if !valid_connection_id(counterpart_connection_id.as_str()) {
            return Err(Error::IbcDataError);
        }
        if *recorded != counterpart_connection_id {
            return Ok(false);
        }
    }
    if !valid_connection_id(connection_id.as_str()) {
        return Err(Error::IbcDataError);
    }
    let ghost version_view = version@;
    let expected_conn = ConnectionEnd {
        state: State::TryOpen,
        client_id: conn.counterparty.client_id.clone(),
        counterparty: Counterparty {
            client_id: conn.client_id.clone(),
            connection_id: Some(connection_id),
            prefix: commitment_prefix(),
        },
        versions: vec![version],
        delay_period: conn.delay_period,
    };
    assert(expected_conn.versions@.map_values(|x: Version| x@) =~= seq![version_view]);
    check_proofs(&proofs)?;
    verify_connection_proof(ctx, conn, &expected_conn, &proofs)
}

fn verify_connection_confirm_proof<C: ConnectionReader>(
    ctx: &C,
    conn: &ConnectionEnd,
    tx_data: TxData,
) -> (r: Result<bool, Error>)
    ensures
        r == spec_confirm(ctx, conn@, tx_data),
{
    let data = match tx_data {
        TxData::OpenConfirm(d) => d,
        _ => return Err(Error::DecodingTxDataError),
    };
    let ConnectionOpenConfirmData { connection_id, proofs } = data;
    if !valid_connection_id(connection_id.as_str()) {
        return Err(Error::IbcDataError);
    }
    let expected_conn = ConnectionEnd {
        state: State::Open,
        client_id: conn.counterparty.client_id.clone(),
        counterparty: Counterparty {
            client_id: conn.client_id.clone(),
            connection_id: Some(connection_id),
            prefix: commitment_prefix(),
        },
        versions: copy_versions(&conn.versions),
        delay_period: conn.delay_period,
    };
    check_proofs(&proofs)?;
    verify_connection_proof(ctx, conn, &expected_conn, &proofs)
}

fn validate_created_connection<C: ConnectionReader>(
    ctx: &C,
    conn: ConnectionEnd,
    tx_data: TxData,
) -> (r: Result<bool, Error>)
    ensures
        r == spec_validate_created(ctx, conn@, tx_data),
{
    match conn.state {
        State::Init => Ok(ctx.has_client_state(&conn.client_id)),
        State::TryOpen => verify_connection_try_proof(ctx, &conn, tx_data),
        _ => Ok(false),
    }
}

fn validate_updated_connection<C: ConnectionReader>(
    ctx: &C,
    conn_id: &String,
    conn: ConnectionEnd,
    tx_data: TxData,
) -> (r: Result<bool, Error>)
    ensures
        r == spec_validate_updated(ctx, conn_id@, conn@, tx_data),
{
    if conn.state != State::Open {
        return Ok(false);
    }
    let prev_conn = match ctx.connection_end_pre(conn_id) {
        Some(c) => c,
        None => return Ok(false),
    };
    match prev_conn.state {
        State::Init => verify_connection_ack_proof(ctx, &conn, tx_data),
        State::TryOpen => verify_connection_confirm_proof(ctx, &conn, tx_data),
        _ => Ok(false),
    }
}

/// How the value under the key of `conn_id` changed in the transaction.
pub fn connection_state_change<C: ConnectionReader>(ctx: &C, conn_id: &String) -> (r: StateChange)
    ensures
        r == classify(ctx.spec_has_connection_pre(conn_id@), ctx.spec_has_connection_post(conn_id@)),
{
    state_change(ctx.has_connection_pre(conn_id), ctx.has_connection_post(conn_id))
}

/// Decides whether the transaction's write under the connection key `key` is a step
/// of the handshake that the protocol permits. A rejected step is `Ok(false)`; an error
/// means that the key or the payload is malformed.
pub fn validate_connection<C: ConnectionReader>(
    ctx: &C,
    key: &Key,
    tx_data: TxData,
) -> (r: Result<bool, Error>)
    ensures
        r == spec_validate_connection(ctx, key.segments@, tx_data),
{
    let conn_id = connection_id(key)?;
    let conn = match ctx.connection_end(&conn_id) {
        Some(c) => c,
        None => return Ok(false),
    };
    match connection_state_change(ctx, &conn_id) {
        StateChange::Created => validate_created_connection(ctx, conn, tx_data),
        StateChange::Updated => validate_updated_connection(ctx, &conn_id, conn, tx_data),
        _ => Ok(false),
    }
}

/// Two readers that observe the same storage views and the same light clients.
pub open spec fn same_observations<C: ConnectionReader>(a: &C, b: &C) -> bool {
    &&& forall|id: Seq<char>| #[trigger] a.spec_connection_end(id) == b.spec_connection_end(id)
    &&& forall|id: Seq<char>| #[trigger] a.spec_connection_end_pre(id) == b.spec_connection_end_pre(id)
    &&& forall|id: Seq<char>| #[trigger] a.spec_has_connection_pre(id) == b.spec_has_connection_pre(id)
    &&& forall|id: Seq<char>| #[trigger] a.spec_has_connection_post(id) == b.spec_has_connection_post(id)
    &&& forall|id: Seq<char>| #[trigger] a.spec_has_client_state(id) == b.spec_has_client_state(id)
    &&& forall|id: Seq<char>, h: Height| #[trigger]
        a.spec_has_client_consensus_state(id, h) == b.spec_has_client_consensus_state(id, h)
    &&& forall|h: Height| #[trigger]
        a.spec_has_host_consensus_state(h) == b.spec_has_host_consensus_state(h)
    &&& forall|
        id: Seq<char>,
        h: Height,
        p: Seq<u8>,
        pr: Seq<u8>,
        c: Option<Seq<char>>,
        e: ConnectionEndView,
    | #[trigger] a.spec_verify_connection_state(id, h, p, pr, c, e)
        == b.spec_verify_connection_state(id, h, p, pr, c, e)
    &&& forall|id: Seq<char>, h: Height, p: Seq<u8>, c: Seq<char>, pr: Seq<u8>| #[trigger]
        a.spec_verify_client_full_state(id, h, p, c, pr) == b.spec_verify_client_full_state(
            id,
            h,
            p,
            c,
            pr,
        )
    &&& forall|id: Seq<char>, h: Height, p: Seq<u8>, c: Seq<char>, pr: Seq<u8>| #[trigger]
        a.spec_verify_client_consensus_state(id, h, p, c, pr)
            == b.spec_verify_client_consensus_state(id, h, p, c, pr)
}

/// Validation is a function of the key, the payload and what the reader observes:
/// running it again on the same snapshots gives the same result.
pub proof fn lemma_validate_is_deterministic<C: ConnectionReader>(
    a: &C,
    b: &C,
    key: Seq<DbKeySeg>,
    tx: TxData,
)
    requires
        same_observations(a, b),
    ensures
        spec_validate_connection(a, key, tx) == spec_validate_connection(b, key, tx),
{
}

/// A connection created in state `Init` is accepted exactly when the client it cites
/// has a client state.
pub proof fn lemma_init_accepted_iff_client_exists<C: ConnectionReader>(
    ctx: &C,
    key: Seq<DbKeySeg>,
    tx: TxData,
    conn_id: Seq<char>,
    conn: ConnectionEndView,
)
    requires
        spec_connection_id(key) == Ok::<Seq<char>, Error>(conn_id),
        ctx.spec_connection_end(conn_id) == Some(conn),
        !ctx.spec_has_connection_pre(conn_id),
        ctx.spec_has_connection_post(conn_id),
        conn.state == State::Init,
    ensures
        spec_validate_connection(ctx, key, tx) == Ok::<bool, Error>(
            ctx.spec_has_client_state(conn.client_id),
        ),
{
}

/// The TRY step for a new `TryOpen` connection with a well-formed payload: when the client
/// and its consensus state at the proof height exist and the object proof verifies, a
/// missing client proof is an error, and proofs that all verify are accepted.
pub proof fn lemma_try_outcome<C: ConnectionReader>(
    ctx: &C,
    key: Seq<DbKeySeg>,
    conn_id: Seq<char>,
    conn: ConnectionEndView,
    data: ConnectionOpenTryData,
)
    requires
        spec_connection_id(key) == Ok::<Seq<char>, Error>(conn_id),
        ctx.spec_connection_end(conn_id) == Some(conn),
        !ctx.spec_has_connection_pre(conn_id),
        ctx.spec_has_connection_post(conn_id),
        conn.state == State::TryOpen,
        data.client_id is Some,
        data.counterparty is Some,
        proofs_well_formed(data.proofs@),
        ctx.spec_has_client_state(conn.client_id),
        ctx.spec_has_client_consensus_state(conn.client_id, data.proofs.height),
        ctx.spec_verify_connection_state(
            conn.client_id,
            data.proofs.height,
            conn.counterparty.prefix,
            data.proofs@.object_proof,
            conn.counterparty.connection_id,
            expected_try_end(
                data.client_id->Some_0@,
                data.counterparty->Some_0.client_id@,
                versions_view(data.counterparty_versions@),
                data.delay_period,
            ),
        ),
    ensures
        data.proofs.client_proof is None ==> spec_validate_connection(
            ctx,
            key,
            TxData::OpenTry(data),
        ) == Err::<bool, Error>(Error::IbcProofError),
        ({
            let proofs = data.proofs@;
            &&& proofs.client_proof is Some
            &&& proofs.consensus_proof is Some
            &&& ctx.spec_verify_client_full_state(
                conn.client_id,
                proofs.height,
                conn.counterparty.prefix,
                conn.counterparty.client_id,
                proofs.client_proof->Some_0,
            )
            &&& ctx.spec_has_host_consensus_state(proofs.height)
            &&& ctx.spec_verify_client_consensus_state(
                conn.client_id,
                proofs.height,
                conn.counterparty.prefix,
                conn.counterparty.client_id,
                proofs.consensus_proof->Some_0,
            )
        }) ==> spec_validate_connection(ctx, key, TxData::OpenTry(data)) == Ok::<bool, Error>(
            true,
        ),
{
}

/// An ACK whose asserted counterparty connection id differs from the one the connection
/// already records is rejected, whatever the proofs.
pub proof fn lemma_ack_rejects_other_counterparty<C: ConnectionReader>(
    ctx: &C,
    key: Seq<DbKeySeg>,
    conn_id: Seq<char>,
    conn: ConnectionEndView,
    prev: ConnectionEndView,
    data: ConnectionOpenAckData,
)
    requires
        spec_connection_id(key) == Ok::<Seq<char>, Error>(conn_id),
        ctx.spec_connection_end(conn_id) == Some(conn),
        ctx.spec_connection_end_pre(conn_id) == Some(prev),
        ctx.spec_has_connection_pre(conn_id),
        ctx.spec_has_connection_post(conn_id),
        conn.state == State::Open,
        prev.state == State::Init,
        conn.counterparty.connection_id is Some,
        is_connection_identifier(data.counterpart_connection_id@),
        conn.counterparty.connection_id->Some_0 != data.counterpart_connection_id@,
    ensures
        spec_validate_connection(ctx, key, TxData::OpenAck(data)) == Ok::<bool, Error>(false),
{
}

/// The CONFIRM step for a connection moving from `TryOpen` to `Open` with a well-formed
/// payload: proofs that all verify are accepted, and a proof height at which the client
/// has no consensus state is rejected.
pub proof fn lemma_confirm_outcome<C: ConnectionReader>(
    ctx: &C,
    key: Seq<DbKeySeg>,
    conn_id: Seq<char>,
    conn: ConnectionEndView,
    prev: ConnectionEndView,
    data: ConnectionOpenConfirmData,
)
    requires
        spec_connection_id(key) == Ok::<Seq<char>, Error>(conn_id),
        ctx.spec_connection_end(conn_id) == Some(conn),
        ctx.spec_connection_end_pre(conn_id) == Some(prev),
        ctx.spec_has_connection_pre(conn_id),
        ctx.spec_has_connection_post(conn_id),
        conn.state == State::Open,
        prev.state == State::TryOpen,
        is_connection_identifier(data.connection_id@),
        proofs_well_formed(data.proofs@),
    ensures
        !ctx.spec_has_client_consensus_state(conn.client_id, data.proofs.height)
            ==> spec_validate_connection(ctx, key, TxData::OpenConfirm(data)) == Ok::<bool, Error>(
            false,
        ),
        ({
            let proofs = data.proofs@;
            let h = proofs.height;
            let cp = conn.counterparty;
            &&& ctx.spec_has_client_state(conn.client_id)
            &&& ctx.spec_has_client_consensus_state(conn.client_id, h)
            &&& ctx.spec_verify_connection_state(
                conn.client_id,
                h,
                cp.prefix,
                proofs.object_proof,
                cp.connection_id,
                expected_end_for(conn, State::Open, data.connection_id@, conn.versions),
            )
            &&& proofs.client_proof is Some
            &&& proofs.consensus_proof is Some
            &&& ctx.spec_verify_client_full_state(
                conn.client_id,
                h,
                cp.prefix,
                cp.client_id,
                proofs.client_proof->Some_0,
            )
            &&& ctx.spec_has_host_consensus_state(h)
            &&& ctx.spec_verify_client_consensus_state(
                conn.client_id,
                h,
                cp.prefix,
                cp.client_id,
                proofs.consensus_proof->Some_0,
            )
        }) ==> spec_validate_connection(ctx, key, TxData::OpenConfirm(data)) == Ok::<bool, Error>(
            true,
        ),
{
}

/// The state steps that the handshake permits: a new end in `Init` or `TryOpen`, or an
/// end in `Init` or `TryOpen` moving to `Open`.
pub open spec fn is_forward_step(prev: Option<ConnectionEndView>, post: ConnectionEndView) -> bool {
    match prev {
        None => post.state == State::Init || post.state == State::TryOpen,
        Some(p) => (p.state == State::Init || p.state == State::TryOpen) && post.state
            == State::Open,
    }
}

/// Every accepted transition moves the connection forward; in particular an `Open`
/// connection never goes back to `Init` or `TryOpen`.
pub proof fn lemma_accepted_step_is_forward<C: ConnectionReader>(
    ctx: &C,
    key: Seq<DbKeySeg>,
    tx: TxData,
    conn_id: Seq<char>,
)
    requires
        spec_connection_id(key) == Ok::<Seq<char>, Error>(conn_id),
        ctx.spec_connection_end_pre(conn_id) is Some ==> ctx.spec_has_connection_pre(conn_id),
        spec_validate_connection(ctx, key, tx) == Ok::<bool, Error>(true),
    ensures
        ctx.spec_connection_end(conn_id) is Some,
        is_forward_step(
            ctx.spec_connection_end_pre(conn_id),
            ctx.spec_connection_end(conn_id)->Some_0,
        ),
{
}

} // verus!
