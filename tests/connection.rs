use ibc_connection::connection::{
    commitment_prefix, connection_state_change, state_change, validate_connection,
    verify_connection_proof,
};
use ibc_connection::host::{ConnectionProof, MemoryHost, StateProof};
use ibc_connection::reader::{host_current_height, host_oldest_height, ConnectionReader};
use ibc_connection::storage::{
    connection_id, connection_key, valid_connection_id, Address, DbKeySeg, InternalAddress, Key,
};
use ibc_connection::types::{
    ConnectionEnd, ConnectionOpenAckData, ConnectionOpenConfirmData, ConnectionOpenTryData,
    Counterparty, Error, Height, Proofs, State, StateChange, TxData, Version,
};

const CONN_ID: &str = "connection-0";
const CLIENT_ID: &str = "07-tendermint-0";
const CP_CLIENT_ID: &str = "07-tendermint-5";
const CP_CONN_ID: &str = "connection-7";

fn height(h: u64) -> Height {
    Height { revision_number: 0, revision_height: h }
}

fn version() -> Version {
    Version {
        identifier: "1".to_string(),
        features: vec!["ORDER_ORDERED".to_string(), "ORDER_UNORDERED".to_string()],
    }
}

fn other_version() -> Version {
    Version { identifier: "2".to_string(), features: vec!["ORDER_ORDERED".to_string()] }
}

fn end(state: State, cp_conn: Option<&str>, versions: Vec<Version>) -> ConnectionEnd {
    ConnectionEnd {
        state,
        client_id: CLIENT_ID.to_string(),
        counterparty: Counterparty {
            client_id: CP_CLIENT_ID.to_string(),
            connection_id: cp_conn.map(|s| s.to_string()),
            prefix: b"ibc".to_vec(),
        },
        versions,
        delay_period: 0,
    }
}

fn key() -> Key {
    connection_key(&CONN_ID.to_string())
}

fn host_with(pre: Option<ConnectionEnd>, post: Option<ConnectionEnd>) -> MemoryHost {
    let mut host = MemoryHost {
        pre: vec![],
        post: vec![],
        clients: vec![CLIENT_ID.to_string()],
        consensus_states: vec![(CLIENT_ID.to_string(), height(10))],
        host_consensus_states: vec![height(10)],
        connection_proofs: vec![],
        client_proofs: vec![],
        consensus_proofs: vec![],
        block_height: 12,
        connection_counter: 1,
    };
    if let Some(c) = pre {
        host.pre.push((CONN_ID.to_string(), c));
    }
    if let Some(c) = post {
        host.post.push((CONN_ID.to_string(), c));
    }
    host
}

/// Proofs at `h` that `host`'s light client accepts for `expected` as `conn`'s counterparty.
fn proofs_for(
    host: &mut MemoryHost,
    conn: &ConnectionEnd,
    expected: &ConnectionEnd,
    h: Height,
) -> Proofs {
    let object_proof = format!("object:{}", host.connection_proofs.len()).into_bytes();
    host.connection_proofs.push(ConnectionProof {
        proof: object_proof.clone(),
        connection_id: conn.counterparty.connection_id.clone(),
        connection: expected.clone(),
    });
    host.client_proofs.push(StateProof {
        proof: b"client".to_vec(),
        client_id: CP_CLIENT_ID.to_string(),
        height: h,
    });
    host.consensus_proofs.push(StateProof {
        proof: b"consensus".to_vec(),
        client_id: CP_CLIENT_ID.to_string(),
        height: h,
    });
    Proofs {
        height: h,
        object_proof,
        client_proof: Some(b"client".to_vec()),
        consensus_proof: Some(b"consensus".to_vec()),
    }
}

fn expected_try() -> ConnectionEnd {
    ConnectionEnd {
        state: State::Init,
        client_id: CP_CLIENT_ID.to_string(),
        counterparty: Counterparty {
            client_id: CLIENT_ID.to_string(),
            connection_id: None,
            prefix: commitment_prefix(),
        },
        versions: vec![version()],
        delay_period: 0,
    }
}

fn try_data(proofs: Proofs) -> TxData {
    TxData::OpenTry(ConnectionOpenTryData {
        client_id: Some(CLIENT_ID.to_string()),
        counterparty: Some(Counterparty {
            client_id: CP_CLIENT_ID.to_string(),
            connection_id: Some(CP_CONN_ID.to_string()),
            prefix: b"ibc".to_vec(),
        }),
        counterparty_versions: vec![version()],
        delay_period: 0,
        proofs,
    })
}

fn expected_open(state: State, versions: Vec<Version>) -> ConnectionEnd {
    ConnectionEnd {
        state,
        client_id: CP_CLIENT_ID.to_string(),
        counterparty: Counterparty {
            client_id: CLIENT_ID.to_string(),
            connection_id: Some(CONN_ID.to_string()),
            prefix: commitment_prefix(),
        },
        versions,
        delay_period: 0,
    }
}

fn ack_data(cp_conn: &str, v: Version, proofs: Proofs) -> TxData {
    TxData::OpenAck(ConnectionOpenAckData {
        connection_id: CONN_ID.to_string(),
        counterpart_connection_id: cp_conn.to_string(),
        version: v,
        proofs,
    })
}

fn confirm_data(proofs: Proofs) -> TxData {
    TxData::OpenConfirm(ConnectionOpenConfirmData { connection_id: CONN_ID.to_string(), proofs })
}

#[test]
fn connection_key_round_trip() {
    let k = connection_key(&CONN_ID.to_string());
    assert_eq!(k.segments.len(), 3);
    assert_eq!(connection_id(&k), Ok(CONN_ID.to_string()));
}

#[test]
fn key_without_identifier_segment_is_key_error() {
    let k = Key {
        segments: vec![
            DbKeySeg::AddressSeg(Address::Internal(InternalAddress::Ibc)),
            DbKeySeg::StringSeg("connections".to_string()),
        ],
    };
    assert_eq!(connection_id(&k), Err(Error::KeyError));
    assert_eq!(connection_id(&Key { segments: vec![] }), Err(Error::KeyError));
    let host = host_with(None, Some(end(State::Init, None, vec![version()])));
    assert_eq!(validate_connection(&host, &k, TxData::Unrecognized), Err(Error::KeyError));
}

#[test]
fn malformed_identifier_is_key_error() {
    let k = connection_key(&"conn/0".to_string());
    assert_eq!(connection_id(&k), Err(Error::KeyError));
    assert!(!valid_connection_id("short"));
    assert!(!valid_connection_id("connection 0"));
    assert!(valid_connection_id("connection-0"));
    assert!(!valid_connection_id(&"c".repeat(65)));
    assert!(valid_connection_id(&"c".repeat(64)));
}

#[test]
fn classifies_state_changes() {
    assert_eq!(state_change(false, true), StateChange::Created);
    assert_eq!(state_change(true, true), StateChange::Updated);
    assert_eq!(state_change(true, false), StateChange::Deleted);
    assert_eq!(state_change(false, false), StateChange::NotExists);
    let host = host_with(None, Some(end(State::Init, None, vec![version()])));
    assert_eq!(connection_state_change(&host, &CONN_ID.to_string()), StateChange::Created);
}

#[test]
fn commitment_prefix_is_borsh_encoded_ibc_address() {
    assert_eq!(commitment_prefix(), vec![3u8, 0, 0, 0, b'I', b'B', b'C']);
}

#[test]
fn init_accepted_iff_client_exists() {
    let host = host_with(None, Some(end(State::Init, None, vec![version()])));
    assert_eq!(validate_connection(&host, &key(), TxData::Unrecognized), Ok(true));
    let mut no_client = host_with(None, Some(end(State::Init, None, vec![version()])));
    no_client.clients.clear();
    assert_eq!(validate_connection(&no_client, &key(), TxData::Unrecognized), Ok(false));
}

#[test]
fn missing_connection_is_rejected() {
    let host = host_with(None, None);
    assert_eq!(validate_connection(&host, &key(), TxData::Unrecognized), Ok(false));
}

#[test]
fn created_open_connection_is_rejected() {
    let host = host_with(None, Some(end(State::Open, None, vec![version()])));
    assert_eq!(validate_connection(&host, &key(), TxData::Unrecognized), Ok(false));
}

#[test]
fn try_with_valid_proofs_is_accepted() {
    let conn = end(State::TryOpen, Some(CP_CONN_ID), vec![version()]);
    let mut host = host_with(None, Some(conn.clone()));
    let proofs = proofs_for(&mut host, &conn, &expected_try(), height(10));
    assert_eq!(validate_connection(&host, &key(), try_data(proofs)), Ok(true));
}

#[test]
fn try_with_flipped_object_proof_byte_is_rejected() {
    let conn = end(State::TryOpen, Some(CP_CONN_ID), vec![version()]);
    let mut host = host_with(None, Some(conn.clone()));
    let mut proofs = proofs_for(&mut host, &conn, &expected_try(), height(10));
    proofs.object_proof[3] ^= 0x01;
    assert_eq!(validate_connection(&host, &key(), try_data(proofs)), Ok(false));
}

#[test]
fn try_without_client_proof_is_proof_error() {
    let conn = end(State::TryOpen, Some(CP_CONN_ID), vec![version()]);
    let mut host = host_with(None, Some(conn.clone()));
    let mut proofs = proofs_for(&mut host, &conn, &expected_try(), height(10));
    proofs.client_proof = None;
    assert_eq!(validate_connection(&host, &key(), try_data(proofs)), Err(Error::IbcProofError));
}

#[test]
fn try_without_consensus_proof_is_proof_error() {
    let conn = end(State::TryOpen, Some(CP_CONN_ID), vec![version()]);
    let mut host = host_with(None, Some(conn.clone()));
    let mut proofs = proofs_for(&mut host, &conn, &expected_try(), height(10));
    proofs.consensus_proof = None;
    assert_eq!(validate_connection(&host, &key(), try_data(proofs)), Err(Error::IbcProofError));
}

#[test]
fn try_with_wrong_payload_is_decoding_error() {
    let conn = end(State::TryOpen, Some(CP_CONN_ID), vec![version()]);
    let mut host = host_with(None, Some(conn.clone()));
    let proofs = proofs_for(&mut host, &conn, &expected_try(), height(10));
    assert_eq!(
        validate_connection(&host, &key(), confirm_data(proofs)),
        Err(Error::DecodingTxDataError)
    );
}

#[test]
fn try_with_zero_height_or_empty_proof_is_data_error() {
    let conn = end(State::TryOpen, Some(CP_CONN_ID), vec![version()]);
    let mut host = host_with(None, Some(conn.clone()));
    let proofs = proofs_for(&mut host, &conn, &expected_try(), height(0));
    assert_eq!(validate_connection(&host, &key(), try_data(proofs)), Err(Error::IbcDataError));
    let mut proofs = proofs_for(&mut host, &conn, &expected_try(), height(10));
    proofs.object_proof.clear();
    assert_eq!(validate_connection(&host, &key(), try_data(proofs)), Err(Error::IbcDataError));
}

#[test]
fn try_without_client_id_is_rejected() {
    let conn = end(State::TryOpen, Some(CP_CONN_ID), vec![version()]);
    let mut host = host_with(None, Some(conn.clone()));
    let proofs = proofs_for(&mut host, &conn, &expected_try(), height(10));
    let mut tx = try_data(proofs);
    if let TxData::OpenTry(d) = &mut tx {
        d.client_id = None;
    }
    assert_eq!(validate_connection(&host, &key(), tx), Ok(false));
}

#[test]
fn ack_with_valid_proofs_is_accepted() {
    let prev = end(State::Init, None, vec![other_version()]);
    let conn = end(State::Open, Some(CP_CONN_ID), vec![other_version()]);
    let mut host = host_with(Some(prev), Some(conn.clone()));
    let proofs = proofs_for(&mut host, &conn, &expected_open(State::TryOpen, vec![version()]), height(10));
    assert_eq!(validate_connection(&host, &key(), ack_data(CP_CONN_ID, version(), proofs)), Ok(true));
}

#[test]
fn ack_with_other_counterparty_connection_is_rejected() {
    let prev = end(State::Init, None, vec![other_version()]);
    let conn = end(State::Open, Some(CP_CONN_ID), vec![other_version()]);
    let mut host = host_with(Some(prev), Some(conn.clone()));
    let proofs = proofs_for(&mut host, &conn, &expected_open(State::TryOpen, vec![version()]), height(10));
    assert_eq!(
        validate_connection(&host, &key(), ack_data("connection-8", version(), proofs)),
        Ok(false)
    );
}

#[test]
fn ack_with_present_version_is_rejected() {
    let prev = end(State::Init, None, vec![version()]);
    let conn = end(State::Open, Some(CP_CONN_ID), vec![version()]);
    let mut host = host_with(Some(prev), Some(conn.clone()));
    let proofs = proofs_for(&mut host, &conn, &expected_open(State::TryOpen, vec![version()]), height(10));
    assert_eq!(validate_connection(&host, &key(), ack_data(CP_CONN_ID, version(), proofs)), Ok(false));
}

#[test]
fn ack_with_malformed_connection_id_is_data_error() {
    let prev = end(State::Init, None, vec![other_version()]);
    let conn = end(State::Open, Some(CP_CONN_ID), vec![other_version()]);
    let mut host = host_with(Some(prev), Some(conn.clone()));
    let proofs = proofs_for(&mut host, &conn, &expected_open(State::TryOpen, vec![version()]), height(10));
    assert_eq!(
        validate_connection(&host, &key(), ack_data("bad", version(), proofs)),
        Err(Error::IbcDataError)
    );
}

#[test]
fn confirm_with_valid_proofs_is_accepted() {
    let prev = end(State::TryOpen, Some(CP_CONN_ID), vec![version()]);
    let conn = end(State::Open, Some(CP_CONN_ID), vec![version()]);
    let mut host = host_with(Some(prev), Some(conn.clone()));
    let proofs = proofs_for(&mut host, &conn, &expected_open(State::Open, vec![version()]), height(10));
    assert_eq!(validate_connection(&host, &key(), confirm_data(proofs)), Ok(true));
}

#[test]
fn confirm_beyond_stored_consensus_is_rejected() {
    let prev = end(State::TryOpen, Some(CP_CONN_ID), vec![version()]);
    let conn = end(State::Open, Some(CP_CONN_ID), vec![version()]);
    let mut host = host_with(Some(prev), Some(conn.clone()));
    let proofs = proofs_for(&mut host, &conn, &expected_open(State::Open, vec![version()]), height(11));
    assert_eq!(validate_connection(&host, &key(), confirm_data(proofs)), Ok(false));
}

#[test]
fn verify_proof_without_host_consensus_is_rejected() {
    let conn = end(State::Open, Some(CP_CONN_ID), vec![version()]);
    let expected = expected_open(State::Open, vec![version()]);
    let mut host = host_with(None, None);
    let proofs = proofs_for(&mut host, &conn, &expected, height(10));
    assert_eq!(verify_connection_proof(&host, &conn, &expected, &proofs), Ok(true));
    host.host_consensus_states.clear();
    assert_eq!(verify_connection_proof(&host, &conn, &expected, &proofs), Ok(false));
}

#[test]
fn validation_is_repeatable() {
    let prev = end(State::TryOpen, Some(CP_CONN_ID), vec![version()]);
    let conn = end(State::Open, Some(CP_CONN_ID), vec![version()]);
    let mut host = host_with(Some(prev), Some(conn.clone()));
    let proofs = proofs_for(&mut host, &conn, &expected_open(State::Open, vec![version()]), height(10));
    let first = validate_connection(&host, &key(), confirm_data(proofs.clone()));
    let second = validate_connection(&host, &key(), confirm_data(proofs));
    assert_eq!(first, second);
    assert_eq!(first, Ok(true));
}

#[test]
fn open_never_moves_back() {
    for post_state in [State::Init, State::TryOpen] {
        let prev = end(State::Open, Some(CP_CONN_ID), vec![version()]);
        let conn = end(post_state, Some(CP_CONN_ID), vec![version()]);
        let mut host = host_with(Some(prev), Some(conn.clone()));
        let proofs = proofs_for(&mut host, &conn, &expected_try(), height(10));
        assert_eq!(validate_connection(&host, &key(), try_data(proofs)), Ok(false));
    }
    let prev = end(State::Open, Some(CP_CONN_ID), vec![version()]);
    let conn = end(State::Open, Some(CP_CONN_ID), vec![version()]);
    let mut host = host_with(Some(prev), Some(conn.clone()));
    let proofs = proofs_for(&mut host, &conn, &expected_open(State::Open, vec![version()]), height(10));
    assert_eq!(validate_connection(&host, &key(), confirm_data(proofs)), Ok(false));
}

#[test]
fn deleted_connection_is_rejected() {
    let host = host_with(Some(end(State::Init, None, vec![version()])), None);
    assert_eq!(validate_connection(&host, &key(), TxData::Unrecognized), Ok(false));
}

#[test]
fn first_entry_of_an_identifier_counts() {
    let mut host = host_with(None, Some(end(State::Init, None, vec![version()])));
    host.post.push((CONN_ID.to_string(), end(State::Open, None, vec![version()])));
    assert_eq!(validate_connection(&host, &key(), TxData::Unrecognized), Ok(true));
}

#[test]
fn host_heights_and_counter() {
    let host = host_with(None, None);
    assert_eq!(host_current_height(&host), height(12));
    assert_eq!(host_oldest_height(), Height { revision_number: 0, revision_height: 1 });
    assert_eq!(host.connection_counter(), 1);
}
