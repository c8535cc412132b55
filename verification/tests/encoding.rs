use ibc_handshake::digest::Digest32;
use ibc_handshake::encode::encode;
use ibc_handshake::messages::{
    build_bind_port, build_chan_open_init, build_conn_open_init, build_create_client,
    build_release_port, build_send_packet, get_dummy_account_id, ConstructionError, Height,
    MockClientState,
};

fn ref_varint(mut n: u64) -> Vec<u8> {
    let mut v = Vec::new();
    while n >= 128 {
        v.push((n % 128 + 128) as u8);
        n /= 128;
    }
    v.push(n as u8);
    v
}

fn ref_uint_field(field: u8, n: u64) -> Vec<u8> {
    let mut v = vec![field * 8];
    v.extend(ref_varint(n));
    v
}

fn ref_bytes_field(field: u8, b: &[u8]) -> Vec<u8> {
    let mut v = vec![field * 8 + 2];
    v.extend(ref_varint(b.len() as u64));
    v.extend_from_slice(b);
    v
}

fn digest_of(fill: u8) -> Digest32 {
    Digest32::from_bytes(vec![fill; 32])
}

#[test]
fn encoding_is_idempotent() {
    let first = encode(&build_send_packet(
        7,
        9,
        b"pa".to_vec(),
        digest_of(0x11),
        b"pb".to_vec(),
        digest_of(0x22),
        vec![1, 2, 3],
    ));
    let second = encode(&build_send_packet(
        7,
        9,
        b"pa".to_vec(),
        digest_of(0x11),
        b"pb".to_vec(),
        digest_of(0x22),
        vec![1, 2, 3],
    ));
    assert_eq!(first, second);
    let m = build_bind_port(b"transfer".to_vec());
    assert_eq!(encode(&m), encode(&m));
}

#[test]
fn bind_port_exact_bytes() {
    let e = encode(&build_bind_port(b"port-1".to_vec()));
    assert_eq!(e.type_url, "/ibc.core.port.v1.MsgBindPort");
    assert_eq!(e.value, vec![0x0A, 0x06, 0x70, 0x6F, 0x72, 0x74, 0x2D, 0x31]);
}

#[test]
fn release_port_exact_bytes() {
    let e = encode(&build_release_port(b"port-1".to_vec()));
    assert_eq!(e.type_url, "/ibc.core.port.v1.MsgReleasePort");
    assert_eq!(e.value, ref_bytes_field(1, b"port-1"));
}

#[test]
fn send_packet_exact_bytes() {
    let e = encode(&build_send_packet(
        300,
        1,
        b"ab".to_vec(),
        digest_of(0x11),
        b"cd".to_vec(),
        digest_of(0x22),
        vec![0xDE, 0xAD],
    ));
    assert_eq!(e.type_url, "/ibc.core.channel.v1.MsgSendPacket");
    let mut expected = Vec::new();
    expected.extend(ref_uint_field(1, 300));
    expected.extend(ref_uint_field(2, 1));
    expected.extend(ref_bytes_field(3, b"ab"));
    expected.extend(ref_bytes_field(4, &[0x11; 32]));
    expected.extend(ref_bytes_field(5, b"cd"));
    expected.extend(ref_bytes_field(6, &[0x22; 32]));
    expected.extend(ref_bytes_field(7, &[0xDE, 0xAD]));
    assert_eq!(e.value, expected);
    // The varint of 300 spans two bytes with a continuation bit.
    assert_eq!(&e.value[..3], &[0x08, 0xAC, 0x02]);
}

#[test]
fn create_client_exact_bytes() {
    let m = build_create_client().unwrap();
    let e = encode(&m);
    assert_eq!(e.type_url, "/ibc.core.client.v1.MsgCreateClient");
    let mut client_state = Vec::new();
    client_state.extend(ref_bytes_field(1, b"ibc-logic-2"));
    let mut latest = Vec::new();
    latest.extend(ref_uint_field(1, 0));
    latest.extend(ref_uint_field(2, 26));
    client_state.extend(ref_bytes_field(2, &latest));
    let mut frozen = Vec::new();
    frozen.extend(ref_uint_field(1, 0));
    frozen.extend(ref_uint_field(2, 0));
    client_state.extend(ref_bytes_field(3, &frozen));
    let mut expected = Vec::new();
    expected.extend(ref_bytes_field(1, &client_state));
    expected.extend(ref_bytes_field(2, b""));
    expected.extend(ref_bytes_field(3, b"0CDA3F47EF3C4906693B170EF650EB968C5F4B2C"));
    assert_eq!(e.value, expected);
}

#[test]
fn conn_open_init_exact_bytes() {
    let m = build_conn_open_init(digest_of(0x33), digest_of(0x44));
    let e = encode(&m);
    assert_eq!(e.type_url, "/ibc.core.connection.v1.MsgConnectionOpenInit");
    let mut expected = Vec::new();
    expected.extend(ref_bytes_field(1, &[0x33; 32]));
    expected.extend(ref_bytes_field(2, &[0x44; 32]));
    // No counterparty connection identifier at this stage: field 3 absent.
    expected.extend(ref_bytes_field(4, b"1"));
    expected.extend(ref_uint_field(5, 5));
    expected.extend(ref_bytes_field(6, b"0CDA3F47EF3C4906693B170EF650EB968C5F4B2C"));
    assert_eq!(e.value, expected);
}

#[test]
fn chan_open_init_exact_bytes() {
    let hop = ibc_handshake::digest::derive(b"some-connection");
    let hop_bytes = hop.as_bytes().clone();
    let m = build_chan_open_init(
        false,
        vec![hop],
        b"appia-port".to_vec(),
        ibc_handshake::digest::derive(b"appia-channel"),
        b"flaminia-port".to_vec(),
        ibc_handshake::digest::derive(b"flaminia-channel"),
    );
    let e = encode(&m);
    assert_eq!(e.type_url, "/ibc.core.channel.v1.MsgChannelOpenInit");
    let mut expected = Vec::new();
    expected.extend(ref_uint_field(1, 0));
    expected.extend(ref_bytes_field(2, &hop_bytes));
    expected.extend(ref_bytes_field(3, b"appia-port"));
    expected.extend(ref_bytes_field(4, ibc_handshake::digest::derive(b"appia-channel").as_bytes()));
    expected.extend(ref_bytes_field(5, b"flaminia-port"));
    expected.extend(ref_bytes_field(6, ibc_handshake::digest::derive(b"flaminia-channel").as_bytes()));
    assert_eq!(e.value, expected);
}

#[test]
fn client_state_rejects_empty_chain_id() {
    let r = MockClientState::new(String::new(), Height::new(0, 26), Height::new(0, 0));
    assert_eq!(r, Err(ConstructionError::EmptyChainId));
}

#[test]
fn dummy_account_id_is_fixed() {
    assert_eq!(get_dummy_account_id(), "0CDA3F47EF3C4906693B170EF650EB968C5F4B2C");
    assert_eq!(get_dummy_account_id(), get_dummy_account_id());
}
