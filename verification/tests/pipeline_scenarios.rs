use ibc_handshake::dispatch::SubmissionError;
use ibc_handshake::endpoints::default_endpoints;
use ibc_handshake::pipeline::{
    prepare, App, BindPort, ChannelOpenInit, ConnectionOpenInit, CreateClient, Error, Packet,
    Port, ReleasePort, SendPacket, SubCommand,
};
use ibc_handshake::validation::ValidationError;

fn pipe_varint(mut n: u64) -> Vec<u8> {
    let mut v = Vec::new();
    while n >= 128 {
        v.push((n % 128 + 128) as u8);
        n /= 128;
    }
    v.push(n as u8);
    v
}

fn pipe_uint_field(field: u8, n: u64) -> Vec<u8> {
    let mut v = vec![field * 8];
    v.extend(pipe_varint(n));
    v
}

fn pipe_bytes_field(field: u8, b: &[u8]) -> Vec<u8> {
    let mut v = vec![field * 8 + 2];
    v.extend(pipe_varint(b.len() as u64));
    v.extend_from_slice(b);
    v
}

fn app(chain: &str, subcommand: SubCommand) -> App {
    App { chain: chain.to_string(), subcommand }
}

#[test]
fn channel_open_init_end_to_end() {
    let table = default_endpoints();
    let conn_hex = "11".repeat(32);
    let cmd = SubCommand::ChannelOpenInit(ChannelOpenInit {
        unordered: true,
        connection_identifier: conn_hex,
        port_identifier: "appia-port".to_string(),
        counterparty_port_identifier: "flaminia-port".to_string(),
    });
    let sub = prepare(&app("appia-client-id", cmd), &table).unwrap();
    assert_eq!(sub.addr, "ws://127.0.0.1:9944");
    assert_eq!(sub.envelopes.len(), 1);
    let e = &sub.envelopes[0];
    assert_eq!(e.type_url, "/ibc.core.channel.v1.MsgChannelOpenInit");
    let mut expected = Vec::new();
    expected.extend(pipe_uint_field(1, 0));
    expected.extend(pipe_bytes_field(2, &[0x11; 32]));
    expected.extend(pipe_bytes_field(3, b"appia-port"));
    expected.extend(pipe_bytes_field(4, ibc_handshake::digest::derive(b"appia-channel").as_bytes()));
    expected.extend(pipe_bytes_field(5, b"flaminia-port"));
    expected.extend(pipe_bytes_field(6, ibc_handshake::digest::derive(b"flaminia-channel").as_bytes()));
    assert_eq!(e.value, expected);
    assert_eq!(ibc_handshake::digest::derive(b"appia-channel").as_bytes().len(), 32);
}

#[test]
fn send_packet_end_to_end() {
    let table = default_endpoints();
    let cmd = SubCommand::Packet(Packet::SendPacket(SendPacket {
        sequence: "1".to_string(),
        timeout_height: "100".to_string(),
        source_port: "portA".to_string(),
        source_channel: "aa".repeat(32),
        dest_port: "portB".to_string(),
        dest_channel: "bb".repeat(32),
        data: "deadbeef".to_string(),
    }));
    let sub = prepare(&app("appia-client-id", cmd), &table).unwrap();
    assert_eq!(sub.envelopes.len(), 1);
    let e = &sub.envelopes[0];
    assert_eq!(e.type_url, "/ibc.core.channel.v1.MsgSendPacket");
    let mut expected = Vec::new();
    expected.extend(pipe_uint_field(1, 1));
    expected.extend(pipe_uint_field(2, 100));
    expected.extend(pipe_bytes_field(3, b"portA"));
    expected.extend(pipe_bytes_field(4, &[0xAA; 32]));
    expected.extend(pipe_bytes_field(5, b"portB"));
    expected.extend(pipe_bytes_field(6, &[0xBB; 32]));
    expected.extend(pipe_bytes_field(7, &[0xDE, 0xAD, 0xBE, 0xEF]));
    assert_eq!(e.value, expected);
}

#[test]
fn create_client_unknown_chain_fails_before_submission() {
    let table = default_endpoints();
    let cmd = SubCommand::CreateClient(CreateClient { chain_name: "unknown-chain".to_string() });
    let r = prepare(&app("appia-client-id", cmd), &table);
    assert_eq!(r.unwrap_err(), Error::Submission(SubmissionError::UnknownChain));
}

#[test]
fn unknown_originating_chain_fails() {
    let table = default_endpoints();
    let cmd = SubCommand::Port(Port::BindPort(BindPort { identifier: "p".to_string() }));
    let r = prepare(&app("nowhere", cmd), &table);
    assert_eq!(r.unwrap_err(), Error::Submission(SubmissionError::UnknownChain));
}

#[test]
fn create_client_end_to_end() {
    let table = default_endpoints();
    let cmd = SubCommand::CreateClient(CreateClient {
        chain_name: "flaminia-client-id".to_string(),
    });
    let sub = prepare(&app("appia-client-id", cmd), &table).unwrap();
    assert_eq!(sub.addr, "ws://127.0.0.1:9944");
    assert_eq!(sub.signer, "0CDA3F47EF3C4906693B170EF650EB968C5F4B2C");
    assert_eq!(sub.envelopes.len(), 1);
    assert_eq!(sub.envelopes[0].type_url, "/ibc.core.client.v1.MsgCreateClient");
}

#[test]
fn connection_open_init_end_to_end() {
    let table = default_endpoints();
    let cmd = SubCommand::ConnectionOpenInit(ConnectionOpenInit {
        client_identifier: "33".repeat(32),
        counterparty_client_identifier: "44".repeat(32),
    });
    let sub = prepare(&app("flaminia-client-id", cmd), &table).unwrap();
    assert_eq!(sub.addr, "ws://127.0.0.1:8844");
    let e = &sub.envelopes[0];
    assert_eq!(e.type_url, "/ibc.core.connection.v1.MsgConnectionOpenInit");
    let mut expected = Vec::new();
    expected.extend(pipe_bytes_field(1, &[0x33; 32]));
    expected.extend(pipe_bytes_field(2, &[0x44; 32]));
    expected.extend(pipe_bytes_field(4, b"1"));
    expected.extend(pipe_uint_field(5, 5));
    expected.extend(pipe_bytes_field(6, b"0CDA3F47EF3C4906693B170EF650EB968C5F4B2C"));
    assert_eq!(e.value, expected);
}

#[test]
fn release_port_end_to_end() {
    let table = default_endpoints();
    let cmd = SubCommand::Port(Port::ReleasePort(ReleasePort {
        identifier: "transfer".to_string(),
    }));
    let sub = prepare(&app("appia-client-id", cmd), &table).unwrap();
    let e = &sub.envelopes[0];
    assert_eq!(e.type_url, "/ibc.core.port.v1.MsgReleasePort");
    assert_eq!(e.value, pipe_bytes_field(1, b"transfer"));
}

#[test]
fn malformed_hex_is_fatal() {
    let table = default_endpoints();
    let cmd = SubCommand::ChannelOpenInit(ChannelOpenInit {
        unordered: false,
        connection_identifier: "zz".to_string(),
        port_identifier: "p".to_string(),
        counterparty_port_identifier: "q".to_string(),
    });
    let r = prepare(&app("appia-client-id", cmd), &table);
    assert_eq!(r.unwrap_err(), Error::MalformedHex);
}

#[test]
fn wrong_identifier_length_is_fatal() {
    let table = default_endpoints();
    let cmd = SubCommand::ConnectionOpenInit(ConnectionOpenInit {
        client_identifier: "1234".to_string(),
        counterparty_client_identifier: "44".repeat(32),
    });
    let r = prepare(&app("appia-client-id", cmd), &table);
    assert_eq!(r.unwrap_err(), Error::WrongIdentifierLength { length: 2 });
}

#[test]
fn malformed_sequence_is_fatal() {
    let table = default_endpoints();
    let cmd = SubCommand::Packet(Packet::SendPacket(SendPacket {
        sequence: "abc".to_string(),
        timeout_height: "100".to_string(),
        source_port: "portA".to_string(),
        source_channel: "aa".repeat(32),
        dest_port: "portB".to_string(),
        dest_channel: "bb".repeat(32),
        data: "deadbeef".to_string(),
    }));
    let r = prepare(&app("appia-client-id", cmd), &table);
    assert_eq!(r.unwrap_err(), Error::MalformedNumber);
}

#[test]
fn prepare_is_deterministic() {
    let table = default_endpoints();
    let make = || {
        SubCommand::Port(Port::BindPort(BindPort { identifier: "transfer".to_string() }))
    };
    let first = prepare(&app("appia-client-id", make()), &table).unwrap();
    let second = prepare(&app("appia-client-id", make()), &table).unwrap();
    assert_eq!(first, second);
}

#[test]
fn invalid_channel_name_surfaces_as_validation_error() {
    // A channel name outside the bounds cannot arise from the fixed logical
    // name, but the validation error path is the one the validator reports.
    let r = ibc_handshake::digest::derive_channel_identifier("a/b");
    assert_eq!(r.unwrap_err(), ValidationError::ContainsSeparator);
}
