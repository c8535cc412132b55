//! The command pipeline: each operator command is validated, decoded,
//! derived, built and encoded here, and paired with the resolved endpoint
//! address; only the transport round-trip is left to the caller.

use crate::digest::{blake2b_256, derive_channel_identifier, derive_name, Digest32};
use crate::dispatch::SubmissionError;
use crate::encode::{
    chan_open_init_payload, conn_open_init_payload, create_client_payload, encode, hops_view,
    port_payload, send_packet_payload, Envelope,
};
use crate::endpoints::EndpointTable;
use crate::hexparse::{decode_hex, spec_hex_bytes, valid_hex};
use crate::messages::{
    build_bind_port, build_chan_open_init, build_conn_open_init, build_create_client,
    build_release_port, build_send_packet, get_dummy_account_id, ConstructionError, Height,
};
use crate::numparse::{all_dec_digits, dec_value, parse_u32, parse_u64};
use crate::validation::{spec_validate, ValidationError};
use vstd::prelude::*;
use vstd::string::*;
use vstd::utf8::encode_utf8;

verus! {

/// Create a new client of a counterparty chain.
#[derive(Clone, Debug, PartialEq, Eq)]
pub struct CreateClient {
    /// The name of the counterparty demo chain.
    pub chain_name: String,
}

/// Open a new connection.
#[derive(Clone, Debug, PartialEq, Eq)]
pub struct ConnectionOpenInit {
    /// The client identifier of the demo chain, in hex.
    pub client_identifier: String,
    /// The client identifier of the counterparty demo chain, in hex.
    pub counterparty_client_identifier: String,
}

/// Open a new channel.
#[derive(Clone, Debug, PartialEq, Eq)]
pub struct ChannelOpenInit {
    /// The channel is unordered.
    pub unordered: bool,
    /// The connection identifier of the demo chain, in hex.
    pub connection_identifier: String,
    /// The identifier of the port.
    pub port_identifier: String,
    /// The identifier of the port on the counterparty chain.
    pub counterparty_port_identifier: String,
}

/// Bind a module to an unallocated port.
#[derive(Clone, Debug, PartialEq, Eq)]
pub struct BindPort {
    /// The identifier of the port.
    pub identifier: String,
}

/// Release a port.
#[derive(Clone, Debug, PartialEq, Eq)]
pub struct ReleasePort {
    /// The identifier of the port.
    pub identifier: String,
}

/// Handle a port's lifecycle.
#[derive(Clone, Debug, PartialEq, Eq)]
pub enum Port {
    BindPort(BindPort),
    ReleasePort(ReleasePort),
}

/// Send a packet.
#[derive(Clone, Debug, PartialEq, Eq)]
pub struct SendPacket {
    /// The sequence number ordering sends and receives, in decimal.
    pub sequence: String,
    /// The consensus height on the destination chain after which the packet
    /// counts as timed out, in decimal.
    pub timeout_height: String,
    /// The port on the sending chain.
    pub source_port: String,
    /// The channel end on the sending chain, in hex.
    pub source_channel: String,
    /// The port on the receiving chain.
    pub dest_port: String,
    /// The channel end on the receiving chain, in hex.
    pub dest_channel: String,
    /// The opaque application data, in hex.
    pub data: String,
}

/// Handle packets.
#[derive(Clone, Debug, PartialEq, Eq)]
pub enum Packet {
    SendPacket(SendPacket),
}

/// One operator command.
#[derive(Clone, Debug, PartialEq, Eq)]
pub enum SubCommand {
    CreateClient(CreateClient),
    ConnectionOpenInit(ConnectionOpenInit),
    ChannelOpenInit(ChannelOpenInit),
    Port(Port),
    Packet(Packet),
}

/// A full invocation: the originating chain and the command.
#[derive(Clone, Debug, PartialEq, Eq)]
pub struct App {
    /// The logical name of the chain to be operated.
    pub chain: String,
    pub subcommand: SubCommand,
}

/// What stopped a command before submission.
#[derive(Clone, Copy, Debug, PartialEq, Eq, Structural)]
pub enum Error {
    /// An identifier broke a syntax rule.
    Validation(ValidationError),
    /// A state constructor rejected its inputs.
    Construction(ConstructionError),
    /// The submission failed or could not be addressed.
    Submission(SubmissionError),
    /// A hex argument is malformed.
    MalformedHex,
    /// A hex identifier did not decode to exactly 32 bytes.
    WrongIdentifierLength { length: usize },
    /// A decimal argument is empty, non-numeric, or out of range.
    MalformedNumber,
}

/// A prepared transaction: where to submit, the envelopes to submit as one
/// transaction, and the signing identity.
#[derive(Clone, Debug, PartialEq, Eq)]
pub struct Submission {
    pub addr: String,
    pub envelopes: Vec<Envelope>,
    pub signer: String,
}

/// The 32 bytes a hex identifier argument denotes, or why it is rejected.
pub open spec fn spec_digest_arg(s: Seq<char>) -> Result<Seq<u8>, Error> {
    if !valid_hex(s) {
        Err(Error::MalformedHex)
    } else if spec_hex_bytes(s).len() != 32 {
        Err(Error::WrongIdentifierLength { length: spec_hex_bytes(s).len() as usize })
    } else {
        Ok(spec_hex_bytes(s))
    }
}

/// The number a decimal argument denotes, or why it is rejected.
pub open spec fn spec_u64_arg(s: Seq<char>) -> Result<u64, Error> {
    if s.len() > 0 && all_dec_digits(s) && dec_value(s) <= u64::MAX {
        Ok(dec_value(s) as u64)
    } else {
        Err(Error::MalformedNumber)
    }
}

/// The 32-bit number a decimal argument denotes, or why it is rejected.
pub open spec fn spec_u32_arg(s: Seq<char>) -> Result<u32, Error> {
    if s.len() > 0 && all_dec_digits(s) && dec_value(s) <= u32::MAX {
        Ok(dec_value(s) as u32)
    } else {
        Err(Error::MalformedNumber)
    }
}

/// The envelope a create-client command yields: the fixed mock client and
/// consensus state under the create-client type-URL.
pub open spec fn spec_create_client_envelope() -> Result<(Seq<char>, Seq<u8>), Error> {
    if "ibc-logic-2"@.len() == 0 {
        Err(Error::Construction(ConstructionError::EmptyChainId))
    } else {
        Ok(
            (
                "/ibc.core.client.v1.MsgCreateClient"@,
                create_client_payload(
                    "ibc-logic-2"@,
                    Height { revision_number: 0, revision_height: 26 },
                    Height { revision_number: 0, revision_height: 0 },
                    "0CDA3F47EF3C4906693B170EF650EB968C5F4B2C"@,
                ),
            ),
        )
    }
}

/// The envelope a connection-open-init command yields: both client
/// identifiers decoded from hex, no counterparty connection identifier, the
/// default version and the fixed delay period.
pub open spec fn spec_conn_open_init_envelope(c: ConnectionOpenInit) -> Result<
    (Seq<char>, Seq<u8>),
    Error,
> {
    match spec_digest_arg(c.client_identifier@) {
        Err(e) => Err(e),
        Ok(client) => match spec_digest_arg(c.counterparty_client_identifier@) {
            Err(e) => Err(e),
            Ok(cp) => Ok(
                (
                    "/ibc.core.connection.v1.MsgConnectionOpenInit"@,
                    conn_open_init_payload(
                        client,
                        cp,
                        None,
                        "1"@,
                        5,
                        "0CDA3F47EF3C4906693B170EF650EB968C5F4B2C"@,
                    ),
                ),
            ),
        },
    }
}

/// The envelope a channel-open-init command yields: a single decoded
/// connection hop, the ports as raw bytes, and the two channel identifiers
/// derived from their fixed logical names, the local one validated first.
pub open spec fn spec_chan_open_init_envelope(c: ChannelOpenInit) -> Result<
    (Seq<char>, Seq<u8>),
    Error,
> {
    match spec_digest_arg(c.connection_identifier@) {
        Err(e) => Err(e),
        Ok(conn) => match spec_validate("appia-channel"@, 10, 64) {
            Err(e) => Err(Error::Validation(e)),
            Ok(()) => Ok(
                (
                    "/ibc.core.channel.v1.MsgChannelOpenInit"@,
                    chan_open_init_payload(
                        !c.unordered,
                        seq![conn],
                        encode_utf8(c.port_identifier@),
                        blake2b_256(encode_utf8("appia-channel"@)),
                        encode_utf8(c.counterparty_port_identifier@),
                        blake2b_256(encode_utf8("flaminia-channel"@)),
                    ),
                ),
            ),
        },
    }
}

/// The envelope a send-packet command yields: sequence and timeout parsed
/// from decimal, channels decoded from hex, ports as raw bytes, data
/// decoded from hex.
pub open spec fn spec_send_packet_envelope(p: SendPacket) -> Result<(Seq<char>, Seq<u8>), Error> {
    match spec_u64_arg(p.sequence@) {
        Err(e) => Err(e),
        Ok(sequence) => match spec_u32_arg(p.timeout_height@) {
            Err(e) => Err(e),
            Ok(timeout) => match spec_digest_arg(p.source_channel@) {
                Err(e) => Err(e),
                Ok(sc) => match spec_digest_arg(p.dest_channel@) {
                    Err(e) => Err(e),
                    Ok(dc) => if !valid_hex(p.data@) {
                        Err(Error::MalformedHex)
                    } else {
                        Ok(
                            (
                                "/ibc.core.channel.v1.MsgSendPacket"@,
                                send_packet_payload(
                                    sequence,
                                    timeout,
                                    encode_utf8(p.source_port@),
                                    sc,
                                    encode_utf8(p.dest_port@),
                                    dc,
                                    spec_hex_bytes(p.data@),
                                ),
                            ),
                        )
                    },
                },
            },
        },
    }
}

/// The envelope a port command yields: the raw, un-hashed port identifier
/// under the variant's type-URL.
pub open spec fn spec_port_envelope(p: Port) -> Result<(Seq<char>, Seq<u8>), Error> {
    match p {
        Port::BindPort(b) => Ok(
            ("/ibc.core.port.v1.MsgBindPort"@, port_payload(encode_utf8(b.identifier@))),
        ),
        Port::ReleasePort(r) => Ok(
            ("/ibc.core.port.v1.MsgReleasePort"@, port_payload(encode_utf8(r.identifier@))),
        ),
    }
}

/// The envelope a command yields, before endpoint resolution.
pub open spec fn spec_command_envelope(cmd: SubCommand) -> Result<(Seq<char>, Seq<u8>), Error> {
    match cmd {
        SubCommand::CreateClient(_) => spec_create_client_envelope(),
        SubCommand::ConnectionOpenInit(c) => spec_conn_open_init_envelope(c),
        SubCommand::ChannelOpenInit(c) => spec_chan_open_init_envelope(c),
        SubCommand::Port(p) => spec_port_envelope(p),
        SubCommand::Packet(Packet::SendPacket(p)) => spec_send_packet_envelope(p),
    }
}

/// The full outcome of preparing a command: the resolved address, type-URL
/// and payload, or the first error. An unknown chain name fails before any
/// other work.
pub open spec fn spec_prepare(app: App, table: EndpointTable) -> Result<
    (Seq<char>, Seq<char>, Seq<u8>),
    Error,
> {
    match table.spec_lookup(app.chain@) {
        None => Err(Error::Submission(SubmissionError::UnknownChain)),
        Some(addr) => {
            let counterparty_known = match app.subcommand {
                SubCommand::CreateClient(cc) => table.contains(cc.chain_name@),
                _ => true,
            };
            if !counterparty_known {
                Err(Error::Submission(SubmissionError::UnknownChain))
            } else {
                match spec_command_envelope(app.subcommand) {
                    Err(e) => Err(e),
                    Ok(p) => Ok((addr, p.0, p.1)),
                }
            }
        },
    }
}

/// Decodes a hex identifier argument to its 32 bytes.
fn digest_arg(s: &str) -> (r: Result<Digest32, Error>)
    ensures
        match r {
            Ok(d) => spec_digest_arg(s@) == Ok::<Seq<u8>, Error>(d@) && d.wf(),
            Err(e) => spec_digest_arg(s@) == Err::<Seq<u8>, Error>(e),
        },
{
    match decode_hex(s) {
        None => Err(Error::MalformedHex),
        Some(v) => if v.len() != 32 {
            Err(Error::WrongIdentifierLength { length: v.len() })
        } else {
            Ok(Digest32::from_bytes(v))
        },
    }
}

/// Prepares the create-client envelope from the fixed mock state.
pub fn prepare_create_client() -> (r: Result<Envelope, Error>)
    ensures
        match r {
            Ok(e) => spec_create_client_envelope() == Ok::<(Seq<char>, Seq<u8>), Error>(
                (e.type_url@, e.value@),
            ),
            Err(err) => spec_create_client_envelope() == Err::<(Seq<char>, Seq<u8>), Error>(err),
        },
{
    proof {
        reveal_strlit("ibc-logic-2");
    }
    match build_create_client() {
        Err(e) => Err(Error::Construction(e)),
        Ok(m) => Ok(encode(&m)),
    }
}

/// Prepares the connection-open-init envelope from the two hex client
/// identifiers.
pub fn prepare_conn_open_init(c: &ConnectionOpenInit) -> (r: Result<Envelope, Error>)
    ensures
        match r {
            Ok(e) => spec_conn_open_init_envelope(*c) == Ok::<(Seq<char>, Seq<u8>), Error>(
                (e.type_url@, e.value@),
            ),
            Err(err) => spec_conn_open_init_envelope(*c) == Err::<(Seq<char>, Seq<u8>), Error>(
                err,
            ),
        },
{
    let client_id = match digest_arg(c.client_identifier.as_str()) {
        Ok(d) => d,
        Err(e) => {
            return Err(e);
        },
    };
    let counterparty_client_id = match digest_arg(c.counterparty_client_identifier.as_str()) {
        Ok(d) => d,
        Err(e) => {
            return Err(e);
        },
    };
    let m = build_conn_open_init(client_id, counterparty_client_id);
    Ok(encode(&m))
}

/// Prepares the channel-open-init envelope: decodes the connection hop,
/// validates the fixed local channel name against the channel bounds,
/// derives both channel identifiers, and carries the ports as raw bytes.
pub fn prepare_chan_open_init(c: &ChannelOpenInit) -> (r: Result<Envelope, Error>)
    ensures
        match r {
            Ok(e) => spec_chan_open_init_envelope(*c) == Ok::<(Seq<char>, Seq<u8>), Error>(
                (e.type_url@, e.value@),
            ),
            Err(err) => spec_chan_open_init_envelope(*c) == Err::<(Seq<char>, Seq<u8>), Error>(
                err,
            ),
        },
{
    let conn = match digest_arg(c.connection_identifier.as_str()) {
        Ok(d) => d,
        Err(e) => {
            return Err(e);
        },
    };
    let ghost conn_bytes = conn@;
    let channel_id = match derive_channel_identifier("appia-channel") {
        Ok(d) => d,
        Err(e) => {
            return Err(Error::Validation(e));
        },
    };
    let counterparty_channel_id = derive_name("flaminia-channel");
    let mut hops: Vec<Digest32> = Vec::new();
    hops.push(conn);
    let ghost hops_snapshot = hops@;
    let port_id = c.port_identifier.as_str().as_bytes_vec();
    let counterparty_port_id = c.counterparty_port_identifier.as_str().as_bytes_vec();
    let m = build_chan_open_init(
        !c.unordered,
        hops,
        port_id,
        channel_id,
        counterparty_port_id,
        counterparty_channel_id,
    );
    proof {
        assert(hops_view(hops_snapshot) =~= seq![conn_bytes]);
    }
    Ok(encode(&m))
}

/// Prepares the send-packet envelope: parses sequence and timeout, decodes
/// the channel identifiers and the data from hex, and carries the ports as
/// raw bytes.
pub fn prepare_send_packet(p: &SendPacket) -> (r: Result<Envelope, Error>)
    ensures
        match r {
            Ok(e) => spec_send_packet_envelope(*p) == Ok::<(Seq<char>, Seq<u8>), Error>(
                (e.type_url@, e.value@),
            ),
            Err(err) => spec_send_packet_envelope(*p) == Err::<(Seq<char>, Seq<u8>), Error>(err),
        },
{
    let sequence = match parse_u64(p.sequence.as_str()) {
        Some(v) => v,
        None => {
            return Err(Error::MalformedNumber);
        },
    };
    let timeout_height = match parse_u32(p.timeout_height.as_str()) {
        Some(v) => v,
        None => {
            return Err(Error::MalformedNumber);
        },
    };
    let source_channel = match digest_arg(p.source_channel.as_str()) {
        Ok(d) => d,
        Err(e) => {
            return Err(e);
        },
    };
    let dest_channel = match digest_arg(p.dest_channel.as_str()) {
        Ok(d) => d,
        Err(e) => {
            return Err(e);
        },
    };
    let data = match decode_hex(p.data.as_str()) {
        Some(v) => v,
        None => {
            return Err(Error::MalformedHex);
        },
    };
    let m = build_send_packet(
        sequence,
        timeout_height,
        p.source_port.as_str().as_bytes_vec(),
        source_channel,
        p.dest_port.as_str().as_bytes_vec(),
        dest_channel,
        data,
    );
    Ok(encode(&m))
}

/// Prepares a bind-port or release-port envelope; the port identifier stays
/// raw bytes.
pub fn prepare_port(p: &Port) -> (e: Envelope)
    ensures
        spec_port_envelope(*p) == Ok::<(Seq<char>, Seq<u8>), Error>((e.type_url@, e.value@)),
{
    match p {
        Port::BindPort(b) => {
            let m = build_bind_port(b.identifier.as_str().as_bytes_vec());
            encode(&m)
        },
        Port::ReleasePort(r) => {
            let m = build_release_port(r.identifier.as_str().as_bytes_vec());
            encode(&m)
        },
    }
}

/// Runs one command's compute pipeline: resolves the originating chain (and
/// the counterparty for create-client), then validates, decodes, derives,
/// builds and encodes, yielding the submission the transport is to carry as
/// one transaction. Nothing is retried here.
pub fn prepare(app: &App, table: &EndpointTable) -> (r: Result<Submission, Error>)
    requires
        table.wf(),
    ensures
        match r {
            Ok(sub) => spec_prepare(*app, *table) matches Ok(p) && sub.addr@ == p.0
                && sub.envelopes@.len() == 1 && sub.envelopes@[0].type_url@ == p.1
                && sub.envelopes@[0].value@ == p.2 && sub.signer@
                == "0CDA3F47EF3C4906693B170EF650EB968C5F4B2C"@,
            Err(e) => spec_prepare(*app, *table) == Err::<(Seq<char>, Seq<char>, Seq<u8>), Error>(
                e,
            ),
        },
{
    let addr = match table.resolve(app.chain.as_str()) {
        Some(a) => a,
        None => {
            return Err(Error::Submission(SubmissionError::UnknownChain));
        },
    };
    let env = match &app.subcommand {
        SubCommand::CreateClient(cc) => {
            if table.resolve(cc.chain_name.as_str()).is_none() {
                return Err(Error::Submission(SubmissionError::UnknownChain));
            }
            match prepare_create_client() {
                Ok(e) => e,
                Err(err) => {
                    return Err(err);
                },
            }
        },
        SubCommand::ConnectionOpenInit(c) => match prepare_conn_open_init(c) {
            Ok(e) => e,
            Err(err) => {
                return Err(err);
            },
        },
        SubCommand::ChannelOpenInit(c) => match prepare_chan_open_init(c) {
            Ok(e) => e,
            Err(err) => {
                return Err(err);
            },
        },
        SubCommand::Port(p) => prepare_port(p),
        SubCommand::Packet(Packet::SendPacket(p)) => match prepare_send_packet(p) {
            Ok(e) => e,
            Err(err) => {
                return Err(err);
            },
        },
    };
    let mut envelopes: Vec<Envelope> = Vec::new();
    envelopes.push(env);
    Ok(Submission { addr, envelopes, signer: get_dummy_account_id() })
}

} // verus!
