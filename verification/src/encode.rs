//! The canonical wire encoding of handshake messages: a protobuf-style
//! body (base-128 varints, length-delimited fields, ascending field
//! numbers) paired with the fixed type-URL of the message's variant.

use crate::digest::Digest32;
use crate::messages::{HandshakeMessage, Height, MockClientState};
use vstd::prelude::*;
use vstd::string::*;
use vstd::utf8::encode_utf8;

verus! {

/// A message in its canonical encoded form: the type-URL naming the schema
/// and the opaque payload bytes.
#[derive(Clone, Debug, PartialEq, Eq)]
pub struct Envelope {
    pub type_url: String,
    pub value: Vec<u8>,
}

/// Base-128 encoding of `n`, least significant group first, the high bit of
/// a byte marking a continuation.
pub open spec fn varint(n: u64) -> Seq<u8>
    decreases n,
{
    if n < 128 {
        seq![n as u8]
    } else {
        seq![(n % 128 + 128) as u8] + varint((n / 128) as u64)
    }
}

/// The single key byte of a field: field number and wire type.
pub open spec fn key_byte(field: u64, wire: u64) -> u8 {
    (field * 8 + wire) as u8
}

/// A varint-valued field.
pub open spec fn uint_field(field: u64, n: u64) -> Seq<u8> {
    seq![key_byte(field, 0)] + varint(n)
}

/// A length-delimited field.
pub open spec fn bytes_field(field: u64, b: Seq<u8>) -> Seq<u8> {
    seq![key_byte(field, 2)] + varint(b.len() as u64) + b
}

/// A boolean field, encoded as zero or one.
pub open spec fn bool_field(field: u64, b: bool) -> Seq<u8> {
    uint_field(field, if b { 1 } else { 0 })
}

/// A repeated length-delimited field, one entry per item, in order.
pub open spec fn repeated_bytes_field(field: u64, items: Seq<Seq<u8>>) -> Seq<u8>
    decreases items.len(),
{
    if items.len() == 0 {
        Seq::<u8>::empty()
    } else {
        bytes_field(field, items[0]) + repeated_bytes_field(field, items.skip(1))
    }
}

/// The body of a height submessage.
pub open spec fn height_payload(h: Height) -> Seq<u8> {
    uint_field(1, h.revision_number) + uint_field(2, h.revision_height)
}

/// The body of a mock client state submessage.
pub open spec fn client_state_payload(chain_id: Seq<char>, latest: Height, frozen: Height) -> Seq<
    u8,
> {
    bytes_field(1, encode_utf8(chain_id)) + bytes_field(2, height_payload(latest)) + bytes_field(
        3,
        height_payload(frozen),
    )
}

/// The payload of a create-client message: the client state, the
/// placeholder consensus state (an empty submessage), and the signer.
pub open spec fn create_client_payload(
    chain_id: Seq<char>,
    latest: Height,
    frozen: Height,
    signer: Seq<char>,
) -> Seq<u8> {
    bytes_field(1, client_state_payload(chain_id, latest, frozen)) + bytes_field(
        2,
        Seq::<u8>::empty(),
    ) + bytes_field(3, encode_utf8(signer))
}

/// The payload of a connection-open-init message; the counterparty
/// connection identifier field is simply absent while unassigned.
pub open spec fn conn_open_init_payload(
    client_id: Seq<u8>,
    counterparty_client_id: Seq<u8>,
    counterparty_connection_id: Option<Seq<u8>>,
    version: Seq<char>,
    delay_period_secs: u64,
    signer: Seq<char>,
) -> Seq<u8> {
    bytes_field(1, client_id) + bytes_field(2, counterparty_client_id) + (
    match counterparty_connection_id {
        None => Seq::<u8>::empty(),
        Some(b) => bytes_field(3, b),
    }) + bytes_field(4, encode_utf8(version)) + uint_field(5, delay_period_secs) + bytes_field(
        6,
        encode_utf8(signer),
    )
}

/// The payload of a channel-open-init message.
pub open spec fn chan_open_init_payload(
    ordered: bool,
    hops: Seq<Seq<u8>>,
    port_id: Seq<u8>,
    channel_id: Seq<u8>,
    counterparty_port_id: Seq<u8>,
    counterparty_channel_id: Seq<u8>,
) -> Seq<u8> {
    bool_field(1, ordered) + repeated_bytes_field(2, hops) + bytes_field(3, port_id) + bytes_field(
        4,
        channel_id,
    ) + bytes_field(5, counterparty_port_id) + bytes_field(6, counterparty_channel_id)
}

/// The payload of a send-packet message.
pub open spec fn send_packet_payload(
    sequence: u64,
    timeout_height: u32,
    source_port: Seq<u8>,
    source_channel: Seq<u8>,
    dest_port: Seq<u8>,
    dest_channel: Seq<u8>,
    data: Seq<u8>,
) -> Seq<u8> {
    uint_field(1, sequence) + uint_field(2, timeout_height as u64) + bytes_field(3, source_port)
        + bytes_field(4, source_channel) + bytes_field(5, dest_port) + bytes_field(6, dest_channel)
        + bytes_field(7, data)
}

/// The payload of a bind-port or release-port message.
pub open spec fn port_payload(port_id: Seq<u8>) -> Seq<u8> {
    bytes_field(1, port_id)
}

/// The identifiers a message's connection hops denote.
pub open spec fn hops_view(hops: Seq<Digest32>) -> Seq<Seq<u8>> {
    hops.map_values(|d: Digest32| d@)
}

/// The payload bytes of a message, a function of the message alone.
pub open spec fn message_payload(m: HandshakeMessage) -> Seq<u8> {
    match m {
        HandshakeMessage::CreateClient { client_state, consensus_state: _, signer } => create_client_payload(
            client_state.chain_id@,
            client_state.latest_height,
            client_state.frozen_height,
            signer@,
        ),
        HandshakeMessage::ConnectionOpenInit {
            client_id,
            counterparty_client_id,
            counterparty_connection_id,
            version,
            delay_period_secs,
            signer,
        } => conn_open_init_payload(
            client_id@,
            counterparty_client_id@,
            match counterparty_connection_id {
                None => None,
                Some(d) => Some(d@),
            },
            version@,
            delay_period_secs,
            signer@,
        ),
        HandshakeMessage::ChannelOpenInit {
            ordered,
            connection_hops,
            port_id,
            channel_id,
            counterparty_port_id,
            counterparty_channel_id,
        } => chan_open_init_payload(
            ordered,
            hops_view(connection_hops@),
            port_id@,
            channel_id@,
            counterparty_port_id@,
            counterparty_channel_id@,
        ),
        HandshakeMessage::SendPacket {
            sequence,
            timeout_height,
            source_port,
            source_channel,
            dest_port,
            dest_channel,
            data,
        } => send_packet_payload(
            sequence,
            timeout_height,
            source_port@,
            source_channel@,
            dest_port@,
            dest_channel@,
            data@,
        ),
        HandshakeMessage::BindPort { port_id } => port_payload(port_id@),
        HandshakeMessage::ReleasePort { port_id } => port_payload(port_id@),
    }
}

/// The fixed type-URL of a message's variant.
pub open spec fn message_type_url(m: HandshakeMessage) -> Seq<char> {
    match m {
        HandshakeMessage::CreateClient { .. } => "/ibc.core.client.v1.MsgCreateClient"@,
        HandshakeMessage::ConnectionOpenInit { .. } => "/ibc.core.connection.v1.MsgConnectionOpenInit"@,
        HandshakeMessage::ChannelOpenInit { .. } => "/ibc.core.channel.v1.MsgChannelOpenInit"@,
        HandshakeMessage::SendPacket { .. } => "/ibc.core.channel.v1.MsgSendPacket"@,
        HandshakeMessage::BindPort { .. } => "/ibc.core.port.v1.MsgBindPort"@,
        HandshakeMessage::ReleasePort { .. } => "/ibc.core.port.v1.MsgReleasePort"@,
    }
}

/// Appends the bytes of a slice.
fn push_bytes(out: &mut Vec<u8>, b: &[u8])
    ensures
        final(out)@ == old(out)@ + b@,
{
    proof {
        assert(old(out)@ + b@.take(0) =~= old(out)@);
    }
    let mut i: usize = 0;
    while i < b.len()
        invariant
            i <= b@.len(),
            out@ == old(out)@ + b@.take(i as int),
        decreases b@.len() - i,
    {
        out.push(b[i]);
        i += 1;
        proof {
            assert(out@ =~= old(out)@ + b@.take(i as int));
        }
    }
    proof {
        assert(b@.take(b@.len() as int) =~= b@);
    }
}

/// Appends the varint encoding of `n`.
fn emit_varint(out: &mut Vec<u8>, n: u64)
    ensures
        final(out)@ == old(out)@ + varint(n),
{
    let mut m: u64 = n;
    while m >= 128
        invariant
            out@ + varint(m) == old(out)@ + varint(n),
        decreases m,
    {
        let ghost pre = out@;
        let ghost m0 = m;
        let b: u8 = (m % 128 + 128) as u8;
        out.push(b);
        m = m / 128;
        proof {
            assert(varint(m0) == seq![(m0 % 128 + 128) as u8] + varint((m0 / 128) as u64));
            assert(out@ + varint(m) =~= pre + varint(m0));
        }
    }
    let ghost pre = out@;
    let ghost mfin = m;
    out.push(m as u8);
    proof {
        assert(varint(mfin) == seq![mfin as u8]);
        assert(out@ =~= pre + varint(mfin));
        assert(out@ =~= old(out)@ + varint(n));
    }
}

/// Appends the key byte of a field.
fn emit_key(out: &mut Vec<u8>, field: u64, wire: u64)
    requires
        1 <= field <= 15,
        wire == 0 || wire == 2,
    ensures
        final(out)@ == old(out)@ + seq![key_byte(field, wire)],
{
    let b: u8 = (field * 8 + wire) as u8;
    out.push(b);
    proof {
        assert(out@ =~= old(out)@ + seq![key_byte(field, wire)]);
    }
}

/// Appends a varint-valued field.
fn emit_uint_field(out: &mut Vec<u8>, field: u64, n: u64)
    requires
        1 <= field <= 15,
    ensures
        final(out)@ == old(out)@ + uint_field(field, n),
{
    emit_key(out, field, 0);
    emit_varint(out, n);
    proof {
        assert(out@ =~= old(out)@ + uint_field(field, n));
    }
}

/// Appends a length-delimited field.
fn emit_bytes_field(out: &mut Vec<u8>, field: u64, b: &[u8])
    requires
        1 <= field <= 15,
    ensures
        final(out)@ == old(out)@ + bytes_field(field, b@),
{
    emit_key(out, field, 2);
    emit_varint(out, b.len() as u64);
    push_bytes(out, b);
    proof {
        assert(out@ =~= old(out)@ + bytes_field(field, b@));
    }
}

/// Appends the repeated connection-hop field, one entry per hop, in order.
fn emit_hops(out: &mut Vec<u8>, field: u64, hops: &Vec<Digest32>)
    requires
        1 <= field <= 15,
    ensures
        final(out)@ == old(out)@ + repeated_bytes_field(field, hops_view(hops@)),
{
    let ghost hview = hops_view(hops@);
    proof {
        assert(hview.skip(0) =~= hview);
    }
    let mut i: usize = 0;
    while i < hops.len()
        invariant
            1 <= field <= 15,
            i <= hops@.len(),
            hview == hops_view(hops@),
            out@ + repeated_bytes_field(field, hview.skip(i as int)) == old(out)@
                + repeated_bytes_field(field, hview),
        decreases hops@.len() - i,
    {
        let ghost pre = out@;
        emit_bytes_field(out, field, hops[i].as_bytes().as_slice());
        i += 1;
        proof {
            let rest = hview.skip(i - 1);
            assert(rest[0] == hview[i - 1]);
            assert(hview[i - 1] == hops@[i - 1]@);
            assert(rest.skip(1) =~= hview.skip(i as int));
            assert(repeated_bytes_field(field, rest) == bytes_field(field, rest[0])
                + repeated_bytes_field(field, rest.skip(1)));
            assert(out@ + repeated_bytes_field(field, hview.skip(i as int)) =~= pre
                + repeated_bytes_field(field, rest));
        }
    }
    proof {
        assert(hview.skip(hops@.len() as int) =~= Seq::<Seq<u8>>::empty());
        assert(out@ + repeated_bytes_field(field, hview.skip(hops@.len() as int)) =~= out@);
    }
}

/// Encodes a height submessage.
fn encode_height(h: &Height) -> (out: Vec<u8>)
    ensures
        out@ == height_payload(*h),
{
    let mut out: Vec<u8> = Vec::new();
    emit_uint_field(&mut out, 1, h.revision_number);
    emit_uint_field(&mut out, 2, h.revision_height);
    proof {
        assert(out@ =~= height_payload(*h));
    }
    out
}

/// Encodes a mock client state submessage.
fn encode_client_state(cs: &MockClientState) -> (out: Vec<u8>)
    ensures
        out@ == client_state_payload(cs.chain_id@, cs.latest_height, cs.frozen_height),
{
    let mut out: Vec<u8> = Vec::new();
    emit_bytes_field(&mut out, 1, cs.chain_id.as_str().as_bytes());
    let latest = encode_height(&cs.latest_height);
    emit_bytes_field(&mut out, 2, latest.as_slice());
    let frozen = encode_height(&cs.frozen_height);
    emit_bytes_field(&mut out, 3, frozen.as_slice());
    proof {
        assert(out@ =~= client_state_payload(cs.chain_id@, cs.latest_height, cs.frozen_height));
    }
    out
}

/// Encodes a fully built message into its canonical envelope: the payload
/// bytes and the variant's type-URL, both functions of the message alone.
pub fn encode(m: &HandshakeMessage) -> (e: Envelope)
    ensures
        e.value@ == message_payload(*m),
        e.type_url@ == message_type_url(*m),
{
    match m {
        HandshakeMessage::CreateClient { client_state, consensus_state: _, signer } => {
            let mut out: Vec<u8> = Vec::new();
            let cs = encode_client_state(client_state);
            emit_bytes_field(&mut out, 1, cs.as_slice());
            let empty: Vec<u8> = Vec::new();
            emit_bytes_field(&mut out, 2, empty.as_slice());
            emit_bytes_field(&mut out, 3, signer.as_str().as_bytes());
            proof {
                assert(out@ =~= message_payload(*m));
            }
            Envelope {
                type_url: String::from_str("/ibc.core.client.v1.MsgCreateClient"),
                value: out,
            }
        },
        HandshakeMessage::ConnectionOpenInit {
            client_id,
            counterparty_client_id,
            counterparty_connection_id,
            version,
            delay_period_secs,
            signer,
        } => {
            let mut out: Vec<u8> = Vec::new();
            emit_bytes_field(&mut out, 1, client_id.as_bytes().as_slice());
            emit_bytes_field(&mut out, 2, counterparty_client_id.as_bytes().as_slice());
            match counterparty_connection_id {
                None => (),
                Some(d) => emit_bytes_field(&mut out, 3, d.as_bytes().as_slice()),
            }
            emit_bytes_field(&mut out, 4, version.as_str().as_bytes());
            emit_uint_field(&mut out, 5, *delay_period_secs);
            emit_bytes_field(&mut out, 6, signer.as_str().as_bytes());
            proof {
                assert(out@ =~= message_payload(*m));
            }
            Envelope {
                type_url: String::from_str("/ibc.core.connection.v1.MsgConnectionOpenInit"),
                value: out,
            }
        },
        HandshakeMessage::ChannelOpenInit {
            ordered,
            connection_hops,
            port_id,
            channel_id,
            counterparty_port_id,
            counterparty_channel_id,
        } => {
            let mut out: Vec<u8> = Vec::new();
            emit_uint_field(&mut out, 1, if *ordered {
                1
            } else {
                0
            });
            emit_hops(&mut out, 2, connection_hops);
            emit_bytes_field(&mut out, 3, port_id.as_slice());
            emit_bytes_field(&mut out, 4, channel_id.as_bytes().as_slice());
            emit_bytes_field(&mut out, 5, counterparty_port_id.as_slice());
            emit_bytes_field(&mut out, 6, counterparty_channel_id.as_bytes().as_slice());
            proof {
                assert(out@ =~= message_payload(*m));
            }
            Envelope {
                type_url: String::from_str("/ibc.core.channel.v1.MsgChannelOpenInit"),
                value: out,
            }
        },
        HandshakeMessage::SendPacket {
            sequence,
            timeout_height,
            source_port,
            source_channel,
            dest_port,
            dest_channel,
            data,
        } => {
            let mut out: Vec<u8> = Vec::new();
            emit_uint_field(&mut out, 1, *sequence);
            emit_uint_field(&mut out, 2, *timeout_height as u64);
            emit_bytes_field(&mut out, 3, source_port.as_slice());
            emit_bytes_field(&mut out, 4, source_channel.as_bytes().as_slice());
            emit_bytes_field(&mut out, 5, dest_port.as_slice());
            emit_bytes_field(&mut out, 6, dest_channel.as_bytes().as_slice());
            emit_bytes_field(&mut out, 7, data.as_slice());
            proof {
                assert(out@ =~= message_payload(*m));
            }
            Envelope {
                type_url: String::from_str("/ibc.core.channel.v1.MsgSendPacket"),
                value: out,
            }
        },
        HandshakeMessage::BindPort { port_id } => {
            let mut out: Vec<u8> = Vec::new();
            emit_bytes_field(&mut out, 1, port_id.as_slice());
            proof {
                assert(out@ =~= message_payload(*m));
            }
            Envelope { type_url: String::from_str("/ibc.core.port.v1.MsgBindPort"), value: out }
        },
        HandshakeMessage::ReleasePort { port_id } => {
            let mut out: Vec<u8> = Vec::new();
            emit_bytes_field(&mut out, 1, port_id.as_slice());
            proof {
                assert(out@ =~= message_payload(*m));
            }
            Envelope { type_url: String::from_str("/ibc.core.port.v1.MsgReleasePort"), value: out }
        },
    }
}

/// Encoding is deterministic: one message has one payload and one type-URL,
/// so encoding the same constructed message twice yields byte-identical
/// envelopes.
pub proof fn lemma_encode_deterministic(m1: HandshakeMessage, m2: HandshakeMessage)
    requires
        m1 == m2,
    ensures
        message_payload(m1) == message_payload(m2),
        message_type_url(m1) == message_type_url(m2),
{
}

} // verus!
