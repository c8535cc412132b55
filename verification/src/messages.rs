//! Handshake message construction: one tagged variant per operation, each a
//! pure data-construction step. Where real counterparty light-client state
//! is unavailable, fixed mock state stands in: chain id `ibc-logic-2`,
//! latest height (0, 26), frozen height (0, 0).

use crate::digest::Digest32;
use vstd::prelude::*;
use vstd::string::*;

verus! {

/// The fixed well-known test signer identity, as a hex account string.
pub fn get_dummy_account_id() -> (s: String)
    ensures
        s@ == "0CDA3F47EF3C4906693B170EF650EB968C5F4B2C"@,
{
    String::from_str("0CDA3F47EF3C4906693B170EF650EB968C5F4B2C")
}

/// A consensus height: revision number and height within the revision.
#[derive(Clone, Copy, Debug, PartialEq, Eq, Structural)]
pub struct Height {
    pub revision_number: u64,
    pub revision_height: u64,
}

impl Height {
    /// Packs the two components of a height.
    pub fn new(revision_number: u64, revision_height: u64) -> (h: Height)
        ensures
            h == (Height { revision_number, revision_height }),
    {
        Height { revision_number, revision_height }
    }
}

/// A state constructor rejected its inputs.
#[derive(Clone, Copy, Debug, PartialEq, Eq, Structural)]
pub enum ConstructionError {
    /// The chain id of a client state must not be empty.
    EmptyChainId,
}

/// Mock client state standing in for a synced light client of the
/// counterparty chain.
#[derive(Clone, Debug, PartialEq, Eq)]
pub struct MockClientState {
    pub chain_id: String,
    pub latest_height: Height,
    pub frozen_height: Height,
}

impl MockClientState {
    /// Binds a chain id with the latest and frozen heights; rejects exactly
    /// the empty chain id.
    pub fn new(chain_id: String, latest_height: Height, frozen_height: Height) -> (r: Result<
        MockClientState,
        ConstructionError,
    >)
        ensures
            match r {
                Ok(cs) => chain_id@.len() > 0 && cs.chain_id@ == chain_id@ && cs.latest_height
                    == latest_height && cs.frozen_height == frozen_height,
                Err(e) => chain_id@.len() == 0 && e == ConstructionError::EmptyChainId,
            },
    {
        if chain_id.as_str().is_empty() {
            Err(ConstructionError::EmptyChainId)
        } else {
            Ok(MockClientState { chain_id, latest_height, frozen_height })
        }
    }
}

/// Mock consensus state: a placeholder, since no counterparty finality
/// proofs are queried or verified here.
#[derive(Clone, Copy, Debug, PartialEq, Eq, Structural)]
pub struct MockConsensusState {}

/// One handshake operation's payload, fully populated before encoding.
#[derive(Clone, Debug, PartialEq, Eq)]
pub enum HandshakeMessage {
    /// Registers a (mock) client of the counterparty chain.
    CreateClient {
        client_state: MockClientState,
        consensus_state: MockConsensusState,
        signer: String,
    },
    /// Initiates a connection handshake; the counterparty connection
    /// identifier is absent at this stage, the counterparty assigns its own
    /// in the next handshake step.
    ConnectionOpenInit {
        client_id: Digest32,
        counterparty_client_id: Digest32,
        counterparty_connection_id: Option<Digest32>,
        version: String,
        delay_period_secs: u64,
        signer: String,
    },
    /// Initiates a channel handshake over a list of connection hops.
    ChannelOpenInit {
        ordered: bool,
        connection_hops: Vec<Digest32>,
        port_id: Vec<u8>,
        channel_id: Digest32,
        counterparty_port_id: Vec<u8>,
        counterparty_channel_id: Digest32,
    },
    /// Sends one sequenced, opaque packet.
    SendPacket {
        sequence: u64,
        timeout_height: u32,
        source_port: Vec<u8>,
        source_channel: Digest32,
        dest_port: Vec<u8>,
        dest_channel: Digest32,
        data: Vec<u8>,
    },
    /// Binds a module to an unallocated port; port names stay raw bytes,
    /// they are never hashed.
    BindPort { port_id: Vec<u8> },
    /// Releases a bound port.
    ReleasePort { port_id: Vec<u8> },
}

/// Builds the create-client message from the fixed mock state: chain id
/// `ibc-logic-2`, latest height (0, 26), frozen height (0, 0), placeholder
/// consensus state, and the well-known test signer.
pub fn build_create_client() -> (r: Result<HandshakeMessage, ConstructionError>)
    ensures
        match r {
            Ok(m) => m matches HandshakeMessage::CreateClient { client_state, consensus_state, signer }
                && client_state.chain_id@ == "ibc-logic-2"@ && client_state.latest_height == (Height {
                revision_number: 0,
                revision_height: 26,
            }) && client_state.frozen_height == (Height { revision_number: 0, revision_height: 0 })
                && signer@ == "0CDA3F47EF3C4906693B170EF650EB968C5F4B2C"@,
            Err(_) => false,
        },
{
    let chain_id = String::from_str("ibc-logic-2");
    proof {
        reveal_strlit("ibc-logic-2");
    }
    let latest_height = Height::new(0, 26);
    let frozen_height = Height::new(0, 0);
    let client_state = match MockClientState::new(chain_id, latest_height, frozen_height) {
        Ok(cs) => cs,
        Err(e) => {
            return Err(e);
        },
    };
    Ok(
        HandshakeMessage::CreateClient {
            client_state,
            consensus_state: MockConsensusState {},
            signer: get_dummy_account_id(),
        },
    )
}

/// Builds the connection-open-init message: the two client identifiers as
/// given, no counterparty connection identifier yet, the default protocol
/// version `1`, a fixed delay period of five seconds, and the well-known
/// test signer.
pub fn build_conn_open_init(client_id: Digest32, counterparty_client_id: Digest32) -> (m:
    HandshakeMessage)
    ensures
        m matches HandshakeMessage::ConnectionOpenInit {
            client_id: c,
            counterparty_client_id: cc,
            counterparty_connection_id,
            version,
            delay_period_secs,
            signer,
        } && c@ == client_id@ && cc@ == counterparty_client_id@ && counterparty_connection_id
            is None && version@ == "1"@ && delay_period_secs == 5 && signer@
            == "0CDA3F47EF3C4906693B170EF650EB968C5F4B2C"@,
{
    HandshakeMessage::ConnectionOpenInit {
        client_id,
        counterparty_client_id,
        counterparty_connection_id: None,
        version: String::from_str("1"),
        delay_period_secs: 5,
        signer: get_dummy_account_id(),
    }
}

/// Builds the channel-open-init message from its already validated and
/// derived parts.
pub fn build_chan_open_init(
    ordered: bool,
    connection_hops: Vec<Digest32>,
    port_id: Vec<u8>,
    channel_id: Digest32,
    counterparty_port_id: Vec<u8>,
    counterparty_channel_id: Digest32,
) -> (m: HandshakeMessage)
    ensures
        m == (HandshakeMessage::ChannelOpenInit {
            ordered,
            connection_hops,
            port_id,
            channel_id,
            counterparty_port_id,
            counterparty_channel_id,
        }),
{
    HandshakeMessage::ChannelOpenInit {
        ordered,
        connection_hops,
        port_id,
        channel_id,
        counterparty_port_id,
        counterparty_channel_id,
    }
}

/// Builds the send-packet message; the data payload is opaque bytes, not
/// interpreted here.
pub fn build_send_packet(
    sequence: u64,
    timeout_height: u32,
    source_port: Vec<u8>,
    source_channel: Digest32,
    dest_port: Vec<u8>,
    dest_channel: Digest32,
    data: Vec<u8>,
) -> (m: HandshakeMessage)
    ensures
        m == (HandshakeMessage::SendPacket {
            sequence,
            timeout_height,
            source_port,
            source_channel,
            dest_port,
            dest_channel,
            data,
        }),
{
    HandshakeMessage::SendPacket {
        sequence,
        timeout_height,
        source_port,
        source_channel,
        dest_port,
        dest_channel,
        data,
    }
}

/// Builds the bind-port message from a raw port identifier.
pub fn build_bind_port(port_id: Vec<u8>) -> (m: HandshakeMessage)
    ensures
        m == (HandshakeMessage::BindPort { port_id }),
{
    HandshakeMessage::BindPort { port_id }
}

/// Builds the release-port message from a raw port identifier.
pub fn build_release_port(port_id: Vec<u8>) -> (m: HandshakeMessage)
    ensures
        m == (HandshakeMessage::ReleasePort { port_id }),
{
    HandshakeMessage::ReleasePort { port_id }
}

} // verus!
