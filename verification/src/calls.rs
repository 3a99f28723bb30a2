//! Typed arguments of the chain calls the relayer and its companion tools
//! submit.
//!
//! Each struct mirrors the argument list of one dispatchable call on the
//! chain runtime; the transport layer wraps a value of one of these into a
//! signed extrinsic.  Identifiers and payloads are plain byte strings.

use vstd::prelude::*;

verus! {

/// The subset of the chain runtime interface that an IBC-capable node
/// exposes to its clients.
pub trait Ibc {

}

/// The interface of the demo application module used to exercise the
/// protocol end to end.
pub trait TemplateModule {

}

/// The runtime of the node the relayer connects to.
#[derive(Debug, Clone, PartialEq, Eq)]
pub struct NodeRuntime;

impl Ibc for NodeRuntime {

}

impl TemplateModule for NodeRuntime {

}

/// Arguments for updating a light client with a new encoded header.
#[derive(Debug, Clone, PartialEq, Eq)]
pub struct UpdateClientArgs {
    /// Client record to update.
    pub id: u32,
    /// The encoded header to feed the light client.
    pub header: Vec<u8>,
}

/// Builds the arguments of an `update_client` call: updating a client is
/// done by submitting a new encoded header.
pub fn update_client(id: u32, header: Vec<u8>) -> (c: UpdateClientArgs)
    ensures
        c.id == id,
        c.header@ == header@,
{
    UpdateClientArgs { id, header }
}

/// Arguments for delivering a packet with its proof.
#[derive(Debug, Clone, PartialEq, Eq)]
pub struct RecvPacketArgs {
    /// The encoded packet.
    pub packet: Vec<u8>,
    /// Proof of the packet commitment on the sending chain.
    pub proof: Vec<Vec<u8>>,
    /// Height the proof was generated at.
    pub proof_height: u64,
}

/// Builds the arguments of a `recv_packet` call.
pub fn recv_packet(packet: Vec<u8>, proof: Vec<Vec<u8>>, proof_height: u64) -> (c: RecvPacketArgs)
    ensures
        c.packet@ == packet@,
        c.proof.deep_view() == proof.deep_view(),
        c.proof_height == proof_height,
{
    RecvPacketArgs { packet, proof, proof_height }
}

/// Arguments for creating a light client of a counterparty chain.
#[derive(Debug, Clone, PartialEq, Eq)]
pub struct TestCreateClientCall {
    /// Identifier the new client record should get.
    pub identifier: Vec<u8>,
    /// Height of the trusted starting header.
    pub height: u64,
    /// Identifier of the authority set at that height.
    pub set_id: u64,
    /// The encoded authority list at that height.
    pub authority_list: Vec<u8>,
    /// State root of the trusted starting header.
    pub commitment_root: Vec<u8>,
}

/// Arguments for starting a connection handshake.
#[derive(Debug, Clone, PartialEq, Eq)]
pub struct TestConnOpenInitCall {
    /// Identifier the new connection record should get.
    pub identifier: Vec<u8>,
    /// Identifier proposed for the mirrored record on the counterparty.
    pub desired_counterparty_connection_identifier: Vec<u8>,
    /// The local light client the connection runs over.
    pub client_identifier: Vec<u8>,
    /// The counterparty's light client the connection runs over.
    pub counterparty_client_identifier: Vec<u8>,
}

/// Arguments for binding a module to an unallocated port.
#[derive(Debug, Clone, PartialEq, Eq)]
pub struct TestBindPortCall {
    /// Identifier of the port.
    pub identifier: Vec<u8>,
}

/// Arguments for releasing a bound port.
#[derive(Debug, Clone, PartialEq, Eq)]
pub struct TestReleasePortCall {
    /// Identifier of the port.
    pub identifier: Vec<u8>,
}

/// Arguments for starting a channel handshake.
#[derive(Debug, Clone, PartialEq, Eq)]
pub struct TestChanOpenInitCall {
    /// Whether the channel delivers packets in any order.
    pub unordered: bool,
    /// Connections the channel runs over, nearest first.
    pub connection_hops: Vec<Vec<u8>>,
    /// Port the channel binds on this chain.
    pub port_identifier: Vec<u8>,
    /// Identifier the new channel end should get.
    pub channel_identifier: Vec<u8>,
    /// Port of the mirrored end on the counterparty.
    pub counterparty_port_identifier: Vec<u8>,
    /// Identifier proposed for the mirrored end on the counterparty.
    pub counterparty_channel_identifier: Vec<u8>,
}

/// Arguments for sending an application packet.
#[derive(Debug, Clone, PartialEq, Eq)]
pub struct TestSendPacketCall {
    /// Per-channel sequence number of the packet.
    pub sequence: u64,
    /// Destination-chain height after which the packet times out.
    pub timeout_height: u64,
    /// Port the packet is sent from.
    pub source_port: Vec<u8>,
    /// Channel the packet is sent on.
    pub source_channel: Vec<u8>,
    /// Port the packet is addressed to.
    pub dest_port: Vec<u8>,
    /// Channel the packet is addressed to.
    pub dest_channel: Vec<u8>,
    /// Opaque application payload.
    pub data: Vec<u8>,
}

} // verus!
