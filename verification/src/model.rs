//! Data model of the relay protocol.
//!
//! Every type here is a read projection of remote chain state: the relayer
//! re-fetches records whenever a decision is needed and never mutates them
//! locally.  Identifiers and storage roots are carried as plain byte strings;
//! the engine only compares and forwards them.  Each executable type has a
//! ghost counterpart (its deep view) over which all contracts are stated.

use vstd::prelude::*;

verus! {

/// One end's progress through the connection handshake.
///
/// The state only ever advances `Absent -> Init -> TryOpen -> Open`; the
/// chains enforce that it never regresses.
#[derive(Debug, Clone, Copy, PartialEq, Eq, Structural)]
pub enum ConnectionState {
    /// No record exists yet on this chain.
    Absent,
    /// This chain has started the handshake.
    Init,
    /// This chain has answered the counterparty's `Init`.
    TryOpen,
    /// The handshake is complete on this chain.
    Open,
}

/// One end's progress through the channel handshake; the lattice is the same
/// as for connections.
#[derive(Debug, Clone, Copy, PartialEq, Eq, Structural)]
pub enum ChannelState {
    /// No record exists yet on this chain.
    Absent,
    /// This chain has started the handshake.
    Init,
    /// This chain has answered the counterparty's `Init`.
    TryOpen,
    /// The handshake is complete on this chain.
    Open,
}

/// Whether a channel delivers packets in sequence order.
#[derive(Debug, Clone, Copy, PartialEq, Eq, Structural)]
pub enum ChannelOrder {
    /// Packets must be received in sequence order.
    Ordered,
    /// Packets may be received in any order.
    Unordered,
}

/// A merkle inclusion proof: an ordered list of opaque trie nodes.
///
/// The engine never inspects the nodes; verification is the receiving
/// chain's job.
#[derive(Debug, Clone, PartialEq, Eq)]
pub struct Proof {
    /// The trie nodes, in the order the prover produced them.
    pub nodes: Vec<Vec<u8>>,
}

/// Ghost counterpart of [`Proof`].
pub ghost struct ProofView {
    /// The trie nodes.
    pub nodes: Seq<Seq<u8>>,
}

impl DeepView for Proof {
    type V = ProofView;

    open spec fn deep_view(&self) -> ProofView {
        ProofView { nodes: self.nodes.deep_view() }
    }
}

impl Proof {
    /// A proof with no nodes, used where a datagram field is unused.
    pub fn empty() -> (r: Proof)
        ensures
            r.deep_view() == (ProofView { nodes: Seq::empty() }),
    {
        let r = Proof { nodes: Vec::new() };
        proof {
            assert(r.deep_view().nodes =~= Seq::<Seq<u8>>::empty());
        }
        r
    }
}

/// A finalized block header of the source chain, together with the material
/// the counterparty's light client needs to accept it.
#[derive(Debug, Clone, PartialEq, Eq)]
pub struct Header {
    /// Block number of this header on its own chain.
    pub height: u64,
    /// Hash of the block.
    pub block_hash: Vec<u8>,
    /// State root the light client will later check proofs against.
    pub commitment_root: Vec<u8>,
    /// Finality proof: evidence that this header was finalized.
    pub justification: Vec<u8>,
    /// Proof of the authority set that signed the justification.
    pub authorities_proof: Proof,
}

/// Ghost counterpart of [`Header`].
pub ghost struct HeaderView {
    /// Block number.
    pub height: u64,
    /// Hash of the block.
    pub block_hash: Seq<u8>,
    /// State root.
    pub commitment_root: Seq<u8>,
    /// Finality proof.
    pub justification: Seq<u8>,
    /// Proof of the authority set.
    pub authorities_proof: ProofView,
}

impl DeepView for Header {
    type V = HeaderView;

    open spec fn deep_view(&self) -> HeaderView {
        HeaderView {
            height: self.height,
            block_hash: self.block_hash.deep_view(),
            commitment_root: self.commitment_root.deep_view(),
            justification: self.justification.deep_view(),
            authorities_proof: self.authorities_proof.deep_view(),
        }
    }
}

/// One chain's record of a connection end.
#[derive(Debug, Clone, PartialEq, Eq)]
pub struct ConnectionEnd {
    /// Handshake progress on this chain.
    pub state: ConnectionState,
    /// Identifier of the mirrored connection record on the counterparty.
    pub counterparty_connection_identifier: Vec<u8>,
    /// The light client on this chain that the connection runs over.
    pub client_identifier: Vec<u8>,
    /// The light client on the counterparty that mirrors it.
    pub counterparty_client_identifier: Vec<u8>,
}

/// Ghost counterpart of [`ConnectionEnd`].
pub ghost struct ConnectionEndView {
    /// Handshake progress on this chain.
    pub state: ConnectionState,
    /// Identifier of the mirrored connection record.
    pub counterparty_connection_identifier: Seq<u8>,
    /// The light client on this chain.
    pub client_identifier: Seq<u8>,
    /// The mirrored light client on the counterparty.
    pub counterparty_client_identifier: Seq<u8>,
}

impl DeepView for ConnectionEnd {
    type V = ConnectionEndView;

    open spec fn deep_view(&self) -> ConnectionEndView {
        ConnectionEndView {
            state: self.state,
            counterparty_connection_identifier: self.counterparty_connection_identifier.deep_view(),
            client_identifier: self.client_identifier.deep_view(),
            counterparty_client_identifier: self.counterparty_client_identifier.deep_view(),
        }
    }
}

/// One chain's record of a channel end.
#[derive(Debug, Clone, PartialEq, Eq)]
pub struct ChannelEnd {
    /// Handshake progress on this chain.
    pub state: ChannelState,
    /// Delivery ordering the channel was opened with.
    pub ordering: ChannelOrder,
    /// Connections the channel runs over, nearest first.
    pub connection_hops: Vec<Vec<u8>>,
    /// Port of the mirrored channel end on the counterparty.
    pub counterparty_port_identifier: Vec<u8>,
    /// Identifier of the mirrored channel end on the counterparty.
    pub counterparty_channel_identifier: Vec<u8>,
    /// Application version string agreed during the handshake.
    pub version: Vec<u8>,
}

/// Ghost counterpart of [`ChannelEnd`].
pub ghost struct ChannelEndView {
    /// Handshake progress on this chain.
    pub state: ChannelState,
    /// Delivery ordering.
    pub ordering: ChannelOrder,
    /// Connections the channel runs over.
    pub connection_hops: Seq<Seq<u8>>,
    /// Port of the mirrored channel end.
    pub counterparty_port_identifier: Seq<u8>,
    /// Identifier of the mirrored channel end.
    pub counterparty_channel_identifier: Seq<u8>,
    /// Application version string.
    pub version: Seq<u8>,
}

impl DeepView for ChannelEnd {
    type V = ChannelEndView;

    open spec fn deep_view(&self) -> ChannelEndView {
        ChannelEndView {
            state: self.state,
            ordering: self.ordering,
            connection_hops: self.connection_hops.deep_view(),
            counterparty_port_identifier: self.counterparty_port_identifier.deep_view(),
            counterparty_channel_identifier: self.counterparty_channel_identifier.deep_view(),
            version: self.version.deep_view(),
        }
    }
}

/// A channel is addressed by its port and its channel identifier.
#[derive(Debug, Clone, PartialEq, Eq)]
pub struct ChannelKey {
    /// Port the channel is bound to.
    pub port_identifier: Vec<u8>,
    /// Identifier of the channel end.
    pub channel_identifier: Vec<u8>,
}

/// Ghost counterpart of [`ChannelKey`].
pub ghost struct ChannelKeyView {
    /// Port the channel is bound to.
    pub port_identifier: Seq<u8>,
    /// Identifier of the channel end.
    pub channel_identifier: Seq<u8>,
}

impl DeepView for ChannelKey {
    type V = ChannelKeyView;

    open spec fn deep_view(&self) -> ChannelKeyView {
        ChannelKeyView {
            port_identifier: self.port_identifier.deep_view(),
            channel_identifier: self.channel_identifier.deep_view(),
        }
    }
}

/// One chain's record of a counterparty light client: the height it currently
/// trusts and the connections and channels reachable from it.
#[derive(Debug, Clone, PartialEq, Eq)]
pub struct ClientState {
    /// Identifier of this client record.
    pub identifier: Vec<u8>,
    /// Highest counterparty height the client has accepted a header for.
    pub latest_height: u64,
    /// Connections on this chain that run over this client.
    pub connections: Vec<Vec<u8>>,
    /// Channels on this chain reachable from this client.
    pub channels: Vec<ChannelKey>,
}

/// Ghost counterpart of [`ClientState`].
pub ghost struct ClientStateView {
    /// Identifier of this client record.
    pub identifier: Seq<u8>,
    /// Highest counterparty height accepted so far.
    pub latest_height: u64,
    /// Connections that run over this client.
    pub connections: Seq<Seq<u8>>,
    /// Channels reachable from this client.
    pub channels: Seq<ChannelKeyView>,
}

impl DeepView for ClientState {
    type V = ClientStateView;

    open spec fn deep_view(&self) -> ClientStateView {
        ClientStateView {
            identifier: self.identifier.deep_view(),
            latest_height: self.latest_height,
            connections: self.connections.deep_view(),
            channels: self.channels.deep_view(),
        }
    }
}

/// An application packet in flight from one chain to the other.
#[derive(Debug, Clone, PartialEq, Eq)]
pub struct Packet {
    /// Strictly increasing per-channel sequence number.
    pub sequence: u64,
    /// Destination-chain height after which the packet counts as timed out.
    pub timeout_height: u64,
    /// Port the packet was sent from.
    pub source_port: Vec<u8>,
    /// Channel the packet was sent on.
    pub source_channel: Vec<u8>,
    /// Port the packet is addressed to.
    pub dest_port: Vec<u8>,
    /// Channel the packet is addressed to.
    pub dest_channel: Vec<u8>,
    /// Opaque application payload.
    pub data: Vec<u8>,
}

/// Ghost counterpart of [`Packet`].
pub ghost struct PacketView {
    /// Per-channel sequence number.
    pub sequence: u64,
    /// Timeout height on the destination chain.
    pub timeout_height: u64,
    /// Port the packet was sent from.
    pub source_port: Seq<u8>,
    /// Channel the packet was sent on.
    pub source_channel: Seq<u8>,
    /// Port the packet is addressed to.
    pub dest_port: Seq<u8>,
    /// Channel the packet is addressed to.
    pub dest_channel: Seq<u8>,
    /// Opaque application payload.
    pub data: Seq<u8>,
}

impl DeepView for Packet {
    type V = PacketView;

    open spec fn deep_view(&self) -> PacketView {
        PacketView {
            sequence: self.sequence,
            timeout_height: self.timeout_height,
            source_port: self.source_port.deep_view(),
            source_channel: self.source_channel.deep_view(),
            dest_port: self.dest_port.deep_view(),
            dest_channel: self.dest_channel.deep_view(),
            data: self.data.deep_view(),
        }
    }
}

/// One relay protocol message, submitted to a chain as a signed transaction.
///
/// Every variant carries exactly the proof data the receiving chain needs to
/// validate the claim against a state root it already trusts.
#[derive(Debug, Clone, PartialEq, Eq)]
pub enum Datagram {
    /// Advance the receiving chain's light client by one header.
    ClientUpdate {
        /// Client record to update on the receiving chain.
        identifier: Vec<u8>,
        /// The next header, with its finality proof.
        header: Header,
    },
    /// Answer a connection the counterparty opened with `Init`.
    ConnOpenTry {
        /// Identifier the new record should get on the receiving chain.
        desired_identifier: Vec<u8>,
        /// The already existing record on the sending chain.
        counterparty_connection_identifier: Vec<u8>,
        /// Client on the sending chain the connection runs over.
        counterparty_client_identifier: Vec<u8>,
        /// Client on the receiving chain the connection runs over.
        client_identifier: Vec<u8>,
        /// Version proposal.
        version: Vec<u8>,
        /// Version the sending chain recorded.
        counterparty_version: Vec<u8>,
        /// Proof of the sending chain's connection record.
        proof_init: Proof,
        /// Proof of the sending chain's consensus state.
        proof_consensus: Proof,
        /// Height the proofs were generated at.
        proof_height: u64,
        /// Height of the consensus state being proven.
        consensus_height: u64,
    },
    /// Acknowledge a connection the receiving chain answered with `TryOpen`.
    ConnOpenAck {
        /// Connection record to advance on the receiving chain.
        identifier: Vec<u8>,
        /// Agreed version.
        version: Vec<u8>,
        /// Proof of the sending chain's `TryOpen` record.
        proof_try: Proof,
        /// Proof of the sending chain's consensus state.
        proof_consensus: Proof,
        /// Height the proofs were generated at.
        proof_height: u64,
        /// Height of the consensus state being proven.
        consensus_height: u64,
    },
    /// Final confirmation that both connection ends are open.
    ConnOpenConfirm {
        /// Connection record to advance on the receiving chain.
        identifier: Vec<u8>,
        /// Proof of the sending chain's `Open` record.
        proof_ack: Proof,
        /// Height the proof was generated at.
        proof_height: u64,
    },
    /// Answer a channel the counterparty opened with `Init`.
    ChanOpenTry {
        /// Delivery ordering of the channel.
        order: ChannelOrder,
        /// Connections the new channel end should run over.
        connection_hops: Vec<Vec<u8>>,
        /// Port the new channel end should bind on the receiving chain.
        port_identifier: Vec<u8>,
        /// Identifier the new channel end should get.
        channel_identifier: Vec<u8>,
        /// Port of the already existing end on the sending chain.
        counterparty_port_identifier: Vec<u8>,
        /// Identifier of the already existing end on the sending chain.
        counterparty_channel_identifier: Vec<u8>,
        /// Version proposal.
        version: Vec<u8>,
        /// Version the sending chain recorded.
        counterparty_version: Vec<u8>,
        /// Proof of the sending chain's channel record.
        proof_init: Proof,
        /// Height the proof was generated at.
        proof_height: u64,
    },
    /// Acknowledge a channel the receiving chain answered with `TryOpen`.
    ChanOpenAck {
        /// Port of the channel end to advance.
        port_identifier: Vec<u8>,
        /// Identifier of the channel end to advance.
        channel_identifier: Vec<u8>,
        /// Agreed version.
        version: Vec<u8>,
        /// Proof of the sending chain's `TryOpen` record.
        proof_try: Proof,
        /// Height the proof was generated at.
        proof_height: u64,
    },
    /// Final confirmation that both channel ends are open.
    ChanOpenConfirm {
        /// Port of the channel end to advance.
        port_identifier: Vec<u8>,
        /// Identifier of the channel end to advance.
        channel_identifier: Vec<u8>,
        /// Proof of the sending chain's `Open` record.
        proof_ack: Proof,
        /// Height the proof was generated at.
        proof_height: u64,
    },
    /// Deliver a sent packet to its destination chain.
    PacketRecv {
        /// The packet being delivered.
        packet: Packet,
        /// Proof of the packet commitment on the sending chain.
        proof: Proof,
        /// Height the proof was generated at.
        proof_height: u64,
    },
    /// Return a packet acknowledgement to the original source chain.
    PacketAcknowledgement {
        /// The packet being acknowledged.
        packet: Packet,
        /// The acknowledgement payload the destination stored.
        acknowledgement: Vec<u8>,
        /// Proof of the stored acknowledgement.
        proof: Proof,
        /// Height the proof was generated at.
        proof_height: u64,
    },
}

/// Ghost counterpart of [`Datagram`].
pub ghost enum DatagramView {
    /// Advance the receiving chain's light client by one header.
    ClientUpdate { identifier: Seq<u8>, header: HeaderView },
    /// Answer a connection the counterparty opened with `Init`.
    ConnOpenTry {
        desired_identifier: Seq<u8>,
        counterparty_connection_identifier: Seq<u8>,
        counterparty_client_identifier: Seq<u8>,
        client_identifier: Seq<u8>,
        version: Seq<u8>,
        counterparty_version: Seq<u8>,
        proof_init: ProofView,
        proof_consensus: ProofView,
        proof_height: u64,
        consensus_height: u64,
    },
    /// Acknowledge a connection the receiving chain answered with `TryOpen`.
    ConnOpenAck {
        identifier: Seq<u8>,
        version: Seq<u8>,
        proof_try: ProofView,
        proof_consensus: ProofView,
        proof_height: u64,
        consensus_height: u64,
    },
    /// Final confirmation that both connection ends are open.
    ConnOpenConfirm { identifier: Seq<u8>, proof_ack: ProofView, proof_height: u64 },
    /// Answer a channel the counterparty opened with `Init`.
    ChanOpenTry {
        order: ChannelOrder,
        connection_hops: Seq<Seq<u8>>,
        port_identifier: Seq<u8>,
        channel_identifier: Seq<u8>,
        counterparty_port_identifier: Seq<u8>,
        counterparty_channel_identifier: Seq<u8>,
        version: Seq<u8>,
        counterparty_version: Seq<u8>,
        proof_init: ProofView,
        proof_height: u64,
    },
    /// Acknowledge a channel the receiving chain answered with `TryOpen`.
    ChanOpenAck {
        port_identifier: Seq<u8>,
        channel_identifier: Seq<u8>,
        version: Seq<u8>,
        proof_try: ProofView,
        proof_height: u64,
    },
    /// Final confirmation that both channel ends are open.
    ChanOpenConfirm {
        port_identifier: Seq<u8>,
        channel_identifier: Seq<u8>,
        proof_ack: ProofView,
        proof_height: u64,
    },
    /// Deliver a sent packet to its destination chain.
    PacketRecv { packet: PacketView, proof: ProofView, proof_height: u64 },
    /// Return a packet acknowledgement to the original source chain.
    PacketAcknowledgement {
        packet: PacketView,
        acknowledgement: Seq<u8>,
        proof: ProofView,
        proof_height: u64,
    },
}

impl DeepView for Datagram {
    type V = DatagramView;

    open spec fn deep_view(&self) -> DatagramView {
        match self {
            Datagram::ClientUpdate { identifier, header } => DatagramView::ClientUpdate {
                identifier: identifier.deep_view(),
                header: header.deep_view(),
            },
            Datagram::ConnOpenTry {
                desired_identifier,
                counterparty_connection_identifier,
                counterparty_client_identifier,
                client_identifier,
                version,
                counterparty_version,
                proof_init,
                proof_consensus,
                proof_height,
                consensus_height,
            } => DatagramView::ConnOpenTry {
                desired_identifier: desired_identifier.deep_view(),
                counterparty_connection_identifier: counterparty_connection_identifier.deep_view(),
                counterparty_client_identifier: counterparty_client_identifier.deep_view(),
                client_identifier: client_identifier.deep_view(),
                version: version.deep_view(),
                counterparty_version: counterparty_version.deep_view(),
                proof_init: proof_init.deep_view(),
                proof_consensus: proof_consensus.deep_view(),
                proof_height: *proof_height,
                consensus_height: *consensus_height,
            },
            Datagram::ConnOpenAck {
                identifier,
                version,
                proof_try,
                proof_consensus,
                proof_height,
                consensus_height,
            } => DatagramView::ConnOpenAck {
                identifier: identifier.deep_view(),
                version: version.deep_view(),
                proof_try: proof_try.deep_view(),
                proof_consensus: proof_consensus.deep_view(),
                proof_height: *proof_height,
                consensus_height: *consensus_height,
            },
            Datagram::ConnOpenConfirm { identifier, proof_ack, proof_height } => {
                DatagramView::ConnOpenConfirm {
                    identifier: identifier.deep_view(),
                    proof_ack: proof_ack.deep_view(),
                    proof_height: *proof_height,
                }
            },
            Datagram::ChanOpenTry {
                order,
                connection_hops,
                port_identifier,
                channel_identifier,
                counterparty_port_identifier,
                counterparty_channel_identifier,
                version,
                counterparty_version,
                proof_init,
                proof_height,
            } => DatagramView::ChanOpenTry {
                order: *order,
                connection_hops: connection_hops.deep_view(),
                port_identifier: port_identifier.deep_view(),
                channel_identifier: channel_identifier.deep_view(),
                counterparty_port_identifier: counterparty_port_identifier.deep_view(),
                counterparty_channel_identifier: counterparty_channel_identifier.deep_view(),
                version: version.deep_view(),
                counterparty_version: counterparty_version.deep_view(),
                proof_init: proof_init.deep_view(),
                proof_height: *proof_height,
            },
            Datagram::ChanOpenAck {
                port_identifier,
                channel_identifier,
                version,
                proof_try,
                proof_height,
            } => DatagramView::ChanOpenAck {
                port_identifier: port_identifier.deep_view(),
                channel_identifier: channel_identifier.deep_view(),
                version: version.deep_view(),
                proof_try: proof_try.deep_view(),
                proof_height: *proof_height,
            },
            Datagram::ChanOpenConfirm {
                port_identifier,
                channel_identifier,
                proof_ack,
                proof_height,
            } => DatagramView::ChanOpenConfirm {
                port_identifier: port_identifier.deep_view(),
                channel_identifier: channel_identifier.deep_view(),
                proof_ack: proof_ack.deep_view(),
                proof_height: *proof_height,
            },
            Datagram::PacketRecv { packet, proof, proof_height } => DatagramView::PacketRecv {
                packet: packet.deep_view(),
                proof: proof.deep_view(),
                proof_height: *proof_height,
            },
            Datagram::PacketAcknowledgement { packet, acknowledgement, proof, proof_height } => {
                DatagramView::PacketAcknowledgement {
                    packet: packet.deep_view(),
                    acknowledgement: acknowledgement.deep_view(),
                    proof: proof.deep_view(),
                    proof_height: *proof_height,
                }
            },
        }
    }
}

/// One decoded chain event, as delivered by the event stream.
///
/// Only the packet lifecycle events matter to the relayer; everything else is
/// normalized to [`Event::Other`].
#[derive(Debug, Clone, PartialEq, Eq)]
pub enum Event {
    /// An application sent a packet on this chain.
    SendPacket {
        /// Per-channel sequence number assigned to the packet.
        sequence: u64,
        /// Opaque application payload.
        data: Vec<u8>,
        /// Destination-chain height after which the packet times out.
        timeout_height: u64,
        /// Port the packet was sent from.
        source_port: Vec<u8>,
        /// Channel the packet was sent on.
        source_channel: Vec<u8>,
        /// Port the packet is addressed to.
        dest_port: Vec<u8>,
        /// Channel the packet is addressed to.
        dest_channel: Vec<u8>,
    },
    /// This chain received a packet and stored an acknowledgement.
    RecvPacket {
        /// Sequence number of the received packet.
        sequence: u64,
        /// Opaque application payload.
        data: Vec<u8>,
        /// Timeout height the packet carried.
        timeout_height: u64,
        /// Port the packet was sent from.
        source_port: Vec<u8>,
        /// Channel the packet was sent on.
        source_channel: Vec<u8>,
        /// Port the packet was addressed to.
        dest_port: Vec<u8>,
        /// Channel the packet was addressed to.
        dest_channel: Vec<u8>,
        /// Acknowledgement payload this chain stored.
        acknowledgement: Vec<u8>,
    },
    /// Any event the relayer does not act on.
    Other,
}

/// Ghost counterpart of [`Event`].
pub ghost enum EventView {
    /// An application sent a packet.
    SendPacket {
        sequence: u64,
        data: Seq<u8>,
        timeout_height: u64,
        source_port: Seq<u8>,
        source_channel: Seq<u8>,
        dest_port: Seq<u8>,
        dest_channel: Seq<u8>,
    },
    /// A packet was received and acknowledged.
    RecvPacket {
        sequence: u64,
        data: Seq<u8>,
        timeout_height: u64,
        source_port: Seq<u8>,
        source_channel: Seq<u8>,
        dest_port: Seq<u8>,
        dest_channel: Seq<u8>,
        acknowledgement: Seq<u8>,
    },
    /// Any event the relayer does not act on.
    Other,
}

impl DeepView for Event {
    type V = EventView;

    open spec fn deep_view(&self) -> EventView {
        match self {
            Event::SendPacket {
                sequence,
                data,
                timeout_height,
                source_port,
                source_channel,
                dest_port,
                dest_channel,
            } => EventView::SendPacket {
                sequence: *sequence,
                data: data.deep_view(),
                timeout_height: *timeout_height,
                source_port: source_port.deep_view(),
                source_channel: source_channel.deep_view(),
                dest_port: dest_port.deep_view(),
                dest_channel: dest_channel.deep_view(),
            },
            Event::RecvPacket {
                sequence,
                data,
                timeout_height,
                source_port,
                source_channel,
                dest_port,
                dest_channel,
                acknowledgement,
            } => EventView::RecvPacket {
                sequence: *sequence,
                data: data.deep_view(),
                timeout_height: *timeout_height,
                source_port: source_port.deep_view(),
                source_channel: source_channel.deep_view(),
                dest_port: dest_port.deep_view(),
                dest_channel: dest_channel.deep_view(),
                acknowledgement: acknowledgement.deep_view(),
            },
            Event::Other => EventView::Other,
        }
    }
}

/// A byte string's deep view is its view: the elements are plain bytes.
pub broadcast proof fn lemma_bytes_deep_view(v: Vec<u8>)
    ensures
        #[trigger] v.deep_view() == v@,
{
    assert(v.deep_view() =~= v@);
}

/// Copies a byte string.
pub fn clone_bytes(v: &Vec<u8>) -> (r: Vec<u8>)
    ensures
        r@ == v@,
        r.deep_view() == v.deep_view(),
{
    let r = v.clone();
    proof {
        assert(r@ =~= v@);
        assert(r.deep_view() =~= v.deep_view());
    }
    r
}

/// Copies a list of byte strings.
pub fn clone_bytes_list(v: &Vec<Vec<u8>>) -> (r: Vec<Vec<u8>>)
    ensures
        r.deep_view() == v.deep_view(),
{
    let mut r: Vec<Vec<u8>> = Vec::new();
    let mut i: usize = 0;
    while i < v.len()
        invariant
            i <= v.len(),
            r@.len() == i,
            forall|j: int| 0 <= j < i ==> r@[j]@ == v@[j]@,
        decreases v.len() - i,
    {
        r.push(clone_bytes(&v[i]));
        i = i + 1;
    }
    proof {
        assert forall|j: int| 0 <= j < v@.len() implies r.deep_view()[j] == v.deep_view()[j] by {
            assert(r@[j]@ == v@[j]@);
            assert(r@[j].deep_view() =~= v@[j].deep_view());
        }
        assert(r.deep_view() =~= v.deep_view());
    }
    r
}

/// Copies a proof.
pub fn clone_proof(p: &Proof) -> (r: Proof)
    ensures
        r.deep_view() == p.deep_view(),
{
    Proof { nodes: clone_bytes_list(&p.nodes) }
}

/// Copies a header.
pub fn clone_header(h: &Header) -> (r: Header)
    ensures
        r.deep_view() == h.deep_view(),
{
    Header {
        height: h.height,
        block_hash: clone_bytes(&h.block_hash),
        commitment_root: clone_bytes(&h.commitment_root),
        justification: clone_bytes(&h.justification),
        authorities_proof: clone_proof(&h.authorities_proof),
    }
}

/// Copies a packet.
pub fn clone_packet(p: &Packet) -> (r: Packet)
    ensures
        r.deep_view() == p.deep_view(),
{
    Packet {
        sequence: p.sequence,
        timeout_height: p.timeout_height,
        source_port: clone_bytes(&p.source_port),
        source_channel: clone_bytes(&p.source_channel),
        dest_port: clone_bytes(&p.dest_port),
        dest_channel: clone_bytes(&p.dest_channel),
        data: clone_bytes(&p.data),
    }
}

/// Copies a datagram.
pub fn clone_datagram(d: &Datagram) -> (r: Datagram)
    ensures
        r.deep_view() == d.deep_view(),
{
    match d {
        Datagram::ClientUpdate { identifier, header } => Datagram::ClientUpdate {
            identifier: clone_bytes(identifier),
            header: clone_header(header),
        },
        Datagram::ConnOpenTry {
            desired_identifier,
            counterparty_connection_identifier,
            counterparty_client_identifier,
            client_identifier,
            version,
            counterparty_version,
            proof_init,
            proof_consensus,
            proof_height,
            consensus_height,
        } => Datagram::ConnOpenTry {
            desired_identifier: clone_bytes(desired_identifier),
            counterparty_connection_identifier: clone_bytes(counterparty_connection_identifier),
            counterparty_client_identifier: clone_bytes(counterparty_client_identifier),
            client_identifier: clone_bytes(client_identifier),
            version: clone_bytes(version),
            counterparty_version: clone_bytes(counterparty_version),
            proof_init: clone_proof(proof_init),
            proof_consensus: clone_proof(proof_consensus),
            proof_height: *proof_height,
            consensus_height: *consensus_height,
        },
        Datagram::ConnOpenAck {
            identifier,
            version,
            proof_try,
            proof_consensus,
            proof_height,
            consensus_height,
        } => Datagram::ConnOpenAck {
            identifier: clone_bytes(identifier),
            version: clone_bytes(version),
            proof_try: clone_proof(proof_try),
            proof_consensus: clone_proof(proof_consensus),
            proof_height: *proof_height,
            consensus_height: *consensus_height,
        },
        Datagram::ConnOpenConfirm { identifier, proof_ack, proof_height } => {
            Datagram::ConnOpenConfirm {
                identifier: clone_bytes(identifier),
                proof_ack: clone_proof(proof_ack),
                proof_height: *proof_height,
            }
        },
        Datagram::ChanOpenTry {
            order,
            connection_hops,
            port_identifier,
            channel_identifier,
            counterparty_port_identifier,
            counterparty_channel_identifier,
            version,
            counterparty_version,
            proof_init,
            proof_height,
        } => Datagram::ChanOpenTry {
            order: *order,
            connection_hops: clone_bytes_list(connection_hops),
            port_identifier: clone_bytes(port_identifier),
            channel_identifier: clone_bytes(channel_identifier),
            counterparty_port_identifier: clone_bytes(counterparty_port_identifier),
            counterparty_channel_identifier: clone_bytes(counterparty_channel_identifier),
            version: clone_bytes(version),
            counterparty_version: clone_bytes(counterparty_version),
            proof_init: clone_proof(proof_init),
            proof_height: *proof_height,
        },
        Datagram::ChanOpenAck {
            port_identifier,
            channel_identifier,
            version,
            proof_try,
            proof_height,
        } => Datagram::ChanOpenAck {
            port_identifier: clone_bytes(port_identifier),
            channel_identifier: clone_bytes(channel_identifier),
            version: clone_bytes(version),
            proof_try: clone_proof(proof_try),
            proof_height: *proof_height,
        },
        Datagram::ChanOpenConfirm { port_identifier, channel_identifier, proof_ack, proof_height } => {
            Datagram::ChanOpenConfirm {
                port_identifier: clone_bytes(port_identifier),
                channel_identifier: clone_bytes(channel_identifier),
                proof_ack: clone_proof(proof_ack),
                proof_height: *proof_height,
            }
        },
        Datagram::PacketRecv { packet, proof, proof_height } => Datagram::PacketRecv {
            packet: clone_packet(packet),
            proof: clone_proof(proof),
            proof_height: *proof_height,
        },
        Datagram::PacketAcknowledgement { packet, acknowledgement, proof, proof_height } => {
            Datagram::PacketAcknowledgement {
                packet: clone_packet(packet),
                acknowledgement: clone_bytes(acknowledgement),
                proof: clone_proof(proof),
                proof_height: *proof_height,
            }
        },
    }
}

/// Compares two byte strings.
pub fn bytes_eq(a: &Vec<u8>, b: &Vec<u8>) -> (r: bool)
    ensures
        r == (a@ == b@),
{
    if a.len() != b.len() {
        proof {
            assert(a@.len() != b@.len());
        }
        return false;
    }
    let mut i: usize = 0;
    while i < a.len()
        invariant
            i <= a.len(),
            a@.len() == b@.len(),
            forall|j: int| 0 <= j < i ==> a@[j] == b@[j],
        decreases a.len() - i,
    {
        if a[i] != b[i] {
            return false;
        }
        i = i + 1;
    }
    proof {
        assert(a@ =~= b@);
    }
    true
}

} // verus!
