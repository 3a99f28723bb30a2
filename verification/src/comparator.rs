//! The handshake driver: computes, from the observed state of both chains,
//! the datagrams that close the gap between their views.
//!
//! The comparator is a pure function of an [`Observation`].  It keeps no
//! memory of what it already sent: re-running it over the same observed
//! state reproduces exactly the datagrams still needed, which makes the
//! relayer idempotent and crash-safe.

use vstd::prelude::*;

use crate::model::clone_bytes;
use crate::model::clone_header;
use crate::model::clone_proof;
use crate::model::bytes_eq;
use crate::model::{
    ChannelEnd, ChannelEndView, ChannelKey, ChannelKeyView, ChannelState, ClientState,
    ClientStateView, ConnectionEnd, ConnectionEndView, ConnectionState, Datagram, DatagramView,
    Header, HeaderView, Proof, ProofView,
};

verus! {

/// A connection known to the local chain, paired with the mirrored record
/// fetched from the counterparty and the proofs of the local record.
#[derive(Debug, Clone, PartialEq, Eq)]
pub struct ConnectionPair {
    /// Identifier of the connection on the local chain.
    pub identifier: Vec<u8>,
    /// The local chain's record.
    pub local: ConnectionEnd,
    /// The counterparty's mirrored record, fetched at the height the local
    /// chain currently trusts.
    pub remote: ConnectionEnd,
    /// Proof of the local record at the current finalized height.
    pub record_proof: Proof,
    /// Proof of the local chain's consensus state, needed when answering an
    /// `Init` with a `ConnOpenTry`.
    pub consensus_proof: Proof,
}

/// Ghost counterpart of [`ConnectionPair`].
pub ghost struct ConnectionPairView {
    /// Identifier of the connection on the local chain.
    pub identifier: Seq<u8>,
    /// The local chain's record.
    pub local: ConnectionEndView,
    /// The counterparty's mirrored record.
    pub remote: ConnectionEndView,
    /// Proof of the local record.
    pub record_proof: ProofView,
    /// Proof of the local chain's consensus state.
    pub consensus_proof: ProofView,
}

impl DeepView for ConnectionPair {
    type V = ConnectionPairView;

    open spec fn deep_view(&self) -> ConnectionPairView {
        ConnectionPairView {
            identifier: self.identifier.deep_view(),
            local: self.local.deep_view(),
            remote: self.remote.deep_view(),
            record_proof: self.record_proof.deep_view(),
            consensus_proof: self.consensus_proof.deep_view(),
        }
    }
}

/// A channel known to the local chain, paired with the mirrored record
/// fetched from the counterparty and the proof of the local record.
#[derive(Debug, Clone, PartialEq, Eq)]
pub struct ChannelPair {
    /// Port and identifier of the channel on the local chain.
    pub key: ChannelKey,
    /// The local chain's record.
    pub local: ChannelEnd,
    /// The counterparty's mirrored record.
    pub remote: ChannelEnd,
    /// Counterparty identifier of the first connection the channel runs
    /// over, used when answering an `Init` with a `ChanOpenTry`.
    pub counterparty_connection_identifier: Vec<u8>,
    /// Proof of the local record at the current finalized height.
    pub record_proof: Proof,
}

/// Ghost counterpart of [`ChannelPair`].
pub ghost struct ChannelPairView {
    /// Port and identifier of the channel on the local chain.
    pub key: ChannelKeyView,
    /// The local chain's record.
    pub local: ChannelEndView,
    /// The counterparty's mirrored record.
    pub remote: ChannelEndView,
    /// Counterparty identifier of the first connection hop.
    pub counterparty_connection_identifier: Seq<u8>,
    /// Proof of the local record.
    pub record_proof: ProofView,
}

impl DeepView for ChannelPair {
    type V = ChannelPairView;

    open spec fn deep_view(&self) -> ChannelPairView {
        ChannelPairView {
            key: self.key.deep_view(),
            local: self.local.deep_view(),
            remote: self.remote.deep_view(),
            counterparty_connection_identifier: self.counterparty_connection_identifier.deep_view(),
            record_proof: self.record_proof.deep_view(),
        }
    }
}

/// Everything one comparator invocation reads: the local chain's view of the
/// counterparty, the counterparty's view of the local chain, and the records
/// and proofs fetched for every connection and channel.
///
/// All of it is re-fetched for each finalized header; nothing here survives
/// between invocations.
#[derive(Debug, Clone, PartialEq, Eq)]
pub struct Observation {
    /// Height of the local chain's newest finalized header.
    pub self_height: u64,
    /// The local chain's client record for the counterparty, listing the
    /// connections and channels to examine.
    pub client: ClientState,
    /// Identifier of the client record on the counterparty that tracks the
    /// local chain.
    pub counterparty_client_identifier: Vec<u8>,
    /// The local-chain height that counterparty client currently trusts.
    pub counterparty_tracked_height: u64,
    /// The finalized headers the counterparty is missing, lowest first.
    pub headers: Vec<Header>,
    /// One entry per connection listed in `client`.
    pub connections: Vec<ConnectionPair>,
    /// One entry per channel listed in `client`.
    pub channels: Vec<ChannelPair>,
}

/// Ghost counterpart of [`Observation`].
pub ghost struct ObservationView {
    /// Height of the local chain's newest finalized header.
    pub self_height: u64,
    /// The local chain's client record for the counterparty.
    pub client: ClientStateView,
    /// Identifier of the counterparty's client record for the local chain.
    pub counterparty_client_identifier: Seq<u8>,
    /// The local-chain height that client currently trusts.
    pub counterparty_tracked_height: u64,
    /// The headers the counterparty is missing.
    pub headers: Seq<HeaderView>,
    /// One entry per connection listed in the client record.
    pub connections: Seq<ConnectionPairView>,
    /// One entry per channel listed in the client record.
    pub channels: Seq<ChannelPairView>,
}

impl DeepView for Observation {
    type V = ObservationView;

    open spec fn deep_view(&self) -> ObservationView {
        ObservationView {
            self_height: self.self_height,
            client: self.client.deep_view(),
            counterparty_client_identifier: self.counterparty_client_identifier.deep_view(),
            counterparty_tracked_height: self.counterparty_tracked_height,
            headers: self.headers.deep_view(),
            connections: self.connections.deep_view(),
            channels: self.channels.deep_view(),
        }
    }
}

impl ObservationView {
    /// An observation is coherent when the fetched headers cover exactly the
    /// gap between the counterparty's tracked height and the new finalized
    /// height, and the connection and channel entries line up one for one
    /// with the client record that lists them.
    pub open spec fn wf(self) -> bool {
        &&& (if self.counterparty_tracked_height < self.self_height {
            self.headers.len() == self.self_height - self.counterparty_tracked_height
        } else {
            self.headers.len() == 0
        })
        &&& forall|i: int|
            0 <= i < self.headers.len() ==> (#[trigger] self.headers[i]).height
                == self.counterparty_tracked_height + 1 + i
        &&& self.connections.len() == self.client.connections.len()
        &&& forall|i: int|
            0 <= i < self.connections.len() ==> (#[trigger] self.connections[i]).identifier
                == self.client.connections[i]
        &&& self.channels.len() == self.client.channels.len()
        &&& forall|i: int|
            0 <= i < self.channels.len() ==> (#[trigger] self.channels[i]).key
                == self.client.channels[i]
    }
}

/// The client updates owed to the counterparty: one `ClientUpdate` per
/// missing header, lowest height first, each carrying that height's header
/// with its finality proof.
pub open spec fn spec_client_updates(o: ObservationView) -> Seq<DatagramView> {
    Seq::new(
        o.headers.len(),
        |i: int|
            DatagramView::ClientUpdate {
                identifier: o.counterparty_client_identifier,
                header: o.headers[i],
            },
    )
}

/// The handshake transition table for one connection: what the counterparty
/// must be sent, given both ends' current states.  Any combination not in
/// the table means the handshake is converged or waiting on the other
/// direction, and nothing is emitted.
pub open spec fn spec_connection_datagram(
    p: ConnectionPairView,
    client_identifier: Seq<u8>,
    counterparty_client_identifier: Seq<u8>,
    proof_height: u64,
) -> Option<DatagramView> {
    if p.local.state == ConnectionState::Init && p.remote.state == ConnectionState::Absent {
        Some(
            DatagramView::ConnOpenTry {
                desired_identifier: p.local.counterparty_connection_identifier,
                counterparty_connection_identifier: p.identifier,
                counterparty_client_identifier: client_identifier,
                client_identifier: counterparty_client_identifier,
                version: Seq::empty(),
                counterparty_version: Seq::empty(),
                proof_init: p.record_proof,
                proof_consensus: p.consensus_proof,
                proof_height,
                consensus_height: 0,
            },
        )
    } else if p.local.state == ConnectionState::TryOpen && p.remote.state
        == ConnectionState::Init {
        Some(
            DatagramView::ConnOpenAck {
                identifier: p.local.counterparty_connection_identifier,
                version: Seq::empty(),
                proof_try: p.record_proof,
                proof_consensus: ProofView { nodes: Seq::empty() },
                proof_height,
                consensus_height: 0,
            },
        )
    } else if p.local.state == ConnectionState::Open && p.remote.state
        == ConnectionState::TryOpen {
        Some(
            DatagramView::ConnOpenConfirm {
                identifier: p.local.counterparty_connection_identifier,
                proof_ack: p.record_proof,
                proof_height,
            },
        )
    } else {
        None
    }
}

/// The handshake transition table for one channel; the lattice is the same
/// as for connections.
pub open spec fn spec_channel_datagram(p: ChannelPairView, proof_height: u64) -> Option<
    DatagramView,
> {
    if p.local.state == ChannelState::Init && p.remote.state == ChannelState::Absent {
        Some(
            DatagramView::ChanOpenTry {
                order: p.local.ordering,
                connection_hops: seq![p.counterparty_connection_identifier],
                port_identifier: p.local.counterparty_port_identifier,
                channel_identifier: p.local.counterparty_channel_identifier,
                counterparty_port_identifier: p.key.port_identifier,
                counterparty_channel_identifier: p.key.channel_identifier,
                version: p.local.version,
                counterparty_version: p.local.version,
                proof_init: p.record_proof,
                proof_height,
            },
        )
    } else if p.local.state == ChannelState::TryOpen && p.remote.state == ChannelState::Init {
        Some(
            DatagramView::ChanOpenAck {
                port_identifier: p.local.counterparty_port_identifier,
                channel_identifier: p.local.counterparty_channel_identifier,
                version: p.remote.version,
                proof_try: p.record_proof,
                proof_height,
            },
        )
    } else if p.local.state == ChannelState::Open && p.remote.state == ChannelState::TryOpen {
        Some(
            DatagramView::ChanOpenConfirm {
                port_identifier: p.local.counterparty_port_identifier,
                channel_identifier: p.local.counterparty_channel_identifier,
                proof_ack: p.record_proof,
                proof_height,
            },
        )
    } else {
        None
    }
}

/// Zero or one datagrams, as a sequence.
pub open spec fn opt_seq(o: Option<DatagramView>) -> Seq<DatagramView> {
    match o {
        Some(d) => seq![d],
        None => Seq::empty(),
    }
}

/// The datagrams emitted for a list of connections, in list order.
pub open spec fn spec_connection_datagrams(
    pairs: Seq<ConnectionPairView>,
    client_identifier: Seq<u8>,
    counterparty_client_identifier: Seq<u8>,
    proof_height: u64,
) -> Seq<DatagramView>
    decreases pairs.len(),
{
    if pairs.len() == 0 {
        Seq::empty()
    } else {
        spec_connection_datagrams(
            pairs.drop_last(),
            client_identifier,
            counterparty_client_identifier,
            proof_height,
        ) + opt_seq(
            spec_connection_datagram(
                pairs.last(),
                client_identifier,
                counterparty_client_identifier,
                proof_height,
            ),
        )
    }
}

/// The datagrams emitted for a list of channels, in list order.
pub open spec fn spec_channel_datagrams(
    pairs: Seq<ChannelPairView>,
    proof_height: u64,
) -> Seq<DatagramView>
    decreases pairs.len(),
{
    if pairs.len() == 0 {
        Seq::empty()
    } else {
        spec_channel_datagrams(pairs.drop_last(), proof_height) + opt_seq(
            spec_channel_datagram(pairs.last(), proof_height),
        )
    }
}

/// Everything one comparator invocation emits: client updates first, then
/// connection handshake datagrams, then channel handshake datagrams.
pub open spec fn spec_compare(o: ObservationView) -> Seq<DatagramView> {
    spec_client_updates(o) + spec_connection_datagrams(
        o.connections,
        o.client.identifier,
        o.counterparty_client_identifier,
        o.self_height,
    ) + spec_channel_datagrams(o.channels, o.self_height)
}

impl Observation {
    /// Checks the coherence conditions of [`ObservationView::wf`] at run
    /// time, for a caller that assembled the observation from separate
    /// fetches and wants to reject an inconsistent snapshot.
    pub fn is_coherent(&self) -> (r: bool)
        ensures
            r == self.deep_view().wf(),
    {
        broadcast use crate::model::lemma_bytes_deep_view;

        if self.counterparty_tracked_height < self.self_height {
            let gap = self.self_height - self.counterparty_tracked_height;
            if self.headers.len() as u64 != gap {
                return false;
            }
        } else {
            if self.headers.len() != 0 {
                return false;
            }
        }
        let mut i: usize = 0;
        while i < self.headers.len()
            invariant
                i <= self.headers@.len(),
                self.counterparty_tracked_height < self.self_height ==> self.headers@.len()
                    == self.self_height - self.counterparty_tracked_height,
                self.counterparty_tracked_height >= self.self_height ==> self.headers@.len() == 0,
                forall|j: int|
                    0 <= j < i ==> (#[trigger] self.deep_view().headers[j]).height
                        == self.counterparty_tracked_height + 1 + j,
            decreases self.headers@.len() - i,
        {
            proof {
                assert(i < self.self_height - self.counterparty_tracked_height);
            }
            let expected = self.counterparty_tracked_height + 1 + (i as u64);
            if self.headers[i].height != expected {
                proof {
                    assert(self.deep_view().headers.len() == self.headers@.len());
                    assert(self.deep_view().headers[i as int].height
                        == self.headers@[i as int].height);
                }
                return false;
            }
            i = i + 1;
        }
        let mut i: usize = 0;
        if self.connections.len() != self.client.connections.len() {
            return false;
        }
        while i < self.connections.len()
            invariant
                i <= self.connections@.len(),
                self.connections@.len() == self.client.connections@.len(),
                forall|j: int|
                    0 <= j < i ==> (#[trigger] self.deep_view().connections[j]).identifier
                        == self.deep_view().client.connections[j],
            decreases self.connections@.len() - i,
        {
            let local_id = &self.connections[i].identifier;
            let listed_id = &self.client.connections[i];
            if !bytes_eq(local_id, listed_id) {
                proof {
                    assert(local_id@ != listed_id@);
                    assert(*local_id == self.connections@[i as int].identifier);
                    assert(*listed_id == self.client.connections@[i as int]);
                    assert(self.deep_view().connections.len() == self.connections@.len());
                    assert(self.deep_view().connections[i as int].identifier
                        == self.connections@[i as int].identifier.deep_view());
                    assert(self.deep_view().client.connections[i as int]
                        == self.client.connections@[i as int].deep_view());
                    crate::model::lemma_bytes_deep_view(self.connections@[i as int].identifier);
                    crate::model::lemma_bytes_deep_view(self.client.connections@[i as int]);
                    assert(self.deep_view().connections[i as int].identifier
                        != self.deep_view().client.connections[i as int]);
                }
                return false;
            }
            i = i + 1;
        }
        if self.channels.len() != self.client.channels.len() {
            return false;
        }
        let mut i: usize = 0;
        while i < self.channels.len()
            invariant
                i <= self.channels@.len(),
                self.channels@.len() == self.client.channels@.len(),
                forall|j: int|
                    0 <= j < i ==> (#[trigger] self.deep_view().channels[j]).key
                        == self.deep_view().client.channels[j],
            decreases self.channels@.len() - i,
        {
            let key = &self.channels[i].key;
            let listed = &self.client.channels[i];
            proof {
                assert(self.deep_view().channels.len() == self.channels@.len());
                assert(self.deep_view().channels[i as int].key
                    == self.channels@[i as int].key.deep_view());
                assert(self.deep_view().client.channels[i as int]
                    == self.client.channels@[i as int].deep_view());
                assert(key.deep_view().port_identifier == key.port_identifier.deep_view());
                assert(key.deep_view().channel_identifier == key.channel_identifier.deep_view());
                assert(listed.deep_view().port_identifier == listed.port_identifier.deep_view());
                assert(listed.deep_view().channel_identifier
                    == listed.channel_identifier.deep_view());
                crate::model::lemma_bytes_deep_view(self.channels@[i as int].key.port_identifier);
                crate::model::lemma_bytes_deep_view(
                    self.channels@[i as int].key.channel_identifier,
                );
                crate::model::lemma_bytes_deep_view(
                    self.client.channels@[i as int].port_identifier,
                );
                crate::model::lemma_bytes_deep_view(
                    self.client.channels@[i as int].channel_identifier,
                );
            }
            if !bytes_eq(&key.port_identifier, &listed.port_identifier) {
                proof {
                    assert(self.deep_view().channels[i as int].key
                        != self.deep_view().client.channels[i as int]);
                }
                return false;
            }
            if !bytes_eq(&key.channel_identifier, &listed.channel_identifier) {
                proof {
                    assert(self.deep_view().channels[i as int].key
                        != self.deep_view().client.channels[i as int]);
                }
                return false;
            }
            i = i + 1;
        }
        true
    }
}

/// Emits the client updates owed to the counterparty: one `ClientUpdate`
/// per missing header, lowest height first.
pub fn client_updates(o: &Observation) -> (r: Vec<Datagram>)
    ensures
        r.deep_view() == spec_client_updates(o.deep_view()),
{
    let ghost updates = spec_client_updates(o.deep_view());
    let mut r: Vec<Datagram> = Vec::new();
    let mut i: usize = 0;
    proof {
        assert(r.deep_view() =~= updates.take(0));
    }
    while i < o.headers.len()
        invariant
            i <= o.headers@.len(),
            updates == spec_client_updates(o.deep_view()),
            updates.len() == o.headers@.len(),
            r.deep_view() == updates.take(i as int),
        decreases o.headers@.len() - i,
    {
        let ghost pre = r.deep_view();
        let d = Datagram::ClientUpdate {
            identifier: clone_bytes(&o.counterparty_client_identifier),
            header: clone_header(&o.headers[i]),
        };
        proof {
            assert(d.deep_view() == updates[i as int]);
        }
        r.push(d);
        proof {
            assert(r.deep_view() =~= pre + seq![d.deep_view()]);
            assert(updates.take(i + 1) =~= updates.take(i as int) + seq![updates[i as int]]);
        }
        i = i + 1;
    }
    proof {
        assert(updates.take(o.headers@.len() as int) =~= updates);
    }
    r
}

/// Applies the connection transition table to one connection pair.
pub fn connection_datagram(
    p: &ConnectionPair,
    client_identifier: &Vec<u8>,
    counterparty_client_identifier: &Vec<u8>,
    proof_height: u64,
) -> (r: Option<Datagram>)
    ensures
        r.deep_view() == spec_connection_datagram(
            p.deep_view(),
            client_identifier.deep_view(),
            counterparty_client_identifier.deep_view(),
            proof_height,
        ),
{
    if p.local.state == ConnectionState::Init && p.remote.state == ConnectionState::Absent {
        let version: Vec<u8> = Vec::new();
        let counterparty_version: Vec<u8> = Vec::new();
        proof {
            assert(version.deep_view() =~= Seq::<u8>::empty());
            assert(counterparty_version.deep_view() =~= Seq::<u8>::empty());
        }
        Some(
            Datagram::ConnOpenTry {
                desired_identifier: clone_bytes(&p.local.counterparty_connection_identifier),
                counterparty_connection_identifier: clone_bytes(&p.identifier),
                counterparty_client_identifier: clone_bytes(client_identifier),
                client_identifier: clone_bytes(counterparty_client_identifier),
                version,
                counterparty_version,
                proof_init: clone_proof(&p.record_proof),
                proof_consensus: clone_proof(&p.consensus_proof),
                proof_height,
                consensus_height: 0,
            },
        )
    } else if p.local.state == ConnectionState::TryOpen && p.remote.state
        == ConnectionState::Init {
        let version: Vec<u8> = Vec::new();
        proof {
            assert(version.deep_view() =~= Seq::<u8>::empty());
        }
        Some(
            Datagram::ConnOpenAck {
                identifier: clone_bytes(&p.local.counterparty_connection_identifier),
                version,
                proof_try: clone_proof(&p.record_proof),
                proof_consensus: Proof::empty(),
                proof_height,
                consensus_height: 0,
            },
        )
    } else if p.local.state == ConnectionState::Open && p.remote.state
        == ConnectionState::TryOpen {
        Some(
            Datagram::ConnOpenConfirm {
                identifier: clone_bytes(&p.local.counterparty_connection_identifier),
                proof_ack: clone_proof(&p.record_proof),
                proof_height,
            },
        )
    } else {
        None
    }
}

/// Applies the channel transition table to one channel pair.
pub fn channel_datagram(p: &ChannelPair, proof_height: u64) -> (r: Option<Datagram>)
    ensures
        r.deep_view() == spec_channel_datagram(p.deep_view(), proof_height),
{
    if p.local.state == ChannelState::Init && p.remote.state == ChannelState::Absent {
        let hops: Vec<Vec<u8>> = vec![clone_bytes(&p.counterparty_connection_identifier)];
        proof {
            assert(hops.deep_view() =~= seq![p.counterparty_connection_identifier.deep_view()]);
        }
        Some(
            Datagram::ChanOpenTry {
                order: p.local.ordering,
                connection_hops: hops,
                port_identifier: clone_bytes(&p.local.counterparty_port_identifier),
                channel_identifier: clone_bytes(&p.local.counterparty_channel_identifier),
                counterparty_port_identifier: clone_bytes(&p.key.port_identifier),
                counterparty_channel_identifier: clone_bytes(&p.key.channel_identifier),
                version: clone_bytes(&p.local.version),
                counterparty_version: clone_bytes(&p.local.version),
                proof_init: clone_proof(&p.record_proof),
                proof_height,
            },
        )
    } else if p.local.state == ChannelState::TryOpen && p.remote.state == ChannelState::Init {
        Some(
            Datagram::ChanOpenAck {
                port_identifier: clone_bytes(&p.local.counterparty_port_identifier),
                channel_identifier: clone_bytes(&p.local.counterparty_channel_identifier),
                version: clone_bytes(&p.remote.version),
                proof_try: clone_proof(&p.record_proof),
                proof_height,
            },
        )
    } else if p.local.state == ChannelState::Open && p.remote.state == ChannelState::TryOpen {
        Some(
            Datagram::ChanOpenConfirm {
                port_identifier: clone_bytes(&p.local.counterparty_port_identifier),
                channel_identifier: clone_bytes(&p.local.counterparty_channel_identifier),
                proof_ack: clone_proof(&p.record_proof),
                proof_height,
            },
        )
    } else {
        None
    }
}

/// Unfolds one step of [`spec_connection_datagrams`] along a prefix.
proof fn lemma_connection_datagrams_step(
    pairs: Seq<ConnectionPairView>,
    client_identifier: Seq<u8>,
    counterparty_client_identifier: Seq<u8>,
    proof_height: u64,
    i: int,
)
    requires
        0 <= i < pairs.len(),
    ensures
        spec_connection_datagrams(
            pairs.take(i + 1),
            client_identifier,
            counterparty_client_identifier,
            proof_height,
        ) == spec_connection_datagrams(
            pairs.take(i),
            client_identifier,
            counterparty_client_identifier,
            proof_height,
        ) + opt_seq(
            spec_connection_datagram(
                pairs[i],
                client_identifier,
                counterparty_client_identifier,
                proof_height,
            ),
        ),
{
    let t = pairs.take(i + 1);
    assert(t.drop_last() =~= pairs.take(i));
    assert(t.last() == pairs[i]);
}

/// Unfolds one step of [`spec_channel_datagrams`] along a prefix.
proof fn lemma_channel_datagrams_step(pairs: Seq<ChannelPairView>, proof_height: u64, i: int)
    requires
        0 <= i < pairs.len(),
    ensures
        spec_channel_datagrams(pairs.take(i + 1), proof_height) == spec_channel_datagrams(
            pairs.take(i),
            proof_height,
        ) + opt_seq(spec_channel_datagram(pairs[i], proof_height)),
{
    let t = pairs.take(i + 1);
    assert(t.drop_last() =~= pairs.take(i));
    assert(t.last() == pairs[i]);
}

/// Emits the connection handshake datagrams for every connection the client
/// record lists, in list order.
pub fn connection_datagrams(o: &Observation) -> (r: Vec<Datagram>)
    ensures
        r.deep_view() == spec_connection_datagrams(
            o.connections.deep_view(),
            o.client.identifier.deep_view(),
            o.counterparty_client_identifier.deep_view(),
            o.self_height,
        ),
{
    let ghost cid = o.client.identifier.deep_view();
    let ghost ccid = o.counterparty_client_identifier.deep_view();
    let mut r: Vec<Datagram> = Vec::new();
    let mut i: usize = 0;
    proof {
        assert(o.connections.deep_view().take(0) =~= Seq::<ConnectionPairView>::empty());
        assert(r.deep_view() =~= Seq::<DatagramView>::empty());
    }
    while i < o.connections.len()
        invariant
            i <= o.connections@.len(),
            cid == o.client.identifier.deep_view(),
            ccid == o.counterparty_client_identifier.deep_view(),
            r.deep_view() == spec_connection_datagrams(
                o.connections.deep_view().take(i as int),
                cid,
                ccid,
                o.self_height,
            ),
        decreases o.connections@.len() - i,
    {
        let ghost pre = r.deep_view();
        let ghost single = spec_connection_datagram(
            o.connections.deep_view()[i as int],
            cid,
            ccid,
            o.self_height,
        );
        let d = connection_datagram(
            &o.connections[i],
            &o.client.identifier,
            &o.counterparty_client_identifier,
            o.self_height,
        );
        match d {
            Some(d) => {
                r.push(d);
                proof {
                    assert(r.deep_view() =~= pre + opt_seq(single));
                }
            },
            None => {
                proof {
                    assert(r.deep_view() =~= pre + opt_seq(single));
                }
            },
        }
        proof {
            lemma_connection_datagrams_step(
                o.connections.deep_view(),
                cid,
                ccid,
                o.self_height,
                i as int,
            );
        }
        i = i + 1;
    }
    proof {
        assert(o.connections.deep_view().take(o.connections@.len() as int)
            =~= o.connections.deep_view());
    }
    r
}

/// Emits the channel handshake datagrams for every channel the client
/// record lists, in list order.
pub fn channel_datagrams(o: &Observation) -> (r: Vec<Datagram>)
    ensures
        r.deep_view() == spec_channel_datagrams(o.channels.deep_view(), o.self_height),
{
    let mut r: Vec<Datagram> = Vec::new();
    let mut i: usize = 0;
    proof {
        assert(o.channels.deep_view().take(0) =~= Seq::<ChannelPairView>::empty());
        assert(r.deep_view() =~= Seq::<DatagramView>::empty());
    }
    while i < o.channels.len()
        invariant
            i <= o.channels@.len(),
            r.deep_view() == spec_channel_datagrams(
                o.channels.deep_view().take(i as int),
                o.self_height,
            ),
        decreases o.channels@.len() - i,
    {
        let ghost pre = r.deep_view();
        let ghost single = spec_channel_datagram(o.channels.deep_view()[i as int], o.self_height);
        let d = channel_datagram(&o.channels[i], o.self_height);
        match d {
            Some(d) => {
                r.push(d);
                proof {
                    assert(r.deep_view() =~= pre + opt_seq(single));
                }
            },
            None => {
                proof {
                    assert(r.deep_view() =~= pre + opt_seq(single));
                }
            },
        }
        proof {
            lemma_channel_datagrams_step(o.channels.deep_view(), o.self_height, i as int);
        }
        i = i + 1;
    }
    proof {
        assert(o.channels.deep_view().take(o.channels@.len() as int) =~= o.channels.deep_view());
    }
    r
}

/// Appends the second batch of datagrams to the first.
fn append_datagrams(a: &mut Vec<Datagram>, b: Vec<Datagram>)
    ensures
        final(a).deep_view() == old(a).deep_view() + b.deep_view(),
{
    let ghost a0 = a.deep_view();
    let ghost b0 = b.deep_view();
    let mut b = b;
    a.append(&mut b);
    proof {
        assert(a.deep_view() =~= a0 + b0);
    }
}

/// One full comparator pass: reads nothing but the observation and emits
/// the ordered list of datagrams the counterparty must receive, exactly as
/// [`spec_compare`] describes it.
///
/// Running this twice over the same observed state yields the same list:
/// there is no hidden memory of what was already sent.
pub fn compare(o: &Observation) -> (r: Vec<Datagram>)
    ensures
        r.deep_view() == spec_compare(o.deep_view()),
{
    let mut r = client_updates(o);
    let conns = connection_datagrams(o);
    let chans = channel_datagrams(o);
    append_datagrams(&mut r, conns);
    append_datagrams(&mut r, chans);
    r
}

/// The comparator is idempotent: its output is a function of the observed
/// chain state alone, with no hidden memory of what was already sent, so
/// two passes over identical state yield the identical datagram list.
pub proof fn lemma_compare_idempotent(
    o: ObservationView,
    first: Seq<DatagramView>,
    second: Seq<DatagramView>,
)
    requires
        first == spec_compare(o),
        second == spec_compare(o),
    ensures
        first == second,
{
}

/// Client updates are monotonic: for the updates emitted in one pass, the
/// header height grows strictly, consecutive updates differ by exactly one
/// height, and the first update starts just above the height the
/// counterparty already trusts.  No height is skipped and none is repeated.
pub proof fn lemma_client_updates_monotonic(o: ObservationView, i: int, j: int)
    requires
        o.wf(),
        0 <= i < j < spec_client_updates(o).len(),
    ensures
        spec_client_updates(o)[i] is ClientUpdate,
        spec_client_updates(o)[j] is ClientUpdate,
        spec_client_updates(o)[i]->ClientUpdate_header.height == o.counterparty_tracked_height + 1
            + i,
        spec_client_updates(o)[i]->ClientUpdate_header.height < spec_client_updates(
            o,
        )[j]->ClientUpdate_header.height,
        j == i + 1 ==> spec_client_updates(o)[j]->ClientUpdate_header.height
            == spec_client_updates(o)[i]->ClientUpdate_header.height + 1,
{
    assert(o.headers[i].height == o.counterparty_tracked_height + 1 + i);
    assert(o.headers[j].height == o.counterparty_tracked_height + 1 + j);
}

/// Client updates stay monotonic across consecutive invocations: when the
/// counterparty has applied one pass's updates, so that the next pass
/// starts from the previous pass's finalized height, the two passes'
/// updates concatenate into one strictly increasing, gap-free run of
/// heights starting just above the height first trusted.
pub proof fn lemma_client_updates_monotonic_across_invocations(
    o1: ObservationView,
    o2: ObservationView,
    k: int,
)
    requires
        o1.wf(),
        o2.wf(),
        o1.counterparty_tracked_height <= o1.self_height,
        o2.counterparty_tracked_height == o1.self_height,
        0 <= k < spec_client_updates(o1).len() + spec_client_updates(o2).len(),
    ensures
        (spec_client_updates(o1) + spec_client_updates(o2))[k] is ClientUpdate,
        (spec_client_updates(o1) + spec_client_updates(o2))[k]->ClientUpdate_header.height
            == o1.counterparty_tracked_height + 1 + k,
{
    let first = spec_client_updates(o1);
    let second = spec_client_updates(o2);
    if k < first.len() {
        assert(o1.headers[k].height == o1.counterparty_tracked_height + 1 + k);
    } else {
        let j = k - first.len();
        assert(o2.headers[j].height == o2.counterparty_tracked_height + 1 + j);
        assert(first.len() == o1.self_height - o1.counterparty_tracked_height);
    }
}

/// Handshake convergence for connections: along the scripted progression
/// `(Absent,Absent) -> (Init,Absent) -> (TryOpen,Init) -> (Open,TryOpen)
/// -> (Open,Open)`, the transition table emits exactly `ConnOpenTry`, then
/// `ConnOpenAck`, then `ConnOpenConfirm`, and nothing before the handshake
/// starts or once both ends are open.
pub proof fn lemma_handshake_convergence(
    p: ConnectionPairView,
    client_identifier: Seq<u8>,
    counterparty_client_identifier: Seq<u8>,
    proof_height: u64,
)
    ensures
        p.local.state == ConnectionState::Absent && p.remote.state == ConnectionState::Absent
            ==> spec_connection_datagram(
            p,
            client_identifier,
            counterparty_client_identifier,
            proof_height,
        ) is None,
        p.local.state == ConnectionState::Init && p.remote.state == ConnectionState::Absent
            ==> (spec_connection_datagram(
            p,
            client_identifier,
            counterparty_client_identifier,
            proof_height,
        ) matches Some(d) && d is ConnOpenTry),
        p.local.state == ConnectionState::TryOpen && p.remote.state == ConnectionState::Init
            ==> (spec_connection_datagram(
            p,
            client_identifier,
            counterparty_client_identifier,
            proof_height,
        ) matches Some(d) && d is ConnOpenAck),
        p.local.state == ConnectionState::Open && p.remote.state == ConnectionState::TryOpen
            ==> (spec_connection_datagram(
            p,
            client_identifier,
            counterparty_client_identifier,
            proof_height,
        ) matches Some(d) && d is ConnOpenConfirm),
        p.local.state == ConnectionState::Open && p.remote.state == ConnectionState::Open
            ==> spec_connection_datagram(
            p,
            client_identifier,
            counterparty_client_identifier,
            proof_height,
        ) is None,
{
}

/// Handshake convergence for channels: the channel lattice is isomorphic to
/// the connection lattice, with `ChanOpenTry`, `ChanOpenAck` and
/// `ChanOpenConfirm` in place of the connection datagrams.
pub proof fn lemma_channel_handshake_convergence(p: ChannelPairView, proof_height: u64)
    ensures
        p.local.state == ChannelState::Absent && p.remote.state == ChannelState::Absent
            ==> spec_channel_datagram(p, proof_height) is None,
        p.local.state == ChannelState::Init && p.remote.state == ChannelState::Absent
            ==> (spec_channel_datagram(p, proof_height) matches Some(d) && d is ChanOpenTry),
        p.local.state == ChannelState::TryOpen && p.remote.state == ChannelState::Init
            ==> (spec_channel_datagram(p, proof_height) matches Some(d) && d is ChanOpenAck),
        p.local.state == ChannelState::Open && p.remote.state == ChannelState::TryOpen
            ==> (spec_channel_datagram(p, proof_height) matches Some(d) && d is ChanOpenConfirm),
        p.local.state == ChannelState::Open && p.remote.state == ChannelState::Open
            ==> spec_channel_datagram(p, proof_height) is None,
{
}

/// If the transition table is silent for every connection in the list, the
/// whole list contributes nothing.
proof fn lemma_connection_datagrams_all_none(
    pairs: Seq<ConnectionPairView>,
    client_identifier: Seq<u8>,
    counterparty_client_identifier: Seq<u8>,
    proof_height: u64,
)
    requires
        forall|i: int|
            0 <= i < pairs.len() ==> spec_connection_datagram(
                #[trigger] pairs[i],
                client_identifier,
                counterparty_client_identifier,
                proof_height,
            ) is None,
    ensures
        spec_connection_datagrams(
            pairs,
            client_identifier,
            counterparty_client_identifier,
            proof_height,
        ) == Seq::<DatagramView>::empty(),
    decreases pairs.len(),
{
    if pairs.len() > 0 {
        assert forall|i: int| 0 <= i < pairs.drop_last().len() implies spec_connection_datagram(
            #[trigger] pairs.drop_last()[i],
            client_identifier,
            counterparty_client_identifier,
            proof_height,
        ) is None by {
            assert(pairs.drop_last()[i] == pairs[i]);
        }
        lemma_connection_datagrams_all_none(
            pairs.drop_last(),
            client_identifier,
            counterparty_client_identifier,
            proof_height,
        );
        assert(pairs.last() == pairs[pairs.len() - 1]);
        assert(spec_connection_datagrams(
            pairs,
            client_identifier,
            counterparty_client_identifier,
            proof_height,
        ) =~= Seq::<DatagramView>::empty());
    }
}

/// If the transition table is silent for every channel in the list, the
/// whole list contributes nothing.
proof fn lemma_channel_datagrams_all_none(pairs: Seq<ChannelPairView>, proof_height: u64)
    requires
        forall|i: int|
            0 <= i < pairs.len() ==> spec_channel_datagram(#[trigger] pairs[i], proof_height)
                is None,
    ensures
        spec_channel_datagrams(pairs, proof_height) == Seq::<DatagramView>::empty(),
    decreases pairs.len(),
{
    if pairs.len() > 0 {
        assert forall|i: int| 0 <= i < pairs.drop_last().len() implies spec_channel_datagram(
            #[trigger] pairs.drop_last()[i],
            proof_height,
        ) is None by {
            assert(pairs.drop_last()[i] == pairs[i]);
        }
        lemma_channel_datagrams_all_none(pairs.drop_last(), proof_height);
        assert(pairs.last() == pairs[pairs.len() - 1]);
        assert(spec_channel_datagrams(pairs, proof_height) =~= Seq::<DatagramView>::empty());
    }
}

/// No datagram when converged: if the counterparty's client is already
/// current and both ends of every connection and channel are `Open`, one
/// comparator pass emits the empty list.
pub proof fn lemma_no_datagram_when_converged(o: ObservationView)
    requires
        o.wf(),
        o.counterparty_tracked_height == o.self_height,
        forall|i: int|
            0 <= i < o.connections.len() ==> (#[trigger] o.connections[i]).local.state
                == ConnectionState::Open,
        forall|i: int|
            0 <= i < o.connections.len() ==> (#[trigger] o.connections[i]).remote.state
                == ConnectionState::Open,
        forall|i: int|
            0 <= i < o.channels.len() ==> (#[trigger] o.channels[i]).local.state
                == ChannelState::Open,
        forall|i: int|
            0 <= i < o.channels.len() ==> (#[trigger] o.channels[i]).remote.state
                == ChannelState::Open,
    ensures
        spec_compare(o) == Seq::<DatagramView>::empty(),
{
    assert(spec_client_updates(o) =~= Seq::<DatagramView>::empty());
    assert forall|i: int| 0 <= i < o.connections.len() implies spec_connection_datagram(
        #[trigger] o.connections[i],
        o.client.identifier,
        o.counterparty_client_identifier,
        o.self_height,
    ) is None by {
        assert(o.connections[i].local.state == ConnectionState::Open);
        assert(o.connections[i].remote.state == ConnectionState::Open);
    }
    lemma_connection_datagrams_all_none(
        o.connections,
        o.client.identifier,
        o.counterparty_client_identifier,
        o.self_height,
    );
    assert forall|i: int| 0 <= i < o.channels.len() implies spec_channel_datagram(
        #[trigger] o.channels[i],
        o.self_height,
    ) is None by {
        assert(o.channels[i].local.state == ChannelState::Open);
        assert(o.channels[i].remote.state == ChannelState::Open);
    }
    lemma_channel_datagrams_all_none(o.channels, o.self_height);
    assert(spec_compare(o) =~= Seq::<DatagramView>::empty());
}

} // verus!
