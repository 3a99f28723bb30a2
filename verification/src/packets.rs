//! The packet event processor: turns the packet-lifecycle events of one
//! finalized block into relay datagrams for the counterparty.
//!
//! A `SendPacket` event becomes a `PacketRecv` datagram for the destination
//! chain; a `RecvPacket` event becomes a `PacketAcknowledgement` datagram for
//! the original source chain.  Events are processed in emission order, which
//! preserves packet sequence order on ordered channels.  The timeout height
//! is carried through unmodified: rejecting expired packets is the
//! destination chain's job.

use vstd::prelude::*;

use crate::model::clone_bytes;
use crate::model::clone_proof;
use crate::model::{Datagram, DatagramView, Event, EventView, Packet, PacketView, Proof, ProofView};

verus! {

/// One event together with the proof fetched for it: the proof of the
/// packet commitment for a `SendPacket`, the proof of the stored
/// acknowledgement for a `RecvPacket`.
#[derive(Debug, Clone, PartialEq, Eq)]
pub struct EventWithProof {
    /// The decoded event.
    pub event: Event,
    /// The proof fetched for it at the block's height.
    pub proof: Proof,
}

/// Ghost counterpart of [`EventWithProof`].
pub ghost struct EventWithProofView {
    /// The decoded event.
    pub event: EventView,
    /// The proof fetched for it.
    pub proof: ProofView,
}

impl DeepView for EventWithProof {
    type V = EventWithProofView;

    open spec fn deep_view(&self) -> EventWithProofView {
        EventWithProofView { event: self.event.deep_view(), proof: self.proof.deep_view() }
    }
}

/// The packet carried by a packet-lifecycle event; meaningless for other
/// events.
pub open spec fn spec_event_packet(e: EventView) -> PacketView {
    match e {
        EventView::SendPacket {
            sequence,
            data,
            timeout_height,
            source_port,
            source_channel,
            dest_port,
            dest_channel,
        } => PacketView {
            sequence,
            timeout_height,
            source_port,
            source_channel,
            dest_port,
            dest_channel,
            data,
        },
        EventView::RecvPacket {
            sequence,
            data,
            timeout_height,
            source_port,
            source_channel,
            dest_port,
            dest_channel,
            acknowledgement: _,
        } => PacketView {
            sequence,
            timeout_height,
            source_port,
            source_channel,
            dest_port,
            dest_channel,
            data,
        },
        EventView::Other => PacketView {
            sequence: 0,
            timeout_height: 0,
            source_port: Seq::empty(),
            source_channel: Seq::empty(),
            dest_port: Seq::empty(),
            dest_channel: Seq::empty(),
            data: Seq::empty(),
        },
    }
}

/// What one event makes the relayer emit: a `PacketRecv` for a sent packet,
/// a `PacketAcknowledgement` for a received one, nothing otherwise.  The
/// proof height is the height of the block the event occurred in.
pub open spec fn spec_packet_datagram(e: EventView, proof: ProofView, proof_height: u64) -> Option<
    DatagramView,
> {
    match e {
        EventView::SendPacket { .. } => Some(
            DatagramView::PacketRecv { packet: spec_event_packet(e), proof, proof_height },
        ),
        EventView::RecvPacket { acknowledgement, .. } => Some(
            DatagramView::PacketAcknowledgement {
                packet: spec_event_packet(e),
                acknowledgement,
                proof,
                proof_height,
            },
        ),
        EventView::Other => None,
    }
}

/// The datagrams emitted for one block's events, in emission order.
pub open spec fn spec_packet_datagrams(
    items: Seq<EventWithProofView>,
    proof_height: u64,
) -> Seq<DatagramView>
    decreases items.len(),
{
    if items.len() == 0 {
        Seq::empty()
    } else {
        spec_packet_datagrams(items.drop_last(), proof_height)
            + crate::comparator::opt_seq(
            spec_packet_datagram(items.last().event, items.last().proof, proof_height),
        )
    }
}

/// Whether an event is one the relayer acts on, so that a caller fetches a
/// proof only for those.
pub fn is_packet_event(e: &Event) -> (r: bool)
    ensures
        r == !(e.deep_view() is Other),
{
    match e {
        Event::SendPacket { .. } => true,
        Event::RecvPacket { .. } => true,
        Event::Other => false,
    }
}

/// Turns one event and its proof into the datagram owed to the
/// counterparty, if any.
pub fn packet_datagram(e: &Event, proof: Proof, proof_height: u64) -> (r: Option<Datagram>)
    ensures
        r.deep_view() == spec_packet_datagram(e.deep_view(), proof.deep_view(), proof_height),
{
    match e {
        Event::SendPacket {
            sequence,
            data,
            timeout_height,
            source_port,
            source_channel,
            dest_port,
            dest_channel,
        } => {
            let packet = Packet {
                sequence: *sequence,
                timeout_height: *timeout_height,
                source_port: clone_bytes(source_port),
                source_channel: clone_bytes(source_channel),
                dest_port: clone_bytes(dest_port),
                dest_channel: clone_bytes(dest_channel),
                data: clone_bytes(data),
            };
            Some(Datagram::PacketRecv { packet, proof, proof_height })
        },
        Event::RecvPacket {
            sequence,
            data,
            timeout_height,
            source_port,
            source_channel,
            dest_port,
            dest_channel,
            acknowledgement,
        } => {
            let packet = Packet {
                sequence: *sequence,
                timeout_height: *timeout_height,
                source_port: clone_bytes(source_port),
                source_channel: clone_bytes(source_channel),
                dest_port: clone_bytes(dest_port),
                dest_channel: clone_bytes(dest_channel),
                data: clone_bytes(data),
            };
            Some(
                Datagram::PacketAcknowledgement {
                    packet,
                    acknowledgement: clone_bytes(acknowledgement),
                    proof,
                    proof_height,
                },
            )
        },
        Event::Other => None,
    }
}

/// Unfolds one step of [`spec_packet_datagrams`] along a prefix.
proof fn lemma_packet_datagrams_step(items: Seq<EventWithProofView>, proof_height: u64, i: int)
    requires
        0 <= i < items.len(),
    ensures
        spec_packet_datagrams(items.take(i + 1), proof_height) == spec_packet_datagrams(
            items.take(i),
            proof_height,
        ) + crate::comparator::opt_seq(
            spec_packet_datagram(items[i].event, items[i].proof, proof_height),
        ),
{
    let t = items.take(i + 1);
    assert(t.drop_last() =~= items.take(i));
    assert(t.last() == items[i]);
}

/// Processes one block's events in emission order, emitting the packet
/// datagrams owed to the counterparty.  `proof_height` is the height of the
/// block the events occurred in.
pub fn process_events(items: &Vec<EventWithProof>, proof_height: u64) -> (r: Vec<Datagram>)
    ensures
        r.deep_view() == spec_packet_datagrams(items.deep_view(), proof_height),
{
    let mut r: Vec<Datagram> = Vec::new();
    let mut i: usize = 0;
    proof {
        assert(items.deep_view().take(0) =~= Seq::<EventWithProofView>::empty());
        assert(r.deep_view() =~= Seq::<DatagramView>::empty());
    }
    while i < items.len()
        invariant
            i <= items@.len(),
            r.deep_view() == spec_packet_datagrams(items.deep_view().take(i as int), proof_height),
        decreases items@.len() - i,
    {
        let ghost pre = r.deep_view();
        let ghost single = spec_packet_datagram(
            items.deep_view()[i as int].event,
            items.deep_view()[i as int].proof,
            proof_height,
        );
        let item = &items[i];
        let d = packet_datagram(&item.event, clone_proof(&item.proof), proof_height);
        match d {
            Some(d) => {
                r.push(d);
                proof {
                    assert(r.deep_view() =~= pre + crate::comparator::opt_seq(single));
                }
            },
            None => {
                proof {
                    assert(r.deep_view() =~= pre + crate::comparator::opt_seq(single));
                }
            },
        }
        proof {
            lemma_packet_datagrams_step(items.deep_view(), proof_height, i as int);
        }
        i = i + 1;
    }
    proof {
        assert(items.deep_view().take(items@.len() as int) =~= items.deep_view());
    }
    r
}

} // verus!
