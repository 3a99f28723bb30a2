use relayer::{
    channel_datagram, compare, connection_datagram, is_packet_event, process_events, ChannelEnd,
    ChannelKey, ChannelOrder, ChannelPair, ChannelState, ClientState, ConnectionEnd,
    ConnectionPair, ConnectionState, Datagram, Event, EventWithProof, Header, Observation, Proof,
};

fn mk_proof(tag: u8) -> Proof {
    Proof { nodes: vec![vec![tag]] }
}

fn header(height: u64) -> Header {
    Header {
        height,
        block_hash: vec![0x10],
        commitment_root: vec![0x20],
        justification: vec![0x30],
        authorities_proof: mk_proof(0x40),
    }
}

fn conn_end(state: ConnectionState) -> ConnectionEnd {
    ConnectionEnd {
        state,
        counterparty_connection_identifier: vec![0xBB],
        client_identifier: vec![0xC1],
        counterparty_client_identifier: vec![0xC2],
    }
}

fn conn_pair(local: ConnectionState, remote: ConnectionState) -> ConnectionPair {
    ConnectionPair {
        identifier: vec![0xAA],
        local: conn_end(local),
        remote: conn_end(remote),
        record_proof: mk_proof(1),
        consensus_proof: mk_proof(2),
    }
}

fn chan_end(state: ChannelState) -> ChannelEnd {
    ChannelEnd {
        state,
        ordering: ChannelOrder::Ordered,
        connection_hops: vec![vec![0xAA]],
        counterparty_port_identifier: b"transfer".to_vec(),
        counterparty_channel_identifier: vec![0xCC],
        version: b"ics20".to_vec(),
    }
}

fn chan_pair(local: ChannelState, remote: ChannelState) -> ChannelPair {
    ChannelPair {
        key: ChannelKey {
            port_identifier: b"transfer".to_vec(),
            channel_identifier: vec![0xCD],
        },
        local: chan_end(local),
        remote: chan_end(remote),
        counterparty_connection_identifier: vec![0xBB],
        record_proof: mk_proof(3),
    }
}

fn observation(
    self_height: u64,
    known_height: u64,
    connections: Vec<ConnectionPair>,
    channels: Vec<ChannelPair>,
) -> Observation {
    let headers: Vec<Header> = (known_height + 1..=self_height).map(header).collect();
    let client = ClientState {
        identifier: vec![0xC1],
        latest_height: 40,
        connections: connections.iter().map(|c| c.identifier.clone()).collect(),
        channels: channels.iter().map(|c| c.key.clone()).collect(),
    };
    Observation {
        self_height,
        client,
        counterparty_client_identifier: vec![0xC2],
        counterparty_tracked_height: known_height,
        headers,
        connections,
        channels,
    }
}

#[test]
fn comparator_is_idempotent() {
    let o = observation(
        8,
        5,
        vec![conn_pair(ConnectionState::Init, ConnectionState::Absent)],
        vec![chan_pair(ChannelState::TryOpen, ChannelState::Init)],
    );
    assert!(o.is_coherent());
    let first = compare(&o);
    let second = compare(&o);
    assert_eq!(first, second);
    assert_eq!(first.len(), 5);
}

#[test]
fn client_updates_have_consecutive_heights() {
    let o = observation(8, 5, vec![], vec![]);
    assert!(o.is_coherent());
    let out = compare(&o);
    assert_eq!(out.len(), 3);
    let mut expected_height = 6;
    for d in &out {
        match d {
            Datagram::ClientUpdate { identifier, header } => {
                assert_eq!(identifier, &vec![0xC2]);
                assert_eq!(header.height, expected_height);
            }
            other => panic!("expected a client update, got {:?}", other),
        }
        expected_height += 1;
    }
}

#[test]
fn no_update_when_counterparty_is_current() {
    let o = observation(8, 8, vec![], vec![]);
    assert!(o.is_coherent());
    assert_eq!(compare(&o), vec![]);
}

#[test]
fn connection_handshake_converges() {
    let steps = [
        (ConnectionState::Absent, ConnectionState::Absent),
        (ConnectionState::Init, ConnectionState::Absent),
        (ConnectionState::TryOpen, ConnectionState::Init),
        (ConnectionState::Open, ConnectionState::TryOpen),
        (ConnectionState::Open, ConnectionState::Open),
    ];
    let mut emitted = Vec::new();
    for (local, remote) in steps {
        let o = observation(8, 8, vec![conn_pair(local, remote)], vec![]);
        assert!(o.is_coherent());
        let out = compare(&o);
        assert!(out.len() <= 1);
        emitted.extend(out);
    }
    assert_eq!(emitted.len(), 3);
    assert!(matches!(emitted[0], Datagram::ConnOpenTry { .. }));
    assert!(matches!(emitted[1], Datagram::ConnOpenAck { .. }));
    assert!(matches!(emitted[2], Datagram::ConnOpenConfirm { .. }));
}

#[test]
fn conn_open_try_carries_proofs_and_identifiers() {
    let pair = conn_pair(ConnectionState::Init, ConnectionState::Absent);
    let out = connection_datagram(&pair, &vec![0xC1], &vec![0xC2], 8);
    match out {
        Some(Datagram::ConnOpenTry {
            desired_identifier,
            counterparty_connection_identifier,
            counterparty_client_identifier,
            client_identifier,
            version,
            counterparty_version,
            proof_init,
            proof_consensus,
            proof_height,
            consensus_height,
        }) => {
            assert_eq!(desired_identifier, vec![0xBB]);
            assert_eq!(counterparty_connection_identifier, vec![0xAA]);
            assert_eq!(counterparty_client_identifier, vec![0xC1]);
            assert_eq!(client_identifier, vec![0xC2]);
            assert_eq!(version, Vec::<u8>::new());
            assert_eq!(counterparty_version, Vec::<u8>::new());
            assert_eq!(proof_init, mk_proof(1));
            assert_eq!(proof_consensus, mk_proof(2));
            assert_eq!(proof_height, 8);
            assert_eq!(consensus_height, 0);
        }
        other => panic!("expected a connection try, got {:?}", other),
    }
}

#[test]
fn channel_handshake_converges() {
    let steps = [
        (ChannelState::Absent, ChannelState::Absent),
        (ChannelState::Init, ChannelState::Absent),
        (ChannelState::TryOpen, ChannelState::Init),
        (ChannelState::Open, ChannelState::TryOpen),
        (ChannelState::Open, ChannelState::Open),
    ];
    let mut emitted = Vec::new();
    for (local, remote) in steps {
        let o = observation(8, 8, vec![], vec![chan_pair(local, remote)]);
        assert!(o.is_coherent());
        emitted.extend(compare(&o));
    }
    assert_eq!(emitted.len(), 3);
    assert!(matches!(emitted[0], Datagram::ChanOpenTry { .. }));
    assert!(matches!(emitted[1], Datagram::ChanOpenAck { .. }));
    assert!(matches!(emitted[2], Datagram::ChanOpenConfirm { .. }));
}

#[test]
fn chan_open_try_routes_over_counterparty_connection() {
    let pair = chan_pair(ChannelState::Init, ChannelState::Absent);
    let out = channel_datagram(&pair, 9);
    match out {
        Some(Datagram::ChanOpenTry {
            order,
            connection_hops,
            port_identifier,
            channel_identifier,
            counterparty_port_identifier,
            counterparty_channel_identifier,
            version,
            counterparty_version,
            proof_init,
            proof_height,
        }) => {
            assert_eq!(order, ChannelOrder::Ordered);
            assert_eq!(connection_hops, vec![vec![0xBB]]);
            assert_eq!(port_identifier, b"transfer".to_vec());
            assert_eq!(channel_identifier, vec![0xCC]);
            assert_eq!(counterparty_port_identifier, b"transfer".to_vec());
            assert_eq!(counterparty_channel_identifier, vec![0xCD]);
            assert_eq!(version, b"ics20".to_vec());
            assert_eq!(counterparty_version, b"ics20".to_vec());
            assert_eq!(proof_init, mk_proof(3));
            assert_eq!(proof_height, 9);
        }
        other => panic!("expected a channel try, got {:?}", other),
    }
}

#[test]
fn no_datagram_when_converged() {
    let o = observation(
        8,
        8,
        vec![conn_pair(ConnectionState::Open, ConnectionState::Open)],
        vec![chan_pair(ChannelState::Open, ChannelState::Open)],
    );
    assert!(o.is_coherent());
    assert_eq!(compare(&o), vec![]);
}

#[test]
fn incoherent_observations_are_rejected() {
    let mut o = observation(8, 5, vec![], vec![]);
    o.headers.pop();
    assert!(!o.is_coherent());

    let mut o = observation(8, 5, vec![], vec![]);
    o.headers[1].height = 9;
    assert!(!o.is_coherent());

    let mut o = observation(
        8,
        8,
        vec![conn_pair(ConnectionState::Open, ConnectionState::Open)],
        vec![],
    );
    o.connections[0].identifier = vec![0x99];
    assert!(!o.is_coherent());

    let mut o = observation(8, 8, vec![], vec![chan_pair(ChannelState::Open, ChannelState::Open)]);
    o.channels[0].key.channel_identifier = vec![0x99];
    assert!(!o.is_coherent());
}

fn send_packet_event(sequence: u64) -> Event {
    Event::SendPacket {
        sequence,
        data: vec![0xDA],
        timeout_height: 100,
        source_port: b"transfer".to_vec(),
        source_channel: vec![0xCD],
        dest_port: b"transfer".to_vec(),
        dest_channel: vec![0xCC],
    }
}

#[test]
fn send_packet_emits_exactly_one_recv_datagram() {
    let items = vec![EventWithProof { event: send_packet_event(7), proof: mk_proof(5) }];
    let out = process_events(&items, 12);
    assert_eq!(out.len(), 1);
    match &out[0] {
        Datagram::PacketRecv { packet, proof: p, proof_height } => {
            assert_eq!(packet.sequence, 7);
            assert_eq!(packet.timeout_height, 100);
            assert_eq!(packet.source_port, b"transfer".to_vec());
            assert_eq!(packet.data, vec![0xDA]);
            assert_eq!(p, &mk_proof(5));
            assert_eq!(*proof_height, 12);
        }
        other => panic!("expected a packet delivery, got {:?}", other),
    }
}

#[test]
fn recv_packet_emits_acknowledgement() {
    let event = Event::RecvPacket {
        sequence: 3,
        data: vec![0xDB],
        timeout_height: 50,
        source_port: b"transfer".to_vec(),
        source_channel: vec![0xCC],
        dest_port: b"transfer".to_vec(),
        dest_channel: vec![0xCD],
        acknowledgement: vec![0x01],
    };
    let items = vec![EventWithProof { event, proof: mk_proof(6) }];
    let out = process_events(&items, 13);
    assert_eq!(out.len(), 1);
    match &out[0] {
        Datagram::PacketAcknowledgement { packet, acknowledgement, proof: p, proof_height } => {
            assert_eq!(packet.sequence, 3);
            assert_eq!(acknowledgement, &vec![0x01]);
            assert_eq!(p, &mk_proof(6));
            assert_eq!(*proof_height, 13);
        }
        other => panic!("expected an acknowledgement, got {:?}", other),
    }
}

#[test]
fn events_are_processed_in_emission_order() {
    let items = vec![
        EventWithProof { event: send_packet_event(1), proof: mk_proof(7) },
        EventWithProof { event: Event::Other, proof: Proof { nodes: vec![] } },
        EventWithProof { event: send_packet_event(2), proof: mk_proof(8) },
    ];
    let out = process_events(&items, 20);
    assert_eq!(out.len(), 2);
    match (&out[0], &out[1]) {
        (
            Datagram::PacketRecv { packet: first, .. },
            Datagram::PacketRecv { packet: second, .. },
        ) => {
            assert_eq!(first.sequence, 1);
            assert_eq!(second.sequence, 2);
        }
        other => panic!("expected two packet deliveries, got {:?}", other),
    }
}

#[test]
fn only_packet_events_need_proofs() {
    assert!(is_packet_event(&send_packet_event(1)));
    assert!(!is_packet_event(&Event::Other));
}

#[test]
fn client_updates_stay_monotonic_across_invocations() {
    let first = observation(8, 5, vec![], vec![]);
    let second = observation(10, 8, vec![], vec![]);
    let mut heights = Vec::new();
    for d in compare(&first).into_iter().chain(compare(&second)) {
        match d {
            Datagram::ClientUpdate { header, .. } => heights.push(header.height),
            other => panic!("expected a client update, got {:?}", other),
        }
    }
    assert_eq!(heights, vec![6, 7, 8, 9, 10]);
}
