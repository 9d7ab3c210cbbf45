use srt_ingest::connection::ConnectionState;
use srt_ingest::handshake::{HandshakeEngine, HandshakeFailure, HandshakePhase};
use srt_ingest::packet::{
    Ack, ControlPacketInfo, DataEncryption, DataPacketInfo, Handshake, HandshakeType, Nak, Packet,
    PacketContent, PacketPosition, StreamIdExtension, HANDSHAKE_MAGIC_CODE,
};

fn handshake_packet(h: Handshake, timestamp: u32) -> Packet {
    Packet {
        timestamp,
        dest_socket_id: 0,
        content: PacketContent::Control(ControlPacketInfo::Handshake(h)),
    }
}

fn induction_request() -> Handshake {
    Handshake {
        version: 4,
        encryption_field: 11,
        extension_field: 22,
        initial_packet_sequence_number: 33,
        mtu: 1500,
        max_flow_window_size: 8192,
        handshake_type: HandshakeType::Induction,
        srt_socket_id: 777,
        syn_cookie: 0,
        peer_ip_address: vec![10, 0, 0, 1, 0, 0, 0, 0, 0, 0, 0, 0, 0, 0, 0, 0],
        stream_id_extension: None,
    }
}

fn data_packet(seq: u32, message_number: u32) -> Packet {
    Packet {
        timestamp: seq,
        dest_socket_id: 42,
        content: PacketContent::Data(DataPacketInfo {
            packet_sequence_number: seq,
            position: PacketPosition::Only,
            order: false,
            encryption: DataEncryption::Plain,
            retransmitted: false,
            message_number,
            content: vec![0x47, 0x00],
        }),
    }
}

#[test]
fn test_induction_reply_forces_version_and_magic() {
    let mut engine = HandshakeEngine::new(42, 42);
    let request = induction_request();
    let (reply, session) = engine
        .handle(&handshake_packet(request.clone(), 10), 1000)
        .unwrap();
    assert!(session.is_none());
    assert_eq!(engine.phase, HandshakePhase::AwaitingConversion);
    assert_eq!(reply.timestamp, 11);
    assert_eq!(reply.dest_socket_id, 777);
    match reply.content {
        PacketContent::Control(ControlPacketInfo::Handshake(h)) => {
            assert_eq!(h.version, 5);
            assert_eq!(h.extension_field, HANDSHAKE_MAGIC_CODE);
            assert_eq!(h.srt_socket_id, 42);
            assert_eq!(h.syn_cookie, 42);
            // Every other field echoes the request.
            assert_eq!(h.encryption_field, request.encryption_field);
            assert_eq!(
                h.initial_packet_sequence_number,
                request.initial_packet_sequence_number
            );
            assert_eq!(h.mtu, request.mtu);
            assert_eq!(h.max_flow_window_size, request.max_flow_window_size);
            assert_eq!(h.handshake_type, request.handshake_type);
            assert_eq!(h.peer_ip_address, request.peer_ip_address);
            assert_eq!(h.stream_id_extension, request.stream_id_extension);
        }
        other => panic!("expected a handshake reply, got {other:?}"),
    }
}

#[test]
fn test_conversion_reply_echoes_and_establishes() {
    let mut engine = HandshakeEngine::new(42, 42);
    engine
        .handle(&handshake_packet(induction_request(), 10), 1000)
        .unwrap();

    let mut conversion = induction_request();
    conversion.handshake_type = HandshakeType::Conversion;
    conversion.srt_socket_id = 888;
    conversion.stream_id_extension = Some(StreamIdExtension {
        stream_id: b"live/stream-1".to_vec(),
    });
    let packet = handshake_packet(conversion.clone(), 20);
    let (reply, session) = engine.handle(&packet, 2000).unwrap();
    assert_eq!(engine.phase, HandshakePhase::Established);
    assert_eq!(reply.timestamp, 21);
    assert_eq!(reply.dest_socket_id, 888);
    assert_eq!(
        reply.content,
        PacketContent::Control(ControlPacketInfo::Handshake(conversion))
    );
    let session = session.unwrap();
    assert_eq!(session.established, 2000);
    assert_eq!(session.peer_srt_socket_id, 888);
    assert_eq!(session.stream_id, Some(b"live/stream-1".to_vec()));
    assert_eq!(session.ack_counter, 1);
    assert_eq!(session.received_since_ack, 0);
}

#[test]
fn test_handshake_failure_on_wrong_packet() {
    let mut engine = HandshakeEngine::new(42, 42);
    assert_eq!(
        engine.handle(&data_packet(1, 5), 0),
        Err(HandshakeFailure)
    );
    // A conversion handshake while waiting for induction fails too.
    let mut conversion = induction_request();
    conversion.handshake_type = HandshakeType::Conversion;
    assert_eq!(
        engine.handle(&handshake_packet(conversion, 0), 0),
        Err(HandshakeFailure)
    );
    assert_eq!(engine.phase, HandshakePhase::AwaitingInduction);
}

fn count_replies(outcomes: &[(Vec<Packet>, Option<Vec<u8>>)]) -> (usize, usize, Vec<Nak>, Vec<Ack>) {
    let mut naks = Vec::new();
    let mut acks = Vec::new();
    for (replies, _) in outcomes {
        for reply in replies {
            match &reply.content {
                PacketContent::Control(ControlPacketInfo::Nak(n)) => naks.push(*n),
                PacketContent::Control(ControlPacketInfo::Ack(a)) => acks.push(*a),
                other => panic!("unexpected reply {other:?}"),
            }
        }
    }
    (naks.len(), acks.len(), naks, acks)
}

fn feed(conn: &mut ConnectionState, packets: &[Packet]) -> Vec<(Vec<Packet>, Option<Vec<u8>>)> {
    let mut outcomes = Vec::new();
    for (i, p) in packets.iter().enumerate() {
        let outcome = conn.handle(p, 1000 + i as u64);
        outcomes.push((outcome.replies, outcome.payload));
    }
    outcomes
}

#[test]
fn test_loss_detection_gap_yields_one_nak() {
    let mut conn = ConnectionState::new(None, 0, 42);
    let packets = vec![data_packet(1, 5), data_packet(2, 5), data_packet(4, 5)];
    let outcomes = feed(&mut conn, &packets);
    let (n_naks, n_acks, naks, _) = count_replies(&outcomes);
    assert_eq!(n_naks, 1);
    assert_eq!(n_acks, 0);
    assert_eq!(naks[0], Nak { lost_packet: 3 });
    assert_eq!(conn.last_received_sequence, 4);
}

#[test]
fn test_loss_detection_resynchronization_yields_no_nak() {
    let mut conn = ConnectionState::new(None, 0, 42);
    let packets = vec![data_packet(1, 5), data_packet(2, 5), data_packet(4, 1)];
    let outcomes = feed(&mut conn, &packets);
    let (n_naks, n_acks, _, _) = count_replies(&outcomes);
    assert_eq!(n_naks, 0);
    assert_eq!(n_acks, 0);
    assert_eq!(conn.last_received_sequence, 4);
}

#[test]
fn test_ack_cadence_sixty_packets_one_ack() {
    let mut conn = ConnectionState::new(None, 0, 42);
    let packets: Vec<Packet> = (1..=60).map(|seq| data_packet(seq, 5)).collect();
    let outcomes = feed(&mut conn, &packets);
    // No ack before the sixtieth packet.
    for (replies, _) in &outcomes[..59] {
        assert!(replies.is_empty());
    }
    // Exactly one ack, after the sixtieth, and the counter is back at 0.
    let (n_naks, n_acks, _, acks) = count_replies(&outcomes);
    assert_eq!(n_naks, 0);
    assert_eq!(n_acks, 1);
    assert_eq!(outcomes[59].0.len(), 1);
    assert_eq!(conn.received_since_ack, 0);
    assert_eq!(conn.ack_counter, 2);
    assert_eq!(
        acks[0],
        Ack::Small {
            last_ackd_packet_sequence_number: 61,
            rtt: 1_000_000,
            rtt_variance: 100,
            available_buffer_size: 1,
        }
    );
}

#[test]
fn test_rtt_updated_only_by_ackack() {
    let mut conn = ConnectionState::new(None, 0, 42);
    conn.received_since_ack = 59;
    conn.last_received_sequence = 7;

    // The ack goes out at time 5000...
    let t: u64 = 5000;
    let outcome = conn.handle(&data_packet(8, 5), t);
    assert_eq!(outcome.replies.len(), 1);
    assert_eq!(conn.last_ack_timestamp, t);

    // ...and the matching ack-of-ack arrives 123 microseconds later.
    let ackack = Packet {
        timestamp: 0,
        dest_socket_id: 0,
        content: PacketContent::Control(ControlPacketInfo::AckAck(1)),
    };
    let outcome = conn.handle(&ackack, t + 123);
    assert!(outcome.replies.is_empty());
    assert_eq!(conn.rtt_estimate, 123);

    // Other control packets leave the estimate alone.
    let shutdown = Packet {
        timestamp: 0,
        dest_socket_id: 0,
        content: PacketContent::Control(ControlPacketInfo::Shutdown),
    };
    conn.handle(&shutdown, t + 200);
    assert_eq!(conn.rtt_estimate, 123);
}

#[test]
fn test_keepalive_is_echoed() {
    let mut conn = ConnectionState::new(None, 1000, 42);
    let keepalive = Packet {
        timestamp: 0,
        dest_socket_id: 0,
        content: PacketContent::Control(ControlPacketInfo::KeepAlive),
    };
    let outcome = conn.handle(&keepalive, 1500);
    assert_eq!(outcome.replies.len(), 1);
    assert_eq!(outcome.replies[0].timestamp, 500);
    assert_eq!(outcome.replies[0].dest_socket_id, 42);
    assert_eq!(
        outcome.replies[0].content,
        PacketContent::Control(ControlPacketInfo::KeepAlive)
    );
    assert!(outcome.payload.is_none());
}

#[test]
fn test_payload_is_delivered_unchanged() {
    let mut conn = ConnectionState::new(None, 0, 42);
    let outcome = conn.handle(&data_packet(1, 5), 10);
    assert_eq!(outcome.payload, Some(vec![0x47, 0x00]));
}

#[test]
fn test_end_to_end_session() {
    // Two-packet handshake exchange.
    let mut engine = HandshakeEngine::new(42, 42);
    let induction = handshake_packet(induction_request(), 10);
    let induction_bytes = induction.to_raw();
    let received = Packet::from_raw(&induction_bytes).unwrap();
    engine.handle(&received, 1000).unwrap();

    let mut conversion = induction_request();
    conversion.handshake_type = HandshakeType::Conversion;
    conversion.srt_socket_id = 888;
    let conversion_bytes = handshake_packet(conversion, 20).to_raw();
    let received = Packet::from_raw(&conversion_bytes).unwrap();
    let (_, session) = engine.handle(&received, 2000).unwrap();
    let mut conn = session.unwrap();

    // Sixty-one data packets, with sequence 30 skipped.
    let sequences: Vec<u32> = (1..=29).chain(31..=62).collect();
    assert_eq!(sequences.len(), 61);
    let packets: Vec<Packet> = sequences.iter().map(|&seq| data_packet(seq, 5)).collect();
    let outcomes = feed(&mut conn, &packets);
    let (n_naks, n_acks, naks, acks) = count_replies(&outcomes);

    // One loss report, for the skipped sequence number.
    assert_eq!(n_naks, 1);
    assert_eq!(naks[0], Nak { lost_packet: 30 });

    // One ack, after the sixtieth processed packet.
    assert_eq!(n_acks, 1);
    let (replies_60, _) = &outcomes[59];
    assert!(replies_60
        .iter()
        .any(|p| matches!(p.content, PacketContent::Control(ControlPacketInfo::Ack(_)))));
    assert_eq!(
        acks[0],
        Ack::Small {
            last_ackd_packet_sequence_number: 62,
            rtt: 1_000_000,
            rtt_variance: 100,
            available_buffer_size: 1,
        }
    );
    assert_eq!(conn.received_since_ack, 1);
}

#[test]
fn test_pack_stamps_session_time() {
    let conn = ConnectionState::new(None, 1_000_000, 99);
    let p = conn.pack(ControlPacketInfo::KeepAlive, 1_000_750);
    assert_eq!(p.timestamp, 750);
    assert_eq!(p.dest_socket_id, 99);
}

#[test]
fn test_check_ack_and_inc_ack() {
    let mut conn = ConnectionState::new(None, 0, 1);
    for _ in 0..59 {
        assert!(!conn.check_ack());
    }
    assert!(conn.check_ack());
    assert_eq!(conn.received_since_ack, 0);
    assert_eq!(conn.inc_ack(), 1);
    assert_eq!(conn.ack_counter, 2);
}

#[test]
fn test_playlist_text() {
    let playlist = srt_ingest::hls::mock_playlist();
    assert!(playlist.contains("#EXTM3U"));
    assert!(playlist.contains("#EXT-X-PLAYLIST-TYPE:EVENT"));
}
