use srt_ingest::packet::{
    Ack, ControlPacketInfo, DataEncryption, DataPacketInfo, DecodeError, Handshake, HandshakeType,
    Nak, Packet, PacketContent, PacketPosition, StreamIdExtension,
};
use srt_ingest::control::ControlInformation;
use srt_ingest::serial::Serial;

fn round_trips(p: Packet) {
    let bytes = p.to_raw();
    assert_eq!(Packet::from_raw(&bytes), Ok(p));
}

fn sample_handshake() -> Handshake {
    Handshake {
        version: 4,
        encryption_field: 11,
        extension_field: 22,
        initial_packet_sequence_number: 33,
        mtu: 1500,
        max_flow_window_size: 8192,
        handshake_type: HandshakeType::Induction,
        srt_socket_id: 777,
        syn_cookie: 555,
        peer_ip_address: vec![10, 0, 0, 1, 0, 0, 0, 0, 0, 0, 0, 0, 0, 0, 0, 0],
        stream_id_extension: None,
    }
}

#[test]
fn test_round_trip_handshake() {
    round_trips(Packet {
        timestamp: 1,
        dest_socket_id: 2,
        content: PacketContent::Control(ControlPacketInfo::Handshake(sample_handshake())),
    });
}

#[test]
fn test_round_trip_handshake_with_stream_id() {
    let mut h = sample_handshake();
    h.handshake_type = HandshakeType::Conversion;
    h.stream_id_extension = Some(StreamIdExtension {
        stream_id: b"live/stream-1".to_vec(),
    });
    round_trips(Packet {
        timestamp: 99,
        dest_socket_id: 100,
        content: PacketContent::Control(ControlPacketInfo::Handshake(h)),
    });
}

#[test]
fn test_round_trip_keepalive_and_bare_controls() {
    for content in [
        ControlPacketInfo::KeepAlive,
        ControlPacketInfo::Shutdown,
        ControlPacketInfo::CongestionWarning,
        ControlPacketInfo::DropReq,
        ControlPacketInfo::PeerError,
        ControlPacketInfo::AckAck(12345),
        ControlPacketInfo::Nak(Nak { lost_packet: 30 }),
    ] {
        round_trips(Packet {
            timestamp: 7,
            dest_socket_id: 9,
            content: PacketContent::Control(content),
        });
    }
}

#[test]
fn test_round_trip_acks() {
    for ack in [
        Ack::Full {
            ack_number: 1,
            last_ackd_packet_sequence_number: 2,
            rtt: 3,
            rtt_variance: 4,
            available_buffer_size: 5,
            packets_receiving_rate: 6,
            estimated_link_capacity: 7,
            receiving_rate: 8,
        },
        Ack::Small {
            last_ackd_packet_sequence_number: 61,
            rtt: 1_000_000,
            rtt_variance: 100,
            available_buffer_size: 1,
        },
        Ack::Light {
            last_ackd_packet_sequence_number: 5,
        },
    ] {
        round_trips(Packet {
            timestamp: 0,
            dest_socket_id: u32::MAX,
            content: PacketContent::Control(ControlPacketInfo::Ack(ack)),
        });
    }
}

#[test]
fn test_round_trip_data() {
    for position in [
        PacketPosition::First,
        PacketPosition::Middle,
        PacketPosition::Last,
        PacketPosition::Only,
    ] {
        for encryption in [DataEncryption::Plain, DataEncryption::Even, DataEncryption::Odd] {
            round_trips(Packet {
                timestamp: 123,
                dest_socket_id: 42,
                content: PacketContent::Data(DataPacketInfo {
                    packet_sequence_number: 0x7FFF_FFFF,
                    position,
                    order: true,
                    encryption,
                    retransmitted: false,
                    message_number: 0x03FF_FFFF,
                    content: vec![1, 2, 3, 4],
                }),
            });
        }
    }
}

#[test]
fn test_exact_bytes_nak() {
    let p = Packet {
        timestamp: 1,
        dest_socket_id: 2,
        content: PacketContent::Control(ControlPacketInfo::Nak(Nak { lost_packet: 3 })),
    };
    assert_eq!(
        p.to_raw(),
        vec![
            0x80, 0x03, 0x00, 0x00, // control flag, type 3 (loss report), subtype 0
            0x00, 0x00, 0x00, 0x00, // info word
            0x00, 0x00, 0x00, 0x01, // timestamp
            0x00, 0x00, 0x00, 0x02, // destination socket id
            0x00, 0x00, 0x00, 0x03, // lost sequence number
        ]
    );
}

#[test]
fn test_exact_bytes_data() {
    let p = Packet {
        timestamp: 7,
        dest_socket_id: 9,
        content: PacketContent::Data(DataPacketInfo {
            packet_sequence_number: 5,
            position: PacketPosition::Only,
            order: true,
            encryption: DataEncryption::Even,
            retransmitted: false,
            message_number: 3,
            content: vec![0x01, 0x02],
        }),
    };
    assert_eq!(
        p.to_raw(),
        vec![
            0x00, 0x00, 0x00, 0x05, // sequence number, control flag clear
            0xD8, 0x00, 0x00, 0x03, // position 11, encryption 01, order 1, message 3
            0x00, 0x00, 0x00, 0x07, // timestamp
            0x00, 0x00, 0x00, 0x09, // destination socket id
            0x01, 0x02, // payload
        ]
    );
}

#[test]
fn test_decode_too_short() {
    assert_eq!(
        Packet::from_raw(&[0x80, 0x00, 0x00]),
        Err(DecodeError::MalformedPacket)
    );
    assert_eq!(Packet::from_raw(&[]), Err(DecodeError::MalformedPacket));
    let fifteen = [0u8; 15];
    assert_eq!(
        Packet::from_raw(&fifteen),
        Err(DecodeError::MalformedPacket)
    );
}

#[test]
fn test_decode_unknown_control_type() {
    let raw = [
        0x80, 0x99, 0x00, 0x00, 0x00, 0x00, 0x00, 0x00, 0x00, 0x00, 0x00, 0x00, 0x00, 0x00, 0x00,
        0x00,
    ];
    assert_eq!(Packet::from_raw(&raw), Err(DecodeError::UnknownControlType));
}

#[test]
fn test_decode_bad_ack_length() {
    // An ack whose body is 8 bytes matches none of the three ack sizes.
    let mut raw = vec![
        0x80, 0x02, 0x00, 0x00, 0x00, 0x00, 0x00, 0x00, 0x00, 0x00, 0x00, 0x00, 0x00, 0x00, 0x00,
        0x00,
    ];
    raw.extend_from_slice(&[0u8; 8]);
    assert_eq!(Packet::from_raw(&raw), Err(DecodeError::MalformedPacket));
}

#[test]
fn test_decode_bad_encryption_bits() {
    // A data packet whose encryption bits are 11 is rejected, not guessed.
    let raw = [
        0x00, 0x00, 0x00, 0x05, 0x30, 0x00, 0x00, 0x03, 0x00, 0x00, 0x00, 0x07, 0x00, 0x00, 0x00,
        0x09,
    ];
    assert_eq!(Packet::from_raw(&raw), Err(DecodeError::MalformedPacket));
}

#[test]
fn test_decode_bad_handshake_version_word() {
    let mut h = sample_handshake();
    h.stream_id_extension = None;
    let p = Packet {
        timestamp: 0,
        dest_socket_id: 0,
        content: PacketContent::Control(ControlPacketInfo::Handshake(h)),
    };
    let mut raw = p.to_raw();
    // Overwrite the version word with a value that does not fit a byte.
    raw[16] = 0xFF;
    assert_eq!(Packet::from_raw(&raw), Err(DecodeError::MalformedPacket));
}

#[test]
fn test_decode_skips_unknown_extension_blocks() {
    let mut h = sample_handshake();
    h.handshake_type = HandshakeType::Conversion;
    h.stream_id_extension = None;
    let p = Packet {
        timestamp: 0,
        dest_socket_id: 0,
        content: PacketContent::Control(ControlPacketInfo::Handshake(h.clone())),
    };
    let mut raw = p.to_raw();
    // Append an unknown extension block, then a stream-id block.
    raw.extend_from_slice(&[0x00, 0x09, 0x00, 0x02, 0xAA, 0xBB]);
    raw.extend_from_slice(&[0x00, 0x05, 0x00, 0x03]);
    raw.extend_from_slice(b"abc");
    let decoded = Packet::from_raw(&raw).unwrap();
    match decoded.content {
        PacketContent::Control(ControlPacketInfo::Handshake(got)) => {
            assert_eq!(
                got.stream_id_extension,
                Some(StreamIdExtension {
                    stream_id: b"abc".to_vec()
                })
            );
            assert_eq!(got.srt_socket_id, h.srt_socket_id);
        }
        other => panic!("expected a handshake, got {other:?}"),
    }
}

#[test]
fn test_decode_truncated_extension_block() {
    let p = Packet {
        timestamp: 0,
        dest_socket_id: 0,
        content: PacketContent::Control(ControlPacketInfo::Handshake(sample_handshake())),
    };
    let mut raw = p.to_raw();
    // A block whose announced length runs past the end of the datagram.
    raw.extend_from_slice(&[0x00, 0x05, 0x00, 0x09, 0x01]);
    assert_eq!(Packet::from_raw(&raw), Err(DecodeError::MalformedPacket));
}

#[test]
fn test_serial_trait_round_trip() {
    let p = Packet {
        timestamp: 4,
        dest_socket_id: 5,
        content: PacketContent::Control(ControlPacketInfo::KeepAlive),
    };
    let bytes = Serial::to_raw(&p);
    assert_eq!(<Packet as Serial>::from_raw(&bytes), Ok(p));
}

#[test]
fn test_nak_raw_content_round_trip() {
    let nak = Nak { lost_packet: 30 };
    let body = nak.raw_content();
    assert_eq!(body, vec![0x00, 0x00, 0x00, 0x1E]);
    assert_eq!(Nak::from_raw(&body), Ok(nak));
    assert_eq!(
        Nak::from_raw(&[1, 2, 3]),
        Err(DecodeError::MalformedPacket)
    );
}

#[test]
fn test_control_information_reader() {
    let p = Packet {
        timestamp: 1,
        dest_socket_id: 2,
        content: PacketContent::Control(ControlPacketInfo::Handshake(sample_handshake())),
    };
    let bytes = p.to_raw();
    let ci = ControlInformation::from_raw(&bytes).unwrap();
    let ControlInformation::Handshake(ref h) = ci;
    assert_eq!(h.srt_socket_id, 777);
    assert_eq!(ci.raw_header(), vec![0x80, 0, 0, 0, 0, 0, 0, 0]);
    assert_eq!(ci.raw_content(), bytes[16..].to_vec());

    let keepalive = Packet {
        timestamp: 1,
        dest_socket_id: 2,
        content: PacketContent::Control(ControlPacketInfo::KeepAlive),
    };
    assert_eq!(
        ControlInformation::from_raw(&keepalive.to_raw()),
        Err(DecodeError::UnknownControlType)
    );
    assert_eq!(
        ControlInformation::from_raw(&bytes[..10]),
        Err(DecodeError::MalformedPacket)
    );
}
