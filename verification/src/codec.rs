//! The wire codec: `spec_encode` and `spec_decode` define the byte format
//! of a packet, `Packet::to_raw` and `Packet::from_raw` implement it, and
//! `lemma_round_trip` proves that decoding an encoded packet gives the
//! packet back.
//!
//! All integers are big-endian at fixed width.  The top bit of the first
//! header word is the control flag; a control header carries the control
//! type in the next 15 bits, and a data header carries the 31-bit sequence
//! number in the rest of the word.

use crate::packet::{
    Ack, ControlPacketInfo, DataEncryption, DataPacketInfo, DecodeError, Handshake, HandshakeType,
    Nak, Packet, PacketContent, PacketPosition, SpecControlInfo, SpecDataInfo, SpecHandshake,
    SpecPacket, SpecPacketContent, StreamIdExtension, CONTROL_TYPE_ACK, CONTROL_TYPE_ACKACK,
    CONTROL_TYPE_CONGESTION_WARNING, CONTROL_TYPE_DROPREQ, CONTROL_TYPE_HANDSHAKE,
    CONTROL_TYPE_KEEPALIVE, CONTROL_TYPE_NAK, CONTROL_TYPE_PEERERROR, CONTROL_TYPE_SHUTDOWN,
    EXTENSION_TYPE_STREAM_ID, HANDSHAKE_TYPE_CONVERSION, HANDSHAKE_TYPE_DONE,
    HANDSHAKE_TYPE_INDUCTION,
};
use vstd::prelude::*;
use vstd::slice::{slice_subrange, slice_to_vec};

verus! {

/// The two big-endian bytes of `x`.
pub open spec fn enc_u16(x: u16) -> Seq<u8> {
    seq![((x >> 8) & 0xFF) as u8, (x & 0xFF) as u8]
}

/// The four big-endian bytes of `x`.
pub open spec fn enc_u32(x: u32) -> Seq<u8> {
    seq![
        ((x >> 24) & 0xFF) as u8,
        ((x >> 16) & 0xFF) as u8,
        ((x >> 8) & 0xFF) as u8,
        (x & 0xFF) as u8,
    ]
}

/// The value of the first two bytes of `s`, big-endian.
pub open spec fn dec_u16s(s: Seq<u8>) -> u16 {
    (s[0] as u16) << 8 | (s[1] as u16)
}

/// The value of the first four bytes of `s`, big-endian.
pub open spec fn dec_u32s(s: Seq<u8>) -> u32 {
    (s[0] as u32) << 24 | (s[1] as u32) << 16 | (s[2] as u32) << 8 | (s[3] as u32)
}

/// Appends the two big-endian bytes of `x`.
pub fn push_u16(out: &mut Vec<u8>, x: u16)
    ensures
        final(out)@ == old(out)@ + enc_u16(x),
{
    proof {
        assert((x >> 8) & 0xFF < 256 && x & 0xFF < 256) by (bit_vector);
    }
    out.push(((x >> 8) & 0xFF) as u8);
    out.push((x & 0xFF) as u8);
    proof {
        assert(out@ =~= old(out)@ + enc_u16(x));
    }
}

/// Appends the four big-endian bytes of `x`.
pub fn push_u32(out: &mut Vec<u8>, x: u32)
    ensures
        final(out)@ == old(out)@ + enc_u32(x),
{
    proof {
        assert((x >> 24) & 0xFF < 256 && (x >> 16) & 0xFF < 256 && (x >> 8) & 0xFF < 256 && x & 0xFF
            < 256) by (bit_vector);
    }
    out.push(((x >> 24) & 0xFF) as u8);
    out.push(((x >> 16) & 0xFF) as u8);
    out.push(((x >> 8) & 0xFF) as u8);
    out.push((x & 0xFF) as u8);
    proof {
        assert(out@ =~= old(out)@ + enc_u32(x));
    }
}

/// Reads the big-endian `u16` at byte offset `i`.
pub fn read_u16(raw: &[u8], i: usize) -> (r: u16)
    requires
        i + 2 <= raw@.len(),
    ensures
        r == dec_u16s(raw@.subrange(i as int, i as int + 2)),
{
    let r = (raw[i] as u16) << 8u16 | (raw[i + 1] as u16);
    proof {
        let s = raw@.subrange(i as int, i as int + 2);
        assert(s[0] == raw@[i as int] && s[1] == raw@[i as int + 1]);
    }
    r
}

/// Reads the big-endian `u32` at byte offset `i`.
pub fn read_u32(raw: &[u8], i: usize) -> (r: u32)
    requires
        i + 4 <= raw@.len(),
    ensures
        r == dec_u32s(raw@.subrange(i as int, i as int + 4)),
{
    let r = (raw[i] as u32) << 24u32 | (raw[i + 1] as u32) << 16u32 | (raw[i + 2] as u32) << 8u32 | (
    raw[i + 3] as u32);
    proof {
        let s = raw@.subrange(i as int, i as int + 4);
        assert(s[0] == raw@[i as int] && s[1] == raw@[i as int + 1] && s[2] == raw@[i as int + 2]
            && s[3] == raw@[i as int + 3]);
    }
    r
}

/// The control type code a control packet carries in its header.
pub open spec fn spec_control_code(c: SpecControlInfo) -> u16 {
    match c {
        SpecControlInfo::Handshake(_) => CONTROL_TYPE_HANDSHAKE,
        SpecControlInfo::KeepAlive => CONTROL_TYPE_KEEPALIVE,
        SpecControlInfo::Ack(_) => CONTROL_TYPE_ACK,
        SpecControlInfo::Nak(_) => CONTROL_TYPE_NAK,
        SpecControlInfo::CongestionWarning => CONTROL_TYPE_CONGESTION_WARNING,
        SpecControlInfo::Shutdown => CONTROL_TYPE_SHUTDOWN,
        SpecControlInfo::AckAck(_) => CONTROL_TYPE_ACKACK,
        SpecControlInfo::DropReq => CONTROL_TYPE_DROPREQ,
        SpecControlInfo::PeerError => CONTROL_TYPE_PEERERROR,
    }
}

/// The type-specific info word of a control header: the acknowledged ack
/// number for an ack-of-ack, zero for every other type.
pub open spec fn spec_control_info_word(c: SpecControlInfo) -> u32 {
    match c {
        SpecControlInfo::AckAck(n) => n,
        _ => 0,
    }
}

/// The wire code of a data packet's position field.
pub open spec fn spec_position_code(p: PacketPosition) -> u32 {
    match p {
        PacketPosition::Middle => 0,
        PacketPosition::Last => 1,
        PacketPosition::First => 2,
        PacketPosition::Only => 3,
    }
}

/// The position a wire code stands for (codes are two bits, all in use).
pub open spec fn spec_position_of_code(c: u32) -> PacketPosition {
    if c == 0 {
        PacketPosition::Middle
    } else if c == 1 {
        PacketPosition::Last
    } else if c == 2 {
        PacketPosition::First
    } else {
        PacketPosition::Only
    }
}

/// The wire code of a data packet's encryption field (code 3 is unused).
pub open spec fn spec_encryption_code(e: DataEncryption) -> u32 {
    match e {
        DataEncryption::Plain => 0,
        DataEncryption::Even => 1,
        DataEncryption::Odd => 2,
    }
}

/// The wire value of the handshake type word.
pub open spec fn spec_handshake_type_code(t: HandshakeType) -> u32 {
    match t {
        HandshakeType::Done => HANDSHAKE_TYPE_DONE,
        HandshakeType::Induction => HANDSHAKE_TYPE_INDUCTION,
        HandshakeType::Conversion => HANDSHAKE_TYPE_CONVERSION,
    }
}

/// The second header word of a data packet: position, encryption, order and
/// retransmission flags, and the 26-bit message number.
pub open spec fn spec_data_word1(d: SpecDataInfo) -> u32 {
    spec_position_code(d.position) << 30 | spec_encryption_code(d.encryption) << 28 | (
    if d.order {
        1u32 << 27
    } else {
        0u32
    }) | (
    if d.retransmitted {
        1u32 << 26
    } else {
        0u32
    }) | d.message_number
}

/// The first header word.
pub open spec fn spec_word0(p: SpecPacket) -> u32 {
    match p.content {
        SpecPacketContent::Control(c) => (0x8000u32 | spec_control_code(c) as u32) << 16,
        SpecPacketContent::Data(d) => d.packet_sequence_number,
    }
}

/// The second header word.
pub open spec fn spec_word1(p: SpecPacket) -> u32 {
    match p.content {
        SpecPacketContent::Control(c) => spec_control_info_word(c),
        SpecPacketContent::Data(d) => spec_data_word1(d),
    }
}

/// The encoded extension blocks that follow a handshake body: one
/// type-length-value block when a stream id is present, nothing otherwise.
pub open spec fn spec_encode_extensions(sid: Option<Seq<u8>>) -> Seq<u8> {
    match sid {
        Some(b) => enc_u16(EXTENSION_TYPE_STREAM_ID) + enc_u16(b.len() as u16) + b,
        None => Seq::empty(),
    }
}

/// The encoded handshake body: nine 32-bit words, the 16 address bytes,
/// then the extension blocks.
pub open spec fn spec_encode_handshake(h: SpecHandshake) -> Seq<u8> {
    enc_u32(h.version as u32) + enc_u32(h.encryption_field) + enc_u32(h.extension_field) + enc_u32(
        h.initial_packet_sequence_number,
    ) + enc_u32(h.mtu) + enc_u32(h.max_flow_window_size) + enc_u32(
        spec_handshake_type_code(h.handshake_type),
    ) + enc_u32(h.srt_socket_id) + enc_u32(h.syn_cookie) + h.peer_ip_address
        + spec_encode_extensions(h.stream_id_extension)
}

/// The type-specific body of a control packet.
pub open spec fn spec_encode_control_body(c: SpecControlInfo) -> Seq<u8> {
    match c {
        SpecControlInfo::Handshake(h) => spec_encode_handshake(h),
        SpecControlInfo::Ack(a) => match a {
            Ack::Full {
                ack_number,
                last_ackd_packet_sequence_number,
                rtt,
                rtt_variance,
                available_buffer_size,
                packets_receiving_rate,
                estimated_link_capacity,
                receiving_rate,
            } => enc_u32(ack_number) + enc_u32(last_ackd_packet_sequence_number) + enc_u32(rtt)
                + enc_u32(rtt_variance) + enc_u32(available_buffer_size) + enc_u32(
                packets_receiving_rate,
            ) + enc_u32(estimated_link_capacity) + enc_u32(receiving_rate),
            Ack::Small {
                last_ackd_packet_sequence_number,
                rtt,
                rtt_variance,
                available_buffer_size,
            } => enc_u32(last_ackd_packet_sequence_number) + enc_u32(rtt) + enc_u32(rtt_variance)
                + enc_u32(available_buffer_size),
            Ack::Light { last_ackd_packet_sequence_number } => enc_u32(
                last_ackd_packet_sequence_number,
            ),
        },
        SpecControlInfo::Nak(n) => enc_u32(n.lost_packet),
        _ => Seq::empty(),
    }
}

/// The body that follows the 16 header bytes.
pub open spec fn spec_body(p: SpecPacket) -> Seq<u8> {
    match p.content {
        SpecPacketContent::Control(c) => spec_encode_control_body(c),
        SpecPacketContent::Data(d) => d.content,
    }
}

/// The encoding of a packet: four header words, then the body.
pub open spec fn spec_encode(p: SpecPacket) -> Seq<u8> {
    enc_u32(spec_word0(p)) + enc_u32(spec_word1(p)) + enc_u32(p.timestamp) + enc_u32(
        p.dest_socket_id,
    ) + spec_body(p)
}

/// Decodes the extension blocks of a handshake body: every block is
/// type(16), length(16), then `length` value bytes; the first stream-id
/// block yields the stream id, other types are skipped by their length.
pub open spec fn spec_decode_extensions(e: Seq<u8>) -> Result<Option<Seq<u8>>, DecodeError>
    decreases e.len(),
{
    if e.len() == 0 {
        Ok(None)
    } else if e.len() < 4 {
        Err(DecodeError::MalformedPacket)
    } else {
        let t = dec_u16s(e.subrange(0, 2));
        let l = dec_u16s(e.subrange(2, 4)) as int;
        if e.len() < 4 + l {
            Err(DecodeError::MalformedPacket)
        } else {
            match spec_decode_extensions(e.skip(4 + l)) {
                Err(err) => Err(err),
                Ok(rest) => if t == EXTENSION_TYPE_STREAM_ID {
                    Ok(Some(e.subrange(4, 4 + l)))
                } else {
                    Ok(rest)
                },
            }
        }
    }
}

/// Decodes a handshake body.
pub open spec fn spec_decode_handshake(b: Seq<u8>) -> Result<SpecHandshake, DecodeError> {
    if b.len() < 52 {
        Err(DecodeError::MalformedPacket)
    } else {
        let version_word = dec_u32s(b.subrange(0, 4));
        let type_word = dec_u32s(b.subrange(24, 28));
        if version_word > 255 {
            Err(DecodeError::MalformedPacket)
        } else if type_word != HANDSHAKE_TYPE_DONE && type_word != HANDSHAKE_TYPE_INDUCTION
            && type_word != HANDSHAKE_TYPE_CONVERSION {
            Err(DecodeError::MalformedPacket)
        } else {
            match spec_decode_extensions(b.skip(52)) {
                Err(err) => Err(err),
                Ok(sid) => Ok(
                    SpecHandshake {
                        version: version_word as u8,
                        encryption_field: dec_u32s(b.subrange(4, 8)),
                        extension_field: dec_u32s(b.subrange(8, 12)),
                        initial_packet_sequence_number: dec_u32s(b.subrange(12, 16)),
                        mtu: dec_u32s(b.subrange(16, 20)),
                        max_flow_window_size: dec_u32s(b.subrange(20, 24)),
                        handshake_type: if type_word == HANDSHAKE_TYPE_INDUCTION {
                            HandshakeType::Induction
                        } else if type_word == HANDSHAKE_TYPE_CONVERSION {
                            HandshakeType::Conversion
                        } else {
                            HandshakeType::Done
                        },
                        srt_socket_id: dec_u32s(b.subrange(28, 32)),
                        syn_cookie: dec_u32s(b.subrange(32, 36)),
                        peer_ip_address: b.subrange(36, 52),
                        stream_id_extension: sid,
                    },
                ),
            }
        }
    }
}

/// Decodes a control packet's type-specific part.  The ack variant is
/// picked by body length (32, 16 or 4 bytes); any other length is
/// malformed, never guessed.
pub open spec fn spec_decode_control(code: u16, info: u32, body: Seq<u8>) -> Result<
    SpecControlInfo,
    DecodeError,
> {
    if code == CONTROL_TYPE_HANDSHAKE {
        match spec_decode_handshake(body) {
            Ok(h) => Ok(SpecControlInfo::Handshake(h)),
            Err(e) => Err(e),
        }
    } else if code == CONTROL_TYPE_KEEPALIVE {
        if body.len() == 0 {
            Ok(SpecControlInfo::KeepAlive)
        } else {
            Err(DecodeError::MalformedPacket)
        }
    } else if code == CONTROL_TYPE_ACK {
        if body.len() == 32 {
            Ok(
                SpecControlInfo::Ack(
                    Ack::Full {
                        ack_number: dec_u32s(body.subrange(0, 4)),
                        last_ackd_packet_sequence_number: dec_u32s(body.subrange(4, 8)),
                        rtt: dec_u32s(body.subrange(8, 12)),
                        rtt_variance: dec_u32s(body.subrange(12, 16)),
                        available_buffer_size: dec_u32s(body.subrange(16, 20)),
                        packets_receiving_rate: dec_u32s(body.subrange(20, 24)),
                        estimated_link_capacity: dec_u32s(body.subrange(24, 28)),
                        receiving_rate: dec_u32s(body.subrange(28, 32)),
                    },
                ),
            )
        } else if body.len() == 16 {
            Ok(
                SpecControlInfo::Ack(
                    Ack::Small {
                        last_ackd_packet_sequence_number: dec_u32s(body.subrange(0, 4)),
                        rtt: dec_u32s(body.subrange(4, 8)),
                        rtt_variance: dec_u32s(body.subrange(8, 12)),
                        available_buffer_size: dec_u32s(body.subrange(12, 16)),
                    },
                ),
            )
        } else if body.len() == 4 {
            Ok(
                SpecControlInfo::Ack(
                    Ack::Light { last_ackd_packet_sequence_number: dec_u32s(body.subrange(0, 4)) },
                ),
            )
        } else {
            Err(DecodeError::MalformedPacket)
        }
    } else if code == CONTROL_TYPE_NAK {
        if body.len() == 4 {
            Ok(SpecControlInfo::Nak(Nak { lost_packet: dec_u32s(body.subrange(0, 4)) }))
        } else {
            Err(DecodeError::MalformedPacket)
        }
    } else if code == CONTROL_TYPE_CONGESTION_WARNING {
        if body.len() == 0 {
            Ok(SpecControlInfo::CongestionWarning)
        } else {
            Err(DecodeError::MalformedPacket)
        }
    } else if code == CONTROL_TYPE_SHUTDOWN {
        if body.len() == 0 {
            Ok(SpecControlInfo::Shutdown)
        } else {
            Err(DecodeError::MalformedPacket)
        }
    } else if code == CONTROL_TYPE_ACKACK {
        if body.len() == 0 {
            Ok(SpecControlInfo::AckAck(info))
        } else {
            Err(DecodeError::MalformedPacket)
        }
    } else if code == CONTROL_TYPE_DROPREQ {
        if body.len() == 0 {
            Ok(SpecControlInfo::DropReq)
        } else {
            Err(DecodeError::MalformedPacket)
        }
    } else if code == CONTROL_TYPE_PEERERROR {
        if body.len() == 0 {
            Ok(SpecControlInfo::PeerError)
        } else {
            Err(DecodeError::MalformedPacket)
        }
    } else {
        Err(DecodeError::UnknownControlType)
    }
}

/// Decodes a datagram into a packet.
pub open spec fn spec_decode(s: Seq<u8>) -> Result<SpecPacket, DecodeError> {
    if s.len() < 16 {
        Err(DecodeError::MalformedPacket)
    } else {
        let w0 = dec_u32s(s.subrange(0, 4));
        let w1 = dec_u32s(s.subrange(4, 8));
        let ts = dec_u32s(s.subrange(8, 12));
        let dest = dec_u32s(s.subrange(12, 16));
        if w0 >= 0x8000_0000 {
            let code = ((w0 >> 16) & 0x7FFF) as u16;
            match spec_decode_control(code, w1, s.skip(16)) {
                Ok(c) => Ok(
                    SpecPacket {
                        timestamp: ts,
                        dest_socket_id: dest,
                        content: SpecPacketContent::Control(c),
                    },
                ),
                Err(e) => Err(e),
            }
        } else {
            if (w1 >> 28) & 3 == 3 {
                Err(DecodeError::MalformedPacket)
            } else {
                Ok(
                    SpecPacket {
                        timestamp: ts,
                        dest_socket_id: dest,
                        content: SpecPacketContent::Data(
                            SpecDataInfo {
                                packet_sequence_number: w0,
                                position: spec_position_of_code((w1 >> 30) & 3),
                                order: (w1 >> 27) & 1 == 1,
                                encryption: if (w1 >> 28) & 3 == 1 {
                                    DataEncryption::Even
                                } else if (w1 >> 28) & 3 == 2 {
                                    DataEncryption::Odd
                                } else {
                                    DataEncryption::Plain
                                },
                                retransmitted: (w1 >> 26) & 1 == 1,
                                message_number: w1 & 0x03FF_FFFF,
                                content: s.skip(16),
                            },
                        ),
                    },
                )
            }
        }
    }
}

/// The view of a fallible decode result.
pub open spec fn res_view<T: View, E>(r: Result<T, E>) -> Result<T::V, E> {
    match r {
        Ok(v) => Ok(v@),
        Err(e) => Err(e),
    }
}

/// The view of a decoded optional stream id.
pub open spec fn opt_bytes_view(r: Option<Vec<u8>>) -> Option<Seq<u8>> {
    match r {
        Some(v) => Some(v@),
        None => None,
    }
}

/// Scans the extension blocks of a handshake body for the stream id.
fn decode_extensions(ext: &[u8]) -> (r: Result<Option<Vec<u8>>, DecodeError>)
    ensures
        (match r {
            Ok(sid) => spec_decode_extensions(ext@) == Ok::<Option<Seq<u8>>, DecodeError>(
                opt_bytes_view(sid),
            ),
            Err(e) => spec_decode_extensions(ext@) == Err::<Option<Seq<u8>>, DecodeError>(e),
        }),
{
    let ghost full = ext@;
    let mut found: Option<Vec<u8>> = None;
    let mut i: usize = 0;
    proof {
        assert(full.skip(0) =~= full);
    }
    while i < ext.len()
        invariant
            i <= ext@.len(),
            full == ext@,
            (match spec_decode_extensions(full.skip(i as int)) {
                Err(e) => spec_decode_extensions(full) == Err::<Option<Seq<u8>>, DecodeError>(e),
                Ok(rest) => spec_decode_extensions(full) == Ok::<Option<Seq<u8>>, DecodeError>(
                    match found {
                        Some(v) => Some(v@),
                        None => rest,
                    },
                ),
            }),
        decreases ext@.len() - i,
    {
        let ghost e = full.skip(i as int);
        if ext.len() - i < 4 {
            return Err(DecodeError::MalformedPacket);
        }
        let t = read_u16(ext, i);
        let l = read_u16(ext, i + 2) as usize;
        proof {
            assert(e.subrange(0, 2) =~= full.subrange(i as int, i as int + 2));
            assert(e.subrange(2, 4) =~= full.subrange(i as int + 2, i as int + 4));
        }
        if ext.len() - i - 4 < l {
            return Err(DecodeError::MalformedPacket);
        }
        let next = i + 4 + l;
        proof {
            assert(e.skip(4 + l as int) =~= full.skip(next as int));
            assert(e.subrange(4, 4 + l as int) =~= full.subrange(i as int + 4, next as int));
        }
        if t == EXTENSION_TYPE_STREAM_ID && found.is_none() {
            found = Some(slice_to_vec(slice_subrange(ext, i + 4, next)));
        }
        i = next;
    }
    proof {
        assert(full.skip(i as int) =~= Seq::<u8>::empty());
    }
    Ok(found)
}

/// Decodes a handshake body.
pub(crate) fn decode_handshake(b: &[u8]) -> (r: Result<Handshake, DecodeError>)
    ensures
        res_view(r) == spec_decode_handshake(b@),
{
    if b.len() < 52 {
        return Err(DecodeError::MalformedPacket);
    }
    let version_word = read_u32(b, 0);
    let type_word = read_u32(b, 24);
    if version_word > 255 {
        return Err(DecodeError::MalformedPacket);
    }
    if type_word != HANDSHAKE_TYPE_DONE && type_word != HANDSHAKE_TYPE_INDUCTION && type_word
        != HANDSHAKE_TYPE_CONVERSION {
        return Err(DecodeError::MalformedPacket);
    }
    let sid = match decode_extensions(slice_subrange(b, 52, b.len())) {
        Ok(sid) => sid,
        Err(e) => {
            return Err(e);
        },
    };
    let h = Handshake {
        version: version_word as u8,
        encryption_field: read_u32(b, 4),
        extension_field: read_u32(b, 8),
        initial_packet_sequence_number: read_u32(b, 12),
        mtu: read_u32(b, 16),
        max_flow_window_size: read_u32(b, 20),
        handshake_type: if type_word == HANDSHAKE_TYPE_INDUCTION {
            HandshakeType::Induction
        } else if type_word == HANDSHAKE_TYPE_CONVERSION {
            HandshakeType::Conversion
        } else {
            HandshakeType::Done
        },
        srt_socket_id: read_u32(b, 28),
        syn_cookie: read_u32(b, 32),
        peer_ip_address: slice_to_vec(slice_subrange(b, 36, 52)),
        stream_id_extension: match sid {
            Some(bytes) => Some(StreamIdExtension { stream_id: bytes }),
            None => None,
        },
    };
    Ok(h)
}

/// Decodes a control packet's type-specific part.
fn decode_control(code: u16, info: u32, body: &[u8]) -> (r: Result<ControlPacketInfo, DecodeError>)
    ensures
        res_view(r) == spec_decode_control(code, info, body@),
{
    if code == CONTROL_TYPE_HANDSHAKE {
        match decode_handshake(body) {
            Ok(h) => Ok(ControlPacketInfo::Handshake(h)),
            Err(e) => Err(e),
        }
    } else if code == CONTROL_TYPE_KEEPALIVE {
        if body.len() == 0 {
            Ok(ControlPacketInfo::KeepAlive)
        } else {
            Err(DecodeError::MalformedPacket)
        }
    } else if code == CONTROL_TYPE_ACK {
        if body.len() == 32 {
            Ok(
                ControlPacketInfo::Ack(
                    Ack::Full {
                        ack_number: read_u32(body, 0),
                        last_ackd_packet_sequence_number: read_u32(body, 4),
                        rtt: read_u32(body, 8),
                        rtt_variance: read_u32(body, 12),
                        available_buffer_size: read_u32(body, 16),
                        packets_receiving_rate: read_u32(body, 20),
                        estimated_link_capacity: read_u32(body, 24),
                        receiving_rate: read_u32(body, 28),
                    },
                ),
            )
        } else if body.len() == 16 {
            Ok(
                ControlPacketInfo::Ack(
                    Ack::Small {
                        last_ackd_packet_sequence_number: read_u32(body, 0),
                        rtt: read_u32(body, 4),
                        rtt_variance: read_u32(body, 8),
                        available_buffer_size: read_u32(body, 12),
                    },
                ),
            )
        } else if body.len() == 4 {
            Ok(
                ControlPacketInfo::Ack(
                    Ack::Light { last_ackd_packet_sequence_number: read_u32(body, 0) },
                ),
            )
        } else {
            Err(DecodeError::MalformedPacket)
        }
    } else if code == CONTROL_TYPE_NAK {
        if body.len() == 4 {
            Ok(ControlPacketInfo::Nak(Nak { lost_packet: read_u32(body, 0) }))
        } else {
            Err(DecodeError::MalformedPacket)
        }
    } else if code == CONTROL_TYPE_CONGESTION_WARNING {
        if body.len() == 0 {
            Ok(ControlPacketInfo::CongestionWarning)
        } else {
            Err(DecodeError::MalformedPacket)
        }
    } else if code == CONTROL_TYPE_SHUTDOWN {
        if body.len() == 0 {
            Ok(ControlPacketInfo::Shutdown)
        } else {
            Err(DecodeError::MalformedPacket)
        }
    } else if code == CONTROL_TYPE_ACKACK {
        if body.len() == 0 {
            Ok(ControlPacketInfo::AckAck(info))
        } else {
            Err(DecodeError::MalformedPacket)
        }
    } else if code == CONTROL_TYPE_DROPREQ {
        if body.len() == 0 {
            Ok(ControlPacketInfo::DropReq)
        } else {
            Err(DecodeError::MalformedPacket)
        }
    } else if code == CONTROL_TYPE_PEERERROR {
        if body.len() == 0 {
            Ok(ControlPacketInfo::PeerError)
        } else {
            Err(DecodeError::MalformedPacket)
        }
    } else {
        Err(DecodeError::UnknownControlType)
    }
}

impl Packet {
    /// Decodes a datagram.  Exactly the packets `spec_decode` accepts are
    /// accepted, with its fields; every other input gives the error
    /// `spec_decode` gives.
    pub fn from_raw(raw: &[u8]) -> (r: Result<Packet, DecodeError>)
        ensures
            res_view(r) == spec_decode(raw@),
    {
        if raw.len() < 16 {
            return Err(DecodeError::MalformedPacket);
        }
        let w0 = read_u32(raw, 0);
        let w1 = read_u32(raw, 4);
        let ts = read_u32(raw, 8);
        let dest = read_u32(raw, 12);
        if w0 >= 0x8000_0000 {
            let code = ((w0 >> 16) & 0x7FFF) as u16;
            proof {
                assert((w0 >> 16) & 0x7FFF < 0x10000) by (bit_vector);
            }
            match decode_control(code, w1, slice_subrange(raw, 16, raw.len())) {
                Ok(c) => Ok(
                    Packet { timestamp: ts, dest_socket_id: dest, content: PacketContent::Control(c) },
                ),
                Err(e) => Err(e),
            }
        } else {
            let enc_bits = (w1 >> 28) & 3;
            if enc_bits == 3 {
                return Err(DecodeError::MalformedPacket);
            }
            let pos_bits = (w1 >> 30) & 3;
            let d = DataPacketInfo {
                packet_sequence_number: w0,
                position: if pos_bits == 0 {
                    PacketPosition::Middle
                } else if pos_bits == 1 {
                    PacketPosition::Last
                } else if pos_bits == 2 {
                    PacketPosition::First
                } else {
                    PacketPosition::Only
                },
                order: (w1 >> 27) & 1 == 1,
                encryption: if enc_bits == 1 {
                    DataEncryption::Even
                } else if enc_bits == 2 {
                    DataEncryption::Odd
                } else {
                    DataEncryption::Plain
                },
                retransmitted: (w1 >> 26) & 1 == 1,
                message_number: w1 & 0x03FF_FFFF,
                content: slice_to_vec(slice_subrange(raw, 16, raw.len())),
            };
            Ok(Packet { timestamp: ts, dest_socket_id: dest, content: PacketContent::Data(d) })
        }
    }

    /// Encodes this packet into its datagram bytes.
    pub fn to_raw(&self) -> (r: Vec<u8>)
        ensures
            r@ == spec_encode(self@),
    {
        let mut out: Vec<u8> = Vec::new();
        match &self.content {
            PacketContent::Control(c) => {
                let code = control_code(c);
                push_u32(&mut out, (0x8000u32 | code as u32) << 16u32);
                push_u32(&mut out, control_info_word(c));
                push_u32(&mut out, self.timestamp);
                push_u32(&mut out, self.dest_socket_id);
                push_control_body(&mut out, c);
            },
            PacketContent::Data(d) => {
                push_u32(&mut out, d.packet_sequence_number);
                push_u32(&mut out, data_word1(d));
                push_u32(&mut out, self.timestamp);
                push_u32(&mut out, self.dest_socket_id);
                out.extend_from_slice(d.content.as_slice());
            },
        }
        proof {
            assert(out@ =~= spec_encode(self@));
        }
        out
    }
}

/// The control type code of a control packet.
fn control_code(c: &ControlPacketInfo) -> (r: u16)
    ensures
        r == spec_control_code(c@),
{
    match c {
        ControlPacketInfo::Handshake(_) => CONTROL_TYPE_HANDSHAKE,
        ControlPacketInfo::KeepAlive => CONTROL_TYPE_KEEPALIVE,
        ControlPacketInfo::Ack(_) => CONTROL_TYPE_ACK,
        ControlPacketInfo::Nak(_) => CONTROL_TYPE_NAK,
        ControlPacketInfo::CongestionWarning => CONTROL_TYPE_CONGESTION_WARNING,
        ControlPacketInfo::Shutdown => CONTROL_TYPE_SHUTDOWN,
        ControlPacketInfo::AckAck(_) => CONTROL_TYPE_ACKACK,
        ControlPacketInfo::DropReq => CONTROL_TYPE_DROPREQ,
        ControlPacketInfo::PeerError => CONTROL_TYPE_PEERERROR,
    }
}

/// The info word of a control packet.
fn control_info_word(c: &ControlPacketInfo) -> (r: u32)
    ensures
        r == spec_control_info_word(c@),
{
    match c {
        ControlPacketInfo::AckAck(n) => *n,
        _ => 0,
    }
}

/// The second header word of a data packet.
fn data_word1(d: &DataPacketInfo) -> (r: u32)
    ensures
        r == spec_data_word1(d@),
{
    let pos: u32 = match d.position {
        PacketPosition::Middle => 0,
        PacketPosition::Last => 1,
        PacketPosition::First => 2,
        PacketPosition::Only => 3,
    };
    let enc: u32 = match d.encryption {
        DataEncryption::Plain => 0,
        DataEncryption::Even => 1,
        DataEncryption::Odd => 2,
    };
    pos << 30u32 | enc << 28u32 | (
    if d.order {
        1u32 << 27u32
    } else {
        0u32
    }) | (
    if d.retransmitted {
        1u32 << 26u32
    } else {
        0u32
    }) | d.message_number
}

/// Appends the encoded handshake body.
pub(crate) fn push_handshake(out: &mut Vec<u8>, h: &Handshake)
    ensures
        final(out)@ == old(out)@ + spec_encode_handshake(h@),
{
    push_u32(out, h.version as u32);
    push_u32(out, h.encryption_field);
    push_u32(out, h.extension_field);
    push_u32(out, h.initial_packet_sequence_number);
    push_u32(out, h.mtu);
    push_u32(out, h.max_flow_window_size);
    push_u32(
        out,
        match h.handshake_type {
            HandshakeType::Done => HANDSHAKE_TYPE_DONE,
            HandshakeType::Induction => HANDSHAKE_TYPE_INDUCTION,
            HandshakeType::Conversion => HANDSHAKE_TYPE_CONVERSION,
        },
    );
    push_u32(out, h.srt_socket_id);
    push_u32(out, h.syn_cookie);
    out.extend_from_slice(h.peer_ip_address.as_slice());
    match &h.stream_id_extension {
        Some(ext) => {
            push_u16(out, EXTENSION_TYPE_STREAM_ID);
            push_u16(out, #[verifier::truncate] (ext.stream_id.len() as u16));
            out.extend_from_slice(ext.stream_id.as_slice());
        },
        None => {},
    }
    proof {
        assert(out@ =~= old(out)@ + spec_encode_handshake(h@));
    }
}

/// Appends the type-specific body of a control packet.
fn push_control_body(out: &mut Vec<u8>, c: &ControlPacketInfo)
    ensures
        final(out)@ == old(out)@ + spec_encode_control_body(c@),
{
    match c {
        ControlPacketInfo::Handshake(h) => {
            push_handshake(out, h);
        },
        ControlPacketInfo::Ack(a) => {
            match a {
                Ack::Full {
                    ack_number,
                    last_ackd_packet_sequence_number,
                    rtt,
                    rtt_variance,
                    available_buffer_size,
                    packets_receiving_rate,
                    estimated_link_capacity,
                    receiving_rate,
                } => {
                    push_u32(out, *ack_number);
                    push_u32(out, *last_ackd_packet_sequence_number);
                    push_u32(out, *rtt);
                    push_u32(out, *rtt_variance);
                    push_u32(out, *available_buffer_size);
                    push_u32(out, *packets_receiving_rate);
                    push_u32(out, *estimated_link_capacity);
                    push_u32(out, *receiving_rate);
                },
                Ack::Small {
                    last_ackd_packet_sequence_number,
                    rtt,
                    rtt_variance,
                    available_buffer_size,
                } => {
                    push_u32(out, *last_ackd_packet_sequence_number);
                    push_u32(out, *rtt);
                    push_u32(out, *rtt_variance);
                    push_u32(out, *available_buffer_size);
                },
                Ack::Light { last_ackd_packet_sequence_number } => {
                    push_u32(out, *last_ackd_packet_sequence_number);
                },
            }
            proof {
                assert(out@ =~= old(out)@ + spec_encode_control_body(c@));
            }
        },
        ControlPacketInfo::Nak(n) => {
            push_u32(out, n.lost_packet);
            proof {
                assert(out@ =~= old(out)@ + spec_encode_control_body(c@));
            }
        },
        _ => {
            proof {
                assert(out@ =~= old(out)@ + spec_encode_control_body(c@));
            }
        },
    }
}


/// Decoding the two big-endian bytes of a value gives the value back.
pub proof fn lemma_u16_round(x: u16)
    ensures
        dec_u16s(enc_u16(x)) == x,
{
    let s = enc_u16(x);
    let b0 = s[0];
    let b1 = s[1];
    assert((b0 as u16) << 8 | (b1 as u16) == x) by (bit_vector)
        requires
            b0 == ((x >> 8) & 0xFF) as u8,
            b1 == (x & 0xFF) as u8,
    ;
}

/// Decoding the four big-endian bytes of a value gives the value back.
pub proof fn lemma_u32_round(x: u32)
    ensures
        dec_u32s(enc_u32(x)) == x,
{
    let s = enc_u32(x);
    let b0 = s[0];
    let b1 = s[1];
    let b2 = s[2];
    let b3 = s[3];
    assert((b0 as u32) << 24 | (b1 as u32) << 16 | (b2 as u32) << 8 | (b3 as u32) == x)
        by (bit_vector)
        requires
            b0 == ((x >> 24) & 0xFF) as u8,
            b1 == ((x >> 16) & 0xFF) as u8,
            b2 == ((x >> 8) & 0xFF) as u8,
            b3 == (x & 0xFF) as u8,
    ;
}

/// The encoded extension blocks decode to the stream id they were built from.
proof fn lemma_extensions_round_trip(sid: Option<Seq<u8>>)
    requires
        (match sid {
            Some(b) => b.len() <= 0xFFFF,
            None => true,
        }),
    ensures
        spec_decode_extensions(spec_encode_extensions(sid)) == Ok::<Option<Seq<u8>>, DecodeError>(
            sid,
        ),
{
    match sid {
        None => {
            assert(spec_encode_extensions(sid) =~= Seq::<u8>::empty());
        },
        Some(bytes) => {
            let e = spec_encode_extensions(sid);
            assert(e.len() == 4 + bytes.len());
            assert(e.subrange(0, 2) =~= enc_u16(EXTENSION_TYPE_STREAM_ID));
            assert(e.subrange(2, 4) =~= enc_u16(bytes.len() as u16));
            lemma_u16_round(EXTENSION_TYPE_STREAM_ID);
            lemma_u16_round(bytes.len() as u16);
            let l = dec_u16s(e.subrange(2, 4)) as int;
            assert(l == bytes.len());
            assert(e.skip(4 + l) =~= Seq::<u8>::empty());
            assert(spec_decode_extensions(Seq::<u8>::empty()) == Ok::<
                Option<Seq<u8>>,
                DecodeError,
            >(None::<Seq<u8>>));
            assert(e.subrange(4, 4 + l) =~= bytes);
        },
    }
}

/// The encoded handshake body decodes to the handshake it was built from.
proof fn lemma_handshake_round_trip(h: SpecHandshake)
    requires
        h.wf(),
    ensures
        spec_decode_handshake(spec_encode_handshake(h)) == Ok::<SpecHandshake, DecodeError>(h),
{
    let b = spec_encode_handshake(h);
    assert(b.len() == 52 + spec_encode_extensions(h.stream_id_extension).len());
    assert(b.subrange(0, 4) =~= enc_u32(h.version as u32));
    assert(b.subrange(4, 8) =~= enc_u32(h.encryption_field));
    assert(b.subrange(8, 12) =~= enc_u32(h.extension_field));
    assert(b.subrange(12, 16) =~= enc_u32(h.initial_packet_sequence_number));
    assert(b.subrange(16, 20) =~= enc_u32(h.mtu));
    assert(b.subrange(20, 24) =~= enc_u32(h.max_flow_window_size));
    assert(b.subrange(24, 28) =~= enc_u32(spec_handshake_type_code(h.handshake_type)));
    assert(b.subrange(28, 32) =~= enc_u32(h.srt_socket_id));
    assert(b.subrange(32, 36) =~= enc_u32(h.syn_cookie));
    assert(b.subrange(36, 52) =~= h.peer_ip_address);
    assert(b.skip(52) =~= spec_encode_extensions(h.stream_id_extension));
    lemma_u32_round(h.version as u32);
    lemma_u32_round(h.encryption_field);
    lemma_u32_round(h.extension_field);
    lemma_u32_round(h.initial_packet_sequence_number);
    lemma_u32_round(h.mtu);
    lemma_u32_round(h.max_flow_window_size);
    lemma_u32_round(spec_handshake_type_code(h.handshake_type));
    lemma_u32_round(h.srt_socket_id);
    lemma_u32_round(h.syn_cookie);
    lemma_extensions_round_trip(h.stream_id_extension);
}

/// The encoded body of a control packet decodes, under its own type code and
/// info word, to the control information it was built from.
proof fn lemma_control_round_trip(c: SpecControlInfo)
    requires
        c.wf(),
    ensures
        spec_decode_control(
            spec_control_code(c),
            spec_control_info_word(c),
            spec_encode_control_body(c),
        ) == Ok::<SpecControlInfo, DecodeError>(c),
{
    let body = spec_encode_control_body(c);
    match c {
        SpecControlInfo::Handshake(h) => {
            lemma_handshake_round_trip(h);
        },
        SpecControlInfo::Ack(a) => {
            match a {
                Ack::Full {
                    ack_number,
                    last_ackd_packet_sequence_number,
                    rtt,
                    rtt_variance,
                    available_buffer_size,
                    packets_receiving_rate,
                    estimated_link_capacity,
                    receiving_rate,
                } => {
                    assert(body.len() == 32);
                    assert(body.subrange(0, 4) =~= enc_u32(ack_number));
                    assert(body.subrange(4, 8) =~= enc_u32(last_ackd_packet_sequence_number));
                    assert(body.subrange(8, 12) =~= enc_u32(rtt));
                    assert(body.subrange(12, 16) =~= enc_u32(rtt_variance));
                    assert(body.subrange(16, 20) =~= enc_u32(available_buffer_size));
                    assert(body.subrange(20, 24) =~= enc_u32(packets_receiving_rate));
                    assert(body.subrange(24, 28) =~= enc_u32(estimated_link_capacity));
                    assert(body.subrange(28, 32) =~= enc_u32(receiving_rate));
                    lemma_u32_round(ack_number);
                    lemma_u32_round(last_ackd_packet_sequence_number);
                    lemma_u32_round(rtt);
                    lemma_u32_round(rtt_variance);
                    lemma_u32_round(available_buffer_size);
                    lemma_u32_round(packets_receiving_rate);
                    lemma_u32_round(estimated_link_capacity);
                    lemma_u32_round(receiving_rate);
                },
                Ack::Small {
                    last_ackd_packet_sequence_number,
                    rtt,
                    rtt_variance,
                    available_buffer_size,
                } => {
                    assert(body.len() == 16);
                    assert(body.subrange(0, 4) =~= enc_u32(last_ackd_packet_sequence_number));
                    assert(body.subrange(4, 8) =~= enc_u32(rtt));
                    assert(body.subrange(8, 12) =~= enc_u32(rtt_variance));
                    assert(body.subrange(12, 16) =~= enc_u32(available_buffer_size));
                    lemma_u32_round(last_ackd_packet_sequence_number);
                    lemma_u32_round(rtt);
                    lemma_u32_round(rtt_variance);
                    lemma_u32_round(available_buffer_size);
                },
                Ack::Light { last_ackd_packet_sequence_number } => {
                    assert(body.len() == 4);
                    assert(body.subrange(0, 4) =~= enc_u32(last_ackd_packet_sequence_number));
                    lemma_u32_round(last_ackd_packet_sequence_number);
                },
            }
        },
        SpecControlInfo::Nak(n) => {
            assert(body.len() == 4);
            assert(body.subrange(0, 4) =~= enc_u32(n.lost_packet));
            lemma_u32_round(n.lost_packet);
        },
        _ => {
            assert(body.len() == 0);
        },
    }
}

/// Round trip: decoding an encoded packet gives the packet back, for every
/// well-formed packet, control or data, across all control variants.
pub proof fn lemma_round_trip(p: SpecPacket)
    requires
        p.wf(),
    ensures
        spec_decode(spec_encode(p)) == Ok::<SpecPacket, DecodeError>(p),
{
    let s = spec_encode(p);
    assert(s.len() == 16 + spec_body(p).len());
    assert(s.subrange(0, 4) =~= enc_u32(spec_word0(p)));
    assert(s.subrange(4, 8) =~= enc_u32(spec_word1(p)));
    assert(s.subrange(8, 12) =~= enc_u32(p.timestamp));
    assert(s.subrange(12, 16) =~= enc_u32(p.dest_socket_id));
    assert(s.skip(16) =~= spec_body(p));
    lemma_u32_round(spec_word0(p));
    lemma_u32_round(spec_word1(p));
    lemma_u32_round(p.timestamp);
    lemma_u32_round(p.dest_socket_id);
    match p.content {
        SpecPacketContent::Control(c) => {
            let code = spec_control_code(c);
            let w0 = spec_word0(p);
            assert(code <= 8);
            assert(w0 >= 0x8000_0000 && ((w0 >> 16) & 0x7FFF) as u16 == code) by (bit_vector)
                requires
                    code < 0x8000,
                    w0 == (0x8000u32 | code as u32) << 16,
            ;
            lemma_control_round_trip(c);
        },
        SpecPacketContent::Data(d) => {
            assert(spec_word0(p) < 0x8000_0000);
            let pos = spec_position_code(d.position);
            let k = spec_encryption_code(d.encryption);
            let ob: u32 = if d.order {
                1u32 << 27
            } else {
                0u32
            };
            let rb: u32 = if d.retransmitted {
                1u32 << 26
            } else {
                0u32
            };
            let m = d.message_number;
            let w1 = spec_data_word1(d);
            assert(1u32 << 27 == 0x0800_0000 && 1u32 << 26 == 0x0400_0000) by (bit_vector);
            assert((w1 >> 30) & 3 == pos && (w1 >> 28) & 3 == k && ((w1 >> 27) & 1 == 1 <==> ob
                != 0) && ((w1 >> 26) & 1 == 1 <==> rb != 0) && w1 & 0x03FF_FFFF == m)
                by (bit_vector)
                requires
                    pos < 4,
                    k < 4,
                    ob == 0 || ob == 0x0800_0000,
                    rb == 0 || rb == 0x0400_0000,
                    m <= 0x03FF_FFFF,
                    w1 == pos << 30 | k << 28 | ob | rb | m,
            ;
        },
    }
}

} // verus!
