//! The handshake engine: drives the induction/conversion exchange and
//! produces the established session state.
//!
//! The engine answers an induction request with a version-5 reply carrying
//! the magic code and this side's identifiers, echoing everything else;
//! it answers the following conversion request by echoing it verbatim and
//! producing the session.  Any packet that is not a handshake, or arrives
//! in the wrong phase, fails the exchange.

use crate::connection::ConnectionState;
use crate::packet::{
    ControlPacketInfo, Handshake, HandshakeType, Packet, PacketContent, SpecHandshake, SpecPacket,
    SpecPacketContent, StreamIdExtension, HANDSHAKE_MAGIC_CODE,
};
use vstd::prelude::*;
use vstd::slice::slice_to_vec;

verus! {

/// Failure of the handshake exchange: the packet was not a handshake of
/// the phase the engine was waiting for.  The caller aborts the setup of
/// this peer; no partial state is retained.
#[derive(Clone, Copy, Debug, PartialEq, Eq, Structural)]
pub struct HandshakeFailure;

/// The phase the exchange has reached.
#[derive(Clone, Copy, Debug, PartialEq, Eq, Structural)]
pub enum HandshakePhase {
    AwaitingInduction,
    AwaitingConversion,
    Established,
}

/// The engine for one peer's handshake exchange.
pub struct HandshakeEngine {
    pub phase: HandshakePhase,
    /// The socket id this side assigns to itself in the induction reply.
    pub local_socket_id: u32,
    /// The anti-spoof cookie this side issues in the induction reply.
    pub local_syn_cookie: u32,
}

/// The handshake a packet carries, if it is a handshake control packet.
pub open spec fn spec_handshake_of(p: SpecPacket) -> Option<SpecHandshake> {
    match p.content {
        SpecPacketContent::Control(c) => match c {
            crate::packet::SpecControlInfo::Handshake(h) => Some(h),
            _ => None,
        },
        _ => None,
    }
}

/// The timestamp of a handshake reply: one past the request's, wrapping.
pub open spec fn spec_reply_timestamp(ts: u32) -> u32 {
    if ts == u32::MAX {
        0
    } else {
        (ts + 1) as u32
    }
}

/// The induction reply: version forced to 5, the extension field set to
/// the magic code, this side's socket id and cookie; every other field
/// echoes the request, and the reply is addressed to the socket id the
/// request announced.
pub open spec fn spec_induction_reply(h: SpecHandshake, ts: u32, local_id: u32, cookie: u32)
    -> SpecPacket {
    SpecPacket {
        timestamp: spec_reply_timestamp(ts),
        dest_socket_id: h.srt_socket_id,
        content: SpecPacketContent::Control(
            crate::packet::SpecControlInfo::Handshake(
                SpecHandshake {
                    version: 5u8,
                    extension_field: HANDSHAKE_MAGIC_CODE,
                    srt_socket_id: local_id,
                    syn_cookie: cookie,
                    ..h
                },
            ),
        ),
    }
}

/// The conversion reply: the received handshake echoed verbatim.
pub open spec fn spec_conversion_reply(h: SpecHandshake, ts: u32) -> SpecPacket {
    SpecPacket {
        timestamp: spec_reply_timestamp(ts),
        dest_socket_id: h.srt_socket_id,
        content: SpecPacketContent::Control(crate::packet::SpecControlInfo::Handshake(h)),
    }
}

/// Copies a handshake value.
fn clone_handshake(h: &Handshake) -> (r: Handshake)
    ensures
        r@ == h@,
{
    Handshake {
        version: h.version,
        encryption_field: h.encryption_field,
        extension_field: h.extension_field,
        initial_packet_sequence_number: h.initial_packet_sequence_number,
        mtu: h.mtu,
        max_flow_window_size: h.max_flow_window_size,
        handshake_type: h.handshake_type,
        srt_socket_id: h.srt_socket_id,
        syn_cookie: h.syn_cookie,
        peer_ip_address: slice_to_vec(h.peer_ip_address.as_slice()),
        stream_id_extension: match &h.stream_id_extension {
            Some(ext) => Some(
                StreamIdExtension { stream_id: slice_to_vec(ext.stream_id.as_slice()) },
            ),
            None => None,
        },
    }
}

impl HandshakeEngine {
    /// A fresh engine, waiting for an induction request.  The identifiers
    /// are the caller's to choose, so that they can be unique per peer.
    pub fn new(local_socket_id: u32, local_syn_cookie: u32) -> (r: HandshakeEngine)
        ensures
            r == (HandshakeEngine {
                phase: HandshakePhase::AwaitingInduction,
                local_socket_id,
                local_syn_cookie,
            }),
    {
        HandshakeEngine { phase: HandshakePhase::AwaitingInduction, local_socket_id, local_syn_cookie }
    }

    /// Steps the exchange with one received packet.
    ///
    /// Waiting for induction: an induction handshake is answered with the
    /// induction reply and the engine starts waiting for conversion.
    /// Waiting for conversion: a conversion handshake is echoed verbatim
    /// and the session is produced, established at `now`, with the peer's
    /// announced socket id and stream id.  Every other packet, and any
    /// packet once established, fails the exchange and leaves the engine
    /// unchanged.
    pub fn handle(&mut self, p: &Packet, now: u64) -> (r: Result<
        (Packet, Option<ConnectionState>),
        HandshakeFailure,
    >)
        ensures
            (match r {
                Ok((reply, session)) => match old(self).phase {
                    HandshakePhase::AwaitingInduction => {
                        &&& spec_handshake_of(p@) matches Some(h) && h.handshake_type
                            == HandshakeType::Induction
                        &&& reply@ == spec_induction_reply(
                            spec_handshake_of(p@)->Some_0,
                            p@.timestamp,
                            old(self).local_socket_id,
                            old(self).local_syn_cookie,
                        )
                        &&& session is None
                        &&& *final(self) == (HandshakeEngine {
                            phase: HandshakePhase::AwaitingConversion,
                            ..*old(self)
                        })
                    },
                    HandshakePhase::AwaitingConversion => {
                        &&& spec_handshake_of(p@) matches Some(h) && h.handshake_type
                            == HandshakeType::Conversion
                        &&& reply@ == spec_conversion_reply(
                            spec_handshake_of(p@)->Some_0,
                            p@.timestamp,
                        )
                        &&& session matches Some(s) && {
                            &&& s.established == now
                            &&& s.peer_srt_socket_id == spec_handshake_of(p@)->Some_0.srt_socket_id
                            &&& s.ack_counter == 1
                            &&& s.received_since_ack == 0
                            &&& s.last_ack_timestamp == 0
                            &&& s.last_received_sequence == 0
                            &&& s.rtt_estimate == 0
                            &&& (match s.stream_id {
                                Some(sid) => spec_handshake_of(p@)->Some_0.stream_id_extension
                                    matches Some(ext) && sid@ == ext,
                                None => spec_handshake_of(
                                    p@,
                                )->Some_0.stream_id_extension is None,
                            })
                            &&& s.wf()
                        }
                        &&& *final(self) == (HandshakeEngine {
                            phase: HandshakePhase::Established,
                            ..*old(self)
                        })
                    },
                    HandshakePhase::Established => false,
                },
                Err(_) => {
                    &&& *final(self) == *old(self)
                    &&& (match old(self).phase {
                        HandshakePhase::AwaitingInduction => !(spec_handshake_of(p@) matches Some(h)
                            && h.handshake_type == HandshakeType::Induction),
                        HandshakePhase::AwaitingConversion => !(spec_handshake_of(p@) matches Some(
                            h,
                        ) && h.handshake_type == HandshakeType::Conversion),
                        HandshakePhase::Established => true,
                    })
                },
            }),
    {
        match self.phase {
            HandshakePhase::AwaitingInduction => {
                match &p.content {
                    PacketContent::Control(ControlPacketInfo::Handshake(h)) => {
                        if !matches!(h.handshake_type, HandshakeType::Induction) {
                            return Err(HandshakeFailure);
                        }
                        let reply = Packet {
                            timestamp: if p.timestamp == u32::MAX {
                                0
                            } else {
                                p.timestamp + 1
                            },
                            dest_socket_id: h.srt_socket_id,
                            content: PacketContent::Control(
                                ControlPacketInfo::Handshake(
                                    Handshake {
                                        version: 5,
                                        extension_field: HANDSHAKE_MAGIC_CODE,
                                        srt_socket_id: self.local_socket_id,
                                        syn_cookie: self.local_syn_cookie,
                                        ..clone_handshake(h)
                                    },
                                ),
                            ),
                        };
                        self.phase = HandshakePhase::AwaitingConversion;
                        Ok((reply, None))
                    },
                    _ => Err(HandshakeFailure),
                }
            },
            HandshakePhase::AwaitingConversion => {
                match &p.content {
                    PacketContent::Control(ControlPacketInfo::Handshake(h)) => {
                        if !matches!(h.handshake_type, HandshakeType::Conversion) {
                            return Err(HandshakeFailure);
                        }
                        let stream_id: Option<Vec<u8>> = match &h.stream_id_extension {
                            Some(ext) => Some(slice_to_vec(ext.stream_id.as_slice())),
                            None => None,
                        };
                        let reply = Packet {
                            timestamp: if p.timestamp == u32::MAX {
                                0
                            } else {
                                p.timestamp + 1
                            },
                            dest_socket_id: h.srt_socket_id,
                            content: PacketContent::Control(
                                ControlPacketInfo::Handshake(clone_handshake(h)),
                            ),
                        };
                        let session = ConnectionState::new(stream_id, now, h.srt_socket_id);
                        self.phase = HandshakePhase::Established;
                        Ok((reply, Some(session)))
                    },
                    _ => Err(HandshakeFailure),
                }
            },
            HandshakePhase::Established => Err(HandshakeFailure),
        }
    }
}

} // verus!
