//! Per-peer session state and the reliability controller: loss detection,
//! acknowledgment cadence and round-trip-time capture.
//!
//! The state transitions are defined by spec functions
//! (`spec_state_after_data`, `spec_state_after_control`) and the executable
//! handlers are proved to follow them exactly; the cadence and
//! round-trip-time laws are proved of the spec functions themselves.

use crate::packet::{
    Ack, ControlPacketInfo, DataPacketInfo, Packet, PacketContent, SpecControlInfo, SpecDataInfo,
    SpecPacket, SpecPacketContent, Nak, MAX_SEQUENCE_NUMBER,
};
use vstd::arithmetic::div_mod::{lemma_hoist_over_denominator, lemma_mod_multiples_vanish};
use vstd::prelude::*;
use vstd::slice::slice_to_vec;

verus! {

/// Data packets between two acknowledgments: an ack is sent every time the
/// cadence counter wraps past this many received packets.
pub const ACK_INTERVAL: u32 = 60;

/// Bias added to the round-trip estimate carried inside an ack, so that a
/// zero estimate is never reported as the absence of delay.
pub const RTT_BIAS: u32 = 1_000_000;

/// The round-trip variance reported in an ack.
pub const REPORTED_RTT_VARIANCE: u32 = 100;

/// The available buffer size reported in an ack.
pub const REPORTED_BUFFER_SIZE: u32 = 1;

/// The state of one established session with one peer.
///
/// Times are microseconds on the caller's clock; the caller hands the
/// current time into every operation and performs the sends, so the state
/// itself is plain data.
#[derive(Clone, Debug, PartialEq, Eq)]
pub struct ConnectionState {
    /// The stream id announced in the conversion handshake, if any.
    pub stream_id: Option<Vec<u8>>,
    /// When the session was established, in microseconds.
    pub established: u64,
    /// The socket id the peer chose for itself.
    pub peer_srt_socket_id: u32,
    /// Our own ack sequence numbering; strictly increases per ack issued.
    pub ack_counter: u32,
    /// Data packets received since the last ack went out; wraps modulo
    /// `ACK_INTERVAL`, and an ack is sent exactly when it wraps to 0.
    pub received_since_ack: u32,
    /// When the last ack went out, in microseconds.
    pub last_ack_timestamp: u64,
    /// Sequence number of the last data packet received.
    pub last_received_sequence: u32,
    /// The current round-trip estimate, in microseconds.
    pub rtt_estimate: u32,
}

impl ConnectionState {
    /// The state invariant: the cadence counter stays below the interval
    /// and the last sequence number fits its 31 wire bits.
    pub open spec fn wf(self) -> bool {
        &&& self.received_since_ack < ACK_INTERVAL
        &&& self.last_received_sequence <= MAX_SEQUENCE_NUMBER
    }

    /// A fresh session: counters at their starting values, ack numbering
    /// beginning at one.
    pub fn new(stream_id: Option<Vec<u8>>, established: u64, peer_srt_socket_id: u32) -> (r:
        ConnectionState)
        ensures
            r == (ConnectionState {
                stream_id,
                established,
                peer_srt_socket_id,
                ack_counter: 1u32,
                received_since_ack: 0u32,
                last_ack_timestamp: 0u64,
                last_received_sequence: 0u32,
                rtt_estimate: 0u32,
            }),
            r.wf(),
    {
        ConnectionState {
            stream_id,
            established,
            peer_srt_socket_id,
            ack_counter: 1,
            received_since_ack: 0,
            last_ack_timestamp: 0,
            last_received_sequence: 0,
            rtt_estimate: 0,
        }
    }
}

/// The timestamp an outgoing packet carries: microseconds since the session
/// was established, truncated to 32 bits.
pub open spec fn spec_packet_timestamp(established: u64, now: u64) -> u32
    recommends
        now >= established,
{
    (((now - established) as u64) % 0x1_0000_0000) as u32
}

/// An outgoing reply packet: stamped with the current session time and
/// addressed to the peer's socket id.
pub open spec fn spec_outgoing(s: ConnectionState, c: SpecControlInfo, now: u64) -> SpecPacket {
    SpecPacket {
        timestamp: spec_packet_timestamp(s.established, now),
        dest_socket_id: s.peer_srt_socket_id,
        content: SpecPacketContent::Control(c),
    }
}

/// Whether a data packet signals a loss: its sequence number does not
/// follow the previous one, and its message number is not the
/// resynchronization marker 1.
pub open spec fn spec_gap(prev: u32, d: SpecDataInfo) -> bool {
    d.packet_sequence_number != prev + 1 && d.message_number != 1
}

/// The loss report a gap triggers: the sequence number one before the
/// packet that revealed the gap, wrapping at zero.
pub open spec fn spec_nak_for(d: SpecDataInfo) -> Nak {
    Nak {
        lost_packet: if d.packet_sequence_number == 0 {
            u32::MAX
        } else {
            (d.packet_sequence_number - 1) as u32
        },
    }
}

/// The round-trip value reported inside an ack: the estimate plus the
/// fixed bias, saturating.
pub open spec fn spec_biased_rtt(rtt: u32) -> u32 {
    if rtt + RTT_BIAS > u32::MAX {
        u32::MAX
    } else {
        (rtt + RTT_BIAS) as u32
    }
}

/// The small ack sent when the cadence counter wraps: it acknowledges the
/// sequence number after the packet just received.
pub open spec fn spec_small_ack(s: ConnectionState, d: SpecDataInfo) -> Ack
    recommends
        d.wf(),
{
    Ack::Small {
        last_ackd_packet_sequence_number: (d.packet_sequence_number + 1) as u32,
        rtt: spec_biased_rtt(s.rtt_estimate),
        rtt_variance: REPORTED_RTT_VARIANCE,
        available_buffer_size: REPORTED_BUFFER_SIZE,
    }
}

/// The state after one data packet: the last sequence number is replaced,
/// the cadence counter steps modulo the interval, and when it wraps to 0
/// the ack bookkeeping (counter, timestamp) advances.
pub open spec fn spec_state_after_data(s: ConnectionState, d: SpecDataInfo, now: u64)
    -> ConnectionState
    recommends
        s.ack_counter < u32::MAX,
{
    let counter = ((s.received_since_ack + 1) % (ACK_INTERVAL as int)) as u32;
    ConnectionState {
        last_received_sequence: d.packet_sequence_number,
        received_since_ack: counter,
        ack_counter: if counter == 0 {
            (s.ack_counter + 1) as u32
        } else {
            s.ack_counter
        },
        last_ack_timestamp: if counter == 0 {
            now
        } else {
            s.last_ack_timestamp
        },
        ..s
    }
}

/// The round-trip time an ack-of-ack reveals: the time since the last ack
/// went out, saturated to 32 bits.
pub open spec fn spec_rtt_of(last_ack_timestamp: u64, now: u64) -> u32
    recommends
        now >= last_ack_timestamp,
{
    if now - last_ack_timestamp > u32::MAX {
        u32::MAX
    } else {
        (now - last_ack_timestamp) as u32
    }
}

/// The state after one control packet: only an ack-of-ack changes it, by
/// recording the measured round-trip time.
pub open spec fn spec_state_after_control(s: ConnectionState, c: SpecControlInfo, now: u64)
    -> ConnectionState {
    match c {
        SpecControlInfo::AckAck(_) => ConnectionState {
            rtt_estimate: spec_rtt_of(s.last_ack_timestamp, now),
            ..s
        },
        _ => s,
    }
}

/// The replies one data packet provokes.
pub struct DataReplies {
    /// The loss report, when the packet revealed a gap.
    pub nak: Option<Packet>,
    /// The acknowledgment, when the cadence counter wrapped.
    pub ack: Option<Packet>,
}

/// What handling one packet produced: the replies to send, in order, and
/// the payload to hand to the data callback.
pub struct HandleOutcome {
    pub replies: Vec<Packet>,
    pub payload: Option<Vec<u8>>,
}

impl ConnectionState {
    /// Builds an outgoing packet around `content`, stamped with the current
    /// session time and addressed to the peer.
    pub fn pack(&self, content: ControlPacketInfo, now: u64) -> (r: Packet)
        requires
            now >= self.established,
        ensures
            r@ == spec_outgoing(*self, content@, now),
    {
        Packet {
            timestamp: ((now - self.established) % 0x1_0000_0000) as u32,
            dest_socket_id: self.peer_srt_socket_id,
            content: PacketContent::Control(content),
        }
    }

    /// Steps the ack counter, returning the value before the step.
    pub fn inc_ack(&mut self) -> (r: u32)
        requires
            old(self).ack_counter < u32::MAX,
        ensures
            r == old(self).ack_counter,
            *final(self) == (ConnectionState { ack_counter: (old(self).ack_counter + 1) as u32, ..*old(self) }),
    {
        let prev = self.ack_counter;
        self.ack_counter = self.ack_counter + 1;
        prev
    }

    /// Steps the cadence counter modulo the ack interval and reports
    /// whether it wrapped to zero, which is exactly when an ack is due.
    pub fn check_ack(&mut self) -> (r: bool)
        requires
            old(self).wf(),
        ensures
            *final(self) == (ConnectionState {
                received_since_ack: ((old(self).received_since_ack + 1) % (
                ACK_INTERVAL as int)) as u32,
                ..*old(self)
            }),
            r == (final(self).received_since_ack == 0),
            final(self).wf(),
    {
        self.received_since_ack = (self.received_since_ack + 1) % ACK_INTERVAL;
        self.received_since_ack == 0
    }

    /// Handles one control packet: a keep-alive is echoed, an ack-of-ack
    /// sets the round-trip estimate to the time since the last ack went
    /// out, and every other control type is accepted without a reply.
    pub fn handle_control(&mut self, control: &ControlPacketInfo, now: u64) -> (r: Option<Packet>)
        requires
            now >= old(self).established,
            control@ is AckAck ==> now >= old(self).last_ack_timestamp,
        ensures
            *final(self) == spec_state_after_control(*old(self), control@, now),
            (match control@ {
                SpecControlInfo::KeepAlive => r matches Some(reply) && reply@ == spec_outgoing(
                    *old(self),
                    SpecControlInfo::KeepAlive,
                    now,
                ),
                _ => r is None,
            }),
    {
        match control {
            ControlPacketInfo::KeepAlive => {
                Some(self.pack(ControlPacketInfo::KeepAlive, now))
            },
            ControlPacketInfo::AckAck(_) => {
                let delta = now - self.last_ack_timestamp;
                self.rtt_estimate = if delta > (u32::MAX as u64) {
                    u32::MAX
                } else {
                    delta as u32
                };
                None
            },
            _ => None,
        }
    }

    /// Handles one data packet.
    ///
    /// Loss detection: a loss report goes out exactly when the packet's
    /// sequence number does not follow the previous one and its message
    /// number is not the resynchronization marker 1; the last sequence
    /// number is replaced unconditionally, with the value before the update
    /// as the baseline of the check.  Ack cadence: the counter steps modulo
    /// the interval and a small ack goes out exactly when it wraps to 0,
    /// with the send time recorded for the later round-trip measurement.
    pub fn handle_data(&mut self, data: &DataPacketInfo, now: u64) -> (r: DataReplies)
        requires
            old(self).wf(),
            data@.wf(),
            now >= old(self).established,
            old(self).ack_counter < u32::MAX,
        ensures
            *final(self) == spec_state_after_data(*old(self), data@, now),
            final(self).wf(),
            (match r.nak {
                Some(nak) => spec_gap(old(self).last_received_sequence, data@) && nak@
                    == spec_outgoing(
                    *old(self),
                    SpecControlInfo::Nak(spec_nak_for(data@)),
                    now,
                ),
                None => !spec_gap(old(self).last_received_sequence, data@),
            }),
            (match r.ack {
                Some(ack) => final(self).received_since_ack == 0 && ack@ == spec_outgoing(
                    *old(self),
                    SpecControlInfo::Ack(spec_small_ack(*old(self), data@)),
                    now,
                ),
                None => final(self).received_since_ack != 0,
            }),
    {
        let packet_number = data.packet_sequence_number;
        let prev = self.last_received_sequence;
        self.last_received_sequence = packet_number;

        let nak: Option<Packet> = if packet_number != prev + 1 && data.message_number != 1 {
            let lost = if packet_number == 0 {
                u32::MAX
            } else {
                packet_number - 1
            };
            Some(self.pack(ControlPacketInfo::Nak(Nak { lost_packet: lost }), now))
        } else {
            None
        };

        let ack: Option<Packet> = if self.check_ack() {
            let rtt = if self.rtt_estimate > u32::MAX - RTT_BIAS {
                u32::MAX
            } else {
                self.rtt_estimate + RTT_BIAS
            };
            let ack_packet = self.pack(
                ControlPacketInfo::Ack(
                    Ack::Small {
                        last_ackd_packet_sequence_number: packet_number + 1,
                        rtt,
                        rtt_variance: REPORTED_RTT_VARIANCE,
                        available_buffer_size: REPORTED_BUFFER_SIZE,
                    },
                ),
                now,
            );
            self.last_ack_timestamp = now;
            self.inc_ack();
            Some(ack_packet)
        } else {
            None
        };

        DataReplies { nak, ack }
    }

    /// Handles one packet: control packets go to `handle_control` and data
    /// packets to `handle_data`.  The returned replies are to be sent in
    /// order, and a data packet's payload is handed back for delivery to
    /// the data callback, unchanged.
    pub fn handle(&mut self, packet: &Packet, now: u64) -> (r: HandleOutcome)
        requires
            old(self).wf(),
            now >= old(self).established,
            old(self).ack_counter < u32::MAX,
            (match packet@.content {
                SpecPacketContent::Control(c) => c is AckAck ==> now >= old(
                    self,
                ).last_ack_timestamp,
                SpecPacketContent::Data(d) => d.wf(),
            }),
        ensures
            final(self).wf(),
            (match packet@.content {
                SpecPacketContent::Control(c) => {
                    &&& *final(self) == spec_state_after_control(*old(self), c, now)
                    &&& r.payload is None
                    &&& (match c {
                        SpecControlInfo::KeepAlive => r.replies@.len() == 1 && r.replies@[0]@
                            == spec_outgoing(*old(self), SpecControlInfo::KeepAlive, now),
                        _ => r.replies@.len() == 0,
                    })
                },
                SpecPacketContent::Data(d) => {
                    &&& *final(self) == spec_state_after_data(*old(self), d, now)
                    &&& r.payload matches Some(payload) && payload@ == d.content
                    &&& r.replies@.len() == (if spec_gap(old(self).last_received_sequence, d) {
                        1int
                    } else {
                        0int
                    }) + (if final(self).received_since_ack == 0 {
                        1int
                    } else {
                        0int
                    })
                    &&& (spec_gap(old(self).last_received_sequence, d) ==> r.replies@[0]@
                        == spec_outgoing(*old(self), SpecControlInfo::Nak(spec_nak_for(d)), now))
                    &&& (final(self).received_since_ack == 0 ==> r.replies@[r.replies@.len() - 1]@
                        == spec_outgoing(
                        *old(self),
                        SpecControlInfo::Ack(spec_small_ack(*old(self), d)),
                        now,
                    ))
                },
            }),
    {
        match &packet.content {
            PacketContent::Control(control) => {
                let mut replies: Vec<Packet> = Vec::new();
                let reply = self.handle_control(control, now);
                match reply {
                    Some(p) => {
                        replies.push(p);
                    },
                    None => {},
                }
                HandleOutcome { replies, payload: None }
            },
            PacketContent::Data(data) => {
                let payload = slice_to_vec(data.content.as_slice());
                let out = self.handle_data(data, now);
                let mut replies: Vec<Packet> = Vec::new();
                match out.nak {
                    Some(p) => {
                        replies.push(p);
                    },
                    None => {},
                }
                match out.ack {
                    Some(p) => {
                        replies.push(p);
                    },
                    None => {},
                }
                HandleOutcome { replies, payload: Some(payload) }
            },
        }
    }
}

/// The state after a run of data packets, fed in order.
pub open spec fn spec_run_data(s: ConnectionState, ds: Seq<SpecDataInfo>, now: u64)
    -> ConnectionState
    decreases ds.len(),
{
    if ds.len() == 0 {
        s
    } else {
        spec_run_data(spec_state_after_data(s, ds[0], now), ds.skip(1), now)
    }
}

/// How many acks a run of data packets triggers.
pub open spec fn spec_run_ack_count(s: ConnectionState, ds: Seq<SpecDataInfo>, now: u64) -> nat
    decreases ds.len(),
{
    if ds.len() == 0 {
        0
    } else {
        let s1 = spec_state_after_data(s, ds[0], now);
        ((if s1.received_since_ack == 0 {
            1nat
        } else {
            0nat
        }) + spec_run_ack_count(s1, ds.skip(1), now)) as nat
    }
}

/// Ack cadence: over any run of data packets the cadence counter advances
/// by the number of packets, modulo the interval, and exactly one ack goes
/// out per wrap.  In particular, from a fresh counter, a run of exactly 60
/// packets triggers exactly one ack — after the 60th packet — and leaves
/// the counter at 0.
pub proof fn lemma_ack_cadence(s: ConnectionState, ds: Seq<SpecDataInfo>, now: u64)
    requires
        s.received_since_ack < ACK_INTERVAL,
    ensures
        spec_run_data(s, ds, now).received_since_ack == (s.received_since_ack + ds.len()) % (
        ACK_INTERVAL as int),
        spec_run_ack_count(s, ds, now) == (s.received_since_ack + ds.len()) / (ACK_INTERVAL as int),
    decreases ds.len(),
{
    let c = s.received_since_ack as int;
    let n = ds.len() as int;
    if ds.len() == 0 {
        assert(c % 60 == c);
        assert(c / 60 == 0);
    } else {
        let s1 = spec_state_after_data(s, ds[0], now);
        let r1 = s1.received_since_ack as int;
        let q1: int = if r1 == 0 {
            1
        } else {
            0
        };
        assert(c + 1 == 60 * q1 + r1);
        lemma_ack_cadence(s1, ds.skip(1), now);
        assert(c + n == 60 * q1 + (r1 + (n - 1)));
        lemma_mod_multiples_vanish(q1, r1 + n - 1, 60);
        lemma_hoist_over_denominator(r1 + n - 1, q1, 60nat);
    }
}

/// Round-trip capture: when a data packet at time `t` makes the cadence
/// counter wrap (so an ack goes out and its send time is recorded), the
/// ack-of-ack arriving at time `t + delta` sets the round-trip estimate to
/// exactly `delta`, for any `delta` the estimate can hold.
pub proof fn lemma_rtt_capture(
    s: ConnectionState,
    d: SpecDataInfo,
    ack_number: u32,
    t: u64,
    delta: u64,
)
    requires
        s.wf(),
        (s.received_since_ack + 1) % (ACK_INTERVAL as int) == 0,
        delta <= u32::MAX,
        t + delta <= u64::MAX,
    ensures
        spec_state_after_data(s, d, t).last_ack_timestamp == t,
        spec_state_after_control(
            spec_state_after_data(s, d, t),
            SpecControlInfo::AckAck(ack_number),
            (t + delta) as u64,
        ).rtt_estimate == delta,
{
}

/// Loss detection: over the state transition, a loss report goes out for a
/// data packet if and only if its sequence number does not follow the last
/// received one and its message number is not the resynchronization
/// marker 1; the baseline of the check is the sequence number before the
/// update, and the update happens unconditionally.
pub proof fn lemma_loss_detection(s: ConnectionState, d: SpecDataInfo, now: u64)
    ensures
        spec_gap(s.last_received_sequence, d) <==> (d.packet_sequence_number
            != s.last_received_sequence + 1 && d.message_number != 1),
        spec_state_after_data(s, d, now).last_received_sequence == d.packet_sequence_number,
        spec_nak_for(d).lost_packet == (if d.packet_sequence_number == 0 {
            u32::MAX as int
        } else {
            d.packet_sequence_number - 1
        }),
{
}

} // verus!
