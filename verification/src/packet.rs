//! The typed model of the wire packets: a `Packet` is either a control
//! packet or a data packet, and every field a packet can carry is a plain
//! value of this module.
//!
//! Types whose values carry byte payloads have a spec-level twin (`Spec...`)
//! holding `Seq<u8>` where the executable type holds `Vec<u8>`; `view`
//! connects the two, and the codec's contracts are stated over the twins.

use vstd::prelude::*;

verus! {

/// Magic code carried in the extension field of a version-5 induction reply.
pub const HANDSHAKE_MAGIC_CODE: u32 = 0x4A17;

/// Control packet type codes (bits 1-15 of the first header word).
pub const CONTROL_TYPE_HANDSHAKE: u16 = 0x0000;

pub const CONTROL_TYPE_KEEPALIVE: u16 = 0x0001;

pub const CONTROL_TYPE_ACK: u16 = 0x0002;

pub const CONTROL_TYPE_NAK: u16 = 0x0003;

pub const CONTROL_TYPE_CONGESTION_WARNING: u16 = 0x0004;

pub const CONTROL_TYPE_SHUTDOWN: u16 = 0x0005;

pub const CONTROL_TYPE_ACKACK: u16 = 0x0006;

pub const CONTROL_TYPE_DROPREQ: u16 = 0x0007;

pub const CONTROL_TYPE_PEERERROR: u16 = 0x0008;

/// Wire values of the handshake type word.
pub const HANDSHAKE_TYPE_DONE: u32 = 0;

pub const HANDSHAKE_TYPE_INDUCTION: u32 = 1;

pub const HANDSHAKE_TYPE_CONVERSION: u32 = 0xFFFF_FFFF;

/// Type tag of the stream-id extension block of a handshake body.
pub const EXTENSION_TYPE_STREAM_ID: u16 = 5;

/// Largest sequence number a data packet can carry (31 bits on the wire).
pub const MAX_SEQUENCE_NUMBER: u32 = 0x7FFF_FFFF;

/// Largest message number a data packet can carry (26 bits on the wire).
pub const MAX_MESSAGE_NUMBER: u32 = 0x03FF_FFFF;

/// Errors of the packet codec.
#[derive(Clone, Copy, Debug, PartialEq, Eq, Structural)]
pub enum DecodeError {
    /// The buffer is too short, or a field holds a value outside its range.
    MalformedPacket,
    /// The header is well formed but the control type is not recognized.
    UnknownControlType,
}

/// Placement of a data packet within a message.
#[derive(Clone, Copy, Debug, PartialEq, Eq, Structural)]
pub enum PacketPosition {
    First,
    Middle,
    Last,
    Only,
}

/// Encryption marker of a data packet.
#[derive(Clone, Copy, Debug, PartialEq, Eq, Structural)]
pub enum DataEncryption {
    Plain,
    Even,
    Odd,
}

/// Phase of the handshake exchange a handshake packet belongs to.
#[derive(Clone, Copy, Debug, PartialEq, Eq, Structural)]
pub enum HandshakeType {
    Induction,
    Conversion,
    Done,
}

/// A loss report: the peer is asked to resend `lost_packet`.
#[derive(Clone, Copy, Debug, PartialEq, Eq, Structural)]
pub struct Nak {
    pub lost_packet: u32,
}

/// An acknowledgment, in one of its three wire sizes.
#[derive(Clone, Copy, Debug, PartialEq, Eq, Structural)]
pub enum Ack {
    Full {
        ack_number: u32,
        last_ackd_packet_sequence_number: u32,
        rtt: u32,
        rtt_variance: u32,
        available_buffer_size: u32,
        packets_receiving_rate: u32,
        estimated_link_capacity: u32,
        receiving_rate: u32,
    },
    Small {
        last_ackd_packet_sequence_number: u32,
        rtt: u32,
        rtt_variance: u32,
        available_buffer_size: u32,
    },
    Light {
        last_ackd_packet_sequence_number: u32,
    },
}

/// The stream-id extension block a conversion handshake may carry.
#[derive(Clone, Debug, PartialEq, Eq)]
pub struct StreamIdExtension {
    /// The raw bytes of the announced stream identifier.
    pub stream_id: Vec<u8>,
}

/// The body of a handshake control packet.
#[derive(Clone, Debug, PartialEq, Eq)]
pub struct Handshake {
    pub version: u8,
    pub encryption_field: u32,
    pub extension_field: u32,
    pub initial_packet_sequence_number: u32,
    pub mtu: u32,
    pub max_flow_window_size: u32,
    pub handshake_type: HandshakeType,
    pub srt_socket_id: u32,
    pub syn_cookie: u32,
    /// The 16 address bytes of the peer, as they stand on the wire.
    pub peer_ip_address: Vec<u8>,
    pub stream_id_extension: Option<StreamIdExtension>,
}

/// The payload of a control packet, one variant per control type.
#[derive(Clone, Debug, PartialEq, Eq)]
pub enum ControlPacketInfo {
    Handshake(Handshake),
    KeepAlive,
    Ack(Ack),
    /// Carries the ack number being acknowledged.
    AckAck(u32),
    Nak(Nak),
    Shutdown,
    CongestionWarning,
    DropReq,
    PeerError,
}

/// The payload of a data packet.
#[derive(Clone, Debug, PartialEq, Eq)]
pub struct DataPacketInfo {
    pub packet_sequence_number: u32,
    pub position: PacketPosition,
    pub order: bool,
    pub encryption: DataEncryption,
    pub retransmitted: bool,
    pub message_number: u32,
    pub content: Vec<u8>,
}

/// What a packet carries: control information or stream data.
#[derive(Clone, Debug, PartialEq, Eq)]
pub enum PacketContent {
    Control(ControlPacketInfo),
    Data(DataPacketInfo),
}

/// A wire packet: the common header fields plus the typed content.
#[derive(Clone, Debug, PartialEq, Eq)]
pub struct Packet {
    /// Microseconds since the session was established.
    pub timestamp: u32,
    pub dest_socket_id: u32,
    pub content: PacketContent,
}

/// Spec-level twin of `Handshake`.
pub struct SpecHandshake {
    pub version: u8,
    pub encryption_field: u32,
    pub extension_field: u32,
    pub initial_packet_sequence_number: u32,
    pub mtu: u32,
    pub max_flow_window_size: u32,
    pub handshake_type: HandshakeType,
    pub srt_socket_id: u32,
    pub syn_cookie: u32,
    pub peer_ip_address: Seq<u8>,
    pub stream_id_extension: Option<Seq<u8>>,
}

/// Spec-level twin of `ControlPacketInfo`.
pub enum SpecControlInfo {
    Handshake(SpecHandshake),
    KeepAlive,
    Ack(Ack),
    AckAck(u32),
    Nak(Nak),
    Shutdown,
    CongestionWarning,
    DropReq,
    PeerError,
}

/// Spec-level twin of `DataPacketInfo`.
pub struct SpecDataInfo {
    pub packet_sequence_number: u32,
    pub position: PacketPosition,
    pub order: bool,
    pub encryption: DataEncryption,
    pub retransmitted: bool,
    pub message_number: u32,
    pub content: Seq<u8>,
}

/// Spec-level twin of `PacketContent`.
pub enum SpecPacketContent {
    Control(SpecControlInfo),
    Data(SpecDataInfo),
}

/// Spec-level twin of `Packet`.
pub struct SpecPacket {
    pub timestamp: u32,
    pub dest_socket_id: u32,
    pub content: SpecPacketContent,
}

impl View for Handshake {
    type V = SpecHandshake;

    open spec fn view(&self) -> SpecHandshake {
        SpecHandshake {
            version: self.version,
            encryption_field: self.encryption_field,
            extension_field: self.extension_field,
            initial_packet_sequence_number: self.initial_packet_sequence_number,
            mtu: self.mtu,
            max_flow_window_size: self.max_flow_window_size,
            handshake_type: self.handshake_type,
            srt_socket_id: self.srt_socket_id,
            syn_cookie: self.syn_cookie,
            peer_ip_address: self.peer_ip_address@,
            stream_id_extension: match self.stream_id_extension {
                Some(ext) => Some(ext.stream_id@),
                None => None,
            },
        }
    }
}

impl View for ControlPacketInfo {
    type V = SpecControlInfo;

    open spec fn view(&self) -> SpecControlInfo {
        match *self {
            ControlPacketInfo::Handshake(h) => SpecControlInfo::Handshake(h@),
            ControlPacketInfo::KeepAlive => SpecControlInfo::KeepAlive,
            ControlPacketInfo::Ack(a) => SpecControlInfo::Ack(a),
            ControlPacketInfo::AckAck(n) => SpecControlInfo::AckAck(n),
            ControlPacketInfo::Nak(n) => SpecControlInfo::Nak(n),
            ControlPacketInfo::Shutdown => SpecControlInfo::Shutdown,
            ControlPacketInfo::CongestionWarning => SpecControlInfo::CongestionWarning,
            ControlPacketInfo::DropReq => SpecControlInfo::DropReq,
            ControlPacketInfo::PeerError => SpecControlInfo::PeerError,
        }
    }
}

impl View for DataPacketInfo {
    type V = SpecDataInfo;

    open spec fn view(&self) -> SpecDataInfo {
        SpecDataInfo {
            packet_sequence_number: self.packet_sequence_number,
            position: self.position,
            order: self.order,
            encryption: self.encryption,
            retransmitted: self.retransmitted,
            message_number: self.message_number,
            content: self.content@,
        }
    }
}

impl View for PacketContent {
    type V = SpecPacketContent;

    open spec fn view(&self) -> SpecPacketContent {
        match *self {
            PacketContent::Control(c) => SpecPacketContent::Control(c@),
            PacketContent::Data(d) => SpecPacketContent::Data(d@),
        }
    }
}

impl View for Packet {
    type V = SpecPacket;

    open spec fn view(&self) -> SpecPacket {
        SpecPacket {
            timestamp: self.timestamp,
            dest_socket_id: self.dest_socket_id,
            content: self.content@,
        }
    }
}

impl SpecHandshake {
    /// Every field fits the width the wire format gives it.
    pub open spec fn wf(self) -> bool {
        &&& self.peer_ip_address.len() == 16
        &&& match self.stream_id_extension {
            Some(sid) => sid.len() <= 0xFFFF,
            None => true,
        }
    }
}

impl SpecDataInfo {
    /// Every field fits the width the wire format gives it.
    pub open spec fn wf(self) -> bool {
        &&& self.packet_sequence_number <= MAX_SEQUENCE_NUMBER
        &&& self.message_number <= MAX_MESSAGE_NUMBER
    }
}

impl SpecControlInfo {
    /// Every field fits the width the wire format gives it.
    pub open spec fn wf(self) -> bool {
        match self {
            SpecControlInfo::Handshake(h) => h.wf(),
            _ => true,
        }
    }
}

impl SpecPacket {
    /// Every field fits the width the wire format gives it.
    pub open spec fn wf(self) -> bool {
        match self.content {
            SpecPacketContent::Control(c) => c.wf(),
            SpecPacketContent::Data(d) => d.wf(),
        }
    }

    /// Whether this is a control packet (the top bit of the first word).
    pub open spec fn is_control(self) -> bool {
        self.content is Control
    }
}

impl Nak {
    /// Parses the body of a negative acknowledgment: the four bytes of the
    /// lost sequence number.
    pub fn from_raw(raw: &[u8]) -> (r: Result<Self, DecodeError>)
        ensures
            match r {
                Ok(nak) => raw@.len() == 4 && nak.lost_packet == crate::codec::dec_u32s(raw@),
                Err(e) => e == DecodeError::MalformedPacket && raw@.len() != 4,
            },
    {
        if raw.len() != 4 {
            return Err(DecodeError::MalformedPacket);
        }
        let lost = crate::codec::read_u32(raw, 0);
        proof {
            assert(raw@.subrange(0, 4) =~= raw@);
        }
        Ok(Nak { lost_packet: lost })
    }

    /// The body bytes of this negative acknowledgment: the lost sequence
    /// number, big-endian.
    pub fn raw_content(&self) -> (r: Vec<u8>)
        ensures
            r@ == crate::codec::enc_u32(self.lost_packet),
    {
        let mut res: Vec<u8> = Vec::new();
        crate::codec::push_u32(&mut res, self.lost_packet);
        proof {
            assert(res@ =~= crate::codec::enc_u32(self.lost_packet));
        }
        res
    }
}

} // verus!
