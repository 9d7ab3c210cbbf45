//! Transport packets: the four header bytes, the optional adaptation
//! field, and the payload.

use crate::bits::{spec_bits, spec_byte_bit, u32_from_bits, Bit};
use crate::codec::res_view;
use crate::mpeg::adaptation_field::{
    spec_parse_adaptation_field, AdaptationField, SpecAdaptationField,
};
use crate::mpeg::pes::{spec_parse_pes_packet, PesPacket, SpecPesPacket};
use crate::mpeg::ParseError;
use vstd::arithmetic::power2::lemma2_to64;
use vstd::prelude::*;
use vstd::slice::{slice_subrange, slice_to_vec};

verus! {

/// The byte every transport packet starts with.
pub const SYNC_BYTE: u8 = 0x47;

/// The four header bytes of a transport packet.
#[derive(Clone, Copy, Debug, PartialEq, Eq, Structural)]
pub struct Header {
    pub transport_error_indicator: bool,
    pub payload_unit_start_indicator: bool,
    pub transport_priority: bool,
    pub pid: u16,
    pub transport_scrambling_control: u8,
    pub adaptation_field_control: u8,
    pub continuity_counter: u8,
}

/// What `Header::from_raw` yields on a given buffer.
pub open spec fn spec_parse_header(s: Seq<u8>) -> Result<Header, ParseError> {
    if s.len() < 4 {
        Err(ParseError::TooShort)
    } else if s[0] != SYNC_BYTE {
        Err(ParseError::InvalidValue)
    } else {
        Ok(
            Header {
                transport_error_indicator: spec_byte_bit(s[1], 0) == 1,
                payload_unit_start_indicator: spec_byte_bit(s[1], 1) == 1,
                transport_priority: spec_byte_bit(s[1], 2) == 1,
                pid: spec_bits(s.subrange(1, 3), 3, 13) as u16,
                transport_scrambling_control: spec_bits(s.subrange(3, 4), 0, 2) as u8,
                adaptation_field_control: spec_bits(s.subrange(3, 4), 2, 2) as u8,
                continuity_counter: spec_bits(s.subrange(3, 4), 4, 4) as u8,
            },
        )
    }
}

impl Header {
    /// Reads the header: the sync byte, the indicator bits, the packet id,
    /// and the control bits.
    pub fn from_raw(raw: &[u8]) -> (r: Result<Self, ParseError>)
        ensures
            r == spec_parse_header(raw@),
    {
        if raw.len() < 4 {
            return Err(ParseError::TooShort);
        }
        if raw[0] != SYNC_BYTE {
            return Err(ParseError::InvalidValue);
        }
        proof {
            lemma2_to64();
        }
        let mid = slice_subrange(raw, 1, 3);
        let tail = slice_subrange(raw, 3, 4);
        Ok(
            Header {
                transport_error_indicator: raw[1].bit(0),
                payload_unit_start_indicator: raw[1].bit(1),
                transport_priority: raw[1].bit(2),
                pid: u32_from_bits(mid, 3, 13) as u16,
                transport_scrambling_control: u32_from_bits(tail, 0, 2) as u8,
                adaptation_field_control: u32_from_bits(tail, 2, 2) as u8,
                continuity_counter: u32_from_bits(tail, 4, 4) as u8,
            },
        )
    }
}

/// The adaptation field slot of a transport packet: absent, present but
/// empty (a zero length byte), or present with contents.
#[derive(Clone, Debug, PartialEq, Eq)]
pub enum AdaptationFieldOption {
    Absent,
    Empty,
    Present(AdaptationField),
}

/// Spec-level twin of `AdaptationFieldOption`.
pub enum SpecAdaptationFieldOption {
    Absent,
    Empty,
    Present(SpecAdaptationField),
}

impl View for AdaptationFieldOption {
    type V = SpecAdaptationFieldOption;

    open spec fn view(&self) -> SpecAdaptationFieldOption {
        match self {
            AdaptationFieldOption::Absent => SpecAdaptationFieldOption::Absent,
            AdaptationFieldOption::Empty => SpecAdaptationFieldOption::Empty,
            AdaptationFieldOption::Present(af) => SpecAdaptationFieldOption::Present(af@),
        }
    }
}

/// The payload of a transport packet: a packetized elementary stream
/// packet where the header announces the start of one, raw bytes
/// otherwise.
#[derive(Clone, Debug, PartialEq, Eq)]
pub enum Payload {
    Pes(PesPacket),
    Data(Vec<u8>),
}

/// Spec-level twin of `Payload`.
pub enum SpecPayload {
    Pes(SpecPesPacket),
    Data(Seq<u8>),
}

impl View for Payload {
    type V = SpecPayload;

    open spec fn view(&self) -> SpecPayload {
        match self {
            Payload::Pes(p) => SpecPayload::Pes(p@),
            Payload::Data(d) => SpecPayload::Data(d@),
        }
    }
}

impl Payload {
    /// Reads a payload that starts a packetized elementary stream packet.
    pub fn pes_from_raw(raw: &[u8]) -> (r: Result<Self, ParseError>)
        ensures
            (match (r, spec_parse_pes_packet(raw@)) {
                (Ok(p), Ok(sp)) => p@ == SpecPayload::Pes(sp),
                (Err(e1), Err(e2)) => e1 == e2,
                _ => false,
            }),
    {
        match PesPacket::from_raw(raw) {
            Ok(p) => Ok(Payload::Pes(p)),
            Err(e) => Err(e),
        }
    }
}

/// A transport packet: header, adaptation field slot, and payload.
#[derive(Clone, Debug, PartialEq, Eq)]
pub struct TransportPacket {
    pub header: Header,
    pub adaptation_field: AdaptationFieldOption,
    pub payload: Option<Payload>,
}

/// Spec-level twin of `TransportPacket`.
pub struct SpecTransportPacket {
    pub header: Header,
    pub adaptation_field: SpecAdaptationFieldOption,
    pub payload: Option<SpecPayload>,
}

impl View for TransportPacket {
    type V = SpecTransportPacket;

    open spec fn view(&self) -> SpecTransportPacket {
        SpecTransportPacket {
            header: self.header,
            adaptation_field: self.adaptation_field@,
            payload: match self.payload {
                Some(p) => Some(p@),
                None => None,
            },
        }
    }
}

/// What `TransportPacket::from_raw` yields on a given buffer.
pub open spec fn spec_parse_transport_packet(s: Seq<u8>) -> Result<
    SpecTransportPacket,
    ParseError,
> {
    match spec_parse_header(s) {
        Err(e) => Err(e),
        Ok(header) => {
            if header.adaptation_field_control & 0b10 == 0 {
                spec_finish_transport_packet(s, header, SpecAdaptationFieldOption::Absent, 0)
            } else if s.len() < 5 {
                Err(ParseError::TooShort)
            } else if s[4] == 0 {
                spec_finish_transport_packet(s, header, SpecAdaptationFieldOption::Empty, 1)
            } else {
                match spec_parse_adaptation_field(s.skip(4)) {
                    Err(e) => Err(e),
                    Ok(af) => spec_finish_transport_packet(
                        s,
                        header,
                        SpecAdaptationFieldOption::Present(af),
                        af.length + 1,
                    ),
                }
            }
        },
    }
}

/// The payload part of a parsed transport packet, after an adaptation
/// field slot of `af_size` bytes.
pub open spec fn spec_finish_transport_packet(
    s: Seq<u8>,
    header: Header,
    af: SpecAdaptationFieldOption,
    af_size: int,
) -> Result<SpecTransportPacket, ParseError> {
    if header.adaptation_field_control & 0b01 == 0 {
        Ok(SpecTransportPacket { header, adaptation_field: af, payload: None })
    } else if s.len() < 4 + af_size {
        Err(ParseError::TooShort)
    } else {
        let body = s.skip(4 + af_size);
        if header.payload_unit_start_indicator {
            match spec_parse_pes_packet(body) {
                Err(e) => Err(e),
                Ok(p) => Ok(
                    SpecTransportPacket {
                        header,
                        adaptation_field: af,
                        payload: Some(SpecPayload::Pes(p)),
                    },
                ),
            }
        } else {
            Ok(
                SpecTransportPacket {
                    header,
                    adaptation_field: af,
                    payload: Some(SpecPayload::Data(body)),
                },
            )
        }
    }
}

impl TransportPacket {
    /// Reads a transport packet: the header, then the adaptation field
    /// when the control bits announce one (a zero length byte means an
    /// empty one), then the payload when the control bits announce one —
    /// a packetized elementary stream packet where the header marks the
    /// start of a payload unit, raw bytes otherwise.
    pub fn from_raw(raw: &[u8]) -> (r: Result<Self, ParseError>)
        ensures
            res_view(r) == spec_parse_transport_packet(raw@),
    {
        let header = match Header::from_raw(raw) {
            Ok(h) => h,
            Err(e) => {
                return Err(e);
            },
        };

        let mut af_size: usize = 0;
        let adaptation_field: AdaptationFieldOption = if header.adaptation_field_control & 0b10
            == 0 {
            AdaptationFieldOption::Absent
        } else if raw.len() < 5 {
            return Err(ParseError::TooShort);
        } else if raw[4] == 0 {
            af_size = 1;
            AdaptationFieldOption::Empty
        } else {
            match AdaptationField::from_raw(slice_subrange(raw, 4, raw.len())) {
                Ok(af) => {
                    af_size = af.length as usize + 1;
                    AdaptationFieldOption::Present(af)
                },
                Err(e) => {
                    return Err(e);
                },
            }
        };
        proof {
            assert(raw@.subrange(4, raw@.len() as int) =~= raw@.skip(4));
        }

        let payload: Option<Payload> = if header.adaptation_field_control & 0b01 == 0 {
            None
        } else if raw.len() < 4 + af_size {
            return Err(ParseError::TooShort);
        } else {
            let body = slice_subrange(raw, 4 + af_size, raw.len());
            proof {
                assert(raw@.subrange(4 + af_size as int, raw@.len() as int) =~= raw@.skip(
                    4 + af_size as int,
                ));
            }
            if header.payload_unit_start_indicator {
                match Payload::pes_from_raw(body) {
                    Ok(p) => Some(p),
                    Err(e) => {
                        return Err(e);
                    },
                }
            } else {
                Some(Payload::Data(slice_to_vec(body)))
            }
        };

        Ok(Self { header, adaptation_field, payload })
    }
}

} // verus!
