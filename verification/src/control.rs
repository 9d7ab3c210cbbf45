//! A minimal control-packet reader kept alongside the full codec: it
//! recognizes the handshake control type only, and reports any other
//! recognized header as an unknown control type rather than guessing.

use crate::codec::{
    dec_u16s, decode_handshake, enc_u16, push_handshake, read_u16, spec_decode_handshake,
    spec_encode_handshake,
};
use crate::packet::{DecodeError, Handshake, CONTROL_TYPE_HANDSHAKE};
use vstd::prelude::*;
use vstd::slice::slice_subrange;

verus! {

/// Control information this reader understands: the handshake exchange.
#[derive(Clone, Debug, PartialEq, Eq)]
pub enum ControlInformation {
    Handshake(Handshake),
}

impl View for ControlInformation {
    type V = crate::packet::SpecHandshake;

    open spec fn view(&self) -> crate::packet::SpecHandshake {
        match self {
            ControlInformation::Handshake(h) => h@,
        }
    }
}

/// What `ControlInformation::from_raw` yields on a given datagram: the
/// control type is the first header word's low 15 bits, the body follows
/// the 16 header bytes, and only the handshake type is understood.
pub open spec fn spec_control_information(s: Seq<u8>) -> Result<
    crate::packet::SpecHandshake,
    DecodeError,
> {
    if s.len() < 16 {
        Err(DecodeError::MalformedPacket)
    } else if dec_u16s(s.subrange(0, 2)) & 0x7FFF == CONTROL_TYPE_HANDSHAKE {
        spec_decode_handshake(s.skip(16))
    } else {
        Err(DecodeError::UnknownControlType)
    }
}

impl ControlInformation {
    /// Reads the control information out of a whole control datagram.
    pub fn from_raw(raw: &[u8]) -> (r: Result<Self, DecodeError>)
        ensures
            (match r {
                Ok(c) => spec_control_information(raw@) == Ok::<
                    crate::packet::SpecHandshake,
                    DecodeError,
                >(c@),
                Err(e) => spec_control_information(raw@) == Err::<
                    crate::packet::SpecHandshake,
                    DecodeError,
                >(e),
            }),
    {
        if raw.len() < 16 {
            return Err(DecodeError::MalformedPacket);
        }
        let control_type = read_u16(raw, 0) & 0x7FFF;
        if control_type == CONTROL_TYPE_HANDSHAKE {
            let content = slice_subrange(raw, 16, raw.len());
            match decode_handshake(content) {
                Ok(h) => Ok(ControlInformation::Handshake(h)),
                Err(e) => Err(e),
            }
        } else {
            Err(DecodeError::UnknownControlType)
        }
    }

    /// The eight header bytes this control information starts with on the
    /// wire: the control flag and type word, then the reserved subtype and
    /// info bytes, all zero for a handshake.
    pub fn raw_header(&self) -> (r: Vec<u8>)
        ensures
            r@ == enc_u16(0x8000u16 | CONTROL_TYPE_HANDSHAKE) + enc_u16(0) + enc_u16(0) + enc_u16(
                0,
            ),
    {
        let mut res: Vec<u8> = Vec::new();
        crate::codec::push_u16(&mut res, 0x8000u16 | CONTROL_TYPE_HANDSHAKE);
        crate::codec::push_u16(&mut res, 0);
        crate::codec::push_u16(&mut res, 0);
        crate::codec::push_u16(&mut res, 0);
        res
    }

    /// The encoded body of this control information.
    pub fn raw_content(&self) -> (r: Vec<u8>)
        ensures
            r@ == spec_encode_handshake(self@),
    {
        match self {
            ControlInformation::Handshake(h) => {
                let mut res: Vec<u8> = Vec::new();
                push_handshake(&mut res, h);
                proof {
                    assert(res@ =~= spec_encode_handshake(self@));
                }
                res
            },
        }
    }
}

} // verus!
