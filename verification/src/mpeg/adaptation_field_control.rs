//! The two-bit adaptation field control of a transport packet header.

use crate::mpeg::ParseError;
use vstd::prelude::*;

verus! {

/// What a transport packet carries after its header.
#[derive(Clone, Copy, Debug, PartialEq, Eq, Structural)]
pub enum AdaptationFieldControl {
    AdaptationFieldOnly,
    PayloadOnly,
    AdaptationFieldAndPayload,
}

impl AdaptationFieldControl {
    /// Reads the two-bit control value; 0 is reserved and rejected.
    pub fn from_raw(raw: u8) -> (r: Result<Self, ParseError>)
        ensures
            (match r {
                Ok(c) => (raw == 1 && c == AdaptationFieldControl::PayloadOnly) || (raw == 2 && c
                    == AdaptationFieldControl::AdaptationFieldOnly) || (raw == 3 && c
                    == AdaptationFieldControl::AdaptationFieldAndPayload),
                Err(e) => e == ParseError::InvalidValue && raw != 1 && raw != 2 && raw != 3,
            }),
    {
        match raw {
            0b01 => Ok(Self::PayloadOnly),
            0b10 => Ok(Self::AdaptationFieldOnly),
            0b11 => Ok(Self::AdaptationFieldAndPayload),
            _ => Err(ParseError::InvalidValue),
        }
    }

    /// Whether a payload follows.
    pub fn payload(&self) -> (r: bool)
        ensures
            r == !(self is AdaptationFieldOnly),
    {
        !matches!(self, Self::AdaptationFieldOnly)
    }

    /// Whether an adaptation field follows.
    pub fn adaptation_field(&self) -> (r: bool)
        ensures
            r == !(self is PayloadOnly),
    {
        !matches!(self, Self::PayloadOnly)
    }
}

} // verus!
