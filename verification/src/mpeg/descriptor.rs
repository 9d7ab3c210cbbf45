//! Program descriptors: tag, length, then the tag-specific payload.

use crate::codec::dec_u32s;
use crate::codec::read_u32;
use crate::mpeg::ParseError;
use vstd::prelude::*;

verus! {

/// Descriptor tag of the MPEG-4 video descriptor.
pub const MPEG4_VIDEO_DESCRIPTOR_TAG: u8 = 27;

/// Descriptor tag of the private data indicator descriptor.
pub const PRIVATE_DATA_INDICATOR_DESCRIPTOR_TAG: u8 = 15;

/// The profile and level announced for an MPEG-4 video stream.
#[derive(Clone, Copy, Debug, PartialEq, Eq, Structural)]
pub struct Mpeg4VideoDescriptor {
    pub mpeg4_visual_profile_and_level: u8,
}

impl Mpeg4VideoDescriptor {
    pub const DESCRIPTOR_LENGTH: u8 = 1;

    pub const DESCRIPTOR_TAG: u8 = MPEG4_VIDEO_DESCRIPTOR_TAG;

    /// Reads the descriptor payload: the byte after tag and length.
    pub fn deserialize(raw: &[u8]) -> (r: Result<Self, ParseError>)
        ensures
            (match r {
                Ok(d) => raw@.len() >= 3 && d.mpeg4_visual_profile_and_level == raw@[2],
                Err(e) => e == ParseError::TooShort && raw@.len() < 3,
            }),
    {
        if raw.len() < 3 {
            return Err(ParseError::TooShort);
        }
        Ok(Self { mpeg4_visual_profile_and_level: raw[2] })
    }

    /// The bytes this descriptor occupies: tag, length, and its payload.
    pub fn size(&self) -> (r: usize)
        ensures
            r == Self::DESCRIPTOR_LENGTH + 2,
    {
        Self::DESCRIPTOR_LENGTH as usize + 2
    }
}

/// The private data indicator a stream announces.
#[derive(Clone, Copy, Debug, PartialEq, Eq, Structural)]
pub struct PrivateDataIndicatorDescriptor {
    pub private_data_indicator: u32,
}

impl PrivateDataIndicatorDescriptor {
    pub const DESCRIPTOR_LENGTH: u8 = 4;

    /// Reads the descriptor payload: the four bytes after tag and length.
    pub fn from_raw(raw: &[u8]) -> (r: Result<Self, ParseError>)
        ensures
            (match r {
                Ok(d) => raw@.len() >= 6 && d.private_data_indicator == dec_u32s(
                    raw@.subrange(2, 6),
                ),
                Err(e) => e == ParseError::TooShort && raw@.len() < 6,
            }),
    {
        if raw.len() < 6 {
            return Err(ParseError::TooShort);
        }
        Ok(Self { private_data_indicator: read_u32(raw, 2) })
    }

    /// The bytes this descriptor occupies: tag, length, and its payload.
    pub fn size(&self) -> (r: usize)
        ensures
            r == Self::DESCRIPTOR_LENGTH + 2,
    {
        Self::DESCRIPTOR_LENGTH as usize + 2
    }
}

/// A recognized program descriptor.
#[derive(Clone, Copy, Debug, PartialEq, Eq, Structural)]
pub enum Descriptor {
    PrivateDataIndicator(PrivateDataIndicatorDescriptor),
    Mpeg4Video(Mpeg4VideoDescriptor),
}

} // verus!
