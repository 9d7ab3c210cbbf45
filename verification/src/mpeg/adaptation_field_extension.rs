//! The optional extension at the end of an adaptation field.

use crate::bits::{spec_bits, spec_byte_bit, u32_from_bits, u64_from_bits, Bit};
use crate::mpeg::ParseError;
use vstd::arithmetic::power2::lemma2_to64;
use vstd::prelude::*;
use vstd::slice::slice_subrange;

verus! {

/// The legal-time-window announcement.
#[derive(Clone, Copy, Debug, PartialEq, Eq, Structural)]
pub struct AdaptationFieldExtensionLtw {
    pub valid_flag: bool,
    pub offset: u16,
}

/// The seamless splice announcement.
#[derive(Clone, Copy, Debug, PartialEq, Eq, Structural)]
pub struct AdaptationFieldExtensionSeamlessSplice {
    pub splice_type: u8,
    pub dts_next_au: u64,
}

/// The adaptation field extension: a length, three flags, and the fields
/// the flags announce.
#[derive(Clone, Copy, Debug, PartialEq, Eq, Structural)]
pub struct AdaptationFieldExtension {
    pub length: u8,
    pub ltw: Option<AdaptationFieldExtensionLtw>,
    pub piecewise_rate: Option<u32>,
    pub splice_type: Option<AdaptationFieldExtensionSeamlessSplice>,
}

/// The bytes the fields of an extension occupy after its two leading
/// bytes, as announced by the flags byte.
pub open spec fn spec_afe_fields_end(flags: u8) -> int {
    2 + (if spec_byte_bit(flags, 0) == 1 {
        2int
    } else {
        0int
    }) + (if spec_byte_bit(flags, 1) == 1 {
        3int
    } else {
        0int
    }) + (if spec_byte_bit(flags, 2) == 1 {
        5int
    } else {
        0int
    })
}

/// What `AdaptationFieldExtension::from_raw` yields on a given buffer.
pub open spec fn spec_parse_afe(s: Seq<u8>) -> Result<AdaptationFieldExtension, ParseError> {
    if s.len() < 2 {
        Err(ParseError::TooShort)
    } else {
        let flags = s[1];
        let ltw_p = spec_byte_bit(flags, 0) == 1;
        let pw_p = spec_byte_bit(flags, 1) == 1;
        let sp_p = spec_byte_bit(flags, 2) == 1;
        let o_pw = 2 + (if ltw_p {
            2int
        } else {
            0int
        });
        let o_sp = o_pw + (if pw_p {
            3int
        } else {
            0int
        });
        if s.len() < spec_afe_fields_end(flags) {
            Err(ParseError::TooShort)
        } else {
            Ok(
                AdaptationFieldExtension {
                    length: s[0],
                    ltw: if ltw_p {
                        Some(
                            AdaptationFieldExtensionLtw {
                                valid_flag: spec_byte_bit(s[2], 0) == 1,
                                offset: spec_bits(s.subrange(2, 4), 1, 15) as u16,
                            },
                        )
                    } else {
                        None
                    },
                    piecewise_rate: if pw_p {
                        Some(spec_bits(s.subrange(o_pw, o_pw + 3), 2, 22) as u32)
                    } else {
                        None
                    },
                    splice_type: if sp_p {
                        Some(
                            AdaptationFieldExtensionSeamlessSplice {
                                splice_type: spec_bits(s.subrange(o_sp, o_sp + 5), 0, 4) as u8,
                                dts_next_au: ((spec_bits(s.subrange(o_sp, o_sp + 5), 4, 3) as u64)
                                    << 29) | ((spec_bits(s.subrange(o_sp, o_sp + 5), 8, 15) as u64)
                                    << 15) | (spec_bits(s.subrange(o_sp, o_sp + 5), 16, 15) as u64),
                            },
                        )
                    } else {
                        None
                    },
                },
            )
        }
    }
}

impl AdaptationFieldExtension {
    /// Reads an adaptation field extension: the length byte, the flags
    /// byte, then the announced fields; the buffer must reach as far as
    /// the flags announce.
    pub fn from_raw(raw: &[u8]) -> (r: Result<Self, ParseError>)
        ensures
            r == spec_parse_afe(raw@),
    {
        if raw.len() < 2 {
            return Err(ParseError::TooShort);
        }
        let length = raw[0];
        let flags = raw[1];

        let ltw_p = flags.bit(0);
        let pw_p = flags.bit(1);
        let sp_p = flags.bit(2);
        let o_pw: usize = 2 + (if ltw_p {
            2
        } else {
            0
        });
        let o_sp: usize = o_pw + (if pw_p {
            3
        } else {
            0
        });
        let end: usize = o_sp + (if sp_p {
            5
        } else {
            0
        });
        if raw.len() < end {
            return Err(ParseError::TooShort);
        }

        proof {
            lemma2_to64();
        }
        let ltw = if ltw_p {
            let sub = slice_subrange(raw, 2, 4);
            Some(
                AdaptationFieldExtensionLtw {
                    valid_flag: raw[2].bit(0),
                    offset: u32_from_bits(sub, 1, 15) as u16,
                },
            )
        } else {
            None
        };

        let piecewise_rate = if pw_p {
            let sub = slice_subrange(raw, o_pw, o_pw + 3);
            Some(u32_from_bits(sub, 2, 22))
        } else {
            None
        };

        let splice_type = if sp_p {
            let sub = slice_subrange(raw, o_sp, o_sp + 5);
            let splice = u64_from_bits(sub, 0, 4) as u8;
            let d1 = u64_from_bits(sub, 4, 3);
            let d2 = u64_from_bits(sub, 8, 15);
            let d3 = u64_from_bits(sub, 16, 15);
            Some(
                AdaptationFieldExtensionSeamlessSplice {
                    splice_type: splice,
                    dts_next_au: (d1 << 29u64) | (d2 << 15u64) | d3,
                },
            )
        } else {
            None
        };

        Ok(Self { length, ltw, piecewise_rate, splice_type })
    }

    /// The bytes this extension occupies: its length byte plus the length
    /// it announces.
    pub fn size(&self) -> (r: usize)
        ensures
            r == self.length + 1,
    {
        self.length as usize + 1
    }
}

} // verus!
