//! The adaptation field of a transport packet.

use crate::bits::{spec_bits, spec_byte_bit, u64_from_bits, Bit};
use crate::codec::res_view;
use crate::mpeg::adaptation_field_extension::{spec_parse_afe, AdaptationFieldExtension};
use crate::mpeg::ParseError;
use vstd::arithmetic::power2::lemma2_to64;
use vstd::prelude::*;
use vstd::slice::{slice_subrange, slice_to_vec};

verus! {

/// Reserved for the interpreted contents of an adaptation field.
#[derive(Clone, Copy, Debug, PartialEq, Eq, Structural)]
pub struct AdaptationFieldContent {}

/// The adaptation field: a length, the indicator bits, and the optional
/// fields its flags announce.
#[derive(Clone, Debug, PartialEq, Eq)]
pub struct AdaptationField {
    pub length: u8,
    pub discontinuity_indicator: bool,
    pub random_access_indicator: bool,
    pub elementary_stream_priority_indicator: bool,
    pub pcr: Option<u64>,
    pub opcr: Option<u64>,
    pub splice_countdown: Option<u8>,
    pub transport_private_data: Option<Vec<u8>>,
    pub adaptation_field_extension: Option<AdaptationFieldExtension>,
}

/// Spec-level twin of `AdaptationField`.
pub struct SpecAdaptationField {
    pub length: u8,
    pub discontinuity_indicator: bool,
    pub random_access_indicator: bool,
    pub elementary_stream_priority_indicator: bool,
    pub pcr: Option<u64>,
    pub opcr: Option<u64>,
    pub splice_countdown: Option<u8>,
    pub transport_private_data: Option<Seq<u8>>,
    pub adaptation_field_extension: Option<AdaptationFieldExtension>,
}

impl View for AdaptationField {
    type V = SpecAdaptationField;

    open spec fn view(&self) -> SpecAdaptationField {
        SpecAdaptationField {
            length: self.length,
            discontinuity_indicator: self.discontinuity_indicator,
            random_access_indicator: self.random_access_indicator,
            elementary_stream_priority_indicator: self.elementary_stream_priority_indicator,
            pcr: self.pcr,
            opcr: self.opcr,
            splice_countdown: self.splice_countdown,
            transport_private_data: match self.transport_private_data {
                Some(v) => Some(v@),
                None => None,
            },
            adaptation_field_extension: self.adaptation_field_extension,
        }
    }
}

/// The program clock reference carried in six bytes: a 33-bit base, six
/// reserved bits, and a 9-bit extension, combined as `base * 300 + ext`.
pub open spec fn spec_pcr(six: Seq<u8>) -> u64 {
    (spec_bits(six, 0, 33) * 300 + spec_bits(six, 39, 9)) as u64
}

/// What `AdaptationField::from_raw` yields on a given buffer.
pub open spec fn spec_parse_adaptation_field(s: Seq<u8>) -> Result<
    SpecAdaptationField,
    ParseError,
> {
    if s.len() < 2 {
        Err(ParseError::TooShort)
    } else {
        let flags = s[1] & 0x1F;
        let pcr_p = spec_byte_bit(flags, 3) == 1;
        let opcr_p = spec_byte_bit(flags, 4) == 1;
        let spl_p = spec_byte_bit(flags, 5) == 1;
        let priv_p = spec_byte_bit(flags, 6) == 1;
        let ext_p = spec_byte_bit(flags, 7) == 1;
        let o_opcr = 2 + (if pcr_p {
            6int
        } else {
            0int
        });
        let o_spl = o_opcr + (if opcr_p {
            6int
        } else {
            0int
        });
        let o_priv = o_spl + (if spl_p {
            1int
        } else {
            0int
        });
        if s.len() < o_priv {
            Err(ParseError::TooShort)
        } else if priv_p && s.len() < o_priv + 1 {
            Err(ParseError::TooShort)
        } else {
            let priv_len: int = if priv_p {
                s[o_priv] as int
            } else {
                0
            };
            let o_ext = if priv_p {
                o_priv + 1 + priv_len
            } else {
                o_priv
            };
            if priv_p && s.len() < o_ext {
                Err(ParseError::TooShort)
            } else {
                let head = SpecAdaptationField {
                    length: s[0],
                    discontinuity_indicator: spec_byte_bit(s[1], 0) == 1,
                    random_access_indicator: spec_byte_bit(s[1], 1) == 1,
                    elementary_stream_priority_indicator: spec_byte_bit(s[1], 3) == 1,
                    pcr: if pcr_p {
                        Some(spec_pcr(s.subrange(2, 8)))
                    } else {
                        None
                    },
                    opcr: if opcr_p {
                        Some(spec_pcr(s.subrange(o_opcr, o_opcr + 6)))
                    } else {
                        None
                    },
                    splice_countdown: if spl_p {
                        Some(s[o_spl])
                    } else {
                        None
                    },
                    transport_private_data: if priv_p {
                        Some(s.subrange(o_priv + 1, o_ext))
                    } else {
                        None
                    },
                    adaptation_field_extension: None,
                };
                if ext_p {
                    match spec_parse_afe(s.skip(o_ext)) {
                        Ok(afe) => Ok(
                            SpecAdaptationField { adaptation_field_extension: Some(afe), ..head },
                        ),
                        Err(e) => Err(e),
                    }
                } else {
                    Ok(head)
                }
            }
        }
    }
}

/// Reads the six bytes of a program clock reference starting at `i`.
fn read_pcr(raw: &[u8], i: usize) -> (r: u64)
    requires
        i + 6 <= raw@.len(),
    ensures
        r == spec_pcr(raw@.subrange(i as int, i as int + 6)),
{
    let n = raw.len();
    let sub = slice_subrange(raw, i, i + 6);
    let base = u64_from_bits(sub, 0, 33);
    let ext = u64_from_bits(sub, 39, 9);
    proof {
        lemma2_to64();
        vstd::arithmetic::power2::lemma2_to64_rest();
    }
    base * 300 + ext
}

impl AdaptationField {
    /// Reads an adaptation field: the length byte, the indicator and flag
    /// byte, then the fields the flags announce, in their wire order; the
    /// buffer must reach as far as the flags announce.
    pub fn from_raw(raw: &[u8]) -> (r: Result<Self, ParseError>)
        ensures
            res_view(r) == spec_parse_adaptation_field(raw@),
    {
        if raw.len() < 2 {
            return Err(ParseError::TooShort);
        }
        let length = raw[0];
        let discontinuity_indicator = raw[1].bit(0);
        let random_access_indicator = raw[1].bit(1);
        let elementary_stream_priority_indicator = raw[1].bit(3);
        let flags = raw[1] & 0b0001_1111;

        let pcr_p = flags.bit(3);
        let opcr_p = flags.bit(4);
        let spl_p = flags.bit(5);
        let priv_p = flags.bit(6);
        let ext_p = flags.bit(7);

        let o_opcr: usize = 2 + (if pcr_p {
            6
        } else {
            0
        });
        let o_spl: usize = o_opcr + (if opcr_p {
            6
        } else {
            0
        });
        let o_priv: usize = o_spl + (if spl_p {
            1
        } else {
            0
        });
        if raw.len() < o_priv {
            return Err(ParseError::TooShort);
        }
        if priv_p && raw.len() < o_priv + 1 {
            return Err(ParseError::TooShort);
        }

        let pcr = if pcr_p {
            Some(read_pcr(raw, 2))
        } else {
            None
        };
        let opcr = if opcr_p {
            Some(read_pcr(raw, o_opcr))
        } else {
            None
        };
        let splice_countdown = if spl_p {
            Some(raw[o_spl])
        } else {
            None
        };

        let mut o_ext: usize = o_priv;
        let transport_private_data = if priv_p {
            let priv_len = raw[o_priv] as usize;
            if raw.len() - o_priv - 1 < priv_len {
                return Err(ParseError::TooShort);
            }
            o_ext = o_priv + 1 + priv_len;
            Some(slice_to_vec(slice_subrange(raw, o_priv + 1, o_ext)))
        } else {
            None
        };

        let adaptation_field_extension = if ext_p {
            match AdaptationFieldExtension::from_raw(slice_subrange(raw, o_ext, raw.len())) {
                Ok(afe) => Some(afe),
                Err(e) => {
                    return Err(e);
                },
            }
        } else {
            None
        };

        Ok(
            Self {
                length,
                discontinuity_indicator,
                random_access_indicator,
                elementary_stream_priority_indicator,
                pcr,
                opcr,
                splice_countdown,
                transport_private_data,
                adaptation_field_extension,
            },
        )
    }

    /// The bytes this field occupies: its length byte plus the length it
    /// announces.
    pub fn size(&self) -> (r: usize)
        ensures
            r == self.length + 1,
    {
        self.length as usize + 1
    }
}

} // verus!
