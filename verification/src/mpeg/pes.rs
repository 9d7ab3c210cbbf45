//! Packetized elementary stream packets and their headers.

use crate::bits::{spec_bits, spec_byte_bit, u32_from_bits, u64_from_bits, Bit};
use crate::codec::{dec_u16s, read_u16, res_view};
use crate::mpeg::ParseError;
use vstd::arithmetic::power2::lemma2_to64;
use vstd::prelude::*;
use vstd::slice::{slice_subrange, slice_to_vec};

verus! {

/// Stream ids whose packets carry no PES header.
pub const STREAM_ID_PROGRAM_STREAM_MAP: u8 = 0b1011_1100;

pub const STREAM_ID_PRIVATE_STREAM_1: u8 = 0b1011_1101;

pub const STREAM_ID_PADDING_STREAM: u8 = 0b1011_1110;

pub const STREAM_ID_PRIVATE_STREAM_2: u8 = 0b1011_1111;

pub const STREAM_ID_ECM_STREAM: u8 = 0b1111_0000;

pub const STREAM_ID_EMM_STREAM: u8 = 0b1111_0001;

pub const STREAM_ID_PROGRAM_STREAM_DIRECTORY: u8 = 0b1111_1111;

pub const STREAM_ID_DSMCC_STREAM: u8 = 0b1111_0010;

pub const STREAM_ID_ITU_T_REC_H2221_TYPE_E_STREAM: u8 = 0b1111_1000;

/// Whether packets of this stream id carry no PES header.
pub open spec fn spec_has_no_header(stream_id: u8) -> bool {
    ||| stream_id == STREAM_ID_PROGRAM_STREAM_MAP
    ||| stream_id == STREAM_ID_PRIVATE_STREAM_1
    ||| stream_id == STREAM_ID_PADDING_STREAM
    ||| stream_id == STREAM_ID_PRIVATE_STREAM_2
    ||| stream_id == STREAM_ID_ECM_STREAM
    ||| stream_id == STREAM_ID_EMM_STREAM
    ||| stream_id == STREAM_ID_PROGRAM_STREAM_DIRECTORY
    ||| stream_id == STREAM_ID_DSMCC_STREAM
    ||| stream_id == STREAM_ID_ITU_T_REC_H2221_TYPE_E_STREAM
}

/// Whether the bytes of a PES packet start with a header.
pub fn has_no_header(stream_id: u8) -> (r: bool)
    ensures
        r == spec_has_no_header(stream_id),
{
    stream_id == STREAM_ID_PROGRAM_STREAM_MAP || stream_id == STREAM_ID_PRIVATE_STREAM_1
        || stream_id == STREAM_ID_PADDING_STREAM || stream_id == STREAM_ID_PRIVATE_STREAM_2
        || stream_id == STREAM_ID_ECM_STREAM || stream_id == STREAM_ID_EMM_STREAM || stream_id
        == STREAM_ID_PROGRAM_STREAM_DIRECTORY || stream_id == STREAM_ID_DSMCC_STREAM || stream_id
        == STREAM_ID_ITU_T_REC_H2221_TYPE_E_STREAM
}

/// Whether an elementary stream is the original or a copy.
#[derive(Clone, Copy, Debug, PartialEq, Eq, Structural)]
pub enum OriginalOrCopy {
    Original,
    Copy,
}

impl From<bool> for OriginalOrCopy {
    /// `true` marks the original, `false` a copy.
    fn from(value: bool) -> (r: Self) {
        if value {
            Self::Original
        } else {
            Self::Copy
        }
    }
}

impl vstd::std_specs::convert::FromSpecImpl<bool> for OriginalOrCopy {
    open spec fn obeys_from_spec() -> bool {
        true
    }

    open spec fn from_spec(value: bool) -> Self {
        if value {
            Self::Original
        } else {
            Self::Copy
        }
    }
}

/// The presentation timestamp of a PES header, alone or with a decode
/// timestamp.
#[derive(Clone, Copy, Debug, PartialEq, Eq, Structural)]
pub enum PtsDts {
    Pts { pts: u64 },
    PtsDts { pts: u64, dts: u64 },
}

/// The 33-bit presentation timestamp spread over the first five bytes.
pub open spec fn spec_pts(s: Seq<u8>) -> u64 {
    ((spec_bits(s, 4, 3) as u64) << 29) | ((spec_bits(s, 8, 15) as u64) << 15) | (spec_bits(
        s,
        16,
        15,
    ) as u64)
}

/// The 33-bit decode timestamp that follows a presentation timestamp.
pub open spec fn spec_dts(s: Seq<u8>) -> u64 {
    ((spec_bits(s, 44, 3) as u64) << 29) | ((spec_bits(s, 48, 15) as u64) << 15) | (spec_bits(
        s,
        66,
        15,
    ) as u64)
}

impl PtsDts {
    /// Reads a lone presentation timestamp.
    pub fn pts_from_raw(raw: &[u8]) -> (r: Self)
        requires
            raw@.len() >= 4,
        ensures
            r == (PtsDts::Pts { pts: spec_pts(raw@) }),
    {
        let b1 = u64_from_bits(raw, 4, 3);
        let b2 = u64_from_bits(raw, 8, 15);
        let b3 = u64_from_bits(raw, 16, 15);
        Self::Pts { pts: (b1 << 29u64) | (b2 << 15u64) | b3 }
    }

    /// Reads a presentation timestamp followed by a decode timestamp.
    pub fn pts_dts_from_raw(raw: &[u8]) -> (r: Self)
        requires
            raw@.len() >= 11,
        ensures
            r == (PtsDts::PtsDts { pts: spec_pts(raw@), dts: spec_dts(raw@) }),
    {
        let p1 = u64_from_bits(raw, 4, 3);
        let p2 = u64_from_bits(raw, 8, 15);
        let p3 = u64_from_bits(raw, 16, 15);
        let d1 = u64_from_bits(raw, 44, 3);
        let d2 = u64_from_bits(raw, 48, 15);
        let d3 = u64_from_bits(raw, 66, 15);
        Self::PtsDts {
            pts: (p1 << 29u64) | (p2 << 15u64) | p3,
            dts: (d1 << 29u64) | (d2 << 15u64) | d3,
        }
    }

    /// The presentation timestamp, whichever variant holds it.
    pub fn pts(&self) -> (r: u64)
        ensures
            r == (match *self {
                PtsDts::Pts { pts } => pts,
                PtsDts::PtsDts { pts, .. } => pts,
            }),
    {
        match self {
            PtsDts::Pts { pts } => *pts,
            PtsDts::PtsDts { pts, .. } => *pts,
        }
    }
}

/// The extension at the end of a PES header.
#[derive(Clone, Debug, PartialEq, Eq)]
pub struct PesExtension {
    pub pes_private_data: Option<u128>,
    /// The length byte of the pack header field; the field itself is
    /// skipped.
    pub pack_header_field: Option<u8>,
    pub program_packet_seq_cntr: Option<u8>,
    pub pstd_buffer: Option<u16>,
    pub pes_extension_field_data: Option<Vec<u8>>,
}

/// Spec-level twin of `PesExtension`.
pub struct SpecPesExtension {
    pub pes_private_data: Option<u128>,
    pub pack_header_field: Option<u8>,
    pub program_packet_seq_cntr: Option<u8>,
    pub pstd_buffer: Option<u16>,
    pub pes_extension_field_data: Option<Seq<u8>>,
}

impl View for PesExtension {
    type V = SpecPesExtension;

    open spec fn view(&self) -> SpecPesExtension {
        SpecPesExtension {
            pes_private_data: self.pes_private_data,
            pack_header_field: self.pack_header_field,
            program_packet_seq_cntr: self.program_packet_seq_cntr,
            pstd_buffer: self.pstd_buffer,
            pes_extension_field_data: match self.pes_extension_field_data {
                Some(v) => Some(v@),
                None => None,
            },
        }
    }
}

/// The 128 private data bits as one big-endian value.
pub open spec fn spec_private_data(sixteen: Seq<u8>) -> u128 {
    ((spec_bits(sixteen, 0, 64) as u128) << 64) | (spec_bits(sixteen, 64, 64) as u128)
}

/// What `PesExtension::from_raw` yields on a given buffer.
pub open spec fn spec_parse_pes_extension(s: Seq<u8>) -> Result<SpecPesExtension, ParseError> {
    if s.len() < 1 {
        Err(ParseError::TooShort)
    } else {
        let flags = s[0];
        let priv_p = spec_byte_bit(flags, 0) == 1;
        let pack_p = spec_byte_bit(flags, 1) == 1;
        let seq_p = spec_byte_bit(flags, 2) == 1;
        let pstd_p = spec_byte_bit(flags, 3) == 1;
        let ext2_p = spec_byte_bit(flags, 7) == 1;
        let o_pack = 1 + (if priv_p {
            16int
        } else {
            0int
        });
        if s.len() < o_pack + (if pack_p {
            1int
        } else {
            0int
        }) {
            Err(ParseError::TooShort)
        } else {
            let o_seq = o_pack + (if pack_p {
                1 + s[o_pack] as int
            } else {
                0int
            });
            let o_pstd = o_seq + (if seq_p {
                2int
            } else {
                0int
            });
            let o_ext2 = o_pstd + (if pstd_p {
                2int
            } else {
                0int
            });
            if s.len() < o_ext2 + (if ext2_p {
                1int
            } else {
                0int
            }) {
                Err(ParseError::TooShort)
            } else {
                let ext2_len: int = if ext2_p {
                    (s[o_ext2] & 0x7F) as int
                } else {
                    0
                };
                if s.len() < o_ext2 + (if ext2_p {
                    1 + ext2_len
                } else {
                    0int
                }) {
                    Err(ParseError::TooShort)
                } else {
                    Ok(
                        SpecPesExtension {
                            pes_private_data: if priv_p {
                                Some(spec_private_data(s.subrange(1, 17)))
                            } else {
                                None
                            },
                            pack_header_field: if pack_p {
                                Some(s[o_pack])
                            } else {
                                None
                            },
                            program_packet_seq_cntr: if seq_p {
                                Some((s[o_seq] & 0x7F) as u8)
                            } else {
                                None
                            },
                            pstd_buffer: if pstd_p {
                                Some(spec_bits(s.subrange(o_pstd, o_pstd + 2), 2, 14) as u16)
                            } else {
                                None
                            },
                            pes_extension_field_data: if ext2_p {
                                Some(s.subrange(o_ext2 + 1, o_ext2 + 1 + ext2_len))
                            } else {
                                None
                            },
                        },
                    )
                }
            }
        }
    }
}

/// The bytes a PES extension occupies: the flags byte plus each announced
/// field.
pub open spec fn spec_pes_extension_size(e: SpecPesExtension) -> int {
    1 + (match e.pes_private_data {
        Some(_) => 16int,
        None => 0int,
    }) + (match e.pack_header_field {
        Some(len) => 1 + len as int,
        None => 0int,
    }) + (match e.program_packet_seq_cntr {
        Some(_) => 2int,
        None => 0int,
    }) + (match e.pstd_buffer {
        Some(_) => 2int,
        None => 0int,
    }) + (match e.pes_extension_field_data {
        Some(d) => 1 + d.len() as int,
        None => 0int,
    })
}

impl PesExtension {
    /// Reads a PES extension: the flags byte, then the announced fields in
    /// their wire order; the pack header field is recorded by its length
    /// byte and skipped.
    pub fn from_raw(raw: &[u8]) -> (r: Result<Self, ParseError>)
        ensures
            res_view(r) == spec_parse_pes_extension(raw@),
    {
        if raw.len() < 1 {
            return Err(ParseError::TooShort);
        }
        let flags = raw[0];
        let priv_p = flags.bit(0);
        let pack_p = flags.bit(1);
        let seq_p = flags.bit(2);
        let pstd_p = flags.bit(3);
        let ext2_p = flags.bit(7);

        let o_pack: usize = 1 + (if priv_p {
            16
        } else {
            0
        });
        if raw.len() < o_pack + (if pack_p {
            1
        } else {
            0
        }) {
            return Err(ParseError::TooShort);
        }
        let o_seq: usize = o_pack + (if pack_p {
            1 + raw[o_pack] as usize
        } else {
            0
        });
        let o_pstd: usize = o_seq + (if seq_p {
            2
        } else {
            0
        });
        let o_ext2: usize = o_pstd + (if pstd_p {
            2
        } else {
            0
        });
        if raw.len() < o_ext2 + (if ext2_p {
            1
        } else {
            0
        }) {
            return Err(ParseError::TooShort);
        }
        let ext2_len: usize = if ext2_p {
            (raw[o_ext2] & 0x7F) as usize
        } else {
            0
        };
        if raw.len() < o_ext2 + (if ext2_p {
            1 + ext2_len
        } else {
            0
        }) {
            return Err(ParseError::TooShort);
        }

        proof {
            lemma2_to64();
        }
        let pes_private_data = if priv_p {
            let sub = slice_subrange(raw, 1, 17);
            let hi = u64_from_bits(sub, 0, 64);
            let lo = u64_from_bits(sub, 64, 64);
            Some(((hi as u128) << 64u128) | (lo as u128))
        } else {
            None
        };
        let pack_header_field = if pack_p {
            Some(raw[o_pack])
        } else {
            None
        };
        let program_packet_seq_cntr = if seq_p {
            Some(raw[o_seq] & 0x7F)
        } else {
            None
        };
        let pstd_buffer = if pstd_p {
            let sub = slice_subrange(raw, o_pstd, o_pstd + 2);
            Some(u32_from_bits(sub, 2, 14) as u16)
        } else {
            None
        };
        let pes_extension_field_data = if ext2_p {
            Some(slice_to_vec(slice_subrange(raw, o_ext2 + 1, o_ext2 + 1 + ext2_len)))
        } else {
            None
        };

        Ok(
            Self {
                pes_private_data,
                pack_header_field,
                program_packet_seq_cntr,
                pstd_buffer,
                pes_extension_field_data,
            },
        )
    }

    /// The bytes this extension occupies on the wire.
    pub fn size(&self) -> (r: usize)
        requires
            spec_pes_extension_size(self@) <= usize::MAX,
        ensures
            r == spec_pes_extension_size(self@),
    {
        let mut size: usize = 1;
        match &self.pes_private_data {
            Some(_) => {
                size = size + 16;
            },
            None => {},
        }
        match &self.pack_header_field {
            Some(len) => {
                size = size + 1 + *len as usize;
            },
            None => {},
        }
        match &self.program_packet_seq_cntr {
            Some(_) => {
                size = size + 2;
            },
            None => {},
        }
        match &self.pstd_buffer {
            Some(_) => {
                size = size + 2;
            },
            None => {},
        }
        match &self.pes_extension_field_data {
            Some(d) => {
                size = size + 1 + d.len();
            },
            None => {},
        }
        size
    }
}

/// A PES header: the marker bits of the first byte, the flags, and the
/// optional fields the flags announce.
#[derive(Clone, Debug, PartialEq, Eq)]
pub struct PesHeader {
    pub pes_scrambling_control: u8,
    pub pes_priority: bool,
    pub data_alignment_indicator: bool,
    pub copyright: bool,
    pub original_or_copy: OriginalOrCopy,
    pub pes_header_data_length: u8,
    pub pts_dts: Option<PtsDts>,
    pub escr: Option<u64>,
    pub es_rate: Option<u32>,
    pub dsm_trick_mode: Option<u8>,
    pub additional_copy_info: Option<u8>,
    pub previous_pes_crc: Option<u16>,
    pub pes_extension: Option<PesExtension>,
}

/// Spec-level twin of `PesHeader`.
pub struct SpecPesHeader {
    pub pes_scrambling_control: u8,
    pub pes_priority: bool,
    pub data_alignment_indicator: bool,
    pub copyright: bool,
    pub original_or_copy: OriginalOrCopy,
    pub pes_header_data_length: u8,
    pub pts_dts: Option<PtsDts>,
    pub escr: Option<u64>,
    pub es_rate: Option<u32>,
    pub dsm_trick_mode: Option<u8>,
    pub additional_copy_info: Option<u8>,
    pub previous_pes_crc: Option<u16>,
    pub pes_extension: Option<SpecPesExtension>,
}

impl View for PesHeader {
    type V = SpecPesHeader;

    open spec fn view(&self) -> SpecPesHeader {
        SpecPesHeader {
            pes_scrambling_control: self.pes_scrambling_control,
            pes_priority: self.pes_priority,
            data_alignment_indicator: self.data_alignment_indicator,
            copyright: self.copyright,
            original_or_copy: self.original_or_copy,
            pes_header_data_length: self.pes_header_data_length,
            pts_dts: self.pts_dts,
            escr: self.escr,
            es_rate: self.es_rate,
            dsm_trick_mode: self.dsm_trick_mode,
            additional_copy_info: self.additional_copy_info,
            previous_pes_crc: self.previous_pes_crc,
            pes_extension: match self.pes_extension {
                Some(e) => Some(e@),
                None => None,
            },
        }
    }
}

/// The elementary stream clock reference: three bit groups of the six
/// bytes, combined without shifts.
pub open spec fn spec_escr(s: Seq<u8>) -> u64 {
    (spec_bits(s, 4, 3) as u64) | (spec_bits(s, 8, 15) as u64) | (spec_bits(s, 16, 15) as u64)
}

/// What `PesHeader::from_raw` yields on a given buffer.
pub open spec fn spec_parse_pes_header(s: Seq<u8>) -> Result<SpecPesHeader, ParseError> {
    if s.len() < 3 {
        Err(ParseError::TooShort)
    } else {
        let flags = s[1];
        let pts_p = spec_byte_bit(flags, 1) == 1;
        let pts_only = spec_byte_bit(flags, 0) == 1;
        let escr_p = spec_byte_bit(flags, 2) == 1;
        let rate_p = spec_byte_bit(flags, 3) == 1;
        let dsm_p = spec_byte_bit(flags, 4) == 1;
        let aci_p = spec_byte_bit(flags, 5) == 1;
        let crc_p = spec_byte_bit(flags, 6) == 1;
        let ext_p = spec_byte_bit(flags, 7) == 1;
        let o_escr = 3 + (if pts_p {
            if pts_only {
                5int
            } else {
                10int
            }
        } else {
            0int
        });
        let o_rate = o_escr + (if escr_p {
            6int
        } else {
            0int
        });
        let o_dsm = o_rate + (if rate_p {
            3int
        } else {
            0int
        });
        let o_aci = o_dsm + (if dsm_p {
            1int
        } else {
            0int
        });
        let o_crc = o_aci + (if aci_p {
            1int
        } else {
            0int
        });
        let o_ext = o_crc + (if crc_p {
            2int
        } else {
            0int
        });
        if pts_p && !pts_only && s.len() < 3 + 11 {
            Err(ParseError::TooShort)
        } else if s.len() < o_ext {
            Err(ParseError::TooShort)
        } else {
            let head = SpecPesHeader {
                pes_scrambling_control: s[0] & 0x03,
                pes_priority: spec_byte_bit(s[0], 4) == 1,
                data_alignment_indicator: spec_byte_bit(s[0], 5) == 1,
                copyright: spec_byte_bit(s[0], 6) == 1,
                original_or_copy: if spec_byte_bit(s[0], 7) == 1 {
                    OriginalOrCopy::Original
                } else {
                    OriginalOrCopy::Copy
                },
                pes_header_data_length: s[2],
                pts_dts: if pts_p {
                    if pts_only {
                        Some(PtsDts::Pts { pts: spec_pts(s.skip(3)) })
                    } else {
                        Some(
                            PtsDts::PtsDts { pts: spec_pts(s.skip(3)), dts: spec_dts(s.skip(3)) },
                        )
                    }
                } else {
                    None
                },
                escr: if escr_p {
                    Some(spec_escr(s.subrange(o_escr, o_escr + 6)))
                } else {
                    None
                },
                es_rate: if rate_p {
                    Some(spec_bits(s.subrange(o_rate, o_rate + 3), 1, 22) as u32)
                } else {
                    None
                },
                dsm_trick_mode: if dsm_p {
                    Some(s[o_dsm])
                } else {
                    None
                },
                additional_copy_info: if aci_p {
                    Some(s[o_aci])
                } else {
                    None
                },
                previous_pes_crc: if crc_p {
                    Some(spec_bits(s.subrange(o_crc, o_crc + 2), 0, 16) as u16)
                } else {
                    None
                },
                pes_extension: None,
            };
            if ext_p {
                match spec_parse_pes_extension(s.skip(o_ext)) {
                    Ok(e) => Ok(SpecPesHeader { pes_extension: Some(e), ..head }),
                    Err(err) => Err(err),
                }
            } else {
                Ok(head)
            }
        }
    }
}

/// The bytes a PES header occupies: its three fixed bytes plus each
/// announced field.
pub open spec fn spec_pes_header_size(h: SpecPesHeader) -> int {
    3 + (match h.pts_dts {
        Some(PtsDts::Pts { .. }) => 5int,
        Some(PtsDts::PtsDts { .. }) => 10int,
        None => 0int,
    }) + (match h.escr {
        Some(_) => 6int,
        None => 0int,
    }) + (match h.es_rate {
        Some(_) => 3int,
        None => 0int,
    }) + (match h.dsm_trick_mode {
        Some(_) => 1int,
        None => 0int,
    }) + (match h.additional_copy_info {
        Some(_) => 1int,
        None => 0int,
    }) + (match h.previous_pes_crc {
        Some(_) => 2int,
        None => 0int,
    }) + (match h.pes_extension {
        Some(e) => spec_pes_extension_size(e),
        None => 0int,
    })
}

impl PesHeader {
    /// Reads a PES header: the marker byte, the flags byte and the header
    /// data length, then the fields the flags announce, in their wire
    /// order; the buffer must reach as far as the flags announce.
    #[verifier::rlimit(100)]
    pub fn from_raw(raw: &[u8]) -> (r: Result<Self, ParseError>)
        ensures
            res_view(r) == spec_parse_pes_header(raw@),
    {
        if raw.len() < 3 {
            return Err(ParseError::TooShort);
        }
        let flags = raw[1];
        let pts_p = flags.bit(1);
        let pts_only = flags.bit(0);
        let escr_p = flags.bit(2);
        let rate_p = flags.bit(3);
        let dsm_p = flags.bit(4);
        let aci_p = flags.bit(5);
        let crc_p = flags.bit(6);
        let ext_p = flags.bit(7);

        let o_escr: usize = 3 + (if pts_p {
            if pts_only {
                5
            } else {
                10
            }
        } else {
            0
        });
        let o_rate: usize = o_escr + (if escr_p {
            6
        } else {
            0
        });
        let o_dsm: usize = o_rate + (if rate_p {
            3
        } else {
            0
        });
        let o_aci: usize = o_dsm + (if dsm_p {
            1
        } else {
            0
        });
        let o_crc: usize = o_aci + (if aci_p {
            1
        } else {
            0
        });
        let o_ext: usize = o_crc + (if crc_p {
            2
        } else {
            0
        });
        if pts_p && !pts_only && raw.len() < 3 + 11 {
            return Err(ParseError::TooShort);
        }
        if raw.len() < o_ext {
            return Err(ParseError::TooShort);
        }

        let pts_dts = if pts_p {
            let rest = slice_subrange(raw, 3, raw.len());
            if pts_only {
                Some(PtsDts::pts_from_raw(rest))
            } else {
                Some(PtsDts::pts_dts_from_raw(rest))
            }
        } else {
            None
        };
        proof {
            assert(raw@.subrange(3, raw@.len() as int) =~= raw@.skip(3));
        }

        let escr = if escr_p {
            let sub = slice_subrange(raw, o_escr, o_escr + 6);
            let e1 = u64_from_bits(sub, 4, 3);
            let e2 = u64_from_bits(sub, 8, 15);
            let e3 = u64_from_bits(sub, 16, 15);
            Some(e1 | e2 | e3)
        } else {
            None
        };

        proof {
            lemma2_to64();
        }
        let es_rate = if rate_p {
            let sub = slice_subrange(raw, o_rate, o_rate + 3);
            Some(u32_from_bits(sub, 1, 22))
        } else {
            None
        };

        let dsm_trick_mode = if dsm_p {
            Some(raw[o_dsm])
        } else {
            None
        };
        let additional_copy_info = if aci_p {
            Some(raw[o_aci])
        } else {
            None
        };

        let previous_pes_crc = if crc_p {
            let sub = slice_subrange(raw, o_crc, o_crc + 2);
            Some(u32_from_bits(sub, 0, 16) as u16)
        } else {
            None
        };

        let pes_extension = if ext_p {
            match PesExtension::from_raw(slice_subrange(raw, o_ext, raw.len())) {
                Ok(e) => Some(e),
                Err(err) => {
                    return Err(err);
                },
            }
        } else {
            None
        };

        Ok(
            Self {
                pes_scrambling_control: raw[0] & 0b0000_0011,
                pes_priority: raw[0].bit(4),
                data_alignment_indicator: raw[0].bit(5),
                copyright: raw[0].bit(6),
                original_or_copy: OriginalOrCopy::from(raw[0].bit(7)),
                pes_header_data_length: raw[2],
                pts_dts,
                escr,
                es_rate,
                dsm_trick_mode,
                additional_copy_info,
                previous_pes_crc,
                pes_extension,
            },
        )
    }

    /// The bytes this header occupies on the wire.
    pub fn size(&self) -> (r: usize)
        requires
            spec_pes_header_size(self@) <= usize::MAX,
        ensures
            r == spec_pes_header_size(self@),
    {
        let mut size: usize = 3;
        match &self.pts_dts {
            Some(PtsDts::Pts { .. }) => {
                size = size + 5;
            },
            Some(PtsDts::PtsDts { .. }) => {
                size = size + 10;
            },
            None => {},
        }
        match &self.escr {
            Some(_) => {
                size = size + 6;
            },
            None => {},
        }
        match &self.es_rate {
            Some(_) => {
                size = size + 3;
            },
            None => {},
        }
        match &self.dsm_trick_mode {
            Some(_) => {
                size = size + 1;
            },
            None => {},
        }
        match &self.additional_copy_info {
            Some(_) => {
                size = size + 1;
            },
            None => {},
        }
        match &self.previous_pes_crc {
            Some(_) => {
                size = size + 2;
            },
            None => {},
        }
        match &self.pes_extension {
            Some(e) => {
                size = size + e.size();
            },
            None => {},
        }
        size
    }
}

/// A PES packet: the stream id, the announced length, the header when the
/// stream id calls for one, and the data bytes.
#[derive(Clone, Debug, PartialEq, Eq)]
pub struct PesPacket {
    pub stream_id: u8,
    pub pes_packet_length: u16,
    pub pes_header: Option<PesHeader>,
    pub pes_data: Vec<u8>,
}

/// Spec-level twin of `PesPacket`.
pub struct SpecPesPacket {
    pub stream_id: u8,
    pub pes_packet_length: u16,
    pub pes_header: Option<SpecPesHeader>,
    pub pes_data: Seq<u8>,
}

impl View for PesPacket {
    type V = SpecPesPacket;

    open spec fn view(&self) -> SpecPesPacket {
        SpecPesPacket {
            stream_id: self.stream_id,
            pes_packet_length: self.pes_packet_length,
            pes_header: match self.pes_header {
                Some(h) => Some(h@),
                None => None,
            },
            pes_data: self.pes_data@,
        }
    }
}

/// What `PesPacket::from_raw` yields on a given buffer.
pub open spec fn spec_parse_pes_packet(s: Seq<u8>) -> Result<SpecPesPacket, ParseError> {
    if s.len() < 6 {
        Err(ParseError::TooShort)
    } else {
        let stream_id = s[3];
        let pes_packet_length = dec_u16s(s.subrange(4, 6));
        if spec_has_no_header(stream_id) {
            Ok(
                SpecPesPacket {
                    stream_id,
                    pes_packet_length,
                    pes_header: None,
                    pes_data: s.skip(6),
                },
            )
        } else {
            match spec_parse_pes_header(s.skip(6)) {
                Err(e) => Err(e),
                Ok(h) => {
                    let data_start = 6 + spec_pes_header_size(h);
                    if s.len() < data_start {
                        Err(ParseError::TooShort)
                    } else {
                        Ok(
                            SpecPesPacket {
                                stream_id,
                                pes_packet_length,
                                pes_header: Some(h),
                                pes_data: s.skip(data_start),
                            },
                        )
                    }
                },
            }
        }
    }
}

impl PesPacket {
    /// Reads a PES packet: the start code prefix and stream id, the packet
    /// length, the header unless the stream id forgoes one, and the rest
    /// as data.
    pub fn from_raw(raw: &[u8]) -> (r: Result<Self, ParseError>)
        ensures
            res_view(r) == spec_parse_pes_packet(raw@),
    {
        if raw.len() < 6 {
            return Err(ParseError::TooShort);
        }
        let stream_id = raw[3];
        let pes_packet_length = read_u16(raw, 4);

        if has_no_header(stream_id) {
            let pes_data = slice_to_vec(slice_subrange(raw, 6, raw.len()));
            proof {
                assert(raw@.subrange(6, raw@.len() as int) =~= raw@.skip(6));
            }
            return Ok(Self { stream_id, pes_packet_length, pes_header: None, pes_data });
        }

        proof {
            assert(raw@.subrange(6, raw@.len() as int) =~= raw@.skip(6));
        }
        let header = match PesHeader::from_raw(slice_subrange(raw, 6, raw.len())) {
            Ok(h) => h,
            Err(e) => {
                return Err(e);
            },
        };
        let header_size = header.size();
        if raw.len() - 6 < header_size {
            return Err(ParseError::TooShort);
        }
        let data_start = 6 + header_size;
        let pes_data = slice_to_vec(slice_subrange(raw, data_start, raw.len()));
        proof {
            assert(raw@.subrange(data_start as int, raw@.len() as int) =~= raw@.skip(
                data_start as int,
            ));
        }
        Ok(Self { stream_id, pes_packet_length, pes_header: Some(header), pes_data })
    }
}

} // verus!
