use srt_ingest::mpeg::adaptation_field::AdaptationField;
use srt_ingest::mpeg::adaptation_field_control::AdaptationFieldControl;
use srt_ingest::mpeg::adaptation_field_extension::{
    AdaptationFieldExtension, AdaptationFieldExtensionLtw,
};
use srt_ingest::mpeg::descriptor::{Mpeg4VideoDescriptor, PrivateDataIndicatorDescriptor};
use srt_ingest::mpeg::pes::{PesExtension, PesHeader, PesPacket, PtsDts};
use srt_ingest::mpeg::transport_packet::{
    AdaptationFieldOption, Header, Payload, TransportPacket,
};
use srt_ingest::mpeg::ParseError;

#[test]
fn test_adaptation_field_control_codes() {
    assert_eq!(
        AdaptationFieldControl::from_raw(0b01),
        Ok(AdaptationFieldControl::PayloadOnly)
    );
    assert_eq!(
        AdaptationFieldControl::from_raw(0b10),
        Ok(AdaptationFieldControl::AdaptationFieldOnly)
    );
    assert_eq!(
        AdaptationFieldControl::from_raw(0b11),
        Ok(AdaptationFieldControl::AdaptationFieldAndPayload)
    );
    assert_eq!(
        AdaptationFieldControl::from_raw(0),
        Err(ParseError::InvalidValue)
    );
    assert!(AdaptationFieldControl::PayloadOnly.payload());
    assert!(!AdaptationFieldControl::PayloadOnly.adaptation_field());
    assert!(!AdaptationFieldControl::AdaptationFieldOnly.payload());
    assert!(AdaptationFieldControl::AdaptationFieldOnly.adaptation_field());
    assert!(AdaptationFieldControl::AdaptationFieldAndPayload.payload());
    assert!(AdaptationFieldControl::AdaptationFieldAndPayload.adaptation_field());
}

#[test]
fn test_header_from_raw() {
    // Sync byte, payload-unit start, packet id 0x100, payload only, counter 5.
    let raw = [0x47, 0x41, 0x00, 0x15];
    let header = Header::from_raw(&raw).unwrap();
    assert!(!header.transport_error_indicator);
    assert!(header.payload_unit_start_indicator);
    assert!(!header.transport_priority);
    assert_eq!(header.pid, 0x100);
    assert_eq!(header.transport_scrambling_control, 0);
    assert_eq!(header.adaptation_field_control, 0b01);
    assert_eq!(header.continuity_counter, 5);

    assert_eq!(Header::from_raw(&[0x47, 0x00]), Err(ParseError::TooShort));
    assert_eq!(
        Header::from_raw(&[0x46, 0x41, 0x00, 0x15]),
        Err(ParseError::InvalidValue)
    );
}

#[test]
fn test_adaptation_field_with_pcr() {
    // Length 7, only the clock-reference flag set, base 2 and extension 5.
    let raw = [0x07, 0b0001_0000, 0x00, 0x00, 0x00, 0x01, 0x00, 0x05];
    let af = AdaptationField::from_raw(&raw).unwrap();
    assert_eq!(af.length, 7);
    assert!(!af.discontinuity_indicator);
    assert_eq!(af.pcr, Some(2 * 300 + 5));
    assert_eq!(af.opcr, None);
    assert_eq!(af.splice_countdown, None);
    assert_eq!(af.size(), 8);
}

#[test]
fn test_adaptation_field_private_data_and_countdown() {
    // Splice countdown 9 and two bytes of private data.
    let raw = [0x05, 0b0000_0110, 0x09, 0x02, 0xAA, 0xBB];
    let af = AdaptationField::from_raw(&raw).unwrap();
    assert_eq!(af.splice_countdown, Some(9));
    assert_eq!(af.transport_private_data, Some(vec![0xAA, 0xBB]));
    assert_eq!(
        AdaptationField::from_raw(&[0x05, 0b0000_0110, 0x09, 0x05, 0xAA]),
        Err(ParseError::TooShort)
    );
}

#[test]
fn test_adaptation_field_extension_fields() {
    // Legal time window valid, offset 5; no other fields.
    let raw = [0x03, 0b1000_0000, 0x80, 0x05];
    let afe = AdaptationFieldExtension::from_raw(&raw).unwrap();
    assert_eq!(
        afe.ltw,
        Some(AdaptationFieldExtensionLtw {
            valid_flag: true,
            offset: 5,
        })
    );
    assert_eq!(afe.piecewise_rate, None);
    assert_eq!(afe.splice_type, None);
    assert_eq!(afe.size(), 4);
    assert_eq!(
        AdaptationFieldExtension::from_raw(&[0x03, 0b1000_0000, 0x80]),
        Err(ParseError::TooShort)
    );
}

#[test]
fn test_descriptors() {
    let d = Mpeg4VideoDescriptor::deserialize(&[27, 1, 7]).unwrap();
    assert_eq!(d.mpeg4_visual_profile_and_level, 7);
    assert_eq!(d.size(), 3);
    assert_eq!(
        Mpeg4VideoDescriptor::deserialize(&[27, 1]),
        Err(ParseError::TooShort)
    );

    let d = PrivateDataIndicatorDescriptor::from_raw(&[15, 4, 1, 2, 3, 4]).unwrap();
    assert_eq!(d.private_data_indicator, 0x0102_0304);
    assert_eq!(d.size(), 6);
    assert_eq!(
        PrivateDataIndicatorDescriptor::from_raw(&[15, 4, 1]),
        Err(ParseError::TooShort)
    );
}

#[test]
fn test_pts_round_values() {
    // A presentation timestamp of 1 sits in the lowest of the three groups.
    let pts_bytes = [0x00, 0x00, 0x00, 0x02, 0x00];
    assert_eq!(PtsDts::pts_from_raw(&pts_bytes), PtsDts::Pts { pts: 1 });
    assert_eq!(PtsDts::pts_from_raw(&pts_bytes).pts(), 1);

    let both = PtsDts::PtsDts { pts: 77, dts: 66 };
    assert_eq!(both.pts(), 77);
}

#[test]
fn test_pes_header_with_pts() {
    let raw = [
        0x09, // scrambling 1, priority set, marked original
        0xC0, // a lone presentation timestamp follows
        0x05, // announced header data length
        0x00, 0x00, 0x00, 0x02, 0x00, // presentation timestamp 1
    ];
    let h = PesHeader::from_raw(&raw).unwrap();
    assert_eq!(h.pes_scrambling_control, 1);
    assert!(h.pes_priority);
    assert_eq!(h.pts_dts, Some(PtsDts::Pts { pts: 1 }));
    assert_eq!(h.escr, None);
    assert_eq!(h.pes_extension, None);
    assert_eq!(h.size(), 8);

    assert_eq!(
        PesHeader::from_raw(&[0x09, 0xC0]),
        Err(ParseError::TooShort)
    );
    assert_eq!(
        PesHeader::from_raw(&[0x09, 0xC0, 0x05, 0x00, 0x00]),
        Err(ParseError::TooShort)
    );
}

#[test]
fn test_pes_extension_roundup() {
    // Only the program packet sequence counter is present.
    let raw = [0b0010_0000, 0x85, 0x00];
    let e = PesExtension::from_raw(&raw).unwrap();
    assert_eq!(e.program_packet_seq_cntr, Some(5));
    assert_eq!(e.pes_private_data, None);
    assert_eq!(e.size(), 3);

    assert_eq!(
        PesExtension::from_raw(&[0b1000_0000]),
        Err(ParseError::TooShort)
    );
}

#[test]
fn test_pes_packet_with_header() {
    let mut raw = vec![
        0x00, 0x00, 0x01, // start code prefix
        0xE0, // a video stream id, which carries a header
        0x00, 0x0B, // announced packet length
        0x09, 0xC0, 0x05, // header: flags and length
        0x00, 0x00, 0x00, 0x02, 0x00, // presentation timestamp 1
    ];
    raw.extend_from_slice(&[0xAA, 0xBB]);
    let p = PesPacket::from_raw(&raw).unwrap();
    assert_eq!(p.stream_id, 0xE0);
    assert_eq!(p.pes_packet_length, 0x0B);
    assert!(p.pes_header.is_some());
    assert_eq!(p.pes_data, vec![0xAA, 0xBB]);
}

#[test]
fn test_pes_packet_without_header() {
    // The padding stream id carries no header.
    let raw = [0x00, 0x00, 0x01, 0xBE, 0x00, 0x02, 0xAA, 0xBB];
    let p = PesPacket::from_raw(&raw).unwrap();
    assert_eq!(p.stream_id, 0xBE);
    assert!(p.pes_header.is_none());
    assert_eq!(p.pes_data, vec![0xAA, 0xBB]);

    assert_eq!(
        PesPacket::from_raw(&[0x00, 0x00, 0x01]),
        Err(ParseError::TooShort)
    );
}

#[test]
fn test_transport_packet_payload_only() {
    let raw = [0x47, 0x00, 0x20, 0x11, 0xAA, 0xBB, 0xCC];
    let p = TransportPacket::from_raw(&raw).unwrap();
    assert_eq!(p.header.pid, 0x20);
    assert_eq!(p.adaptation_field, AdaptationFieldOption::Absent);
    assert_eq!(p.payload, Some(Payload::Data(vec![0xAA, 0xBB, 0xCC])));
}

#[test]
fn test_transport_packet_with_adaptation_field() {
    // Both an adaptation field (one flag byte) and payload bytes.
    let raw = [0x47, 0x00, 0x20, 0x31, 0x01, 0x00, 0xAA, 0xBB];
    let p = TransportPacket::from_raw(&raw).unwrap();
    match &p.adaptation_field {
        AdaptationFieldOption::Present(af) => {
            assert_eq!(af.length, 1);
            assert_eq!(af.size(), 2);
        }
        other => panic!("expected an adaptation field, got {other:?}"),
    }
    assert_eq!(p.payload, Some(Payload::Data(vec![0xAA, 0xBB])));
}

#[test]
fn test_transport_packet_with_empty_adaptation_field() {
    let raw = [0x47, 0x00, 0x20, 0x31, 0x00, 0xAA];
    let p = TransportPacket::from_raw(&raw).unwrap();
    assert_eq!(p.adaptation_field, AdaptationFieldOption::Empty);
    assert_eq!(p.payload, Some(Payload::Data(vec![0xAA])));
}

#[test]
fn test_transport_packet_with_pes_payload() {
    let mut raw = vec![0x47, 0x40, 0x20, 0x11];
    raw.extend_from_slice(&[0x00, 0x00, 0x01, 0xBE, 0x00, 0x01, 0xAA]);
    let p = TransportPacket::from_raw(&raw).unwrap();
    match &p.payload {
        Some(Payload::Pes(pes)) => {
            assert_eq!(pes.stream_id, 0xBE);
            assert_eq!(pes.pes_data, vec![0xAA]);
        }
        other => panic!("expected an elementary stream packet, got {other:?}"),
    }
}

#[test]
fn test_transport_packet_adaptation_field_only() {
    let raw = [0x47, 0x00, 0x20, 0x21, 0x01];
    // Control bits 10: adaptation field only, no payload.
    let raw_af_only = [0x47, 0x00, 0x20, 0x20, 0x01, 0x00];
    let p = TransportPacket::from_raw(&raw_af_only).unwrap();
    assert_eq!(p.payload, None);
    // Control bits 01 with a truncated buffer is rejected.
    assert!(TransportPacket::from_raw(&raw[..3]).is_err());
}
