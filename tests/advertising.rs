use bluez_hci::ad::{
    parse_ad_sequence, AdFlags, Appearance, BasicDataType, BasicDataType_Data, CompleteLocalName,
    IncompleteServiceUuid16, ManufacturerSpecificData, ServiceData16, TxPowerLevel,
    UnsupportedDataType,
};
use bluez_hci::event::{HciEvent, HciEvent_Event, LeMetaEvent_Event};
use bluez_hci::ParseError;

fn one(bytes: &[u8]) -> BasicDataType {
    let (rest, v) = BasicDataType::parse(bytes).unwrap();
    assert!(rest.is_empty(), "left over: {:?}", rest);
    v
}

#[test]
fn tx_power_level_accepted_by_its_record_only() {
    let v = one(&[0x02, 0x0A, 0xF6]);
    assert_eq!(v.ad_type, 0x0A);
    match v.get_data() {
        BasicDataType_Data::TxPowerLevel(t) => assert_eq!(t.get_level(), -10),
        other => panic!("not a power level: {:?}", other),
    }
    let payload = [0xF6u8];
    assert!(TxPowerLevel::parse(&payload, 0x0A, 1).is_ok());
    assert_eq!(Appearance::parse(&payload, 0x0A, 1), Err(ParseError::TagMismatch));
    assert_eq!(CompleteLocalName::parse(&payload, 0x0A, 1), Err(ParseError::TagMismatch));
    assert_eq!(IncompleteServiceUuid16::parse(&payload, 0x0A, 1), Err(ParseError::TagMismatch));
    assert_eq!(ManufacturerSpecificData::parse(&payload, 0x0A, 1), Err(ParseError::TagMismatch));
}

#[test]
fn wrong_size_falls_back_to_raw_bytes() {
    // a power level must have one payload byte; with two it is kept raw
    let v = one(&[0x03, 0x0A, 0x01, 0x02]);
    match v.get_data() {
        BasicDataType_Data::UnsupportedDataType(u) => {
            assert_eq!(u.typ, 0x0A);
            assert_eq!(u.get_data(), &[0x01, 0x02]);
        },
        other => panic!("not raw: {:?}", other),
    }
    assert_eq!(TxPowerLevel::parse(&[0x01, 0x02], 0x0A, 2), Err(ParseError::TagMismatch));
}

#[test]
fn unlisted_type_falls_back_to_raw_bytes() {
    let v = one(&[0x04, 0x30, 0xDE, 0xAD, 0x00]);
    assert_eq!(
        v.data,
        BasicDataType_Data::UnsupportedDataType(UnsupportedDataType { typ: 0x30, len: 3, data: vec![0xDE, 0xAD, 0x00] })
    );
    // a manufacturer record too short for its company identifier
    let v = one(&[0x02, 0xFF, 0x4C]);
    assert!(matches!(v.data, BasicDataType_Data::UnsupportedDataType(_)));
    assert_eq!(ManufacturerSpecificData::parse(&[0x4C], 0xFF, 1), Err(ParseError::LengthMismatch));
}

#[test]
fn typed_records_decode_their_fields() {
    let v = one(&[0x05, 0xFF, 0x4C, 0x00, 0x02, 0x15]);
    match v.get_data() {
        BasicDataType_Data::ManufacturerSpecificData(m) => {
            assert_eq!(m.get_company_identifier_code(), 0x004C);
            assert_eq!(m.get_data(), &[0x02, 0x15]);
        },
        other => panic!("{:?}", other),
    }
    let v = one(&[0x05, 0x03, 0x0D, 0x18, 0x0F, 0x18]);
    match v.get_data() {
        BasicDataType_Data::CompleteServiceUuid16(u) => assert_eq!(u.get_uuids(), &[0x180D, 0x180F]),
        other => panic!("{:?}", other),
    }
    let v = one(&[0x03, 0x19, 0x41, 0x03]);
    match v.get_data() {
        BasicDataType_Data::Appearance(a) => assert_eq!(a.get_appearance(), 0x0341),
        other => panic!("{:?}", other),
    }
    let v = one(&[0x05, 0x12, 0x06, 0x00, 0x80, 0x0C]);
    match v.get_data() {
        BasicDataType_Data::SlaveConnectionIntervalRange(r) => {
            assert_eq!(r.get_min(), 0x0006);
            assert_eq!(r.get_max(), 0x0C80);
        },
        other => panic!("{:?}", other),
    }
    let v = one(&[0x02, 0x01, 0x06]);
    match v.get_data() {
        BasicDataType_Data::ADFlags(f) => assert_eq!(f.get_flags(), &[0x06]),
        other => panic!("{:?}", other),
    }
}

#[test]
fn service_data_32_reads_uuid_then_data() {
    let v = one(&[0x07, 0x20, 0x78, 0x56, 0x34, 0x12, 0xAA, 0xBB]);
    match v.get_data() {
        BasicDataType_Data::ServiceData32(d) => {
            assert_eq!(d.get_uuid(), 0x12345678);
            assert_eq!(d.get_data(), &[0xAA, 0xBB]);
        },
        other => panic!("{:?}", other),
    }
    let (rest, d) = ServiceData16::parse(&[0x0D, 0x18, 0x50], 0x16, 3).unwrap();
    assert!(rest.is_empty());
    assert_eq!(d.get_uuid(), 0x180D);
    assert_eq!(d.get_data(), &[0x50]);
}

#[test]
fn uuid128_list() {
    let mut bytes = vec![0x11u8, 0x07];
    bytes.extend(0u8..16);
    let v = one(&bytes);
    match v.get_data() {
        BasicDataType_Data::CompleteServiceUuid128(u) => {
            assert_eq!(u.get_uuids().len(), 1);
            assert_eq!(u.get_uuids()[0], (0u8..16).collect::<Vec<u8>>());
        },
        other => panic!("{:?}", other),
    }
}

#[test]
fn odd_sized_uuid16_list_is_kept_raw() {
    let (rest, v) = BasicDataType::parse(&[0x04, 0x02, 0x0D, 0x18, 0x77]).unwrap();
    assert!(rest.is_empty());
    assert_eq!(
        v.data,
        BasicDataType_Data::UnsupportedDataType(UnsupportedDataType { typ: 0x02, len: 3, data: vec![0x0D, 0x18, 0x77] })
    );
    assert_eq!(IncompleteServiceUuid16::parse(&[0x0D, 0x18, 0x77], 0x02, 3), Err(ParseError::LengthMismatch));
}

#[test]
fn flags_need_exactly_one_byte() {
    assert_eq!(AdFlags::parse(&[0x06, 0x07], 0x01, 2), Err(ParseError::TagMismatch));
    let v = one(&[0x03, 0x01, 0x06, 0x07]);
    match v.get_data() {
        BasicDataType_Data::UnsupportedDataType(u) => assert_eq!(u.get_data(), &[0x06, 0x07]),
        other => panic!("not raw: {:?}", other),
    }
}

#[test]
fn structure_reads_one_plus_its_length() {
    for bytes in [
        vec![0x04u8, 0x02, 0x01, 0x02, 0x03, 0xEE],
        vec![0x02, 0x01, 0x06, 0xEE],
        vec![0x06, 0x05, 1, 2, 3, 4, 5, 0xEE],
        vec![0x03, 0x0A, 0x01, 0x02, 0xEE],
    ] {
        let (rest, v) = BasicDataType::parse(&bytes).unwrap();
        assert_eq!(rest, &[0xEE]);
        assert_eq!(bytes.len() - rest.len(), 1 + v.length as usize);
    }
}

#[test]
fn misaligned_lists_do_not_shift_the_sequence() {
    let data = [0x04u8, 0x02, 0x01, 0x02, 0x03, 0x01, 0x30];
    let v = parse_ad_sequence(&data);
    assert_eq!(v.len(), 2);
    assert!(matches!(v[0].data, BasicDataType_Data::UnsupportedDataType(_)));
    assert_eq!(v[1], one(&[0x01, 0x30]));
    let data = [0x04u8, 0x02, 0x01, 0x02, 0x00, 0x01, 0x30, 0x05];
    assert_eq!(parse_ad_sequence(&data).len(), 2);
}

#[test]
fn local_name_is_decoded_as_utf8() {
    let v = one(&[0x04, 0x09, b'a', b'b', b'c']);
    match v.get_data() {
        BasicDataType_Data::CompleteLocalName(n) => assert_eq!(n.get_local_name(), "abc"),
        other => panic!("{:?}", other),
    }
    let v = one(&[0x05, 0x08, 0xC3, 0xA9, b'x', 0x00]);
    match v.get_data() {
        BasicDataType_Data::ShortenedLocalName(n) => assert_eq!(n.get_local_name(), "\u{e9}x\u{0}"),
        other => panic!("{:?}", other),
    }
}

#[test]
fn invalid_utf8_name_is_kept_raw() {
    assert_eq!(CompleteLocalName::parse(&[0xFF, 0xFE], 0x09, 2), Err(ParseError::InvalidEncoding));
    let v = one(&[0x03, 0x09, 0xFF, 0xFE]);
    assert!(matches!(v.data, BasicDataType_Data::UnsupportedDataType(_)));
}

#[test]
fn zero_length_structure_is_rejected() {
    assert_eq!(BasicDataType::parse(&[0x00, 0x01]), Err(ParseError::LengthMismatch));
    assert_eq!(BasicDataType::parse(&[0x02]), Err(ParseError::InsufficientInput));
    assert_eq!(BasicDataType::parse(&[0x05, 0x30, 0x01]), Err(ParseError::InsufficientInput));
}

#[test]
fn sequence_counts_whole_structures() {
    let two = [0x02u8, 0x01, 0x06, 0x03, 0x19, 0x41, 0x03];
    assert_eq!(parse_ad_sequence(&two).len(), 2);
    let mut with_byte = two.to_vec();
    with_byte.push(0x05);
    assert_eq!(parse_ad_sequence(&with_byte).len(), 2);
    let mut with_short = two.to_vec();
    with_short.extend_from_slice(&[0x05, 0x09, b'a']);
    let v = parse_ad_sequence(&with_short);
    assert_eq!(v.len(), 2);
    assert_eq!(v[1], one(&[0x03, 0x19, 0x41, 0x03]));
    assert!(parse_ad_sequence(&[]).is_empty());
    // zero padding stops the sequence
    let mut padded = two.to_vec();
    padded.extend_from_slice(&[0, 0, 0]);
    assert_eq!(parse_ad_sequence(&padded).len(), 2);
}

#[test]
fn advertising_report_carries_structures() {
    let mut params = vec![0x02u8, 0x01, 0x00, 0x01, 1, 2, 3, 4, 5, 6, 0x07];
    params.extend_from_slice(&[0x02, 0x01, 0x06, 0x03, 0x09, b'h', b'i']);
    params.push(0xC5);
    let mut bytes = vec![0x3Eu8, params.len() as u8];
    bytes.extend_from_slice(&params);
    let (rest, e) = HciEvent::parse(&bytes, 0x04).unwrap();
    assert!(rest.is_empty());
    let HciEvent_Event::LeMetaEvent(m) = e.get_event() else { panic!("{:?}", e) };
    let LeMetaEvent_Event::LeAdvertisingReport(r) = m.get_event() else { panic!("{:?}", m) };
    assert_eq!(r.get_event_type(), 0x00);
    assert_eq!(r.get_address_type(), 0x01);
    assert_eq!(r.get_address(), &[1, 2, 3, 4, 5, 6]);
    assert_eq!(r.get_rssi(), 0xC5);
    assert_eq!(r.get_data().len(), 2);
    match r.get_data()[1].get_data() {
        BasicDataType_Data::CompleteLocalName(n) => assert_eq!(n.get_local_name(), "hi"),
        other => panic!("{:?}", other),
    }
}

#[test]
fn unrecognised_le_subevent_is_an_unknown_event() {
    let bytes = [0x3Eu8, 0x02, 0x7F, 0x00];
    let (_, e) = HciEvent::parse(&bytes, 0x04).unwrap();
    match e.get_event() {
        HciEvent_Event::UnknownEvent(u) => {
            assert_eq!(u.get_event_code(), 0x3E);
            assert_eq!(u.get_data(), &[0x7F, 0x00]);
        },
        other => panic!("{:?}", other),
    }
}

#[test]
fn disconnection_complete() {
    let (_, e) = HciEvent::parse(&[0x05, 0x04, 0x00, 0x40, 0x00, 0x13], 0x04).unwrap();
    match e.get_event() {
        HciEvent_Event::DisconnectionComplete(d) => {
            assert_eq!(d.get_status().get_status_code(), 0);
            assert_eq!(d.get_connection_handle(), 0x0040);
            assert_eq!(d.get_reason(), 0x13);
        },
        other => panic!("{:?}", other),
    }
    // too short for its fields: kept as an unknown event
    let (_, e) = HciEvent::parse(&[0x05, 0x02, 0x00, 0x40], 0x04).unwrap();
    assert!(matches!(e.get_event(), HciEvent_Event::UnknownEvent(_)));
    assert_eq!(HciEvent::parse(&[0x05, 0x04, 0x00], 0x04), Err(ParseError::InsufficientInput));
}

#[test]
fn advertising_report_with_misaligned_list() {
    let mut params = vec![0x02u8, 0x01, 0x00, 0x01, 1, 2, 3, 4, 5, 6, 0x07];
    params.extend_from_slice(&[0x04, 0x02, 0x01, 0x02, 0x03, 0x01, 0x30]);
    params.push(0xC5);
    let mut bytes = vec![0x3Eu8, params.len() as u8];
    bytes.extend_from_slice(&params);
    let (rest, e) = HciEvent::parse(&bytes, 0x04).unwrap();
    assert!(rest.is_empty());
    let HciEvent_Event::LeMetaEvent(m) = e.get_event() else { panic!("{:?}", e) };
    let LeMetaEvent_Event::LeAdvertisingReport(r) = m.get_event() else { panic!("{:?}", m) };
    assert_eq!(r.get_data().len(), 2);
    assert_eq!(r.get_rssi(), 0xC5);
}
