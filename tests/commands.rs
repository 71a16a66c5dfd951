use bluez_hci::ad::BasicDataType_Data;
use bluez_hci::command::{
    FilterCondition_Value, HciCommand, HciCommand_Command, SetEventFilter_Filter,
    WriteExtendedInquiryResponse, WriteLocalName,
};
use bluez_hci::response::{CommandComplete, CommandComplete_Response, ReadLocalNameResponse};
use bluez_hci::ParseError;

fn command(opcode: u16, params: &[u8]) -> HciCommand {
    let mut bytes = vec![(opcode & 0xFF) as u8, (opcode >> 8) as u8, params.len() as u8];
    bytes.extend_from_slice(params);
    let (rest, c) = HciCommand::parse(&bytes, 0x01).unwrap();
    assert!(rest.is_empty());
    c
}

fn name_buffer(name: &[u8]) -> Vec<u8> {
    let mut b = name.to_vec();
    b.resize(248, 0);
    b
}

#[test]
fn write_local_name_stops_at_nul() {
    let c = command(0x0C13, &name_buffer(b"hci0"));
    match c.get_command() {
        HciCommand_Command::WriteLocalName(w) => assert_eq!(w.get_local_name(), "hci0"),
        other => panic!("{:?}", other),
    }
}

#[test]
fn local_name_without_nul_is_rejected() {
    let full = vec![b'a'; 248];
    assert_eq!(WriteLocalName::parse(&full, 0x03, 0x13), Err(ParseError::InvalidEncoding));
    let c = command(0x0C13, &full);
    assert!(matches!(c.get_command(), HciCommand_Command::Unknown(_)));
    assert_eq!(WriteLocalName::parse(&full[..10], 0x03, 0x13), Err(ParseError::InsufficientInput));
}

#[test]
fn read_local_name_answer() {
    let mut params = vec![0x00u8];
    params.extend(name_buffer(b"dev"));
    let (rest, r) = ReadLocalNameResponse::parse(&params, 0x03, 0x14).unwrap();
    assert!(rest.is_empty());
    assert_eq!(r.get_status().get_status_code(), 0);
    assert_eq!(r.get_local_name(), "dev");
    let mut event = vec![0x01u8, 0x14, 0x0C];
    event.extend_from_slice(&params);
    let (_, cc) = CommandComplete::parse(&event, 0x0E).unwrap();
    assert!(matches!(cc.get_response(), CommandComplete_Response::ReadLocalName(_)));
}

#[test]
fn set_event_filter_with_class_condition() {
    let c = command(0x0C05, &[0x01, 0x01, 0x0C, 0x02, 0x5A, 0xFF, 0xFF, 0x00]);
    let HciCommand_Command::SetEventFilter(f) = c.get_command() else { panic!("{:?}", c) };
    let SetEventFilter_Filter::InquiryResult(i) = f.get_filter() else { panic!("{:?}", f) };
    match i.get_condition().get_value() {
        FilterCondition_Value::MatchClass(m) => {
            assert_eq!(m.get_class_of_device(), &[0x0C, 0x02, 0x5A]);
            assert_eq!(m.get_class_of_device_mask(), &[0xFF, 0xFF, 0x00]);
        },
        other => panic!("{:?}", other),
    }
}

#[test]
fn set_event_filter_connection_setup() {
    let c = command(0x0C05, &[0x02, 0x02, 1, 2, 3, 4, 5, 6, 0x02]);
    let HciCommand_Command::SetEventFilter(f) = c.get_command() else { panic!("{:?}", c) };
    let SetEventFilter_Filter::ConnectionSetup(s) = f.get_filter() else { panic!("{:?}", f) };
    assert_eq!(s.get_auto_accept(), 0x02);
    match s.get_condition().get_value() {
        FilterCondition_Value::MatchAddress(m) => assert_eq!(m.get_address(), &[1, 2, 3, 4, 5, 6]),
        other => panic!("{:?}", other),
    }
    let c = command(0x0C05, &[0x00]);
    let HciCommand_Command::SetEventFilter(f) = c.get_command() else { panic!("{:?}", c) };
    assert!(matches!(f.get_filter(), SetEventFilter_Filter::ClearAllFilter(_)));
}

#[test]
fn set_event_filter_with_unknown_filter_type_is_unknown() {
    let c = command(0x0C05, &[0x07]);
    assert!(matches!(c.get_command(), HciCommand_Command::Unknown(_)));
}

#[test]
fn le_set_advertising_data_command() {
    let mut params = vec![0x06u8, 0x02, 0x01, 0x06, 0x02, 0x0A, 0x08];
    params.resize(32, 0);
    let c = command(0x2008, &params);
    match c.get_command() {
        HciCommand_Command::LESetAdvertisingData(a) => {
            let d = a.get_advertising_data();
            assert_eq!(d.len(), 2);
            assert!(matches!(d[0].get_data(), BasicDataType_Data::ADFlags(_)));
            match d[1].get_data() {
                BasicDataType_Data::TxPowerLevel(t) => assert_eq!(t.get_level(), 8),
                other => panic!("{:?}", other),
            }
        },
        other => panic!("{:?}", other),
    }
}

#[test]
fn fixed_commands_read_their_fields() {
    match command(0x0C1C, &[0x00, 0x08, 0x12, 0x00]).get_command() {
        HciCommand_Command::WritePageScanActivity(w) => {
            assert_eq!(w.get_page_scan_interval(), 0x0800);
            assert_eq!(w.get_page_scan_window(), 0x0012);
        },
        other => panic!("{:?}", other),
    }
    match command(0x0C1A, &[0x03]).get_command() {
        HciCommand_Command::WriteScanEnable(w) => assert_eq!(w.get_scan_enable(), 3),
        other => panic!("{:?}", other),
    }
    match command(0x0C08, &[0x40, 0x00]).get_command() {
        HciCommand_Command::Flush(f) => assert_eq!(f.get_connection_handle(), 0x0040),
        other => panic!("{:?}", other),
    }
    // too short for its parameters: an unknown command
    assert!(matches!(command(0x0C08, &[0x40]).get_command(), HciCommand_Command::Unknown(_)));
}

#[test]
fn le_answers_keyed_by_group_eight() {
    let (_, cc) = CommandComplete::parse(&[0x01, 0x02, 0x20, 0x00, 0xFB, 0x00, 0x0F], 0x0E).unwrap();
    match cc.get_response() {
        CommandComplete_Response::LeReadBufferSize(r) => {
            assert_eq!(r.get_hc_le_data_packet_length(), 0x00FB);
            assert_eq!(r.get_hc_total_num_le_data_packets(), 0x0F);
        },
        other => panic!("{:?}", other),
    }
    let (_, cc) = CommandComplete::parse(&[0x01, 0x01, 0x20, 0x00], 0x0E).unwrap();
    assert!(matches!(cc.get_response(), CommandComplete_Response::LeSetEventMaskResponse(_)));
}

#[test]
fn command_needs_type_one_and_its_bytes() {
    assert_eq!(HciCommand::parse(&[0x03, 0x0C, 0x00], 0x04), Err(ParseError::TagMismatch));
    assert_eq!(HciCommand::parse(&[0x03, 0x0C, 0x02, 0x00], 0x01), Err(ParseError::InsufficientInput));
}

#[test]
fn extended_inquiry_response_with_zero_padding() {
    let mut params = vec![0x01u8, 0x04, 0x02, 0x01, 0x02, 0x03];
    params.resize(241, 0);
    let (rest, w) = WriteExtendedInquiryResponse::parse(&params, 0x03, 0x52).unwrap();
    assert!(rest.is_empty());
    assert_eq!(w.get_fec_required(), 0x01);
    assert_eq!(w.get_advertising_data().len(), 1);
    assert!(matches!(w.get_advertising_data()[0].get_data(), BasicDataType_Data::UnsupportedDataType(_)));
}

#[test]
fn le_set_advertising_data_with_short_tail() {
    let params = [0x08u8, 0x04, 0x02, 0x01, 0x02, 0x00, 0x01, 0x30, 0x05];
    let c = command(0x2008, &params);
    match c.get_command() {
        HciCommand_Command::LESetAdvertisingData(a) => assert_eq!(a.get_advertising_data().len(), 2),
        other => panic!("{:?}", other),
    }
}
