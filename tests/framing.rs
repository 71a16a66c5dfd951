use bluez_hci::command::{split_opcode, HciCommand_Command, Reset};
use bluez_hci::event::{HciEvent_Event, LeMetaEvent_Event};
use bluez_hci::message::{HciAclData, L2capPacket};
use bluez_hci::response::{CommandComplete, CommandComplete_Response};
use bluez_hci::{HciMessage, HciMessage_Message, ParseError};

#[test]
fn command_complete_for_reset_decodes_to_status() {
    let bytes = [0x04u8, 0x0E, 0x04, 0x01, 0x03, 0x0C, 0x00];
    let (rest, msg) = HciMessage::parse(&bytes).unwrap();
    assert!(rest.is_empty());
    assert_eq!(msg.message_type, 0x04);
    let event = match msg.get_message() {
        HciMessage_Message::HciEvent(e) => e,
        other => panic!("not an event: {:?}", other),
    };
    assert_eq!(event.event_code, 0x0E);
    assert_eq!(event.parameter_length, 4);
    let cc = match event.get_event() {
        HciEvent_Event::CommandComplete(c) => c,
        other => panic!("not a command complete: {:?}", other),
    };
    assert_eq!(cc.get_num_packets(), 0x01);
    assert_eq!(cc.opcode, 0x0C03);
    assert_eq!(split_opcode(cc.opcode), (0x03, 0x03));
    match cc.get_response() {
        CommandComplete_Response::Reset(r) => assert_eq!(r.get_status().get_status_code(), 0x00),
        other => panic!("not a reset answer: {:?}", other),
    }
}

#[test]
fn command_frame_reads_whole_input() {
    let bytes = [0x01u8, 0x03, 0x0C, 0x00];
    let (rest, msg) = HciMessage::parse(&bytes).unwrap();
    assert!(rest.is_empty());
    assert_eq!(msg.message_type, 0x01);
    match msg.get_message() {
        HciMessage_Message::HciCommand(c) => {
            assert_eq!(c.opcode, 0x0C03);
            assert_eq!(c.get_command(), &HciCommand_Command::Reset(Reset {}));
        },
        other => panic!("not a command: {:?}", other),
    }
}

#[test]
fn acl_frame_reads_whole_input() {
    let bytes = [0x02u8, 0x01, 0x20, 0x03, 0x00, 0xAA, 0xBB, 0xCC];
    let (rest, msg) = HciMessage::parse(&bytes).unwrap();
    assert!(rest.is_empty());
    assert_eq!(msg.message_type, 0x02);
    match msg.get_message() {
        HciMessage_Message::HciAclData(a) => {
            assert_eq!(a.get_handle(), 0x001);
            assert_eq!(a.get_flags(), 0x2);
            assert_eq!(a.get_data(), &[0xAA, 0xBB, 0xCC]);
        },
        other => panic!("not ACL data: {:?}", other),
    }
}

#[test]
fn frame_leaves_trailing_bytes() {
    let bytes = [0x04u8, 0x99, 0x01, 0x07, 0xEE, 0xFF];
    let (rest, msg) = HciMessage::parse(&bytes).unwrap();
    assert_eq!(rest, &[0xEE, 0xFF]);
    match msg.get_message() {
        HciMessage_Message::HciEvent(e) => match e.get_event() {
            HciEvent_Event::UnknownEvent(u) => {
                assert_eq!(u.get_event_code(), 0x99);
                assert_eq!(u.get_data(), &[0x07]);
            },
            other => panic!("not an unknown event: {:?}", other),
        },
        other => panic!("not an event: {:?}", other),
    }
}

#[test]
fn unknown_message_type_fails() {
    assert_eq!(HciMessage::parse(&[0x03, 0x00, 0x00]), Err(ParseError::NoMatchingVariant));
    assert_eq!(HciMessage::parse(&[0x05]), Err(ParseError::NoMatchingVariant));
}

#[test]
fn empty_input_is_insufficient() {
    assert_eq!(HciMessage::parse(&[]), Err(ParseError::InsufficientInput));
}

#[test]
fn truncated_message_fails_as_a_whole() {
    // an ACL packet that declares 4 data bytes but carries 2
    assert_eq!(HciMessage::parse(&[0x02, 0x01, 0x00, 0x04, 0x00, 0x01, 0x02]), Err(ParseError::NoMatchingVariant));
    assert_eq!(HciAclData::parse(&[0x01, 0x00, 0x04, 0x00, 0x01, 0x02], 0x02), Err(ParseError::InsufficientInput));
    assert_eq!(HciAclData::parse(&[0x01, 0x00, 0x00, 0x00], 0x01), Err(ParseError::TagMismatch));
}

#[test]
fn handle_and_flags_split() {
    let (_, a) = HciAclData::parse(&[0xFF, 0xFF, 0x00, 0x00], 0x02).unwrap();
    assert_eq!(a.get_handle(), 0x0FFF);
    assert_eq!(a.get_flags(), 0x0F);
    let (_, a) = HciAclData::parse(&[0x34, 0x12, 0x00, 0x00], 0x02).unwrap();
    assert_eq!(a.get_handle(), 0x0234);
    assert_eq!(a.get_flags(), 0x01);
    assert_eq!(a.handle_and_flags, 0x1234);
}

#[test]
fn le_connection_complete_exposes_low_twelve_bits() {
    let params = [
        0x3Eu8, 0x13, 0x01, 0x00, 0x41, 0xB0, 0x00, 0x01, 1, 2, 3, 4, 5, 6, 0x18, 0x00, 0x00, 0x00,
        0x48, 0x00, 0x05,
    ];
    let mut bytes = vec![0x04u8];
    bytes.extend_from_slice(&params);
    let (rest, msg) = HciMessage::parse(&bytes).unwrap();
    assert!(rest.is_empty());
    let HciMessage_Message::HciEvent(e) = msg.get_message() else { panic!("not an event") };
    let HciEvent_Event::LeMetaEvent(m) = e.get_event() else { panic!("not a LE event: {:?}", e) };
    let LeMetaEvent_Event::LeConnectionComplete(c) = m.get_event() else { panic!("not a connection") };
    assert_eq!(c.get_status().get_status_code(), 0);
    assert_eq!(c.get_connection_handle(), 0x041);
    assert_eq!(c.handle_and_flags, 0xB041);
    assert_eq!(c.get_role(), 0);
    assert_eq!(c.get_peer_address_type(), 1);
    assert_eq!(c.get_peer_address(), &[1, 2, 3, 4, 5, 6]);
    assert_eq!(c.get_conn_interval(), 0x18);
    assert_eq!(c.get_conn_latency(), 0);
    assert_eq!(c.get_supervision_timeout(), 0x48);
    assert_eq!(c.get_master_clock_accuracy(), 5);
}

#[test]
fn opcode_split_selects_reset() {
    assert_eq!(split_opcode(0x0C03), (0x03, 0x003));
    assert_eq!(split_opcode(0x0C04), (0x03, 0x004));
    assert_eq!(split_opcode(0xFFFF), (0x3F, 0x3FF));
    assert_eq!(split_opcode(0x2001), (0x08, 0x001));
    let (g, c) = split_opcode(0x0C03);
    assert!(Reset::parse(&[], g, c).is_ok());
    let (g, c) = split_opcode(0x0C04);
    assert_eq!(Reset::parse(&[], g, c), Err(ParseError::TagMismatch));
}

#[test]
fn command_with_unlisted_opcode_is_unknown() {
    let (_, msg) = HciMessage::parse(&[0x01, 0x04, 0x0C, 0x00]).unwrap();
    let HciMessage_Message::HciCommand(c) = msg.get_message() else { panic!("not a command") };
    match c.get_command() {
        HciCommand_Command::Unknown(u) => {
            assert_eq!(u.ogf, 0x03);
            assert_eq!(u.ocf, 0x04);
        },
        other => panic!("not unknown: {:?}", other),
    }
}

#[test]
fn command_complete_keyed_by_answered_opcode() {
    // a status byte followed by two bytes that would fit a flush answer's handle
    let params = [0x01u8, 0x03, 0x0C, 0x00, 0x12, 0x34];
    let (rest, cc) = CommandComplete::parse(&params, 0x0E).unwrap();
    assert_eq!(rest, &[0x12, 0x34]);
    match cc.get_response() {
        CommandComplete_Response::Reset(r) => assert_eq!(r.get_status().get_status_code(), 0),
        other => panic!("not a reset answer: {:?}", other),
    }
    // the same bytes answering a flush (0x0C08) read the handle
    let params = [0x01u8, 0x08, 0x0C, 0x00, 0x12, 0x34];
    let (rest, cc) = CommandComplete::parse(&params, 0x0E).unwrap();
    assert!(rest.is_empty());
    match cc.get_response() {
        CommandComplete_Response::Flush(f) => assert_eq!(f.get_connection_handle(), 0x3412),
        other => panic!("not a flush answer: {:?}", other),
    }
}

#[test]
fn command_complete_without_command() {
    let (rest, cc) = CommandComplete::parse(&[0x01, 0x00, 0x00], 0x0E).unwrap();
    assert!(rest.is_empty());
    assert!(matches!(cc.get_response(), CommandComplete_Response::NoAssociatedCommand(n) if n.ogf == 0));
    assert_eq!(CommandComplete::parse(&[0x01, 0x03, 0x0C], 0x0F), Err(ParseError::TagMismatch));
    // an unlisted command with no status byte has nothing to decode
    assert_eq!(CommandComplete::parse(&[0x01, 0x04, 0x0C], 0x0E), Err(ParseError::InsufficientInput));
}

#[test]
fn unknown_command_answer_keeps_bytes() {
    let (rest, cc) = CommandComplete::parse(&[0x01, 0x99, 0x0C, 0x00, 0x07, 0x08], 0x0E).unwrap();
    assert!(rest.is_empty());
    match cc.get_response() {
        CommandComplete_Response::UnknownCommand(u) => {
            assert_eq!(u.get_ogf(), 0x03);
            assert_eq!(u.get_ocf(), 0x099);
            assert_eq!(u.status.status_code, 0);
            assert_eq!(u.data, vec![0x07, 0x08]);
        },
        other => panic!("not unknown: {:?}", other),
    }
}

#[test]
fn l2cap_packet_payload_sized_by_context() {
    let bytes = [0x03u8, 0x00, 0x04, 0x00, 1, 2, 3, 9];
    let (rest, p) = L2capPacket::parse(&bytes, 7).unwrap();
    assert_eq!(rest, &[9]);
    assert_eq!(p.get_length(), 3);
    assert_eq!(p.get_channel_id(), 4);
    assert_eq!(p.get_payload(), &[1, 2, 3]);
    assert_eq!(L2capPacket::parse(&bytes, 3), Err(ParseError::LengthMismatch));
    assert_eq!(L2capPacket::parse(&bytes, 9), Err(ParseError::InsufficientInput));
    assert_eq!(L2capPacket::parse(&bytes[..3], 4), Err(ParseError::InsufficientInput));
}
