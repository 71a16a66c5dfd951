//! Top-level framing: a message type byte selecting a command, ACL data or an
//! event, and the L2CAP framing carried inside ACL data.
use vstd::prelude::*;

use crate::command::HciCommand;
use crate::event::HciEvent;
use crate::wire::{bytes_at, expect_tag, le16, need, parsed, read_u16, skip, ParseError};

verus! {

/// An ACL data packet: a word packing a 12-bit connection handle and 4 flag
/// bits, a data length, and the data, left undecoded.
#[derive(Debug, Clone, PartialEq, Eq, PartialOrd, Ord)]
pub struct HciAclData {
    pub handle_and_flags: u16,
    pub data_total_length: u16,
    pub data: Vec<u8>,
}

impl HciAclData {
    /// The connection handle: the low 12 bits of the handle word.
    pub fn get_handle(&self) -> (r: u16)
        ensures
            r == self.handle_and_flags & 0xFFFu16,
    {
        self.handle_and_flags & 0xFFF
    }

    /// The packet boundary and broadcast flags: the high 4 bits of the handle word.
    pub fn get_flags(&self) -> (r: u8)
        ensures
            r == (self.handle_and_flags >> 12u16) as u8,
    {
        (self.handle_and_flags >> 12) as u8
    }

    pub fn get_data(&self) -> (r: &[u8])
        ensures
            r@ == self.data@,
    {
        self.data.as_slice()
    }

    /// Outcome of decoding ACL data from `s`, the bytes after message type `message_type`.
    pub open spec fn spec_parse(s: Seq<u8>, message_type: u8) -> Result<nat, ParseError> {
        if message_type != 0x02 {
            Err(ParseError::TagMismatch)
        } else if s.len() < 4 || s.len() < 4 + le16(s, 2) {
            Err(ParseError::InsufficientInput)
        } else {
            Ok((4 + le16(s, 2)) as nat)
        }
    }

    pub open spec fn decodes(self, s: Seq<u8>, message_type: u8) -> bool {
        &&& self.handle_and_flags == le16(s, 0)
        &&& self.data_total_length == le16(s, 2)
        &&& self.data@ == s.subrange(4, 4 + le16(s, 2))
    }

    pub fn parse<'a>(i: &'a [u8], message_type: u8) -> (r: Result<(&'a [u8], HciAclData), ParseError>)
        ensures
            parsed(i@, r, Self::spec_parse(i@, message_type)),
            r matches Ok((_, v)) ==> v.decodes(i@, message_type),
    {
        expect_tag(message_type, 0x02)?;
        need(i, 4)?;
        let handle_and_flags = read_u16(i, 0);
        let data_total_length = read_u16(i, 2);
        let n = data_total_length as usize;
        need(i, 4 + n)?;
        let data = bytes_at(i, 4, n);
        Ok((skip(i, 4 + n), HciAclData { handle_and_flags, data_total_length, data }))
    }
}

/// Splitting a handle word: the 12-bit handle and the 4 flag bits together give
/// the word back.
pub proof fn lemma_handle_and_flags(word: u16)
    ensures
        word & 0xFFFu16 < 4096,
        (word >> 12u16) < 16,
        ((word >> 12u16) << 12u16) | (word & 0xFFFu16) == word,
{
    assert(word & 0xFFFu16 < 4096u16) by (bit_vector);
    assert((word >> 12u16) < 16u16) by (bit_vector);
    assert(((word >> 12u16) << 12u16) | (word & 0xFFFu16) == word) by (bit_vector);
}

/// An L2CAP frame: payload length, channel id, and a payload whose size comes
/// from the enclosing packet length less the four header bytes.
#[derive(Debug, Clone, PartialEq, Eq, PartialOrd, Ord)]
pub struct L2capPacket {
    pub packet_len: u16,
    pub length: u16,
    pub channel_id: u16,
    pub payload: Vec<u8>,
}

impl L2capPacket {
    pub fn get_length(&self) -> (r: u16)
        ensures
            r == self.length,
    {
        self.length
    }

    pub fn get_channel_id(&self) -> (r: u16)
        ensures
            r == self.channel_id,
    {
        self.channel_id
    }

    pub fn get_payload(&self) -> (r: &[u8])
        ensures
            r@ == self.payload@,
    {
        self.payload.as_slice()
    }

    /// Outcome of decoding a frame of `packet_len` bytes from `s`.
    pub open spec fn spec_parse(s: Seq<u8>, packet_len: u16) -> Result<nat, ParseError> {
        if s.len() < 4 {
            Err(ParseError::InsufficientInput)
        } else if packet_len < 4 {
            Err(ParseError::LengthMismatch)
        } else if s.len() < packet_len {
            Err(ParseError::InsufficientInput)
        } else {
            Ok(packet_len as nat)
        }
    }

    pub open spec fn decodes(self, s: Seq<u8>, packet_len: u16) -> bool {
        &&& self.packet_len == packet_len
        &&& self.length == le16(s, 0)
        &&& self.channel_id == le16(s, 2)
        &&& self.payload@ == s.subrange(4, packet_len as int)
    }

    pub fn parse<'a>(i: &'a [u8], packet_len: u16) -> (r: Result<(&'a [u8], L2capPacket), ParseError>)
        ensures
            parsed(i@, r, Self::spec_parse(i@, packet_len)),
            r matches Ok((_, v)) ==> v.decodes(i@, packet_len),
    {
        need(i, 4)?;
        let length = read_u16(i, 0);
        let channel_id = read_u16(i, 2);
        if packet_len < 4 {
            return Err(ParseError::LengthMismatch);
        }
        let n = packet_len as usize;
        need(i, n)?;
        let payload = bytes_at(i, 4, n - 4);
        Ok((skip(i, n), L2capPacket { packet_len, length, channel_id, payload }))
    }
}

/// The body of a message, selected by its message type.
#[derive(Debug, Clone, PartialEq, Eq, PartialOrd, Ord)]
pub enum HciMessage_Message {
    HciCommand(HciCommand),
    HciAclData(HciAclData),
    HciEvent(HciEvent),
}

impl HciMessage_Message {
    /// Position, in dispatch order, of the candidate that decodes `s`: the first
    /// that accepts it; 3 when none does.
    pub open spec fn choice(s: Seq<u8>, message_type: u8) -> int {
        if HciCommand::spec_parse(s, message_type) is Ok {
            0
        } else if HciAclData::spec_parse(s, message_type) is Ok {
            1
        } else if HciEvent::spec_parse(s, message_type) is Ok {
            2
        } else {
            3
        }
    }

    /// Outcome of decoding `s`: that of the chosen candidate.
    pub open spec fn spec_parse(s: Seq<u8>, message_type: u8) -> Result<nat, ParseError> {
        let k = Self::choice(s, message_type);
        if k == 0 {
            HciCommand::spec_parse(s, message_type)
        } else if k == 1 {
            HciAclData::spec_parse(s, message_type)
        } else if k == 2 {
            HciEvent::spec_parse(s, message_type)
        } else {
            Err(ParseError::NoMatchingVariant)
        }
    }

    /// `self` is the variant of the chosen candidate, holding what it decodes.
    pub open spec fn decodes(self, s: Seq<u8>, message_type: u8) -> bool {
        match self {
            HciMessage_Message::HciCommand(x) => Self::choice(s, message_type) == 0 && x.decodes(s, message_type),
            HciMessage_Message::HciAclData(x) => Self::choice(s, message_type) == 1 && x.decodes(s, message_type),
            HciMessage_Message::HciEvent(x) => Self::choice(s, message_type) == 2 && x.decodes(s, message_type),
        }
    }

    /// Tries each candidate in order on the same input and keeps the first success.
    pub fn parse<'a>(i: &'a [u8], message_type: u8) -> (r: Result<(&'a [u8], HciMessage_Message), ParseError>)
        ensures
            parsed(i@, r, Self::spec_parse(i@, message_type)),
            r matches Ok((_, v)) ==> v.decodes(i@, message_type),
    {
        if let Ok((rest, x)) = HciCommand::parse(i, message_type) {
            return Ok((rest, HciMessage_Message::HciCommand(x)));
        }
        if let Ok((rest, x)) = HciAclData::parse(i, message_type) {
            return Ok((rest, HciMessage_Message::HciAclData(x)));
        }
        if let Ok((rest, x)) = HciEvent::parse(i, message_type) {
            return Ok((rest, HciMessage_Message::HciEvent(x)));
        }
        Err(ParseError::NoMatchingVariant)
    }
}

/// One HCI message: a type byte (1 command, 2 ACL data, 4 event) and its body.
#[derive(Debug, Clone, PartialEq, Eq, PartialOrd, Ord)]
pub struct HciMessage {
    pub message_type: u8,
    pub message: HciMessage_Message,
}

impl HciMessage {
    pub fn get_message(&self) -> (r: &HciMessage_Message)
        ensures
            *r == self.message,
    {
        &self.message
    }

    /// Outcome of decoding a message from the front of `s`.
    pub open spec fn spec_parse(s: Seq<u8>) -> Result<nat, ParseError> {
        if s.len() < 1 {
            Err(ParseError::InsufficientInput)
        } else {
            match HciMessage_Message::spec_parse(s.subrange(1, s.len() as int), s[0]) {
                Ok(n) => Ok(n + 1),
                Err(e) => Err(e),
            }
        }
    }

    /// `self` is the message at the front of `s`.
    pub open spec fn decodes(self, s: Seq<u8>) -> bool {
        &&& self.message_type == s[0]
        &&& self.message.decodes(s.subrange(1, s.len() as int), s[0])
    }

    pub fn parse<'a>(i: &'a [u8]) -> (r: Result<(&'a [u8], HciMessage), ParseError>)
        ensures
            parsed(i@, r, Self::spec_parse(i@)),
            r matches Ok((_, v)) ==> v.decodes(i@),
    {
        need(i, 1)?;
        let message_type = i[0];
        let (rest, message) = HciMessage_Message::parse(skip(i, 1), message_type)?;
        assert(rest@ =~= i@.subrange(i@.len() - rest@.len(), i@.len() as int));
        Ok((rest, HciMessage { message_type, message }))
    }
}

/// The wire form of a command: type 1, the opcode (little-endian), the
/// parameter length, and the parameters.
pub open spec fn command_frame(opcode: u16, params: Seq<u8>) -> Seq<u8> {
    seq![0x01u8, (opcode % 256) as u8, (opcode / 256) as u8, params.len() as u8] + params
}

/// The wire form of ACL data: type 2, the handle word and the data length
/// (both little-endian), and the data.
pub open spec fn acl_frame(handle_and_flags: u16, data: Seq<u8>) -> Seq<u8> {
    seq![
        0x02u8,
        (handle_and_flags % 256) as u8,
        (handle_and_flags / 256) as u8,
        (data.len() % 256) as u8,
        (data.len() / 256) as u8,
    ] + data
}

/// The wire form of an event: type 4, the event code, the parameter length,
/// and the parameters.
pub open spec fn event_frame(event_code: u8, params: Seq<u8>) -> Seq<u8> {
    seq![0x04u8, event_code, params.len() as u8] + params
}

/// Every framed command decodes, reads the whole frame, and is decoded as a
/// command with the leading type byte and the framed opcode.
pub proof fn lemma_command_frame(opcode: u16, params: Seq<u8>)
    requires
        params.len() <= 255,
    ensures
        HciMessage::spec_parse(command_frame(opcode, params)) == Ok::<nat, ParseError>(
            command_frame(opcode, params).len(),
        ),
        forall|v: HciMessage| #[trigger]
            v.decodes(command_frame(opcode, params)) ==> v.message_type == 0x01 && (
            v.message matches HciMessage_Message::HciCommand(c) && c.opcode == opcode
                && c.data@ == params),
{
    let f = command_frame(opcode, params);
    let body = f.subrange(1, f.len() as int);
    assert(le16(body, 0) == opcode);
    assert(body.subrange(3, 3 + body[2]) =~= params);
}

/// Every framed ACL data packet decodes, reads the whole frame, and is
/// decoded as ACL data with the leading type byte and the framed fields.
pub proof fn lemma_acl_frame(handle_and_flags: u16, data: Seq<u8>)
    requires
        data.len() <= 65535,
    ensures
        HciMessage::spec_parse(acl_frame(handle_and_flags, data)) == Ok::<nat, ParseError>(
            acl_frame(handle_and_flags, data).len(),
        ),
        forall|v: HciMessage| #[trigger]
            v.decodes(acl_frame(handle_and_flags, data)) ==> v.message_type == 0x02 && (
            v.message matches HciMessage_Message::HciAclData(a) && a.handle_and_flags
                == handle_and_flags && a.data@ == data),
{
    let f = acl_frame(handle_and_flags, data);
    let body = f.subrange(1, f.len() as int);
    assert(le16(body, 0) == handle_and_flags);
    assert(le16(body, 2) == data.len());
    assert(body.subrange(4, 4 + le16(body, 2)) =~= data);
}

/// Every framed event decodes, reads the whole frame, and is decoded as an
/// event with the leading type byte and the framed code.
pub proof fn lemma_event_frame(event_code: u8, params: Seq<u8>)
    requires
        params.len() <= 255,
    ensures
        HciMessage::spec_parse(event_frame(event_code, params)) == Ok::<nat, ParseError>(
            event_frame(event_code, params).len(),
        ),
        forall|v: HciMessage| #[trigger]
            v.decodes(event_frame(event_code, params)) ==> v.message_type == 0x04 && (
            v.message matches HciMessage_Message::HciEvent(e) && e.event_code == event_code
                && e.data@ == params),
{
    let f = event_frame(event_code, params);
    let body = f.subrange(1, f.len() as int);
    assert(body.subrange(2, 2 + body[1]) =~= params);
}

/// A record that reads nothing and always succeeds.
#[derive(Debug, Clone, PartialEq, Eq, PartialOrd, Ord)]
pub struct EndThing {}

impl EndThing {
    pub fn parse<'a>(i: &'a [u8]) -> (r: Result<(&'a [u8], EndThing), ParseError>)
        ensures
            r matches Ok((rest, _)) && rest@ == i@,
    {
        Ok((i, EndThing {}))
    }
}

/// A record that reads nothing and always succeeds.
#[derive(Debug, Clone, PartialEq, Eq, PartialOrd, Ord)]
pub struct EndThing2 {}

impl EndThing2 {
    pub fn parse<'a>(i: &'a [u8]) -> (r: Result<(&'a [u8], EndThing2), ParseError>)
        ensures
            r matches Ok((rest, _)) && rest@ == i@,
    {
        Ok((i, EndThing2 {}))
    }
}

} // verus!
