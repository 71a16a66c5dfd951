//! HCI events: an event code, a parameter length, and parameters whose shape
//! the code selects; Low Energy events nest a sub-event code in turn.
use vstd::prelude::*;

use crate::ad::{ad_sequence, parse_ad_sequence, BasicDataType};
use crate::response::{CommandComplete, ResponseStatus};
use crate::wire::{
    bytes_at, expect_tag, le16, need, parsed, read_u16, skip, tagged, ParseError,
};

verus! {

/// An event that no typed record accepts: its code and raw parameters.
#[derive(Debug, Clone, PartialEq, Eq, PartialOrd, Ord)]
pub struct UnknownEvent {
    pub event_code: u8,
    pub data: Vec<u8>,
}

impl UnknownEvent {
    pub fn get_event_code(&self) -> (r: u8)
        ensures
            r == self.event_code,
    {
        self.event_code
    }

    pub fn get_data(&self) -> (r: &[u8])
        ensures
            r@ == self.data@,
    {
        self.data.as_slice()
    }

    /// Always accepts, reading every byte.
    pub open spec fn spec_parse(s: Seq<u8>, event_code: u8) -> Result<nat, ParseError> {
        Ok(s.len())
    }

    pub open spec fn decodes(self, s: Seq<u8>, event_code: u8) -> bool {
        self.event_code == event_code && self.data@ == s
    }

    pub fn parse<'a>(i: &'a [u8], event_code: u8) -> (r: Result<(&'a [u8], UnknownEvent), ParseError>)
        ensures
            parsed(i@, r, Self::spec_parse(i@, event_code)),
            r matches Ok((_, v)) ==> v.decodes(i@, event_code),
    {
        let data = bytes_at(i, 0, i.len());
        assert(data@ =~= i@);
        Ok((skip(i, i.len()), UnknownEvent { event_code, data }))
    }
}

/// A connection has ended.
#[derive(Debug, Clone, PartialEq, Eq, PartialOrd, Ord)]
pub struct DisconnectionComplete {
    pub status: ResponseStatus,
    pub connection_handle: u16,
    pub reason: u8,
}

impl DisconnectionComplete {
    pub fn get_status(&self) -> (r: &ResponseStatus)
        ensures
            *r == self.status,
    {
        &self.status
    }

    pub fn get_connection_handle(&self) -> (r: u16)
        ensures
            r == self.connection_handle,
    {
        self.connection_handle
    }

    pub fn get_reason(&self) -> (r: u8)
        ensures
            r == self.reason,
    {
        self.reason
    }

    /// Outcome of decoding this record from `s`, under `event_code`.
    pub open spec fn spec_parse(s: Seq<u8>, event_code: u8) -> Result<nat, ParseError> {
        tagged(event_code, 0x05, s, 4)
    }

    /// `self` holds the fields at the front of `s`.
    pub open spec fn decodes(self, s: Seq<u8>, event_code: u8) -> bool {
        &&& self.status.status_code == s[0]
        &&& self.connection_handle == le16(s, 1)
        &&& self.reason == s[3]
    }

    pub fn parse<'a>(i: &'a [u8], event_code: u8) -> (r: Result<(&'a [u8], DisconnectionComplete), ParseError>)
        ensures
            parsed(i@, r, Self::spec_parse(i@, event_code)),
            r matches Ok((_, v)) ==> v.decodes(i@, event_code),
    {
        expect_tag(event_code, 0x05)?;
        need(i, 4)?;
        let v = DisconnectionComplete {
            status: ResponseStatus { status_code: i[0] },
            connection_handle: read_u16(i, 1),
            reason: i[3],
        };
        Ok((skip(i, 4), v))
    }
}

/// A Low Energy connection was made; the handle word packs a 12-bit handle and 4 flag bits.
#[derive(Debug, Clone, PartialEq, Eq, PartialOrd, Ord)]
pub struct LeConnectionComplete {
    pub status: ResponseStatus,
    pub handle_and_flags: u16,
    pub role: u8,
    pub peer_address_type: u8,
    pub peer_address: Vec<u8>,
    pub conn_interval: u16,
    pub conn_latency: u16,
    pub supervision_timeout: u16,
    pub master_clock_accuracy: u8,
}

impl LeConnectionComplete {
    /// The connection handle: the low 12 bits of the handle word.
    pub fn get_connection_handle(&self) -> (r: u16)
        ensures
            r == self.handle_and_flags & 0xFFFu16,
    {
        self.handle_and_flags & 0xFFF
    }

    pub fn get_status(&self) -> (r: &ResponseStatus)
        ensures
            *r == self.status,
    {
        &self.status
    }

    pub fn get_role(&self) -> (r: u8)
        ensures
            r == self.role,
    {
        self.role
    }

    pub fn get_peer_address_type(&self) -> (r: u8)
        ensures
            r == self.peer_address_type,
    {
        self.peer_address_type
    }

    pub fn get_peer_address(&self) -> (r: &[u8])
        ensures
            r@ == self.peer_address@,
    {
        self.peer_address.as_slice()
    }

    pub fn get_conn_interval(&self) -> (r: u16)
        ensures
            r == self.conn_interval,
    {
        self.conn_interval
    }

    pub fn get_conn_latency(&self) -> (r: u16)
        ensures
            r == self.conn_latency,
    {
        self.conn_latency
    }

    pub fn get_supervision_timeout(&self) -> (r: u16)
        ensures
            r == self.supervision_timeout,
    {
        self.supervision_timeout
    }

    pub fn get_master_clock_accuracy(&self) -> (r: u8)
        ensures
            r == self.master_clock_accuracy,
    {
        self.master_clock_accuracy
    }

    /// Outcome of decoding this record from `s`, under `subevent_code`.
    pub open spec fn spec_parse(s: Seq<u8>, subevent_code: u8) -> Result<nat, ParseError> {
        tagged(subevent_code, 0x01, s, 18)
    }

    /// `self` holds the fields at the front of `s`.
    pub open spec fn decodes(self, s: Seq<u8>, subevent_code: u8) -> bool {
        &&& self.status.status_code == s[0]
        &&& self.handle_and_flags == le16(s, 1)
        &&& self.role == s[3]
        &&& self.peer_address_type == s[4]
        &&& self.peer_address@ == s.subrange(5, 11)
        &&& self.conn_interval == le16(s, 11)
        &&& self.conn_latency == le16(s, 13)
        &&& self.supervision_timeout == le16(s, 15)
        &&& self.master_clock_accuracy == s[17]
    }

    pub fn parse<'a>(i: &'a [u8], subevent_code: u8) -> (r: Result<(&'a [u8], LeConnectionComplete), ParseError>)
        ensures
            parsed(i@, r, Self::spec_parse(i@, subevent_code)),
            r matches Ok((_, v)) ==> v.decodes(i@, subevent_code),
    {
        expect_tag(subevent_code, 0x01)?;
        need(i, 18)?;
        let v = LeConnectionComplete {
            status: ResponseStatus { status_code: i[0] },
            handle_and_flags: read_u16(i, 1),
            role: i[3],
            peer_address_type: i[4],
            peer_address: bytes_at(i, 5, 6),
            conn_interval: read_u16(i, 11),
            conn_latency: read_u16(i, 13),
            supervision_timeout: read_u16(i, 15),
            master_clock_accuracy: i[17],
        };
        Ok((skip(i, 18), v))
    }
}

/// The parameters of a Low Energy connection changed.
#[derive(Debug, Clone, PartialEq, Eq, PartialOrd, Ord)]
pub struct LeConnectionUpdateComplete {
    pub status: ResponseStatus,
    pub connection_handle: u16,
    pub conn_interval: u16,
    pub conn_latency: u16,
    pub supervision_timeout: u16,
}

impl LeConnectionUpdateComplete {
    pub fn get_status(&self) -> (r: &ResponseStatus)
        ensures
            *r == self.status,
    {
        &self.status
    }

    pub fn get_connection_handle(&self) -> (r: u16)
        ensures
            r == self.connection_handle,
    {
        self.connection_handle
    }

    pub fn get_conn_interval(&self) -> (r: u16)
        ensures
            r == self.conn_interval,
    {
        self.conn_interval
    }

    pub fn get_conn_latency(&self) -> (r: u16)
        ensures
            r == self.conn_latency,
    {
        self.conn_latency
    }

    pub fn get_supervision_timeout(&self) -> (r: u16)
        ensures
            r == self.supervision_timeout,
    {
        self.supervision_timeout
    }

    /// Outcome of decoding this record from `s`, under `subevent_code`.
    pub open spec fn spec_parse(s: Seq<u8>, subevent_code: u8) -> Result<nat, ParseError> {
        tagged(subevent_code, 0x03, s, 9)
    }

    /// `self` holds the fields at the front of `s`.
    pub open spec fn decodes(self, s: Seq<u8>, subevent_code: u8) -> bool {
        &&& self.status.status_code == s[0]
        &&& self.connection_handle == le16(s, 1)
        &&& self.conn_interval == le16(s, 3)
        &&& self.conn_latency == le16(s, 5)
        &&& self.supervision_timeout == le16(s, 7)
    }

    pub fn parse<'a>(i: &'a [u8], subevent_code: u8) -> (r: Result<(&'a [u8], LeConnectionUpdateComplete), ParseError>)
        ensures
            parsed(i@, r, Self::spec_parse(i@, subevent_code)),
            r matches Ok((_, v)) ==> v.decodes(i@, subevent_code),
    {
        expect_tag(subevent_code, 0x03)?;
        need(i, 9)?;
        let v = LeConnectionUpdateComplete {
            status: ResponseStatus { status_code: i[0] },
            connection_handle: read_u16(i, 1),
            conn_interval: read_u16(i, 3),
            conn_latency: read_u16(i, 5),
            supervision_timeout: read_u16(i, 7),
        };
        Ok((skip(i, 9), v))
    }
}

/// The Low Energy features of a peer were read.
#[derive(Debug, Clone, PartialEq, Eq, PartialOrd, Ord)]
pub struct LeReadRemoteFeaturesComplete {
    pub status: ResponseStatus,
    pub connection_handle: u16,
    pub le_features: Vec<u8>,
}

impl LeReadRemoteFeaturesComplete {
    pub fn get_status(&self) -> (r: &ResponseStatus)
        ensures
            *r == self.status,
    {
        &self.status
    }

    pub fn get_connection_handle(&self) -> (r: u16)
        ensures
            r == self.connection_handle,
    {
        self.connection_handle
    }

    pub fn get_le_features(&self) -> (r: &[u8])
        ensures
            r@ == self.le_features@,
    {
        self.le_features.as_slice()
    }

    /// Outcome of decoding this record from `s`, under `subevent_code`.
    pub open spec fn spec_parse(s: Seq<u8>, subevent_code: u8) -> Result<nat, ParseError> {
        tagged(subevent_code, 0x04, s, 11)
    }

    /// `self` holds the fields at the front of `s`.
    pub open spec fn decodes(self, s: Seq<u8>, subevent_code: u8) -> bool {
        &&& self.status.status_code == s[0]
        &&& self.connection_handle == le16(s, 1)
        &&& self.le_features@ == s.subrange(3, 11)
    }

    pub fn parse<'a>(i: &'a [u8], subevent_code: u8) -> (r: Result<(&'a [u8], LeReadRemoteFeaturesComplete), ParseError>)
        ensures
            parsed(i@, r, Self::spec_parse(i@, subevent_code)),
            r matches Ok((_, v)) ==> v.decodes(i@, subevent_code),
    {
        expect_tag(subevent_code, 0x04)?;
        need(i, 11)?;
        let v = LeReadRemoteFeaturesComplete {
            status: ResponseStatus { status_code: i[0] },
            connection_handle: read_u16(i, 1),
            le_features: bytes_at(i, 3, 8),
        };
        Ok((skip(i, 11), v))
    }
}

/// An advertising report: who advertised, and the AD structures it sent.
#[derive(Debug, Clone, PartialEq, Eq, PartialOrd, Ord)]
pub struct LeAdvertisingReport {
    pub num_reports: u8,
    pub event_type: u8,
    pub address_type: u8,
    pub address: Vec<u8>,
    pub data_len: u8,
    pub data_buffer: Vec<u8>,
    pub data: Vec<BasicDataType>,
    pub rssi: u8,
}

impl LeAdvertisingReport {
    pub fn get_event_type(&self) -> (r: u8)
        ensures
            r == self.event_type,
    {
        self.event_type
    }

    pub fn get_address_type(&self) -> (r: u8)
        ensures
            r == self.address_type,
    {
        self.address_type
    }

    pub fn get_address(&self) -> (r: &[u8])
        ensures
            r@ == self.address@,
    {
        self.address.as_slice()
    }

    pub fn get_data(&self) -> (r: &[BasicDataType])
        ensures
            r@ == self.data@,
    {
        self.data.as_slice()
    }

    pub fn get_rssi(&self) -> (r: u8)
        ensures
            r == self.rssi,
    {
        self.rssi
    }

    /// Accepts sub-event 2: nine header bytes, the data length, the data, and
    /// the signal strength.
    pub open spec fn spec_parse(s: Seq<u8>, subevent_code: u8) -> Result<nat, ParseError> {
        match tagged(subevent_code, 0x02, s, 10) {
            Ok(_) => if s.len() < 11 + s[9] {
                Err(ParseError::InsufficientInput)
            } else {
                Ok((11 + s[9]) as nat)
            },
            Err(e) => Err(e),
        }
    }

    /// `self` holds the header fields, the data, the AD structures read from the
    /// data, and the signal strength after it.
    pub open spec fn decodes(self, s: Seq<u8>, subevent_code: u8) -> bool {
        &&& self.num_reports == s[0]
        &&& self.event_type == s[1]
        &&& self.address_type == s[2]
        &&& self.address@ == s.subrange(3, 9)
        &&& self.data_len == s[9]
        &&& self.data_buffer@ == s.subrange(10, 10 + s[9])
        &&& ad_sequence(self.data@, s.subrange(10, 10 + s[9]))
        &&& self.rssi == s[10 + s[9]]
    }

    pub fn parse<'a>(i: &'a [u8], subevent_code: u8) -> (r: Result<(&'a [u8], LeAdvertisingReport), ParseError>)
        ensures
            parsed(i@, r, Self::spec_parse(i@, subevent_code)),
            r matches Ok((_, v)) ==> v.decodes(i@, subevent_code),
    {
        expect_tag(subevent_code, 0x02)?;
        need(i, 10)?;
        let data_len = i[9];
        let n = data_len as usize;
        need(i, 11 + n)?;
        let data_buffer = bytes_at(i, 10, n);
        let data = parse_ad_sequence(data_buffer.as_slice());
        let v = LeAdvertisingReport {
            num_reports: i[0],
            event_type: i[1],
            address_type: i[2],
            address: bytes_at(i, 3, 6),
            data_len,
            data_buffer,
            data,
            rssi: i[10 + n],
        };
        Ok((skip(i, 11 + n), v))
    }
}

/// A Low Energy event, selected by its sub-event code.
#[derive(Debug, Clone, PartialEq, Eq, PartialOrd, Ord)]
pub enum LeMetaEvent_Event {
    LeConnectionComplete(LeConnectionComplete),
    LeAdvertisingReport(LeAdvertisingReport),
    LeConnectionUpdateComplete(LeConnectionUpdateComplete),
    LeReadRemoteFeaturesComplete(LeReadRemoteFeaturesComplete),
}

impl LeMetaEvent_Event {
    /// Position, in dispatch order, of the candidate that decodes `s`: the first
    /// that accepts it; 4 when none does.
    pub open spec fn choice(s: Seq<u8>, subevent_code: u8) -> int {
        if LeConnectionComplete::spec_parse(s, subevent_code) is Ok {
            0
        } else if LeAdvertisingReport::spec_parse(s, subevent_code) is Ok {
            1
        } else if LeConnectionUpdateComplete::spec_parse(s, subevent_code) is Ok {
            2
        } else if LeReadRemoteFeaturesComplete::spec_parse(s, subevent_code) is Ok {
            3
        } else {
            4
        }
    }

    /// Outcome of decoding `s`: that of the chosen candidate.
    pub open spec fn spec_parse(s: Seq<u8>, subevent_code: u8) -> Result<nat, ParseError> {
        let k = Self::choice(s, subevent_code);
        if k == 0 {
            LeConnectionComplete::spec_parse(s, subevent_code)
        } else if k == 1 {
            LeAdvertisingReport::spec_parse(s, subevent_code)
        } else if k == 2 {
            LeConnectionUpdateComplete::spec_parse(s, subevent_code)
        } else if k == 3 {
            LeReadRemoteFeaturesComplete::spec_parse(s, subevent_code)
        } else {
            Err(ParseError::NoMatchingVariant)
        }
    }

    /// `self` is the variant of the chosen candidate, holding what it decodes.
    pub open spec fn decodes(self, s: Seq<u8>, subevent_code: u8) -> bool {
        match self {
            LeMetaEvent_Event::LeConnectionComplete(x) => Self::choice(s, subevent_code) == 0 && x.decodes(s, subevent_code),
            LeMetaEvent_Event::LeAdvertisingReport(x) => Self::choice(s, subevent_code) == 1 && x.decodes(s, subevent_code),
            LeMetaEvent_Event::LeConnectionUpdateComplete(x) => Self::choice(s, subevent_code) == 2 && x.decodes(s, subevent_code),
            LeMetaEvent_Event::LeReadRemoteFeaturesComplete(x) => Self::choice(s, subevent_code) == 3 && x.decodes(s, subevent_code),
        }
    }

    /// Tries each candidate in order on the same input and keeps the first success.
    pub fn parse<'a>(i: &'a [u8], subevent_code: u8) -> (r: Result<(&'a [u8], LeMetaEvent_Event), ParseError>)
        ensures
            parsed(i@, r, Self::spec_parse(i@, subevent_code)),
            r matches Ok((_, v)) ==> v.decodes(i@, subevent_code),
    {
        if let Ok((rest, x)) = LeConnectionComplete::parse(i, subevent_code) {
            return Ok((rest, LeMetaEvent_Event::LeConnectionComplete(x)));
        }
        if let Ok((rest, x)) = LeAdvertisingReport::parse(i, subevent_code) {
            return Ok((rest, LeMetaEvent_Event::LeAdvertisingReport(x)));
        }
        if let Ok((rest, x)) = LeConnectionUpdateComplete::parse(i, subevent_code) {
            return Ok((rest, LeMetaEvent_Event::LeConnectionUpdateComplete(x)));
        }
        if let Ok((rest, x)) = LeReadRemoteFeaturesComplete::parse(i, subevent_code) {
            return Ok((rest, LeMetaEvent_Event::LeReadRemoteFeaturesComplete(x)));
        }
        Err(ParseError::NoMatchingVariant)
    }
}

/// The Low Energy meta event: a sub-event code and the event it selects.
#[derive(Debug, Clone, PartialEq, Eq, PartialOrd, Ord)]
pub struct LeMetaEvent {
    pub subevent_code: u8,
    pub event: LeMetaEvent_Event,
}

impl LeMetaEvent {
    pub fn get_event(&self) -> (r: &LeMetaEvent_Event)
        ensures
            *r == self.event,
    {
        &self.event
    }

    /// Accepts event code 0x3E, then a sub-event code and its event.
    pub open spec fn spec_parse(s: Seq<u8>, event_code: u8) -> Result<nat, ParseError> {
        match tagged(event_code, 0x3E, s, 1) {
            Ok(_) => match LeMetaEvent_Event::spec_parse(s.subrange(1, s.len() as int), s[0]) {
                Ok(n) => Ok(n + 1),
                Err(e) => Err(e),
            },
            Err(e) => Err(e),
        }
    }

    pub open spec fn decodes(self, s: Seq<u8>, event_code: u8) -> bool {
        &&& self.subevent_code == s[0]
        &&& self.event.decodes(s.subrange(1, s.len() as int), s[0])
    }

    pub fn parse<'a>(i: &'a [u8], event_code: u8) -> (r: Result<(&'a [u8], LeMetaEvent), ParseError>)
        ensures
            parsed(i@, r, Self::spec_parse(i@, event_code)),
            r matches Ok((_, v)) ==> v.decodes(i@, event_code),
    {
        expect_tag(event_code, 0x3E)?;
        need(i, 1)?;
        let subevent_code = i[0];
        let (rest, event) = LeMetaEvent_Event::parse(skip(i, 1), subevent_code)?;
        assert(rest@ =~= i@.subrange(i@.len() - rest@.len(), i@.len() as int));
        Ok((rest, LeMetaEvent { subevent_code, event }))
    }
}

/// The parameters of an event, selected by its event code.
#[derive(Debug, Clone, PartialEq, Eq, PartialOrd, Ord)]
pub enum HciEvent_Event {
    DisconnectionComplete(DisconnectionComplete),
    CommandComplete(CommandComplete),
    LeMetaEvent(LeMetaEvent),
    UnknownEvent(UnknownEvent),
}

impl HciEvent_Event {
    /// Position, in dispatch order, of the candidate that decodes `s`: the first
    /// that accepts it, else the fallback, which is last.
    pub open spec fn choice(s: Seq<u8>, event_code: u8) -> int {
        if DisconnectionComplete::spec_parse(s, event_code) is Ok {
            0
        } else if CommandComplete::spec_parse(s, event_code) is Ok {
            1
        } else if LeMetaEvent::spec_parse(s, event_code) is Ok {
            2
        } else {
            3
        }
    }

    /// Outcome of decoding `s`: that of the chosen candidate.
    pub open spec fn spec_parse(s: Seq<u8>, event_code: u8) -> Result<nat, ParseError> {
        let k = Self::choice(s, event_code);
        if k == 0 {
            DisconnectionComplete::spec_parse(s, event_code)
        } else if k == 1 {
            CommandComplete::spec_parse(s, event_code)
        } else if k == 2 {
            LeMetaEvent::spec_parse(s, event_code)
        } else {
            UnknownEvent::spec_parse(s, event_code)
        }
    }

    /// `self` is the variant of the chosen candidate, holding what it decodes.
    pub open spec fn decodes(self, s: Seq<u8>, event_code: u8) -> bool {
        match self {
            HciEvent_Event::DisconnectionComplete(x) => Self::choice(s, event_code) == 0 && x.decodes(s, event_code),
            HciEvent_Event::CommandComplete(x) => Self::choice(s, event_code) == 1 && x.decodes(s, event_code),
            HciEvent_Event::LeMetaEvent(x) => Self::choice(s, event_code) == 2 && x.decodes(s, event_code),
            HciEvent_Event::UnknownEvent(x) => Self::choice(s, event_code) == 3 && x.decodes(s, event_code),
        }
    }

    /// Tries each candidate in order on the same input and keeps the first success.
    pub fn parse<'a>(i: &'a [u8], event_code: u8) -> (r: Result<(&'a [u8], HciEvent_Event), ParseError>)
        ensures
            parsed(i@, r, Self::spec_parse(i@, event_code)),
            r matches Ok((_, v)) ==> v.decodes(i@, event_code),
    {
        if let Ok((rest, x)) = DisconnectionComplete::parse(i, event_code) {
            return Ok((rest, HciEvent_Event::DisconnectionComplete(x)));
        }
        if let Ok((rest, x)) = CommandComplete::parse(i, event_code) {
            return Ok((rest, HciEvent_Event::CommandComplete(x)));
        }
        if let Ok((rest, x)) = LeMetaEvent::parse(i, event_code) {
            return Ok((rest, HciEvent_Event::LeMetaEvent(x)));
        }
        let (rest, x) = UnknownEvent::parse(i, event_code)?;
        Ok((rest, HciEvent_Event::UnknownEvent(x)))
    }
}

/// An event packet: event code, parameter length, the parameter bytes, and what
/// they decode to.
#[derive(Debug, Clone, PartialEq, Eq, PartialOrd, Ord)]
pub struct HciEvent {
    pub event_code: u8,
    pub parameter_length: u8,
    pub data: Vec<u8>,
    pub event: HciEvent_Event,
}

impl HciEvent {
    pub fn get_event(&self) -> (r: &HciEvent_Event)
        ensures
            *r == self.event,
    {
        &self.event
    }

    /// Outcome of decoding an event from `s`, the bytes after message type `message_type`.
    pub open spec fn spec_parse(s: Seq<u8>, message_type: u8) -> Result<nat, ParseError> {
        if message_type != 0x04 {
            Err(ParseError::TagMismatch)
        } else if s.len() < 2 || s.len() < 2 + s[1] {
            Err(ParseError::InsufficientInput)
        } else {
            match HciEvent_Event::spec_parse(s.subrange(2, 2 + s[1]), s[0]) {
                Ok(_) => Ok((2 + s[1]) as nat),
                Err(e) => Err(e),
            }
        }
    }

    /// `self` holds the header fields, the parameter bytes, and their decoding.
    pub open spec fn decodes(self, s: Seq<u8>, message_type: u8) -> bool {
        &&& self.event_code == s[0]
        &&& self.parameter_length == s[1]
        &&& self.data@ == s.subrange(2, 2 + s[1])
        &&& self.event.decodes(self.data@, self.event_code)
    }

    pub fn parse<'a>(i: &'a [u8], message_type: u8) -> (r: Result<(&'a [u8], HciEvent), ParseError>)
        ensures
            parsed(i@, r, Self::spec_parse(i@, message_type)),
            r matches Ok((_, v)) ==> v.decodes(i@, message_type),
    {
        expect_tag(message_type, 0x04)?;
        need(i, 2)?;
        let event_code = i[0];
        let parameter_length = i[1];
        need(i, 2 + parameter_length as usize)?;
        let data = bytes_at(i, 2, parameter_length as usize);
        let (_, event) = HciEvent_Event::parse(data.as_slice(), event_code)?;
        Ok((skip(i, 2 + parameter_length as usize), HciEvent { event_code, parameter_length, data, event }))
    }
}

} // verus!
