//! Command Complete events: the controller's answer to a command, whose shape
//! is selected by the opcode of the command it answers.
use vstd::prelude::*;

use crate::ad::{ad_sequence, parse_ad_sequence, BasicDataType};
use crate::command::{
    expect_key, keyed, opcode_command, opcode_group, split_opcode, LeSetEventMask,
};
use crate::wire::{
    bytes_at, expect_tag, le16, need, nul_terminated_text, nul_text, parsed, read_u16, sized, skip,
    ParseError,
};

verus! {

/// The status byte that starts most answers; zero means success.
#[derive(Debug, Clone, PartialEq, Eq, PartialOrd, Ord)]
pub struct ResponseStatus {
    pub status_code: u8,
}

impl ResponseStatus {
    pub fn get_status_code(&self) -> (r: u8)
        ensures
            r == self.status_code,
    {
        self.status_code
    }

    /// Outcome of decoding a status byte from `s`.
    pub open spec fn spec_parse(s: Seq<u8>) -> Result<nat, ParseError> {
        sized(s, 1)
    }

    pub open spec fn decodes(self, s: Seq<u8>) -> bool {
        self.status_code == s[0]
    }

    pub fn parse<'a>(i: &'a [u8]) -> (r: Result<(&'a [u8], ResponseStatus), ParseError>)
        ensures
            parsed(i@, r, Self::spec_parse(i@)),
            r matches Ok((_, v)) ==> v.decodes(i@),
    {
        need(i, 1)?;
        Ok((skip(i, 1), ResponseStatus { status_code: i[0] }))
    }
}

/// An answer that names no command (command field zero): it carries nothing.
#[derive(Debug, Clone, PartialEq, Eq, PartialOrd, Ord)]
pub struct NoAssociatedCommand {
    pub ogf: u8,
}

impl NoAssociatedCommand {
    /// Accepts command field zero, reading nothing.
    pub open spec fn spec_parse(s: Seq<u8>, ogf: u8, ocf: u16) -> Result<nat, ParseError> {
        if ocf != 0 {
            Err(ParseError::TagMismatch)
        } else {
            Ok(0)
        }
    }

    pub open spec fn decodes(self, s: Seq<u8>, ogf: u8, ocf: u16) -> bool {
        self.ogf == ogf
    }

    pub fn parse<'a>(i: &'a [u8], ogf: u8, ocf: u16) -> (r: Result<(&'a [u8], NoAssociatedCommand), ParseError>)
        ensures
            parsed(i@, r, Self::spec_parse(i@, ogf, ocf)),
            r matches Ok((_, v)) ==> v.decodes(i@, ogf, ocf),
    {
        if ocf != 0 {
            return Err(ParseError::TagMismatch);
        }
        Ok((skip(i, 0), NoAssociatedCommand { ogf }))
    }
}

/// The answer to a command that no typed record covers: its opcode fields, a
/// status, and the remaining bytes unread.
#[derive(Debug, Clone, PartialEq, Eq, PartialOrd, Ord)]
pub struct UnknownCommand {
    pub ogf: u8,
    pub ocf: u16,
    pub status: ResponseStatus,
    pub data: Vec<u8>,
}

impl UnknownCommand {
    pub fn get_ogf(&self) -> (r: u8)
        ensures
            r == self.ogf,
    {
        self.ogf
    }

    pub fn get_ocf(&self) -> (r: u16)
        ensures
            r == self.ocf,
    {
        self.ocf
    }

    /// Accepts any opcode fields, reading a status byte and everything after it.
    pub open spec fn spec_parse(s: Seq<u8>, ogf: u8, ocf: u16) -> Result<nat, ParseError> {
        if s.len() < 1 {
            Err(ParseError::InsufficientInput)
        } else {
            Ok(s.len())
        }
    }

    pub open spec fn decodes(self, s: Seq<u8>, ogf: u8, ocf: u16) -> bool {
        &&& self.ogf == ogf
        &&& self.ocf == ocf
        &&& self.status.status_code == s[0]
        &&& self.data@ == s.subrange(1, s.len() as int)
    }

    pub fn parse<'a>(i: &'a [u8], ogf: u8, ocf: u16) -> (r: Result<(&'a [u8], UnknownCommand), ParseError>)
        ensures
            parsed(i@, r, Self::spec_parse(i@, ogf, ocf)),
            r matches Ok((_, v)) ==> v.decodes(i@, ogf, ocf),
    {
        let (rest, status) = ResponseStatus::parse(i)?;
        let data = bytes_at(rest, 0, rest.len());
        assert(data@ =~= i@.subrange(1, i@.len() as int));
        Ok((skip(i, i.len()), UnknownCommand { ogf, ocf, status, data }))
    }
}

/// The answer to a read of the device name: a status and a 248-byte buffer
/// ended by a NUL.
#[derive(Debug, Clone, PartialEq, Eq, PartialOrd, Ord)]
pub struct ReadLocalNameResponse {
    pub status: ResponseStatus,
    pub local_name_buffer: Vec<u8>,
    pub local_name: String,
}

impl ReadLocalNameResponse {
    pub fn get_status(&self) -> (r: &ResponseStatus)
        ensures
            *r == self.status,
    {
        &self.status
    }

    pub fn get_local_name(&self) -> (r: &String)
        ensures
            r@ == self.local_name@,
    {
        &self.local_name
    }

    /// Outcome of decoding this record from `s`, under opcode fields `ogf` and `ocf`.
    pub open spec fn spec_parse(s: Seq<u8>, ogf: u8, ocf: u16) -> Result<nat, ParseError> {
        match keyed(ogf, ocf, 0x03, 0x14, s, 249) {
            Ok(n) => if nul_text(s.subrange(1, 249)) is Some {
                Ok(n)
            } else {
                Err(ParseError::InvalidEncoding)
            },
            Err(e) => Err(e),
        }
    }

    /// `self` holds the status, the buffer, and the text before its first NUL.
    pub open spec fn decodes(self, s: Seq<u8>, ogf: u8, ocf: u16) -> bool {
        &&& self.status.status_code == s[0]
        &&& self.local_name_buffer@ == s.subrange(1, 249)
        &&& nul_text(s.subrange(1, 249)) == Some(self.local_name@)
    }

    pub fn parse<'a>(i: &'a [u8], ogf: u8, ocf: u16) -> (r: Result<(&'a [u8], ReadLocalNameResponse), ParseError>)
        ensures
            parsed(i@, r, Self::spec_parse(i@, ogf, ocf)),
            r matches Ok((_, v)) ==> v.decodes(i@, ogf, ocf),
    {
        expect_key(ogf, ocf, 0x03, 0x14)?;
        need(i, 249)?;
        let local_name_buffer = bytes_at(i, 1, 248);
        let local_name = nul_terminated_text(local_name_buffer.as_slice())?;
        let v = ReadLocalNameResponse {
            status: ResponseStatus { status_code: i[0] },
            local_name_buffer,
            local_name,
        };
        Ok((skip(i, 249), v))
    }
}

/// The answer to a read of the extended inquiry response: a status, a FEC flag
/// and a 240-byte buffer of AD structures.
#[derive(Debug, Clone, PartialEq, Eq, PartialOrd, Ord)]
pub struct ReadExtendedInquiryResponseResponse {
    pub status: ResponseStatus,
    pub fec_required: u8,
    pub response_buffer: Vec<u8>,
    pub advertising_data: Vec<BasicDataType>,
}

impl ReadExtendedInquiryResponseResponse {
    pub fn get_status(&self) -> (r: &ResponseStatus)
        ensures
            *r == self.status,
    {
        &self.status
    }

    pub fn get_fec_required(&self) -> (r: u8)
        ensures
            r == self.fec_required,
    {
        self.fec_required
    }

    pub fn get_advertising_data(&self) -> (r: &[BasicDataType])
        ensures
            r@ == self.advertising_data@,
    {
        self.advertising_data.as_slice()
    }

    /// Outcome of decoding this record from `s`, under opcode fields `ogf` and `ocf`.
    pub open spec fn spec_parse(s: Seq<u8>, ogf: u8, ocf: u16) -> Result<nat, ParseError> {
        keyed(ogf, ocf, 0x03, 0x51, s, 242)
    }

    /// `self` holds the status, the flag, the buffer, and the AD structures read from it.
    pub open spec fn decodes(self, s: Seq<u8>, ogf: u8, ocf: u16) -> bool {
        &&& self.status.status_code == s[0]
        &&& self.fec_required == s[1]
        &&& self.response_buffer@ == s.subrange(2, 242)
        &&& ad_sequence(self.advertising_data@, s.subrange(2, 242))
    }

    pub fn parse<'a>(i: &'a [u8], ogf: u8, ocf: u16) -> (r: Result<(&'a [u8], ReadExtendedInquiryResponseResponse), ParseError>)
        ensures
            parsed(i@, r, Self::spec_parse(i@, ogf, ocf)),
            r matches Ok((_, v)) ==> v.decodes(i@, ogf, ocf),
    {
        expect_key(ogf, ocf, 0x03, 0x51)?;
        need(i, 242)?;
        let response_buffer = bytes_at(i, 2, 240);
        let advertising_data = parse_ad_sequence(response_buffer.as_slice());
        let v = ReadExtendedInquiryResponseResponse {
            status: ResponseStatus { status_code: i[0] },
            fec_required: i[1],
            response_buffer,
            advertising_data,
        };
        Ok((skip(i, 242), v))
    }
}

/// The answer to a reset.
#[derive(Debug, Clone, PartialEq, Eq, PartialOrd, Ord)]
pub struct ResetResponse {
    pub status: ResponseStatus,
}

impl ResetResponse {
    pub fn get_status(&self) -> (r: &ResponseStatus)
        ensures
            *r == self.status,
    {
        &self.status
    }

    /// Outcome of decoding this record from `s`, under opcode fields `ogf` and `ocf`.
    pub open spec fn spec_parse(s: Seq<u8>, ogf: u8, ocf: u16) -> Result<nat, ParseError> {
        keyed(ogf, ocf, 0x03, 0x03, s, 1)
    }

    /// `self` holds the fields at the front of `s`.
    pub open spec fn decodes(self, s: Seq<u8>, ogf: u8, ocf: u16) -> bool {
        self.status.status_code == s[0]
    }

    pub fn parse<'a>(i: &'a [u8], ogf: u8, ocf: u16) -> (r: Result<(&'a [u8], ResetResponse), ParseError>)
        ensures
            parsed(i@, r, Self::spec_parse(i@, ogf, ocf)),
            r matches Ok((_, v)) ==> v.decodes(i@, ogf, ocf),
    {
        expect_key(ogf, ocf, 0x03, 0x03)?;
        need(i, 1)?;
        let v = ResetResponse {
            status: ResponseStatus { status_code: i[0] },
        };
        Ok((skip(i, 1), v))
    }
}

/// The answer to setting an event filter.
#[derive(Debug, Clone, PartialEq, Eq, PartialOrd, Ord)]
pub struct SetEventFilterResponse {
    pub status: ResponseStatus,
}

impl SetEventFilterResponse {
    pub fn get_status(&self) -> (r: &ResponseStatus)
        ensures
            *r == self.status,
    {
        &self.status
    }

    /// Outcome of decoding this record from `s`, under opcode fields `ogf` and `ocf`.
    pub open spec fn spec_parse(s: Seq<u8>, ogf: u8, ocf: u16) -> Result<nat, ParseError> {
        keyed(ogf, ocf, 0x03, 0x05, s, 1)
    }

    /// `self` holds the fields at the front of `s`.
    pub open spec fn decodes(self, s: Seq<u8>, ogf: u8, ocf: u16) -> bool {
        self.status.status_code == s[0]
    }

    pub fn parse<'a>(i: &'a [u8], ogf: u8, ocf: u16) -> (r: Result<(&'a [u8], SetEventFilterResponse), ParseError>)
        ensures
            parsed(i@, r, Self::spec_parse(i@, ogf, ocf)),
            r matches Ok((_, v)) ==> v.decodes(i@, ogf, ocf),
    {
        expect_key(ogf, ocf, 0x03, 0x05)?;
        need(i, 1)?;
        let v = SetEventFilterResponse {
            status: ResponseStatus { status_code: i[0] },
        };
        Ok((skip(i, 1), v))
    }
}

/// The answer to a flush: the connection it applied to.
#[derive(Debug, Clone, PartialEq, Eq, PartialOrd, Ord)]
pub struct FlushResponse {
    pub status: ResponseStatus,
    pub connection_handle: u16,
}

impl FlushResponse {
    pub fn get_status(&self) -> (r: &ResponseStatus)
        ensures
            *r == self.status,
    {
        &self.status
    }

    pub fn get_connection_handle(&self) -> (r: u16)
        ensures
            r == self.connection_handle,
    {
        self.connection_handle
    }

    /// Outcome of decoding this record from `s`, under opcode fields `ogf` and `ocf`.
    pub open spec fn spec_parse(s: Seq<u8>, ogf: u8, ocf: u16) -> Result<nat, ParseError> {
        keyed(ogf, ocf, 0x03, 0x08, s, 3)
    }

    /// `self` holds the fields at the front of `s`.
    pub open spec fn decodes(self, s: Seq<u8>, ogf: u8, ocf: u16) -> bool {
        &&& self.status.status_code == s[0]
        &&& self.connection_handle == le16(s, 1)
    }

    pub fn parse<'a>(i: &'a [u8], ogf: u8, ocf: u16) -> (r: Result<(&'a [u8], FlushResponse), ParseError>)
        ensures
            parsed(i@, r, Self::spec_parse(i@, ogf, ocf)),
            r matches Ok((_, v)) ==> v.decodes(i@, ogf, ocf),
    {
        expect_key(ogf, ocf, 0x03, 0x08)?;
        need(i, 3)?;
        let v = FlushResponse {
            status: ResponseStatus { status_code: i[0] },
            connection_handle: read_u16(i, 1),
        };
        Ok((skip(i, 3), v))
    }
}

/// The answer to storing the device name.
#[derive(Debug, Clone, PartialEq, Eq, PartialOrd, Ord)]
pub struct WriteLocalNameResponse {
    pub status: ResponseStatus,
}

impl WriteLocalNameResponse {
    pub fn get_status(&self) -> (r: &ResponseStatus)
        ensures
            *r == self.status,
    {
        &self.status
    }

    /// Outcome of decoding this record from `s`, under opcode fields `ogf` and `ocf`.
    pub open spec fn spec_parse(s: Seq<u8>, ogf: u8, ocf: u16) -> Result<nat, ParseError> {
        keyed(ogf, ocf, 0x03, 0x13, s, 1)
    }

    /// `self` holds the fields at the front of `s`.
    pub open spec fn decodes(self, s: Seq<u8>, ogf: u8, ocf: u16) -> bool {
        self.status.status_code == s[0]
    }

    pub fn parse<'a>(i: &'a [u8], ogf: u8, ocf: u16) -> (r: Result<(&'a [u8], WriteLocalNameResponse), ParseError>)
        ensures
            parsed(i@, r, Self::spec_parse(i@, ogf, ocf)),
            r matches Ok((_, v)) ==> v.decodes(i@, ogf, ocf),
    {
        expect_key(ogf, ocf, 0x03, 0x13)?;
        need(i, 1)?;
        let v = WriteLocalNameResponse {
            status: ResponseStatus { status_code: i[0] },
        };
        Ok((skip(i, 1), v))
    }
}

/// The answer to a read of the connection accept timeout.
#[derive(Debug, Clone, PartialEq, Eq, PartialOrd, Ord)]
pub struct ReadConnectionAcceptTimeoutResponse {
    pub status: ResponseStatus,
    pub connection_accept_timeout: u16,
}

impl ReadConnectionAcceptTimeoutResponse {
    pub fn get_status(&self) -> (r: &ResponseStatus)
        ensures
            *r == self.status,
    {
        &self.status
    }

    pub fn get_connection_accept_timeout(&self) -> (r: u16)
        ensures
            r == self.connection_accept_timeout,
    {
        self.connection_accept_timeout
    }

    /// Outcome of decoding this record from `s`, under opcode fields `ogf` and `ocf`.
    pub open spec fn spec_parse(s: Seq<u8>, ogf: u8, ocf: u16) -> Result<nat, ParseError> {
        keyed(ogf, ocf, 0x03, 0x15, s, 3)
    }

    /// `self` holds the fields at the front of `s`.
    pub open spec fn decodes(self, s: Seq<u8>, ogf: u8, ocf: u16) -> bool {
        &&& self.status.status_code == s[0]
        &&& self.connection_accept_timeout == le16(s, 1)
    }

    pub fn parse<'a>(i: &'a [u8], ogf: u8, ocf: u16) -> (r: Result<(&'a [u8], ReadConnectionAcceptTimeoutResponse), ParseError>)
        ensures
            parsed(i@, r, Self::spec_parse(i@, ogf, ocf)),
            r matches Ok((_, v)) ==> v.decodes(i@, ogf, ocf),
    {
        expect_key(ogf, ocf, 0x03, 0x15)?;
        need(i, 3)?;
        let v = ReadConnectionAcceptTimeoutResponse {
            status: ResponseStatus { status_code: i[0] },
            connection_accept_timeout: read_u16(i, 1),
        };
        Ok((skip(i, 3), v))
    }
}

/// The answer to setting the connection accept timeout.
#[derive(Debug, Clone, PartialEq, Eq, PartialOrd, Ord)]
pub struct WriteConnectionAcceptTimeoutResponse {
    pub status: ResponseStatus,
}

impl WriteConnectionAcceptTimeoutResponse {
    pub fn get_status(&self) -> (r: &ResponseStatus)
        ensures
            *r == self.status,
    {
        &self.status
    }

    /// Outcome of decoding this record from `s`, under opcode fields `ogf` and `ocf`.
    pub open spec fn spec_parse(s: Seq<u8>, ogf: u8, ocf: u16) -> Result<nat, ParseError> {
        keyed(ogf, ocf, 0x03, 0x16, s, 1)
    }

    /// `self` holds the fields at the front of `s`.
    pub open spec fn decodes(self, s: Seq<u8>, ogf: u8, ocf: u16) -> bool {
        self.status.status_code == s[0]
    }

    pub fn parse<'a>(i: &'a [u8], ogf: u8, ocf: u16) -> (r: Result<(&'a [u8], WriteConnectionAcceptTimeoutResponse), ParseError>)
        ensures
            parsed(i@, r, Self::spec_parse(i@, ogf, ocf)),
            r matches Ok((_, v)) ==> v.decodes(i@, ogf, ocf),
    {
        expect_key(ogf, ocf, 0x03, 0x16)?;
        need(i, 1)?;
        let v = WriteConnectionAcceptTimeoutResponse {
            status: ResponseStatus { status_code: i[0] },
        };
        Ok((skip(i, 1), v))
    }
}

/// The answer to a read of the page timeout.
#[derive(Debug, Clone, PartialEq, Eq, PartialOrd, Ord)]
pub struct ReadPageTimeoutResponse {
    pub status: ResponseStatus,
    pub page_timeout: u16,
}

impl ReadPageTimeoutResponse {
    pub fn get_status(&self) -> (r: &ResponseStatus)
        ensures
            *r == self.status,
    {
        &self.status
    }

    pub fn get_page_timeout(&self) -> (r: u16)
        ensures
            r == self.page_timeout,
    {
        self.page_timeout
    }

    /// Outcome of decoding this record from `s`, under opcode fields `ogf` and `ocf`.
    pub open spec fn spec_parse(s: Seq<u8>, ogf: u8, ocf: u16) -> Result<nat, ParseError> {
        keyed(ogf, ocf, 0x03, 0x17, s, 3)
    }

    /// `self` holds the fields at the front of `s`.
    pub open spec fn decodes(self, s: Seq<u8>, ogf: u8, ocf: u16) -> bool {
        &&& self.status.status_code == s[0]
        &&& self.page_timeout == le16(s, 1)
    }

    pub fn parse<'a>(i: &'a [u8], ogf: u8, ocf: u16) -> (r: Result<(&'a [u8], ReadPageTimeoutResponse), ParseError>)
        ensures
            parsed(i@, r, Self::spec_parse(i@, ogf, ocf)),
            r matches Ok((_, v)) ==> v.decodes(i@, ogf, ocf),
    {
        expect_key(ogf, ocf, 0x03, 0x17)?;
        need(i, 3)?;
        let v = ReadPageTimeoutResponse {
            status: ResponseStatus { status_code: i[0] },
            page_timeout: read_u16(i, 1),
        };
        Ok((skip(i, 3), v))
    }
}

/// The answer to setting the page timeout.
#[derive(Debug, Clone, PartialEq, Eq, PartialOrd, Ord)]
pub struct WritePageTimeoutResponse {
    pub status: ResponseStatus,
}

impl WritePageTimeoutResponse {
    pub fn get_status(&self) -> (r: &ResponseStatus)
        ensures
            *r == self.status,
    {
        &self.status
    }

    /// Outcome of decoding this record from `s`, under opcode fields `ogf` and `ocf`.
    pub open spec fn spec_parse(s: Seq<u8>, ogf: u8, ocf: u16) -> Result<nat, ParseError> {
        keyed(ogf, ocf, 0x03, 0x18, s, 1)
    }

    /// `self` holds the fields at the front of `s`.
    pub open spec fn decodes(self, s: Seq<u8>, ogf: u8, ocf: u16) -> bool {
        self.status.status_code == s[0]
    }

    pub fn parse<'a>(i: &'a [u8], ogf: u8, ocf: u16) -> (r: Result<(&'a [u8], WritePageTimeoutResponse), ParseError>)
        ensures
            parsed(i@, r, Self::spec_parse(i@, ogf, ocf)),
            r matches Ok((_, v)) ==> v.decodes(i@, ogf, ocf),
    {
        expect_key(ogf, ocf, 0x03, 0x18)?;
        need(i, 1)?;
        let v = WritePageTimeoutResponse {
            status: ResponseStatus { status_code: i[0] },
        };
        Ok((skip(i, 1), v))
    }
}

/// The answer to a read of the enabled scans.
#[derive(Debug, Clone, PartialEq, Eq, PartialOrd, Ord)]
pub struct ReadScanEnableResponse {
    pub status: ResponseStatus,
    pub scan_enable: u8,
}

impl ReadScanEnableResponse {
    pub fn get_status(&self) -> (r: &ResponseStatus)
        ensures
            *r == self.status,
    {
        &self.status
    }

    pub fn get_scan_enable(&self) -> (r: u8)
        ensures
            r == self.scan_enable,
    {
        self.scan_enable
    }

    /// Outcome of decoding this record from `s`, under opcode fields `ogf` and `ocf`.
    pub open spec fn spec_parse(s: Seq<u8>, ogf: u8, ocf: u16) -> Result<nat, ParseError> {
        keyed(ogf, ocf, 0x03, 0x19, s, 2)
    }

    /// `self` holds the fields at the front of `s`.
    pub open spec fn decodes(self, s: Seq<u8>, ogf: u8, ocf: u16) -> bool {
        &&& self.status.status_code == s[0]
        &&& self.scan_enable == s[1]
    }

    pub fn parse<'a>(i: &'a [u8], ogf: u8, ocf: u16) -> (r: Result<(&'a [u8], ReadScanEnableResponse), ParseError>)
        ensures
            parsed(i@, r, Self::spec_parse(i@, ogf, ocf)),
            r matches Ok((_, v)) ==> v.decodes(i@, ogf, ocf),
    {
        expect_key(ogf, ocf, 0x03, 0x19)?;
        need(i, 2)?;
        let v = ReadScanEnableResponse {
            status: ResponseStatus { status_code: i[0] },
            scan_enable: i[1],
        };
        Ok((skip(i, 2), v))
    }
}

/// The answer to enabling or disabling the scans.
#[derive(Debug, Clone, PartialEq, Eq, PartialOrd, Ord)]
pub struct WriteScanEnableResponse {
    pub status: ResponseStatus,
}

impl WriteScanEnableResponse {
    pub fn get_status(&self) -> (r: &ResponseStatus)
        ensures
            *r == self.status,
    {
        &self.status
    }

    /// Outcome of decoding this record from `s`, under opcode fields `ogf` and `ocf`.
    pub open spec fn spec_parse(s: Seq<u8>, ogf: u8, ocf: u16) -> Result<nat, ParseError> {
        keyed(ogf, ocf, 0x03, 0x1A, s, 1)
    }

    /// `self` holds the fields at the front of `s`.
    pub open spec fn decodes(self, s: Seq<u8>, ogf: u8, ocf: u16) -> bool {
        self.status.status_code == s[0]
    }

    pub fn parse<'a>(i: &'a [u8], ogf: u8, ocf: u16) -> (r: Result<(&'a [u8], WriteScanEnableResponse), ParseError>)
        ensures
            parsed(i@, r, Self::spec_parse(i@, ogf, ocf)),
            r matches Ok((_, v)) ==> v.decodes(i@, ogf, ocf),
    {
        expect_key(ogf, ocf, 0x03, 0x1A)?;
        need(i, 1)?;
        let v = WriteScanEnableResponse {
            status: ResponseStatus { status_code: i[0] },
        };
        Ok((skip(i, 1), v))
    }
}

/// The answer to a read of the page scan interval and window.
#[derive(Debug, Clone, PartialEq, Eq, PartialOrd, Ord)]
pub struct ReadPageScanActivityResponse {
    pub status: ResponseStatus,
    pub page_scan_interval: u16,
    pub page_scan_window: u16,
}

impl ReadPageScanActivityResponse {
    pub fn get_status(&self) -> (r: &ResponseStatus)
        ensures
            *r == self.status,
    {
        &self.status
    }

    pub fn get_page_scan_interval(&self) -> (r: u16)
        ensures
            r == self.page_scan_interval,
    {
        self.page_scan_interval
    }

    pub fn get_page_scan_window(&self) -> (r: u16)
        ensures
            r == self.page_scan_window,
    {
        self.page_scan_window
    }

    /// Outcome of decoding this record from `s`, under opcode fields `ogf` and `ocf`.
    pub open spec fn spec_parse(s: Seq<u8>, ogf: u8, ocf: u16) -> Result<nat, ParseError> {
        keyed(ogf, ocf, 0x03, 0x1B, s, 5)
    }

    /// `self` holds the fields at the front of `s`.
    pub open spec fn decodes(self, s: Seq<u8>, ogf: u8, ocf: u16) -> bool {
        &&& self.status.status_code == s[0]
        &&& self.page_scan_interval == le16(s, 1)
        &&& self.page_scan_window == le16(s, 3)
    }

    pub fn parse<'a>(i: &'a [u8], ogf: u8, ocf: u16) -> (r: Result<(&'a [u8], ReadPageScanActivityResponse), ParseError>)
        ensures
            parsed(i@, r, Self::spec_parse(i@, ogf, ocf)),
            r matches Ok((_, v)) ==> v.decodes(i@, ogf, ocf),
    {
        expect_key(ogf, ocf, 0x03, 0x1B)?;
        need(i, 5)?;
        let v = ReadPageScanActivityResponse {
            status: ResponseStatus { status_code: i[0] },
            page_scan_interval: read_u16(i, 1),
            page_scan_window: read_u16(i, 3),
        };
        Ok((skip(i, 5), v))
    }
}

/// The answer to setting the page scan interval and window.
#[derive(Debug, Clone, PartialEq, Eq, PartialOrd, Ord)]
pub struct WritePageScanActivityResponse {
    pub status: ResponseStatus,
}

impl WritePageScanActivityResponse {
    pub fn get_status(&self) -> (r: &ResponseStatus)
        ensures
            *r == self.status,
    {
        &self.status
    }

    /// Outcome of decoding this record from `s`, under opcode fields `ogf` and `ocf`.
    pub open spec fn spec_parse(s: Seq<u8>, ogf: u8, ocf: u16) -> Result<nat, ParseError> {
        keyed(ogf, ocf, 0x03, 0x1C, s, 1)
    }

    /// `self` holds the fields at the front of `s`.
    pub open spec fn decodes(self, s: Seq<u8>, ogf: u8, ocf: u16) -> bool {
        self.status.status_code == s[0]
    }

    pub fn parse<'a>(i: &'a [u8], ogf: u8, ocf: u16) -> (r: Result<(&'a [u8], WritePageScanActivityResponse), ParseError>)
        ensures
            parsed(i@, r, Self::spec_parse(i@, ogf, ocf)),
            r matches Ok((_, v)) ==> v.decodes(i@, ogf, ocf),
    {
        expect_key(ogf, ocf, 0x03, 0x1C)?;
        need(i, 1)?;
        let v = WritePageScanActivityResponse {
            status: ResponseStatus { status_code: i[0] },
        };
        Ok((skip(i, 1), v))
    }
}

/// The answer to a read of the inquiry scan interval and window.
#[derive(Debug, Clone, PartialEq, Eq, PartialOrd, Ord)]
pub struct ReadInquiryScanActivityResponse {
    pub status: ResponseStatus,
    pub inquiry_scan_interval: u16,
    pub inquiry_scan_window: u16,
}

impl ReadInquiryScanActivityResponse {
    pub fn get_status(&self) -> (r: &ResponseStatus)
        ensures
            *r == self.status,
    {
        &self.status
    }

    pub fn get_inquiry_scan_interval(&self) -> (r: u16)
        ensures
            r == self.inquiry_scan_interval,
    {
        self.inquiry_scan_interval
    }

    pub fn get_inquiry_scan_window(&self) -> (r: u16)
        ensures
            r == self.inquiry_scan_window,
    {
        self.inquiry_scan_window
    }

    /// Outcome of decoding this record from `s`, under opcode fields `ogf` and `ocf`.
    pub open spec fn spec_parse(s: Seq<u8>, ogf: u8, ocf: u16) -> Result<nat, ParseError> {
        keyed(ogf, ocf, 0x03, 0x1D, s, 5)
    }

    /// `self` holds the fields at the front of `s`.
    pub open spec fn decodes(self, s: Seq<u8>, ogf: u8, ocf: u16) -> bool {
        &&& self.status.status_code == s[0]
        &&& self.inquiry_scan_interval == le16(s, 1)
        &&& self.inquiry_scan_window == le16(s, 3)
    }

    pub fn parse<'a>(i: &'a [u8], ogf: u8, ocf: u16) -> (r: Result<(&'a [u8], ReadInquiryScanActivityResponse), ParseError>)
        ensures
            parsed(i@, r, Self::spec_parse(i@, ogf, ocf)),
            r matches Ok((_, v)) ==> v.decodes(i@, ogf, ocf),
    {
        expect_key(ogf, ocf, 0x03, 0x1D)?;
        need(i, 5)?;
        let v = ReadInquiryScanActivityResponse {
            status: ResponseStatus { status_code: i[0] },
            inquiry_scan_interval: read_u16(i, 1),
            inquiry_scan_window: read_u16(i, 3),
        };
        Ok((skip(i, 5), v))
    }
}

/// The answer to setting the inquiry scan interval and window.
#[derive(Debug, Clone, PartialEq, Eq, PartialOrd, Ord)]
pub struct WriteInquiryScanActivityResponse {
    pub status: ResponseStatus,
}

impl WriteInquiryScanActivityResponse {
    pub fn get_status(&self) -> (r: &ResponseStatus)
        ensures
            *r == self.status,
    {
        &self.status
    }

    /// Outcome of decoding this record from `s`, under opcode fields `ogf` and `ocf`.
    pub open spec fn spec_parse(s: Seq<u8>, ogf: u8, ocf: u16) -> Result<nat, ParseError> {
        keyed(ogf, ocf, 0x03, 0x1E, s, 1)
    }

    /// `self` holds the fields at the front of `s`.
    pub open spec fn decodes(self, s: Seq<u8>, ogf: u8, ocf: u16) -> bool {
        self.status.status_code == s[0]
    }

    pub fn parse<'a>(i: &'a [u8], ogf: u8, ocf: u16) -> (r: Result<(&'a [u8], WriteInquiryScanActivityResponse), ParseError>)
        ensures
            parsed(i@, r, Self::spec_parse(i@, ogf, ocf)),
            r matches Ok((_, v)) ==> v.decodes(i@, ogf, ocf),
    {
        expect_key(ogf, ocf, 0x03, 0x1E)?;
        need(i, 1)?;
        let v = WriteInquiryScanActivityResponse {
            status: ResponseStatus { status_code: i[0] },
        };
        Ok((skip(i, 1), v))
    }
}

/// The answer to storing the extended inquiry response.
#[derive(Debug, Clone, PartialEq, Eq, PartialOrd, Ord)]
pub struct WriteExtendedInquiryResponseResponse {
    pub status: ResponseStatus,
}

impl WriteExtendedInquiryResponseResponse {
    pub fn get_status(&self) -> (r: &ResponseStatus)
        ensures
            *r == self.status,
    {
        &self.status
    }

    /// Outcome of decoding this record from `s`, under opcode fields `ogf` and `ocf`.
    pub open spec fn spec_parse(s: Seq<u8>, ogf: u8, ocf: u16) -> Result<nat, ParseError> {
        keyed(ogf, ocf, 0x03, 0x52, s, 1)
    }

    /// `self` holds the fields at the front of `s`.
    pub open spec fn decodes(self, s: Seq<u8>, ogf: u8, ocf: u16) -> bool {
        self.status.status_code == s[0]
    }

    pub fn parse<'a>(i: &'a [u8], ogf: u8, ocf: u16) -> (r: Result<(&'a [u8], WriteExtendedInquiryResponseResponse), ParseError>)
        ensures
            parsed(i@, r, Self::spec_parse(i@, ogf, ocf)),
            r matches Ok((_, v)) ==> v.decodes(i@, ogf, ocf),
    {
        expect_key(ogf, ocf, 0x03, 0x52)?;
        need(i, 1)?;
        let v = WriteExtendedInquiryResponseResponse {
            status: ResponseStatus { status_code: i[0] },
        };
        Ok((skip(i, 1), v))
    }
}

/// The answer to a read of the Low Energy host support.
#[derive(Debug, Clone, PartialEq, Eq, PartialOrd, Ord)]
pub struct ReadLeHostSupportResponse {
    pub status: ResponseStatus,
    pub le_supported_host: u8,
    pub simultaneous_le_host: u8,
}

impl ReadLeHostSupportResponse {
    pub fn get_status(&self) -> (r: &ResponseStatus)
        ensures
            *r == self.status,
    {
        &self.status
    }

    pub fn get_le_supported_host(&self) -> (r: u8)
        ensures
            r == self.le_supported_host,
    {
        self.le_supported_host
    }

    pub fn get_simultaneous_le_host(&self) -> (r: u8)
        ensures
            r == self.simultaneous_le_host,
    {
        self.simultaneous_le_host
    }

    /// Outcome of decoding this record from `s`, under opcode fields `ogf` and `ocf`.
    pub open spec fn spec_parse(s: Seq<u8>, ogf: u8, ocf: u16) -> Result<nat, ParseError> {
        keyed(ogf, ocf, 0x03, 0x6C, s, 3)
    }

    /// `self` holds the fields at the front of `s`.
    pub open spec fn decodes(self, s: Seq<u8>, ogf: u8, ocf: u16) -> bool {
        &&& self.status.status_code == s[0]
        &&& self.le_supported_host == s[1]
        &&& self.simultaneous_le_host == s[2]
    }

    pub fn parse<'a>(i: &'a [u8], ogf: u8, ocf: u16) -> (r: Result<(&'a [u8], ReadLeHostSupportResponse), ParseError>)
        ensures
            parsed(i@, r, Self::spec_parse(i@, ogf, ocf)),
            r matches Ok((_, v)) ==> v.decodes(i@, ogf, ocf),
    {
        expect_key(ogf, ocf, 0x03, 0x6C)?;
        need(i, 3)?;
        let v = ReadLeHostSupportResponse {
            status: ResponseStatus { status_code: i[0] },
            le_supported_host: i[1],
            simultaneous_le_host: i[2],
        };
        Ok((skip(i, 3), v))
    }
}

/// The answer to declaring the Low Energy host support.
#[derive(Debug, Clone, PartialEq, Eq, PartialOrd, Ord)]
pub struct WriteLeHostSupportResponse {
    pub status: ResponseStatus,
}

impl WriteLeHostSupportResponse {
    pub fn get_status(&self) -> (r: &ResponseStatus)
        ensures
            *r == self.status,
    {
        &self.status
    }

    /// Outcome of decoding this record from `s`, under opcode fields `ogf` and `ocf`.
    pub open spec fn spec_parse(s: Seq<u8>, ogf: u8, ocf: u16) -> Result<nat, ParseError> {
        keyed(ogf, ocf, 0x03, 0x6D, s, 1)
    }

    /// `self` holds the fields at the front of `s`.
    pub open spec fn decodes(self, s: Seq<u8>, ogf: u8, ocf: u16) -> bool {
        self.status.status_code == s[0]
    }

    pub fn parse<'a>(i: &'a [u8], ogf: u8, ocf: u16) -> (r: Result<(&'a [u8], WriteLeHostSupportResponse), ParseError>)
        ensures
            parsed(i@, r, Self::spec_parse(i@, ogf, ocf)),
            r matches Ok((_, v)) ==> v.decodes(i@, ogf, ocf),
    {
        expect_key(ogf, ocf, 0x03, 0x6D)?;
        need(i, 1)?;
        let v = WriteLeHostSupportResponse {
            status: ResponseStatus { status_code: i[0] },
        };
        Ok((skip(i, 1), v))
    }
}

/// The answer to selecting the Low Energy events.
#[derive(Debug, Clone, PartialEq, Eq, PartialOrd, Ord)]
pub struct LeSetEventMaskResponse {
    pub status: ResponseStatus,
}

impl LeSetEventMaskResponse {
    pub fn get_status(&self) -> (r: &ResponseStatus)
        ensures
            *r == self.status,
    {
        &self.status
    }

    /// Outcome of decoding this record from `s`, under opcode fields `ogf` and `ocf`.
    pub open spec fn spec_parse(s: Seq<u8>, ogf: u8, ocf: u16) -> Result<nat, ParseError> {
        keyed(ogf, ocf, 0x08, 0x01, s, 1)
    }

    /// `self` holds the fields at the front of `s`.
    pub open spec fn decodes(self, s: Seq<u8>, ogf: u8, ocf: u16) -> bool {
        self.status.status_code == s[0]
    }

    pub fn parse<'a>(i: &'a [u8], ogf: u8, ocf: u16) -> (r: Result<(&'a [u8], LeSetEventMaskResponse), ParseError>)
        ensures
            parsed(i@, r, Self::spec_parse(i@, ogf, ocf)),
            r matches Ok((_, v)) ==> v.decodes(i@, ogf, ocf),
    {
        expect_key(ogf, ocf, 0x08, 0x01)?;
        need(i, 1)?;
        let v = LeSetEventMaskResponse {
            status: ResponseStatus { status_code: i[0] },
        };
        Ok((skip(i, 1), v))
    }
}

/// The answer to a read of the Low Energy data buffer size.
#[derive(Debug, Clone, PartialEq, Eq, PartialOrd, Ord)]
pub struct LeReadBufferSizeResponse {
    pub status: ResponseStatus,
    pub hc_le_data_packet_length: u16,
    pub hc_total_num_le_data_packets: u8,
}

impl LeReadBufferSizeResponse {
    pub fn get_status(&self) -> (r: &ResponseStatus)
        ensures
            *r == self.status,
    {
        &self.status
    }

    pub fn get_hc_le_data_packet_length(&self) -> (r: u16)
        ensures
            r == self.hc_le_data_packet_length,
    {
        self.hc_le_data_packet_length
    }

    pub fn get_hc_total_num_le_data_packets(&self) -> (r: u8)
        ensures
            r == self.hc_total_num_le_data_packets,
    {
        self.hc_total_num_le_data_packets
    }

    /// Outcome of decoding this record from `s`, under opcode fields `ogf` and `ocf`.
    pub open spec fn spec_parse(s: Seq<u8>, ogf: u8, ocf: u16) -> Result<nat, ParseError> {
        keyed(ogf, ocf, 0x08, 0x02, s, 4)
    }

    /// `self` holds the fields at the front of `s`.
    pub open spec fn decodes(self, s: Seq<u8>, ogf: u8, ocf: u16) -> bool {
        &&& self.status.status_code == s[0]
        &&& self.hc_le_data_packet_length == le16(s, 1)
        &&& self.hc_total_num_le_data_packets == s[3]
    }

    pub fn parse<'a>(i: &'a [u8], ogf: u8, ocf: u16) -> (r: Result<(&'a [u8], LeReadBufferSizeResponse), ParseError>)
        ensures
            parsed(i@, r, Self::spec_parse(i@, ogf, ocf)),
            r matches Ok((_, v)) ==> v.decodes(i@, ogf, ocf),
    {
        expect_key(ogf, ocf, 0x08, 0x02)?;
        need(i, 4)?;
        let v = LeReadBufferSizeResponse {
            status: ResponseStatus { status_code: i[0] },
            hc_le_data_packet_length: read_u16(i, 1),
            hc_total_num_le_data_packets: i[3],
        };
        Ok((skip(i, 4), v))
    }
}

/// The answer to a read of the Low Energy features.
#[derive(Debug, Clone, PartialEq, Eq, PartialOrd, Ord)]
pub struct LeReadLocalSupportedFeaturesResponse {
    pub status: ResponseStatus,
    pub le_features: Vec<u8>,
}

impl LeReadLocalSupportedFeaturesResponse {
    pub fn get_status(&self) -> (r: &ResponseStatus)
        ensures
            *r == self.status,
    {
        &self.status
    }

    pub fn get_le_features(&self) -> (r: &[u8])
        ensures
            r@ == self.le_features@,
    {
        self.le_features.as_slice()
    }

    /// Outcome of decoding this record from `s`, under opcode fields `ogf` and `ocf`.
    pub open spec fn spec_parse(s: Seq<u8>, ogf: u8, ocf: u16) -> Result<nat, ParseError> {
        keyed(ogf, ocf, 0x08, 0x03, s, 9)
    }

    /// `self` holds the fields at the front of `s`.
    pub open spec fn decodes(self, s: Seq<u8>, ogf: u8, ocf: u16) -> bool {
        &&& self.status.status_code == s[0]
        &&& self.le_features@ == s.subrange(1, 9)
    }

    pub fn parse<'a>(i: &'a [u8], ogf: u8, ocf: u16) -> (r: Result<(&'a [u8], LeReadLocalSupportedFeaturesResponse), ParseError>)
        ensures
            parsed(i@, r, Self::spec_parse(i@, ogf, ocf)),
            r matches Ok((_, v)) ==> v.decodes(i@, ogf, ocf),
    {
        expect_key(ogf, ocf, 0x08, 0x03)?;
        need(i, 9)?;
        let v = LeReadLocalSupportedFeaturesResponse {
            status: ResponseStatus { status_code: i[0] },
            le_features: bytes_at(i, 1, 8),
        };
        Ok((skip(i, 9), v))
    }
}

/// The answer to setting the random device address.
#[derive(Debug, Clone, PartialEq, Eq, PartialOrd, Ord)]
pub struct LeSetRandomAddressCommandResponse {
    pub status: ResponseStatus,
}

impl LeSetRandomAddressCommandResponse {
    pub fn get_status(&self) -> (r: &ResponseStatus)
        ensures
            *r == self.status,
    {
        &self.status
    }

    /// Outcome of decoding this record from `s`, under opcode fields `ogf` and `ocf`.
    pub open spec fn spec_parse(s: Seq<u8>, ogf: u8, ocf: u16) -> Result<nat, ParseError> {
        keyed(ogf, ocf, 0x08, 0x05, s, 1)
    }

    /// `self` holds the fields at the front of `s`.
    pub open spec fn decodes(self, s: Seq<u8>, ogf: u8, ocf: u16) -> bool {
        self.status.status_code == s[0]
    }

    pub fn parse<'a>(i: &'a [u8], ogf: u8, ocf: u16) -> (r: Result<(&'a [u8], LeSetRandomAddressCommandResponse), ParseError>)
        ensures
            parsed(i@, r, Self::spec_parse(i@, ogf, ocf)),
            r matches Ok((_, v)) ==> v.decodes(i@, ogf, ocf),
    {
        expect_key(ogf, ocf, 0x08, 0x05)?;
        need(i, 1)?;
        let v = LeSetRandomAddressCommandResponse {
            status: ResponseStatus { status_code: i[0] },
        };
        Ok((skip(i, 1), v))
    }
}

/// The answer to setting the advertising parameters.
#[derive(Debug, Clone, PartialEq, Eq, PartialOrd, Ord)]
pub struct LeSetAdvertisingParametersResponse {
    pub status: ResponseStatus,
}

impl LeSetAdvertisingParametersResponse {
    pub fn get_status(&self) -> (r: &ResponseStatus)
        ensures
            *r == self.status,
    {
        &self.status
    }

    /// Outcome of decoding this record from `s`, under opcode fields `ogf` and `ocf`.
    pub open spec fn spec_parse(s: Seq<u8>, ogf: u8, ocf: u16) -> Result<nat, ParseError> {
        keyed(ogf, ocf, 0x08, 0x06, s, 1)
    }

    /// `self` holds the fields at the front of `s`.
    pub open spec fn decodes(self, s: Seq<u8>, ogf: u8, ocf: u16) -> bool {
        self.status.status_code == s[0]
    }

    pub fn parse<'a>(i: &'a [u8], ogf: u8, ocf: u16) -> (r: Result<(&'a [u8], LeSetAdvertisingParametersResponse), ParseError>)
        ensures
            parsed(i@, r, Self::spec_parse(i@, ogf, ocf)),
            r matches Ok((_, v)) ==> v.decodes(i@, ogf, ocf),
    {
        expect_key(ogf, ocf, 0x08, 0x06)?;
        need(i, 1)?;
        let v = LeSetAdvertisingParametersResponse {
            status: ResponseStatus { status_code: i[0] },
        };
        Ok((skip(i, 1), v))
    }
}

/// The answer to setting the advertising data.
#[derive(Debug, Clone, PartialEq, Eq, PartialOrd, Ord)]
pub struct LeSetAdvertisingDataResponse {
    pub status: ResponseStatus,
}

impl LeSetAdvertisingDataResponse {
    pub fn get_status(&self) -> (r: &ResponseStatus)
        ensures
            *r == self.status,
    {
        &self.status
    }

    /// Outcome of decoding this record from `s`, under opcode fields `ogf` and `ocf`.
    pub open spec fn spec_parse(s: Seq<u8>, ogf: u8, ocf: u16) -> Result<nat, ParseError> {
        keyed(ogf, ocf, 0x08, 0x08, s, 1)
    }

    /// `self` holds the fields at the front of `s`.
    pub open spec fn decodes(self, s: Seq<u8>, ogf: u8, ocf: u16) -> bool {
        self.status.status_code == s[0]
    }

    pub fn parse<'a>(i: &'a [u8], ogf: u8, ocf: u16) -> (r: Result<(&'a [u8], LeSetAdvertisingDataResponse), ParseError>)
        ensures
            parsed(i@, r, Self::spec_parse(i@, ogf, ocf)),
            r matches Ok((_, v)) ==> v.decodes(i@, ogf, ocf),
    {
        expect_key(ogf, ocf, 0x08, 0x08)?;
        need(i, 1)?;
        let v = LeSetAdvertisingDataResponse {
            status: ResponseStatus { status_code: i[0] },
        };
        Ok((skip(i, 1), v))
    }
}

/// The answer to setting the scan parameters.
#[derive(Debug, Clone, PartialEq, Eq, PartialOrd, Ord)]
pub struct LeSetScanParametersResponse {
    pub status: ResponseStatus,
}

impl LeSetScanParametersResponse {
    pub fn get_status(&self) -> (r: &ResponseStatus)
        ensures
            *r == self.status,
    {
        &self.status
    }

    /// Outcome of decoding this record from `s`, under opcode fields `ogf` and `ocf`.
    pub open spec fn spec_parse(s: Seq<u8>, ogf: u8, ocf: u16) -> Result<nat, ParseError> {
        keyed(ogf, ocf, 0x08, 0x0B, s, 1)
    }

    /// `self` holds the fields at the front of `s`.
    pub open spec fn decodes(self, s: Seq<u8>, ogf: u8, ocf: u16) -> bool {
        self.status.status_code == s[0]
    }

    pub fn parse<'a>(i: &'a [u8], ogf: u8, ocf: u16) -> (r: Result<(&'a [u8], LeSetScanParametersResponse), ParseError>)
        ensures
            parsed(i@, r, Self::spec_parse(i@, ogf, ocf)),
            r matches Ok((_, v)) ==> v.decodes(i@, ogf, ocf),
    {
        expect_key(ogf, ocf, 0x08, 0x0B)?;
        need(i, 1)?;
        let v = LeSetScanParametersResponse {
            status: ResponseStatus { status_code: i[0] },
        };
        Ok((skip(i, 1), v))
    }
}

/// The answer to starting or stopping a scan.
#[derive(Debug, Clone, PartialEq, Eq, PartialOrd, Ord)]
pub struct LeSetScanEnableResponse {
    pub status: ResponseStatus,
}

impl LeSetScanEnableResponse {
    pub fn get_status(&self) -> (r: &ResponseStatus)
        ensures
            *r == self.status,
    {
        &self.status
    }

    /// Outcome of decoding this record from `s`, under opcode fields `ogf` and `ocf`.
    pub open spec fn spec_parse(s: Seq<u8>, ogf: u8, ocf: u16) -> Result<nat, ParseError> {
        keyed(ogf, ocf, 0x08, 0x0C, s, 1)
    }

    /// `self` holds the fields at the front of `s`.
    pub open spec fn decodes(self, s: Seq<u8>, ogf: u8, ocf: u16) -> bool {
        self.status.status_code == s[0]
    }

    pub fn parse<'a>(i: &'a [u8], ogf: u8, ocf: u16) -> (r: Result<(&'a [u8], LeSetScanEnableResponse), ParseError>)
        ensures
            parsed(i@, r, Self::spec_parse(i@, ogf, ocf)),
            r matches Ok((_, v)) ==> v.decodes(i@, ogf, ocf),
    {
        expect_key(ogf, ocf, 0x08, 0x0C)?;
        need(i, 1)?;
        let v = LeSetScanEnableResponse {
            status: ResponseStatus { status_code: i[0] },
        };
        Ok((skip(i, 1), v))
    }
}

/// The answer carried by a Command Complete event, selected by the (group, command field) pair of the command it answers.
#[derive(Debug, Clone, PartialEq, Eq, PartialOrd, Ord)]
pub enum CommandComplete_Response {
    NoAssociatedCommand(NoAssociatedCommand),
    Reset(ResetResponse),
    SetEventFilter(SetEventFilterResponse),
    Flush(FlushResponse),
    WriteLocalName(WriteLocalNameResponse),
    ReadLocalName(ReadLocalNameResponse),
    ReadConnectionAcceptTimeout(ReadConnectionAcceptTimeoutResponse),
    WriteConnectionAcceptTimeout(WriteConnectionAcceptTimeoutResponse),
    ReadPageTimeout(ReadPageTimeoutResponse),
    WritePageTimeout(WritePageTimeoutResponse),
    ReadScanEnable(ReadScanEnableResponse),
    WriteScanEnable(WriteScanEnableResponse),
    ReadPageScanActivity(ReadPageScanActivityResponse),
    WritePageScanActivity(WritePageScanActivityResponse),
    ReadInquiryScanActivity(ReadInquiryScanActivityResponse),
    WriteInquiryScanActivity(WriteInquiryScanActivityResponse),
    ReadExtendedInquiryResponse(ReadExtendedInquiryResponseResponse),
    WriteExtendedInquiryResponse(WriteExtendedInquiryResponseResponse),
    ReadLeHostSupport(ReadLeHostSupportResponse),
    WriteLeHostSupport(WriteLeHostSupportResponse),
    LeSetEventMask(LeSetEventMask),
    LeSetEventMaskResponse(LeSetEventMaskResponse),
    LeReadBufferSize(LeReadBufferSizeResponse),
    LeReadLocalSupportedFeatures(LeReadLocalSupportedFeaturesResponse),
    LeSetRandomAddressCommand(LeSetRandomAddressCommandResponse),
    LeSetAdvertisingParameters(LeSetAdvertisingParametersResponse),
    LESetAdvertisingData(LeSetAdvertisingDataResponse),
    LeSetScanParameters(LeSetScanParametersResponse),
    LeSetScanEnable(LeSetScanEnableResponse),
    UnknownCommand(UnknownCommand),
}

impl CommandComplete_Response {
    /// Position, in dispatch order, of the candidate that decodes `s`: the first
    /// that accepts it, else the fallback, which is last.
    pub open spec fn choice(s: Seq<u8>, ogf: u8, ocf: u16) -> int {
        if NoAssociatedCommand::spec_parse(s, ogf, ocf) is Ok {
            0
        } else if ResetResponse::spec_parse(s, ogf, ocf) is Ok {
            1
        } else if SetEventFilterResponse::spec_parse(s, ogf, ocf) is Ok {
            2
        } else if FlushResponse::spec_parse(s, ogf, ocf) is Ok {
            3
        } else if WriteLocalNameResponse::spec_parse(s, ogf, ocf) is Ok {
            4
        } else if ReadLocalNameResponse::spec_parse(s, ogf, ocf) is Ok {
            5
        } else if ReadConnectionAcceptTimeoutResponse::spec_parse(s, ogf, ocf) is Ok {
            6
        } else if WriteConnectionAcceptTimeoutResponse::spec_parse(s, ogf, ocf) is Ok {
            7
        } else if ReadPageTimeoutResponse::spec_parse(s, ogf, ocf) is Ok {
            8
        } else if WritePageTimeoutResponse::spec_parse(s, ogf, ocf) is Ok {
            9
        } else if ReadScanEnableResponse::spec_parse(s, ogf, ocf) is Ok {
            10
        } else if WriteScanEnableResponse::spec_parse(s, ogf, ocf) is Ok {
            11
        } else if ReadPageScanActivityResponse::spec_parse(s, ogf, ocf) is Ok {
            12
        } else if WritePageScanActivityResponse::spec_parse(s, ogf, ocf) is Ok {
            13
        } else if ReadInquiryScanActivityResponse::spec_parse(s, ogf, ocf) is Ok {
            14
        } else if WriteInquiryScanActivityResponse::spec_parse(s, ogf, ocf) is Ok {
            15
        } else if ReadExtendedInquiryResponseResponse::spec_parse(s, ogf, ocf) is Ok {
            16
        } else if WriteExtendedInquiryResponseResponse::spec_parse(s, ogf, ocf) is Ok {
            17
        } else if ReadLeHostSupportResponse::spec_parse(s, ogf, ocf) is Ok {
            18
        } else if WriteLeHostSupportResponse::spec_parse(s, ogf, ocf) is Ok {
            19
        } else if LeSetEventMask::spec_parse(s, ogf, ocf) is Ok {
            20
        } else if LeSetEventMaskResponse::spec_parse(s, ogf, ocf) is Ok {
            21
        } else if LeReadBufferSizeResponse::spec_parse(s, ogf, ocf) is Ok {
            22
        } else if LeReadLocalSupportedFeaturesResponse::spec_parse(s, ogf, ocf) is Ok {
            23
        } else if LeSetRandomAddressCommandResponse::spec_parse(s, ogf, ocf) is Ok {
            24
        } else if LeSetAdvertisingParametersResponse::spec_parse(s, ogf, ocf) is Ok {
            25
        } else if LeSetAdvertisingDataResponse::spec_parse(s, ogf, ocf) is Ok {
            26
        } else if LeSetScanParametersResponse::spec_parse(s, ogf, ocf) is Ok {
            27
        } else if LeSetScanEnableResponse::spec_parse(s, ogf, ocf) is Ok {
            28
        } else {
            29
        }
    }

    /// Outcome of decoding `s`: that of the chosen candidate.
    pub open spec fn spec_parse(s: Seq<u8>, ogf: u8, ocf: u16) -> Result<nat, ParseError> {
        let k = Self::choice(s, ogf, ocf);
        if k == 0 {
            NoAssociatedCommand::spec_parse(s, ogf, ocf)
        } else if k == 1 {
            ResetResponse::spec_parse(s, ogf, ocf)
        } else if k == 2 {
            SetEventFilterResponse::spec_parse(s, ogf, ocf)
        } else if k == 3 {
            FlushResponse::spec_parse(s, ogf, ocf)
        } else if k == 4 {
            WriteLocalNameResponse::spec_parse(s, ogf, ocf)
        } else if k == 5 {
            ReadLocalNameResponse::spec_parse(s, ogf, ocf)
        } else if k == 6 {
            ReadConnectionAcceptTimeoutResponse::spec_parse(s, ogf, ocf)
        } else if k == 7 {
            WriteConnectionAcceptTimeoutResponse::spec_parse(s, ogf, ocf)
        } else if k == 8 {
            ReadPageTimeoutResponse::spec_parse(s, ogf, ocf)
        } else if k == 9 {
            WritePageTimeoutResponse::spec_parse(s, ogf, ocf)
        } else if k == 10 {
            ReadScanEnableResponse::spec_parse(s, ogf, ocf)
        } else if k == 11 {
            WriteScanEnableResponse::spec_parse(s, ogf, ocf)
        } else if k == 12 {
            ReadPageScanActivityResponse::spec_parse(s, ogf, ocf)
        } else if k == 13 {
            WritePageScanActivityResponse::spec_parse(s, ogf, ocf)
        } else if k == 14 {
            ReadInquiryScanActivityResponse::spec_parse(s, ogf, ocf)
        } else if k == 15 {
            WriteInquiryScanActivityResponse::spec_parse(s, ogf, ocf)
        } else if k == 16 {
            ReadExtendedInquiryResponseResponse::spec_parse(s, ogf, ocf)
        } else if k == 17 {
            WriteExtendedInquiryResponseResponse::spec_parse(s, ogf, ocf)
        } else if k == 18 {
            ReadLeHostSupportResponse::spec_parse(s, ogf, ocf)
        } else if k == 19 {
            WriteLeHostSupportResponse::spec_parse(s, ogf, ocf)
        } else if k == 20 {
            LeSetEventMask::spec_parse(s, ogf, ocf)
        } else if k == 21 {
            LeSetEventMaskResponse::spec_parse(s, ogf, ocf)
        } else if k == 22 {
            LeReadBufferSizeResponse::spec_parse(s, ogf, ocf)
        } else if k == 23 {
            LeReadLocalSupportedFeaturesResponse::spec_parse(s, ogf, ocf)
        } else if k == 24 {
            LeSetRandomAddressCommandResponse::spec_parse(s, ogf, ocf)
        } else if k == 25 {
            LeSetAdvertisingParametersResponse::spec_parse(s, ogf, ocf)
        } else if k == 26 {
            LeSetAdvertisingDataResponse::spec_parse(s, ogf, ocf)
        } else if k == 27 {
            LeSetScanParametersResponse::spec_parse(s, ogf, ocf)
        } else if k == 28 {
            LeSetScanEnableResponse::spec_parse(s, ogf, ocf)
        } else {
            UnknownCommand::spec_parse(s, ogf, ocf)
        }
    }

    /// `self` is the variant of the chosen candidate, holding what it decodes.
    pub open spec fn decodes(self, s: Seq<u8>, ogf: u8, ocf: u16) -> bool {
        match self {
            CommandComplete_Response::NoAssociatedCommand(x) => Self::choice(s, ogf, ocf) == 0 && x.decodes(s, ogf, ocf),
            CommandComplete_Response::Reset(x) => Self::choice(s, ogf, ocf) == 1 && x.decodes(s, ogf, ocf),
            CommandComplete_Response::SetEventFilter(x) => Self::choice(s, ogf, ocf) == 2 && x.decodes(s, ogf, ocf),
            CommandComplete_Response::Flush(x) => Self::choice(s, ogf, ocf) == 3 && x.decodes(s, ogf, ocf),
            CommandComplete_Response::WriteLocalName(x) => Self::choice(s, ogf, ocf) == 4 && x.decodes(s, ogf, ocf),
            CommandComplete_Response::ReadLocalName(x) => Self::choice(s, ogf, ocf) == 5 && x.decodes(s, ogf, ocf),
            CommandComplete_Response::ReadConnectionAcceptTimeout(x) => Self::choice(s, ogf, ocf) == 6 && x.decodes(s, ogf, ocf),
            CommandComplete_Response::WriteConnectionAcceptTimeout(x) => Self::choice(s, ogf, ocf) == 7 && x.decodes(s, ogf, ocf),
            CommandComplete_Response::ReadPageTimeout(x) => Self::choice(s, ogf, ocf) == 8 && x.decodes(s, ogf, ocf),
            CommandComplete_Response::WritePageTimeout(x) => Self::choice(s, ogf, ocf) == 9 && x.decodes(s, ogf, ocf),
            CommandComplete_Response::ReadScanEnable(x) => Self::choice(s, ogf, ocf) == 10 && x.decodes(s, ogf, ocf),
            CommandComplete_Response::WriteScanEnable(x) => Self::choice(s, ogf, ocf) == 11 && x.decodes(s, ogf, ocf),
            CommandComplete_Response::ReadPageScanActivity(x) => Self::choice(s, ogf, ocf) == 12 && x.decodes(s, ogf, ocf),
            CommandComplete_Response::WritePageScanActivity(x) => Self::choice(s, ogf, ocf) == 13 && x.decodes(s, ogf, ocf),
            CommandComplete_Response::ReadInquiryScanActivity(x) => Self::choice(s, ogf, ocf) == 14 && x.decodes(s, ogf, ocf),
            CommandComplete_Response::WriteInquiryScanActivity(x) => Self::choice(s, ogf, ocf) == 15 && x.decodes(s, ogf, ocf),
            CommandComplete_Response::ReadExtendedInquiryResponse(x) => Self::choice(s, ogf, ocf) == 16 && x.decodes(s, ogf, ocf),
            CommandComplete_Response::WriteExtendedInquiryResponse(x) => Self::choice(s, ogf, ocf) == 17 && x.decodes(s, ogf, ocf),
            CommandComplete_Response::ReadLeHostSupport(x) => Self::choice(s, ogf, ocf) == 18 && x.decodes(s, ogf, ocf),
            CommandComplete_Response::WriteLeHostSupport(x) => Self::choice(s, ogf, ocf) == 19 && x.decodes(s, ogf, ocf),
            CommandComplete_Response::LeSetEventMask(x) => Self::choice(s, ogf, ocf) == 20 && x.decodes(s, ogf, ocf),
            CommandComplete_Response::LeSetEventMaskResponse(x) => Self::choice(s, ogf, ocf) == 21 && x.decodes(s, ogf, ocf),
            CommandComplete_Response::LeReadBufferSize(x) => Self::choice(s, ogf, ocf) == 22 && x.decodes(s, ogf, ocf),
            CommandComplete_Response::LeReadLocalSupportedFeatures(x) => Self::choice(s, ogf, ocf) == 23 && x.decodes(s, ogf, ocf),
            CommandComplete_Response::LeSetRandomAddressCommand(x) => Self::choice(s, ogf, ocf) == 24 && x.decodes(s, ogf, ocf),
            CommandComplete_Response::LeSetAdvertisingParameters(x) => Self::choice(s, ogf, ocf) == 25 && x.decodes(s, ogf, ocf),
            CommandComplete_Response::LESetAdvertisingData(x) => Self::choice(s, ogf, ocf) == 26 && x.decodes(s, ogf, ocf),
            CommandComplete_Response::LeSetScanParameters(x) => Self::choice(s, ogf, ocf) == 27 && x.decodes(s, ogf, ocf),
            CommandComplete_Response::LeSetScanEnable(x) => Self::choice(s, ogf, ocf) == 28 && x.decodes(s, ogf, ocf),
            CommandComplete_Response::UnknownCommand(x) => Self::choice(s, ogf, ocf) == 29 && x.decodes(s, ogf, ocf),
        }
    }

    /// Tries each candidate in order on the same input and keeps the first success.
    pub fn parse<'a>(i: &'a [u8], ogf: u8, ocf: u16) -> (r: Result<(&'a [u8], CommandComplete_Response), ParseError>)
        ensures
            parsed(i@, r, Self::spec_parse(i@, ogf, ocf)),
            r matches Ok((_, v)) ==> v.decodes(i@, ogf, ocf),
    {
        if let Ok((rest, x)) = NoAssociatedCommand::parse(i, ogf, ocf) {
            return Ok((rest, CommandComplete_Response::NoAssociatedCommand(x)));
        }
        if let Ok((rest, x)) = ResetResponse::parse(i, ogf, ocf) {
            return Ok((rest, CommandComplete_Response::Reset(x)));
        }
        if let Ok((rest, x)) = SetEventFilterResponse::parse(i, ogf, ocf) {
            return Ok((rest, CommandComplete_Response::SetEventFilter(x)));
        }
        if let Ok((rest, x)) = FlushResponse::parse(i, ogf, ocf) {
            return Ok((rest, CommandComplete_Response::Flush(x)));
        }
        if let Ok((rest, x)) = WriteLocalNameResponse::parse(i, ogf, ocf) {
            return Ok((rest, CommandComplete_Response::WriteLocalName(x)));
        }
        if let Ok((rest, x)) = ReadLocalNameResponse::parse(i, ogf, ocf) {
            return Ok((rest, CommandComplete_Response::ReadLocalName(x)));
        }
        if let Ok((rest, x)) = ReadConnectionAcceptTimeoutResponse::parse(i, ogf, ocf) {
            return Ok((rest, CommandComplete_Response::ReadConnectionAcceptTimeout(x)));
        }
        if let Ok((rest, x)) = WriteConnectionAcceptTimeoutResponse::parse(i, ogf, ocf) {
            return Ok((rest, CommandComplete_Response::WriteConnectionAcceptTimeout(x)));
        }
        if let Ok((rest, x)) = ReadPageTimeoutResponse::parse(i, ogf, ocf) {
            return Ok((rest, CommandComplete_Response::ReadPageTimeout(x)));
        }
        if let Ok((rest, x)) = WritePageTimeoutResponse::parse(i, ogf, ocf) {
            return Ok((rest, CommandComplete_Response::WritePageTimeout(x)));
        }
        if let Ok((rest, x)) = ReadScanEnableResponse::parse(i, ogf, ocf) {
            return Ok((rest, CommandComplete_Response::ReadScanEnable(x)));
        }
        if let Ok((rest, x)) = WriteScanEnableResponse::parse(i, ogf, ocf) {
            return Ok((rest, CommandComplete_Response::WriteScanEnable(x)));
        }
        if let Ok((rest, x)) = ReadPageScanActivityResponse::parse(i, ogf, ocf) {
            return Ok((rest, CommandComplete_Response::ReadPageScanActivity(x)));
        }
        if let Ok((rest, x)) = WritePageScanActivityResponse::parse(i, ogf, ocf) {
            return Ok((rest, CommandComplete_Response::WritePageScanActivity(x)));
        }
        if let Ok((rest, x)) = ReadInquiryScanActivityResponse::parse(i, ogf, ocf) {
            return Ok((rest, CommandComplete_Response::ReadInquiryScanActivity(x)));
        }
        if let Ok((rest, x)) = WriteInquiryScanActivityResponse::parse(i, ogf, ocf) {
            return Ok((rest, CommandComplete_Response::WriteInquiryScanActivity(x)));
        }
        if let Ok((rest, x)) = ReadExtendedInquiryResponseResponse::parse(i, ogf, ocf) {
            return Ok((rest, CommandComplete_Response::ReadExtendedInquiryResponse(x)));
        }
        if let Ok((rest, x)) = WriteExtendedInquiryResponseResponse::parse(i, ogf, ocf) {
            return Ok((rest, CommandComplete_Response::WriteExtendedInquiryResponse(x)));
        }
        if let Ok((rest, x)) = ReadLeHostSupportResponse::parse(i, ogf, ocf) {
            return Ok((rest, CommandComplete_Response::ReadLeHostSupport(x)));
        }
        if let Ok((rest, x)) = WriteLeHostSupportResponse::parse(i, ogf, ocf) {
            return Ok((rest, CommandComplete_Response::WriteLeHostSupport(x)));
        }
        if let Ok((rest, x)) = LeSetEventMask::parse(i, ogf, ocf) {
            return Ok((rest, CommandComplete_Response::LeSetEventMask(x)));
        }
        if let Ok((rest, x)) = LeSetEventMaskResponse::parse(i, ogf, ocf) {
            return Ok((rest, CommandComplete_Response::LeSetEventMaskResponse(x)));
        }
        if let Ok((rest, x)) = LeReadBufferSizeResponse::parse(i, ogf, ocf) {
            return Ok((rest, CommandComplete_Response::LeReadBufferSize(x)));
        }
        if let Ok((rest, x)) = LeReadLocalSupportedFeaturesResponse::parse(i, ogf, ocf) {
            return Ok((rest, CommandComplete_Response::LeReadLocalSupportedFeatures(x)));
        }
        if let Ok((rest, x)) = LeSetRandomAddressCommandResponse::parse(i, ogf, ocf) {
            return Ok((rest, CommandComplete_Response::LeSetRandomAddressCommand(x)));
        }
        if let Ok((rest, x)) = LeSetAdvertisingParametersResponse::parse(i, ogf, ocf) {
            return Ok((rest, CommandComplete_Response::LeSetAdvertisingParameters(x)));
        }
        if let Ok((rest, x)) = LeSetAdvertisingDataResponse::parse(i, ogf, ocf) {
            return Ok((rest, CommandComplete_Response::LESetAdvertisingData(x)));
        }
        if let Ok((rest, x)) = LeSetScanParametersResponse::parse(i, ogf, ocf) {
            return Ok((rest, CommandComplete_Response::LeSetScanParameters(x)));
        }
        if let Ok((rest, x)) = LeSetScanEnableResponse::parse(i, ogf, ocf) {
            return Ok((rest, CommandComplete_Response::LeSetScanEnable(x)));
        }
        let (rest, x) = UnknownCommand::parse(i, ogf, ocf)?;
        Ok((rest, CommandComplete_Response::UnknownCommand(x)))
    }
}

/// A Command Complete event: how many commands the controller accepts now, the
/// opcode of the command answered, and the answer.
#[derive(Debug, Clone, PartialEq, Eq, PartialOrd, Ord)]
pub struct CommandComplete {
    pub num_packets: u8,
    pub opcode: u16,
    pub response: CommandComplete_Response,
}

impl CommandComplete {
    pub fn get_num_packets(&self) -> (r: u8)
        ensures
            r == self.num_packets,
    {
        self.num_packets
    }

    pub fn get_response(&self) -> (r: &CommandComplete_Response)
        ensures
            *r == self.response,
    {
        &self.response
    }

    /// Outcome of decoding the event parameters `s` under event code `event_code`.
    pub open spec fn spec_parse(s: Seq<u8>, event_code: u8) -> Result<nat, ParseError> {
        if event_code != 0x0E {
            Err(ParseError::TagMismatch)
        } else if s.len() < 3 {
            Err(ParseError::InsufficientInput)
        } else {
            let opcode = le16(s, 1);
            match CommandComplete_Response::spec_parse(
                s.subrange(3, s.len() as int),
                opcode_group(opcode),
                opcode_command(opcode),
            ) {
                Ok(n) => Ok(n + 3),
                Err(e) => Err(e),
            }
        }
    }

    /// `self` holds the header fields and the answer, decoded under the opcode's fields.
    pub open spec fn decodes(self, s: Seq<u8>, event_code: u8) -> bool {
        &&& self.num_packets == s[0]
        &&& self.opcode == le16(s, 1)
        &&& self.response.decodes(
            s.subrange(3, s.len() as int),
            opcode_group(self.opcode),
            opcode_command(self.opcode),
        )
    }

    pub fn parse<'a>(i: &'a [u8], event_code: u8) -> (r: Result<(&'a [u8], CommandComplete), ParseError>)
        ensures
            parsed(i@, r, Self::spec_parse(i@, event_code)),
            r matches Ok((_, v)) ==> v.decodes(i@, event_code),
    {
        expect_tag(event_code, 0x0E)?;
        need(i, 3)?;
        let num_packets = i[0];
        let opcode = read_u16(i, 1);
        let (ogf, ocf) = split_opcode(opcode);
        let (rest, response) = CommandComplete_Response::parse(skip(i, 3), ogf, ocf)?;
        assert(rest@ =~= i@.subrange(i@.len() - rest@.len(), i@.len() as int));
        Ok((rest, CommandComplete { num_packets, opcode, response }))
    }
}

/// A Command Complete event answering a reset (group 3, command field 3) is
/// decoded through the reset answer, a lone status byte, whatever bytes follow
/// and whichever other answer they would also fit.
pub proof fn lemma_reset_answer_keyed(s: Seq<u8>)
    requires
        s.len() >= 4,
        opcode_group(le16(s, 1)) == 3,
        opcode_command(le16(s, 1)) == 3,
    ensures
        CommandComplete::spec_parse(s, 0x0E) == Ok::<nat, ParseError>(4),
        forall|v: CommandComplete| #[trigger]
            v.decodes(s, 0x0E) ==> (v.response matches CommandComplete_Response::Reset(x)
                && x.status.status_code == s[3]),
{
    let body = s.subrange(3, s.len() as int);
    assert(CommandComplete_Response::choice(body, 3, 3) == 1);
}

} // verus!
