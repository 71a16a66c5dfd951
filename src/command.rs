//! HCI commands: an opcode whose upper six bits are the group (OGF) and lower
//! ten the command field (OCF), a length byte, and parameters whose shape the
//! (group, command field) pair selects.
use vstd::prelude::*;

use crate::ad::{ad_sequence, parse_ad_sequence, BasicDataType};
use crate::wire::{
    bytes_at, expect_tag, le16, need, nul_terminated_text, nul_text, parsed, read_u16, sized, skip,
    ParseError,
};

verus! {

/// The group field (OGF) of an opcode: its upper six bits.
pub open spec fn opcode_group(opcode: u16) -> u8 {
    (opcode / 1024) as u8
}

/// The command field (OCF) of an opcode: its lower ten bits.
pub open spec fn opcode_command(opcode: u16) -> u16 {
    opcode % 1024
}

/// Splits an opcode into its group field, `opcode >> 10`, and its command
/// field, `opcode & 0x3FF`.
pub fn split_opcode(opcode: u16) -> (r: (u8, u16))
    ensures
        r.0 == opcode_group(opcode),
        r.1 == opcode_command(opcode),
        r.0 as u16 == opcode >> 10u16,
        r.1 == opcode & 0x3FFu16,
{
    let group = (opcode >> 10u16) as u8;
    let command = opcode & 0x3FFu16;
    assert(opcode >> 10u16 == opcode / 1024) by (bit_vector);
    assert(opcode & 0x3FFu16 == opcode % 1024) by (bit_vector);
    (group, command)
}

/// The two fields of an opcode are six and ten bits wide and together give the
/// opcode back: no two opcodes share a (group, command field) pair.
pub proof fn lemma_opcode_split(opcode: u16)
    ensures
        opcode_group(opcode) < 64,
        opcode_command(opcode) < 1024,
        opcode_group(opcode) * 1024 + opcode_command(opcode) == opcode,
{
}

/// Outcome of a record that belongs to the command (`group`, `command`) and
/// reads `n` bytes, under the opcode fields `ogf` and `ocf`.
pub open spec fn keyed(ogf: u8, ocf: u16, group: u8, command: u16, s: Seq<u8>, n: nat) -> Result<
    nat,
    ParseError,
> {
    if ogf != group || ocf != command {
        Err(ParseError::TagMismatch)
    } else {
        sized(s, n)
    }
}

/// Fails with `TagMismatch` unless the opcode fields are (`group`, `command`).
pub fn expect_key(ogf: u8, ocf: u16, group: u8, command: u16) -> (r: Result<(), ParseError>)
    ensures
        match r {
            Ok(_) => ogf == group && ocf == command,
            Err(e) => (ogf != group || ocf != command) && e == ParseError::TagMismatch,
        },
{
    if ogf != group || ocf != command {
        Err(ParseError::TagMismatch)
    } else {
        Ok(())
    }
}

/// Resets the controller.
#[derive(Debug, Clone, PartialEq, Eq, PartialOrd, Ord)]
pub struct Reset {}

impl Reset {
    /// Outcome of decoding this record from `s`, under opcode fields `ogf` and `ocf`.
    pub open spec fn spec_parse(s: Seq<u8>, ogf: u8, ocf: u16) -> Result<nat, ParseError> {
        keyed(ogf, ocf, 0x03, 0x03, s, 0)
    }

    /// `self` holds the fields at the front of `s`.
    pub open spec fn decodes(self, s: Seq<u8>, ogf: u8, ocf: u16) -> bool {
        true
    }

    pub fn parse<'a>(i: &'a [u8], ogf: u8, ocf: u16) -> (r: Result<(&'a [u8], Reset), ParseError>)
        ensures
            parsed(i@, r, Self::spec_parse(i@, ogf, ocf)),
            r matches Ok((_, v)) ==> v.decodes(i@, ogf, ocf),
    {
        expect_key(ogf, ocf, 0x03, 0x03)?;
        Ok((skip(i, 0), Reset {}))
    }
}

/// Discards the data waiting for a connection.
#[derive(Debug, Clone, PartialEq, Eq, PartialOrd, Ord)]
pub struct Flush {
    pub connection_handle: u16,
}

impl Flush {
    pub fn get_connection_handle(&self) -> (r: u16)
        ensures
            r == self.connection_handle,
    {
        self.connection_handle
    }

    /// Outcome of decoding this record from `s`, under opcode fields `ogf` and `ocf`.
    pub open spec fn spec_parse(s: Seq<u8>, ogf: u8, ocf: u16) -> Result<nat, ParseError> {
        keyed(ogf, ocf, 0x03, 0x08, s, 2)
    }

    /// `self` holds the fields at the front of `s`.
    pub open spec fn decodes(self, s: Seq<u8>, ogf: u8, ocf: u16) -> bool {
        self.connection_handle == le16(s, 0)
    }

    pub fn parse<'a>(i: &'a [u8], ogf: u8, ocf: u16) -> (r: Result<(&'a [u8], Flush), ParseError>)
        ensures
            parsed(i@, r, Self::spec_parse(i@, ogf, ocf)),
            r matches Ok((_, v)) ==> v.decodes(i@, ogf, ocf),
    {
        expect_key(ogf, ocf, 0x03, 0x08)?;
        need(i, 2)?;
        let v = Flush {
            connection_handle: read_u16(i, 0),
        };
        Ok((skip(i, 2), v))
    }
}

/// Asks for the device name.
#[derive(Debug, Clone, PartialEq, Eq, PartialOrd, Ord)]
pub struct ReadLocalName {}

impl ReadLocalName {
    /// Outcome of decoding this record from `s`, under opcode fields `ogf` and `ocf`.
    pub open spec fn spec_parse(s: Seq<u8>, ogf: u8, ocf: u16) -> Result<nat, ParseError> {
        keyed(ogf, ocf, 0x03, 0x14, s, 0)
    }

    /// `self` holds the fields at the front of `s`.
    pub open spec fn decodes(self, s: Seq<u8>, ogf: u8, ocf: u16) -> bool {
        true
    }

    pub fn parse<'a>(i: &'a [u8], ogf: u8, ocf: u16) -> (r: Result<(&'a [u8], ReadLocalName), ParseError>)
        ensures
            parsed(i@, r, Self::spec_parse(i@, ogf, ocf)),
            r matches Ok((_, v)) ==> v.decodes(i@, ogf, ocf),
    {
        expect_key(ogf, ocf, 0x03, 0x14)?;
        Ok((skip(i, 0), ReadLocalName {}))
    }
}

/// Asks for the connection accept timeout.
#[derive(Debug, Clone, PartialEq, Eq, PartialOrd, Ord)]
pub struct ReadConnectionAcceptTimeout {}

impl ReadConnectionAcceptTimeout {
    /// Outcome of decoding this record from `s`, under opcode fields `ogf` and `ocf`.
    pub open spec fn spec_parse(s: Seq<u8>, ogf: u8, ocf: u16) -> Result<nat, ParseError> {
        keyed(ogf, ocf, 0x03, 0x15, s, 0)
    }

    /// `self` holds the fields at the front of `s`.
    pub open spec fn decodes(self, s: Seq<u8>, ogf: u8, ocf: u16) -> bool {
        true
    }

    pub fn parse<'a>(i: &'a [u8], ogf: u8, ocf: u16) -> (r: Result<(&'a [u8], ReadConnectionAcceptTimeout), ParseError>)
        ensures
            parsed(i@, r, Self::spec_parse(i@, ogf, ocf)),
            r matches Ok((_, v)) ==> v.decodes(i@, ogf, ocf),
    {
        expect_key(ogf, ocf, 0x03, 0x15)?;
        Ok((skip(i, 0), ReadConnectionAcceptTimeout {}))
    }
}

/// Sets the connection accept timeout.
#[derive(Debug, Clone, PartialEq, Eq, PartialOrd, Ord)]
pub struct WriteConnectionAcceptTimeout {
    pub connection_accept_timeout: u16,
}

impl WriteConnectionAcceptTimeout {
    pub fn get_connection_accept_timeout(&self) -> (r: u16)
        ensures
            r == self.connection_accept_timeout,
    {
        self.connection_accept_timeout
    }

    /// Outcome of decoding this record from `s`, under opcode fields `ogf` and `ocf`.
    pub open spec fn spec_parse(s: Seq<u8>, ogf: u8, ocf: u16) -> Result<nat, ParseError> {
        keyed(ogf, ocf, 0x03, 0x16, s, 2)
    }

    /// `self` holds the fields at the front of `s`.
    pub open spec fn decodes(self, s: Seq<u8>, ogf: u8, ocf: u16) -> bool {
        self.connection_accept_timeout == le16(s, 0)
    }

    pub fn parse<'a>(i: &'a [u8], ogf: u8, ocf: u16) -> (r: Result<(&'a [u8], WriteConnectionAcceptTimeout), ParseError>)
        ensures
            parsed(i@, r, Self::spec_parse(i@, ogf, ocf)),
            r matches Ok((_, v)) ==> v.decodes(i@, ogf, ocf),
    {
        expect_key(ogf, ocf, 0x03, 0x16)?;
        need(i, 2)?;
        let v = WriteConnectionAcceptTimeout {
            connection_accept_timeout: read_u16(i, 0),
        };
        Ok((skip(i, 2), v))
    }
}

/// Asks for the page timeout.
#[derive(Debug, Clone, PartialEq, Eq, PartialOrd, Ord)]
pub struct ReadPageTimeout {}

impl ReadPageTimeout {
    /// Outcome of decoding this record from `s`, under opcode fields `ogf` and `ocf`.
    pub open spec fn spec_parse(s: Seq<u8>, ogf: u8, ocf: u16) -> Result<nat, ParseError> {
        keyed(ogf, ocf, 0x03, 0x17, s, 0)
    }

    /// `self` holds the fields at the front of `s`.
    pub open spec fn decodes(self, s: Seq<u8>, ogf: u8, ocf: u16) -> bool {
        true
    }

    pub fn parse<'a>(i: &'a [u8], ogf: u8, ocf: u16) -> (r: Result<(&'a [u8], ReadPageTimeout), ParseError>)
        ensures
            parsed(i@, r, Self::spec_parse(i@, ogf, ocf)),
            r matches Ok((_, v)) ==> v.decodes(i@, ogf, ocf),
    {
        expect_key(ogf, ocf, 0x03, 0x17)?;
        Ok((skip(i, 0), ReadPageTimeout {}))
    }
}

/// Sets the page timeout.
#[derive(Debug, Clone, PartialEq, Eq, PartialOrd, Ord)]
pub struct WritePageTimeout {
    pub page_timeout: u16,
}

impl WritePageTimeout {
    pub fn get_page_timeout(&self) -> (r: u16)
        ensures
            r == self.page_timeout,
    {
        self.page_timeout
    }

    /// Outcome of decoding this record from `s`, under opcode fields `ogf` and `ocf`.
    pub open spec fn spec_parse(s: Seq<u8>, ogf: u8, ocf: u16) -> Result<nat, ParseError> {
        keyed(ogf, ocf, 0x03, 0x18, s, 2)
    }

    /// `self` holds the fields at the front of `s`.
    pub open spec fn decodes(self, s: Seq<u8>, ogf: u8, ocf: u16) -> bool {
        self.page_timeout == le16(s, 0)
    }

    pub fn parse<'a>(i: &'a [u8], ogf: u8, ocf: u16) -> (r: Result<(&'a [u8], WritePageTimeout), ParseError>)
        ensures
            parsed(i@, r, Self::spec_parse(i@, ogf, ocf)),
            r matches Ok((_, v)) ==> v.decodes(i@, ogf, ocf),
    {
        expect_key(ogf, ocf, 0x03, 0x18)?;
        need(i, 2)?;
        let v = WritePageTimeout {
            page_timeout: read_u16(i, 0),
        };
        Ok((skip(i, 2), v))
    }
}

/// Asks which scans are enabled.
#[derive(Debug, Clone, PartialEq, Eq, PartialOrd, Ord)]
pub struct ReadScanEnable {}

impl ReadScanEnable {
    /// Outcome of decoding this record from `s`, under opcode fields `ogf` and `ocf`.
    pub open spec fn spec_parse(s: Seq<u8>, ogf: u8, ocf: u16) -> Result<nat, ParseError> {
        keyed(ogf, ocf, 0x03, 0x19, s, 0)
    }

    /// `self` holds the fields at the front of `s`.
    pub open spec fn decodes(self, s: Seq<u8>, ogf: u8, ocf: u16) -> bool {
        true
    }

    pub fn parse<'a>(i: &'a [u8], ogf: u8, ocf: u16) -> (r: Result<(&'a [u8], ReadScanEnable), ParseError>)
        ensures
            parsed(i@, r, Self::spec_parse(i@, ogf, ocf)),
            r matches Ok((_, v)) ==> v.decodes(i@, ogf, ocf),
    {
        expect_key(ogf, ocf, 0x03, 0x19)?;
        Ok((skip(i, 0), ReadScanEnable {}))
    }
}

/// Enables or disables the scans.
#[derive(Debug, Clone, PartialEq, Eq, PartialOrd, Ord)]
pub struct WriteScanEnable {
    pub scan_enable: u8,
}

impl WriteScanEnable {
    pub fn get_scan_enable(&self) -> (r: u8)
        ensures
            r == self.scan_enable,
    {
        self.scan_enable
    }

    /// Outcome of decoding this record from `s`, under opcode fields `ogf` and `ocf`.
    pub open spec fn spec_parse(s: Seq<u8>, ogf: u8, ocf: u16) -> Result<nat, ParseError> {
        keyed(ogf, ocf, 0x03, 0x1A, s, 1)
    }

    /// `self` holds the fields at the front of `s`.
    pub open spec fn decodes(self, s: Seq<u8>, ogf: u8, ocf: u16) -> bool {
        self.scan_enable == s[0]
    }

    pub fn parse<'a>(i: &'a [u8], ogf: u8, ocf: u16) -> (r: Result<(&'a [u8], WriteScanEnable), ParseError>)
        ensures
            parsed(i@, r, Self::spec_parse(i@, ogf, ocf)),
            r matches Ok((_, v)) ==> v.decodes(i@, ogf, ocf),
    {
        expect_key(ogf, ocf, 0x03, 0x1A)?;
        need(i, 1)?;
        let v = WriteScanEnable {
            scan_enable: i[0],
        };
        Ok((skip(i, 1), v))
    }
}

/// Asks for the page scan interval and window.
#[derive(Debug, Clone, PartialEq, Eq, PartialOrd, Ord)]
pub struct ReadPageScanActivity {}

impl ReadPageScanActivity {
    /// Outcome of decoding this record from `s`, under opcode fields `ogf` and `ocf`.
    pub open spec fn spec_parse(s: Seq<u8>, ogf: u8, ocf: u16) -> Result<nat, ParseError> {
        keyed(ogf, ocf, 0x03, 0x1B, s, 0)
    }

    /// `self` holds the fields at the front of `s`.
    pub open spec fn decodes(self, s: Seq<u8>, ogf: u8, ocf: u16) -> bool {
        true
    }

    pub fn parse<'a>(i: &'a [u8], ogf: u8, ocf: u16) -> (r: Result<(&'a [u8], ReadPageScanActivity), ParseError>)
        ensures
            parsed(i@, r, Self::spec_parse(i@, ogf, ocf)),
            r matches Ok((_, v)) ==> v.decodes(i@, ogf, ocf),
    {
        expect_key(ogf, ocf, 0x03, 0x1B)?;
        Ok((skip(i, 0), ReadPageScanActivity {}))
    }
}

/// Sets the page scan interval and window.
#[derive(Debug, Clone, PartialEq, Eq, PartialOrd, Ord)]
pub struct WritePageScanActivity {
    pub page_scan_interval: u16,
    pub page_scan_window: u16,
}

impl WritePageScanActivity {
    pub fn get_page_scan_interval(&self) -> (r: u16)
        ensures
            r == self.page_scan_interval,
    {
        self.page_scan_interval
    }

    pub fn get_page_scan_window(&self) -> (r: u16)
        ensures
            r == self.page_scan_window,
    {
        self.page_scan_window
    }

    /// Outcome of decoding this record from `s`, under opcode fields `ogf` and `ocf`.
    pub open spec fn spec_parse(s: Seq<u8>, ogf: u8, ocf: u16) -> Result<nat, ParseError> {
        keyed(ogf, ocf, 0x03, 0x1C, s, 4)
    }

    /// `self` holds the fields at the front of `s`.
    pub open spec fn decodes(self, s: Seq<u8>, ogf: u8, ocf: u16) -> bool {
        &&& self.page_scan_interval == le16(s, 0)
        &&& self.page_scan_window == le16(s, 2)
    }

    pub fn parse<'a>(i: &'a [u8], ogf: u8, ocf: u16) -> (r: Result<(&'a [u8], WritePageScanActivity), ParseError>)
        ensures
            parsed(i@, r, Self::spec_parse(i@, ogf, ocf)),
            r matches Ok((_, v)) ==> v.decodes(i@, ogf, ocf),
    {
        expect_key(ogf, ocf, 0x03, 0x1C)?;
        need(i, 4)?;
        let v = WritePageScanActivity {
            page_scan_interval: read_u16(i, 0),
            page_scan_window: read_u16(i, 2),
        };
        Ok((skip(i, 4), v))
    }
}

/// Asks for the inquiry scan interval and window.
#[derive(Debug, Clone, PartialEq, Eq, PartialOrd, Ord)]
pub struct ReadInquiryScanActivity {}

impl ReadInquiryScanActivity {
    /// Outcome of decoding this record from `s`, under opcode fields `ogf` and `ocf`.
    pub open spec fn spec_parse(s: Seq<u8>, ogf: u8, ocf: u16) -> Result<nat, ParseError> {
        keyed(ogf, ocf, 0x03, 0x1D, s, 0)
    }

    /// `self` holds the fields at the front of `s`.
    pub open spec fn decodes(self, s: Seq<u8>, ogf: u8, ocf: u16) -> bool {
        true
    }

    pub fn parse<'a>(i: &'a [u8], ogf: u8, ocf: u16) -> (r: Result<(&'a [u8], ReadInquiryScanActivity), ParseError>)
        ensures
            parsed(i@, r, Self::spec_parse(i@, ogf, ocf)),
            r matches Ok((_, v)) ==> v.decodes(i@, ogf, ocf),
    {
        expect_key(ogf, ocf, 0x03, 0x1D)?;
        Ok((skip(i, 0), ReadInquiryScanActivity {}))
    }
}

/// Sets the inquiry scan interval and window.
#[derive(Debug, Clone, PartialEq, Eq, PartialOrd, Ord)]
pub struct WriteInquiryScanActivity {
    pub inquiry_scan_interval: u16,
    pub inquiry_scan_window: u16,
}

impl WriteInquiryScanActivity {
    pub fn get_inquiry_scan_interval(&self) -> (r: u16)
        ensures
            r == self.inquiry_scan_interval,
    {
        self.inquiry_scan_interval
    }

    pub fn get_inquiry_scan_window(&self) -> (r: u16)
        ensures
            r == self.inquiry_scan_window,
    {
        self.inquiry_scan_window
    }

    /// Outcome of decoding this record from `s`, under opcode fields `ogf` and `ocf`.
    pub open spec fn spec_parse(s: Seq<u8>, ogf: u8, ocf: u16) -> Result<nat, ParseError> {
        keyed(ogf, ocf, 0x03, 0x1E, s, 4)
    }

    /// `self` holds the fields at the front of `s`.
    pub open spec fn decodes(self, s: Seq<u8>, ogf: u8, ocf: u16) -> bool {
        &&& self.inquiry_scan_interval == le16(s, 0)
        &&& self.inquiry_scan_window == le16(s, 2)
    }

    pub fn parse<'a>(i: &'a [u8], ogf: u8, ocf: u16) -> (r: Result<(&'a [u8], WriteInquiryScanActivity), ParseError>)
        ensures
            parsed(i@, r, Self::spec_parse(i@, ogf, ocf)),
            r matches Ok((_, v)) ==> v.decodes(i@, ogf, ocf),
    {
        expect_key(ogf, ocf, 0x03, 0x1E)?;
        need(i, 4)?;
        let v = WriteInquiryScanActivity {
            inquiry_scan_interval: read_u16(i, 0),
            inquiry_scan_window: read_u16(i, 2),
        };
        Ok((skip(i, 4), v))
    }
}

/// Asks for the extended inquiry response data.
#[derive(Debug, Clone, PartialEq, Eq, PartialOrd, Ord)]
pub struct ReadExtendedInquiryResponse {}

impl ReadExtendedInquiryResponse {
    /// Outcome of decoding this record from `s`, under opcode fields `ogf` and `ocf`.
    pub open spec fn spec_parse(s: Seq<u8>, ogf: u8, ocf: u16) -> Result<nat, ParseError> {
        keyed(ogf, ocf, 0x03, 0x51, s, 0)
    }

    /// `self` holds the fields at the front of `s`.
    pub open spec fn decodes(self, s: Seq<u8>, ogf: u8, ocf: u16) -> bool {
        true
    }

    pub fn parse<'a>(i: &'a [u8], ogf: u8, ocf: u16) -> (r: Result<(&'a [u8], ReadExtendedInquiryResponse), ParseError>)
        ensures
            parsed(i@, r, Self::spec_parse(i@, ogf, ocf)),
            r matches Ok((_, v)) ==> v.decodes(i@, ogf, ocf),
    {
        expect_key(ogf, ocf, 0x03, 0x51)?;
        Ok((skip(i, 0), ReadExtendedInquiryResponse {}))
    }
}

/// Asks whether the host supports Low Energy.
#[derive(Debug, Clone, PartialEq, Eq, PartialOrd, Ord)]
pub struct ReadLeHostSupport {}

impl ReadLeHostSupport {
    /// Outcome of decoding this record from `s`, under opcode fields `ogf` and `ocf`.
    pub open spec fn spec_parse(s: Seq<u8>, ogf: u8, ocf: u16) -> Result<nat, ParseError> {
        keyed(ogf, ocf, 0x03, 0x6C, s, 0)
    }

    /// `self` holds the fields at the front of `s`.
    pub open spec fn decodes(self, s: Seq<u8>, ogf: u8, ocf: u16) -> bool {
        true
    }

    pub fn parse<'a>(i: &'a [u8], ogf: u8, ocf: u16) -> (r: Result<(&'a [u8], ReadLeHostSupport), ParseError>)
        ensures
            parsed(i@, r, Self::spec_parse(i@, ogf, ocf)),
            r matches Ok((_, v)) ==> v.decodes(i@, ogf, ocf),
    {
        expect_key(ogf, ocf, 0x03, 0x6C)?;
        Ok((skip(i, 0), ReadLeHostSupport {}))
    }
}

/// Declares whether the host supports Low Energy.
#[derive(Debug, Clone, PartialEq, Eq, PartialOrd, Ord)]
pub struct WriteLeHostSupport {
    pub le_supported_host: u8,
    pub simultaneous_le_host: u8,
}

impl WriteLeHostSupport {
    pub fn get_le_supported_host(&self) -> (r: u8)
        ensures
            r == self.le_supported_host,
    {
        self.le_supported_host
    }

    pub fn get_simultaneous_le_host(&self) -> (r: u8)
        ensures
            r == self.simultaneous_le_host,
    {
        self.simultaneous_le_host
    }

    /// Outcome of decoding this record from `s`, under opcode fields `ogf` and `ocf`.
    pub open spec fn spec_parse(s: Seq<u8>, ogf: u8, ocf: u16) -> Result<nat, ParseError> {
        keyed(ogf, ocf, 0x03, 0x6D, s, 2)
    }

    /// `self` holds the fields at the front of `s`.
    pub open spec fn decodes(self, s: Seq<u8>, ogf: u8, ocf: u16) -> bool {
        &&& self.le_supported_host == s[0]
        &&& self.simultaneous_le_host == s[1]
    }

    pub fn parse<'a>(i: &'a [u8], ogf: u8, ocf: u16) -> (r: Result<(&'a [u8], WriteLeHostSupport), ParseError>)
        ensures
            parsed(i@, r, Self::spec_parse(i@, ogf, ocf)),
            r matches Ok((_, v)) ==> v.decodes(i@, ogf, ocf),
    {
        expect_key(ogf, ocf, 0x03, 0x6D)?;
        need(i, 2)?;
        let v = WriteLeHostSupport {
            le_supported_host: i[0],
            simultaneous_le_host: i[1],
        };
        Ok((skip(i, 2), v))
    }
}

/// Selects the Low Energy events the controller reports.
#[derive(Debug, Clone, PartialEq, Eq, PartialOrd, Ord)]
pub struct LeSetEventMask {
    pub le_event_mask: Vec<u8>,
}

impl LeSetEventMask {
    pub fn get_le_event_mask(&self) -> (r: &[u8])
        ensures
            r@ == self.le_event_mask@,
    {
        self.le_event_mask.as_slice()
    }

    /// Outcome of decoding this record from `s`, under opcode fields `ogf` and `ocf`.
    pub open spec fn spec_parse(s: Seq<u8>, ogf: u8, ocf: u16) -> Result<nat, ParseError> {
        keyed(ogf, ocf, 0x08, 0x01, s, 8)
    }

    /// `self` holds the fields at the front of `s`.
    pub open spec fn decodes(self, s: Seq<u8>, ogf: u8, ocf: u16) -> bool {
        self.le_event_mask@ == s.subrange(0, 8)
    }

    pub fn parse<'a>(i: &'a [u8], ogf: u8, ocf: u16) -> (r: Result<(&'a [u8], LeSetEventMask), ParseError>)
        ensures
            parsed(i@, r, Self::spec_parse(i@, ogf, ocf)),
            r matches Ok((_, v)) ==> v.decodes(i@, ogf, ocf),
    {
        expect_key(ogf, ocf, 0x08, 0x01)?;
        need(i, 8)?;
        let v = LeSetEventMask {
            le_event_mask: bytes_at(i, 0, 8),
        };
        Ok((skip(i, 8), v))
    }
}

/// Asks for the Low Energy data buffer size.
#[derive(Debug, Clone, PartialEq, Eq, PartialOrd, Ord)]
pub struct LeReadBufferSize {}

impl LeReadBufferSize {
    /// Outcome of decoding this record from `s`, under opcode fields `ogf` and `ocf`.
    pub open spec fn spec_parse(s: Seq<u8>, ogf: u8, ocf: u16) -> Result<nat, ParseError> {
        keyed(ogf, ocf, 0x08, 0x02, s, 0)
    }

    /// `self` holds the fields at the front of `s`.
    pub open spec fn decodes(self, s: Seq<u8>, ogf: u8, ocf: u16) -> bool {
        true
    }

    pub fn parse<'a>(i: &'a [u8], ogf: u8, ocf: u16) -> (r: Result<(&'a [u8], LeReadBufferSize), ParseError>)
        ensures
            parsed(i@, r, Self::spec_parse(i@, ogf, ocf)),
            r matches Ok((_, v)) ==> v.decodes(i@, ogf, ocf),
    {
        expect_key(ogf, ocf, 0x08, 0x02)?;
        Ok((skip(i, 0), LeReadBufferSize {}))
    }
}

/// Asks for the Low Energy features of the controller.
#[derive(Debug, Clone, PartialEq, Eq, PartialOrd, Ord)]
pub struct LeReadLocalSupportedFeatures {}

impl LeReadLocalSupportedFeatures {
    /// Outcome of decoding this record from `s`, under opcode fields `ogf` and `ocf`.
    pub open spec fn spec_parse(s: Seq<u8>, ogf: u8, ocf: u16) -> Result<nat, ParseError> {
        keyed(ogf, ocf, 0x08, 0x03, s, 0)
    }

    /// `self` holds the fields at the front of `s`.
    pub open spec fn decodes(self, s: Seq<u8>, ogf: u8, ocf: u16) -> bool {
        true
    }

    pub fn parse<'a>(i: &'a [u8], ogf: u8, ocf: u16) -> (r: Result<(&'a [u8], LeReadLocalSupportedFeatures), ParseError>)
        ensures
            parsed(i@, r, Self::spec_parse(i@, ogf, ocf)),
            r matches Ok((_, v)) ==> v.decodes(i@, ogf, ocf),
    {
        expect_key(ogf, ocf, 0x08, 0x03)?;
        Ok((skip(i, 0), LeReadLocalSupportedFeatures {}))
    }
}

/// Sets the random device address.
#[derive(Debug, Clone, PartialEq, Eq, PartialOrd, Ord)]
pub struct LeSetRandomAddressCommand {
    pub random_address: Vec<u8>,
}

impl LeSetRandomAddressCommand {
    pub fn get_random_address(&self) -> (r: &[u8])
        ensures
            r@ == self.random_address@,
    {
        self.random_address.as_slice()
    }

    /// Outcome of decoding this record from `s`, under opcode fields `ogf` and `ocf`.
    pub open spec fn spec_parse(s: Seq<u8>, ogf: u8, ocf: u16) -> Result<nat, ParseError> {
        keyed(ogf, ocf, 0x08, 0x05, s, 6)
    }

    /// `self` holds the fields at the front of `s`.
    pub open spec fn decodes(self, s: Seq<u8>, ogf: u8, ocf: u16) -> bool {
        self.random_address@ == s.subrange(0, 6)
    }

    pub fn parse<'a>(i: &'a [u8], ogf: u8, ocf: u16) -> (r: Result<(&'a [u8], LeSetRandomAddressCommand), ParseError>)
        ensures
            parsed(i@, r, Self::spec_parse(i@, ogf, ocf)),
            r matches Ok((_, v)) ==> v.decodes(i@, ogf, ocf),
    {
        expect_key(ogf, ocf, 0x08, 0x05)?;
        need(i, 6)?;
        let v = LeSetRandomAddressCommand {
            random_address: bytes_at(i, 0, 6),
        };
        Ok((skip(i, 6), v))
    }
}

/// Sets the advertising parameters.
#[derive(Debug, Clone, PartialEq, Eq, PartialOrd, Ord)]
pub struct LeSetAdvertisingParameters {
    pub advertising_interval_min: u16,
    pub advertising_interval_max: u16,
    pub advertising_type: u8,
    pub own_address_type: u8,
    pub peer_address_type: u8,
    pub peer_address: Vec<u8>,
    pub advertising_channel_map: u8,
    pub advertising_filter_policy: u8,
}

impl LeSetAdvertisingParameters {
    pub fn get_advertising_interval_min(&self) -> (r: u16)
        ensures
            r == self.advertising_interval_min,
    {
        self.advertising_interval_min
    }

    pub fn get_advertising_interval_max(&self) -> (r: u16)
        ensures
            r == self.advertising_interval_max,
    {
        self.advertising_interval_max
    }

    pub fn get_advertising_type(&self) -> (r: u8)
        ensures
            r == self.advertising_type,
    {
        self.advertising_type
    }

    pub fn get_own_address_type(&self) -> (r: u8)
        ensures
            r == self.own_address_type,
    {
        self.own_address_type
    }

    pub fn get_peer_address_type(&self) -> (r: u8)
        ensures
            r == self.peer_address_type,
    {
        self.peer_address_type
    }

    pub fn get_peer_address(&self) -> (r: &[u8])
        ensures
            r@ == self.peer_address@,
    {
        self.peer_address.as_slice()
    }

    pub fn get_advertising_channel_map(&self) -> (r: u8)
        ensures
            r == self.advertising_channel_map,
    {
        self.advertising_channel_map
    }

    pub fn get_advertising_filter_policy(&self) -> (r: u8)
        ensures
            r == self.advertising_filter_policy,
    {
        self.advertising_filter_policy
    }

    /// Outcome of decoding this record from `s`, under opcode fields `ogf` and `ocf`.
    pub open spec fn spec_parse(s: Seq<u8>, ogf: u8, ocf: u16) -> Result<nat, ParseError> {
        keyed(ogf, ocf, 0x08, 0x06, s, 15)
    }

    /// `self` holds the fields at the front of `s`.
    pub open spec fn decodes(self, s: Seq<u8>, ogf: u8, ocf: u16) -> bool {
        &&& self.advertising_interval_min == le16(s, 0)
        &&& self.advertising_interval_max == le16(s, 2)
        &&& self.advertising_type == s[4]
        &&& self.own_address_type == s[5]
        &&& self.peer_address_type == s[6]
        &&& self.peer_address@ == s.subrange(7, 13)
        &&& self.advertising_channel_map == s[13]
        &&& self.advertising_filter_policy == s[14]
    }

    pub fn parse<'a>(i: &'a [u8], ogf: u8, ocf: u16) -> (r: Result<(&'a [u8], LeSetAdvertisingParameters), ParseError>)
        ensures
            parsed(i@, r, Self::spec_parse(i@, ogf, ocf)),
            r matches Ok((_, v)) ==> v.decodes(i@, ogf, ocf),
    {
        expect_key(ogf, ocf, 0x08, 0x06)?;
        need(i, 15)?;
        let v = LeSetAdvertisingParameters {
            advertising_interval_min: read_u16(i, 0),
            advertising_interval_max: read_u16(i, 2),
            advertising_type: i[4],
            own_address_type: i[5],
            peer_address_type: i[6],
            peer_address: bytes_at(i, 7, 6),
            advertising_channel_map: i[13],
            advertising_filter_policy: i[14],
        };
        Ok((skip(i, 15), v))
    }
}

/// Sets the scan parameters.
#[derive(Debug, Clone, PartialEq, Eq, PartialOrd, Ord)]
pub struct LeSetScanParameters {
    pub le_scan_type: u8,
    pub le_scan_interval: u16,
    pub le_scan_window: u16,
    pub own_address_type: u8,
    pub scanning_filter_policy: u8,
}

impl LeSetScanParameters {
    pub fn get_le_scan_type(&self) -> (r: u8)
        ensures
            r == self.le_scan_type,
    {
        self.le_scan_type
    }

    pub fn get_le_scan_interval(&self) -> (r: u16)
        ensures
            r == self.le_scan_interval,
    {
        self.le_scan_interval
    }

    pub fn get_le_scan_window(&self) -> (r: u16)
        ensures
            r == self.le_scan_window,
    {
        self.le_scan_window
    }

    pub fn get_own_address_type(&self) -> (r: u8)
        ensures
            r == self.own_address_type,
    {
        self.own_address_type
    }

    pub fn get_scanning_filter_policy(&self) -> (r: u8)
        ensures
            r == self.scanning_filter_policy,
    {
        self.scanning_filter_policy
    }

    /// Outcome of decoding this record from `s`, under opcode fields `ogf` and `ocf`.
    pub open spec fn spec_parse(s: Seq<u8>, ogf: u8, ocf: u16) -> Result<nat, ParseError> {
        keyed(ogf, ocf, 0x08, 0x0B, s, 7)
    }

    /// `self` holds the fields at the front of `s`.
    pub open spec fn decodes(self, s: Seq<u8>, ogf: u8, ocf: u16) -> bool {
        &&& self.le_scan_type == s[0]
        &&& self.le_scan_interval == le16(s, 1)
        &&& self.le_scan_window == le16(s, 3)
        &&& self.own_address_type == s[5]
        &&& self.scanning_filter_policy == s[6]
    }

    pub fn parse<'a>(i: &'a [u8], ogf: u8, ocf: u16) -> (r: Result<(&'a [u8], LeSetScanParameters), ParseError>)
        ensures
            parsed(i@, r, Self::spec_parse(i@, ogf, ocf)),
            r matches Ok((_, v)) ==> v.decodes(i@, ogf, ocf),
    {
        expect_key(ogf, ocf, 0x08, 0x0B)?;
        need(i, 7)?;
        let v = LeSetScanParameters {
            le_scan_type: i[0],
            le_scan_interval: read_u16(i, 1),
            le_scan_window: read_u16(i, 3),
            own_address_type: i[5],
            scanning_filter_policy: i[6],
        };
        Ok((skip(i, 7), v))
    }
}

/// Starts or stops scanning.
#[derive(Debug, Clone, PartialEq, Eq, PartialOrd, Ord)]
pub struct LeSetScanEnable {
    pub le_scan_enable: u8,
    pub filter_duplicates: u8,
}

impl LeSetScanEnable {
    pub fn get_le_scan_enable(&self) -> (r: u8)
        ensures
            r == self.le_scan_enable,
    {
        self.le_scan_enable
    }

    pub fn get_filter_duplicates(&self) -> (r: u8)
        ensures
            r == self.filter_duplicates,
    {
        self.filter_duplicates
    }

    /// Outcome of decoding this record from `s`, under opcode fields `ogf` and `ocf`.
    pub open spec fn spec_parse(s: Seq<u8>, ogf: u8, ocf: u16) -> Result<nat, ParseError> {
        keyed(ogf, ocf, 0x08, 0x0C, s, 2)
    }

    /// `self` holds the fields at the front of `s`.
    pub open spec fn decodes(self, s: Seq<u8>, ogf: u8, ocf: u16) -> bool {
        &&& self.le_scan_enable == s[0]
        &&& self.filter_duplicates == s[1]
    }

    pub fn parse<'a>(i: &'a [u8], ogf: u8, ocf: u16) -> (r: Result<(&'a [u8], LeSetScanEnable), ParseError>)
        ensures
            parsed(i@, r, Self::spec_parse(i@, ogf, ocf)),
            r matches Ok((_, v)) ==> v.decodes(i@, ogf, ocf),
    {
        expect_key(ogf, ocf, 0x08, 0x0C)?;
        need(i, 2)?;
        let v = LeSetScanEnable {
            le_scan_enable: i[0],
            filter_duplicates: i[1],
        };
        Ok((skip(i, 2), v))
    }
}

/// Stores the device name, sent as a 248-byte buffer ended by a NUL.
#[derive(Debug, Clone, PartialEq, Eq, PartialOrd, Ord)]
pub struct WriteLocalName {
    pub local_name_buffer: Vec<u8>,
    pub local_name: String,
}

impl WriteLocalName {
    pub fn get_local_name(&self) -> (r: &String)
        ensures
            r@ == self.local_name@,
    {
        &self.local_name
    }

    /// Outcome of decoding this record from `s`, under opcode fields `ogf` and `ocf`.
    pub open spec fn spec_parse(s: Seq<u8>, ogf: u8, ocf: u16) -> Result<nat, ParseError> {
        match keyed(ogf, ocf, 0x03, 0x13, s, 248) {
            Ok(n) => if nul_text(s.subrange(0, 248)) is Some {
                Ok(n)
            } else {
                Err(ParseError::InvalidEncoding)
            },
            Err(e) => Err(e),
        }
    }

    /// `self` holds the buffer at the front of `s` and the text before its first NUL.
    pub open spec fn decodes(self, s: Seq<u8>, ogf: u8, ocf: u16) -> bool {
        &&& self.local_name_buffer@ == s.subrange(0, 248)
        &&& nul_text(s.subrange(0, 248)) == Some(self.local_name@)
    }

    pub fn parse<'a>(i: &'a [u8], ogf: u8, ocf: u16) -> (r: Result<(&'a [u8], WriteLocalName), ParseError>)
        ensures
            parsed(i@, r, Self::spec_parse(i@, ogf, ocf)),
            r matches Ok((_, v)) ==> v.decodes(i@, ogf, ocf),
    {
        expect_key(ogf, ocf, 0x03, 0x13)?;
        need(i, 248)?;
        let local_name_buffer = bytes_at(i, 0, 248);
        let local_name = nul_terminated_text(local_name_buffer.as_slice())?;
        Ok((skip(i, 248), WriteLocalName { local_name_buffer, local_name }))
    }
}

/// Stores the extended inquiry response: a FEC flag and a 240-byte buffer of
/// AD structures.
#[derive(Debug, Clone, PartialEq, Eq, PartialOrd, Ord)]
pub struct WriteExtendedInquiryResponse {
    pub fec_required: u8,
    pub response_buffer: Vec<u8>,
    pub advertising_data: Vec<BasicDataType>,
}

impl WriteExtendedInquiryResponse {
    pub fn get_fec_required(&self) -> (r: u8)
        ensures
            r == self.fec_required,
    {
        self.fec_required
    }

    pub fn get_advertising_data(&self) -> (r: &[BasicDataType])
        ensures
            r@ == self.advertising_data@,
    {
        self.advertising_data.as_slice()
    }

    /// Outcome of decoding this record from `s`, under opcode fields `ogf` and `ocf`.
    pub open spec fn spec_parse(s: Seq<u8>, ogf: u8, ocf: u16) -> Result<nat, ParseError> {
        keyed(ogf, ocf, 0x03, 0x52, s, 241)
    }

    /// `self` holds the flag, the buffer, and the AD structures read from the buffer.
    pub open spec fn decodes(self, s: Seq<u8>, ogf: u8, ocf: u16) -> bool {
        &&& self.fec_required == s[0]
        &&& self.response_buffer@ == s.subrange(1, 241)
        &&& ad_sequence(self.advertising_data@, s.subrange(1, 241))
    }

    pub fn parse<'a>(i: &'a [u8], ogf: u8, ocf: u16) -> (r: Result<(&'a [u8], WriteExtendedInquiryResponse), ParseError>)
        ensures
            parsed(i@, r, Self::spec_parse(i@, ogf, ocf)),
            r matches Ok((_, v)) ==> v.decodes(i@, ogf, ocf),
    {
        expect_key(ogf, ocf, 0x03, 0x52)?;
        need(i, 241)?;
        let response_buffer = bytes_at(i, 1, 240);
        let advertising_data = parse_ad_sequence(response_buffer.as_slice());
        let v = WriteExtendedInquiryResponse { fec_required: i[0], response_buffer, advertising_data };
        Ok((skip(i, 241), v))
    }
}

/// Sets the advertising data: a length byte and that many bytes of AD structures.
#[derive(Debug, Clone, PartialEq, Eq, PartialOrd, Ord)]
pub struct LeSetAdvertisingData {
    pub advertising_data_length: u8,
    pub advertising_data_buffer: Vec<u8>,
    pub advertising_data: Vec<BasicDataType>,
}

impl LeSetAdvertisingData {
    pub fn get_advertising_data(&self) -> (r: &[BasicDataType])
        ensures
            r@ == self.advertising_data@,
    {
        self.advertising_data.as_slice()
    }

    /// Outcome of decoding this record from `s`, under opcode fields `ogf` and `ocf`.
    pub open spec fn spec_parse(s: Seq<u8>, ogf: u8, ocf: u16) -> Result<nat, ParseError> {
        match keyed(ogf, ocf, 0x08, 0x08, s, 1) {
            Ok(_) => sized(s, (1 + s[0]) as nat),
            Err(e) => Err(e),
        }
    }

    /// `self` holds the length, the buffer it covers, and the AD structures read from it.
    pub open spec fn decodes(self, s: Seq<u8>, ogf: u8, ocf: u16) -> bool {
        &&& self.advertising_data_length == s[0]
        &&& self.advertising_data_buffer@ == s.subrange(1, 1 + s[0])
        &&& ad_sequence(self.advertising_data@, s.subrange(1, 1 + s[0]))
    }

    pub fn parse<'a>(i: &'a [u8], ogf: u8, ocf: u16) -> (r: Result<(&'a [u8], LeSetAdvertisingData), ParseError>)
        ensures
            parsed(i@, r, Self::spec_parse(i@, ogf, ocf)),
            r matches Ok((_, v)) ==> v.decodes(i@, ogf, ocf),
    {
        expect_key(ogf, ocf, 0x08, 0x08)?;
        need(i, 1)?;
        let advertising_data_length = i[0];
        let n = advertising_data_length as usize;
        need(i, 1 + n)?;
        let advertising_data_buffer = bytes_at(i, 1, n);
        let advertising_data = parse_ad_sequence(advertising_data_buffer.as_slice());
        let v = LeSetAdvertisingData { advertising_data_length, advertising_data_buffer, advertising_data };
        Ok((skip(i, 1 + n), v))
    }
}

/// A command that no typed record accepts: only its opcode fields are kept.
#[derive(Debug, Clone, PartialEq, Eq, PartialOrd, Ord)]
pub struct Unknown {
    pub ogf: u8,
    pub ocf: u16,
}

impl Unknown {
    /// Always accepts, reading nothing.
    pub open spec fn spec_parse(s: Seq<u8>, ogf: u8, ocf: u16) -> Result<nat, ParseError> {
        Ok(0)
    }

    /// `self` holds the opcode fields.
    pub open spec fn decodes(self, s: Seq<u8>, ogf: u8, ocf: u16) -> bool {
        self.ogf == ogf && self.ocf == ocf
    }

    pub fn parse<'a>(i: &'a [u8], ogf: u8, ocf: u16) -> (r: Result<(&'a [u8], Unknown), ParseError>)
        ensures
            parsed(i@, r, Self::spec_parse(i@, ogf, ocf)),
            r matches Ok((_, v)) ==> v.decodes(i@, ogf, ocf),
    {
        Ok((skip(i, 0), Unknown { ogf, ocf }))
    }
}

/// Matches every device.
#[derive(Debug, Clone, PartialEq, Eq, PartialOrd, Ord)]
pub struct AllDevices {}

impl AllDevices {
    /// Accepts condition type 0, reading nothing.
    pub open spec fn spec_parse(s: Seq<u8>, condition_type: u8) -> Result<nat, ParseError> {
        if condition_type != 0x00 {
            Err(ParseError::TagMismatch)
        } else {
            Ok(0)
        }
    }

    pub open spec fn decodes(self, s: Seq<u8>, condition_type: u8) -> bool {
        true
    }

    pub fn parse<'a>(i: &'a [u8], condition_type: u8) -> (r: Result<(&'a [u8], AllDevices), ParseError>)
        ensures
            parsed(i@, r, Self::spec_parse(i@, condition_type)),
            r matches Ok((_, v)) ==> v.decodes(i@, condition_type),
    {
        expect_tag(condition_type, 0x00)?;
        Ok((skip(i, 0), AllDevices {}))
    }
}

/// Matches the devices whose class, under a mask, equals a given class.
#[derive(Debug, Clone, PartialEq, Eq, PartialOrd, Ord)]
pub struct MatchClass {
    pub class_of_device: Vec<u8>,
    pub class_of_device_mask: Vec<u8>,
}

impl MatchClass {
    pub fn get_class_of_device(&self) -> (r: &[u8])
        ensures
            r@ == self.class_of_device@,
    {
        self.class_of_device.as_slice()
    }

    pub fn get_class_of_device_mask(&self) -> (r: &[u8])
        ensures
            r@ == self.class_of_device_mask@,
    {
        self.class_of_device_mask.as_slice()
    }

    /// Accepts condition type 1, reading two 3-byte fields.
    pub open spec fn spec_parse(s: Seq<u8>, condition_type: u8) -> Result<nat, ParseError> {
        if condition_type != 0x01 {
            Err(ParseError::TagMismatch)
        } else {
            sized(s, 6)
        }
    }

    pub open spec fn decodes(self, s: Seq<u8>, condition_type: u8) -> bool {
        &&& self.class_of_device@ == s.subrange(0, 3)
        &&& self.class_of_device_mask@ == s.subrange(3, 6)
    }

    pub fn parse<'a>(i: &'a [u8], condition_type: u8) -> (r: Result<(&'a [u8], MatchClass), ParseError>)
        ensures
            parsed(i@, r, Self::spec_parse(i@, condition_type)),
            r matches Ok((_, v)) ==> v.decodes(i@, condition_type),
    {
        expect_tag(condition_type, 0x01)?;
        need(i, 6)?;
        let v = MatchClass { class_of_device: bytes_at(i, 0, 3), class_of_device_mask: bytes_at(i, 3, 3) };
        Ok((skip(i, 6), v))
    }
}

/// Matches the device with a given address.
#[derive(Debug, Clone, PartialEq, Eq, PartialOrd, Ord)]
pub struct MatchAddress {
    pub address: Vec<u8>,
}

impl MatchAddress {
    pub fn get_address(&self) -> (r: &[u8])
        ensures
            r@ == self.address@,
    {
        self.address.as_slice()
    }

    /// Accepts condition type 2, reading a 6-byte address.
    pub open spec fn spec_parse(s: Seq<u8>, condition_type: u8) -> Result<nat, ParseError> {
        if condition_type != 0x02 {
            Err(ParseError::TagMismatch)
        } else {
            sized(s, 6)
        }
    }

    pub open spec fn decodes(self, s: Seq<u8>, condition_type: u8) -> bool {
        self.address@ == s.subrange(0, 6)
    }

    pub fn parse<'a>(i: &'a [u8], condition_type: u8) -> (r: Result<(&'a [u8], MatchAddress), ParseError>)
        ensures
            parsed(i@, r, Self::spec_parse(i@, condition_type)),
            r matches Ok((_, v)) ==> v.decodes(i@, condition_type),
    {
        expect_tag(condition_type, 0x02)?;
        need(i, 6)?;
        Ok((skip(i, 6), MatchAddress { address: bytes_at(i, 0, 6) }))
    }
}

/// The condition of an event filter, selected by its condition type.
#[derive(Debug, Clone, PartialEq, Eq, PartialOrd, Ord)]
pub enum FilterCondition_Value {
    AllDevices(AllDevices),
    MatchClass(MatchClass),
    MatchAddress(MatchAddress),
}

impl FilterCondition_Value {
    /// Position, in dispatch order, of the candidate that decodes `s`: the first
    /// that accepts it; 3 when none does.
    pub open spec fn choice(s: Seq<u8>, condition_type: u8) -> int {
        if AllDevices::spec_parse(s, condition_type) is Ok {
            0
        } else if MatchClass::spec_parse(s, condition_type) is Ok {
            1
        } else if MatchAddress::spec_parse(s, condition_type) is Ok {
            2
        } else {
            3
        }
    }

    /// Outcome of decoding `s`: that of the chosen candidate.
    pub open spec fn spec_parse(s: Seq<u8>, condition_type: u8) -> Result<nat, ParseError> {
        let k = Self::choice(s, condition_type);
        if k == 0 {
            AllDevices::spec_parse(s, condition_type)
        } else if k == 1 {
            MatchClass::spec_parse(s, condition_type)
        } else if k == 2 {
            MatchAddress::spec_parse(s, condition_type)
        } else {
            Err(ParseError::NoMatchingVariant)
        }
    }

    /// `self` is the variant of the chosen candidate, holding what it decodes.
    pub open spec fn decodes(self, s: Seq<u8>, condition_type: u8) -> bool {
        match self {
            FilterCondition_Value::AllDevices(x) => Self::choice(s, condition_type) == 0 && x.decodes(s, condition_type),
            FilterCondition_Value::MatchClass(x) => Self::choice(s, condition_type) == 1 && x.decodes(s, condition_type),
            FilterCondition_Value::MatchAddress(x) => Self::choice(s, condition_type) == 2 && x.decodes(s, condition_type),
        }
    }

    /// Tries each candidate in order on the same input and keeps the first success.
    pub fn parse<'a>(i: &'a [u8], condition_type: u8) -> (r: Result<(&'a [u8], FilterCondition_Value), ParseError>)
        ensures
            parsed(i@, r, Self::spec_parse(i@, condition_type)),
            r matches Ok((_, v)) ==> v.decodes(i@, condition_type),
    {
        if let Ok((rest, x)) = AllDevices::parse(i, condition_type) {
            return Ok((rest, FilterCondition_Value::AllDevices(x)));
        }
        if let Ok((rest, x)) = MatchClass::parse(i, condition_type) {
            return Ok((rest, FilterCondition_Value::MatchClass(x)));
        }
        if let Ok((rest, x)) = MatchAddress::parse(i, condition_type) {
            return Ok((rest, FilterCondition_Value::MatchAddress(x)));
        }
        Err(ParseError::NoMatchingVariant)
    }
}

/// A condition type byte and the condition it selects.
#[derive(Debug, Clone, PartialEq, Eq, PartialOrd, Ord)]
pub struct FilterCondition {
    pub condition_type: u8,
    pub value: FilterCondition_Value,
}

impl FilterCondition {
    pub fn get_value(&self) -> (r: &FilterCondition_Value)
        ensures
            *r == self.value,
    {
        &self.value
    }

    /// Outcome of decoding a condition from the front of `s`.
    pub open spec fn spec_parse(s: Seq<u8>) -> Result<nat, ParseError> {
        if s.len() < 1 {
            Err(ParseError::InsufficientInput)
        } else {
            match FilterCondition_Value::spec_parse(s.subrange(1, s.len() as int), s[0]) {
                Ok(n) => Ok(n + 1),
                Err(e) => Err(e),
            }
        }
    }

    pub open spec fn decodes(self, s: Seq<u8>) -> bool {
        &&& self.condition_type == s[0]
        &&& self.value.decodes(s.subrange(1, s.len() as int), s[0])
    }

    pub fn parse<'a>(i: &'a [u8]) -> (r: Result<(&'a [u8], FilterCondition), ParseError>)
        ensures
            parsed(i@, r, Self::spec_parse(i@)),
            r matches Ok((_, v)) ==> v.decodes(i@),
    {
        need(i, 1)?;
        let condition_type = i[0];
        let (rest, value) = FilterCondition_Value::parse(skip(i, 1), condition_type)?;
        assert(rest@ =~= i@.subrange(i@.len() - rest@.len(), i@.len() as int));
        Ok((rest, FilterCondition { condition_type, value }))
    }
}

/// Removes every event filter.
#[derive(Debug, Clone, PartialEq, Eq, PartialOrd, Ord)]
pub struct ClearAllFilter {}

impl ClearAllFilter {
    /// Accepts filter type 0, reading nothing.
    pub open spec fn spec_parse(s: Seq<u8>, filter_type: u8) -> Result<nat, ParseError> {
        if filter_type != 0x00 {
            Err(ParseError::TagMismatch)
        } else {
            Ok(0)
        }
    }

    pub open spec fn decodes(self, s: Seq<u8>, filter_type: u8) -> bool {
        true
    }

    pub fn parse<'a>(i: &'a [u8], filter_type: u8) -> (r: Result<(&'a [u8], ClearAllFilter), ParseError>)
        ensures
            parsed(i@, r, Self::spec_parse(i@, filter_type)),
            r matches Ok((_, v)) ==> v.decodes(i@, filter_type),
    {
        expect_tag(filter_type, 0x00)?;
        Ok((skip(i, 0), ClearAllFilter {}))
    }
}

/// Filters inquiry results by a condition.
#[derive(Debug, Clone, PartialEq, Eq, PartialOrd, Ord)]
pub struct InquiryResult {
    pub condition: FilterCondition,
}

impl InquiryResult {
    pub fn get_condition(&self) -> (r: &FilterCondition)
        ensures
            *r == self.condition,
    {
        &self.condition
    }

    /// Accepts filter type 1, then reads a condition.
    pub open spec fn spec_parse(s: Seq<u8>, filter_type: u8) -> Result<nat, ParseError> {
        if filter_type != 0x01 {
            Err(ParseError::TagMismatch)
        } else {
            FilterCondition::spec_parse(s)
        }
    }

    pub open spec fn decodes(self, s: Seq<u8>, filter_type: u8) -> bool {
        self.condition.decodes(s)
    }

    pub fn parse<'a>(i: &'a [u8], filter_type: u8) -> (r: Result<(&'a [u8], InquiryResult), ParseError>)
        ensures
            parsed(i@, r, Self::spec_parse(i@, filter_type)),
            r matches Ok((_, v)) ==> v.decodes(i@, filter_type),
    {
        expect_tag(filter_type, 0x01)?;
        let (rest, condition) = FilterCondition::parse(i)?;
        Ok((rest, InquiryResult { condition }))
    }
}

/// Filters incoming connections by a condition, with an auto-accept setting.
#[derive(Debug, Clone, PartialEq, Eq, PartialOrd, Ord)]
pub struct ConnectionSetup {
    pub condition: FilterCondition,
    pub auto_accept: u8,
}

impl ConnectionSetup {
    pub fn get_condition(&self) -> (r: &FilterCondition)
        ensures
            *r == self.condition,
    {
        &self.condition
    }

    pub fn get_auto_accept(&self) -> (r: u8)
        ensures
            r == self.auto_accept,
    {
        self.auto_accept
    }

    /// Accepts filter type 2, then reads a condition and one byte.
    pub open spec fn spec_parse(s: Seq<u8>, filter_type: u8) -> Result<nat, ParseError> {
        if filter_type != 0x02 {
            Err(ParseError::TagMismatch)
        } else {
            match FilterCondition::spec_parse(s) {
                Ok(n) => if s.len() < n + 1 {
                    Err(ParseError::InsufficientInput)
                } else {
                    Ok(n + 1)
                },
                Err(e) => Err(e),
            }
        }
    }

    pub open spec fn decodes(self, s: Seq<u8>, filter_type: u8) -> bool {
        &&& self.condition.decodes(s)
        &&& FilterCondition::spec_parse(s) matches Ok(n) && self.auto_accept == s[n as int]
    }

    pub fn parse<'a>(i: &'a [u8], filter_type: u8) -> (r: Result<(&'a [u8], ConnectionSetup), ParseError>)
        ensures
            parsed(i@, r, Self::spec_parse(i@, filter_type)),
            r matches Ok((_, v)) ==> v.decodes(i@, filter_type),
    {
        expect_tag(filter_type, 0x02)?;
        let (rest, condition) = FilterCondition::parse(i)?;
        need(rest, 1)?;
        let auto_accept = rest[0];
        let rest2 = skip(rest, 1);
        assert(rest2@ =~= i@.subrange(i@.len() - rest2@.len(), i@.len() as int));
        Ok((rest2, ConnectionSetup { condition, auto_accept }))
    }
}

/// The filter of a set-event-filter command, selected by its filter type.
#[derive(Debug, Clone, PartialEq, Eq, PartialOrd, Ord)]
pub enum SetEventFilter_Filter {
    ClearAllFilter(ClearAllFilter),
    InquiryResult(InquiryResult),
    ConnectionSetup(ConnectionSetup),
}

impl SetEventFilter_Filter {
    /// Position, in dispatch order, of the candidate that decodes `s`: the first
    /// that accepts it; 3 when none does.
    pub open spec fn choice(s: Seq<u8>, filter_type: u8) -> int {
        if ClearAllFilter::spec_parse(s, filter_type) is Ok {
            0
        } else if InquiryResult::spec_parse(s, filter_type) is Ok {
            1
        } else if ConnectionSetup::spec_parse(s, filter_type) is Ok {
            2
        } else {
            3
        }
    }

    /// Outcome of decoding `s`: that of the chosen candidate.
    pub open spec fn spec_parse(s: Seq<u8>, filter_type: u8) -> Result<nat, ParseError> {
        let k = Self::choice(s, filter_type);
        if k == 0 {
            ClearAllFilter::spec_parse(s, filter_type)
        } else if k == 1 {
            InquiryResult::spec_parse(s, filter_type)
        } else if k == 2 {
            ConnectionSetup::spec_parse(s, filter_type)
        } else {
            Err(ParseError::NoMatchingVariant)
        }
    }

    /// `self` is the variant of the chosen candidate, holding what it decodes.
    pub open spec fn decodes(self, s: Seq<u8>, filter_type: u8) -> bool {
        match self {
            SetEventFilter_Filter::ClearAllFilter(x) => Self::choice(s, filter_type) == 0 && x.decodes(s, filter_type),
            SetEventFilter_Filter::InquiryResult(x) => Self::choice(s, filter_type) == 1 && x.decodes(s, filter_type),
            SetEventFilter_Filter::ConnectionSetup(x) => Self::choice(s, filter_type) == 2 && x.decodes(s, filter_type),
        }
    }

    /// Tries each candidate in order on the same input and keeps the first success.
    pub fn parse<'a>(i: &'a [u8], filter_type: u8) -> (r: Result<(&'a [u8], SetEventFilter_Filter), ParseError>)
        ensures
            parsed(i@, r, Self::spec_parse(i@, filter_type)),
            r matches Ok((_, v)) ==> v.decodes(i@, filter_type),
    {
        if let Ok((rest, x)) = ClearAllFilter::parse(i, filter_type) {
            return Ok((rest, SetEventFilter_Filter::ClearAllFilter(x)));
        }
        if let Ok((rest, x)) = InquiryResult::parse(i, filter_type) {
            return Ok((rest, SetEventFilter_Filter::InquiryResult(x)));
        }
        if let Ok((rest, x)) = ConnectionSetup::parse(i, filter_type) {
            return Ok((rest, SetEventFilter_Filter::ConnectionSetup(x)));
        }
        Err(ParseError::NoMatchingVariant)
    }
}

/// Sets an event filter: a filter type byte and the filter it selects.
#[derive(Debug, Clone, PartialEq, Eq, PartialOrd, Ord)]
pub struct SetEventFilter {
    pub filter_type: u8,
    pub filter: SetEventFilter_Filter,
}

impl SetEventFilter {
    pub fn get_filter(&self) -> (r: &SetEventFilter_Filter)
        ensures
            *r == self.filter,
    {
        &self.filter
    }

    /// Outcome of decoding this record from `s`, under opcode fields `ogf` and `ocf`.
    pub open spec fn spec_parse(s: Seq<u8>, ogf: u8, ocf: u16) -> Result<nat, ParseError> {
        match keyed(ogf, ocf, 0x03, 0x05, s, 1) {
            Ok(_) => match SetEventFilter_Filter::spec_parse(s.subrange(1, s.len() as int), s[0]) {
                Ok(n) => Ok(n + 1),
                Err(e) => Err(e),
            },
            Err(e) => Err(e),
        }
    }

    pub open spec fn decodes(self, s: Seq<u8>, ogf: u8, ocf: u16) -> bool {
        &&& self.filter_type == s[0]
        &&& self.filter.decodes(s.subrange(1, s.len() as int), s[0])
    }

    pub fn parse<'a>(i: &'a [u8], ogf: u8, ocf: u16) -> (r: Result<(&'a [u8], SetEventFilter), ParseError>)
        ensures
            parsed(i@, r, Self::spec_parse(i@, ogf, ocf)),
            r matches Ok((_, v)) ==> v.decodes(i@, ogf, ocf),
    {
        expect_key(ogf, ocf, 0x03, 0x05)?;
        need(i, 1)?;
        let filter_type = i[0];
        let (rest, filter) = SetEventFilter_Filter::parse(skip(i, 1), filter_type)?;
        assert(rest@ =~= i@.subrange(i@.len() - rest@.len(), i@.len() as int));
        Ok((rest, SetEventFilter { filter_type, filter }))
    }
}

/// The parameters of a command, selected by its (group, command field) pair.
#[derive(Debug, Clone, PartialEq, Eq, PartialOrd, Ord)]
pub enum HciCommand_Command {
    Reset(Reset),
    SetEventFilter(SetEventFilter),
    Flush(Flush),
    WriteLocalName(WriteLocalName),
    ReadLocalName(ReadLocalName),
    ReadConnectionAcceptTimeout(ReadConnectionAcceptTimeout),
    WriteConnectionAcceptTimeout(WriteConnectionAcceptTimeout),
    ReadPageTimeout(ReadPageTimeout),
    WritePageTimeout(WritePageTimeout),
    ReadScanEnable(ReadScanEnable),
    WriteScanEnable(WriteScanEnable),
    ReadPageScanActivity(ReadPageScanActivity),
    WritePageScanActivity(WritePageScanActivity),
    ReadInquiryScanActivity(ReadInquiryScanActivity),
    WriteInquiryScanActivity(WriteInquiryScanActivity),
    LESetAdvertisingData(LeSetAdvertisingData),
    Unknown(Unknown),
}

impl HciCommand_Command {
    /// Position, in dispatch order, of the candidate that decodes `s`: the first
    /// that accepts it, else the fallback, which is last.
    pub open spec fn choice(s: Seq<u8>, ogf: u8, ocf: u16) -> int {
        if Reset::spec_parse(s, ogf, ocf) is Ok {
            0
        } else if SetEventFilter::spec_parse(s, ogf, ocf) is Ok {
            1
        } else if Flush::spec_parse(s, ogf, ocf) is Ok {
            2
        } else if WriteLocalName::spec_parse(s, ogf, ocf) is Ok {
            3
        } else if ReadLocalName::spec_parse(s, ogf, ocf) is Ok {
            4
        } else if ReadConnectionAcceptTimeout::spec_parse(s, ogf, ocf) is Ok {
            5
        } else if WriteConnectionAcceptTimeout::spec_parse(s, ogf, ocf) is Ok {
            6
        } else if ReadPageTimeout::spec_parse(s, ogf, ocf) is Ok {
            7
        } else if WritePageTimeout::spec_parse(s, ogf, ocf) is Ok {
            8
        } else if ReadScanEnable::spec_parse(s, ogf, ocf) is Ok {
            9
        } else if WriteScanEnable::spec_parse(s, ogf, ocf) is Ok {
            10
        } else if ReadPageScanActivity::spec_parse(s, ogf, ocf) is Ok {
            11
        } else if WritePageScanActivity::spec_parse(s, ogf, ocf) is Ok {
            12
        } else if ReadInquiryScanActivity::spec_parse(s, ogf, ocf) is Ok {
            13
        } else if WriteInquiryScanActivity::spec_parse(s, ogf, ocf) is Ok {
            14
        } else if LeSetAdvertisingData::spec_parse(s, ogf, ocf) is Ok {
            15
        } else {
            16
        }
    }

    /// Outcome of decoding `s`: that of the chosen candidate.
    pub open spec fn spec_parse(s: Seq<u8>, ogf: u8, ocf: u16) -> Result<nat, ParseError> {
        let k = Self::choice(s, ogf, ocf);
        if k == 0 {
            Reset::spec_parse(s, ogf, ocf)
        } else if k == 1 {
            SetEventFilter::spec_parse(s, ogf, ocf)
        } else if k == 2 {
            Flush::spec_parse(s, ogf, ocf)
        } else if k == 3 {
            WriteLocalName::spec_parse(s, ogf, ocf)
        } else if k == 4 {
            ReadLocalName::spec_parse(s, ogf, ocf)
        } else if k == 5 {
            ReadConnectionAcceptTimeout::spec_parse(s, ogf, ocf)
        } else if k == 6 {
            WriteConnectionAcceptTimeout::spec_parse(s, ogf, ocf)
        } else if k == 7 {
            ReadPageTimeout::spec_parse(s, ogf, ocf)
        } else if k == 8 {
            WritePageTimeout::spec_parse(s, ogf, ocf)
        } else if k == 9 {
            ReadScanEnable::spec_parse(s, ogf, ocf)
        } else if k == 10 {
            WriteScanEnable::spec_parse(s, ogf, ocf)
        } else if k == 11 {
            ReadPageScanActivity::spec_parse(s, ogf, ocf)
        } else if k == 12 {
            WritePageScanActivity::spec_parse(s, ogf, ocf)
        } else if k == 13 {
            ReadInquiryScanActivity::spec_parse(s, ogf, ocf)
        } else if k == 14 {
            WriteInquiryScanActivity::spec_parse(s, ogf, ocf)
        } else if k == 15 {
            LeSetAdvertisingData::spec_parse(s, ogf, ocf)
        } else {
            Unknown::spec_parse(s, ogf, ocf)
        }
    }

    /// `self` is the variant of the chosen candidate, holding what it decodes.
    pub open spec fn decodes(self, s: Seq<u8>, ogf: u8, ocf: u16) -> bool {
        match self {
            HciCommand_Command::Reset(x) => Self::choice(s, ogf, ocf) == 0 && x.decodes(s, ogf, ocf),
            HciCommand_Command::SetEventFilter(x) => Self::choice(s, ogf, ocf) == 1 && x.decodes(s, ogf, ocf),
            HciCommand_Command::Flush(x) => Self::choice(s, ogf, ocf) == 2 && x.decodes(s, ogf, ocf),
            HciCommand_Command::WriteLocalName(x) => Self::choice(s, ogf, ocf) == 3 && x.decodes(s, ogf, ocf),
            HciCommand_Command::ReadLocalName(x) => Self::choice(s, ogf, ocf) == 4 && x.decodes(s, ogf, ocf),
            HciCommand_Command::ReadConnectionAcceptTimeout(x) => Self::choice(s, ogf, ocf) == 5 && x.decodes(s, ogf, ocf),
            HciCommand_Command::WriteConnectionAcceptTimeout(x) => Self::choice(s, ogf, ocf) == 6 && x.decodes(s, ogf, ocf),
            HciCommand_Command::ReadPageTimeout(x) => Self::choice(s, ogf, ocf) == 7 && x.decodes(s, ogf, ocf),
            HciCommand_Command::WritePageTimeout(x) => Self::choice(s, ogf, ocf) == 8 && x.decodes(s, ogf, ocf),
            HciCommand_Command::ReadScanEnable(x) => Self::choice(s, ogf, ocf) == 9 && x.decodes(s, ogf, ocf),
            HciCommand_Command::WriteScanEnable(x) => Self::choice(s, ogf, ocf) == 10 && x.decodes(s, ogf, ocf),
            HciCommand_Command::ReadPageScanActivity(x) => Self::choice(s, ogf, ocf) == 11 && x.decodes(s, ogf, ocf),
            HciCommand_Command::WritePageScanActivity(x) => Self::choice(s, ogf, ocf) == 12 && x.decodes(s, ogf, ocf),
            HciCommand_Command::ReadInquiryScanActivity(x) => Self::choice(s, ogf, ocf) == 13 && x.decodes(s, ogf, ocf),
            HciCommand_Command::WriteInquiryScanActivity(x) => Self::choice(s, ogf, ocf) == 14 && x.decodes(s, ogf, ocf),
            HciCommand_Command::LESetAdvertisingData(x) => Self::choice(s, ogf, ocf) == 15 && x.decodes(s, ogf, ocf),
            HciCommand_Command::Unknown(x) => Self::choice(s, ogf, ocf) == 16 && x.decodes(s, ogf, ocf),
        }
    }

    /// Tries each candidate in order on the same input and keeps the first success.
    pub fn parse<'a>(i: &'a [u8], ogf: u8, ocf: u16) -> (r: Result<(&'a [u8], HciCommand_Command), ParseError>)
        ensures
            parsed(i@, r, Self::spec_parse(i@, ogf, ocf)),
            r matches Ok((_, v)) ==> v.decodes(i@, ogf, ocf),
    {
        if let Ok((rest, x)) = Reset::parse(i, ogf, ocf) {
            return Ok((rest, HciCommand_Command::Reset(x)));
        }
        if let Ok((rest, x)) = SetEventFilter::parse(i, ogf, ocf) {
            return Ok((rest, HciCommand_Command::SetEventFilter(x)));
        }
        if let Ok((rest, x)) = Flush::parse(i, ogf, ocf) {
            return Ok((rest, HciCommand_Command::Flush(x)));
        }
        if let Ok((rest, x)) = WriteLocalName::parse(i, ogf, ocf) {
            return Ok((rest, HciCommand_Command::WriteLocalName(x)));
        }
        if let Ok((rest, x)) = ReadLocalName::parse(i, ogf, ocf) {
            return Ok((rest, HciCommand_Command::ReadLocalName(x)));
        }
        if let Ok((rest, x)) = ReadConnectionAcceptTimeout::parse(i, ogf, ocf) {
            return Ok((rest, HciCommand_Command::ReadConnectionAcceptTimeout(x)));
        }
        if let Ok((rest, x)) = WriteConnectionAcceptTimeout::parse(i, ogf, ocf) {
            return Ok((rest, HciCommand_Command::WriteConnectionAcceptTimeout(x)));
        }
        if let Ok((rest, x)) = ReadPageTimeout::parse(i, ogf, ocf) {
            return Ok((rest, HciCommand_Command::ReadPageTimeout(x)));
        }
        if let Ok((rest, x)) = WritePageTimeout::parse(i, ogf, ocf) {
            return Ok((rest, HciCommand_Command::WritePageTimeout(x)));
        }
        if let Ok((rest, x)) = ReadScanEnable::parse(i, ogf, ocf) {
            return Ok((rest, HciCommand_Command::ReadScanEnable(x)));
        }
        if let Ok((rest, x)) = WriteScanEnable::parse(i, ogf, ocf) {
            return Ok((rest, HciCommand_Command::WriteScanEnable(x)));
        }
        if let Ok((rest, x)) = ReadPageScanActivity::parse(i, ogf, ocf) {
            return Ok((rest, HciCommand_Command::ReadPageScanActivity(x)));
        }
        if let Ok((rest, x)) = WritePageScanActivity::parse(i, ogf, ocf) {
            return Ok((rest, HciCommand_Command::WritePageScanActivity(x)));
        }
        if let Ok((rest, x)) = ReadInquiryScanActivity::parse(i, ogf, ocf) {
            return Ok((rest, HciCommand_Command::ReadInquiryScanActivity(x)));
        }
        if let Ok((rest, x)) = WriteInquiryScanActivity::parse(i, ogf, ocf) {
            return Ok((rest, HciCommand_Command::WriteInquiryScanActivity(x)));
        }
        if let Ok((rest, x)) = LeSetAdvertisingData::parse(i, ogf, ocf) {
            return Ok((rest, HciCommand_Command::LESetAdvertisingData(x)));
        }
        let (rest, x) = Unknown::parse(i, ogf, ocf)?;
        Ok((rest, HciCommand_Command::Unknown(x)))
    }
}

/// A command packet: opcode, parameter length, the parameter bytes, and what
/// they decode to.
#[derive(Debug, Clone, PartialEq, Eq, PartialOrd, Ord)]
pub struct HciCommand {
    pub opcode: u16,
    pub length: u8,
    pub data: Vec<u8>,
    pub command: HciCommand_Command,
}

impl HciCommand {
    pub fn get_command(&self) -> (r: &HciCommand_Command)
        ensures
            *r == self.command,
    {
        &self.command
    }

    /// Outcome of decoding a command from `s`, the bytes after message type `message_type`.
    pub open spec fn spec_parse(s: Seq<u8>, message_type: u8) -> Result<nat, ParseError> {
        if message_type != 0x01 {
            Err(ParseError::TagMismatch)
        } else if s.len() < 3 || s.len() < 3 + s[2] {
            Err(ParseError::InsufficientInput)
        } else {
            let opcode = le16(s, 0);
            match HciCommand_Command::spec_parse(
                s.subrange(3, 3 + s[2]),
                opcode_group(opcode),
                opcode_command(opcode),
            ) {
                Ok(_) => Ok((3 + s[2]) as nat),
                Err(e) => Err(e),
            }
        }
    }

    /// `self` holds the header fields, the parameter bytes, and their decoding.
    pub open spec fn decodes(self, s: Seq<u8>, message_type: u8) -> bool {
        &&& self.opcode == le16(s, 0)
        &&& self.length == s[2]
        &&& self.data@ == s.subrange(3, 3 + s[2])
        &&& self.command.decodes(self.data@, opcode_group(self.opcode), opcode_command(self.opcode))
    }

    pub fn parse<'a>(i: &'a [u8], message_type: u8) -> (r: Result<(&'a [u8], HciCommand), ParseError>)
        ensures
            parsed(i@, r, Self::spec_parse(i@, message_type)),
            r matches Ok((_, v)) ==> v.decodes(i@, message_type),
    {
        expect_tag(message_type, 0x01)?;
        need(i, 3)?;
        let opcode = read_u16(i, 0);
        let (ogf, ocf) = split_opcode(opcode);
        let length = i[2];
        need(i, 3 + length as usize)?;
        let data = bytes_at(i, 3, length as usize);
        let (_, command) = HciCommand_Command::parse(data.as_slice(), ogf, ocf)?;
        Ok((skip(i, 3 + length as usize), HciCommand { opcode, length, data, command }))
    }
}

} // verus!
