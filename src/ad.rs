//! Advertising Data (AD) structures: a length byte, a type byte, and a payload
//! whose shape the type selects. The leaves receive the payload size (the
//! length byte less one) as context and read from the bytes after the type.
use vstd::prelude::*;

use crate::wire::{
    bytes_at, block_run, expect_tag, le16, le32, need, parsed, read_block_run, read_i8, read_u16,
    read_u16_run, read_u32, read_u32_run, signed, sized, skip, text_at, u16_run, u32_run, utf8_text,
    ParseError,
};

verus! {

/// Outcome of a leaf for AD type `expected` that reads `n` payload bytes.
pub open spec fn ad_leaf(typ: u8, expected: u8, s: Seq<u8>, n: nat) -> Result<nat, ParseError> {
    if typ != expected {
        Err(ParseError::TagMismatch)
    } else {
        sized(s, n)
    }
}

/// Outcome of a leaf whose payload is a list of `width`-byte elements: the
/// payload size must be a whole number of elements.
pub open spec fn ad_list(typ: u8, expected: u8, len: u8, width: nat, s: Seq<u8>) -> Result<
    nat,
    ParseError,
> {
    if typ != expected {
        Err(ParseError::TagMismatch)
    } else if (len as int) % (width as int) != 0 {
        Err(ParseError::LengthMismatch)
    } else {
        sized(s, len as nat)
    }
}

/// Outcome of a leaf whose payload is a fixed header of `min` bytes followed by
/// free data, `len` bytes in all.
pub open spec fn ad_headed(typ: u8, expected: u8, len: u8, min: nat, s: Seq<u8>) -> Result<
    nat,
    ParseError,
> {
    if typ != expected {
        Err(ParseError::TagMismatch)
    } else if len < min {
        Err(ParseError::LengthMismatch)
    } else {
        sized(s, len as nat)
    }
}

/// Outcome of a leaf whose payload has exactly `size` bytes.
pub open spec fn ad_exact(typ: u8, expected: u8, len: u8, size: nat, s: Seq<u8>) -> Result<
    nat,
    ParseError,
> {
    if typ != expected || len != size {
        Err(ParseError::TagMismatch)
    } else {
        sized(s, size)
    }
}

/// Outcome of a leaf whose payload is `len` bytes of UTF-8 text.
pub open spec fn ad_text(typ: u8, expected: u8, len: u8, s: Seq<u8>) -> Result<nat, ParseError> {
    match ad_leaf(typ, expected, s, len as nat) {
        Ok(n) => if utf8_text(s.subrange(0, len as int)) is Some {
            Ok(n)
        } else {
            Err(ParseError::InvalidEncoding)
        },
        Err(e) => Err(e),
    }
}

/// An incomplete list of 16-bit service UUIDs.
#[derive(Debug, Clone, PartialEq, Eq, PartialOrd, Ord)]
pub struct IncompleteServiceUuid16 {
    pub len: u8,
    pub uuids: Vec<u16>,
}

impl IncompleteServiceUuid16 {
    pub fn get_uuids(&self) -> (r: &[u16])
        ensures
            r@ == self.uuids@,
    {
        self.uuids.as_slice()
    }

    /// Outcome of decoding this record from `s`, for AD type `typ` and payload size `len`.
    pub open spec fn spec_parse(s: Seq<u8>, typ: u8, len: u8) -> Result<nat, ParseError> {
        ad_list(typ, 0x02, len, 2, s)
    }

    /// `self` is the record that `s` holds, for AD type `typ` and payload size `len`.
    pub open spec fn decodes(self, s: Seq<u8>, typ: u8, len: u8) -> bool {
        self.len == len && u16_run(self.uuids@, s, 0, (len / 2) as int)
    }

    pub fn parse<'a>(i: &'a [u8], typ: u8, len: u8) -> (r: Result<(&'a [u8], IncompleteServiceUuid16), ParseError>)
        ensures
            parsed(i@, r, Self::spec_parse(i@, typ, len)),
            r matches Ok((_, v)) ==> v.decodes(i@, typ, len),
    {
        expect_tag(typ, 0x02)?;
        if len % 2 != 0 {
            return Err(ParseError::LengthMismatch);
        }
        let count = (len / 2) as usize;
        need(i, 2 * count)?;
        let uuids = read_u16_run(i, 0, count);
        Ok((skip(i, 2 * count), IncompleteServiceUuid16 { len, uuids }))
    }
}

/// The complete list of 16-bit service UUIDs.
#[derive(Debug, Clone, PartialEq, Eq, PartialOrd, Ord)]
pub struct CompleteServiceUuid16 {
    pub len: u8,
    pub uuids: Vec<u16>,
}

impl CompleteServiceUuid16 {
    pub fn get_uuids(&self) -> (r: &[u16])
        ensures
            r@ == self.uuids@,
    {
        self.uuids.as_slice()
    }

    /// Outcome of decoding this record from `s`, for AD type `typ` and payload size `len`.
    pub open spec fn spec_parse(s: Seq<u8>, typ: u8, len: u8) -> Result<nat, ParseError> {
        ad_list(typ, 0x03, len, 2, s)
    }

    /// `self` is the record that `s` holds, for AD type `typ` and payload size `len`.
    pub open spec fn decodes(self, s: Seq<u8>, typ: u8, len: u8) -> bool {
        self.len == len && u16_run(self.uuids@, s, 0, (len / 2) as int)
    }

    pub fn parse<'a>(i: &'a [u8], typ: u8, len: u8) -> (r: Result<(&'a [u8], CompleteServiceUuid16), ParseError>)
        ensures
            parsed(i@, r, Self::spec_parse(i@, typ, len)),
            r matches Ok((_, v)) ==> v.decodes(i@, typ, len),
    {
        expect_tag(typ, 0x03)?;
        if len % 2 != 0 {
            return Err(ParseError::LengthMismatch);
        }
        let count = (len / 2) as usize;
        need(i, 2 * count)?;
        let uuids = read_u16_run(i, 0, count);
        Ok((skip(i, 2 * count), CompleteServiceUuid16 { len, uuids }))
    }
}

/// An incomplete list of 32-bit service UUIDs.
#[derive(Debug, Clone, PartialEq, Eq, PartialOrd, Ord)]
pub struct IncompleteServiceUuid32 {
    pub len: u8,
    pub uuids: Vec<u32>,
}

impl IncompleteServiceUuid32 {
    pub fn get_uuids(&self) -> (r: &[u32])
        ensures
            r@ == self.uuids@,
    {
        self.uuids.as_slice()
    }

    /// Outcome of decoding this record from `s`, for AD type `typ` and payload size `len`.
    pub open spec fn spec_parse(s: Seq<u8>, typ: u8, len: u8) -> Result<nat, ParseError> {
        ad_list(typ, 0x04, len, 4, s)
    }

    /// `self` is the record that `s` holds, for AD type `typ` and payload size `len`.
    pub open spec fn decodes(self, s: Seq<u8>, typ: u8, len: u8) -> bool {
        self.len == len && u32_run(self.uuids@, s, 0, (len / 4) as int)
    }

    pub fn parse<'a>(i: &'a [u8], typ: u8, len: u8) -> (r: Result<(&'a [u8], IncompleteServiceUuid32), ParseError>)
        ensures
            parsed(i@, r, Self::spec_parse(i@, typ, len)),
            r matches Ok((_, v)) ==> v.decodes(i@, typ, len),
    {
        expect_tag(typ, 0x04)?;
        if len % 4 != 0 {
            return Err(ParseError::LengthMismatch);
        }
        let count = (len / 4) as usize;
        need(i, 4 * count)?;
        let uuids = read_u32_run(i, 0, count);
        Ok((skip(i, 4 * count), IncompleteServiceUuid32 { len, uuids }))
    }
}

/// The complete list of 32-bit service UUIDs.
#[derive(Debug, Clone, PartialEq, Eq, PartialOrd, Ord)]
pub struct CompleteServiceUuid32 {
    pub len: u8,
    pub uuids: Vec<u32>,
}

impl CompleteServiceUuid32 {
    pub fn get_uuids(&self) -> (r: &[u32])
        ensures
            r@ == self.uuids@,
    {
        self.uuids.as_slice()
    }

    /// Outcome of decoding this record from `s`, for AD type `typ` and payload size `len`.
    pub open spec fn spec_parse(s: Seq<u8>, typ: u8, len: u8) -> Result<nat, ParseError> {
        ad_list(typ, 0x05, len, 4, s)
    }

    /// `self` is the record that `s` holds, for AD type `typ` and payload size `len`.
    pub open spec fn decodes(self, s: Seq<u8>, typ: u8, len: u8) -> bool {
        self.len == len && u32_run(self.uuids@, s, 0, (len / 4) as int)
    }

    pub fn parse<'a>(i: &'a [u8], typ: u8, len: u8) -> (r: Result<(&'a [u8], CompleteServiceUuid32), ParseError>)
        ensures
            parsed(i@, r, Self::spec_parse(i@, typ, len)),
            r matches Ok((_, v)) ==> v.decodes(i@, typ, len),
    {
        expect_tag(typ, 0x05)?;
        if len % 4 != 0 {
            return Err(ParseError::LengthMismatch);
        }
        let count = (len / 4) as usize;
        need(i, 4 * count)?;
        let uuids = read_u32_run(i, 0, count);
        Ok((skip(i, 4 * count), CompleteServiceUuid32 { len, uuids }))
    }
}

/// An incomplete list of 128-bit service UUIDs.
#[derive(Debug, Clone, PartialEq, Eq, PartialOrd, Ord)]
pub struct IncompleteServiceUuid128 {
    pub len: u8,
    pub uuids: Vec<Vec<u8>>,
}

impl IncompleteServiceUuid128 {
    pub fn get_uuids(&self) -> (r: &[Vec<u8>])
        ensures
            r@ == self.uuids@,
    {
        self.uuids.as_slice()
    }

    /// Outcome of decoding this record from `s`, for AD type `typ` and payload size `len`.
    pub open spec fn spec_parse(s: Seq<u8>, typ: u8, len: u8) -> Result<nat, ParseError> {
        ad_list(typ, 0x06, len, 16, s)
    }

    /// `self` is the record that `s` holds, for AD type `typ` and payload size `len`.
    pub open spec fn decodes(self, s: Seq<u8>, typ: u8, len: u8) -> bool {
        self.len == len && block_run(self.uuids@, s, 0, (len / 16) as int)
    }

    pub fn parse<'a>(i: &'a [u8], typ: u8, len: u8) -> (r: Result<(&'a [u8], IncompleteServiceUuid128), ParseError>)
        ensures
            parsed(i@, r, Self::spec_parse(i@, typ, len)),
            r matches Ok((_, v)) ==> v.decodes(i@, typ, len),
    {
        expect_tag(typ, 0x06)?;
        if len % 16 != 0 {
            return Err(ParseError::LengthMismatch);
        }
        let count = (len / 16) as usize;
        need(i, 16 * count)?;
        let uuids = read_block_run(i, 0, count);
        Ok((skip(i, 16 * count), IncompleteServiceUuid128 { len, uuids }))
    }
}

/// The complete list of 128-bit service UUIDs.
#[derive(Debug, Clone, PartialEq, Eq, PartialOrd, Ord)]
pub struct CompleteServiceUuid128 {
    pub len: u8,
    pub uuids: Vec<Vec<u8>>,
}

impl CompleteServiceUuid128 {
    pub fn get_uuids(&self) -> (r: &[Vec<u8>])
        ensures
            r@ == self.uuids@,
    {
        self.uuids.as_slice()
    }

    /// Outcome of decoding this record from `s`, for AD type `typ` and payload size `len`.
    pub open spec fn spec_parse(s: Seq<u8>, typ: u8, len: u8) -> Result<nat, ParseError> {
        ad_list(typ, 0x07, len, 16, s)
    }

    /// `self` is the record that `s` holds, for AD type `typ` and payload size `len`.
    pub open spec fn decodes(self, s: Seq<u8>, typ: u8, len: u8) -> bool {
        self.len == len && block_run(self.uuids@, s, 0, (len / 16) as int)
    }

    pub fn parse<'a>(i: &'a [u8], typ: u8, len: u8) -> (r: Result<(&'a [u8], CompleteServiceUuid128), ParseError>)
        ensures
            parsed(i@, r, Self::spec_parse(i@, typ, len)),
            r matches Ok((_, v)) ==> v.decodes(i@, typ, len),
    {
        expect_tag(typ, 0x07)?;
        if len % 16 != 0 {
            return Err(ParseError::LengthMismatch);
        }
        let count = (len / 16) as usize;
        need(i, 16 * count)?;
        let uuids = read_block_run(i, 0, count);
        Ok((skip(i, 16 * count), CompleteServiceUuid128 { len, uuids }))
    }
}

/// A shortened form of the device name.
#[derive(Debug, Clone, PartialEq, Eq, PartialOrd, Ord)]
pub struct ShortenedLocalName {
    pub len: u8,
    pub local_name: String,
}

impl ShortenedLocalName {
    pub fn get_local_name(&self) -> (r: &String)
        ensures
            *r == self.local_name,
    {
        &self.local_name
    }

    /// Outcome of decoding this record from `s`, for AD type `typ` and payload size `len`.
    pub open spec fn spec_parse(s: Seq<u8>, typ: u8, len: u8) -> Result<nat, ParseError> {
        ad_text(typ, 0x08, len, s)
    }

    /// `self` is the record that `s` holds, for AD type `typ` and payload size `len`.
    pub open spec fn decodes(self, s: Seq<u8>, typ: u8, len: u8) -> bool {
        self.len == len && utf8_text(s.subrange(0, len as int)) == Some(self.local_name@)
    }

    pub fn parse<'a>(i: &'a [u8], typ: u8, len: u8) -> (r: Result<(&'a [u8], ShortenedLocalName), ParseError>)
        ensures
            parsed(i@, r, Self::spec_parse(i@, typ, len)),
            r matches Ok((_, v)) ==> v.decodes(i@, typ, len),
    {
        expect_tag(typ, 0x08)?;
        need(i, len as usize)?;
        let local_name = text_at(i, 0, len as usize)?;
        Ok((skip(i, len as usize), ShortenedLocalName { len, local_name }))
    }
}

/// The complete device name.
#[derive(Debug, Clone, PartialEq, Eq, PartialOrd, Ord)]
pub struct CompleteLocalName {
    pub len: u8,
    pub local_name: String,
}

impl CompleteLocalName {
    pub fn get_local_name(&self) -> (r: &String)
        ensures
            *r == self.local_name,
    {
        &self.local_name
    }

    /// Outcome of decoding this record from `s`, for AD type `typ` and payload size `len`.
    pub open spec fn spec_parse(s: Seq<u8>, typ: u8, len: u8) -> Result<nat, ParseError> {
        ad_text(typ, 0x09, len, s)
    }

    /// `self` is the record that `s` holds, for AD type `typ` and payload size `len`.
    pub open spec fn decodes(self, s: Seq<u8>, typ: u8, len: u8) -> bool {
        self.len == len && utf8_text(s.subrange(0, len as int)) == Some(self.local_name@)
    }

    pub fn parse<'a>(i: &'a [u8], typ: u8, len: u8) -> (r: Result<(&'a [u8], CompleteLocalName), ParseError>)
        ensures
            parsed(i@, r, Self::spec_parse(i@, typ, len)),
            r matches Ok((_, v)) ==> v.decodes(i@, typ, len),
    {
        expect_tag(typ, 0x09)?;
        need(i, len as usize)?;
        let local_name = text_at(i, 0, len as usize)?;
        Ok((skip(i, len as usize), CompleteLocalName { len, local_name }))
    }
}

/// The flags octet of the advertiser.
#[derive(Debug, Clone, PartialEq, Eq, PartialOrd, Ord)]
pub struct AdFlags {
    pub len: u8,
    pub flags: Vec<u8>,
}

impl AdFlags {
    pub fn get_flags(&self) -> (r: &[u8])
        ensures
            r@ == self.flags@,
    {
        self.flags.as_slice()
    }

    /// Outcome of decoding this record from `s`, for AD type `typ` and payload size `len`.
    pub open spec fn spec_parse(s: Seq<u8>, typ: u8, len: u8) -> Result<nat, ParseError> {
        ad_exact(typ, 0x01, len, 1, s)
    }

    /// `self` is the record that `s` holds, for AD type `typ` and payload size `len`.
    pub open spec fn decodes(self, s: Seq<u8>, typ: u8, len: u8) -> bool {
        self.len == len && self.flags@ == s.subrange(0, len as int)
    }

    pub fn parse<'a>(i: &'a [u8], typ: u8, len: u8) -> (r: Result<(&'a [u8], AdFlags), ParseError>)
        ensures
            parsed(i@, r, Self::spec_parse(i@, typ, len)),
            r matches Ok((_, v)) ==> v.decodes(i@, typ, len),
    {
        if typ != 0x01 || len != 1 {
            return Err(ParseError::TagMismatch);
        }
        need(i, 1)?;
        let flags = bytes_at(i, 0, 1);
        Ok((skip(i, 1), AdFlags { len, flags }))
    }
}

/// A company identifier followed by data of that company.
#[derive(Debug, Clone, PartialEq, Eq, PartialOrd, Ord)]
pub struct ManufacturerSpecificData {
    pub len: u8,
    pub company_identifier_code: u16,
    pub data: Vec<u8>,
}

impl ManufacturerSpecificData {
    pub fn get_company_identifier_code(&self) -> (r: u16)
        ensures
            r == self.company_identifier_code,
    {
        self.company_identifier_code
    }

    pub fn get_data(&self) -> (r: &[u8])
        ensures
            r@ == self.data@,
    {
        self.data.as_slice()
    }

    /// Outcome of decoding this record from `s`, for AD type `typ` and payload size `len`.
    pub open spec fn spec_parse(s: Seq<u8>, typ: u8, len: u8) -> Result<nat, ParseError> {
        ad_headed(typ, 0xFF, len, 2, s)
    }

    /// `self` is the record that `s` holds, for AD type `typ` and payload size `len`.
    pub open spec fn decodes(self, s: Seq<u8>, typ: u8, len: u8) -> bool {
        self.len == len && self.company_identifier_code == le16(s, 0) && self.data@ == s.subrange(2, len as int)
    }

    pub fn parse<'a>(i: &'a [u8], typ: u8, len: u8) -> (r: Result<(&'a [u8], ManufacturerSpecificData), ParseError>)
        ensures
            parsed(i@, r, Self::spec_parse(i@, typ, len)),
            r matches Ok((_, v)) ==> v.decodes(i@, typ, len),
    {
        expect_tag(typ, 0xFF)?;
        if len < 2 {
            return Err(ParseError::LengthMismatch);
        }
        need(i, len as usize)?;
        let company_identifier_code = read_u16(i, 0);
        let data = bytes_at(i, 2, len as usize - 2);
        Ok((skip(i, len as usize), ManufacturerSpecificData { len, company_identifier_code, data }))
    }
}

/// The transmitted power level, in dBm.
#[derive(Debug, Clone, PartialEq, Eq, PartialOrd, Ord)]
pub struct TxPowerLevel {
    pub level: i8,
}

impl TxPowerLevel {
    pub fn get_level(&self) -> (r: i8)
        ensures
            r == self.level,
    {
        self.level
    }

    /// Outcome of decoding this record from `s`, for AD type `typ` and payload size `len`.
    pub open spec fn spec_parse(s: Seq<u8>, typ: u8, len: u8) -> Result<nat, ParseError> {
        ad_exact(typ, 0x0A, len, 1, s)
    }

    /// `self` is the record that `s` holds, for AD type `typ` and payload size `len`.
    pub open spec fn decodes(self, s: Seq<u8>, typ: u8, len: u8) -> bool {
        self.level as int == signed(s[0])
    }

    pub fn parse<'a>(i: &'a [u8], typ: u8, len: u8) -> (r: Result<(&'a [u8], TxPowerLevel), ParseError>)
        ensures
            parsed(i@, r, Self::spec_parse(i@, typ, len)),
            r matches Ok((_, v)) ==> v.decodes(i@, typ, len),
    {
        if typ != 0x0A || len != 1 {
            return Err(ParseError::TagMismatch);
        }
        need(i, 1)?;
        Ok((skip(i, 1), TxPowerLevel { level: read_i8(i, 0) }))
    }
}

/// The connection interval range the peripheral prefers.
#[derive(Debug, Clone, PartialEq, Eq, PartialOrd, Ord)]
pub struct SlaveConnectionIntervalRange {
    pub min: u16,
    pub max: u16,
}

impl SlaveConnectionIntervalRange {
    pub fn get_min(&self) -> (r: u16)
        ensures
            r == self.min,
    {
        self.min
    }

    pub fn get_max(&self) -> (r: u16)
        ensures
            r == self.max,
    {
        self.max
    }

    /// Outcome of decoding this record from `s`, for AD type `typ` and payload size `len`.
    pub open spec fn spec_parse(s: Seq<u8>, typ: u8, len: u8) -> Result<nat, ParseError> {
        ad_exact(typ, 0x12, len, 4, s)
    }

    /// `self` is the record that `s` holds, for AD type `typ` and payload size `len`.
    pub open spec fn decodes(self, s: Seq<u8>, typ: u8, len: u8) -> bool {
        self.min == le16(s, 0) && self.max == le16(s, 2)
    }

    pub fn parse<'a>(i: &'a [u8], typ: u8, len: u8) -> (r: Result<(&'a [u8], SlaveConnectionIntervalRange), ParseError>)
        ensures
            parsed(i@, r, Self::spec_parse(i@, typ, len)),
            r matches Ok((_, v)) ==> v.decodes(i@, typ, len),
    {
        if typ != 0x12 || len != 4 {
            return Err(ParseError::TagMismatch);
        }
        need(i, 4)?;
        Ok((skip(i, 4), SlaveConnectionIntervalRange { min: read_u16(i, 0), max: read_u16(i, 2) }))
    }
}

/// A list of 16-bit service UUIDs to solicit.
#[derive(Debug, Clone, PartialEq, Eq, PartialOrd, Ord)]
pub struct ServiceSolicitation16 {
    pub len: u8,
    pub uuids: Vec<u16>,
}

impl ServiceSolicitation16 {
    pub fn get_uuids(&self) -> (r: &[u16])
        ensures
            r@ == self.uuids@,
    {
        self.uuids.as_slice()
    }

    /// Outcome of decoding this record from `s`, for AD type `typ` and payload size `len`.
    pub open spec fn spec_parse(s: Seq<u8>, typ: u8, len: u8) -> Result<nat, ParseError> {
        ad_list(typ, 0x14, len, 2, s)
    }

    /// `self` is the record that `s` holds, for AD type `typ` and payload size `len`.
    pub open spec fn decodes(self, s: Seq<u8>, typ: u8, len: u8) -> bool {
        self.len == len && u16_run(self.uuids@, s, 0, (len / 2) as int)
    }

    pub fn parse<'a>(i: &'a [u8], typ: u8, len: u8) -> (r: Result<(&'a [u8], ServiceSolicitation16), ParseError>)
        ensures
            parsed(i@, r, Self::spec_parse(i@, typ, len)),
            r matches Ok((_, v)) ==> v.decodes(i@, typ, len),
    {
        expect_tag(typ, 0x14)?;
        if len % 2 != 0 {
            return Err(ParseError::LengthMismatch);
        }
        let count = (len / 2) as usize;
        need(i, 2 * count)?;
        let uuids = read_u16_run(i, 0, count);
        Ok((skip(i, 2 * count), ServiceSolicitation16 { len, uuids }))
    }
}

/// A list of 32-bit service UUIDs to solicit.
#[derive(Debug, Clone, PartialEq, Eq, PartialOrd, Ord)]
pub struct ServiceSolicitation32 {
    pub len: u8,
    pub uuids: Vec<u32>,
}

impl ServiceSolicitation32 {
    pub fn get_uuids(&self) -> (r: &[u32])
        ensures
            r@ == self.uuids@,
    {
        self.uuids.as_slice()
    }

    /// Outcome of decoding this record from `s`, for AD type `typ` and payload size `len`.
    pub open spec fn spec_parse(s: Seq<u8>, typ: u8, len: u8) -> Result<nat, ParseError> {
        ad_list(typ, 0x1F, len, 4, s)
    }

    /// `self` is the record that `s` holds, for AD type `typ` and payload size `len`.
    pub open spec fn decodes(self, s: Seq<u8>, typ: u8, len: u8) -> bool {
        self.len == len && u32_run(self.uuids@, s, 0, (len / 4) as int)
    }

    pub fn parse<'a>(i: &'a [u8], typ: u8, len: u8) -> (r: Result<(&'a [u8], ServiceSolicitation32), ParseError>)
        ensures
            parsed(i@, r, Self::spec_parse(i@, typ, len)),
            r matches Ok((_, v)) ==> v.decodes(i@, typ, len),
    {
        expect_tag(typ, 0x1F)?;
        if len % 4 != 0 {
            return Err(ParseError::LengthMismatch);
        }
        let count = (len / 4) as usize;
        need(i, 4 * count)?;
        let uuids = read_u32_run(i, 0, count);
        Ok((skip(i, 4 * count), ServiceSolicitation32 { len, uuids }))
    }
}

/// A list of 128-bit service UUIDs to solicit.
#[derive(Debug, Clone, PartialEq, Eq, PartialOrd, Ord)]
pub struct ServiceSolicitation128 {
    pub len: u8,
    pub uuids: Vec<Vec<u8>>,
}

impl ServiceSolicitation128 {
    pub fn get_uuids(&self) -> (r: &[Vec<u8>])
        ensures
            r@ == self.uuids@,
    {
        self.uuids.as_slice()
    }

    /// Outcome of decoding this record from `s`, for AD type `typ` and payload size `len`.
    pub open spec fn spec_parse(s: Seq<u8>, typ: u8, len: u8) -> Result<nat, ParseError> {
        ad_list(typ, 0x15, len, 16, s)
    }

    /// `self` is the record that `s` holds, for AD type `typ` and payload size `len`.
    pub open spec fn decodes(self, s: Seq<u8>, typ: u8, len: u8) -> bool {
        self.len == len && block_run(self.uuids@, s, 0, (len / 16) as int)
    }

    pub fn parse<'a>(i: &'a [u8], typ: u8, len: u8) -> (r: Result<(&'a [u8], ServiceSolicitation128), ParseError>)
        ensures
            parsed(i@, r, Self::spec_parse(i@, typ, len)),
            r matches Ok((_, v)) ==> v.decodes(i@, typ, len),
    {
        expect_tag(typ, 0x15)?;
        if len % 16 != 0 {
            return Err(ParseError::LengthMismatch);
        }
        let count = (len / 16) as usize;
        need(i, 16 * count)?;
        let uuids = read_block_run(i, 0, count);
        Ok((skip(i, 16 * count), ServiceSolicitation128 { len, uuids }))
    }
}

/// A 16-bit service UUID followed by its data.
#[derive(Debug, Clone, PartialEq, Eq, PartialOrd, Ord)]
pub struct ServiceData16 {
    pub len: u8,
    pub uuid: u16,
    pub data: Vec<u8>,
}

impl ServiceData16 {
    pub fn get_uuid(&self) -> (r: u16)
        ensures
            r == self.uuid,
    {
        self.uuid
    }

    pub fn get_data(&self) -> (r: &[u8])
        ensures
            r@ == self.data@,
    {
        self.data.as_slice()
    }

    /// Outcome of decoding this record from `s`, for AD type `typ` and payload size `len`.
    pub open spec fn spec_parse(s: Seq<u8>, typ: u8, len: u8) -> Result<nat, ParseError> {
        ad_headed(typ, 0x16, len, 2, s)
    }

    /// `self` is the record that `s` holds, for AD type `typ` and payload size `len`.
    pub open spec fn decodes(self, s: Seq<u8>, typ: u8, len: u8) -> bool {
        self.len == len && self.uuid == le16(s, 0) && self.data@ == s.subrange(2, len as int)
    }

    pub fn parse<'a>(i: &'a [u8], typ: u8, len: u8) -> (r: Result<(&'a [u8], ServiceData16), ParseError>)
        ensures
            parsed(i@, r, Self::spec_parse(i@, typ, len)),
            r matches Ok((_, v)) ==> v.decodes(i@, typ, len),
    {
        expect_tag(typ, 0x16)?;
        if len < 2 {
            return Err(ParseError::LengthMismatch);
        }
        need(i, len as usize)?;
        let uuid = read_u16(i, 0);
        let data = bytes_at(i, 2, len as usize - 2);
        Ok((skip(i, len as usize), ServiceData16 { len, uuid, data }))
    }
}

/// A 32-bit service UUID followed by its data.
#[derive(Debug, Clone, PartialEq, Eq, PartialOrd, Ord)]
pub struct ServiceData32 {
    pub len: u8,
    pub uuid: u32,
    pub data: Vec<u8>,
}

impl ServiceData32 {
    pub fn get_uuid(&self) -> (r: u32)
        ensures
            r == self.uuid,
    {
        self.uuid
    }

    pub fn get_data(&self) -> (r: &[u8])
        ensures
            r@ == self.data@,
    {
        self.data.as_slice()
    }

    /// Outcome of decoding this record from `s`, for AD type `typ` and payload size `len`.
    pub open spec fn spec_parse(s: Seq<u8>, typ: u8, len: u8) -> Result<nat, ParseError> {
        ad_headed(typ, 0x20, len, 4, s)
    }

    /// `self` is the record that `s` holds, for AD type `typ` and payload size `len`.
    pub open spec fn decodes(self, s: Seq<u8>, typ: u8, len: u8) -> bool {
        self.len == len && self.uuid == le32(s, 0) && self.data@ == s.subrange(4, len as int)
    }

    pub fn parse<'a>(i: &'a [u8], typ: u8, len: u8) -> (r: Result<(&'a [u8], ServiceData32), ParseError>)
        ensures
            parsed(i@, r, Self::spec_parse(i@, typ, len)),
            r matches Ok((_, v)) ==> v.decodes(i@, typ, len),
    {
        expect_tag(typ, 0x20)?;
        if len < 4 {
            return Err(ParseError::LengthMismatch);
        }
        need(i, len as usize)?;
        let uuid = read_u32(i, 0);
        let data = bytes_at(i, 4, len as usize - 4);
        Ok((skip(i, len as usize), ServiceData32 { len, uuid, data }))
    }
}

/// A 128-bit service UUID followed by its data.
#[derive(Debug, Clone, PartialEq, Eq, PartialOrd, Ord)]
pub struct ServiceData128 {
    pub len: u8,
    pub uuid: Vec<u8>,
    pub data: Vec<u8>,
}

impl ServiceData128 {
    pub fn get_uuid(&self) -> (r: &[u8])
        ensures
            r@ == self.uuid@,
    {
        self.uuid.as_slice()
    }

    pub fn get_data(&self) -> (r: &[u8])
        ensures
            r@ == self.data@,
    {
        self.data.as_slice()
    }

    /// Outcome of decoding this record from `s`, for AD type `typ` and payload size `len`.
    pub open spec fn spec_parse(s: Seq<u8>, typ: u8, len: u8) -> Result<nat, ParseError> {
        ad_headed(typ, 0x21, len, 16, s)
    }

    /// `self` is the record that `s` holds, for AD type `typ` and payload size `len`.
    pub open spec fn decodes(self, s: Seq<u8>, typ: u8, len: u8) -> bool {
        self.len == len && self.uuid@ == s.subrange(0, 16) && self.data@ == s.subrange(16, len as int)
    }

    pub fn parse<'a>(i: &'a [u8], typ: u8, len: u8) -> (r: Result<(&'a [u8], ServiceData128), ParseError>)
        ensures
            parsed(i@, r, Self::spec_parse(i@, typ, len)),
            r matches Ok((_, v)) ==> v.decodes(i@, typ, len),
    {
        expect_tag(typ, 0x21)?;
        if len < 16 {
            return Err(ParseError::LengthMismatch);
        }
        need(i, len as usize)?;
        let uuid = bytes_at(i, 0, 16);
        let data = bytes_at(i, 16, len as usize - 16);
        Ok((skip(i, len as usize), ServiceData128 { len, uuid, data }))
    }
}

/// The external appearance of the device.
#[derive(Debug, Clone, PartialEq, Eq, PartialOrd, Ord)]
pub struct Appearance {
    pub appearance: u16,
}

impl Appearance {
    pub fn get_appearance(&self) -> (r: u16)
        ensures
            r == self.appearance,
    {
        self.appearance
    }

    /// Outcome of decoding this record from `s`, for AD type `typ` and payload size `len`.
    pub open spec fn spec_parse(s: Seq<u8>, typ: u8, len: u8) -> Result<nat, ParseError> {
        ad_exact(typ, 0x19, len, 2, s)
    }

    /// `self` is the record that `s` holds, for AD type `typ` and payload size `len`.
    pub open spec fn decodes(self, s: Seq<u8>, typ: u8, len: u8) -> bool {
        self.appearance == le16(s, 0)
    }

    pub fn parse<'a>(i: &'a [u8], typ: u8, len: u8) -> (r: Result<(&'a [u8], Appearance), ParseError>)
        ensures
            parsed(i@, r, Self::spec_parse(i@, typ, len)),
            r matches Ok((_, v)) ==> v.decodes(i@, typ, len),
    {
        if typ != 0x19 || len != 2 {
            return Err(ParseError::TagMismatch);
        }
        need(i, 2)?;
        Ok((skip(i, 2), Appearance { appearance: read_u16(i, 0) }))
    }
}

/// Any AD structure that no typed record accepts, kept as raw bytes.
#[derive(Debug, Clone, PartialEq, Eq, PartialOrd, Ord)]
pub struct UnsupportedDataType {
    pub typ: u8,
    pub len: u8,
    pub data: Vec<u8>,
}

impl UnsupportedDataType {
    pub fn get_data(&self) -> (r: &[u8])
        ensures
            r@ == self.data@,
    {
        self.data.as_slice()
    }

    /// Outcome of decoding this record from `s`, for AD type `typ` and payload size `len`.
    pub open spec fn spec_parse(s: Seq<u8>, typ: u8, len: u8) -> Result<nat, ParseError> {
        sized(s, len as nat)
    }

    /// `self` is the record that `s` holds, for AD type `typ` and payload size `len`.
    pub open spec fn decodes(self, s: Seq<u8>, typ: u8, len: u8) -> bool {
        self.typ == typ && self.len == len && self.data@ == s.subrange(0, len as int)
    }

    pub fn parse<'a>(i: &'a [u8], typ: u8, len: u8) -> (r: Result<(&'a [u8], UnsupportedDataType), ParseError>)
        ensures
            parsed(i@, r, Self::spec_parse(i@, typ, len)),
            r matches Ok((_, v)) ==> v.decodes(i@, typ, len),
    {
        need(i, len as usize)?;
        let data = bytes_at(i, 0, len as usize);
        Ok((skip(i, len as usize), UnsupportedDataType { typ, len, data }))
    }
}

/// The payload of an AD structure, selected by its type byte.
#[derive(Debug, Clone, PartialEq, Eq, PartialOrd, Ord)]
pub enum BasicDataType_Data {
    IncompleteServiceUuid16(IncompleteServiceUuid16),
    CompleteServiceUuid16(CompleteServiceUuid16),
    IncompleteServiceUuid32(IncompleteServiceUuid32),
    CompleteServiceUuid32(CompleteServiceUuid32),
    IncompleteServiceUuid128(IncompleteServiceUuid128),
    CompleteServiceUuid128(CompleteServiceUuid128),
    ShortenedLocalName(ShortenedLocalName),
    CompleteLocalName(CompleteLocalName),
    ADFlags(AdFlags),
    ManufacturerSpecificData(ManufacturerSpecificData),
    TxPowerLevel(TxPowerLevel),
    SlaveConnectionIntervalRange(SlaveConnectionIntervalRange),
    ServiceSolicitation16(ServiceSolicitation16),
    ServiceSolicitation32(ServiceSolicitation32),
    ServiceSolicitation128(ServiceSolicitation128),
    ServiceData16(ServiceData16),
    ServiceData32(ServiceData32),
    ServiceData128(ServiceData128),
    Appearance(Appearance),
    UnsupportedDataType(UnsupportedDataType),
}

impl BasicDataType_Data {
    /// Position, in dispatch order, of the candidate that decodes `s`: the first
    /// that accepts it, else the fallback, which is last.
    pub open spec fn choice(s: Seq<u8>, typ: u8, len: u8) -> int {
        if IncompleteServiceUuid16::spec_parse(s, typ, len) is Ok {
            0
        } else if CompleteServiceUuid16::spec_parse(s, typ, len) is Ok {
            1
        } else if IncompleteServiceUuid32::spec_parse(s, typ, len) is Ok {
            2
        } else if CompleteServiceUuid32::spec_parse(s, typ, len) is Ok {
            3
        } else if IncompleteServiceUuid128::spec_parse(s, typ, len) is Ok {
            4
        } else if CompleteServiceUuid128::spec_parse(s, typ, len) is Ok {
            5
        } else if ShortenedLocalName::spec_parse(s, typ, len) is Ok {
            6
        } else if CompleteLocalName::spec_parse(s, typ, len) is Ok {
            7
        } else if AdFlags::spec_parse(s, typ, len) is Ok {
            8
        } else if ManufacturerSpecificData::spec_parse(s, typ, len) is Ok {
            9
        } else if TxPowerLevel::spec_parse(s, typ, len) is Ok {
            10
        } else if SlaveConnectionIntervalRange::spec_parse(s, typ, len) is Ok {
            11
        } else if ServiceSolicitation16::spec_parse(s, typ, len) is Ok {
            12
        } else if ServiceSolicitation32::spec_parse(s, typ, len) is Ok {
            13
        } else if ServiceSolicitation128::spec_parse(s, typ, len) is Ok {
            14
        } else if ServiceData16::spec_parse(s, typ, len) is Ok {
            15
        } else if ServiceData32::spec_parse(s, typ, len) is Ok {
            16
        } else if ServiceData128::spec_parse(s, typ, len) is Ok {
            17
        } else if Appearance::spec_parse(s, typ, len) is Ok {
            18
        } else {
            19
        }
    }

    /// Outcome of decoding `s`: that of the chosen candidate.
    pub open spec fn spec_parse(s: Seq<u8>, typ: u8, len: u8) -> Result<nat, ParseError> {
        let k = Self::choice(s, typ, len);
        if k == 0 {
            IncompleteServiceUuid16::spec_parse(s, typ, len)
        } else if k == 1 {
            CompleteServiceUuid16::spec_parse(s, typ, len)
        } else if k == 2 {
            IncompleteServiceUuid32::spec_parse(s, typ, len)
        } else if k == 3 {
            CompleteServiceUuid32::spec_parse(s, typ, len)
        } else if k == 4 {
            IncompleteServiceUuid128::spec_parse(s, typ, len)
        } else if k == 5 {
            CompleteServiceUuid128::spec_parse(s, typ, len)
        } else if k == 6 {
            ShortenedLocalName::spec_parse(s, typ, len)
        } else if k == 7 {
            CompleteLocalName::spec_parse(s, typ, len)
        } else if k == 8 {
            AdFlags::spec_parse(s, typ, len)
        } else if k == 9 {
            ManufacturerSpecificData::spec_parse(s, typ, len)
        } else if k == 10 {
            TxPowerLevel::spec_parse(s, typ, len)
        } else if k == 11 {
            SlaveConnectionIntervalRange::spec_parse(s, typ, len)
        } else if k == 12 {
            ServiceSolicitation16::spec_parse(s, typ, len)
        } else if k == 13 {
            ServiceSolicitation32::spec_parse(s, typ, len)
        } else if k == 14 {
            ServiceSolicitation128::spec_parse(s, typ, len)
        } else if k == 15 {
            ServiceData16::spec_parse(s, typ, len)
        } else if k == 16 {
            ServiceData32::spec_parse(s, typ, len)
        } else if k == 17 {
            ServiceData128::spec_parse(s, typ, len)
        } else if k == 18 {
            Appearance::spec_parse(s, typ, len)
        } else {
            UnsupportedDataType::spec_parse(s, typ, len)
        }
    }

    /// `self` is the variant of the chosen candidate, holding what it decodes.
    pub open spec fn decodes(self, s: Seq<u8>, typ: u8, len: u8) -> bool {
        match self {
            BasicDataType_Data::IncompleteServiceUuid16(x) => Self::choice(s, typ, len) == 0 && x.decodes(s, typ, len),
            BasicDataType_Data::CompleteServiceUuid16(x) => Self::choice(s, typ, len) == 1 && x.decodes(s, typ, len),
            BasicDataType_Data::IncompleteServiceUuid32(x) => Self::choice(s, typ, len) == 2 && x.decodes(s, typ, len),
            BasicDataType_Data::CompleteServiceUuid32(x) => Self::choice(s, typ, len) == 3 && x.decodes(s, typ, len),
            BasicDataType_Data::IncompleteServiceUuid128(x) => Self::choice(s, typ, len) == 4 && x.decodes(s, typ, len),
            BasicDataType_Data::CompleteServiceUuid128(x) => Self::choice(s, typ, len) == 5 && x.decodes(s, typ, len),
            BasicDataType_Data::ShortenedLocalName(x) => Self::choice(s, typ, len) == 6 && x.decodes(s, typ, len),
            BasicDataType_Data::CompleteLocalName(x) => Self::choice(s, typ, len) == 7 && x.decodes(s, typ, len),
            BasicDataType_Data::ADFlags(x) => Self::choice(s, typ, len) == 8 && x.decodes(s, typ, len),
            BasicDataType_Data::ManufacturerSpecificData(x) => Self::choice(s, typ, len) == 9 && x.decodes(s, typ, len),
            BasicDataType_Data::TxPowerLevel(x) => Self::choice(s, typ, len) == 10 && x.decodes(s, typ, len),
            BasicDataType_Data::SlaveConnectionIntervalRange(x) => Self::choice(s, typ, len) == 11 && x.decodes(s, typ, len),
            BasicDataType_Data::ServiceSolicitation16(x) => Self::choice(s, typ, len) == 12 && x.decodes(s, typ, len),
            BasicDataType_Data::ServiceSolicitation32(x) => Self::choice(s, typ, len) == 13 && x.decodes(s, typ, len),
            BasicDataType_Data::ServiceSolicitation128(x) => Self::choice(s, typ, len) == 14 && x.decodes(s, typ, len),
            BasicDataType_Data::ServiceData16(x) => Self::choice(s, typ, len) == 15 && x.decodes(s, typ, len),
            BasicDataType_Data::ServiceData32(x) => Self::choice(s, typ, len) == 16 && x.decodes(s, typ, len),
            BasicDataType_Data::ServiceData128(x) => Self::choice(s, typ, len) == 17 && x.decodes(s, typ, len),
            BasicDataType_Data::Appearance(x) => Self::choice(s, typ, len) == 18 && x.decodes(s, typ, len),
            BasicDataType_Data::UnsupportedDataType(x) => Self::choice(s, typ, len) == 19 && x.decodes(s, typ, len),
        }
    }

    /// Tries each candidate in order on the same input and keeps the first success.
    pub fn parse<'a>(i: &'a [u8], typ: u8, len: u8) -> (r: Result<(&'a [u8], BasicDataType_Data), ParseError>)
        ensures
            parsed(i@, r, Self::spec_parse(i@, typ, len)),
            r matches Ok((_, v)) ==> v.decodes(i@, typ, len),
    {
        if let Ok((rest, x)) = IncompleteServiceUuid16::parse(i, typ, len) {
            return Ok((rest, BasicDataType_Data::IncompleteServiceUuid16(x)));
        }
        if let Ok((rest, x)) = CompleteServiceUuid16::parse(i, typ, len) {
            return Ok((rest, BasicDataType_Data::CompleteServiceUuid16(x)));
        }
        if let Ok((rest, x)) = IncompleteServiceUuid32::parse(i, typ, len) {
            return Ok((rest, BasicDataType_Data::IncompleteServiceUuid32(x)));
        }
        if let Ok((rest, x)) = CompleteServiceUuid32::parse(i, typ, len) {
            return Ok((rest, BasicDataType_Data::CompleteServiceUuid32(x)));
        }
        if let Ok((rest, x)) = IncompleteServiceUuid128::parse(i, typ, len) {
            return Ok((rest, BasicDataType_Data::IncompleteServiceUuid128(x)));
        }
        if let Ok((rest, x)) = CompleteServiceUuid128::parse(i, typ, len) {
            return Ok((rest, BasicDataType_Data::CompleteServiceUuid128(x)));
        }
        if let Ok((rest, x)) = ShortenedLocalName::parse(i, typ, len) {
            return Ok((rest, BasicDataType_Data::ShortenedLocalName(x)));
        }
        if let Ok((rest, x)) = CompleteLocalName::parse(i, typ, len) {
            return Ok((rest, BasicDataType_Data::CompleteLocalName(x)));
        }
        if let Ok((rest, x)) = AdFlags::parse(i, typ, len) {
            return Ok((rest, BasicDataType_Data::ADFlags(x)));
        }
        if let Ok((rest, x)) = ManufacturerSpecificData::parse(i, typ, len) {
            return Ok((rest, BasicDataType_Data::ManufacturerSpecificData(x)));
        }
        if let Ok((rest, x)) = TxPowerLevel::parse(i, typ, len) {
            return Ok((rest, BasicDataType_Data::TxPowerLevel(x)));
        }
        if let Ok((rest, x)) = SlaveConnectionIntervalRange::parse(i, typ, len) {
            return Ok((rest, BasicDataType_Data::SlaveConnectionIntervalRange(x)));
        }
        if let Ok((rest, x)) = ServiceSolicitation16::parse(i, typ, len) {
            return Ok((rest, BasicDataType_Data::ServiceSolicitation16(x)));
        }
        if let Ok((rest, x)) = ServiceSolicitation32::parse(i, typ, len) {
            return Ok((rest, BasicDataType_Data::ServiceSolicitation32(x)));
        }
        if let Ok((rest, x)) = ServiceSolicitation128::parse(i, typ, len) {
            return Ok((rest, BasicDataType_Data::ServiceSolicitation128(x)));
        }
        if let Ok((rest, x)) = ServiceData16::parse(i, typ, len) {
            return Ok((rest, BasicDataType_Data::ServiceData16(x)));
        }
        if let Ok((rest, x)) = ServiceData32::parse(i, typ, len) {
            return Ok((rest, BasicDataType_Data::ServiceData32(x)));
        }
        if let Ok((rest, x)) = ServiceData128::parse(i, typ, len) {
            return Ok((rest, BasicDataType_Data::ServiceData128(x)));
        }
        if let Ok((rest, x)) = Appearance::parse(i, typ, len) {
            return Ok((rest, BasicDataType_Data::Appearance(x)));
        }
        let (rest, x) = UnsupportedDataType::parse(i, typ, len)?;
        Ok((rest, BasicDataType_Data::UnsupportedDataType(x)))
    }
}

/// One AD structure: `length` counts the type byte and the payload.
#[derive(Debug, Clone, PartialEq, Eq, PartialOrd, Ord)]
pub struct BasicDataType {
    pub length: u8,
    pub ad_type: u8,
    pub data: BasicDataType_Data,
}

impl BasicDataType {
    pub fn get_data(&self) -> (r: &BasicDataType_Data)
        ensures
            *r == self.data,
    {
        &self.data
    }

    /// Outcome of decoding one AD structure from the front of `s`.
    pub open spec fn spec_parse(s: Seq<u8>) -> Result<nat, ParseError> {
        if s.len() < 2 {
            Err(ParseError::InsufficientInput)
        } else if s[0] == 0 {
            Err(ParseError::LengthMismatch)
        } else {
            match BasicDataType_Data::spec_parse(s.subrange(2, s.len() as int), s[1], (s[0] - 1) as u8) {
                Ok(n) => Ok(n + 2),
                Err(e) => Err(e),
            }
        }
    }

    /// `self` is the AD structure at the front of `s`.
    pub open spec fn decodes(self, s: Seq<u8>) -> bool {
        &&& self.length == s[0]
        &&& self.ad_type == s[1]
        &&& self.data.decodes(s.subrange(2, s.len() as int), s[1], (s[0] - 1) as u8)
    }

    pub fn parse<'a>(i: &'a [u8]) -> (r: Result<(&'a [u8], BasicDataType), ParseError>)
        ensures
            parsed(i@, r, Self::spec_parse(i@)),
            r matches Ok((_, v)) ==> v.decodes(i@),
    {
        need(i, 2)?;
        let length = i[0];
        let ad_type = i[1];
        if length == 0 {
            return Err(ParseError::LengthMismatch);
        }
        let body = skip(i, 2);
        let (rest, data) = BasicDataType_Data::parse(body, ad_type, length - 1)?;
        assert(rest@ =~= i@.subrange(i@.len() - rest@.len(), i@.len() as int));
        Ok((rest, BasicDataType { length, ad_type, data }))
    }
}

/// `v` is what a greedy repetition of AD structures makes of `s`: structures are
/// decoded from the front until one fails, and the bytes from there on are
/// dropped.
pub open spec fn ad_sequence(v: Seq<BasicDataType>, s: Seq<u8>) -> bool
    decreases s.len(),
{
    match BasicDataType::spec_parse(s) {
        Ok(n) => if 0 < n <= s.len() {
            &&& v.len() > 0
            &&& v[0].decodes(s)
            &&& ad_sequence(v.drop_first(), s.subrange(n as int, s.len() as int))
        } else {
            false
        },
        Err(_) => v.len() == 0,
    }
}

/// How many AD structures a greedy repetition decodes from `s`.
pub open spec fn ad_count(s: Seq<u8>) -> nat
    decreases s.len(),
{
    match BasicDataType::spec_parse(s) {
        Ok(n) => if 0 < n <= s.len() {
            1 + ad_count(s.subrange(n as int, s.len() as int))
        } else {
            0
        },
        Err(_) => 0,
    }
}

/// Decodes AD structures from `i` until one fails or the bytes run out.
pub fn parse_ad_sequence(i: &[u8]) -> (r: Vec<BasicDataType>)
    ensures
        ad_sequence(r@, i@),
        r@.len() == ad_count(i@),
    decreases i@.len(),
{
    match BasicDataType::parse(i) {
        Ok((rest, v)) => {
            let mut tail = parse_ad_sequence(rest);
            proof {
                let n = (i@.len() - rest@.len()) as nat;
                assert(rest@ == i@.subrange(n as int, i@.len() as int));
            }
            let ghost old_tail = tail@;
            tail.insert(0, v);
            assert(tail@.drop_first() =~= old_tail);
            tail
        },
        Err(_) => Vec::new(),
    }
}

/// How many typed AD records (every record but the raw fallback) accept the
/// payload `s` under type `typ` and payload size `len`.
pub open spec fn typed_acceptors(s: Seq<u8>, typ: u8, len: u8) -> nat {
    (if IncompleteServiceUuid16::spec_parse(s, typ, len) is Ok { 1nat } else { 0nat })
    + (if CompleteServiceUuid16::spec_parse(s, typ, len) is Ok { 1nat } else { 0nat })
    + (if IncompleteServiceUuid32::spec_parse(s, typ, len) is Ok { 1nat } else { 0nat })
    + (if CompleteServiceUuid32::spec_parse(s, typ, len) is Ok { 1nat } else { 0nat })
    + (if IncompleteServiceUuid128::spec_parse(s, typ, len) is Ok { 1nat } else { 0nat })
    + (if CompleteServiceUuid128::spec_parse(s, typ, len) is Ok { 1nat } else { 0nat })
    + (if ShortenedLocalName::spec_parse(s, typ, len) is Ok { 1nat } else { 0nat })
    + (if CompleteLocalName::spec_parse(s, typ, len) is Ok { 1nat } else { 0nat })
    + (if AdFlags::spec_parse(s, typ, len) is Ok { 1nat } else { 0nat })
    + (if ManufacturerSpecificData::spec_parse(s, typ, len) is Ok { 1nat } else { 0nat })
    + (if TxPowerLevel::spec_parse(s, typ, len) is Ok { 1nat } else { 0nat })
    + (if SlaveConnectionIntervalRange::spec_parse(s, typ, len) is Ok { 1nat } else { 0nat })
    + (if ServiceSolicitation16::spec_parse(s, typ, len) is Ok { 1nat } else { 0nat })
    + (if ServiceSolicitation32::spec_parse(s, typ, len) is Ok { 1nat } else { 0nat })
    + (if ServiceSolicitation128::spec_parse(s, typ, len) is Ok { 1nat } else { 0nat })
    + (if ServiceData16::spec_parse(s, typ, len) is Ok { 1nat } else { 0nat })
    + (if ServiceData32::spec_parse(s, typ, len) is Ok { 1nat } else { 0nat })
    + (if ServiceData128::spec_parse(s, typ, len) is Ok { 1nat } else { 0nat })
    + (if Appearance::spec_parse(s, typ, len) is Ok { 1nat } else { 0nat })
}

/// The typed AD records are exclusive: for any type, payload size and payload,
/// at most one of them accepts, and the others reject.
pub proof fn lemma_typed_records_exclusive(s: Seq<u8>, typ: u8, len: u8)
    ensures
        typed_acceptors(s, typ, len) <= 1,
{
}

/// Where no typed record accepts a structure's payload, the raw fallback does,
/// keeping the `length - 1` payload bytes as they are.
pub proof fn lemma_fallback_total(s: Seq<u8>)
    requires
        s.len() >= 2,
        s[0] >= 1,
        s.len() >= s[0] + 1,
        typed_acceptors(s.subrange(2, s.len() as int), s[1], (s[0] - 1) as u8) == 0,
    ensures
        BasicDataType::spec_parse(s) == Ok::<nat, ParseError>((s[0] + 1) as nat),
        forall|v: BasicDataType| #[trigger] v.decodes(s) ==> (v.data matches BasicDataType_Data::UnsupportedDataType(u) && u.typ == s[1] && u.data@ == s.subrange(2, s[0] + 1)),
{
    let body = s.subrange(2, s.len() as int);
    let len = (s[0] - 1) as u8;
    assert(BasicDataType_Data::choice(body, s[1], len) == 19);
    assert forall|v: BasicDataType| #[trigger] v.decodes(s) implies (v.data matches BasicDataType_Data::UnsupportedDataType(u) && u.typ == s[1] && u.data@ == s.subrange(2, s[0] + 1)) by {
        if let BasicDataType_Data::UnsupportedDataType(u) = v.data {
            assert(u.data@ =~= s.subrange(2, s[0] + 1));
        }
    }
}

/// A well-formed AD structure: a length byte of at least one that covers
/// exactly the bytes after it (the type byte and the payload).
pub open spec fn whole_structure(seg: Seq<u8>) -> bool {
    &&& seg.len() >= 2
    &&& seg[0] >= 1
    &&& seg[0] + 1 == seg.len()
}

/// Bytes too short to hold a structure: no length and type byte, a zero
/// length byte, or fewer payload bytes than the length byte announces.
pub open spec fn short_tail(t: Seq<u8>) -> bool {
    t.len() < 2 || t[0] == 0 || t.len() < t[0] + 1
}

/// Every successful decode of an AD structure reads exactly its length byte
/// and the `length` bytes it covers: each record takes its whole payload or
/// fails, and the raw fallback takes what the typed records refuse.
pub proof fn lemma_structure_consumes_length(s: Seq<u8>)
    ensures
        BasicDataType::spec_parse(s) is Ok ==> BasicDataType::spec_parse(s) == Ok::<
            nat,
            ParseError,
        >((s[0] + 1) as nat),
{
}

/// A well-formed structure always decodes, reading all of its bytes.
pub proof fn lemma_whole_structure_decodes(seg: Seq<u8>)
    requires
        whole_structure(seg),
    ensures
        BasicDataType::spec_parse(seg) == Ok::<nat, ParseError>(seg.len()),
{
}

/// Bytes too short to hold a structure do not decode as one.
pub proof fn lemma_short_tail_fails(t: Seq<u8>)
    requires
        short_tail(t),
    ensures
        BasicDataType::spec_parse(t) is Err,
{
}

/// Whatever holds the decoding of a repetition has one structure per step of
/// `ad_count`: the records that store such a decoding hold `ad_count` of
/// their buffer.
pub proof fn lemma_sequence_length(v: Seq<BasicDataType>, s: Seq<u8>)
    requires
        ad_sequence(v, s),
    ensures
        v.len() == ad_count(s),
    decreases s.len(),
{
    if let Ok(n) = BasicDataType::spec_parse(s) {
        if 0 < n <= s.len() {
            lemma_sequence_length(v.drop_first(), s.subrange(n as int, s.len() as int));
        }
    }
}

/// The byte strings of `segs`, one after the other.
pub open spec fn concat(segs: Seq<Seq<u8>>) -> Seq<u8>
    decreases segs.len(),
{
    if segs.len() == 0 {
        Seq::empty()
    } else {
        segs[0] + concat(segs.drop_first())
    }
}

/// A structure whose length byte covers exactly its bytes decodes the same
/// whatever follows it: no record reads past the payload size it is given.
pub proof fn lemma_structure_prefix(seg: Seq<u8>, rest: Seq<u8>)
    requires
        seg.len() >= 2,
        seg[0] + 1 == seg.len(),
    ensures
        BasicDataType::spec_parse(seg + rest) == BasicDataType::spec_parse(seg),
{
    let s = seg + rest;
    let len = (seg[0] - 1) as u8;
    let b = seg.subrange(2, seg.len() as int);
    let bt = s.subrange(2, s.len() as int);
    assert(bt =~= b + rest);
    assert(bt.subrange(0, len as int) =~= b.subrange(0, len as int));
    assert(BasicDataType_Data::choice(bt, seg[1], len) == BasicDataType_Data::choice(b, seg[1], len));
}

/// A run of well-formed structures followed by bytes too short to hold
/// another (none at all, say) decodes to exactly one structure per element of
/// the run; the trailing bytes are dropped without error.
pub proof fn lemma_sequence_count(segs: Seq<Seq<u8>>, tail: Seq<u8>)
    requires
        forall|j: int| 0 <= j < segs.len() ==> whole_structure(#[trigger] segs[j]),
        short_tail(tail),
    ensures
        ad_count(concat(segs) + tail) == segs.len(),
    decreases segs.len(),
{
    if segs.len() == 0 {
        assert(concat(segs) + tail =~= tail);
        lemma_short_tail_fails(tail);
    } else {
        let rest = segs.drop_first();
        assert forall|j: int| 0 <= j < rest.len() implies whole_structure(#[trigger] rest[j]) by {
            assert(rest[j] == segs[j + 1]);
        }
        lemma_sequence_count(rest, tail);
        let s = concat(segs) + tail;
        let after = concat(rest) + tail;
        assert(whole_structure(segs[0]));
        lemma_whole_structure_decodes(segs[0]);
        assert(s =~= segs[0] + after);
        lemma_structure_prefix(segs[0], after);
        assert(s.subrange(segs[0].len() as int, s.len() as int) =~= after);
    }
}

} // verus!
