//! Primitive readers shared by every record of the grammar: little-endian
//! integers, raw byte runs, repeated fixed-width elements and text fields.
use vstd::prelude::*;
use vstd::slice::{slice_subrange, slice_to_vec};

verus! {

/// Why a record could not be decoded.
#[derive(Debug, Clone, Copy, PartialEq, Eq, PartialOrd, Ord, Hash)]
pub enum ParseError {
    /// Fewer bytes remain than a field needs.
    InsufficientInput,
    /// A discriminant (type, code, key or expected length) did not hold.
    TagMismatch,
    /// Every candidate of a dispatch point without a fallback failed.
    NoMatchingVariant,
    /// A text field is not valid UTF-8, or lacks its terminating NUL.
    InvalidEncoding,
    /// A declared length is too small for the fields it must cover.
    LengthMismatch,
}

/// The little-endian `u16` at `s[at..at + 2]`.
pub open spec fn le16(s: Seq<u8>, at: int) -> u16 {
    (s[at] + 256 * s[at + 1]) as u16
}

/// The little-endian `u32` at `s[at..at + 4]`.
pub open spec fn le32(s: Seq<u8>, at: int) -> u32 {
    (s[at] + 256 * s[at + 1] + 65536 * s[at + 2] + 16777216 * s[at + 3]) as u32
}

/// The byte `b` read as a two's-complement signed number.
pub open spec fn signed(b: u8) -> int {
    if b < 128 {
        b as int
    } else {
        b - 256
    }
}

/// Outcome of a record that needs exactly `n` bytes and checks nothing else.
pub open spec fn sized(s: Seq<u8>, n: nat) -> Result<nat, ParseError> {
    if s.len() < n {
        Err(ParseError::InsufficientInput)
    } else {
        Ok(n)
    }
}

/// Outcome of a record selected by `code == expected` that reads `n` bytes.
pub open spec fn tagged(code: u8, expected: u8, s: Seq<u8>, n: nat) -> Result<nat, ParseError> {
    if code != expected {
        Err(ParseError::TagMismatch)
    } else {
        sized(s, n)
    }
}

/// `r` agrees with `expected`: the same error, or success leaving exactly the
/// bytes after the first `n`.
pub open spec fn parsed<T>(
    s: Seq<u8>,
    r: Result<(&[u8], T), ParseError>,
    expected: Result<nat, ParseError>,
) -> bool {
    match (r, expected) {
        (Ok((rest, _)), Ok(n)) => n <= s.len() && rest@ == s.subrange(n as int, s.len() as int),
        (Err(e), Err(f)) => e == f,
        _ => false,
    }
}

/// `v` holds the `count` little-endian `u16` values that start at `s[at]`.
pub open spec fn u16_run(v: Seq<u16>, s: Seq<u8>, at: int, count: int) -> bool {
    v.len() == count && forall|j: int| 0 <= j < count ==> #[trigger] v[j] == le16(s, at + 2 * j)
}

/// `v` holds the `count` little-endian `u32` values that start at `s[at]`.
pub open spec fn u32_run(v: Seq<u32>, s: Seq<u8>, at: int, count: int) -> bool {
    v.len() == count && forall|j: int| 0 <= j < count ==> #[trigger] v[j] == le32(s, at + 4 * j)
}

/// `v` holds the `count` 16-byte blocks that start at `s[at]`.
pub open spec fn block_run(v: Seq<Vec<u8>>, s: Seq<u8>, at: int, count: int) -> bool {
    v.len() == count && forall|j: int|
        0 <= j < count ==> (#[trigger] v[j])@ == s.subrange(at + 16 * j, at + 16 * j + 16)
}

/// What `String::from_utf8` makes of a byte string: the text when the bytes
/// are valid UTF-8, else nothing.
pub uninterp spec fn utf8_text(b: Seq<u8>) -> Option<Seq<char>>;

/// Relies on `String::from_utf8`: it succeeds exactly on valid UTF-8 and its
/// text depends on the bytes alone.
#[verifier::external_body]
fn decode_utf8(b: Vec<u8>) -> (r: Option<String>)
    ensures
        match r {
            Some(t) => utf8_text(b@) == Some(t@),
            None => utf8_text(b@) is None,
        },
{
    String::from_utf8(b).ok()
}

/// `k` is the position of the first NUL byte of `s`.
pub open spec fn is_first_nul(s: Seq<u8>, k: int) -> bool {
    0 <= k < s.len() && s[k] == 0 && forall|j: int| 0 <= j < k ==> s[j] != 0
}

/// The text before the first NUL of `s`, when there is a NUL and the bytes
/// before it are valid UTF-8.
pub open spec fn nul_text(s: Seq<u8>) -> Option<Seq<char>> {
    if exists|k: int| is_first_nul(s, k) {
        utf8_text(s.subrange(0, choose|k: int| is_first_nul(s, k)))
    } else {
        None
    }
}

/// Fails with `InsufficientInput` unless `i` holds at least `n` bytes.
pub fn need(i: &[u8], n: usize) -> (r: Result<(), ParseError>)
    ensures
        match r {
            Ok(_) => i@.len() >= n,
            Err(e) => i@.len() < n && e == ParseError::InsufficientInput,
        },
{
    if i.len() < n {
        Err(ParseError::InsufficientInput)
    } else {
        Ok(())
    }
}

/// Fails with `TagMismatch` unless `tag == expected`.
pub fn expect_tag(tag: u8, expected: u8) -> (r: Result<(), ParseError>)
    ensures
        match r {
            Ok(_) => tag == expected,
            Err(e) => tag != expected && e == ParseError::TagMismatch,
        },
{
    if tag != expected {
        Err(ParseError::TagMismatch)
    } else {
        Ok(())
    }
}

/// The bytes of `i` after the first `n`.
pub fn skip<'a>(i: &'a [u8], n: usize) -> (r: &'a [u8])
    requires
        n <= i@.len(),
    ensures
        r@ == i@.subrange(n as int, i@.len() as int),
{
    slice_subrange(i, n, i.len())
}

/// The `n` bytes of `i` from `at` on, as an owned buffer.
pub fn bytes_at(i: &[u8], at: usize, n: usize) -> (r: Vec<u8>)
    requires
        at + n <= i@.len(),
    ensures
        r@ == i@.subrange(at as int, at + n),
{
    assert(at + n <= i.len());
    slice_to_vec(slice_subrange(i, at, at + n))
}

/// The little-endian `u16` at `i[at..at + 2]`.
pub fn read_u16(i: &[u8], at: usize) -> (r: u16)
    requires
        at + 2 <= i@.len(),
    ensures
        r == le16(i@, at as int),
{
    i[at] as u16 + (i[at + 1] as u16) * 256
}

/// The byte `i[at]` as a signed number.
pub fn read_i8(i: &[u8], at: usize) -> (r: i8)
    requires
        at < i@.len(),
    ensures
        r as int == signed(i@[at as int]),
{
    let b = i[at];
    if b < 128 {
        b as i8
    } else {
        (b as i16 - 256) as i8
    }
}

/// The little-endian `u32` at `i[at..at + 4]`.
pub fn read_u32(i: &[u8], at: usize) -> (r: u32)
    requires
        at + 4 <= i@.len(),
    ensures
        r == le32(i@, at as int),
{
    i[at] as u32 + (i[at + 1] as u32) * 256 + (i[at + 2] as u32) * 65536 + (i[at + 3] as u32)
        * 16777216
}

/// `count` little-endian `u16` values from `i[at]` on.
pub fn read_u16_run(i: &[u8], at: usize, count: usize) -> (r: Vec<u16>)
    requires
        at + 2 * count <= i@.len(),
    ensures
        u16_run(r@, i@, at as int, count as int),
{
    let mut r: Vec<u16> = Vec::new();
    let mut j: usize = 0;
    while j < count
        invariant
            j <= count,
            at + 2 * count <= i@.len(),
            i@.len() == i.len(),
            u16_run(r@, i@, at as int, j as int),
        decreases count - j,
    {
        r.push(read_u16(i, at + 2 * j));
        j = j + 1;
    }
    r
}

/// `count` little-endian `u32` values from `i[at]` on.
pub fn read_u32_run(i: &[u8], at: usize, count: usize) -> (r: Vec<u32>)
    requires
        at + 4 * count <= i@.len(),
    ensures
        u32_run(r@, i@, at as int, count as int),
{
    let mut r: Vec<u32> = Vec::new();
    let mut j: usize = 0;
    while j < count
        invariant
            j <= count,
            at + 4 * count <= i@.len(),
            i@.len() == i.len(),
            u32_run(r@, i@, at as int, j as int),
        decreases count - j,
    {
        r.push(read_u32(i, at + 4 * j));
        j = j + 1;
    }
    r
}

/// `count` blocks of 16 bytes from `i[at]` on.
pub fn read_block_run(i: &[u8], at: usize, count: usize) -> (r: Vec<Vec<u8>>)
    requires
        at + 16 * count <= i@.len(),
    ensures
        block_run(r@, i@, at as int, count as int),
{
    let mut r: Vec<Vec<u8>> = Vec::new();
    let mut j: usize = 0;
    while j < count
        invariant
            j <= count,
            at + 16 * count <= i@.len(),
            i@.len() == i.len(),
            block_run(r@, i@, at as int, j as int),
        decreases count - j,
    {
        r.push(bytes_at(i, at + 16 * j, 16));
        j = j + 1;
    }
    r
}

/// The `n` bytes of `i` from `at` on, decoded as UTF-8.
pub fn text_at(i: &[u8], at: usize, n: usize) -> (r: Result<String, ParseError>)
    requires
        at + n <= i@.len(),
    ensures
        match r {
            Ok(t) => utf8_text(i@.subrange(at as int, at + n)) == Some(t@),
            Err(e) => utf8_text(i@.subrange(at as int, at + n)) is None && e
                == ParseError::InvalidEncoding,
        },
{
    match decode_utf8(bytes_at(i, at, n)) {
        Some(t) => Ok(t),
        None => Err(ParseError::InvalidEncoding),
    }
}

/// The text of `b` before its first NUL.
pub fn nul_terminated_text(b: &[u8]) -> (r: Result<String, ParseError>)
    ensures
        match r {
            Ok(t) => nul_text(b@) == Some(t@),
            Err(e) => nul_text(b@) is None && e == ParseError::InvalidEncoding,
        },
{
    let mut k: usize = 0;
    while k < b.len()
        invariant
            k <= b@.len(),
            forall|j: int| 0 <= j < k ==> b@[j] != 0,
        decreases b@.len() - k,
    {
        if b[k] == 0 {
            assert(is_first_nul(b@, k as int));
            assert forall|m: int| is_first_nul(b@, m) implies m == k by {
                if m < k {
                    assert(b@[m] != 0);
                } else if m > k {
                    assert(b@[k as int] != 0);
                }
            }
            return text_at(b, 0, k);
        }
        k = k + 1;
    }
    assert(!exists|m: int| is_first_nul(b@, m));
    Err(ParseError::InvalidEncoding)
}

} // verus!
