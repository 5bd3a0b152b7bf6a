//! Reading numbers and texts out of a sequence of bytes.

use vstd::prelude::*;
use crate::error::Error;
use crate::text::{drop_while, strip_trailing, string_of, chars_of};

verus! {

/// The number that bytes denote, most significant byte first.
pub open spec fn be_value(s: Seq<u8>) -> nat
    decreases s.len(),
{
    if s.len() == 0 {
        0
    } else {
        be_value(s.drop_last()) * 256 + s.last() as nat
    }
}

/// The number that the `n` bytes of `data` from `at` on denote.
pub open spec fn be_at(data: Seq<u8>, at: int, n: int) -> nat {
    be_value(data.subrange(at, at + n))
}

/// A 32-bit number read as a signed one.
pub open spec fn as_signed32(v: nat) -> int {
    if v >= 0x8000_0000 {
        v - 0x1_0000_0000
    } else {
        v as int
    }
}

pub proof fn lemma_be_value_bound(s: Seq<u8>)
    ensures
        s.len() == 1 ==> be_value(s) < 0x100,
        s.len() == 2 ==> be_value(s) < 0x1_0000,
        s.len() == 4 ==> be_value(s) < 0x1_0000_0000,
        s.len() == 8 ==> be_value(s) < 0x1_0000_0000_0000_0000,
{
    reveal_with_fuel(be_value, 9);
}

/// `byteorder::BigEndian::read_u16`: the number that the first two bytes of
/// `buf` denote, most significant byte first.
#[verifier::external_body]
fn be_read_u16(buf: &[u8]) -> (v: u16)
    requires
        buf@.len() >= 2,
    ensures
        v == be_value(buf@.take(2)),
{
    <byteorder::BigEndian as byteorder::ByteOrder>::read_u16(buf)
}

/// `byteorder::BigEndian::read_u32`: the number that the first four bytes
/// of `buf` denote, most significant byte first.
#[verifier::external_body]
fn be_read_u32(buf: &[u8]) -> (v: u32)
    requires
        buf@.len() >= 4,
    ensures
        v == be_value(buf@.take(4)),
{
    <byteorder::BigEndian as byteorder::ByteOrder>::read_u32(buf)
}

/// `byteorder::BigEndian::read_u64`: the number that the first eight bytes
/// of `buf` denote, most significant byte first.
#[verifier::external_body]
fn be_read_u64(buf: &[u8]) -> (v: u64)
    requires
        buf@.len() >= 8,
    ensures
        v == be_value(buf@.take(8)),
{
    <byteorder::BigEndian as byteorder::ByteOrder>::read_u64(buf)
}

/// `byteorder::BigEndian::read_i32`: the first four bytes of `buf` read as
/// a number, most significant byte first, in two's complement.
#[verifier::external_body]
fn be_read_i32(buf: &[u8]) -> (v: i32)
    requires
        buf@.len() >= 4,
    ensures
        v == as_signed32(be_value(buf@.take(4))),
{
    <byteorder::BigEndian as byteorder::ByteOrder>::read_i32(buf)
}

/// The characters that bytes denote in UTF-8, each run of bytes that is no
/// valid encoding read as the replacement character.
pub uninterp spec fn utf8_lossy(bytes: Seq<u8>) -> Seq<char>;

/// `String::from_utf8_lossy`: the text of `bytes`, with the replacement
/// character in place of what is not valid UTF-8. Valid UTF-8 is decoded
/// as it stands.
#[verifier::external_body]
pub(crate) fn from_utf8_lossy(bytes: &[u8]) -> (s: String)
    ensures
        s@ == utf8_lossy(bytes@),
        vstd::utf8::valid_utf8(bytes@) ==> s@ == vstd::utf8::decode_utf8(bytes@),
{
    String::from_utf8_lossy(bytes).into_owned()
}

/// The text in a field of fixed size: its bytes read as UTF-8, without the
/// zero characters it ends with.
pub open spec fn fixed_text(bytes: Seq<u8>) -> Seq<char> {
    drop_while(utf8_lossy(bytes), |c: char| c == '\0')
}

/// The text in a field of fixed size.
pub fn read_fixed_text(bytes: &[u8]) -> (s: String)
    ensures
        s@ == fixed_text(bytes@),
{
    let whole = from_utf8_lossy(bytes);
    let v = chars_of(whole.as_str());
    let t = strip_trailing(v.as_slice(), '\0');
    string_of(t.as_slice())
}

/// The failure of a read that runs past the end of the data.
pub open spec fn is_truncated(e: Error) -> bool {
    e matches Error::Io(m) && m@ == "failed to fill whole buffer"@
}

pub fn truncated() -> (e: Error)
    ensures
        is_truncated(e),
{
    Error::Io(String::from_str("failed to fill whole buffer"))
}

/// Whether `n` bytes stand in `data` from `at` on.
pub open spec fn fits(data: Seq<u8>, at: int, n: int) -> bool {
    0 <= at && at + n <= data.len()
}

/// Whether `n` bytes stand in `data` from `at` on.
pub fn has_bytes(data: &[u8], at: usize, n: usize) -> (r: bool)
    ensures
        r == fits(data@, at as int, n as int),
{
    at <= data.len() && n <= data.len() - at
}

pub(crate) fn u8_at(data: &[u8], at: usize) -> (v: u8)
    requires
        fits(data@, at as int, 1),
    ensures
        v == data@[at as int],
{
    data[at]
}

pub(crate) fn u16_at(data: &[u8], at: usize) -> (v: u16)
    requires
        fits(data@, at as int, 2),
    ensures
        v == be_at(data@, at as int, 2),
{
    let len = data.len();
    let s = &data[at..at + 2];
    assert(s@.take(2) == s@);
    be_read_u16(s)
}

pub(crate) fn u32_at(data: &[u8], at: usize) -> (v: u32)
    requires
        fits(data@, at as int, 4),
    ensures
        v == be_at(data@, at as int, 4),
{
    let len = data.len();
    let s = &data[at..at + 4];
    assert(s@.take(4) == s@);
    be_read_u32(s)
}

pub(crate) fn u64_at(data: &[u8], at: usize) -> (v: u64)
    requires
        fits(data@, at as int, 8),
    ensures
        v == be_at(data@, at as int, 8),
{
    let len = data.len();
    let s = &data[at..at + 8];
    assert(s@.take(8) == s@);
    be_read_u64(s)
}

pub(crate) fn i32_at(data: &[u8], at: usize) -> (v: i32)
    requires
        fits(data@, at as int, 4),
    ensures
        v == as_signed32(be_at(data@, at as int, 4)),
{
    let len = data.len();
    let s = &data[at..at + 4];
    assert(s@.take(4) == s@);
    be_read_i32(s)
}

/// A copy of `data[from..to]`.
pub(crate) fn copy_bytes(data: &[u8], from: usize, to: usize) -> (out: Vec<u8>)
    requires
        from <= to <= data.len(),
    ensures
        out@ == data@.subrange(from as int, to as int),
{
    let mut out: Vec<u8> = Vec::new();
    out.extend_from_slice(&data[from..to]);
    out
}

} // verus!
