//! Digests and checksums computed by outside crates, and their text form.

use vstd::prelude::*;
use crate::numbers::hex_char;

verus! {

/// The SHA-1 digest of a byte sequence.
pub uninterp spec fn sha1_of(data: Seq<u8>) -> Seq<u8>;

/// The CRC-32 checksum of a byte sequence.
pub uninterp spec fn crc32_of(data: Seq<u8>) -> u32;

/// Lower-case hexadecimal text of bytes: two digits for each byte, the high
/// half first.
pub open spec fn hex_text(data: Seq<u8>) -> Seq<char> {
    Seq::new(
        2 * data.len(),
        |i: int|
            if i % 2 == 0 {
                hex_char((data[i / 2] / 16) as nat)
            } else {
                hex_char((data[i / 2] % 16) as nat)
            },
    )
}

/// `sha1::Sha1::digest`: the SHA-1 digest of `data`, which has 20 bytes.
#[verifier::external_body]
pub(crate) fn sha1_digest(data: &[u8]) -> (out: Vec<u8>)
    ensures
        out@ == sha1_of(data@),
        out@.len() == 20,
{
    <sha1::Sha1 as sha1::Digest>::digest(data).to_vec()
}

/// `crc32fast::hash`: the CRC-32 checksum of `data`.
#[verifier::external_body]
pub(crate) fn crc32(data: &[u8]) -> (sum: u32)
    ensures
        sum == crc32_of(data@),
{
    crc32fast::hash(data)
}

/// `hex::encode`: each byte as two lower-case hexadecimal digits.
#[verifier::external_body]
pub(crate) fn hex_encode(data: &[u8]) -> (s: String)
    ensures
        s@ == hex_text(data@),
{
    hex::encode(data)
}

/// The SHA-1 digest of `data` as 40 hexadecimal digits.
pub fn sha1_hex(data: &[u8]) -> (s: String)
    ensures
        s@ == hex_text(sha1_of(data@)),
        s@.len() == 40,
{
    let d = sha1_digest(data);
    hex_encode(d.as_slice())
}

} // verus!
