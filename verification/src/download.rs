//! Verifying a downloaded patch file against its entry in the patch list.

use vstd::prelude::*;
use crate::digest::{hex_text, sha1_hex, sha1_of};
use crate::entities::PatchEntry;
use crate::text::{same_str, strings};

verus! {

/// Where block `k` of blocks of `size` bytes begins in a file of `len`
/// bytes.
pub open spec fn block_start(len: nat, size: nat, k: nat) -> nat {
    if k * size < len {
        k * size
    } else {
        len
    }
}

/// Block `k` of `data` cut into blocks of `size` bytes; the last block may
/// be shorter.
pub open spec fn block(data: Seq<u8>, size: nat, k: nat) -> Seq<u8> {
    data.subrange(
        block_start(data.len(), size, k) as int,
        block_start(data.len(), size, k + 1) as int,
    )
}

/// Whether every block that has both bytes and a hash has the digest the
/// hash names. Bytes after the last hash are not looked at.
pub open spec fn blocks_match(data: Seq<u8>, hashes: Seq<Seq<char>>, size: nat) -> bool {
    forall|k: nat|
        k < hashes.len() && k * size < data.len() ==> hex_text(
            sha1_of(#[trigger] block(data, size, k)),
        ) == hashes[k as int]
}

/// One block whose digest differs from its hash fails the file.
pub proof fn lemma_one_bad_block_fails(data: Seq<u8>, hashes: Seq<Seq<char>>, size: nat, k: nat)
    requires
        k < hashes.len(),
        k * size < data.len(),
        hex_text(sha1_of(block(data, size, k))) != hashes[k as int],
    ensures
        !blocks_match(data, hashes, size),
{
}

/// Whether the blocks of `data` have the digests that `hashes` names.
pub fn verify_file_blocks(data: &[u8], hashes: &Vec<String>, block_size: u64) -> (ok: bool)
    ensures
        ok == blocks_match(data@, strings(hashes@), block_size as nat),
{
    let len = data.len();
    let ghost size = block_size as nat;
    let mut offset: usize = 0;
    let mut k: usize = 0;
    while offset < len && k < hashes.len()
        invariant
            len == data.len(),
            size == block_size as nat,
            k <= hashes.len(),
            offset <= len,
            offset == block_start(len as nat, size, k as nat),
            forall|j: nat|
                j < k && j * size < len ==> hex_text(sha1_of(#[trigger] block(data@, size, j)))
                    == strings(hashes@)[j as int],
        decreases hashes.len() - k,
    {
        let end: usize = if block_size >= (len - offset) as u64 {
            len
        } else {
            offset + block_size as usize
        };
        proof {
            assert(k * size < len);
            assert((k + 1) * size == k * size + size) by (nonlinear_arith);
            assert(end == block_start(len as nat, size, (k + 1) as nat));
            assert(data@.subrange(offset as int, end as int) == block(data@, size, k as nat));
        }
        let actual = sha1_hex(&data[offset..end]);
        if !same_str(actual.as_str(), hashes[k].as_str()) {
            return false;
        }
        offset = end;
        k += 1;
    }
    proof {
        assert forall|j: nat|
            j < hashes.len() && j * size < len implies hex_text(
                sha1_of(#[trigger] block(data@, size, j)),
            ) == strings(hashes@)[j as int] by {
            if j >= k {
                assert(k < hashes.len());
                assert(offset == len);
                assert(k * size >= len);
                assert(j * size >= k * size) by (nonlinear_arith)
                    requires
                        j >= k,
                ;
            }
        }
    }
    true
}

/// Whether a downloaded file is the patch that `patch` describes: the file
/// is there, has the length the entry gives, and, where the entry carries
/// block hashes and a block size, its blocks have those digests.
pub open spec fn is_verified(patch: PatchEntry, file: Option<Seq<u8>>) -> bool {
    match file {
        None => false,
        Some(data) => data.len() == patch.length && match (patch.hashes, patch.hash_block_size) {
            (Some(hashes), Some(size)) => blocks_match(data, strings(hashes@), size as nat),
            _ => true,
        },
    }
}

/// Verifies a downloaded patch file; `file` holds its bytes, or nothing
/// where there is no such file.
pub fn verify_patch(patch: &PatchEntry, file: Option<&[u8]>) -> (ok: bool)
    ensures
        ok == is_verified(
            *patch,
            match file {
                Some(data) => Some(data@),
                None => None,
            },
        ),
{
    let data = match file {
        Some(data) => data,
        None => {
            return false;
        },
    };
    if data.len() as u64 != patch.length {
        return false;
    }
    match (&patch.hashes, patch.hash_block_size) {
        (Some(hashes), Some(size)) => verify_file_blocks(data, hashes, size),
        _ => true,
    }
}

/// A file with a block whose digest differs from its hash is not verified.
pub proof fn lemma_bad_block_not_verified(patch: PatchEntry, data: Seq<u8>, k: nat)
    requires
        patch.hashes is Some,
        patch.hash_block_size is Some,
        k < patch.hashes.unwrap()@.len(),
        k * patch.hash_block_size.unwrap() < data.len(),
        hex_text(sha1_of(block(data, patch.hash_block_size.unwrap() as nat, k))) != strings(
            patch.hashes.unwrap()@,
        )[k as int],
    ensures
        !is_verified(patch, Some(data)),
{
    lemma_one_bad_block_fails(
        data,
        strings(patch.hashes.unwrap()@),
        patch.hash_block_size.unwrap() as nat,
        k,
    );
}

} // verus!
