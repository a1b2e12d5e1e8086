//! The digest of a block: SHA-256 over the block's fields written one after
//! another, rendered as lower-case hexadecimal.

use crate::text::{decimal, hex, hex_has_two_digits_per_byte, push_decimal, push_hex};
use sha2::{Digest, Sha256};
use vstd::prelude::*;
use vstd::string::StringExecFns;
use vstd::utf8::encode_utf8;

verus! {

/// The SHA-256 digest of a byte string, as `sha2` computes it.
pub uninterp spec fn sha256(data: Seq<u8>) -> Seq<u8>;

/// Calls `sha2::Sha256::digest`. Trusted: the bytes returned are the SHA-256
/// digest of `data`, a function of `data` alone, and there are 32 of them (the
/// output size that `sha2` fixes for `Sha256`).
#[verifier::external_body]
fn sha256_digest(data: &[u8]) -> (out: Vec<u8>)
    ensures
        out@ == sha256(data@),
        out@.len() == 32,
{
    Sha256::digest(data).to_vec()
}

/// The text that is digested for a block: index, timestamp, data, nonce and
/// previous hash, in this order, the numbers in decimal, nothing in between.
pub open spec fn preimage(
    index: u64,
    timestamp: u64,
    data: Seq<char>,
    nonce: u64,
    previous_hash: Seq<char>,
) -> Seq<char> {
    decimal(index as nat) + decimal(timestamp as nat) + data + decimal(nonce as nat)
        + previous_hash
}

/// The digest of a block with these fields: the hexadecimal text of the SHA-256
/// digest of the UTF-8 bytes of `preimage`.
pub open spec fn block_hash(
    index: u64,
    timestamp: u64,
    data: Seq<char>,
    nonce: u64,
    previous_hash: Seq<char>,
) -> Seq<char> {
    hex(sha256(encode_utf8(preimage(index, timestamp, data, nonce, previous_hash))))
}

/// Computes the digest of a block's fields.
pub fn calculate_hash(
    index: u64,
    timestamp: u64,
    data: &str,
    nonce: u64,
    previous_hash: &str,
) -> (digest: String)
    ensures
        digest@ == block_hash(index, timestamp, data@, nonce, previous_hash@),
        digest@.len() == 64,
{
    let mut input: String = String::new();
    push_decimal(&mut input, index as u128);
    push_decimal(&mut input, timestamp as u128);
    input.append(data);
    push_decimal(&mut input, nonce as u128);
    input.append(previous_hash);
    assert(input@ =~= preimage(index, timestamp, data@, nonce, previous_hash@));
    let raw: Vec<u8> = sha256_digest(input.as_str().as_bytes());
    let mut digest: String = String::new();
    push_hex(&mut digest, raw.as_slice());
    assert(digest@ =~= hex(raw@));
    proof {
        hex_has_two_digits_per_byte(raw@);
    }
    digest
}

/// The digest is a function of the five fields: two digests of the same
/// fields are the same text.
pub proof fn digest_is_determined(
    first: Seq<char>,
    second: Seq<char>,
    index: u64,
    timestamp: u64,
    data: Seq<char>,
    nonce: u64,
    previous_hash: Seq<char>,
)
    requires
        first == block_hash(index, timestamp, data, nonce, previous_hash),
        second == block_hash(index, timestamp, data, nonce, previous_hash),
    ensures
        first == second,
{
}

} // verus!
