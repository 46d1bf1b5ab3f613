//! Hashes of contents.

use vstd::prelude::*;

verus! {

/// The SHA-256 digest of some bytes, as `sha2::Sha256::digest` computes it.
pub uninterp spec fn sha256(bytes: Seq<u8>) -> Seq<u8>;

/// `sha2::Sha256::digest`, the digest taken as a vector. It has 32 bytes and depends on
/// the bytes alone.
#[verifier::external_body]
fn sha256_digest(bytes: &[u8]) -> (digest: Vec<u8>)
    ensures
        digest@ == sha256(bytes@),
        digest@.len() == 32,
{
    <sha2::Sha256 as sha2::Digest>::digest(bytes).to_vec()
}

/// The hexadecimal digit of a value.
pub open spec fn hex_digit(value: int) -> char {
    if value < 10 {
        (('0' as u8) + value) as char
    } else {
        (('a' as u8) + (value - 10)) as char
    }
}

/// Bytes in hexadecimal notation, two digits each.
pub open spec fn hex(bytes: Seq<u8>) -> Seq<char>
    decreases bytes.len(),
{
    if bytes.len() == 0 {
        Seq::empty()
    } else {
        hex(bytes.drop_last()).push(hex_digit(bytes.last() as int / 16)).push(
            hex_digit(bytes.last() as int % 16),
        )
    }
}

fn hex_char(value: u8) -> (digit: char)
    requires
        value < 16,
    ensures
        digit == hex_digit(value as int),
{
    if value < 10 {
        (48u8 + value) as char
    } else {
        (97u8 + (value - 10)) as char
    }
}

/// The first `count` bytes in hexadecimal notation.
fn hex_text(bytes: &Vec<u8>, count: usize) -> (text: String)
    requires
        count <= bytes@.len(),
    ensures
        text@ == hex(bytes@.take(count as int)),
{
    let mut text = String::new();
    let mut i: usize = 0;
    assert(bytes@.take(0) =~= Seq::<u8>::empty());
    while i < count
        invariant
            i <= count <= bytes@.len(),
            text@ == hex(bytes@.take(i as int)),
        decreases count - i,
    {
        let byte = bytes[i];
        text.push(hex_char(byte / 16));
        text.push(hex_char(byte % 16));
        assert(bytes@.take(i + 1).drop_last() =~= bytes@.take(i as int));
        i = i + 1;
    }
    text
}

/// The SHA-256 hash of some bytes in hexadecimal notation.
pub fn sha256_hex(bytes: &[u8]) -> (text: String)
    ensures
        text@ == hex(sha256(bytes@)),
{
    let digest = sha256_digest(bytes);
    assert(digest@.take(32) =~= digest@);
    hex_text(&digest, 32)
}

/// The first eight bytes of the SHA-256 hash of some bytes, in hexadecimal notation.
pub fn short_hash(bytes: &[u8]) -> (text: String)
    ensures
        text@ == hex(sha256(bytes@).take(8)),
{
    let digest = sha256_digest(bytes);
    hex_text(&digest, 8)
}

} // verus!
