//! Content addressing: a SHA-1 digest rendered as lowercase hexadecimal.

use vstd::prelude::*;
use vstd::utf8::encode_utf8;
use crate::text::{concat_all, texts};

verus! {

/// The SHA-1 digest of a byte sequence.
pub uninterp spec fn sha1_digest(data: Seq<u8>) -> Seq<u8>;

/// The lowercase hexadecimal digit for a value below sixteen.
pub open spec fn hex_digit(nibble: int) -> char {
    if nibble < 10 {
        (48 + nibble) as char
    } else {
        (87 + nibble) as char
    }
}

/// Two lowercase hexadecimal digits per byte, high nibble first.
pub open spec fn hex_lower(bytes: Seq<u8>) -> Seq<char> {
    Seq::new(
        2 * bytes.len(),
        |i: int|
            if i % 2 == 0 {
                hex_digit(bytes[i / 2] as int / 16)
            } else {
                hex_digit(bytes[i / 2] as int % 16)
            },
    )
}

/// The identifier of a content given in parts: the hexadecimal SHA-1 digest of
/// the UTF-8 form of the parts, one after the other with nothing between them.
pub open spec fn content_hash(parts: Seq<Seq<char>>) -> Seq<char> {
    hex_lower(sha1_digest(encode_utf8(parts.flatten())))
}

/// Calls `sha1::Sha1::digest` (the `Digest` trait of the `digest` crate): a fresh
/// hasher is fed `data` and finalized. The contract names the twenty-byte output
/// `sha1_digest(data)`; nothing else is claimed of it.
#[verifier::external_body]
pub(crate) fn sha1_of(data: &[u8]) -> (out: Vec<u8>)
    ensures
        out@ == sha1_digest(data@),
{
    <sha1::Sha1 as sha1::Digest>::digest(data).to_vec()
}

/// Calls `hex::encode`: each byte becomes two characters of `0123456789abcdef`,
/// the high four bits first.
#[verifier::external_body]
pub(crate) fn hex_of(bytes: &[u8]) -> (out: String)
    ensures
        out@ == hex_lower(bytes@),
{
    hex::encode(bytes)
}

/// Hashes `parts` as one content: what the parts hold, in their order, and
/// nothing of where one part ends and the next begins.
pub fn hash_content(parts: &Vec<String>) -> (hash: String)
    ensures
        hash@ == content_hash(texts(parts@)),
{
    let content = concat_all(parts);
    let digest = sha1_of(content.as_str().as_bytes());
    hex_of(digest.as_slice())
}

} // verus!
