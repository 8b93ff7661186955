//! Content hashes: SHA-256 of the UTF-8 text, as lowercase hexadecimal.
use vstd::prelude::*;
use vstd::utf8::encode_utf8;
use sha2::Digest;

verus! {

/// The SHA-256 digest of `data`, as `sha2::Sha256` computes it.
pub uninterp spec fn spec_sha256(data: Seq<u8>) -> Seq<u8>;

/// `sha2::Sha256::digest`: the 32-byte SHA-256 digest of `data`.  The
/// contract claims only that the digest is a function of the bytes and has 32
/// bytes, as the crate's output size says.
#[verifier::external_body]
fn sha256(data: &[u8]) -> (r: Vec<u8>)
    ensures
        r@ == spec_sha256(data@),
        r@.len() == 32,
{
    sha2::Sha256::digest(data).to_vec()
}

/// The lowercase hexadecimal digit for `n` (below 16).
pub open spec fn hex_digit(n: u8) -> char {
    if n < 10 {
        (n + 48) as char
    } else {
        (n + 87) as char
    }
}

/// Each byte as two lowercase hexadecimal digits, high nibble first.
pub open spec fn hex_lower(b: Seq<u8>) -> Seq<char>
    decreases b.len(),
{
    if b.len() == 0 {
        Seq::empty()
    } else {
        seq![hex_digit(b[0] / 16), hex_digit(b[0] % 16)] + hex_lower(b.drop_first())
    }
}

/// `hex::encode`: each byte of `data` as two lowercase hexadecimal digits,
/// high nibble first, as the crate's documentation and its digit table show.
#[verifier::external_body]
fn hex_encode(data: &[u8]) -> (r: String)
    ensures
        r@ == hex_lower(data@),
{
    hex::encode(data)
}

/// The hash under which a text is recorded.
pub open spec fn content_hash(s: Seq<char>) -> Seq<char> {
    hex_lower(spec_sha256(encode_utf8(s)))
}

/// The SHA-256 digest of the UTF-8 bytes of `text`, in lowercase hexadecimal.
pub fn hash_text(text: &String) -> (r: String)
    ensures
        r@ == content_hash(text@),
{
    let digest = sha256(text.as_str().as_bytes());
    hex_encode(digest.as_slice())
}

} // verus!
