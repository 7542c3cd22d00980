//! SHA-256 digests in lower-case hex, as domain blocks and canonical e-mail
//! blocks are published and looked up by.
use vstd::prelude::*;
use vstd::utf8::encode_utf8;
use sha2::Digest;

verus! {

/// The SHA-256 digest of a byte sequence.
pub uninterp spec fn sha256_of(bytes: Seq<u8>) -> Seq<u8>;

/// Calls `sha2::Sha256::digest`: a digest is always 32 bytes.
#[verifier::external_body]
fn sha256(bytes: &[u8]) -> (r: Vec<u8>)
    ensures
        r@ == sha256_of(bytes@),
        r@.len() == 32,
{
    sha2::Sha256::digest(bytes).to_vec()
}

/// A lower-case hexadecimal digit.
pub open spec fn lower_hex_digit(d: u8) -> char {
    if d < 10 {
        (48 + d) as char
    } else {
        (87 + d) as char
    }
}

/// Each byte as two lower-case hexadecimal digits, high nibble first.
pub open spec fn hex_encoded(bytes: Seq<u8>) -> Seq<char>
    decreases bytes.len(),
{
    if bytes.len() == 0 {
        Seq::empty()
    } else {
        let b = bytes.last();
        hex_encoded(bytes.drop_last()) + seq![lower_hex_digit(b / 16), lower_hex_digit(b % 16)]
    }
}

pub proof fn lemma_hex_len(bytes: Seq<u8>)
    ensures
        hex_encoded(bytes).len() == 2 * bytes.len(),
    decreases bytes.len(),
{
    if bytes.len() > 0 {
        lemma_hex_len(bytes.drop_last());
    }
}

/// Calls `hex::encode`, which writes each byte as two digits of
/// `0123456789abcdef`.
#[verifier::external_body]
fn hex_encode(bytes: &[u8]) -> (r: String)
    ensures
        r@ == hex_encoded(bytes@),
{
    hex::encode(bytes)
}

/// The lower-case hex SHA-256 of a text's UTF-8 bytes.
pub open spec fn sha256_hex_view(s: Seq<char>) -> Seq<char> {
    hex_encoded(sha256_of(encode_utf8(s)))
}

/// The lower-case hex SHA-256 of a text's UTF-8 bytes: 64 characters.
pub fn sha256_hex(s: &str) -> (r: String)
    ensures
        r@ == sha256_hex_view(s@),
        r@.len() == 64,
{
    let d = sha256(s.as_bytes());
    proof {
        lemma_hex_len(d@);
    }
    hex_encode(d.as_slice())
}

} // verus!
