use sha2::Digest;
use vstd::prelude::*;

verus! {

/// The SHA-256 digest (32 bytes) of a byte string.
pub uninterp spec fn sha256_digest(data: Seq<u8>) -> Seq<u8>;

/// The SHA-512 digest (64 bytes) of a byte string.
pub uninterp spec fn sha512_digest(data: Seq<u8>) -> Seq<u8>;

/// The lower-case hexadecimal digit for a number below 16.
pub open spec fn hex_digit(n: int) -> char {
    if n < 10 {
        (48 + n) as char
    } else {
        (87 + n) as char
    }
}

/// Lower-case hexadecimal text of a byte string: two digits per byte, high nibble first.
pub open spec fn lower_hex(bytes: Seq<u8>) -> Seq<char>
    decreases bytes.len(),
{
    if bytes.len() == 0 {
        Seq::empty()
    } else {
        seq![hex_digit(bytes[0] as int / 16), hex_digit(bytes[0] as int % 16)] + lower_hex(
            bytes.drop_first(),
        )
    }
}

/// Hex text is two characters per byte.
pub proof fn lemma_lower_hex_len(bytes: Seq<u8>)
    ensures
        lower_hex(bytes).len() == 2 * bytes.len(),
    decreases bytes.len(),
{
    if bytes.len() > 0 {
        lemma_lower_hex_len(bytes.drop_first());
    }
}

/// SHA-256 of `data`, computed by `sha2::Sha256::digest`.
///
/// Trusted: the result is `sha256_digest` of the input bytes, and it has 32 bytes,
/// the output size of SHA-256.
#[verifier::external_body]
pub(crate) fn sha256(data: &[u8]) -> (digest: Vec<u8>)
    ensures
        digest@ == sha256_digest(data@),
        digest@.len() == 32,
{
    sha2::Sha256::digest(data).to_vec()
}

/// SHA-512 of `data`, computed by `sha2::Sha512::digest`.
///
/// Trusted: the result is `sha512_digest` of the input bytes, and it has 64 bytes,
/// the output size of SHA-512.
#[verifier::external_body]
pub(crate) fn sha512(data: &[u8]) -> (digest: Vec<u8>)
    ensures
        digest@ == sha512_digest(data@),
        digest@.len() == 64,
{
    sha2::Sha512::digest(data).to_vec()
}

/// Lower-case hex encoding by `hex::encode`.
///
/// Trusted: `hex::encode` maps each byte to two characters of "0123456789abcdef",
/// the high nibble first, which is `lower_hex`.
#[verifier::external_body]
pub(crate) fn hex_encode(bytes: &[u8]) -> (text: String)
    ensures
        text@ == lower_hex(bytes@),
{
    hex::encode(bytes)
}

} // verus!
