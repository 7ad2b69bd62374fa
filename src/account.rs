use sha2::{Digest, Sha256};
use vstd::prelude::*;
use vstd::utf8::encode_utf8;

verus! {

/// The SHA-256 digest of `data`.
pub uninterp spec fn sha256_of(data: Seq<u8>) -> Seq<u8>;

/// Lower-case hexadecimal digit of a value below 16.
pub open spec fn hex_digit(n: int) -> char {
    seq!['0', '1', '2', '3', '4', '5', '6', '7', '8', '9', 'a', 'b', 'c', 'd', 'e', 'f'][n]
}

/// Lower-case hexadecimal text of `bytes`: two digits per byte, high half first.
pub open spec fn hex_of(bytes: Seq<u8>) -> Seq<char> {
    Seq::new(
        2 * bytes.len(),
        |i: int|
            if i % 2 == 0 {
                hex_digit(bytes[i / 2] as int / 16)
            } else {
                hex_digit(bytes[i / 2] as int % 16)
            },
    )
}

/// Relies on `sha2::Sha256::digest` (through `digest::Digest`): the digest
/// depends on the bytes alone.
#[verifier::external_body]
fn sha256(data: &[u8]) -> (r: Vec<u8>)
    ensures
        r@ == sha256_of(data@),
{
    Sha256::digest(data).to_vec()
}

/// Relies on `hex::encode`: two lower-case digits for each byte, high half first.
#[verifier::external_body]
fn hex_encode(bytes: &[u8]) -> (r: String)
    ensures
        r@ == hex_of(bytes@),
{
    hex::encode(bytes)
}

/// The account identifier that some endpoints ask for, from the digest of the
/// user id: its lower-case hexadecimal text.
pub fn account_id_from_digest(digest: &[u8]) -> (r: String)
    ensures
        r@ == hex_of(digest@),
{
    hex_encode(digest)
}

/// The account identifier of a user: hex of the SHA-256 digest of the UTF-8
/// bytes of the user id.
pub fn encoded_account_id(user_id: &str) -> (r: String)
    ensures
        r@ == hex_of(sha256_of(encode_utf8(user_id@))),
{
    let digest = sha256(user_id.as_bytes());
    account_id_from_digest(digest.as_slice())
}

} // verus!
