//! Randomness, hashing, Base58 encoding and the reading of token headers, provided by
//! outside crates.
use vstd::prelude::*;
use rand::TryRngCore;
use sha2::Digest;
use crate::ids::be_value;
use crate::text::split_on;

verus! {

/// The digit of a value below 58 in the Bitcoin Base58 alphabet
/// `123456789ABCDEFGHJKLMNPQRSTUVWXYZabcdefghijkmnopqrstuvwxyz`.
pub open spec fn base58_digit(v: nat) -> char {
    "123456789ABCDEFGHJKLMNPQRSTUVWXYZabcdefghijkmnopqrstuvwxyz"@[v as int]
}

/// A number in base 58, most significant digit first; zero has no digits.
pub open spec fn base58_digits(n: nat) -> Seq<char>
    decreases n,
{
    if n == 0 {
        Seq::<char>::empty()
    } else {
        base58_digits(n / 58) + seq![base58_digit(n % 58)]
    }
}

/// The number of zero bytes that open a sequence.
pub open spec fn leading_zeros(b: Seq<u8>) -> nat
    decreases b.len(),
{
    if b.len() > 0 && b[0] == 0 {
        1 + leading_zeros(b.drop_first())
    } else {
        0
    }
}

/// The Base58 encoding of bytes (Bitcoin alphabet): a `1` for each zero byte that opens
/// them, then their big-endian value in base 58.
pub open spec fn bs58_encoding(bytes: Seq<u8>) -> Seq<char> {
    Seq::new(leading_zeros(bytes), |i: int| '1') + base58_digits(be_value(bytes))
}

/// The SHA-256 digest that `sha2::Sha256::digest` computes for `data`.
pub uninterp spec fn sha256_digest(data: Seq<u8>) -> Seq<u8>;

/// A character of the Bitcoin Base58 alphabet
/// `123456789ABCDEFGHJKLMNPQRSTUVWXYZabcdefghijkmnopqrstuvwxyz`.
pub open spec fn is_base58_char(c: char) -> bool {
    ||| ('1' <= c && c <= '9')
    ||| ('A' <= c && c <= 'H')
    ||| ('J' <= c && c <= 'N')
    ||| ('P' <= c && c <= 'Z')
    ||| ('a' <= c && c <= 'k')
    ||| ('m' <= c && c <= 'z')
}

/// Calls `rand::rngs::OsRng::try_fill_bytes` on a buffer of `len` bytes. The bytes come
/// from the operating system; the contract claims only that there are `len` of them when
/// the call succeeds, and says nothing of their values.
#[verifier::external_body]
pub(crate) fn os_random_bytes(len: usize) -> (r: Option<Vec<u8>>)
    ensures
        r matches Some(bytes) ==> bytes@.len() == len,
{
    let mut buf = vec![0u8; len];
    match rand::rngs::OsRng.try_fill_bytes(&mut buf) {
        Ok(()) => Some(buf),
        Err(_) => None,
    }
}

/// Calls `bs58::encode(bytes).into_string()`, which encodes with the Bitcoin alphabet
/// (`Alphabet::DEFAULT`): one `1` per leading zero byte, then the digits of the bytes'
/// big-endian value in base 58. The contract claims that (`bs58_encoding`), and that every
/// character is drawn from the alphabet.
#[verifier::external_body]
pub(crate) fn bs58_encode(bytes: &[u8]) -> (r: String)
    ensures
        r@ == bs58_encoding(bytes@),
        forall|i: int| 0 <= i < r@.len() ==> is_base58_char(#[trigger] r@[i]),
{
    bs58::encode(bytes).into_string()
}

/// Calls `sha2::Sha256::digest(data)`. The contract names the result
/// `sha256_digest(data)` and claims its length, 32 bytes, which is fixed by the output type.
#[verifier::external_body]
pub(crate) fn sha256(data: &[u8]) -> (r: Vec<u8>)
    ensures
        r@ == sha256_digest(data@),
        r@.len() == 32,
{
    sha2::Sha256::digest(data).to_vec()
}

/// The key identifier (`kid`) that `jsonwebtoken::decode_header` reads from the header of
/// `token` (none when the header names no key), or the rendering of its error when the header
/// does not decode.
pub uninterp spec fn jwt_header_key_id(token: Seq<char>) -> Result<Option<Seq<char>>, Seq<char>>;

/// The number of parts of a token, the pieces between its dots.
pub open spec fn token_part_count(token: Seq<char>) -> nat {
    split_on(token, '.').len()
}

/// How a token without a header part is refused: with the error kind `InvalidToken`.
pub open spec fn invalid_token_refusal() -> Result<Option<Seq<char>>, Seq<char>> {
    Err("InvalidToken"@)
}

/// The text of a key identifier read from a token header, or of the error.
pub open spec fn key_id_view(r: Result<Option<String>, String>) -> Result<Option<Seq<char>>, Seq<char>> {
    match r {
        Ok(Some(k)) => Ok(Some(k@)),
        Ok(None) => Ok(None),
        Err(e) => Err(e@),
    }
}

/// Calls `jsonwebtoken::decode_header(token)` and keeps the `kid` of the header; a failure
/// is returned as its rendering (`to_string`). Decoding reads nothing but the token, so the
/// contract names the result `jwt_header_key_id(token)`. Of that result it claims one more
/// thing, which the source shows: a token with fewer than two dots has no header part, and
/// is refused with the error kind `InvalidToken`, rendered as `InvalidToken`.
#[verifier::external_body]
pub(crate) fn decode_header_key_id(token: &str) -> (r: Result<Option<String>, String>)
    ensures
        key_id_view(r) == jwt_header_key_id(token@),
        token_part_count(token@) < 3 ==> key_id_view(r) == invalid_token_refusal(),
{
    match jsonwebtoken::decode_header(token) {
        Ok(header) => Ok(header.kid),
        Err(e) => Err(e.to_string()),
    }
}

} // verus!
