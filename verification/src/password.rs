//! Password verification against a stored salted hash.

use crate::error::PanelError;
use crate::hexcode::{hex_encode, hex_text, hex_text_is_hex, is_hex_digit};
use crate::text::same_bytes;
use vstd::prelude::*;
use vstd::utf8::{encode_utf8, is_ascii_chars, is_ascii_chars_encode_utf8};

verus! {

#[verifier::external_type_specification]
#[verifier::external_body]
pub struct ExBcryptError(bcrypt::BcryptError);

/// What `bcrypt::verify` makes of a password and a hash text: whether the
/// password matches, or nothing where the text is no bcrypt hash.
pub uninterp spec fn bcrypt_verdict(password: Seq<char>, hash: Seq<char>) -> Option<bool>;

/// The BLAKE2b digest of `data`, `nn` bytes long, under `key`, as
/// `blake2_rfc::blake2b::blake2b` computes it.
pub uninterp spec fn blake2b_hash(nn: nat, key: Seq<u8>, data: Seq<u8>) -> Seq<u8>;

/// The cost that new password hashes are made with: the lowest bcrypt
/// takes, to keep logins quick.
pub const HASH_COST: u32 = 4;

/// The decimal digit for a value below ten.
pub open spec fn decimal_digit(n: int) -> char {
    if n == 0 {
        '0'
    } else if n == 1 {
        '1'
    } else if n == 2 {
        '2'
    } else if n == 3 {
        '3'
    } else if n == 4 {
        '4'
    } else if n == 5 {
        '5'
    } else if n == 6 {
        '6'
    } else if n == 7 {
        '7'
    } else if n == 8 {
        '8'
    } else {
        '9'
    }
}

/// How a bcrypt hash text made at `cost` begins: `$2b$`, the cost in two
/// digits, `$`.
pub open spec fn hash_prefix(cost: u32) -> Seq<char> {
    seq![
        '$',
        '2',
        'b',
        '$',
        decimal_digit(cost as int / 10),
        decimal_digit(cost as int % 10),
        '$',
    ]
}

/// Whether `text` has the form of a bcrypt hash made at `cost`: sixty
/// characters, the first seven of them the prefix for that cost.
pub open spec fn made_at_cost(text: Seq<char>, cost: u32) -> bool {
    text.len() == 60 && text.subrange(0, 7) == hash_prefix(cost)
}

/// A hash made at `HASH_COST` begins with `$2b$04$`.
pub proof fn hash_cost_prefix()
    ensures
        hash_prefix(HASH_COST) == "$2b$04$"@,
{
    reveal_strlit("$2b$04$");
    assert(hash_prefix(HASH_COST) =~= "$2b$04$"@);
}

/// How many bytes the BLAKE2b digests used here have.
pub const DIGEST_BYTES: usize = 64;

/// `bcrypt::verify`: parses `hash`, hashes `password` again with the salt and
/// cost found there, and compares. The outcome depends on the two texts alone;
/// the contract names it and claims nothing else.
#[verifier::external_body]
fn bcrypt_verify(password: &str, hash: &str) -> (outcome: Result<bool, bcrypt::BcryptError>)
    ensures
        match outcome {
            Ok(matches) => bcrypt_verdict(password@, hash@) == Some(matches),
            Err(_) => bcrypt_verdict(password@, hash@) is None,
        },
{
    bcrypt::verify(password, hash)
}

/// `bcrypt::hash`: a new hash text for `password` under a salt drawn from the
/// operating system. The salt is random and drawing it can fail, so of the
/// text itself only this is claimed. It is written as `$2b$`, the cost in
/// two digits, `$`, and 53 characters of salt and hash; a cost below 4 or
/// above 31 is refused. And `bcrypt::verify` accepts the same password
/// against it, since it reads back the salt and cost that the text carries
/// and repeats the computation.
#[verifier::external_body]
fn bcrypt_hash(password: &str, cost: u32) -> (outcome: Result<String, bcrypt::BcryptError>)
    ensures
        outcome matches Ok(text) ==> bcrypt_verdict(password@, text@) == Some(true),
        outcome matches Ok(text) ==> made_at_cost(text@, cost),
        outcome is Ok ==> 4 <= cost <= 31,
{
    bcrypt::hash(password, cost)
}

/// `blake2_rfc::blake2b::blake2b`, with the digest copied out of its result.
/// The function panics unless `nn` is between 1 and 64 and the key has at most
/// 64 bytes; the digest has `nn` bytes and depends on the arguments alone.
#[verifier::external_body]
fn blake2b(nn: usize, key: &[u8], data: &[u8]) -> (digest: Vec<u8>)
    requires
        1 <= nn <= 64,
        key@.len() <= 64,
    ensures
        digest@ == blake2b_hash(nn as nat, key@, data@),
        digest@.len() == nn,
{
    blake2_rfc::blake2b::blake2b(nn, key, data).as_bytes().to_vec()
}

/// What a verification reports for each verdict of bcrypt: the verdict
/// itself, or `MalformedHash` where there is none.
pub open spec fn verification(verdict: Option<bool>) -> Result<bool, PanelError> {
    match verdict {
        Some(matches) => Ok(matches),
        None => Err(PanelError::MalformedHash),
    }
}

/// Whether `plaintext` is the password that `stored_hash` was made from.
/// A stored text that is no bcrypt hash gives `MalformedHash`, never `false`.
pub fn verify(plaintext: &str, stored_hash: &str) -> (outcome: Result<bool, PanelError>)
    ensures
        outcome == verification(bcrypt_verdict(plaintext@, stored_hash@)),
{
    match bcrypt_verify(plaintext, stored_hash) {
        Ok(matches) => Ok(matches),
        Err(_) => Err(PanelError::MalformedHash),
    }
}

/// A new salted hash of `password`, at the cost `HASH_COST`. Where it
/// succeeds, the result is a hash made at that cost, and `verify` accepts
/// `password` against it.
pub fn hash_password(password: &str) -> (outcome: Result<String, PanelError>)
    ensures
        match outcome {
            Ok(text) => bcrypt_verdict(password@, text@) == Some(true) && made_at_cost(
                text@,
                HASH_COST,
            ),
            Err(e) => e == PanelError::HashingFailed,
        },
{
    match bcrypt_hash(password, HASH_COST) {
        Ok(text) => Ok(text),
        Err(_) => Err(PanelError::HashingFailed),
    }
}

/// The hexadecimal text of a digest is plain ASCII: as bytes it is as long
/// as it is as text, two bytes for each byte of the digest.
pub proof fn hex_text_is_ascii(digest: Seq<u8>)
    ensures
        is_ascii_chars(hex_text(digest)),
        encode_utf8(hex_text(digest)).len() == 2 * digest.len(),
{
    hex_text_is_hex(digest);
    assert forall|i: int| 0 <= i < hex_text(digest).len() implies '\0' <= #[trigger] hex_text(
        digest,
    )[i] <= '\u{7f}' by {
        assert(is_hex_digit(hex_text(digest)[i]));
    }
    is_ascii_chars_encode_utf8(hex_text(digest));
}

/// Whether `hash` is the hexadecimal text of `digest`, byte for byte.
pub fn digest_matches(digest: &[u8], hash: &[u8]) -> (matches: bool)
    ensures
        matches == (hash@ == encode_utf8(hex_text(digest@))),
        hash@.len() != 2 * digest@.len() ==> !matches,
{
    proof {
        hex_text_is_ascii(digest@);
    }
    let text: String = hex_encode(digest);
    let written: &[u8] = text.as_str().as_bytes();
    same_bytes(written, hash)
}

/// Whether `hash` is the hexadecimal text of the 64-byte unkeyed BLAKE2b
/// digest of `password`. That text has 128 bytes, so a hash of any other
/// length matches no password.
pub fn check_password(password: String, hash: &[u8]) -> (matches: bool)
    ensures
        matches == (hash@ == encode_utf8(
            hex_text(blake2b_hash(DIGEST_BYTES as nat, Seq::empty(), encode_utf8(password@))),
        )),
        blake2b_hash(DIGEST_BYTES as nat, Seq::empty(), encode_utf8(password@)).len()
            == DIGEST_BYTES,
        hash@.len() != 2 * DIGEST_BYTES ==> !matches,
{
    let key: Vec<u8> = Vec::new();
    let digest: Vec<u8> = blake2b(DIGEST_BYTES, key.as_slice(), password.as_str().as_bytes());
    proof {
        hex_text_is_ascii(digest@);
    }
    digest_matches(digest.as_slice(), hash)
}

} // verus!
