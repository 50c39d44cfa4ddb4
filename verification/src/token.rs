//! Session tokens: sixty-four random bytes, written as hexadecimal text.

use crate::hexcode::{hex_encode, hex_text, hex_text_is_hex, is_hex_digit};
use rand::Rng;
use vstd::prelude::*;

verus! {

/// How many random bytes a session token is made from.
pub const TOKEN_BYTES: usize = 64;

/// How many characters a session token has.
pub const TOKEN_CHARS: usize = 128;

/// Whether `text` is the hexadecimal text of sixty-four bytes.
pub open spec fn is_session_token(text: Seq<char>) -> bool {
    exists|bytes: Seq<u8>| bytes.len() == TOKEN_BYTES && text == #[trigger] hex_text(bytes)
}

/// A session token has 128 characters, all of them lowercase hexadecimal
/// digits.
pub proof fn session_token_shape(text: Seq<char>)
    requires
        is_session_token(text),
    ensures
        text.len() == TOKEN_CHARS,
        forall|i: int| 0 <= i < text.len() ==> is_hex_digit(#[trigger] text[i]),
{
    let bytes = choose|bytes: Seq<u8>|
        bytes.len() == TOKEN_BYTES && text == #[trigger] hex_text(bytes);
    hex_text_is_hex(bytes);
}

/// Overwrites `buffer` with random bytes from `rand::thread_rng()`, through
/// `Rng::fill`. The bytes are random, so the contract says only that the
/// buffer keeps its length.
#[verifier::external_body]
fn fill_random(buffer: &mut Vec<u8>)
    ensures
        final(buffer)@.len() == old(buffer)@.len(),
{
    rand::thread_rng().fill(&mut buffer[..]);
}

/// The token text for the given bytes.
pub fn token_text(bytes: &[u8]) -> (token: String)
    ensures
        token@ == hex_text(bytes@),
        bytes@.len() == TOKEN_BYTES ==> is_session_token(token@),
{
    hex_encode(bytes)
}

/// A fresh session token: sixty-four random bytes as 128 lowercase
/// hexadecimal digits.
pub fn new_session_token() -> (token: String)
    ensures
        is_session_token(token@),
        token@.len() == TOKEN_CHARS,
        forall|i: int| 0 <= i < token@.len() ==> is_hex_digit(#[trigger] token@[i]),
{
    let mut buffer: Vec<u8> = vec![0u8; TOKEN_BYTES];
    fill_random(&mut buffer);
    let token: String = token_text(buffer.as_slice());
    proof {
        session_token_shape(token@);
    }
    token
}

} // verus!
