//! Encodings the pallets take from outside crates: lower-case hex
//! (rustc-hex), the SCALE encoding of an account (parity-scale-codec), and
//! UTF-8 decoding (std).

use vstd::prelude::*;
use vstd::utf8::{decode_utf8, valid_utf8};
use parity_scale_codec::Encode;
use rustc_hex::ToHex;
use crate::support::AccountId;

verus! {

/// The lower-case hex digit of a value below 16.
pub open spec fn hex_digit(n: u8) -> char {
    seq!['0', '1', '2', '3', '4', '5', '6', '7', '8', '9', 'a', 'b', 'c', 'd', 'e', 'f'][n as int]
}

/// Two lower-case hex digits per byte, high nibble first.
pub open spec fn hex_lower(bytes: Seq<u8>) -> Seq<char>
    decreases bytes.len(),
{
    if bytes.len() == 0 {
        Seq::empty()
    } else {
        hex_lower(bytes.drop_last()) + seq![hex_digit(bytes.last() / 16), hex_digit(bytes.last() % 16)]
    }
}

/// `rustc_hex::ToHex::to_hex` on a byte slice, collected into a `String`:
/// each byte becomes two characters of "0123456789abcdef", high nibble
/// first, in the order of the bytes.
#[verifier::external_body]
pub(crate) fn to_hex(bytes: &[u8]) -> (r: String)
    ensures
        r@ == hex_lower(bytes@),
{
    bytes.to_hex()
}

/// `parity_scale_codec::Encode::encode` of a 32-byte account: a fixed-size
/// byte array is encoded as its bytes, with no length prefix.
#[verifier::external_body]
pub(crate) fn encode_account(account: &AccountId) -> (r: Vec<u8>)
    ensures
        r@ == account@,
{
    account.encode()
}

/// `String::from_utf8`: the bytes as a string when they are valid UTF-8,
/// nothing otherwise.
#[verifier::external_body]
pub(crate) fn utf8_to_string(bytes: Vec<u8>) -> (r: Option<String>)
    ensures
        r is Some <==> valid_utf8(bytes@),
        r matches Some(s) ==> s@ == decode_utf8(bytes@),
{
    match String::from_utf8(bytes) {
        Ok(s) => Some(s),
        Err(_) => None,
    }
}

} // verus!
