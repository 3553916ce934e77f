//! The nonce-challenge digest: HMAC-SHA512 over the decimal timestamp string,
//! hex-encoded in lowercase.
//!
//! The HMAC tag itself is computed by the `hmac`/`sha2` crates and only named
//! here; the hex encoding is fully specified and the encoder is held to it.

use vstd::prelude::*;

use crate::digits::spec_dec_bytes;
use crate::digits::u64_to_dec_bytes;
use vstd::utf8::encode_utf8;

verus! {

/// The HMAC-SHA512 tag of `msg` under `key`. The tag is a pure function of
/// the two arguments; its definition (FIPS 198-1 over SHA-512) is left to the
/// `hmac` crate and is not restated here.
pub uninterp spec fn hmac_sha512_of(key: Seq<u8>, msg: Seq<u8>) -> Seq<u8>;

/// Relies on `hmac::Hmac<sha2::Sha512>` (`new_from_slice`, `update`,
/// `finalize`): the tag depends on key and message alone and is 64 bytes (the
/// SHA-512 output size). `new_from_slice` accepts keys of any length for HMAC.
#[verifier::external_body]
fn hmac_sha512(key: &[u8], msg: &[u8]) -> (r: Vec<u8>)
    ensures
        r@ == hmac_sha512_of(key@, msg@),
        r@.len() == 64,
{
    let mut mac = <hmac::Hmac<sha2::Sha512> as hmac::KeyInit>::new_from_slice(key).unwrap();
    hmac::Mac::update(&mut mac, msg);
    hmac::Mac::finalize(mac).into_bytes().to_vec()
}

/// The lowercase hex digit for a nibble value.
pub open spec fn hex_digit(v: int) -> char {
    if v == 0 {
        '0'
    } else if v == 1 {
        '1'
    } else if v == 2 {
        '2'
    } else if v == 3 {
        '3'
    } else if v == 4 {
        '4'
    } else if v == 5 {
        '5'
    } else if v == 6 {
        '6'
    } else if v == 7 {
        '7'
    } else if v == 8 {
        '8'
    } else if v == 9 {
        '9'
    } else if v == 10 {
        'a'
    } else if v == 11 {
        'b'
    } else if v == 12 {
        'c'
    } else if v == 13 {
        'd'
    } else if v == 14 {
        'e'
    } else {
        'f'
    }
}

/// Lowercase hex encoding: two digits per byte, high nibble first.
pub open spec fn spec_hex_of(s: Seq<u8>) -> Seq<char>
    decreases s.len(),
{
    if s.len() == 0 {
        Seq::empty()
    } else {
        seq![hex_digit(s.first() as int / 16), hex_digit(s.first() as int % 16)] + spec_hex_of(
            s.drop_first(),
        )
    }
}

/// Relies on `hex::encode`: every byte of the input becomes exactly two
/// lowercase hex digits, in input order, high nibble first.
#[verifier::external_body]
fn hex_lower(b: &[u8]) -> (r: String)
    ensures
        r@ == spec_hex_of(b@),
{
    hex::encode(b)
}

/// The digest ("claw") a registered client is expected to present for the
/// challenge timestamp `t`: HMAC-SHA512 of the decimal string of `t`, keyed
/// by the UTF-8 bytes of the client secret, as lowercase hex.
pub open spec fn spec_expected_claw(secret: Seq<char>, t: u64) -> Seq<char> {
    spec_hex_of(hmac_sha512_of(encode_utf8(secret), spec_dec_bytes(t as nat)))
}

/// Compute the expected challenge digest for a client secret and timestamp.
pub fn expected_claw(secret: &str, t: u64) -> (r: String)
    ensures
        r@ == spec_expected_claw(secret@, t),
{
    let msg = u64_to_dec_bytes(t);
    let tag = hmac_sha512(secret.as_bytes(), msg.as_slice());
    hex_lower(tag.as_slice())
}

} // verus!
