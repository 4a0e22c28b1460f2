//! App identity derivation.
//!
//! The application id is derived deterministically from the byte content of
//! an application's compose specification: a SHA-256 digest of the exact
//! bytes, hex-encoded in lower case and truncated to a 40-character prefix.
//! Two byte-identical compose specifications therefore always share the
//! same application id; the id carries no information that could be
//! reversed into the compose content.

use sha2::Digest;
use vstd::prelude::*;
use vstd::string::*;

verus! {

/// The SHA-256 digest of a byte string, named but not written out: the
/// algorithm itself is trusted to the outside implementation.
pub uninterp spec fn sha256_of(data: Seq<u8>) -> Seq<u8>;

/// Relies on sha2's `Sha256`: the digest is a function of the input bytes
/// alone, and is 32 bytes long.
#[verifier::external_body]
pub fn sha256(data: &[u8]) -> (r: [u8; 32])
    ensures
        r@ == sha256_of(data@),
{
    let mut hasher = sha2::Sha256::new();
    hasher.update(data);
    hasher.finalize().into()
}

/// The lowercase hex digit of a nibble.
pub open spec fn spec_hex_digit(n: u8) -> char
    recommends
        n < 16,
{
    if n == 0 {
        '0'
    } else if n == 1 {
        '1'
    } else if n == 2 {
        '2'
    } else if n == 3 {
        '3'
    } else if n == 4 {
        '4'
    } else if n == 5 {
        '5'
    } else if n == 6 {
        '6'
    } else if n == 7 {
        '7'
    } else if n == 8 {
        '8'
    } else if n == 9 {
        '9'
    } else if n == 10 {
        'a'
    } else if n == 11 {
        'b'
    } else if n == 12 {
        'c'
    } else if n == 13 {
        'd'
    } else if n == 14 {
        'e'
    } else {
        'f'
    }
}

/// Lowercase hex encoding of a byte string: two digits per byte, high
/// nibble first.
pub open spec fn spec_hex_lower(b: Seq<u8>) -> Seq<char>
    decreases b.len(),
{
    if b.len() == 0 {
        Seq::empty()
    } else {
        seq![spec_hex_digit(b.first() / 16), spec_hex_digit(b.first() % 16)] + spec_hex_lower(
            b.drop_first(),
        )
    }
}

/// The hex encoding is twice as long as its input.
pub proof fn lemma_hex_lower_len(b: Seq<u8>)
    ensures
        spec_hex_lower(b).len() == 2 * b.len(),
    decreases b.len(),
{
    if b.len() > 0 {
        lemma_hex_lower_len(b.drop_first());
    }
}

/// Relies on hex::encode: lowercase hex, two digits per byte, high nibble
/// first, bytes in order.
#[verifier::external_body]
fn hex_encode(data: &[u8]) -> (r: String)
    ensures
        r@ == spec_hex_lower(data@),
{
    hex::encode(data)
}

/// The lowercase hex encoding of the SHA-256 digest of a string's bytes.
pub open spec fn spec_hex_sha256(s: Seq<char>) -> Seq<char> {
    spec_hex_lower(sha256_of(vstd::utf8::encode_utf8(s)))
}

/// Hex-encoded SHA-256 digest of the bytes of `data`.
pub fn hex_sha256(data: &str) -> (r: String)
    ensures
        r@ == spec_hex_sha256(data@),
        r@.len() == 64,
    {
    let digest = sha256(data.as_bytes());
    proof {
        lemma_hex_lower_len(sha256_of(data.spec_bytes()));
    }
    hex_encode(digest.as_slice())
}

/// The application id derived from the characters of a compose
/// specification: the hex SHA-256 digest truncated to its first 40
/// characters.
pub open spec fn spec_app_id(s: Seq<char>) -> Seq<char> {
    let h = spec_hex_sha256(s);
    if h.len() > 40 {
        h.subrange(0, 40)
    } else {
        h
    }
}

/// Derives the application id of a compose specification.
///
/// Deterministic and content-addressed: byte-identical compose payloads
/// always yield the same id.
pub fn app_id_of(compose_file: &str) -> (r: String)
    ensures
        r@ == spec_app_id(compose_file@),
        r@.len() == 40,
{
    let h = hex_sha256(compose_file);
    let hs = h.as_str();
    let l = hs.unicode_len();
    if l > 40 {
        hs.substring_char(0, 40).to_owned()
    } else {
        h
    }
}

/// Law: app identity is a function of the compose content — equal compose
/// payloads derive equal application ids.
pub proof fn lemma_app_id_deterministic(b1: Seq<char>, b2: Seq<char>)
    requires
        b1 == b2,
    ensures
        spec_app_id(b1) == spec_app_id(b2),
{
}

} // verus!
