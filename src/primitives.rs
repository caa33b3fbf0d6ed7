//! Calls into outside crates, each with the contract its source documents.
use hmac::{Hmac, Mac};
use rand::Rng;
use sha2::Sha256;
use vstd::prelude::*;

verus! {

/// The lowercase hexadecimal digit of a value below sixteen.
pub open spec fn hex_digit(n: int) -> char {
    if 0 <= n < 16 {
        seq!['0', '1', '2', '3', '4', '5', '6', '7', '8', '9', 'a', 'b', 'c', 'd', 'e', 'f'][n]
    } else {
        '0'
    }
}

/// Two lowercase hexadecimal digits per byte, high nibble first.
pub open spec fn hex_text(b: Seq<u8>) -> Seq<char> {
    Seq::new(
        2 * b.len(),
        |i: int|
            if i % 2 == 0 {
                hex_digit(b[i / 2] as int / 16)
            } else {
                hex_digit(b[i / 2] as int % 16)
            },
    )
}

/// Positions of the four hyphens in the 8-4-4-4-12 layout of a UUID.
pub open spec fn is_hyphen_position(i: int) -> bool {
    i == 8 || i == 13 || i == 18 || i == 23
}

/// Index among the 32 hex digits of the character at position `i` of the layout.
pub open spec fn digit_index(i: int) -> int {
    if i < 8 {
        i
    } else if i < 13 {
        i - 1
    } else if i < 18 {
        i - 2
    } else if i < 23 {
        i - 3
    } else {
        i - 4
    }
}

/// The `k`-th hex digit of `v`, most significant first.
pub open spec fn nibble(v: u128, k: int) -> int {
    ((v >> ((4 * (31 - k)) as u128)) & 15u128) as int
}

/// The hyphenated lowercase text of the UUID whose big-endian value is `v`.
pub open spec fn hyphenated_text(v: u128) -> Seq<char> {
    Seq::new(
        36,
        |i: int|
            if is_hyphen_position(i) {
                '-'
            } else {
                hex_digit(nibble(v, digit_index(i)))
            },
    )
}

pub open spec fn is_ascii_alphanumeric(c: char) -> bool {
    ('0' <= c <= '9') || ('a' <= c <= 'z') || ('A' <= c <= 'Z')
}

/// The HMAC-SHA256 tag of `message` under `key`, both taken as UTF-8 bytes.
pub uninterp spec fn hmac_sha256_of(key: Seq<char>, message: Seq<char>) -> Seq<u8>;

/// Relies on hmac's `Hmac<Sha256>` (keyed with any key length, as HMAC pads or
/// hashes the key) and sha2's `Sha256`: the 32-byte tag of the message.
#[verifier::external_body]
pub(crate) fn hmac_sha256(key: &str, message: &str) -> (r: Vec<u8>)
    ensures
        r@ == hmac_sha256_of(key@, message@),
        r@.len() == 32,
{
    let mut mac = Hmac::<Sha256>::new_from_slice(key.as_bytes()).expect("HMAC takes keys of any length");
    mac.update(message.as_bytes());
    mac.finalize().into_bytes().to_vec()
}

/// Relies on hex::encode: two lowercase digits per byte, high nibble first.
#[verifier::external_body]
pub(crate) fn hex_encode(bytes: &Vec<u8>) -> (r: String)
    ensures
        r@ == hex_text(bytes@),
{
    hex::encode(bytes)
}

/// Relies on uuid's `Uuid::from_u128` (big-endian) and its `Display`, which
/// writes the hyphenated lowercase form.
#[verifier::external_body]
pub(crate) fn uuid_text(bits: u128) -> (r: String)
    ensures
        r@ == hyphenated_text(bits),
{
    uuid::Uuid::from_u128(bits).to_string()
}

/// Relies on uuid's `Uuid::new_v4`: a fresh random version-4 UUID, as a number.
#[verifier::external_body]
pub(crate) fn random_uuid_bits() -> (r: u128) {
    uuid::Uuid::new_v4().as_u128()
}

/// Relies on rand's `Alphanumeric` distribution drawn from `thread_rng`, a
/// cryptographically secure generator: `len` characters from `[A-Za-z0-9]`.
#[verifier::external_body]
pub(crate) fn random_alphanumeric(len: usize) -> (r: String)
    ensures
        r@.len() == len,
        forall|i: int| 0 <= i < r@.len() ==> is_ascii_alphanumeric(#[trigger] r@[i]),
{
    rand::thread_rng().sample_iter(&rand::distributions::Alphanumeric).take(len).map(char::from).collect()
}

} // verus!
