//! Hashing, encoding and randomness from outside crates, each behind a trusted
//! contract that says what the crate's source and documentation promise.

use vstd::prelude::*;

use base64::Engine;
use rand_core::RngCore;
use sha2::Digest;
use subtle::ConstantTimeEq;

verus! {

/// The SHA-256 digest of a byte string.
pub uninterp spec fn sha256(data: Seq<u8>) -> Seq<u8>;

/// The unpadded URL-safe base64 text of a byte string.
pub uninterp spec fn base64_url(data: Seq<u8>) -> Seq<char>;

/// Whether a text parses as a PHC password-hash string.
pub uninterp spec fn phc_hash_parses(encoded: Seq<char>) -> bool;

/// Whether Argon2 accepts `password` against the PHC string `encoded`.
pub uninterp spec fn argon2_accepts(password: Seq<u8>, encoded: Seq<char>) -> bool;

/// A character of the URL-safe base64 alphabet.
pub open spec fn is_base64_url_char(c: char) -> bool {
    ('A' <= c && c <= 'Z') || ('a' <= c && c <= 'z') || ('0' <= c && c <= '9') || c == '-' || c
        == '_'
}

/// A lower-case hexadecimal digit.
pub open spec fn is_lower_hex_char(c: char) -> bool {
    ('0' <= c && c <= '9') || ('a' <= c && c <= 'f')
}

/// Length of the unpadded base64 text of `n` bytes: four characters per three
/// bytes, and two or three for a last group of one or two bytes.
pub open spec fn base64_len(n: nat) -> nat {
    (4 * n + 2) / 3
}

/// `Sha256::digest` from `sha2`: the digest of `data`, 32 bytes long.
#[verifier::external_body]
pub(crate) fn sha256_digest(data: &[u8]) -> (r: Vec<u8>)
    ensures
        r@ == sha256(data@),
        r@.len() == 32,
{
    sha2::Sha256::digest(data).to_vec()
}

/// `URL_SAFE_NO_PAD.encode` from `base64`: the unpadded URL-safe text of `data`,
/// written in the URL-safe alphabet, with ⌈4n/3⌉ characters for `n` bytes.
#[verifier::external_body]
pub(crate) fn base64_url_encode(data: &[u8]) -> (r: String)
    ensures
        r@ == base64_url(data@),
        r@.len() == base64_len(data@.len()),
        forall|i: int| 0 <= i < r@.len() ==> is_base64_url_char(#[trigger] r@[i]),
{
    base64::engine::general_purpose::URL_SAFE_NO_PAD.encode(data)
}

/// `URL_SAFE_NO_PAD.decode` from `base64`. That engine refuses padding and
/// non-zero trailing bits, so a text decodes to `b` exactly when it is the
/// encoding of `b`; any other text is refused (`None`).
#[verifier::external_body]
pub(crate) fn base64_url_decode(text: &str) -> (r: Option<Vec<u8>>)
    ensures
        r.is_some() ==> base64_url(r.unwrap()@) == text@,
        forall|b: Seq<u8>| #[trigger] base64_url(b) == text@ ==> r.is_some() && r.unwrap()@ == b,
{
    base64::engine::general_purpose::URL_SAFE_NO_PAD.decode(text).ok()
}

/// `OsRng.try_fill_bytes` from `rand_core`: 32 bytes from the operating
/// system's generator, or `None` when the generator fails. Nothing is stated
/// of the bytes' values.
#[verifier::external_body]
pub(crate) fn random_bytes_32() -> (r: Option<Vec<u8>>)
    ensures
        r matches Some(b) ==> b@.len() == 32,
{
    let mut bytes = [0u8;32];
    match rand_core::OsRng.try_fill_bytes(&mut bytes) {
        Ok(()) => Some(bytes.to_vec()),
        Err(_) => None,
    }
}

/// `Argon2::default().hash_password` from `argon2`, written as a PHC string, or
/// `None` when hashing fails. The salt is random, so the text is not pinned; as
/// the crate documents, the text parses and verifies the password it was made from.
#[verifier::external_body]
pub(crate) fn argon2_hash(password: &[u8]) -> (r: Option<String>)
    ensures
        r matches Some(h) ==> phc_hash_parses(h@) && argon2_accepts(password@, h@),
{
    match argon2::PasswordHasher::hash_password(&argon2::Argon2::default(), password) {
        Ok(hash) => Some(hash.to_string()),
        Err(_) => None,
    }
}

/// `PasswordHash::new` then `Argon2::default().verify_password` from `argon2`:
/// `None` when `encoded` is not a PHC string, else whether `password` verifies.
#[verifier::external_body]
pub(crate) fn argon2_verify(password: &[u8], encoded: &str) -> (r: Option<bool>)
    ensures
        r is Some <==> phc_hash_parses(encoded@),
        r matches Some(v) ==> v == argon2_accepts(password@, encoded@),
{
    match argon2::PasswordHash::new(encoded) {
        Ok(hash) => Some(
            argon2::PasswordVerifier::verify_password(&argon2::Argon2::default(), password, &hash).is_ok(),
        ),
        Err(_) => None,
    }
}

/// `ConstantTimeEq::ct_eq` on byte slices from `subtle`: true exactly when both
/// slices have the same length and the same bytes.
#[verifier::external_body]
pub(crate) fn constant_time_eq(a: &[u8], b: &[u8]) -> (r: bool)
    ensures
        r == (a@ == b@),
{
    bool::from(a.ct_eq(b))
}

/// The lower-case hexadecimal digit of `n`, below 16.
pub open spec fn hex_digit(n: int) -> char {
    if n < 10 {
        (48 + n) as char
    } else {
        (87 + n) as char
    }
}

/// Two lower-case hexadecimal digits per byte, the high half first.
pub open spec fn hex_text(b: Seq<u8>) -> Seq<char> {
    Seq::new(
        2 * b.len(),
        |i: int|
            hex_digit(
                if i % 2 == 0 {
                    (b[i / 2] / 16) as int
                } else {
                    (b[i / 2] % 16) as int
                },
            ),
    )
}

/// The 16 bytes of the version 7 UUID of `millis` and ten bytes `r`: the low 48
/// bits of the time, big-endian; the version 7 in the high half of byte 6 above
/// four bits of `r[0]`; `r[1]`; the variant bits `10` above six bits of `r[2]`;
/// then `r[3]` to `r[9]`.
pub open spec fn uuid_v7_bytes(millis: u64, r: Seq<u8>) -> Seq<u8> {
    seq![
        ((millis / 0x100_0000_0000u64) % 256) as u8,
        ((millis / 0x1_0000_0000u64) % 256) as u8,
        ((millis / 0x100_0000u64) % 256) as u8,
        ((millis / 0x1_0000u64) % 256) as u8,
        ((millis / 0x100u64) % 256) as u8,
        (millis % 256) as u8,
        (0x70 + r[0] % 16) as u8,
        r[1],
        (0x80 + r[2] % 64) as u8,
        r[3],
        r[4],
        r[5],
        r[6],
        r[7],
        r[8],
        r[9],
    ]
}

/// The simple text of the version 7 UUID built from a Unix time in
/// milliseconds and ten random bytes.
pub open spec fn uuid_v7_text(millis: u64, random: Seq<u8>) -> Seq<char> {
    hex_text(uuid_v7_bytes(millis, random))
}

/// The simple text of a UUID is 32 lower-case hexadecimal digits.
pub proof fn lemma_uuid_v7_text_shape(millis: u64, random: Seq<u8>)
    requires
        random.len() == 10,
    ensures
        uuid_v7_text(millis, random).len() == 32,
        forall|i: int| 0 <= i < 32 ==> is_lower_hex_char(#[trigger] uuid_v7_text(millis, random)[i]),
{
    let b = uuid_v7_bytes(millis, random);
    assert(b.len() == 16);
    assert forall|i: int| 0 <= i < 32 implies is_lower_hex_char(#[trigger] uuid_v7_text(millis, random)[i]) by {
        let n: int = if i % 2 == 0 {
            (b[i / 2] / 16) as int
        } else {
            (b[i / 2] % 16) as int
        };
        assert(0 <= n < 16);
        assert(uuid_v7_text(millis, random)[i] == hex_digit(n));
    }
}

/// `Builder::from_unix_timestamp_millis(..).into_uuid().simple()` from `uuid`:
/// the version 7 UUID of `millis` and the ten bytes of `random`, laid out as
/// `uuid_v7_bytes` states, written as 32 lower-case hexadecimal digits. The
/// builder only places bits; it never fails.
#[verifier::external_body]
pub(crate) fn uuid_v7_simple(millis: u64, random: &[u8]) -> (r: String)
    requires
        random@.len() == 10,
    ensures
        r@ == uuid_v7_text(millis, random@),
{
    let mut bytes = [0u8;10];
    bytes.copy_from_slice(random);
    uuid::Builder::from_unix_timestamp_millis(millis, &bytes).into_uuid().simple().to_string()
}

/// `SystemTime::now().duration_since(UNIX_EPOCH)` from std, in whole
/// milliseconds: `None` when the clock reads before the epoch or the count does
/// not fit in 64 bits. Nothing is stated of the value: it is the time.
#[verifier::external_body]
pub(crate) fn unix_time_millis() -> (r: Option<u64>) {
    match std::time::SystemTime::now().duration_since(std::time::UNIX_EPOCH) {
        Ok(d) => u64::try_from(d.as_millis()).ok(),
        Err(_) => None,
    }
}

} // verus!
