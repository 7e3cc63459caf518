//! Token generation, password hashing and store-error classification.

use vstd::prelude::*;
use sha3::Digest;
use vstd::string::StringSliceAdditionalSpecFns;

verus! {

/// Whether `c` is an ASCII letter.
pub open spec fn is_ascii_letter(c: char) -> bool {
    (65 <= c as u32 && c as u32 <= 90) || (97 <= c as u32 && c as u32 <= 122)
}

/// Relies on `String::from_utf8`: ASCII bytes decode to the string of
/// exactly those characters.
#[verifier::external_body]
pub(crate) fn ascii_bytes_to_string(bytes: Vec<u8>) -> (r: String)
    requires
        forall|i: int| 0 <= i < bytes@.len() ==> bytes@[i] < 128,
    ensures
        r@.len() == bytes@.len(),
        forall|i: int| 0 <= i < bytes@.len() ==> r@[i] == bytes@[i] as char,
{
    String::from_utf8(bytes).unwrap_or_default()
}

/// Relies on `rand::rng` and `rand::Rng::random_range`: the drawn number
/// lies in the half-open range. Nothing else is promised of a random draw.
#[verifier::external_body]
fn random_below(n: u32) -> (r: u32)
    requires
        n > 0,
    ensures
        r < n,
{
    let mut generator = rand::rng();
    rand::Rng::random_range(&mut generator, 0..n)
}

/// A fresh opaque bearer token: `length` ASCII letters, drawn at random.
pub fn generate_token(length: u8) -> (r: String)
    ensures
        r@.len() == length as nat,
        forall|i: int| 0 <= i < r@.len() ==> is_ascii_letter(#[trigger] r@[i]),
{
    let mut bytes: Vec<u8> = Vec::new();
    let mut k: u8 = 0;
    while k < length
        invariant
            k <= length,
            bytes@.len() == k as nat,
            forall|i: int|
                0 <= i < bytes@.len() ==> is_ascii_letter((#[trigger] bytes@[i]) as char)
                    && bytes@[i] < 128,
        decreases length - k,
    {
        let draw = random_below(52);
        let mut code: u8 = 65 + (draw as u8);
        if code >= 65 + 26 {
            code += 6;
        }
        bytes.push(code);
        k += 1;
    }
    ascii_bytes_to_string(bytes)
}

/// What `sha3::Sha3_256` digests a byte sequence to: a value of the bytes
/// alone, stated only by name.
pub uninterp spec fn sha3_256_of(input: Seq<u8>) -> Seq<u8>;

/// Relies on `sha3::Sha3_256` (through `sha3::Digest::digest`): the digest
/// is 32 bytes and depends on the input bytes alone.
#[verifier::external_body]
fn sha3_256(input: &[u8]) -> (r: Vec<u8>)
    ensures
        r@ == sha3_256_of(input@),
        r@.len() == 32,
{
    sha3::Sha3_256::digest(input).to_vec()
}

/// The lowercase hexadecimal digit of `d`.
pub open spec fn hex_digit(d: int) -> char {
    if d < 10 {
        ((48 + d) as u8) as char
    } else {
        ((87 + d) as u8) as char
    }
}

/// The lowercase hexadecimal rendering of a byte sequence: two digits per
/// byte, high nibble first.
pub open spec fn hex_of(bytes: Seq<u8>) -> Seq<char> {
    Seq::new(
        2 * bytes.len(),
        |i: int|
            if i % 2 == 0 {
                hex_digit(bytes[i / 2] as int / 16)
            } else {
                hex_digit(bytes[i / 2] as int % 16)
            },
    )
}

/// Relies on `hex::encode`: two lowercase hexadecimal digits per byte, high
/// nibble first.
#[verifier::external_body]
fn hex_encode(bytes: &[u8]) -> (r: String)
    ensures
        r@ == hex_of(bytes@),
{
    hex::encode(bytes)
}

/// The hex-rendered digest a password is stored and compared as.
pub open spec fn password_digest(password: Seq<u8>) -> Seq<char> {
    hex_of(sha3_256_of(password))
}

/// The stored digest of a password given as characters.
pub open spec fn password_digest_chars(password: Seq<char>) -> Seq<char> {
    password_digest(vstd::utf8::encode_utf8(password))
}

/// Hashes a password for storage: the hex rendering of its digest.
pub fn hash_password(password: &str) -> (r: String)
    ensures
        r@ == password_digest(password.spec_bytes()),
        r@ == password_digest_chars(password@),
{
    let digest = sha3_256(password.as_bytes());
    hex_encode(digest.as_slice())
}

/// The error code of a duplicate-key violation in the backing store.
pub open spec fn spec_duplicate_key_code() -> Seq<char> {
    "23505"@
}

/// True exactly when `code` is the backing store's duplicate-key error
/// code.
pub fn is_duplicate_code(code: &String) -> (r: bool)
    ensures
        r == (code@ == spec_duplicate_key_code()),
{
    let dup: String = String::from_str("23505");
    *code == dup
}

#[verifier::external_type_specification]
#[verifier::external_body]
pub struct ExSqlxError(sqlx::Error);

/// Relies on `sqlx::Error::Database` and
/// `sqlx::postgres::PgDatabaseError::code`: the SQLSTATE code of a
/// database-side error, when the error is one. The code depends on the
/// store's answer, so nothing is promised of it.
#[verifier::external_body]
fn pg_error_code(err: &sqlx::Error) -> (r: Option<String>)
{
    if let sqlx::Error::Database(db_err) = err {
        if let Some(pg_err) = db_err.try_downcast_ref::<sqlx::postgres::PgDatabaseError>() {
            return Some(pg_err.code().to_string());
        }
    }
    None
}

/// Whether a store error reports a duplicate-key violation.
pub fn is_duplicated_error(err: &sqlx::Error) -> (r: bool)
{
    match pg_error_code(err) {
        Some(code) => is_duplicate_code(&code),
        None => false,
    }
}

} // verus!
