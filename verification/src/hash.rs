//! Digests written as lower-case hex, and password hashes with their checks.

use crate::text::{decimal_digit, hex_lower, is_hex, lemma_hex_lower_is_hex};
use ::md5::Digest;
use vstd::prelude::*;
use vstd::string::StringSliceAdditionalSpecFns;

pub use ::argon2::Error;
pub use ::bcrypt::BcryptError;

verus! {

/// The error type of the `bcrypt` crate, handed on unchanged.
#[verifier::external_type_specification]
#[verifier::external_body]
pub struct ExBcryptError(::bcrypt::BcryptError);

/// The error type of the `argon2` crate, handed on unchanged.
#[verifier::external_type_specification]
#[verifier::external_body]
pub struct ExArgon2Error(::argon2::Error);

/// The sixteen bytes of the MD5 digest of `data`, as the `md-5` crate
/// computes them.
pub uninterp spec fn md5_digest(data: Seq<u8>) -> Seq<u8>;

/// The thirty-two bytes of the BLAKE3 hash of `data`, as the `blake3` crate
/// computes them.
pub uninterp spec fn blake3_digest(data: Seq<u8>) -> Seq<u8>;

/// What [`md5`] returns for a text with the given UTF-8 bytes.
pub open spec fn spec_md5(data: Seq<u8>) -> Seq<char> {
    hex_lower(md5_digest(data))
}

/// What [`blake3`] returns for `data`.
pub open spec fn spec_blake3(data: Seq<u8>) -> Seq<char> {
    hex_lower(blake3_digest(data))
}

/// `md5::Md5` fed with `data` once and finalised: the digest depends on
/// `data` alone.
#[verifier::external_body]
fn md5_bytes(data: &[u8]) -> (digest: [u8; 16])
    ensures
        digest@ == md5_digest(data@),
{
    let mut hasher = ::md5::Md5::new();
    hasher.update(data);
    hasher.finalize().into()
}

/// `base16ct::lower::encode_string`: each byte becomes its two lower-case
/// hex digits. The crate computes the output length as twice the input's,
/// which must fit.
#[verifier::external_body]
fn encode_hex_lower(bytes: &[u8]) -> (hex: String)
    requires
        bytes@.len() <= usize::MAX / 2,
    ensures
        hex@ == hex_lower(bytes@),
{
    ::base16ct::lower::encode_string(bytes)
}

/// `blake3::hash` written out by the hash's own `to_string`, which is the
/// lower-case hex of its 32 bytes.
#[verifier::external_body]
fn blake3_hex(data: &[u8]) -> (hex: String)
    ensures
        hex@ == hex_lower(blake3_digest(data@)),
        hex@.len() == 64,
{
    ::blake3::hash(data).to_string()
}

/// The revision marker that a bcrypt hash starts with.
#[derive(Clone, Copy, Debug, PartialEq, Eq)]
pub enum Version {
    TwoA,
    TwoX,
    TwoY,
    TwoB,
}

/// The cost that [`bcrypt`] works with.
pub const DEFAULT_COST: u32 = 12;

/// The lowest cost that bcrypt accepts.
pub const MIN_COST: u32 = 4;

/// The highest cost that bcrypt accepts.
pub const MAX_COST: u32 = 31;

/// The shortest salt that Argon2 accepts, in bytes.
pub const MIN_SALT_LENGTH: usize = 8;

/// The letter that stands for a revision in a bcrypt hash.
pub open spec fn version_letter(version: Version) -> char {
    match version {
        Version::TwoA => 'a',
        Version::TwoX => 'x',
        Version::TwoY => 'y',
        Version::TwoB => 'b',
    }
}

/// How a bcrypt hash begins: `$2`, the revision letter, `$`, the cost in two
/// digits, `$`.
pub open spec fn bcrypt_prefix(version: Version, cost: u32) -> Seq<char> {
    seq![
        '$',
        '2',
        version_letter(version),
        '$',
        decimal_digit(cost as int / 10),
        decimal_digit(cost as int % 10),
        '$',
    ]
}

/// `hash` has the shape of a bcrypt hash of the given revision and cost: the
/// prefix, then 53 symbols of salt and digest.
pub open spec fn is_bcrypt_hash(hash: Seq<char>, version: Version, cost: u32) -> bool {
    &&& hash.len() == 60
    &&& hash.subrange(0, 7) == bcrypt_prefix(version, cost)
}

/// What `bcrypt::verify` makes of a password and a hash: whether they match,
/// or `None` where it rejects the hash. It depends on the two alone.
pub uninterp spec fn bcrypt_verdict(password: Seq<u8>, hash: Seq<char>) -> Option<bool>;

/// Password and salt lengths that Argon2 accepts.
pub open spec fn argon2_accepts(password: Seq<u8>, salt: Seq<u8>) -> bool {
    &&& password.len() <= u32::MAX
    &&& MIN_SALT_LENGTH <= salt.len() <= u32::MAX
}

/// The encoded Argon2id hash of a password under a salt, as
/// `argon2::hash_encoded` computes it with the crate's `owasp5` parameters.
pub uninterp spec fn argon2id_encoded(password: Seq<u8>, salt: Seq<u8>) -> Seq<char>;

/// What `argon2::verify_encoded` makes of an encoded hash and a password:
/// whether they match, or `None` where it rejects the hash. It depends on the
/// two alone.
pub uninterp spec fn argon2_verdict(encoded: Seq<char>, password: Seq<u8>) -> Option<bool>;

/// `bcrypt::hash_with_result` followed by the result's
/// `format_for_version`. The salt is random, so the hash is not fixed by the
/// arguments. A cost outside 4..=31 is refused; the random source may fail
/// on any input. A hash that comes out has the bcrypt shape for the revision
/// and cost, and `bcrypt::verify` accepts it for the same password.
#[verifier::external_body]
fn bcrypt_salted(password: &[u8], cost: u32, version: Version) -> (res: Result<
    String,
    ::bcrypt::BcryptError,
>)
    ensures
        !(MIN_COST <= cost <= MAX_COST) ==> res is Err,
        res matches Ok(hash) ==> is_bcrypt_hash(hash@, version, cost) && bcrypt_verdict(
            password@,
            hash@,
        ) == Some(true),
{
    let version = match version {
        Version::TwoA => ::bcrypt::Version::TwoA,
        Version::TwoX => ::bcrypt::Version::TwoX,
        Version::TwoY => ::bcrypt::Version::TwoY,
        Version::TwoB => ::bcrypt::Version::TwoB,
    };
    ::bcrypt::hash_with_result(password, cost).map(|parts| parts.format_for_version(version))
}

/// `bcrypt::verify`: the verdict on a password and a hash.
#[verifier::external_body]
fn bcrypt_check(password: &[u8], hash: &str) -> (res: Result<bool, ::bcrypt::BcryptError>)
    ensures
        res is Ok <==> bcrypt_verdict(password@, hash@) is Some,
        res matches Ok(matches) ==> bcrypt_verdict(password@, hash@) == Some(matches),
{
    ::bcrypt::verify(password, hash)
}

/// `argon2::hash_encoded` with `argon2::Config::owasp5()`. It fails exactly
/// on a password or salt of a length that Argon2 does not accept; otherwise
/// the encoded hash is fixed by password and salt, and
/// `argon2::verify_encoded` accepts it for the same password.
#[verifier::external_body]
fn argon2_owasp5(password: &[u8], salt: &[u8]) -> (res: Result<String, ::argon2::Error>)
    ensures
        res is Ok <==> argon2_accepts(password@, salt@),
        res matches Ok(encoded) ==> encoded@ == argon2id_encoded(password@, salt@)
            && argon2_verdict(encoded@, password@) == Some(true),
{
    ::argon2::hash_encoded(password, salt, &::argon2::Config::owasp5())
}

/// `argon2::verify_encoded`: the verdict on an encoded hash and a password.
#[verifier::external_body]
fn argon2_check(encoded: &str, password: &[u8]) -> (res: Result<bool, ::argon2::Error>)
    ensures
        res is Ok <==> argon2_verdict(encoded@, password@) is Some,
        res matches Ok(matches) ==> argon2_verdict(encoded@, password@) == Some(matches),
{
    ::argon2::verify_encoded(encoded, password)
}

/// The MD5 digest of the text's UTF-8 bytes, in lower-case hex.
pub fn md5(data: &str) -> (hex: String)
    ensures
        hex@ == spec_md5(data.spec_bytes()),
        hex@.len() == 32,
        is_hex(hex@),
{
    let digest = md5_bytes(data.as_bytes());
    proof {
        lemma_hex_lower_is_hex(digest@);
    }
    encode_hex_lower(&digest)
}

/// Reserved name; does nothing yet.
pub fn sha1() {
}

/// Reserved name; does nothing yet.
pub fn sha256() {
}

/// Reserved name; does nothing yet.
pub fn sha512() {
}

/// The BLAKE3 hash of `data`, in lower-case hex.
pub fn blake3(data: &[u8]) -> (hex: String)
    ensures
        hex@ == spec_blake3(data@),
        hex@.len() == 64,
        is_hex(hex@),
{
    proof {
        lemma_hex_lower_is_hex(blake3_digest(data@));
    }
    blake3_hex(data)
}

/// Reserved name; does nothing yet.
pub fn escrypt() {
}

/// A bcrypt hash of the password, of revision `2b` and the default cost, under
/// a fresh random salt. [`verify_bcrypt`] accepts the hash for this password.
/// An error comes only from the random source.
pub fn bcrypt(password: &str) -> (res: Result<String, ::bcrypt::BcryptError>)
    ensures
        res matches Ok(hash) ==> is_bcrypt_hash(hash@, Version::TwoB, DEFAULT_COST)
            && bcrypt_verdict(password.spec_bytes(), hash@) == Some(true),
{
    bcrypt_salted(password.as_bytes(), DEFAULT_COST, Version::TwoB)
}

/// A bcrypt hash of the password with the given cost and revision marker,
/// under a fresh random salt. A cost outside 4..=31 is an error.
/// [`verify_bcrypt`] accepts the hash for this password.
pub fn bcrypt_custom(password: &str, cost: u32, version: Version) -> (res: Result<
    String,
    ::bcrypt::BcryptError,
>)
    ensures
        !(MIN_COST <= cost <= MAX_COST) ==> res is Err,
        res matches Ok(hash) ==> is_bcrypt_hash(hash@, version, cost) && bcrypt_verdict(
            password.spec_bytes(),
            hash@,
        ) == Some(true),
{
    bcrypt_salted(password.as_bytes(), cost, version)
}

/// Whether `hash` is a bcrypt hash of `password`; an error where `hash` is
/// not a bcrypt hash at all.
pub fn verify_bcrypt(password: &str, hash: &str) -> (res: Result<bool, ::bcrypt::BcryptError>)
    ensures
        res is Ok <==> bcrypt_verdict(password.spec_bytes(), hash@) is Some,
        res matches Ok(matches) ==> bcrypt_verdict(password.spec_bytes(), hash@) == Some(matches),
{
    bcrypt_check(password.as_bytes(), hash)
}

/// Reserved name; does nothing yet.
pub fn pbkdf2() {
}

/// Reserved name; does nothing yet.
pub fn scrypt() {
}

/// The encoded Argon2id hash of the password under the salt. It fails
/// exactly when the salt is shorter than 8 bytes, or salt or password are too
/// long for Argon2. [`verify_argon2`] accepts the hash for this password.
pub fn argon2(password: &str, salt: &str) -> (res: Result<String, ::argon2::Error>)
    ensures
        res is Ok <==> argon2_accepts(password.spec_bytes(), salt.spec_bytes()),
        res matches Ok(encoded) ==> encoded@ == argon2id_encoded(
            password.spec_bytes(),
            salt.spec_bytes(),
        ) && argon2_verdict(encoded@, password.spec_bytes()) == Some(true),
{
    argon2_owasp5(password.as_bytes(), salt.as_bytes())
}

/// Whether `hash` is an encoded Argon2 hash of `password`; an error where
/// `hash` is not an encoded Argon2 hash at all.
pub fn verify_argon2(hash: &str, password: &str) -> (res: Result<bool, ::argon2::Error>)
    ensures
        res is Ok <==> argon2_verdict(hash@, password.spec_bytes()) is Some,
        res matches Ok(matches) ==> argon2_verdict(hash@, password.spec_bytes()) == Some(matches),
{
    argon2_check(hash, password.as_bytes())
}

/// Equal inputs have equal MD5 strings: the result depends on the bytes
/// alone.
pub proof fn lemma_md5_deterministic(data: Seq<u8>, other: Seq<u8>)
    requires
        data == other,
    ensures
        spec_md5(data) == spec_md5(other),
{
}

/// Equal inputs have equal BLAKE3 strings: the result depends on the bytes
/// alone.
pub proof fn lemma_blake3_deterministic(data: Seq<u8>, other: Seq<u8>)
    requires
        data == other,
    ensures
        spec_blake3(data) == spec_blake3(other),
{
}

} // verus!
