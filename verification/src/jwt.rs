//! Signed tokens that carry a JSON payload with the time of issue and of
//! expiry, under HS256 with a shared secret.

use crate::jwt::jwt_numeric_date::{deserialize, serialize, spec_deserialize};
use crate::text::{decimal, push_decimal};
use crate::time::{utc_now, UtcDateTime, MAX_TIMESTAMP};
use ::jsonwebtoken::{Algorithm, DecodingKey, EncodingKey, Header, Validation};
use ::serde_json::value::RawValue;
use std::collections::BTreeMap;
use vstd::prelude::*;
use vstd::string::StringExecFns;

pub use ::jsonwebtoken::errors::Error;
pub use ::jsonwebtoken::errors::ErrorKind;

pub mod jwt_numeric_date;

verus! {

/// The error type of the `jsonwebtoken` crate.
#[verifier::external_type_specification]
#[verifier::external_body]
pub struct ExTokenError(::jsonwebtoken::errors::Error);

/// The header type of the `jsonwebtoken` crate.
#[verifier::external_type_specification]
#[verifier::external_body]
pub struct ExHeader(::jsonwebtoken::Header);

/// What a token carries: the caller's payload, the instant at which the
/// token was issued and the instant at which it expires. A token holds the
/// two instants as whole seconds since the Unix epoch.
#[derive(Clone, Debug, PartialEq)]
pub struct Claims<T> {
    pub data: T,
    pub iat: UtcDateTime,
    pub exp: UtcDateTime,
}

/// A token that [`verify`] accepted: its header, carried as the token library
/// read it, and its claims with the payload as JSON text.
#[derive(Debug)]
pub struct TokenData {
    pub header: Header,
    pub claims: Claims<String>,
}

/// Why signing or verifying failed.
#[derive(Debug)]
pub enum JwtError {
    /// The token library refused: the token is malformed, its signature does
    /// not match, or it has expired.
    Token(::jsonwebtoken::errors::Error),
    /// The payload to sign is no JSON value.
    InvalidData,
    /// The claims have no member `data`.
    MissingData,
    /// The claims have no member `iat`, or it is no integer, or no second of
    /// a supported date.
    InvalidIssuedAt,
    /// The claims have no member `exp`, or it is no integer, or no second of
    /// a supported date.
    InvalidExpiresAt,
}

/// Whether a text is one JSON value, as `serde_json` reads it.
pub uninterp spec fn valid_json(text: Seq<char>) -> bool;

/// The compact HS256 token that `jsonwebtoken::encode` writes for a payload
/// given as JSON text, under the crate's default header and a secret; `None`
/// where the text is no JSON. It depends on text and secret alone.
pub uninterp spec fn hs256_token(payload: Seq<char>, key: Seq<char>) -> Option<Seq<char>>;

/// The payload, as JSON text, of a token that is well formed and carries a
/// valid HS256 signature under the secret; `None` for any other text.
pub uninterp spec fn hs256_payload(token: Seq<char>, key: Seq<char>) -> Option<Seq<char>>;

/// The JSON text of the member `name` of a JSON object, as `serde_json` reads
/// it; `None` where the text is no object or has no such member.
pub uninterp spec fn json_member(object: Seq<char>, name: Seq<char>) -> Option<Seq<char>>;

/// The integer that a JSON text stands for, as `serde_json` reads it into an
/// `i64`; `None` where it is anything else.
pub uninterp spec fn json_integer(text: Seq<char>) -> Option<i64>;

/// The claims as JSON text: an object with the members `data`, `iat` and
/// `exp`, in this order and without spaces.
pub open spec fn claims_json(data: Seq<char>, iat: int, exp: int) -> Seq<char> {
    seq!['{', '"', 'd', 'a', 't', 'a', '"', ':'] + data + seq![',', '"', 'i', 'a', 't', '"', ':']
        + decimal(iat) + seq![',', '"', 'e', 'x', 'p', '"', ':'] + decimal(exp) + seq!['}']
}

/// The date that the member `name` of the claims stands for, where it is an
/// integer and a second of a supported date.
pub open spec fn claimed_date(payload: Seq<char>, name: Seq<char>) -> Option<UtcDateTime> {
    match json_member(payload, name) {
        Some(text) => match json_integer(text) {
            Some(seconds) => spec_deserialize(seconds),
            None => None,
        },
        None => None,
    }
}

/// `claims` are what the payload of a token says.
pub open spec fn claims_of(payload: Seq<char>, claims: Claims<String>) -> bool {
    &&& json_member(payload, "data"@) == Some(claims.data@)
    &&& claimed_date(payload, "iat"@) == Some(claims.iat)
    &&& claimed_date(payload, "exp"@) == Some(claims.exp)
}

/// Why a payload yields no claims: the first of the three members that is
/// missing or unfit, or `None` where all three are in order.
pub open spec fn claims_fault(payload: Seq<char>) -> Option<JwtError> {
    if json_member(payload, "data"@) is None {
        Some(JwtError::MissingData)
    } else if claimed_date(payload, "iat"@) is None {
        Some(JwtError::InvalidIssuedAt)
    } else if claimed_date(payload, "exp"@) is None {
        Some(JwtError::InvalidExpiresAt)
    } else {
        None
    }
}

/// The token is well formed and validly signed under the secret, and
/// `claims` are what its payload says.
pub open spec fn carries(token: Seq<char>, key: Seq<char>, claims: Claims<String>) -> bool {
    match hs256_payload(token, key) {
        Some(payload) => claims_of(payload, claims),
        None => false,
    }
}

/// `error` is a way in which [`verify`] may fail on the token: the token
/// library refused it, or it is validly signed and `error` is what is wrong
/// with its claims.
pub open spec fn refused_by(token: Seq<char>, key: Seq<char>, error: JwtError) -> bool {
    error is Token || match hs256_payload(token, key) {
        Some(payload) => claims_fault(payload) == Some(error),
        None => false,
    }
}

/// Whether `symbol` is white space between the parts of a JSON text.
pub open spec fn is_json_space(symbol: char) -> bool {
    symbol == ' ' || symbol == '\n' || symbol == '\r' || symbol == '\t'
}

/// The text neither begins nor ends with white space.
pub open spec fn unpadded(text: Seq<char>) -> bool {
    text.len() > 0 ==> !is_json_space(text.first()) && !is_json_space(text.last())
}

/// The text of claims begins with a brace and ends with one, so it stands
/// without white space around it, whatever the payload.
pub proof fn lemma_claims_are_unpadded(data: Seq<char>, iat: int, exp: int)
    ensures
        unpadded(claims_json(data, iat, exp)),
{
    let text = claims_json(data, iat, exp);
    assert(text.first() == '{');
    assert(text.last() == '}');
}

/// `res` is what signing comes to for the payload `data`, where `claims` is
/// the text of the claims that hold it. The payload is refused unless it is
/// a JSON value. Then the token library is asked, which signs whatever is
/// JSON: its token is handed out, or its error where the claims are no JSON.
/// The token is validly signed under the secret and its payload is the
/// claims.
pub open spec fn hands_out(
    res: Result<String, JwtError>,
    data: Seq<char>,
    claims: Seq<char>,
    key: Seq<char>,
) -> bool {
    match res {
        Ok(token) => {
            &&& valid_json(data)
            &&& valid_json(claims)
            &&& hs256_token(claims, key) == Some(token@)
            &&& hs256_payload(token@, key) == Some(claims)
        },
        Err(JwtError::InvalidData) => !valid_json(data),
        Err(JwtError::Token(_)) => valid_json(data) && !valid_json(claims),
        Err(_) => false,
    }
}

/// `serde_json::from_str` on a text, asked only whether it reads a JSON
/// value.
#[verifier::external_body]
fn is_json(text: &str) -> (valid: bool)
    ensures
        valid == valid_json(text@),
{
    ::serde_json::from_str::<&RawValue>(text).is_ok()
}

/// `jsonwebtoken::encode` with the default header (HS256) and the secret as
/// key, on a payload handed over as raw JSON text. It fails exactly where the
/// text is no JSON: a secret of any length signs. The token holds the text
/// without the white space around it, under a signature that
/// `jsonwebtoken::decode` finds valid for the same secret.
#[verifier::external_body]
fn hs256_encode(payload: &str, key: &str) -> (res: Result<String, ::jsonwebtoken::errors::Error>)
    ensures
        res is Ok <==> valid_json(payload@),
        res is Ok <==> hs256_token(payload@, key@) is Some,
        res matches Ok(token) ==> hs256_token(payload@, key@) == Some(token@),
        res matches Ok(token) ==> unpadded(payload@) ==> hs256_payload(token@, key@) == Some(
            payload@,
        ),
{
    let claims = RawValue::from_string(payload.to_owned())?;
    ::jsonwebtoken::encode(&Header::default(), &claims, &EncodingKey::from_secret(key.as_bytes()))
}

/// `jsonwebtoken::decode` under the default HS256 validation, with the
/// payload kept as raw JSON text. It checks form and signature, and the
/// expiry against the system clock, so a token may be refused at one time and
/// not at another. What it accepts is well formed and validly signed.
#[verifier::external_body]
fn hs256_decode(token: &str, key: &str) -> (res: Result<
    (Header, String),
    ::jsonwebtoken::errors::Error,
>)
    ensures
        hs256_payload(token@, key@) is None ==> res is Err,
        res matches Ok(decoded) ==> hs256_payload(token@, key@) == Some(decoded.1@),
{
    let key = DecodingKey::from_secret(key.as_bytes());
    let validation = Validation::new(Algorithm::HS256);
    let decoded = ::jsonwebtoken::decode::<Box<RawValue>>(token, &key, &validation)?;
    Ok((decoded.header, decoded.claims.get().to_owned()))
}

/// `serde_json::from_str` into a map from member names to raw JSON, from
/// which the member `name` is taken.
#[verifier::external_body]
fn read_member(object: &str, name: &str) -> (member: Option<String>)
    ensures
        member is Some <==> json_member(object@, name@) is Some,
        member matches Some(text) ==> json_member(object@, name@) == Some(text@),
{
    let members: Option<BTreeMap<String, Box<RawValue>>> = ::serde_json::from_str(object).ok();
    members.and_then(|mut map| map.remove(name)).map(|raw| raw.get().to_owned())
}

/// `serde_json::from_str` into an `i64`.
#[verifier::external_body]
fn read_integer(text: &str) -> (value: Option<i64>)
    ensures
        value == json_integer(text@),
{
    ::serde_json::from_str::<i64>(text).ok()
}

impl<T> Claims<T> {
    /// The claims expire `lifetime` seconds after they were issued.
    pub open spec fn lasts(&self, lifetime: int) -> bool {
        &&& self.exp.secs == self.iat.secs + lifetime
        &&& self.exp.nanos == self.iat.nanos
    }

    /// Claims issued now that expire `exp` seconds from now.
    pub fn new(data: T, exp: i64) -> (claims: Claims<T>)
        requires
            exp <= i64::MAX - MAX_TIMESTAMP,
        ensures
            claims.data == data,
            claims.iat.wf(),
            claims.iat.secs >= 0,
            claims.lasts(exp as int),
    {
        Claims::issued_at(data, utc_now(), exp)
    }

    /// Claims issued at the instant `iat` that expire `lifetime` seconds
    /// later.
    pub fn issued_at(data: T, iat: UtcDateTime, lifetime: i64) -> (claims: Claims<T>)
        requires
            i64::MIN <= iat.secs + lifetime <= i64::MAX,
        ensures
            claims.data == data,
            claims.iat == iat,
            claims.lasts(lifetime as int),
    {
        let exp = UtcDateTime { secs: iat.secs + lifetime, nanos: iat.nanos };
        Claims { data, iat, exp }
    }
}

/// The claims written as JSON text. The payload is taken as it stands: it is
/// JSON text already. The two instants are written as whole seconds.
pub fn write_claims(claims: &Claims<String>) -> (text: String)
    ensures
        text@ == claims_json(claims.data@, claims.iat.secs as int, claims.exp.secs as int),
{
    proof {
        reveal_strlit("{\"data\":");
        reveal_strlit(",\"iat\":");
        reveal_strlit(",\"exp\":");
        reveal_strlit("}");
    }
    let mut text = String::from_str("{\"data\":");
    text.append(claims.data.as_str());
    text.append(",\"iat\":");
    push_decimal(&mut text, serialize(&claims.iat));
    text.append(",\"exp\":");
    push_decimal(&mut text, serialize(&claims.exp));
    text.append("}");
    text
}

/// The date that the member `name` of the claims stands for.
fn read_date(payload: &str, name: &str) -> (date: Option<UtcDateTime>)
    ensures
        date == claimed_date(payload@, name@),
{
    match read_member(payload, name) {
        Some(text) => match read_integer(text.as_str()) {
            Some(seconds) => deserialize(seconds),
            None => None,
        },
        None => None,
    }
}

/// Reads claims from the payload of a token. The payload must be a JSON
/// object with a member `data`, which is kept as JSON text, and integer
/// members `iat` and `exp` that are seconds of supported dates. Other
/// members are passed over.
pub fn read_claims(payload: &str) -> (res: Result<Claims<String>, JwtError>)
    ensures
        res is Ok <==> claims_fault(payload@) is None,
        res matches Ok(claims) ==> claims_of(payload@, claims),
        res matches Err(error) ==> claims_fault(payload@) == Some(error),
{
    let data = match read_member(payload, "data") {
        Some(data) => data,
        None => {
            return Err(JwtError::MissingData);
        },
    };
    let iat = match read_date(payload, "iat") {
        Some(iat) => iat,
        None => {
            return Err(JwtError::InvalidIssuedAt);
        },
    };
    let exp = match read_date(payload, "exp") {
        Some(exp) => exp,
        None => {
            return Err(JwtError::InvalidExpiresAt);
        },
    };
    Ok(Claims { data, iat, exp })
}

/// Signs the claims with the secret: the token for the claims written as
/// JSON. The payload must be a JSON value.
pub fn encode_claims(claims: &Claims<String>, key: &str) -> (res: Result<String, JwtError>)
    ensures
        hands_out(
            res,
            claims.data@,
            claims_json(claims.data@, claims.iat.secs as int, claims.exp.secs as int),
            key@,
        ),
{
    if !is_json(claims.data.as_str()) {
        return Err(JwtError::InvalidData);
    }
    let payload = write_claims(claims);
    proof {
        lemma_claims_are_unpadded(claims.data@, claims.iat.secs as int, claims.exp.secs as int);
    }
    match hs256_encode(payload.as_str(), key) {
        Ok(token) => Ok(token),
        Err(error) => Err(JwtError::Token(error)),
    }
}

/// A token for the payload `data`, given as JSON text, that is issued now
/// and expires `expire` seconds from now, signed with the secret `key`. It is
/// the token for some second `iat` that the clock may show. The payload must
/// be a JSON value.
pub fn sign(data: String, key: &str, expire: i64) -> (res: Result<String, JwtError>)
    requires
        expire <= i64::MAX - MAX_TIMESTAMP,
    ensures
        exists|iat: int|
            0 <= iat <= MAX_TIMESTAMP && hands_out(
                res,
                data@,
                #[trigger] claims_json(data@, iat, iat + expire),
                key@,
            ),
{
    let claims: Claims<String> = Claims::new(data, expire);
    encode_claims(&claims, key)
}

/// Checks a token against the secret and the clock and reads its claims. A
/// token that is accepted is well formed and validly signed, and the claims
/// are those of its payload.
pub fn verify(token: &str, key: &str) -> (res: Result<TokenData, JwtError>)
    ensures
        res matches Ok(decoded) ==> carries(token@, key@, decoded.claims),
        res matches Err(error) ==> refused_by(token@, key@, error),
        hs256_payload(token@, key@) is None ==> res is Err,
{
    match hs256_decode(token, key) {
        Ok((header, payload)) => match read_claims(payload.as_str()) {
            Ok(claims) => Ok(TokenData { header, claims }),
            Err(error) => Err(error),
        },
        Err(error) => Err(JwtError::Token(error)),
    }
}

} // verus!
