//! Everything the core takes on trust from other crates.
//!
//! Each function here only makes one outside call and converts its
//! arguments and result; its contract is believed, not proved.

use vstd::prelude::*;
use jsonwebtoken::{decode, encode, DecodingKey, EncodingKey, Header, Validation};
use serde_json::Value;
use crate::token::{hex_lower, issued_payload, TokenPayload, TokenPayloadView};

verus! {

#[verifier::external_type_specification]
#[verifier::external_body]
pub struct ExBcryptError(bcrypt::BcryptError);

#[verifier::external_type_specification]
#[verifier::external_body]
pub struct ExJwtError(jsonwebtoken::errors::Error);

/// What `bcrypt::verify` answers for a password and a stored hash:
/// `Some(matches)`, or `None` where it rejects the hash as malformed.
pub uninterp spec fn bcrypt_verdict(password: Seq<char>, hash: Seq<char>) -> Option<bool>;

/// The compact token that `jsonwebtoken::encode` produces, under the default
/// header, for a payload of these four fields signed with `secret`; `None`
/// where it reports an error.
pub uninterp spec fn jwt_encoded(
    exp: u64,
    iat: u64,
    user_id: i32,
    role: Seq<char>,
    secret: Seq<char>,
) -> Option<Seq<char>>;

/// The payload that `jsonwebtoken::decode` recovers from `token` when it
/// checks shape, algorithm and signature against `secret` and leaves the
/// expiry to the caller; `None` where it reports an error.
pub uninterp spec fn jwt_payload(token: Seq<char>, secret: Seq<char>) -> Option<TokenPayloadView>;

/// The shape of what `bcrypt::hash` returns at the default cost: sixty
/// characters that begin with the version `2b` and the cost `12`.
pub open spec fn is_bcrypt_hash(hash: Seq<char>) -> bool {
    hash.len() == 60 && hash.subrange(0, 7) == "$2b$12$"@
}

/// `bcrypt::hash` at the default cost. The salt is drawn at random, so the
/// hash itself is not determined. What is claimed is its shape, as the crate
/// formats it (version, cost, 22 characters of salt, 31 of digest), and the
/// crate's documented round trip: a hash it returns verifies against the
/// password it was made from.
#[verifier::external_body]
pub(crate) fn bcrypt_hash(password: &str) -> (r: Result<String, bcrypt::BcryptError>)
    ensures
        r matches Ok(h) ==> is_bcrypt_hash(h@),
        r matches Ok(h) ==> bcrypt_verdict(password@, h@) == Some(true),
{
    bcrypt::hash(password, bcrypt::DEFAULT_COST)
}

/// `bcrypt::verify`: its answer is a function of the password and the hash.
#[verifier::external_body]
pub(crate) fn bcrypt_verify(password: &str, hash: &str) -> (r: Result<bool, bcrypt::BcryptError>)
    ensures
        match r {
            Ok(matches) => bcrypt_verdict(password@, hash@) == Some(matches),
            Err(_) => bcrypt_verdict(password@, hash@) is None,
        },
{
    bcrypt::verify(password, hash)
}

/// `jsonwebtoken::encode` with the default header (HS256) over a JSON object
/// of the four claim fields. Besides naming the result, the contract claims
/// the crate's round trip: a token it returns decodes, under the same secret,
/// to the payload that went in.
#[verifier::external_body]
pub(crate) fn jwt_encode(exp: u64, iat: u64, user_id: i32, role: &str, secret: &str) -> (r: Result<
    String,
    jsonwebtoken::errors::Error,
>)
    ensures
        match r {
            Ok(token) => jwt_encoded(exp, iat, user_id, role@, secret@) == Some(token@),
            Err(_) => jwt_encoded(exp, iat, user_id, role@, secret@) is None,
        },
        r matches Ok(token) ==> jwt_payload(token@, secret@) == Some(
            issued_payload(exp, iat, user_id, role@),
        ),
{
    let mut claims = serde_json::Map::new();
    claims.insert("exp".to_owned(), Value::from(exp));
    claims.insert("iat".to_owned(), Value::from(iat));
    claims.insert("user_id".to_owned(), Value::from(user_id));
    claims.insert("role".to_owned(), Value::from(role));
    encode(&Header::default(), &claims, &EncodingKey::from_secret(secret.as_bytes()))
}

/// `jsonwebtoken::decode` under the default validation (HS256, `exp`
/// required) with the expiry check switched off, so that the answer depends
/// on the token and the secret alone. The four claim fields are handed out as
/// they stand in the payload: absent, or of another JSON type, gives `None`.
#[verifier::external_body]
pub(crate) fn jwt_decode(token: &str, secret: &str) -> (r: Result<
    TokenPayload,
    jsonwebtoken::errors::Error,
>)
    ensures
        match r {
            Ok(payload) => jwt_payload(token@, secret@) == Some(payload@),
            Err(_) => jwt_payload(token@, secret@) is None,
        },
{
    let mut validation = Validation::default();
    validation.validate_exp = false;
    let key = DecodingKey::from_secret(secret.as_bytes());
    let claims = decode::<Value>(token, &key, &validation)?.claims;
    Ok(TokenPayload {
        exp: claims.get("exp").and_then(Value::as_u64),
        iat: claims.get("iat").and_then(Value::as_u64),
        user_id: claims.get("user_id").and_then(Value::as_i64),
        role: claims.get("role").and_then(Value::as_str).map(str::to_owned),
    })
}

/// The `Debug` text of a `jsonwebtoken` error, for the log. Nothing is
/// claimed of it.
#[verifier::external_body]
pub(crate) fn jwt_error_text(cause: &jsonwebtoken::errors::Error) -> (text: String) {
    format!("{:?}", cause)
}

/// The `Debug` text of a `bcrypt` error, for the log. Nothing is claimed of
/// it.
#[verifier::external_body]
pub(crate) fn bcrypt_error_text(cause: &bcrypt::BcryptError) -> (text: String) {
    format!("{:?}", cause)
}

/// `hex::encode`: two lower-case hexadecimal digits per byte, high nibble
/// first.
#[verifier::external_body]
pub(crate) fn hex_encode(bytes: &Vec<u8>) -> (text: String)
    ensures
        text@ == hex_lower(bytes@),
{
    hex::encode(bytes)
}

/// `rand::thread_rng().fill_bytes(..)` on a fresh buffer of `len` bytes.
/// Nothing is claimed of the bytes but their number. The generator panics
/// where the operating system cannot seed it.
#[verifier::external_body]
pub(crate) fn random_bytes(len: usize) -> (bytes: Vec<u8>)
    ensures
        bytes@.len() == len,
{
    let mut bytes = vec![0u8; len];
    rand::RngCore::fill_bytes(&mut rand::thread_rng(), &mut bytes);
    bytes
}

/// `chrono::Utc::now().timestamp()`: seconds since the Unix epoch. chrono
/// panics rather than return a time before the epoch, so the reading is not
/// negative.
#[verifier::external_body]
pub(crate) fn unix_now() -> (seconds: i64)
    ensures
        seconds >= 0,
{
    chrono::Utc::now().timestamp()
}

} // verus!
