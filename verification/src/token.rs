//! Access tokens and refresh tokens: how they are minted, what they carry,
//! and when a presented access token proves an identity.

use vstd::prelude::*;
use crate::errors::{
    access_denied, invalid_token, outcome, signing_failure, token_expired, token_required, AppError,
    ErrorKind, Failure,
};
use crate::models::{AuthResponse, Claims, RefreshSession, SessionView, UserRole};
use crate::outside::{
    hex_encode, jwt_decode, jwt_encode, jwt_encoded, jwt_error_text, jwt_payload, unix_now,
};

verus! {

/// Lifetime of an access token: fifteen minutes.
pub const ACCESS_TOKEN_TTL_SECS: u64 = 900;

/// Lifetime of a refresh session: thirty days.
pub const REFRESH_TOKEN_TTL_SECS: u64 = 2_592_000;

/// Number of random bytes behind a refresh token.
pub const REFRESH_TOKEN_BYTES: usize = 32;

/// The four claim fields as they were found in a token's payload, before any
/// judgement on them.
#[derive(Debug)]
pub struct TokenPayload {
    pub exp: Option<u64>,
    pub iat: Option<u64>,
    pub user_id: Option<i64>,
    pub role: Option<String>,
}

/// The mathematical content of a [`TokenPayload`].
pub struct TokenPayloadView {
    pub exp: Option<u64>,
    pub iat: Option<u64>,
    pub user_id: Option<i64>,
    pub role: Option<Seq<char>>,
}

impl View for TokenPayload {
    type V = TokenPayloadView;

    open spec fn view(&self) -> TokenPayloadView {
        TokenPayloadView {
            exp: self.exp,
            iat: self.iat,
            user_id: self.user_id,
            role: match self.role {
                Some(name) => Some(name@),
                None => None,
            },
        }
    }
}

/// The lower-case hexadecimal digit of a value below sixteen.
pub open spec fn hex_digit(nibble: int) -> char {
    seq!['0', '1', '2', '3', '4', '5', '6', '7', '8', '9', 'a', 'b', 'c', 'd', 'e', 'f'][nibble]
}

/// Lower-case hexadecimal text of a byte string: two digits per byte, the
/// high nibble first.
pub open spec fn hex_lower(bytes: Seq<u8>) -> Seq<char> {
    Seq::new(
        2 * bytes.len(),
        |i: int|
            hex_digit(
                if i % 2 == 0 {
                    bytes[i / 2] as int / 16
                } else {
                    bytes[i / 2] as int % 16
                },
            ),
    )
}

/// The payload in which all four fields are present with these values.
pub open spec fn issued_payload(exp: u64, iat: u64, user_id: i32, role: Seq<char>) -> TokenPayloadView {
    TokenPayloadView { exp: Some(exp), iat: Some(iat), user_id: Some(user_id as i64), role: Some(role) }
}

/// The claims that a payload states, if it states all of them properly: every
/// field present, the user id within `i32`, the role one of the known names.
pub open spec fn claims_of(payload: TokenPayloadView) -> Option<Claims> {
    if payload.exp is Some && payload.iat is Some && payload.user_id is Some && payload.role is Some
        && i32::MIN <= payload.user_id->0 <= i32::MAX && UserRole::named_by(payload.role->0) is Some {
        Some(
            Claims {
                exp: payload.exp->0,
                iat: payload.iat->0,
                user_id: payload.user_id->0 as i32,
                role: UserRole::named_by(payload.role->0)->0,
            },
        )
    } else {
        None
    }
}

/// The claims written into an access token minted for `user_id` at `now`.
pub open spec fn claims_issued(user_id: i32, role: UserRole, now: u64) -> Claims {
    Claims { exp: (now + ACCESS_TOKEN_TTL_SECS) as u64, iat: now, user_id, role }
}

/// Reads the claims out of a payload.
pub fn claims_from_payload(payload: &TokenPayload) -> (claims: Option<Claims>)
    ensures
        claims == claims_of(payload@),
{
    match (payload.exp, payload.iat, payload.user_id, &payload.role) {
        (Some(exp), Some(iat), Some(user_id), Some(name)) => {
            if user_id < -2147483648 || user_id > 2147483647 {
                return None;
            }
            match UserRole::from_claim(name.as_str()) {
                Some(role) => Some(Claims { exp, iat, user_id: user_id as i32, role }),
                None => None,
            }
        },
        _ => None,
    }
}

/// One of the sixteen lower-case hexadecimal digits.
pub open spec fn is_lower_hex(c: char) -> bool {
    c == '0' || c == '1' || c == '2' || c == '3' || c == '4' || c == '5' || c == '6' || c == '7'
        || c == '8' || c == '9' || c == 'a' || c == 'b' || c == 'c' || c == 'd' || c == 'e' || c
        == 'f'
}

/// The shape of every refresh token: sixty-four lower-case hexadecimal digits.
pub open spec fn is_refresh_token(text: Seq<char>) -> bool {
    text.len() == 64 && forall|i: int| 0 <= i < text.len() ==> is_lower_hex(#[trigger] text[i])
}

/// Thirty-two bytes always spell a well-shaped refresh token.
pub proof fn lemma_token_shape(bytes: Seq<u8>)
    requires
        bytes.len() == REFRESH_TOKEN_BYTES,
    ensures
        is_refresh_token(hex_lower(bytes)),
{
    assert forall|n: int| 0 <= n < 16 implies is_lower_hex(#[trigger] hex_digit(n)) by {
        assert(n == 0 || n == 1 || n == 2 || n == 3 || n == 4 || n == 5 || n == 6 || n == 7 || n
            == 8 || n == 9 || n == 10 || n == 11 || n == 12 || n == 13 || n == 14 || n == 15);
    }
    let text = hex_lower(bytes);
    assert forall|i: int| 0 <= i < text.len() implies is_lower_hex(#[trigger] text[i]) by {
        let byte = bytes[i / 2] as int;
        assert(0 <= byte / 16 < 16 && 0 <= byte % 16 < 16);
    }
}

/// What [`mint_tokens`] hands back: the pair for the caller and the session
/// row that has to be stored before the pair is released.
#[derive(Debug)]
pub struct Minted {
    pub tokens: AuthResponse,
    pub session: RefreshSession,
}

/// The exact result of minting for a user at `now` from `entropy`, given what
/// the signer answers. A token that the signer returned is known to decode,
/// under the same secret, to the claims that went into it.
pub open spec fn minted_as(
    user_id: i32,
    role: UserRole,
    now: u64,
    secret: Seq<char>,
    entropy: Seq<u8>,
    result: Result<Minted, AppError>,
) -> bool {
    let claims = claims_issued(user_id, role, now);
    match jwt_encoded(claims.exp, claims.iat, user_id, role.claim_name(), secret) {
        Some(access) => {
            &&& result matches Ok(minted)
            &&& minted.tokens.access_token@ == access
            &&& minted.tokens.refresh_token@ == hex_lower(entropy)
            &&& minted.session@ == (SessionView {
                user_id,
                refresh_token: hex_lower(entropy),
                expires_at: (now + REFRESH_TOKEN_TTL_SECS) as u64,
            })
            &&& jwt_payload(access, secret) == Some(
                issued_payload(claims.exp, claims.iat, user_id, role.claim_name()),
            )
        },
        None => result matches Err(error) && error.told() == signing_failure(),
    }
}

/// Mints an access token and a refresh token for a user.
///
/// The access token carries `iat = now`, `exp = now + 15 min`, the user's id
/// and role, signed with `secret`. The refresh token is the hexadecimal text
/// of `entropy`, and its session expires thirty days after `now`.
pub fn mint_tokens(user_id: i32, role: UserRole, now: u64, secret: &str, entropy: &Vec<u8>) -> (result:
    Result<Minted, AppError>)
    requires
        now + REFRESH_TOKEN_TTL_SECS <= u64::MAX,
    ensures
        minted_as(user_id, role, now, secret@, entropy@, result),
{
    let access_token = match jwt_encode(
        now + ACCESS_TOKEN_TTL_SECS,
        now,
        user_id,
        role.as_claim(),
        secret,
    ) {
        Ok(token) => token,
        Err(cause) => {
            return Err(AppError::from_signing(cause));
        },
    };
    let refresh_token = hex_encode(entropy);
    let session = RefreshSession {
        user_id,
        refresh_token: refresh_token.clone(),
        expires_at: now + REFRESH_TOKEN_TTL_SECS,
    };
    Ok(Minted { tokens: AuthResponse { access_token, refresh_token }, session })
}

/// The verdict on a decoded payload at time `now`: the claims it states, if
/// it states them properly and `now` is not past their expiry.
pub open spec fn judged(payload: Option<TokenPayloadView>, now: u64) -> Result<Claims, Failure> {
    match payload {
        None => Err(invalid_token()),
        Some(fields) => match claims_of(fields) {
            None => Err(invalid_token()),
            Some(claims) => if now <= claims.exp {
                Ok(claims)
            } else {
                Err(token_expired())
            },
        },
    }
}

/// The verdict on a presented bearer token, given what the decoder recovers
/// from it under `secret`.
pub open spec fn access_decision(bearer: Option<Seq<char>>, secret: Seq<char>, now: u64) -> Result<
    Claims,
    Failure,
> {
    match bearer {
        None => Err(token_required()),
        Some(token) => judged(jwt_payload(token, secret), now),
    }
}

/// The characters of an optional string slice.
pub open spec fn text_of(text: Option<&str>) -> Option<Seq<char>> {
    match text {
        Some(s) => Some(s@),
        None => None,
    }
}

/// The payload that a decoding attempt produced, if it produced one.
pub open spec fn recovered(decoded: Result<TokenPayload, jsonwebtoken::errors::Error>) -> Option<
    TokenPayloadView,
> {
    match decoded {
        Ok(payload) => Some(payload@),
        Err(_) => None,
    }
}

/// Turns the decoder's answer into an identity or a refusal.
///
/// Every failure is `Unauthorized`: a decoding error, a payload that does not
/// state all four claims properly, and an expiry before `now`.
pub fn claims_from_decoded(
    decoded: Result<TokenPayload, jsonwebtoken::errors::Error>,
    now: u64,
) -> (result: Result<Claims, AppError>)
    ensures
        outcome(result) == judged(recovered(decoded), now),
{
    let payload = match decoded {
        Ok(payload) => payload,
        Err(cause) => {
            return Err(
                AppError::caused(ErrorKind::Unauthorized, "invalid token", jwt_error_text(&cause)),
            );
        },
    };
    match claims_from_payload(&payload) {
        None => Err(AppError::new(ErrorKind::Unauthorized, "invalid token")),
        Some(claims) => {
            if now <= claims.exp {
                Ok(claims)
            } else {
                Err(AppError::new(ErrorKind::Unauthorized, "token expired"))
            }
        },
    }
}

/// Establishes who presents `bearer`, judged at time `now`.
pub fn authenticate_at(bearer: Option<&str>, secret: &str, now: u64) -> (result: Result<
    Claims,
    AppError,
>)
    ensures
        outcome(result) == access_decision(text_of(bearer), secret@, now),
{
    match bearer {
        None => Err(AppError::new(ErrorKind::Unauthorized, "authorization token required")),
        Some(token) => claims_from_decoded(jwt_decode(token, secret), now),
    }
}

/// Establishes who presents `bearer`, judged at the current time.
pub fn authenticate(bearer: Option<&str>, secret: &str) -> (result: Result<Claims, AppError>)
    ensures
        exists|now: u64|
            now + REFRESH_TOKEN_TTL_SECS <= u64::MAX && outcome(result) == #[trigger] access_decision(
                text_of(bearer),
                secret@,
                now,
            ),
{
    let now = unix_now() as u64;
    authenticate_at(bearer, secret, now)
}

/// Gates an operation by role: the caller's claims must carry `required`.
pub fn require_role(claims: &Claims, required: UserRole) -> (result: Result<(), AppError>)
    ensures
        outcome(result) == if claims.role == required {
            Ok::<(), Failure>(())
        } else {
            Err(access_denied())
        },
{
    if claims.role == required {
        Ok(())
    } else {
        Err(AppError::new(ErrorKind::Forbidden, "access denied"))
    }
}

} // verus!
