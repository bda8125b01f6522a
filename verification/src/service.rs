//! The operations of the core carried out against a store in memory:
//! registration, login, issuance, refresh with rotation, and logout.
//!
//! Each operation runs its state machine to the end, so what is proved here
//! is proved of the decisions that every other store is driven by.

use vstd::prelude::*;
use crate::errors::{
    failed, hashing_failure, invalid_credentials, invalid_refresh_token, nickname_taken,
    session_expired, signing_failure, storage_failure, verification_failure, AppError,
};
use crate::flow::{
    advance_at, advanced, begin_issue, begin_login, begin_logout, begin_refresh, begin_register,
    Outcome, Step,
};
use crate::memory::MemoryStore;
use crate::models::{AuthResponse, LoginPayload, RefreshPayload, RegisterPayload, SessionView, UserRole};
use crate::outside::{bcrypt_verdict, jwt_encoded, jwt_payload, unix_now};
use crate::store::{StoreModel, StoreReply};
use crate::token::{claims_issued, is_refresh_token, issued_payload, REFRESH_TOKEN_TTL_SECS};

verus! {

/// Issuance for `user_id` at `now`, from the store `before` to the store
/// `after`.
///
/// The user is read afresh, so the token carries the role stored now. A
/// user that is gone and a signer that fails leave the store as it was. On
/// success the new session is the only change, it is stored under a token
/// that was not in use, and it expires thirty days after `now`. The one
/// failure left is a drawn token that is already in use, which the store
/// refuses; a store that holds no well-shaped token therefore always gets
/// its pair.
pub open spec fn issued(
    before: StoreModel,
    user_id: i32,
    secret: Seq<char>,
    now: u64,
    after: StoreModel,
    result: Result<AuthResponse, AppError>,
) -> bool {
    match before.user_by_id(user_id) {
        None => after =~= before && failed(result, storage_failure()),
        Some(user) => {
            let claims = claims_issued(user_id, user.role, now);
            match jwt_encoded(claims.exp, claims.iat, user_id, user.role.claim_name(), secret) {
                None => after =~= before && failed(result, signing_failure()),
                Some(access) => match result {
                    Ok(tokens) => {
                        &&& tokens.access_token@ == access
                        &&& is_refresh_token(tokens.refresh_token@)
                        &&& !before.sessions.contains_key(tokens.refresh_token@)
                        &&& after =~= before.with_session(
                            SessionView {
                                user_id,
                                refresh_token: tokens.refresh_token@,
                                expires_at: (now + REFRESH_TOKEN_TTL_SECS) as u64,
                            },
                        )
                        &&& jwt_payload(access, secret) == Some(
                            issued_payload(claims.exp, claims.iat, user_id, user.role.claim_name()),
                        )
                    },
                    Err(error) => {
                        &&& after =~= before
                        &&& error.told() == storage_failure()
                        &&& exists|token: Seq<char>|
                            is_refresh_token(token) && #[trigger] before.sessions.contains_key(
                                token,
                            )
                    },
                },
            }
        },
    }
}

/// Refresh with `refresh_token` at `now`.
///
/// A token that names no session is refused and nothing changes. A session
/// past its expiry is removed and refused. Any other session is removed
/// first, and a new pair is then issued to its owner from the store without
/// it: the presented token is spent whether or not issuance succeeds.
pub open spec fn refreshed(
    before: StoreModel,
    refresh_token: Seq<char>,
    secret: Seq<char>,
    now: u64,
    after: StoreModel,
    result: Result<AuthResponse, AppError>,
) -> bool {
    match before.session(refresh_token) {
        None => after =~= before && failed(result, invalid_refresh_token()),
        Some(lease) => if now > lease.expires_at {
            after =~= before.without_session(refresh_token) && failed(result, session_expired())
        } else {
            issued(before.without_session(refresh_token), lease.user_id, secret, now, after, result)
        },
    }
}

/// Login with a nickname and a password at `now`.
///
/// An unknown nickname and a wrong password give the same refusal; a stored
/// hash that cannot be checked is reported as such. With the right password
/// a pair is issued for the account.
pub open spec fn logged_in(
    before: StoreModel,
    nickname: Seq<char>,
    password: Seq<char>,
    secret: Seq<char>,
    now: u64,
    after: StoreModel,
    result: Result<AuthResponse, AppError>,
) -> bool {
    match before.user_by_nickname(nickname) {
        None => after =~= before && failed(result, invalid_credentials()),
        Some(user) => match bcrypt_verdict(password, user.password_hash) {
            None => after =~= before && failed(result, verification_failure()),
            Some(false) => after =~= before && failed(result, invalid_credentials()),
            Some(true) => issued(before, user.id, secret, now, after, result),
        },
    }
}

/// Registration of a nickname with a password.
///
/// A taken nickname is a conflict. Otherwise success appends one account
/// with the default role, whose stored hash verifies against the password;
/// the only failures are the hasher's and a store that has no id left.
pub open spec fn registered(
    before: StoreModel,
    nickname: Seq<char>,
    password: Seq<char>,
    after: StoreModel,
    result: Result<(), AppError>,
) -> bool {
    if before.nickname_known(nickname) {
        after =~= before && failed(result, nickname_taken())
    } else {
        match result {
            Ok(_) => {
                &&& before.admits_account(nickname)
                &&& after.sessions =~= before.sessions
                &&& after.accounts.len() == before.accounts.len() + 1
                &&& after.accounts.drop_last() =~= before.accounts
                &&& after.accounts.last().nickname == nickname
                &&& after.accounts.last().role == UserRole::User
                &&& bcrypt_verdict(password, after.accounts.last().password_hash) == Some(true)
            },
            Err(error) => {
                &&& after =~= before
                &&& error.told() == hashing_failure() || (error.told() == storage_failure()
                    && !before.admits_account(nickname))
            },
        }
    }
}

/// Logout with `refresh_token`: it always succeeds, and the session stored
/// under the token, if there was one, is gone.
pub open spec fn logged_out(
    before: StoreModel,
    refresh_token: Seq<char>,
    after: StoreModel,
    result: Result<(), AppError>,
) -> bool {
    result is Ok && after =~= before.without_session(refresh_token)
}

/// Performs the request of `step` on `store` and takes the decision that
/// follows the reply; a finished step is handed back as it is.
pub fn serve(store: &mut MemoryStore, step: Step, secret: &str, now: u64) -> (next: Step)
    requires
        now + REFRESH_TOKEN_TTL_SECS <= u64::MAX,
    ensures
        old(store)@.wf() ==> final(store)@.wf(),
        match step {
            Step::Finished(_) => next == step && final(store)@ =~= old(store)@,
            Step::Ask { request, next: flow } => {
                &&& old(store)@.wf()
                &&& final(store)@.wf()
                &&& final(store)@ =~= old(store)@.after(request)
                &&& exists|reply: StoreReply| #[trigger]
                    old(store)@.answers(request, reply) && advanced(flow, reply, secret@, now, next)
            },
        },
{
    match step {
        Step::Finished(result) => Step::Finished(result),
        Step::Ask { request, next } => {
            let reply = store.execute(request);
            advance_at(next, reply, secret, now)
        },
    }
}

/// The pair or the error of an operation that hands out tokens. A step that
/// still asks for the store cannot be concluded and is reported as a
/// storage failure.
fn conclude_tokens(step: Step) -> (result: Result<AuthResponse, AppError>)
    ensures
        match step {
            Step::Finished(Ok(Outcome::Authenticated(tokens))) => result matches Ok(pair)
                && pair.access_token@ == tokens.access_token@ && pair.refresh_token@
                == tokens.refresh_token@,
            Step::Finished(Err(error)) => failed(result, error.told()),
            _ => failed(result, storage_failure()),
        },
{
    match step {
        Step::Finished(Ok(Outcome::Authenticated(tokens))) => Ok(tokens),
        Step::Finished(Err(error)) => Err(error),
        _ => Err(AppError::storage()),
    }
}

/// The success or the error of an operation that hands out nothing.
fn conclude_plain(step: Step) -> (result: Result<(), AppError>)
    ensures
        match step {
            Step::Finished(Ok(_)) => result is Ok,
            Step::Finished(Err(error)) => failed(result, error.told()),
            _ => failed(result, storage_failure()),
        },
{
    match step {
        Step::Finished(Ok(_)) => Ok(()),
        Step::Finished(Err(error)) => Err(error),
        _ => Err(AppError::storage()),
    }
}

/// Issues a fresh pair of tokens to a user, at time `now`.
pub fn generate_tokens_at(user_id: &i32, store: &mut MemoryStore, secret: &str, now: u64) -> (result:
    Result<AuthResponse, AppError>)
    requires
        now + REFRESH_TOKEN_TTL_SECS <= u64::MAX,
    ensures
        old(store)@.wf(),
        final(store)@.wf(),
        issued(old(store)@, *user_id, secret@, now, final(store)@, result),
{
    let step = begin_issue(*user_id);
    let step = serve(store, step, secret, now);
    let step = serve(store, step, secret, now);
    conclude_tokens(step)
}

/// Issues a fresh pair of tokens to a user, at the current time.
pub fn generate_tokens(user_id: &i32, store: &mut MemoryStore, secret: &str) -> (result: Result<
    AuthResponse,
    AppError,
>)
    ensures
        old(store)@.wf(),
        final(store)@.wf(),
        exists|now: u64|
            now + REFRESH_TOKEN_TTL_SECS <= u64::MAX && #[trigger] issued(
                old(store)@,
                *user_id,
                secret@,
                now,
                final(store)@,
                result,
            ),
{
    let now = unix_now() as u64;
    generate_tokens_at(user_id, store, secret, now)
}

/// Exchanges a refresh token for a new pair, at time `now`.
pub fn refresh_access_token_at(
    refresh_token: &str,
    store: &mut MemoryStore,
    secret: &str,
    now: u64,
) -> (result: Result<AuthResponse, AppError>)
    requires
        now + REFRESH_TOKEN_TTL_SECS <= u64::MAX,
    ensures
        old(store)@.wf(),
        final(store)@.wf(),
        refreshed(old(store)@, refresh_token@, secret@, now, final(store)@, result),
{
    let step = begin_refresh(RefreshPayload { refresh_token: refresh_token.to_owned() });
    let step = serve(store, step, secret, now);
    let step = serve(store, step, secret, now);
    let step = serve(store, step, secret, now);
    conclude_tokens(step)
}

/// Exchanges a refresh token for a new pair, at the current time.
pub fn refresh_access_token(refresh_token: &str, store: &mut MemoryStore, secret: &str) -> (result:
    Result<AuthResponse, AppError>)
    ensures
        old(store)@.wf(),
        final(store)@.wf(),
        exists|now: u64|
            now + REFRESH_TOKEN_TTL_SECS <= u64::MAX && #[trigger] refreshed(
                old(store)@,
                refresh_token@,
                secret@,
                now,
                final(store)@,
                result,
            ),
{
    let now = unix_now() as u64;
    refresh_access_token_at(refresh_token, store, secret, now)
}

/// Logs a user in, at time `now`.
pub fn login_at(payload: LoginPayload, store: &mut MemoryStore, secret: &str, now: u64) -> (result:
    Result<AuthResponse, AppError>)
    requires
        now + REFRESH_TOKEN_TTL_SECS <= u64::MAX,
    ensures
        old(store)@.wf(),
        final(store)@.wf(),
        logged_in(
            old(store)@,
            payload.nickname@,
            payload.password@,
            secret@,
            now,
            final(store)@,
            result,
        ),
{
    let step = begin_login(payload);
    let step = serve(store, step, secret, now);
    let step = serve(store, step, secret, now);
    let step = serve(store, step, secret, now);
    conclude_tokens(step)
}

/// Logs a user in, at the current time.
pub fn login(payload: LoginPayload, store: &mut MemoryStore, secret: &str) -> (result: Result<
    AuthResponse,
    AppError,
>)
    ensures
        old(store)@.wf(),
        final(store)@.wf(),
        exists|now: u64|
            now + REFRESH_TOKEN_TTL_SECS <= u64::MAX && #[trigger] logged_in(
                old(store)@,
                payload.nickname@,
                payload.password@,
                secret@,
                now,
                final(store)@,
                result,
            ),
{
    let now = unix_now() as u64;
    login_at(payload, store, secret, now)
}

/// Registers an account.
pub fn register(payload: RegisterPayload, store: &mut MemoryStore) -> (result: Result<(), AppError>)
    ensures
        old(store)@.wf(),
        final(store)@.wf(),
        registered(old(store)@, payload.nickname@, payload.password@, final(store)@, result),
{
    let step = begin_register(payload);
    let step = serve(store, step, "", 0);
    let step = serve(store, step, "", 0);
    conclude_plain(step)
}

/// Ends the session behind a refresh token. It succeeds whether or not the
/// session was there.
pub fn logout(payload: RefreshPayload, store: &mut MemoryStore) -> (result: Result<(), AppError>)
    ensures
        old(store)@.wf(),
        final(store)@.wf(),
        logged_out(old(store)@, payload.refresh_token@, final(store)@, result),
{
    let step = begin_logout(payload);
    let step = serve(store, step, "", 0);
    conclude_plain(step)
}

} // verus!
