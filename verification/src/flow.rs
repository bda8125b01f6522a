//! The operations of the core as state machines over store requests.
//!
//! An operation begins with a [`Step`]. While the step asks something of the
//! store, the caller performs the request and hands the reply to
//! [`advance`]; the operation is over when the step is finished. All
//! decisions are taken here; the caller only talks to the store.

use vstd::prelude::*;
use crate::errors::{
    hashing_failure, invalid_credentials, invalid_refresh_token, nickname_taken, session_expired,
    signing_failure, storage_failure, verification_failure, AppError, ErrorKind, Failure,
};
use crate::models::{AuthResponse, LoginPayload, RefreshPayload, RegisterPayload, SessionView};
use crate::outside::{bcrypt_verdict, jwt_encoded, jwt_payload, random_bytes, unix_now};
use crate::password::{hash_password, verify_password};
use crate::store::{StoreReply, StoreRequest};
use crate::token::{
    claims_issued, is_refresh_token, issued_payload, lemma_token_shape, mint_tokens,
    REFRESH_TOKEN_BYTES, REFRESH_TOKEN_TTL_SECS,
};

verus! {

/// Where an operation stands while it waits for the store.
#[derive(Debug)]
pub enum Flow {
    /// Registration has asked whether the nickname is taken.
    Register { nickname: String, password: String },
    /// Registration has asked for the account to be created.
    RegisterInsert,
    /// Login has asked for the account behind the nickname.
    Login { password: String },
    /// Issuance has asked for the current record of the user.
    Issue { user_id: i32 },
    /// Issuance has asked for the new session to be stored.
    IssueInsert { tokens: AuthResponse },
    /// Refresh has asked to take the session behind the token.
    Refresh,
    /// Logout has asked for the session to be removed.
    Logout,
}

/// What an operation achieved.
#[derive(Debug)]
pub enum Outcome {
    Registered,
    Authenticated(AuthResponse),
    LoggedOut,
}

/// The next thing to do in an operation.
#[derive(Debug)]
pub enum Step {
    /// Perform `request` and hand the reply, with `next`, to [`advance`].
    Ask { request: StoreRequest, next: Flow },
    /// The operation is over.
    Finished(Result<Outcome, AppError>),
}

impl Step {
    /// The operation is over and failed with exactly this error.
    pub open spec fn fails_with(self, error: Failure) -> bool {
        self matches Step::Finished(Err(reported)) && reported.told() == error
    }

    /// The operation is over and handed out exactly this pair.
    pub open spec fn hands_out(self, access_token: Seq<char>, refresh_token: Seq<char>) -> bool {
        &&& self matches Step::Finished(Ok(Outcome::Authenticated(tokens)))
        &&& tokens.access_token@ == access_token
        &&& tokens.refresh_token@ == refresh_token
    }
}

/// Registration starts by asking whether the nickname is taken.
pub open spec fn register_begun(nickname: Seq<char>, password: Seq<char>, step: Step) -> bool {
    &&& step matches Step::Ask {
        request: StoreRequest::FindUserByNickname { nickname: asked },
        next: Flow::Register { nickname: kept, password: secret },
    }
    &&& asked@ == nickname
    &&& kept@ == nickname
    &&& secret@ == password
}

/// Login starts by asking for the account behind the nickname.
pub open spec fn login_begun(nickname: Seq<char>, password: Seq<char>, step: Step) -> bool {
    &&& step matches Step::Ask {
        request: StoreRequest::FindUserByNickname { nickname: asked },
        next: Flow::Login { password: secret },
    }
    &&& asked@ == nickname
    &&& secret@ == password
}

/// Issuance starts by asking for the user's current record.
pub open spec fn issue_begun(user_id: i32, step: Step) -> bool {
    step matches Step::Ask {
        request: StoreRequest::FindUserById { id },
        next: Flow::Issue { user_id: subject },
    } && id == user_id && subject == user_id
}

/// Refresh starts by taking the session behind the token out of the store,
/// so that no second refresh can find it, whatever is decided next.
pub open spec fn refresh_begun(refresh_token: Seq<char>, step: Step) -> bool {
    step matches Step::Ask {
        request: StoreRequest::TakeRefreshSession { refresh_token: asked },
        next: Flow::Refresh,
    } && asked@ == refresh_token
}

/// Logout asks for the session to be removed.
pub open spec fn logout_begun(refresh_token: Seq<char>, step: Step) -> bool {
    step matches Step::Ask {
        request: StoreRequest::DeleteRefreshSession { refresh_token: asked },
        next: Flow::Logout,
    } && asked@ == refresh_token
}

/// After the nickname lookup of a registration: a taken nickname is a
/// conflict; a free one is stored with a hash that verifies against the
/// password, unless hashing fails.
pub open spec fn register_decided(
    nickname: Seq<char>,
    password: Seq<char>,
    reply: StoreReply,
    step: Step,
) -> bool {
    match reply {
        StoreReply::User(Some(_)) => step.fails_with(nickname_taken()),
        StoreReply::User(None) => {
            ||| step.fails_with(hashing_failure())
            ||| {
                &&& step matches Step::Ask {
                    request: StoreRequest::InsertUser { nickname: name, password_hash },
                    next: Flow::RegisterInsert,
                }
                &&& name@ == nickname
                &&& bcrypt_verdict(password, password_hash@) == Some(true)
            }
        },
        _ => step.fails_with(storage_failure()),
    }
}

/// After the account lookup of a login: an unknown nickname and a wrong
/// password are the same refusal; a right password leads to issuance for the
/// account's id.
pub open spec fn login_decided(password: Seq<char>, reply: StoreReply, step: Step) -> bool {
    match reply {
        StoreReply::User(None) => step.fails_with(invalid_credentials()),
        StoreReply::User(Some(user)) => match bcrypt_verdict(password, user.password_hash@) {
            None => step.fails_with(verification_failure()),
            Some(false) => step.fails_with(invalid_credentials()),
            Some(true) => issue_begun(user.id, step),
        },
        _ => step.fails_with(storage_failure()),
    }
}

/// After the user lookup of an issuance: the pair is minted for the role
/// that the store reports now, and the session that backs the refresh token
/// is sent to the store. A user that is gone is a storage failure.
pub open spec fn issue_decided(
    user_id: i32,
    reply: StoreReply,
    secret: Seq<char>,
    now: u64,
    step: Step,
) -> bool {
    match reply {
        StoreReply::User(Some(user)) => {
            let claims = claims_issued(user_id, user.role, now);
            match jwt_encoded(claims.exp, claims.iat, user_id, user.role.claim_name(), secret) {
                None => step.fails_with(signing_failure()),
                Some(access) => {
                    &&& step matches Step::Ask {
                        request: StoreRequest::InsertRefreshSession { session },
                        next: Flow::IssueInsert { tokens },
                    }
                    &&& tokens.access_token@ == access
                    &&& is_refresh_token(tokens.refresh_token@)
                    &&& session@ == (SessionView {
                        user_id,
                        refresh_token: tokens.refresh_token@,
                        expires_at: (now + REFRESH_TOKEN_TTL_SECS) as u64,
                    })
                    &&& jwt_payload(access, secret) == Some(
                        issued_payload(claims.exp, claims.iat, user_id, user.role.claim_name()),
                    )
                },
            }
        },
        _ => step.fails_with(storage_failure()),
    }
}

/// After the session of a refresh was taken: no session means the token is
/// refused; a session past its expiry is refused as expired; any other leads
/// to issuance for its owner.
pub open spec fn refresh_decided(reply: StoreReply, now: u64, step: Step) -> bool {
    match reply {
        StoreReply::Session(None) => step.fails_with(invalid_refresh_token()),
        StoreReply::Session(Some(row)) => if now > row.expires_at {
            step.fails_with(session_expired())
        } else {
            issue_begun(row.user_id, step)
        },
        _ => step.fails_with(storage_failure()),
    }
}

/// What [`advance_at`] decides in each state for each reply. A reply that
/// does not answer the pending request is a storage failure.
pub open spec fn advanced(flow: Flow, reply: StoreReply, secret: Seq<char>, now: u64, step: Step) -> bool {
    match flow {
        Flow::Register { nickname, password } => register_decided(
            nickname@,
            password@,
            reply,
            step,
        ),
        Flow::RegisterInsert => if reply is Done {
            step matches Step::Finished(Ok(Outcome::Registered))
        } else {
            step.fails_with(storage_failure())
        },
        Flow::Login { password } => login_decided(password@, reply, step),
        Flow::Issue { user_id } => issue_decided(user_id, reply, secret, now, step),
        Flow::IssueInsert { tokens } => if reply is Done {
            step.hands_out(tokens.access_token@, tokens.refresh_token@)
        } else {
            step.fails_with(storage_failure())
        },
        Flow::Refresh => refresh_decided(reply, now, step),
        Flow::Logout => if reply is Done {
            step matches Step::Finished(Ok(Outcome::LoggedOut))
        } else {
            step.fails_with(storage_failure())
        },
    }
}

pub fn begin_register(payload: RegisterPayload) -> (step: Step)
    ensures
        register_begun(payload.nickname@, payload.password@, step),
{
    let asked = payload.nickname.clone();
    Step::Ask {
        request: StoreRequest::FindUserByNickname { nickname: asked },
        next: Flow::Register { nickname: payload.nickname, password: payload.password },
    }
}

pub fn begin_login(payload: LoginPayload) -> (step: Step)
    ensures
        login_begun(payload.nickname@, payload.password@, step),
{
    Step::Ask {
        request: StoreRequest::FindUserByNickname { nickname: payload.nickname },
        next: Flow::Login { password: payload.password },
    }
}

pub fn begin_issue(user_id: i32) -> (step: Step)
    ensures
        issue_begun(user_id, step),
{
    Step::Ask { request: StoreRequest::FindUserById { id: user_id }, next: Flow::Issue { user_id } }
}

pub fn begin_refresh(payload: RefreshPayload) -> (step: Step)
    ensures
        refresh_begun(payload.refresh_token@, step),
{
    Step::Ask {
        request: StoreRequest::TakeRefreshSession { refresh_token: payload.refresh_token },
        next: Flow::Refresh,
    }
}

pub fn begin_logout(payload: RefreshPayload) -> (step: Step)
    ensures
        logout_begun(payload.refresh_token@, step),
{
    Step::Ask {
        request: StoreRequest::DeleteRefreshSession { refresh_token: payload.refresh_token },
        next: Flow::Logout,
    }
}

/// The step that ends an operation on a store that failed or answered out
/// of turn.
fn storage_failed() -> (step: Step)
    ensures
        step.fails_with(storage_failure()),
{
    Step::Finished(Err(AppError::storage()))
}

fn refuse(kind: ErrorKind, message: &str) -> (step: Step)
    ensures
        step.fails_with(Failure { kind, message: message@ }),
{
    Step::Finished(Err(AppError::new(kind, message)))
}

fn decide_register(nickname: String, password: String, reply: StoreReply) -> (step: Step)
    ensures
        register_decided(nickname@, password@, reply, step),
{
    match reply {
        StoreReply::User(Some(_)) => refuse(
            ErrorKind::Conflict,
            "a user with this nickname already exists",
        ),
        StoreReply::User(None) => match hash_password(password.as_str()) {
            Ok(password_hash) => Step::Ask {
                request: StoreRequest::InsertUser { nickname, password_hash },
                next: Flow::RegisterInsert,
            },
            Err(error) => Step::Finished(Err(error)),
        },
        _ => storage_failed(),
    }
}

fn decide_login(password: String, reply: StoreReply) -> (step: Step)
    ensures
        login_decided(password@, reply, step),
{
    match reply {
        StoreReply::User(None) => refuse(
            ErrorKind::InvalidCredentials,
            "invalid nickname or password",
        ),
        StoreReply::User(Some(user)) => match verify_password(
            password.as_str(),
            user.password_hash.as_str(),
        ) {
            Ok(true) => begin_issue(user.id),
            Ok(false) => refuse(ErrorKind::InvalidCredentials, "invalid nickname or password"),
            Err(error) => Step::Finished(Err(error)),
        },
        _ => storage_failed(),
    }
}

fn decide_issue(user_id: i32, reply: StoreReply, secret: &str, now: u64) -> (step: Step)
    requires
        now + REFRESH_TOKEN_TTL_SECS <= u64::MAX,
    ensures
        issue_decided(user_id, reply, secret@, now, step),
{
    match reply {
        StoreReply::User(Some(user)) => {
            let entropy = random_bytes(REFRESH_TOKEN_BYTES);
            proof {
                lemma_token_shape(entropy@);
            }
            match mint_tokens(user_id, user.role, now, secret, &entropy) {
                Ok(minted) => Step::Ask {
                    request: StoreRequest::InsertRefreshSession { session: minted.session },
                    next: Flow::IssueInsert { tokens: minted.tokens },
                },
                Err(error) => Step::Finished(Err(error)),
            }
        },
        _ => storage_failed(),
    }
}

fn decide_refresh(reply: StoreReply, now: u64) -> (step: Step)
    ensures
        refresh_decided(reply, now, step),
{
    match reply {
        StoreReply::Session(None) => refuse(ErrorKind::Unauthorized, "invalid refresh token"),
        StoreReply::Session(Some(row)) => {
            if now > row.expires_at {
                refuse(ErrorKind::Unauthorized, "session expired")
            } else {
                begin_issue(row.user_id)
            }
        },
        _ => storage_failed(),
    }
}

/// Takes the next decision of an operation, judged at time `now`.
pub fn advance_at(flow: Flow, reply: StoreReply, secret: &str, now: u64) -> (step: Step)
    requires
        now + REFRESH_TOKEN_TTL_SECS <= u64::MAX,
    ensures
        advanced(flow, reply, secret@, now, step),
{
    let written = matches!(reply, StoreReply::Done);
    match flow {
        Flow::Register { nickname, password } => decide_register(nickname, password, reply),
        Flow::Login { password } => decide_login(password, reply),
        Flow::Issue { user_id } => decide_issue(user_id, reply, secret, now),
        Flow::Refresh => decide_refresh(reply, now),
        Flow::RegisterInsert => if written {
            Step::Finished(Ok(Outcome::Registered))
        } else {
            storage_failed()
        },
        Flow::IssueInsert { tokens } => if written {
            Step::Finished(Ok(Outcome::Authenticated(tokens)))
        } else {
            storage_failed()
        },
        Flow::Logout => if written {
            Step::Finished(Ok(Outcome::LoggedOut))
        } else {
            storage_failed()
        },
    }
}

/// Takes the next decision of an operation, judged at the current time.
pub fn advance(flow: Flow, reply: StoreReply, secret: &str) -> (step: Step)
    ensures
        exists|now: u64|
            now + REFRESH_TOKEN_TTL_SECS <= u64::MAX && #[trigger] advanced(
                flow,
                reply,
                secret@,
                now,
                step,
            ),
{
    let now = unix_now() as u64;
    advance_at(flow, reply, secret, now)
}

} // verus!
