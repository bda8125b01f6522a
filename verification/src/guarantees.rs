//! What holds across operations, proved from their contracts.

use vstd::prelude::*;
use crate::errors::{
    failed, invalid_refresh_token, session_expired, token_expired, AppError, ErrorKind, Failure,
};
use crate::models::{AuthResponse, Claims, UserRole};
use crate::outside::{bcrypt_verdict, jwt_encoded};
use crate::service::{issued, logged_in, logged_out, refreshed};
use crate::store::StoreModel;
use crate::token::{
    access_decision, claims_issued, is_refresh_token, ACCESS_TOKEN_TTL_SECS,
    REFRESH_TOKEN_TTL_SECS,
};

verus! {

/// Every refusal of an access token is `Unauthorized`, whatever is wrong
/// with the token.
pub proof fn lemma_refusals_are_unauthorized(bearer: Option<Seq<char>>, secret: Seq<char>, now: u64)
    ensures
        access_decision(bearer, secret, now) matches Err(error) ==> error.kind
            == ErrorKind::Unauthorized,
{
}

/// The access token of an issued pair names the user it was issued to.
/// Presented under the same secret it yields the user's id and the role
/// stored at the time of issue until fifteen minutes have passed, and is
/// refused as expired afterwards.
pub proof fn lemma_issued_token_names_user(
    before: StoreModel,
    user_id: i32,
    secret: Seq<char>,
    now: u64,
    after: StoreModel,
    result: Result<AuthResponse, AppError>,
    presented_at: u64,
)
    requires
        now + REFRESH_TOKEN_TTL_SECS <= u64::MAX,
        issued(before, user_id, secret, now, after, result),
        result is Ok,
    ensures
        before.user_by_id(user_id) matches Some(user) && access_decision(
            Some(result->Ok_0.access_token@),
            secret,
            presented_at,
        ) == if presented_at <= now + ACCESS_TOKEN_TTL_SECS {
            Ok::<Claims, Failure>(claims_issued(user_id, user.role, now))
        } else {
            Err(token_expired())
        },
{
    let user = before.user_by_id(user_id)->0;
    user.role.lemma_claim_name_round_trip();
}

/// The access token obtained at login names the account that logged in:
/// it yields that account's id and its stored role.
pub proof fn lemma_login_token_names_account(
    before: StoreModel,
    nickname: Seq<char>,
    password: Seq<char>,
    secret: Seq<char>,
    now: u64,
    after: StoreModel,
    result: Result<AuthResponse, AppError>,
    presented_at: u64,
)
    requires
        before.wf(),
        now + REFRESH_TOKEN_TTL_SECS <= u64::MAX,
        logged_in(before, nickname, password, secret, now, after, result),
        result is Ok,
        presented_at <= now + ACCESS_TOKEN_TTL_SECS,
    ensures
        before.user_by_nickname(nickname) matches Some(account) && access_decision(
            Some(result->Ok_0.access_token@),
            secret,
            presented_at,
        ) == Ok::<Claims, Failure>(claims_issued(account.id, account.role, now)),
{
    let account = before.user_by_nickname(nickname)->0;
    let index = choose|index: int| before.first_named(nickname, index);
    assert(before.first_named(nickname, index));
    assert(before.user_by_id(account.id) == Some(account));
    lemma_issued_token_names_user(before, account.id, secret, now, after, result, presented_at);
}

/// Whether the store holds no session under a well-shaped refresh token
/// other than `spared`: then no token that is drawn can clash, unless it is
/// `spared` itself.
pub open spec fn clash_free(store: StoreModel, spared: Option<Seq<char>>) -> bool {
    forall|token: Seq<char>|
        is_refresh_token(token) && spared != Some(token) ==> !#[trigger] store.sessions.contains_key(
            token,
        )
}

/// Whether the signer answers for this user at `now`.
pub open spec fn signer_answers(user_id: i32, role: UserRole, secret: Seq<char>, now: u64) -> bool {
    let claims = claims_issued(user_id, role, now);
    jwt_encoded(claims.exp, claims.iat, user_id, role.claim_name(), secret) is Some
}

/// Issuance is owed wherever chance cannot spoil it: for a user that exists,
/// with a signer that answers, on a store where no drawn token can clash,
/// the pair is handed out.
pub proof fn lemma_issue_owed(
    before: StoreModel,
    user_id: i32,
    secret: Seq<char>,
    now: u64,
    after: StoreModel,
    result: Result<AuthResponse, AppError>,
)
    requires
        issued(before, user_id, secret, now, after, result),
    ensures
        ({
            &&& before.user_by_id(user_id) matches Some(user)
            &&& signer_answers(user_id, user.role, secret, now)
            &&& clash_free(before, None)
        }) ==> result is Ok,
{
}

/// Login is owed in the same way: the right password for a known nickname
/// gives a pair, with a signer that answers, on a store where no drawn token
/// can clash.
pub proof fn lemma_login_owed(
    before: StoreModel,
    nickname: Seq<char>,
    password: Seq<char>,
    secret: Seq<char>,
    now: u64,
    after: StoreModel,
    result: Result<AuthResponse, AppError>,
)
    requires
        before.wf(),
        logged_in(before, nickname, password, secret, now, after, result),
    ensures
        ({
            &&& before.user_by_nickname(nickname) matches Some(account)
            &&& bcrypt_verdict(password, account.password_hash) == Some(true)
            &&& signer_answers(account.id, account.role, secret, now)
            &&& clash_free(before, None)
        }) ==> result is Ok,
{
    if before.nickname_known(nickname) {
        let account = before.user_by_nickname(nickname)->0;
        let index = choose|index: int| before.first_named(nickname, index);
        assert(before.first_named(nickname, index));
        assert(before.user_by_id(account.id) == Some(account));
    }
}

/// So is a refresh in time: a stored token that has not expired gives a new
/// pair to its owner, if the owner still exists, the signer answers, and no
/// other well-shaped token is stored.
pub proof fn lemma_refresh_owed(
    before: StoreModel,
    refresh_token: Seq<char>,
    secret: Seq<char>,
    now: u64,
    after: StoreModel,
    result: Result<AuthResponse, AppError>,
)
    requires
        refreshed(before, refresh_token, secret, now, after, result),
    ensures
        ({
            &&& before.session(refresh_token) matches Some(lease)
            &&& now <= lease.expires_at
            &&& before.user_by_id(lease.user_id) matches Some(owner)
            &&& signer_answers(lease.user_id, owner.role, secret, now)
            &&& clash_free(before, Some(refresh_token))
        }) ==> result is Ok,
{
    if before.session(refresh_token) is Some && clash_free(before, Some(refresh_token)) {
        let left = before.without_session(refresh_token);
        assert forall|token: Seq<char>| is_refresh_token(token) implies !#[trigger] left.sessions.contains_key(
            token,
        ) by {
            if token != refresh_token {
                assert(!before.sessions.contains_key(token));
            }
        }
    }
}

/// A refresh token is good for thirty days from its issue and no longer.
/// Presented later it is refused as expired, and its session is removed.
/// Presented in time it is never refused: its session is removed and
/// issuance for its owner takes place.
pub proof fn lemma_refresh_token_lifetime(
    before: StoreModel,
    user_id: i32,
    secret: Seq<char>,
    issued_at: u64,
    stored: StoreModel,
    pair: Result<AuthResponse, AppError>,
    now: u64,
    after: StoreModel,
    result: Result<AuthResponse, AppError>,
)
    requires
        issued_at + REFRESH_TOKEN_TTL_SECS <= u64::MAX,
        issued(before, user_id, secret, issued_at, stored, pair),
        pair is Ok,
        refreshed(stored, pair->Ok_0.refresh_token@, secret, now, after, result),
    ensures
        now > issued_at + REFRESH_TOKEN_TTL_SECS ==> failed(result, session_expired()) && after
            == stored.without_session(pair->Ok_0.refresh_token@),
        now <= issued_at + REFRESH_TOKEN_TTL_SECS ==> issued(
            stored.without_session(pair->Ok_0.refresh_token@),
            user_id,
            secret,
            now,
            after,
            result,
        ),
        now <= issued_at + REFRESH_TOKEN_TTL_SECS ==> !(result matches Err(error) && error.kind
            == ErrorKind::Unauthorized),
{
}

/// A refresh token is spent by its first use. After any attempt to refresh
/// with it, successful or not, a further attempt is refused as invalid and
/// changes nothing. The one case left out is a first attempt that handed
/// out, by chance, the very token that was presented.
pub proof fn lemma_refresh_token_single_use(
    before: StoreModel,
    refresh_token: Seq<char>,
    secret: Seq<char>,
    now: u64,
    between: StoreModel,
    first: Result<AuthResponse, AppError>,
    later: u64,
    after: StoreModel,
    second: Result<AuthResponse, AppError>,
)
    requires
        refreshed(before, refresh_token, secret, now, between, first),
        !(first matches Ok(pair) && pair.refresh_token@ == refresh_token),
        refreshed(between, refresh_token, secret, later, after, second),
    ensures
        failed(second, invalid_refresh_token()),
        after == between,
{
}

/// Logout ends the session: a refresh with the token that was logged out is
/// refused as invalid.
pub proof fn lemma_logout_revokes(
    before: StoreModel,
    refresh_token: Seq<char>,
    left: StoreModel,
    done: Result<(), AppError>,
    secret: Seq<char>,
    now: u64,
    after: StoreModel,
    result: Result<AuthResponse, AppError>,
)
    requires
        logged_out(before, refresh_token, left, done),
        refreshed(left, refresh_token, secret, now, after, result),
    ensures
        failed(result, invalid_refresh_token()),
        after == left,
{
}

/// Logging out twice is the same as logging out once.
pub proof fn lemma_logout_idempotent(
    before: StoreModel,
    refresh_token: Seq<char>,
    once: StoreModel,
    first: Result<(), AppError>,
    twice: StoreModel,
    second: Result<(), AppError>,
)
    requires
        logged_out(before, refresh_token, once, first),
        logged_out(once, refresh_token, twice, second),
    ensures
        second is Ok,
        twice == once,
{
}

} // verus!
