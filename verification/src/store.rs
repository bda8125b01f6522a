//! The persistence contract of the core: what it asks of a store, what a
//! store may answer, and what an ideal store does with each request.

use vstd::prelude::*;
use crate::models::{RefreshSession, SessionView, User, UserRole, UserView};

verus! {

/// One request of the core to its store.
#[derive(Debug)]
pub enum StoreRequest {
    /// Load the account with this id.
    FindUserById { id: i32 },
    /// Load the account with this nickname.
    FindUserByNickname { nickname: String },
    /// Create an account with the default role.
    InsertUser { nickname: String, password_hash: String },
    /// Store a new refresh session.
    InsertRefreshSession { session: RefreshSession },
    /// Remove the refresh session stored under this token and hand it over,
    /// in one indivisible operation: of two such requests for one stored
    /// token, only the first is answered with the session.
    TakeRefreshSession { refresh_token: String },
    /// Remove the refresh session stored under this token, if there is one.
    DeleteRefreshSession { refresh_token: String },
}

/// The answer of a store to one request.
#[derive(Debug)]
pub enum StoreReply {
    /// Answer to a user lookup.
    User(Option<User>),
    /// Answer to taking a session: the session that was removed, if any.
    Session(Option<RefreshSession>),
    /// The write was applied.
    Done,
    /// The store could not serve the request.
    Failed,
}

/// An account row without its id: the id is the row's position, counted
/// from one.
pub struct Account {
    pub nickname: Seq<char>,
    pub password_hash: Seq<char>,
    pub role: UserRole,
}

/// What a refresh token stands for while it is stored.
pub struct Lease {
    pub user_id: i32,
    pub expires_at: u64,
}

/// The content of a store: the accounts in order of creation and the refresh
/// sessions by token. Keying the sessions by token is what makes a token
/// name at most one session.
#[verifier::ext_equal]
pub struct StoreModel {
    pub accounts: Seq<Account>,
    pub sessions: Map<Seq<char>, Lease>,
}

/// The most accounts a store holds: ids are positive `i32`s.
pub open spec fn max_accounts() -> int {
    0x7fff_ffff
}

impl StoreModel {
    /// Ids stay within `i32`, and the sessions are finitely many.
    pub open spec fn wf(self) -> bool {
        self.accounts.len() <= max_accounts() && self.sessions.dom().finite()
    }

    pub open spec fn empty() -> StoreModel {
        StoreModel { accounts: Seq::empty(), sessions: Map::empty() }
    }

    /// The user record made of the row at `index`.
    pub open spec fn user_at(self, index: int) -> UserView {
        UserView {
            id: (index + 1) as i32,
            nickname: self.accounts[index].nickname,
            password_hash: self.accounts[index].password_hash,
            role: self.accounts[index].role,
        }
    }

    pub open spec fn user_by_id(self, id: i32) -> Option<UserView> {
        if 1 <= id <= self.accounts.len() {
            Some(self.user_at(id - 1))
        } else {
            None
        }
    }

    /// `index` is the first row that carries `nickname`.
    pub open spec fn first_named(self, nickname: Seq<char>, index: int) -> bool {
        &&& 0 <= index < self.accounts.len()
        &&& self.accounts[index].nickname == nickname
        &&& forall|earlier: int|
            0 <= earlier < index ==> (#[trigger] self.accounts[earlier]).nickname != nickname
    }

    pub open spec fn nickname_known(self, nickname: Seq<char>) -> bool {
        exists|index: int| self.first_named(nickname, index)
    }

    pub open spec fn user_by_nickname(self, nickname: Seq<char>) -> Option<UserView> {
        if self.nickname_known(nickname) {
            Some(self.user_at(choose|index: int| self.first_named(nickname, index)))
        } else {
            None
        }
    }

    pub open spec fn session(self, refresh_token: Seq<char>) -> Option<Lease> {
        if self.sessions.contains_key(refresh_token) {
            Some(self.sessions[refresh_token])
        } else {
            None
        }
    }

    /// The store after an account with the default role was appended.
    pub open spec fn with_account(self, nickname: Seq<char>, password_hash: Seq<char>) -> StoreModel {
        StoreModel {
            accounts: self.accounts.push(Account { nickname, password_hash, role: UserRole::User }),
            sessions: self.sessions,
        }
    }

    pub open spec fn with_session(self, session: SessionView) -> StoreModel {
        StoreModel {
            accounts: self.accounts,
            sessions: self.sessions.insert(
                session.refresh_token,
                Lease { user_id: session.user_id, expires_at: session.expires_at },
            ),
        }
    }

    pub open spec fn without_session(self, refresh_token: Seq<char>) -> StoreModel {
        StoreModel { accounts: self.accounts, sessions: self.sessions.remove(refresh_token) }
    }

    /// The store after the account with this id was given `role`.
    pub open spec fn with_role(self, id: i32, role: UserRole) -> StoreModel {
        StoreModel {
            accounts: self.accounts.update(
                id - 1,
                Account {
                    nickname: self.accounts[id - 1].nickname,
                    password_hash: self.accounts[id - 1].password_hash,
                    role,
                },
            ),
            sessions: self.sessions,
        }
    }

    /// Whether a store in this state accepts a new account under `nickname`.
    pub open spec fn admits_account(self, nickname: Seq<char>) -> bool {
        self.accounts.len() < max_accounts() && !self.nickname_known(nickname)
    }

    /// The state in which an ideal store is left by `request`.
    pub open spec fn after(self, request: StoreRequest) -> StoreModel {
        match request {
            StoreRequest::InsertUser { nickname, password_hash } => if self.admits_account(
                nickname@,
            ) {
                self.with_account(nickname@, password_hash@)
            } else {
                self
            },
            StoreRequest::InsertRefreshSession { session } => if self.sessions.contains_key(
                session.refresh_token@,
            ) {
                self
            } else {
                self.with_session(session@)
            },
            StoreRequest::TakeRefreshSession { refresh_token } => self.without_session(
                refresh_token@,
            ),
            StoreRequest::DeleteRefreshSession { refresh_token } => self.without_session(
                refresh_token@,
            ),
            _ => self,
        }
    }

    /// Whether `reply` is what an ideal store in this state answers to
    /// `request`. Lookups answer with the row or its absence, and so does
    /// taking a session, which speaks of the state before it. An insertion
    /// is refused only where it would break a key: a nickname or a token
    /// that is already stored, or an id beyond `i32`. Deleting always
    /// succeeds.
    pub open spec fn answers(self, request: StoreRequest, reply: StoreReply) -> bool {
        match request {
            StoreRequest::FindUserById { id } => reply matches StoreReply::User(found) && shown(
                found,
            ) == self.user_by_id(id),
            StoreRequest::FindUserByNickname { nickname } => reply matches StoreReply::User(found)
                && shown(found) == self.user_by_nickname(nickname@),
            StoreRequest::InsertUser { nickname, password_hash } => if self.admits_account(
                nickname@,
            ) {
                reply is Done
            } else {
                reply is Failed
            },
            StoreRequest::TakeRefreshSession { refresh_token } => reply matches StoreReply::Session(
                found,
            ) && match found {
                Some(row) => row.refresh_token@ == refresh_token@ && self.session(refresh_token@)
                    == Some(Lease { user_id: row.user_id, expires_at: row.expires_at }),
                None => self.session(refresh_token@) is None,
            },
            StoreRequest::InsertRefreshSession { session } => if self.sessions.contains_key(
                session.refresh_token@,
            ) {
                reply is Failed
            } else {
                reply is Done
            },
            StoreRequest::DeleteRefreshSession { refresh_token } => reply is Done,
        }
    }
}

/// A token that names no session keeps naming none, whatever is asked of the
/// store, unless a session is inserted under that very token.
pub proof fn lemma_absent_session_stays_absent(
    store: StoreModel,
    refresh_token: Seq<char>,
    request: StoreRequest,
)
    requires
        store.session(refresh_token) is None,
        !(request matches StoreRequest::InsertRefreshSession { session } && session.refresh_token@
            == refresh_token),
    ensures
        store.after(request).session(refresh_token) is None,
{
}

/// A session can be taken once. Of two requests to take the session of one
/// token, the second is answered with nothing, whatever the first was
/// answered with.
pub proof fn lemma_session_taken_once(
    store: StoreModel,
    first: StoreRequest,
    second: StoreRequest,
    reply: StoreReply,
)
    requires
        first matches StoreRequest::TakeRefreshSession { refresh_token: taken }
            && second matches StoreRequest::TakeRefreshSession { refresh_token: again } && taken@
            == again@,
        store.after(first).answers(second, reply),
    ensures
        reply matches StoreReply::Session(None),
{
}

/// The content of an optional user record.
pub open spec fn shown(user: Option<User>) -> Option<UserView> {
    match user {
        Some(record) => Some(record@),
        None => None,
    }
}

} // verus!
