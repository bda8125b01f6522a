//! A store held in memory: the reference against which the persistence
//! contract is stated, and the store behind single-process use.

use vstd::prelude::*;
use crate::models::{RefreshSession, User, UserRole};
use crate::store::{shown, Account, Lease, StoreModel, StoreReply, StoreRequest};

verus! {

/// Accounts and refresh sessions kept in two vectors. Account ids are the
/// positions counted from one; no two sessions share a token.
pub struct MemoryStore {
    users: Vec<User>,
    sessions: Vec<RefreshSession>,
}

impl View for MemoryStore {
    type V = StoreModel;

    closed spec fn view(&self) -> StoreModel {
        StoreModel {
            accounts: Seq::new(self.users@.len(), |i: int| account_of(self.users@[i])),
            sessions: sessions_of(self.sessions@),
        }
    }
}

/// The account row behind a user record.
spec fn account_of(user: User) -> Account {
    Account { nickname: user.nickname@, password_hash: user.password_hash@, role: user.role }
}

/// What the token of a stored session stands for.
spec fn lease_of(row: RefreshSession) -> Lease {
    Lease { user_id: row.user_id, expires_at: row.expires_at }
}

/// Row `i` is stored under `token`.
spec fn holds(rows: Seq<RefreshSession>, token: Seq<char>, i: int) -> bool {
    0 <= i < rows.len() && rows[i].refresh_token@ == token
}

/// No two rows share a token.
spec fn distinct_tokens(rows: Seq<RefreshSession>) -> bool {
    forall|i: int, j: int|
        0 <= i < j < rows.len() ==> (#[trigger] rows[i]).refresh_token@ != (
        #[trigger] rows[j]).refresh_token@
}

impl MemoryStore {
    #[verifier::type_invariant]
    spec fn inv(self) -> bool {
        &&& self.users@.len() <= 0x7fff_ffff
        &&& forall|i: int| 0 <= i < self.users@.len() ==> (#[trigger] self.users@[i]).id == i + 1
        &&& distinct_tokens(self.sessions@)
    }

    /// An empty store.
    pub fn new() -> (store: Self)
        ensures
            store@ =~= StoreModel::empty(),
            store@.wf(),
    {
        let store = MemoryStore { users: Vec::new(), sessions: Vec::new() };
        proof {
            lemma_model_wf(store);
        }
        store
    }

    /// Number of accounts.
    pub fn user_count(&self) -> (count: usize)
        ensures
            self@.wf(),
            count == self@.accounts.len(),
    {
        proof {
            use_type_invariant(self);
            lemma_model_wf(*self);
        }
        self.users.len()
    }

    /// Number of stored refresh sessions.
    pub fn session_count(&self) -> (count: usize)
        ensures
            self@.wf(),
            self@.sessions.dom().finite(),
            count == self@.sessions.dom().len(),
    {
        proof {
            use_type_invariant(self);
            lemma_model_wf(*self);
            lemma_session_count(self.sessions@);
            assert(self@.sessions.dom() =~= tokens_of(self.sessions@));
        }
        self.sessions.len()
    }

    fn copy_user(&self, index: usize) -> (user: User)
        requires
            index < self.users@.len(),
        ensures
            user@ == self@.user_at(index as int),
    {
        proof {
            use_type_invariant(self);
        }
        let row = &self.users[index];
        User {
            id: row.id,
            nickname: row.nickname.clone(),
            password_hash: row.password_hash.clone(),
            role: row.role,
        }
    }

    fn find_user_by_id(&self, id: i32) -> (found: Option<User>)
        ensures
            shown(found) == self@.user_by_id(id),
    {
        if id >= 1 && (id as usize) <= self.users.len() {
            Some(self.copy_user((id - 1) as usize))
        } else {
            None
        }
    }

    fn find_user_by_nickname(&self, nickname: &String) -> (found: Option<User>)
        ensures
            shown(found) == self@.user_by_nickname(nickname@),
    {
        let mut i: usize = 0;
        while i < self.users.len()
            invariant
                i <= self.users@.len(),
                forall|j: int| 0 <= j < i ==> (#[trigger] self@.accounts[j]).nickname != nickname@,
            decreases self.users@.len() - i,
        {
            if self.users[i].nickname == *nickname {
                proof {
                    assert(self@.first_named(nickname@, i as int));
                    let k = choose|index: int| self@.first_named(nickname@, index);
                    assert(self@.first_named(nickname@, k));
                    if k < i {
                        assert(self@.accounts[k].nickname != nickname@);
                    }
                    if i < k {
                        assert(self@.accounts[i as int].nickname != nickname@);
                    }
                }
                return Some(self.copy_user(i));
            }
            i += 1;
        }
        proof {
            assert forall|index: int| !self@.first_named(nickname@, index) by {
                if 0 <= index < self@.accounts.len() {
                    assert(self@.accounts[index].nickname != nickname@);
                }
            }
        }
        None
    }

    fn insert_user(&mut self, nickname: String, password_hash: String) -> (applied: bool)
        ensures
            applied == old(self)@.admits_account(nickname@),
            final(self)@ =~= if applied {
                old(self)@.with_account(nickname@, password_hash@)
            } else {
                old(self)@
            },
    {
        proof {
            use_type_invariant(&*self);
        }
        if self.users.len() >= 0x7fff_ffff {
            return false;
        }
        if self.find_user_by_nickname(&nickname).is_some() {
            return false;
        }
        let id = (self.users.len() + 1) as i32;
        let mut rows = Vec::new();
        std::mem::swap(&mut rows, &mut self.users);
        rows.push(User { id, nickname, password_hash, role: UserRole::User });
        self.users = rows;
        true
    }

    /// Gives the account with this id another role. Tokens minted before
    /// keep the role they were minted with; tokens minted after carry the
    /// new one.
    pub fn set_role(&mut self, user_id: i32, role: UserRole) -> (found: bool)
        ensures
            old(self)@.wf(),
            final(self)@.wf(),
            found == (old(self)@.user_by_id(user_id) is Some),
            final(self)@ =~= if found {
                old(self)@.with_role(user_id, role)
            } else {
                old(self)@
            },
    {
        proof {
            use_type_invariant(&*self);
            lemma_model_wf(*self);
        }
        if user_id < 1 || (user_id as usize) > self.users.len() {
            return false;
        }
        let index = (user_id - 1) as usize;
        let row = &self.users[index];
        let updated = User {
            id: row.id,
            nickname: row.nickname.clone(),
            password_hash: row.password_hash.clone(),
            role,
        };
        let mut rows = Vec::new();
        std::mem::swap(&mut rows, &mut self.users);
        rows.set(index, updated);
        self.users = rows;
        proof {
            lemma_model_wf(*self);
        }
        true
    }

    fn session_index(&self, refresh_token: &String) -> (found: Option<usize>)
        ensures
            match found {
                Some(i) => holds(self.sessions@, refresh_token@, i as int),
                None => forall|i: int| !holds(self.sessions@, refresh_token@, i),
            },
    {
        let mut i: usize = 0;
        while i < self.sessions.len()
            invariant
                i <= self.sessions@.len(),
                forall|j: int| 0 <= j < i ==> !holds(self.sessions@, refresh_token@, j),
            decreases self.sessions@.len() - i,
        {
            if self.sessions[i].refresh_token == *refresh_token {
                return Some(i);
            }
            i += 1;
        }
        None
    }

    fn take_refresh_session(&mut self, refresh_token: &String) -> (found: Option<RefreshSession>)
        ensures
            match found {
                Some(row) => row.refresh_token@ == refresh_token@ && old(self)@.session(
                    refresh_token@,
                ) == Some(lease_of(row)),
                None => old(self)@.session(refresh_token@) is None,
            },
            final(self)@ =~= old(self)@.without_session(refresh_token@),
    {
        proof {
            use_type_invariant(&*self);
        }
        match self.session_index(refresh_token) {
            Some(i) => {
                let ghost before = self.sessions@;
                let mut rows = Vec::new();
                std::mem::swap(&mut rows, &mut self.sessions);
                let row = rows.remove(i);
                proof {
                    lemma_lookup(before, refresh_token@, i as int);
                    lemma_remove(before, refresh_token@, i as int);
                }
                self.sessions = rows;
                Some(row)
            },
            None => {
                assert(!self@.sessions.contains_key(refresh_token@));
                None
            },
        }
    }

    fn insert_refresh_session(&mut self, session: RefreshSession) -> (applied: bool)
        ensures
            applied == !old(self)@.sessions.contains_key(session.refresh_token@),
            final(self)@ =~= if applied {
                old(self)@.with_session(session@)
            } else {
                old(self)@
            },
    {
        proof {
            use_type_invariant(&*self);
        }
        if self.session_index(&session.refresh_token).is_some() {
            return false;
        }
        let ghost before = self.sessions@;
        let mut rows = Vec::new();
        std::mem::swap(&mut rows, &mut self.sessions);
        rows.push(session);
        proof {
            lemma_push(before, session);
        }
        self.sessions = rows;
        true
    }

    fn delete_refresh_session(&mut self, refresh_token: &String)
        ensures
            final(self)@ =~= old(self)@.without_session(refresh_token@),
    {
        let _ = self.take_refresh_session(refresh_token);
    }

    /// Serves one request as an ideal store does.
    pub fn execute(&mut self, request: StoreRequest) -> (reply: StoreReply)
        ensures
            old(self)@.wf(),
            final(self)@.wf(),
            old(self)@.answers(request, reply),
            final(self)@ =~= old(self)@.after(request),
    {
        proof {
            use_type_invariant(&*self);
            lemma_model_wf(*self);
        }
        let reply = self.perform(request);
        proof {
            use_type_invariant(&*self);
            lemma_model_wf(*self);
        }
        reply
    }

    fn perform(&mut self, request: StoreRequest) -> (reply: StoreReply)
        ensures
            old(self)@.answers(request, reply),
            final(self)@ =~= old(self)@.after(request),
    {
        match request {
            StoreRequest::FindUserById { id } => StoreReply::User(self.find_user_by_id(id)),
            StoreRequest::FindUserByNickname { nickname } => StoreReply::User(
                self.find_user_by_nickname(&nickname),
            ),
            StoreRequest::InsertUser { nickname, password_hash } => {
                if self.insert_user(nickname, password_hash) {
                    StoreReply::Done
                } else {
                    StoreReply::Failed
                }
            },
            StoreRequest::TakeRefreshSession { refresh_token } => StoreReply::Session(
                self.take_refresh_session(&refresh_token),
            ),
            StoreRequest::InsertRefreshSession { session } => {
                if self.insert_refresh_session(session) {
                    StoreReply::Done
                } else {
                    StoreReply::Failed
                }
            },
            StoreRequest::DeleteRefreshSession { refresh_token } => {
                self.delete_refresh_session(&refresh_token);
                StoreReply::Done
            },
        }
    }
}

/// A store that keeps its invariant shows a well-formed content.
proof fn lemma_model_wf(store: MemoryStore)
    requires
        store.inv(),
    ensures
        store@.wf(),
{
    lemma_session_count(store.sessions@);
    assert(store@.sessions.dom() =~= tokens_of(store.sessions@));
}

/// The sessions map that a vector of rows stands for.
spec fn sessions_of(rows: Seq<RefreshSession>) -> Map<Seq<char>, Lease> {
    Map::new(
        |token: Seq<char>| exists|i: int| holds(rows, token, i),
        |token: Seq<char>| lease_of(rows[choose|i: int| holds(rows, token, i)]),
    )
}

/// The tokens under which rows are stored.
spec fn tokens_of(rows: Seq<RefreshSession>) -> Set<Seq<char>> {
    Set::new(|token: Seq<char>| exists|i: int| holds(rows, token, i))
}

/// With distinct tokens, the row found under a token is the one the map
/// shows for it.
proof fn lemma_lookup(rows: Seq<RefreshSession>, token: Seq<char>, i: int)
    requires
        distinct_tokens(rows),
        holds(rows, token, i),
    ensures
        sessions_of(rows).contains_key(token),
        sessions_of(rows)[token] == lease_of(rows[i]),
{
    let k = choose|k: int| holds(rows, token, k);
    if k < i {
        assert(rows[k].refresh_token@ != rows[i].refresh_token@);
    }
    if i < k {
        assert(rows[i].refresh_token@ != rows[k].refresh_token@);
    }
}

/// Appending a row under a fresh token inserts it into the map and keeps
/// the tokens distinct.
proof fn lemma_push(rows: Seq<RefreshSession>, row: RefreshSession)
    requires
        distinct_tokens(rows),
        forall|i: int| !holds(rows, row.refresh_token@, i),
    ensures
        distinct_tokens(rows.push(row)),
        sessions_of(rows.push(row)) =~= sessions_of(rows).insert(row.refresh_token@, lease_of(row)),
{
    let grown = rows.push(row);
    assert forall|i: int, j: int| 0 <= i < j < grown.len() implies (#[trigger] grown[i]).refresh_token@
        != (#[trigger] grown[j]).refresh_token@ by {
        if j == rows.len() {
            assert(!holds(rows, row.refresh_token@, i));
        } else {
            assert(rows[i].refresh_token@ != rows[j].refresh_token@);
        }
    }
    assert(holds(grown, row.refresh_token@, rows.len() as int));
    lemma_lookup(grown, row.refresh_token@, rows.len() as int);
    assert forall|token: Seq<char>| #[trigger]
        sessions_of(grown).contains_key(token) <==> sessions_of(rows).insert(
            row.refresh_token@,
            lease_of(row),
        ).contains_key(token) by {
        if sessions_of(grown).contains_key(token) {
            let i = choose|i: int| holds(grown, token, i);
            if i < rows.len() {
                assert(holds(rows, token, i));
            }
        }
        if sessions_of(rows).contains_key(token) {
            let i = choose|i: int| holds(rows, token, i);
            assert(holds(grown, token, i));
        }
    }
    assert forall|token: Seq<char>| sessions_of(grown).contains_key(token) implies #[trigger]
        sessions_of(grown)[token] == sessions_of(rows).insert(row.refresh_token@, lease_of(row))[token] by {
        if token != row.refresh_token@ {
            let i = choose|i: int| holds(rows, token, i);
            assert(holds(rows, token, i)) by {
                let k = choose|k: int| holds(grown, token, k);
                assert(holds(rows, token, k));
            }
            lemma_lookup(rows, token, i);
            assert(holds(grown, token, i));
            lemma_lookup(grown, token, i);
        }
    }
}

/// Removing the row stored under a token removes the token from the map
/// and keeps the other tokens distinct.
proof fn lemma_remove(rows: Seq<RefreshSession>, token: Seq<char>, i: int)
    requires
        distinct_tokens(rows),
        holds(rows, token, i),
    ensures
        distinct_tokens(rows.remove(i)),
        sessions_of(rows.remove(i)) =~= sessions_of(rows).remove(token),
{
    let rest = rows.remove(i);
    assert forall|a: int, b: int| 0 <= a < b < rest.len() implies (#[trigger] rest[a]).refresh_token@
        != (#[trigger] rest[b]).refresh_token@ by {
        let a0 = if a < i { a } else { a + 1 };
        let b0 = if b < i { b } else { b + 1 };
        assert(rows[a0].refresh_token@ != rows[b0].refresh_token@);
    }
    assert forall|other: Seq<char>| #[trigger]
        sessions_of(rest).contains_key(other) <==> sessions_of(rows).remove(token).contains_key(
            other,
        ) by {
        if sessions_of(rest).contains_key(other) {
            let k = choose|k: int| holds(rest, other, k);
            let k0 = if k < i { k } else { k + 1 };
            assert(holds(rows, other, k0));
            if k0 < i {
                assert(rows[k0].refresh_token@ != rows[i].refresh_token@);
            } else {
                assert(rows[i].refresh_token@ != rows[k0].refresh_token@);
            }
        }
        if sessions_of(rows).remove(token).contains_key(other) {
            let k = choose|k: int| holds(rows, other, k);
            assert(k != i);
            let k1 = if k < i { k } else { k - 1 };
            assert(holds(rest, other, k1));
        }
    }
    assert forall|other: Seq<char>| sessions_of(rest).contains_key(other) implies #[trigger]
        sessions_of(rest)[other] == sessions_of(rows).remove(token)[other] by {
        let k = choose|k: int| holds(rest, other, k);
        let k0 = if k < i { k } else { k + 1 };
        assert(holds(rows, other, k0));
        lemma_lookup(rest, other, k);
        lemma_lookup(rows, other, k0);
    }
}

/// With distinct tokens there are as many tokens as rows.
proof fn lemma_session_count(rows: Seq<RefreshSession>)
    requires
        distinct_tokens(rows),
    ensures
        tokens_of(rows).finite(),
        tokens_of(rows).len() == rows.len(),
    decreases rows.len(),
{
    if rows.len() == 0 {
        assert(tokens_of(rows) =~= Set::<Seq<char>>::empty());
    } else {
        let last = rows.last();
        let front = rows.drop_last();
        assert forall|i: int, j: int| 0 <= i < j < front.len() implies (#[trigger] front[i]).refresh_token@
            != (#[trigger] front[j]).refresh_token@ by {
            assert(rows[i].refresh_token@ != rows[j].refresh_token@);
        }
        lemma_session_count(front);
        assert(!tokens_of(front).contains(last.refresh_token@)) by {
            if tokens_of(front).contains(last.refresh_token@) {
                let i = choose|i: int| holds(front, last.refresh_token@, i);
                assert(rows[i].refresh_token@ != rows[rows.len() - 1].refresh_token@);
            }
        }
        assert(tokens_of(rows) =~= tokens_of(front).insert(last.refresh_token@)) by {
            assert forall|token: Seq<char>| #[trigger]
                tokens_of(rows).contains(token) <==> tokens_of(front).insert(
                    last.refresh_token@,
                ).contains(token) by {
                if tokens_of(rows).contains(token) {
                    let i = choose|i: int| holds(rows, token, i);
                    if i < front.len() {
                        assert(holds(front, token, i));
                    }
                }
                if tokens_of(front).contains(token) {
                    let i = choose|i: int| holds(front, token, i);
                    assert(holds(rows, token, i));
                }
                if token == last.refresh_token@ {
                    assert(holds(rows, token, rows.len() - 1));
                }
            }
        }
    }
}

} // verus!
