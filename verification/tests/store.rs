use auth_core::memory::MemoryStore;
use auth_core::models::{RefreshSession, UserRole};
use auth_core::store::{StoreReply, StoreRequest};

fn insert_user(store: &mut MemoryStore, nickname: &str, password_hash: &str) -> StoreReply {
    store.execute(StoreRequest::InsertUser {
        nickname: nickname.to_string(),
        password_hash: password_hash.to_string(),
    })
}

fn insert_session(store: &mut MemoryStore, user_id: i32, token: &str, expires_at: u64) -> StoreReply {
    store.execute(StoreRequest::InsertRefreshSession {
        session: RefreshSession { user_id, refresh_token: token.to_string(), expires_at },
    })
}

fn take(store: &mut MemoryStore, token: &str) -> StoreReply {
    store.execute(StoreRequest::TakeRefreshSession { refresh_token: token.to_string() })
}

#[test]
fn new_store_is_empty() {
    let mut store = MemoryStore::new();
    assert_eq!(store.user_count(), 0);
    assert_eq!(store.session_count(), 0);
    assert!(matches!(store.execute(StoreRequest::FindUserById { id: 1 }), StoreReply::User(None)));
    assert!(matches!(take(&mut store, "t"), StoreReply::Session(None)));
}

#[test]
fn accounts_get_ids_in_order_and_the_default_role() {
    let mut store = MemoryStore::new();
    assert!(matches!(insert_user(&mut store, "ann", "h1"), StoreReply::Done));
    assert!(matches!(insert_user(&mut store, "ben", "h2"), StoreReply::Done));
    assert_eq!(store.user_count(), 2);

    let StoreReply::User(Some(ben)) = store.execute(StoreRequest::FindUserById { id: 2 }) else {
        panic!("account 2 is missing");
    };
    assert_eq!(ben.id, 2);
    assert_eq!(ben.nickname, "ben");
    assert_eq!(ben.password_hash, "h2");
    assert_eq!(ben.role, UserRole::User);

    let reply = store.execute(StoreRequest::FindUserByNickname { nickname: "ann".to_string() });
    let StoreReply::User(Some(ann)) = reply else {
        panic!("ann is missing");
    };
    assert_eq!(ann.id, 1);
    assert_eq!(ann.password_hash, "h1");
}

#[test]
fn lookups_of_absent_accounts_answer_none() {
    let mut store = MemoryStore::new();
    insert_user(&mut store, "ann", "h1");
    for id in [0, 2, -1, i32::MIN, i32::MAX] {
        assert!(matches!(store.execute(StoreRequest::FindUserById { id }), StoreReply::User(None)));
    }
    let reply = store.execute(StoreRequest::FindUserByNickname { nickname: "Ann".to_string() });
    assert!(matches!(reply, StoreReply::User(None)));
}

#[test]
fn a_taken_nickname_is_refused() {
    let mut store = MemoryStore::new();
    assert!(matches!(insert_user(&mut store, "ann", "h1"), StoreReply::Done));
    assert!(matches!(insert_user(&mut store, "ann", "h2"), StoreReply::Failed));
    assert_eq!(store.user_count(), 1);
    let StoreReply::User(Some(ann)) = store.execute(StoreRequest::FindUserById { id: 1 }) else {
        panic!("ann is missing");
    };
    assert_eq!(ann.password_hash, "h1");
}

#[test]
fn role_changes_apply_to_existing_accounts_only() {
    let mut store = MemoryStore::new();
    insert_user(&mut store, "ann", "h1");
    assert!(!store.set_role(2, UserRole::Admin));
    assert!(!store.set_role(0, UserRole::Admin));
    assert!(store.set_role(1, UserRole::Admin));
    let StoreReply::User(Some(ann)) = store.execute(StoreRequest::FindUserById { id: 1 }) else {
        panic!("ann is missing");
    };
    assert_eq!(ann.role, UserRole::Admin);
    assert_eq!(ann.nickname, "ann");
    assert_eq!(ann.password_hash, "h1");
}

#[test]
fn a_session_is_taken_once() {
    let mut store = MemoryStore::new();
    assert!(matches!(insert_session(&mut store, 7, "aa", 100), StoreReply::Done));
    assert!(matches!(insert_session(&mut store, 8, "bb", 200), StoreReply::Done));
    assert_eq!(store.session_count(), 2);

    let StoreReply::Session(Some(row)) = take(&mut store, "aa") else {
        panic!("session aa is missing");
    };
    assert_eq!(row.user_id, 7);
    assert_eq!(row.refresh_token, "aa");
    assert_eq!(row.expires_at, 100);
    assert_eq!(store.session_count(), 1);

    assert!(matches!(take(&mut store, "aa"), StoreReply::Session(None)));
    assert_eq!(store.session_count(), 1);

    let StoreReply::Session(Some(row)) = take(&mut store, "bb") else {
        panic!("session bb is missing");
    };
    assert_eq!(row.user_id, 8);
    assert_eq!(row.expires_at, 200);
}

#[test]
fn a_stored_token_cannot_be_stored_again() {
    let mut store = MemoryStore::new();
    assert!(matches!(insert_session(&mut store, 7, "aa", 100), StoreReply::Done));
    assert!(matches!(insert_session(&mut store, 9, "aa", 900), StoreReply::Failed));
    assert_eq!(store.session_count(), 1);
    let StoreReply::Session(Some(row)) = take(&mut store, "aa") else {
        panic!("session aa is missing");
    };
    assert_eq!(row.user_id, 7);
    assert_eq!(row.expires_at, 100);
    assert!(matches!(insert_session(&mut store, 9, "aa", 900), StoreReply::Done));
}

#[test]
fn deleting_is_idempotent() {
    let mut store = MemoryStore::new();
    insert_session(&mut store, 7, "aa", 100);
    insert_session(&mut store, 7, "bb", 100);
    for _ in 0..2 {
        let reply =
            store.execute(StoreRequest::DeleteRefreshSession { refresh_token: "aa".to_string() });
        assert!(matches!(reply, StoreReply::Done));
        assert_eq!(store.session_count(), 1);
    }
    assert!(matches!(take(&mut store, "aa"), StoreReply::Session(None)));
    assert!(matches!(take(&mut store, "bb"), StoreReply::Session(Some(_))));
}
