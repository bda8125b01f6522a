//! Plain data exchanged between the core, its store and its callers.

use vstd::prelude::*;

verus! {

/// The role a user holds; it gates administrative operations.
#[derive(Clone, Copy, Debug, PartialEq, Eq, Structural)]
pub enum UserRole {
    User,
    Admin,
}

impl UserRole {
    /// The name under which the role travels inside an access token.
    pub open spec fn claim_name(self) -> Seq<char> {
        match self {
            UserRole::User => "User"@,
            UserRole::Admin => "Admin"@,
        }
    }

    /// The role that a claim name denotes, if any.
    pub open spec fn named_by(name: Seq<char>) -> Option<UserRole> {
        if name == "User"@ {
            Some(UserRole::User)
        } else if name == "Admin"@ {
            Some(UserRole::Admin)
        } else {
            None
        }
    }

    /// The lower-case name used when the role is shown to people.
    pub open spec fn display_name(self) -> Seq<char> {
        match self {
            UserRole::User => "user"@,
            UserRole::Admin => "admin"@,
        }
    }

    /// Every role is recovered from its own claim name.
    pub proof fn lemma_claim_name_round_trip(self)
        ensures
            UserRole::named_by(self.claim_name()) == Some(self),
    {
        reveal_strlit("User");
        reveal_strlit("Admin");
        assert("User"@.len() == 4 && "Admin"@.len() == 5);
    }

    pub fn as_claim(&self) -> (name: &'static str)
        ensures
            name@ == self.claim_name(),
    {
        match self {
            UserRole::User => "User",
            UserRole::Admin => "Admin",
        }
    }

    pub fn from_claim(name: &str) -> (role: Option<UserRole>)
        ensures
            role == UserRole::named_by(name@),
    {
        let owned = name.to_owned();
        if owned == "User".to_owned() {
            Some(UserRole::User)
        } else if owned == "Admin".to_owned() {
            Some(UserRole::Admin)
        } else {
            None
        }
    }

    pub fn to_string(&self) -> (text: String)
        ensures
            text@ == self.display_name(),
    {
        match self {
            UserRole::User => "user".to_owned(),
            UserRole::Admin => "admin".to_owned(),
        }
    }
}

/// A registered account as the store keeps it.
#[derive(Debug)]
pub struct User {
    pub id: i32,
    pub nickname: String,
    pub password_hash: String,
    pub role: UserRole,
}

/// The mathematical content of a [`User`].
pub struct UserView {
    pub id: i32,
    pub nickname: Seq<char>,
    pub password_hash: Seq<char>,
    pub role: UserRole,
}

impl View for User {
    type V = UserView;

    open spec fn view(&self) -> UserView {
        UserView {
            id: self.id,
            nickname: self.nickname@,
            password_hash: self.password_hash@,
            role: self.role,
        }
    }
}

/// The identity carried, signed, inside an access token.
#[derive(Clone, Copy, Debug, PartialEq, Eq, Structural)]
pub struct Claims {
    /// Expiry, in seconds since the Unix epoch.
    pub exp: u64,
    /// Time of issue, in seconds since the Unix epoch.
    pub iat: u64,
    pub user_id: i32,
    pub role: UserRole,
}

/// The pair handed out at login and at every refresh.
#[derive(Debug)]
pub struct AuthResponse {
    pub access_token: String,
    pub refresh_token: String,
}

/// A stored refresh session: who may refresh with which token, and until when.
#[derive(Debug)]
pub struct RefreshSession {
    pub user_id: i32,
    pub refresh_token: String,
    /// Absolute expiry, in seconds since the Unix epoch.
    pub expires_at: u64,
}

/// The mathematical content of a [`RefreshSession`].
pub struct SessionView {
    pub user_id: i32,
    pub refresh_token: Seq<char>,
    pub expires_at: u64,
}

impl View for RefreshSession {
    type V = SessionView;

    open spec fn view(&self) -> SessionView {
        SessionView {
            user_id: self.user_id,
            refresh_token: self.refresh_token@,
            expires_at: self.expires_at,
        }
    }
}

#[derive(Debug)]
pub struct RegisterPayload {
    pub nickname: String,
    pub password: String,
}

#[derive(Debug)]
pub struct LoginPayload {
    pub nickname: String,
    pub password: String,
}

#[derive(Debug)]
pub struct RefreshPayload {
    pub refresh_token: String,
}

/// One answer of a test submission.
#[derive(Debug)]
pub struct AnswerPayload {
    pub question_id: i32,
    pub answer: String,
}

/// The answers a user submits for a test.
#[derive(Debug)]
pub struct TestSubmissionPayload {
    pub answers: Vec<AnswerPayload>,
}

/// The grade of a submission.
#[derive(Clone, Copy, Debug, PartialEq, Eq, Structural)]
pub struct TestResultResponse {
    pub score: usize,
    pub total_questions: usize,
}

} // verus!
