//! Credentials: the registry of users, password hashing and session tokens,
//! and what the host answers to a login.

pub mod jwt;
pub mod password;
pub mod users;

pub use jwt::{create_token, validate_token, Claims, TokenConfig};
pub use password::{hash_password, verify_password};
pub use users::{User, UserRole, UserStore};

use vstd::prelude::*;
use vstd::std_specs::convert::FromSpecImpl;
use crate::text::clone_opt;

verus! {

/// What the host shows of a user: everything but the credential.
#[derive(Debug)]
pub struct UserInfo {
    pub id: String,
    pub display_name: String,
    pub username: String,
    pub role: UserRole,
    pub created_at: u64,
    pub last_login_at: Option<u64>,
}

impl Clone for UserInfo {
    fn clone(&self) -> (r: Self)
        ensures
            r == *self,
    {
        UserInfo {
            id: self.id.clone(),
            display_name: self.display_name.clone(),
            username: self.username.clone(),
            role: self.role,
            created_at: self.created_at,
            last_login_at: self.last_login_at,
        }
    }
}

impl<'a> From<&'a User> for UserInfo {
    fn from(user: &'a User) -> (r: UserInfo) {
        UserInfo {
            id: user.id.clone(),
            display_name: user.display_name.clone(),
            username: user.username.clone(),
            role: user.role,
            created_at: user.created_at,
            last_login_at: user.last_login_at,
        }
    }
}

impl<'a> FromSpecImpl<&'a User> for UserInfo {
    open spec fn obeys_from_spec() -> bool {
        true
    }

    open spec fn from_spec(user: &'a User) -> UserInfo {
        UserInfo {
            id: user.id,
            display_name: user.display_name,
            username: user.username,
            role: user.role,
            created_at: user.created_at,
            last_login_at: user.last_login_at,
        }
    }
}

/// A session token and when it expires, in milliseconds since the epoch.
#[derive(Debug)]
pub struct SessionToken {
    pub token: String,
    pub expires_at: u64,
}

impl Clone for SessionToken {
    fn clone(&self) -> (r: Self)
        ensures
            r == *self,
    {
        SessionToken { token: self.token.clone(), expires_at: self.expires_at }
    }
}

/// What the host answers to a login or to the showing of a token.
#[derive(Debug)]
pub struct LoginResponse {
    pub success: bool,
    pub user: Option<UserInfo>,
    pub token: Option<SessionToken>,
    pub error: Option<String>,
}

impl Clone for LoginResponse {
    fn clone(&self) -> (r: Self)
        ensures
            r == *self,
    {
        LoginResponse {
            success: self.success,
            user: match &self.user {
                Some(u) => Some(u.clone()),
                None => None,
            },
            token: match &self.token {
                Some(t) => Some(t.clone()),
                None => None,
            },
            error: clone_opt(&self.error),
        }
    }
}

impl LoginResponse {
    /// The answer that turns a login down for the reason `error`.
    pub fn failure(error: &str) -> (r: LoginResponse)
        ensures
            !r.success,
            r.user is None,
            r.token is None,
            r.error is Some && r.error->0@ == error@,
    {
        LoginResponse { success: false, user: None, token: None, error: Some(error.to_owned()) }
    }
}

} // verus!
