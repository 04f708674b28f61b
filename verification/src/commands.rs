//! What the host itself asks of the server: to start and stop it, to log in,
//! to manage users, and to work on the documents without going through a
//! connection.

use vstd::prelude::*;
use vstd::string::*;
use crate::auth::jwt::{
    expiry_in_range, issue_token, issued_claims, token_claims, validate_token_at,
    validation_outcome, TokenConfig,
};
use crate::auth::password::{bcrypt_verifies, hash_password, verify_password};
use crate::auth::users::{
    name_taken, role_named, users_after_login, users_with_hash, users_with_role, User, UserRole,
    UserStore,
};
use crate::auth::{LoginResponse, SessionToken, UserInfo};
use crate::clock::unix_millis;
use crate::keyed::{as_map, distinct_keys};
use crate::server::documents::{
    deletion_found, index_model, index_with, index_without, metadata_of, planned,
    DocumentMetadata, DocumentStore, SavePlan,
};
use crate::server::protocol::{DocEvent, DocEventType};
use crate::server::{
    dotted, ip_to_string, Ipv4, ServerConfig, ServerStatus, StartPlan, WebSocketServer,
};
use crate::text::{opt_view, starts_with};

verus! {

/// Trusted: `nanoid::format` with the default random source and alphabet
/// gives a new random id of 21 characters. Nothing is promised of it.
#[verifier::external_body]
fn fresh_id() -> (r: String) {
    nanoid::format(nanoid::rngs::default, &nanoid::alphabet::SAFE, 21)
}

/// The host: the server, and whether the host runs as one.
pub struct AppState {
    /// Whether the host shares its documents with clients.
    pub server_mode: bool,
    /// The server, with the registry of users.
    pub server: WebSocketServer,
    /// How the tokens that the host issues are signed and how long they last.
    pub token_config: TokenConfig,
}

/// What the host shows of a user.
pub open spec fn info_of(user: User) -> UserInfo {
    UserInfo {
        id: user.id,
        display_name: user.display_name,
        username: user.username,
        role: user.role,
        created_at: user.created_at,
        last_login_at: user.last_login_at,
    }
}

/// What the host shows of a user.
pub fn user_info(user: &User) -> (r: UserInfo)
    ensures
        r == info_of(*user),
{
    UserInfo {
        id: user.id.clone(),
        display_name: user.display_name.clone(),
        username: user.username.clone(),
        role: user.role,
        created_at: user.created_at,
        last_login_at: user.last_login_at,
    }
}

/// The answer that turns a login down for the reason `error`.
pub open spec fn is_login_failure(r: LoginResponse, error: Seq<char>) -> bool {
    !r.success && r.user is None && r.token is None && opt_view(r.error) == Some(error)
}

/// What a login at the host comes to.
///
/// An unknown name changes nothing and is turned down. Else the user found
/// under the name is checked against the password: a credential that cannot
/// be checked and a wrong password change nothing and are turned down, the
/// latter in the words of an unknown name; a right password stamps the
/// login and is answered with the user and a token issued to the user at
/// that time, unless the token's expiry cannot be told in 64 bits of
/// milliseconds, in which case it is turned down.
pub open spec fn login_outcome(
    before: Map<Seq<char>, User>,
    after: Map<Seq<char>, User>,
    secret: Seq<char>,
    expiry_secs: u64,
    username: Seq<char>,
    password: Seq<char>,
    now: u64,
    r: LoginResponse,
) -> bool {
    if !name_taken(before, username) {
        after == before && is_login_failure(r, "Invalid username or password"@)
    } else {
        exists|id: Seq<char>|
            {
                &&& #[trigger] before.contains_key(id)
                &&& before[id].username@ == username
                &&& match bcrypt_verifies(password, before[id].password_hash@) {
                    None => after == before && is_login_failure(r, "Authentication error"@),
                    Some(false) => after == before && is_login_failure(
                        r,
                        "Invalid username or password"@,
                    ),
                    Some(true) => {
                        &&& after == users_after_login(before, id, now)
                        &&& if expiry_in_range(expiry_secs, (now / 1000) as u64) {
                            &&& r.success
                            &&& r.user == Some(info_of(before[id]))
                            &&& r.error is None
                            &&& r.token is Some
                            &&& r.token->0.token@.len() > 0
                            &&& token_claims(r.token->0.token@, secret) == Some(
                                issued_claims(
                                    id,
                                    username,
                                    before[id].role.name(),
                                    expiry_secs,
                                    (now / 1000) as u64,
                                ),
                            )
                            &&& r.token->0.expires_at == (now / 1000 + expiry_secs) * 1000
                        } else {
                            is_login_failure(r, "Failed to create session"@)
                        }
                    },
                }
            }
    }
}

/// What showing a token to the host comes to: a token that validates and
/// names a user of the host is answered with that user, and never with a
/// token.
pub open spec fn shown(
    users: Map<Seq<char>, User>,
    secret: Seq<char>,
    token: Seq<char>,
    now: u64,
    r: LoginResponse,
) -> bool {
    &&& r.token is None
    &&& match validation_outcome(token, secret, now) {
        Err(_) => is_login_failure(r, "Invalid or expired token"@),
        Ok(claims) => if users.contains_key(claims.sub) {
            r.success && r.user == Some(info_of(users[claims.sub])) && r.error is None
        } else {
            is_login_failure(r, "User not found"@)
        },
    }
}

impl AppState {
    /// The server is well formed and has a registry of users.
    pub open spec fn wf(&self) -> bool {
        self.server.wf() && self.server.user_store is Some
    }

    /// The users of the host.
    pub open spec fn users(&self) -> Map<Seq<char>, User> {
        self.server.user_store->0@
    }

    /// Whether the host differs from the host `before` in its users at
    /// most: the mode, the token configuration, the server's set-up and
    /// state, and the place where the registry is kept are those of `before`.
    pub open spec fn same_but_users(self, before: AppState) -> bool {
        &&& self.server_mode == before.server_mode
        &&& self.token_config == before.token_config
        &&& self.server.running == before.server.running
        &&& self.server.port == before.server.port
        &&& self.server.config == before.server.config
        &&& self.server.app_data_dir == before.server.app_data_dir
        &&& self.server.jwt_secret == before.server.jwt_secret
        &&& self.server.token_config == before.server.token_config
        &&& self.server.state == before.server.state
        &&& self.server.user_store is Some
        &&& before.server.user_store is Some
        &&& self.server.user_store->0.path() == before.server.user_store->0.path()
    }

    /// Whether the host differs from the host `before` in the index of its
    /// documents at most: the mode, the token configuration, the users, the
    /// server's set-up and the connections are those of `before`.
    pub open spec fn same_but_documents(self, before: AppState) -> bool {
        &&& self.server_mode == before.server_mode
        &&& self.token_config == before.token_config
        &&& self.server.running == before.server.running
        &&& self.server.port == before.server.port
        &&& self.server.config == before.server.config
        &&& self.server.app_data_dir == before.server.app_data_dir
        &&& self.server.jwt_secret == before.server.jwt_secret
        &&& self.server.token_config == before.server.token_config
        &&& self.server.user_store == before.server.user_store
        &&& match (self.server.state, before.server.state) {
            (Some(now), Some(then)) => {
                &&& now.clients == then.clients
                &&& now.next_client_id == then.next_client_id
                &&& now.client_count == then.client_count
                &&& now.jwt_secret == then.jwt_secret
                &&& now.token_config == then.token_config
            },
            (None, None) => true,
            _ => false,
        }
    }

    /// A host that does not run as a server, with the users given.
    pub fn new(users: UserStore, token_config: TokenConfig) -> (r: Self)
        requires
            users.wf(),
        ensures
            r.wf(),
            !r.server_mode,
            !r.server.running,
            r.server.state is None,
            r.server.user_store == Some(users),
            r.token_config == token_config,
    {
        let mut server = WebSocketServer::new();
        let secret = token_config.secret.clone();
        server.set_user_store(users);
        server.set_jwt_secret(secret);
        server.set_token_config(token_config.clone());
        AppState { server_mode: false, server, token_config }
    }

    /// Whether the host runs as a server.
    pub fn get_server_mode(&self) -> (r: bool)
        ensures
            r == self.server_mode,
    {
        self.server_mode
    }

    /// Sets whether the host runs as a server.
    pub fn set_server_mode(&mut self, enabled: bool)
        ensures
            *final(self) == (AppState { server_mode: enabled, ..*old(self) }),
    {
        self.server_mode = enabled;
    }

    /// What the server reports of itself.
    pub fn get_server_status(&self, lan_ips: &Vec<Ipv4>) -> (r: ServerStatus)
        ensures
            self.server.reports(lan_ips@, r),
    {
        self.server.status(lan_ips)
    }

    /// How the server is set up.
    pub fn get_server_config(&self) -> (r: ServerConfig)
        ensures
            r == self.server.config,
    {
        self.server.get_config()
    }

    /// Sets the server up anew. A running server refuses.
    pub fn set_server_config(&mut self, config: ServerConfig) -> (r: Result<(), String>)
        ensures
            match r {
                Ok(_) => !old(self).server.running && final(self).server == (WebSocketServer {
                    config,
                    ..old(self).server
                }),
                Err(e) => old(self).server.running && final(self).server == old(self).server
                    && e@ == "Cannot change configuration while server is running"@,
            },
            final(self).server_mode == old(self).server_mode,
            final(self).token_config == old(self).token_config,
    {
        self.server.set_config(config)
    }

    /// Begins the starting of the server: see [`WebSocketServer::start`].
    pub fn start_server(&mut self, port: u16) -> (r: Result<StartPlan, String>)
        ensures
            WebSocketServer::start_begun(old(self).server, final(self).server, port, r),
            final(self).server_mode == old(self).server_mode,
            final(self).token_config == old(self).token_config,
    {
        self.server.start(port)
    }

    /// Ends the starting of the server: the server runs on `actual_port`,
    /// and the host runs as a server.
    pub fn server_started(&mut self, actual_port: u16, lan_ips: &Vec<Ipv4>) -> (r: String)
        ensures
            final(self).server_mode,
            final(self).server == (WebSocketServer {
                running: true,
                port: actual_port,
                ..old(self).server
            }),
            final(self).token_config == old(self).token_config,
            r@ == crate::server::primary_address(
                old(self).server.config.network_mode,
                actual_port,
                lan_ips@,
            ),
    {
        let address = self.server.started(actual_port, lan_ips);
        self.server_mode = true;
        address
    }

    /// Stops the server; the host no longer runs as one.
    pub fn stop_server(&mut self)
        ensures
            !final(self).server_mode,
            final(self).token_config == old(self).token_config,
            match old(self).server.running {
                true => final(self).server == (WebSocketServer {
                    running: false,
                    port: 0,
                    state: None,
                    ..old(self).server
                }),
                false => final(self).server == old(self).server,
            },
    {
        self.server.stop();
        self.server_mode = false;
    }

    /// Logs a user in at the host, at the time `now` in milliseconds.
    ///
    /// An unknown name and a wrong password are turned down in the same
    /// words. A right password stamps the login and, where a token can be
    /// issued, is answered with the user and a token that names the user.
    pub fn login_at(&mut self, username: &str, password: &str, now: u64) -> (r: LoginResponse)
        requires
            old(self).wf(),
        ensures
            final(self).wf(),
            final(self).same_but_users(*old(self)),
            login_outcome(
                old(self).users(),
                final(self).users(),
                old(self).token_config.secret@,
                old(self).token_config.expiry_secs,
                username@,
                password@,
                now,
                r,
            ),
    {
        let users = match &mut self.server.user_store {
            Some(s) => s,
            None => {
                return LoginResponse::failure("Authentication error");
            },
        };
        let ghost before = users@;
        let user = match users.get_user_by_username(username) {
            Some(u) => u,
            None => {
                return LoginResponse::failure("Invalid username or password");
            },
        };
        proof {
            users.lemma_users_keyed();
            assert(before.contains_key(user.id@));
        }
        match verify_password(password, user.password_hash.as_str()) {
            Ok(true) => {},
            Ok(false) => {
                return LoginResponse::failure("Invalid username or password");
            },
            Err(_) => {
                return LoginResponse::failure("Authentication error");
            },
        }
        users.update_last_login_at(user.id.as_str(), now);
        let role = user.role.to_string();
        let (token, expires_at) = match issue_token(
            user.id.as_str(),
            user.username.as_str(),
            role.as_str(),
            &self.token_config,
            now / 1000,
        ) {
            Ok(t) => t,
            Err(_) => {
                return LoginResponse::failure("Failed to create session");
            },
        };
        proof {
            assert(before.contains_key(user.id@));
        }
        LoginResponse {
            success: true,
            user: Some(user_info(&user)),
            token: Some(SessionToken { token, expires_at }),
            error: None,
        }
    }

    /// Logs a user in at the host, now.
    pub fn login(&mut self, username: &str, password: &str) -> (r: LoginResponse)
        requires
            old(self).wf(),
        ensures
            final(self).wf(),
            final(self).same_but_users(*old(self)),
            exists|now: u64|
                #[trigger] login_outcome(
                    old(self).users(),
                    final(self).users(),
                    old(self).token_config.secret@,
                    old(self).token_config.expiry_secs,
                    username@,
                    password@,
                    now,
                    r,
                ),
    {
        let now = unix_millis();
        self.login_at(username, password, now)
    }

    /// Shows a token to the host at the time `now`, in seconds: a token that
    /// validates and names a user of the host is answered with that user.
    pub fn validate_token_at(&self, token: &str, now: u64) -> (r: LoginResponse)
        requires
            self.wf(),
        ensures
            shown(self.users(), self.token_config.secret@, token@, now, r),
    {
        let claims = match validate_token_at(token, self.token_config.secret.as_str(), now) {
            Ok(c) => c,
            Err(_) => {
                return LoginResponse::failure("Invalid or expired token");
            },
        };
        let users = match &self.server.user_store {
            Some(s) => s,
            None => {
                return LoginResponse::failure("User not found");
            },
        };
        match users.get_user(claims.sub.as_str()) {
            Some(user) => LoginResponse {
                success: true,
                user: Some(user_info(&user)),
                token: None,
                error: None,
            },
            None => LoginResponse::failure("User not found"),
        }
    }

    /// Shows a token to the host, now.
    pub fn validate_token(&self, token: &str) -> (r: LoginResponse)
        requires
            self.wf(),
        ensures
            exists|now: u64| #[trigger]
                shown(self.users(), self.token_config.secret@, token@, now, r),
    {
        let now = unix_millis() / 1000;
        self.validate_token_at(token, now)
    }

    /// Adds a user with an id, a credential and a time of creation that are
    /// given. Fails where the name is taken.
    pub fn add_new_user(
        &mut self,
        id: String,
        username: &str,
        password_hash: String,
        display_name: &str,
        role: UserRole,
        now: u64,
    ) -> (r: Result<UserInfo, String>)
        requires
            old(self).wf(),
        ensures
            final(self).wf(),
            final(self).same_but_users(*old(self)),
            match r {
                Ok(info) => {
                    &&& !name_taken(old(self).users(), username@)
                    &&& final(self).users().contains_key(id@)
                    &&& final(self).users() == old(self).users().insert(
                        id@,
                        final(self).users()[id@],
                    )
                    &&& info == info_of(final(self).users()[id@])
                    &&& info.id == id
                    &&& info.username@ == username@
                    &&& info.display_name@ == display_name@
                    &&& info.role == role
                    &&& info.created_at == now
                    &&& info.last_login_at is None
                    &&& final(self).users()[id@].password_hash == password_hash
                },
                Err(e) => name_taken(old(self).users(), username@) && final(self).users()
                    == old(self).users() && e@ == "Username already exists"@,
            },
    {
        let users = match &mut self.server.user_store {
            Some(s) => s,
            None => {
                return Err("Username already exists".to_owned());
            },
        };
        let user = User {
            id,
            display_name: display_name.to_owned(),
            username: username.to_owned(),
            password_hash,
            role,
            created_at: now,
            last_login_at: None,
        };
        let info = user_info(&user);
        match users.add_user(user) {
            Ok(_) => Ok(info),
            Err(e) => Err(e),
        }
    }

    /// Creates a user: the role must be `admin` or `user`, the password is
    /// hashed, and the user gets a new id.
    pub fn create_user(
        &mut self,
        username: &str,
        password: &str,
        display_name: &str,
        role: &str,
    ) -> (r: Result<UserInfo, String>)
        requires
            old(self).wf(),
        ensures
            final(self).wf(),
            final(self).same_but_users(*old(self)),
            match role_named(role@) {
                None => r matches Err(e) && e@ == "Invalid role"@ && final(self).users()
                    == old(self).users(),
                Some(wanted) => match r {
                    Ok(info) => {
                        &&& info.role == wanted
                        &&& !name_taken(old(self).users(), username@)
                        &&& info.username@ == username@
                        &&& info.display_name@ == display_name@
                        &&& info.last_login_at is None
                        &&& final(self).users().contains_key(info.id@)
                        &&& final(self).users() == old(self).users().insert(
                            info.id@,
                            final(self).users()[info.id@],
                        )
                        &&& info == info_of(final(self).users()[info.id@])
                        &&& bcrypt_verifies(
                            password@,
                            final(self).users()[info.id@].password_hash@,
                        ) == Some(true)
                    },
                    Err(e) => {
                        &&& final(self).users() == old(self).users()
                        &&& {
                            ||| starts_with(e@, "Password hashing error: "@)
                            ||| name_taken(old(self).users(), username@) && e@
                                == "Username already exists"@
                        }
                    },
                },
            },
    {
        let user_role = match UserRole::parse(role) {
            Some(r) => r,
            None => {
                return Err("Invalid role".to_owned());
            },
        };
        let password_hash = match hash_password(password) {
            Ok(h) => h,
            Err(e) => {
                return Err(e);
            },
        };
        let id = fresh_id();
        let now = unix_millis();
        self.add_new_user(id, username, password_hash, display_name, user_role, now)
    }

    /// Whether the host has any user.
    pub fn has_users(&self) -> (r: bool)
        requires
            self.wf(),
        ensures
            r == (self.users() != Map::<Seq<char>, User>::empty()),
    {
        match &self.server.user_store {
            Some(s) => s.has_users(),
            None => false,
        }
    }

    /// What the host shows of all its users.
    pub fn list_users(&self) -> (r: Vec<UserInfo>)
        requires
            self.wf(),
        ensures
            r@.len() == self.users().len(),
            forall|i: int|
                0 <= i < r@.len() ==> self.users().contains_key((#[trigger] r@[i]).id@) && r@[i]
                    == info_of(self.users()[r@[i].id@]),
            forall|i: int, j: int| 0 <= i < j < r@.len() ==> r@[i].id@ != r@[j].id@,
    {
        let users = match &self.server.user_store {
            Some(s) => s.list_users(),
            None => Vec::new(),
        };
        proof {
            lemma_as_map_len(users@);
        }
        let mut out: Vec<UserInfo> = Vec::new();
        let mut i: usize = 0;
        while i < users.len()
            invariant
                i <= users.len(),
                out@.len() == i,
                forall|j: int| 0 <= j < i ==> (#[trigger] out@[j]) == info_of(users@[j]),
            decreases users.len() - i,
        {
            out.push(user_info(&users[i]));
            i += 1;
        }
        proof {
            assert forall|i: int| 0 <= i < out@.len() implies self.users().contains_key(
                (#[trigger] out@[i]).id@,
            ) && out@[i] == info_of(self.users()[out@[i].id@]) by {
                crate::keyed::lemma_as_map_at(users@, i);
            }
            assert forall|i: int, j: int| 0 <= i < j < out@.len() implies out@[i].id@
                != out@[j].id@ by {
                assert(users@[i].id@ != users@[j].id@);
            }
        }
        out
    }

    /// Sets the role of a user; the role must be `admin` or `user`.
    pub fn update_user_role(&mut self, user_id: &str, new_role: &str) -> (r: Result<(), String>)
        requires
            old(self).wf(),
        ensures
            final(self).wf(),
            final(self).same_but_users(*old(self)),
            match role_named(new_role@) {
                None => r matches Err(e) && e@ == "Invalid role"@ && final(self).users()
                    == old(self).users(),
                Some(role) => if old(self).users().contains_key(user_id@) {
                    r is Ok && final(self).users() == users_with_role(
                        old(self).users(),
                        user_id@,
                        role,
                    )
                } else {
                    r matches Err(e) && e@ == "User not found"@ && final(self).users()
                        == old(self).users()
                },
            },
    {
        let role = match UserRole::parse(new_role) {
            Some(r) => r,
            None => {
                return Err("Invalid role".to_owned());
            },
        };
        match &mut self.server.user_store {
            Some(s) => s.update_user_role(user_id, role),
            None => Err("User not found".to_owned()),
        }
    }

    /// Gives a user a new password, of six bytes at least.
    pub fn reset_user_password(&mut self, user_id: &str, new_password: &str) -> (r: Result<
        (),
        String,
    >)
        requires
            old(self).wf(),
        ensures
            final(self).wf(),
            final(self).same_but_users(*old(self)),
            if new_password.len() < 6 {
                &&& r matches Err(e)
                &&& e@ == "Password must be at least 6 characters"@
                &&& final(self).users() == old(self).users()
            } else {
                match r {
                    Ok(_) => {
                        &&& old(self).users().contains_key(user_id@)
                        &&& final(self).users().contains_key(user_id@)
                        &&& final(self).users() == users_with_hash(
                            old(self).users(),
                            user_id@,
                            final(self).users()[user_id@].password_hash,
                        )
                        &&& bcrypt_verifies(
                            new_password@,
                            final(self).users()[user_id@].password_hash@,
                        ) == Some(true)
                    },
                    Err(e) => {
                        &&& final(self).users() == old(self).users()
                        &&& {
                            ||| starts_with(e@, "Password hashing error: "@)
                            ||| !old(self).users().contains_key(user_id@) && e@
                                == "User not found"@
                        }
                    },
                }
            },
    {
        if new_password.len() < 6 {
            return Err("Password must be at least 6 characters".to_owned());
        }
        let password_hash = match hash_password(new_password) {
            Ok(h) => h,
            Err(e) => {
                return Err(e);
            },
        };
        match &mut self.server.user_store {
            Some(s) => s.update_user_password(user_id, password_hash),
            None => Err("User not found".to_owned()),
        }
    }

    /// Removes a user. Fails where there is no such user.
    pub fn delete_user(&mut self, user_id: &str) -> (r: Result<(), String>)
        requires
            old(self).wf(),
        ensures
            final(self).wf(),
            final(self).same_but_users(*old(self)),
            final(self).users() == old(self).users().remove(user_id@),
            match r {
                Ok(_) => old(self).users().contains_key(user_id@),
                Err(e) => !old(self).users().contains_key(user_id@) && e@ == "User not found"@,
            },
    {
        let removed = match &mut self.server.user_store {
            Some(s) => s.remove_user(user_id),
            None => false,
        };
        if removed {
            Ok(())
        } else {
            Err("User not found".to_owned())
        }
    }

    /// The addresses of this machine in the local network, in dotted
    /// decimal.
    pub fn get_lan_addresses(lan_ips: &Vec<Ipv4>) -> (r: Vec<String>)
        ensures
            r@.len() == lan_ips@.len(),
            forall|i: int| 0 <= i < r@.len() ==> (#[trigger] r@[i])@ == dotted(lan_ips@[i]),
    {
        let mut out: Vec<String> = Vec::new();
        let mut i: usize = 0;
        while i < lan_ips.len()
            invariant
                i <= lan_ips.len(),
                out@.len() == i,
                forall|j: int| 0 <= j < i ==> (#[trigger] out@[j])@ == dotted(lan_ips@[j]),
            decreases lan_ips.len() - i,
        {
            out.push(ip_to_string(&lan_ips[i]));
            i += 1;
        }
        out
    }

    /// The metadata of all team documents. Fails where the server was not
    /// started.
    pub fn list_team_documents(&self) -> (r: Result<Vec<DocumentMetadata>, String>)
        requires
            self.wf(),
        ensures
            match r {
                Ok(docs) => self.server.state is Some && distinct_keys(docs@) && index_model(docs@)
                    == self.server.state->0.doc_store@,
                Err(e) => self.server.state is None && e@ == "Server not running"@,
            },
    {
        match self.server.get_doc_store() {
            Some(store) => Ok(store.list_documents()),
            None => Err("Server not running".to_owned()),
        }
    }

    /// The body of a team document, given what reading its file gave: see
    /// [`DocumentStore::get_document`].
    pub fn get_team_document(&self, doc_id: &str, file: Result<String, String>) -> (r: Result<
        serde_json::Value,
        String,
    >)
        requires
            self.wf(),
        ensures
            match self.server.state {
                None => r matches Err(e) && e@ == "Server not running"@,
                Some(state) => match r {
                    Ok(body) => state.doc_store.stored_body(doc_id@, file) == Some(body),
                    Err(e) => state.doc_store.stored_body(doc_id@, file) is None
                        && state.doc_store.is_read_error(doc_id@, file, e@),
                },
            },
    {
        match self.server.get_doc_store() {
            Some(store) => store.get_document(doc_id, file),
            None => Err("Server not running".to_owned()),
        }
    }

    /// Prepares the saving of a team document on the host: see
    /// [`DocumentStore::save_document`].
    pub fn save_team_document(&self, document: serde_json::Value, now: u64) -> (r: Result<
        SavePlan,
        String,
    >)
        requires
            self.wf(),
        ensures
            match metadata_of(document, now) {
                None => r matches Err(e) && e@ == "Document missing 'id' field"@,
                Some(m) => match self.server.state {
                    None => r matches Err(e) && e@ == "Server not running"@,
                    Some(_) => planned(document, m, r),
                },
            },
    {
        if crate::server::documents::extract_metadata(&document, now).is_none() {
            return Err("Document missing 'id' field".to_owned());
        }
        match self.server.get_doc_store() {
            Some(store) => store.save_document(document, now),
            None => Err("Server not running".to_owned()),
        }
    }

    /// Enters a team document that the host has written into the index, and
    /// returns the event that tells the clients: `created` for a document
    /// that is new to the index, else `updated`.
    pub fn team_document_saved(&mut self, metadata: DocumentMetadata) -> (r: Option<DocEvent>)
        requires
            old(self).wf(),
            metadata.id@.len() > 0,
        ensures
            final(self).wf(),
            final(self).same_but_documents(*old(self)),
            match old(self).server.state {
                None => r is None && final(self).server.state is None,
                Some(state) => {
                    &&& final(self).server.state is Some
                    &&& final(self).server.state->0.doc_store@ == index_with(
                        state.doc_store@,
                        metadata@,
                    )
                    &&& r matches Some(event)
                    &&& event.event_type == (if state.doc_store@.contains_key(metadata.id@) {
                        DocEventType::Updated
                    } else {
                        DocEventType::Created
                    })
                    &&& event.doc_id@ == metadata.id@
                    &&& event.user_id@ == "system"@
                    &&& event.metadata matches Some(m)
                    &&& m@ == metadata@
                },
            },
    {
        let doc_id = metadata.id.clone();
        let created = match &mut self.server.state {
            Some(state) => state.doc_store.commit(metadata),
            None => {
                return None;
            },
        };
        let event_type = if created {
            DocEventType::Created
        } else {
            DocEventType::Updated
        };
        self.server.broadcast_doc_event(doc_id.as_str(), event_type, None)
    }

    /// Takes a team document out of the index on the host. `file_existed`
    /// says whether the document's file was found and removed. Returns
    /// whether anything was deleted, and the event that tells the clients
    /// where something was.
    pub fn delete_team_document(&mut self, doc_id: &str, file_existed: bool) -> (r: Result<
        (bool, Option<DocEvent>),
        String,
    >)
        requires
            old(self).wf(),
        ensures
            final(self).wf(),
            final(self).same_but_documents(*old(self)),
            match old(self).server.state {
                None => r matches Err(e) && e@ == "Server not running"@
                    && final(self).server.state is None,
                Some(state) => {
                    &&& final(self).server.state is Some
                    &&& final(self).server.state->0.doc_store@ == index_without(
                        state.doc_store@,
                        doc_id@,
                    )
                    &&& r matches Ok((deleted, event))
                    &&& deleted == deletion_found(state.doc_store@, doc_id@, file_existed)
                    &&& match event {
                        Some(e) => deleted && e.event_type == DocEventType::Deleted && e.doc_id@
                            == doc_id@ && e.user_id@ == "system"@ && e.metadata is None,
                        None => !deleted,
                    }
                },
            },
    {
        let deleted = match &mut self.server.state {
            Some(state) => state.doc_store.delete_document(doc_id, file_existed),
            None => {
                return Err("Server not running".to_owned());
            },
        };
        let event = if deleted {
            self.server.broadcast_doc_event(doc_id, DocEventType::Deleted, None)
        } else {
            None
        };
        Ok((deleted, event))
    }
}

/// A list without a repeated key has as many records as its map has keys.
pub proof fn lemma_as_map_len(s: Seq<User>)
    requires
        distinct_keys(s),
    ensures
        as_map(s).dom().finite(),
        as_map(s).len() == s.len(),
    decreases s.len(),
{
    if s.len() == 0 {
        assert(as_map(s) =~= Map::<Seq<char>, User>::empty());
    } else {
        let front = s.drop_last();
        assert forall|i: int, j: int| 0 <= i < j < front.len() implies front[i].id@
            != front[j].id@ by {
            assert(s[i].id@ != s[j].id@);
        }
        lemma_as_map_len(front);
        assert(!crate::keyed::has_key(front, s.last().id@)) by {
            if crate::keyed::has_key(front, s.last().id@) {
                let i = crate::keyed::index_of(front, s.last().id@);
                assert(s[i].id@ != s[s.len() - 1].id@);
            }
        }
        crate::keyed::lemma_as_map_push(front, s.last());
        assert(front.push(s.last()) =~= s);
    }
}

} // verus!
