//! What the server does with each message of a client.
//!
//! The server reads and writes files between its decisions. It does neither
//! itself: a step ends with what is to be sent and, where a file is
//! involved, with what is to be done to the disk and what the server waits
//! for; the caller does it and comes back with the outcome.

use std::collections::HashMap;
use vstd::prelude::*;
use vstd::std_specs::hash::*;
use crate::auth::jwt::{
    expiry_in_range, issue_token, issued_claims, token_claims, validate_token_at,
    validation_outcome, TokenConfig,
};
use crate::auth::password::{bcrypt_verifies, verify_password};
use crate::auth::users::{name_taken, users_after_login, UserStore};
use crate::server::documents::{
    deletion_found, doc_path_of, index_model, index_with, index_without, metadata_of,
    owner_metadata, owner_patch, planned, requested_shares, shares_metadata, shares_patch,
    DocumentMetadata, DocumentMetadataView, DocumentStore, SavePlan,
};
use crate::server::permissions::{
    check_permission, opt_str_view, permission_check, to_error_string, Permission, PermissionError,
};
use crate::server::protocol::{
    decode_message_type, decode_payload, encode_message, frame_of, frame_payload, frame_type,
    AuthLoginRequest, AuthResponse, DocDeleteRequest, DocDeleteResponse, DocEvent, DocEventType,
    DocGetRequest, DocGetResponse, DocListRequest, DocListResponse, DocSaveRequest,
    DocSaveResponse, DocShareRequest, DocShareResponse, DocTransferRequest, DocTransferResponse,
    ErrorResponse, JoinDocRequest, MESSAGE_AUTH, MESSAGE_AUTH_LOGIN, MESSAGE_AUTH_RESPONSE,
    MESSAGE_AWARENESS, MESSAGE_DOC_DELETE, MESSAGE_DOC_EVENT, MESSAGE_DOC_GET, MESSAGE_DOC_LIST,
    MESSAGE_DOC_SAVE, MESSAGE_DOC_SHARE, MESSAGE_DOC_TRANSFER, MESSAGE_ERROR, MESSAGE_JOIN_DOC,
    MESSAGE_SYNC,
};
use crate::keyed::distinct_keys;
use crate::json::{get_text, json_bytes, json_of_bytes, json_rendered, json_text, text, text_at};
use crate::server::protocol::entries_view;
use crate::server::session::{is_target, BroadcastMessage, ClientState};
use crate::text::{concat_str, opt_view, starts_with};

verus! {

broadcast use group_hash_axioms;

/// A message of the server to a client.
#[derive(Debug, Clone)]
pub enum ServerMessage {
    Auth(AuthResponse),
    DocList(DocListResponse),
    DocGet(DocGetResponse),
    DocSave(DocSaveResponse),
    DocDelete(DocDeleteResponse),
    DocShare(DocShareResponse),
    DocTransfer(DocTransferResponse),
    Event(DocEvent),
    Error(ErrorResponse),
}

impl ServerMessage {
    /// The kind of message, as the first byte of its frame tells it.
    pub open spec fn kind(self) -> u8 {
        match self {
            ServerMessage::Auth(_) => MESSAGE_AUTH_RESPONSE,
            ServerMessage::DocList(_) => MESSAGE_DOC_LIST,
            ServerMessage::DocGet(_) => MESSAGE_DOC_GET,
            ServerMessage::DocSave(_) => MESSAGE_DOC_SAVE,
            ServerMessage::DocDelete(_) => MESSAGE_DOC_DELETE,
            ServerMessage::DocShare(_) => MESSAGE_DOC_SHARE,
            ServerMessage::DocTransfer(_) => MESSAGE_DOC_TRANSFER,
            ServerMessage::Event(_) => MESSAGE_DOC_EVENT,
            ServerMessage::Error(_) => MESSAGE_ERROR,
        }
    }

    /// The kind of message, as the first byte of its frame tells it.
    pub fn message_type(&self) -> (r: u8)
        ensures
            r == self.kind(),
    {
        match self {
            ServerMessage::Auth(_) => MESSAGE_AUTH_RESPONSE,
            ServerMessage::DocList(_) => MESSAGE_DOC_LIST,
            ServerMessage::DocGet(_) => MESSAGE_DOC_GET,
            ServerMessage::DocSave(_) => MESSAGE_DOC_SAVE,
            ServerMessage::DocDelete(_) => MESSAGE_DOC_DELETE,
            ServerMessage::DocShare(_) => MESSAGE_DOC_SHARE,
            ServerMessage::DocTransfer(_) => MESSAGE_DOC_TRANSFER,
            ServerMessage::Event(_) => MESSAGE_DOC_EVENT,
            ServerMessage::Error(_) => MESSAGE_ERROR,
        }
    }

    /// Whether `r` is a payload that states the message.
    pub open spec fn written_as(self, r: serde_json::Value) -> bool {
        match self {
            ServerMessage::Auth(m) => m.written_as(r),
            ServerMessage::DocList(m) => m.written_as(r),
            ServerMessage::DocGet(m) => m.written_as(r),
            ServerMessage::DocSave(m) => m.written_as(r),
            ServerMessage::DocDelete(m) => m.written_as(r),
            ServerMessage::DocShare(m) => m.written_as(r),
            ServerMessage::DocTransfer(m) => m.written_as(r),
            ServerMessage::Event(m) => m.written_as(r),
            ServerMessage::Error(m) => m.written_as(r),
        }
    }

    /// What framing a payload of the message comes to: the frame of the
    /// message's kind and the payload's JSON bytes.
    pub open spec fn framed(
        self,
        payload: serde_json::Value,
        r: Result<Vec<u8>, String>,
    ) -> bool {
        r matches Ok(data) && data@ == frame_of(self.kind(), json_bytes(payload))
    }

    /// Whether `r` is what encoding the message comes to: the framing of a
    /// payload that states the message.
    pub open spec fn encoded_as(self, r: Result<Vec<u8>, String>) -> bool {
        exists|payload: serde_json::Value|
            #![trigger self.written_as(payload)]
            self.written_as(payload) && self.framed(payload, r)
    }

    /// The payload of the message.
    pub fn to_json(&self) -> (r: serde_json::Value)
        ensures
            self.written_as(r),
    {
        match self {
            ServerMessage::Auth(m) => m.to_json(),
            ServerMessage::DocList(m) => m.to_json(),
            ServerMessage::DocGet(m) => m.to_json(),
            ServerMessage::DocSave(m) => m.to_json(),
            ServerMessage::DocDelete(m) => m.to_json(),
            ServerMessage::DocShare(m) => m.to_json(),
            ServerMessage::DocTransfer(m) => m.to_json(),
            ServerMessage::Event(m) => m.to_json(),
            ServerMessage::Error(m) => m.to_json(),
        }
    }

    /// The frame of the message: its kind, then its payload as JSON. A
    /// frame is always returned.
    pub fn encode(&self) -> (r: Result<Vec<u8>, String>)
        ensures
            self.encoded_as(r),
            r matches Ok(data) ==> frame_type(data@) == Some(self.kind()),
    {
        let payload = self.to_json();
        let r = encode_message(self.message_type(), &payload);
        proof {
            assert(self.written_as(payload));
            assert(self.framed(payload, r));
        }
        r
    }
}

/// Something for the caller to carry out at the end of a step.
#[derive(Debug, Clone)]
pub enum Effect {
    /// Send a message to one connection.
    Send { client_id: u64, message: ServerMessage },
    /// Pass a frame on to the connections that have joined a document, but
    /// for the sender.
    Forward { doc_id: String, exclude_client: u64, data: Vec<u8> },
    /// Tell all authenticated connections of a change to a document.
    Announce { event: DocEvent },
    /// Write the registry of users to where it is kept. Whether that works
    /// is of no consequence to the step.
    PersistUsers,
}

/// The answer that turns a token or a login down for the reason `error`.
pub open spec fn is_auth_failure(r: AuthResponse, error: Seq<char>) -> bool {
    &&& !r.success
    &&& r.user_id is None
    &&& r.username is None
    &&& r.role is None
    &&& r.token is None
    &&& r.token_expires_at is None
    &&& opt_view(r.error) == Some(error)
}

/// The answer that accepts a user.
pub open spec fn is_auth_success(
    r: AuthResponse,
    user_id: Seq<char>,
    username: Seq<char>,
    role: Seq<char>,
) -> bool {
    &&& r.success
    &&& opt_view(r.user_id) == Some(user_id)
    &&& opt_view(r.username) == Some(username)
    &&& opt_view(r.role) == Some(role)
    &&& r.error is None
}

/// The connection as a good token or login leaves it.
pub open spec fn is_session_of(
    before: ClientState,
    after: ClientState,
    user_id: Seq<char>,
    username: Seq<char>,
    role: Seq<char>,
) -> bool {
    &&& after.id == before.id
    &&& after.authenticated
    &&& opt_view(after.user_id) == Some(user_id)
    &&& opt_view(after.username) == Some(username)
    &&& opt_view(after.role) == Some(role)
    &&& after.current_doc_id == before.current_doc_id
}

/// What the showing of a token comes to: a token that validates makes the
/// connection that of the user it names; any other leaves the connection as
/// it was.
pub open spec fn token_shown(
    before: ClientState,
    after: ClientState,
    token: Option<Seq<char>>,
    secret: Seq<char>,
    now: u64,
    r: AuthResponse,
) -> bool {
    match token {
        None => after == before && is_auth_failure(r, "Invalid token format"@),
        Some(t) => match validation_outcome(t, secret, now) {
            Ok(c) => {
                &&& is_session_of(before, after, c.sub, c.username, c.role)
                &&& is_auth_success(r, c.sub, c.username, c.role)
                &&& r.token is None
                &&& r.token_expires_at is None
            },
            Err(_) => after == before && is_auth_failure(
                r,
                "Invalid or expired token"@,
            ),
        },
    }
}

/// A client shows a token. A token that validates makes the connection that
/// of the user it names; any other leaves the connection as it was.
/// `token` is `None` where the payload was not readable; `now` is the
/// current time in seconds.
pub fn handle_auth(client: &mut ClientState, token: Option<&str>, secret: &str, now: u64) -> (r:
    AuthResponse)
    ensures
        token_shown(*old(client), *final(client), opt_str_view(token), secret@, now, r),
{
    let token = match token {
        Some(t) => t,
        None => {
            return AuthResponse::failure("Invalid token format");
        },
    };
    match validate_token_at(token, secret, now) {
        Ok(claims) => {
            client.authenticate(
                claims.sub.as_str(),
                claims.username.as_str(),
                claims.role.as_str(),
            );
            AuthResponse {
                success: true,
                user_id: Some(claims.sub),
                username: Some(claims.username),
                role: Some(claims.role),
                token: None,
                token_expires_at: None,
                error: None,
            }
        },
        Err(_) => AuthResponse::failure("Invalid or expired token"),
    }
}

/// What a login comes to, given the outcome of checking the password and,
/// where the password was right, of issuing a token.
pub enum LoginOutcome {
    /// The payload was not readable.
    Malformed,
    /// The server keeps no users.
    NotConfigured,
    /// No user has that name, or the password is wrong.
    Rejected,
    /// The stored credential could not be checked.
    Broken,
    /// The password was right and no token could be issued.
    NoSession,
    /// The user is logged in.
    Accepted,
}

/// The message that goes with a failed login.
pub open spec fn login_error(outcome: LoginOutcome) -> Seq<char> {
    match outcome {
        LoginOutcome::Malformed => "Invalid request format"@,
        LoginOutcome::NotConfigured => "Server not configured for login"@,
        LoginOutcome::Rejected => "Invalid username or password"@,
        LoginOutcome::Broken => "Authentication error"@,
        LoginOutcome::NoSession => "Failed to create session"@,
        LoginOutcome::Accepted => Seq::empty(),
    }
}

/// What a login comes to. An unknown name leaves everything as it was. Else
/// the user found under the name is checked against the password. A
/// credential that cannot be checked and a wrong password leave everything
/// as it was. A right password stamps the login; the connection then becomes
/// that user's and the answer carries a token issued to the user at that
/// time, unless the token's expiry cannot be told in 64 bits of
/// milliseconds, in which case the connection stays as it was.
pub open spec fn logged_in(
    before: ClientState,
    after: ClientState,
    request: Option<AuthLoginRequest>,
    users_before: Option<UserStore>,
    users_after: Option<UserStore>,
    secret: Seq<char>,
    expiry_secs: u64,
    now: u64,
    r: (AuthResponse, bool),
) -> bool {
    &&& users_before is None ==> users_after is None
    &&& after.id == before.id
    &&& match (request, users_before) {
        (None, _) => after == before && users_after == users_before
            && !r.1 && is_auth_failure(r.0, login_error(LoginOutcome::Malformed)),
        (Some(_), None) => after == before && !r.1 && is_auth_failure(
            r.0,
            login_error(LoginOutcome::NotConfigured),
        ),
        (Some(req), Some(users)) => {
            &&& users_after is Some
            &&& users_after->0.path() == users.path()
            &&& if !name_taken(users@, req.username@) {
                &&& after == before
                &&& users_after->0@ == users@
                &&& !r.1
                &&& is_auth_failure(r.0, login_error(LoginOutcome::Rejected))
            } else {
                exists|id: Seq<char>|
                    {
                        &&& #[trigger] users@.contains_key(id)
                        &&& users@[id].username@ == req.username@
                        &&& match bcrypt_verifies(req.password@, users@[id].password_hash@) {
                            None => {
                                &&& after == before
                                &&& users_after->0@ == users@
                                &&& !r.1
                                &&& is_auth_failure(r.0, login_error(LoginOutcome::Broken))
                            },
                            Some(false) => {
                                &&& after == before
                                &&& users_after->0@ == users@
                                &&& !r.1
                                &&& is_auth_failure(r.0, login_error(LoginOutcome::Rejected))
                            },
                            Some(true) => {
                                &&& users_after->0@ == users_after_login(users@, id, now)
                                &&& r.1
                                &&& if expiry_in_range(expiry_secs, (now / 1000) as u64) {
                                    &&& is_session_of(
                                        before,
                                        after,
                                        id,
                                        users@[id].username@,
                                        users@[id].role.name(),
                                    )
                                    &&& is_auth_success(
                                        r.0,
                                        id,
                                        users@[id].username@,
                                        users@[id].role.name(),
                                    )
                                    &&& r.0.token is Some
                                    &&& r.0.token->0@.len() > 0
                                    &&& token_claims(r.0.token->0@, secret) == Some(
                                        issued_claims(
                                            id,
                                            users@[id].username@,
                                            users@[id].role.name(),
                                            expiry_secs,
                                            (now / 1000) as u64,
                                        ),
                                    )
                                    &&& r.0.token_expires_at == Some(
                                        ((now / 1000 + expiry_secs) * 1000) as u64,
                                    )
                                } else {
                                    &&& after == before
                                    &&& is_auth_failure(r.0, login_error(LoginOutcome::NoSession))
                                }
                            },
                        }
                    }
            }
        },
    }
}

/// A client logs in with name and password. `now` is the current time in
/// milliseconds.
///
/// Whoever the registry finds under the name is checked against the
/// password. A right password stamps the login, and, if a token can be
/// issued, makes the connection that of the user and answers with the token;
/// everything else leaves the connection as it was and answers with the
/// reason, which does not tell an unknown name from a wrong password.
pub fn handle_auth_login(
    client: &mut ClientState,
    request: Option<&AuthLoginRequest>,
    user_store: &mut Option<UserStore>,
    token_config: &TokenConfig,
    now: u64,
) -> (r: (AuthResponse, bool))
    requires
        *old(user_store) matches Some(s) ==> s.wf(),
    ensures
        *final(user_store) matches Some(s) ==> s.wf(),
        logged_in(
            *old(client),
            *final(client),
            deref_of(request),
            *old(user_store),
            *final(user_store),
            token_config.secret@,
            token_config.expiry_secs,
            now,
            r,
        ),
{
    let request = match request {
        Some(r) => r,
        None => {
            return (AuthResponse::failure("Invalid request format"), false);
        },
    };
    let users = match user_store {
        Some(s) => s,
        None => {
            return (AuthResponse::failure("Server not configured for login"), false);
        },
    };
    let ghost before = users@;
    let user = match users.get_user_by_username(request.username.as_str()) {
        Some(u) => u,
        None => {
            return (AuthResponse::failure("Invalid username or password"), false);
        },
    };
    proof {
        users.lemma_users_keyed();
        assert(before.contains_key(user.id@));
    }
    match verify_password(request.password.as_str(), user.password_hash.as_str()) {
        Ok(true) => {},
        Ok(false) => {
            return (AuthResponse::failure("Invalid username or password"), false);
        },
        Err(_) => {
            return (AuthResponse::failure("Authentication error"), false);
        },
    }
    users.update_last_login_at(user.id.as_str(), now);
    let role = user.role.to_string();
    let (token, expires_at) = match issue_token(
        user.id.as_str(),
        user.username.as_str(),
        role.as_str(),
        token_config,
        now / 1000,
    ) {
        Ok(t) => t,
        Err(_) => {
            return (AuthResponse::failure("Failed to create session"), true);
        },
    };
    client.authenticate(user.id.as_str(), user.username.as_str(), role.as_str());
    let response = AuthResponse {
        success: true,
        user_id: Some(user.id),
        username: Some(user.username),
        role: Some(role),
        token: Some(token),
        token_expires_at: Some(expires_at),
        error: None,
    };
    proof {
        let id = user.id@;
        assert(before.contains_key(id));
    }
    (response, true)
}

/// What the caller is to do to the disk before the step goes on. Paths are
/// relative to the directory of the documents.
#[derive(Debug, Clone)]
pub enum IoRequest {
    /// Read the text of a file.
    ReadFile { path: String },
    /// Write a text to a file, in place of what the file held.
    WriteFile { path: String, content: String },
    /// Remove a file if it is there, and tell whether it was.
    RemoveFile { path: String },
    /// Write the index of the documents to its file.
    WriteIndex,
}

/// What the disk answered.
#[derive(Debug)]
pub enum IoResult {
    /// The text of the file read, or why it could not be read.
    Read(Result<String, String>),
    /// Whether the writing worked, or why not.
    Written(Result<(), String>),
    /// Whether the file removed was there, or why it could not be removed.
    Removed(Result<bool, String>),
}

/// Which kind of answer a request waits for.
#[derive(Debug, Clone, Copy, PartialEq, Eq, Structural)]
pub enum Reply {
    Save,
    Share,
    Transfer,
}

/// What the server has begun and waits to go on with.
#[derive(Debug)]
#[allow(inconsistent_fields)]
pub enum Pending {
    /// A document is being read for a client.
    Get { client_id: u64, request_id: String, doc_id: String },
    /// A document is being read to change its share list.
    Share { client_id: u64, request: DocShareRequest, user_id: String },
    /// A document is being read to hand it over.
    Transfer {
        client_id: u64,
        request: DocTransferRequest,
        previous_owner_id: String,
        user_id: String,
    },
    /// A body is being written; its metadata enters the index afterwards.
    Commit {
        client_id: u64,
        request_id: String,
        reply: Reply,
        metadata: DocumentMetadata,
        user_id: String,
    },
    /// The index is being written after a save; the answer and the event
    /// follow.
    Announce {
        client_id: u64,
        request_id: String,
        reply: Reply,
        doc_id: String,
        event_type: DocEventType,
        user_id: String,
    },
    /// A document's file is being removed.
    Delete { client_id: u64, request_id: String, doc_id: String, user_id: String },
    /// The index is being written after a deletion.
    AnnounceDelete {
        client_id: u64,
        request_id: String,
        doc_id: String,
        removed: bool,
        user_id: String,
    },
}

/// How a step ends: with what is to be sent, and, where the disk is needed,
/// with what is asked of it and what waits for the answer.
#[derive(Debug)]
pub struct Step {
    pub effects: Vec<Effect>,
    pub io: Option<(IoRequest, Pending)>,
}

impl Step {
    /// A step that does nothing.
    pub fn nothing() -> (r: Step)
        ensures
            r.effects@.len() == 0,
            r.io is None,
    {
        Step { effects: Vec::new(), io: None }
    }

    /// A step that sends one message to one connection.
    pub fn send(client_id: u64, message: ServerMessage) -> (r: Step)
        ensures
            r.sends_only(client_id, message),
    {
        let mut effects: Vec<Effect> = Vec::new();
        effects.push(Effect::Send { client_id, message });
        Step { effects, io: None }
    }

    /// A step that turns to the disk.
    pub fn wait(request: IoRequest, pending: Pending) -> (r: Step)
        ensures
            r.effects@.len() == 0,
            r.io == Some((request, pending)),
    {
        Step { effects: Vec::new(), io: Some((request, pending)) }
    }

    /// The step sends `message` to `client_id` and does nothing else.
    pub open spec fn sends_only(self, client_id: u64, message: ServerMessage) -> bool {
        &&& self.io is None
        &&& self.effects@.len() == 1
        &&& self.effects@[0] == (Effect::Send { client_id, message })
    }

    /// The step sends one message to `client_id` and does nothing else.
    pub open spec fn answers(self, client_id: u64) -> bool {
        &&& self.io is None
        &&& self.effects@.len() == 1
        &&& self.effects@[0] is Send
        &&& self.effects@[0]->Send_client_id == client_id
    }

    /// The message of a step that answers.
    pub open spec fn answer(self) -> ServerMessage {
        self.effects@[0]->message
    }
}

/// What an optional reference refers to.
pub open spec fn deref_of<T>(o: Option<&T>) -> Option<T> {
    match o {
        Some(r) => Some(*r),
        None => None,
    }
}

/// An optional text, borrowed.
pub fn borrow_opt(o: &Option<String>) -> (r: Option<&str>)
    ensures
        opt_str_view(r) == opt_view(*o),
{
    match o {
        Some(s) => Some(s.as_str()),
        None => None,
    }
}

/// The id of the user of a connection, or the empty text where there is
/// none.
pub fn user_of(client: &ClientState) -> (r: String)
    ensures
        r@ == match client.user_id {
            Some(id) => id@,
            None => Seq::<char>::empty(),
        },
{
    match &client.user_id {
        Some(id) => id.clone(),
        None => String::new(),
    }
}

/// What asking for a level of access to a document comes to for a
/// connection.
pub open spec fn access(
    store: DocumentStore,
    client: ClientState,
    doc_id: Seq<char>,
    required: Permission,
) -> Result<Permission, PermissionError> {
    permission_check(store@, doc_id, opt_view(client.user_id), opt_view(client.role), required)
}

/// Asks whether the user of a connection may act on a document at the level
/// `required`.
pub fn authorize(
    store: &DocumentStore,
    client: &ClientState,
    doc_id: &str,
    required: Permission,
) -> (r: Result<Permission, PermissionError>)
    requires
        store.wf(),
    ensures
        r == access(*store, *client, doc_id@, required),
{
    check_permission(
        store,
        doc_id,
        borrow_opt(&client.user_id),
        borrow_opt(&client.role),
        required,
    )
}

/// What the opening of a document comes to: who may view the document is in
/// it afterwards; who may not stays where they were and is told why.
pub open spec fn joined(
    store: DocumentStore,
    before: ClientState,
    after: ClientState,
    request: Option<JoinDocRequest>,
    r: Step,
) -> bool {
    match request {
        None => after == before && r.effects@.len() == 0 && r.io is None,
        Some(req) => match access(store, before, req.doc_id@, Permission::Viewer) {
            Ok(_) => {
                &&& opt_view(after.current_doc_id) == Some(req.doc_id@)
                &&& after.id == before.id
                &&& after.authenticated == before.authenticated
                &&& after.user_id == before.user_id
                &&& after.username == before.username
                &&& after.role == before.role
                &&& r.effects@.len() == 0
                &&& r.io is None
            },
            Err(e) => {
                &&& after == before
                &&& r.answers(before.id)
                &&& r.answer() matches ServerMessage::Error(m)
                &&& m.request_id is None
                &&& m.error@ == e.code() + ": "@ + e.text()
            },
        },
    }
}

/// A client opens a document. Who may view the document joins it, leaving
/// the document joined before; who may not stays where they were and is told
/// why. A payload that was not readable is passed over.
pub fn handle_join_doc(
    client: &mut ClientState,
    request: Option<&JoinDocRequest>,
    store: &DocumentStore,
) -> (r: Step)
    requires
        store.wf(),
    ensures
        joined(*store, *old(client), *final(client), deref_of(request), r),
{
    let request = match request {
        Some(r) => r,
        None => {
            return Step::nothing();
        },
    };
    match authorize(store, client, request.doc_id.as_str(), Permission::Viewer) {
        Ok(_) => {
            client.join(request.doc_id.as_str());
            Step::nothing()
        },
        Err(e) => Step::send(
            client.id,
            ServerMessage::Error(ErrorResponse { request_id: None, error: to_error_string(&e) }),
        ),
    }
}

/// Whether a connection may pass a frame on to the others in its document:
/// it must have joined one and have the level `required` on it.
pub open spec fn may_forward(
    store: DocumentStore,
    client: ClientState,
    required: Permission,
) -> bool {
    client.current_doc_id is Some && access(
        store,
        client,
        client.current_doc_id->0@,
        required,
    ) is Ok
}

/// What the passing on of a frame comes to: it goes to the others in the
/// sender's document, or nowhere.
pub open spec fn forwarded(
    store: DocumentStore,
    client: ClientState,
    data: Seq<u8>,
    required: Permission,
    r: Step,
) -> bool {
    &&& r.io is None
    &&& may_forward(store, client, required) ==> {
        &&& r.effects@.len() == 1
        &&& r.effects@[0] matches Effect::Forward { doc_id, exclude_client, data: sent }
        &&& doc_id@ == client.current_doc_id->0@
        &&& exclude_client == client.id
        &&& sent@ == data
    }
    &&& !may_forward(store, client, required) ==> r.effects@.len() == 0
}

/// Passes a frame on to the other connections in the sender's document, if
/// the sender has joined one and has the level `required` on it; else the
/// frame is dropped without a word.
pub fn forward(
    client: &ClientState,
    data: &[u8],
    store: &DocumentStore,
    required: Permission,
) -> (r: Step)
    requires
        store.wf(),
    ensures
        forwarded(*store, *client, data@, required, r),
{
    let doc_id = match &client.current_doc_id {
        Some(d) => d,
        None => {
            return Step::nothing();
        },
    };
    match authorize(store, client, doc_id.as_str(), required) {
        Ok(_) => {
            let mut effects: Vec<Effect> = Vec::new();
            effects.push(
                Effect::Forward {
                    doc_id: doc_id.clone(),
                    exclude_client: client.id,
                    data: vstd::slice::slice_to_vec(data),
                },
            );
            Step { effects, io: None }
        },
        Err(_) => Step::nothing(),
    }
}

/// A client sends an edit: it goes to the others in the document if the
/// sender may write the document.
pub fn handle_sync(client: &ClientState, data: &[u8], store: &DocumentStore) -> (r: Step)
    requires
        store.wf(),
    ensures
        forwarded(*store, *client, data@, Permission::Editor, r),
{
    forward(client, data, store, Permission::Editor)
}

/// A client tells of its presence: it goes to the others in the document if
/// the sender may read the document.
pub fn handle_awareness(client: &ClientState, data: &[u8], store: &DocumentStore) -> (r: Step)
    requires
        store.wf(),
    ensures
        forwarded(*store, *client, data@, Permission::Viewer, r),
{
    forward(client, data, store, Permission::Viewer)
}

/// What asking for the list of documents comes to: the metadata of all of
/// them.
pub open spec fn listed(
    store: DocumentStore,
    client: ClientState,
    request: Option<DocListRequest>,
    r: Step,
) -> bool {
    match request {
        None => r.effects@.len() == 0 && r.io is None,
        Some(req) => {
            &&& r.answers(client.id)
            &&& r.answer() matches ServerMessage::DocList(m)
            &&& m.request_id@ == req.request_id@
            &&& distinct_keys(m.documents@)
            &&& index_model(m.documents@) == store@
        },
    }
}

/// A client asks for the list of documents, and gets the metadata of all of
/// them.
pub fn handle_doc_list(
    client: &ClientState,
    request: Option<&DocListRequest>,
    store: &DocumentStore,
) -> (r: Step)
    requires
        store.wf(),
    ensures
        listed(*store, *client, deref_of(request), r),
{
    let request = match request {
        Some(r) => r,
        None => {
            return Step::nothing();
        },
    };
    Step::send(
        client.id,
        ServerMessage::DocList(
            DocListResponse {
                request_id: request.request_id.clone(),
                documents: store.list_documents(),
            },
        ),
    )
}

/// What asking for a document comes to: a refusal, or the reading of the
/// document's file.
pub open spec fn get_begun(
    store: DocumentStore,
    client: ClientState,
    request: Option<DocGetRequest>,
    r: Step,
) -> bool {
    match request {
        None => r.effects@.len() == 0 && r.io is None,
        Some(req) => match access(store, client, req.doc_id@, Permission::Viewer) {
            Ok(_) => {
                &&& r.effects@.len() == 0
                &&& r.io matches Some((IoRequest::ReadFile { path }, Pending::Get {
                    client_id,
                    request_id,
                    doc_id,
                }))
                &&& path@ == doc_path_of(req.doc_id@)
                &&& client_id == client.id
                &&& request_id@ == req.request_id@
                &&& doc_id@ == req.doc_id@
            },
            Err(e) => {
                &&& r.answers(client.id)
                &&& r.answer() matches ServerMessage::DocGet(m)
                &&& m.request_id@ == req.request_id@
                &&& m.document is None
                &&& opt_view(m.error) == Some(e.code() + ": "@ + e.text())
            },
        },
    }
}

/// A client asks for a document. Who may not view it is told why; for who
/// may, the document's file is to be read.
pub fn handle_doc_get(
    client: &ClientState,
    request: Option<&DocGetRequest>,
    store: &DocumentStore,
) -> (r: Step)
    requires
        store.wf(),
    ensures
        get_begun(*store, *client, deref_of(request), r),
{
    let request = match request {
        Some(r) => r,
        None => {
            return Step::nothing();
        },
    };
    match authorize(store, client, request.doc_id.as_str(), Permission::Viewer) {
        Ok(_) => Step::wait(
            IoRequest::ReadFile { path: store.doc_path(request.doc_id.as_str()) },
            Pending::Get {
                client_id: client.id,
                request_id: request.request_id.clone(),
                doc_id: request.doc_id.clone(),
            },
        ),
        Err(e) => Step::send(
            client.id,
            ServerMessage::DocGet(
                DocGetResponse {
                    request_id: request.request_id.clone(),
                    document: None,
                    error: Some(to_error_string(&e)),
                },
            ),
        ),
    }
}

/// The message `m` answers a save, a share or a transfer, as `reply` tells,
/// with the given outcome.
pub open spec fn is_reply(
    m: ServerMessage,
    reply: Reply,
    request_id: Seq<char>,
    success: bool,
    error: Option<Seq<char>>,
) -> bool {
    match reply {
        Reply::Save => m matches ServerMessage::DocSave(x) && x.request_id@ == request_id
            && x.success == success && opt_view(x.error) == error,
        Reply::Share => m matches ServerMessage::DocShare(x) && x.request_id@ == request_id
            && x.success == success && opt_view(x.error) == error,
        Reply::Transfer => m matches ServerMessage::DocTransfer(x) && x.request_id@ == request_id
            && x.success == success && opt_view(x.error) == error,
    }
}

/// The message `m` answers a deletion with the given outcome.
pub open spec fn is_delete_reply(
    m: ServerMessage,
    request_id: Seq<char>,
    success: bool,
    error: Option<Seq<char>>,
) -> bool {
    m matches ServerMessage::DocDelete(x) && x.request_id@ == request_id && x.success == success
        && opt_view(x.error) == error
}

/// The answer that reports a save, a share or a transfer as done.
pub fn reply_done(reply: Reply, request_id: &str) -> (r: ServerMessage)
    ensures
        is_reply(r, reply, request_id@, true, None),
{
    match reply {
        Reply::Save => ServerMessage::DocSave(DocSaveResponse::done(request_id)),
        Reply::Share => ServerMessage::DocShare(DocShareResponse::done(request_id)),
        Reply::Transfer => ServerMessage::DocTransfer(DocTransferResponse::done(request_id)),
    }
}

/// The answer that turns a save, a share or a transfer down.
pub fn reply_failed(reply: Reply, request_id: &str, error: &str) -> (r: ServerMessage)
    ensures
        is_reply(r, reply, request_id@, false, Some(error@)),
{
    match reply {
        Reply::Save => ServerMessage::DocSave(DocSaveResponse::failed(request_id, error)),
        Reply::Share => ServerMessage::DocShare(DocShareResponse::failed(request_id, error)),
        Reply::Transfer => ServerMessage::DocTransfer(
            DocTransferResponse::failed(request_id, error),
        ),
    }
}

/// The step that waits for a body to be written.
pub open spec fn writes_body(
    step: Step,
    client: ClientState,
    request_id: Seq<char>,
    reply: Reply,
    metadata: DocumentMetadataView,
    content: Seq<char>,
) -> bool {
    &&& step.effects@.len() == 0
    &&& step.io matches Some((IoRequest::WriteFile { path, content: text }, Pending::Commit {
        client_id,
        request_id: id,
        reply: kind,
        metadata: m,
        user_id,
    }))
    &&& path@ == doc_path_of(metadata.id)
    &&& text@ == content
    &&& client_id == client.id
    &&& id@ == request_id
    &&& kind == reply
    &&& m@ == metadata
    &&& Some(user_id@) == opt_view(client.user_id) || (client.user_id is None && user_id@.len()
        == 0)
}

/// The id that a body to save names, or the empty text where it names none.
pub open spec fn named_id(doc: serde_json::Value) -> Seq<char> {
    match text_at(doc, "id"@) {
        Some(id) => id,
        None => Seq::empty(),
    }
}

/// Whether a connection may save a body: anybody may save a document that
/// the index does not have yet; to save over one that it has takes the
/// level of an editor.
pub open spec fn may_save(
    store: DocumentStore,
    client: ClientState,
    doc: serde_json::Value,
) -> Result<(), PermissionError> {
    if store@.contains_key(named_id(doc)) {
        match access(store, client, named_id(doc), Permission::Editor) {
            Ok(_) => Ok(()),
            Err(e) => Err(e),
        }
    } else {
        Ok(())
    }
}

/// What asking to save a document comes to: a refusal, or the writing of
/// the body to the document's file.
pub open spec fn save_begun(
    store: DocumentStore,
    client: ClientState,
    request: Option<DocSaveRequest>,
    now: u64,
    r: Step,
) -> bool {
    match request {
        None => r.effects@.len() == 0 && r.io is None,
        Some(req) => match may_save(store, client, req.document) {
            Err(e) => r.answers(client.id) && is_reply(
                r.answer(),
                Reply::Save,
                req.request_id@,
                false,
                Some(e.code() + ": "@ + e.text()),
            ),
            Ok(_) => match metadata_of(req.document, now) {
                None => r.answers(client.id) && is_reply(
                    r.answer(),
                    Reply::Save,
                    req.request_id@,
                    false,
                    Some("Document missing 'id' field"@),
                ),
                Some(m) => writes_body(
                    r,
                    client,
                    req.request_id@,
                    Reply::Save,
                    m,
                    json_rendered(req.document),
                ),
            },
        },
    }
}

/// A client asks to save a document. Who may not is told why, and so is who
/// sends a body without an id; else the body is to be written to the
/// document's file.
pub fn handle_doc_save(
    client: &ClientState,
    request: Option<DocSaveRequest>,
    store: &DocumentStore,
    now: u64,
) -> (r: Step)
    requires
        store.wf(),
    ensures
        save_begun(*store, *client, request, now, r),
{
    let request = match request {
        Some(r) => r,
        None => {
            return Step::nothing();
        },
    };
    let doc_id = match get_text(&request.document, "id") {
        Some(id) => id,
        None => String::new(),
    };
    if store.contains(doc_id.as_str()) {
        match authorize(store, client, doc_id.as_str(), Permission::Editor) {
            Ok(_) => {},
            Err(e) => {
                return Step::send(
                    client.id,
                    reply_failed(
                        Reply::Save,
                        request.request_id.as_str(),
                        to_error_string(&e).as_str(),
                    ),
                );
            },
        }
    }
    match store.save_document(request.document, now) {
        Ok(plan) => Step::wait(
            IoRequest::WriteFile { path: plan.path, content: plan.content },
            Pending::Commit {
                client_id: client.id,
                request_id: request.request_id,
                reply: Reply::Save,
                metadata: plan.metadata,
                user_id: user_of(client),
            },
        ),
        Err(e) => Step::send(
            client.id,
            reply_failed(Reply::Save, request.request_id.as_str(), e.as_str()),
        ),
    }
}

/// What asking to delete a document comes to: a refusal, or the removing
/// of the document's file.
pub open spec fn delete_begun(
    store: DocumentStore,
    client: ClientState,
    request: Option<DocDeleteRequest>,
    r: Step,
) -> bool {
    match request {
        None => r.effects@.len() == 0 && r.io is None,
        Some(req) => match access(store, client, req.doc_id@, Permission::Owner) {
            Ok(_) => {
                &&& r.effects@.len() == 0
                &&& r.io matches Some((IoRequest::RemoveFile { path }, Pending::Delete {
                    client_id,
                    request_id,
                    doc_id,
                    user_id,
                }))
                &&& path@ == doc_path_of(req.doc_id@)
                &&& client_id == client.id
                &&& request_id@ == req.request_id@
                &&& doc_id@ == req.doc_id@
                &&& opt_view(client.user_id) == Some(user_id@)
            },
            Err(e) => r.answers(client.id) && is_delete_reply(
                r.answer(),
                req.request_id@,
                false,
                Some(e.code() + ": "@ + e.text()),
            ),
        },
    }
}

/// A client asks to delete a document. Only who has the owner's level may;
/// for them the document's file is to be removed.
pub fn handle_doc_delete(
    client: &ClientState,
    request: Option<&DocDeleteRequest>,
    store: &DocumentStore,
) -> (r: Step)
    requires
        store.wf(),
    ensures
        delete_begun(*store, *client, deref_of(request), r),
{
    let request = match request {
        Some(r) => r,
        None => {
            return Step::nothing();
        },
    };
    match authorize(store, client, request.doc_id.as_str(), Permission::Owner) {
        Ok(_) => Step::wait(
            IoRequest::RemoveFile { path: store.doc_path(request.doc_id.as_str()) },
            Pending::Delete {
                client_id: client.id,
                request_id: request.request_id.clone(),
                doc_id: request.doc_id.clone(),
                user_id: user_of(client),
            },
        ),
        Err(e) => Step::send(
            client.id,
            ServerMessage::DocDelete(
                DocDeleteResponse::failed(
                    request.request_id.as_str(),
                    to_error_string(&e).as_str(),
                ),
            ),
        ),
    }
}

/// What asking to change a share list comes to: a refusal, or the reading
/// of the document's file.
pub open spec fn share_begun(
    store: DocumentStore,
    client: ClientState,
    request: Option<DocShareRequest>,
    r: Step,
) -> bool {
    match request {
        None => r.effects@.len() == 0 && r.io is None,
        Some(req) => match access(store, client, req.doc_id@, Permission::Owner) {
            Ok(_) => {
                &&& r.effects@.len() == 0
                &&& r.io matches Some((IoRequest::ReadFile { path }, Pending::Share {
                    client_id,
                    request,
                    user_id,
                }))
                &&& path@ == doc_path_of(req.doc_id@)
                &&& client_id == client.id
                &&& request == req
                &&& opt_view(client.user_id) == Some(user_id@)
            },
            Err(e) => r.answers(client.id) && is_reply(
                r.answer(),
                Reply::Share,
                req.request_id@,
                false,
                Some(e.code() + ": "@ + e.text()),
            ),
        },
    }
}

/// A client asks to change who a document is shared with. Only who has the
/// owner's level may; for them the document's file is to be read.
pub fn handle_doc_share(
    client: &ClientState,
    request: Option<DocShareRequest>,
    store: &DocumentStore,
) -> (r: Step)
    requires
        store.wf(),
    ensures
        share_begun(*store, *client, request, r),
{
    let request = match request {
        Some(r) => r,
        None => {
            return Step::nothing();
        },
    };
    match authorize(store, client, request.doc_id.as_str(), Permission::Owner) {
        Ok(_) => Step::wait(
            IoRequest::ReadFile { path: store.doc_path(request.doc_id.as_str()) },
            Pending::Share { client_id: client.id, request, user_id: user_of(client) },
        ),
        Err(e) => Step::send(
            client.id,
            reply_failed(
                Reply::Share,
                request.request_id.as_str(),
                to_error_string(&e).as_str(),
            ),
        ),
    }
}

/// Who enters the share list when a document is handed over: its owner, or,
/// where it has none, the user who hands it over.
pub open spec fn leaving_owner(store: DocumentStore, client: ClientState, doc_id: Seq<char>) -> Seq<
    char,
> {
    match store@[doc_id].owner_id {
        Some(owner) => owner,
        None => match client.user_id {
            Some(id) => id@,
            None => Seq::empty(),
        },
    }
}

/// What asking to hand a document over comes to: a refusal, or the reading
/// of the document's file.
pub open spec fn transfer_begun(
    store: DocumentStore,
    client: ClientState,
    request: Option<DocTransferRequest>,
    r: Step,
) -> bool {
    match request {
        None => r.effects@.len() == 0 && r.io is None,
        Some(req) => match access(store, client, req.doc_id@, Permission::Owner) {
            Ok(_) => {
                &&& r.effects@.len() == 0
                &&& r.io matches Some((IoRequest::ReadFile { path }, Pending::Transfer {
                    client_id,
                    request,
                    previous_owner_id,
                    user_id,
                }))
                &&& path@ == doc_path_of(req.doc_id@)
                &&& client_id == client.id
                &&& request == req
                &&& previous_owner_id@ == leaving_owner(store, client, req.doc_id@)
                &&& opt_view(client.user_id) == Some(user_id@)
            },
            Err(e) => r.answers(client.id) && is_reply(
                r.answer(),
                Reply::Transfer,
                req.request_id@,
                false,
                Some(e.code() + ": "@ + e.text()),
            ),
        },
    }
}

/// A client asks to hand a document to a new owner. Only who has the
/// owner's level may; for them the document's file is to be read.
pub fn handle_doc_transfer(
    client: &ClientState,
    request: Option<DocTransferRequest>,
    store: &DocumentStore,
) -> (r: Step)
    requires
        store.wf(),
    ensures
        transfer_begun(*store, *client, request, r),
{
    let request = match request {
        Some(r) => r,
        None => {
            return Step::nothing();
        },
    };
    match authorize(store, client, request.doc_id.as_str(), Permission::Owner) {
        Ok(_) => {
            let owner = match store.get_metadata(request.doc_id.as_str()) {
                Some(m) => m.owner_id,
                None => None,
            };
            let previous_owner_id = match owner {
                Some(o) => o,
                None => user_of(client),
            };
            Step::wait(
                IoRequest::ReadFile { path: store.doc_path(request.doc_id.as_str()) },
                Pending::Transfer {
                    client_id: client.id,
                    request,
                    previous_owner_id,
                    user_id: user_of(client),
                },
            )
        },
        Err(e) => Step::send(
            client.id,
            reply_failed(
                Reply::Transfer,
                request.request_id.as_str(),
                to_error_string(&e).as_str(),
            ),
        ),
    }
}

/// The event that follows a save: `created` for a document that is new to
/// the index, `updated` for every other save and for every share and
/// transfer.
pub open spec fn event_after(reply: Reply, created: bool) -> DocEventType {
    if reply == Reply::Save && created {
        DocEventType::Created
    } else {
        DocEventType::Updated
    }
}

/// The step answers a request and announces what happened to the document.
pub open spec fn answers_and_announces(
    step: Step,
    client_id: u64,
    event_type: DocEventType,
    doc_id: Seq<char>,
    metadata: Option<DocumentMetadataView>,
    user_id: Seq<char>,
) -> bool {
    &&& step.io is None
    &&& step.effects@.len() == 2
    &&& step.effects@[0] is Send
    &&& step.effects@[0]->Send_client_id == client_id
    &&& step.effects@[1] matches Effect::Announce { event }
    &&& event.event_type == event_type
    &&& event.doc_id@ == doc_id
    &&& event.user_id@ == user_id
    &&& match event.metadata {
        Some(m) => metadata == Some(m@),
        None => metadata is None,
    }
}

/// The metadata that the index has of a document, if it has the document.
pub open spec fn lookup(store: DocumentStore, doc_id: Seq<char>) -> Option<DocumentMetadataView> {
    if store@.contains_key(doc_id) {
        Some(store@[doc_id])
    } else {
        None
    }
}

/// What reading a document for a client ends in: the body, or the reason
/// why there is none.
pub open spec fn got(
    store: DocumentStore,
    client_id: u64,
    request_id: Seq<char>,
    doc_id: Seq<char>,
    file: Result<String, String>,
    r: Step,
) -> bool {
    &&& r.answers(client_id)
    &&& r.answer() matches ServerMessage::DocGet(m)
    &&& m.request_id@ == request_id
    &&& match store.stored_body(doc_id, file) {
        Some(body) => m.document == Some(body) && m.error is None,
        None => m.document is None && m.error is Some && store.is_read_error(
            doc_id,
            file,
            m.error->0@,
        ),
    }
}

/// What the step after a patch ends in, given the patched body: the
/// writing of the body's text to the document's file, with the metadata
/// waiting to enter the index.
pub open spec fn writes_patched(
    r: Step,
    client_id: u64,
    request_id: Seq<char>,
    user_id: Seq<char>,
    reply: Reply,
    body: serde_json::Value,
    metadata: DocumentMetadataView,
) -> bool {
    &&& r.effects@.len() == 0
    &&& r.io matches Some((IoRequest::WriteFile { path, content }, Pending::Commit {
        client_id: c,
        request_id: id,
        reply: kind,
        metadata: m,
        user_id: u,
    }))
    &&& path@ == doc_path_of(metadata.id)
    &&& content@ == json_rendered(body)
    &&& c == client_id
    &&& id@ == request_id
    &&& kind == reply
    &&& u@ == user_id
    &&& m@ == metadata
}

/// The step turns a request down for the reason why the document could not
/// be read.
pub open spec fn refused_unread(
    store: DocumentStore,
    doc_id: Seq<char>,
    file: Result<String, String>,
    r: Step,
    client_id: u64,
    reply: Reply,
    request_id: Seq<char>,
) -> bool {
    &&& r.answers(client_id)
    &&& exists|e: Seq<char>|
        store.is_read_error(doc_id, file, e) && #[trigger] is_reply(
            r.answer(),
            reply,
            request_id,
            false,
            Some(e),
        )
}

/// What reading a document to patch it ends in. A document that could not
/// be read, or that has no id, is refused for that reason. Else there is a
/// patched body, which `is_patch` tells from the body read: its text is to
/// be written, with the metadata `patched` of the body read.
pub open spec fn patched_step(
    store: DocumentStore,
    client_id: u64,
    request_id: Seq<char>,
    doc_id: Seq<char>,
    user_id: Seq<char>,
    reply: Reply,
    file: Result<String, String>,
    now: u64,
    is_patch: spec_fn(serde_json::Value, serde_json::Value) -> bool,
    patched: spec_fn(serde_json::Value, DocumentMetadataView) -> DocumentMetadataView,
    r: Step,
) -> bool {
    match store.stored_body(doc_id, file) {
        None => refused_unread(store, doc_id, file, r, client_id, reply, request_id),
        Some(doc) => match metadata_of(doc, now) {
            None => r.answers(client_id) && is_reply(
                r.answer(),
                reply,
                request_id,
                false,
                Some("Document missing 'id' field"@),
            ),
            Some(m) => exists|body: serde_json::Value|
                #![trigger writes_patched(
                    r,
                    client_id,
                    request_id,
                    user_id,
                    reply,
                    body,
                    patched(doc, m),
                )]
                is_patch(doc, body) && writes_patched(
                    r,
                    client_id,
                    request_id,
                    user_id,
                    reply,
                    body,
                    patched(doc, m),
                ),
        },
    }
}

/// What a plan is turned into: the writing of its text, or the refusal that
/// the plan's failure gives the reason of.
pub open spec fn plan_carried_out(
    plan: Result<SavePlan, String>,
    client_id: u64,
    request_id: Seq<char>,
    user_id: Seq<char>,
    reply: Reply,
    r: Step,
) -> bool {
    match plan {
        Ok(p) => {
            &&& r.effects@.len() == 0
            &&& r.io matches Some((IoRequest::WriteFile { path, content }, Pending::Commit {
                client_id: c,
                request_id: id,
                reply: kind,
                metadata,
                user_id: u,
            }))
            &&& path == p.path
            &&& content == p.content
            &&& c == client_id
            &&& id@ == request_id
            &&& kind == reply
            &&& u@ == user_id
            &&& metadata == p.metadata
        },
        Err(e) => r.answers(client_id) && is_reply(r.answer(), reply, request_id, false, Some(e@)),
    }
}

/// A plan for a patched document, carried out, is the step after the patch.
pub proof fn lemma_patched_step(
    store: DocumentStore,
    client_id: u64,
    request_id: Seq<char>,
    doc_id: Seq<char>,
    user_id: Seq<char>,
    reply: Reply,
    file: Result<String, String>,
    now: u64,
    is_patch: spec_fn(serde_json::Value, serde_json::Value) -> bool,
    patched: spec_fn(serde_json::Value, DocumentMetadataView) -> DocumentMetadataView,
    plan: Result<SavePlan, String>,
    r: Step,
)
    requires
        store.patch_planned(doc_id, file, now, is_patch, patched, plan),
        plan_carried_out(plan, client_id, request_id, user_id, reply, r),
    ensures
        patched_step(
            store,
            client_id,
            request_id,
            doc_id,
            user_id,
            reply,
            file,
            now,
            is_patch,
            patched,
            r,
        ),
{
    match store.stored_body(doc_id, file) {
        None => {
            let e = plan->Err_0@;
            assert(is_reply(r.answer(), reply, request_id, false, Some(e)));
        },
        Some(doc) => {
            if metadata_of(doc, now) is Some {
                let m = metadata_of(doc, now)->0;
                let body = choose|body: serde_json::Value|
                    is_patch(doc, body) && #[trigger] planned(body, patched(doc, m), plan);
                assert(writes_patched(
                    r,
                    client_id,
                    request_id,
                    user_id,
                    reply,
                    body,
                    patched(doc, m),
                ));
            }
        },
    }
}

/// What the writing of a body ends in: where it worked, the metadata enters
/// the index, which is then to be written; where it did not, a refusal.
pub open spec fn committed(
    before: DocumentStore,
    after: DocumentStore,
    client_id: u64,
    request_id: Seq<char>,
    reply: Reply,
    metadata: DocumentMetadataView,
    user_id: Seq<char>,
    outcome: Result<(), String>,
    r: Step,
) -> bool {
    match outcome {
        Ok(_) => if metadata.id.len() == 0 {
            &&& after@ == before@
            &&& r.answers(client_id)
            &&& is_reply(r.answer(), reply, request_id, false, Some("Document missing 'id' field"@))
        } else {
            &&& after@ == index_with(before@, metadata)
            &&& r.effects@.len() == 0
            &&& r.io matches Some((IoRequest::WriteIndex, Pending::Announce {
                client_id: c,
                request_id: id,
                reply: kind,
                doc_id,
                event_type,
                user_id: u,
            }))
            &&& c == client_id
            &&& id@ == request_id
            &&& kind == reply
            &&& doc_id@ == metadata.id
            &&& event_type == event_after(reply, !before@.contains_key(metadata.id))
            &&& u@ == user_id
        },
        Err(e) => {
            &&& after@ == before@
            &&& r.answers(client_id)
            &&& is_reply(r.answer(), reply, request_id, false, Some("Write error: "@ + e@))
        },
    }
}

/// What the writing of the index after a save ends in: the answer to the
/// client, followed by the event to everybody; or a refusal where the
/// writing failed.
pub open spec fn announced(
    store: DocumentStore,
    client_id: u64,
    request_id: Seq<char>,
    reply: Reply,
    doc_id: Seq<char>,
    event_type: DocEventType,
    user_id: Seq<char>,
    outcome: Result<(), String>,
    r: Step,
) -> bool {
    match outcome {
        Ok(_) => {
            &&& answers_and_announces(
                r,
                client_id,
                event_type,
                doc_id,
                lookup(store, doc_id),
                user_id,
            )
            &&& is_reply(r.answer(), reply, request_id, true, None)
        },
        Err(e) => r.answers(client_id) && is_reply(
            r.answer(),
            reply,
            request_id,
            false,
            Some("Write error: "@ + e@),
        ),
    }
}

/// What the removing of a document's file ends in: where it worked, the
/// document leaves the index, which is then to be written; where it did
/// not, a refusal.
pub open spec fn deleted(
    before: DocumentStore,
    after: DocumentStore,
    client_id: u64,
    request_id: Seq<char>,
    doc_id: Seq<char>,
    user_id: Seq<char>,
    outcome: Result<bool, String>,
    r: Step,
) -> bool {
    match outcome {
        Ok(existed) => {
            &&& after@ == index_without(before@, doc_id)
            &&& r.effects@.len() == 0
            &&& r.io matches Some((IoRequest::WriteIndex, Pending::AnnounceDelete {
                client_id: c,
                request_id: id,
                doc_id: d,
                removed,
                user_id: u,
            }))
            &&& c == client_id
            &&& id@ == request_id
            &&& d@ == doc_id
            &&& removed == deletion_found(before@, doc_id, existed)
            &&& u@ == user_id
        },
        Err(e) => {
            &&& after@ == before@
            &&& r.answers(client_id)
            &&& is_delete_reply(
                r.answer(),
                request_id,
                false,
                Some("Failed to delete document file: "@ + e@),
            )
        },
    }
}

/// What the writing of the index after a deletion ends in: the answer to
/// the client and, where something was deleted, the event to everybody.
pub open spec fn announced_deletion(
    client_id: u64,
    request_id: Seq<char>,
    doc_id: Seq<char>,
    removed: bool,
    user_id: Seq<char>,
    outcome: Result<(), String>,
    r: Step,
) -> bool {
    match outcome {
        Ok(_) => if removed {
            &&& answers_and_announces(r, client_id, DocEventType::Deleted, doc_id, None, user_id)
            &&& is_delete_reply(r.answer(), request_id, true, None)
        } else {
            r.answers(client_id) && is_delete_reply(r.answer(), request_id, false, None)
        },
        Err(e) => r.answers(client_id) && is_delete_reply(
            r.answer(),
            request_id,
            false,
            Some("Write error: "@ + e@),
        ),
    }
}

/// Answers a client with the document that was read for it.
pub fn resume_get(
    store: &DocumentStore,
    client_id: u64,
    request_id: String,
    doc_id: String,
    file: Result<String, String>,
) -> (r: Step)
    ensures
        got(*store, client_id, request_id@, doc_id@, file, r),
{
    let response = match store.get_document(doc_id.as_str(), file) {
        Ok(body) => DocGetResponse { request_id, document: Some(body), error: None },
        Err(e) => DocGetResponse { request_id, document: None, error: Some(e) },
    };
    Step::send(client_id, ServerMessage::DocGet(response))
}

/// Ends a read that was made to patch a document: with the writing of the
/// patched body, or with a refusal.
fn after_patch(
    plan: Result<SavePlan, String>,
    client_id: u64,
    request_id: String,
    user_id: String,
    reply: Reply,
) -> (r: Step)
    ensures
        plan_carried_out(plan, client_id, request_id@, user_id@, reply, r),
{
    match plan {
        Ok(plan) => Step::wait(
            IoRequest::WriteFile { path: plan.path, content: plan.content },
            Pending::Commit { client_id, request_id, reply, metadata: plan.metadata, user_id },
        ),
        Err(e) => Step::send(client_id, reply_failed(reply, request_id.as_str(), e.as_str())),
    }
}

/// Replaces the share list of the document that was read.
pub fn resume_share(
    store: &DocumentStore,
    client_id: u64,
    request: DocShareRequest,
    user_id: String,
    file: Result<String, String>,
    now: u64,
) -> (r: Step)
    ensures
        patched_step(
            *store,
            client_id,
            request.request_id@,
            request.doc_id@,
            user_id@,
            Reply::Share,
            file,
            now,
            shares_patch(requested_shares(entries_view(request.shares@), now)),
            shares_metadata(requested_shares(entries_view(request.shares@), now)),
            r,
        ),
{
    let plan = store.update_document_shares(request.doc_id.as_str(), file, &request.shares, now);
    let ghost planned_for = plan;
    let r = after_patch(plan, client_id, request.request_id, user_id, Reply::Share);
    proof {
        lemma_patched_step(
            *store,
            client_id,
            request.request_id@,
            request.doc_id@,
            user_id@,
            Reply::Share,
            file,
            now,
            shares_patch(requested_shares(entries_view(request.shares@), now)),
            shares_metadata(requested_shares(entries_view(request.shares@), now)),
            planned_for,
            r,
        );
    }
    r
}

/// Hands the document that was read to its new owner.
pub fn resume_transfer(
    store: &DocumentStore,
    client_id: u64,
    request: DocTransferRequest,
    previous_owner_id: String,
    user_id: String,
    file: Result<String, String>,
    now: u64,
) -> (r: Step)
    ensures
        patched_step(
            *store,
            client_id,
            request.request_id@,
            request.doc_id@,
            user_id@,
            Reply::Transfer,
            file,
            now,
            owner_patch(
                request.new_owner_id@,
                request.new_owner_name@,
                previous_owner_id@,
                now,
            ),
            owner_metadata(
                request.new_owner_id@,
                request.new_owner_name@,
                previous_owner_id@,
                now,
            ),
            r,
        ),
{
    let plan = store.transfer_ownership(
        request.doc_id.as_str(),
        file,
        request.new_owner_id.as_str(),
        request.new_owner_name.as_str(),
        previous_owner_id.as_str(),
        now,
    );
    let ghost planned_for = plan;
    let r = after_patch(plan, client_id, request.request_id, user_id, Reply::Transfer);
    proof {
        lemma_patched_step(
            *store,
            client_id,
            request.request_id@,
            request.doc_id@,
            user_id@,
            Reply::Transfer,
            file,
            now,
            owner_patch(
                request.new_owner_id@,
                request.new_owner_name@,
                previous_owner_id@,
                now,
            ),
            owner_metadata(
                request.new_owner_id@,
                request.new_owner_name@,
                previous_owner_id@,
                now,
            ),
            planned_for,
            r,
        );
    }
    r
}

/// Enters the metadata of a body that was written into the index.
pub fn resume_commit(
    store: &mut DocumentStore,
    client_id: u64,
    request_id: String,
    reply: Reply,
    metadata: DocumentMetadata,
    user_id: String,
    outcome: Result<(), String>,
) -> (r: Step)
    requires
        old(store).wf(),
    ensures
        final(store).wf(),
        committed(
            *old(store),
            *final(store),
            client_id,
            request_id@,
            reply,
            metadata@,
            user_id@,
            outcome,
            r,
        ),
{
    match outcome {
        Ok(_) => {
            if metadata.id.as_str().is_empty() {
                return Step::send(
                    client_id,
                    reply_failed(reply, request_id.as_str(), "Document missing 'id' field"),
                );
            }
            let doc_id = metadata.id.clone();
            let created = store.commit(metadata);
            let event_type = match reply {
                Reply::Save => if created {
                    DocEventType::Created
                } else {
                    DocEventType::Updated
                },
                _ => DocEventType::Updated,
            };
            Step::wait(
                IoRequest::WriteIndex,
                Pending::Announce { client_id, request_id, reply, doc_id, event_type, user_id },
            )
        },
        Err(e) => Step::send(
            client_id,
            reply_failed(
                reply,
                request_id.as_str(),
                concat_str("Write error: ", e.as_str()).as_str(),
            ),
        ),
    }
}

/// Answers a save, a share or a transfer and announces the change, now
/// that the index is written.
pub fn resume_announce(
    store: &DocumentStore,
    client_id: u64,
    request_id: String,
    reply: Reply,
    doc_id: String,
    event_type: DocEventType,
    user_id: String,
    outcome: Result<(), String>,
) -> (r: Step)
    requires
        store.wf(),
    ensures
        announced(
            *store,
            client_id,
            request_id@,
            reply,
            doc_id@,
            event_type,
            user_id@,
            outcome,
            r,
        ),
{
    match outcome {
        Ok(_) => {
            let metadata = store.get_metadata(doc_id.as_str());
            let mut effects: Vec<Effect> = Vec::new();
            effects.push(
                Effect::Send { client_id, message: reply_done(reply, request_id.as_str()) },
            );
            effects.push(
                Effect::Announce { event: DocEvent { event_type, doc_id, metadata, user_id } },
            );
            Step { effects, io: None }
        },
        Err(e) => Step::send(
            client_id,
            reply_failed(
                reply,
                request_id.as_str(),
                concat_str("Write error: ", e.as_str()).as_str(),
            ),
        ),
    }
}

/// Takes a document whose file was removed out of the index.
pub fn resume_delete(
    store: &mut DocumentStore,
    client_id: u64,
    request_id: String,
    doc_id: String,
    user_id: String,
    outcome: Result<bool, String>,
) -> (r: Step)
    requires
        old(store).wf(),
    ensures
        final(store).wf(),
        deleted(
            *old(store),
            *final(store),
            client_id,
            request_id@,
            doc_id@,
            user_id@,
            outcome,
            r,
        ),
{
    match outcome {
        Ok(existed) => {
            let removed = store.delete_document(doc_id.as_str(), existed);
            Step::wait(
                IoRequest::WriteIndex,
                Pending::AnnounceDelete { client_id, request_id, doc_id, removed, user_id },
            )
        },
        Err(e) => Step::send(
            client_id,
            ServerMessage::DocDelete(
                DocDeleteResponse::failed(
                    request_id.as_str(),
                    concat_str("Failed to delete document file: ", e.as_str()).as_str(),
                ),
            ),
        ),
    }
}

/// Answers a deletion and announces it, now that the index is written.
pub fn resume_announce_delete(
    client_id: u64,
    request_id: String,
    doc_id: String,
    removed: bool,
    user_id: String,
    outcome: Result<(), String>,
) -> (r: Step)
    ensures
        announced_deletion(client_id, request_id@, doc_id@, removed, user_id@, outcome, r),
{
    match outcome {
        Ok(_) => {
            let mut effects: Vec<Effect> = Vec::new();
            effects.push(
                Effect::Send {
                    client_id,
                    message: ServerMessage::DocDelete(
                        DocDeleteResponse { request_id, success: removed, error: None },
                    ),
                },
            );
            if removed {
                effects.push(
                    Effect::Announce {
                        event: DocEvent {
                            event_type: DocEventType::Deleted,
                            doc_id,
                            metadata: None,
                            user_id,
                        },
                    },
                );
            }
            Step { effects, io: None }
        },
        Err(e) => Step::send(
            client_id,
            ServerMessage::DocDelete(
                DocDeleteResponse::failed(
                    request_id.as_str(),
                    concat_str("Write error: ", e.as_str()).as_str(),
                ),
            ),
        ),
    }
}

/// What going on with what the server had begun comes to, once the disk has
/// answered.
///
/// A document that was read is answered with, or patched and to be written.
/// A body that was written enters the index, which is then to be written. An
/// index that was written is followed by the answer to the client and by the
/// event to everybody, in this order. Where the disk failed, the client is
/// told why and nothing else happens. An answer of the disk that does not
/// fit what was waited for changes nothing and ends the matter without a
/// word.
pub open spec fn resumed(
    before: DocumentStore,
    after: DocumentStore,
    pending: Pending,
    result: IoResult,
    now: u64,
    r: Step,
) -> bool {
    match (pending, result) {
        (Pending::Get { client_id, request_id, doc_id }, IoResult::Read(file)) => after@
            == before@ && got(before, client_id, request_id@, doc_id@, file, r),
        (Pending::Share { client_id, request, user_id }, IoResult::Read(file)) => after@
            == before@ && patched_step(
            before,
            client_id,
            request.request_id@,
            request.doc_id@,
            user_id@,
            Reply::Share,
            file,
            now,
            shares_patch(requested_shares(entries_view(request.shares@), now)),
            shares_metadata(requested_shares(entries_view(request.shares@), now)),
            r,
        ),
        (
            Pending::Transfer { client_id, request, previous_owner_id, user_id },
            IoResult::Read(file),
        ) => after@ == before@ && patched_step(
            before,
            client_id,
            request.request_id@,
            request.doc_id@,
            user_id@,
            Reply::Transfer,
            file,
            now,
            owner_patch(
                request.new_owner_id@,
                request.new_owner_name@,
                previous_owner_id@,
                now,
            ),
            owner_metadata(
                request.new_owner_id@,
                request.new_owner_name@,
                previous_owner_id@,
                now,
            ),
            r,
        ),
        (
            Pending::Commit { client_id, request_id, reply, metadata, user_id },
            IoResult::Written(outcome),
        ) => committed(
            before,
            after,
            client_id,
            request_id@,
            reply,
            metadata@,
            user_id@,
            outcome,
            r,
        ),
        (
            Pending::Announce { client_id, request_id, reply, doc_id, event_type, user_id },
            IoResult::Written(outcome),
        ) => after@ == before@ && announced(
            before,
            client_id,
            request_id@,
            reply,
            doc_id@,
            event_type,
            user_id@,
            outcome,
            r,
        ),
        (
            Pending::Delete { client_id, request_id, doc_id, user_id },
            IoResult::Removed(outcome),
        ) => deleted(
            before,
            after,
            client_id,
            request_id@,
            doc_id@,
            user_id@,
            outcome,
            r,
        ),
        (
            Pending::AnnounceDelete { client_id, request_id, doc_id, removed, user_id },
            IoResult::Written(outcome),
        ) => after@ == before@ && announced_deletion(
            client_id,
            request_id@,
            doc_id@,
            removed,
            user_id@,
            outcome,
            r,
        ),
        _ => after@ == before@ && r.effects@.len() == 0 && r.io is None,
    }
}

/// Goes on with what the server had begun, now that the disk has answered.
/// `now` is the current time in milliseconds.
///
/// A document that was read is answered with, or patched and written. A
/// body that was written enters the index, which is then written. An index
/// that was written is followed by the answer to the client and by the event
/// to everybody, in this order. Where the disk failed, the client is told
/// why and nothing else happens. An answer of the disk that does not fit
/// what was waited for ends the matter without a word.
pub fn resume(store: &mut DocumentStore, pending: Pending, result: IoResult, now: u64) -> (r: Step)
    requires
        old(store).wf(),
    ensures
        final(store).wf(),
        resumed(*old(store), *final(store), pending, result, now, r),
{
    match (pending, result) {
        (Pending::Get { client_id, request_id, doc_id }, IoResult::Read(file)) => resume_get(
            store,
            client_id,
            request_id,
            doc_id,
            file,
        ),
        (Pending::Share { client_id, request, user_id }, IoResult::Read(file)) => resume_share(
            store,
            client_id,
            request,
            user_id,
            file,
            now,
        ),
        (
            Pending::Transfer { client_id, request, previous_owner_id, user_id },
            IoResult::Read(file),
        ) => resume_transfer(store, client_id, request, previous_owner_id, user_id, file, now),
        (
            Pending::Commit { client_id, request_id, reply, metadata, user_id },
            IoResult::Written(outcome),
        ) => resume_commit(store, client_id, request_id, reply, metadata, user_id, outcome),
        (
            Pending::Announce { client_id, request_id, reply, doc_id, event_type, user_id },
            IoResult::Written(outcome),
        ) => resume_announce(
            store,
            client_id,
            request_id,
            reply,
            doc_id,
            event_type,
            user_id,
            outcome,
        ),
        (
            Pending::Delete { client_id, request_id, doc_id, user_id },
            IoResult::Removed(outcome),
        ) => resume_delete(store, client_id, request_id, doc_id, user_id, outcome),
        (
            Pending::AnnounceDelete { client_id, request_id, doc_id, removed, user_id },
            IoResult::Written(outcome),
        ) => resume_announce_delete(client_id, request_id, doc_id, removed, user_id, outcome),
        _ => Step::nothing(),
    }
}

/// A message of a client, read as far as it was readable: a request that is
/// `None` stands for a payload that was not.
#[derive(Debug)]
pub enum ClientMessage {
    Auth(Option<String>),
    AuthLogin(Option<AuthLoginRequest>),
    JoinDoc(Option<JoinDocRequest>),
    Sync,
    Awareness,
    DocList(Option<DocListRequest>),
    DocGet(Option<DocGetRequest>),
    DocSave(Option<DocSaveRequest>),
    DocDelete(Option<DocDeleteRequest>),
    DocShare(Option<DocShareRequest>),
    DocTransfer(Option<DocTransferRequest>),
    /// A kind of message that clients do not send.
    Other(u8),
}

impl ClientMessage {
    /// The kind of message, as the first byte of its frame tells it.
    pub open spec fn kind(self) -> u8 {
        match self {
            ClientMessage::Auth(_) => MESSAGE_AUTH,
            ClientMessage::AuthLogin(_) => MESSAGE_AUTH_LOGIN,
            ClientMessage::JoinDoc(_) => MESSAGE_JOIN_DOC,
            ClientMessage::Sync => MESSAGE_SYNC,
            ClientMessage::Awareness => MESSAGE_AWARENESS,
            ClientMessage::DocList(_) => MESSAGE_DOC_LIST,
            ClientMessage::DocGet(_) => MESSAGE_DOC_GET,
            ClientMessage::DocSave(_) => MESSAGE_DOC_SAVE,
            ClientMessage::DocDelete(_) => MESSAGE_DOC_DELETE,
            ClientMessage::DocShare(_) => MESSAGE_DOC_SHARE,
            ClientMessage::DocTransfer(_) => MESSAGE_DOC_TRANSFER,
            ClientMessage::Other(t) => t,
        }
    }

    /// Whether the message carries a request that was read.
    pub open spec fn readable(self) -> bool {
        match self {
            ClientMessage::Auth(r) => r is Some,
            ClientMessage::AuthLogin(r) => r is Some,
            ClientMessage::JoinDoc(r) => r is Some,
            ClientMessage::Sync => true,
            ClientMessage::Awareness => true,
            ClientMessage::DocList(r) => r is Some,
            ClientMessage::DocGet(r) => r is Some,
            ClientMessage::DocSave(r) => r is Some,
            ClientMessage::DocDelete(r) => r is Some,
            ClientMessage::DocShare(r) => r is Some,
            ClientMessage::DocTransfer(r) => r is Some,
            ClientMessage::Other(_) => true,
        }
    }

    /// Whether a connection that is not authenticated may send the message.
    pub open spec fn opens_session(self) -> bool {
        self is Auth || self is AuthLogin
    }
}

/// The kinds of message that clients send.
pub open spec fn is_client_kind(t: u8) -> bool {
    t == MESSAGE_AUTH || t == MESSAGE_AUTH_LOGIN || t == MESSAGE_JOIN_DOC || t == MESSAGE_SYNC || t
        == MESSAGE_AWARENESS || t == MESSAGE_DOC_LIST || t == MESSAGE_DOC_GET || t
        == MESSAGE_DOC_SAVE || t == MESSAGE_DOC_DELETE || t == MESSAGE_DOC_SHARE || t
        == MESSAGE_DOC_TRANSFER
}

/// The JSON value that the payload of a frame stands for.
pub open spec fn payload_of(data: Seq<u8>) -> Option<serde_json::Value> {
    match frame_payload(data) {
        Some(bytes) => json_of_bytes(bytes),
        None => None,
    }
}

/// What a request is read as from an optional payload: nothing where there
/// is no payload.
pub open spec fn read_from<T>(
    payload: Option<serde_json::Value>,
    r: Option<T>,
    read_as: spec_fn(serde_json::Value, Option<T>) -> bool,
) -> bool {
    match payload {
        Some(p) => read_as(p, r),
        None => r is None,
    }
}

/// Whether `r` is what reading the frame `data` gives: no message for an
/// empty frame; else the kind of message that the first byte tells, with
/// the request that the payload states.
pub open spec fn decodes(data: Seq<u8>, r: Option<ClientMessage>) -> bool {
    match r {
        None => data.len() == 0,
        Some(m) => {
            &&& data.len() > 0
            &&& m.kind() == data[0]
            &&& m is Other <==> !is_client_kind(data[0])
            &&& match m {
                ClientMessage::Auth(token) => match token {
                    Some(t) => payload_of(data) is Some && json_text(payload_of(data)->0) == Some(
                        t@,
                    ),
                    None => payload_of(data) is None || json_text(payload_of(data)->0) is None,
                },
                ClientMessage::AuthLogin(r) => read_from(
                    payload_of(data),
                    r,
                    |v: serde_json::Value, r: Option<AuthLoginRequest>|
                        AuthLoginRequest::read_as(v, r),
                ),
                ClientMessage::JoinDoc(r) => read_from(
                    payload_of(data),
                    r,
                    |v: serde_json::Value, r: Option<JoinDocRequest>| JoinDocRequest::read_as(v, r),
                ),
                ClientMessage::DocList(r) => read_from(
                    payload_of(data),
                    r,
                    |v: serde_json::Value, r: Option<DocListRequest>| DocListRequest::read_as(v, r),
                ),
                ClientMessage::DocGet(r) => read_from(
                    payload_of(data),
                    r,
                    |v: serde_json::Value, r: Option<DocGetRequest>| DocGetRequest::read_as(v, r),
                ),
                ClientMessage::DocSave(r) => read_from(
                    payload_of(data),
                    r,
                    |v: serde_json::Value, r: Option<DocSaveRequest>| DocSaveRequest::read_as(v, r),
                ),
                ClientMessage::DocDelete(r) => read_from(
                    payload_of(data),
                    r,
                    |v: serde_json::Value, r: Option<DocDeleteRequest>|
                        DocDeleteRequest::read_as(v, r),
                ),
                ClientMessage::DocShare(r) => read_from(
                    payload_of(data),
                    r,
                    |v: serde_json::Value, r: Option<DocShareRequest>|
                        DocShareRequest::read_as(v, r),
                ),
                ClientMessage::DocTransfer(r) => read_from(
                    payload_of(data),
                    r,
                    |v: serde_json::Value, r: Option<DocTransferRequest>|
                        DocTransferRequest::read_as(v, r),
                ),
                _ => true,
            }
        },
    }
}

/// Reads a frame of a client: the kind of message from its first byte, the
/// request from its payload. An empty frame is no message. The token of
/// an `AUTH` message is the payload itself, a JSON string.
pub fn decode_client_message(data: &[u8]) -> (r: Option<ClientMessage>)
    ensures
        decodes(data@, r),
{
    let msg_type = match decode_message_type(data) {
        Some(t) => t,
        None => {
            return None;
        },
    };
    if msg_type == MESSAGE_SYNC {
        return Some(ClientMessage::Sync);
    }
    if msg_type == MESSAGE_AWARENESS {
        return Some(ClientMessage::Awareness);
    }
    if !(msg_type == MESSAGE_AUTH || msg_type == MESSAGE_AUTH_LOGIN || msg_type == MESSAGE_JOIN_DOC
        || msg_type == MESSAGE_DOC_LIST || msg_type == MESSAGE_DOC_GET || msg_type
        == MESSAGE_DOC_SAVE || msg_type == MESSAGE_DOC_DELETE || msg_type == MESSAGE_DOC_SHARE
        || msg_type == MESSAGE_DOC_TRANSFER) {
        return Some(ClientMessage::Other(msg_type));
    }
    let payload = match decode_payload(data) {
        Ok(p) => Some(p),
        Err(_) => None,
    };
    let message = if msg_type == MESSAGE_AUTH {
        ClientMessage::Auth(
            match &payload {
                Some(p) => match text(p) {
                    Some(t) => Some(t.to_owned()),
                    None => None,
                },
                None => None,
            },
        )
    } else if msg_type == MESSAGE_AUTH_LOGIN {
        ClientMessage::AuthLogin(
            match &payload {
                Some(p) => AuthLoginRequest::from_json(p),
                None => None,
            },
        )
    } else if msg_type == MESSAGE_JOIN_DOC {
        ClientMessage::JoinDoc(
            match &payload {
                Some(p) => JoinDocRequest::from_json(p),
                None => None,
            },
        )
    } else if msg_type == MESSAGE_DOC_LIST {
        ClientMessage::DocList(
            match &payload {
                Some(p) => DocListRequest::from_json(p),
                None => None,
            },
        )
    } else if msg_type == MESSAGE_DOC_GET {
        ClientMessage::DocGet(
            match &payload {
                Some(p) => DocGetRequest::from_json(p),
                None => None,
            },
        )
    } else if msg_type == MESSAGE_DOC_SAVE {
        ClientMessage::DocSave(
            match &payload {
                Some(p) => DocSaveRequest::from_json(p),
                None => None,
            },
        )
    } else if msg_type == MESSAGE_DOC_DELETE {
        ClientMessage::DocDelete(
            match &payload {
                Some(p) => DocDeleteRequest::from_json(p),
                None => None,
            },
        )
    } else if msg_type == MESSAGE_DOC_SHARE {
        ClientMessage::DocShare(
            match &payload {
                Some(p) => DocShareRequest::from_json(p),
                None => None,
            },
        )
    } else {
        ClientMessage::DocTransfer(
            match &payload {
                Some(p) => DocTransferRequest::from_json(p),
                None => None,
            },
        )
    };
    Some(message)
}

/// The server while it runs: its connections and its documents.
pub struct ServerState {
    /// The connections, by their id.
    pub clients: HashMap<u64, ClientState>,
    /// The id that the next connection gets.
    pub next_client_id: u64,
    /// The number of connections.
    pub client_count: u16,
    /// The index of the documents.
    pub doc_store: DocumentStore,
    /// The secret that tokens shown by clients must be signed with.
    pub jwt_secret: String,
    /// How tokens are signed and how long they last.
    pub token_config: TokenConfig,
}

/// The answer to a message of a connection that is not authenticated.
pub open spec fn is_not_authenticated(r: Step, client_id: u64) -> bool {
    &&& r.answers(client_id)
    &&& r.answer() matches ServerMessage::Error(m)
    &&& m.request_id is None
    &&& m.error@ == "NOT_AUTHENTICATED"@
}

/// The step that an answer to a token or a login makes: the answer goes to
/// the client, and where the registry has changed it is to be written.
pub open spec fn is_auth_step(
    r: Step,
    client_id: u64,
    response: AuthResponse,
    changed: bool,
) -> bool {
    &&& r.io is None
    &&& r.effects@.len() == (if changed {
        2nat
    } else {
        1nat
    })
    &&& r.effects@[0] == (Effect::Send { client_id, message: ServerMessage::Auth(response) })
    &&& changed ==> r.effects@[1] is PersistUsers
}

/// What the handling of a message of the connection `client_id` comes to.
///
/// A message of a connection that the server does not know is passed over.
/// A connection that is not authenticated may show a token or log in;
/// whatever else it sends is answered with `NOT_AUTHENTICATED`. Of the
/// connections, only the sender's changes; the index of the documents
/// never does: that waits for the disk.
pub open spec fn handled(
    before_state: ServerState,
    after_state: ServerState,
    users_before: Option<UserStore>,
    users_after: Option<UserStore>,
    client_id: u64,
    message: ClientMessage,
    data: Seq<u8>,
    now: u64,
    r: Step,
) -> bool {
    &&& after_state.doc_store == before_state.doc_store
    &&& after_state.jwt_secret == before_state.jwt_secret
    &&& after_state.token_config == before_state.token_config
    &&& after_state.next_client_id == before_state.next_client_id
    &&& after_state.client_count == before_state.client_count
    &&& !before_state.clients@.contains_key(client_id) ==> {
        &&& after_state.clients@ == before_state.clients@
        &&& users_after == users_before
        &&& r.effects@.len() == 0
        &&& r.io is None
    }
    &&& before_state.clients@.contains_key(client_id) ==> {
        let before = before_state.clients@[client_id];
        let store = before_state.doc_store;
        &&& after_state.clients@.contains_key(client_id)
        &&& after_state.clients@ == before_state.clients@.insert(
            client_id,
            after_state.clients@[client_id],
        )
        &&& {
            let after = after_state.clients@[client_id];
            if !before.authenticated && !message.opens_session() {
                &&& after == before
                &&& users_after == users_before
                &&& is_not_authenticated(r, client_id)
            } else {
                match message {
                    ClientMessage::Auth(token) => {
                        &&& users_after == users_before
                        &&& exists|response: AuthResponse|
                            #![trigger is_auth_step(r, client_id, response, false)]
                            {
                                &&& is_auth_step(r, client_id, response, false)
                                &&& token_shown(
                                    before,
                                    after,
                                    opt_view(token),
                                    before_state.jwt_secret@,
                                    now / 1000,
                                    response,
                                )
                            }
                    },
                    ClientMessage::AuthLogin(request) => exists|
                        response: AuthResponse,
                        changed: bool,
                    |
                        #![trigger is_auth_step(r, client_id, response, changed)]
                        {
                            &&& is_auth_step(r, client_id, response, changed)
                            &&& logged_in(
                                before,
                                after,
                                request,
                                users_before,
                                users_after,
                                before_state.token_config.secret@,
                                before_state.token_config.expiry_secs,
                                now,
                                (response, changed),
                            )
                        },
                    ClientMessage::JoinDoc(request) => users_after == users_before
                        && joined(store, before, after, request, r),
                    ClientMessage::Sync => after == before && users_after == users_before
                        && forwarded(
                        store,
                        before,
                        data,
                        Permission::Editor,
                        r,
                    ),
                    ClientMessage::Awareness => after == before && users_after == users_before
                        && forwarded(
                        store,
                        before,
                        data,
                        Permission::Viewer,
                        r,
                    ),
                    ClientMessage::DocList(request) => after == before && users_after
                        == users_before && listed(
                        store,
                        before,
                        request,
                        r,
                    ),
                    ClientMessage::DocGet(request) => after == before && users_after
                        == users_before && get_begun(
                        store,
                        before,
                        request,
                        r,
                    ),
                    ClientMessage::DocSave(request) => after == before && users_after
                        == users_before && save_begun(
                        store,
                        before,
                        request,
                        now,
                        r,
                    ),
                    ClientMessage::DocDelete(request) => after == before && users_after
                        == users_before && delete_begun(
                        store,
                        before,
                        request,
                        r,
                    ),
                    ClientMessage::DocShare(request) => after == before && users_after
                        == users_before && share_begun(
                        store,
                        before,
                        request,
                        r,
                    ),
                    ClientMessage::DocTransfer(request) => after == before && users_after
                        == users_before && transfer_begun(
                        store,
                        before,
                        request,
                        r,
                    ),
                    ClientMessage::Other(_) => after == before && users_after == users_before
                        && r.effects@.len() == 0 && r.io is None,
                }
            }
        }
    }
}

impl ServerState {
    /// The index of the documents is well formed, and every connection
    /// stands under its own id.
    pub open spec fn wf(&self) -> bool {
        &&& self.doc_store.wf()
        &&& forall|id: u64| #[trigger]
            self.clients@.contains_key(id) ==> self.clients@[id].id == id
    }

    /// A server without connections.
    pub fn new(doc_store: DocumentStore, jwt_secret: String, token_config: TokenConfig) -> (r: Self)
        requires
            doc_store.wf(),
        ensures
            r.wf(),
            r.clients@ == Map::<u64, ClientState>::empty(),
            r.next_client_id == 1,
            r.client_count == 0,
            r.doc_store == doc_store,
            r.jwt_secret == jwt_secret,
            r.token_config == token_config,
    {
        ServerState {
            clients: HashMap::new(),
            next_client_id: 1,
            client_count: 0,
            doc_store,
            jwt_secret,
            token_config,
        }
    }

    /// Accepts a connection: it gets the next id and starts out
    /// unauthenticated and in no document.
    pub fn connect(&mut self) -> (id: u64)
        requires
            old(self).wf(),
        ensures
            final(self).wf(),
            id == old(self).next_client_id,
            final(self).next_client_id == if id == u64::MAX {
                0
            } else {
                (id + 1) as u64
            },
            final(self).clients@.contains_key(id),
            final(self).clients@[id].id == id,
            !final(self).clients@[id].authenticated,
            final(self).clients@[id].user_id is None,
            final(self).clients@[id].username is None,
            final(self).clients@[id].role is None,
            final(self).clients@[id].current_doc_id is None,
            final(self).clients@ == old(self).clients@.insert(id, final(self).clients@[id]),
            final(self).client_count == if old(self).client_count == u16::MAX {
                0
            } else {
                (old(self).client_count + 1) as u16
            },
            final(self).doc_store == old(self).doc_store,
            final(self).jwt_secret == old(self).jwt_secret,
            final(self).token_config == old(self).token_config,
    {
        let id = self.next_client_id;
        self.next_client_id = if id == u64::MAX {
            0
        } else {
            id + 1
        };
        self.clients.insert(id, ClientState::new(id));
        self.client_count = if self.client_count == u16::MAX {
            0
        } else {
            self.client_count + 1
        };
        id
    }

    /// Ends a connection.
    pub fn disconnect(&mut self, client_id: u64)
        requires
            old(self).wf(),
        ensures
            final(self).wf(),
            final(self).clients@ == old(self).clients@.remove(client_id),
            final(self).client_count == if old(self).client_count == 0 {
                u16::MAX
            } else {
                (old(self).client_count - 1) as u16
            },
            final(self).next_client_id == old(self).next_client_id,
            final(self).doc_store == old(self).doc_store,
            final(self).jwt_secret == old(self).jwt_secret,
            final(self).token_config == old(self).token_config,
    {
        self.clients.remove(&client_id);
        self.client_count = if self.client_count == 0 {
            u16::MAX
        } else {
            self.client_count - 1
        };
    }

    /// The number of connections.
    pub fn client_count(&self) -> (r: u16)
        ensures
            r == self.client_count,
    {
        self.client_count
    }

    /// Whether a message on its way to many is for the connection
    /// `client_id`: never for one that has ended.
    pub fn should_deliver(&self, client_id: u64, msg: &BroadcastMessage) -> (r: bool)
        ensures
            r == (self.clients@.contains_key(client_id) && is_target(
                self.clients@[client_id].id,
                opt_view(self.clients@[client_id].current_doc_id),
                self.clients@[client_id].authenticated,
                opt_view(msg.doc_id),
                msg.exclude_client,
            )),
    {
        match self.clients.get(&client_id) {
            Some(client) => crate::server::session::should_deliver(client, msg),
            None => false,
        }
    }

    /// What the server does with a message of the connection `client_id`.
    /// `data` is the frame that the message came in; `now` is the current
    /// time in milliseconds.
    ///
    /// A message of a connection that the server does not know is passed
    /// over. A connection that is not authenticated may show a token or log
    /// in; whatever else it sends is answered with `NOT_AUTHENTICATED`. The
    /// index of the documents changes in no case: that waits for the disk.
    pub fn handle_client_message(
        &mut self,
        user_store: &mut Option<UserStore>,
        client_id: u64,
        message: ClientMessage,
        data: &[u8],
        now: u64,
    ) -> (r: Step)
        requires
            old(self).wf(),
            *old(user_store) matches Some(s) ==> s.wf(),
        ensures
            final(self).wf(),
            *final(user_store) matches Some(s) ==> s.wf(),
            handled(
                *old(self),
                *final(self),
                *old(user_store),
                *final(user_store),
                client_id,
                message,
                data@,
                now,
                r,
            ),
    {
        let mut client = match self.clients.get(&client_id) {
            Some(c) => c.clone(),
            None => {
                return Step::nothing();
            },
        };
        assert(self.clients@ =~= self.clients@.insert(client_id, client));
        match message {
            ClientMessage::Auth(token) => {
                let response = handle_auth(
                    &mut client,
                    borrow_opt(&token),
                    self.jwt_secret.as_str(),
                    now / 1000,
                );
                self.clients.insert(client_id, client);
                let r = Step::send(client_id, ServerMessage::Auth(response));
                assert(is_auth_step(r, client_id, response, false));
                r
            },
            ClientMessage::AuthLogin(request) => {
                let (response, changed) = handle_auth_login(
                    &mut client,
                    request.as_ref(),
                    user_store,
                    &self.token_config,
                    now,
                );
                self.clients.insert(client_id, client);
                let mut effects: Vec<Effect> = Vec::new();
                effects.push(Effect::Send { client_id, message: ServerMessage::Auth(response) });
                if changed {
                    effects.push(Effect::PersistUsers);
                }
                let r = Step { effects, io: None };
                assert(is_auth_step(r, client_id, response, changed));
                r
            },
            other => {
                if !client.authenticated {
                    return Step::send(
                        client_id,
                        ServerMessage::Error(
                            ErrorResponse {
                                request_id: None,
                                error: "NOT_AUTHENTICATED".to_owned(),
                            },
                        ),
                    );
                }
                match other {
                    ClientMessage::JoinDoc(request) => {
                        let r = handle_join_doc(&mut client, request.as_ref(), &self.doc_store);
                        self.clients.insert(client_id, client);
                        r
                    },
                    ClientMessage::Sync => handle_sync(&client, data, &self.doc_store),
                    ClientMessage::Awareness => handle_awareness(&client, data, &self.doc_store),
                    ClientMessage::DocList(request) => handle_doc_list(
                        &client,
                        request.as_ref(),
                        &self.doc_store,
                    ),
                    ClientMessage::DocGet(request) => handle_doc_get(
                        &client,
                        request.as_ref(),
                        &self.doc_store,
                    ),
                    ClientMessage::DocSave(request) => handle_doc_save(
                        &client,
                        request,
                        &self.doc_store,
                        now,
                    ),
                    ClientMessage::DocDelete(request) => handle_doc_delete(
                        &client,
                        request.as_ref(),
                        &self.doc_store,
                    ),
                    ClientMessage::DocShare(request) => handle_doc_share(
                        &client,
                        request,
                        &self.doc_store,
                    ),
                    ClientMessage::DocTransfer(request) => handle_doc_transfer(
                        &client,
                        request,
                        &self.doc_store,
                    ),
                    _ => Step::nothing(),
                }
            },
        }
    }

    /// What the server does with a frame of the connection `client_id`: it
    /// reads the message and handles it. An empty frame is passed over.
    pub fn handle_message(
        &mut self,
        user_store: &mut Option<UserStore>,
        client_id: u64,
        data: &[u8],
        now: u64,
    ) -> (r: Step)
        requires
            old(self).wf(),
            *old(user_store) matches Some(s) ==> s.wf(),
        ensures
            final(self).wf(),
            *final(user_store) matches Some(s) ==> s.wf(),
            if data@.len() == 0 {
                &&& *final(self) == *old(self)
                &&& *final(user_store) == *old(user_store)
                &&& r.effects@.len() == 0
                &&& r.io is None
            } else {
                exists|message: ClientMessage|
                    {
                        &&& decodes(data@, Some(message))
                        &&& #[trigger] handled(
                            *old(self),
                            *final(self),
                            *old(user_store),
                            *final(user_store),
                            client_id,
                            message,
                            data@,
                            now,
                            r,
                        )
                    }
            },
    {
        match decode_client_message(data) {
            Some(message) => self.handle_client_message(user_store, client_id, message, data, now),
            None => Step::nothing(),
        }
    }

    /// Goes on with what the server had begun, now that the disk has
    /// answered: the step and the index of the documents are as [`resumed`]
    /// tells; the connections and the rest of the server stay as they are.
    pub fn resume(&mut self, pending: Pending, result: IoResult, now: u64) -> (r: Step)
        requires
            old(self).wf(),
        ensures
            final(self).wf(),
            resumed(old(self).doc_store, final(self).doc_store, pending, result, now, r),
            final(self).clients == old(self).clients,
            final(self).jwt_secret == old(self).jwt_secret,
            final(self).token_config == old(self).token_config,
            final(self).next_client_id == old(self).next_client_id,
            final(self).client_count == old(self).client_count,
    {
        resume(&mut self.doc_store, pending, result, now)
    }
}

/// A save carried through. Where the sender may save the body, the body has
/// an id, and the disk takes the body and then the index, the three steps
/// end in this: the body's text was to be written
/// to the document's file, the index has the body's metadata under the
/// body's id, the sender is told of the success, and everybody is told that
/// the document was created, or updated if the index had it before.
pub proof fn law_save_carried_through(
    store: DocumentStore,
    written: DocumentStore,
    announced_in: DocumentStore,
    client: ClientState,
    request: DocSaveRequest,
    now: u64,
    begun: Step,
    committed_step: Step,
    last: Step,
)
    requires
        may_save(store, client, request.document) is Ok,
        metadata_of(request.document, now) is Some,
        save_begun(store, client, Some(request), now, begun),
        begun.io matches Some((_, pending)) ==> resumed(
            store,
            written,
            pending,
            IoResult::Written(Ok::<(), String>(())),
            now,
            committed_step,
        ),
        committed_step.io matches Some((_, pending)) ==> resumed(
            written,
            announced_in,
            pending,
            IoResult::Written(Ok::<(), String>(())),
            now,
            last,
        ),
    ensures
        ({
            let m = metadata_of(request.document, now)->0;
            &&& begun.io matches Some((IoRequest::WriteFile { path, content }, _))
            &&& path@ == doc_path_of(m.id)
            &&& content@ == json_rendered(request.document)
            &&& committed_step.io matches Some((IoRequest::WriteIndex, _))
            &&& written@ == index_with(store@, m)
            &&& announced_in@ == written@
            &&& written@.contains_key(m.id)
            &&& written@[m.id] == m
            &&& answers_and_announces(
                last,
                client.id,
                if store@.contains_key(m.id) {
                    DocEventType::Updated
                } else {
                    DocEventType::Created
                },
                m.id,
                Some(m),
                match client.user_id {
                    Some(id) => id@,
                    None => Seq::empty(),
                },
            )
            &&& is_reply(last.answer(), Reply::Save, request.request_id@, true, None)
        }),
{
    match begun.io {
        Some((_, Pending::Commit { user_id, .. })) => {
            if client.user_id is None {
                assert(user_id@ =~= Seq::<char>::empty());
            }
        },
        _ => {},
    }
}

} // verus!
