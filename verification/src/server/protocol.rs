//! The messages that server and clients exchange, and their framing.
//!
//! A frame is one byte that tells the kind of message, followed by a JSON
//! payload whose members are named in camel case. Requests and the answers
//! to them carry a `requestId` that the client chose.

use vstd::prelude::*;
use vstd::slice::slice_subrange;
use crate::json::{
    error_text, flag_at, from_bytes, from_items, get_items, get_text, items_at, json_bytes,
    json_is_object, json_member, json_of_bytes, member, null, number_at, object, put_flag,
    put_opt_number, put_opt_text, put_text, set_member, text_at, to_bytes,
};
use crate::server::documents::{
    metadata_from_json, metadata_to_json, stored_metadata_of, DocumentMetadata,
    DocumentMetadataView,
};
use crate::text::{opt_view, starts_with, str_eq, with_detail};

verus! {

/// An edit of a document, passed on among the clients that have it open.
pub const MESSAGE_SYNC: u8 = 0;

/// Who is present in a document, passed on likewise.
pub const MESSAGE_AWARENESS: u8 = 1;

/// A client shows a session token.
pub const MESSAGE_AUTH: u8 = 2;

/// The list of documents, asked for and answered.
pub const MESSAGE_DOC_LIST: u8 = 3;

/// One document, asked for and answered.
pub const MESSAGE_DOC_GET: u8 = 4;

/// A document to save, and the answer.
pub const MESSAGE_DOC_SAVE: u8 = 5;

/// A document to delete, and the answer.
pub const MESSAGE_DOC_DELETE: u8 = 6;

/// The server tells that the list of documents has changed.
pub const MESSAGE_DOC_EVENT: u8 = 7;

/// The server turns a message down.
pub const MESSAGE_ERROR: u8 = 8;

/// The server answers a token or a login.
pub const MESSAGE_AUTH_RESPONSE: u8 = 9;

/// A client opens a document.
pub const MESSAGE_JOIN_DOC: u8 = 10;

/// A client logs in with name and password.
pub const MESSAGE_AUTH_LOGIN: u8 = 11;

/// A change of who a document is shared with, and the answer.
pub const MESSAGE_DOC_SHARE: u8 = 12;

/// A change of owner, and the answer.
pub const MESSAGE_DOC_TRANSFER: u8 = 13;

/// A client shows a session token.
#[derive(Debug, Clone)]
pub struct AuthRequest {
    pub token: String,
}

/// A client logs in with name and password.
#[derive(Debug, Clone)]
pub struct AuthLoginRequest {
    pub username: String,
    pub password: String,
}

/// The answer to a token or a login.
#[derive(Debug, Clone)]
pub struct AuthResponse {
    pub success: bool,
    pub user_id: Option<String>,
    pub username: Option<String>,
    pub role: Option<String>,
    pub token: Option<String>,
    pub token_expires_at: Option<u64>,
    pub error: Option<String>,
}

/// A client asks for the list of documents.
#[derive(Debug, Clone)]
pub struct DocListRequest {
    pub request_id: String,
}

/// The list of documents.
#[derive(Debug, Clone)]
pub struct DocListResponse {
    pub request_id: String,
    pub documents: Vec<DocumentMetadata>,
}

/// A client asks for a document.
#[derive(Debug, Clone)]
pub struct DocGetRequest {
    pub request_id: String,
    pub doc_id: String,
}

/// A document, or the reason why there is none.
#[derive(Debug, Clone)]
pub struct DocGetResponse {
    pub request_id: String,
    pub document: Option<serde_json::Value>,
    pub error: Option<String>,
}

/// A client asks to save a document.
#[derive(Debug, Clone)]
pub struct DocSaveRequest {
    pub request_id: String,
    pub document: serde_json::Value,
}

/// Whether a document was saved.
#[derive(Debug, Clone)]
pub struct DocSaveResponse {
    pub request_id: String,
    pub success: bool,
    pub error: Option<String>,
}

/// A client asks to delete a document.
#[derive(Debug, Clone)]
pub struct DocDeleteRequest {
    pub request_id: String,
    pub doc_id: String,
}

/// Whether a document was deleted.
#[derive(Debug, Clone)]
pub struct DocDeleteResponse {
    pub request_id: String,
    pub success: bool,
    pub error: Option<String>,
}

/// What happened to a document.
#[derive(Debug, Clone, Copy, PartialEq, Eq, Structural)]
pub enum DocEventType {
    Created,
    Updated,
    Deleted,
}

impl DocEventType {
    /// The name of the event on the wire.
    pub open spec fn name(self) -> Seq<char> {
        match self {
            DocEventType::Created => "created"@,
            DocEventType::Updated => "updated"@,
            DocEventType::Deleted => "deleted"@,
        }
    }

    /// The name of the event on the wire.
    pub fn as_str(&self) -> (r: &'static str)
        ensures
            r@ == self.name(),
    {
        match self {
            DocEventType::Created => "created",
            DocEventType::Updated => "updated",
            DocEventType::Deleted => "deleted",
        }
    }
}

/// The server tells that a document was created, updated or deleted.
#[derive(Debug, Clone)]
pub struct DocEvent {
    pub event_type: DocEventType,
    pub doc_id: String,
    pub metadata: Option<DocumentMetadata>,
    pub user_id: String,
}

/// A client opens a document, to get what is sent about it.
#[derive(Debug, Clone)]
pub struct JoinDocRequest {
    pub doc_id: String,
}

/// One entry of a request to change who a document is shared with. The
/// permission `none` withdraws access.
#[derive(Debug, Clone)]
pub struct ShareEntry {
    pub user_id: String,
    pub user_name: String,
    pub permission: String,
}

/// The model of a [`ShareEntry`].
pub ghost struct ShareEntryView {
    pub user_id: Seq<char>,
    pub user_name: Seq<char>,
    pub permission: Seq<char>,
}

impl View for ShareEntry {
    type V = ShareEntryView;

    open spec fn view(&self) -> ShareEntryView {
        ShareEntryView {
            user_id: self.user_id@,
            user_name: self.user_name@,
            permission: self.permission@,
        }
    }
}

/// A client asks to change who a document is shared with.
#[derive(Debug, Clone)]
pub struct DocShareRequest {
    pub request_id: String,
    pub doc_id: String,
    pub shares: Vec<ShareEntry>,
}

/// Whether the share list was changed.
#[derive(Debug, Clone)]
pub struct DocShareResponse {
    pub request_id: String,
    pub success: bool,
    pub error: Option<String>,
}

/// A client asks to hand a document to a new owner.
#[derive(Debug, Clone)]
pub struct DocTransferRequest {
    pub request_id: String,
    pub doc_id: String,
    pub new_owner_id: String,
    pub new_owner_name: String,
}

/// Whether the document was handed over.
#[derive(Debug, Clone)]
pub struct DocTransferResponse {
    pub request_id: String,
    pub success: bool,
    pub error: Option<String>,
}

/// The server turns a message down.
#[derive(Debug, Clone)]
pub struct ErrorResponse {
    pub request_id: Option<String>,
    pub error: String,
}

/// Makes known what the member names of the payloads are made of, so that
/// two of them can be told apart.
proof fn reveal_wire_names()
    ensures
        "token"@.len() == 5 && "token"@[0] == 't',
        "username"@.len() == 8 && "username"@[0] == 'u',
        "password"@.len() == 8 && "password"@[0] == 'p',
        "requestId"@.len() == 9 && "requestId"@[0] == 'r',
        "docId"@.len() == 5 && "docId"@[0] == 'd',
        "newOwnerId"@.len() == 10 && "newOwnerId"@[0] == 'n',
        "newOwnerName"@.len() == 12 && "newOwnerName"@[0] == 'n',
        "userId"@.len() == 6 && "userId"@[0] == 'u',
        "userName"@.len() == 8 && "userName"@[0] == 'u',
        "permission"@.len() == 10 && "permission"@[0] == 'p',
        "success"@.len() == 7 && "success"@[0] == 's',
        "error"@.len() == 5 && "error"@[0] == 'e',
        "role"@.len() == 4 && "role"@[0] == 'r',
        "tokenExpiresAt"@.len() == 14 && "tokenExpiresAt"@[0] == 't',
        "document"@.len() == 8 && "document"@[0] == 'd',
        "shares"@.len() == 6 && "shares"@[0] == 's',
        "eventType"@.len() == 9 && "eventType"@[0] == 'e',
        "metadata"@.len() == 8 && "metadata"@[0] == 'm',
        "documents"@.len() == 9 && "documents"@[0] == 'd',
{
    reveal_strlit("token");
    reveal_strlit("username");
    reveal_strlit("password");
    reveal_strlit("requestId");
    reveal_strlit("docId");
    reveal_strlit("newOwnerId");
    reveal_strlit("newOwnerName");
    reveal_strlit("userId");
    reveal_strlit("userName");
    reveal_strlit("permission");
    reveal_strlit("success");
    reveal_strlit("error");
    reveal_strlit("role");
    reveal_strlit("tokenExpiresAt");
    reveal_strlit("document");
    reveal_strlit("shares");
    reveal_strlit("eventType");
    reveal_strlit("metadata");
    reveal_strlit("documents");
}

/// The frame of a message: its kind, then its payload.
pub open spec fn frame_of(msg_type: u8, payload: Seq<u8>) -> Seq<u8> {
    seq![msg_type] + payload
}

/// The kind of message that a frame holds.
pub open spec fn frame_type(data: Seq<u8>) -> Option<u8> {
    if data.len() > 0 {
        Some(data[0])
    } else {
        None
    }
}

/// The payload of a frame, where the frame is long enough to hold one.
pub open spec fn frame_payload(data: Seq<u8>) -> Option<Seq<u8>> {
    if data.len() < 2 {
        None
    } else {
        Some(data.skip(1))
    }
}

/// Frames a message: renders the payload as JSON and puts the kind of
/// message before it. A frame is always returned.
pub fn encode_message(msg_type: u8, payload: &serde_json::Value) -> (r: Result<Vec<u8>, String>)
    ensures
        r matches Ok(data) && data@ == frame_of(msg_type, json_bytes(*payload)),
{
    match to_bytes(payload) {
        Ok(bytes) => {
            let mut data: Vec<u8> = Vec::new();
            data.push(msg_type);
            let mut bytes = bytes;
            let ghost rendered = bytes@;
            data.append(&mut bytes);
            assert(data@ =~= frame_of(msg_type, rendered));
            Ok(data)
        },
        Err(e) => Err(with_detail("Failed to serialize message: ", error_text(&e).as_str())),
    }
}

/// The kind of message that a frame holds: its first byte.
pub fn decode_message_type(data: &[u8]) -> (r: Option<u8>)
    ensures
        r == frame_type(data@),
{
    if data.len() > 0 {
        Some(data[0])
    } else {
        None
    }
}

/// The payload of a frame: what follows the first byte, read as JSON. A
/// frame of less than two bytes has none.
pub fn decode_payload(data: &[u8]) -> (r: Result<serde_json::Value, String>)
    ensures
        match frame_payload(data@) {
            None => r matches Err(e) && e@ == "Message too short"@,
            Some(bytes) => match json_of_bytes(bytes) {
                Some(v) => r == Ok::<serde_json::Value, String>(v),
                None => r matches Err(e) && starts_with(e@, "Failed to deserialize message: "@),
            },
        },
{
    if data.len() < 2 {
        return Err("Message too short".to_owned());
    }
    let rest = slice_subrange(data, 1, data.len());
    assert(rest@ =~= data@.skip(1));
    match from_bytes(rest) {
        Ok(v) => Ok(v),
        Err(e) => Err(with_detail("Failed to deserialize message: ", error_text(&e).as_str())),
    }
}

/// What reading a framed message gives. The frame of a payload holds the
/// kind of message and, where the payload's bytes are not empty, those
/// bytes: so the payload read from it is what the JSON reader makes of the
/// bytes that the JSON writer made of the payload.
pub proof fn law_message_round_trip(msg_type: u8, payload: serde_json::Value)
    requires
        json_bytes(payload).len() > 0,
    ensures
        frame_type(frame_of(msg_type, json_bytes(payload))) == Some(msg_type),
        frame_payload(frame_of(msg_type, json_bytes(payload))) == Some(json_bytes(payload)),
{
    law_frame_round_trip(msg_type, json_bytes(payload));
}

/// A frame gives back the kind of message it was made with, and, where the
/// payload is not empty, the very bytes of the payload: so what is read from
/// a frame is what `serde_json` reads from the bytes it wrote.
pub proof fn law_frame_round_trip(msg_type: u8, payload: Seq<u8>)
    ensures
        frame_type(frame_of(msg_type, payload)) == Some(msg_type),
        payload.len() > 0 ==> frame_payload(frame_of(msg_type, payload)) == Some(payload),
{
    assert(frame_of(msg_type, payload).skip(1) =~= payload);
}

impl AuthRequest {
    /// Whether `r` is what reading the payload `v` gives: the request that
    /// `v` states, and `None` where a member is missing or of the wrong
    /// kind.
    pub open spec fn read_as(v: serde_json::Value, r: Option<AuthRequest>) -> bool {
        match r {
            Some(x) => text_at(v, "token"@) == Some(x.token@),
            None => text_at(v, "token"@) is None,
        }
    }

    /// Whether `r` is a payload that states `self`.
    pub open spec fn written_as(self, r: serde_json::Value) -> bool {
        &&& json_is_object(r)
        &&& text_at(r, "token"@) == Some(self.token@)
    }

    /// Reads the request out of a payload that is an object with a text `token`.
    pub fn from_json(v: &serde_json::Value) -> (r: Option<AuthRequest>)
        ensures
            AuthRequest::read_as(*v, r),
    {
        match get_text(v, "token") {
            Some(token) => Some(AuthRequest { token }),
            None => None,
        }
    }

    /// Writes the request as a payload.
    pub fn to_json(&self) -> (r: serde_json::Value)
        ensures
            self.written_as(r),
    {
        let mut r = object();
        put_text(&mut r, "token", self.token.as_str());
        r
    }

    /// What is read from a payload that states `self` has the members of
    /// `self`.
    pub proof fn law_read_back(self, v: serde_json::Value, r: Option<AuthRequest>)
        requires
            self.written_as(v),
            AuthRequest::read_as(v, r),
        ensures
            r is Some,
            r->0.token@ == self.token@,
    {
    }
}

impl AuthLoginRequest {
    /// Whether `r` is what reading the payload `v` gives: what `v` states,
    /// and `None` where a member is missing or of the wrong kind.
    pub open spec fn read_as(v: serde_json::Value, r: Option<AuthLoginRequest>) -> bool {
        match r {
            Some(x) => text_at(v, "username"@) == Some(x.username@) && text_at(v, "password"@)
                == Some(x.password@),
            None => text_at(v, "username"@) is None || text_at(v, "password"@) is None,
        }
    }

    /// Whether `r` is a payload that states `self`.
    pub open spec fn written_as(self, r: serde_json::Value) -> bool {
        &&& json_is_object(r)
        &&& text_at(r, "username"@) == Some(self.username@)
        &&& text_at(r, "password"@) == Some(self.password@)
    }

    /// Reads the request out of a payload; both members must be texts.
    pub fn from_json(v: &serde_json::Value) -> (r: Option<AuthLoginRequest>)
        ensures
            AuthLoginRequest::read_as(*v, r),
    {
        let username = get_text(v, "username");
        let password = get_text(v, "password");
        match (username, password) {
            (Some(username), Some(password)) => Some(AuthLoginRequest { username, password }),
            _ => None,
        }
    }

    /// Writes the request as a payload.
    pub fn to_json(&self) -> (r: serde_json::Value)
        ensures
            self.written_as(r),
    {
        proof {
            reveal_wire_names();
        }
        let mut r = object();
        put_text(&mut r, "username", self.username.as_str());
        put_text(&mut r, "password", self.password.as_str());
        r
    }

    /// What is read from a payload that states `self` has the members of
    /// `self`.
    pub proof fn law_read_back(self, v: serde_json::Value, r: Option<AuthLoginRequest>)
        requires
            self.written_as(v),
            AuthLoginRequest::read_as(v, r),
        ensures
            r is Some,
            r->0.username@ == self.username@,
            r->0.password@ == self.password@,
    {
    }
}

impl DocListRequest {
    /// Whether `r` is what reading the payload `v` gives: what `v` states,
    /// and `None` where a member is missing or of the wrong kind.
    pub open spec fn read_as(v: serde_json::Value, r: Option<DocListRequest>) -> bool {
        match r {
            Some(x) => text_at(v, "requestId"@) == Some(x.request_id@),
            None => text_at(v, "requestId"@) is None,
        }
    }

    /// Whether `r` is a payload that states `self`.
    pub open spec fn written_as(self, r: serde_json::Value) -> bool {
        &&& json_is_object(r)
        &&& text_at(r, "requestId"@) == Some(self.request_id@)
    }

    /// Reads the request out of a payload; `requestId` must be a text.
    pub fn from_json(v: &serde_json::Value) -> (r: Option<DocListRequest>)
        ensures
            DocListRequest::read_as(*v, r),
    {
        match get_text(v, "requestId") {
            Some(request_id) => Some(DocListRequest { request_id }),
            None => None,
        }
    }

    /// Writes the request as a payload.
    pub fn to_json(&self) -> (r: serde_json::Value)
        ensures
            self.written_as(r),
    {
        let mut r = object();
        put_text(&mut r, "requestId", self.request_id.as_str());
        r
    }

    /// What is read from a payload that states `self` has the members of
    /// `self`.
    pub proof fn law_read_back(self, v: serde_json::Value, r: Option<DocListRequest>)
        requires
            self.written_as(v),
            DocListRequest::read_as(v, r),
        ensures
            r is Some,
            r->0.request_id@ == self.request_id@,
    {
    }
}

impl DocGetRequest {
    /// Whether `r` is what reading the payload `v` gives: what `v` states,
    /// and `None` where a member is missing or of the wrong kind.
    pub open spec fn read_as(v: serde_json::Value, r: Option<DocGetRequest>) -> bool {
        match r {
            Some(x) => text_at(v, "requestId"@) == Some(x.request_id@) && text_at(v, "docId"@)
                == Some(x.doc_id@),
            None => text_at(v, "requestId"@) is None || text_at(v, "docId"@) is None,
        }
    }

    /// Whether `r` is a payload that states `self`.
    pub open spec fn written_as(self, r: serde_json::Value) -> bool {
        &&& json_is_object(r)
        &&& text_at(r, "requestId"@) == Some(self.request_id@)
        &&& text_at(r, "docId"@) == Some(self.doc_id@)
    }

    /// Reads the request out of a payload; both members must be texts.
    pub fn from_json(v: &serde_json::Value) -> (r: Option<DocGetRequest>)
        ensures
            DocGetRequest::read_as(*v, r),
    {
        let request_id = get_text(v, "requestId");
        let doc_id = get_text(v, "docId");
        match (request_id, doc_id) {
            (Some(request_id), Some(doc_id)) => Some(DocGetRequest { request_id, doc_id }),
            _ => None,
        }
    }

    /// Writes the request as a payload.
    pub fn to_json(&self) -> (r: serde_json::Value)
        ensures
            self.written_as(r),
    {
        proof {
            reveal_wire_names();
        }
        let mut r = object();
        put_text(&mut r, "requestId", self.request_id.as_str());
        put_text(&mut r, "docId", self.doc_id.as_str());
        r
    }

    /// What is read from a payload that states `self` has the members of
    /// `self`.
    pub proof fn law_read_back(self, v: serde_json::Value, r: Option<DocGetRequest>)
        requires
            self.written_as(v),
            DocGetRequest::read_as(v, r),
        ensures
            r is Some,
            r->0.request_id@ == self.request_id@,
            r->0.doc_id@ == self.doc_id@,
    {
    }
}

impl DocDeleteRequest {
    /// Whether `r` is what reading the payload `v` gives: what `v` states,
    /// and `None` where a member is missing or of the wrong kind.
    pub open spec fn read_as(v: serde_json::Value, r: Option<DocDeleteRequest>) -> bool {
        match r {
            Some(x) => text_at(v, "requestId"@) == Some(x.request_id@) && text_at(v, "docId"@)
                == Some(x.doc_id@),
            None => text_at(v, "requestId"@) is None || text_at(v, "docId"@) is None,
        }
    }

    /// Whether `r` is a payload that states `self`.
    pub open spec fn written_as(self, r: serde_json::Value) -> bool {
        &&& json_is_object(r)
        &&& text_at(r, "requestId"@) == Some(self.request_id@)
        &&& text_at(r, "docId"@) == Some(self.doc_id@)
    }

    /// Reads the request out of a payload; both members must be texts.
    pub fn from_json(v: &serde_json::Value) -> (r: Option<DocDeleteRequest>)
        ensures
            DocDeleteRequest::read_as(*v, r),
    {
        let request_id = get_text(v, "requestId");
        let doc_id = get_text(v, "docId");
        match (request_id, doc_id) {
            (Some(request_id), Some(doc_id)) => Some(DocDeleteRequest { request_id, doc_id }),
            _ => None,
        }
    }

    /// Writes the request as a payload.
    pub fn to_json(&self) -> (r: serde_json::Value)
        ensures
            self.written_as(r),
    {
        proof {
            reveal_wire_names();
        }
        let mut r = object();
        put_text(&mut r, "requestId", self.request_id.as_str());
        put_text(&mut r, "docId", self.doc_id.as_str());
        r
    }

    /// What is read from a payload that states `self` has the members of
    /// `self`.
    pub proof fn law_read_back(self, v: serde_json::Value, r: Option<DocDeleteRequest>)
        requires
            self.written_as(v),
            DocDeleteRequest::read_as(v, r),
        ensures
            r is Some,
            r->0.request_id@ == self.request_id@,
            r->0.doc_id@ == self.doc_id@,
    {
    }
}

impl JoinDocRequest {
    /// Whether `r` is what reading the payload `v` gives: what `v` states,
    /// and `None` where a member is missing or of the wrong kind.
    pub open spec fn read_as(v: serde_json::Value, r: Option<JoinDocRequest>) -> bool {
        match r {
            Some(x) => text_at(v, "docId"@) == Some(x.doc_id@),
            None => text_at(v, "docId"@) is None,
        }
    }

    /// Whether `r` is a payload that states `self`.
    pub open spec fn written_as(self, r: serde_json::Value) -> bool {
        &&& json_is_object(r)
        &&& text_at(r, "docId"@) == Some(self.doc_id@)
    }

    /// Reads the request out of a payload; `docId` must be a text.
    pub fn from_json(v: &serde_json::Value) -> (r: Option<JoinDocRequest>)
        ensures
            JoinDocRequest::read_as(*v, r),
    {
        match get_text(v, "docId") {
            Some(doc_id) => Some(JoinDocRequest { doc_id }),
            None => None,
        }
    }

    /// Writes the request as a payload.
    pub fn to_json(&self) -> (r: serde_json::Value)
        ensures
            self.written_as(r),
    {
        let mut r = object();
        put_text(&mut r, "docId", self.doc_id.as_str());
        r
    }

    /// What is read from a payload that states `self` has the members of
    /// `self`.
    pub proof fn law_read_back(self, v: serde_json::Value, r: Option<JoinDocRequest>)
        requires
            self.written_as(v),
            JoinDocRequest::read_as(v, r),
        ensures
            r is Some,
            r->0.doc_id@ == self.doc_id@,
    {
    }
}

impl DocTransferRequest {
    /// Whether `r` is what reading the payload `v` gives: what `v` states,
    /// and `None` where a member is missing or of the wrong kind.
    pub open spec fn read_as(v: serde_json::Value, r: Option<DocTransferRequest>) -> bool {
        match r {
            Some(x) => text_at(v, "requestId"@) == Some(x.request_id@) && text_at(v, "docId"@)
                == Some(x.doc_id@) && text_at(v, "newOwnerId"@) == Some(x.new_owner_id@)
                && text_at(v, "newOwnerName"@) == Some(x.new_owner_name@),
            None => text_at(v, "requestId"@) is None || text_at(v, "docId"@) is None
                || text_at(v, "newOwnerId"@) is None || text_at(v, "newOwnerName"@) is None,
        }
    }

    /// Whether `r` is a payload that states `self`.
    pub open spec fn written_as(self, r: serde_json::Value) -> bool {
        &&& json_is_object(r)
        &&& text_at(r, "requestId"@) == Some(self.request_id@)
        &&& text_at(r, "docId"@) == Some(self.doc_id@)
        &&& text_at(r, "newOwnerId"@) == Some(self.new_owner_id@)
        &&& text_at(r, "newOwnerName"@) == Some(self.new_owner_name@)
    }

    /// Reads the request out of a payload; all four members must be texts.
    pub fn from_json(v: &serde_json::Value) -> (r: Option<DocTransferRequest>)
        ensures
            DocTransferRequest::read_as(*v, r),
    {
        let request_id = get_text(v, "requestId");
        let doc_id = get_text(v, "docId");
        let new_owner_id = get_text(v, "newOwnerId");
        let new_owner_name = get_text(v, "newOwnerName");
        match (request_id, doc_id, new_owner_id, new_owner_name) {
            (Some(request_id), Some(doc_id), Some(new_owner_id), Some(new_owner_name)) => Some(
                DocTransferRequest { request_id, doc_id, new_owner_id, new_owner_name },
            ),
            _ => None,
        }
    }

    /// Writes the request as a payload.
    pub fn to_json(&self) -> (r: serde_json::Value)
        ensures
            self.written_as(r),
    {
        proof {
            reveal_wire_names();
        }
        let mut r = object();
        put_text(&mut r, "requestId", self.request_id.as_str());
        put_text(&mut r, "docId", self.doc_id.as_str());
        put_text(&mut r, "newOwnerId", self.new_owner_id.as_str());
        put_text(&mut r, "newOwnerName", self.new_owner_name.as_str());
        r
    }

    /// What is read from a payload that states `self` has the members of
    /// `self`.
    pub proof fn law_read_back(self, v: serde_json::Value, r: Option<DocTransferRequest>)
        requires
            self.written_as(v),
            DocTransferRequest::read_as(v, r),
        ensures
            r is Some,
            r->0.request_id@ == self.request_id@,
            r->0.doc_id@ == self.doc_id@,
            r->0.new_owner_id@ == self.new_owner_id@,
            r->0.new_owner_name@ == self.new_owner_name@,
    {
    }
}

impl ShareEntry {
    /// Whether `r` is what reading the payload `v` gives: what `v` states,
    /// and `None` where a member is missing or of the wrong kind.
    pub open spec fn read_as(v: serde_json::Value, r: Option<ShareEntry>) -> bool {
        match r {
            Some(x) => text_at(v, "userId"@) == Some(x.user_id@) && text_at(v, "userName"@)
                == Some(x.user_name@) && text_at(v, "permission"@) == Some(x.permission@),
            None => text_at(v, "userId"@) is None || text_at(v, "userName"@) is None
                || text_at(v, "permission"@) is None,
        }
    }

    /// Whether `r` is a payload that states `self`.
    pub open spec fn written_as(self, r: serde_json::Value) -> bool {
        &&& json_is_object(r)
        &&& text_at(r, "userId"@) == Some(self.user_id@)
        &&& text_at(r, "userName"@) == Some(self.user_name@)
        &&& text_at(r, "permission"@) == Some(self.permission@)
    }

    /// Reads the entry out of a JSON value; all three members must be texts.
    pub fn from_json(v: &serde_json::Value) -> (r: Option<ShareEntry>)
        ensures
            ShareEntry::read_as(*v, r),
    {
        let user_id = get_text(v, "userId");
        let user_name = get_text(v, "userName");
        let permission = get_text(v, "permission");
        match (user_id, user_name, permission) {
            (Some(user_id), Some(user_name), Some(permission)) => Some(
                ShareEntry { user_id, user_name, permission },
            ),
            _ => None,
        }
    }

    /// Writes the entry as a JSON object.
    pub fn to_json(&self) -> (r: serde_json::Value)
        ensures
            self.written_as(r),
    {
        proof {
            reveal_wire_names();
        }
        let mut r = object();
        put_text(&mut r, "userId", self.user_id.as_str());
        put_text(&mut r, "userName", self.user_name.as_str());
        put_text(&mut r, "permission", self.permission.as_str());
        r
    }

    /// What is read from a payload that states `self` has the members of
    /// `self`.
    pub proof fn law_read_back(self, v: serde_json::Value, r: Option<ShareEntry>)
        requires
            self.written_as(v),
            ShareEntry::read_as(v, r),
        ensures
            r is Some,
            r->0.user_id@ == self.user_id@,
            r->0.user_name@ == self.user_name@,
            r->0.permission@ == self.permission@,
    {
    }
}

impl DocSaveResponse {
    /// Whether `r` is a payload that states `self`.
    pub open spec fn written_as(self, r: serde_json::Value) -> bool {
        &&& json_is_object(r)
        &&& text_at(r, "requestId"@) == Some(self.request_id@)
        &&& flag_at(r, "success"@) == Some(self.success)
        &&& text_at(r, "error"@) == opt_view(self.error)
    }

    /// Writes the answer as a payload; `error` is left out where there is
    /// none.
    pub fn to_json(&self) -> (r: serde_json::Value)
        ensures
            self.written_as(r),
    {
        proof {
            reveal_wire_names();
        }
        let mut r = object();
        put_text(&mut r, "requestId", self.request_id.as_str());
        put_flag(&mut r, "success", self.success);
        put_opt_text(&mut r, "error", &self.error);
        r
    }

    /// The answer that reports a document as saved.
    pub fn done(request_id: &str) -> (r: DocSaveResponse)
        ensures
            r.request_id@ == request_id@,
            r.success,
            r.error is None,
    {
        DocSaveResponse { request_id: request_id.to_owned(), success: true, error: None }
    }

    /// The answer that turns the request down for the reason `error`.
    pub fn failed(request_id: &str, error: &str) -> (r: DocSaveResponse)
        ensures
            r.request_id@ == request_id@,
            !r.success,
            r.error is Some && r.error->0@ == error@,
    {
        DocSaveResponse {
            request_id: request_id.to_owned(),
            success: false,
            error: Some(error.to_owned()),
        }
    }
}

impl DocDeleteResponse {
    /// Whether `r` is a payload that states `self`.
    pub open spec fn written_as(self, r: serde_json::Value) -> bool {
        &&& json_is_object(r)
        &&& text_at(r, "requestId"@) == Some(self.request_id@)
        &&& flag_at(r, "success"@) == Some(self.success)
        &&& text_at(r, "error"@) == opt_view(self.error)
    }

    /// Writes the answer as a payload; `error` is left out where there is
    /// none.
    pub fn to_json(&self) -> (r: serde_json::Value)
        ensures
            self.written_as(r),
    {
        proof {
            reveal_wire_names();
        }
        let mut r = object();
        put_text(&mut r, "requestId", self.request_id.as_str());
        put_flag(&mut r, "success", self.success);
        put_opt_text(&mut r, "error", &self.error);
        r
    }

    /// The answer that reports a document as deleted.
    pub fn done(request_id: &str) -> (r: DocDeleteResponse)
        ensures
            r.request_id@ == request_id@,
            r.success,
            r.error is None,
    {
        DocDeleteResponse { request_id: request_id.to_owned(), success: true, error: None }
    }

    /// The answer that turns the request down for the reason `error`.
    pub fn failed(request_id: &str, error: &str) -> (r: DocDeleteResponse)
        ensures
            r.request_id@ == request_id@,
            !r.success,
            r.error is Some && r.error->0@ == error@,
    {
        DocDeleteResponse {
            request_id: request_id.to_owned(),
            success: false,
            error: Some(error.to_owned()),
        }
    }
}

impl DocShareResponse {
    /// Whether `r` is a payload that states `self`.
    pub open spec fn written_as(self, r: serde_json::Value) -> bool {
        &&& json_is_object(r)
        &&& text_at(r, "requestId"@) == Some(self.request_id@)
        &&& flag_at(r, "success"@) == Some(self.success)
        &&& text_at(r, "error"@) == opt_view(self.error)
    }

    /// Writes the answer as a payload; `error` is left out where there is
    /// none.
    pub fn to_json(&self) -> (r: serde_json::Value)
        ensures
            self.written_as(r),
    {
        proof {
            reveal_wire_names();
        }
        let mut r = object();
        put_text(&mut r, "requestId", self.request_id.as_str());
        put_flag(&mut r, "success", self.success);
        put_opt_text(&mut r, "error", &self.error);
        r
    }

    /// The answer that reports a share list as changed.
    pub fn done(request_id: &str) -> (r: DocShareResponse)
        ensures
            r.request_id@ == request_id@,
            r.success,
            r.error is None,
    {
        DocShareResponse { request_id: request_id.to_owned(), success: true, error: None }
    }

    /// The answer that turns the request down for the reason `error`.
    pub fn failed(request_id: &str, error: &str) -> (r: DocShareResponse)
        ensures
            r.request_id@ == request_id@,
            !r.success,
            r.error is Some && r.error->0@ == error@,
    {
        DocShareResponse {
            request_id: request_id.to_owned(),
            success: false,
            error: Some(error.to_owned()),
        }
    }
}

impl DocTransferResponse {
    /// Whether `r` is a payload that states `self`.
    pub open spec fn written_as(self, r: serde_json::Value) -> bool {
        &&& json_is_object(r)
        &&& text_at(r, "requestId"@) == Some(self.request_id@)
        &&& flag_at(r, "success"@) == Some(self.success)
        &&& text_at(r, "error"@) == opt_view(self.error)
    }

    /// Writes the answer as a payload; `error` is left out where there is
    /// none.
    pub fn to_json(&self) -> (r: serde_json::Value)
        ensures
            self.written_as(r),
    {
        proof {
            reveal_wire_names();
        }
        let mut r = object();
        put_text(&mut r, "requestId", self.request_id.as_str());
        put_flag(&mut r, "success", self.success);
        put_opt_text(&mut r, "error", &self.error);
        r
    }

    /// The answer that reports a document as handed over.
    pub fn done(request_id: &str) -> (r: DocTransferResponse)
        ensures
            r.request_id@ == request_id@,
            r.success,
            r.error is None,
    {
        DocTransferResponse { request_id: request_id.to_owned(), success: true, error: None }
    }

    /// The answer that turns the request down for the reason `error`.
    pub fn failed(request_id: &str, error: &str) -> (r: DocTransferResponse)
        ensures
            r.request_id@ == request_id@,
            !r.success,
            r.error is Some && r.error->0@ == error@,
    {
        DocTransferResponse {
            request_id: request_id.to_owned(),
            success: false,
            error: Some(error.to_owned()),
        }
    }
}

impl AuthResponse {
    /// Whether `r` is a payload that states `self`.
    pub open spec fn written_as(self, r: serde_json::Value) -> bool {
        &&& json_is_object(r)
        &&& flag_at(r, "success"@) == Some(self.success)
        &&& text_at(r, "userId"@) == opt_view(self.user_id)
        &&& text_at(r, "username"@) == opt_view(self.username)
        &&& text_at(r, "role"@) == opt_view(self.role)
        &&& text_at(r, "token"@) == opt_view(self.token)
        &&& number_at(r, "tokenExpiresAt"@) == self.token_expires_at
        &&& text_at(r, "error"@) == opt_view(self.error)
    }

    /// Writes the answer as a payload; members that are `None` are left out.
    pub fn to_json(&self) -> (r: serde_json::Value)
        ensures
            self.written_as(r),
    {
        proof {
            reveal_wire_names();
        }
        let mut r = object();
        put_flag(&mut r, "success", self.success);
        put_opt_text(&mut r, "userId", &self.user_id);
        put_opt_text(&mut r, "username", &self.username);
        put_opt_text(&mut r, "role", &self.role);
        put_opt_text(&mut r, "token", &self.token);
        put_opt_number(&mut r, "tokenExpiresAt", self.token_expires_at);
        put_opt_text(&mut r, "error", &self.error);
        r
    }

    /// The answer that turns a token or a login down for the reason `error`.
    pub fn failure(error: &str) -> (r: AuthResponse)
        ensures
            !r.success,
            r.user_id is None,
            r.username is None,
            r.role is None,
            r.token is None,
            r.token_expires_at is None,
            r.error is Some && r.error->0@ == error@,
    {
        AuthResponse {
            success: false,
            user_id: None,
            username: None,
            role: None,
            token: None,
            token_expires_at: None,
            error: Some(error.to_owned()),
        }
    }
}

impl ErrorResponse {
    /// Whether `r` is a payload that states `self`.
    pub open spec fn written_as(self, r: serde_json::Value) -> bool {
        &&& json_is_object(r)
        &&& json_member(r, "requestId"@) is Some
        &&& text_at(r, "requestId"@) == opt_view(self.request_id)
        &&& text_at(r, "error"@) == Some(self.error@)
    }

    /// Writes the answer as a payload; a missing `requestId` is written as
    /// `null`.
    pub fn to_json(&self) -> (r: serde_json::Value)
        ensures
            self.written_as(r),
    {
        proof {
            reveal_wire_names();
        }
        let mut r = object();
        match &self.request_id {
            Some(id) => {
                put_text(&mut r, "requestId", id.as_str());
            },
            None => {
                set_member(&mut r, "requestId", null());
            },
        }
        put_text(&mut r, "error", self.error.as_str());
        r
    }
}

impl DocSaveRequest {
    /// Whether `r` is what reading the payload `v` gives: what `v` states,
    /// and `None` where a member is missing or of the wrong kind.
    pub open spec fn read_as(v: serde_json::Value, r: Option<DocSaveRequest>) -> bool {
        match r {
            Some(x) => text_at(v, "requestId"@) == Some(x.request_id@) && json_member(
                v,
                "document"@,
            ) == Some(x.document),
            None => text_at(v, "requestId"@) is None || json_member(v, "document"@) is None,
        }
    }

    /// Whether `r` is a payload that states `self`.
    pub open spec fn written_as(self, r: serde_json::Value) -> bool {
        &&& json_is_object(r)
        &&& text_at(r, "requestId"@) == Some(self.request_id@)
        &&& json_member(r, "document"@) == Some(self.document)
    }

    /// Reads the request out of a payload: `requestId` must be a text, and
    /// there must be a `document`, of whatever kind.
    pub fn from_json(v: &serde_json::Value) -> (r: Option<DocSaveRequest>)
        ensures
            DocSaveRequest::read_as(*v, r),
    {
        let request_id = get_text(v, "requestId");
        let document = member(v, "document");
        match (request_id, document) {
            (Some(request_id), Some(document)) => Some(
                DocSaveRequest { request_id, document: document.clone() },
            ),
            _ => None,
        }
    }

    /// Writes the request as a payload.
    pub fn to_json(&self) -> (r: serde_json::Value)
        ensures
            self.written_as(r),
    {
        proof {
            reveal_wire_names();
        }
        let mut r = object();
        put_text(&mut r, "requestId", self.request_id.as_str());
        set_member(&mut r, "document", self.document.clone());
        r
    }

    /// What is read from a payload that states `self` has the members of
    /// `self`.
    pub proof fn law_read_back(self, v: serde_json::Value, r: Option<DocSaveRequest>)
        requires
            self.written_as(v),
            DocSaveRequest::read_as(v, r),
        ensures
            r is Some,
            r->0.request_id@ == self.request_id@,
            r->0.document == self.document,
    {
    }
}

impl DocGetResponse {
    /// Whether `r` is a payload that states `self`.
    pub open spec fn written_as(self, r: serde_json::Value) -> bool {
        &&& json_is_object(r)
        &&& text_at(r, "requestId"@) == Some(self.request_id@)
        &&& json_member(r, "document"@) == self.document
        &&& text_at(r, "error"@) == opt_view(self.error)
    }

    /// Writes the answer as a payload; `document` and `error` are left out
    /// where there is none.
    pub fn to_json(&self) -> (r: serde_json::Value)
        ensures
            self.written_as(r),
    {
        proof {
            reveal_wire_names();
        }
        let mut r = object();
        put_text(&mut r, "requestId", self.request_id.as_str());
        match &self.document {
            Some(d) => {
                set_member(&mut r, "document", d.clone());
            },
            None => {},
        }
        put_opt_text(&mut r, "error", &self.error);
        r
    }
}

/// The models of the entries of a share request.
pub open spec fn entries_view(s: Seq<ShareEntry>) -> Seq<ShareEntryView> {
    Seq::new(s.len(), |i: int| s[i]@)
}

/// The entry of a share request that a JSON value stands for.
pub open spec fn entry_of_json(v: serde_json::Value) -> Option<ShareEntryView> {
    if text_at(v, "userId"@) is Some && text_at(v, "userName"@) is Some && text_at(
        v,
        "permission"@,
    ) is Some {
        Some(
            ShareEntryView {
                user_id: text_at(v, "userId"@)->0,
                user_name: text_at(v, "userName"@)->0,
                permission: text_at(v, "permission"@)->0,
            },
        )
    } else {
        None
    }
}

/// The entries that a JSON array stands for, provided every element is one.
pub open spec fn entries_of_json(list: Seq<serde_json::Value>) -> Option<Seq<ShareEntryView>> {
    if forall|i: int| 0 <= i < list.len() ==> (#[trigger] entry_of_json(list[i])) is Some {
        Some(Seq::new(list.len(), |i: int| entry_of_json(list[i])->0))
    } else {
        None
    }
}

/// Reads the entries of a share request; one element that is no entry makes
/// the whole list unreadable.
pub fn parse_entries(list: &Vec<serde_json::Value>) -> (r: Option<Vec<ShareEntry>>)
    ensures
        match r {
            Some(entries) => entries_of_json(list@) == Some(entries_view(entries@)),
            None => entries_of_json(list@) is None,
        },
{
    let mut out: Vec<ShareEntry> = Vec::new();
    let mut i: usize = 0;
    while i < list.len()
        invariant
            i <= list.len(),
            out.len() == i,
            forall|j: int|
                #![trigger entry_of_json(list[j])]
                #![trigger out[j]]
                0 <= j < i ==> entry_of_json(list[j]) == Some(out[j]@),
        decreases list.len() - i,
    {
        match ShareEntry::from_json(&list[i]) {
            Some(e) => {
                out.push(e);
            },
            None => {
                assert(entry_of_json(list[i as int]) is None);
                return None;
            },
        }
        i += 1;
    }
    assert(entries_view(out@) =~= entries_of_json(list@)->0);
    Some(out)
}

impl DocShareRequest {
    /// Whether `r` is what reading the payload `v` gives: what `v` states,
    /// and `None` where a member is missing or of the wrong kind.
    pub open spec fn read_as(v: serde_json::Value, r: Option<DocShareRequest>) -> bool {
        match r {
            Some(x) => {
                &&& text_at(v, "requestId"@) == Some(x.request_id@)
                &&& text_at(v, "docId"@) == Some(x.doc_id@)
                &&& items_at(v, "shares"@) is Some
                &&& entries_of_json(items_at(v, "shares"@)->0) == Some(entries_view(x.shares@))
            },
            None => text_at(v, "requestId"@) is None || text_at(v, "docId"@) is None
                || items_at(v, "shares"@) is None || entries_of_json(
                items_at(v, "shares"@)->0,
            ) is None,
        }
    }

    /// Whether `r` is a payload that states `self`.
    pub open spec fn written_as(self, r: serde_json::Value) -> bool {
        &&& json_is_object(r)
        &&& text_at(r, "requestId"@) == Some(self.request_id@)
        &&& text_at(r, "docId"@) == Some(self.doc_id@)
        &&& items_at(r, "shares"@) is Some
        &&& entries_of_json(items_at(r, "shares"@)->0) == Some(entries_view(self.shares@))
    }

    /// Reads the request out of a payload: `requestId` and `docId` must be
    /// texts and `shares` an array of entries.
    pub fn from_json(v: &serde_json::Value) -> (r: Option<DocShareRequest>)
        ensures
            DocShareRequest::read_as(*v, r),
    {
        let request_id = get_text(v, "requestId");
        let doc_id = get_text(v, "docId");
        let shares = match get_items(v, "shares") {
            Some(list) => parse_entries(list),
            None => None,
        };
        match (request_id, doc_id, shares) {
            (Some(request_id), Some(doc_id), Some(shares)) => Some(
                DocShareRequest { request_id, doc_id, shares },
            ),
            _ => None,
        }
    }

    /// Writes the request as a payload.
    pub fn to_json(&self) -> (r: serde_json::Value)
        ensures
            self.written_as(r),
    {
        proof {
            reveal_wire_names();
        }
        let mut list: Vec<serde_json::Value> = Vec::new();
        let mut i: usize = 0;
        while i < self.shares.len()
            invariant
                i <= self.shares.len(),
                list.len() == i,
                forall|j: int|
                    #![trigger entry_of_json(list[j])]
                    0 <= j < i ==> entry_of_json(list[j]) == Some(self.shares[j]@),
            decreases self.shares.len() - i,
        {
            list.push(self.shares[i].to_json());
            i += 1;
        }
        assert(entries_of_json(list@)->0 =~= entries_view(self.shares@));
        let mut r = object();
        put_text(&mut r, "requestId", self.request_id.as_str());
        put_text(&mut r, "docId", self.doc_id.as_str());
        set_member(&mut r, "shares", from_items(list));
        r
    }

    /// What is read from a payload that states `self` has the members of
    /// `self`.
    pub proof fn law_read_back(self, v: serde_json::Value, r: Option<DocShareRequest>)
        requires
            self.written_as(v),
            DocShareRequest::read_as(v, r),
        ensures
            r is Some,
            r->0.request_id@ == self.request_id@,
            r->0.doc_id@ == self.doc_id@,
            entries_view(r->0.shares@) == entries_view(self.shares@),
    {
    }
}

/// The event that a name on the wire stands for.
pub open spec fn event_named(name: Seq<char>) -> Option<DocEventType> {
    if name == "created"@ {
        Some(DocEventType::Created)
    } else if name == "updated"@ {
        Some(DocEventType::Updated)
    } else if name == "deleted"@ {
        Some(DocEventType::Deleted)
    } else {
        None
    }
}

impl DocEventType {
    /// The event that a name on the wire stands for.
    pub fn parse(name: &str) -> (r: Option<DocEventType>)
        ensures
            r == event_named(name@),
    {
        if str_eq(name, "created") {
            Some(DocEventType::Created)
        } else if str_eq(name, "updated") {
            Some(DocEventType::Updated)
        } else if str_eq(name, "deleted") {
            Some(DocEventType::Deleted)
        } else {
            None
        }
    }

    /// The name of an event stands for that event.
    pub proof fn lemma_name_round_trip(self)
        ensures
            event_named(self.name()) == Some(self),
    {
        reveal_strlit("created");
        reveal_strlit("updated");
        reveal_strlit("deleted");
        assert("created"@[0] == 'c' && "updated"@[0] == 'u' && "deleted"@[0] == 'd');
    }
}

/// The metadata that an optional member of a payload stands for.
pub open spec fn opt_metadata_view(o: Option<DocumentMetadata>) -> Option<DocumentMetadataView> {
    match o {
        Some(m) => Some(m@),
        None => None,
    }
}

/// The metadata under `metadata` of a payload, where it is readable.
pub open spec fn metadata_at(v: serde_json::Value) -> Option<DocumentMetadataView> {
    match json_member(v, "metadata"@) {
        Some(m) => stored_metadata_of(m),
        None => None,
    }
}

impl DocEvent {
    /// Whether `r` is what reading the payload `v` gives: what `v` states,
    /// and `None` where a member is missing or of the wrong kind.
    pub open spec fn read_as(v: serde_json::Value, r: Option<DocEvent>) -> bool {
        match r {
            Some(x) => {
                &&& text_at(v, "eventType"@) is Some
                &&& event_named(text_at(v, "eventType"@)->0) == Some(x.event_type)
                &&& text_at(v, "docId"@) == Some(x.doc_id@)
                &&& text_at(v, "userId"@) == Some(x.user_id@)
                &&& opt_metadata_view(x.metadata) == metadata_at(v)
            },
            None => text_at(v, "eventType"@) is None || event_named(
                text_at(v, "eventType"@)->0,
            ) is None || text_at(v, "docId"@) is None || text_at(v, "userId"@) is None,
        }
    }

    /// Whether `r` is a payload that states `self`.
    pub open spec fn written_as(self, r: serde_json::Value) -> bool {
        &&& json_is_object(r)
        &&& text_at(r, "eventType"@) == Some(self.event_type.name())
        &&& text_at(r, "docId"@) == Some(self.doc_id@)
        &&& text_at(r, "userId"@) == Some(self.user_id@)
        &&& metadata_at(r) == opt_metadata_view(self.metadata)
    }

    /// Reads the event out of a payload: `eventType` must name an event,
    /// `docId` and `userId` must be texts; `metadata` is read where it is
    /// readable.
    pub fn from_json(v: &serde_json::Value) -> (r: Option<DocEvent>)
        ensures
            DocEvent::read_as(*v, r),
    {
        let event_type = match get_text(v, "eventType") {
            Some(name) => DocEventType::parse(name.as_str()),
            None => None,
        };
        let doc_id = get_text(v, "docId");
        let user_id = get_text(v, "userId");
        let metadata = match member(v, "metadata") {
            Some(m) => metadata_from_json(m),
            None => None,
        };
        match (event_type, doc_id, user_id) {
            (Some(event_type), Some(doc_id), Some(user_id)) => Some(
                DocEvent { event_type, doc_id, metadata, user_id },
            ),
            _ => None,
        }
    }

    /// Writes the event as a payload; `metadata` is left out where there is
    /// none.
    pub fn to_json(&self) -> (r: serde_json::Value)
        ensures
            self.written_as(r),
    {
        proof {
            reveal_wire_names();
        }
        let mut r = object();
        put_text(&mut r, "eventType", self.event_type.as_str());
        put_text(&mut r, "docId", self.doc_id.as_str());
        match &self.metadata {
            Some(m) => {
                set_member(&mut r, "metadata", metadata_to_json(m));
            },
            None => {},
        }
        put_text(&mut r, "userId", self.user_id.as_str());
        r
    }

    /// What is read from a payload that states `self` has the members of
    /// `self`.
    pub proof fn law_read_back(self, v: serde_json::Value, r: Option<DocEvent>)
        requires
            self.written_as(v),
            DocEvent::read_as(v, r),
        ensures
            r is Some,
            r->0.event_type == self.event_type,
            r->0.doc_id@ == self.doc_id@,
            r->0.user_id@ == self.user_id@,
            opt_metadata_view(r->0.metadata) == opt_metadata_view(self.metadata),
    {
        self.event_type.lemma_name_round_trip();
    }
}

impl DocListResponse {
    /// Whether `r` is a payload that states `self`.
    pub open spec fn written_as(self, r: serde_json::Value) -> bool {
        &&& json_is_object(r)
        &&& text_at(r, "requestId"@) == Some(self.request_id@)
        &&& items_at(r, "documents"@) is Some
        &&& items_at(r, "documents"@)->0.len() == self.documents@.len()
        &&& forall|i: int|
                0 <= i < self.documents@.len() ==> stored_metadata_of(
                    #[trigger] items_at(r, "documents"@)->0[i],
                ) == Some(self.documents@[i]@)
    }

    /// Writes the answer as a payload: the documents as an array, each as
    /// the index keeps it.
    pub fn to_json(&self) -> (r: serde_json::Value)
        ensures
            self.written_as(r),
    {
        proof {
            reveal_wire_names();
        }
        let mut list: Vec<serde_json::Value> = Vec::new();
        let mut i: usize = 0;
        while i < self.documents.len()
            invariant
                i <= self.documents.len(),
                list.len() == i,
                forall|j: int|
                    0 <= j < i ==> stored_metadata_of(#[trigger] list[j]) == Some(
                        self.documents@[j]@,
                    ),
            decreases self.documents.len() - i,
        {
            list.push(metadata_to_json(&self.documents[i]));
            i += 1;
        }
        let mut r = object();
        put_text(&mut r, "requestId", self.request_id.as_str());
        set_member(&mut r, "documents", from_items(list));
        r
    }
}

} // verus!
