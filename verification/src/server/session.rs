//! The state of one connection, and the routing of what is sent to many.
//!
//! A connection starts out unauthenticated. A good token or login makes it
//! authenticated, and joining a document puts it into that document; it
//! stays authenticated until it ends. Everything that is sent to more than
//! one connection goes out as one message with a target; every connection
//! decides for itself, by what it is and where it is, whether the message is
//! for it.

use vstd::prelude::*;
use crate::text::{clone_opt, opt_view, str_eq};

verus! {

/// What the server knows of one connection.
#[derive(Debug)]
pub struct ClientState {
    /// The id of the connection.
    pub id: u64,
    /// The user, once authenticated.
    pub user_id: Option<String>,
    /// The user's name, once authenticated.
    pub username: Option<String>,
    /// The user's role, once authenticated.
    pub role: Option<String>,
    /// The document that the connection has joined.
    pub current_doc_id: Option<String>,
    /// Whether a token or a login was accepted.
    pub authenticated: bool,
}

impl Clone for ClientState {
    fn clone(&self) -> (r: Self)
        ensures
            r == *self,
    {
        ClientState {
            id: self.id,
            user_id: clone_opt(&self.user_id),
            username: clone_opt(&self.username),
            role: clone_opt(&self.role),
            current_doc_id: clone_opt(&self.current_doc_id),
            authenticated: self.authenticated,
        }
    }
}

/// Where a connection stands.
pub enum Phase {
    /// No token or login was accepted yet.
    Connected,
    /// The user is known; no document is joined.
    Authenticated,
    /// The user is known and has joined a document.
    InDoc,
}

impl ClientState {
    /// A connection that has just been accepted.
    pub fn new(id: u64) -> (r: ClientState)
        ensures
            r.id == id,
            r.user_id is None,
            r.username is None,
            r.role is None,
            r.current_doc_id is None,
            !r.authenticated,
    {
        ClientState {
            id,
            user_id: None,
            username: None,
            role: None,
            current_doc_id: None,
            authenticated: false,
        }
    }

    /// Where the connection stands.
    pub open spec fn phase(self) -> Phase {
        if !self.authenticated {
            Phase::Connected
        } else if self.current_doc_id is Some {
            Phase::InDoc
        } else {
            Phase::Authenticated
        }
    }

    /// Makes the connection that of a user. The document joined, if any,
    /// stays joined.
    pub fn authenticate(&mut self, user_id: &str, username: &str, role: &str)
        ensures
            final(self).id == old(self).id,
            final(self).authenticated,
            opt_view(final(self).user_id) == Some(user_id@),
            opt_view(final(self).username) == Some(username@),
            opt_view(final(self).role) == Some(role@),
            final(self).current_doc_id == old(self).current_doc_id,
    {
        self.user_id = Some(user_id.to_owned());
        self.username = Some(username.to_owned());
        self.role = Some(role.to_owned());
        self.authenticated = true;
    }

    /// Puts the connection into a document, out of the one it was in.
    pub fn join(&mut self, doc_id: &str)
        ensures
            opt_view(final(self).current_doc_id) == Some(doc_id@),
            final(self).id == old(self).id,
            final(self).authenticated == old(self).authenticated,
            final(self).user_id == old(self).user_id,
            final(self).username == old(self).username,
            final(self).role == old(self).role,
    {
        self.current_doc_id = Some(doc_id.to_owned());
    }
}

/// A message on its way to many connections.
#[derive(Debug, Clone)]
pub struct BroadcastMessage {
    /// The document whose connections the message is for; `None` for all
    /// authenticated connections.
    pub doc_id: Option<String>,
    /// A connection that does not get the message: as a rule, its sender.
    pub exclude_client: Option<u64>,
    /// The frame to deliver.
    pub data: Vec<u8>,
}

/// Whether a message with the given target is for a connection.
pub open spec fn is_target(
    client_id: u64,
    current_doc_id: Option<Seq<char>>,
    authenticated: bool,
    doc_id: Option<Seq<char>>,
    exclude_client: Option<u64>,
) -> bool {
    if exclude_client == Some(client_id) {
        false
    } else {
        match doc_id {
            Some(d) => current_doc_id == Some(d),
            None => authenticated,
        }
    }
}

/// Whether a message is for a connection: never for the one it excludes; if
/// it names a document, for the connections in that document; if it names
/// none, for the authenticated ones.
pub fn should_deliver(client: &ClientState, msg: &BroadcastMessage) -> (r: bool)
    ensures
        r == is_target(
            client.id,
            opt_view(client.current_doc_id),
            client.authenticated,
            opt_view(msg.doc_id),
            msg.exclude_client,
        ),
{
    if let Some(excluded) = msg.exclude_client {
        if excluded == client.id {
            return false;
        }
    }
    match &msg.doc_id {
        Some(doc_id) => match &client.current_doc_id {
            Some(current) => str_eq(current.as_str(), doc_id.as_str()),
            None => false,
        },
        None => client.authenticated,
    }
}

/// A message to the connections that have joined a document.
pub fn broadcast_to_doc(doc_id: &str, data: Vec<u8>, exclude_client: Option<u64>) -> (r:
    BroadcastMessage)
    ensures
        opt_view(r.doc_id) == Some(doc_id@),
        r.exclude_client == exclude_client,
        r.data == data,
{
    BroadcastMessage { doc_id: Some(doc_id.to_owned()), exclude_client, data }
}

/// A message to all authenticated connections.
pub fn broadcast_to_all(data: Vec<u8>, exclude_client: Option<u64>) -> (r: BroadcastMessage)
    ensures
        r.doc_id is None,
        r.exclude_client == exclude_client,
        r.data == data,
{
    BroadcastMessage { doc_id: None, exclude_client, data }
}

/// A sender never gets its own message back, whatever the target.
pub proof fn law_no_echo(
    client_id: u64,
    current_doc_id: Option<Seq<char>>,
    authenticated: bool,
    doc_id: Option<Seq<char>>,
)
    ensures
        !is_target(client_id, current_doc_id, authenticated, doc_id, Some(client_id)),
{
}

/// A message for a document reaches the connections in that document, and
/// no connection in another document or in none.
pub proof fn law_document_scope(
    client_id: u64,
    current_doc_id: Option<Seq<char>>,
    authenticated: bool,
    doc_id: Seq<char>,
    sender: u64,
)
    requires
        client_id != sender,
    ensures
        is_target(client_id, current_doc_id, authenticated, Some(doc_id), Some(sender)) <==> (
        current_doc_id == Some(doc_id)),
{
}

} // verus!
