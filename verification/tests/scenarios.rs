use std::collections::HashMap;

use diagrammer::auth::jwt::create_token_at;
use diagrammer::auth::{TokenConfig, User, UserRole, UserStore};
use diagrammer::commands::AppState;
use diagrammer::server::dispatch::{
    decode_client_message, ClientMessage, Effect, IoRequest, IoResult, ServerMessage, ServerState,
};
use diagrammer::server::documents::DocumentStore;
use diagrammer::server::protocol::{
    encode_message, AuthLoginRequest, DocDeleteRequest, DocEventType, DocGetRequest,
    DocListRequest, DocSaveRequest, DocShareRequest, DocTransferRequest, JoinDocRequest,
    ShareEntry, MESSAGE_AUTH, MESSAGE_AUTH_LOGIN, MESSAGE_AWARENESS, MESSAGE_DOC_DELETE,
    MESSAGE_DOC_EVENT, MESSAGE_DOC_GET, MESSAGE_DOC_LIST, MESSAGE_DOC_SAVE, MESSAGE_DOC_SHARE,
    MESSAGE_DOC_TRANSFER, MESSAGE_JOIN_DOC, MESSAGE_SYNC,
};
use diagrammer::server::session::{broadcast_to_doc, BroadcastMessage};
use serde_json::Value;

const NOW: u64 = 1_700_000_000_000;

fn object(members: Vec<(&str, Value)>) -> Value {
    let mut map = serde_json::Map::new();
    for (k, v) in members {
        map.insert(k.to_string(), v);
    }
    Value::Object(map)
}

fn strings(items: Vec<&str>) -> Value {
    Value::Array(items.into_iter().map(Value::from).collect())
}

/// A server with its users and a directory of files.
struct Host {
    state: ServerState,
    users: Option<UserStore>,
    files: HashMap<String, String>,
    index_writes: usize,
    fail_writes: bool,
}

impl Host {
    fn new(users: Option<UserStore>) -> Host {
        Host {
            state: ServerState::new(
                DocumentStore::new(),
                TokenConfig::default().secret,
                TokenConfig::default(),
            ),
            users,
            files: HashMap::new(),
            index_writes: 0,
            fail_writes: false,
        }
    }

    fn perform(&mut self, request: IoRequest) -> IoResult {
        match request {
            IoRequest::ReadFile { path } => IoResult::Read(
                self.files
                    .get(&path)
                    .cloned()
                    .ok_or_else(|| "No such file or directory".to_string()),
            ),
            IoRequest::WriteFile { path, content } => {
                if self.fail_writes {
                    IoResult::Written(Err("disk full".to_string()))
                } else {
                    self.files.insert(path, content);
                    IoResult::Written(Ok(()))
                }
            }
            IoRequest::RemoveFile { path } => {
                IoResult::Removed(Ok(self.files.remove(&path).is_some()))
            }
            IoRequest::WriteIndex => {
                self.index_writes += 1;
                IoResult::Written(Ok(()))
            }
        }
    }

    /// Hands a frame to the server and carries out what it asks of the disk,
    /// until the step is over.
    fn send(&mut self, client_id: u64, frame: Vec<u8>) -> Vec<Effect> {
        let mut effects = Vec::new();
        let mut step = self
            .state
            .handle_message(&mut self.users, client_id, &frame, NOW);
        loop {
            effects.append(&mut step.effects);
            match step.io {
                None => return effects,
                Some((request, pending)) => {
                    let result = self.perform(request);
                    step = self.state.resume(pending, result, NOW);
                }
            }
        }
    }

    /// A connection that is authenticated with a token.
    fn connect_as(&mut self, user_id: &str, username: &str, role: &str) -> u64 {
        let id = self.state.connect();
        let (token, _) =
            create_token_at(user_id, username, role, &TokenConfig::default(), NOW / 1000).unwrap();
        let effects = self.send(id, encode_message(MESSAGE_AUTH, &Value::from(token)).unwrap());
        match &effects[..] {
            [Effect::Send {
                client_id,
                message: ServerMessage::Auth(r),
            }] => {
                assert_eq!(*client_id, id);
                assert!(r.success);
            }
            other => panic!("unexpected effects {:?}", other),
        }
        id
    }
}

fn frame(tag: u8, payload: Value) -> Vec<u8> {
    encode_message(tag, &payload).unwrap()
}

fn save(request_id: &str, document: Value) -> Vec<u8> {
    frame(
        MESSAGE_DOC_SAVE,
        DocSaveRequest {
            request_id: request_id.to_string(),
            document,
        }
        .to_json(),
    )
}

fn get(request_id: &str, doc_id: &str) -> Vec<u8> {
    frame(
        MESSAGE_DOC_GET,
        DocGetRequest {
            request_id: request_id.to_string(),
            doc_id: doc_id.to_string(),
        }
        .to_json(),
    )
}

fn delete(request_id: &str, doc_id: &str) -> Vec<u8> {
    frame(
        MESSAGE_DOC_DELETE,
        DocDeleteRequest {
            request_id: request_id.to_string(),
            doc_id: doc_id.to_string(),
        }
        .to_json(),
    )
}

fn list(request_id: &str) -> Vec<u8> {
    frame(
        MESSAGE_DOC_LIST,
        DocListRequest {
            request_id: request_id.to_string(),
        }
        .to_json(),
    )
}

fn join(doc_id: &str) -> Vec<u8> {
    frame(
        MESSAGE_JOIN_DOC,
        JoinDocRequest {
            doc_id: doc_id.to_string(),
        }
        .to_json(),
    )
}

fn only_message(effects: &[Effect], to: u64) -> &ServerMessage {
    match effects {
        [Effect::Send { client_id, message }] => {
            assert_eq!(*client_id, to);
            message
        }
        other => panic!("expected one message, got {:?}", other),
    }
}

fn plan_doc() -> Value {
    object(vec![
        ("id", Value::from("d1")),
        ("name", Value::from("Plan")),
        ("pageOrder", strings(vec!["p1", "p2"])),
        ("createdAt", Value::from(1000)),
        ("modifiedAt", Value::from(1000)),
    ])
}

#[test]
fn fresh_start_first_user_login() {
    let mut app = AppState::new(UserStore::new(), TokenConfig::default());
    assert!(!app.has_users());
    let info = app
        .create_user("alice", "hunter22", "Alice", "admin")
        .unwrap();
    assert!(app.has_users());
    assert_eq!(info.username, "alice");
    assert_eq!(info.display_name, "Alice");
    assert_eq!(info.role, UserRole::Admin);

    let users = app.server.user_store.take();
    let mut host = Host::new(users);
    let client = host.state.connect();
    let effects = host.send(
        client,
        frame(
            MESSAGE_AUTH_LOGIN,
            AuthLoginRequest {
                username: "alice".to_string(),
                password: "hunter22".to_string(),
            }
            .to_json(),
        ),
    );
    assert_eq!(effects.len(), 2);
    match &effects[0] {
        Effect::Send {
            client_id,
            message: ServerMessage::Auth(r),
        } => {
            assert_eq!(*client_id, client);
            assert!(r.success);
            assert_eq!(r.user_id.as_deref(), Some(info.id.as_str()));
            assert_eq!(r.username.as_deref(), Some("alice"));
            assert_eq!(r.role.as_deref(), Some("admin"));
            assert!(!r.token.as_deref().unwrap().is_empty());
            assert!(r.token_expires_at.unwrap() > NOW + 23 * 60 * 60 * 1000);
            assert!(r.error.is_none());
        }
        other => panic!("unexpected effect {:?}", other),
    }
    assert!(matches!(effects[1], Effect::PersistUsers));
    let stamped = host.users.as_ref().unwrap().get_user(&info.id).unwrap();
    assert_eq!(stamped.last_login_at, Some(NOW));
    assert!(host.state.clients[&client].authenticated);
}

#[test]
fn login_failures_do_not_tell_name_from_password() {
    let mut app = AppState::new(UserStore::new(), TokenConfig::default());
    app.create_user("alice", "hunter22", "Alice", "user").unwrap();
    let mut host = Host::new(app.server.user_store.take());
    let client = host.state.connect();
    let login = |username: &str, password: &str| {
        frame(
            MESSAGE_AUTH_LOGIN,
            AuthLoginRequest {
                username: username.to_string(),
                password: password.to_string(),
            }
            .to_json(),
        )
    };
    for attempt in [login("alice", "wrong"), login("nobody", "hunter22")] {
        let effects = host.send(client, attempt);
        match only_message(&effects, client) {
            ServerMessage::Auth(r) => {
                assert!(!r.success);
                assert_eq!(r.error.as_deref(), Some("Invalid username or password"));
                assert!(r.token.is_none() && r.user_id.is_none());
            }
            other => panic!("unexpected message {:?}", other),
        }
        assert!(!host.state.clients[&client].authenticated);
    }
    let effects = host.send(client, frame(MESSAGE_AUTH_LOGIN, Value::from(5)));
    match only_message(&effects, client) {
        ServerMessage::Auth(r) => assert_eq!(r.error.as_deref(), Some("Invalid request format")),
        other => panic!("unexpected message {:?}", other),
    }
}

#[test]
fn login_without_a_registry_is_refused() {
    let mut host = Host::new(None);
    let client = host.state.connect();
    let effects = host.send(
        client,
        frame(
            MESSAGE_AUTH_LOGIN,
            AuthLoginRequest {
                username: "alice".to_string(),
                password: "hunter22".to_string(),
            }
            .to_json(),
        ),
    );
    match only_message(&effects, client) {
        ServerMessage::Auth(r) => {
            assert!(!r.success);
            assert_eq!(r.error.as_deref(), Some("Server not configured for login"));
        }
        other => panic!("unexpected message {:?}", other),
    }
}

#[test]
fn tokens_are_checked_on_auth() {
    let mut host = Host::new(None);
    let client = host.state.connect();
    let bad = [
        frame(MESSAGE_AUTH, Value::from("not-a-token")),
        frame(
            MESSAGE_AUTH,
            Value::from(
                create_token_at(
                    "u",
                    "n",
                    "user",
                    &TokenConfig {
                        secret: "other".to_string(),
                        expiry_secs: 60,
                    },
                    NOW / 1000,
                )
                .unwrap()
                .0,
            ),
        ),
        frame(
            MESSAGE_AUTH,
            Value::from(
                create_token_at("u", "n", "user", &TokenConfig::default(), 1000)
                    .unwrap()
                    .0,
            ),
        ),
    ];
    for attempt in bad {
        let effects = host.send(client, attempt);
        match only_message(&effects, client) {
            ServerMessage::Auth(r) => {
                assert!(!r.success);
                assert_eq!(r.error.as_deref(), Some("Invalid or expired token"));
            }
            other => panic!("unexpected message {:?}", other),
        }
        assert!(!host.state.clients[&client].authenticated);
    }
    let effects = host.send(client, frame(MESSAGE_AUTH, object(vec![])));
    match only_message(&effects, client) {
        ServerMessage::Auth(r) => assert_eq!(r.error.as_deref(), Some("Invalid token format")),
        other => panic!("unexpected message {:?}", other),
    }
    let effects = host.send(client, vec![MESSAGE_AUTH]);
    match only_message(&effects, client) {
        ServerMessage::Auth(r) => assert_eq!(r.error.as_deref(), Some("Invalid token format")),
        other => panic!("unexpected message {:?}", other),
    }
}

#[test]
fn unauthenticated_connections_are_turned_down() {
    let mut host = Host::new(None);
    let client = host.state.connect();
    for attempt in [
        list("r"),
        get("r", "d1"),
        save("r", plan_doc()),
        delete("r", "d1"),
        join("d1"),
        vec![MESSAGE_SYNC, 1, 2, 3],
        vec![MESSAGE_AWARENESS, 1],
        vec![MESSAGE_DOC_EVENT, b'{', b'}'],
        vec![99],
    ] {
        let effects = host.send(client, attempt);
        match only_message(&effects, client) {
            ServerMessage::Error(e) => {
                assert_eq!(e.error, "NOT_AUTHENTICATED");
                assert!(e.request_id.is_none());
            }
            other => panic!("unexpected message {:?}", other),
        }
    }
    assert!(host.files.is_empty());
    assert!(host.state.doc_store.list_documents().is_empty());
    // An empty frame and a frame of an unknown connection are passed over.
    assert!(host.send(client, vec![]).is_empty());
    assert!(host.send(client + 1, list("r")).is_empty());
}

#[test]
fn create_list_get() {
    let mut host = Host::new(None);
    let alice = host.connect_as("alice", "alice", "admin");
    let watcher = host.connect_as("bob", "bob", "user");

    let effects = host.send(alice, save("r1", plan_doc()));
    assert_eq!(effects.len(), 2);
    match &effects[0] {
        Effect::Send {
            client_id,
            message: ServerMessage::DocSave(r),
        } => {
            assert_eq!(*client_id, alice);
            assert_eq!(r.request_id, "r1");
            assert!(r.success);
            assert!(r.error.is_none());
        }
        other => panic!("unexpected effect {:?}", other),
    }
    match &effects[1] {
        Effect::Announce { event } => {
            assert_eq!(event.event_type, DocEventType::Created);
            assert_eq!(event.doc_id, "d1");
            assert_eq!(event.user_id, "alice");
            assert_eq!(event.metadata.as_ref().unwrap().name, "Plan");
        }
        other => panic!("unexpected effect {:?}", other),
    }
    assert_eq!(host.index_writes, 1);

    let effects = host.send(watcher, list("r2"));
    match only_message(&effects, watcher) {
        ServerMessage::DocList(r) => {
            assert_eq!(r.request_id, "r2");
            assert_eq!(r.documents.len(), 1);
            assert_eq!(r.documents[0].id, "d1");
            assert_eq!(r.documents[0].name, "Plan");
            assert_eq!(r.documents[0].page_count, 2);
        }
        other => panic!("unexpected message {:?}", other),
    }

    let effects = host.send(alice, get("r3", "d1"));
    match only_message(&effects, alice) {
        ServerMessage::DocGet(r) => {
            assert_eq!(r.request_id, "r3");
            assert_eq!(r.document.as_ref(), Some(&plan_doc()));
            assert!(r.error.is_none());
        }
        other => panic!("unexpected message {:?}", other),
    }

    // A second save of the same document is an update.
    let effects = host.send(alice, save("r4", plan_doc()));
    match &effects[1] {
        Effect::Announce { event } => assert_eq!(event.event_type, DocEventType::Updated),
        other => panic!("unexpected effect {:?}", other),
    }
}

#[test]
fn save_failures_are_answered_and_not_announced() {
    let mut host = Host::new(None);
    let alice = host.connect_as("alice", "alice", "user");
    let effects = host.send(alice, save("r1", object(vec![("name", Value::from("x"))])));
    match only_message(&effects, alice) {
        ServerMessage::DocSave(r) => {
            assert!(!r.success);
            assert_eq!(r.error.as_deref(), Some("Document missing 'id' field"));
        }
        other => panic!("unexpected message {:?}", other),
    }
    host.fail_writes = true;
    let effects = host.send(alice, save("r2", plan_doc()));
    match only_message(&effects, alice) {
        ServerMessage::DocSave(r) => {
            assert_eq!(r.request_id, "r2");
            assert!(!r.success);
            assert_eq!(r.error.as_deref(), Some("Write error: disk full"));
        }
        other => panic!("unexpected message {:?}", other),
    }
    assert!(host.state.doc_store.list_documents().is_empty());
    assert_eq!(host.index_writes, 0);
    assert!(host.send(alice, vec![MESSAGE_DOC_SAVE, b'x']).is_empty());
}

fn secret_doc() -> Value {
    object(vec![
        ("id", Value::from("d2")),
        ("name", Value::from("Secret")),
        ("ownerId", Value::from("bob")),
        ("pageOrder", strings(vec!["p1"])),
    ])
}

#[test]
fn permission_enforcement() {
    let mut host = Host::new(None);
    let alice = host.connect_as("alice", "alice", "admin");
    let bob = host.connect_as("bob", "bob", "user");
    let carol = host.connect_as("carol", "carol", "user");

    host.send(alice, save("r0", secret_doc()));

    let effects = host.send(carol, get("r1", "d2"));
    match only_message(&effects, carol) {
        ServerMessage::DocGet(r) => {
            assert!(r.document.is_none());
            assert!(r.error.as_deref().unwrap().contains("ERR_VIEW_FORBIDDEN"));
        }
        other => panic!("unexpected message {:?}", other),
    }

    let effects = host.send(bob, get("r2", "d2"));
    match only_message(&effects, bob) {
        ServerMessage::DocGet(r) => {
            assert_eq!(r.document.as_ref().unwrap()["name"], "Secret");
            assert!(r.error.is_none());
        }
        other => panic!("unexpected message {:?}", other),
    }

    let effects = host.send(carol, delete("r3", "d2"));
    match only_message(&effects, carol) {
        ServerMessage::DocDelete(r) => {
            assert!(!r.success);
            assert!(r.error.as_deref().unwrap().starts_with("ERR_DELETE_FORBIDDEN"));
        }
        other => panic!("unexpected message {:?}", other),
    }
    assert!(host.files.contains_key("docs/d2.json"));

    // Carol may not save over the document either.
    let effects = host.send(carol, save("r4", secret_doc()));
    match only_message(&effects, carol) {
        ServerMessage::DocSave(r) => {
            assert!(!r.success);
            assert!(r.error.as_deref().unwrap().starts_with("ERR_EDIT_FORBIDDEN"));
        }
        other => panic!("unexpected message {:?}", other),
    }

    let effects = host.send(alice, delete("r5", "d2"));
    assert_eq!(effects.len(), 2);
    match &effects[0] {
        Effect::Send {
            client_id,
            message: ServerMessage::DocDelete(r),
        } => {
            assert_eq!(*client_id, alice);
            assert!(r.success);
        }
        other => panic!("unexpected effect {:?}", other),
    }
    let event = match &effects[1] {
        Effect::Announce { event } => event,
        other => panic!("unexpected effect {:?}", other),
    };
    assert_eq!(event.event_type, DocEventType::Deleted);
    assert_eq!(event.doc_id, "d2");
    assert!(event.metadata.is_none());
    // The event goes to every authenticated connection, Bob's and Carol's
    // among them.
    let to_all = diagrammer::server::session::broadcast_to_all(
        encode_message(MESSAGE_DOC_EVENT, &event.to_json()).unwrap(),
        None,
    );
    assert!(host.state.should_deliver(bob, &to_all));
    assert!(host.state.should_deliver(carol, &to_all));
    assert!(!host.files.contains_key("docs/d2.json"));
    assert!(host.state.doc_store.get_metadata("d2").is_none());

    // Deleting again finds no document.
    let effects = host.send(alice, delete("r6", "d2"));
    match only_message(&effects, alice) {
        ServerMessage::DocDelete(r) => {
            assert!(!r.success);
            assert!(r.error.as_deref().unwrap().starts_with("ERR_DOC_NOT_FOUND"));
        }
        other => panic!("unexpected message {:?}", other),
    }
}

#[test]
fn doc_scoped_routing() {
    let mut host = Host::new(None);
    let alice = host.connect_as("alice", "alice", "admin");
    let bob = host.connect_as("bob", "bob", "user");
    let carol = host.connect_as("carol", "carol", "user");
    let dave = host.connect_as("dave", "dave", "user");
    let shared = |id: &str| {
        object(vec![
            ("id", Value::from(id)),
            ("ownerId", Value::from("alice")),
            (
                "sharedWith",
                Value::Array(
                    [("bob", "edit"), ("carol", "view"), ("dave", "edit")]
                        .iter()
                        .map(|(user, permission)| {
                            object(vec![
                                ("userId", Value::from(*user)),
                                ("userName", Value::from(*user)),
                                ("permission", Value::from(*permission)),
                                ("sharedAt", Value::from(1)),
                            ])
                        })
                        .collect(),
                ),
            ),
        ])
    };
    host.send(alice, save("r1", shared("d1")));
    host.send(alice, save("r2", shared("d3")));

    assert!(host.send(bob, join("d1")).is_empty());
    assert!(host.send(carol, join("d1")).is_empty());
    assert!(host.send(dave, join("d3")).is_empty());

    let b1 = vec![MESSAGE_SYNC, 0xde, 0xad, 0xbe, 0xef];
    let effects = host.send(bob, b1.clone());
    let message: BroadcastMessage = match &effects[..] {
        [Effect::Forward {
            doc_id,
            exclude_client,
            data,
        }] => {
            assert_eq!(doc_id, "d1");
            assert_eq!(*exclude_client, bob);
            assert_eq!(data, &b1);
            broadcast_to_doc(doc_id, data.clone(), Some(*exclude_client))
        }
        other => panic!("unexpected effects {:?}", other),
    };
    assert!(host.state.should_deliver(carol, &message));
    assert!(!host.state.should_deliver(dave, &message));
    assert!(!host.state.should_deliver(bob, &message));
    assert!(!host.state.should_deliver(alice, &message));

    // Carol only views: her edits go nowhere, her presence does.
    assert!(host.send(carol, b1.clone()).is_empty());
    let effects = host.send(carol, vec![MESSAGE_AWARENESS, 7]);
    assert!(matches!(&effects[..], [Effect::Forward { doc_id, .. }] if doc_id == "d1"));

    // Who has joined no document forwards nothing.
    assert!(host.send(alice, b1).is_empty());

    // A connection that has ended gets nothing.
    host.state.disconnect(carol);
    assert!(!host.state.should_deliver(carol, &message));
}

#[test]
fn joining_needs_the_right_to_view() {
    let mut host = Host::new(None);
    let alice = host.connect_as("alice", "alice", "admin");
    let carol = host.connect_as("carol", "carol", "user");
    host.send(alice, save("r0", secret_doc()));
    let effects = host.send(carol, join("d2"));
    match only_message(&effects, carol) {
        ServerMessage::Error(e) => assert!(e.error.starts_with("ERR_VIEW_FORBIDDEN")),
        other => panic!("unexpected message {:?}", other),
    }
    assert!(host.state.clients[&carol].current_doc_id.is_none());
    let effects = host.send(carol, join("unknown"));
    match only_message(&effects, carol) {
        ServerMessage::Error(e) => assert!(e.error.starts_with("ERR_DOC_NOT_FOUND")),
        other => panic!("unexpected message {:?}", other),
    }
    assert!(host.send(alice, join("d2")).is_empty());
    assert_eq!(
        host.state.clients[&alice].current_doc_id.as_deref(),
        Some("d2")
    );
}

#[test]
fn share_and_transfer() {
    let mut host = Host::new(None);
    let alice = host.connect_as("alice", "Alice", "user");
    let bob = host.connect_as("bob", "Bob", "user");
    let mut doc = plan_doc();
    doc["ownerId"] = Value::from("alice");
    doc["ownerName"] = Value::from("Alice");
    host.send(alice, save("r0", doc));

    let entry = |user_id: &str, user_name: &str, permission: &str| ShareEntry {
        user_id: user_id.to_string(),
        user_name: user_name.to_string(),
        permission: permission.to_string(),
    };
    let share = frame(
        MESSAGE_DOC_SHARE,
        DocShareRequest {
            request_id: "r1".to_string(),
            doc_id: "d1".to_string(),
            shares: vec![entry("bob", "Bob", "edit"), entry("carol", "Carol", "view")],
        }
        .to_json(),
    );
    // Bob may not change the shares.
    let effects = host.send(bob, share.clone());
    match only_message(&effects, bob) {
        ServerMessage::DocShare(r) => {
            assert!(!r.success);
            assert!(r.error.as_deref().unwrap().starts_with("ERR_DELETE_FORBIDDEN"));
        }
        other => panic!("unexpected message {:?}", other),
    }

    let effects = host.send(alice, share);
    assert_eq!(effects.len(), 2);
    match &effects[0] {
        Effect::Send {
            client_id,
            message: ServerMessage::DocShare(r),
        } => {
            assert_eq!(*client_id, alice);
            assert_eq!(r.request_id, "r1");
            assert!(r.success);
        }
        other => panic!("unexpected effect {:?}", other),
    }
    match &effects[1] {
        Effect::Announce { event } => {
            assert_eq!(event.event_type, DocEventType::Updated);
            assert_eq!(event.doc_id, "d1");
        }
        other => panic!("unexpected effect {:?}", other),
    }
    let metadata = host.state.doc_store.get_metadata("d1").unwrap();
    let shares = metadata.shared_with.unwrap();
    assert_eq!(shares.len(), 2);
    assert_eq!(shares[0].user_id, "bob");
    assert_eq!(shares[0].permission, "edit");
    assert_eq!(shares[0].shared_at, NOW);
    assert_eq!(shares[1].user_id, "carol");
    assert_eq!(shares[1].permission, "view");

    let transfer = frame(
        MESSAGE_DOC_TRANSFER,
        DocTransferRequest {
            request_id: "r2".to_string(),
            doc_id: "d1".to_string(),
            new_owner_id: "bob".to_string(),
            new_owner_name: "Bob".to_string(),
        }
        .to_json(),
    );
    let effects = host.send(alice, transfer);
    assert_eq!(effects.len(), 2);
    match &effects[0] {
        Effect::Send {
            message: ServerMessage::DocTransfer(r),
            ..
        } => {
            assert_eq!(r.request_id, "r2");
            assert!(r.success);
        }
        other => panic!("unexpected effect {:?}", other),
    }
    let metadata = host.state.doc_store.get_metadata("d1").unwrap();
    assert_eq!(metadata.owner_id.as_deref(), Some("bob"));
    assert_eq!(metadata.owner_name.as_deref(), Some("Bob"));
    let shares = metadata.shared_with.unwrap();
    let alice_share = shares.iter().find(|s| s.user_id == "alice").unwrap();
    assert_eq!(alice_share.permission, "edit");
    assert!(!shares.iter().any(|s| s.user_id == "bob"));
    assert!(shares.iter().any(|s| s.user_id == "carol"));

    // Alice is an editor now and may no longer hand the document over.
    let again = frame(
        MESSAGE_DOC_TRANSFER,
        DocTransferRequest {
            request_id: "r3".to_string(),
            doc_id: "d1".to_string(),
            new_owner_id: "alice".to_string(),
            new_owner_name: "Alice".to_string(),
        }
        .to_json(),
    );
    let effects = host.send(alice, again);
    match only_message(&effects, alice) {
        ServerMessage::DocTransfer(r) => assert!(!r.success),
        other => panic!("unexpected message {:?}", other),
    }
}

#[test]
fn admins_manage_documents_they_do_not_own() {
    let mut host = Host::new(None);
    let bob = host.connect_as("bob", "Bob", "user");
    let admin = host.connect_as("root", "Root", "admin");
    let mut doc = plan_doc();
    doc["ownerId"] = Value::from("bob");
    host.send(bob, save("r0", doc));

    let share = frame(
        MESSAGE_DOC_SHARE,
        DocShareRequest {
            request_id: "r1".to_string(),
            doc_id: "d1".to_string(),
            shares: vec![],
        }
        .to_json(),
    );
    let effects = host.send(admin, share);
    assert!(matches!(
        &effects[0],
        Effect::Send { message: ServerMessage::DocShare(r), .. } if r.success
    ));
    let transfer = frame(
        MESSAGE_DOC_TRANSFER,
        DocTransferRequest {
            request_id: "r2".to_string(),
            doc_id: "d1".to_string(),
            new_owner_id: "carol".to_string(),
            new_owner_name: "Carol".to_string(),
        }
        .to_json(),
    );
    let effects = host.send(admin, transfer);
    assert!(matches!(
        &effects[0],
        Effect::Send { message: ServerMessage::DocTransfer(r), .. } if r.success
    ));
    let metadata = host.state.doc_store.get_metadata("d1").unwrap();
    assert_eq!(metadata.owner_id.as_deref(), Some("carol"));
    // The owner who left is on the share list, not the admin who acted.
    let shares = metadata.shared_with.unwrap();
    assert_eq!(shares.len(), 1);
    assert_eq!(shares[0].user_id, "bob");
    let effects = host.send(admin, delete("r3", "d1"));
    assert!(matches!(
        &effects[0],
        Effect::Send { message: ServerMessage::DocDelete(r), .. } if r.success
    ));
}

#[test]
fn restart_durability() {
    let mut host = Host::new(None);
    let alice = host.connect_as("alice", "alice", "admin");
    host.send(alice, save("r1", plan_doc()));
    let before = host.state.doc_store.get_metadata("d1").unwrap();

    // What was written survives; the process does not.
    let index: Vec<_> = host
        .state
        .doc_store
        .list_documents()
        .iter()
        .map(diagrammer::server::documents::metadata_to_json)
        .collect();
    let files = host.files.clone();
    drop(host);

    let entries: Vec<_> = index
        .iter()
        .map(|v| diagrammer::server::documents::metadata_from_json(v).unwrap())
        .collect();
    let mut host = Host::new(None);
    host.state = ServerState::new(
        DocumentStore::with_index(&entries),
        TokenConfig::default().secret,
        TokenConfig::default(),
    );
    host.files = files;
    let alice = host.connect_as("alice", "alice", "admin");

    let effects = host.send(alice, list("r2"));
    match only_message(&effects, alice) {
        ServerMessage::DocList(r) => {
            assert_eq!(r.documents.len(), 1);
            let after = &r.documents[0];
            assert_eq!(after.id, before.id);
            assert_eq!(after.name, before.name);
            assert_eq!(after.page_count, before.page_count);
            assert_eq!(after.created_at, before.created_at);
            assert_eq!(after.modified_at, before.modified_at);
            assert_eq!(after.owner_id, before.owner_id);
        }
        other => panic!("unexpected message {:?}", other),
    }
    let effects = host.send(alice, get("r3", "d1"));
    match only_message(&effects, alice) {
        ServerMessage::DocGet(r) => assert_eq!(r.document.as_ref(), Some(&plan_doc())),
        other => panic!("unexpected message {:?}", other),
    }
}

#[test]
fn connection_ids_increase() {
    let mut host = Host::new(None);
    let a = host.state.connect();
    let b = host.state.connect();
    let c = host.state.connect();
    assert_eq!((a, b, c), (1, 2, 3));
    assert_eq!(host.state.client_count(), 3);
    host.state.disconnect(b);
    assert_eq!(host.state.client_count(), 2);
    assert_eq!(host.state.connect(), 4);
    assert!(!host.state.clients.contains_key(&b));
}

#[test]
fn frames_are_read_by_their_first_byte() {
    assert!(decode_client_message(&[]).is_none());
    assert!(matches!(
        decode_client_message(&[MESSAGE_SYNC]),
        Some(ClientMessage::Sync)
    ));
    assert!(matches!(
        decode_client_message(&[MESSAGE_AWARENESS, 1, 2]),
        Some(ClientMessage::Awareness)
    ));
    assert!(matches!(
        decode_client_message(&[MESSAGE_DOC_EVENT, b'{', b'}']),
        Some(ClientMessage::Other(7))
    ));
    assert!(matches!(
        decode_client_message(&[250]),
        Some(ClientMessage::Other(250))
    ));
    assert!(matches!(
        decode_client_message(&list("r")),
        Some(ClientMessage::DocList(Some(r))) if r.request_id == "r"
    ));
    assert!(matches!(
        decode_client_message(&[MESSAGE_DOC_LIST, b'{', b'}']),
        Some(ClientMessage::DocList(None))
    ));
    assert!(matches!(
        decode_client_message(&[MESSAGE_DOC_GET]),
        Some(ClientMessage::DocGet(None))
    ));
    assert!(matches!(
        decode_client_message(&frame(MESSAGE_AUTH, Value::from("tok"))),
        Some(ClientMessage::Auth(Some(t))) if t == "tok"
    ));
}

#[test]
fn server_messages_are_framed_with_their_kind() {
    let message = ServerMessage::DocSave(diagrammer::server::protocol::DocSaveResponse::done("r"));
    assert_eq!(message.message_type(), MESSAGE_DOC_SAVE);
    let data = message.encode().unwrap();
    assert_eq!(data[0], MESSAGE_DOC_SAVE);
    assert_eq!(&data[1..], br#"{"requestId":"r","success":true}"#);
    let error = ServerMessage::Error(diagrammer::server::protocol::ErrorResponse {
        request_id: None,
        error: "x".to_string(),
    });
    assert_eq!(error.encode().unwrap()[0], 8);
}

#[test]
fn users_of_a_test_registry() {
    // The registry that scenarios log in against keeps users by id.
    let mut users = UserStore::new();
    users
        .add_user(User {
            id: "1".to_string(),
            display_name: "A".to_string(),
            username: "a".to_string(),
            password_hash: "h".to_string(),
            role: UserRole::User,
            created_at: 0,
            last_login_at: None,
        })
        .unwrap();
    let host = Host::new(Some(users));
    assert!(host.users.as_ref().unwrap().has_users());
}

#[test]
fn a_new_connection_knows_nobody_and_no_document() {
    let mut host = Host::new(None);
    let id = host.state.connect();
    let client = &host.state.clients[&id];
    assert_eq!(client.id, id);
    assert!(!client.authenticated);
    assert!(client.user_id.is_none());
    assert!(client.username.is_none());
    assert!(client.role.is_none());
    assert!(client.current_doc_id.is_none());
}

#[test]
fn joining_keeps_the_user() {
    let mut host = Host::new(None);
    let alice = host.connect_as("alice", "Alice", "user");
    let mut doc = plan_doc();
    doc["ownerId"] = Value::from("alice");
    host.send(alice, save("r0", doc));
    assert!(host.send(alice, join("d1")).is_empty());
    let client = &host.state.clients[&alice];
    assert!(client.authenticated);
    assert_eq!(client.user_id.as_deref(), Some("alice"));
    assert_eq!(client.username.as_deref(), Some("Alice"));
    assert_eq!(client.role.as_deref(), Some("user"));
    assert_eq!(client.current_doc_id.as_deref(), Some("d1"));
}

#[test]
fn a_get_tells_why_the_document_could_not_be_read() {
    let mut host = Host::new(None);
    let alice = host.connect_as("alice", "Alice", "admin");
    host.send(alice, save("r0", plan_doc()));

    host.files
        .insert("docs/d1.json".to_string(), "{ no json".to_string());
    let effects = host.send(alice, get("r1", "d1"));
    match only_message(&effects, alice) {
        ServerMessage::DocGet(r) => {
            assert_eq!(r.request_id, "r1");
            assert!(r.document.is_none());
            assert!(r
                .error
                .as_deref()
                .unwrap()
                .starts_with("Failed to parse document: "));
        }
        other => panic!("unexpected message {:?}", other),
    }

    host.files.remove("docs/d1.json");
    let effects = host.send(alice, get("r2", "d1"));
    match only_message(&effects, alice) {
        ServerMessage::DocGet(r) => {
            assert!(r.document.is_none());
            assert_eq!(
                r.error.as_deref(),
                Some("Failed to read document: No such file or directory")
            );
        }
        other => panic!("unexpected message {:?}", other),
    }
}
