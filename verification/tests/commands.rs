use diagrammer::auth::{TokenConfig, UserRole, UserStore};
use diagrammer::commands::AppState;
use diagrammer::server::protocol::DocEventType;
use serde_json::Value;

fn app() -> AppState {
    AppState::new(UserStore::new(), TokenConfig::default())
}

fn doc(id: &str, name: &str) -> Value {
    let mut map = serde_json::Map::new();
    map.insert("id".to_string(), Value::from(id));
    map.insert("name".to_string(), Value::from(name));
    Value::Object(map)
}

#[test]
fn server_mode_is_a_flag() {
    let mut app = app();
    assert!(!app.get_server_mode());
    app.set_server_mode(true);
    assert!(app.get_server_mode());
    app.set_server_mode(false);
    assert!(!app.get_server_mode());
}

#[test]
fn starting_and_stopping_sets_the_mode() {
    let mut app = app();
    assert_eq!(
        app.start_server(9000).unwrap_err(),
        "App data directory not set"
    );
    app.server.set_app_data_dir("/data".to_string());
    let plan = app.start_server(9000).unwrap();
    assert_eq!(plan.bind_address, "0.0.0.0:9000");
    app.server.open_documents(&vec![]);
    assert!(!app.get_server_mode());
    assert_eq!(app.server_started(9000, &vec![]), "ws://localhost:9000");
    assert!(app.get_server_mode());
    assert!(app.get_server_status(&vec![]).running);
    assert_eq!(
        app.start_server(9001).unwrap_err(),
        "Server is already running"
    );
    assert!(app.set_server_config(app.get_server_config()).is_err());
    app.stop_server();
    assert!(!app.get_server_mode());
    assert!(!app.get_server_status(&vec![]).running);
    assert!(app.set_server_config(app.get_server_config()).is_ok());
}

#[test]
fn users_are_created_with_a_known_role() {
    let mut app = app();
    assert_eq!(
        app.create_user("a", "secret1", "A", "root").unwrap_err(),
        "Invalid role"
    );
    assert!(!app.has_users());
    let a = app.create_user("a", "secret1", "A", "user").unwrap();
    let b = app.create_user("b", "secret2", "B", "admin").unwrap();
    assert_ne!(a.id, b.id);
    assert_eq!(a.id.chars().count(), 21);
    assert_eq!(a.role, UserRole::User);
    assert_eq!(b.role, UserRole::Admin);
    assert!(a.last_login_at.is_none());
    assert_eq!(
        app.create_user("a", "other", "A2", "user").unwrap_err(),
        "Username already exists"
    );
    let mut names: Vec<String> = app.list_users().into_iter().map(|u| u.username).collect();
    names.sort();
    assert_eq!(names, vec!["a", "b"]);
}

#[test]
fn login_and_token_validation() {
    let mut app = app();
    let info = app.create_user("alice", "hunter22", "Alice", "admin").unwrap();

    let failed = app.login("alice", "wrong");
    assert!(!failed.success);
    assert_eq!(failed.error.as_deref(), Some("Invalid username or password"));
    assert!(failed.user.is_none() && failed.token.is_none());
    let unknown = app.login("bob", "hunter22");
    assert_eq!(
        unknown.error.as_deref(),
        Some("Invalid username or password")
    );

    let ok = app.login_at("alice", "hunter22", 2_000_000);
    assert!(ok.success);
    assert!(ok.error.is_none());
    let user = ok.user.unwrap();
    assert_eq!(user.id, info.id);
    assert_eq!(user.username, "alice");
    // The answer shows the user as found, before the login was stamped.
    assert_eq!(user.last_login_at, None);
    let token = ok.token.unwrap();
    assert_eq!(token.expires_at, (2_000 + 86_400) * 1000);

    let shown = app.validate_token_at(&token.token, 2_500);
    assert!(shown.success);
    assert!(shown.token.is_none());
    let user = shown.user.unwrap();
    assert_eq!(user.id, info.id);
    assert_eq!(user.last_login_at, Some(2_000_000));

    let expired = app.validate_token_at(&token.token, 2_000 + 86_401);
    assert!(!expired.success);
    assert_eq!(expired.error.as_deref(), Some("Invalid or expired token"));
    assert_eq!(
        app.validate_token("garbage").error.as_deref(),
        Some("Invalid or expired token")
    );

    app.delete_user(&info.id).unwrap();
    let gone = app.validate_token_at(&token.token, 2_500);
    assert!(!gone.success);
    assert_eq!(gone.error.as_deref(), Some("User not found"));
}

#[test]
fn user_management() {
    let mut app = app();
    let info = app.create_user("alice", "hunter22", "Alice", "user").unwrap();
    assert_eq!(
        app.update_user_role(&info.id, "boss").unwrap_err(),
        "Invalid role"
    );
    assert_eq!(
        app.update_user_role("nobody", "admin").unwrap_err(),
        "User not found"
    );
    app.update_user_role(&info.id, "admin").unwrap();
    assert_eq!(app.list_users()[0].role, UserRole::Admin);

    assert_eq!(
        app.reset_user_password(&info.id, "12345").unwrap_err(),
        "Password must be at least 6 characters"
    );
    assert_eq!(
        app.reset_user_password("nobody", "123456").unwrap_err(),
        "User not found"
    );
    app.reset_user_password(&info.id, "123456").unwrap();
    assert!(!app.login("alice", "hunter22").success);
    assert!(app.login("alice", "123456").success);

    assert_eq!(app.delete_user("nobody").unwrap_err(), "User not found");
    app.delete_user(&info.id).unwrap();
    assert!(!app.has_users());
    assert_eq!(app.delete_user(&info.id).unwrap_err(), "User not found");
}

#[test]
fn lan_addresses_are_dotted() {
    assert_eq!(
        AppState::get_lan_addresses(&vec![[192, 168, 1, 2], [10, 0, 0, 1]]),
        vec!["192.168.1.2", "10.0.0.1"]
    );
}

#[test]
fn team_documents_need_a_started_server() {
    let mut app = app();
    assert_eq!(app.list_team_documents().unwrap_err(), "Server not running");
    assert_eq!(
        app.get_team_document("d", Ok("{}".to_string())).unwrap_err(),
        "Server not running"
    );
    assert_eq!(
        app.save_team_document(doc("d", "n"), 1).unwrap_err(),
        "Server not running"
    );
    assert_eq!(
        app.save_team_document(Value::Null, 1).unwrap_err(),
        "Document missing 'id' field"
    );
    assert_eq!(
        app.delete_team_document("d", false).unwrap_err(),
        "Server not running"
    );
}

#[test]
fn team_documents_on_the_host() {
    let mut app = app();
    app.server.set_app_data_dir("/data".to_string());
    app.start_server(0).unwrap();
    app.server.open_documents(&vec![]);
    app.server_started(4000, &vec![]);

    let plan = app.save_team_document(doc("d1", "One"), 10).unwrap();
    assert_eq!(plan.path, "docs/d1.json");
    let content = plan.content.clone();
    let event = app.team_document_saved(plan.metadata).unwrap();
    assert_eq!(event.event_type, DocEventType::Created);
    assert_eq!(event.doc_id, "d1");
    assert_eq!(event.user_id, "system");
    assert_eq!(event.metadata.unwrap().name, "One");

    let plan = app.save_team_document(doc("d1", "Two"), 20).unwrap();
    let event = app.team_document_saved(plan.metadata).unwrap();
    assert_eq!(event.event_type, DocEventType::Updated);

    let docs = app.list_team_documents().unwrap();
    assert_eq!(docs.len(), 1);
    assert_eq!(docs[0].name, "Two");

    let body = app.get_team_document("d1", Ok(content)).unwrap();
    assert_eq!(body["name"], "One");
    assert_eq!(
        app.get_team_document("d2", Ok("{}".to_string())).unwrap_err(),
        "Document not found"
    );

    let (deleted, event) = app.delete_team_document("d1", true).unwrap();
    assert!(deleted);
    let event = event.unwrap();
    assert_eq!(event.event_type, DocEventType::Deleted);
    assert_eq!(event.user_id, "system");
    assert!(event.metadata.is_none());
    let (deleted, event) = app.delete_team_document("d1", false).unwrap();
    assert!(!deleted);
    assert!(event.is_none());
    assert!(app.list_team_documents().unwrap().is_empty());
}

#[test]
fn a_login_without_a_session_is_stamped_and_turned_down() {
    let mut app = AppState::new(
        UserStore::new(),
        TokenConfig {
            secret: "k".to_string(),
            expiry_secs: u64::MAX,
        },
    );
    let info = app.create_user("alice", "hunter22", "Alice", "user").unwrap();
    let r = app.login_at("alice", "hunter22", 5_000);
    assert!(!r.success);
    assert_eq!(r.error.as_deref(), Some("Failed to create session"));
    assert!(r.token.is_none() && r.user.is_none());
    let stamped = app
        .list_users()
        .into_iter()
        .find(|u| u.id == info.id)
        .unwrap();
    assert_eq!(stamped.last_login_at, Some(5_000));
}
