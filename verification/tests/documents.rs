use std::collections::HashMap;

use diagrammer::server::documents::{
    apply_lock, apply_shares, apply_transfer, build_shares, drop_missing, extract_metadata,
    metadata_from_json,
    metadata_to_json, parse_shares, parse_shares_among, share_to_json, transfer_shares,
    DocumentMetadata, DocumentShare, DocumentStore,
};
use diagrammer::server::protocol::ShareEntry;
use serde_json::Value;

fn object(members: Vec<(&str, Value)>) -> Value {
    let mut map = serde_json::Map::new();
    for (k, v) in members {
        map.insert(k.to_string(), v);
    }
    Value::Object(map)
}

fn strings(items: Vec<&str>) -> Value {
    Value::Array(items.into_iter().map(Value::from).collect())
}

/// A directory of files, as far as the store is concerned.
struct Disk {
    files: HashMap<String, String>,
}

impl Disk {
    fn new() -> Disk {
        Disk {
            files: HashMap::new(),
        }
    }

    fn read(&self, path: &str) -> Result<String, String> {
        self.files
            .get(path)
            .cloned()
            .ok_or_else(|| "No such file or directory".to_string())
    }

    fn save(&mut self, store: &mut DocumentStore, doc: Value, now: u64) -> Result<bool, String> {
        let plan = store.save_document(doc, now)?;
        self.files.insert(plan.path, plan.content);
        Ok(store.commit(plan.metadata))
    }

    fn get(&self, store: &DocumentStore, doc_id: &str) -> Result<Value, String> {
        let file = self.read(&store.doc_path(doc_id));
        store.get_document(doc_id, file)
    }

    fn delete(&mut self, store: &mut DocumentStore, doc_id: &str) -> bool {
        let existed = self.files.remove(&store.doc_path(doc_id)).is_some();
        store.delete_document(doc_id, existed)
    }
}

fn test_doc() -> Value {
    object(vec![
        ("id", Value::from("test-doc-1")),
        ("name", Value::from("Test Document")),
        ("pages", object(vec![])),
        ("pageOrder", strings(vec!["page1"])),
        ("activePageId", Value::from("page1")),
        ("createdAt", Value::from(1000)),
        ("modifiedAt", Value::from(2000)),
        ("version", Value::from(1)),
        ("isTeamDocument", Value::from(true)),
    ])
}

#[test]
fn test_document_store_lifecycle() {
    let mut disk = Disk::new();
    let mut store = DocumentStore::new();

    // Initially empty
    assert!(store.list_documents().is_empty());

    // Create a test document
    let doc = test_doc();

    // Save document
    disk.save(&mut store, doc.clone(), 5).unwrap();

    // List should now have one document
    let docs = store.list_documents();
    assert_eq!(docs.len(), 1);
    assert_eq!(docs[0].id, "test-doc-1");
    assert_eq!(docs[0].name, "Test Document");
    assert_eq!(docs[0].is_team_document, Some(true));

    // Get document
    let retrieved = disk.get(&store, "test-doc-1").unwrap();
    assert_eq!(retrieved["id"], "test-doc-1");

    // Delete document
    let deleted = disk.delete(&mut store, "test-doc-1");
    assert!(deleted);

    // List should be empty again
    assert!(store.list_documents().is_empty());
}

#[test]
fn test_document_not_found() {
    let disk = Disk::new();
    let store = DocumentStore::new();

    let result = disk.get(&store, "nonexistent");
    assert!(result.is_err());
}

#[test]
fn get_tells_missing_index_entry_from_missing_file() {
    let mut disk = Disk::new();
    let mut store = DocumentStore::new();
    assert_eq!(
        disk.get(&store, "d1").unwrap_err(),
        "Document not found"
    );
    // A file without an index entry is not found either.
    disk.files
        .insert("docs/d1.json".to_string(), "{\"id\":\"d1\"}".to_string());
    assert_eq!(disk.get(&store, "d1").unwrap_err(), "Document not found");

    disk.save(&mut store, test_doc(), 1).unwrap();
    disk.files.clear();
    assert_eq!(
        disk.get(&store, "test-doc-1").unwrap_err(),
        "Failed to read document: No such file or directory"
    );
    disk.files
        .insert("docs/test-doc-1.json".to_string(), "{ not json".to_string());
    assert!(disk
        .get(&store, "test-doc-1")
        .unwrap_err()
        .starts_with("Failed to parse document: "));
}

#[test]
fn paths_are_relative_to_the_documents_directory() {
    let store = DocumentStore::new();
    assert_eq!(store.index_path(), "index.json");
    assert_eq!(store.doc_path("abc"), "docs/abc.json");
    assert_eq!(store.doc_path(""), "docs/.json");
}

#[test]
fn save_extracts_metadata_with_defaults() {
    let store = DocumentStore::new();
    let plan = store
        .save_document(object(vec![("id", Value::from("d1"))]), 777)
        .unwrap();
    let m = &plan.metadata;
    assert_eq!(m.id, "d1");
    assert_eq!(m.name, "Untitled");
    assert_eq!(m.page_count, 1);
    assert_eq!(m.modified_at, 777);
    assert_eq!(m.created_at, 777);
    assert_eq!(m.is_team_document, None);
    assert_eq!(m.owner_id, None);
    assert!(m.shared_with.is_none());
    assert_eq!(plan.path, "docs/d1.json");
    let written: Value = serde_json::from_str(&plan.content).unwrap();
    assert_eq!(written, plan.body);
}

#[test]
fn save_reads_the_members_it_knows() {
    let doc = object(vec![
        ("id", Value::from("d9")),
        ("name", Value::from("Plan")),
        ("pageOrder", strings(vec!["a", "b", "c"])),
        ("createdAt", Value::from(10)),
        ("modifiedAt", Value::from(20)),
        ("isTeamDocument", Value::from(false)),
        ("lockedBy", Value::from("u1")),
        ("lockedByName", Value::from("User One")),
        ("lockedAt", Value::from(30)),
        ("ownerId", Value::from("u2")),
        ("ownerName", Value::from("User Two")),
        ("lastModifiedBy", Value::from("u3")),
        ("lastModifiedByName", Value::from("User Three")),
        (
            "sharedWith",
            Value::Array(vec![object(vec![
                ("userId", Value::from("u4")),
                ("userName", Value::from("User Four")),
                ("permission", Value::from("view")),
                ("sharedAt", Value::from(40)),
            ])]),
        ),
    ]);
    let m = extract_metadata(&doc, 999).unwrap();
    assert_eq!(m.name, "Plan");
    assert_eq!(m.page_count, 3);
    assert_eq!(m.created_at, 10);
    assert_eq!(m.modified_at, 20);
    assert_eq!(m.is_team_document, Some(false));
    assert_eq!(m.locked_by.as_deref(), Some("u1"));
    assert_eq!(m.locked_by_name.as_deref(), Some("User One"));
    assert_eq!(m.locked_at, Some(30));
    assert_eq!(m.owner_id.as_deref(), Some("u2"));
    assert_eq!(m.owner_name.as_deref(), Some("User Two"));
    assert_eq!(m.last_modified_by.as_deref(), Some("u3"));
    assert_eq!(m.last_modified_by_name.as_deref(), Some("User Three"));
    let shares = m.shared_with.unwrap();
    assert_eq!(shares.len(), 1);
    assert_eq!(shares[0].user_id, "u4");
    assert_eq!(shares[0].user_name, "User Four");
    assert_eq!(shares[0].permission, "view");
    assert_eq!(shares[0].shared_at, 40);
}

#[test]
fn created_at_defaults_to_modified_at() {
    let doc = object(vec![
        ("id", Value::from("d1")),
        ("modifiedAt", Value::from(50)),
    ]);
    let m = extract_metadata(&doc, 999).unwrap();
    assert_eq!(m.modified_at, 50);
    assert_eq!(m.created_at, 50);
}

#[test]
fn a_body_without_usable_id_is_rejected() {
    let store = DocumentStore::new();
    for doc in [
        object(vec![("name", Value::from("x"))]),
        object(vec![("id", Value::from(""))]),
        object(vec![("id", Value::from(5))]),
        Value::Null,
        Value::from("d1"),
        Value::Array(vec![]),
    ] {
        assert_eq!(
            store.save_document(doc, 1).unwrap_err(),
            "Document missing 'id' field"
        );
    }
}

#[test]
fn one_bad_share_entry_spoils_the_list_for_the_index() {
    let good = object(vec![
        ("userId", Value::from("u")),
        ("userName", Value::from("U")),
        ("permission", Value::from("edit")),
        ("sharedAt", Value::from(1)),
    ]);
    let bad = object(vec![("userId", Value::from("v"))]);
    let list = vec![good.clone(), bad, good];
    assert!(parse_shares(&list).is_none());
    assert_eq!(parse_shares_among(&list).len(), 2);
    assert_eq!(parse_shares(&list[..1].to_vec()).unwrap().len(), 1);
    assert!(parse_shares(&vec![]).unwrap().is_empty());
}

#[test]
fn save_classifies_created_and_updated() {
    let mut disk = Disk::new();
    let mut store = DocumentStore::new();
    assert!(disk.save(&mut store, test_doc(), 1).unwrap());
    assert!(!disk.save(&mut store, test_doc(), 2).unwrap());
    assert_eq!(store.list_documents().len(), 1);
    let other = object(vec![("id", Value::from("other"))]);
    assert!(disk.save(&mut store, other, 3).unwrap());
    assert_eq!(store.list_documents().len(), 2);
    assert!(store.contains("other"));
    assert!(!store.contains("nope"));
}

#[test]
fn saved_documents_are_found_with_their_metadata() {
    let mut disk = Disk::new();
    let mut store = DocumentStore::new();
    disk.save(&mut store, test_doc(), 1).unwrap();
    for m in store.list_documents() {
        let found = store.get_metadata(&m.id).unwrap();
        assert_eq!(found.id, m.id);
        assert_eq!(found.name, m.name);
        let body = disk.get(&store, &m.id).unwrap();
        assert_eq!(body["id"], m.id.as_str());
    }
    let m = store.get_document_metadata("test-doc-1").unwrap();
    assert_eq!(m.page_count, 1);
    assert_eq!(m.created_at, 1000);
    assert_eq!(m.modified_at, 2000);
    assert!(store.get_metadata("other").is_none());
}

#[test]
fn created_at_is_kept_across_saves() {
    let mut disk = Disk::new();
    let mut store = DocumentStore::new();
    disk.save(&mut store, test_doc(), 1).unwrap();
    let mut body = disk.get(&store, "test-doc-1").unwrap();
    body["modifiedAt"] = Value::from(9000);
    body["name"] = Value::from("Renamed");
    disk.save(&mut store, body, 2).unwrap();
    let m = store.get_metadata("test-doc-1").unwrap();
    assert_eq!(m.created_at, 1000);
    assert_eq!(m.modified_at, 9000);
    assert_eq!(m.name, "Renamed");
}

#[test]
fn delete_is_idempotent_past_the_first_success() {
    let mut disk = Disk::new();
    let mut store = DocumentStore::new();
    disk.save(&mut store, test_doc(), 1).unwrap();
    disk.save(&mut store, object(vec![("id", Value::from("keep"))]), 1)
        .unwrap();
    assert!(disk.delete(&mut store, "test-doc-1"));
    let after_first: Vec<String> = store.list_documents().into_iter().map(|m| m.id).collect();
    assert!(!disk.delete(&mut store, "test-doc-1"));
    let after_second: Vec<String> = store.list_documents().into_iter().map(|m| m.id).collect();
    assert_eq!(after_first, after_second);
    assert_eq!(after_second, vec!["keep".to_string()]);
}

#[test]
fn delete_reports_a_file_without_an_index_entry() {
    let mut store = DocumentStore::new();
    assert!(store.delete_document("ghost", true));
    assert!(!store.delete_document("ghost", false));
}

#[test]
fn lock_sets_and_clears_three_members_together() {
    let mut disk = Disk::new();
    let mut store = DocumentStore::new();
    disk.save(&mut store, test_doc(), 1).unwrap();
    assert!(!store.is_locked_by_other("test-doc-1", "u1"));

    let file = disk.read("docs/test-doc-1.json");
    let plan = store
        .set_lock("test-doc-1", file, Some("u1"), Some("User One"), 4242)
        .unwrap();
    assert_eq!(plan.metadata.locked_by.as_deref(), Some("u1"));
    assert_eq!(plan.metadata.locked_by_name.as_deref(), Some("User One"));
    assert_eq!(plan.metadata.locked_at, Some(4242));
    assert_eq!(plan.body["name"], "Test Document");
    disk.files.insert(plan.path, plan.content);
    store.commit(plan.metadata);
    assert!(store.is_locked_by_other("test-doc-1", "u2"));
    assert!(!store.is_locked_by_other("test-doc-1", "u1"));
    assert!(!store.is_locked_by_other("missing", "u1"));

    let file = disk.read("docs/test-doc-1.json");
    let plan = store
        .set_lock("test-doc-1", file, Some("u3"), None, 5)
        .unwrap();
    assert_eq!(plan.metadata.locked_by_name.as_deref(), Some("Unknown"));

    let file = disk.read("docs/test-doc-1.json");
    let plan = store.set_lock("test-doc-1", file, None, None, 6).unwrap();
    assert_eq!(plan.metadata.locked_by, None);
    assert_eq!(plan.metadata.locked_by_name, None);
    assert_eq!(plan.metadata.locked_at, None);
    assert_eq!(plan.body["lockedBy"], Value::Null);
    disk.files.insert(plan.path, plan.content);
    store.commit(plan.metadata);
    assert!(!store.is_locked_by_other("test-doc-1", "u2"));
}

#[test]
fn lock_of_an_unknown_document_fails() {
    let store = DocumentStore::new();
    assert_eq!(
        store
            .set_lock("nope", Err("gone".to_string()), Some("u"), None, 1)
            .unwrap_err(),
        "Document not found"
    );
}

fn entry(user_id: &str, user_name: &str, permission: &str) -> ShareEntry {
    ShareEntry {
        user_id: user_id.to_string(),
        user_name: user_name.to_string(),
        permission: permission.to_string(),
    }
}

fn share(user_id: &str, permission: &str, shared_at: u64) -> DocumentShare {
    DocumentShare {
        user_id: user_id.to_string(),
        user_name: user_id.to_uppercase(),
        permission: permission.to_string(),
        shared_at,
    }
}

#[test]
fn requested_shares_drop_none_and_are_stamped() {
    let entries = vec![
        entry("bob", "Bob", "edit"),
        entry("eve", "Eve", "none"),
        entry("carol", "Carol", "view"),
        entry("dan", "Dan", "None"),
    ];
    let shares = build_shares(&entries, 77);
    let got: Vec<(&str, &str, &str, u64)> = shares
        .iter()
        .map(|s| {
            (
                s.user_id.as_str(),
                s.user_name.as_str(),
                s.permission.as_str(),
                s.shared_at,
            )
        })
        .collect();
    assert_eq!(
        got,
        vec![
            ("bob", "Bob", "edit", 77),
            ("carol", "Carol", "view", 77),
            ("dan", "Dan", "None", 77),
        ]
    );
    assert!(build_shares(&vec![], 1).is_empty());
}

#[test]
fn update_shares_rewrites_the_list() {
    let mut disk = Disk::new();
    let mut store = DocumentStore::new();
    disk.save(&mut store, test_doc(), 1).unwrap();
    let file = disk.read("docs/test-doc-1.json");
    let plan = store
        .update_document_shares(
            "test-doc-1",
            file,
            &vec![entry("bob", "Bob", "edit"), entry("eve", "Eve", "none")],
            500,
        )
        .unwrap();
    let shares = plan.metadata.shared_with.as_ref().unwrap();
    assert_eq!(shares.len(), 1);
    assert_eq!(shares[0].user_id, "bob");
    assert_eq!(shares[0].shared_at, 500);
    assert_eq!(plan.body["sharedWith"][0]["userId"], "bob");
    assert_eq!(plan.body["sharedWith"][0]["userName"], "Bob");
    assert_eq!(plan.body["sharedWith"][0]["permission"], "edit");
    assert_eq!(plan.body["sharedWith"][0]["sharedAt"], 500);
    assert_eq!(plan.body["activePageId"], "page1");
}

#[test]
fn transfer_moves_the_owner_into_the_shares() {
    let current = vec![share("bob", "edit", 1), share("carol", "view", 2)];
    let after = transfer_shares(&current, "bob", "alice", "Alice", 99);
    let got: Vec<(&str, &str, u64)> = after
        .iter()
        .map(|s| (s.user_id.as_str(), s.permission.as_str(), s.shared_at))
        .collect();
    assert_eq!(got, vec![("carol", "view", 2), ("alice", "edit", 99)]);
    assert_eq!(after[1].user_name, "Alice");
}

#[test]
fn transfer_raises_an_entry_the_previous_owner_already_has() {
    let current = vec![share("alice", "view", 1), share("bob", "edit", 2)];
    let after = transfer_shares(&current, "bob", "alice", "Alice", 99);
    assert_eq!(after.len(), 1);
    assert_eq!(after[0].user_id, "alice");
    assert_eq!(after[0].user_name, "ALICE");
    assert_eq!(after[0].permission, "edit");
    assert_eq!(after[0].shared_at, 1);
}

#[test]
fn transfer_leaves_the_previous_owner_exactly_one_entry() {
    let current = vec![
        share("alice", "view", 1),
        share("carol", "view", 2),
        share("alice", "none", 3),
        share("bob", "view", 4),
    ];
    let after = transfer_shares(&current, "bob", "alice", "Alice", 99);
    let got: Vec<(&str, &str, u64)> = after
        .iter()
        .map(|s| (s.user_id.as_str(), s.permission.as_str(), s.shared_at))
        .collect();
    assert_eq!(got, vec![("alice", "edit", 1), ("carol", "view", 2)]);
}

#[test]
fn transfer_keeps_the_order_of_the_list() {
    let current = vec![
        share("carol", "view", 1),
        share("alice", "view", 2),
        share("bob", "edit", 3),
        share("dave", "edit", 4),
    ];
    let after = transfer_shares(&current, "bob", "alice", "Alice", 99);
    let got: Vec<(&str, &str, u64)> = after
        .iter()
        .map(|s| (s.user_id.as_str(), s.permission.as_str(), s.shared_at))
        .collect();
    assert_eq!(
        got,
        vec![("carol", "view", 1), ("alice", "edit", 2), ("dave", "edit", 4)]
    );
}

#[test]
fn transfer_to_oneself_enters_the_owner_anew() {
    let current = vec![share("alice", "view", 1), share("carol", "view", 2)];
    let after = transfer_shares(&current, "alice", "alice", "Alice", 9);
    let got: Vec<(&str, &str, &str, u64)> = after
        .iter()
        .map(|s| {
            (
                s.user_id.as_str(),
                s.user_name.as_str(),
                s.permission.as_str(),
                s.shared_at,
            )
        })
        .collect();
    assert_eq!(
        got,
        vec![("carol", "CAROL", "view", 2), ("alice", "Alice", "edit", 9)]
    );
}

#[test]
fn transfer_ownership_patches_the_body() {
    let mut disk = Disk::new();
    let mut store = DocumentStore::new();
    let mut doc = test_doc();
    doc["ownerId"] = Value::from("alice");
    doc["ownerName"] = Value::from("Alice");
    doc["lastModifiedByName"] = Value::from("Alice A.");
    disk.save(&mut store, doc, 1).unwrap();
    let file = disk.read("docs/test-doc-1.json");
    let plan = store
        .transfer_ownership("test-doc-1", file, "bob", "Bob", "alice", 321)
        .unwrap();
    assert_eq!(plan.metadata.owner_id.as_deref(), Some("bob"));
    assert_eq!(plan.metadata.owner_name.as_deref(), Some("Bob"));
    let shares = plan.metadata.shared_with.as_ref().unwrap();
    assert_eq!(shares.len(), 1);
    assert_eq!(shares[0].user_id, "alice");
    assert_eq!(shares[0].user_name, "Alice A.");
    assert_eq!(shares[0].permission, "edit");
    assert_eq!(shares[0].shared_at, 321);
    assert_eq!(plan.body["ownerId"], "bob");

    let mut plain = test_doc();
    plain["id"] = Value::from("d2");
    disk.save(&mut store, plain, 1).unwrap();
    let file = disk.read("docs/d2.json");
    let plan = store
        .transfer_ownership("d2", file, "bob", "Bob", "alice", 1)
        .unwrap();
    assert_eq!(
        plan.metadata.shared_with.as_ref().unwrap()[0].user_name,
        "Previous Owner"
    );
}

#[test]
fn patches_leave_other_members_alone() {
    let mut doc = test_doc();
    apply_lock(&mut doc, Some("u"), Some("U"), 5);
    apply_shares(&mut doc, &vec![share("bob", "edit", 1)]);
    apply_transfer(&mut doc, "carol", "Carol", "alice", 9);
    assert_eq!(doc["id"], "test-doc-1");
    assert_eq!(doc["version"], 1);
    assert_eq!(doc["lockedBy"], "u");
    assert_eq!(doc["lockedAt"], 5);
    assert_eq!(doc["ownerId"], "carol");
    assert_eq!(doc["ownerName"], "Carol");
    assert_eq!(doc["sharedWith"].as_array().unwrap().len(), 2);
}

#[test]
fn shares_and_metadata_round_trip_through_json() {
    let s = share("bob", "edit", 12);
    let json = share_to_json(&s);
    assert_eq!(json["userId"], "bob");
    assert_eq!(json["sharedAt"], 12);
    let back = parse_shares(&vec![json]).unwrap();
    assert_eq!(back[0].user_name, "BOB");

    let m = DocumentMetadata {
        id: "d1".to_string(),
        name: "Plan".to_string(),
        page_count: 2,
        modified_at: 20,
        created_at: 10,
        is_team_document: Some(true),
        locked_by: None,
        locked_by_name: None,
        locked_at: None,
        owner_id: Some("alice".to_string()),
        owner_name: None,
        shared_with: Some(vec![s]),
        last_modified_by: None,
        last_modified_by_name: Some("A".to_string()),
    };
    let json = metadata_to_json(&m);
    assert_eq!(json["pageCount"], 2);
    assert_eq!(json["ownerId"], "alice");
    assert!(json.get("lockedBy").is_none());
    assert!(json.get("ownerName").is_none());
    let back = metadata_from_json(&json).unwrap();
    assert_eq!(back.id, "d1");
    assert_eq!(back.name, "Plan");
    assert_eq!(back.page_count, 2);
    assert_eq!(back.modified_at, 20);
    assert_eq!(back.created_at, 10);
    assert_eq!(back.is_team_document, Some(true));
    assert_eq!(back.owner_id.as_deref(), Some("alice"));
    assert_eq!(back.owner_name, None);
    assert_eq!(back.shared_with.unwrap()[0].user_id, "bob");
    assert_eq!(back.last_modified_by_name.as_deref(), Some("A"));
    assert!(metadata_from_json(&object(vec![("id", Value::from("x"))])).is_none());
}

#[test]
fn a_stored_index_is_loaded_by_id() {
    let entry = |id: &str, name: &str| DocumentMetadata {
        id: id.to_string(),
        name: name.to_string(),
        page_count: 1,
        modified_at: 0,
        created_at: 0,
        is_team_document: None,
        locked_by: None,
        locked_by_name: None,
        locked_at: None,
        owner_id: None,
        owner_name: None,
        shared_with: None,
        last_modified_by: None,
        last_modified_by_name: None,
    };
    let store = DocumentStore::with_index(&vec![
        entry("a", "first"),
        entry("", "nameless"),
        entry("b", "second"),
        entry("a", "third"),
    ]);
    assert_eq!(store.list_documents().len(), 2);
    assert_eq!(store.get_metadata("a").unwrap().name, "third");
    assert_eq!(store.get_metadata("b").unwrap().name, "second");
    assert!(store.get_metadata("").is_none());
}

#[test]
fn entries_without_a_file_are_dropped_from_a_stored_index() {
    let entry = |id: &str| {
        extract_metadata(&object(vec![("id", Value::from(id))]), 1).unwrap()
    };
    let entries = vec![entry("a"), entry("b"), entry("c"), entry("d")];
    let ids = |v: Vec<DocumentMetadata>| v.into_iter().map(|m| m.id).collect::<Vec<_>>();
    assert_eq!(
        ids(drop_missing(&entries, &vec![true, false, true, true])),
        vec!["a", "c", "d"]
    );
    assert_eq!(ids(drop_missing(&entries, &vec![false, true])), vec!["b"]);
    assert!(drop_missing(&entries, &vec![]).is_empty());
    assert!(drop_missing(&vec![], &vec![true]).is_empty());
}
