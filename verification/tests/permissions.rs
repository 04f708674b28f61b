use diagrammer::server::documents::{DocumentMetadata, DocumentShare, DocumentStore};
use diagrammer::server::permissions::{
    check_delete_permission, check_permission, check_read_permission, check_write_permission,
    error_codes, get_user_permission, to_error_string, Permission, PermissionError,
};

fn make_metadata(owner_id: &str, shares: Vec<(&str, &str)>) -> DocumentMetadata {
    DocumentMetadata {
        id: "doc-1".to_string(),
        name: "Test".to_string(),
        page_count: 1,
        modified_at: 0,
        created_at: 0,
        is_team_document: Some(true),
        locked_by: None,
        locked_by_name: None,
        locked_at: None,
        owner_id: Some(owner_id.to_string()),
        owner_name: Some("Owner".to_string()),
        shared_with: if shares.is_empty() {
            None
        } else {
            Some(
                shares
                    .into_iter()
                    .map(|(user_id, permission)| DocumentShare {
                        user_id: user_id.to_string(),
                        user_name: "User".to_string(),
                        permission: permission.to_string(),
                        shared_at: 0,
                    })
                    .collect(),
            )
        },
        last_modified_by: None,
        last_modified_by_name: None,
    }
}

#[test]
fn test_owner_permission() {
    let metadata = make_metadata("user-1", vec![]);
    assert_eq!(
        get_user_permission(&metadata, "user-1", None),
        Permission::Owner
    );
}

#[test]
fn test_admin_has_owner_permission() {
    let metadata = make_metadata("user-1", vec![]);
    assert_eq!(
        get_user_permission(&metadata, "user-2", Some("admin")),
        Permission::Owner
    );
}

#[test]
fn test_admin_can_manage_any_document() {
    let metadata = make_metadata("user-1", vec![]);
    let permission = get_user_permission(&metadata, "admin-user", Some("admin"));

    assert!(permission.can_read());
    assert!(permission.can_write());
    assert!(permission.can_delete());
    assert!(permission.can_manage_shares());
}

#[test]
fn test_owner_takes_precedence_over_share() {
    let metadata = make_metadata("user-1", vec![("user-1", "view")]);
    assert_eq!(
        get_user_permission(&metadata, "user-1", None),
        Permission::Owner
    );
}

#[test]
fn test_explicit_share() {
    let metadata = make_metadata("user-1", vec![("user-2", "edit"), ("user-3", "view")]);
    assert_eq!(
        get_user_permission(&metadata, "user-2", None),
        Permission::Editor
    );
    assert_eq!(
        get_user_permission(&metadata, "user-3", None),
        Permission::Viewer
    );
}

#[test]
fn test_no_access() {
    let metadata = make_metadata("user-1", vec![]);
    assert_eq!(
        get_user_permission(&metadata, "user-2", None),
        Permission::NoAccess
    );
}

#[test]
fn test_no_access_with_user_role() {
    let metadata = make_metadata("user-1", vec![]);
    assert_eq!(
        get_user_permission(&metadata, "user-2", Some("user")),
        Permission::NoAccess
    );
}

#[test]
fn test_permission_ordering() {
    assert!(Permission::Owner > Permission::Editor);
    assert!(Permission::Editor > Permission::Viewer);
    assert!(Permission::Viewer > Permission::NoAccess);
}

#[test]
fn test_permission_capabilities() {
    assert!(Permission::Owner.can_read());
    assert!(Permission::Owner.can_write());
    assert!(Permission::Owner.can_delete());
    assert!(Permission::Owner.can_manage_shares());

    assert!(Permission::Editor.can_read());
    assert!(Permission::Editor.can_write());
    assert!(!Permission::Editor.can_delete());
    assert!(!Permission::Editor.can_manage_shares());

    assert!(Permission::Viewer.can_read());
    assert!(!Permission::Viewer.can_write());
    assert!(!Permission::Viewer.can_delete());
    assert!(!Permission::Viewer.can_manage_shares());

    assert!(!Permission::NoAccess.can_read());
    assert!(!Permission::NoAccess.can_write());
    assert!(!Permission::NoAccess.can_delete());
    assert!(!Permission::NoAccess.can_manage_shares());
}

#[test]
fn test_permission_from_str() {
    assert_eq!(Permission::from_str("owner"), Permission::Owner);
    assert_eq!(Permission::from_str("edit"), Permission::Editor);
    assert_eq!(Permission::from_str("editor"), Permission::Editor);
    assert_eq!(Permission::from_str("view"), Permission::Viewer);
    assert_eq!(Permission::from_str("viewer"), Permission::NoAccess);
    assert_eq!(Permission::from_str("invalid"), Permission::NoAccess);
    assert_eq!(Permission::from_str(""), Permission::NoAccess);
}

#[test]
fn test_permission_as_str() {
    assert_eq!(Permission::Owner.as_str(), "owner");
    assert_eq!(Permission::Editor.as_str(), "edit");
    assert_eq!(Permission::Viewer.as_str(), "view");
    assert_eq!(Permission::NoAccess.as_str(), "none");
}

#[test]
fn permission_names_are_taken_literally() {
    assert_eq!(Permission::from_str("OWNER"), Permission::NoAccess);
    assert_eq!(Permission::from_str("Edit"), Permission::NoAccess);
    assert_eq!(Permission::from_str("EDIT"), Permission::NoAccess);
    assert_eq!(Permission::from_str(" view"), Permission::NoAccess);
    assert_eq!(Permission::from_str("none"), Permission::NoAccess);
}

#[test]
fn stored_names_stand_for_their_levels() {
    for level in [
        Permission::NoAccess,
        Permission::Viewer,
        Permission::Editor,
        Permission::Owner,
    ] {
        assert_eq!(Permission::from_str(level.as_str()), level);
    }
}

#[test]
fn ranks_follow_the_order_of_levels() {
    assert_eq!(Permission::NoAccess.rank(), 0);
    assert_eq!(Permission::Viewer.rank(), 1);
    assert_eq!(Permission::Editor.rank(), 2);
    assert_eq!(Permission::Owner.rank(), 3);
    assert!(Permission::Editor.at_least(Permission::Viewer));
    assert!(Permission::Editor.at_least(Permission::Editor));
    assert!(!Permission::Editor.at_least(Permission::Owner));
}

#[test]
fn first_matching_share_decides() {
    let metadata = make_metadata("user-1", vec![("user-2", "view"), ("user-2", "edit")]);
    assert_eq!(
        get_user_permission(&metadata, "user-2", None),
        Permission::Viewer
    );
    let odd = make_metadata("user-1", vec![("user-2", "write"), ("user-3", "owner")]);
    assert_eq!(get_user_permission(&odd, "user-2", None), Permission::NoAccess);
    assert_eq!(get_user_permission(&odd, "user-3", None), Permission::Owner);
}

#[test]
fn owner_is_owner_whatever_the_role() {
    let metadata = make_metadata("user-1", vec![("user-1", "none")]);
    for role in [None, Some("user"), Some("admin"), Some("other")] {
        assert_eq!(
            get_user_permission(&metadata, "user-1", role),
            Permission::Owner
        );
    }
}

fn store_with(metadata: DocumentMetadata) -> DocumentStore {
    let mut store = DocumentStore::new();
    store.commit(metadata);
    store
}

#[test]
fn check_permission_reports_each_error() {
    let store = store_with(make_metadata("user-1", vec![("user-2", "view")]));

    assert_eq!(
        check_permission(&store, "doc-1", None, None, Permission::Viewer),
        Err(PermissionError::NotAuthenticated)
    );
    assert_eq!(
        check_permission(&store, "doc-1", Some(""), Some("admin"), Permission::Viewer),
        Err(PermissionError::NotAuthenticated)
    );
    assert_eq!(
        check_permission(&store, "nope", Some("user-1"), None, Permission::Viewer),
        Err(PermissionError::DocumentNotFound)
    );
    assert_eq!(
        check_permission(&store, "doc-1", Some("user-2"), None, Permission::Editor),
        Err(PermissionError::AccessDenied {
            required: Permission::Editor,
            actual: Permission::Viewer
        })
    );
    assert_eq!(
        check_permission(&store, "doc-1", Some("user-2"), None, Permission::Viewer),
        Ok(Permission::Viewer)
    );
    assert_eq!(
        check_permission(&store, "doc-1", Some("user-1"), None, Permission::Owner),
        Ok(Permission::Owner)
    );
}

#[test]
fn read_write_delete_checks() {
    let store = store_with(make_metadata("user-1", vec![("user-2", "edit")]));
    assert_eq!(
        check_read_permission(&store, "doc-1", Some("user-2"), None),
        Ok(Permission::Editor)
    );
    assert_eq!(
        check_write_permission(&store, "doc-1", Some("user-2"), None),
        Ok(Permission::Editor)
    );
    assert_eq!(
        check_delete_permission(&store, "doc-1", Some("user-2"), None),
        Err(PermissionError::AccessDenied {
            required: Permission::Owner,
            actual: Permission::Editor
        })
    );
    assert_eq!(
        check_delete_permission(&store, "doc-1", Some("user-9"), Some("admin")),
        Ok(Permission::Owner)
    );
    assert_eq!(
        check_read_permission(&store, "doc-1", Some("user-9"), Some("user")),
        Err(PermissionError::AccessDenied {
            required: Permission::Viewer,
            actual: Permission::NoAccess
        })
    );
}

#[test]
fn error_strings_carry_code_and_words() {
    let denied = |required| PermissionError::AccessDenied {
        required,
        actual: Permission::NoAccess,
    };
    assert_eq!(
        to_error_string(&denied(Permission::Owner)),
        "ERR_DELETE_FORBIDDEN: Access denied: requires owner permission, user has none"
    );
    assert_eq!(
        to_error_string(&denied(Permission::Editor)),
        "ERR_EDIT_FORBIDDEN: Access denied: requires edit permission, user has none"
    );
    assert_eq!(
        to_error_string(&denied(Permission::Viewer)),
        "ERR_VIEW_FORBIDDEN: Access denied: requires view permission, user has none"
    );
    assert_eq!(
        to_error_string(&denied(Permission::NoAccess)),
        "ERR_ACCESS_DENIED: Access denied: requires none permission, user has none"
    );
    assert_eq!(
        to_error_string(&PermissionError::DocumentNotFound),
        "ERR_DOC_NOT_FOUND: Document not found"
    );
    assert_eq!(
        to_error_string(&PermissionError::NotAuthenticated),
        "ERR_NOT_AUTHENTICATED: Authentication required"
    );
    assert_eq!(
        PermissionError::AccessDenied {
            required: Permission::Editor,
            actual: Permission::Viewer
        }
        .message(),
        "Access denied: requires edit permission, user has view"
    );
    assert_eq!(error_codes::ACCESS_DENIED, "ERR_ACCESS_DENIED");
    assert_eq!(error_codes::DOC_NOT_FOUND, "ERR_DOC_NOT_FOUND");
    assert_eq!(error_codes::NOT_AUTHENTICATED, "ERR_NOT_AUTHENTICATED");
    assert_eq!(error_codes::DELETE_FORBIDDEN, "ERR_DELETE_FORBIDDEN");
    assert_eq!(error_codes::EDIT_FORBIDDEN, "ERR_EDIT_FORBIDDEN");
    assert_eq!(error_codes::VIEW_FORBIDDEN, "ERR_VIEW_FORBIDDEN");
}
