//! Who may do what with a document.
//!
//! There are three levels of access besides none: a viewer reads, an editor
//! reads and writes, an owner also deletes and decides who the document is
//! shared with. The owner named in the metadata has the owner's level; so has
//! every administrator, on every document; everybody else has what the share
//! list grants.

pub mod error_codes;

use vstd::prelude::*;
use vstd::string::*;
use crate::server::documents::{
    shares_view, DocumentMetadata, DocumentMetadataView, DocumentShare, DocumentShareView,
    DocumentStore,
};
use crate::text::{concat_str, str_eq};

verus! {

/// A level of access to a document, from the least to the most.
#[derive(Debug, Clone, Copy, PartialEq, Eq, PartialOrd, Ord, Structural)]
pub enum Permission {
    /// No access.
    NoAccess,
    /// May read.
    Viewer,
    /// May read and write.
    Editor,
    /// May read, write, delete, share and hand over.
    Owner,
}

/// The level that a permission's name stands for: `owner`, `edit` or
/// `editor`, `view`; no access for every other name.
pub open spec fn permission_named(name: Seq<char>) -> Permission {
    if name == "owner"@ {
        Permission::Owner
    } else if name == "edit"@ || name == "editor"@ {
        Permission::Editor
    } else if name == "view"@ {
        Permission::Viewer
    } else {
        Permission::NoAccess
    }
}

impl Permission {
    /// The place of a level in the order of levels.
    pub open spec fn level(self) -> nat {
        match self {
            Permission::NoAccess => 0,
            Permission::Viewer => 1,
            Permission::Editor => 2,
            Permission::Owner => 3,
        }
    }

    /// Whether this level is at least `required`.
    pub open spec fn allows(self, required: Permission) -> bool {
        self.level() >= required.level()
    }

    /// The place of a level in the order of levels.
    pub fn rank(&self) -> (r: u8)
        ensures
            r == self.level(),
    {
        match self {
            Permission::NoAccess => 0,
            Permission::Viewer => 1,
            Permission::Editor => 2,
            Permission::Owner => 3,
        }
    }

    /// Whether this level is at least `required`.
    pub fn at_least(&self, required: Permission) -> (r: bool)
        ensures
            r == self.allows(required),
    {
        self.rank() >= required.rank()
    }

    /// The level that a name stands for.
    pub fn from_str(s: &str) -> (r: Self)
        ensures
            r == permission_named(s@),
    {
        if str_eq(s, "owner") {
            Permission::Owner
        } else if str_eq(s, "edit") || str_eq(s, "editor") {
            Permission::Editor
        } else if str_eq(s, "view") {
            Permission::Viewer
        } else {
            Permission::NoAccess
        }
    }

    /// The name under which a level is stored stands for that level.
    pub proof fn law_name_round_trip(self)
        ensures
            permission_named(self.name()) == self,
    {
        reveal_strlit("owner");
        reveal_strlit("edit");
        reveal_strlit("editor");
        reveal_strlit("view");
        reveal_strlit("none");
        assert("owner"@[0] == 'o' && "edit"@[0] == 'e' && "view"@[0] == 'v' && "none"@[0] == 'n');
        assert("editor"@.len() == 6 && "edit"@.len() == 4);
    }

    /// The name under which a level is stored.
    pub fn as_str(&self) -> (r: &'static str)
        ensures
            r@ == self.name(),
    {
        match self {
            Permission::Owner => "owner",
            Permission::Editor => "edit",
            Permission::Viewer => "view",
            Permission::NoAccess => "none",
        }
    }

    /// The name under which a level is stored.
    pub open spec fn name(self) -> Seq<char> {
        match self {
            Permission::Owner => "owner"@,
            Permission::Editor => "edit"@,
            Permission::Viewer => "view"@,
            Permission::NoAccess => "none"@,
        }
    }

    /// Whether this level allows reading.
    pub fn can_read(&self) -> (r: bool)
        ensures
            r == self.allows(Permission::Viewer),
    {
        self.rank() >= 1
    }

    /// Whether this level allows writing.
    pub fn can_write(&self) -> (r: bool)
        ensures
            r == self.allows(Permission::Editor),
    {
        self.rank() >= 2
    }

    /// Whether this level allows deleting.
    pub fn can_delete(&self) -> (r: bool)
        ensures
            r == self.allows(Permission::Owner),
    {
        self.rank() >= 3
    }

    /// Whether this level allows changing who the document is shared with.
    pub fn can_manage_shares(&self) -> (r: bool)
        ensures
            r == self.allows(Permission::Owner),
    {
        self.rank() >= 3
    }
}

/// Why a request was not allowed.
#[derive(Debug, Clone, Copy, PartialEq, Eq, Structural)]
pub enum PermissionError {
    /// The user's level is below the level required.
    AccessDenied { required: Permission, actual: Permission },
    /// The index has no such document.
    DocumentNotFound,
    /// The session has no user.
    NotAuthenticated,
}

impl PermissionError {
    /// The error in words.
    pub open spec fn text(self) -> Seq<char> {
        match self {
            PermissionError::AccessDenied { required, actual } => "Access denied: requires "@
                + required.name() + " permission, user has "@ + actual.name(),
            PermissionError::DocumentNotFound => "Document not found"@,
            PermissionError::NotAuthenticated => "Authentication required"@,
        }
    }

    /// The code that opens the error on the wire.
    pub open spec fn code(self) -> Seq<char> {
        match self {
            PermissionError::AccessDenied { required, actual } => match required {
                Permission::Owner => "ERR_DELETE_FORBIDDEN"@,
                Permission::Editor => "ERR_EDIT_FORBIDDEN"@,
                Permission::Viewer => "ERR_VIEW_FORBIDDEN"@,
                Permission::NoAccess => "ERR_ACCESS_DENIED"@,
            },
            PermissionError::DocumentNotFound => "ERR_DOC_NOT_FOUND"@,
            PermissionError::NotAuthenticated => "ERR_NOT_AUTHENTICATED"@,
        }
    }

    /// The error in words.
    pub fn message(&self) -> (r: String)
        ensures
            r@ == self.text(),
    {
        match self {
            PermissionError::AccessDenied { required, actual } => {
                let mut r = concat_str("Access denied: requires ", required.as_str());
                r.append(" permission, user has ");
                r.append(actual.as_str());
                r
            },
            PermissionError::DocumentNotFound => "Document not found".to_owned(),
            PermissionError::NotAuthenticated => "Authentication required".to_owned(),
        }
    }
}

/// The characters of an optional borrowed text.
pub open spec fn opt_str_view(o: Option<&str>) -> Option<Seq<char>> {
    match o {
        Some(s) => Some(s@),
        None => None,
    }
}

/// What a share list grants a user: the level named by the first entry that
/// belongs to the user, and nothing where there is none.
pub open spec fn share_permission(shares: Seq<DocumentShareView>, user_id: Seq<char>) -> Permission
    decreases shares.len(),
{
    if shares.len() == 0 {
        Permission::NoAccess
    } else if shares[0].user_id == user_id {
        permission_named(shares[0].permission)
    } else {
        share_permission(shares.drop_first(), user_id)
    }
}

/// The level of access that a user has to a document: the owner's for the
/// owner and for an administrator, else what the share list grants.
pub open spec fn effective_permission(
    metadata: DocumentMetadataView,
    user_id: Seq<char>,
    user_role: Option<Seq<char>>,
) -> Permission {
    if metadata.owner_id == Some(user_id) {
        Permission::Owner
    } else if user_role == Some("admin"@) {
        Permission::Owner
    } else {
        match metadata.shared_with {
            Some(shares) => share_permission(shares, user_id),
            None => Permission::NoAccess,
        }
    }
}

/// The outcome of asking whether a user may act on a document at the level
/// `required`.
pub open spec fn permission_check(
    index: Map<Seq<char>, DocumentMetadataView>,
    doc_id: Seq<char>,
    user_id: Option<Seq<char>>,
    user_role: Option<Seq<char>>,
    required: Permission,
) -> Result<Permission, PermissionError> {
    if user_id is None || user_id->0.len() == 0 {
        Err(PermissionError::NotAuthenticated)
    } else if !index.contains_key(doc_id) {
        Err(PermissionError::DocumentNotFound)
    } else {
        let actual = effective_permission(index[doc_id], user_id->0, user_role);
        if actual.allows(required) {
            Ok(actual)
        } else {
            Err(PermissionError::AccessDenied { required, actual })
        }
    }
}

fn granted_by_shares(shares: &Vec<DocumentShare>, user_id: &str) -> (r: Permission)
    ensures
        r == share_permission(shares_view(shares@), user_id@),
{
    let ghost all = shares_view(shares@);
    let mut i: usize = 0;
    assert(all.skip(0) =~= all);
    while i < shares.len()
        invariant
            i <= shares.len(),
            all == shares_view(shares@),
            share_permission(all, user_id@) == share_permission(all.skip(i as int), user_id@),
        decreases shares.len() - i,
    {
        assert(all.skip(i as int)[0] == all[i as int]);
        assert(all.skip(i as int).drop_first() =~= all.skip(i + 1));
        if str_eq(shares[i].user_id.as_str(), user_id) {
            return Permission::from_str(shares[i].permission.as_str());
        }
        i += 1;
    }
    Permission::NoAccess
}

/// The level of access that a user has to a document.
pub fn get_user_permission(
    metadata: &DocumentMetadata,
    user_id: &str,
    user_role: Option<&str>,
) -> (r: Permission)
    ensures
        r == effective_permission(metadata@, user_id@, opt_str_view(user_role)),
{
    if let Some(owner_id) = &metadata.owner_id {
        if str_eq(owner_id.as_str(), user_id) {
            return Permission::Owner;
        }
    }
    if let Some(role) = user_role {
        if str_eq(role, "admin") {
            return Permission::Owner;
        }
    }
    match &metadata.shared_with {
        Some(shares) => granted_by_shares(shares, user_id),
        None => Permission::NoAccess,
    }
}

/// Asks whether a user may act on a document at the level `required`, and
/// returns the user's level if so.
pub fn check_permission(
    doc_store: &DocumentStore,
    doc_id: &str,
    user_id: Option<&str>,
    user_role: Option<&str>,
    required: Permission,
) -> (r: Result<Permission, PermissionError>)
    requires
        doc_store.wf(),
    ensures
        r == permission_check(
            doc_store@,
            doc_id@,
            opt_str_view(user_id),
            opt_str_view(user_role),
            required,
        ),
{
    let user_id = match user_id {
        Some(id) => id,
        None => {
            return Err(PermissionError::NotAuthenticated);
        },
    };
    if user_id.is_empty() {
        return Err(PermissionError::NotAuthenticated);
    }
    let metadata = match doc_store.get_metadata(doc_id) {
        Some(m) => m,
        None => {
            return Err(PermissionError::DocumentNotFound);
        },
    };
    let actual = get_user_permission(&metadata, user_id, user_role);
    if actual.at_least(required) {
        Ok(actual)
    } else {
        Err(PermissionError::AccessDenied { required, actual })
    }
}

/// Asks whether a user may read a document.
pub fn check_read_permission(
    doc_store: &DocumentStore,
    doc_id: &str,
    user_id: Option<&str>,
    user_role: Option<&str>,
) -> (r: Result<Permission, PermissionError>)
    requires
        doc_store.wf(),
    ensures
        r == permission_check(
            doc_store@,
            doc_id@,
            opt_str_view(user_id),
            opt_str_view(user_role),
            Permission::Viewer,
        ),
{
    check_permission(doc_store, doc_id, user_id, user_role, Permission::Viewer)
}

/// Asks whether a user may write a document.
pub fn check_write_permission(
    doc_store: &DocumentStore,
    doc_id: &str,
    user_id: Option<&str>,
    user_role: Option<&str>,
) -> (r: Result<Permission, PermissionError>)
    requires
        doc_store.wf(),
    ensures
        r == permission_check(
            doc_store@,
            doc_id@,
            opt_str_view(user_id),
            opt_str_view(user_role),
            Permission::Editor,
        ),
{
    check_permission(doc_store, doc_id, user_id, user_role, Permission::Editor)
}

/// Asks whether a user may delete a document.
pub fn check_delete_permission(
    doc_store: &DocumentStore,
    doc_id: &str,
    user_id: Option<&str>,
    user_role: Option<&str>,
) -> (r: Result<Permission, PermissionError>)
    requires
        doc_store.wf(),
    ensures
        r == permission_check(
            doc_store@,
            doc_id@,
            opt_str_view(user_id),
            opt_str_view(user_role),
            Permission::Owner,
        ),
{
    check_permission(doc_store, doc_id, user_id, user_role, Permission::Owner)
}

/// The error as it goes over the wire: its code, a colon, and the error in
/// words.
pub fn to_error_string(err: &PermissionError) -> (r: String)
    ensures
        r@ == err.code() + ": "@ + err.text(),
{
    let code = match err {
        PermissionError::AccessDenied { required, actual } => match required {
            Permission::Owner => error_codes::DELETE_FORBIDDEN,
            Permission::Editor => error_codes::EDIT_FORBIDDEN,
            Permission::Viewer => error_codes::VIEW_FORBIDDEN,
            Permission::NoAccess => error_codes::ACCESS_DENIED,
        },
        PermissionError::DocumentNotFound => error_codes::DOC_NOT_FOUND,
        PermissionError::NotAuthenticated => error_codes::NOT_AUTHENTICATED,
    };
    let mut r = concat_str(code, ": ");
    r.append(err.message().as_str());
    r
}

/// The owner of a document has the owner's level, whatever the role and
/// whatever the share list says.
pub proof fn law_owner_has_owner_level(
    metadata: DocumentMetadataView,
    user_role: Option<Seq<char>>,
)
    requires
        metadata.owner_id is Some,
    ensures
        effective_permission(metadata, metadata.owner_id->0, user_role) == Permission::Owner,
{
}

/// An administrator has the owner's level on every document, shared or not.
pub proof fn law_admin_has_owner_level(metadata: DocumentMetadataView, user_id: Seq<char>)
    ensures
        effective_permission(metadata, user_id, Some("admin"@)) == Permission::Owner,
        effective_permission(metadata, user_id, Some("admin"@)).allows(Permission::Viewer),
        effective_permission(metadata, user_id, Some("admin"@)).allows(Permission::Editor),
        effective_permission(metadata, user_id, Some("admin"@)).allows(Permission::Owner),
{
}

} // verus!
