//! The codes that open a permission error on the wire.

use vstd::prelude::*;

verus! {

/// The user lacks the permission that the operation asks for.
pub const ACCESS_DENIED: &'static str = "ERR_ACCESS_DENIED";

/// The document does not exist.
pub const DOC_NOT_FOUND: &'static str = "ERR_DOC_NOT_FOUND";

/// The session is not authenticated.
pub const NOT_AUTHENTICATED: &'static str = "ERR_NOT_AUTHENTICATED";

/// The user may not delete the document.
pub const DELETE_FORBIDDEN: &'static str = "ERR_DELETE_FORBIDDEN";

/// The user may not edit the document.
pub const EDIT_FORBIDDEN: &'static str = "ERR_EDIT_FORBIDDEN";

/// The user may not view the document.
pub const VIEW_FORBIDDEN: &'static str = "ERR_VIEW_FORBIDDEN";

} // verus!
