//! Host-side collaboration server for shared team documents: credentials,
//! session tokens, the document index, permissions, the wire framing and the
//! per-connection message handling, with the behaviour of each stated as a
//! contract.

pub mod auth;
pub mod clock;
pub mod commands;
pub mod json;
pub mod keyed;
pub mod server;
pub mod text;
