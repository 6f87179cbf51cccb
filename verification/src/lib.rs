//! Credential layer of an OAuth2 / OpenID Connect authorization server:
//! registered client records, the delimited-string codec for their
//! enumerated configuration fields, the authorization-request validator,
//! and the secret-rotation protocol.

use vstd::prelude::*;

pub mod fields;
pub mod models;
pub mod oidc;
pub mod registry;
pub mod rest;
pub mod trusted;

verus! {

/// A delimiter splits serialized field lists apart; form input uses a comma,
/// storage rows use a space.
pub const FORM_DELIMITER: char = ',';

/// The delimiter used when a field list is written to or read from storage.
pub const STORAGE_DELIMITER: char = ' ';

} // verus!
