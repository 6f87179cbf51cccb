//! The client-management surface: listing, creation and the errors it
//! reports; the secret-rotation handler lives in its own module.

use vstd::prelude::*;

use crate::fields::GrantTypes;
use crate::fields::RedirectUris;
use crate::fields::ResponseTypes;
use crate::fields::Scope;
use crate::models::Client;
use crate::models::spec_redact;
use crate::registry::ClientRegistry;
use crate::registry::StorageError;
use crate::trusted::b64_url_encoded;
use crate::trusted::b64_url_nopad_encode;
use crate::trusted::uuid_canonical;
use crate::trusted::random_bytes;

verus! {

/// A failure of a client-management operation.
#[derive(Clone, Copy, Debug, PartialEq, Eq, Structural)]
pub enum ClientError {
    /// A storage fault, surfaced opaquely.
    Db(StorageError),
    /// The caller is not allowed to perform the operation.
    NotAuthorized,
}

impl ClientError {
    /// The uniform "not found"-shaped failure: authentication and
    /// authorization failures all surface as this one value, so a caller
    /// cannot tell a missing client from a wrong secret or a foreign
    /// target.
    pub fn not_found() -> (r: Self)
        ensures
            r == ClientError::Db(StorageError::RecordNotFound),
    {
        ClientError::Db(StorageError::RecordNotFound)
    }

    /// A human-readable description.
    pub fn message(&self) -> (r: String)
        ensures
            (match self {
                ClientError::Db(_) => r@ == "Database error"@,
                ClientError::NotAuthorized => r@ == "Not authorized"@,
            }),
    {
        match self {
            ClientError::Db(_) => String::from_str("Database error"),
            ClientError::NotAuthorized => String::from_str("Not authorized"),
        }
    }
}

/// The body of a creation request, with every list already validated
/// against its closed set.
pub struct CreateClientPayload {
    pub name: String,
    pub description: Option<String>,
    pub redirect_uris: RedirectUris,
    pub grant_types: GrantTypes,
    pub response_types: ResponseTypes,
    pub scope: Scope,
}

/// Generates a fresh secret: `size` random bytes from a cryptographically
/// secure source, encoded URL-safe without padding.
pub fn generate_secret(size: usize) -> (r: String)
    ensures
        exists|b: Seq<u8>| b.len() == size && r@ == b64_url_encoded(b),
{
    let bytes = random_bytes(size);
    let ghost b = bytes@;
    let encoded = b64_url_nopad_encode(&bytes);
    proof {
        assert(b.len() == size && encoded@ == b64_url_encoded(b));
    }
    encoded
}

/// Lists every registered client, secrets redacted.
pub fn get_clients(registry: &ClientRegistry) -> (r: Vec<Client>)
    ensures
        r@.len() == registry@.len(),
        forall|i: int| 0 <= i < registry@.len() ==> (#[trigger] r@[i])@ == spec_redact(registry@[i]),
{
    registry.list()
}

/// Creates a client from an already validated payload; the full record,
/// secret included, goes back to the caller exactly once.
pub fn create_client(registry: &mut ClientRegistry, payload: CreateClientPayload) -> (r: Result<
    Client,
    ClientError,
>)
    requires
        old(registry).wf(),
    ensures
        final(registry).wf(),
        (old(registry)@.len() == 0 && old(registry).spec_next_id() < u64::MAX) ==> r is Ok,
        match r {
            Ok(c) => {
                &&& final(registry)@ == old(registry)@.push(c@)
                &&& !old(registry).contains_identity(c@.uuid)
                &&& !old(registry).contains_secret(c@.secret)
                &&& c@.uuid.len() == 36
                &&& uuid_canonical(c@.uuid) == Some(c@.uuid)
                &&& c@.id == old(registry).spec_next_id()
                &&& c@.name == payload.name@
                &&& c@.description == (match payload.description {
                    Some(d) => Some(d@),
                    None => None::<Seq<char>>,
                })
                &&& c@.redirect_uris == payload.redirect_uris@
                &&& c@.grant_types == payload.grant_types@
                &&& c@.response_types == payload.response_types@
                &&& c@.scope == payload.scope@
                &&& c@.created_at == c@.updated_at
                &&& exists|b: Seq<u8>| b.len() == 64 && c@.secret == b64_url_encoded(b)
            },
            Err(e) => {
                &&& final(registry)@ == old(registry)@
                &&& (match e {
                    ClientError::Db(se) => (se == StorageError::IdsExhausted && old(registry).spec_next_id() == u64::MAX) || (se == StorageError::Conflict && old(registry).spec_next_id() < u64::MAX && old(registry)@.len() > 0),
                    ClientError::NotAuthorized => false,
                })
            },
        },
{
    match registry.create(
        payload.name,
        payload.description,
        payload.redirect_uris,
        payload.grant_types,
        payload.response_types,
        payload.scope,
    ) {
        Ok(c) => Ok(c),
        Err(e) => Err(ClientError::Db(e)),
    }
}

} // verus!
