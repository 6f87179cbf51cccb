//! The request-handling surface: payload types and the handler cores that
//! the HTTP layer calls with plain values.

use vstd::prelude::*;

use crate::fields::GrantType;
use crate::fields::Tagged;
use crate::fields::ResponseType;
use crate::fields::ScopeValue;
use crate::fields::spec_parse_pieces;
use crate::models::Client;
use crate::models::ClientBuilder;
use crate::models::SaveError;
use crate::registry::ClientRegistry;

pub mod clients;
pub mod rotate_secret;

pub use rotate_secret::rotate_client_secret;

verus! {

/// The body of a creation request as it arrives: raw tag strings, not yet
/// validated against the closed sets.
pub struct CreateClientPayload {
    pub name: String,
    pub description: Option<String>,
    pub redirect_uris: Vec<String>,
    pub grant_types: Vec<String>,
    pub response_types: Vec<String>,
    pub scope: Vec<String>,
}

/// Validates a raw creation payload and creates the client. Validation
/// fails atomically before any store access, naming the field type and the
/// first element outside its closed set. On an empty store with ids left,
/// a payload whose lists all validate is always created.
pub fn create_client(registry: &mut ClientRegistry, payload: CreateClientPayload) -> (r: Result<
    Client,
    SaveError,
>)
    requires
        old(registry).wf(),
    ensures
        final(registry).wf(),
        (old(registry)@.len() == 0 && old(registry).spec_next_id() < u64::MAX
            && spec_parse_pieces::<GrantType>(payload.grant_types.deep_view()) is Ok
            && spec_parse_pieces::<ResponseType>(payload.response_types.deep_view()) is Ok
            && spec_parse_pieces::<ScopeValue>(payload.scope.deep_view()) is Ok) ==> r is Ok,
        match r {
            Ok(c) => {
                &&& spec_parse_pieces::<GrantType>(payload.grant_types.deep_view()) == Ok::<
                    Seq<GrantType>,
                    Seq<char>,
                >(c@.grant_types)
                &&& spec_parse_pieces::<ResponseType>(payload.response_types.deep_view()) == Ok::<
                    Seq<ResponseType>,
                    Seq<char>,
                >(c@.response_types)
                &&& spec_parse_pieces::<ScopeValue>(payload.scope.deep_view()) == Ok::<
                    Seq<ScopeValue>,
                    Seq<char>,
                >(c@.scope)
                &&& c@.redirect_uris == payload.redirect_uris.deep_view()
                &&& c@.name == payload.name@
                &&& c@.description == (match payload.description {
                    Some(d) => Some(d@),
                    None => None::<Seq<char>>,
                })
                &&& final(registry)@ == old(registry)@.push(c@)
                &&& !old(registry).contains_identity(c@.uuid)
                &&& !old(registry).contains_secret(c@.secret)
                &&& c@.uuid.len() == 36
                &&& crate::trusted::uuid_canonical(c@.uuid) == Some(c@.uuid)
                &&& c@.id == old(registry).spec_next_id()
                &&& c@.created_at == c@.updated_at
                &&& exists|b: Seq<u8>|
                    b.len() == 64 && c@.secret == crate::trusted::b64_url_encoded(b)
            },
            Err(SaveError::Invalid(e)) => {
                &&& final(registry)@ == old(registry)@
                &&& {
                    ||| (spec_parse_pieces::<GrantType>(payload.grant_types.deep_view()) == Err::<
                        Seq<GrantType>,
                        Seq<char>,
                    >(e.value@) && e.field@ == crate::fields::GrantType::kind_name())
                    ||| (spec_parse_pieces::<GrantType>(payload.grant_types.deep_view()) is Ok
                        && spec_parse_pieces::<ResponseType>(payload.response_types.deep_view())
                        == Err::<Seq<ResponseType>, Seq<char>>(e.value@) && e.field@
                        == crate::fields::ResponseType::kind_name())
                    ||| (spec_parse_pieces::<GrantType>(payload.grant_types.deep_view()) is Ok
                        && spec_parse_pieces::<ResponseType>(payload.response_types.deep_view())
                        is Ok && spec_parse_pieces::<ScopeValue>(payload.scope.deep_view())
                        == Err::<Seq<ScopeValue>, Seq<char>>(e.value@) && e.field@
                        == crate::fields::ScopeValue::kind_name())
                }
            },
            Err(SaveError::Storage(e)) => {
                &&& final(registry)@ == old(registry)@
                &&& ((e == crate::registry::StorageError::IdsExhausted && old(registry).spec_next_id() == u64::MAX) || (e == crate::registry::StorageError::Conflict
                    && old(registry).spec_next_id() < u64::MAX && old(registry)@.len() > 0))
            },
        },
{
    let builder = ClientBuilder::new().name(payload.name).description(payload.description)
        .redirect_uris(payload.redirect_uris)
        .grant_types(payload.grant_types)
        .response_types(payload.response_types)
        .scope(payload.scope);
    builder.save(registry)
}

} // verus!
