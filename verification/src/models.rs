//! The domain entity: one registered OAuth client application, and the
//! builder that accumulates the caller-supplied attributes of a new one.

use vstd::prelude::*;

use crate::fields::FieldList;
use crate::fields::FieldParseError;
use crate::fields::GrantType;
use crate::fields::GrantTypes;
use crate::fields::RedirectUris;
use crate::fields::ResponseType;
use crate::fields::ResponseTypes;
use crate::fields::Scope;
use crate::fields::ScopeValue;
use crate::fields::Tagged;
use crate::fields::parse_values;
use crate::fields::spec_parse_pieces;
use crate::registry::ClientRegistry;
use crate::registry::StorageError;
use crate::trusted::b64_url_encoded;
use crate::trusted::uuid_canonical;

verus! {

/// The ghost image of a registered client.
#[verifier::ext_equal]
pub ghost struct ClientView {
    pub id: u64,
    pub created_at: i64,
    pub updated_at: i64,
    pub uuid: Seq<char>,
    pub name: Seq<char>,
    pub description: Option<Seq<char>>,
    pub secret: Seq<char>,
    pub redirect_uris: Seq<Seq<char>>,
    pub grant_types: Seq<GrantType>,
    pub response_types: Seq<ResponseType>,
    pub scope: Seq<ScopeValue>,
}

/// The same client with its secret hidden.
pub open spec fn spec_redact(c: ClientView) -> ClientView {
    ClientView { secret: Seq::<char>::empty(), ..c }
}

/// One registered OAuth client application. The numeric `id`, the external
/// `uuid` identity and the creation time never change after creation; the
/// secret changes only through rotation.
#[derive(Debug, PartialEq, Eq)]
pub struct Client {
    id: u64,
    created_at: i64,
    updated_at: i64,
    uuid: String,
    name: String,
    description: Option<String>,
    secret: String,
    redirect_uris: RedirectUris,
    grant_types: GrantTypes,
    response_types: ResponseTypes,
    scope: Scope,
}

impl View for Client {
    type V = ClientView;

    closed spec fn view(&self) -> ClientView {
        ClientView {
            id: self.id,
            created_at: self.created_at,
            updated_at: self.updated_at,
            uuid: self.uuid@,
            name: self.name@,
            description: match self.description {
                Some(d) => Some(d@),
                None => None,
            },
            secret: self.secret@,
            redirect_uris: self.redirect_uris@,
            grant_types: self.grant_types@,
            response_types: self.response_types@,
            scope: self.scope@,
        }
    }
}

/// An equal copy of an optional string.
fn clone_description(d: &Option<String>) -> (r: Option<String>)
    ensures
        (match r {
            Some(s) => match d {
                Some(x) => s@ == x@,
                None => false,
            },
            None => d is None,
        }),
{
    match d {
        Some(s) => Some(s.clone()),
        None => None,
    }
}

impl Client {
    /// Assembles a client record from its parts.
    pub(crate) fn assemble(
        id: u64,
        created_at: i64,
        updated_at: i64,
        uuid: String,
        name: String,
        description: Option<String>,
        secret: String,
        redirect_uris: RedirectUris,
        grant_types: GrantTypes,
        response_types: ResponseTypes,
        scope: Scope,
    ) -> (c: Client)
        ensures
            c@ == (ClientView {
                id,
                created_at,
                updated_at,
                uuid: uuid@,
                name: name@,
                description: match description {
                    Some(d) => Some(d@),
                    None => None,
                },
                secret: secret@,
                redirect_uris: redirect_uris@,
                grant_types: grant_types@,
                response_types: response_types@,
                scope: scope@,
            }),
    {
        Client {
            id,
            created_at,
            updated_at,
            uuid,
            name,
            description,
            secret,
            redirect_uris,
            grant_types,
            response_types,
            scope,
        }
    }

    /// The external identity.
    pub fn uuid(&self) -> (r: &str)
        ensures
            r@ == self@.uuid,
    {
        self.uuid.as_str()
    }

    /// The human-readable label.
    pub fn name(&self) -> (r: &str)
        ensures
            r@ == self@.name,
    {
        self.name.as_str()
    }

    /// The optional human-readable description.
    pub fn description(&self) -> (r: Option<&str>)
        ensures
            (match r {
                Some(d) => self@.description == Some(d@),
                None => self@.description is None,
            }),
    {
        match &self.description {
            Some(d) => Some(d.as_str()),
            None => None,
        }
    }

    /// The bearer secret as currently held by this record.
    pub fn secret(&self) -> (r: &str)
        ensures
            r@ == self@.secret,
    {
        self.secret.as_str()
    }

    /// The numeric store-assigned id.
    pub fn id(&self) -> (r: u64)
        ensures
            r == self@.id,
    {
        self.id
    }

    /// Creation time, Unix seconds.
    pub fn created_at(&self) -> (r: i64)
        ensures
            r == self@.created_at,
    {
        self.created_at
    }

    /// Last update time, Unix seconds.
    pub fn updated_at(&self) -> (r: i64)
        ensures
            r == self@.updated_at,
    {
        self.updated_at
    }

    /// The registered redirect URIs.
    pub fn redirect_uris(&self) -> (r: &RedirectUris)
        ensures
            r@ == self@.redirect_uris,
    {
        &self.redirect_uris
    }

    /// The allowed grant types.
    pub fn grant_types(&self) -> (r: &GrantTypes)
        ensures
            r@ == self@.grant_types,
    {
        &self.grant_types
    }

    /// The allowed response types.
    pub fn response_types(&self) -> (r: &ResponseTypes)
        ensures
            r@ == self@.response_types,
    {
        &self.response_types
    }

    /// The allowed scope values.
    pub fn scope(&self) -> (r: &Scope)
        ensures
            r@ == self@.scope,
    {
        &self.scope
    }

    /// An equal copy.
    pub fn duplicate(&self) -> (c: Client)
        ensures
            c@ == self@,
    {
        let c = Client {
            id: self.id,
            created_at: self.created_at,
            updated_at: self.updated_at,
            uuid: self.uuid.clone(),
            name: self.name.clone(),
            description: clone_description(&self.description),
            secret: self.secret.clone(),
            redirect_uris: self.redirect_uris.duplicate(),
            grant_types: self.grant_types.duplicate(),
            response_types: self.response_types.duplicate(),
            scope: self.scope.duplicate(),
        };
        proof {
            assert(c@ =~= self@);
        }
        c
    }

    /// A copy with the secret hidden: what listing and lookup return, so
    /// that secrets surface only at creation and rotation time.
    pub fn redacted(&self) -> (c: Client)
        ensures
            c@ == spec_redact(self@),
    {
        let c = Client {
            id: self.id,
            created_at: self.created_at,
            updated_at: self.updated_at,
            uuid: self.uuid.clone(),
            name: self.name.clone(),
            description: clone_description(&self.description),
            secret: String::new(),
            redirect_uris: self.redirect_uris.duplicate(),
            grant_types: self.grant_types.duplicate(),
            response_types: self.response_types.duplicate(),
            scope: self.scope.duplicate(),
        };
        proof {
            assert(c@ =~= spec_redact(self@));
        }
        c
    }

    /// The same record carrying a new secret; everything else unchanged.
    pub(crate) fn with_secret(self, secret: String) -> (c: Client)
        ensures
            c@ == (ClientView { secret: secret@, ..self@ }),
    {
        let c = Client { secret, ..self };
        proof {
            assert(c@ =~= (ClientView { secret: secret@, ..self@ }));
        }
        c
    }

    /// The same record carrying new mutable attributes; id, identity,
    /// secret and timestamps unchanged.
    pub(crate) fn with_fields(
        self,
        name: String,
        description: Option<String>,
        redirect_uris: RedirectUris,
        grant_types: GrantTypes,
        response_types: ResponseTypes,
        scope: Scope,
    ) -> (c: Client)
        ensures
            c@ == (ClientView {
                name: name@,
                description: match description {
                    Some(d) => Some(d@),
                    None => None,
                },
                redirect_uris: redirect_uris@,
                grant_types: grant_types@,
                response_types: response_types@,
                scope: scope@,
                ..self@
            }),
    {
        let c = Client { name, description, redirect_uris, grant_types, response_types, scope, ..self };
        proof {
            assert(c@ =~= (ClientView {
                name: c.name@,
                description: match c.description {
                    Some(d) => Some(d@),
                    None => None,
                },
                redirect_uris: c.redirect_uris@,
                grant_types: c.grant_types@,
                response_types: c.response_types@,
                scope: c.scope@,
                ..self@
            }));
        }
        c
    }
}

/// One stored row of the clients table: every list flattened to a single
/// delimited string — redirect URIs joined by the form delimiter, the
/// closed-set lists by the storage delimiter — as the schema holds them.
#[derive(Clone, Debug, PartialEq, Eq)]
pub struct ClientRow {
    pub id: u64,
    pub created_at: i64,
    pub updated_at: i64,
    pub uuid: String,
    pub name: String,
    pub description: Option<String>,
    pub secret: String,
    pub redirect_uris: String,
    pub grant_types: String,
    pub response_types: String,
    pub scope: String,
}

impl Client {
    /// Flattens the record to its storage row.
    pub fn to_row(&self) -> (r: ClientRow)
        ensures
            r.id == self@.id,
            r.created_at == self@.created_at,
            r.updated_at == self@.updated_at,
            r.uuid@ == self@.uuid,
            r.name@ == self@.name,
            (match r.description {
                Some(d) => self@.description == Some(d@),
                None => self@.description is None,
            }),
            r.secret@ == self@.secret,
            r.redirect_uris@ == crate::fields::spec_serialize_list::<String>(
                self@.redirect_uris,
                crate::FORM_DELIMITER,
            ),
            r.grant_types@ == crate::fields::spec_serialize_list::<GrantType>(
                self@.grant_types,
                crate::STORAGE_DELIMITER,
            ),
            r.response_types@ == crate::fields::spec_serialize_list::<ResponseType>(
                self@.response_types,
                crate::STORAGE_DELIMITER,
            ),
            r.scope@ == crate::fields::spec_serialize_list::<ScopeValue>(
                self@.scope,
                crate::STORAGE_DELIMITER,
            ),
    {
        ClientRow {
            id: self.id,
            created_at: self.created_at,
            updated_at: self.updated_at,
            uuid: self.uuid.clone(),
            name: self.name.clone(),
            description: clone_description(&self.description),
            secret: self.secret.clone(),
            redirect_uris: self.redirect_uris.serialize(crate::FORM_DELIMITER),
            grant_types: self.grant_types.serialize(crate::STORAGE_DELIMITER),
            response_types: self.response_types.serialize(crate::STORAGE_DELIMITER),
            scope: self.scope.serialize(crate::STORAGE_DELIMITER),
        }
    }

    /// Rebuilds a record from its storage row, validating each list
    /// against its closed set; fails atomically, naming the field type and
    /// the first unrecognized tag. Free-form redirect URIs cannot fail.
    pub fn from_row(row: &ClientRow) -> (r: Result<Client, FieldParseError>)
        ensures
            match r {
                Ok(c) => {
                    &&& c@.id == row.id
                    &&& c@.created_at == row.created_at
                    &&& c@.updated_at == row.updated_at
                    &&& c@.uuid == row.uuid@
                    &&& c@.name == row.name@
                    &&& c@.description == (match row.description {
                        Some(d) => Some(d@),
                        None => None::<Seq<char>>,
                    })
                    &&& c@.secret == row.secret@
                    &&& crate::fields::spec_parse_list::<String>(
                        row.redirect_uris@,
                        crate::FORM_DELIMITER,
                    ) == Ok::<Seq<Seq<char>>, Seq<char>>(c@.redirect_uris)
                    &&& crate::fields::spec_parse_list::<GrantType>(
                        row.grant_types@,
                        crate::STORAGE_DELIMITER,
                    ) == Ok::<Seq<GrantType>, Seq<char>>(c@.grant_types)
                    &&& crate::fields::spec_parse_list::<ResponseType>(
                        row.response_types@,
                        crate::STORAGE_DELIMITER,
                    ) == Ok::<Seq<ResponseType>, Seq<char>>(c@.response_types)
                    &&& crate::fields::spec_parse_list::<ScopeValue>(
                        row.scope@,
                        crate::STORAGE_DELIMITER,
                    ) == Ok::<Seq<ScopeValue>, Seq<char>>(c@.scope)
                },
                Err(e) => {
                    ||| (crate::fields::spec_parse_list::<GrantType>(
                        row.grant_types@,
                        crate::STORAGE_DELIMITER,
                    ) == Err::<Seq<GrantType>, Seq<char>>(e.value@) && e.field@
                        == GrantType::kind_name())
                    ||| (crate::fields::spec_parse_list::<GrantType>(
                        row.grant_types@,
                        crate::STORAGE_DELIMITER,
                    ) is Ok && crate::fields::spec_parse_list::<ResponseType>(
                        row.response_types@,
                        crate::STORAGE_DELIMITER,
                    ) == Err::<Seq<ResponseType>, Seq<char>>(e.value@) && e.field@
                        == ResponseType::kind_name())
                    ||| (crate::fields::spec_parse_list::<GrantType>(
                        row.grant_types@,
                        crate::STORAGE_DELIMITER,
                    ) is Ok && crate::fields::spec_parse_list::<ResponseType>(
                        row.response_types@,
                        crate::STORAGE_DELIMITER,
                    ) is Ok && crate::fields::spec_parse_list::<ScopeValue>(
                        row.scope@,
                        crate::STORAGE_DELIMITER,
                    ) == Err::<Seq<ScopeValue>, Seq<char>>(e.value@) && e.field@
                        == ScopeValue::kind_name())
                },
            },
    {
        let grant_types: GrantTypes = match FieldList::<GrantType>::parse(
            row.grant_types.as_str(),
            crate::STORAGE_DELIMITER,
        ) {
            Ok(l) => l,
            Err(e) => {
                return Err(e);
            },
        };
        let response_types: ResponseTypes = match FieldList::<ResponseType>::parse(
            row.response_types.as_str(),
            crate::STORAGE_DELIMITER,
        ) {
            Ok(l) => l,
            Err(e) => {
                return Err(e);
            },
        };
        let scope: Scope = match FieldList::<ScopeValue>::parse(
            row.scope.as_str(),
            crate::STORAGE_DELIMITER,
        ) {
            Ok(l) => l,
            Err(e) => {
                return Err(e);
            },
        };
        let redirect_uris: RedirectUris = match FieldList::<String>::parse(
            row.redirect_uris.as_str(),
            crate::FORM_DELIMITER,
        ) {
            Ok(l) => l,
            Err(e) => {
                proof {
                    if row.redirect_uris@.len() > 0 {
                        crate::fields::lemma_parse_pieces_free(
                            crate::fields::spec_split(
                                row.redirect_uris@,
                                crate::FORM_DELIMITER,
                            ),
                        );
                    }
                    assert(false);
                }
                return Err(e);
            },
        };
        Ok(
            Client {
                id: row.id,
                created_at: row.created_at,
                updated_at: row.updated_at,
                uuid: row.uuid.clone(),
                name: row.name.clone(),
                description: clone_description(&row.description),
                secret: row.secret.clone(),
                redirect_uris,
                grant_types,
                response_types,
                scope,
            },
        )
    }
}

/// The storage round trip, stated over the ghost image: the delimited
/// strings a record's row holds parse back to exactly the record's lists,
/// provided no redirect URI is empty or contains the form delimiter (the
/// closed-set tags satisfy their condition by construction).
pub proof fn lemma_client_row_round_trip(c: ClientView)
    requires
        crate::fields::tags_delimiter_free::<String>(c.redirect_uris, crate::FORM_DELIMITER),
    ensures
        crate::fields::spec_parse_list::<String>(
            crate::fields::spec_serialize_list::<String>(c.redirect_uris, crate::FORM_DELIMITER),
            crate::FORM_DELIMITER,
        ) == Ok::<Seq<Seq<char>>, Seq<char>>(c.redirect_uris),
        crate::fields::spec_parse_list::<GrantType>(
            crate::fields::spec_serialize_list::<GrantType>(
                c.grant_types,
                crate::STORAGE_DELIMITER,
            ),
            crate::STORAGE_DELIMITER,
        ) == Ok::<Seq<GrantType>, Seq<char>>(c.grant_types),
        crate::fields::spec_parse_list::<ResponseType>(
            crate::fields::spec_serialize_list::<ResponseType>(
                c.response_types,
                crate::STORAGE_DELIMITER,
            ),
            crate::STORAGE_DELIMITER,
        ) == Ok::<Seq<ResponseType>, Seq<char>>(c.response_types),
        crate::fields::spec_parse_list::<ScopeValue>(
            crate::fields::spec_serialize_list::<ScopeValue>(c.scope, crate::STORAGE_DELIMITER),
            crate::STORAGE_DELIMITER,
        ) == Ok::<Seq<ScopeValue>, Seq<char>>(c.scope),
{
    crate::fields::lemma_field_list_round_trip::<String>(c.redirect_uris, crate::FORM_DELIMITER);
    crate::fields::lemma_grant_types_round_trip(c.grant_types, crate::STORAGE_DELIMITER);
    crate::fields::lemma_response_types_round_trip(c.response_types, crate::STORAGE_DELIMITER);
    crate::fields::lemma_scope_round_trip(c.scope, crate::STORAGE_DELIMITER);
}

/// Why saving a built client failed: an attribute element outside its
/// closed set, or a storage fault.
#[derive(Clone, Debug, PartialEq, Eq)]
pub enum SaveError {
    Invalid(FieldParseError),
    Storage(StorageError),
}

/// Accumulates the caller-supplied attributes of a client to be created.
/// Identity, secret, id and timestamps are assigned server-side on save.
pub struct ClientBuilder {
    pub name: Option<String>,
    pub description: Option<String>,
    pub redirect_uris: Vec<String>,
    pub grant_types: Vec<String>,
    pub response_types: Vec<String>,
    pub scope: Vec<String>,
}

impl Default for ClientBuilder {
    fn default() -> (r: Self)
        ensures
            r.name is None,
            r.description is None,
            r.redirect_uris@.len() == 0,
            r.grant_types@.len() == 0,
            r.response_types@.len() == 0,
            r.scope@.len() == 0,
    {
        ClientBuilder {
            name: None,
            description: None,
            redirect_uris: Vec::new(),
            grant_types: Vec::new(),
            response_types: Vec::new(),
            scope: Vec::new(),
        }
    }
}

impl ClientBuilder {
    /// The name the saved client will carry: the supplied one, or the
    /// default label.
    pub open spec fn spec_name(self) -> Seq<char> {
        match self.name {
            Some(n) => n@,
            None => "New Client"@,
        }
    }

    /// The description the saved client will carry.
    pub open spec fn spec_description(self) -> Option<Seq<char>> {
        match self.description {
            Some(d) => Some(d@),
            None => None,
        }
    }

    /// The raw attribute lists, by view.
    pub open spec fn spec_redirect_uris(self) -> Seq<Seq<char>> {
        self.redirect_uris.deep_view()
    }

    pub open spec fn spec_grant_types(self) -> Seq<Seq<char>> {
        self.grant_types.deep_view()
    }

    pub open spec fn spec_response_types(self) -> Seq<Seq<char>> {
        self.response_types.deep_view()
    }

    pub open spec fn spec_scope(self) -> Seq<Seq<char>> {
        self.scope.deep_view()
    }

    /// An empty builder.
    pub fn new() -> (r: Self)
        ensures
            r.name is None,
            r.description is None,
            r.redirect_uris@.len() == 0,
            r.grant_types@.len() == 0,
            r.response_types@.len() == 0,
            r.scope@.len() == 0,
    {
        Self::default()
    }

    /// Sets the name.
    pub fn name(self, name: String) -> (r: Self)
        ensures
            r.name == Some(name),
            r.description == self.description,
            r.redirect_uris == self.redirect_uris,
            r.grant_types == self.grant_types,
            r.response_types == self.response_types,
            r.scope == self.scope,
    {
        ClientBuilder { name: Some(name), ..self }
    }

    /// Sets or clears the description.
    pub fn description(self, description: Option<String>) -> (r: Self)
        ensures
            r.description == description,
            r.name == self.name,
            r.redirect_uris == self.redirect_uris,
            r.grant_types == self.grant_types,
            r.response_types == self.response_types,
            r.scope == self.scope,
    {
        ClientBuilder { description, ..self }
    }

    /// Sets the redirect URIs.
    pub fn redirect_uris(self, redirect_uris: Vec<String>) -> (r: Self)
        ensures
            r.redirect_uris == redirect_uris,
            r.name == self.name,
            r.description == self.description,
            r.grant_types == self.grant_types,
            r.response_types == self.response_types,
            r.scope == self.scope,
    {
        ClientBuilder { redirect_uris, ..self }
    }

    /// Sets the grant types, as raw tags.
    pub fn grant_types(self, grant_types: Vec<String>) -> (r: Self)
        ensures
            r.grant_types == grant_types,
            r.name == self.name,
            r.description == self.description,
            r.redirect_uris == self.redirect_uris,
            r.response_types == self.response_types,
            r.scope == self.scope,
    {
        ClientBuilder { grant_types, ..self }
    }

    /// Sets the response types, as raw tags.
    pub fn response_types(self, response_types: Vec<String>) -> (r: Self)
        ensures
            r.response_types == response_types,
            r.name == self.name,
            r.description == self.description,
            r.redirect_uris == self.redirect_uris,
            r.grant_types == self.grant_types,
            r.scope == self.scope,
    {
        ClientBuilder { response_types, ..self }
    }

    /// Sets the scope values, as raw tags.
    pub fn scope(self, scope: Vec<String>) -> (r: Self)
        ensures
            r.scope == scope,
            r.name == self.name,
            r.description == self.description,
            r.redirect_uris == self.redirect_uris,
            r.grant_types == self.grant_types,
            r.response_types == self.response_types,
    {
        ClientBuilder { scope, ..self }
    }

    /// Validates the accumulated attributes against their closed sets and
    /// creates the client through the registry. Validation fails
    /// atomically, before any store access, naming the field type and the
    /// first element that is not a valid tag; the name defaults when
    /// absent.
    pub fn save(self, registry: &mut ClientRegistry) -> (r: Result<Client, SaveError>)
        requires
            old(registry).wf(),
        ensures
            final(registry).wf(),
            (old(registry)@.len() == 0 && old(registry).spec_next_id() < u64::MAX
                && spec_parse_pieces::<GrantType>(self.spec_grant_types()) is Ok
                && spec_parse_pieces::<ResponseType>(self.spec_response_types()) is Ok
                && spec_parse_pieces::<ScopeValue>(self.spec_scope()) is Ok) ==> r is Ok,
            match r {
                Ok(c) => {
                    &&& spec_parse_pieces::<GrantType>(self.spec_grant_types()) == Ok::<
                        Seq<GrantType>,
                        Seq<char>,
                    >(c@.grant_types)
                    &&& spec_parse_pieces::<ResponseType>(self.spec_response_types()) == Ok::<
                        Seq<ResponseType>,
                        Seq<char>,
                    >(c@.response_types)
                    &&& spec_parse_pieces::<ScopeValue>(self.spec_scope()) == Ok::<
                        Seq<ScopeValue>,
                        Seq<char>,
                    >(c@.scope)
                    &&& c@.redirect_uris == self.spec_redirect_uris()
                    &&& c@.name == self.spec_name()
                    &&& c@.description == self.spec_description()
                    &&& final(registry)@ == old(registry)@.push(c@)
                    &&& !old(registry).contains_identity(c@.uuid)
                    &&& !old(registry).contains_secret(c@.secret)
                    &&& c@.uuid.len() == 36
                    &&& uuid_canonical(c@.uuid) == Some(c@.uuid)
                    &&& c@.id == old(registry).spec_next_id()
                    &&& c@.created_at == c@.updated_at
                    &&& exists|b: Seq<u8>| b.len() == 64 && c@.secret == b64_url_encoded(b)
                },
                Err(SaveError::Invalid(e)) => {
                    &&& final(registry)@ == old(registry)@
                    &&& {
                        ||| (spec_parse_pieces::<GrantType>(self.spec_grant_types()) == Err::<
                            Seq<GrantType>,
                            Seq<char>,
                        >(e.value@) && e.field@ == GrantType::kind_name())
                        ||| (spec_parse_pieces::<GrantType>(self.spec_grant_types()) is Ok
                            && spec_parse_pieces::<ResponseType>(self.spec_response_types())
                            == Err::<Seq<ResponseType>, Seq<char>>(e.value@) && e.field@
                            == ResponseType::kind_name())
                        ||| (spec_parse_pieces::<GrantType>(self.spec_grant_types()) is Ok
                            && spec_parse_pieces::<ResponseType>(self.spec_response_types()) is Ok
                            && spec_parse_pieces::<ScopeValue>(self.spec_scope()) == Err::<
                            Seq<ScopeValue>,
                            Seq<char>,
                        >(e.value@) && e.field@ == ScopeValue::kind_name())
                    }
                },
                Err(SaveError::Storage(e)) => {
                    &&& final(registry)@ == old(registry)@
                    &&& ((e == StorageError::IdsExhausted && old(registry).spec_next_id()
                        == u64::MAX) || (e == StorageError::Conflict && old(registry).spec_next_id() < u64::MAX && old(registry)@.len() > 0))
                },
            },
    {
        let grant_types: GrantTypes = match parse_values::<GrantType>(&self.grant_types) {
            Ok(l) => l,
            Err(e) => {
                return Err(SaveError::Invalid(e));
            },
        };
        let response_types: ResponseTypes = match parse_values::<ResponseType>(
            &self.response_types,
        ) {
            Ok(l) => l,
            Err(e) => {
                return Err(SaveError::Invalid(e));
            },
        };
        let scope: Scope = match parse_values::<ScopeValue>(&self.scope) {
            Ok(l) => l,
            Err(e) => {
                return Err(SaveError::Invalid(e));
            },
        };
        let redirect_uris: RedirectUris = FieldList(self.redirect_uris);
        proof {
            assert(redirect_uris@ =~= self.spec_redirect_uris());
        }
        let name: String = match self.name {
            Some(n) => n,
            None => String::from_str("New Client"),
        };
        match registry.create(
            name,
            self.description,
            redirect_uris,
            grant_types,
            response_types,
            scope,
        ) {
            Ok(c) => Ok(c),
            Err(e) => Err(SaveError::Storage(e)),
        }
    }
}

} // verus!
