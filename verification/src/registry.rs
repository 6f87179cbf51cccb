//! The client registry: the store of registered clients, keyed by numeric
//! id with the identity as unique secondary key.

use vstd::prelude::*;

use crate::fields::GrantTypes;
use crate::fields::RedirectUris;
use crate::fields::ResponseTypes;
use crate::fields::Scope;
use crate::fields::str_eq;
use crate::fields::views_of;
use crate::models::Client;
use crate::models::ClientView;
use crate::models::spec_redact;
use crate::trusted::b64_url_encoded;
use crate::trusted::fresh_identity;
use crate::trusted::now_epoch_seconds;
use crate::trusted::uuid_canonical;

verus! {

/// A fault of the persistence layer.
#[derive(Clone, Copy, Debug, PartialEq, Eq, Structural)]
pub enum StorageError {
    /// No stored row matches the requested identity.
    RecordNotFound,
    /// The id space is exhausted; no further row can be inserted.
    IdsExhausted,
    /// A freshly generated value collided with a stored one, as a unique
    /// index would report; the caller may retry.
    Conflict,
}

impl StorageError {
    /// A human-readable description.
    pub fn message(&self) -> (r: String)
        ensures
            (match self {
                StorageError::RecordNotFound => r@ == "Client not found"@,
                StorageError::IdsExhausted => r@ == "Id space exhausted"@,
                StorageError::Conflict => r@ == "Generated value collided"@,
            }),
    {
        match self {
            StorageError::RecordNotFound => String::from_str("Client not found"),
            StorageError::IdsExhausted => String::from_str("Id space exhausted"),
            StorageError::Conflict => String::from_str("Generated value collided"),
        }
    }
}

/// Equality of two strings that scans every character position with no
/// early exit on a mismatch, as a bearer-credential comparison should.
fn secret_eq(a: &str, b: &str) -> (r: bool)
    ensures
        r == (a@ == b@),
{
    let n = a.unicode_len();
    let m = b.unicode_len();
    if n != m {
        return false;
    }
    let mut same = true;
    let mut i: usize = 0;
    while i < n
        invariant
            n == a@.len(),
            n == b@.len(),
            i <= n,
            same == (forall|k: int| 0 <= k < i ==> a@[k] == b@[k]),
        decreases n - i,
    {
        let ca = a.get_char(i);
        let cb = b.get_char(i);
        if ca != cb {
            same = false;
        }
        i = i + 1;
    }
    proof {
        if same {
            assert(a@ =~= b@);
        }
    }
    same
}

/// The store of registered clients. Identity and secret of a new client
/// are generated server-side; reads hand out redacted copies.
pub struct ClientRegistry {
    clients: Vec<Client>,
    next_id: u64,
}

impl View for ClientRegistry {
    type V = Seq<ClientView>;

    closed spec fn view(&self) -> Seq<ClientView> {
        views_of(self.clients@)
    }
}

impl ClientRegistry {
    /// The id the next created client will carry.
    pub closed spec fn spec_next_id(self) -> u64 {
        self.next_id
    }

    /// Well-formedness: identities are unique, and every stored id is
    /// below the next id to be assigned.
    pub open spec fn wf(self) -> bool {
        &&& forall|i: int, j: int|
            0 <= i < j < self@.len() ==> (#[trigger] self@[i]).uuid != (#[trigger] self@[j]).uuid
        &&& forall|i: int| 0 <= i < self@.len() ==> (#[trigger] self@[i]).id < self.spec_next_id()
    }

    /// Some stored client carries this identity.
    pub open spec fn contains_identity(self, uuid: Seq<char>) -> bool {
        exists|i: int| 0 <= i < self@.len() && (#[trigger] self@[i]).uuid == uuid
    }

    /// Some stored client carries exactly this identity and this secret.
    pub open spec fn credentials_match(self, uuid: Seq<char>, secret: Seq<char>) -> bool {
        exists|i: int|
            0 <= i < self@.len() && (#[trigger] self@[i]).uuid == uuid && self@[i].secret == secret
    }

    /// Some stored client carries this secret.
    pub open spec fn contains_secret(self, secret: Seq<char>) -> bool {
        exists|i: int| 0 <= i < self@.len() && (#[trigger] self@[i]).secret == secret
    }

    /// An empty registry.
    pub fn new() -> (r: Self)
        ensures
            r@ == Seq::<ClientView>::empty(),
            r.wf(),
            r.spec_next_id() == 1,
    {
        let r = ClientRegistry { clients: Vec::new(), next_id: 1 };
        proof {
            assert(r@ =~= Seq::<ClientView>::empty());
        }
        r
    }

    /// The index of the client with this identity, if any.
    fn index_of(&self, uuid: &str) -> (r: Option<usize>)
        ensures
            (match r {
                Some(i) => i < self@.len() && self@[i as int].uuid == uuid@,
                None => !self.contains_identity(uuid@),
            }),
    {
        let n = self.clients.len();
        let mut i: usize = 0;
        while i < n
            invariant
                n == self.clients@.len(),
                i <= n,
                forall|k: int| 0 <= k < i ==> (#[trigger] self@[k]).uuid != uuid@,
            decreases n - i,
        {
            if str_eq((&self.clients[i]).uuid(), uuid) {
                return Some(i);
            }
            i = i + 1;
        }
        None
    }

    /// Whether a stored client carries this identity.
    fn has_identity(&self, uuid: &str) -> (r: bool)
        ensures
            r == self.contains_identity(uuid@),
    {
        match self.index_of(uuid) {
            Some(_) => true,
            None => false,
        }
    }

    /// Whether a stored client carries this secret.
    fn has_secret(&self, secret: &str) -> (r: bool)
        ensures
            r == self.contains_secret(secret@),
    {
        let n = self.clients.len();
        let mut i: usize = 0;
        while i < n
            invariant
                n == self.clients@.len(),
                i <= n,
                forall|k: int| 0 <= k < i ==> (#[trigger] self@[k]).secret != secret@,
            decreases n - i,
        {
            if secret_eq((&self.clients[i]).secret(), secret) {
                proof {
                    assert(self@[i as int].secret == secret@);
                }
                return true;
            }
            i = i + 1;
        }
        false
    }

    /// All clients, in storage order, secrets redacted.
    pub fn list(&self) -> (r: Vec<Client>)
        ensures
            r@.len() == self@.len(),
            forall|i: int| 0 <= i < self@.len() ==> (#[trigger] r@[i])@ == spec_redact(self@[i]),
    {
        let n = self.clients.len();
        let mut out: Vec<Client> = Vec::new();
        let mut i: usize = 0;
        while i < n
            invariant
                n == self.clients@.len(),
                i <= n,
                out@.len() == i,
                forall|k: int| 0 <= k < i ==> (#[trigger] out@[k])@ == spec_redact(self@[k]),
            decreases n - i,
        {
            out.push((&self.clients[i]).redacted());
            i = i + 1;
        }
        out
    }

    /// Looks a client up by identity; `None` when no client carries it.
    /// The returned copy is redacted.
    pub fn find_by_identity(&self, uuid: &str) -> (r: Option<Client>)
        ensures
            (match r {
                Some(c) => exists|i: int|
                    0 <= i < self@.len() && (#[trigger] self@[i]).uuid == uuid@ && c@ == spec_redact(
                        self@[i],
                    ),
                None => !self.contains_identity(uuid@),
            }),
    {
        match self.index_of(uuid) {
            Some(i) => Some((&self.clients[i]).redacted()),
            None => None,
        }
    }

    /// The credential check: exact match on identity and secret together,
    /// `None` on any mismatch without telling which of the two failed. The
    /// secret comparison scans every character with no early exit. The
    /// returned copy is redacted.
    pub fn find_by_identity_and_secret(&self, uuid: &str, secret: &str) -> (r: Option<Client>)
        requires
            self.wf(),
        ensures
            (match r {
                Some(c) => self.credentials_match(uuid@, secret@) && exists|i: int|
                    0 <= i < self@.len() && (#[trigger] self@[i]).uuid == uuid@ && self@[i].secret
                        == secret@ && c@ == spec_redact(self@[i]),
                None => !self.credentials_match(uuid@, secret@),
            }),
    {
        match self.index_of(uuid) {
            Some(i) => {
                if secret_eq((&self.clients[i]).secret(), secret) {
                    Some((&self.clients[i]).redacted())
                } else {
                    proof {
                        assert forall|j: int|
                            0 <= j < self@.len() implies !((#[trigger] self@[j]).uuid == uuid@
                            && self@[j].secret == secret@) by {
                            if self@[j].uuid == uuid@ {
                                assert(j == i);
                            }
                        }
                    }
                    None
                }
            },
            None => None,
        }
    }

    /// Creates a client. The identity is a freshly generated canonical
    /// UUID and the secret is generated from 64 random bytes, each fresh
    /// against every stored client; id and timestamps are assigned by the
    /// store, and the creation and update times start equal. Fails when
    /// the id space is exhausted, or — with collision probability treated
    /// as zero, and only against a nonempty store — when a generated
    /// value is already stored, as a unique index would report. On an
    /// empty store with ids left, creation always succeeds.
    pub fn create(
        &mut self,
        name: String,
        description: Option<String>,
        redirect_uris: RedirectUris,
        grant_types: GrantTypes,
        response_types: ResponseTypes,
        scope: Scope,
    ) -> (r: Result<Client, StorageError>)
        requires
            old(self).wf(),
        ensures
            final(self).wf(),
            (old(self)@.len() == 0 && old(self).spec_next_id() < u64::MAX) ==> r is Ok,
            match r {
                Ok(c) => {
                    &&& final(self)@ == old(self)@.push(c@)
                    &&& final(self).spec_next_id() == old(self).spec_next_id() + 1
                    &&& !old(self).contains_identity(c@.uuid)
                    &&& !old(self).contains_secret(c@.secret)
                    &&& c@.uuid.len() == 36
                    &&& uuid_canonical(c@.uuid) == Some(c@.uuid)
                    &&& c@.id == old(self).spec_next_id()
                    &&& c@.name == name@
                    &&& c@.description == (match description {
                        Some(d) => Some(d@),
                        None => None::<Seq<char>>,
                    })
                    &&& c@.redirect_uris == redirect_uris@
                    &&& c@.grant_types == grant_types@
                    &&& c@.response_types == response_types@
                    &&& c@.scope == scope@
                    &&& c@.created_at == c@.updated_at
                    &&& exists|b: Seq<u8>| b.len() == 64 && c@.secret == b64_url_encoded(b)
                },
                Err(e) => {
                    &&& final(self)@ == old(self)@
                    &&& final(self).spec_next_id() == old(self).spec_next_id()
                    &&& ((e == StorageError::IdsExhausted && old(self).spec_next_id() == u64::MAX)
                        || (e == StorageError::Conflict && old(self).spec_next_id() < u64::MAX
                        && old(self)@.len() > 0))
                },
            },
    {
        if self.next_id == u64::MAX {
            return Err(StorageError::IdsExhausted);
        }
        let uuid = fresh_identity();
        if self.has_identity(uuid.as_str()) {
            return Err(StorageError::Conflict);
        }
        let secret = crate::rest::clients::generate_secret(64);
        if self.has_secret(secret.as_str()) {
            return Err(StorageError::Conflict);
        }
        let now = now_epoch_seconds();
        let client = Client::assemble(
            self.next_id,
            now,
            now,
            uuid,
            name,
            description,
            secret,
            redirect_uris,
            grant_types,
            response_types,
            scope,
        );
        let result = client.duplicate();
        let ghost prev = self@;
        let ghost cv = client@;
        self.clients.push(client);
        self.next_id = self.next_id + 1;
        proof {
            assert(self@ =~= prev.push(cv));
        }
        Ok(result)
    }

    /// Overwrites the stored secret of the client with this identity;
    /// nothing else changes, and no authorization is checked here. Fails
    /// exactly when no client carries the identity.
    pub fn update_secret(&mut self, uuid: &str, new_secret: &str) -> (r: Result<(), StorageError>)
        requires
            old(self).wf(),
        ensures
            final(self).wf(),
            final(self).spec_next_id() == old(self).spec_next_id(),
            r is Ok <==> old(self).contains_identity(uuid@),
            match r {
                Ok(_) => exists|i: int|
                    0 <= i < old(self)@.len() && (#[trigger] old(self)@[i]).uuid == uuid@ && final(self)@ == old(self)@.update(
                        i,
                        ClientView { secret: new_secret@, ..old(self)@[i] },
                    ),
                Err(e) => {
                    &&& e == StorageError::RecordNotFound
                    &&& !old(self).contains_identity(uuid@)
                    &&& final(self)@ == old(self)@
                },
            },
    {
        match self.index_of(uuid) {
            Some(i) => {
                let ghost prev = self@;
                let stored = self.clients.remove(i);
                let updated = stored.with_secret(new_secret.to_owned());
                let ghost uv = updated@;
                self.clients.insert(i, updated);
                proof {
                    assert(self@ =~= prev.update(
                        i as int,
                        ClientView { secret: new_secret@, ..prev[i as int] },
                    ));
                }
                Ok(())
            },
            None => Err(StorageError::RecordNotFound),
        }
    }

    /// Overwrites the mutable attributes — name, description and the four
    /// lists — of the client with this identity; id, identity, secret and
    /// timestamps stay as they are. Fails exactly when no client carries
    /// the identity.
    pub fn update_fields(
        &mut self,
        uuid: &str,
        name: String,
        description: Option<String>,
        redirect_uris: RedirectUris,
        grant_types: GrantTypes,
        response_types: ResponseTypes,
        scope: Scope,
    ) -> (r: Result<(), StorageError>)
        requires
            old(self).wf(),
        ensures
            final(self).wf(),
            final(self).spec_next_id() == old(self).spec_next_id(),
            r is Ok <==> old(self).contains_identity(uuid@),
            match r {
                Ok(_) => exists|i: int|
                    0 <= i < old(self)@.len() && (#[trigger] old(self)@[i]).uuid == uuid@
                        && final(self)@ == old(self)@.update(
                        i,
                        ClientView {
                            name: name@,
                            description: match description {
                                Some(d) => Some(d@),
                                None => None,
                            },
                            redirect_uris: redirect_uris@,
                            grant_types: grant_types@,
                            response_types: response_types@,
                            scope: scope@,
                            ..old(self)@[i]
                        },
                    ),
                Err(e) => {
                    &&& e == StorageError::RecordNotFound
                    &&& !old(self).contains_identity(uuid@)
                    &&& final(self)@ == old(self)@
                },
            },
    {
        match self.index_of(uuid) {
            Some(i) => {
                let ghost prev = self@;
                let stored = self.clients.remove(i);
                let updated = stored.with_fields(
                    name,
                    description,
                    redirect_uris,
                    grant_types,
                    response_types,
                    scope,
                );
                let ghost uv = updated@;
                self.clients.insert(i, updated);
                proof {
                    assert(self@ =~= prev.update(i as int, uv));
                }
                Ok(())
            },
            None => Err(StorageError::RecordNotFound),
        }
    }

    /// Replaces the stored secret of the client with this identity by a
    /// freshly generated one, checked to differ from the one it replaces.
    /// Fails when no client carries the identity, or — with collision
    /// probability treated as zero — when the generated secret equals the
    /// stored one.
    pub fn rotate_secret(&mut self, uuid: &str) -> (r: Result<String, StorageError>)
        requires
            old(self).wf(),
        ensures
            final(self).wf(),
            final(self).spec_next_id() == old(self).spec_next_id(),
            match r {
                Ok(new_secret) => {
                    &&& old(self).contains_identity(uuid@)
                    &&& exists|i: int|
                        0 <= i < old(self)@.len() && (#[trigger] old(self)@[i]).uuid == uuid@
                            && new_secret@ != old(self)@[i].secret && final(self)@ == old(self)@.update(i, ClientView { secret: new_secret@, ..old(self)@[i] })
                    &&& exists|b: Seq<u8>| b.len() == 64 && new_secret@ == b64_url_encoded(b)
                },
                Err(e) => {
                    &&& final(self)@ == old(self)@
                    &&& ((e == StorageError::RecordNotFound && !old(self).contains_identity(uuid@))
                        || (e == StorageError::Conflict && old(self).contains_identity(uuid@)))
                    &&& e == StorageError::Conflict ==> exists|i: int|
                        0 <= i < old(self)@.len() && (#[trigger] old(self)@[i]).uuid == uuid@
                            && exists|b: Seq<u8>|
                            b.len() == 64 && old(self)@[i].secret == #[trigger] b64_url_encoded(b)
                },
            },
    {
        let i = match self.index_of(uuid) {
            Some(i) => i,
            None => {
                return Err(StorageError::RecordNotFound);
            },
        };
        let new_secret = crate::rest::clients::generate_secret(64);
        if secret_eq(new_secret.as_str(), (&self.clients[i]).secret()) {
            return Err(StorageError::Conflict);
        }
        match self.update_secret(uuid, new_secret.as_str()) {
            Ok(_) => Ok(new_secret),
            Err(_) => {
                proof {
                    assert(false);
                }
                Err(StorageError::RecordNotFound)
            },
        }
    }
}

/// Distinctness of created identities: each creation returns an identity
/// fresh against everything stored before it, so two successive creations
/// — with any attributes, identical ones included — yield two distinct
/// identities. `stored` is the store before the first creation, `first`
/// and `second` the two created records in order.
pub proof fn lemma_created_identities_distinct(
    stored: Seq<ClientView>,
    first: ClientView,
    second: ClientView,
)
    requires
        forall|i: int|
            0 <= i < stored.push(first).len() ==> (#[trigger] stored.push(first)[i]).uuid
                != second.uuid,
    ensures
        first.uuid != second.uuid,
{
    assert(stored.push(first)[stored.len() as int] == first);
}

/// Distinctness of created secrets: each creation returns a secret fresh
/// against everything stored before it, so two successive creations —
/// with any attributes, identical ones included — yield two distinct
/// secrets. `stored` is the store before the first creation, `first` and
/// `second` the two created records in order.
pub proof fn lemma_created_secrets_distinct(
    stored: Seq<ClientView>,
    first: ClientView,
    second: ClientView,
)
    requires
        forall|i: int|
            0 <= i < stored.push(first).len() ==> (#[trigger] stored.push(first)[i]).secret
                != second.secret,
    ensures
        first.secret != second.secret,
{
    assert(stored.push(first)[stored.len() as int] == first);
}

} // verus!
