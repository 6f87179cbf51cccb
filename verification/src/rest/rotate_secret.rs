//! The secret-rotation protocol: Basic-credential extraction, the
//! capability check gating mutation, and the rotation handler itself.

use vstd::prelude::*;

use crate::fields::find_char;
use crate::fields::lemma_find_char;
use crate::fields::spec_find_char;
use crate::fields::str_eq;
use crate::models::ClientView;
use crate::registry::ClientRegistry;
use crate::registry::StorageError;
use crate::rest::clients::ClientError;
use crate::trusted::b64_standard_decoded;
use crate::trusted::b64_url_encoded;
use crate::trusted::uuid_canonical;
use vstd::utf8::decode_utf8;
use vstd::utf8::valid_utf8;

verus! {

/// What extracting Basic credentials from an `Authorization` header
/// yields: the scheme token before the first space must be exactly
/// `Basic`, the rest must decode as base64 to valid UTF-8, and the decoded
/// text splits at its first colon into claimed identity and claimed
/// secret. `None` rejects the header.
pub open spec fn spec_parse_basic_auth(h: Seq<char>) -> Option<(Seq<char>, Seq<char>)> {
    match spec_find_char(h, ' ') {
        None => None,
        Some(sp) => {
            if h.take(sp) != "Basic"@ {
                None
            } else {
                match b64_standard_decoded(h.skip(sp + 1)) {
                    None => None,
                    Some(bytes) => {
                        if !valid_utf8(bytes) {
                            None
                        } else {
                            match spec_find_char(decode_utf8(bytes), ':') {
                                None => None,
                                Some(col) => Some(
                                    (
                                        decode_utf8(bytes).take(col),
                                        decode_utf8(bytes).skip(col + 1),
                                    ),
                                ),
                            }
                        }
                    },
                }
            }
        },
    }
}

/// Extracts the claimed identity and secret from a Basic `Authorization`
/// header, exactly as `spec_parse_basic_auth` describes; rejects anything
/// else.
pub fn parse_basic_auth(header: &str) -> (r: Option<(String, String)>)
    ensures
        match r {
            Some(p) => spec_parse_basic_auth(header@) == Some((p.0@, p.1@)),
            None => spec_parse_basic_auth(header@) is None,
        },
{
    let n = header.unicode_len();
    let sp = match find_char(header, ' ') {
        Some(i) => i,
        None => {
            return None;
        },
    };
    proof {
        lemma_find_char(header@, ' ');
    }
    let scheme = header.substring_char(0, sp);
    proof {
        assert(scheme@ =~= header@.take(sp as int));
    }
    if !str_eq(scheme, "Basic") {
        return None;
    }
    let payload = header.substring_char(sp + 1, n);
    proof {
        assert(payload@ =~= header@.skip(sp + 1));
    }
    let bytes = match crate::trusted::b64_standard_decode(payload) {
        Some(b) => b,
        None => {
            return None;
        },
    };
    let creds = match crate::trusted::utf8_to_string(bytes) {
        Some(s) => s,
        None => {
            return None;
        },
    };
    let m = creds.as_str().unicode_len();
    let col = match find_char(creds.as_str(), ':') {
        Some(i) => i,
        None => {
            return None;
        },
    };
    proof {
        lemma_find_char(creds@, ':');
    }
    let username = creds.as_str().substring_char(0, col).to_owned();
    let password = creds.as_str().substring_char(col + 1, m).to_owned();
    proof {
        assert(username@ =~= creds@.take(col as int));
        assert(password@ =~= creds@.skip(col + 1));
    }
    Some((username, password))
}

/// Failure to extract Basic credentials: the request is rejected before
/// any registry access.
#[derive(Clone, Copy, Debug, PartialEq, Eq, Structural)]
pub enum AuthError {
    MalformedCredentials,
}

/// The authenticated principal of a rotation request.
pub enum SecretRotator {
    /// A client acting on itself, claiming an identity and its secret.
    ClientSelf { uuid: String, secret: String },
}

impl SecretRotator {
    /// The claimed identity, in canonical form.
    pub open spec fn claimed_uuid(self) -> Seq<char> {
        match self {
            SecretRotator::ClientSelf { uuid, .. } => uuid@,
        }
    }

    /// The claimed secret.
    pub open spec fn claimed_secret(self) -> Seq<char> {
        match self {
            SecretRotator::ClientSelf { secret, .. } => secret@,
        }
    }

    /// What credential extraction yields for a header: parsed Basic
    /// credentials whose claimed identity is a UUID, canonicalized.
    pub open spec fn spec_creds(h: Seq<char>) -> Option<(Seq<char>, Seq<char>)> {
        match spec_parse_basic_auth(h) {
            None => None,
            Some(creds) => match uuid_canonical(creds.0) {
                None => None,
                Some(canon) => Some((canon, creds.1)),
            },
        }
    }

    /// Builds the rotator from a request's `Authorization` header. Any
    /// failure — missing header, wrong scheme, bad base64, bad UTF-8,
    /// missing colon, claimed identity not a UUID — is the one
    /// malformed-credentials error, and no registry access has happened.
    pub fn from_basic_header(header: Option<&str>) -> (r: Result<SecretRotator, AuthError>)
        ensures
            match header {
                Some(h) => match r {
                    Ok(rot) => Self::spec_creds(h@) == Some(
                        (rot.claimed_uuid(), rot.claimed_secret()),
                    ),
                    Err(e) => e == AuthError::MalformedCredentials && Self::spec_creds(h@) is None,
                },
                None => r == Err::<SecretRotator, AuthError>(AuthError::MalformedCredentials),
            },
    {
        let h = match header {
            Some(h) => h,
            None => {
                return Err(AuthError::MalformedCredentials);
            },
        };
        let parsed = match parse_basic_auth(h) {
            Some(p) => p,
            None => {
                return Err(AuthError::MalformedCredentials);
            },
        };
        let canon = match crate::trusted::uuid_canonicalize(parsed.0.as_str()) {
            Some(c) => c,
            None => {
                return Err(AuthError::MalformedCredentials);
            },
        };
        Ok(SecretRotator::ClientSelf { uuid: canon, secret: parsed.1 })
    }

    /// The caller may rotate exactly the secret of the identity it
    /// authenticated as.
    pub open spec fn spec_may_access(self, registry: ClientRegistry, target: Seq<char>) -> bool {
        registry.credentials_match(self.claimed_uuid(), self.claimed_secret())
            && self.claimed_uuid() == target
    }

    /// Checks the claimed credentials against the registry, and that the
    /// claimed identity is the target identity.
    fn may_access(&self, registry: &ClientRegistry, uuid: &str) -> (r: bool)
        requires
            registry.wf(),
        ensures
            r == self.spec_may_access(*registry, uuid@),
    {
        match self {
            SecretRotator::ClientSelf { uuid: rotator_uuid, secret } => {
                let credentials_valid = registry.find_by_identity_and_secret(
                    rotator_uuid.as_str(),
                    secret.as_str(),
                ).is_some();
                credentials_valid && str_eq(rotator_uuid.as_str(), uuid)
            },
        }
    }

    /// Rotates the secret of client `uuid`, if and only if the claimed
    /// credentials match a stored client and that client is `uuid` itself
    /// (or fails, with collision probability treated as zero, when the
    /// generated secret equals the old one). On success the new secret is
    /// stored and returned, it differs from the old one, and the old
    /// credential pair no longer authenticates. Every authentication or
    /// authorization failure is the same "not found"-shaped error: a
    /// missing client, a wrong secret and a foreign target are
    /// indistinguishable to the caller.
    pub fn rotate(&self, registry: &mut ClientRegistry, uuid: &str) -> (r: Result<
        String,
        ClientError,
    >)
        requires
            old(registry).wf(),
        ensures
            final(registry).wf(),
            match r {
                Ok(new_secret) => {
                    &&& self.spec_may_access(*old(registry), uuid@)
                    &&& exists|i: int|
                        0 <= i < old(registry)@.len() && (#[trigger] old(registry)@[i]).uuid
                            == uuid@ && new_secret@ != old(registry)@[i].secret && final(registry)@
                            == old(registry)@.update(
                            i,
                            ClientView { secret: new_secret@, ..old(registry)@[i] },
                        )
                    &&& !final(registry).credentials_match(
                        self.claimed_uuid(),
                        self.claimed_secret(),
                    )
                    &&& exists|b: Seq<u8>| b.len() == 64 && new_secret@ == b64_url_encoded(b)
                },
                Err(e) => {
                    &&& final(registry)@ == old(registry)@
                    &&& ((e == ClientError::Db(StorageError::RecordNotFound)
                        && !self.spec_may_access(*old(registry), uuid@)) || (e == ClientError::Db(
                        StorageError::Conflict,
                    ) && self.spec_may_access(*old(registry), uuid@)))
                    &&& e == ClientError::Db(StorageError::Conflict) ==> exists|i: int|
                        0 <= i < old(registry)@.len() && (#[trigger] old(registry)@[i]).uuid
                            == uuid@ && exists|b: Seq<u8>|
                            b.len() == 64 && old(registry)@[i].secret == #[trigger] b64_url_encoded(
                                b,
                            )
                },
            },
    {
        if !(self.may_access(registry, uuid)) {
            return Err(ClientError::not_found());
        }
        match registry.rotate_secret(uuid) {
            Ok(new_secret) => {
                proof {
                    let oldr = *old(registry);
                    let i = choose|i: int|
                        0 <= i < oldr@.len() && (#[trigger] oldr@[i]).uuid == uuid@ && new_secret@
                            != oldr@[i].secret && registry@ == oldr@.update(
                            i,
                            ClientView { secret: new_secret@, ..oldr@[i] },
                        );
                    let j = choose|j: int|
                        0 <= j < oldr@.len() && (#[trigger] oldr@[j]).uuid == self.claimed_uuid()
                            && oldr@[j].secret == self.claimed_secret();
                    assert(j == i);
                    assert forall|k: int|
                        0 <= k < registry@.len() implies !((#[trigger] registry@[k]).uuid
                        == self.claimed_uuid() && registry@[k].secret == self.claimed_secret()) by {
                        if k == i {
                            assert(registry@[k].secret == new_secret@);
                        } else {
                            assert(registry@[k] == oldr@[k]);
                        }
                    }
                }
                Ok(new_secret)
            },
            Err(e) => {
                match e {
                    StorageError::RecordNotFound => {
                        proof {
                            assert(false);
                        }
                        Err(ClientError::NotAuthorized)
                    },
                    _ => Err(ClientError::Db(e)),
                }
            },
        }
    }
}

/// A rotation request's failure: malformed credentials, rejected before
/// any registry access, or a client-layer failure.
#[derive(Clone, Copy, Debug, PartialEq, Eq, Structural)]
pub enum RotateError {
    MalformedCredentials,
    Client(ClientError),
}

/// Handles a rotation request: extracts Basic credentials from the
/// `Authorization` header, requires the target identity to be a UUID, and
/// rotates only when the authenticated client targets itself. A malformed
/// header is rejected with the registry untouched; an unknown target, a
/// wrong secret and a foreign target all surface as the same "not
/// found"-shaped error.
pub fn rotate_client_secret(
    registry: &mut ClientRegistry,
    authorization: Option<&str>,
    uuid: &str,
) -> (r: Result<String, RotateError>)
    requires
        old(registry).wf(),
    ensures
        final(registry).wf(),
        match (match authorization {
            Some(h) => SecretRotator::spec_creds(h@),
            None => None::<(Seq<char>, Seq<char>)>,
        }) {
            None => r == Err::<String, RotateError>(RotateError::MalformedCredentials) && final(registry)@ == old(registry)@,
            Some(creds) => match uuid_canonical(uuid@) {
                None => r == Err::<String, RotateError>(
                    RotateError::Client(ClientError::Db(StorageError::RecordNotFound)),
                ) && final(registry)@ == old(registry)@,
                Some(target) => match r {
                    Ok(new_secret) => {
                        &&& old(registry).credentials_match(creds.0, creds.1) && creds.0 == target
                        &&& exists|i: int|
                            0 <= i < old(registry)@.len() && (#[trigger] old(registry)@[i]).uuid
                                == target && new_secret@ != old(registry)@[i].secret && final(registry)@ == old(registry)@.update(
                                i,
                                ClientView { secret: new_secret@, ..old(registry)@[i] },
                            )
                        &&& !final(registry).credentials_match(creds.0, creds.1)
                    },
                    Err(RotateError::Client(e)) => {
                        &&& final(registry)@ == old(registry)@
                        &&& ((e == ClientError::Db(StorageError::RecordNotFound) && !(old(registry).credentials_match(creds.0, creds.1) && creds.0 == target)) || (e
                            == ClientError::Db(StorageError::Conflict) && old(registry).credentials_match(creds.0, creds.1) && creds.0 == target))
                        &&& e == ClientError::Db(StorageError::Conflict) ==> exists|i: int|
                            0 <= i < old(registry)@.len() && (#[trigger] old(registry)@[i]).uuid
                                == target && exists|b: Seq<u8>|
                                b.len() == 64 && old(registry)@[i].secret
                                    == #[trigger] b64_url_encoded(b)
                    },
                    Err(RotateError::MalformedCredentials) => false,
                },
            },
        },
{
    let rotator = match SecretRotator::from_basic_header(authorization) {
        Ok(x) => x,
        Err(_) => {
            return Err(RotateError::MalformedCredentials);
        },
    };
    let target = match crate::trusted::uuid_canonicalize(uuid) {
        Some(t) => t,
        None => {
            return Err(RotateError::Client(ClientError::not_found()));
        },
    };
    match rotator.rotate(registry, target.as_str()) {
        Ok(s) => Ok(s),
        Err(e) => Err(RotateError::Client(e)),
    }
}

} // verus!
