//! The authorization-request validator: parses and validates the fields of
//! an inbound `/authorize` call against the enumerated-field codec.

use vstd::prelude::*;

use crate::fields::ResponseType;
use crate::fields::Tagged;
use crate::fields::str_eq;
use crate::registry::ClientRegistry;

verus! {

/// How the authorization server should interact with the end user.
#[derive(Clone, Copy, Debug, PartialEq, Eq, Structural)]
pub enum Prompt {
    /// No user interface may be shown; fails unless the user is already
    /// authenticated and has consented.
    NoInteraction,
    /// The user should be prompted for reauthentication.
    Login,
    /// The user should be prompted for consent.
    Consent,
    /// The user should be prompted to select an account.
    SelectAccount,
}

impl View for Prompt {
    type V = Prompt;

    open spec fn view(&self) -> Prompt {
        *self
    }
}

impl Tagged for Prompt {
    open spec fn tag(v: Prompt) -> Seq<char> {
        match v {
            Prompt::NoInteraction => "none"@,
            Prompt::Login => "login"@,
            Prompt::Consent => "consent"@,
            Prompt::SelectAccount => "select_account"@,
        }
    }

    open spec fn kind_name() -> Seq<char> {
        "prompt"@
    }

    open spec fn spec_parse_tag(s: Seq<char>) -> Option<Prompt> {
        if s == "none"@ {
            Some(Prompt::NoInteraction)
        } else if s == "login"@ {
            Some(Prompt::Login)
        } else if s == "consent"@ {
            Some(Prompt::Consent)
        } else if s == "select_account"@ {
            Some(Prompt::SelectAccount)
        } else {
            None
        }
    }

    proof fn lemma_tag_round_trip(v: Prompt) {
        reveal_strlit("none");
        reveal_strlit("login");
        reveal_strlit("consent");
        reveal_strlit("select_account");
        assert("none"@.len() == 4);
        assert("login"@.len() == 5);
        assert("consent"@.len() == 7);
        assert("select_account"@.len() == 14);
        match v {
            Prompt::NoInteraction => assert(Self::spec_parse_tag(Self::tag(v)) == Some(v)),
            Prompt::Login => assert(Self::spec_parse_tag(Self::tag(v)) == Some(v)),
            Prompt::Consent => assert(Self::spec_parse_tag(Self::tag(v)) == Some(v)),
            Prompt::SelectAccount => assert(Self::spec_parse_tag(Self::tag(v)) == Some(v)),
        }
    }

    proof fn lemma_parse_tag_exact(s: Seq<char>) {
    }

    fn serialize_tag(&self) -> (r: String) {
        match self {
            Prompt::NoInteraction => String::from_str("none"),
            Prompt::Login => String::from_str("login"),
            Prompt::Consent => String::from_str("consent"),
            Prompt::SelectAccount => String::from_str("select_account"),
        }
    }

    fn parse_tag(s: &str) -> (r: Option<Prompt>) {
        if str_eq(s, "none") {
            Some(Prompt::NoInteraction)
        } else if str_eq(s, "login") {
            Some(Prompt::Login)
        } else if str_eq(s, "consent") {
            Some(Prompt::Consent)
        } else if str_eq(s, "select_account") {
            Some(Prompt::SelectAccount)
        } else {
            None
        }
    }

    fn kind_name_str() -> (r: String) {
        String::from_str("prompt")
    }

    fn clone_value(&self) -> (r: Self) {
        *self
    }
}

/// The field a validation error names.
#[derive(Clone, Copy, Debug, PartialEq, Eq, Structural)]
pub enum FieldName {
    ResponseType,
    ClientId,
    RedirectUri,
    Scope,
    State,
    Prompt,
    Nonce,
}

/// A rejected authorization request: a required field was absent, or an
/// enumerated field held an unrecognized value (named in the error).
#[derive(Clone, Debug, PartialEq, Eq)]
pub enum ValidationError {
    MissingField(FieldName),
    InvalidEnum(FieldName, String),
}

/// The raw fields of an inbound authorization request, before validation.
pub struct RawAuthorizeRequest {
    pub response_type: Option<String>,
    pub client_id: Option<String>,
    pub redirect_uri: Option<String>,
    pub scope: Option<String>,
    pub state: Option<String>,
    pub prompt: Option<String>,
    pub nonce: Option<String>,
}

/// The ghost image of a validated authorization request.
#[verifier::ext_equal]
pub ghost struct AuthorizePayloadView {
    pub response_type: ResponseType,
    pub client_id: Seq<char>,
    pub redirect_uri: Seq<char>,
    pub scope: Seq<char>,
    pub state: Seq<char>,
    pub prompt: Option<Prompt>,
    pub nonce: Option<Seq<char>>,
}

/// A validated authorization request. Construction goes through
/// `validate` alone, so a value of this type always carries a recognized
/// response type and, when present, a recognized prompt.
#[derive(Debug, PartialEq, Eq)]
pub struct AuthorizePayload {
    response_type: ResponseType,
    client_id: String,
    redirect_uri: String,
    scope: String,
    state: String,
    prompt: Option<Prompt>,
    nonce: Option<String>,
}

impl View for AuthorizePayload {
    type V = AuthorizePayloadView;

    closed spec fn view(&self) -> AuthorizePayloadView {
        AuthorizePayloadView {
            response_type: self.response_type,
            client_id: self.client_id@,
            redirect_uri: self.redirect_uri@,
            scope: self.scope@,
            state: self.state@,
            prompt: self.prompt,
            nonce: match self.nonce {
                Some(n) => Some(n@),
                None => None,
            },
        }
    }
}

impl AuthorizePayload {
    /// The claimed client identity; not checked against the registry here.
    pub fn client_id(&self) -> (r: &str)
        ensures
            r@ == self@.client_id,
    {
        self.client_id.as_str()
    }

    /// The requested response type.
    pub fn response_type(&self) -> (r: &ResponseType)
        ensures
            *r == self@.response_type,
    {
        &self.response_type
    }

    /// The requested redirect URI.
    pub fn redirect_uri(&self) -> (r: &str)
        ensures
            r@ == self@.redirect_uri,
    {
        self.redirect_uri.as_str()
    }

    /// The requested scope, as one raw string.
    pub fn scope(&self) -> (r: &str)
        ensures
            r@ == self@.scope,
    {
        self.scope.as_str()
    }

    /// The opaque state value.
    pub fn state(&self) -> (r: &str)
        ensures
            r@ == self@.state,
    {
        self.state.as_str()
    }

    /// The requested prompt, when present.
    pub fn prompt(&self) -> (r: Option<Prompt>)
        ensures
            r == self@.prompt,
    {
        self.prompt
    }

    /// The nonce, when present.
    pub fn nonce(&self) -> (r: Option<&str>)
        ensures
            (match r {
                Some(n) => self@.nonce == Some(n@),
                None => self@.nonce is None,
            }),
    {
        match &self.nonce {
            Some(n) => Some(n.as_str()),
            None => None,
        }
    }
}

/// What validating a raw request yields: the validated request, or the
/// first failure. Presence of the required fields is checked first, in
/// declaration order; then the response type, then the prompt, against
/// their closed sets. `Err((f, None))` is field `f` absent; `Err((f,
/// Some(v)))` is field `f` holding the unrecognized value `v`.
pub open spec fn spec_validate(raw: RawAuthorizeRequest) -> Result<
    AuthorizePayloadView,
    (FieldName, Option<Seq<char>>),
> {
    match raw.response_type {
        None => Err((FieldName::ResponseType, None)),
        Some(rt_s) => match raw.client_id {
            None => Err((FieldName::ClientId, None)),
            Some(cid) => match raw.redirect_uri {
                None => Err((FieldName::RedirectUri, None)),
                Some(ruri) => match raw.scope {
                    None => Err((FieldName::Scope, None)),
                    Some(sc) => match raw.state {
                        None => Err((FieldName::State, None)),
                        Some(st) => match ResponseType::spec_parse_tag(rt_s@) {
                            None => Err((FieldName::ResponseType, Some(rt_s@))),
                            Some(rt) => match raw.prompt {
                                Some(pr_s) => match Prompt::spec_parse_tag(pr_s@) {
                                    None => Err((FieldName::Prompt, Some(pr_s@))),
                                    Some(pr) => Ok(
                                        AuthorizePayloadView {
                                            response_type: rt,
                                            client_id: cid@,
                                            redirect_uri: ruri@,
                                            scope: sc@,
                                            state: st@,
                                            prompt: Some(pr),
                                            nonce: match raw.nonce {
                                                Some(n) => Some(n@),
                                                None => None,
                                            },
                                        },
                                    ),
                                },
                                None => Ok(
                                    AuthorizePayloadView {
                                        response_type: rt,
                                        client_id: cid@,
                                        redirect_uri: ruri@,
                                        scope: sc@,
                                        state: st@,
                                        prompt: None,
                                        nonce: match raw.nonce {
                                            Some(n) => Some(n@),
                                            None => None,
                                        },
                                    },
                                ),
                            },
                        },
                    },
                },
            },
        },
    }
}

/// Validates a raw authorization request: every required field must be
/// present, and every enumerated field must hold a recognized value. Pure;
/// no registry access. Whether `client_id` names a registered client is
/// not checked here.
pub fn validate(raw: &RawAuthorizeRequest) -> (r: Result<AuthorizePayload, ValidationError>)
    ensures
        match r {
            Ok(p) => spec_validate(*raw) == Ok::<AuthorizePayloadView, (FieldName, Option<Seq<char>>)>(
                p@,
            ),
            Err(ValidationError::MissingField(f)) => spec_validate(*raw) == Err::<
                AuthorizePayloadView,
                (FieldName, Option<Seq<char>>),
            >((f, None)),
            Err(ValidationError::InvalidEnum(f, v)) => spec_validate(*raw) == Err::<
                AuthorizePayloadView,
                (FieldName, Option<Seq<char>>),
            >((f, Some(v@))),
        },
{
    let rt_s: &String = match &raw.response_type {
        Some(s) => s,
        None => {
            return Err(ValidationError::MissingField(FieldName::ResponseType));
        },
    };
    let cid: &String = match &raw.client_id {
        Some(s) => s,
        None => {
            return Err(ValidationError::MissingField(FieldName::ClientId));
        },
    };
    let ruri: &String = match &raw.redirect_uri {
        Some(s) => s,
        None => {
            return Err(ValidationError::MissingField(FieldName::RedirectUri));
        },
    };
    let sc: &String = match &raw.scope {
        Some(s) => s,
        None => {
            return Err(ValidationError::MissingField(FieldName::Scope));
        },
    };
    let st: &String = match &raw.state {
        Some(s) => s,
        None => {
            return Err(ValidationError::MissingField(FieldName::State));
        },
    };
    let response_type = match ResponseType::parse_tag(rt_s.as_str()) {
        Some(rt) => rt,
        None => {
            return Err(ValidationError::InvalidEnum(FieldName::ResponseType, rt_s.clone()));
        },
    };
    let prompt: Option<Prompt> = match &raw.prompt {
        Some(pr_s) => match Prompt::parse_tag(pr_s.as_str()) {
            Some(pr) => Some(pr),
            None => {
                return Err(ValidationError::InvalidEnum(FieldName::Prompt, pr_s.clone()));
            },
        },
        None => None,
    };
    let nonce: Option<String> = match &raw.nonce {
        Some(n) => Some(n.clone()),
        None => None,
    };
    let p = AuthorizePayload {
        response_type,
        client_id: cid.clone(),
        redirect_uri: ruri.clone(),
        scope: sc.clone(),
        state: st.clone(),
        prompt,
        nonce,
    };
    proof {
        match spec_validate(*raw) {
            Ok(pv) => {
                assert(p@ =~= pv);
            },
            Err(_) => {},
        }
    }
    Ok(p)
}

/// The outcome of an authorization request in this core: a field-level
/// rejection, or a `client_id` that names no registered client. Code
/// issuance itself lies beyond this core.
#[derive(Clone, Debug, PartialEq, Eq)]
pub enum AuthorizeError {
    Validation(ValidationError),
    UnknownClient,
}

/// Handles an inbound authorization request as far as this core goes:
/// validates the fields, then requires `client_id` to name a registered
/// client; the validated request is the placeholder success. Whether the
/// redirect URI is registered for that client is left to the issuance
/// flow.
pub fn authorize(registry: &ClientRegistry, raw: &RawAuthorizeRequest) -> (r: Result<
    AuthorizePayload,
    AuthorizeError,
>)
    ensures
        match r {
            Ok(p) => spec_validate(*raw) == Ok::<AuthorizePayloadView, (FieldName, Option<Seq<char>>)>(
                p@,
            ) && registry.contains_identity(p@.client_id),
            Err(AuthorizeError::Validation(ValidationError::MissingField(f))) => spec_validate(
                *raw,
            ) == Err::<AuthorizePayloadView, (FieldName, Option<Seq<char>>)>((f, None)),
            Err(AuthorizeError::Validation(ValidationError::InvalidEnum(f, v))) => spec_validate(
                *raw,
            ) == Err::<AuthorizePayloadView, (FieldName, Option<Seq<char>>)>((f, Some(v@))),
            Err(AuthorizeError::UnknownClient) => match spec_validate(*raw) {
                Ok(pv) => !registry.contains_identity(pv.client_id),
                Err(_) => false,
            },
        },
{
    let p = match validate(raw) {
        Ok(p) => p,
        Err(e) => {
            return Err(AuthorizeError::Validation(e));
        },
    };
    match registry.find_by_identity(p.client_id()) {
        Some(_) => Ok(p),
        None => Err(AuthorizeError::UnknownClient),
    }
}

} // verus!
