//! The authorization-request validator.

use oidc_clients::fields::FieldList;
use oidc_clients::fields::GrantType;
use oidc_clients::fields::ResponseType;
use oidc_clients::fields::ScopeValue;
use oidc_clients::oidc::OidcError;
use oidc_clients::oidc::authorize::AuthorizeError;
use oidc_clients::oidc::authorize::authorize;
use oidc_clients::registry::ClientRegistry;
use oidc_clients::rest::clients::CreateClientPayload;
use oidc_clients::rest::clients::create_client;
use oidc_clients::oidc::authorize::FieldName;
use oidc_clients::oidc::authorize::Prompt;
use oidc_clients::oidc::authorize::RawAuthorizeRequest;
use oidc_clients::oidc::authorize::ValidationError;
use oidc_clients::oidc::authorize::validate;

fn full_request() -> RawAuthorizeRequest {
    RawAuthorizeRequest {
        response_type: Some("code".to_string()),
        client_id: Some("7e0a2f66-0000-4000-8000-000000000000".to_string()),
        redirect_uri: Some("https://app.example/cb".to_string()),
        scope: Some("openid profile".to_string()),
        state: Some("xyzzy".to_string()),
        prompt: Some("consent".to_string()),
        nonce: Some("n-0S6_WzA2Mj".to_string()),
    }
}

#[test]
fn valid_request_passes() {
    let p = validate(&full_request()).unwrap();
    assert_eq!(*p.response_type(), ResponseType::Code);
    assert_eq!(p.client_id(), "7e0a2f66-0000-4000-8000-000000000000");
    assert_eq!(p.redirect_uri(), "https://app.example/cb");
    assert_eq!(p.scope(), "openid profile");
    assert_eq!(p.state(), "xyzzy");
    assert_eq!(p.prompt(), Some(Prompt::Consent));
    assert_eq!(p.nonce(), Some("n-0S6_WzA2Mj"));
}

#[test]
fn optional_fields_may_be_absent() {
    let mut raw = full_request();
    raw.prompt = None;
    raw.nonce = None;
    let p = validate(&raw).unwrap();
    assert_eq!(p.prompt(), None);
    assert_eq!(p.nonce(), None);
}

#[test]
fn each_missing_required_field_is_named() {
    let cases: Vec<(fn(&mut RawAuthorizeRequest), FieldName)> = vec![
        (|r| r.response_type = None, FieldName::ResponseType),
        (|r| r.client_id = None, FieldName::ClientId),
        (|r| r.redirect_uri = None, FieldName::RedirectUri),
        (|r| r.scope = None, FieldName::Scope),
        (|r| r.state = None, FieldName::State),
    ];
    for (strip, field) in cases {
        let mut raw = full_request();
        strip(&mut raw);
        let e = validate(&raw).unwrap_err();
        assert_eq!(e, ValidationError::MissingField(field));
    }
}

#[test]
fn unknown_response_type_is_rejected_with_its_value() {
    let mut raw = full_request();
    raw.response_type = Some("code token".to_string());
    let e = validate(&raw).unwrap_err();
    assert_eq!(
        e,
        ValidationError::InvalidEnum(FieldName::ResponseType, "code token".to_string())
    );
}

#[test]
fn unknown_prompt_is_rejected_with_its_value() {
    let mut raw = full_request();
    raw.prompt = Some("signup".to_string());
    let e = validate(&raw).unwrap_err();
    assert_eq!(
        e,
        ValidationError::InvalidEnum(FieldName::Prompt, "signup".to_string())
    );
}

#[test]
fn prompt_tags_cover_the_spec_set() {
    for (tag, expected) in [
        ("none", Prompt::NoInteraction),
        ("login", Prompt::Login),
        ("consent", Prompt::Consent),
        ("select_account", Prompt::SelectAccount),
    ] {
        let mut raw = full_request();
        raw.prompt = Some(tag.to_string());
        let p = validate(&raw).unwrap();
        assert_eq!(p.prompt(), Some(expected));
    }
}

#[test]
fn authorize_requires_a_registered_client() {
    let mut registry = ClientRegistry::new();
    let c = create_client(
        &mut registry,
        CreateClientPayload {
            name: "Authz App".to_string(),
            description: None,
            redirect_uris: FieldList(vec!["https://authz.example/cb".to_string()]),
            grant_types: FieldList(vec![GrantType::AuthorizationCode]),
            response_types: FieldList(vec![ResponseType::Code]),
            scope: FieldList(vec![ScopeValue::Openid]),
        },
    )
    .unwrap();

    let mut raw = full_request();
    raw.client_id = Some(c.uuid().to_string());
    let ok = authorize(&registry, &raw).unwrap();
    assert_eq!(ok.client_id(), c.uuid());

    raw.client_id = Some("7e0a2f66-0000-4000-8000-000000000000".to_string());
    assert_eq!(
        authorize(&registry, &raw).unwrap_err(),
        AuthorizeError::UnknownClient
    );

    raw.response_type = Some("bogus".to_string());
    assert_eq!(
        authorize(&registry, &raw).unwrap_err(),
        AuthorizeError::Validation(ValidationError::InvalidEnum(
            FieldName::ResponseType,
            "bogus".to_string()
        ))
    );
}

#[test]
fn oidc_error_messages() {
    assert_eq!(OidcError::AccessDenied.message(), "Access denied");
    assert_eq!(OidcError::InvalidClient.message(), "Invalid client");
    assert_eq!(
        OidcError::Unspecified("details".to_string()).message(),
        "Unspecified error: details"
    );
}
