//! The secret-rotation protocol: credential extraction, the capability
//! check, and the uniform failure shape.

use base64::Engine;

use oidc_clients::fields::FieldList;
use oidc_clients::fields::GrantType;
use oidc_clients::fields::ResponseType;
use oidc_clients::fields::ScopeValue;
use oidc_clients::models::Client;
use oidc_clients::registry::ClientRegistry;
use oidc_clients::registry::StorageError;
use oidc_clients::rest::clients::ClientError;
use oidc_clients::rest::clients::CreateClientPayload;
use oidc_clients::rest::clients::create_client;
use oidc_clients::rest::clients::get_clients;
use oidc_clients::rest::rotate_secret::RotateError;
use oidc_clients::rest::rotate_secret::parse_basic_auth;
use oidc_clients::rest::rotate_secret::rotate_client_secret;

fn basic_header(user: &str, pass: &str) -> String {
    let raw = format!("{}:{}", user, pass);
    let encoded = base64::engine::general_purpose::STANDARD.encode(raw.as_bytes());
    format!("Basic {}", encoded)
}

fn registered_client(registry: &mut ClientRegistry) -> Client {
    create_client(
        registry,
        CreateClientPayload {
            name: "Rotating App".to_string(),
            description: None,
            redirect_uris: FieldList(vec!["https://rot.example/cb".to_string()]),
            grant_types: FieldList(vec![GrantType::AuthorizationCode]),
            response_types: FieldList(vec![ResponseType::Code]),
            scope: FieldList(vec![ScopeValue::Openid]),
        },
    )
    .unwrap()
}

#[test]
fn parse_basic_auth_accepts_the_exact_form() {
    let header = basic_header("user", "pa:ss");
    let (u, p) = parse_basic_auth(&header).unwrap();
    assert_eq!(u, "user");
    // The split happens at the first colon only.
    assert_eq!(p, "pa:ss");
}

#[test]
fn parse_basic_auth_rejects_wrong_scheme() {
    let encoded = base64::engine::general_purpose::STANDARD.encode(b"user:pass");
    assert!(parse_basic_auth(&format!("Bearer {}", encoded)).is_none());
    assert!(parse_basic_auth(&format!("basic {}", encoded)).is_none());
    assert!(parse_basic_auth("Basic").is_none());
}

#[test]
fn parse_basic_auth_rejects_bad_base64_and_missing_colon() {
    assert!(parse_basic_auth("Basic ???not-base64???").is_none());
    let no_colon = base64::engine::general_purpose::STANDARD.encode(b"no-colon-here");
    assert!(parse_basic_auth(&format!("Basic {}", no_colon)).is_none());
}

#[test]
fn rotation_with_correct_credentials_succeeds() {
    let mut registry = ClientRegistry::new();
    let c = registered_client(&mut registry);
    let header = basic_header(c.uuid(), c.secret());
    let new_secret =
        rotate_client_secret(&mut registry, Some(&header), c.uuid()).unwrap();
    // The new secret differs from the old one ...
    assert_ne!(new_secret, c.secret());
    // ... the old pair no longer authenticates ...
    assert!(registry.find_by_identity_and_secret(c.uuid(), c.secret()).is_none());
    // ... and the new pair does.
    assert!(registry.find_by_identity_and_secret(c.uuid(), &new_secret).is_some());
}

#[test]
fn rotation_for_a_foreign_target_fails_like_not_found() {
    let mut registry = ClientRegistry::new();
    let a = registered_client(&mut registry);
    let b = registered_client(&mut registry);
    // Authenticated as a, targeting b: a's credentials are valid, yet the
    // failure is shaped exactly like a lookup of a missing client.
    let header = basic_header(a.uuid(), a.secret());
    let denied = rotate_client_secret(&mut registry, Some(&header), b.uuid()).unwrap_err();
    let missing_header = basic_header(a.uuid(), a.secret());
    let missing = rotate_client_secret(
        &mut registry,
        Some(&missing_header),
        "7e0a2f66-0000-4000-8000-000000000000",
    )
    .unwrap_err();
    assert_eq!(denied, missing);
    assert_eq!(
        denied,
        RotateError::Client(ClientError::Db(StorageError::RecordNotFound))
    );
    // b's secret is untouched.
    assert!(registry.find_by_identity_and_secret(b.uuid(), b.secret()).is_some());
}

#[test]
fn wrong_secret_fails_like_unknown_client() {
    let mut registry = ClientRegistry::new();
    let c = registered_client(&mut registry);
    let wrong = rotate_client_secret(
        &mut registry,
        Some(&basic_header(c.uuid(), "wrong-secret")),
        c.uuid(),
    )
    .unwrap_err();
    let unknown = rotate_client_secret(
        &mut registry,
        Some(&basic_header(c.uuid(), c.secret())),
        "7e0a2f66-0000-4000-8000-000000000000",
    )
    .unwrap_err();
    assert_eq!(wrong, unknown);
    // The old credentials still work: nothing was rotated.
    assert!(registry.find_by_identity_and_secret(c.uuid(), c.secret()).is_some());
}

#[test]
fn malformed_headers_are_rejected_before_the_registry_is_touched() {
    let mut registry = ClientRegistry::new();
    let c = registered_client(&mut registry);
    let before = get_clients(&registry);
    let cases: Vec<Option<String>> = vec![
        None,
        Some(format!(
            "Bearer {}",
            base64::engine::general_purpose::STANDARD
                .encode(format!("{}:{}", c.uuid(), c.secret()))
        )),
        Some("Basic !!!".to_string()),
        Some(format!(
            "Basic {}",
            base64::engine::general_purpose::STANDARD.encode(b"no-colon")
        )),
        Some(format!(
            "Basic {}",
            base64::engine::general_purpose::STANDARD.encode(b"not-a-uuid:secret")
        )),
    ];
    for header in cases {
        let r = rotate_client_secret(&mut registry, header.as_deref(), c.uuid());
        assert_eq!(r.unwrap_err(), RotateError::MalformedCredentials);
    }
    // The registry is exactly as it was.
    assert_eq!(get_clients(&registry), before);
    assert!(registry.find_by_identity_and_secret(c.uuid(), c.secret()).is_some());
}

#[test]
fn claimed_identity_is_canonicalized_before_comparison() {
    let mut registry = ClientRegistry::new();
    let c = registered_client(&mut registry);
    // The header claims the identity in uppercase; canonicalization must
    // bring it back to the stored lowercase form.
    let upper = c.uuid().to_uppercase();
    let header = basic_header(&upper, c.secret());
    let new_secret = rotate_client_secret(&mut registry, Some(&header), c.uuid()).unwrap();
    assert!(registry.find_by_identity_and_secret(c.uuid(), &new_secret).is_some());
}

#[test]
fn rotated_secret_has_the_generated_shape() {
    let mut registry = ClientRegistry::new();
    let c = registered_client(&mut registry);
    let header = basic_header(c.uuid(), c.secret());
    let new_secret = rotate_client_secret(&mut registry, Some(&header), c.uuid()).unwrap();
    assert_eq!(new_secret.len(), 86);
    assert!(new_secret.chars().all(|ch| ch.is_ascii_alphanumeric() || ch == '-' || ch == '_'));
}
