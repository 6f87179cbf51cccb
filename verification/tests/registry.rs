//! The client registry: creation, lookup, redaction and secret storage.

use oidc_clients::fields::FieldList;
use oidc_clients::fields::GrantType;
use oidc_clients::fields::ResponseType;
use oidc_clients::fields::ScopeValue;
use oidc_clients::models::ClientBuilder;
use oidc_clients::registry::ClientRegistry;
use oidc_clients::registry::StorageError;
use oidc_clients::rest::clients::CreateClientPayload;
use oidc_clients::rest::clients::create_client;
use oidc_clients::rest::clients::generate_secret;
use oidc_clients::rest::clients::get_clients;

fn sample_payload() -> CreateClientPayload {
    CreateClientPayload {
        name: "Test App".to_string(),
        description: Some("An application under test".to_string()),
        redirect_uris: FieldList(vec!["https://app.example/cb".to_string()]),
        grant_types: FieldList(vec![GrantType::AuthorizationCode]),
        response_types: FieldList(vec![ResponseType::Code]),
        scope: FieldList(vec![ScopeValue::Openid, ScopeValue::Profile]),
    }
}

#[test]
fn create_populates_the_record() {
    let mut registry = ClientRegistry::new();
    let c = create_client(&mut registry, sample_payload()).unwrap();
    assert_eq!(c.name(), "Test App");
    assert_eq!(c.description(), Some("An application under test"));
    assert_eq!(c.uuid().len(), 36);
    // Canonical hyphenated UUID form.
    let hyphens: Vec<usize> =
        c.uuid().char_indices().filter(|(_, ch)| *ch == '-').map(|(i, _)| i).collect();
    assert_eq!(hyphens, vec![8, 13, 18, 23]);
    assert_eq!(c.uuid(), c.uuid().to_lowercase());
    assert_eq!(c.created_at(), c.updated_at());
    assert_eq!(c.grant_types().0, vec![GrantType::AuthorizationCode]);
    assert_eq!(c.response_types().0, vec![ResponseType::Code]);
    assert_eq!(c.scope().0, vec![ScopeValue::Openid, ScopeValue::Profile]);
    assert_eq!(c.redirect_uris().0, vec!["https://app.example/cb".to_string()]);
    assert!(!c.secret().is_empty());
}

#[test]
fn creating_twice_with_identical_payloads_differs() {
    let mut registry = ClientRegistry::new();
    let a = create_client(&mut registry, sample_payload()).unwrap();
    let b = create_client(&mut registry, sample_payload()).unwrap();
    assert_ne!(a.uuid(), b.uuid());
    assert_ne!(a.secret(), b.secret());
    assert_ne!(a.id(), b.id());
}

#[test]
fn listing_redacts_secrets() {
    let mut registry = ClientRegistry::new();
    let created = create_client(&mut registry, sample_payload()).unwrap();
    assert!(!created.secret().is_empty());
    let listed = get_clients(&registry);
    assert_eq!(listed.len(), 1);
    assert_eq!(listed[0].uuid(), created.uuid());
    assert_eq!(listed[0].name(), created.name());
    assert_eq!(listed[0].secret(), "");
}

#[test]
fn find_by_identity_is_exact() {
    let mut registry = ClientRegistry::new();
    let created = create_client(&mut registry, sample_payload()).unwrap();
    let found = registry.find_by_identity(created.uuid()).unwrap();
    assert_eq!(found.uuid(), created.uuid());
    assert_eq!(found.secret(), "");
    assert!(registry.find_by_identity("7e0a2f66-0000-4000-8000-000000000000").is_none());
}

#[test]
fn credential_check_requires_both_parts() {
    let mut registry = ClientRegistry::new();
    let created = create_client(&mut registry, sample_payload()).unwrap();
    assert!(registry.find_by_identity_and_secret(created.uuid(), created.secret()).is_some());
    assert!(registry.find_by_identity_and_secret(created.uuid(), "wrong").is_none());
    assert!(
        registry
            .find_by_identity_and_secret("7e0a2f66-0000-4000-8000-000000000000", created.secret())
            .is_none()
    );
}

#[test]
fn update_secret_overwrites_only_the_match() {
    let mut registry = ClientRegistry::new();
    let a = create_client(&mut registry, sample_payload()).unwrap();
    let b = create_client(&mut registry, sample_payload()).unwrap();
    registry.update_secret(a.uuid(), "fresh-secret").unwrap();
    assert!(registry.find_by_identity_and_secret(a.uuid(), "fresh-secret").is_some());
    assert!(registry.find_by_identity_and_secret(a.uuid(), a.secret()).is_none());
    assert!(registry.find_by_identity_and_secret(b.uuid(), b.secret()).is_some());
}

#[test]
fn update_fields_changes_only_the_mutable_attributes() {
    let mut registry = ClientRegistry::new();
    let c = create_client(&mut registry, sample_payload()).unwrap();
    registry
        .update_fields(
            c.uuid(),
            "Renamed App".to_string(),
            None,
            FieldList(vec!["https://new.example/cb".to_string()]),
            FieldList(vec![GrantType::ClientCredentials]),
            FieldList(vec![ResponseType::Token]),
            FieldList(vec![ScopeValue::Email]),
        )
        .unwrap();
    let stored = registry.find_by_identity(c.uuid()).unwrap();
    assert_eq!(stored.name(), "Renamed App");
    assert_eq!(stored.description(), None);
    assert_eq!(stored.grant_types().0, vec![GrantType::ClientCredentials]);
    assert_eq!(stored.id(), c.id());
    assert_eq!(stored.created_at(), c.created_at());
    // The secret is untouched: the old pair still authenticates.
    assert!(registry.find_by_identity_and_secret(c.uuid(), c.secret()).is_some());
    // An unknown identity is a storage failure.
    let missing = registry.update_fields(
        "7e0a2f66-0000-4000-8000-000000000000",
        "X".to_string(),
        None,
        FieldList(Vec::new()),
        FieldList(Vec::new()),
        FieldList(Vec::new()),
        FieldList(Vec::new()),
    );
    assert_eq!(missing.unwrap_err(), StorageError::RecordNotFound);
}

#[test]
fn update_secret_of_unknown_identity_fails() {
    let mut registry = ClientRegistry::new();
    let r = registry.update_secret("7e0a2f66-0000-4000-8000-000000000000", "s");
    assert_eq!(r.unwrap_err(), StorageError::RecordNotFound);
}

#[test]
fn generated_secrets_are_long_urlsafe_text() {
    let s = generate_secret(64);
    // 64 bytes encode to ceil(64 * 4 / 3) = 86 characters without padding.
    assert_eq!(s.len(), 86);
    assert!(s.chars().all(|c| c.is_ascii_alphanumeric() || c == '-' || c == '_'));
    let t = generate_secret(64);
    assert_ne!(s, t);
}

#[test]
fn builder_defaults_and_validation() {
    let mut registry = ClientRegistry::new();
    let c = ClientBuilder::new()
        .grant_types(vec!["authorization_code".to_string()])
        .response_types(vec!["code".to_string()])
        .scope(vec!["openid".to_string()])
        .save(&mut registry)
        .unwrap();
    assert_eq!(c.name(), "New Client");
    assert_eq!(c.description(), None);
    assert_eq!(c.grant_types().0, vec![GrantType::AuthorizationCode]);
}

#[test]
fn builder_rejects_unknown_tags_atomically() {
    let mut registry = ClientRegistry::new();
    let r = ClientBuilder::new()
        .name("X".to_string())
        .grant_types(vec!["authorization_code".to_string(), "password".to_string()])
        .save(&mut registry);
    match r {
        Err(oidc_clients::models::SaveError::Invalid(e)) => {
            assert_eq!(e.value, "password");
            assert_eq!(e.field, "grant_type");
        }
        _ => panic!("expected a validation failure"),
    }
    assert_eq!(get_clients(&registry).len(), 0);
}

#[test]
fn storage_row_round_trips() {
    let mut registry = ClientRegistry::new();
    let c = create_client(&mut registry, sample_payload()).unwrap();
    let row = c.to_row();
    assert_eq!(row.grant_types, "authorization_code");
    assert_eq!(row.response_types, "code");
    assert_eq!(row.scope, "openid profile");
    assert_eq!(row.redirect_uris, "https://app.example/cb");
    let back = oidc_clients::models::Client::from_row(&row).unwrap();
    assert_eq!(back, c);
}

#[test]
fn corrupt_storage_row_fails_naming_the_tag() {
    let mut registry = ClientRegistry::new();
    let c = create_client(&mut registry, sample_payload()).unwrap();
    let mut row = c.to_row();
    row.scope = "openid superuser".to_string();
    let e = oidc_clients::models::Client::from_row(&row).unwrap_err();
    assert_eq!(e.value, "superuser");
    assert_eq!(e.field, "scope");
}

#[test]
fn raw_rest_payload_is_validated_then_created() {
    let mut registry = ClientRegistry::new();
    let payload = oidc_clients::rest::CreateClientPayload {
        name: "Raw".to_string(),
        description: None,
        redirect_uris: vec!["https://raw.example/cb".to_string()],
        grant_types: vec!["implicit".to_string()],
        response_types: vec!["token".to_string()],
        scope: vec!["email".to_string()],
    };
    let c = oidc_clients::rest::create_client(&mut registry, payload).unwrap();
    assert_eq!(c.name(), "Raw");
    assert_eq!(c.grant_types().0, vec![GrantType::Implicit]);
    assert_eq!(c.response_types().0, vec![ResponseType::Token]);
    assert_eq!(c.scope().0, vec![ScopeValue::Email]);
}
