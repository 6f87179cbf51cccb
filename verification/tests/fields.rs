//! The enumerated-field codec: parsing, serialization, and the round-trip
//! behaviour over both delimiters.

use oidc_clients::FORM_DELIMITER;
use oidc_clients::STORAGE_DELIMITER;
use oidc_clients::fields::FieldList;
use oidc_clients::fields::GrantType;
use oidc_clients::fields::ResponseType;
use oidc_clients::fields::ScopeValue;
use oidc_clients::fields::Tagged;
use oidc_clients::fields::parse_values;
use oidc_clients::fields::split_on;

#[test]
fn single_tag_parse_is_exact() {
    assert_eq!(
        GrantType::parse_tag("authorization_code"),
        Some(GrantType::AuthorizationCode)
    );
    assert_eq!(GrantType::parse_tag("implicit"), Some(GrantType::Implicit));
    assert_eq!(GrantType::parse_tag("refresh_token"), Some(GrantType::RefreshToken));
    assert_eq!(
        GrantType::parse_tag("client_credentials"),
        Some(GrantType::ClientCredentials)
    );
    assert_eq!(GrantType::parse_tag("Authorization_Code"), None);
    assert_eq!(GrantType::parse_tag("authorization_code "), None);
    assert_eq!(GrantType::parse_tag(""), None);
}

#[test]
fn single_tag_serialize_is_inverse() {
    assert_eq!(GrantType::AuthorizationCode.serialize_tag(), "authorization_code");
    assert_eq!(ResponseType::Code.serialize_tag(), "code");
    assert_eq!(ResponseType::IdToken.serialize_tag(), "id_token");
    assert_eq!(ScopeValue::Openid.serialize_tag(), "openid");
}

#[test]
fn field_list_round_trip_form_delimiter() {
    let list: FieldList<ScopeValue> =
        FieldList(vec![ScopeValue::Openid, ScopeValue::Profile, ScopeValue::Email]);
    let s = list.serialize(FORM_DELIMITER);
    assert_eq!(s, "openid,profile,email");
    let back = FieldList::<ScopeValue>::parse(&s, FORM_DELIMITER).unwrap();
    assert_eq!(back, list);
}

#[test]
fn field_list_round_trip_keeps_order_and_duplicates() {
    let list: FieldList<GrantType> = FieldList(vec![
        GrantType::Implicit,
        GrantType::AuthorizationCode,
        GrantType::Implicit,
    ]);
    let s = list.serialize(STORAGE_DELIMITER);
    assert_eq!(s, "implicit authorization_code implicit");
    let back = FieldList::<GrantType>::parse(&s, STORAGE_DELIMITER).unwrap();
    assert_eq!(back, list);
}

#[test]
fn empty_list_serializes_to_empty_string_and_back() {
    let list: FieldList<ResponseType> = FieldList(Vec::new());
    let s = list.serialize(FORM_DELIMITER);
    assert_eq!(s, "");
    let back = FieldList::<ResponseType>::parse("", FORM_DELIMITER).unwrap();
    assert_eq!(back.into_inner(), Vec::<ResponseType>::new());
}

#[test]
fn one_invalid_tag_fails_the_whole_parse() {
    let r = FieldList::<ScopeValue>::parse("openid bogus profile", STORAGE_DELIMITER);
    let e = r.unwrap_err();
    assert_eq!(e.value, "bogus");
    assert_eq!(e.field, "scope");
}

#[test]
fn first_invalid_tag_is_the_one_named() {
    let r = FieldList::<GrantType>::parse("implicit,bad1,bad2", FORM_DELIMITER);
    let e = r.unwrap_err();
    assert_eq!(e.value, "bad1");
    assert_eq!(e.field, "grant_type");
}

#[test]
fn trailing_delimiter_makes_an_empty_invalid_piece() {
    let r = FieldList::<ResponseType>::parse("code,", FORM_DELIMITER);
    let e = r.unwrap_err();
    assert_eq!(e.value, "");
}

#[test]
fn free_form_lists_accept_every_string() {
    let r = FieldList::<String>::parse("https://a.example/cb,https://b.example/cb", ',').unwrap();
    assert_eq!(
        r.into_inner(),
        vec![
            "https://a.example/cb".to_string(),
            "https://b.example/cb".to_string()
        ]
    );
}

#[test]
fn split_on_matches_plain_splitting() {
    assert_eq!(split_on("a b c", ' '), vec!["a", "b", "c"]);
    assert_eq!(split_on("", ' '), vec![""]);
    assert_eq!(split_on(",", ','), vec!["", ""]);
    assert_eq!(split_on("abc", ','), vec!["abc"]);
}

#[test]
fn parse_values_validates_each_element() {
    let good = vec!["openid".to_string(), "phone".to_string()];
    let r = parse_values::<ScopeValue>(&good).unwrap();
    assert_eq!(r.into_inner(), vec![ScopeValue::Openid, ScopeValue::Phone]);

    let bad = vec!["openid".to_string(), "nope".to_string(), "email".to_string()];
    let e = parse_values::<ScopeValue>(&bad).unwrap_err();
    assert_eq!(e.value, "nope");
    assert_eq!(e.field, "scope");
}

#[test]
fn checked_serialization_rejects_delimiter_bearing_values() {
    let clean: FieldList<String> =
        FieldList(vec!["https://a.example/cb".to_string(), "https://b.example/cb".to_string()]);
    assert_eq!(
        clean.serialize_checked(','),
        Some("https://a.example/cb,https://b.example/cb".to_string())
    );
    let dirty: FieldList<String> = FieldList(vec!["https://a.example/cb,evil".to_string()]);
    assert_eq!(dirty.serialize_checked(','), None);
    let empty_element: FieldList<String> = FieldList(vec!["".to_string()]);
    assert_eq!(empty_element.serialize_checked(','), None);
    let enums: FieldList<ScopeValue> = FieldList(vec![ScopeValue::Openid, ScopeValue::Phone]);
    assert_eq!(enums.serialize_checked(' '), Some("openid phone".to_string()));
}

#[test]
fn storage_delimiter_scenario_scope_round_trip() {
    let scope: FieldList<ScopeValue> = FieldList(vec![ScopeValue::Openid, ScopeValue::Profile]);
    let stored = scope.serialize(STORAGE_DELIMITER);
    assert_eq!(stored, "openid profile");
    let reparsed = FieldList::<ScopeValue>::parse(&stored, STORAGE_DELIMITER).unwrap();
    assert_eq!(
        reparsed.into_inner(),
        vec![ScopeValue::Openid, ScopeValue::Profile]
    );
}
