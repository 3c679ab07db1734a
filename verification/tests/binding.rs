//! Tests of the document binder: alias resolution, rich-value coercion,
//! enumerated tags, sequences and error paths.

use stellar_toml::{
    AccountKey, CurrencyStatus, DocValue, Error, NetAddress, RichValue, bind_currency,
    bind_stellar_toml, bind_validator, canonical_text, deserialize, reserialize, serialize,
};

const KEY: &str = "GCZHXL5HXQX5ABDM26LHYRCQZ5OJFHLOPLZX47WEBP3V2PF5AVFK2A5D";

fn text(s: &str) -> DocValue {
    DocValue::Text(s.to_string())
}

#[test]
fn alias_spelling_binds_same_value() {
    let canonical = vec![("version".to_string(), text("2.0.0"))];
    let legacy = vec![("VERSION".to_string(), text("2.0.0"))];
    let a = bind_stellar_toml(&canonical).unwrap();
    let b = bind_stellar_toml(&legacy).unwrap();
    assert_eq!(a.version, Some("2.0.0".to_string()));
    assert_eq!(a.version, b.version);
}

#[test]
fn alias_spelling_binds_same_value_in_validator() {
    let canonical = vec![("host".to_string(), text("core1.example.org:11625"))];
    let legacy = vec![("HOST".to_string(), text("core1.example.org:11625"))];
    let a = bind_validator(&canonical).unwrap();
    let b = bind_validator(&legacy).unwrap();
    assert_eq!(a.host, Some("core1.example.org:11625".to_string()));
    assert_eq!(a.host, b.host);
}

#[test]
fn canonical_key_wins_over_alias() {
    let t = vec![
        ("VERSION".to_string(), text("from-alias")),
        ("version".to_string(), text("from-canonical")),
    ];
    let m = bind_stellar_toml(&t).unwrap();
    assert_eq!(m.version, Some("from-canonical".to_string()));
}

#[test]
fn uri_round_trips_to_canonical_form() {
    let parsed: Result<Option<NetAddress>, ()> = deserialize(Some("https://example.org/path"));
    let v = parsed.unwrap();
    let s = serialize(&v).unwrap();
    assert_eq!(s, "https://example.org/path");
}

#[test]
fn account_key_round_trips_to_canonical_form() {
    let parsed: Result<Option<AccountKey>, ()> = deserialize(Some(KEY));
    let v = parsed.unwrap();
    let s = serialize(&v).unwrap();
    assert_eq!(s, KEY);
}

#[test]
fn canonical_text_of_malformed_input_is_absent() {
    assert!(canonical_text::<NetAddress>("ht tp://bad host").is_none());
    assert!(canonical_text::<AccountKey>("not-a-key").is_none());
    assert_eq!(
        canonical_text::<AccountKey>(KEY).unwrap(),
        KEY.to_string()
    );
}

#[test]
fn uri_scheme_is_canonicalized() {
    assert_eq!(
        canonical_text::<NetAddress>("HTTPS://example.org/path").unwrap(),
        "https://example.org/path"
    );
}

#[test]
fn parse_after_format_is_identity() {
    let parsed: Result<Option<NetAddress>, ()> = deserialize(Some("HTTPS://example.org/a?b=c"));
    let v = parsed.unwrap();
    let again = reserialize(&v).unwrap().unwrap();
    assert_eq!(again.to_text(), v.as_ref().unwrap().to_text());
    assert_eq!(again.to_text(), "https://example.org/a?b=c");

    let parsed: Result<Option<AccountKey>, ()> = deserialize(Some(KEY));
    let v = parsed.unwrap();
    let again = reserialize(&v).unwrap().unwrap();
    assert_eq!(again.to_text(), KEY);
    assert!(reserialize::<NetAddress>(&None).unwrap().is_none());
}

#[test]
fn absent_rich_value_stays_absent() {
    let parsed: Result<Option<NetAddress>, ()> = deserialize(None);
    assert!(parsed.unwrap().is_none());
    let parsed: Result<Option<AccountKey>, ()> = deserialize(None);
    assert!(parsed.unwrap().is_none());
    assert!(serialize::<NetAddress>(&None).is_none());
}

#[test]
fn malformed_rich_value_is_an_error() {
    let parsed: Result<Option<AccountKey>, ()> = deserialize(Some("GxyzNOTAKEY"));
    assert!(parsed.is_err());
}

#[test]
fn malformed_public_key_names_field_path() {
    let t = vec![("public_key".to_string(), text("not-a-key"))];
    match bind_validator(&t) {
        Err(Error::FieldDecodingError { path }) => assert_eq!(path, "validators.public_key"),
        _ => panic!("expected a field decoding error"),
    }
}

#[test]
fn malformed_issuer_names_field_path() {
    let t = vec![("ISSUER".to_string(), text("GABC"))];
    match bind_currency(&t) {
        Err(Error::FieldDecodingError { path }) => assert_eq!(path, "currencies.issuer"),
        _ => panic!("expected a field decoding error"),
    }
}

#[test]
fn well_formed_issuer_binds() {
    let t = vec![("ISSUER".to_string(), text(KEY))];
    let c = bind_currency(&t).unwrap();
    assert_eq!(c.issuer.as_ref().unwrap().to_text(), KEY);
}

#[test]
fn absent_sequence_fields_bind_empty() {
    let t: Vec<(String, DocValue)> = Vec::new();
    let m = bind_stellar_toml(&t).unwrap();
    assert!(m.validators.is_empty());
    assert!(m.currencies.is_empty());
    assert!(m.principals.is_empty());
    assert!(m.accounts.is_empty());
    assert!(m.version.is_none());
    assert!(m.documentation.is_none());
    assert!(m.signing_key.is_none());
}

#[test]
fn unknown_status_tag_is_rejected() {
    let t = vec![("STATUS".to_string(), text("zombie"))];
    match bind_currency(&t) {
        Err(Error::FieldDecodingError { path }) => assert_eq!(path, "currencies.status"),
        _ => panic!("expected a field decoding error"),
    }
}

#[test]
fn status_tag_matches_caselessly() {
    for s in ["live", "Live", "LIVE"] {
        let t = vec![("status".to_string(), text(s))];
        let c = bind_currency(&t).unwrap();
        assert_eq!(c.status, Some(CurrencyStatus::Live));
    }
    let t = vec![("STATUS".to_string(), text("Private"))];
    let c = bind_currency(&t).unwrap();
    assert_eq!(c.status, Some(CurrencyStatus::Private));
}

#[test]
fn display_decimals_must_be_small() {
    let t = vec![("DISPLAY_DECIMALS".to_string(), DocValue::Integer(300))];
    match bind_currency(&t) {
        Err(Error::FieldDecodingError { path }) => {
            assert_eq!(path, "currencies.display_decimals")
        },
        _ => panic!("expected a field decoding error"),
    }
    let t = vec![("DISPLAY_DECIMALS".to_string(), DocValue::Integer(7))];
    let c = bind_currency(&t).unwrap();
    assert_eq!(c.display_decimals, Some(7));
}

#[test]
fn fixed_number_binds_as_signed_count() {
    let t = vec![("FIXED_NUMBER".to_string(), DocValue::Integer(100_000))];
    let c = bind_currency(&t).unwrap();
    assert_eq!(c.fixed_number, Some(100_000));
}

#[test]
fn wrong_scalar_kind_is_an_error() {
    let t = vec![("REGULATED".to_string(), text("yes"))];
    match bind_currency(&t) {
        Err(Error::FieldDecodingError { path }) => assert_eq!(path, "currencies.regulated"),
        _ => panic!("expected a field decoding error"),
    }
}

#[test]
fn description_binds_from_desc_keys() {
    let t = vec![("desc".to_string(), text("a token"))];
    let c = bind_currency(&t).unwrap();
    assert_eq!(c.description, Some("a token".to_string()));
    let t = vec![("DESC".to_string(), text("a token"))];
    let c = bind_currency(&t).unwrap();
    assert_eq!(c.description, Some("a token".to_string()));
}

#[test]
fn accounts_bind_as_string_sequence() {
    let t = vec![(
        "ACCOUNTS".to_string(),
        DocValue::Array(vec![text("one"), text("two")]),
    )];
    let m = bind_stellar_toml(&t).unwrap();
    assert_eq!(m.accounts, vec!["one".to_string(), "two".to_string()]);
}

#[test]
fn non_string_account_entry_is_an_error() {
    let t = vec![(
        "ACCOUNTS".to_string(),
        DocValue::Array(vec![text("one"), DocValue::Integer(2)]),
    )];
    match bind_stellar_toml(&t) {
        Err(Error::FieldDecodingError { path }) => assert_eq!(path, "accounts"),
        _ => panic!("expected a field decoding error"),
    }
}

#[test]
fn nested_documentation_binds_with_field_paths() {
    let inner = vec![
        ("ORG_NAME".to_string(), text("Example Org")),
        ("ORG_URL".to_string(), text("https://example.org/")),
    ];
    let t = vec![("DOCUMENTATION".to_string(), DocValue::Table(inner))];
    let m = bind_stellar_toml(&t).unwrap();
    let d = m.documentation.unwrap();
    assert_eq!(d.org_name, Some("Example Org".to_string()));
    assert_eq!(d.org_url.as_ref().unwrap().to_text(), "https://example.org/");

    let inner = vec![("ORG_URL".to_string(), text("ht tp://bad host"))];
    let t = vec![("DOCUMENTATION".to_string(), DocValue::Table(inner))];
    match bind_stellar_toml(&t) {
        Err(Error::FieldDecodingError { path }) => assert_eq!(path, "documentation.org_url"),
        _ => panic!("expected a field decoding error"),
    }
}

#[test]
fn one_bad_entry_aborts_the_whole_document() {
    let good = vec![("CODE".to_string(), text("USD"))];
    let bad = vec![("STATUS".to_string(), text("zombie"))];
    let t = vec![(
        "CURRENCIES".to_string(),
        DocValue::Array(vec![DocValue::Table(good), DocValue::Table(bad)]),
    )];
    match bind_stellar_toml(&t) {
        Err(Error::FieldDecodingError { path }) => assert_eq!(path, "currencies.status"),
        _ => panic!("expected a field decoding error"),
    }
}
