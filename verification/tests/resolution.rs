//! Tests of the resolution orchestrator: well-known address construction,
//! outcome classification, and the parse-and-bind pipeline on raw bytes.

use stellar_toml::{
    Error, RichValue, parse_document, parse_stellar_toml, resolve_response, stellar_toml_path,
    stellar_toml_path_insecure,
};

#[test]
fn test_stellar_toml_path() {
    let url = stellar_toml_path("foo.bar.example.org").unwrap();
    assert_eq!(
        "https://foo.bar.example.org/.well-known/stellar.toml",
        url.to_text()
    );
}

#[test]
fn test_stellar_toml_path_insecure() {
    let url = stellar_toml_path_insecure("foo.bar.example.org").unwrap();
    assert_eq!(
        "http://foo.bar.example.org/.well-known/stellar.toml",
        url.to_text()
    );
}

#[test]
fn bad_domain_is_an_address_error() {
    match stellar_toml_path("exa mple.org") {
        Err(Error::InvalidUri(text)) => {
            assert_eq!(text, "https://exa mple.org/.well-known/stellar.toml")
        },
        _ => panic!("expected an invalid address error"),
    }
}

#[test]
fn secure_and_insecure_addresses_agree() {
    let s = stellar_toml_path("agree.example.org").unwrap().to_text();
    let i = stellar_toml_path_insecure("agree.example.org").unwrap().to_text();
    assert_eq!(s.strip_prefix("https").unwrap(), i.strip_prefix("http").unwrap());
    assert!(stellar_toml_path("exa mple.org").is_err());
    assert!(stellar_toml_path_insecure("exa mple.org").is_err());
}

#[test]
fn resolve_success_binds_single_validator() {
    let body = b"[[VALIDATORS]]\nHOST = \"core1.example.org:11625\"\nHISTORY = \"https://history.example.org/\"\n";
    let m = resolve_response(200, body).unwrap();
    assert_eq!(m.validators.len(), 1);
    let v = &m.validators[0];
    assert_eq!(v.host, Some("core1.example.org:11625".to_string()));
    assert_eq!(
        v.history.as_ref().unwrap().to_text(),
        "https://history.example.org/"
    );
    assert!(v.alias.is_none());
    assert!(v.display_name.is_none());
    assert!(v.public_key.is_none());
}

#[test]
fn client_error_status_is_classified() {
    match resolve_response(404, b"missing") {
        Err(Error::ClientError { status, body_excerpt }) => {
            assert_eq!(status, 404);
            assert_eq!(body_excerpt, b"missing".to_vec());
        },
        _ => panic!("expected a client response error"),
    }
}

#[test]
fn server_error_status_is_classified() {
    match resolve_response(503, b"down") {
        Err(Error::ServerError { status, body_excerpt }) => {
            assert_eq!(status, 503);
            assert_eq!(body_excerpt, b"down".to_vec());
        },
        _ => panic!("expected a server response error"),
    }
}

#[test]
fn invalid_document_syntax_is_a_parse_error() {
    match resolve_response(200, b"not == toml") {
        Err(Error::TomlParseError(_)) => {},
        _ => panic!("expected a parse error"),
    }
    assert!(parse_document(b"not == toml").is_err());
}

#[test]
fn error_body_excerpt_is_bounded() {
    let body = vec![7u8; 1000];
    match resolve_response(418, &body) {
        Err(Error::ClientError { status, body_excerpt }) => {
            assert_eq!(status, 418);
            assert_eq!(body_excerpt.len(), 256);
            assert_eq!(body_excerpt, vec![7u8; 256]);
        },
        _ => panic!("expected a client response error"),
    }
}

#[test]
fn full_document_parses_and_binds() {
    let body = b"VERSION = \"2.0.0\"\n\
NETWORK_PASSPHRASE = \"Public Global Stellar Network ; September 2015\"\n\
FEDERATION_SERVER = \"https://api.example.org/federation\"\n\
SIGNING_KEY = \"GCZHXL5HXQX5ABDM26LHYRCQZ5OJFHLOPLZX47WEBP3V2PF5AVFK2A5D\"\n\
ACCOUNTS = [\"GCZHXL5HXQX5ABDM26LHYRCQZ5OJFHLOPLZX47WEBP3V2PF5AVFK2A5D\"]\n\
\n\
[DOCUMENTATION]\n\
ORG_NAME = \"Example Org\"\n\
\n\
[[CURRENCIES]]\n\
CODE = \"USD\"\n\
STATUS = \"live\"\n\
DISPLAY_DECIMALS = 2\n\
IS_ASSET_ANCHORED = true\n\
ANCHOR_ASSET_TYPE = \"fiat\"\n";
    let m = parse_stellar_toml(body).unwrap();
    assert_eq!(m.version, Some("2.0.0".to_string()));
    assert_eq!(
        m.network_passphrase,
        Some("Public Global Stellar Network ; September 2015".to_string())
    );
    assert_eq!(
        m.federation_server.as_ref().unwrap().to_text(),
        "https://api.example.org/federation"
    );
    assert_eq!(
        m.signing_key.as_ref().unwrap().to_text(),
        "GCZHXL5HXQX5ABDM26LHYRCQZ5OJFHLOPLZX47WEBP3V2PF5AVFK2A5D"
    );
    assert_eq!(m.accounts.len(), 1);
    assert_eq!(m.documentation.unwrap().org_name, Some("Example Org".to_string()));
    assert_eq!(m.currencies.len(), 1);
    let c = &m.currencies[0];
    assert_eq!(c.code, Some("USD".to_string()));
    assert_eq!(c.display_decimals, Some(2));
    assert_eq!(c.is_asset_anchored, Some(true));
    assert!(m.validators.is_empty());
}

#[test]
fn error_messages_name_the_failure_kind() {
    assert_eq!(
        Error::ClientError { status: 404, body_excerpt: Vec::new() }.message(),
        "client response error"
    );
    assert_eq!(
        Error::ServerError { status: 500, body_excerpt: Vec::new() }.message(),
        "server response error"
    );
    assert_eq!(Error::TomlParseError("m".to_string()).message(), "toml parse error");
    assert_eq!(Error::HyperError("m".to_string()).message(), "hyper error");
    assert_eq!(Error::InvalidUri("m".to_string()).message(), "invalid uri");
    assert_eq!(
        Error::FieldDecodingError { path: "version".to_string() }.message(),
        "field decoding error"
    );
}
