use jwt_compact::AlgorithmExt;
use uma_protection::oidc::{
    check_audience, check_issuer_trust, issuer_config_url, select_jwk, verify_signature,
    verify_times, verify_token, verify_token_at, AccessTokenClaims, AuthError, Jwk, WebIdDocument,
};

fn claims(aud: &[&str], azp: &str, iss: &str, iat: i64, exp: i64, nbf: Option<i64>) -> AccessTokenClaims {
    AccessTokenClaims {
        webid: "https://alice.example/profile".to_string(),
        iss: iss.to_string(),
        sub: "https://alice.example/profile#me".to_string(),
        aud: aud.iter().map(|s| s.to_string()).collect(),
        azp: azp.to_string(),
        nbf,
        iat,
        exp,
        jkt: "thumb-1".to_string(),
    }
}

fn hs256_token(key_bytes: &[u8]) -> String {
    let key = jwt_compact::alg::Hs256Key::new(key_bytes);
    let custom = serde_json::Value::Object(serde_json::Map::new());
    let token_claims = jwt_compact::Claims::new(custom);
    jwt_compact::alg::Hs256
        .token(&jwt_compact::Header::empty(), &token_claims, &key)
        .expect("token creation succeeds")
}

#[test]
fn audience_must_hold_protocol_literal_and_azp() {
    let ok = claims(&["solid", "https://client.example"], "https://client.example", "https://issuer.example", 0, 10, None);
    assert_eq!(check_audience(&ok), Ok(()));
    let no_solid = claims(&["https://client.example"], "https://client.example", "https://issuer.example", 0, 10, None);
    assert_eq!(check_audience(&no_solid), Err(AuthError::InvalidAudience));
    let no_azp = claims(&["solid"], "https://client.example", "https://issuer.example", 0, 10, None);
    assert_eq!(check_audience(&no_azp), Err(AuthError::InvalidAudience));
}

#[test]
fn temporal_checks_reject_in_order() {
    let c = claims(&["solid", "c"], "c", "i", 100, 200, Some(150));
    assert_eq!(verify_times(&c, 50), Err(AuthError::TokenIssuedInFuture));
    assert_eq!(verify_times(&c, 250), Err(AuthError::TokenExpired));
    assert_eq!(verify_times(&c, 120), Err(AuthError::TokenNotYetValid));
    assert_eq!(verify_times(&c, 160), Ok(()));
    let boundary = claims(&["solid", "c"], "c", "i", 100, 200, None);
    assert_eq!(verify_times(&boundary, 100), Ok(()));
    assert_eq!(verify_times(&boundary, 200), Ok(()));
}

#[test]
fn issuer_trust_requires_listing() {
    let c = claims(&["solid", "c"], "c", "https://issuer.example", 0, 10, None);
    let trusting = WebIdDocument {
        issuers: vec!["https://other.example".to_string(), "https://issuer.example".to_string()],
    };
    assert_eq!(check_issuer_trust(&c, &trusting), Ok(()));
    let refusing = WebIdDocument { issuers: vec!["https://other.example".to_string()] };
    assert_eq!(check_issuer_trust(&c, &refusing), Err(AuthError::IssuerNotAllowed));
}

#[test]
fn key_selection_goes_by_thumbprint() {
    let keys = vec![
        Jwk { jkt: "thumb-0".to_string(), key: b"k0".to_vec() },
        Jwk { jkt: "thumb-1".to_string(), key: b"k1".to_vec() },
    ];
    let jkt = "thumb-1".to_string();
    assert_eq!(select_jwk(&keys, &jkt), Ok(1));
    let absent = "thumb-9".to_string();
    assert_eq!(select_jwk(&keys, &absent), Err(AuthError::NoMatchingJwk));
}

#[test]
fn signature_validates_against_the_bound_key() {
    let secret = b"a-32-byte-demonstration-secret!!";
    let token = hs256_token(secret);
    let keys = vec![Jwk { jkt: "thumb-1".to_string(), key: secret.to_vec() }];
    let jkt = "thumb-1".to_string();
    assert_eq!(verify_signature(&token, &keys, &jkt), Ok(()));

    let wrong_keys = vec![Jwk { jkt: "thumb-1".to_string(), key: b"another-key".to_vec() }];
    assert_eq!(verify_signature(&token, &wrong_keys, &jkt), Err(AuthError::InvalidSignature));

    let unmatched = "thumb-2".to_string();
    assert_eq!(verify_signature(&token, &keys, &unmatched), Err(AuthError::NoMatchingJwk));
}

#[test]
fn valid_token_verifies_end_to_end() {
    let secret = b"a-32-byte-demonstration-secret!!";
    let token = hs256_token(secret);
    let c = claims(
        &["solid", "https://client.example"],
        "https://client.example",
        "https://issuer.example",
        100,
        2_000_000_000,
        None,
    );
    let doc = WebIdDocument { issuers: vec!["https://issuer.example".to_string()] };
    let keys = vec![Jwk { jkt: "thumb-1".to_string(), key: secret.to_vec() }];
    assert_eq!(verify_token_at(&token, &c, &doc, &keys, 1000), Ok(()));
    // The wall-clock variant decides alike while the window is this wide.
    assert_eq!(verify_token(&token, &c, &doc, &keys), Ok(()));
}

#[test]
fn expired_token_is_rejected_whatever_else_holds() {
    let secret = b"a-32-byte-demonstration-secret!!";
    let token = hs256_token(secret);
    let c = claims(
        &["solid", "https://client.example"],
        "https://client.example",
        "https://issuer.example",
        100,
        200,
        None,
    );
    let doc = WebIdDocument { issuers: vec!["https://issuer.example".to_string()] };
    let keys = vec![Jwk { jkt: "thumb-1".to_string(), key: secret.to_vec() }];
    assert_eq!(verify_token_at(&token, &c, &doc, &keys, 300), Err(AuthError::TokenExpired));
}

#[test]
fn untrusted_issuer_is_rejected_despite_a_valid_signature() {
    let secret = b"a-32-byte-demonstration-secret!!";
    let token = hs256_token(secret);
    let c = claims(
        &["solid", "https://client.example"],
        "https://client.example",
        "https://issuer.example",
        100,
        2_000_000_000,
        None,
    );
    let doc = WebIdDocument { issuers: vec!["https://somebody-else.example".to_string()] };
    let keys = vec![Jwk { jkt: "thumb-1".to_string(), key: secret.to_vec() }];
    assert_eq!(verify_token_at(&token, &c, &doc, &keys, 1000), Err(AuthError::IssuerNotAllowed));
}

#[test]
fn discovery_location_is_the_trimmed_issuer_plus_the_suffix() {
    let plain = "https://issuer.example".to_string();
    assert_eq!(
        issuer_config_url(&plain),
        "https://issuer.example/.well-known/openid-configuration"
    );
    let one_slash = "https://issuer.example/".to_string();
    assert_eq!(
        issuer_config_url(&one_slash),
        "https://issuer.example/.well-known/openid-configuration"
    );
    let many_slashes = "https://issuer.example///".to_string();
    assert_eq!(
        issuer_config_url(&many_slashes),
        "https://issuer.example/.well-known/openid-configuration"
    );
}
