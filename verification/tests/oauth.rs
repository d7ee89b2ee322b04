use mysk_lib::auth::oauth::{
    code_exchange_url, find_modulus, key_id_from_header, oauth_init_url, oauth_state_from_random,
    to_hex_lower, token_key_id, CodeExchangeQueryParams, GoogleOAuthInitQueryParams, GooglePublicKey,
    GoogleUserResult, TokenPayload, GOOGLE_OAUTH_SCOPE,
};
use mysk_lib::auth::oauth::generate_oauth_state;
use mysk_lib::error::Error;
use mysk_lib::models::auth::oauth as older;

const HEADER_WITH_KID: &str = "eyJhbGciOiJSUzI1NiIsImtpZCI6ImtleS0xIiwidHlwIjoiSldUIn0";
const HEADER_WITHOUT_KID: &str = "eyJhbGciOiJSUzI1NiIsInR5cCI6IkpXVCJ9";

fn key(kid: &str, n: &str) -> GooglePublicKey {
    GooglePublicKey {
        alg: "RS256".to_string(),
        e: "AQAB".to_string(),
        kid: kid.to_string(),
        kty: "RSA".to_string(),
        n: n.to_string(),
        use_: "sig".to_string(),
    }
}

fn payload() -> TokenPayload {
    TokenPayload::new(
        "client".to_string(),
        "party".to_string(),
        "somchai@sk.ac.th".to_string(),
        true,
        2000,
        "Somchai".to_string(),
        "Jaidee".to_string(),
        1000,
        "https://accounts.google.com".to_string(),
        "Somchai Jaidee".to_string(),
        "1234567890".to_string(),
    )
}

#[test]
fn user_from_token_payload() {
    let u = GoogleUserResult::from_token_payload(payload());
    assert_eq!(u.id, "1234567890");
    assert_eq!(u.email, "somchai@sk.ac.th");
    assert!(u.verified_email);
    assert_eq!(u.name, "Somchai Jaidee");
    assert_eq!(u.given_name, "Somchai");
    assert_eq!(u.family_name, "Jaidee");
}

#[test]
fn user_from_token_payload_with_picture() {
    let p = older::TokenPayload::new(
        "client".to_string(),
        "party".to_string(),
        "a@sk.ac.th".to_string(),
        false,
        2000,
        "A".to_string(),
        "B".to_string(),
        1000,
        "https://accounts.google.com".to_string(),
        "jti".to_string(),
        "A B".to_string(),
        900,
        "https://example.com/a.png".to_string(),
        "42".to_string(),
    );
    let u = older::GoogleUserResult::from_token_payload(p);
    assert_eq!(u.id, "42");
    assert_eq!(u.email, "a@sk.ac.th");
    assert!(!u.verified_email);
    assert_eq!(u.name, "A B");
    assert_eq!(u.given_name, "A");
    assert_eq!(u.family_name, "B");
    assert_eq!(u.picture, "https://example.com/a.png");
}

#[test]
fn modulus_of_the_last_key_with_the_identifier() {
    let keys = vec![key("a", "n1"), key("b", "n2"), key("a", "n3")];
    assert_eq!(find_modulus(&keys, "a"), Some("n3".to_string()));
    assert_eq!(find_modulus(&keys, "b"), Some("n2".to_string()));
    assert_eq!(find_modulus(&keys, "c"), None);
    assert_eq!(find_modulus(&Vec::new(), "a"), None);
}

#[test]
fn key_id_of_a_decoded_header() {
    assert_eq!(key_id_from_header(Ok(Some("k".to_string())), false).unwrap(), "k");
    match key_id_from_header(Ok(None), true) {
        Err(Error::InternalServerError(d, s)) => {
            assert_eq!(d, "No `kid` field in header");
            assert_eq!(s, "verify_id_token");
        }
        other => panic!("unexpected {:?}", other),
    }
    match key_id_from_header(Err("bad".to_string()), true) {
        Err(Error::InternalServerError(d, s)) => {
            assert_eq!(d, "bad");
            assert_eq!(s, "jsonwebtoken");
        }
        other => panic!("unexpected {:?}", other),
    }
    match key_id_from_header(Err("bad".to_string()), false) {
        Err(Error::InternalServerError(d, s)) => {
            assert_eq!(d, "Internal server error");
            assert_eq!(s, "jsonwebtoken");
        }
        other => panic!("unexpected {:?}", other),
    }
}

#[test]
fn key_id_read_from_a_token() {
    let token = format!("{HEADER_WITH_KID}.e30.c2ln");
    assert_eq!(token_key_id(&token, true).unwrap(), "key-1");
    let token = format!("{HEADER_WITHOUT_KID}.e30.c2ln");
    match token_key_id(&token, true) {
        Err(Error::InternalServerError(d, _)) => assert_eq!(d, "No `kid` field in header"),
        other => panic!("unexpected {:?}", other),
    }
    match token_key_id("one.dot", false) {
        Err(Error::InternalServerError(d, s)) => {
            assert_eq!(d, "Internal server error");
            assert_eq!(s, "jsonwebtoken");
        }
        other => panic!("unexpected {:?}", other),
    }
    match token_key_id("not-a-token", true) {
        Err(Error::InternalServerError(d, s)) => {
            assert_eq!(d, "InvalidToken");
            assert_eq!(s, "jsonwebtoken");
        }
        other => panic!("unexpected {:?}", other),
    }
}

#[test]
fn key_id_read_from_a_token_with_messages() {
    let token = format!("{HEADER_WITH_KID}.e30.c2ln");
    assert_eq!(older::token_key_id(&token), Ok("key-1".to_string()));
    let token = format!("{HEADER_WITHOUT_KID}.e30.c2ln");
    assert_eq!(older::token_key_id(&token), Err("Missing 'kid' in ID token header".to_string()));
    assert_eq!(older::token_key_id("x"), Err("InvalidToken".to_string()));
    assert_eq!(older::token_key_id("x.y"), Err("InvalidToken".to_string()));
    assert_eq!(older::key_id_from_header(Err("m".to_string())), Err("m".to_string()));
    assert_eq!(older::key_id_from_header(Ok(Some("k".to_string()))), Ok("k".to_string()));
}

#[test]
fn hex_is_lower_case_two_digits_per_byte() {
    assert_eq!(to_hex_lower(&[]), "");
    assert_eq!(to_hex_lower(&[0x00, 0x0f, 0xa0, 0xff]), "000fa0ff");
}

#[test]
fn oauth_state_is_the_hex_sha256_of_the_random_bytes() {
    assert_eq!(
        oauth_state_from_random(&[0u8; 32]),
        "66687aadf862bd776c8fc18b8e9f8e20089714856ee233b3902a591d0d5f2925"
    );
}

#[test]
fn fresh_oauth_state_is_64_hex_digits() {
    let s = generate_oauth_state().unwrap();
    assert_eq!(s.len(), 64);
    assert!(s.chars().all(|c| c.is_ascii_hexdigit() && !c.is_ascii_uppercase()));
}

#[test]
fn oauth_init_parameters() {
    let p = GoogleOAuthInitQueryParams::new("cid", "https://x/cb", "st".to_string(), true);
    assert_eq!(p.client_id, "cid");
    assert_eq!(p.redirect_uri, "https://x/cb");
    assert_eq!(p.response_type, "code");
    assert_eq!(
        p.scope,
        "openid https://www.googleapis.com/auth/userinfo.email https://www.googleapis.com/auth/userinfo.profile"
    );
    assert_eq!(p.scope, GOOGLE_OAUTH_SCOPE);
    assert_eq!(p.access_type, "online");
    assert_eq!(p.state, "st");
    assert!(p.include_granted_scopes);
    assert_eq!(p.hd, "sk.ac.th");
    assert_eq!(p.prompt, Some("select_account".to_string()));
    let p = GoogleOAuthInitQueryParams::new("cid", "u", "st".to_string(), false);
    assert_eq!(p.prompt, None);
}

#[test]
fn oauth_urls() {
    assert_eq!(oauth_init_url("a=b"), "https://accounts.google.com/o/oauth2/v2/auth?a=b");
    assert_eq!(code_exchange_url("c=d"), "https://oauth2.googleapis.com/token?c=d");
}

#[test]
fn code_exchange_parameters() {
    let p = CodeExchangeQueryParams::new("code", "cid", "secret", "https://x/cb");
    assert_eq!(p.code, "code");
    assert_eq!(p.client_id, "cid");
    assert_eq!(p.client_secret, "secret");
    assert_eq!(p.grant_type, "authorization_code");
    assert_eq!(p.redirect_uri, "https://x/cb");
}
