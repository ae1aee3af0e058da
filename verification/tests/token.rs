use cylinder::jwt::JsonWebTokenParser;
use cylinder::secp256k1::Secp256k1Context;
use cylinder::Context;
use cylinder_cli::error::CliError;
use cylinder_cli::key::PrivateKey;
use cylinder_cli::token::{build_token, generate_jwt, token_from, BUILD_FAILED};

const HEADER: &str = "eyJhbGciOiJzZWNwMjU2azEiLCJ0eXAiOiJjeWxpbmRlcitqd3QifQ==";

const TOKEN_OF_ONE: &str = "eyJhbGciOiJzZWNwMjU2azEiLCJ0eXAiOiJjeWxpbmRlcitqd3QifQ==.\
    eyJpc3MiOiIwMjc5YmU2NjdlZjlkY2JiYWM1NWEwNjI5NWNlODcwYjA3MDI5YmZjZGIyZGNlMjhkOTU5ZjI4MTViMTZmODE3OTgifQ==.\
    71Vw3+m9R4b8iZUzhRHOAtX/hO5WYA9PgMe27/CeZ6NhIXFYkBBzreoIGpHbfJ8UxT+1MLUgjsQB8TISafneRA==";

const TOKEN_OF_COUNT: &str = "eyJhbGciOiJzZWNwMjU2azEiLCJ0eXAiOiJjeWxpbmRlcitqd3QifQ==.\
    eyJpc3MiOiIwMjg0YmY3NTYyMjYyYmJkNjk0MDA4NTc0OGYzYmU2YWZhNTJhZTMxNzE1NTE4MWVjZTMxYjY2MzUxY2NmZmE0YjAifQ==.\
    FzqWOQwbyAqSIYHBXWR0z6GPHlRmdhx0dSewBu0acfxYasAfqYaFV37Xz6cYuCRc2InMKamh7SkE3VIrA8WOpw==";

/// The key whose scalar is one.
fn key_one() -> PrivateKey {
    let mut bytes = vec![0u8; 32];
    bytes[31] = 1;
    PrivateKey::new(bytes)
}

/// The key whose bytes count from one to thirty-two.
fn key_count() -> PrivateKey {
    PrivateKey::new((1u8..=32).collect())
}

fn token_of(key: PrivateKey) -> String {
    match build_token(key) {
        Ok(token) => token,
        Err(error) => panic!("no token: {}", error.to_string()),
    }
}

fn is_base64(part: &str) -> bool {
    !part.is_empty()
        && part.len() % 4 == 0
        && part.chars().all(|c| c.is_ascii_alphanumeric() || c == '+' || c == '/' || c == '=')
}

/// Checks what a key that cannot sign is told, down to the bottom of the chain.
fn assert_key_refused(error: &CliError) {
    assert_eq!(error.to_string(), "failed to build json web token");
    assert_eq!(error.debug_string(), "failed to build json web token");
    let build = error.source().expect("the build error is gone");
    assert_eq!(build.to_string(), "Unable to get the public key from the provided signer");
    let signing = build.source().expect("the signing error is gone");
    assert_eq!(signing.to_string(), "malformed or out-of-range secret key");
    assert!(signing.source().is_none());
}

#[test]
fn token_of_a_known_key() {
    assert_eq!(token_of(key_one()), TOKEN_OF_ONE);
    assert_eq!(token_of(key_count()), TOKEN_OF_COUNT);
}

#[test]
fn token_has_three_encoded_components() {
    let token = token_of(key_one());
    assert!(!token.is_empty());
    let parts: Vec<&str> = token.split('.').collect();
    assert_eq!(parts.len(), 3);
    for part in &parts {
        assert!(is_base64(part));
    }
    assert_eq!(parts[0], HEADER);
    // sixty-four bytes of signature
    assert_eq!(parts[2].len(), 88);
}

#[test]
fn token_is_the_same_each_time() {
    let first = token_of(key_count());
    let second = token_of(key_count());
    assert_eq!(first, second);
    assert_ne!(first, token_of(key_one()));
}

#[test]
fn token_verifies_under_the_public_key() {
    let context = Secp256k1Context::new();
    let verifier = context.new_verifier();
    let parser = JsonWebTokenParser::new(&*verifier);
    let token = token_of(key_count());
    let parsed = match parser.parse(&token) {
        Ok(parsed) => parsed,
        Err(err) => panic!("the token does not verify: {}", err),
    };
    let public_key = context
        .get_public_key(&cylinder::PrivateKey::new(key_count().into_bytes()))
        .expect("no public key");
    assert!(parsed.issuer() == &public_key);
    assert_eq!(parsed.header().get("alg"), Some(&"secp256k1".to_string()));
    assert_eq!(parsed.header().get("typ"), Some(&"cylinder+jwt".to_string()));
    assert_eq!(parsed.header().len(), 2);
    assert_eq!(parsed.claims().get("iss"), Some(&public_key.as_hex()));
    assert_eq!(parsed.claims().len(), 1);
}

#[test]
fn key_that_is_no_scalar_fails_the_build() {
    let order: Vec<u8> = vec![
        0xff, 0xff, 0xff, 0xff, 0xff, 0xff, 0xff, 0xff, 0xff, 0xff, 0xff, 0xff, 0xff, 0xff, 0xff,
        0xfe, 0xba, 0xae, 0xdc, 0xe6, 0xaf, 0x48, 0xa0, 0x3b, 0xbf, 0xd2, 0x5e, 0x8c, 0xd0, 0x36,
        0x41, 0x41,
    ];
    for bytes in [vec![0u8; 32], Vec::new(), vec![1u8; 31], vec![1u8; 33], order] {
        match build_token(PrivateKey::new(bytes)) {
            Ok(token) => panic!("a token was built: {}", token),
            Err(error) => assert_key_refused(&error),
        }
    }
}

#[test]
fn largest_scalar_signs() {
    let largest: Vec<u8> = vec![
        0xff, 0xff, 0xff, 0xff, 0xff, 0xff, 0xff, 0xff, 0xff, 0xff, 0xff, 0xff, 0xff, 0xff, 0xff,
        0xfe, 0xba, 0xae, 0xdc, 0xe6, 0xaf, 0x48, 0xa0, 0x3b, 0xbf, 0xd2, 0x5e, 0x8c, 0xd0, 0x36,
        0x41, 0x40,
    ];
    let token = token_of(PrivateKey::new(largest));
    assert_eq!(token.split('.').count(), 3);
    assert!(token.starts_with(HEADER));
}

#[test]
fn outcome_of_signing_becomes_the_result() {
    match token_from(Ok("a.b.c".to_string())) {
        Ok(token) => assert_eq!(token, "a.b.c"),
        Err(_) => panic!("the token was lost"),
    }
    match token_from(Err(vec!["cannot sign".to_string(), "bad key".to_string()])) {
        Ok(_) => panic!("a token was made up"),
        Err(error) => {
            assert_eq!(error.to_string(), BUILD_FAILED);
            let build = error.source().expect("the build error is gone");
            assert_eq!(build.to_string(), "cannot sign");
            assert_eq!(build.source().expect("the source is gone").to_string(), "bad key");
        }
    }
    match token_from(Err(vec!["cannot sign".to_string()])) {
        Ok(_) => panic!("a token was made up"),
        Err(error) => {
            assert_eq!(error.to_string(), "failed to build json web token");
            let build = error.source().expect("the build error is gone");
            assert_eq!(build.to_string(), "cannot sign");
            assert!(build.source().is_none());
        }
    }
}

#[test]
fn generate_builds_for_a_key_and_passes_an_error_on() {
    match generate_jwt(Ok(key_one())) {
        Ok(token) => assert_eq!(token, TOKEN_OF_ONE),
        Err(error) => panic!("no token: {}", error.to_string()),
    }
    match generate_jwt(Ok(PrivateKey::new(vec![0u8; 32]))) {
        Ok(token) => panic!("a token was built: {}", token),
        Err(error) => assert_key_refused(&error),
    }
    let not_found = CliError::with_message("No signing key found".to_string());
    match generate_jwt(Err(not_found)) {
        Ok(token) => panic!("a token was produced: {}", token),
        Err(error) => {
            assert_eq!(error.to_string(), "No signing key found");
            assert!(error.source().is_none());
        }
    }
}

#[test]
fn private_key_keeps_its_bytes() {
    let key = PrivateKey::new(vec![1, 2, 3, 4]);
    assert_eq!(key.as_slice(), &[1u8, 2, 3, 4]);
    assert!(key.clone() == key);
    assert!(key != PrivateKey::new(vec![1, 2, 3]));
    assert_eq!(key.into_bytes(), vec![1u8, 2, 3, 4]);
}
