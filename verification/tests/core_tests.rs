use authgate::basic_auth::{validate_basic_auth, AuthOutcome};
use authgate::credentials::CredentialStore;
use authgate::scanner::find_authorization_line;
use base64::Engine;

fn store_alice_secret() -> CredentialStore {
    CredentialStore::with_pair(b"alice".to_vec(), b"secret".to_vec())
}

fn basic_line(token: &[u8]) -> Vec<u8> {
    let mut line = b"Authorization: Basic ".to_vec();
    line.extend_from_slice(token);
    line
}

#[test]
fn authorized_iff_exact_match() {
    let store = store_alice_secret();
    assert!(store.is_authorized(b"alice", b"secret"));
    assert!(!store.is_authorized(b"alice", b"Secret"));
    assert!(!store.is_authorized(b"Alice", b"secret"));
    assert!(!store.is_authorized(b"alice", b"secret "));
    assert!(!store.is_authorized(b"", b""));
    assert!(!store.is_authorized(b"alice:secret", b""));
}

#[test]
fn no_credentials_authorizes_everything() {
    let store = CredentialStore::open_access();
    assert!(store.is_authorized(b"anyone", b"anything"));
    assert!(store.is_authorized(b"", b""));
    assert!(store.is_authorized(b"\xff\xfe", b"\x00"));
    assert!(!store.requires_auth());
    assert!(store_alice_secret().requires_auth());
}

#[test]
fn scanner_finds_header_line() {
    let buf = b"GET / HTTP/1.1\r\nHost: x\r\nAuthorization: Basic abc\r\nAccept: */*\r\n\r\n";
    let line = find_authorization_line(buf).expect("header expected");
    assert_eq!(line, b"Authorization: Basic abc".to_vec());
}

#[test]
fn scanner_finds_header_at_buffer_start() {
    let line = find_authorization_line(b"Authorization: Basic xyz").expect("header expected");
    assert_eq!(line, b"Authorization: Basic xyz".to_vec());
}

#[test]
fn scanner_takes_first_header_only() {
    let buf = b"Authorization: Basic first\nAuthorization: Basic second\n";
    let line = find_authorization_line(buf).expect("header expected");
    assert_eq!(line, b"Authorization: Basic first".to_vec());
}

#[test]
fn scanner_requires_line_start() {
    assert_eq!(find_authorization_line(b"xAuthorization: Basic abc"), None);
    assert_eq!(find_authorization_line(b"GET / HTTP/1.1\r\nHost: y\r\n\r\n"), None);
    assert_eq!(find_authorization_line(b""), None);
    assert_eq!(find_authorization_line(b"Authorization:Basic abc"), None);
}

#[test]
fn scanner_strips_trailing_carriage_return_only() {
    let with_cr = find_authorization_line(b"Authorization: Basic t\r\nrest").unwrap();
    assert_eq!(with_cr, b"Authorization: Basic t".to_vec());
    let no_newline = find_authorization_line(b"Authorization: Basic t").unwrap();
    assert_eq!(no_newline, b"Authorization: Basic t".to_vec());
}

#[test]
fn round_trip_alice_secret_is_allowed() {
    let store = store_alice_secret();
    let token = base64::engine::general_purpose::STANDARD.encode(b"alice:secret");
    let line = basic_line(token.as_bytes());
    let outcome = validate_basic_auth(&line, &store);
    match outcome {
        AuthOutcome::Allowed { username } => assert_eq!(username, b"alice".to_vec()),
        _ => panic!("expected the round trip to authorize"),
    }
}

#[test]
fn every_single_character_mutation_is_rejected() {
    let store = store_alice_secret();
    let token = base64::engine::general_purpose::STANDARD.encode(b"alice:secret");
    let token = token.into_bytes();
    let mut alphabet: Vec<u8> = Vec::new();
    alphabet.extend(b'A'..=b'Z');
    alphabet.extend(b'a'..=b'z');
    alphabet.extend(b'0'..=b'9');
    alphabet.push(b'+');
    alphabet.push(b'/');
    alphabet.push(b'=');
    for pos in 0..token.len() {
        for &c in &alphabet {
            if c == token[pos] {
                continue;
            }
            let mut mutated = token.clone();
            mutated[pos] = c;
            let outcome = validate_basic_auth(&basic_line(&mutated), &store);
            assert!(
                !outcome.is_allowed(),
                "mutation at {} to {} must be rejected",
                pos,
                c as char
            );
        }
    }
}

#[test]
fn bearer_scheme_is_malformed() {
    let store = store_alice_secret();
    let outcome = validate_basic_auth(b"Authorization: Bearer xyz", &store);
    assert!(matches!(outcome, AuthOutcome::DeniedMalformedHeader));
}

#[test]
fn truncated_base64_is_decode_failure() {
    let store = store_alice_secret();
    let token = base64::engine::general_purpose::STANDARD.encode(b"alice:secret");
    let truncated = &token.as_bytes()[..token.len() - 1];
    let outcome = validate_basic_auth(&basic_line(truncated), &store);
    assert!(matches!(outcome, AuthOutcome::DeniedDecodeFailure));
}

#[test]
fn invalid_alphabet_is_decode_failure() {
    let store = store_alice_secret();
    let outcome = validate_basic_auth(b"Authorization: Basic !!!!", &store);
    assert!(matches!(outcome, AuthOutcome::DeniedDecodeFailure));
}

#[test]
fn non_utf8_credentials_are_parse_failure() {
    let store = store_alice_secret();
    // 0xff 0xfe is not UTF-8
    let token = base64::engine::general_purpose::STANDARD.encode([0xffu8, 0xfe]);
    let outcome = validate_basic_auth(&basic_line(token.as_bytes()), &store);
    assert!(matches!(outcome, AuthOutcome::DeniedCredentialParse));
}

#[test]
fn missing_colon_is_invalid_format() {
    let store = store_alice_secret();
    let token = base64::engine::general_purpose::STANDARD.encode(b"alicesecret");
    let outcome = validate_basic_auth(&basic_line(token.as_bytes()), &store);
    assert!(matches!(outcome, AuthOutcome::DeniedInvalidFormat));
}

#[test]
fn wrong_pair_is_denied_with_username() {
    let store = store_alice_secret();
    let token = base64::engine::general_purpose::STANDARD.encode(b"alice:wrong");
    let outcome = validate_basic_auth(&basic_line(token.as_bytes()), &store);
    match outcome {
        AuthOutcome::DeniedWrongCredentials { username } => {
            assert_eq!(username, b"alice".to_vec())
        }
        _ => panic!("expected a wrong-credentials denial"),
    }
}

#[test]
fn password_may_contain_colons() {
    // the credential text splits at the first colon only
    let store = CredentialStore::with_pair(b"alice".to_vec(), b"se:cret".to_vec());
    let token = base64::engine::general_purpose::STANDARD.encode(b"alice:se:cret");
    let outcome = validate_basic_auth(&basic_line(token.as_bytes()), &store);
    assert!(outcome.is_allowed());
}

#[test]
fn validator_accepts_line_without_prefix() {
    let store = store_alice_secret();
    let token = base64::engine::general_purpose::STANDARD.encode(b"alice:secret");
    let mut line = b"Basic ".to_vec();
    line.extend_from_slice(token.as_bytes());
    assert!(validate_basic_auth(&line, &store).is_allowed());
}

#[test]
fn validator_trims_surrounding_whitespace() {
    let store = store_alice_secret();
    let token = base64::engine::general_purpose::STANDARD.encode(b"alice:secret");
    let mut line = b"Authorization: \t Basic ".to_vec();
    line.extend_from_slice(token.as_bytes());
    line.extend_from_slice(b"  \t");
    assert!(validate_basic_auth(&line, &store).is_allowed());
}

#[test]
fn scanner_prefix_is_case_sensitive() {
    assert_eq!(find_authorization_line(b"authorization: Basic abc\r\n"), None);
    assert_eq!(find_authorization_line(b"AUTHORIZATION: Basic abc\r\n"), None);
}

#[test]
fn lowercase_scheme_is_malformed() {
    let store = store_alice_secret();
    let token = base64::engine::general_purpose::STANDARD.encode(b"alice:secret");
    let mut line = b"Authorization: basic ".to_vec();
    line.extend_from_slice(token.as_bytes());
    assert!(matches!(
        validate_basic_auth(&line, &store),
        AuthOutcome::DeniedMalformedHeader
    ));
}

#[test]
fn bare_scheme_without_token_is_malformed() {
    let store = store_alice_secret();
    let outcome = validate_basic_auth(b"Authorization: Basic", &store);
    assert!(matches!(outcome, AuthOutcome::DeniedMalformedHeader));
}

#[test]
fn empty_pair_round_trips() {
    let store = CredentialStore::with_pair(Vec::new(), Vec::new());
    let token = base64::engine::general_purpose::STANDARD.encode(b":");
    let outcome = validate_basic_auth(&basic_line(token.as_bytes()), &store);
    match outcome {
        AuthOutcome::Allowed { username } => assert!(username.is_empty()),
        _ => panic!("empty configured credentials still round-trip"),
    }
}

#[test]
fn validator_allows_everything_without_credentials() {
    let store = CredentialStore::open_access();
    let outcome = validate_basic_auth(b"Authorization: Bearer junk", &store);
    assert!(matches!(outcome, AuthOutcome::AllowedNoAuth));
}
