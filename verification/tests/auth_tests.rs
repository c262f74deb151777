use dshp::auth::{check_proxy_auth, credentials_match, AuthOutcome, Credential};

fn credential(username: &str, password: &str) -> Credential {
    Credential {
        username: username.as_bytes().to_vec(),
        password: password.as_bytes().to_vec(),
    }
}

fn header(value: &str) -> Option<Vec<u8>> {
    Some(value.as_bytes().to_vec())
}

fn assert_is_challenge(outcome: AuthOutcome) {
    match outcome {
        AuthOutcome::Denied(resp) => {
            assert_eq!(resp.status, 407);
            assert_eq!(resp.body, "Proxy Authentication Required");
            assert_eq!(resp.headers.len(), 1);
            assert_eq!(resp.headers[0].0, "Proxy-Authenticate");
            assert_eq!(resp.headers[0].1, "Basic realm=\"dshp\"");
        }
        AuthOutcome::Allowed => panic!("expected a denial"),
    }
}

#[test]
fn allowed_with_correct_credentials() {
    let cred = Some(credential("alice", "secret"));
    // base64 of "alice:secret"
    let outcome = check_proxy_auth(&cred, &header("Basic YWxpY2U6c2VjcmV0"));
    assert!(matches!(outcome, AuthOutcome::Allowed));
}

#[test]
fn allowed_with_encoded_credentials() {
    let cred = Some(credential("user", "pa:ss"));
    let encoded = base64::Engine::encode(&base64::engine::general_purpose::STANDARD, "user:pa:ss");
    let outcome = check_proxy_auth(&cred, &header(&format!("Basic {}", encoded)));
    assert!(matches!(outcome, AuthOutcome::Allowed));
}

#[test]
fn denied_wrong_password() {
    let cred = Some(credential("alice", "secret"));
    let encoded = base64::Engine::encode(&base64::engine::general_purpose::STANDARD, "alice:wrong");
    let outcome = check_proxy_auth(&cred, &header(&format!("Basic {}", encoded)));
    assert_is_challenge(outcome);
}

#[test]
fn denied_wrong_case_credentials() {
    let cred = Some(credential("alice", "secret"));
    let encoded = base64::Engine::encode(&base64::engine::general_purpose::STANDARD, "Alice:secret");
    let outcome = check_proxy_auth(&cred, &header(&format!("Basic {}", encoded)));
    assert_is_challenge(outcome);
}

#[test]
fn denied_missing_header() {
    let cred = Some(credential("alice", "secret"));
    let outcome = check_proxy_auth(&cred, &None);
    assert_is_challenge(outcome);
}

#[test]
fn denied_garbled_base64() {
    let cred = Some(credential("alice", "secret"));
    let outcome = check_proxy_auth(&cred, &header("Basic !!!not-base64!!!"));
    assert_is_challenge(outcome);
}

#[test]
fn denied_non_utf8_payload() {
    let cred = Some(credential("alice", "secret"));
    let encoded =
        base64::Engine::encode(&base64::engine::general_purpose::STANDARD, [0xffu8, 0xfe, 0xfd]);
    let outcome = check_proxy_auth(&cred, &header(&format!("Basic {}", encoded)));
    assert_is_challenge(outcome);
}

#[test]
fn denied_wrong_scheme() {
    let cred = Some(credential("alice", "secret"));
    let outcome = check_proxy_auth(&cred, &header("basic YWxpY2U6c2VjcmV0"));
    assert_is_challenge(outcome);
}

#[test]
fn denied_empty_header() {
    let cred = Some(credential("alice", "secret"));
    let outcome = check_proxy_auth(&cred, &header(""));
    assert_is_challenge(outcome);
}

#[test]
fn no_credential_allows_everything() {
    let outcome = check_proxy_auth(&None, &None);
    assert!(matches!(outcome, AuthOutcome::Allowed));
    let outcome = check_proxy_auth(&None, &header("Basic garbage"));
    assert!(matches!(outcome, AuthOutcome::Allowed));
    let outcome = check_proxy_auth(&None, &header("anything at all"));
    assert!(matches!(outcome, AuthOutcome::Allowed));
}

#[test]
fn credentials_match_exact_bytes() {
    let cred = credential("alice", "secret");
    assert!(credentials_match(&b"alice:secret".to_vec(), &cred));
    assert!(!credentials_match(&b"alice:Secret".to_vec(), &cred));
    assert!(!credentials_match(&b"alice:secret ".to_vec(), &cred));
    assert!(!credentials_match(&b"alicesecret".to_vec(), &cred));
    assert!(!credentials_match(&b"".to_vec(), &cred));
}
