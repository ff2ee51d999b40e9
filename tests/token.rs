use crud_api::token::{
    check_decoded, issue_token, validate_token, DecodeFailure, DecodedToken, IssueError, TokenError,
};

const SECRET: &[u8] = b"a-test-secret";
const NOW: u64 = 1_700_000_000;

fn flip_last_char(token: &str) -> String {
    let mut chars: Vec<char> = token.chars().collect();
    let last = chars.len() - 1;
    chars[last] = if chars[last] == 'A' { 'B' } else { 'A' };
    chars.into_iter().collect()
}

#[test]
fn issued_token_validates_before_expiry() {
    let token = issue_token("alice", "Alice", NOW, 3600, SECRET).unwrap();
    for eps in [0u64, 1, 1800, 3599] {
        let claims = validate_token(&token, SECRET, NOW + eps).unwrap();
        assert_eq!(claims.sub, "alice");
        assert_eq!(claims.name, "Alice");
        assert_eq!(claims.exp, NOW + 3600);
    }
}

#[test]
fn issued_token_expires_at_its_expiry() {
    let token = issue_token("alice", "Alice", NOW, 3600, SECRET).unwrap();
    assert_eq!(validate_token(&token, SECRET, NOW + 3600).err(), Some(TokenError::Expired));
    assert_eq!(validate_token(&token, SECRET, NOW + 3601).err(), Some(TokenError::Expired));
    assert_eq!(validate_token(&token, SECRET, u64::MAX).err(), Some(TokenError::Expired));
}

#[test]
fn token_is_deterministic() {
    let a = issue_token("bob", "Bob", NOW, 60, SECRET).unwrap();
    let b = issue_token("bob", "Bob", NOW, 60, SECRET).unwrap();
    assert_eq!(a, b);
    assert_eq!(a.split('.').count(), 3);
    let c = issue_token("bob", "Bob", NOW, 61, SECRET).unwrap();
    assert_ne!(a, c);
}

#[test]
fn flipped_signature_is_bad_signature() {
    let token = issue_token("alice", "Alice", NOW, 3600, SECRET).unwrap();
    let forged = flip_last_char(&token);
    assert_eq!(validate_token(&forged, SECRET, NOW).err(), Some(TokenError::BadSignature));
}

#[test]
fn other_secret_is_bad_signature() {
    let token = issue_token("alice", "Alice", NOW, 3600, SECRET).unwrap();
    assert_eq!(validate_token(&token, b"another", NOW).err(), Some(TokenError::BadSignature));
}

#[test]
fn garbage_is_malformed() {
    assert_eq!(validate_token("not-a-token", SECRET, NOW).err(), Some(TokenError::Malformed));
    assert_eq!(validate_token("", SECRET, NOW).err(), Some(TokenError::Malformed));
    assert_eq!(validate_token("a.b.c", SECRET, NOW).err(), Some(TokenError::Malformed));
}

#[test]
fn unicode_claims_round_trip() {
    let token = issue_token("ünïcödé \"quoted\"", "名前", NOW, 10, SECRET).unwrap();
    let claims = validate_token(&token, SECRET, NOW).unwrap();
    assert_eq!(claims.sub, "ünïcödé \"quoted\"");
    assert_eq!(claims.name, "名前");
}

#[test]
fn expiry_overflow_is_refused() {
    assert_eq!(issue_token("a", "a", u64::MAX, 1, SECRET), Err(IssueError::ExpiryOverflow));
    assert!(issue_token("a", "a", u64::MAX - 1, 1, SECRET).is_ok());
}

fn decoded(sub: Option<&str>, name: Option<&str>, exp: Option<u64>) -> DecodedToken {
    DecodedToken { sub: sub.map(String::from), name: name.map(String::from), exp }
}

#[test]
fn decoded_claims_are_judged() {
    let ok = check_decoded(Ok(decoded(Some("s"), Some("n"), Some(100))), 99).unwrap();
    assert_eq!((ok.sub.as_str(), ok.name.as_str(), ok.exp), ("s", "n", 100));
    assert_eq!(check_decoded(Ok(decoded(Some("s"), Some("n"), Some(100))), 100).err(), Some(TokenError::Expired));
    assert_eq!(check_decoded(Ok(decoded(None, Some("n"), Some(100))), 0).err(), Some(TokenError::Malformed));
    assert_eq!(check_decoded(Ok(decoded(Some("s"), None, Some(100))), 0).err(), Some(TokenError::Malformed));
    assert_eq!(check_decoded(Ok(decoded(Some("s"), Some("n"), None)), 0).err(), Some(TokenError::Malformed));
    assert_eq!(check_decoded(Err(DecodeFailure::Structure), 0).err(), Some(TokenError::Malformed));
    assert_eq!(check_decoded(Err(DecodeFailure::Signature), 0).err(), Some(TokenError::BadSignature));
}
