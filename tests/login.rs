use crud_api::config::Config;
use crud_api::error::ErrorKind;
use crud_api::auth::authorize;
use crud_api::login::{login, validate_login, LoginRequest};
use crud_api::password::{check_password, hash_password};
use crud_api::query::{ListQuery, Resource};
use crud_api::pagination::PaginationRequest;
use crud_api::users::User;

const KNOWN_HASH: &str = "$2a$04$UuTkLRZZ6QofpDOlMz32MuuxEHA43WOemOYHPz6.SjsVsyO1tDU96";

fn config(exp: &str) -> Config {
    Config {
        database_url: "postgres://localhost/db".to_string(),
        port: "8080".to_string(),
        secret_key_jwt: "login-secret".to_string(),
        jwt_exp: exp.to_string(),
    }
}

fn request(u: &str, p: &str) -> LoginRequest {
    LoginRequest { username: u.to_string(), password: p.to_string() }
}

fn account() -> User {
    User { id: 1, username: "erin".to_string(), email: "erin@x.org".to_string(), password: KNOWN_HASH.to_string() }
}

#[test]
fn stored_hash_is_checked() {
    assert!(check_password("password", KNOWN_HASH));
    assert!(!check_password("Password", KNOWN_HASH));
    assert!(!check_password("password", "not a hash"));
}

#[test]
fn hashed_password_checks() {
    let h = hash_password("hunter2").unwrap();
    assert_ne!(h, "hunter2");
    assert_eq!(h.len(), 60);
    assert!(h.starts_with("$2b$12$"));
    assert!(check_password("hunter2", &h));
}

#[test]
fn both_credentials_are_required() {
    assert!(validate_login(&request("erin", "pw")).is_ok());
    let f = validate_login(&request("erin", " ")).unwrap_err();
    assert_eq!((f.kind, f.desc.as_str()), (ErrorKind::ValidationRequired, "username or password required"));
    let f = login(&request("", ""), None, false, &config("1h"), 0).unwrap_err();
    assert_eq!(f.kind, ErrorKind::ValidationRequired);
}

#[test]
fn bad_credentials_are_unauthorized() {
    let a = account();
    let f = login(&request("erin", "nope"), Some(&a), false, &config("1h"), 0).unwrap_err();
    assert_eq!((f.kind, f.desc.as_str()), (ErrorKind::AuthInvalid, "Unauthorized"));
    let f = login(&request("nobody", "pw"), None, true, &config("1h"), 0).unwrap_err();
    assert_eq!(f.kind, ErrorKind::AuthInvalid);
}

#[test]
fn bad_expiry_setting_is_internal() {
    let a = account();
    let f = login(&request("erin", "password"), Some(&a), true, &config("1w"), 0).unwrap_err();
    assert_eq!((f.kind, f.desc.as_str()), (ErrorKind::Internal, "Invalid JWT_EXP format: 1w"));
    assert_eq!(f.kind.status(), 500);
    let f = login(&request("erin", "password"), Some(&a), true, &config("1s"), u64::MAX).unwrap_err();
    assert_eq!(f.kind, ErrorKind::Internal);
}

#[test]
fn login_then_protected_request() {
    let cfg = config("15m");
    let a = account();
    let req = request("erin", "password");
    let ok = check_password(&req.password, &a.password);
    let now = 1_700_000_000;
    let token = login(&req, Some(&a), ok, &cfg, now).unwrap();
    assert!(!token.token.is_empty());
    let header = format!("Bearer {}", token.token);

    let claims = authorize(Some(&header), cfg.secret_key_jwt.as_bytes(), now + 899).unwrap();
    assert_eq!((claims.sub.as_str(), claims.exp), ("erin", now + 900));

    let expired = authorize(Some(&header), cfg.secret_key_jwt.as_bytes(), now + 900).unwrap_err();
    assert_eq!((expired, expired.status()), (ErrorKind::AuthExpired, 401));

    let missing = authorize(None, cfg.secret_key_jwt.as_bytes(), now).unwrap_err();
    assert_eq!((missing, missing.status()), (ErrorKind::AuthMissing, 401));

    let p = PaginationRequest::new(0, 0, "id", "asc");
    let q = ListQuery::build(Resource::Items, &p, &vec![("name".to_string(), "foo".to_string())]);
    assert!(q.sql.contains("strpos(lower(name), lower($1)) > 0"));
    assert_eq!(q.params, vec!["foo".to_string()]);
}

#[test]
fn ttl_comes_from_config() {
    assert_eq!(config("2d").token_ttl().unwrap(), 172800);
    assert_eq!(config("x").token_ttl().unwrap_err().kind, ErrorKind::Internal);
    assert_eq!(config("").secret_bytes(), b"login-secret");
}
