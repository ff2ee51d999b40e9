//! The login use-case: checking credentials and issuing a token.

use vstd::prelude::*;
use crate::config::Config;
use crate::error::{ErrorKind, Failure};
use crate::text::{blank, is_blank};
use crate::token::{issue_token, jwt_encoded, Token};
use crate::users::User;

verus! {

/// The credentials of a login.
pub struct LoginRequest {
    pub username: String,
    pub password: String,
}

/// Both credentials are given.
pub open spec fn credentials_given(req: &LoginRequest) -> bool {
    !blank(req.username@) && !blank(req.password@)
}

/// Checks that both credentials are given.
pub fn validate_login(req: &LoginRequest) -> (r: Result<(), Failure>)
    ensures
        r is Ok <==> credentials_given(req),
        r matches Err(f) ==> f.kind == ErrorKind::ValidationRequired && f.desc@ == "username or password required"@,
{
    if is_blank(req.username.as_str()) || is_blank(req.password.as_str()) {
        Err(Failure::new(ErrorKind::ValidationRequired, "username or password required"))
    } else {
        Ok(())
    }
}

/// Decides a login at instant `now`, given the account found for the submitted name (by
/// username or email) and whether the submitted password matched its hash.
///
/// Missing credentials are `ValidationRequired`; an unknown account or a wrong password
/// `AuthInvalid`; an unreadable expiry setting or an expiry past the range of instants
/// `Internal`. Otherwise the login succeeds, and the non-empty token names the account's username as
/// subject and display name, and expires the configured lifetime after `now`.
pub fn login(req: &LoginRequest, account: Option<&User>, password_ok: bool, config: &Config, now: u64) -> (r: Result<Token, Failure>)
    ensures
        !credentials_given(req) ==> (r matches Err(f) && f.kind == ErrorKind::ValidationRequired),
        credentials_given(req) && (account is None || !password_ok) ==> (r matches Err(f) && f.kind == ErrorKind::AuthInvalid
            && f.desc@ == "Unauthorized"@),
        credentials_given(req) && account is Some && password_ok && config.ttl() is None ==> (r matches Err(f) && f.kind
            == ErrorKind::Internal),
        credentials_given(req) && account is Some && password_ok && config.ttl() is Some && now + config.ttl()->0
            > u64::MAX ==> (r matches Err(f) && f.kind == ErrorKind::Internal),
        credentials_given(req) && account is Some && password_ok && config.ttl() is Some && now + config.ttl()->0
            <= u64::MAX ==> r is Ok,
        r matches Err(f) ==> (f.kind == ErrorKind::ValidationRequired || f.kind == ErrorKind::AuthInvalid || f.kind
            == ErrorKind::Internal),
        r matches Ok(tok) ==> (credentials_given(req) && password_ok && account is Some && config.ttl() is Some && now
            + config.ttl()->0 <= u64::MAX && tok.token@ == jwt_encoded(
            account->0.username@,
            account->0.username@,
            (now + config.ttl()->0) as u64,
            config.secret(),
        )),
        r matches Ok(tok) ==> tok.token@.len() > 0,
{
    validate_login(req)?;
    let user = match account {
        Some(u) => if password_ok { u } else { return Err(Failure::new(ErrorKind::AuthInvalid, "Unauthorized")) },
        None => return Err(Failure::new(ErrorKind::AuthInvalid, "Unauthorized")),
    };
    let ttl = config.token_ttl()?;
    let name = user.username.as_str();
    match issue_token(name, name, now, ttl, config.secret_bytes()) {
        Ok(token) => Ok(Token { token }),
        Err(_) => Err(Failure::new(ErrorKind::Internal, "Internal Server Error")),
    }
}

} // verus!
