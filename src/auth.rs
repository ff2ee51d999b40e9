//! The per-request authorization guard in front of protected routes.

use vstd::prelude::*;
use crate::error::{ErrorKind, Failure};
use crate::text::has_prefix;
use crate::token::{
    claims_result_view, jwt_decoded, jwt_encoded, payload_of, rejected, signature_failure, token_outcome,
    validate_token, validation_outcome, Claims, ClaimsModel, TokenError,
};

pub use crate::duration::parse_jwt_exp;

verus! {

/// The prefix of a bearer credential in the `Authorization` header.
pub open spec fn bearer_prefix() -> Seq<char> {
    "Bearer "@
}

/// The token of an `Authorization` header value: what follows `Bearer `, when that is
/// not empty.
pub open spec fn bearer_of(h: Seq<char>) -> Option<Seq<char>> {
    if h.len() > 7 && h.subrange(0, 7) == bearer_prefix() {
        Some(h.subrange(7, h.len() as int))
    } else {
        None
    }
}

/// How the guard answers the validation result of a token: the claims go through, an expired token is
/// `AuthExpired`, every other failure `AuthInvalid`.
pub open spec fn guard_of_result(v: Result<ClaimsModel, TokenError>) -> Result<ClaimsModel, ErrorKind> {
    match v {
        Ok(c) => Ok(c),
        Err(TokenError::Expired) => Err(ErrorKind::AuthExpired),
        Err(_) => Err(ErrorKind::AuthInvalid),
    }
}

/// The guard's answer to a request whose `Authorization` header is `header`.
pub open spec fn guard_outcome(header: Option<Seq<char>>, secret: Seq<u8>, now: u64) -> Result<ClaimsModel, ErrorKind> {
    match header {
        None => Err(ErrorKind::AuthMissing),
        Some(h) => match bearer_of(h) {
            None => Err(ErrorKind::AuthInvalid),
            Some(t) => guard_of_result(token_outcome(t, secret, now)),
        },
    }
}

/// The guard's answer to a request bearing a token issued under its secret with claims
/// `sub`, `name` and expiry `exp`: the claims before `exp`, `AuthExpired` from then on.
pub open spec fn issued_answer(sub: Seq<char>, name: Seq<char>, exp: u64, now: u64) -> Result<ClaimsModel, ErrorKind> {
    if now < exp {
        Ok(ClaimsModel { sub, name, exp })
    } else {
        Err(ErrorKind::AuthExpired)
    }
}

/// `header` is `Bearer ` followed by the non-empty token issued with claims `sub`, `name`
/// and `exp` under `secret`.
pub open spec fn bears_issued(header: Option<Seq<char>>, sub: Seq<char>, name: Seq<char>, exp: u64, secret: Seq<u8>) -> bool {
    &&& jwt_encoded(sub, name, exp, secret).len() > 0
    &&& header == Some(bearer_prefix() + jwt_encoded(sub, name, exp, secret))
}

proof fn lemma_bearer_of_prefixed(t: Seq<char>)
    requires
        t.len() > 0,
    ensures
        bearer_of(bearer_prefix() + t) == Some(t),
{
    reveal_strlit("Bearer ");
    let h = bearer_prefix() + t;
    assert(h.subrange(0, 7) =~= bearer_prefix());
    assert(h.subrange(7, h.len() as int) =~= t);
}

/// Refusal of a request for the given reason.
pub open spec fn denied(k: ErrorKind) -> Result<ClaimsModel, ErrorKind> {
    Err(k)
}

pub open spec fn guard_result_view(r: Result<Claims, ErrorKind>) -> Result<ClaimsModel, ErrorKind> {
    match r {
        Ok(c) => Ok(c@),
        Err(e) => Err(e),
    }
}

/// Extracts the token of a `Bearer <token>` header value.
pub fn bearer_token(header: &str) -> (r: Option<&str>)
    ensures
        r matches Some(t) ==> bearer_of(header@) == Some(t@),
        r is None ==> bearer_of(header@) is None,
{
    let n = header.unicode_len();
    proof {
        reveal_strlit("Bearer ");
    }
    if n > 7 && has_prefix(header, "Bearer ") {
        Some(header.substring_char(7, n))
    } else {
        None
    }
}

/// Maps the validation result of a token to the guard's answer: `AuthExpired` for an expired token,
/// `AuthInvalid` for any other rejection, the claims otherwise.
pub fn guard_answer(outcome: Result<Claims, TokenError>) -> (r: Result<Claims, ErrorKind>)
    ensures
        guard_result_view(r) == guard_of_result(claims_result_view(outcome)),
{
    match outcome {
        Ok(c) => Ok(c),
        Err(TokenError::Expired) => Err(ErrorKind::AuthExpired),
        Err(_) => Err(ErrorKind::AuthInvalid),
    }
}

/// Decides whether a request may pass: no header is `AuthMissing`; a header that is not
/// `Bearer <token>` with a non-empty token is `AuthInvalid`; otherwise the token is
/// validated at `now` and its validation result mapped by [`guard_answer`].
pub fn authorize(header: Option<&str>, secret: &[u8], now: u64) -> (r: Result<Claims, ErrorKind>)
    ensures
        guard_result_view(r) == guard_outcome(header.deep_view(), secret@, now),
        forall|s: Seq<char>, n: Seq<char>, e: u64|
            (#[trigger] bears_issued(header.deep_view(), s, n, e, secret@) ==> guard_result_view(r) == issued_answer(s, n, e, now)),
{
    match header {
        None => {
            assert(header.deep_view() == None::<Seq<char>>);
            Err(ErrorKind::AuthMissing)
        },
        Some(h) => match bearer_token(h) {
            None => {
                proof {
                    assert forall|s: Seq<char>, n: Seq<char>, e: u64| #[trigger]
                        bears_issued(header.deep_view(), s, n, e, secret@) implies false by {
                        lemma_bearer_of_prefixed(jwt_encoded(s, n, e, secret@));
                    }
                }
                Err(ErrorKind::AuthInvalid)
            },
            Some(t) => {
                proof {
                    assert forall|s: Seq<char>, n: Seq<char>, e: u64| #[trigger]
                        bears_issued(header.deep_view(), s, n, e, secret@) implies t@ == jwt_encoded(s, n, e, secret@) by {
                        lemma_bearer_of_prefixed(jwt_encoded(s, n, e, secret@));
                    }
                }
                guard_answer(validate_token(t, secret, now))
            },
        },
    }
}

/// The description that goes with each way the guard turns a request away.
pub fn rejection(kind: ErrorKind) -> (r: Failure)
    requires
        kind == ErrorKind::AuthMissing || kind == ErrorKind::AuthInvalid || kind == ErrorKind::AuthExpired,
    ensures
        r.kind == kind,
        kind == ErrorKind::AuthMissing ==> r.desc@ == "Authorization is missing."@,
        kind == ErrorKind::AuthInvalid ==> r.desc@ == "Token is invalid."@,
        kind == ErrorKind::AuthExpired ==> r.desc@ == "Token has expired."@,
{
    match kind {
        ErrorKind::AuthMissing => Failure::new(kind, "Authorization is missing."),
        ErrorKind::AuthExpired => Failure::new(kind, "Token has expired."),
        _ => Failure::new(kind, "Token is invalid."),
    }
}

/// The guard in front of protected routes, holding the token secret.
pub struct JwtMiddleware {
    secret: Vec<u8>,
}

/// The guard wrapped around the next stage of the pipeline.
pub struct JwtMiddlewareMiddleware<S> {
    guard: JwtMiddleware,
    service: S,
}

impl JwtMiddleware {
    pub closed spec fn secret(&self) -> Seq<u8> {
        self.secret@
    }

    pub fn new(secret: &[u8]) -> (r: JwtMiddleware)
        ensures
            r.secret() == secret@,
    {
        JwtMiddleware { secret: vstd::slice::slice_to_vec(secret) }
    }

    /// The guard's answer to a request with `header` at instant `now`.
    pub fn check(&self, header: Option<&str>, now: u64) -> (r: Result<Claims, ErrorKind>)
        ensures
            guard_result_view(r) == guard_outcome(header.deep_view(), self.secret(), now),
                forall|s: Seq<char>, n: Seq<char>, e: u64|
                (#[trigger] bears_issued(header.deep_view(), s, n, e, self.secret()) ==> guard_result_view(r) == issued_answer(s, n, e, now)),
    {
        authorize(header, self.secret.as_slice(), now)
    }

    /// Puts the guard in front of `service`.
    pub fn new_transform<S>(&self, service: S) -> (r: JwtMiddlewareMiddleware<S>)
        ensures
            r.secret() == self.secret(),
            r.inner() == service,
    {
        JwtMiddlewareMiddleware { guard: JwtMiddleware { secret: self.secret.clone() }, service }
    }
}

impl<S> JwtMiddlewareMiddleware<S> {
    pub closed spec fn secret(&self) -> Seq<u8> {
        self.guard.secret()
    }

    pub closed spec fn inner(&self) -> S {
        self.service
    }

    /// The stage behind the guard.
    pub fn service(&self) -> (r: &S)
        ensures
            *r == self.inner(),
    {
        &self.service
    }

    /// The guard's answer to a request with `header` at instant `now`; only on `Ok` may the
    /// request go on to the stage behind, with the claims attached.
    pub fn call(&self, header: Option<&str>, now: u64) -> (r: Result<Claims, ErrorKind>)
        ensures
            guard_result_view(r) == guard_outcome(header.deep_view(), self.secret(), now),
                forall|s: Seq<char>, n: Seq<char>, e: u64|
                (#[trigger] bears_issued(header.deep_view(), s, n, e, self.secret()) ==> guard_result_view(r) == issued_answer(s, n, e, now)),
    {
        self.guard.check(header, now)
    }
}

/// A bearer token whose signature does not verify under the secret never passes the
/// guard: the validation calls it `BadSignature` and the guard answers `AuthInvalid`, at
/// every instant.
pub proof fn lemma_bad_signature_rejected(header: Seq<char>, secret: Seq<u8>, now: u64)
    requires
        bearer_of(header) is Some,
        jwt_decoded(bearer_of(header)->0, secret) == signature_failure(),
    ensures
        token_outcome(bearer_of(header)->0, secret, now) == rejected(TokenError::BadSignature),
        guard_outcome(Some(header), secret, now) == denied(ErrorKind::AuthInvalid),
{
}

} // verus!
