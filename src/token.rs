//! Issuing and validating signed, time-bounded identity tokens (HS256).

use vstd::prelude::*;
use jsonwebtoken::errors::ErrorKind as JwtErrorKind;
use jsonwebtoken::{Algorithm, DecodingKey, EncodingKey, Header, Validation};
use serde_json::Value;

verus! {

/// The identity that a token carries: its subject, a display name and the instant
/// (seconds since the epoch) from which it is no longer accepted.
#[derive(Debug)]
pub struct Claims {
    pub sub: String,
    pub name: String,
    pub exp: u64,
}

/// The mathematical content of [`Claims`].
pub struct ClaimsModel {
    pub sub: Seq<char>,
    pub name: Seq<char>,
    pub exp: u64,
}

impl View for Claims {
    type V = ClaimsModel;

    open spec fn view(&self) -> ClaimsModel {
        ClaimsModel { sub: self.sub@, name: self.name@, exp: self.exp }
    }
}

/// A token handed to a client after a successful login.
#[derive(Debug)]
pub struct Token {
    pub token: String,
}

/// Why a token was not accepted, in the order in which the checks are made.
#[derive(PartialEq, Eq, Structural, Clone, Copy, Debug)]
pub enum TokenError {
    /// The token does not parse as a signed token carrying the expected claims.
    Malformed,
    /// The token parses but its signature does not verify under the secret.
    BadSignature,
    /// The signature verifies but the token's expiry is not after the current instant.
    Expired,
}

/// Why a token could not be issued.
#[derive(PartialEq, Eq, Structural, Clone, Copy, Debug)]
pub enum IssueError {
    /// `now + ttl` does not fit in a `u64`.
    ExpiryOverflow,
}

/// How the signature check of a token failed.
#[derive(PartialEq, Eq, Structural, Clone, Copy, Debug)]
pub enum DecodeFailure {
    /// The token is not three dot-separated parts with a readable header and payload.
    Structure,
    /// The header names another algorithm, or the signature does not match.
    Signature,
}

/// The members `sub`, `name` and `exp` of a payload whose signature verified; a member
/// that is absent or of another JSON type is `None`.
#[derive(Debug)]
pub struct DecodedToken {
    pub sub: Option<String>,
    pub name: Option<String>,
    pub exp: Option<u64>,
}

pub struct DecodedModel {
    pub sub: Option<Seq<char>>,
    pub name: Option<Seq<char>>,
    pub exp: Option<u64>,
}

impl View for DecodedToken {
    type V = DecodedModel;

    open spec fn view(&self) -> DecodedModel {
        DecodedModel { sub: self.sub.deep_view(), name: self.name.deep_view(), exp: self.exp }
    }
}

pub open spec fn decoded_view(d: Result<DecodedToken, DecodeFailure>) -> Result<DecodedModel, DecodeFailure> {
    match d {
        Ok(t) => Ok(t@),
        Err(e) => Err(e),
    }
}

pub open spec fn claims_result_view(r: Result<Claims, TokenError>) -> Result<ClaimsModel, TokenError> {
    match r {
        Ok(c) => Ok(c@),
        Err(e) => Err(e),
    }
}

/// What jsonwebtoken's HS256 decoding, without its own expiry check, yields for a token
/// and a secret.
pub uninterp spec fn jwt_decoded(token: Seq<char>, secret: Seq<u8>) -> Result<DecodedModel, DecodeFailure>;

/// The token that jsonwebtoken's HS256 encoding makes, under a secret, of the JSON object
/// whose members `sub`, `name` and `exp` hold the given values.
pub uninterp spec fn jwt_encoded(sub: Seq<char>, name: Seq<char>, exp: u64, secret: Seq<u8>) -> Seq<char>;

/// A verified signature over a payload holding exactly the given claims.
pub open spec fn payload_of(sub: Seq<char>, name: Seq<char>, exp: u64) -> Result<DecodedModel, DecodeFailure> {
    Ok(DecodedModel { sub: Some(sub), name: Some(name), exp: Some(exp) })
}

/// A token whose header names another algorithm or whose signature does not match.
pub open spec fn signature_failure() -> Result<DecodedModel, DecodeFailure> {
    Err(DecodeFailure::Signature)
}

/// Acceptance of a token with the given claims.
pub open spec fn accepted(sub: Seq<char>, name: Seq<char>, exp: u64) -> Result<ClaimsModel, TokenError> {
    Ok(ClaimsModel { sub, name, exp })
}

/// Rejection of a token for the given reason.
pub open spec fn rejected(e: TokenError) -> Result<ClaimsModel, TokenError> {
    Err(e)
}

/// The validation outcome of a decoding result at instant `now`.
pub open spec fn validation_outcome(d: Result<DecodedModel, DecodeFailure>, now: u64) -> Result<ClaimsModel, TokenError> {
    match d {
        Err(DecodeFailure::Structure) => Err(TokenError::Malformed),
        Err(DecodeFailure::Signature) => Err(TokenError::BadSignature),
        Ok(p) => {
            if p.sub is Some && p.name is Some && p.exp is Some {
                if p.exp->0 <= now {
                    Err(TokenError::Expired)
                } else {
                    Ok(ClaimsModel { sub: p.sub->0, name: p.name->0, exp: p.exp->0 })
                }
            } else {
                Err(TokenError::Malformed)
            }
        },
    }
}

/// The validation outcome of a token under a secret at instant `now`.
pub open spec fn token_outcome(token: Seq<char>, secret: Seq<u8>, now: u64) -> Result<ClaimsModel, TokenError> {
    validation_outcome(jwt_decoded(token, secret), now)
}

#[verifier::external_type_specification]
#[verifier::external_body]
pub struct ExJwtError(jsonwebtoken::errors::Error);

/// Relies on jsonwebtoken::encode with the default header (HS256) and
/// EncodingKey::from_secret: it signs the JSON object with members `sub`, `name` and
/// `exp`, and the token depends on these and the secret alone. It cannot fail: the key
/// and the header are both of the HMAC family, a JSON object always serialises, and HMAC
/// signing always succeeds; the token is `header.payload.signature`, never empty.
#[verifier::external_body]
fn jwt_encode(sub: &str, name: &str, exp: u64, secret: &[u8]) -> (r: Result<String, jsonwebtoken::errors::Error>)
    ensures
        r is Ok,
        r matches Ok(t) ==> t@ == jwt_encoded(sub@, name@, exp, secret@),
        r matches Ok(t) ==> t@.len() > 0,
{
    let mut payload = serde_json::Map::new();
    payload.insert("sub".to_string(), Value::from(sub));
    payload.insert("name".to_string(), Value::from(name));
    payload.insert("exp".to_string(), Value::from(exp));
    jsonwebtoken::encode(&Header::default(), &payload, &EncodingKey::from_secret(secret))
}

/// Relies on jsonwebtoken::decode with DecodingKey::from_secret and a Validation that
/// accepts HS256 alone and does not check the expiry against the clock: its result
/// depends on the token and the secret alone. A rejected signature or algorithm is told
/// apart from every other failure. A token made by jsonwebtoken::encode under the same
/// secret verifies, and its payload members come back as they were signed.
#[verifier::external_body]
fn jwt_decode(token: &str, secret: &[u8]) -> (r: Result<DecodedToken, DecodeFailure>)
    ensures
        decoded_view(r) == jwt_decoded(token@, secret@),
        forall|s: Seq<char>, n: Seq<char>, e: u64|
            (token@ == #[trigger] jwt_encoded(s, n, e, secret@) ==> decoded_view(r) == payload_of(s, n, e)),
{
    let mut rules = Validation::new(Algorithm::HS256);
    rules.validate_exp = false;
    match jsonwebtoken::decode::<serde_json::Map<String, Value>>(token, &DecodingKey::from_secret(secret), &rules) {
        Ok(d) => Ok(DecodedToken {
            sub: d.claims.get("sub").and_then(Value::as_str).map(String::from),
            name: d.claims.get("name").and_then(Value::as_str).map(String::from),
            exp: d.claims.get("exp").and_then(Value::as_u64),
        }),
        Err(e) => Err(match e.kind() {
            JwtErrorKind::InvalidSignature | JwtErrorKind::InvalidAlgorithm => DecodeFailure::Signature,
            _ => DecodeFailure::Structure,
        }),
    }
}

/// Judges the result of decoding a token at instant `now`: a structural failure is
/// `Malformed`, a rejected signature `BadSignature`, a payload without the three claims
/// `Malformed`, an expiry at or before `now` `Expired`; otherwise the claims.
pub fn check_decoded(decoded: Result<DecodedToken, DecodeFailure>, now: u64) -> (r: Result<Claims, TokenError>)
    ensures
        claims_result_view(r) == validation_outcome(decoded_view(decoded), now),
{
    match decoded {
        Err(DecodeFailure::Structure) => Err(TokenError::Malformed),
        Err(DecodeFailure::Signature) => Err(TokenError::BadSignature),
        Ok(DecodedToken { sub: Some(sub), name: Some(name), exp: Some(exp) }) => {
            if exp <= now {
                Err(TokenError::Expired)
            } else {
                Ok(Claims { sub, name, exp })
            }
        },
        Ok(_) => Err(TokenError::Malformed),
    }
}

/// Validates a token at instant `now` under `secret`. A token issued under the same
/// secret is judged on the claims it was issued with.
pub fn validate_token(token: &str, secret: &[u8], now: u64) -> (r: Result<Claims, TokenError>)
    ensures
        claims_result_view(r) == token_outcome(token@, secret@, now),
        forall|s: Seq<char>, n: Seq<char>, e: u64|
            (token@ == #[trigger] jwt_encoded(s, n, e, secret@) ==> claims_result_view(r) == validation_outcome(payload_of(s, n, e), now)),
{
    check_decoded(jwt_decode(token, secret), now)
}

/// Issues a token for `sub` and `name` that expires `ttl` seconds after `now`: the HS256
/// encoding of these claims with expiry `now + ttl`. It fails only when that instant
/// does not fit in a `u64`.
pub fn issue_token(sub: &str, name: &str, now: u64, ttl: u64, secret: &[u8]) -> (r: Result<String, IssueError>)
    ensures
        now + ttl <= u64::MAX <==> r is Ok,
        now + ttl > u64::MAX ==> r == Err::<String, IssueError>(IssueError::ExpiryOverflow),
        r is Ok ==> r->Ok_0@ == jwt_encoded(sub@, name@, (now + ttl) as u64, secret@),
        r is Ok ==> r->Ok_0@.len() > 0,
{
    let exp = match now.checked_add(ttl) {
        Some(e) => e,
        None => return Err(IssueError::ExpiryOverflow),
    };
    let signed = jwt_encode(sub, name, exp, secret);
    match signed {
        Ok(t) => Ok(t),
        Err(_) => {
            proof {
                assert(signed is Ok);
            }
            Err(IssueError::ExpiryOverflow)
        },
    }
}

/// A token issued at `now` with lifetime `ttl` is accepted, with the claims it was issued
/// with, at every instant before `now + ttl`, and is reported expired at that instant and
/// at every later one.
pub proof fn lemma_token_lifetime(sub: Seq<char>, name: Seq<char>, now: u64, ttl: u64, eps: u64)
    requires
        now + ttl <= u64::MAX,
    ensures
        eps < ttl ==> validation_outcome(payload_of(sub, name, (now + ttl) as u64), (now + eps) as u64)
            == accepted(sub, name, (now + ttl) as u64),
        eps > 0 && now + ttl + eps <= u64::MAX ==> validation_outcome(payload_of(sub, name, (now + ttl) as u64), (now + ttl + eps) as u64)
            == rejected(TokenError::Expired),
{
}

} // verus!
