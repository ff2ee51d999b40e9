//! The service configuration, read once at start-up and passed to whatever needs it.

use vstd::prelude::*;
use crate::duration::{expiry_seconds, parse_jwt_exp};
use crate::error::{ErrorKind, Failure};

verus! {

pub struct Config {
    pub database_url: String,
    pub port: String,
    pub secret_key_jwt: String,
    pub jwt_exp: String,
}

impl Config {
    /// The bytes of the token secret.
    pub open spec fn secret(&self) -> Seq<u8> {
        vstd::utf8::encode_utf8(self.secret_key_jwt@)
    }

    /// The lifetime of issued tokens, when the expiry setting denotes one that fits.
    pub open spec fn ttl(&self) -> Option<u64> {
        match expiry_seconds(self.jwt_exp@) {
            Some(n) => if n <= u64::MAX { Some(n as u64) } else { None },
            None => None,
        }
    }

    /// The lifetime of issued tokens in seconds; an unreadable expiry setting is an
    /// `Internal` failure that names the setting.
    pub fn token_ttl(&self) -> (r: Result<u64, Failure>)
        ensures
            r matches Ok(t) ==> self.ttl() == Some(t),
            r is Err <==> self.ttl() is None,
            r matches Err(f) ==> f.kind == ErrorKind::Internal && f.desc@ == "Invalid JWT_EXP format: "@ + self.jwt_exp@,
    {
        match parse_jwt_exp(self.jwt_exp.as_str()) {
            Some(t) => Ok(t),
            None => {
                let mut desc = String::from_str("Invalid JWT_EXP format: ");
                desc.append(self.jwt_exp.as_str());
                Err(Failure { kind: ErrorKind::Internal, desc })
            },
        }
    }

    /// The bytes of the token secret.
    pub fn secret_bytes(&self) -> (r: &[u8])
        ensures
            r@ == self.secret(),
    {
        self.secret_key_jwt.as_str().as_bytes()
    }
}

} // verus!
