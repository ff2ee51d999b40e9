//! The classified outcomes of a request and the response envelope that carries them.

use vstd::prelude::*;

verus! {

/// Every way a request can fail.
#[derive(PartialEq, Eq, Structural, Clone, Copy, Debug)]
pub enum ErrorKind {
    /// No `Authorization` header.
    AuthMissing,
    /// The header is not a bearer token, or the token does not verify.
    AuthInvalid,
    /// The token verifies but has expired.
    AuthExpired,
    /// A mandatory field is missing or blank.
    ValidationRequired,
    /// A field that must be unique is already taken.
    Conflict,
    /// The addressed record does not exist.
    NotFound,
    /// A data-access, hashing, signing or configuration failure.
    Internal,
}

/// The HTTP status of each kind of failure.
pub open spec fn status_of(k: ErrorKind) -> u16 {
    match k {
        ErrorKind::AuthMissing | ErrorKind::AuthInvalid | ErrorKind::AuthExpired => 401,
        ErrorKind::ValidationRequired | ErrorKind::Conflict => 400,
        ErrorKind::NotFound => 404,
        ErrorKind::Internal => 500,
    }
}

/// The machine-readable response code of each kind of failure.
pub open spec fn code_of(k: ErrorKind) -> Seq<char> {
    match k {
        ErrorKind::Internal => "01"@,
        ErrorKind::NotFound => "02"@,
        ErrorKind::AuthMissing | ErrorKind::AuthInvalid | ErrorKind::AuthExpired => "03"@,
        ErrorKind::ValidationRequired => "04"@,
        ErrorKind::Conflict => "05"@,
    }
}

/// The response code of a success.
pub open spec fn success_code() -> Seq<char> {
    "00"@
}

impl ErrorKind {
    /// The HTTP status that carries this failure.
    pub fn status(&self) -> (r: u16)
        ensures
            r == status_of(*self),
    {
        match self {
            ErrorKind::AuthMissing | ErrorKind::AuthInvalid | ErrorKind::AuthExpired => 401,
            ErrorKind::ValidationRequired | ErrorKind::Conflict => 400,
            ErrorKind::NotFound => 404,
            ErrorKind::Internal => 500,
        }
    }

    /// The machine-readable response code of this failure.
    pub fn code(&self) -> (r: String)
        ensures
            r@ == code_of(*self),
    {
        match self {
            ErrorKind::Internal => String::from_str("01"),
            ErrorKind::NotFound => String::from_str("02"),
            ErrorKind::AuthMissing | ErrorKind::AuthInvalid | ErrorKind::AuthExpired => String::from_str("03"),
            ErrorKind::ValidationRequired => String::from_str("04"),
            ErrorKind::Conflict => String::from_str("05"),
        }
    }
}

/// A classified failure with a human-readable description.
#[derive(Debug)]
pub struct Failure {
    pub kind: ErrorKind,
    pub desc: String,
}

impl Failure {
    pub fn new(kind: ErrorKind, desc: &str) -> (r: Failure)
        ensures
            r.kind == kind,
            r.desc@ == desc@,
    {
        Failure { kind, desc: String::from_str(desc) }
    }
}

/// How a data-access call failed: the addressed row is absent, or anything else, with
/// its message.
pub enum DataError {
    RowNotFound,
    Other(String),
}

/// The failure that a data-access error becomes: `NotFound` for an absent row,
/// `Internal` with the error's message otherwise.
pub fn data_failure(e: DataError) -> (r: Failure)
    ensures
        e is RowNotFound ==> r.kind == ErrorKind::NotFound && r.desc@ == "Not Found"@,
        e matches DataError::Other(m) ==> r.kind == ErrorKind::Internal && r.desc@ == m@,
{
    match e {
        DataError::RowNotFound => Failure::new(ErrorKind::NotFound, "Not Found"),
        DataError::Other(m) => Failure { kind: ErrorKind::Internal, desc: m },
    }
}

/// The outcome of a delete that affected `rows` rows: `NotFound` when none.
pub fn deletion_outcome(rows: u64) -> (r: Result<(), Failure>)
    ensures
        r is Err <==> rows == 0,
        r matches Err(f) ==> f.kind == ErrorKind::NotFound && f.desc@ == "Not Found"@,
{
    if rows == 0 {
        Err(Failure::new(ErrorKind::NotFound, "Not Found"))
    } else {
        Ok(())
    }
}

/// The envelope of every response: a code, a description and, on success, a payload.
pub struct Response<T> {
    pub response_code: String,
    pub response_desc: String,
    pub response_data: Option<T>,
}

impl<T> Response<T> {
    /// The envelope of a success, with code `00` and description `OK`.
    pub fn success(data: Option<T>) -> (r: Response<T>)
        ensures
            r.response_code@ == success_code(),
            r.response_desc@ == "OK"@,
            r.response_data == data,
    {
        Response { response_code: String::from_str("00"), response_desc: String::from_str("OK"), response_data: data }
    }

    /// The envelope of a failure: its code and description, and no payload.
    pub fn failure(f: &Failure) -> (r: Response<T>)
        ensures
            r.response_code@ == code_of(f.kind),
            r.response_desc@ == f.desc@,
            r.response_data is None,
    {
        Response { response_code: f.kind.code(), response_desc: f.desc.clone(), response_data: None }
    }
}

} // verus!
