//! Normalisation of the raw pagination and sorting parameters of a list request.

use vstd::prelude::*;

verus! {

/// Rows per page when none, or a non-positive number, is asked for.
pub const DEFAULT_LIMIT: i64 = 10;

/// The page when none, or a non-positive number, is asked for.
pub const DEFAULT_PAGE: i64 = 1;

pub open spec fn is_ascii_letter(c: char) -> bool {
    ('a' <= c && c <= 'z') || ('A' <= c && c <= 'Z')
}

/// A non-empty string of ASCII letters.
pub open spec fn letters_only(s: Seq<char>) -> bool {
    s.len() > 0 && forall|i: int| 0 <= i < s.len() ==> is_ascii_letter(#[trigger] s[i])
}

/// The pattern of a sort column name.
pub open spec fn letters_pattern() -> Seq<char> {
    "^[a-zA-Z]+$"@
}

/// The column that a sort field falls back to when it is not a plain name.
pub open spec fn fallback_field() -> Seq<char> {
    "created_at"@
}

pub open spec fn ascii_lower(c: char) -> char {
    if 'A' <= c && c <= 'Z' {
        ((c as u8) + 32) as char
    } else {
        c
    }
}

/// `s` equals the lower-case word `w` when ASCII letters are compared without case.
pub open spec fn equals_ignoring_case(s: Seq<char>, w: Seq<char>) -> bool {
    s.len() == w.len() && forall|i: int| 0 <= i < s.len() ==> ascii_lower(#[trigger] s[i]) == w[i]
}

/// The normalised sort direction of a raw direction: `DESC` for any casing of `desc`,
/// `ASC` for everything else.
pub open spec fn direction_of(s: Seq<char>) -> Seq<char> {
    if equals_ignoring_case(s, "desc"@) {
        "DESC"@
    } else {
        "ASC"@
    }
}

pub open spec fn positive_or(v: i64, default: i64) -> i64 {
    if v <= 0 {
        default
    } else {
        v
    }
}

/// Relies on regex::Regex::new and Regex::is_match: `^[a-zA-Z]+$` is a valid pattern,
/// and, anchored at both ends of the haystack, it matches exactly the non-empty strings
/// of ASCII letters.
#[verifier::external_body]
fn regex_is_match(pattern: &str, s: &str) -> (r: bool)
    requires
        pattern@ == letters_pattern(),
    ensures
        r == letters_only(s@),
{
    regex::Regex::new(pattern).unwrap().is_match(s)
}

/// Compares `s` with the lower-case ASCII word `w`, ignoring the case of ASCII letters.
pub fn eq_ignore_case(s: &str, w: &str) -> (r: bool)
    ensures
        r == equals_ignoring_case(s@, w@),
{
    let n = s.unicode_len();
    if n != w.unicode_len() {
        return false;
    }
    let mut i: usize = 0;
    while i < n
        invariant
            n == s@.len(),
            n == w@.len(),
            0 <= i <= n,
            forall|j: int| 0 <= j < i ==> ascii_lower(#[trigger] s@[j]) == w@[j],
        decreases n - i,
    {
        let c = s.get_char(i);
        let lower = if 'A' <= c && c <= 'Z' {
            ((c as u8) + 32) as char
        } else {
            c
        };
        if lower != w.get_char(i) {
            return false;
        }
        i = i + 1;
    }
    true
}

/// The pagination and sorting of a list request after normalisation.
#[derive(Debug)]
pub struct PaginationRequest {
    pub limit: i64,
    pub page: i64,
    pub field: String,
    pub sort: String,
}

impl PaginationRequest {
    /// Both counts are positive and the direction is `ASC` or `DESC`.
    pub open spec fn wf(&self) -> bool {
        &&& self.limit > 0
        &&& self.page > 0
        &&& (self.sort@ == "ASC"@ || self.sort@ == "DESC"@)
    }

    /// Normalises raw parameters: a non-positive limit becomes 10 and a non-positive page
    /// 1; a sort field that is not a non-empty run of ASCII letters becomes `created_at`;
    /// the direction becomes `DESC` for any casing of `desc` and `ASC` otherwise.
    pub fn new(limit: i64, page: i64, field: &str, sort: &str) -> (r: PaginationRequest)
        ensures
            r.wf(),
            r.limit == positive_or(limit, DEFAULT_LIMIT),
            r.page == positive_or(page, DEFAULT_PAGE),
            r.field@ == if letters_only(field@) { field@ } else { fallback_field() },
            r.sort@ == direction_of(sort@),
    {
        let field = if regex_is_match("^[a-zA-Z]+$", field) {
            String::from_str(field)
        } else {
            String::from_str("created_at")
        };
        let sort = if eq_ignore_case(sort, "desc") {
            String::from_str("DESC")
        } else {
            String::from_str("ASC")
        };
        let limit = if limit <= 0 { DEFAULT_LIMIT } else { limit };
        let page = if page <= 0 { DEFAULT_PAGE } else { page };
        PaginationRequest { limit, page, field, sort }
    }
}

/// The pagination of a list request's optional raw parameters: an absent count counts
/// as non-positive, an absent field or direction as empty.
pub open spec fn params_pagination_ok(
    r: PaginationRequest,
    page: Option<i64>,
    limit: Option<i64>,
    field: Option<Seq<char>>,
    sort: Option<Seq<char>>,
) -> bool {
    let f = match field { Some(f) => f, None => Seq::empty() };
    let s = match sort { Some(s) => s, None => Seq::empty() };
    &&& r.wf()
    &&& r.limit == positive_or(match limit { Some(l) => l, None => 0 }, DEFAULT_LIMIT)
    &&& r.page == positive_or(match page { Some(p) => p, None => 0 }, DEFAULT_PAGE)
    &&& r.field@ == if letters_only(f) { f } else { fallback_field() }
    &&& r.sort@ == direction_of(s)
}

/// Normalises the optional raw parameters of a list request.
pub fn pagination_of(page: Option<i64>, limit: Option<i64>, field: &Option<String>, sort: &Option<String>) -> (r: PaginationRequest)
    ensures
        params_pagination_ok(r, page, limit, field.deep_view(), sort.deep_view()),
{
    let page = match page { Some(p) => p, None => 0 };
    let limit = match limit { Some(l) => l, None => 0 };
    let field = match field { Some(f) => f.as_str(), None => "" };
    let sort = match sort { Some(s) => s.as_str(), None => "" };
    proof {
        reveal_strlit("");
    }
    PaginationRequest::new(limit, page, field, sort)
}

} // verus!
