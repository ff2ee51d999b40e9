//! User records and the decisions of the user use-cases.

use vstd::prelude::*;
use crate::error::{ErrorKind, Failure};
use crate::listing::{page_count, total_pages};
use crate::filter::{form_pairs, merge_filters, query_filters};
use crate::pagination::{pagination_of, params_pagination_ok, PaginationRequest};
use crate::query::{composed, ListQuery, Resource};
use crate::text::{blank, is_blank};

verus! {

/// A stored user, with its password hash.
pub struct User {
    pub id: i32,
    pub username: String,
    pub email: String,
    pub password: String,
}

/// A user as shown to clients, without the password hash.
pub struct DetailUserResponse {
    pub id: i32,
    pub username: String,
    pub email: String,
}

pub struct CreateUserRequest {
    pub username: String,
    pub email: String,
    pub password: String,
}

pub struct CreateUserResponse {
    pub id: i32,
    pub username: String,
    pub email: String,
}

pub struct UpdateUserRequest {
    pub username: Option<String>,
    pub email: Option<String>,
    pub password: Option<String>,
}

pub struct UpdateUserResponse {
    pub id: i32,
    pub username: String,
    pub email: String,
}

/// The raw parameters of a user list request.
pub struct UsersQuery {
    pub page: Option<i64>,
    pub limit: Option<i64>,
    pub sort: Option<String>,
    pub field: Option<String>,
    pub filter: Option<Vec<(String, String)>>,
}

/// One page of a user list.
pub struct Users {
    pub page: i64,
    pub limit: i64,
    pub total: i64,
    pub total_page: i64,
    pub users: Vec<DetailUserResponse>,
}

/// An optional field that is absent or blank.
pub open spec fn missing(o: Option<Seq<char>>) -> bool {
    match o {
        None => true,
        Some(s) => blank(s),
    }
}

/// A unique value held by a user other than `own` (no user, when creating).
pub open spec fn taken_by_other(own: Option<i32>, holder: Option<i32>) -> bool {
    match holder {
        None => false,
        Some(h) => match own {
            None => true,
            Some(o) => o != h,
        },
    }
}

fn missing_field(o: &Option<String>) -> (r: bool)
    ensures
        r == missing(o.deep_view()),
{
    match o {
        None => true,
        Some(s) => is_blank(s.as_str()),
    }
}

impl CreateUserRequest {
    /// Checks that username, email and password are all given, in that order.
    pub fn validate(&self) -> (r: Result<(), Failure>)
        ensures
            r is Ok <==> !blank(self.username@) && !blank(self.email@) && !blank(self.password@),
            r matches Err(f) ==> f.kind == ErrorKind::ValidationRequired,
            r matches Err(f) ==> (blank(self.username@) ==> f.desc@ == "Username required"@),
            r matches Err(f) ==> (!blank(self.username@) && blank(self.email@) ==> f.desc@ == "Email required"@),
            r matches Err(f) ==> (!blank(self.username@) && !blank(self.email@) ==> f.desc@ == "Password required"@),
    {
        if is_blank(self.username.as_str()) {
            return Err(Failure::new(ErrorKind::ValidationRequired, "Username required"));
        }
        if is_blank(self.email.as_str()) {
            return Err(Failure::new(ErrorKind::ValidationRequired, "Email required"));
        }
        if is_blank(self.password.as_str()) {
            return Err(Failure::new(ErrorKind::ValidationRequired, "Password required"));
        }
        Ok(())
    }
}

impl UpdateUserRequest {
    /// Checks that username and email are both given, in that order.
    pub fn validate(&self) -> (r: Result<(), Failure>)
        ensures
            r is Ok <==> !missing(self.username.deep_view()) && !missing(self.email.deep_view()),
            r matches Err(f) ==> f.kind == ErrorKind::ValidationRequired,
            r matches Err(f) ==> (missing(self.username.deep_view()) ==> f.desc@ == "Username required"@),
            r matches Err(f) ==> (!missing(self.username.deep_view()) ==> f.desc@ == "Email required"@),
    {
        if missing_field(&self.username) {
            return Err(Failure::new(ErrorKind::ValidationRequired, "Username required"));
        }
        if missing_field(&self.email) {
            return Err(Failure::new(ErrorKind::ValidationRequired, "Email required"));
        }
        Ok(())
    }

    /// The new password to hash: the given one, unless it is absent or blank.
    pub fn new_password(&self) -> (r: Option<&str>)
        ensures
            r is None <==> missing(self.password.deep_view()),
            r matches Some(p) ==> self.password.deep_view() == Some(p@),
    {
        match &self.password {
            Some(p) => if is_blank(p.as_str()) { None } else { Some(p.as_str()) },
            None => None,
        }
    }
}

/// Checks that the username and the email are not held by another user than `own`
/// (by any user when `own` is `None`), given the ids of the users that hold them.
pub fn check_conflicts(own: Option<i32>, username_holder: Option<i32>, email_holder: Option<i32>) -> (r: Result<(), Failure>)
    ensures
        r is Ok <==> !taken_by_other(own, username_holder) && !taken_by_other(own, email_holder),
        r matches Err(f) ==> f.kind == ErrorKind::Conflict,
        r matches Err(f) ==> (taken_by_other(own, username_holder) ==> f.desc@ == "Username already exist"@),
        r matches Err(f) ==> (!taken_by_other(own, username_holder) ==> f.desc@ == "Email already exist"@),
{
    if taken(own, username_holder) {
        return Err(Failure::new(ErrorKind::Conflict, "Username already exist"));
    }
    if taken(own, email_holder) {
        return Err(Failure::new(ErrorKind::Conflict, "Email already exist"));
    }
    Ok(())
}

fn taken(own: Option<i32>, holder: Option<i32>) -> (r: bool)
    ensures
        r == taken_by_other(own, holder),
{
    match holder {
        None => false,
        Some(h) => match own {
            None => true,
            Some(o) => o != h,
        },
    }
}

/// The user after an update: each given field replaces the stored one, and a new password
/// hash, when there is one, replaces the stored hash.
pub fn merge_user_update(current: User, req: UpdateUserRequest, new_hash: Option<String>) -> (r: User)
    ensures
        r.id == current.id,
        r.username@ == match req.username { Some(u) => u@, None => current.username@ },
        r.email@ == match req.email { Some(e) => e@, None => current.email@ },
        r.password@ == match new_hash { Some(h) => h@, None => current.password@ },
{
    User {
        id: current.id,
        username: match req.username { Some(u) => u, None => current.username },
        email: match req.email { Some(e) => e, None => current.email },
        password: match new_hash { Some(h) => h, None => current.password },
    }
}

impl UsersQuery {
    /// The normalised pagination of the request.
    pub fn pagination(&self) -> (r: PaginationRequest)
        ensures
            params_pagination_ok(r, self.page, self.limit, self.field.deep_view(), self.sort.deep_view()),
    {
        pagination_of(self.page, self.limit, &self.field, &self.sort)
    }

    /// The normalised pagination of the request and its list query, whose filters are the
    /// structured ones overlaid with the `filter[<field>]` pairs of the raw query string.
    pub fn list_query(&self, raw_query: &str) -> (r: (PaginationRequest, ListQuery))
        ensures
            params_pagination_ok(r.0, self.page, self.limit, self.field.deep_view(), self.sort.deep_view()),
            composed(
                r.1,
                Resource::Users,
                r.0,
                match self.filter { Some(f) => f.deep_view(), None => Seq::empty() } + query_filters(form_pairs(raw_query@)),
            ),
    {
        let pagination = self.pagination();
        let none: Vec<(String, String)> = Vec::new();
        let filters = match &self.filter {
            Some(f) => merge_filters(f, raw_query),
            None => merge_filters(&none, raw_query),
        };
        assert(none.deep_view() =~= Seq::<(Seq<char>, Seq<char>)>::empty());
        let query = ListQuery::build(Resource::Users, &pagination, &filters);
        (pagination, query)
    }
}

impl Users {
    /// One page of users out of `total` matching ones.
    pub fn new(pagination: &PaginationRequest, total: i64, users: Vec<DetailUserResponse>) -> (r: Users)
        requires
            pagination.wf(),
            total >= 0,
        ensures
            r.page == pagination.page,
            r.limit == pagination.limit,
            r.total == total,
            r.total_page == page_count(total as int, pagination.limit as int),
            r.users == users,
    {
        Users {
            page: pagination.page,
            limit: pagination.limit,
            total,
            total_page: total_pages(total, pagination.limit),
            users,
        }
    }
}

} // verus!
