use crud_api::filter::{filter_field_of, merge_filter_pairs, merge_filters};
use crud_api::models::ItemsQuery;
use crud_api::pagination::PaginationRequest;
use crud_api::query::{lookup_last, page_offset, sort_column, ListQuery, Resource};
use crud_api::users::UsersQuery;

fn pairs(v: &[(&str, &str)]) -> Vec<(String, String)> {
    v.iter().map(|(k, x)| (k.to_string(), x.to_string())).collect()
}

#[test]
fn unfiltered_item_query() {
    let p = PaginationRequest::new(10, 1, "name", "desc");
    let q = ListQuery::build(Resource::Items, &p, &Vec::new());
    assert_eq!(q.sql, "SELECT id, name, description FROM items ORDER BY name DESC LIMIT $1 OFFSET $2");
    assert_eq!(q.count_sql, "SELECT COUNT(*) FROM items");
    assert!(q.params.is_empty());
    assert_eq!((q.limit, q.offset), (10, 0));
}

#[test]
fn bogus_sort_field_falls_back_to_id() {
    let p = PaginationRequest::new(0, 0, "bogus", "asc");
    let q = ListQuery::build(Resource::Items, &p, &Vec::new());
    assert_eq!(q.sql, "SELECT id, name, description FROM items ORDER BY id ASC LIMIT $1 OFFSET $2");
    let q = ListQuery::build(Resource::Users, &p, &Vec::new());
    assert_eq!(q.sql, "SELECT id, username, email FROM users ORDER BY id ASC LIMIT $1 OFFSET $2");
    assert_eq!(sort_column(Resource::Users, "email"), 2);
    assert_eq!(sort_column(Resource::Users, "name"), 0);
    assert_eq!(sort_column(Resource::Items, "description"), 2);
}

#[test]
fn name_filter_is_a_bound_substring_match() {
    let p = PaginationRequest::new(10, 1, "id", "asc");
    let q = ListQuery::build(Resource::Items, &p, &pairs(&[("name", "foo")]));
    assert_eq!(
        q.sql,
        "SELECT id, name, description FROM items WHERE strpos(lower(name), lower($1)) > 0 ORDER BY id ASC LIMIT $2 OFFSET $3"
    );
    assert_eq!(q.count_sql, "SELECT COUNT(*) FROM items WHERE strpos(lower(name), lower($1)) > 0");
    assert_eq!(q.params, vec!["foo".to_string()]);
}

#[test]
fn all_user_filters_in_column_order() {
    let p = PaginationRequest::new(20, 3, "username", "DESC");
    let f = pairs(&[("email", "@x.org"), ("ignored", "1"), ("id", "7"), ("username", "a'b")]);
    let q = ListQuery::build(Resource::Users, &p, &f);
    assert_eq!(
        q.sql,
        "SELECT id, username, email FROM users WHERE CAST(id AS TEXT) = $1 AND strpos(lower(username), lower($2)) > 0 \
         AND strpos(lower(email), lower($3)) > 0 ORDER BY username DESC LIMIT $4 OFFSET $5"
    );
    assert_eq!(q.params, vec!["7".to_string(), "a'b".to_string(), "@x.org".to_string()]);
    assert_eq!((q.limit, q.offset), (20, 40));
}

#[test]
fn later_filter_wins() {
    let f = pairs(&[("name", "first"), ("name", "second")]);
    assert_eq!(lookup_last(&f, "name"), Some("second".to_string()));
    assert_eq!(lookup_last(&f, "id"), None);
}

#[test]
fn offset_saturates() {
    assert_eq!(page_offset(1, 10), 0);
    assert_eq!(page_offset(4, 25), 75);
    assert_eq!(page_offset(i64::MAX, 2), i64::MAX);
}

#[test]
fn filter_keys_are_recognised() {
    assert_eq!(filter_field_of("filter[name]"), Some("name".to_string()));
    assert_eq!(filter_field_of("filter[]"), Some("".to_string()));
    assert_eq!(filter_field_of("filter[name"), None);
    assert_eq!(filter_field_of("filters[name]"), None);
    assert_eq!(filter_field_of("page"), None);
}

#[test]
fn query_string_filters_overlay_structured_ones() {
    let structured = pairs(&[("name", "old"), ("id", "1")]);
    let merged = merge_filter_pairs(&structured, &pairs(&[("filter[name]", "new"), ("page", "2")]));
    assert_eq!(merged, pairs(&[("name", "old"), ("id", "1"), ("name", "new")]));
    assert_eq!(lookup_last(&merged, "name"), Some("new".to_string()));
}

#[test]
fn raw_query_string_is_decoded() {
    let merged = merge_filters(&Vec::new(), "page=2&filter%5Bname%5D=a+b%21&filter[id]=3&limit=5");
    assert_eq!(merged, pairs(&[("name", "a b!"), ("id", "3")]));
    assert!(merge_filters(&Vec::new(), "").is_empty());
}

#[test]
fn item_list_request_end_to_end() {
    let q = ItemsQuery { page: Some(2), limit: Some(5), sort: None, field: Some("name".to_string()), filter: None };
    let (p, lq) = q.list_query("filter[name]=foo&page=2&limit=5");
    assert_eq!((p.page, p.limit), (2, 5));
    assert_eq!(
        lq.sql,
        "SELECT id, name, description FROM items WHERE strpos(lower(name), lower($1)) > 0 ORDER BY name ASC LIMIT $2 OFFSET $3"
    );
    assert_eq!(lq.params, vec!["foo".to_string()]);
    assert_eq!(lq.offset, 5);
}

#[test]
fn user_list_request_with_structured_filter() {
    let q = UsersQuery {
        page: None,
        limit: None,
        sort: Some("DESC".to_string()),
        field: Some("email".to_string()),
        filter: Some(pairs(&[("email", "x"), ("name", "ignored")])),
    };
    let (_, lq) = q.list_query("filter[username]=bo");
    assert_eq!(
        lq.sql,
        "SELECT id, username, email FROM users WHERE strpos(lower(username), lower($1)) > 0 AND strpos(lower(email), lower($2)) > 0 \
         ORDER BY email DESC LIMIT $3 OFFSET $4"
    );
    assert_eq!(lq.params, vec!["bo".to_string(), "x".to_string()]);
    assert_eq!((lq.limit, lq.offset), (10, 0));
}

#[test]
fn statements_do_not_carry_values() {
    let p = PaginationRequest::new(10, 1, "id", "asc");
    let a = ListQuery::build(Resource::Users, &p, &pairs(&[("email", "x' OR '1'='1")]));
    let b = ListQuery::build(Resource::Users, &p, &pairs(&[("email", "plain")]));
    assert_eq!(a.sql, b.sql);
    assert_eq!(a.count_sql, b.count_sql);
    assert_eq!(a.params, vec!["x' OR '1'='1".to_string()]);
    assert!(!a.sql.contains("OR '1'"));
}

#[test]
fn wildcard_characters_are_bound_literally() {
    let p = PaginationRequest::new(10, 1, "id", "asc");
    let q = ListQuery::build(Resource::Items, &p, &pairs(&[("description", "50%_off\\")]));
    assert_eq!(
        q.count_sql,
        "SELECT COUNT(*) FROM items WHERE strpos(lower(description), lower($1)) > 0"
    );
    assert_eq!(q.params, vec!["50%_off\\".to_string()]);
}
