//! Composition of the parameterised row and count queries of a list endpoint.
//!
//! The query text is made of fixed words, allow-listed column names and numbered
//! placeholders only; filter values travel as bound parameters.

use vstd::prelude::*;
use crate::pagination::PaginationRequest;
use crate::text::same_text;

verus! {

/// The resources that list endpoints serve.
#[derive(PartialEq, Eq, Structural, Clone, Copy, Debug)]
pub enum Resource {
    Items,
    Users,
}

/// The columns of a resource that may be sorted and filtered on: the identity column
/// first, then two free-text columns.
pub open spec fn column_of(r: Resource, i: int) -> Seq<char> {
    if i == 0 {
        "id"@
    } else {
        match r {
            Resource::Items => if i == 1 { "name"@ } else { "description"@ },
            Resource::Users => if i == 1 { "username"@ } else { "email"@ },
        }
    }
}

pub open spec fn table_of(r: Resource) -> Seq<char> {
    match r {
        Resource::Items => "items"@,
        Resource::Users => "users"@,
    }
}

/// The columns that a row query returns.
pub open spec fn select_list_of(r: Resource) -> Seq<char> {
    match r {
        Resource::Items => "id, name, description"@,
        Resource::Users => "id, username, email"@,
    }
}

/// The index of the allow-listed column named `field`, or of the identity column when
/// `field` names none.
pub open spec fn sort_index(r: Resource, field: Seq<char>) -> int {
    if field == column_of(r, 1) {
        1
    } else if field == column_of(r, 2) {
        2
    } else {
        0
    }
}

/// The value of the last pair whose key is `key`.
pub open spec fn last_value(pairs: Seq<(Seq<char>, Seq<char>)>, key: Seq<char>) -> Option<Seq<char>>
    decreases pairs.len(),
{
    if pairs.len() == 0 {
        None
    } else if pairs.last().0 == key {
        Some(pairs.last().1)
    } else {
        last_value(pairs.drop_last(), key)
    }
}

/// The indices, below `k`, of the columns that the filters give a value.
pub open spec fn filtered_upto(r: Resource, pairs: Seq<(Seq<char>, Seq<char>)>, k: int) -> Seq<int>
    decreases k,
{
    if k <= 0 {
        seq![]
    } else if last_value(pairs, column_of(r, k - 1)) is Some {
        filtered_upto(r, pairs, k - 1).push(k - 1)
    } else {
        filtered_upto(r, pairs, k - 1)
    }
}

/// The indices of the filtered columns, in column order.
pub open spec fn filtered(r: Resource, pairs: Seq<(Seq<char>, Seq<char>)>) -> Seq<int> {
    filtered_upto(r, pairs, 3)
}

/// The placeholder of the `p`-th bound parameter.
pub open spec fn placeholder(p: int) -> Seq<char> {
    if p == 1 {
        "$1"@
    } else if p == 2 {
        "$2"@
    } else if p == 3 {
        "$3"@
    } else if p == 4 {
        "$4"@
    } else {
        "$5"@
    }
}

/// The condition on column `k` against bound parameter `p`: exact match on the identity
/// column read as text; on a free-text column, the lower-cased value occurs in the
/// lower-cased column, every character of it taken literally.
pub open spec fn condition(r: Resource, k: int, p: int) -> Seq<char> {
    if k == 0 {
        "CAST(id AS TEXT) = "@ + placeholder(p)
    } else {
        "strpos(lower("@ + column_of(r, k) + "), lower("@ + placeholder(p) + ")) > 0"@
    }
}

/// The conditions on the columns `ks`, joined by `AND`, the `j`-th bound to parameter `j`.
pub open spec fn conditions(r: Resource, ks: Seq<int>) -> Seq<char>
    decreases ks.len(),
{
    if ks.len() == 0 {
        seq![]
    } else if ks.len() == 1 {
        condition(r, ks[0], 1)
    } else {
        conditions(r, ks.drop_last()) + " AND "@ + condition(r, ks.last(), ks.len() as int)
    }
}

pub open spec fn where_of(r: Resource, ks: Seq<int>) -> Seq<char> {
    if ks.len() == 0 {
        seq![]
    } else {
        " WHERE "@ + conditions(r, ks)
    }
}

/// The row query: the filtered rows, sorted by the given column and direction, one page
/// of them through the two placeholders after the filter values.
pub open spec fn row_sql(r: Resource, ks: Seq<int>, sort: int, dir: Seq<char>) -> Seq<char> {
    "SELECT "@ + select_list_of(r) + " FROM "@ + table_of(r) + where_of(r, ks) + " ORDER BY "@ + column_of(r, sort)
        + " "@ + dir + " LIMIT "@ + placeholder(ks.len() as int + 1) + " OFFSET "@ + placeholder(ks.len() as int + 2)
}

/// The count query: the number of filtered rows.
pub open spec fn count_sql(r: Resource, ks: Seq<int>) -> Seq<char> {
    "SELECT COUNT(*) FROM "@ + table_of(r) + where_of(r, ks)
}

/// The rows skipped before page `page` of `limit` rows, capped at `i64::MAX`.
pub open spec fn offset_of(page: i64, limit: i64) -> i64 {
    if (page - 1) * limit <= i64::MAX {
        ((page - 1) * limit) as i64
    } else {
        i64::MAX
    }
}

/// The values bound to the filter placeholders.
pub open spec fn bound_values(r: Resource, pairs: Seq<(Seq<char>, Seq<char>)>) -> Seq<Seq<char>> {
    filtered(r, pairs).map_values(|k: int| last_value(pairs, column_of(r, k))->0)
}

/// `q` is the list query of resource `r` for pagination `p` and merged filter pairs
/// `pairs`.
pub open spec fn composed(q: ListQuery, r: Resource, p: PaginationRequest, pairs: Seq<(Seq<char>, Seq<char>)>) -> bool {
    &&& q.sql@ == row_sql(r, filtered(r, pairs), sort_index(r, p.field@), p.sort@)
    &&& q.count_sql@ == count_sql(r, filtered(r, pairs))
    &&& q.params.deep_view() == bound_values(r, pairs)
    &&& q.limit == p.limit
    &&& q.offset == offset_of(p.page, p.limit)
}

/// A composed list query: the row and count statements with the filter values to bind to
/// their first placeholders, and the limit and offset to bind to the two that follow in
/// the row statement.
pub struct ListQuery {
    pub sql: String,
    pub count_sql: String,
    pub params: Vec<String>,
    pub limit: i64,
    pub offset: i64,
}

impl Resource {
    /// The name of allow-listed column `i`.
    pub fn column(&self, i: usize) -> (r: &'static str)
        requires
            i < 3,
        ensures
            r@ == column_of(*self, i as int),
    {
        if i == 0 {
            "id"
        } else {
            match self {
                Resource::Items => if i == 1 { "name" } else { "description" },
                Resource::Users => if i == 1 { "username" } else { "email" },
            }
        }
    }

    pub fn table(&self) -> (r: &'static str)
        ensures
            r@ == table_of(*self),
    {
        match self {
            Resource::Items => "items",
            Resource::Users => "users",
        }
    }

    pub fn select_list(&self) -> (r: &'static str)
        ensures
            r@ == select_list_of(*self),
    {
        match self {
            Resource::Items => "id, name, description",
            Resource::Users => "id, username, email",
        }
    }
}

fn placeholder_text(p: usize) -> (r: &'static str)
    requires
        1 <= p <= 5,
    ensures
        r@ == placeholder(p as int),
{
    if p == 1 {
        "$1"
    } else if p == 2 {
        "$2"
    } else if p == 3 {
        "$3"
    } else if p == 4 {
        "$4"
    } else {
        "$5"
    }
}

/// The value of the last pair whose key is `key`.
pub fn lookup_last(pairs: &Vec<(String, String)>, key: &str) -> (r: Option<String>)
    ensures
        r.deep_view() == last_value(pairs.deep_view(), key@),
{
    let mut found: Option<String> = None;
    let mut i: usize = 0;
    while i < pairs.len()
        invariant
            0 <= i <= pairs.len(),
            found.deep_view() == last_value(pairs.deep_view().subrange(0, i as int), key@),
        decreases pairs.len() - i,
    {
        let ghost prev = pairs.deep_view().subrange(0, i as int);
        let ghost next = pairs.deep_view().subrange(0, i + 1);
        assert(next.drop_last() =~= prev);
        if same_text(pairs[i].0.as_str(), key) {
            found = Some(pairs[i].1.clone());
        }
        i = i + 1;
    }
    assert(pairs.deep_view().subrange(0, pairs.len() as int) =~= pairs.deep_view());
    found
}

/// The sort column that a requested field selects: the field itself when it is one of the
/// resource's columns, its identity column otherwise.
pub fn sort_column(r: Resource, field: &str) -> (k: usize)
    ensures
        k == sort_index(r, field@),
{
    if same_text(field, r.column(1)) {
        1
    } else if same_text(field, r.column(2)) {
        2
    } else {
        0
    }
}

/// The rows skipped before page `page` of `limit` rows, capped at `i64::MAX`.
pub fn page_offset(page: i64, limit: i64) -> (r: i64)
    requires
        page > 0,
        limit > 0,
    ensures
        r == offset_of(page, limit),
{
    match (page - 1).checked_mul(limit) {
        Some(o) => o,
        None => i64::MAX,
    }
}

proof fn lemma_conditions_step(r: Resource, ks: Seq<int>, k: int)
    ensures
        ks.len() == 0 ==> conditions(r, ks.push(k)) == condition(r, k, 1),
        ks.len() > 0 ==> conditions(r, ks.push(k)) == conditions(r, ks) + " AND "@ + condition(r, k, ks.len() as int + 1),
{
    assert(ks.push(k).drop_last() =~= ks);
}

impl ListQuery {
    /// Composes the list query of resource `r` for a normalised pagination and the
    /// merged filter pairs (a later pair wins over an earlier one with the same key).
    ///
    /// The sort column is `pagination.field` when it names one of the resource's columns
    /// and the identity column otherwise; filters on other keys are ignored.
    pub fn build(r: Resource, pagination: &PaginationRequest, filters: &Vec<(String, String)>) -> (q: ListQuery)
        requires
            pagination.wf(),
        ensures
            composed(q, r, *pagination, filters.deep_view()),
    {
        let ghost pairs = filters.deep_view();
        let mut conds = String::new();
        let mut params: Vec<String> = Vec::new();
        let ghost mut ks: Seq<int> = seq![];
        let mut k: usize = 0;
        while k < 3
            invariant
                0 <= k <= 3,
                pairs == filters.deep_view(),
                ks == filtered_upto(r, pairs, k as int),
                ks.len() <= k,
                params.len() == ks.len(),
                conds@ == conditions(r, ks),
                params.deep_view() == ks.map_values(|j: int| last_value(pairs, column_of(r, j))->0),
            decreases 3 - k,
        {
            let column = r.column(k);
            match lookup_last(filters, column) {
                Some(v) => {
                    let p = params.len() + 1;
                    proof {
                        lemma_conditions_step(r, ks, k as int);
                    }
                    if p > 1 {
                        conds.append(" AND ");
                    }
                    if k == 0 {
                        conds.append("CAST(id AS TEXT) = ");
                        conds.append(placeholder_text(p));
                    } else {
                        conds.append("strpos(lower(");
                        conds.append(column);
                        conds.append("), lower(");
                        conds.append(placeholder_text(p));
                        conds.append(")) > 0");
                    }
                    let ghost old_params = params.deep_view();
                    let ghost val = v@;
                    assert(val == last_value(pairs, column_of(r, k as int))->0);
                    params.push(v);
                    proof {
                        assert(params.deep_view() =~= old_params.push(val));
                        ks = ks.push(k as int);
                        assert(params.deep_view() =~= ks.map_values(|j: int| last_value(pairs, column_of(r, j))->0));
                    }
                },
                None => {},
            }
            k = k + 1;
        }
        let n = params.len();
        let mut clause = String::new();
        if n > 0 {
            clause.append(" WHERE ");
            clause.append(conds.as_str());
        }
        let mut sql = String::from_str("SELECT ");
        sql.append(r.select_list());
        sql.append(" FROM ");
        sql.append(r.table());
        sql.append(clause.as_str());
        sql.append(" ORDER BY ");
        sql.append(r.column(sort_column(r, pagination.field.as_str())));
        sql.append(" ");
        sql.append(pagination.sort.as_str());
        sql.append(" LIMIT ");
        sql.append(placeholder_text(n + 1));
        sql.append(" OFFSET ");
        sql.append(placeholder_text(n + 2));
        let mut count = String::from_str("SELECT COUNT(*) FROM ");
        count.append(r.table());
        count.append(clause.as_str());
        ListQuery {
            sql,
            count_sql: count,
            params,
            limit: pagination.limit,
            offset: page_offset(pagination.page, pagination.limit),
        }
    }
}

/// The statements of a list query depend on which allow-listed columns the filters give a
/// value, never on the values: two filter lists that give values to the same columns
/// yield the same row and count statements.
pub proof fn lemma_statements_ignore_values(
    r: Resource,
    p: PaginationRequest,
    a: Seq<(Seq<char>, Seq<char>)>,
    b: Seq<(Seq<char>, Seq<char>)>,
    qa: ListQuery,
    qb: ListQuery,
)
    requires
        composed(qa, r, p, a),
        composed(qb, r, p, b),
        forall|k: int| 0 <= k < 3 ==> (#[trigger] last_value(a, column_of(r, k)) is Some <==> last_value(b, column_of(r, k)) is Some),
    ensures
        qa.sql@ == qb.sql@,
        qa.count_sql@ == qb.count_sql@,
{
    assert(last_value(a, column_of(r, 0)) is Some <==> last_value(b, column_of(r, 0)) is Some);
    assert(last_value(a, column_of(r, 1)) is Some <==> last_value(b, column_of(r, 1)) is Some);
    assert(last_value(a, column_of(r, 2)) is Some <==> last_value(b, column_of(r, 2)) is Some);
    assert(filtered_upto(r, a, 0) == filtered_upto(r, b, 0));
    assert(filtered_upto(r, a, 1) == filtered_upto(r, b, 1));
    assert(filtered_upto(r, a, 2) == filtered_upto(r, b, 2));
    assert(filtered_upto(r, a, 3) == filtered_upto(r, b, 3));
}

} // verus!
