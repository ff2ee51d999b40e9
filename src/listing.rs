//! The page arithmetic and empty-result policy of list responses.

use vstd::prelude::*;
use crate::error::{ErrorKind, Failure};
use crate::query::Resource;

verus! {

/// The number of pages of `limit` rows that `total` rows fill: the ceiling of
/// `total / limit`.
pub open spec fn page_count(total: int, limit: int) -> int {
    (total + limit - 1) / limit
}

/// Whether a list of the resource that matches no row is answered `NotFound` rather than
/// with an empty page.
pub open spec fn empty_is_not_found(r: Resource) -> bool {
    r == Resource::Users
}

/// The number of pages of `limit` rows that `total` rows fill.
pub fn total_pages(total: i64, limit: i64) -> (r: i64)
    requires
        total >= 0,
        limit > 0,
    ensures
        r == page_count(total as int, limit as int),
        r >= 0,
        r * limit >= total,
        (r - 1) * limit < total,
{
    let q = total / limit;
    let m = total % limit;
    assert(m != 0 ==> q < i64::MAX) by (nonlinear_arith)
        requires
            q == total / limit,
            m == total % limit,
            total >= 0,
            limit > 0,
    {
        assert(total == q * limit + m);
        if m != 0 {
            assert(limit >= 2);
            assert(q * 2 <= q * limit);
        }
    }
    let r = if m == 0 { q } else { q + 1 };
    assert(r == page_count(total as int, limit as int) && r * limit >= total && (r - 1) * limit < total) by (nonlinear_arith)
        requires
            q == total / limit,
            m == total % limit,
            r == if m == 0 { q as int } else { q + 1 },
            total >= 0,
            limit > 0,
    {
        assert(total == q * limit + m);
        assert(0 <= m < limit);
    }
    r
}

/// For every `total >= 0` and `limit > 0` the page count is the one number `n` with
/// `(n - 1) * limit < total <= n * limit`.
pub proof fn lemma_page_count_is_ceiling(total: int, limit: int, n: int)
    requires
        total >= 0,
        limit > 0,
        n * limit >= total,
        (n - 1) * limit < total,
    ensures
        n == page_count(total, limit),
{
    let c = page_count(total, limit);
    assert(c * limit >= total && (c - 1) * limit < total) by (nonlinear_arith)
        requires
            c == (total + limit - 1) / limit,
            total >= 0,
            limit > 0,
    {
        let s = total + limit - 1;
        assert(s == (s / limit) * limit + s % limit);
        assert(0 <= s % limit < limit);
    }
    if n < c {
        assert(n * limit <= (c - 1) * limit) by (nonlinear_arith)
            requires
                n <= c - 1,
                limit > 0,
        ;
    } else if n > c {
        assert((n - 1) * limit >= c * limit) by (nonlinear_arith)
            requires
                n - 1 >= c,
                limit > 0,
        ;
    }
}

/// How a list that matched `total` rows is answered: `NotFound` for an empty list of a
/// resource whose policy says so, a page otherwise.
pub fn list_outcome(r: Resource, total: i64) -> (res: Result<(), Failure>)
    ensures
        res is Err <==> (total == 0 && empty_is_not_found(r)),
        res matches Err(f) ==> f.kind == ErrorKind::NotFound && f.desc@ == "Not Found"@,
{
    match r {
        Resource::Users => {
            if total == 0 {
                Err(Failure::new(ErrorKind::NotFound, "Not Found"))
            } else {
                Ok(())
            }
        },
        Resource::Items => Ok(()),
    }
}

} // verus!
