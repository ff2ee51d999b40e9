//! Merging the filters of a list request: a structured filter object overlaid with the
//! `filter[<field>]=<value>` pairs of the query string.

use vstd::prelude::*;
use crate::text::has_prefix;

verus! {

/// The prefix of a filter key in a query string.
pub open spec fn filter_prefix() -> Seq<char> {
    "filter["@
}

/// The field that a query-string key `filter[<field>]` names.
pub open spec fn filter_field(key: Seq<char>) -> Option<Seq<char>> {
    if key.len() >= 8 && key.subrange(0, 7) == filter_prefix() && key.last() == ']' {
        Some(key.subrange(7, key.len() - 1))
    } else {
        None
    }
}

/// The `(field, value)` filters among query-string pairs, in their order.
pub open spec fn query_filters(pairs: Seq<(Seq<char>, Seq<char>)>) -> Seq<(Seq<char>, Seq<char>)>
    decreases pairs.len(),
{
    if pairs.len() == 0 {
        seq![]
    } else {
        let rest = query_filters(pairs.drop_last());
        match filter_field(pairs.last().0) {
            Some(f) => rest.push((f, pairs.last().1)),
            None => rest,
        }
    }
}

/// The name/value pairs that url's `application/x-www-form-urlencoded` parser reads from a
/// query string.
pub uninterp spec fn form_pairs(query: Seq<char>) -> Seq<(Seq<char>, Seq<char>)>;

/// Relies on url::form_urlencoded::parse with into_owned: the percent-decoded name/value
/// pairs of the query string, in their order, depending on the string alone; an empty
/// string has none.
#[verifier::external_body]
fn parse_form_pairs(query: &str) -> (r: Vec<(String, String)>)
    ensures
        r.deep_view() == form_pairs(query@),
        query@.len() == 0 ==> r@.len() == 0,
{
    url::form_urlencoded::parse(query.as_bytes()).into_owned().collect()
}

/// The field of a `filter[<field>]` key, or `None` for any other key.
pub fn filter_field_of(key: &str) -> (r: Option<String>)
    ensures
        r.deep_view() == filter_field(key@),
{
    let n = key.unicode_len();
    if n < 8 {
        return None;
    }
    if !has_prefix(key, "filter[") {
        return None;
    }
    proof {
        reveal_strlit("filter[");
    }
    if key.get_char(n - 1) != ']' {
        return None;
    }
    Some(String::from_str(key.substring_char(7, n - 1)))
}

/// The structured filters followed by the filters among the query-string pairs; a later
/// pair wins over an earlier one with the same field.
pub fn merge_filter_pairs(structured: &Vec<(String, String)>, pairs: &Vec<(String, String)>) -> (r: Vec<(String, String)>)
    ensures
        r.deep_view() == structured.deep_view() + query_filters(pairs.deep_view()),
{
    let mut out: Vec<(String, String)> = Vec::new();
    let mut i: usize = 0;
    while i < structured.len()
        invariant
            0 <= i <= structured.len(),
            out.deep_view() == structured.deep_view().subrange(0, i as int),
        decreases structured.len() - i,
    {
        let ghost before = out.deep_view();
        let k = structured[i].0.clone();
        let v = structured[i].1.clone();
        let ghost entry = (k@, v@);
        assert(entry == structured.deep_view()[i as int]);
        out.push((k, v));
        assert(out.deep_view() =~= before.push(entry));
        assert(out.deep_view() =~= structured.deep_view().subrange(0, i + 1));
        i = i + 1;
    }
    assert(structured.deep_view().subrange(0, structured.len() as int) =~= structured.deep_view());
    let mut j: usize = 0;
    while j < pairs.len()
        invariant
            0 <= j <= pairs.len(),
            out.deep_view() == structured.deep_view() + query_filters(pairs.deep_view().subrange(0, j as int)),
        decreases pairs.len() - j,
    {
        let ghost prev = pairs.deep_view().subrange(0, j as int);
        let ghost next = pairs.deep_view().subrange(0, j + 1);
        assert(next.drop_last() =~= prev);
        let ghost before = out.deep_view();
        match filter_field_of(pairs[j].0.as_str()) {
            Some(f) => {
                let ghost fv = f@;
                out.push((f, pairs[j].1.clone()));
                assert(out.deep_view() =~= before.push((fv, pairs[j as int].1@)));
            },
            None => {},
        }
        j = j + 1;
    }
    assert(pairs.deep_view().subrange(0, pairs.len() as int) =~= pairs.deep_view());
    out
}

/// Merges the structured filters with the `filter[<field>]` pairs of a raw query string.
pub fn merge_filters(structured: &Vec<(String, String)>, query: &str) -> (r: Vec<(String, String)>)
    ensures
        r.deep_view() == structured.deep_view() + query_filters(form_pairs(query@)),
{
    let pairs = parse_form_pairs(query);
    merge_filter_pairs(structured, &pairs)
}

} // verus!
