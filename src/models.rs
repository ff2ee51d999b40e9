//! Item records and the decisions of the item use-cases.

use vstd::prelude::*;
use crate::listing::{page_count, total_pages};
use crate::filter::{form_pairs, merge_filters, query_filters};
use crate::pagination::{pagination_of, params_pagination_ok, PaginationRequest};
use crate::query::{composed, ListQuery, Resource};

verus! {

/// A stored item.
pub struct Item {
    pub id: i32,
    pub name: String,
    pub description: Option<String>,
}

pub struct CreateItem {
    pub name: String,
    pub description: Option<String>,
}

pub struct UpdateItem {
    pub name: Option<String>,
    pub description: Option<String>,
}

/// The raw parameters of an item list request.
pub struct ItemsQuery {
    pub page: Option<i64>,
    pub limit: Option<i64>,
    pub sort: Option<String>,
    pub field: Option<String>,
    pub filter: Option<Vec<(String, String)>>,
}

/// One page of an item list.
pub struct Items {
    pub page: i64,
    pub limit: i64,
    pub total: i64,
    pub total_page: i64,
    pub items: Vec<Item>,
}

/// The item after a partial update: each given field replaces the stored one.
pub fn merge_item_update(current: Item, update: UpdateItem) -> (r: Item)
    ensures
        r.id == current.id,
        r.name@ == match update.name { Some(n) => n@, None => current.name@ },
        r.description.deep_view() == match update.description {
            Some(d) => Some(d@),
            None => current.description.deep_view(),
        },
{
    Item {
        id: current.id,
        name: match update.name { Some(n) => n, None => current.name },
        description: match update.description { Some(d) => Some(d), None => current.description },
    }
}

impl ItemsQuery {
    /// The normalised pagination of the request.
    pub fn pagination(&self) -> (r: PaginationRequest)
        ensures
            params_pagination_ok(r, self.page, self.limit, self.field.deep_view(), self.sort.deep_view()),
    {
        pagination_of(self.page, self.limit, &self.field, &self.sort)
    }

    /// The normalised pagination of the request and its list query, whose filters are the
    /// structured ones overlaid with the `filter[<field>]` pairs of the raw query string.
    pub fn list_query(&self, raw_query: &str) -> (r: (PaginationRequest, ListQuery))
        ensures
            params_pagination_ok(r.0, self.page, self.limit, self.field.deep_view(), self.sort.deep_view()),
            composed(
                r.1,
                Resource::Items,
                r.0,
                match self.filter { Some(f) => f.deep_view(), None => Seq::empty() } + query_filters(form_pairs(raw_query@)),
            ),
    {
        let pagination = self.pagination();
        let none: Vec<(String, String)> = Vec::new();
        let filters = match &self.filter {
            Some(f) => merge_filters(f, raw_query),
            None => merge_filters(&none, raw_query),
        };
        assert(none.deep_view() =~= Seq::<(Seq<char>, Seq<char>)>::empty());
        let query = ListQuery::build(Resource::Items, &pagination, &filters);
        (pagination, query)
    }
}

impl Items {
    /// One page of items out of `total` matching ones.
    pub fn new(pagination: &PaginationRequest, total: i64, items: Vec<Item>) -> (r: Items)
        requires
            pagination.wf(),
            total >= 0,
        ensures
            r.page == pagination.page,
            r.limit == pagination.limit,
            r.total == total,
            r.total_page == page_count(total as int, pagination.limit as int),
            r.items == items,
    {
        Items {
            page: pagination.page,
            limit: pagination.limit,
            total,
            total_page: total_pages(total, pagination.limit),
            items,
        }
    }
}

} // verus!
