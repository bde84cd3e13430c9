//! The cursor protocol that every listing operation follows.
//!
//! A request carries the order, an optional limit and at most one cursor in
//! each direction. A response carries one page of items and the cursor after
//! its last item, or none where the listing has ended. A cursor is opaque
//! text: it is only ever taken from a response and echoed in a request.

use vstd::prelude::*;
use crate::query::{decimal, decimal_text, optional_pair, push_optional, push_pair, Pairs};

verus! {

/// The order in which a listing returns its items.
#[derive(Clone, Copy, Debug, PartialEq, Eq, Structural)]
pub enum PaginationOrder {
    /// Oldest first.
    Asc,
    /// Newest first.
    Desc,
}

impl PaginationOrder {
    /// The value of the `order` parameter.
    pub open spec fn wire(self) -> Seq<char> {
        match self {
            PaginationOrder::Asc => "asc"@,
            PaginationOrder::Desc => "desc"@,
        }
    }

    /// The value of the `order` parameter.
    pub fn as_str(&self) -> (text: &'static str)
        ensures
            text@ == self.wire(),
    {
        match self {
            PaginationOrder::Asc => "asc",
            PaginationOrder::Desc => "desc",
        }
    }
}

impl Default for PaginationOrder {
    /// Newest first.
    fn default() -> (order: Self)
        ensures
            order == PaginationOrder::Desc,
    {
        PaginationOrder::Desc
    }
}

/// The pagination fields of a listing request.
#[derive(Debug)]
pub struct PaginationParams<'a> {
    /// The order in which items are returned.
    pub order: PaginationOrder,
    /// The largest number of items to return in one page.
    pub limit: Option<u32>,
    /// Return the items that follow this cursor.
    pub after: Option<&'a str>,
    /// Return the items that precede this cursor.
    pub before: Option<&'a str>,
}

/// The model of an optional borrowed text.
pub open spec fn text_of(value: Option<&str>) -> Option<Seq<char>> {
    match value {
        Some(text) => Some(text@),
        None => None,
    }
}

impl<'a> PaginationParams<'a> {
    /// The limit as it is sent.
    pub open spec fn limit_text(self) -> Option<Seq<char>> {
        match self.limit {
            Some(n) => Some(decimal(n as nat)),
            None => None,
        }
    }

    /// The pairs of the pagination fields: `order` always, then `limit`,
    /// `after` and `before`, each only where it is present.
    pub open spec fn pairs(self) -> Pairs {
        seq![("order"@, self.order.wire())] + optional_pair("limit"@, self.limit_text())
            + optional_pair("after"@, text_of(self.after)) + optional_pair(
            "before"@,
            text_of(self.before),
        )
    }

    /// Appends the pairs of the pagination fields to `out`.
    pub fn append_to(&self, out: &mut Vec<(String, String)>)
        ensures
            final(out).deep_view() == old(out).deep_view() + self.pairs(),
    {
        push_pair(out, "order", self.order.as_str());
        match self.limit {
            Some(n) => {
                let text = decimal_text(n);
                push_pair(out, "limit", text.as_str());
            },
            None => {},
        }
        push_optional(out, "after", self.after);
        push_optional(out, "before", self.before);
        assert(out.deep_view() =~= old(out).deep_view() + self.pairs());
    }
}

impl<'a> Default for PaginationParams<'a> {
    /// Newest first, no limit and no cursor.
    fn default() -> (params: Self)
        ensures
            params.order == PaginationOrder::Desc,
            params.limit is None,
            params.after is None,
            params.before is None,
    {
        PaginationParams { order: PaginationOrder::Desc, limit: None, after: None, before: None }
    }
}

/// The metadata of a listing response.
#[derive(Debug, PartialEq, Eq)]
pub struct ListMetadata {
    /// The cursor after the last item of the page, absent on the last page.
    pub after: Option<String>,
}

/// A listing response as it arrives: the items and the metadata.
#[derive(Debug, PartialEq, Eq)]
pub struct PaginatedList<T> {
    /// The items of the page, in the order of the response.
    pub data: Vec<T>,
    /// The metadata of the response.
    pub list_metadata: ListMetadata,
}

/// One page of a listing.
#[derive(Debug, PartialEq, Eq)]
pub struct PaginatedPage<T> {
    /// The items of the page, in the order of the response.
    pub data: Vec<T>,
    /// The cursor with which the next page is requested; `None` where this
    /// page is the last.
    pub next_cursor: Option<String>,
}

impl<T> PaginatedList<T> {
    /// Turns a response into the page that the caller receives: the items
    /// unchanged and in order, and `list_metadata.after` as the next cursor.
    pub fn into_page(self) -> (page: PaginatedPage<T>)
        ensures
            page.data == self.data,
            page.next_cursor == self.list_metadata.after,
            self.list_metadata.after is None ==> page.next_cursor is None,
    {
        PaginatedPage { data: self.data, next_cursor: self.list_metadata.after }
    }
}

impl<T> PaginatedPage<T> {
    /// Whether this page ends the listing.
    pub fn is_last(&self) -> (last: bool)
        ensures
            last == (self.next_cursor is None),
    {
        self.next_cursor.is_none()
    }
}

} // verus!
