//! Pagination records shared by the queries of all modules, and their link
//! to the pages of the [page iterator](crate::iter::page_iterator).

use crate::cosmwasm::{uint64_from, uint64_of};
use crate::iter::page_iterator::Page;
use cosmwasm_std::{Binary, Uint64};
use vstd::prelude::*;

verus! {

/// Pagination of a request: which part of a listing is asked for.
#[derive(Clone, Debug, PartialEq)]
pub struct PageRequest {
    /// Continuation key that a previous response returned; `None` asks for
    /// the start of the listing.
    pub key: Option<Binary>,
    /// Numeric offset, for use where no key is at hand.
    pub offset: Option<Uint64>,
    /// Greatest number of items to return.
    pub limit: Uint64,
    /// Whether the response is to count all items of the listing.
    pub count_total: bool,
    /// Whether the listing is walked in descending order.
    pub reverse: bool,
}

/// Pagination of a response: how to go on from the page just returned.
#[derive(Clone, Debug, PartialEq)]
pub struct PageResponse {
    /// Key to ask the next page with; `None` after the last page.
    pub next_key: Option<Binary>,
    /// Number of all items, where the request asked for it.
    pub total: Option<Uint64>,
}

/// The continuation key that a response carries: the key of its pagination,
/// and none where the response has no pagination.
pub open spec fn continuation_key(pagination: Option<PageResponse>) -> Option<Binary> {
    match pagination {
        Some(response) => response.next_key,
        None => None,
    }
}

impl PageRequest {
    /// The request for the page that follows `key`, of at most `limit` items:
    /// ascending, by key alone, without a count of the listing.
    pub fn after(key: Option<Binary>, limit: u64) -> (request: PageRequest)
        ensures
            request == (PageRequest {
                key,
                offset: None,
                limit: uint64_of(limit),
                count_total: false,
                reverse: false,
            }),
    {
        PageRequest { key, offset: None, limit: uint64_from(limit), count_total: false, reverse: false }
    }
}

impl<T> Page<T, Binary> {
    /// The page that a response stands for: its items, in their order, and
    /// the continuation key of its pagination.
    pub fn from_response(items: Vec<T>, pagination: Option<PageResponse>) -> (page: Page<T, Binary>)
        ensures
            page.items == items,
            page.next_page_key == continuation_key(pagination),
    {
        let next_page_key = match pagination {
            Some(response) => response.next_key,
            None => None,
        };
        Page { items, next_page_key }
    }
}

} // verus!
