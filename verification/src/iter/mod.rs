//! Iteration over paged remote listings.

pub mod page_iterator;
pub mod replay;
