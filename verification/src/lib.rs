//! Client-side bindings for a set of chain-hosted social modules.
//!
//! Two pieces carry the weight of the crate:
//!
//! * the tagged-union codecs of [`reactions`] and [`reports`], which map a
//!   closed set of variants onto one flat wire record and back;
//! * the cursor-based [`iter::page_iterator`], which presents a paged remote
//!   listing as a single pull-based sequence.

pub mod cosmwasm;
pub mod iter;
pub mod reactions;
pub mod reports;
mod text;
pub mod types;
