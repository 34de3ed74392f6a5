//! Pages of results.

use vstd::prelude::*;

verus! {

/// A page of results, with the number of pages and of results in all.
#[derive(Debug, PartialEq, Eq)]
pub struct PaginatedVec<T> {
    pub items: Vec<T>,
    pub total_pages: u32,
    pub total_results: u64,
}

} // verus!
