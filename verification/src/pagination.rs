//! Pagination parameters and their documented defaults.

use vstd::prelude::*;

verus! {

/// The page asked for: `1` when absent, and never below `1`.
pub open spec fn spec_page(page: Option<u64>) -> u64 {
    match page {
        Option::None => 1,
        Option::Some(p) => if p == 0 {
            1
        } else {
            p
        },
    }
}

/// The page size asked for: `49` when absent, and otherwise passed
/// through unchanged.
pub open spec fn spec_page_size(page_size: Option<u64>) -> u64 {
    match page_size {
        Option::None => 49,
        Option::Some(s) => s,
    }
}

/// Applies the page default, as `spec_page` describes.
pub fn page_or_default(page: Option<u64>) -> (r: u64)
    ensures
        r == spec_page(page),
        r >= 1,
{
    match page {
        Option::None => 1,
        Option::Some(p) => if p == 0 {
            1
        } else {
            p
        },
    }
}

/// Applies the page-size default, as `spec_page_size` describes.
pub fn page_size_or_default(page_size: Option<u64>) -> (r: u64)
    ensures
        r == spec_page_size(page_size),
{
    match page_size {
        Option::None => 49,
        Option::Some(s) => s,
    }
}

/// The query parameters of a paginated listing, with defaults applied.
pub struct PaginationParams {
    pub category: Option<String>,
    pub language: Option<String>,
    pub page: u64,
    pub page_size: u64,
}

impl PaginationParams {
    /// A well-formed set of parameters never asks for a page below `1`.
    pub open spec fn wf(self) -> bool {
        self.page >= 1
    }

    /// Builds the parameters from what the query string held, applying
    /// the defaults.
    pub fn new(
        category: Option<String>,
        language: Option<String>,
        page: Option<u64>,
        page_size: Option<u64>,
    ) -> (r: PaginationParams)
        ensures
            r.category == category,
            r.language == language,
            r.page == spec_page(page),
            r.page_size == spec_page_size(page_size),
            r.wf(),
    {
        PaginationParams {
            category,
            language,
            page: page_or_default(page),
            page_size: page_size_or_default(page_size),
        }
    }
}

} // verus!
