use vstd::prelude::*;

use crate::schema::FilterOptions;

verus! {

/// Page size used when the client gives none.
pub const DEFAULT_LIMIT: i64 = 10;

/// Page used when the client gives none.
pub const DEFAULT_PAGE: i64 = 1;

/// A bounded window into the ordered list of notes.
#[derive(Clone, Debug, PartialEq, Eq)]
pub struct Pagination {
    pub limit: u64,
    pub offset: u128,
}

/// The 1-based page actually served: absent, zero or negative means the
/// first page.
pub open spec fn effective_page(page: Option<i64>) -> int {
    match page {
        Some(p) => if p >= 1 { p as int } else { 1 },
        None => DEFAULT_PAGE as int,
    }
}

/// The page size actually served: absent means the default, negative
/// means zero.
pub open spec fn effective_limit(limit: Option<i64>) -> int {
    match limit {
        Some(l) => if l >= 0 { l as int } else { 0 },
        None => DEFAULT_LIMIT as int,
    }
}

/// The number of notes skipped: `(page - 1) * limit`.
pub open spec fn spec_offset(opts: FilterOptions) -> int {
    (effective_page(opts.page) - 1) * effective_limit(opts.limit)
}

/// Resolves untrusted page/limit parameters into a window. A page below
/// one is served as the first page and a negative limit as zero; the
/// offset is exact for every input.
pub fn resolve_pagination(opts: &FilterOptions) -> (r: Pagination)
    ensures
        r.limit == effective_limit(opts.limit),
        r.offset == spec_offset(*opts),
{
    let limit: i64 = match opts.limit {
        Some(l) => if l >= 0 { l } else { 0 },
        None => DEFAULT_LIMIT,
    };
    let page: i64 = match opts.page {
        Some(p) => if p >= 1 { p } else { 1 },
        None => DEFAULT_PAGE,
    };
    let skipped: u128 = (page - 1) as u128;
    let size: u128 = limit as u128;
    assert(skipped * size <= u128::MAX) by (nonlinear_arith)
        requires
            skipped <= i64::MAX as u128,
            size <= i64::MAX as u128,
    ;
    let offset: u128 = skipped * size;
    Pagination { limit: limit as u64, offset }
}

} // verus!
