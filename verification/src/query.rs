//! Query Encoder: turns a free-text search term and a zero-based page index
//! into the tracker's paginated search request shape.

use vstd::prelude::*;
use vstd::string::StringExecFns;
use crate::config::AppConfig;

verus! {

/// Fixed page size of the upstream listing: one page holds 50 rows.
pub const PAGE_SIZE: u64 = 50;

/// Fixed protocol constant: the column that results are ordered by
/// (the `o` request parameter).
pub const ORDER_COLUMN: u64 = 4;

/// Fixed protocol constant: the sort mode applied to that column
/// (the `s` request parameter).
pub const SORT_MODE: u64 = 2;

/// The request parameters of one paginated search: the row offset to start
/// at, the query text verbatim, and the two fixed ordering constants.
pub struct SearchParams {
    /// The `start` parameter: row offset of the requested page.
    pub start: u64,
    /// The `nm` parameter: the query text, unmodified.
    pub nm: String,
    /// The `o` parameter, always [`ORDER_COLUMN`].
    pub order: u64,
    /// The `s` parameter, always [`SORT_MODE`].
    pub sort: u64,
}

/// Encodes a search: the start offset is exactly `page * 50`, the query text
/// is carried verbatim, and the ordering constants are fixed.
pub fn encode_search_query(query: &str, page: u64) -> (p: SearchParams)
    requires
        page * PAGE_SIZE <= u64::MAX,
    ensures
        p.start == page * PAGE_SIZE,
        p.nm@ == query@,
        p.order == ORDER_COLUMN,
        p.sort == SORT_MODE,
{
    SearchParams { start: page * PAGE_SIZE, nm: query.to_owned(), order: ORDER_COLUMN, sort: SORT_MODE }
}

/// Encodes a search after checking that the start offset fits in 64 bits:
/// pages beyond that machine limit are reported as absent rather than
/// demanded away from the caller.
pub fn encode_search_query_checked(query: &str, page: u64) -> (r: Option<SearchParams>)
    ensures
        (match r {
            Some(p) => page * PAGE_SIZE <= u64::MAX && p.start == page * PAGE_SIZE && p.nm@
                == query@ && p.order == ORDER_COLUMN && p.sort == SORT_MODE,
            None => page * PAGE_SIZE > u64::MAX,
        }),
{
    if page <= u64::MAX / PAGE_SIZE {
        proof {
            assert(page * PAGE_SIZE <= (u64::MAX / PAGE_SIZE) * PAGE_SIZE) by (nonlinear_arith)
                requires
                    page <= u64::MAX / PAGE_SIZE,
            ;
        }
        Some(encode_search_query(query, page))
    } else {
        proof {
            assert(page * PAGE_SIZE > u64::MAX) by (nonlinear_arith)
                requires
                    page > u64::MAX / PAGE_SIZE,
            ;
        }
        None
    }
}

/// The encoded parameter list of one search request, in protocol order:
/// `start` with the decimal offset, `nm` with the query text verbatim, and
/// the fixed `o` and `s` ordering constants, rendered in decimal.
pub fn search_param_pairs(p: &SearchParams) -> (v: Vec<(String, String)>)
    ensures
        v@.len() == 4,
        v@[0].0@ == "start"@,
        crate::text::all_digits(v@[0].1@),
        crate::text::digits_val(v@[0].1@) == p.start,
        v@[1].0@ == "nm"@,
        v@[1].1@ == p.nm@,
        v@[2].0@ == "o"@,
        crate::text::digits_val(v@[2].1@) == p.order,
        v@[3].0@ == "s"@,
        crate::text::digits_val(v@[3].1@) == p.sort,
{
    let mut v: Vec<(String, String)> = Vec::new();
    v.push(("start".to_owned(), crate::text::u64_to_string(p.start)));
    v.push(("nm".to_owned(), p.nm.clone()));
    v.push(("o".to_owned(), crate::text::u64_to_string(p.order)));
    v.push(("s".to_owned(), crate::text::u64_to_string(p.sort)));
    v
}

/// The search endpoint: `{base}/forum/tracker.php`.
pub fn search_url(cfg: &AppConfig) -> (r: String)
    ensures
        r@ == cfg.base_url@ + "/forum/tracker.php"@,
{
    cfg.base_url.clone().concat("/forum/tracker.php")
}

} // verus!
