//! The parts of word-list queries that are computed before they reach the
//! store.
use vstd::prelude::*;
use vstd::string::StringExecFns;

verus! {

/// The most entries a search returns.
pub const SEARCH_LIMIT: u64 = 50;

/// A `LIKE` pattern matching every text that starts with `prefix`.
pub fn prefix_pattern(prefix: &str) -> (r: String)
    ensures
        r@ == prefix@ + "%"@,
{
    let mut p = prefix.to_owned();
    p.append("%");
    p
}

/// How many entries come before page `page` of `page_size` entries each;
/// `None` where that count does not fit in a `u64`.
pub fn page_offset(page: u64, page_size: u64) -> (r: Option<u64>)
    ensures
        page * page_size <= u64::MAX ==> r == Some((page * page_size) as u64),
        page * page_size > u64::MAX ==> r is None,
{
    page.checked_mul(page_size)
}

} // verus!
