//! Listing the tracks of an album or a playlist, page by page.
use vstd::prelude::*;

verus! {

/// Items asked for per page.
pub const PAGE_LIMIT: u64 = 100;

/// After a page, the offset of the next one: `None` once `collected`
/// items reach the `total` that the catalog reports, or when the next
/// offset would not fit.
pub fn next_page_offset(collected: usize, total: i128, offset: u64, limit: u64) -> (r: Option<u64>)
    ensures
        (collected as int) >= total ==> r is None,
        (collected as int) < total && offset + limit <= u64::MAX ==> r == Some(
            (offset + limit) as u64,
        ),
        (collected as int) < total && offset + limit > u64::MAX ==> r is None,
{
    if collected as i128 >= total {
        None
    } else {
        offset.checked_add(limit)
    }
}

} // verus!
