//! Analysis-listing options.
//!
//! The analysis store is an external collaborator; the plain values its
//! listings are driven by, and their defaults, live here.

use vstd::prelude::*;

verus! {

/// What an analysis listing is ordered by.
#[derive(Clone, Copy, PartialEq, Eq, Structural, Debug)]
pub enum SortKey {
    Id,
    LastModified,
}

/// Options of one analysis listing.
#[derive(Debug)]
pub struct SelectOptions {
    pub query: Option<String>,
    pub skip: u32,
    pub limit: u32,
    pub order_by: SortKey,
    pub direction: i32,
}

/// The listing size used when a request names none.
pub fn default_limit() -> (r: u32)
    ensures
        r == 20,
{
    20
}

/// The ordering used when a request names none.
pub fn default_order_by() -> (r: SortKey)
    ensures
        r is LastModified,
{
    SortKey::LastModified
}

/// The direction used when a request names none: newest first.
pub fn default_direction() -> (r: i32)
    ensures
        r == -1,
{
    -1
}

/// How many rows a paged listing skips.
pub fn select_skip(page: u32, limit: u32) -> (r: u32)
    requires
        page * limit <= u32::MAX,
    ensures
        r == page * limit,
{
    page * limit
}

} // verus!
