//! Pages of a listing ordered by creation time, newest first.
use vstd::prelude::*;

verus! {

/// Where the next page starts: items created strictly before `next`
/// (microseconds since the epoch), at most `limit` of them.
#[derive(Clone, Copy, Debug, PartialEq, Eq, Structural)]
pub struct Pagination {
    pub next: i64,
    pub limit: usize,
}

} // verus!
