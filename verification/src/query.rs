//! The bounds of the read-only queries that are served from the store.

use vstd::prelude::*;

verus! {

/// How many rows a search returns where the caller names no limit.
pub const DEFAULT_LIMIT: u32 = 20;

/// The most rows that a search returns, whatever the caller asks for.
pub const MAX_LIMIT: u32 = 100;

/// How many rows a search returns: what the caller asks for, twenty where
/// the caller asks for nothing, and never more than a hundred.
pub fn search_limit(limit: Option<u32>) -> (n: u32)
    ensures
        n == match limit {
            Some(asked) => if asked <= MAX_LIMIT {
                asked
            } else {
                MAX_LIMIT
            },
            None => DEFAULT_LIMIT,
        },
{
    match limit {
        Some(asked) => if asked <= MAX_LIMIT {
            asked
        } else {
            MAX_LIMIT
        },
        None => DEFAULT_LIMIT,
    }
}

} // verus!
