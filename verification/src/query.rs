//! The paging of a query: how many matching documents to skip and how many
//! to return at most, where 0 means "no skip" and "no limit".
use vstd::prelude::*;

verus! {

/// The paging handed to the database: `None` leaves the setting unset.
pub struct QueryWindow {
    pub skip: Option<u64>,
    pub limit: Option<u64>,
}

/// A count where 0 means that the setting is not used.
pub open spec fn count_setting(count: u64) -> Option<u64> {
    if count == 0 {
        None
    } else {
        Some(count)
    }
}

/// The paging for a query from the `skip` and `limit` counts, where 0
/// leaves the setting unset.
pub fn query_window(skip: u64, limit: u64) -> (window: QueryWindow)
    ensures
        window.skip == count_setting(skip),
        window.limit == count_setting(limit),
        window.skip is None <==> skip == 0,
        window.limit is None <==> limit == 0,
        window.skip matches Some(n) ==> n == skip,
        window.limit matches Some(n) ==> n == limit,
{
    QueryWindow {
        skip: if skip != 0 {
            Some(skip)
        } else {
            None
        },
        limit: if limit != 0 {
            Some(limit)
        } else {
            None
        },
    }
}

/// A count is left unset exactly when it is 0, and any other count is kept
/// as it is: a skip or limit of 1 takes effect.
pub proof fn lemma_zero_alone_is_unset(count: u64)
    ensures
        count_setting(count) is None <==> count == 0,
        count != 0 ==> count_setting(count) == Some(count),
{
}

} // verus!
