//! Helpers of the administration list queries.

use vstd::prelude::*;
use vstd::string::*;

verus! {

/// A row count as reported to the UI: negative counts read as 0.
pub fn to_u64(value: i64) -> (r: u64)
    ensures
        r == (if value >= 0 { value as u64 } else { 0 }),
{
    if value >= 0 {
        value as u64
    } else {
        0
    }
}

/// The `ILIKE` pattern of a search: the query anywhere in the text.
pub fn search_pattern(query: Option<&str>) -> (r: Option<String>)
    ensures
        match query {
            Some(q) => (r matches Some(p) && p@ == "%"@ + q@ + "%"@),
            None => r is None,
        },
{
    match query {
        Some(q) => Some(String::from_str("%").concat(q).concat("%")),
        None => None,
    }
}

/// Total number of matching rows of a page, read from the window count of
/// its first row; an empty page has none.
pub fn page_total(first_row_total: Option<i64>) -> (r: u64)
    ensures
        r == match first_row_total {
            Some(t) => if t >= 0 { t as u64 } else { 0u64 },
            None => 0u64,
        },
{
    match first_row_total {
        Some(t) => to_u64(t),
        None => 0,
    }
}

} // verus!
