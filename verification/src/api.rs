//! The boundary to the price feed.
//!
//! The feed is polled with one HTTP GET whose JSON body carries the quote
//! records. The transport, the TLS stack and the deserialization live with
//! the caller; the store takes the outcome as a plain
//! `Option<Vec<Quote>>` through `PriceStore::apply_fetch_result`. What
//! belongs to the feed's logic itself is the success rule below.

use vstd::prelude::*;

verus! {

/// The price-feed client's decision logic.
pub struct API;

impl API {
    /// Is `code` a success HTTP status? A response outside 200..300 is a
    /// failed fetch, whatever its body says.
    pub fn status_ok(code: u16) -> (r: bool)
        ensures
            r == (200 <= code < 300),
    {
        200 <= code && code < 300
    }
}

} // verus!
