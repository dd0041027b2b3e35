//! The shared quote store: the most recently fetched quote list and a
//! "fetch in progress" flag.
//!
//! The fetch task and the render task communicate only through one such
//! store. The methods here are the store's whole behaviour under the lock;
//! the caller wraps the store in its mutual-exclusion primitive and holds
//! the lock exactly for the duration of one method call, never across a
//! display write.

use vstd::prelude::*;

verus! {

/// Seconds between two polls of the price feed.
pub const FETCH_INTERVAL_SECS: u64 = 600;

/// Milliseconds the fetch flag stays up after an attempt finishes, so the
/// renderer reliably observes the updating state at least once per cycle.
pub const FETCH_SETTLE_MILLIS: u64 = 500;

/// One quote as the renderer sees it: the instrument's symbol, and its
/// price exactly as the feed sent it, in text. The price is parsed only at
/// render time.
pub struct Quote {
    pub symbol: String,
    pub price_text: String,
}

/// The mathematical content of a quote: both fields as character sequences.
#[verifier::ext_equal]
pub struct QuoteView {
    pub symbol: Seq<char>,
    pub price_text: Seq<char>,
}

impl View for Quote {
    type V = QuoteView;

    open spec fn view(&self) -> QuoteView {
        QuoteView { symbol: self.symbol@, price_text: self.price_text@ }
    }
}

impl DeepView for Quote {
    type V = QuoteView;

    open spec fn deep_view(&self) -> QuoteView {
        self@
    }
}

impl Clone for Quote {
    fn clone(&self) -> (r: Self)
        ensures
            r@ == self@,
    {
        Quote { symbol: self.symbol.clone(), price_text: self.price_text.clone() }
    }
}

/// The store: a quote list that is only ever replaced whole, and the flag
/// the fetch task raises while an attempt (plus its settle delay) runs.
pub struct PriceStore {
    quotes: Vec<Quote>,
    fetching: bool,
}

impl PriceStore {
    /// The stored quotes, by content.
    pub closed spec fn quotes_view(&self) -> Seq<QuoteView> {
        self.quotes.deep_view()
    }

    /// Is a fetch attempt in progress?
    pub closed spec fn is_fetching(&self) -> bool {
        self.fetching
    }

    /// A fresh store: no quotes yet, no fetch running.
    pub fn new() -> (r: PriceStore)
        ensures
            r.quotes_view() == Seq::<QuoteView>::empty(),
            !r.is_fetching(),
    {
        let r = PriceStore { quotes: Vec::new(), fetching: false };
        proof {
            assert(r.quotes_view() =~= Seq::<QuoteView>::empty());
        }
        r
    }

    /// Raise the fetch flag; the quotes stay untouched.
    pub fn begin_fetch(&mut self)
        ensures
            final(self).quotes_view() == old(self).quotes_view(),
            final(self).is_fetching(),
    {
        self.fetching = true;
    }

    /// Clear the fetch flag; the quotes stay untouched.
    pub fn end_fetch(&mut self)
        ensures
            final(self).quotes_view() == old(self).quotes_view(),
            !final(self).is_fetching(),
    {
        self.fetching = false;
    }

    /// Swap in a whole new quote list. The store never holds a partial
    /// update: the old list is replaced in one step, whatever it held.
    pub fn replace_quotes(&mut self, list: Vec<Quote>)
        ensures
            final(self).quotes_view() == list.deep_view(),
            final(self).is_fetching() == old(self).is_fetching(),
    {
        self.quotes = list;
    }

    /// The fetch task's decision on one attempt's outcome: a successful
    /// fetch replaces the quotes; a failed one leaves the prior list
    /// untouched, preferring stale-but-valid data over a blank display.
    pub fn apply_fetch_result(&mut self, result: Option<Vec<Quote>>)
        ensures
            result matches Some(list) ==> final(self).quotes_view() == list.deep_view(),
            result is None ==> final(self).quotes_view() == old(self).quotes_view(),
            final(self).is_fetching() == old(self).is_fetching(),
    {
        match result {
            Some(list) => self.replace_quotes(list),
            None => (),
        }
    }

    /// A read-only copy of the store's contents for the renderer: the
    /// quotes (by content) and the fetch flag.
    pub fn snapshot(&self) -> (r: (Vec<Quote>, bool))
        ensures
            r.0.deep_view() == self.quotes_view(),
            r.1 == self.is_fetching(),
    {
        let mut out: Vec<Quote> = Vec::new();
        let mut i: usize = 0;
        while i < self.quotes.len()
            invariant
                i <= self.quotes.len(),
                out@.len() == i as int,
                forall|j: int| 0 <= j < i ==> out@[j]@ == self.quotes@[j]@,
            decreases self.quotes.len() - i,
        {
            out.push(self.quotes[i].clone());
            i += 1;
        }
        proof {
            assert(out.deep_view() =~~= self.quotes.deep_view());
        }
        (out, self.fetching)
    }
}

} // verus!
