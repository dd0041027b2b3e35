//! The render task's decisions: what one tick draws, and how the rotation
//! index advances.
//!
//! A tick looks at a snapshot of the store and draws one of three screens:
//! `updating...` while a fetch is in progress, `error` when no quotes are
//! held, else the current quote's symbol on line 1 and its price as
//! `$<amount>` on line 2. The rotation index then steps forward, wrapping
//! to 0 from the last quote (or from anywhere past the end, if the list
//! shrank between ticks).

use vstd::prelude::*;
use vstd::arithmetic::div_mod::lemma_fundamental_div_mod;
use vstd::arithmetic::div_mod::lemma_fundamental_div_mod_converse;
use crate::lcd::byte_transfers;
use crate::lcd::line_opcode;
use crate::lcd::msg_transfers;
use crate::lcd::Lcd;
use crate::lcd::Transfer;
use crate::lcd::CLEAR_DISPLAY;
use crate::price::format_price;
use crate::price::price_line;
use crate::store::Quote;
use crate::store::QuoteView;

verus! {

/// Seconds between two render ticks.
pub const RENDER_INTERVAL_SECS: u64 = 2;

/// What one tick writes: line 1 always, line 2 only when a quote is shown.
pub struct Screen {
    pub line1: String,
    pub line2: Option<String>,
}

/// Line 1 of a tick: the fetch flag takes precedence over everything,
/// an empty list reads `error`, otherwise the quote's symbol (or nothing,
/// for an index past a shrunken list).
pub open spec fn line1_view(qs: Seq<QuoteView>, fetching: bool, idx: int) -> Seq<char> {
    if fetching {
        "updating..."@
    } else if qs.len() == 0 {
        "error"@
    } else if idx < qs.len() {
        qs[idx].symbol
    } else {
        Seq::empty()
    }
}

/// Line 2 of a tick: only a shown quote has one, its price text rendered
/// as dollars and cents (an index past the end renders like an empty,
/// unparsable price: `$0.00`).
pub open spec fn line2_view(qs: Seq<QuoteView>, fetching: bool, idx: int) -> Option<Seq<char>> {
    if fetching || qs.len() == 0 {
        None
    } else {
        Some(price_line(if idx < qs.len() {
            qs[idx].price_text
        } else {
            Seq::empty()
        }))
    }
}

/// Decide what one tick draws from a snapshot of the store.
pub fn plan_render(quotes: &Vec<Quote>, fetching: bool, idx: usize) -> (s: Screen)
    ensures
        s.line1@ == line1_view(quotes.deep_view(), fetching, idx as int),
        s.line2 matches Some(l2) ==> line2_view(quotes.deep_view(), fetching, idx as int) == Some(
            l2@,
        ),
        s.line2 is None <==> line2_view(quotes.deep_view(), fetching, idx as int) is None,
{
    if fetching {
        Screen { line1: "updating...".to_owned(), line2: None }
    } else if quotes.len() == 0 {
        Screen { line1: "error".to_owned(), line2: None }
    } else if idx < quotes.len() {
        let q = &quotes[idx];
        Screen { line1: q.symbol.clone(), line2: Some(format_price(q.price_text.as_str())) }
    } else {
        let r = Screen { line1: String::new(), line2: Some(format_price("")) };
        proof {
            reveal_strlit("");
            assert(""@ =~= Seq::<char>::empty());
        }
        r
    }
}

/// One step of the rotation: past the last element the index wraps to 0,
/// otherwise it moves forward by one.
pub open spec fn spec_advance(idx: int, len: int) -> int {
    if idx + 1 >= len {
        0
    } else {
        idx + 1
    }
}

/// The rotation index after a tick that showed a quote at `idx`; a tick
/// that drew `updating...` or `error` leaves the index alone.
pub open spec fn next_index(qs: Seq<QuoteView>, fetching: bool, idx: int) -> int {
    if fetching || qs.len() == 0 {
        idx
    } else {
        spec_advance(idx, qs.len() as int)
    }
}

/// Advance the rotation index through a list of `len` quotes.
pub fn advance_index(idx: usize, len: usize) -> (r: usize)
    requires
        len > 0,
    ensures
        r as int == spec_advance(idx as int, len as int),
        r < len,
{
    if idx >= len - 1 {
        0
    } else {
        idx + 1
    }
}

/// Every transfer one tick sends to the display: clear, address line 1,
/// line 1's text; then, when a quote is shown, address line 2 and the
/// price text.
pub open spec fn tick_transfers(qs: Seq<QuoteView>, fetching: bool, idx: int) -> Seq<Transfer> {
    byte_transfers(CLEAR_DISPLAY, false) + byte_transfers(line_opcode(1), false) + msg_transfers(
        line1_view(qs, fetching, idx),
    ) + (match line2_view(qs, fetching, idx) {
        Some(l2) => byte_transfers(line_opcode(2), false) + msg_transfers(l2),
        None => Seq::<Transfer>::empty(),
    })
}

/// One render tick: draw the screen the snapshot calls for and return the
/// rotation index for the next tick.
pub fn render_tick(lcd: &mut Lcd, quotes: &Vec<Quote>, fetching: bool, idx: usize) -> (next: usize)
    requires
        old(lcd).ready(),
    ensures
        final(lcd).ready(),
        final(lcd).transfers() == old(lcd).transfers() + tick_transfers(
            quotes.deep_view(),
            fetching,
            idx as int,
        ),
        next as int == next_index(quotes.deep_view(), fetching, idx as int),
{
    let screen = plan_render(quotes, fetching, idx);
    lcd.clear_display();
    lcd.move_to_line(1);
    lcd.display_message(screen.line1.as_str());
    match &screen.line2 {
        Some(l2) => {
            lcd.move_to_line(2);
            lcd.display_message(l2.as_str());
        },
        None => (),
    }
    proof {
        assert(final(lcd).transfers() =~= old(lcd).transfers() + tick_transfers(
            quotes.deep_view(),
            fetching,
            idx as int,
        ));
    }
    if fetching {
        idx
    } else if quotes.len() == 0 {
        idx
    } else {
        advance_index(idx, quotes.len())
    }
}

/// The rotation index after `k` ticks that each showed a quote, over a
/// list whose length stays `n`, starting from 0.
pub open spec fn rotation_index(k: nat, n: nat) -> int
    decreases k,
{
    if k == 0 {
        0
    } else {
        spec_advance(rotation_index((k - 1) as nat, n), n as int)
    }
}

/// Law: the rotation is a forward-only round robin. Over a non-empty list
/// of fixed length `n`, the index after `k` ticks is `k % n`: it runs
/// 0, 1, ..., n-1 and wraps back to 0, never leaving `[0, n)`.
pub proof fn lemma_rotation_cycle(k: nat, n: nat)
    requires
        n >= 1,
    ensures
        rotation_index(k, n) == k as int % n as int,
        0 <= rotation_index(k, n) < n,
    decreases k,
{
    if k == 0 {
        assert(0int % n as int == 0) by {
            lemma_fundamental_div_mod_converse(0, n as int, 0, 0);
        }
    } else {
        lemma_rotation_cycle((k - 1) as nat, n);
        let r = (k - 1) as int % n as int;
        lemma_fundamental_div_mod((k - 1) as int, n as int);
        let q = (k - 1) as int / n as int;
        assert(k as int == q * n as int + (r + 1)) by (nonlinear_arith)
            requires
                (k - 1) as int == n as int * q + r,
        ;
        if r + 1 < n {
            lemma_fundamental_div_mod_converse(k as int, n as int, q, r + 1);
        } else {
            assert(k as int == (q + 1) * n as int + 0) by (nonlinear_arith)
                requires
                    k as int == q * n as int + (r + 1),
                    r + 1 == n as int,
            ;
            lemma_fundamental_div_mod_converse(k as int, n as int, q + 1, 0);
        }
    }
}

/// Law: one showing tick steps the rotation. If the index before a tick is
/// the rotation's `k`-th value, and the tick shows a quote (no fetch in
/// progress, list non-empty, length still `n`), the index after it is the
/// rotation's `k+1`-th value.
pub proof fn lemma_tick_rotates(qs: Seq<QuoteView>, k: nat, n: nat)
    requires
        n >= 1,
        qs.len() == n,
    ensures
        next_index(qs, false, rotation_index(k, n)) == rotation_index((k + 1) as nat, n),
{
}

/// Law: fetching takes precedence. While the fetch flag is up, a tick
/// draws exactly `updating...` on line 1 and no line 2, whatever the
/// quote list holds.
pub proof fn lemma_fetching_precedence(qs: Seq<QuoteView>, idx: int)
    ensures
        line1_view(qs, true, idx) == "updating..."@,
        line2_view(qs, true, idx) is None,
{
}

/// Law: an empty quote list with no fetch in progress draws exactly
/// `error` on line 1 and no line 2.
pub proof fn lemma_empty_list_error(idx: int)
    ensures
        line1_view(Seq::<QuoteView>::empty(), false, idx) == "error"@,
        line2_view(Seq::<QuoteView>::empty(), false, idx) is None,
{
}

/// Law: a tick's output is a function of the store's contents alone, and
/// `PriceStore::replace_quotes` pins those contents to the replacing list
/// alone; so replacing the quotes twice with one list renders exactly as
/// replacing them once.
pub proof fn lemma_replace_idempotent(
    once: crate::store::PriceStore,
    twice: crate::store::PriceStore,
    l: Seq<QuoteView>,
    idx: int,
)
    requires
        once.quotes_view() == l,
        twice.quotes_view() == l,
        once.is_fetching() == twice.is_fetching(),
    ensures
        tick_transfers(once.quotes_view(), once.is_fetching(), idx) == tick_transfers(
            twice.quotes_view(),
            twice.is_fetching(),
            idx,
        ),
        next_index(once.quotes_view(), once.is_fetching(), idx) == next_index(
            twice.quotes_view(),
            twice.is_fetching(),
            idx,
        ),
{
}

} // verus!
