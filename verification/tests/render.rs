use coinlcd::lcd::{BusOp, Lcd, Signal};
use coinlcd::render::{advance_index, plan_render, render_tick};
use coinlcd::store::{PriceStore, Quote};

fn quote(symbol: &str, price_text: &str) -> Quote {
    Quote {
        symbol: symbol.to_string(),
        price_text: price_text.to_string(),
    }
}

/// Replay a drained operation buffer and give back the text written to
/// each display line: pairs of data transfers decoded as bytes, split on
/// the DDRAM addressing instructions 0x80 (line 1) and 0xC0 (line 2).
fn replay_lines(ops: &[BusOp]) -> (String, String) {
    let mut rs = false;
    let mut enable = false;
    let mut db = [false; 4];
    let mut transfers: Vec<(u8, bool)> = Vec::new();
    for op in ops {
        match op {
            BusOp::Drive { line, high } => match line {
                Signal::Rs => rs = *high,
                Signal::Enable => {
                    if *high && !enable {
                        let nibble = (db[0] as u8)
                            | ((db[1] as u8) << 1)
                            | ((db[2] as u8) << 2)
                            | ((db[3] as u8) << 3);
                        transfers.push((nibble, rs));
                    }
                    enable = *high;
                }
                Signal::Db4 => db[0] = *high,
                Signal::Db5 => db[1] = *high,
                Signal::Db6 => db[2] = *high,
                Signal::Db7 => db[3] = *high,
            },
            BusOp::Wait { .. } => {}
        }
    }
    let mut line1 = String::new();
    let mut line2 = String::new();
    let mut current = 1;
    let mut i = 0;
    while i + 1 < transfers.len() {
        let byte = (transfers[i].0 << 4) | transfers[i + 1].0;
        if transfers[i].1 && transfers[i + 1].1 {
            if current == 1 {
                line1.push(byte as char);
            } else {
                line2.push(byte as char);
            }
        } else if byte == 0x80 {
            current = 1;
        } else if byte == 0xC0 {
            current = 2;
        }
        i += 2;
    }
    (line1, line2)
}

#[test]
fn fetching_takes_precedence() {
    let quotes = vec![quote("BTC", "100"), quote("ETH", "50")];
    let screen = plan_render(&quotes, true, 0);
    assert_eq!(screen.line1.as_str(), "updating...");
    assert!(screen.line2.is_none());
}

#[test]
fn empty_list_renders_error() {
    let quotes: Vec<Quote> = Vec::new();
    let screen = plan_render(&quotes, false, 0);
    assert_eq!(screen.line1.as_str(), "error");
    assert!(screen.line2.is_none());
}

#[test]
fn quote_renders_symbol_and_price() {
    let quotes = vec![quote("BTC", "123.456"), quote("ETH", "50")];
    let screen = plan_render(&quotes, false, 0);
    assert_eq!(screen.line1.as_str(), "BTC");
    assert_eq!(screen.line2.unwrap().as_str(), "$123.46");
}

#[test]
fn unparsable_price_renders_zero() {
    let quotes = vec![quote("DOGE", "abc")];
    let screen = plan_render(&quotes, false, 0);
    assert_eq!(screen.line1.as_str(), "DOGE");
    assert_eq!(screen.line2.unwrap().as_str(), "$0.00");
}

#[test]
fn stale_index_past_end_renders_blank_symbol() {
    let quotes = vec![quote("BTC", "100")];
    let screen = plan_render(&quotes, false, 5);
    assert_eq!(screen.line1.as_str(), "");
    assert_eq!(screen.line2.unwrap().as_str(), "$0.00");
}

#[test]
fn rotation_cycles_through_all_quotes() {
    // over three quotes the index runs 0, 1, 2, 0, 1, 2, ...
    let mut idx = 0;
    let mut seen = Vec::new();
    for _ in 0..7 {
        seen.push(idx);
        idx = advance_index(idx, 3);
    }
    assert_eq!(seen, vec![0, 1, 2, 0, 1, 2, 0]);
}

#[test]
fn rotation_clamps_shrunken_list() {
    // an index held from a longer list wraps straight back to 0
    assert_eq!(advance_index(5, 2), 0);
    assert_eq!(advance_index(1, 2), 0);
    assert_eq!(advance_index(0, 2), 1);
}

#[test]
fn tick_draws_updating() {
    let mut lcd = Lcd::new();
    let quotes = vec![quote("BTC", "100")];
    let next = render_tick(&mut lcd, &quotes, true, 0);
    let (line1, line2) = replay_lines(&lcd.take_ops());
    assert_eq!(line1, "updating...");
    assert_eq!(line2, "");
    assert_eq!(next, 0);
}

#[test]
fn tick_draws_error_on_empty() {
    let mut lcd = Lcd::new();
    let quotes: Vec<Quote> = Vec::new();
    let next = render_tick(&mut lcd, &quotes, false, 0);
    let (line1, line2) = replay_lines(&lcd.take_ops());
    assert_eq!(line1, "error");
    assert_eq!(line2, "");
    assert_eq!(next, 0);
}

#[test]
fn tick_draws_quote_and_advances() {
    let mut lcd = Lcd::new();
    let quotes = vec![quote("BTC", "123.456"), quote("ETH", "2.5")];
    let next = render_tick(&mut lcd, &quotes, false, 0);
    let (line1, line2) = replay_lines(&lcd.take_ops());
    assert_eq!(line1, "BTC");
    assert_eq!(line2, "$123.46");
    assert_eq!(next, 1);
    let next = render_tick(&mut lcd, &quotes, false, next);
    let (line1, line2) = replay_lines(&lcd.take_ops());
    assert_eq!(line1, "ETH");
    assert_eq!(line2, "$2.50");
    assert_eq!(next, 0);
}

#[test]
fn replacing_twice_renders_like_once() {
    let list = || vec![quote("BTC", "100"), quote("ETH", "50")];

    let mut once = PriceStore::new();
    once.replace_quotes(list());

    let mut twice = PriceStore::new();
    twice.replace_quotes(list());
    twice.replace_quotes(list());

    let (q1, f1) = once.snapshot();
    let (q2, f2) = twice.snapshot();
    assert_eq!(f1, f2);
    for idx in 0..3 {
        let mut lcd1 = Lcd::new();
        let mut lcd2 = Lcd::new();
        let n1 = render_tick(&mut lcd1, &q1, f1, idx);
        let n2 = render_tick(&mut lcd2, &q2, f2, idx);
        assert_eq!(lcd1.take_ops(), lcd2.take_ops());
        assert_eq!(n1, n2);
    }
}
