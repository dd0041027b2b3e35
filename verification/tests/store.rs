use coinlcd::api::API;
use coinlcd::store::{PriceStore, Quote};

fn quote(symbol: &str, price_text: &str) -> Quote {
    Quote {
        symbol: symbol.to_string(),
        price_text: price_text.to_string(),
    }
}

fn symbols(quotes: &[Quote]) -> Vec<String> {
    quotes.iter().map(|q| q.symbol.clone()).collect()
}

#[test]
fn new_store_is_empty_and_idle() {
    let store = PriceStore::new();
    let (quotes, fetching) = store.snapshot();
    assert!(quotes.is_empty());
    assert!(!fetching);
}

#[test]
fn fetch_flag_round_trip() {
    let mut store = PriceStore::new();
    store.begin_fetch();
    assert!(store.snapshot().1);
    store.end_fetch();
    assert!(!store.snapshot().1);
}

#[test]
fn begin_fetch_keeps_quotes() {
    let mut store = PriceStore::new();
    store.replace_quotes(vec![quote("BTC", "100")]);
    store.begin_fetch();
    assert_eq!(symbols(&store.snapshot().0), vec!["BTC".to_string()]);
}

#[test]
fn replace_swaps_whole_list() {
    let mut store = PriceStore::new();
    store.replace_quotes(vec![quote("BTC", "100"), quote("ETH", "50")]);
    store.replace_quotes(vec![quote("XRP", "1")]);
    let (quotes, _) = store.snapshot();
    assert_eq!(symbols(&quotes), vec!["XRP".to_string()]);
    assert_eq!(quotes[0].price_text, "1");
}

#[test]
fn failed_fetch_keeps_stale_quotes() {
    let mut store = PriceStore::new();
    store.replace_quotes(vec![quote("BTC", "100"), quote("ETH", "50")]);
    let before = store.snapshot();
    store.begin_fetch();
    store.apply_fetch_result(None);
    store.end_fetch();
    let after = store.snapshot();
    assert_eq!(symbols(&before.0), symbols(&after.0));
    assert_eq!(before.0[0].price_text, after.0[0].price_text);
    assert_eq!(before.0[1].price_text, after.0[1].price_text);
}

#[test]
fn successful_fetch_replaces_quotes() {
    let mut store = PriceStore::new();
    store.replace_quotes(vec![quote("BTC", "100")]);
    store.begin_fetch();
    store.apply_fetch_result(Some(vec![quote("ETH", "51"), quote("XRP", "2")]));
    store.end_fetch();
    let (quotes, fetching) = store.snapshot();
    assert!(!fetching);
    assert_eq!(
        symbols(&quotes),
        vec!["ETH".to_string(), "XRP".to_string()]
    );
}

#[test]
fn status_ok_bounds() {
    assert!(API::status_ok(200));
    assert!(API::status_ok(204));
    assert!(API::status_ok(299));
    assert!(!API::status_ok(199));
    assert!(!API::status_ok(300));
    assert!(!API::status_ok(404));
    assert!(!API::status_ok(500));
}
