use feedtui::feeds::{keep_successes, to_decimal};
use feedtui::layout::inner_height;
use feedtui::{CellRect, FeedData, FetchLoop, HnFetcher, LoopAction, LoopPhase, StockQuote, StocksFetcher};

#[test]
fn decimal_digits() {
    assert_eq!(to_decimal(0), "0");
    assert_eq!(to_decimal(7), "7");
    assert_eq!(to_decimal(10), "10");
    assert_eq!(to_decimal(40213), "40213");
    assert_eq!(to_decimal(u64::MAX), "18446744073709551615");
}

#[test]
fn news_urls() {
    let f = HnFetcher::new("best".to_string(), 5);
    assert_eq!(f.story_ids_url(), "https://hacker-news.firebaseio.com/v0/beststories.json");
    assert_eq!(f.story_url(8863), "https://hacker-news.firebaseio.com/v0/item/8863.json");
}

#[test]
fn news_takes_first_ids() {
    let f = HnFetcher::new("top".to_string(), 3);
    assert_eq!(f.select_ids(vec![9, 8, 7, 6, 5]), vec![9, 8, 7]);
    assert_eq!(f.select_ids(vec![4, 2]), vec![4, 2]);
    let none = HnFetcher::new("top".to_string(), 0);
    assert!(none.select_ids(vec![1, 2]).is_empty());
}

#[test]
fn story_defaults() {
    let s = HnFetcher::story_from_item(42, None, None, None, None, None);
    assert_eq!(s.id, 42);
    assert_eq!(s.title, "No title");
    assert_eq!(s.by, "unknown");
    assert_eq!(s.score, 0);
    assert_eq!(s.descendants, 0);
    assert_eq!(s.url, None);
    let t = HnFetcher::story_from_item(
        1,
        Some("Hello".to_string()),
        Some("https://example.com".to_string()),
        Some(99),
        Some("pg".to_string()),
        Some(12),
    );
    assert_eq!(t.title, "Hello");
    assert_eq!(t.by, "pg");
    assert_eq!((t.score, t.descendants), (99, 12));
    assert_eq!(t.url.as_deref(), Some("https://example.com"));
}

#[test]
fn failed_items_are_dropped_in_order() {
    assert_eq!(keep_successes(vec![Some(1), None, Some(3), None, Some(5)]), vec![1, 3, 5]);
    assert!(keep_successes::<u8>(vec![None, None]).is_empty());
    let d = HnFetcher::collect(vec![None, Some(HnFetcher::story_from_item(2, None, None, None, None, None))]);
    assert!(matches!(&d, FeedData::HackerNews(v) if v.len() == 1 && v[0].id == 2));
    assert_eq!(d.len(), 1);
}

#[test]
fn stock_url() {
    assert_eq!(
        StocksFetcher::symbol_url("AAPL"),
        "https://query1.finance.yahoo.com/v8/finance/chart/AAPL?interval=1d&range=1d"
    );
}

#[test]
fn quote_arithmetic() {
    let up = StocksFetcher::quote_from_meta("AAPL".to_string(), Some("Apple".to_string()), Some(15000), Some(14000));
    assert_eq!((up.price_cents, up.change_cents, up.change_basis_points), (15000, 1000, 714));
    assert_eq!(up.name, "Apple");
    let down = StocksFetcher::quote_from_meta("X".to_string(), None, Some(100), Some(200));
    assert_eq!((down.change_cents, down.change_basis_points), (-100, -5000));
    assert_eq!(down.name, "Unknown");
    let flat = StocksFetcher::quote_from_meta("Y".to_string(), None, Some(500), None);
    assert_eq!((flat.change_cents, flat.change_basis_points), (0, 0));
    let zero = StocksFetcher::quote_from_meta("Z".to_string(), None, None, Some(0));
    assert_eq!((zero.price_cents, zero.change_cents, zero.change_basis_points), (0, 0, 0));
    let from_zero = StocksFetcher::quote_from_meta("W".to_string(), None, Some(300), Some(0));
    assert_eq!((from_zero.change_cents, from_zero.change_basis_points), (300, 0));
}

#[test]
fn quotes_collected() {
    let q: Option<StockQuote> = Some(StocksFetcher::quote_from_meta("A".to_string(), None, Some(1), Some(1)));
    let d = StocksFetcher::collect(vec![None, q, None]);
    assert!(matches!(&d, FeedData::Stocks(v) if v.len() == 1 && v[0].symbol == "A"));
}

#[test]
fn snapshot_lengths() {
    assert_eq!(FeedData::Loading.len(), 0);
    assert_eq!(FeedData::Error("e".to_string()).len(), 0);
    assert!(FeedData::Error("e".to_string()).is_error());
    assert!(!FeedData::Loading.is_error());
}

#[test]
fn failed_fetch_becomes_error_then_sleeps_one_interval() {
    let mut l = FetchLoop::new("panel-3".to_string(), 45);
    assert_eq!(l.phase, LoopPhase::Fetching);
    match l.on_fetched(Err("connection refused".to_string())) {
        LoopAction::Deliver { message, sleep_secs } => {
            assert_eq!(message.widget_id, "panel-3");
            assert!(matches!(&message.data, FeedData::Error(m) if m == "connection refused"));
            assert_eq!(sleep_secs, 45);
        }
        LoopAction::Fetch => panic!("expected a delivery"),
    }
    assert_eq!(l.phase, LoopPhase::Sleeping);
    assert!(matches!(l.on_woke(), LoopAction::Fetch));
    assert_eq!(l.phase, LoopPhase::Fetching);
}

#[test]
fn empty_error_text_gets_a_message() {
    let mut l = FetchLoop::new("panel-0".to_string(), 1);
    match l.on_fetched(Err(String::new())) {
        LoopAction::Deliver { message, .. } => {
            assert!(matches!(&message.data, FeedData::Error(m) if m == "fetch failed"));
        }
        LoopAction::Fetch => panic!("expected a delivery"),
    }
}

#[test]
fn successful_fetch_is_delivered() {
    let mut l = FetchLoop::new("panel-1".to_string(), 60);
    match l.on_fetched(Ok(FeedData::Stocks(Vec::new()))) {
        LoopAction::Deliver { message, sleep_secs } => {
            assert!(matches!(message.data, FeedData::Stocks(_)));
            assert_eq!(sleep_secs, 60);
        }
        LoopAction::Fetch => panic!("expected a delivery"),
    }
}

#[test]
fn inner_height_of_cells() {
    assert_eq!(inner_height(CellRect::new(0, 0, 10, 12)), 10);
    assert_eq!(inner_height(CellRect::new(0, 0, 10, 1)), 0);
    assert_eq!(inner_height(CellRect::new(0, 0, 10, 2)), 0);
}
