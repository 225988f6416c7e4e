use bigdecimal::BigDecimal;
use merco::discovery::CandleSearch;
use merco::errors::AppError;
use merco::exchange::{FIRST_INSTANT, LAST_INSTANT, 
    candle_from_row, contains_name, exchange_names, is_supported_exchange, CandleRow, CCXT,
};
use merco::models::{same_text, Candle, Timeframe};
use std::str::FromStr;

fn dec(text: &str) -> BigDecimal {
    BigDecimal::from_str(text).unwrap()
}

fn row(timestamp: i64, numbers: [&str; 5]) -> CandleRow {
    CandleRow {
        timestamp,
        open: numbers[0].to_string(),
        high: numbers[1].to_string(),
        low: numbers[2].to_string(),
        close: numbers[3].to_string(),
        volume: numbers[4].to_string(),
    }
}

fn candle_at(timestamp: i64) -> Candle {
    Candle {
        timestamp,
        exchange: "binance".to_string(),
        symbol: "BTC/USDT".to_string(),
        timeframe: Timeframe::M1,
        open: dec("1"),
        high: dec("1"),
        low: dec("1"),
        close: dec("1"),
        volume: dec("1"),
    }
}

#[test]
fn timeframe_texts_read_back() {
    for t in Timeframe::all() {
        assert_eq!(Timeframe::from_str(t.as_str()).unwrap(), t);
        assert_eq!(t.to_string(), t.as_str());
    }
    assert_eq!(Timeframe::all().len(), 8);
}

#[test]
fn timeframe_texts_are_canonical() {
    assert_eq!(Timeframe::M1.as_str(), "1m");
    assert_eq!(Timeframe::M5.as_str(), "5m");
    assert_eq!(Timeframe::M15.as_str(), "15m");
    assert_eq!(Timeframe::M30.as_str(), "30m");
    assert_eq!(Timeframe::H1.as_str(), "1h");
    assert_eq!(Timeframe::H4.as_str(), "4h");
    assert_eq!(Timeframe::D1.as_str(), "1d");
    assert_eq!(Timeframe::W1.as_str(), "1w");
}

#[test]
fn timeframe_durations() {
    assert_eq!(Timeframe::M1.duration_millis(), 60_000);
    assert_eq!(Timeframe::M15.duration_millis(), 900_000);
    assert_eq!(Timeframe::H4.duration_millis(), 14_400_000);
    assert_eq!(Timeframe::W1.duration_millis(), 604_800_000);
}

#[test]
fn unknown_timeframe_is_refused() {
    for text in ["", "1", "2m", "1M", "1m ", "one hour"] {
        match Timeframe::from_str(text) {
            Err(AppError::BadRequest(message)) => {
                assert_eq!(message, format!("Invalid timeframe: {}", text))
            }
            other => panic!("unexpected for {:?}: {:?}", text, other),
        }
    }
}

#[test]
fn texts_compare_by_their_characters() {
    assert!(same_text("abc", "abc"));
    assert!(!same_text("abc", "abd"));
    assert!(!same_text("abc", "ab"));
    assert!(same_text("", ""));
}

#[test]
fn offered_exchanges_are_listed_in_order() {
    let names = exchange_names();
    assert_eq!(names.len(), 42);
    assert_eq!(names[0], "apex");
    assert_eq!(names[3], "binance");
    assert_eq!(names[41], "zonda");
}

#[test]
fn supported_exchange_is_recognised() {
    assert!(is_supported_exchange("binance"));
    assert!(is_supported_exchange("zonda"));
    assert!(!is_supported_exchange("Binance"));
    assert!(!is_supported_exchange("kraken"));
    assert!(!is_supported_exchange(""));
}

#[test]
fn exchanges_keeps_what_the_provider_lists() {
    let listed = vec![
        "zonda".to_string(),
        "kraken".to_string(),
        "binance".to_string(),
        "apex".to_string(),
    ];
    assert_eq!(CCXT::exchanges(&listed), vec!["apex", "binance", "zonda"]);
    assert!(CCXT::exchanges(&Vec::new()).is_empty());
    assert!(contains_name(&listed, "kraken"));
    assert!(!contains_name(&listed, "krake"));
}

#[test]
fn with_exchange_refuses_unknown_names() {
    match CCXT::with_exchange("kraken") {
        Err(AppError::BadRequest(message)) => assert_eq!(message, "Invalid exchange: kraken"),
        other => panic!("unexpected: {:?}", other),
    }
    assert_eq!(CCXT::with_exchange("bybit").unwrap().exchange_name, "bybit");
}

#[test]
fn timeframes_are_read_in_order() {
    let exchange = CCXT::with_exchange("binance").unwrap();
    let keys = vec!["1h".to_string(), "1m".to_string(), "1d".to_string()];
    assert_eq!(
        exchange.timeframes(&keys).unwrap(),
        vec![Timeframe::H1, Timeframe::M1, Timeframe::D1]
    );
    assert!(exchange.timeframes(&Vec::new()).unwrap().is_empty());
}

#[test]
fn first_unknown_timeframe_refuses_the_list() {
    let exchange = CCXT::with_exchange("binance").unwrap();
    let keys = vec!["1h".to_string(), "7x".to_string(), "9y".to_string()];
    match exchange.timeframes(&keys) {
        Err(AppError::BadRequest(message)) => assert_eq!(message, "Invalid timeframe: 7x"),
        other => panic!("unexpected: {:?}", other),
    }
}

#[test]
fn fees_are_read_from_text() {
    let exchange = CCXT::with_exchange("binance").unwrap();
    let fees = exchange.fees("0.001", "0.002").unwrap();
    assert_eq!(fees.maker, dec("0.001"));
    assert_eq!(fees.taker, dec("0.002"));
}

#[test]
fn fees_name_the_rate_that_is_no_decimal() {
    let exchange = CCXT::with_exchange("binance").unwrap();
    match exchange.fees("None", "also bad") {
        Err(AppError::BadRequest(message)) => assert_eq!(message, "Invalid maker fee: None"),
        other => panic!("unexpected: {:?}", other),
    }
    match exchange.fees("0.1", "None") {
        Err(AppError::BadRequest(message)) => assert_eq!(message, "Invalid taker fee: None"),
        other => panic!("unexpected: {:?}", other),
    }
}

#[test]
fn precision_is_read_from_text() {
    let exchange = CCXT::with_exchange("binance").unwrap();
    let precision = exchange.precision("0.01", "1e-8").unwrap();
    assert_eq!(precision.price_precision, dec("0.01"));
    assert_eq!(precision.amount_precision, dec("0.00000001"));
    match exchange.precision("x", "1") {
        Err(AppError::BadRequest(message)) => assert_eq!(message, "Invalid price precision: x"),
        other => panic!("unexpected: {:?}", other),
    }
    match exchange.precision("1", "y") {
        Err(AppError::BadRequest(message)) => assert_eq!(message, "Invalid amount precision: y"),
        other => panic!("unexpected: {:?}", other),
    }
}

#[test]
fn a_row_becomes_a_candle() {
    let c = candle_from_row(
        "binance",
        "BTC/USDT",
        Timeframe::H1,
        &row(1_700_000_000_000, ["100.5", "101", "99.5", "100.75", "12.5"]),
    )
    .unwrap();
    assert_eq!(c.timestamp, 1_700_000_000_000);
    assert_eq!(c.exchange, "binance");
    assert_eq!(c.symbol, "BTC/USDT");
    assert_eq!(c.timeframe, Timeframe::H1);
    assert_eq!(c.open, dec("100.5"));
    assert_eq!(c.high, dec("101"));
    assert_eq!(c.low, dec("99.5"));
    assert_eq!(c.close, dec("100.75"));
    assert_eq!(c.volume, dec("12.5"));
}

#[test]
fn a_row_is_refused_for_its_first_fault() {
    let cases = [
        (["a", "b", "c", "d", "e"], "Invalid open price: a"),
        (["1", "b", "c", "d", "e"], "Invalid high price: b"),
        (["1", "2", "c", "d", "e"], "Invalid low price: c"),
        (["1", "2", "3", "d", "e"], "Invalid close price: d"),
        (["1", "2", "3", "4", "e"], "Invalid volume: e"),
    ];
    for (numbers, expected) in cases {
        match candle_from_row("binance", "BTC/USDT", Timeframe::M1, &row(0, numbers)) {
            Err(AppError::BadRequest(message)) => assert_eq!(message, expected),
            other => panic!("unexpected: {:?}", other),
        }
    }
}

#[test]
fn a_time_without_an_instant_is_refused() {
    match candle_from_row("binance", "BTC/USDT", Timeframe::M1, &row(i64::MAX, ["a", "1", "1", "1", "1"])) {
        Err(AppError::BadRequest(message)) => {
            assert_eq!(message, "Error while parse timestamp: 9223372036854775807")
        }
        other => panic!("unexpected: {:?}", other),
    }
    match candle_from_row("binance", "BTC/USDT", Timeframe::M1, &row(i64::MIN, ["1", "1", "1", "1", "1"])) {
        Err(AppError::BadRequest(message)) => {
            assert_eq!(message, "Error while parse timestamp: -9223372036854775808")
        }
        other => panic!("unexpected: {:?}", other),
    }
    assert!(candle_from_row("binance", "BTC/USDT", Timeframe::M1, &row(-1, ["1", "1", "1", "1", "1"])).is_ok());
}

#[test]
fn a_page_of_rows_becomes_candles_in_order() {
    let exchange = CCXT::with_exchange("bybit").unwrap();
    let rows = vec![
        row(1000, ["1", "2", "0.5", "1.5", "10"]),
        row(2000, ["1.5", "3", "1", "2.5", "20"]),
    ];
    let candles = exchange.fetch_candles("ETH/USDT", Timeframe::M5, &rows).unwrap();
    assert_eq!(candles.len(), 2);
    assert_eq!(candles[0].timestamp, 1000);
    assert_eq!(candles[1].timestamp, 2000);
    assert_eq!(candles[0].exchange, "bybit");
    assert_eq!(candles[1].symbol, "ETH/USDT");
    assert_eq!(candles[1].close, dec("2.5"));
    assert!(exchange.fetch_candles("ETH/USDT", Timeframe::M5, &Vec::new()).unwrap().is_empty());
}

#[test]
fn a_bad_row_refuses_the_page() {
    let exchange = CCXT::with_exchange("bybit").unwrap();
    let rows = vec![
        row(1000, ["1", "2", "0.5", "1.5", "10"]),
        row(2000, ["1.5", "oops", "1", "2.5", "20"]),
        row(3000, ["bad", "3", "1", "2.5", "20"]),
    ];
    match exchange.fetch_candles("ETH/USDT", Timeframe::M5, &rows) {
        Err(AppError::BadRequest(message)) => assert_eq!(message, "Invalid high price: oops"),
        other => panic!("unexpected: {:?}", other),
    }
}

fn discover(now: i64, cutoff: Option<i64>) -> (Option<Candle>, usize) {
    let mut search = CandleSearch::new(now);
    let mut probes = 0;
    while let Some(since) = search.next_probe() {
        probes += 1;
        let found = match cutoff {
            Some(t) if since >= t => Some(candle_at(since)),
            _ => None,
        };
        search.record(found);
    }
    (search.finish(), probes)
}

#[test]
fn discovery_finds_the_candle_at_the_cutoff() {
    for cutoff in [0, 1, 2, 499, 500, 999, 1000] {
        let (found, _) = discover(1000, Some(cutoff));
        assert_eq!(found.unwrap().timestamp, cutoff);
    }
    let (found, probes) = discover(1_700_000_000_000, Some(1_502_942_400_000));
    assert_eq!(found.unwrap().timestamp, 1_502_942_400_000);
    assert!(probes <= 42);
}

#[test]
fn discovery_of_an_empty_exchange_finds_nothing() {
    assert!(discover(1000, None).0.is_none());
    assert!(discover(1000, Some(1001)).0.is_none());
    assert!(discover(0, None).0.is_none());
}

#[test]
fn discovery_probes_the_midpoint() {
    let mut search = CandleSearch::new(100);
    assert_eq!(search.next_probe(), Some(50));
    search.record(Some(candle_at(50)));
    assert_eq!((search.left, search.right), (0, 49));
    assert_eq!(search.next_probe(), Some(24));
    search.record(None);
    assert_eq!((search.left, search.right), (25, 49));
    assert_eq!(search.best.as_ref().unwrap().timestamp, 50);
}

#[test]
fn discovery_keeps_the_candle_that_was_returned() {
    let mut search = CandleSearch::new(10);
    search.record(Some(candle_at(7)));
    assert_eq!(search.finish().unwrap().timestamp, 7);
}

#[test]
fn a_search_out_of_bounds_is_recognised() {
    let mut search = CandleSearch::new(10);
    assert!(search.is_wf());
    search.left = u64::MAX;
    assert!(!search.is_wf());
    search.left = i64::MAX as u64 + 1;
    assert!(search.is_wf());
    assert!(search.next_probe().is_none());
    assert!(CandleSearch::new(-5).next_probe().is_none());
}

#[test]
fn discovery_reaches_the_latest_time_there_is() {
    let (found, probes) = discover(i64::MAX, Some(i64::MAX));
    assert_eq!(found.unwrap().timestamp, i64::MAX);
    assert!(probes <= 64);
    assert!(discover(i64::MAX, None).0.is_none());
    assert_eq!(discover(i64::MAX, Some(0)).0.unwrap().timestamp, 0);
}

#[test]
fn instants_exist_between_the_first_and_the_last() {
    let ok = |timestamp: i64| {
        candle_from_row("binance", "BTC/USDT", Timeframe::M1, &row(timestamp, ["1", "1", "1", "1", "1"]))
            .is_ok()
    };
    assert_eq!(FIRST_INSTANT, -8_334_601_228_800_000);
    assert_eq!(LAST_INSTANT, 8_210_266_876_799_999);
    assert!(ok(FIRST_INSTANT));
    assert!(!ok(FIRST_INSTANT - 1));
    assert!(ok(LAST_INSTANT));
    assert!(!ok(LAST_INSTANT + 1));
    assert!(ok(0));
}
