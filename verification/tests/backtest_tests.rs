use bigdecimal::BigDecimal;
use merco::backtest::{BacktestParams, 
    book_trade, candle_trades_at, conclude, draw_up, fill_at, fill_order, mark_value, profit,
    run_backtest, sell_wins, settle_orders, sum_up, summarize, BacktestRun, Fill, RunPhase,
    Summary,
};
use merco::errors::{AppError, AppResult};
use merco::models::{Candle, MarketPrecision, Timeframe, TradingFees};
use merco::strategy::{Order, OrderType, Strategy, StrategyContext, Trade, TradeType};
use merco::tasks::TaskEvent;
use std::str::FromStr;

fn dec(text: &str) -> BigDecimal {
    BigDecimal::from_str(text).unwrap()
}

fn candle(timestamp: i64, low: &str, high: &str, close: &str) -> Candle {
    Candle {
        timestamp,
        exchange: "binance".to_string(),
        symbol: "BTC/USDT".to_string(),
        timeframe: Timeframe::H1,
        open: dec(close),
        high: dec(high),
        low: dec(low),
        close: dec(close),
        volume: dec("1000"),
    }
}

fn rising() -> Vec<Candle> {
    let closes = ["100", "101", "102", "103", "104", "105", "106", "107", "108", "110"];
    closes
        .iter()
        .enumerate()
        .map(|(i, close)| candle(i as i64 * 3_600_000, "99", "111", close))
        .collect()
}

fn precision() -> MarketPrecision {
    MarketPrecision { price_precision: dec("0.01"), amount_precision: dec("0.001") }
}

fn fees() -> TradingFees {
    TradingFees { maker: dec("0.0005"), taker: dec("0.001") }
}

fn market(side: TradeType, quantity: &str) -> Order {
    Order { order_type: OrderType::Market, side, quantity: dec(quantity), price: None }
}

fn limit(side: TradeType, quantity: &str, price: &str) -> Order {
    Order { order_type: OrderType::Limit, side, quantity: dec(quantity), price: Some(dec(price)) }
}

struct BuyAndHold {
    bought: bool,
}

impl Strategy for BuyAndHold {
    fn tick(&mut self, context: &mut StrategyContext) -> AppResult<()> {
        if !self.bought {
            context.submit_order(market(TradeType::Buy, "2"));
            self.bought = true;
        }
        Ok(())
    }
}

struct FailsAt {
    at: i64,
    seen: Vec<usize>,
}

impl Strategy for FailsAt {
    fn tick(&mut self, context: &mut StrategyContext) -> AppResult<()> {
        self.seen.push(context.trades.len());
        if context.timestamp() == self.at {
            return Err(AppError::Execution("strategy gave up".to_string()));
        }
        context.submit_order(market(TradeType::Buy, "1"));
        Ok(())
    }
}

struct Idle;

impl Strategy for Idle {
    fn tick(&mut self, _context: &mut StrategyContext) -> AppResult<()> {
        Ok(())
    }
}

#[test]
fn buy_and_hold_over_rising_prices() {
    let candles = rising();
    let mut strategy = BuyAndHold { bought: false };
    let run = run_backtest(&mut strategy, &candles, &precision(), &fees());
    assert_eq!(run.phase, RunPhase::Finalizing);
    assert_eq!(run.processed, 10);
    assert_eq!(run.total, 10);
    assert!(run.failure.is_none());
    assert_eq!(run.trades.len(), 1);
    assert_eq!(run.trades[0].price, dec("100"));
    assert_eq!(run.trades[0].quantity, dec("2"));
    assert_eq!(run.trades[0].fee, dec("0.2"));
    assert_eq!(run.trades[0].timestamp, 0);
    match conclude(run, &candles[9].close) {
        TaskEvent::Completed(result) => {
            assert_eq!(result.trades.len(), 1);
            let fees_paid = dec("0.2");
            let expected = (dec("110") - dec("100")) * dec("2") - fees_paid;
            assert_eq!(result.pnl, expected);
            assert_eq!(result.pnl, dec("19.8"));
            assert_eq!((result.wins, result.closed), (0, 0));
            assert_eq!(result.max_drawdown, dec("0.2"));
        }
        _ => panic!("the run should complete"),
    }
}

#[test]
fn a_failing_tick_ends_the_run_and_keeps_the_trades() {
    let candles = rising();
    let mut strategy = FailsAt { at: 3 * 3_600_000, seen: Vec::new() };
    let run = run_backtest(&mut strategy, &candles, &precision(), &fees());
    assert_eq!(run.phase, RunPhase::Done);
    assert_eq!(run.processed, 3);
    assert_eq!(run.failure.as_deref(), Some("strategy gave up"));
    assert_eq!(run.trades.len(), 3);
    assert_eq!(strategy.seen, vec![0, 1, 2, 3]);
    assert_eq!(run.progress(), (3, 10));
    match conclude(run, &candles[9].close) {
        TaskEvent::Failed(message) => assert_eq!(message, "strategy gave up"),
        _ => panic!("the run should fail"),
    }
}

#[test]
fn a_run_without_candles_completes_with_nothing() {
    let mut strategy = Idle;
    let run = run_backtest(&mut strategy, &Vec::new(), &precision(), &fees());
    assert_eq!(run.phase, RunPhase::Finalizing);
    assert_eq!(run.processed, 0);
    match conclude(run, &dec("0")) {
        TaskEvent::Completed(result) => {
            assert!(result.trades.is_empty());
            assert_eq!(result.pnl, dec("0"));
        }
        _ => panic!("the run should complete"),
    }
}

#[test]
fn a_run_moves_through_its_phases() {
    let mut run = BacktestRun::new(2);
    assert_eq!(run.phase, RunPhase::Initializing);
    run.begin();
    assert_eq!(run.phase, RunPhase::Streaming);
    let c = candle(0, "99", "101", "100");
    run.absorb(Ok(()), vec![market(TradeType::Buy, "1")], &c, &precision(), &fees());
    assert_eq!(run.phase, RunPhase::Streaming);
    assert_eq!(run.progress(), (1, 2));
    run.absorb(Ok(()), Vec::new(), &c, &precision(), &fees());
    assert_eq!(run.phase, RunPhase::Finalizing);
    assert_eq!(run.progress(), (2, 2));
    assert_eq!(run.trades.len(), 1);
    let mut empty = BacktestRun::new(0);
    empty.begin();
    assert_eq!(empty.phase, RunPhase::Finalizing);
}

#[test]
fn a_number_out_of_range_ends_the_run() {
    let mut run = BacktestRun::new(2);
    run.begin();
    let c = candle(0, "99", "101", "100");
    let orders = vec![market(TradeType::Buy, "1"), market(TradeType::Buy, "1e-200000"), market(TradeType::Buy, "1")];
    run.absorb(Ok(()), orders, &c, &precision(), &fees());
    assert_eq!(run.phase, RunPhase::Done);
    assert_eq!(run.processed, 0);
    assert_eq!(run.trades.len(), 1);
    assert_eq!(run.failure.as_deref(), Some("Order could not be filled: number out of range"));
}

#[test]
fn a_market_order_fills_at_the_close() {
    let c = candle(5000, "99", "101", "100.4567");
    match fill_order(market(TradeType::Sell, "1.23456"), &c, &precision(), &fees()) {
        Fill::Filled(trade) => {
            assert_eq!(trade.price, dec("100.45"));
            assert_eq!(trade.quantity, dec("1.234"));
            assert_eq!(trade.fee, dec("100.45") * dec("1.234") * dec("0.001"));
            assert_eq!(trade.fee, dec("0.1239553"));
            assert_eq!(trade.timestamp, 5000);
            assert_eq!(trade.order.side, TradeType::Sell);
            assert_eq!(trade.order.quantity, dec("1.23456"));
        }
        _ => panic!("a market order is filled"),
    }
}

#[test]
fn a_limit_order_fills_where_the_candle_trades() {
    let c = candle(5000, "99", "101", "100");
    match fill_order(limit(TradeType::Buy, "2", "99.5"), &c, &precision(), &fees()) {
        Fill::Filled(trade) => {
            assert_eq!(trade.price, dec("99.5"));
            assert_eq!(trade.quantity, dec("2"));
            assert_eq!(trade.fee, dec("0.0995"));
        }
        _ => panic!("the candle trades at 99.5"),
    }
    assert!(matches!(fill_order(limit(TradeType::Buy, "2", "98.99"), &c, &precision(), &fees()), Fill::Unfilled));
    assert!(matches!(fill_order(limit(TradeType::Sell, "2", "101.01"), &c, &precision(), &fees()), Fill::Unfilled));
    assert!(matches!(fill_order(limit(TradeType::Sell, "2", "101"), &c, &precision(), &fees()), Fill::Filled(_)));
    assert!(matches!(fill_order(limit(TradeType::Sell, "2", "99"), &c, &precision(), &fees()), Fill::Filled(_)));
    let unpriced = Order { order_type: OrderType::Limit, side: TradeType::Buy, quantity: dec("1"), price: None };
    assert!(matches!(fill_order(unpriced, &c, &precision(), &fees()), Fill::Unfilled));
    assert!(matches!(
        fill_order(limit(TradeType::Buy, "2", "1e-200000"), &c, &precision(), &fees()),
        Fill::Unfilled
    ));
    assert!(matches!(
        fill_order(limit(TradeType::Buy, "1e-200000", "100"), &c, &precision(), &fees()),
        Fill::OutOfRange
    ));
}

#[test]
fn a_candle_trades_between_low_and_high() {
    let c = candle(0, "99", "101", "100");
    assert!(candle_trades_at(&c, &dec("99")));
    assert!(candle_trades_at(&c, &dec("101.0")));
    assert!(!candle_trades_at(&c, &dec("98.999")));
    assert!(!candle_trades_at(&c, &dec("101.001")));
    assert!(!candle_trades_at(&c, &dec("1e-200000")));
    assert!(!candle_trades_at(&c, &dec("1e200000")));
}

#[test]
fn fill_at_snaps_price_and_quantity() {
    let trade = fill_at(market(TradeType::Buy, "0.12399"), &dec("250.119"), 7, &precision(), &fees()).unwrap();
    assert_eq!(trade.price, dec("250.11"));
    assert_eq!(trade.quantity, dec("0.123"));
    assert_eq!(trade.fee, dec("0.03076353"));
    assert!(fill_at(market(TradeType::Buy, "1"), &dec("1e200000"), 7, &precision(), &fees()).is_none());
}

#[test]
fn orders_are_settled_in_the_order_of_submission() {
    let c = candle(9, "99", "101", "100");
    let mut log: Vec<Trade> = Vec::new();
    let orders = vec![
        market(TradeType::Buy, "1"),
        limit(TradeType::Buy, "5", "50"),
        market(TradeType::Sell, "3"),
    ];
    assert!(settle_orders(&mut log, orders, &c, &precision(), &fees()));
    assert_eq!(log.len(), 2);
    assert_eq!(log[0].quantity, dec("1"));
    assert_eq!(log[1].quantity, dec("3"));
    assert_eq!(log[1].order.side, TradeType::Sell);
    assert!(settle_orders(&mut log, Vec::new(), &c, &precision(), &fees()));
    assert_eq!(log.len(), 2);
}

fn trade(side: TradeType, price: &str, quantity: &str, fee: &str) -> Trade {
    Trade {
        order: market(side, quantity),
        price: dec(price),
        quantity: dec(quantity),
        fee: dec(fee),
        timestamp: 0,
    }
}

#[test]
fn profit_of_a_round_trip() {
    let trades = vec![
        trade(TradeType::Buy, "100", "2", "0.2"),
        trade(TradeType::Sell, "105", "2", "0.21"),
    ];
    assert_eq!(profit(&trades, &dec("999"), &dec("0")), Some(dec("9.59")));
}

#[test]
fn profit_values_the_open_position() {
    let trades = vec![
        trade(TradeType::Buy, "100", "2", "0.2"),
        trade(TradeType::Sell, "105", "0.5", "0.05"),
    ];
    assert_eq!(profit(&trades, &dec("110"), &dec("0")), Some(dec("17.25")));
    assert_eq!(profit(&Vec::new(), &dec("110"), &dec("0")), Some(dec("0")));
    assert_eq!(profit(&trades, &dec("1e-200000"), &dec("0")), None);
}

#[test]
fn a_trade_is_booked_on_cash_and_position() {
    let bought = book_trade((dec("0"), dec("0")), &trade(TradeType::Buy, "100", "2", "0.2")).unwrap();
    assert_eq!(bought, (dec("-200.2"), dec("2")));
    let sold = book_trade(bought, &trade(TradeType::Sell, "110", "1", "0.11")).unwrap();
    assert_eq!(sold, (dec("-90.31"), dec("1")));
    assert!(book_trade((dec("0"), dec("0")), &trade(TradeType::Buy, "1e-200000", "2", "0")).is_none());
}

#[test]
fn summary_of_a_winning_round_trip() {
    let trades = vec![
        trade(TradeType::Buy, "100", "2", "0.2"),
        trade(TradeType::Sell, "105", "2", "0.21"),
    ];
    let s = summarize(&trades, &dec("0")).unwrap();
    assert_eq!((s.wins, s.closed), (1, 1));
    assert_eq!(s.accounts, (dec("9.59"), dec("0")));
    assert_eq!(s.peak, dec("9.59"));
    assert_eq!(s.drawdown, dec("0.2"));
    assert_eq!(s.last_buy, Some(dec("100")));
}

#[test]
fn summary_of_losses_and_wins() {
    let trades = vec![
        trade(TradeType::Sell, "100", "1", "0"),
        trade(TradeType::Buy, "100", "1", "0"),
        trade(TradeType::Buy, "100", "1", "0"),
        trade(TradeType::Sell, "90", "1", "0"),
        trade(TradeType::Sell, "100", "1", "0"),
        trade(TradeType::Sell, "120", "1", "0"),
    ];
    let result = draw_up(trades, &dec("120"), &dec("0")).unwrap();
    assert_eq!((result.wins, result.closed), (1, 4));
    assert_eq!(result.max_drawdown, dec("30"));
    assert_eq!(result.pnl, dec("-30"));
    assert_eq!(result.trades.len(), 6);
}

#[test]
fn summary_of_an_empty_log() {
    let s = summarize(&Vec::new(), &dec("0")).unwrap();
    assert_eq!((s.wins, s.closed), (0, 0));
    assert_eq!(s.drawdown, dec("0"));
    assert!(s.last_buy.is_none());
    let result = draw_up(Vec::new(), &dec("5"), &dec("0")).unwrap();
    assert_eq!(result.pnl, dec("0"));
    assert_eq!(result.max_drawdown, dec("0"));
}

#[test]
fn summary_refuses_numbers_out_of_range() {
    let trades = vec![trade(TradeType::Buy, "1e-200000", "1", "0")];
    assert!(summarize(&trades, &dec("0")).is_none());
    assert!(draw_up(trades, &dec("1"), &dec("0")).is_none());
    let s = summarize(&Vec::new(), &dec("0")).unwrap();
    assert!(sum_up(s, &trade(TradeType::Sell, "1", "1e-200000", "0")).is_none());
}

#[test]
fn a_sell_wins_above_the_latest_buy() {
    assert!(!sell_wins(&None, &dec("100")));
    assert!(sell_wins(&Some(dec("100")), &dec("100.01")));
    assert!(!sell_wins(&Some(dec("100")), &dec("100")));
    assert!(!sell_wins(&Some(dec("100")), &dec("99")));
    assert!(sell_wins(&Some(dec("1e-200000")), &dec("99")));
}

#[test]
fn peak_and_fall_follow_the_value() {
    assert_eq!(mark_value(dec("10"), dec("2"), dec("12")), Some((dec("12"), dec("2"))));
    assert_eq!(mark_value(dec("10"), dec("2"), dec("10")), Some((dec("10"), dec("2"))));
    assert_eq!(mark_value(dec("10"), dec("2"), dec("9")), Some((dec("10"), dec("2"))));
    assert_eq!(mark_value(dec("10"), dec("2"), dec("7")), Some((dec("10"), dec("3"))));
    assert_eq!(mark_value(dec("10"), dec("2"), dec("1e-200000")), None);
}

#[test]
fn a_summary_takes_one_trade_at_a_time() {
    let start = Summary {
        accounts: (dec("0"), dec("0")),
        last_buy: None,
        wins: 0,
        closed: 0,
        peak: dec("0"),
        drawdown: dec("0"),
    };
    let s = sum_up(start, &trade(TradeType::Buy, "50", "2", "1")).unwrap();
    assert_eq!(s.accounts, (dec("-101"), dec("2")));
    assert_eq!(s.last_buy, Some(dec("50")));
    assert_eq!(s.drawdown, dec("1"));
    assert_eq!(s.peak, dec("0"));
    let s = sum_up(s, &trade(TradeType::Sell, "60", "1", "1")).unwrap();
    assert_eq!(s.accounts, (dec("-42"), dec("1")));
    assert_eq!((s.wins, s.closed), (1, 1));
    assert_eq!(s.peak, dec("18"));
    assert_eq!(s.drawdown, dec("1"));
}

#[test]
fn a_run_out_of_step_is_recognised() {
    let mut run = BacktestRun::new(2);
    assert!(run.is_wf());
    run.begin();
    assert!(run.is_wf());
    run.processed = 2;
    assert!(!run.is_wf());
    run.processed = 3;
    run.phase = RunPhase::Done;
    assert!(!run.is_wf());
    let mut run = BacktestRun::new(2);
    run.failure = Some("early".to_string());
    assert!(!run.is_wf());
}

#[test]
fn a_result_out_of_range_fails_the_task() {
    let mut run = BacktestRun::new(0);
    run.begin();
    run.trades.push(trade(TradeType::Buy, "1", "1", "0"));
    match conclude(run, &dec("1e-200000")) {
        TaskEvent::Failed(message) => assert_eq!(message, "Result is out of range"),
        _ => panic!("the result is out of range"),
    }
}

struct Watcher {
    seen: Vec<(i64, usize)>,
}

impl Strategy for Watcher {
    fn tick(&mut self, context: &mut StrategyContext) -> AppResult<()> {
        self.seen.push((context.timestamp(), context.trades.len()));
        context.submit_order(market(TradeType::Buy, "1"));
        Ok(())
    }
}

#[test]
fn each_tick_sees_the_next_candle_and_the_trades_before_it() {
    let candles = rising();
    let mut strategy = Watcher { seen: Vec::new() };
    let run = run_backtest(&mut strategy, &candles, &precision(), &fees());
    let expected: Vec<(i64, usize)> = (0..10).map(|i| (i as i64 * 3_600_000, i)).collect();
    assert_eq!(strategy.seen, expected);
    assert_eq!(run.progress(), (10, 10));
    assert_eq!(run.trades.len(), 10);
    for (i, trade) in run.trades.iter().enumerate() {
        assert_eq!(trade.timestamp, candles[i].timestamp);
        assert_eq!(trade.price, candles[i].close);
    }
}

#[test]
fn a_run_is_driven_tick_by_tick() {
    let candles = rising();
    let mut strategy = Watcher { seen: Vec::new() };
    let mut run = BacktestRun::new(candles.len());
    run.begin();
    {
        let context = run.context(&candles);
        assert_eq!(context.timestamp(), 0);
        assert!(context.orders.is_empty());
        assert!(context.trades.is_empty());
    }
    for i in 1..=10u64 {
        assert_eq!(run.phase, RunPhase::Streaming);
        run.tick(&mut strategy, &candles, &precision(), &fees());
        assert_eq!(run.progress(), (i, 10));
        assert_eq!(run.trades.len() as u64, i);
    }
    assert_eq!(run.phase, RunPhase::Finalizing);
    assert_eq!(strategy.seen.len(), 10);
}

#[test]
fn a_failing_tick_takes_no_candle() {
    let candles = rising();
    let mut strategy = FailsAt { at: 0, seen: Vec::new() };
    let mut run = BacktestRun::new(candles.len());
    run.begin();
    run.tick(&mut strategy, &candles, &precision(), &fees());
    assert_eq!(run.phase, RunPhase::Done);
    assert_eq!(run.progress(), (0, 10));
    assert!(run.trades.is_empty());
    assert_eq!(run.failure.as_deref(), Some("strategy gave up"));
}

fn params(start: Option<i64>, end: Option<i64>) -> BacktestParams {
    BacktestParams {
        strategy: "buy-and-hold".to_string(),
        symbol: "BTC/USDT".to_string(),
        exchange: "binance".to_string(),
        timeframe: Timeframe::H1,
        start,
        end,
    }
}

#[test]
fn a_range_starts_where_it_says_or_at_the_earliest_candle() {
    let earliest = Some(candle(5000, "1", "1", "1"));
    assert_eq!(params(Some(7000), None).range_start(&earliest), Some(7000));
    assert_eq!(params(Some(7000), None).range_start(&None), Some(7000));
    assert_eq!(params(None, None).range_start(&earliest), Some(5000));
    assert_eq!(params(None, None).range_start(&None), None);
}

#[test]
fn a_range_keeps_the_candles_up_to_its_end() {
    let times = |candles: Vec<Candle>| candles.iter().map(|c| c.timestamp).collect::<Vec<i64>>();
    let end = 3 * 3_600_000;
    assert_eq!(
        times(params(None, Some(end)).candles_in_range(rising())),
        vec![0, 3_600_000, 7_200_000, 10_800_000]
    );
    assert_eq!(times(params(None, None).candles_in_range(rising())).len(), 10);
    assert!(params(None, Some(-1)).candles_in_range(rising()).is_empty());
    assert!(params(None, Some(5)).candles_in_range(Vec::new()).is_empty());
}

#[test]
fn a_run_reports_its_progress_to_its_task() {
    let mut run = BacktestRun::new(4);
    run.begin();
    let c = candle(0, "99", "101", "100");
    run.absorb(Ok(()), Vec::new(), &c, &precision(), &fees());
    assert!(matches!(run.progress_event(), TaskEvent::Progressed { processed: 1, total: 4 }));
    let mut task: merco::backtest::BacktestTask = merco::tasks::Task::new(1, params(None, None), 0);
    task.apply(TaskEvent::Started, 1).unwrap();
    task.apply(run.progress_event(), 2).unwrap();
    assert_eq!(task.progress, 250_000);
}
