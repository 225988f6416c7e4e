//! The replay of candles through a strategy, with simulated fills.
//!
//! A run takes the candles one by one. On each it asks the strategy, fills
//! the orders that the strategy submitted, and appends the trades to its
//! log. An error of the strategy, or a number that is out of the range on
//! which the library computes, ends the run; the trades made until then
//! stay in the log.

use vstd::prelude::*;
use vstd::string::StringExecFns;
use bigdecimal::BigDecimal;
use crate::decimal::{
    decimal_difference, decimal_is_zero, decimal_le, decimal_product, decimal_sum, parsed_decimal,
    Rounding,
};
use crate::errors::AppResult;
use crate::models::{Candle, MarketPrecision, Timeframe, TradingFees};
use crate::strategy::{Order, OrderType, Strategy, StrategyContext, Trade, TradeType};
use crate::tasks::{Task, TaskEvent, TaskStatus};
use crate::utils::{
    checked_difference, checked_product, checked_sum, is_not_above,
    rounded_to_step, rounding_defined, str_to_bigdecimal, try_round_down_to_precision,
    where_in_range,
};

verus! {

/// What a backtest is asked to do. The two ends of the range are opening
/// times in milliseconds; a range without a start begins at the earliest
/// candle of the market.
#[derive(Debug, Clone)]
pub struct BacktestParams {
    pub strategy: String,
    pub symbol: String,
    pub exchange: String,
    pub timeframe: Timeframe,
    pub start: Option<i64>,
    pub end: Option<i64>,
}

/// What a backtest ends with.
#[derive(Debug, Clone)]
pub struct BacktestResult {
    /// Every trade of the run, in the order in which they were made.
    pub trades: Vec<Trade>,
    /// What the trades brought in, the open position valued at the last
    /// close, less what they cost and the fees.
    pub pnl: BigDecimal,
    /// The number of sells above the price of the buy before them.
    pub wins: u64,
    /// The number of sells; `wins` of them is the win rate.
    pub closed: u64,
    /// The deepest fall of the account's value below an earlier peak.
    pub max_drawdown: BigDecimal,
}

/// Whether a candle lies in a range that ends at `end`, if it ends at all.
pub open spec fn in_range_until(candle: Candle, end: Option<i64>) -> bool {
    match end {
        Some(last) => candle.timestamp <= last,
        None => true,
    }
}

/// Of the first `n` candles, those that open no later than `end`, in their
/// order.
pub open spec fn kept_until(candles: Seq<Candle>, end: Option<i64>, n: nat) -> Seq<Candle>
    decreases n,
{
    if n == 0 || n > candles.len() {
        Seq::empty()
    } else if in_range_until(candles[n - 1], end) {
        kept_until(candles, end, (n - 1) as nat).push(candles[n - 1])
    } else {
        kept_until(candles, end, (n - 1) as nat)
    }
}

impl BacktestParams {
    /// The time from which candles are asked for: the start of the range,
    /// or the opening time of the market's earliest candle, if it has one,
    /// where the range names no start.
    pub fn range_start(&self, earliest: &Option<Candle>) -> (r: Option<i64>)
        ensures
            r == match self.start {
                Some(start) => Some(start),
                None => match *earliest {
                    Some(c) => Some(c.timestamp),
                    None => None,
                },
            },
    {
        match self.start {
            Some(start) => Some(start),
            None => match earliest {
                Some(c) => Some(c.timestamp),
                None => None,
            },
        }
    }

    /// The candles of the range among those that were fetched: those that
    /// open no later than the end of the range, in their order.
    pub fn candles_in_range(&self, candles: Vec<Candle>) -> (r: Vec<Candle>)
        ensures
            r@ == kept_until(candles@, self.end, candles@.len()),
    {
        let ghost all = candles@;
        let total: usize = candles.len();
        let mut rest = candles;
        let mut out: Vec<Candle> = Vec::new();
        let mut n: usize = 0;
        while rest.len() > 0
            invariant
                all.len() == total,
                n + rest@.len() == all.len(),
                rest@ =~= all.subrange(n as int, all.len() as int),
                out@ == kept_until(all, self.end, n as nat),
            decreases rest@.len(),
        {
            let c = rest.remove(0);
            assert(c == all[n as int]);
            let keep = match self.end {
                Some(last) => c.timestamp <= last,
                None => true,
            };
            if keep {
                out.push(c);
            }
            n = n + 1;
        }
        out
    }
}

pub type BacktestStatus = TaskStatus;

pub type BacktestTask = Task<BacktestParams, BacktestResult>;

/// What became of an order.
pub enum Fill {
    /// The order was filled.
    Filled(Trade),
    /// The candle did not trade at the order's price, or the order names
    /// no price.
    Unfilled,
    /// A number of the order or of the market is out of range.
    OutOfRange,
}

/// A value snapped toward zero to a multiple of a step, or nothing where
/// the rounding is not defined.
pub open spec fn snapped(value: BigDecimal, step: BigDecimal) -> Option<BigDecimal> {
    if rounding_defined(value, step) {
        Some(rounded_to_step(value, step, Rounding::Down))
    } else {
        None
    }
}

/// The product of two numbers, or nothing where one is out of range.
pub open spec fn product_of(a: BigDecimal, b: BigDecimal) -> Option<BigDecimal> {
    where_in_range(a, b, decimal_product(a, b))
}

/// The sum of two numbers, or nothing where one is out of range.
pub open spec fn sum_of(a: BigDecimal, b: BigDecimal) -> Option<BigDecimal> {
    where_in_range(a, b, decimal_sum(a, b))
}

/// The difference of two numbers, or nothing where one is out of range.
pub open spec fn difference_of(a: BigDecimal, b: BigDecimal) -> Option<BigDecimal> {
    where_in_range(a, b, decimal_difference(a, b))
}

/// The fee rate of an order: a market order takes liquidity, a limit order
/// makes it.
pub open spec fn rate_for(order_type: OrderType, fees: TradingFees) -> BigDecimal {
    match order_type {
        OrderType::Market => fees.taker,
        OrderType::Limit => fees.maker,
    }
}

/// Whether a candle trades at a price: the price lies between its low and
/// its high.
pub open spec fn trades_at(candle: Candle, price: BigDecimal) -> bool {
    decimal_le(candle.low, price) && decimal_le(price, candle.high)
}

/// The trade that fills an order at a price: price and quantity are
/// snapped to the market's steps, and the fee is the rate times the two.
pub open spec fn trade_at(
    order: Order,
    price: BigDecimal,
    timestamp: i64,
    precision: MarketPrecision,
    fees: TradingFees,
) -> Option<Trade> {
    match snapped(price, precision.price_precision) {
        None => None,
        Some(fill_price) => match snapped(order.quantity, precision.amount_precision) {
            None => None,
            Some(quantity) => match product_of(fill_price, quantity) {
                None => None,
                Some(notional) => match product_of(notional, rate_for(order.order_type, fees)) {
                    None => None,
                    Some(fee) => Some(
                        Trade { order, price: fill_price, quantity, fee, timestamp },
                    ),
                },
            },
        },
    }
}

/// What becomes of an order on a candle. A market order is filled at the
/// close. A limit order is filled at its own price if the candle trades
/// there.
pub open spec fn fill_of(
    order: Order,
    candle: Candle,
    precision: MarketPrecision,
    fees: TradingFees,
) -> Fill {
    match order.order_type {
        OrderType::Market => match trade_at(
            order,
            candle.close,
            candle.timestamp,
            precision,
            fees,
        ) {
            Some(t) => Fill::Filled(t),
            None => Fill::OutOfRange,
        },
        OrderType::Limit => match order.price {
            None => Fill::Unfilled,
            Some(p) => if trades_at(candle, p) {
                match trade_at(order, p, candle.timestamp, precision, fees) {
                    Some(t) => Fill::Filled(t),
                    None => Fill::OutOfRange,
                }
            } else {
                Fill::Unfilled
            },
        },
    }
}

/// A market order that is filled is filled on its candle: the trade keeps
/// the order, carries the opening time of the candle, and has the close and
/// the order's quantity, each snapped to its step, as price and quantity.
/// Where no step is configured, price and quantity are the close and the
/// order's quantity themselves, and the fee is their product times the
/// taker rate.
pub proof fn market_order_fills_at_close(
    order: Order,
    candle: Candle,
    precision: MarketPrecision,
    fees: TradingFees,
)
    requires
        order.order_type is Market,
    ensures
        match fill_of(order, candle, precision, fees) {
            Fill::Filled(t) => {
                &&& t.order == order
                &&& t.timestamp == candle.timestamp
                &&& snapped(candle.close, precision.price_precision) == Some(t.price)
                &&& snapped(order.quantity, precision.amount_precision) == Some(t.quantity)
                &&& product_of(decimal_product(t.price, t.quantity), fees.taker) == Some(t.fee)
            },
            Fill::Unfilled => false,
            Fill::OutOfRange => true,
        },
        decimal_is_zero(precision.price_precision) && decimal_is_zero(precision.amount_precision)
            ==> match fill_of(order, candle, precision, fees) {
            Fill::Filled(t) => t.price == candle.close && t.quantity == order.quantity && t.fee
                == decimal_product(decimal_product(candle.close, order.quantity), fees.taker),
            Fill::Unfilled => false,
            Fill::OutOfRange => product_of(candle.close, order.quantity) is None || product_of(
                decimal_product(candle.close, order.quantity),
                fees.taker,
            ) is None,
        },
{
}

/// The profit of a log of one buy: what is left of nothing after paying
/// price times quantity and the fee, plus the quantity bought valued at the
/// last close.
pub proof fn profit_of_one_buy(t: Trade, last_close: BigDecimal, zero: BigDecimal)
    requires
        t.order.side is Buy,
        pnl_of(seq![t], last_close, zero) is Some,
    ensures
        pnl_of(seq![t], last_close, zero) == Some(
            decimal_sum(
                decimal_difference(
                    decimal_difference(zero, decimal_product(t.price, t.quantity)),
                    t.fee,
                ),
                decimal_product(decimal_sum(zero, t.quantity), last_close),
            ),
        ),
{
    let trades = seq![t];
    assert(ledger(trades, 0, zero) == Some((zero, zero)));
    assert(trades[0] == t);
    assert(ledger(trades, 1, zero) == entry((zero, zero), t));
}

/// Checks whether a candle trades at a price.
pub fn candle_trades_at(candle: &Candle, price: &BigDecimal) -> (r: bool)
    ensures
        r == trades_at(*candle, *price),
{
    is_not_above(&candle.low, price) && is_not_above(price, &candle.high)
}

/// Fills an order at a price.
pub fn fill_at(
    order: Order,
    price: &BigDecimal,
    timestamp: i64,
    precision: &MarketPrecision,
    fees: &TradingFees,
) -> (r: Option<Trade>)
    ensures
        r == trade_at(order, *price, timestamp, *precision, *fees),
{
    let fill_price = match try_round_down_to_precision(price, &precision.price_precision) {
        Some(p) => p,
        None => {
            return None;
        },
    };
    let quantity = match try_round_down_to_precision(&order.quantity, &precision.amount_precision) {
        Some(q) => q,
        None => {
            return None;
        },
    };
    let notional = match checked_product(&fill_price, &quantity) {
        Some(n) => n,
        None => {
            return None;
        },
    };
    let fee = match order.order_type {
        OrderType::Market => checked_product(&notional, &fees.taker),
        OrderType::Limit => checked_product(&notional, &fees.maker),
    };
    match fee {
        Some(fee) => Some(Trade { order, price: fill_price, quantity, fee, timestamp }),
        None => None,
    }
}

/// Decides what becomes of an order on a candle.
pub fn fill_order(order: Order, candle: &Candle, precision: &MarketPrecision, fees: &TradingFees)
    -> (r: Fill)
    ensures
        r == fill_of(order, *candle, *precision, *fees),
{
    match order.order_type {
        OrderType::Market => match fill_at(
            order,
            &candle.close,
            candle.timestamp,
            precision,
            fees,
        ) {
            Some(t) => Fill::Filled(t),
            None => Fill::OutOfRange,
        },
        OrderType::Limit => {
            let wanted = match &order.price {
                None => {
                    return Fill::Unfilled;
                },
                Some(p) => p.clone(),
            };
            if candle_trades_at(candle, &wanted) {
                match fill_at(order, &wanted, candle.timestamp, precision, fees) {
                    Some(t) => Fill::Filled(t),
                    None => Fill::OutOfRange,
                }
            } else {
                Fill::Unfilled
            }
        },
    }
}

/// The log after the first `n` orders of a candle were looked at, and
/// whether all of them were in range. The orders are taken in the order of
/// their submission; the first one out of range ends the work.
pub open spec fn settled(
    log: Seq<Trade>,
    orders: Seq<Order>,
    n: nat,
    candle: Candle,
    precision: MarketPrecision,
    fees: TradingFees,
) -> (Seq<Trade>, bool)
    decreases n,
{
    if n == 0 || n > orders.len() {
        (log, true)
    } else {
        let before = settled(log, orders, (n - 1) as nat, candle, precision, fees);
        if !before.1 {
            before
        } else {
            match fill_of(orders[n - 1], candle, precision, fees) {
                Fill::Filled(t) => (before.0.push(t), true),
                Fill::Unfilled => before,
                Fill::OutOfRange => (before.0, false),
            }
        }
    }
}

/// Fills the orders of one candle and appends the trades to the log.
/// Returns whether every order was in range; the first that is not ends
/// the work, and the trades made before it stay in the log.
pub fn settle_orders(
    log: &mut Vec<Trade>,
    orders: Vec<Order>,
    candle: &Candle,
    precision: &MarketPrecision,
    fees: &TradingFees,
) -> (r: bool)
    ensures
        (final(log)@, r) == settled(
            old(log)@,
            orders@,
            orders@.len(),
            *candle,
            *precision,
            *fees,
        ),
{
    let ghost all = orders@;
    let ghost start = log@;
    let total: usize = orders.len();
    let mut rest = orders;
    let mut n: usize = 0;
    while rest.len() > 0
        invariant
            all == orders@,
            start == old(log)@,
            all.len() == total,
            n + rest@.len() == all.len(),
            rest@ =~= all.subrange(n as int, all.len() as int),
            (log@, true) == settled(start, all, n as nat, *candle, *precision, *fees),
        decreases rest@.len(),
    {
        let order = rest.remove(0);
        assert(order == all[n as int]);
        n = n + 1;
        match fill_order(order, candle, precision, fees) {
            Fill::Filled(t) => {
                log.push(t);
            },
            Fill::Unfilled => {},
            Fill::OutOfRange => {
                proof {
                    assert(settled(start, all, n as nat, *candle, *precision, *fees) == (
                        log@,
                        false,
                    ));
                    lemma_settled_stays_failed(
                        start,
                        all,
                        n as nat,
                        all.len(),
                        *candle,
                        *precision,
                        *fees,
                    );
                    assert(settled(start, all, all.len(), *candle, *precision, *fees) == (
                        log@,
                        false,
                    ));
                }
                return false;
            },
        }
    }
    true
}

proof fn lemma_settled_stays_failed(
    log: Seq<Trade>,
    orders: Seq<Order>,
    n: nat,
    m: nat,
    candle: Candle,
    precision: MarketPrecision,
    fees: TradingFees,
)
    requires
        n <= m <= orders.len(),
        !settled(log, orders, n, candle, precision, fees).1,
    ensures
        settled(log, orders, m, candle, precision, fees) == settled(
            log,
            orders,
            n,
            candle,
            precision,
            fees,
        ),
    decreases m,
{
    if n < m {
        lemma_settled_stays_failed(log, orders, n, (m - 1) as nat, candle, precision, fees);
    }
}

/// Filling orders only ever appends to the log.
pub proof fn settling_appends(
    log: Seq<Trade>,
    orders: Seq<Order>,
    n: nat,
    candle: Candle,
    precision: MarketPrecision,
    fees: TradingFees,
)
    ensures
        log.is_prefix_of(settled(log, orders, n, candle, precision, fees).0),
    decreases n,
{
    if !(n == 0 || n > orders.len()) {
        settling_appends(log, orders, (n - 1) as nat, candle, precision, fees);
    }
}

/// Where a run stands.
#[derive(Debug, Clone, Copy, PartialEq, Eq, Structural)]
pub enum RunPhase {
    /// No candle was asked for yet.
    Initializing,
    /// The next candle is awaited.
    Streaming,
    /// Every candle was taken; the result is to be drawn up.
    Finalizing,
    /// The run is over.
    Done,
}

/// One run over a known number of candles.
pub struct BacktestRun {
    pub phase: RunPhase,
    /// The number of candles of the run.
    pub total: usize,
    /// The number of candles taken so far.
    pub processed: usize,
    /// The trades made so far.
    pub trades: Vec<Trade>,
    /// Why the run was ended early, if it was.
    pub failure: Option<String>,
}

/// The message of a run that met a number out of range.
pub open spec fn out_of_range_message() -> Seq<char> {
    "Order could not be filled: number out of range"@
}

/// What one tick does to a run: `after` is `before` once the strategy's
/// verdict on `candle` and the orders it submitted there were taken. An
/// error of the strategy ends the run with the strategy's message and fills
/// nothing. Otherwise the orders are filled on the candle; a number out of
/// range ends the run, else the candle counts as taken.
pub open spec fn took(
    before: BacktestRun,
    after: BacktestRun,
    verdict: AppResult<()>,
    orders: Seq<Order>,
    candle: Candle,
    precision: MarketPrecision,
    fees: TradingFees,
) -> bool {
    &&& after.total == before.total
    &&& match verdict {
        Err(e) => {
            &&& after.phase is Done
            &&& after.processed == before.processed
            &&& after.trades@ == before.trades@
            &&& after.failure is Some
            &&& after.failure.unwrap()@ == e.message_spec()
        },
        Ok(_) => {
            let filled = settled(before.trades@, orders, orders.len(), candle, precision, fees);
            &&& after.trades@ == filled.0
            &&& if filled.1 {
                &&& after.processed == before.processed + 1
                &&& after.failure is None
                &&& after.phase == if before.processed + 1 == before.total {
                    RunPhase::Finalizing
                } else {
                    RunPhase::Streaming
                }
            } else {
                &&& after.processed == before.processed
                &&& after.phase is Done
                &&& after.failure is Some
                &&& after.failure.unwrap()@ == out_of_range_message()
            }
        },
    }
}

/// One tick of a run over `candles`: the run takes some verdict and some
/// orders on the candle at its place, the one after those it has taken.
pub open spec fn stepped(
    before: BacktestRun,
    after: BacktestRun,
    candles: Seq<Candle>,
    precision: MarketPrecision,
    fees: TradingFees,
) -> bool {
    exists|verdict: AppResult<()>, orders: Seq<Order>|
        took(before, after, verdict, orders, candles[before.processed as int], precision, fees)
}

/// A run over `count` candles as it begins: nothing taken, nothing traded,
/// awaiting its first candle, or ready for its result where there is none.
pub open spec fn begun(run: BacktestRun, count: nat) -> bool {
    &&& run.total == count
    &&& run.processed == 0
    &&& run.trades@.len() == 0
    &&& run.failure is None
    &&& run.phase == if count == 0 {
        RunPhase::Finalizing
    } else {
        RunPhase::Streaming
    }
}

/// The states of a run over `candles`, tick after tick: the first is the
/// run as it begins, and each following one is the one before it after one
/// tick on the candle at its place.
pub open spec fn is_run(
    candles: Seq<Candle>,
    states: Seq<BacktestRun>,
    precision: MarketPrecision,
    fees: TradingFees,
) -> bool {
    &&& states.len() > 0
    &&& begun(states[0], candles.len())
    &&& forall|i: int|
        0 <= i < states.len() - 1 ==> (#[trigger] states[i]).phase is Streaming && stepped(
            states[i],
            states[i + 1],
            candles,
            precision,
            fees,
        )
}

impl BacktestRun {
    /// The counters agree with the phase, and only a run that is over
    /// carries a failure.
    pub open spec fn wf(self) -> bool {
        &&& self.processed <= self.total
        &&& (self.phase is Initializing ==> self.processed == 0 && self.trades@.len() == 0)
        &&& (self.phase is Streaming ==> self.processed < self.total)
        &&& (self.phase is Finalizing ==> self.processed == self.total)
        &&& (self.failure is Some ==> self.phase is Done)
    }

    /// Tests the invariant of a run that came from outside.
    pub fn is_wf(&self) -> (r: bool)
        ensures
            r == self.wf(),
    {
        let counted = match self.phase {
            RunPhase::Initializing => self.processed == 0 && self.trades.len() == 0,
            RunPhase::Streaming => self.processed < self.total,
            RunPhase::Finalizing => self.processed == self.total,
            RunPhase::Done => true,
        };
        let over = matches!(self.phase, RunPhase::Done);
        self.processed <= self.total && counted && (self.failure.is_none() || over)
    }

    /// A run over `total` candles, before its first.
    pub fn new(total: usize) -> (r: BacktestRun)
        ensures
            r.wf(),
            r.phase is Initializing,
            r.total == total,
            r.processed == 0,
            r.trades@.len() == 0,
            r.failure is None,
    {
        BacktestRun {
            phase: RunPhase::Initializing,
            total,
            processed: 0,
            trades: Vec::new(),
            failure: None,
        }
    }

    /// Begins the run: it awaits its first candle, or draws up its result
    /// at once where there is no candle.
    pub fn begin(&mut self)
        requires
            old(self).wf(),
            old(self).phase is Initializing,
        ensures
            final(self).wf(),
            final(self).phase == if old(self).total == 0 {
                RunPhase::Finalizing
            } else {
                RunPhase::Streaming
            },
            final(self).total == old(self).total,
            final(self).processed == 0,
            final(self).trades@ == old(self).trades@,
            final(self).failure is None,
    {
        if self.total == 0 {
            self.phase = RunPhase::Finalizing;
        } else {
            self.phase = RunPhase::Streaming;
        }
    }

    /// Takes what the strategy did on one candle: its verdict and the
    /// orders it submitted. An error of the strategy ends the run with the
    /// strategy's message and fills nothing. Otherwise the orders are
    /// filled; a number out of range ends the run, else the candle counts
    /// as taken and the run goes on to the next, or to its result after
    /// the last.
    pub fn absorb(
        &mut self,
        verdict: AppResult<()>,
        orders: Vec<Order>,
        candle: &Candle,
        precision: &MarketPrecision,
        fees: &TradingFees,
    )
        requires
            old(self).wf(),
            old(self).phase is Streaming,
        ensures
            final(self).wf(),
            old(self).trades@.is_prefix_of(final(self).trades@),
            final(self).processed >= old(self).processed,
            took(
                *old(self),
                *final(self),
                verdict,
                orders@,
                *candle,
                *precision,
                *fees,
            ),
    {
        proof {
            settling_appends(self.trades@, orders@, orders@.len(), *candle, *precision, *fees);
        }
        match verdict {
            Err(e) => {
                self.phase = RunPhase::Done;
                self.failure = Some(e.message());
            },
            Ok(_) => {
                let in_range = settle_orders(&mut self.trades, orders, candle, precision, fees);
                if in_range {
                    self.processed = self.processed + 1;
                    if self.processed == self.total {
                        self.phase = RunPhase::Finalizing;
                    } else {
                        self.phase = RunPhase::Streaming;
                    }
                } else {
                    self.phase = RunPhase::Done;
                    self.failure = Some(
                        String::from_str("Order could not be filled: number out of range"),
                    );
                }
            },
        }
    }

    /// What the strategy is shown on the next tick: the candle at the place
    /// of the run, the trades made so far, and no order yet.
    pub fn context<'a>(&'a self, candles: &'a Vec<Candle>) -> (r: StrategyContext<'a>)
        requires
            self.wf(),
            self.phase is Streaming,
            self.total == candles@.len(),
        ensures
            *r.candle == candles@[self.processed as int],
            *r.trades == self.trades,
            r.orders@.len() == 0,
    {
        StrategyContext::new(&candles[self.processed], &self.trades)
    }

    /// One tick: shows the strategy the candle at the place of the run and
    /// takes what it did there. Whatever the strategy does, the run is
    /// afterwards what `took` says for some verdict and some orders on that
    /// candle.
    pub fn tick<S: Strategy>(
        &mut self,
        strategy: &mut S,
        candles: &Vec<Candle>,
        precision: &MarketPrecision,
        fees: &TradingFees,
    )
        requires
            old(self).wf(),
            old(self).phase is Streaming,
            old(self).total == candles@.len(),
        ensures
            final(self).wf(),
            final(self).total == old(self).total,
            old(self).trades@.is_prefix_of(final(self).trades@),
            stepped(*old(self), *final(self), candles@, *precision, *fees),
            final(self).phase is Done <==> final(self).failure is Some,
            final(self).failure is Some ==> final(self).processed == old(self).processed,
            final(self).failure is None ==> final(self).processed == old(self).processed + 1,
    {
        let ghost before = *self;
        let mut context = self.context(candles);
        let verdict = strategy.tick(&mut context);
        let StrategyContext { candle: _, trades: _, orders } = context;
        let ghost taken = (verdict, orders@);
        let candle = &candles[self.processed];
        self.absorb(verdict, orders, candle, precision, fees);
        assert(took(
            before,
            *self,
            taken.0,
            taken.1,
            candles@[before.processed as int],
            *precision,
            *fees,
        ));
    }

    /// The event that tells the owning task how far the run is: the number
    /// of candles taken, of the number there are.
    pub fn progress_event(&self) -> (r: TaskEvent<BacktestResult>)
        ensures
            r == (TaskEvent::<BacktestResult>::Progressed {
                processed: self.processed as u64,
                total: self.total as u64,
            }),
    {
        TaskEvent::Progressed { processed: self.processed as u64, total: self.total as u64 }
    }

    /// The share of the candles taken so far, as the two numbers of a
    /// fraction.
    pub fn progress(&self) -> (r: (u64, u64))
        ensures
            r.0 == self.processed,
            r.1 == self.total,
    {
        (self.processed as u64, self.total as u64)
    }
}

/// Cash and position after the first `n` trades, starting from `zero` on
/// both accounts: a buy pays its price times its quantity and adds the
/// quantity to the position, a sell is paid and takes the quantity off, and
/// every trade pays its fee. Nothing where a number is out of range.
pub open spec fn ledger(trades: Seq<Trade>, n: nat, zero: BigDecimal) -> Option<
    (BigDecimal, BigDecimal),
>
    decreases n,
{
    if n == 0 || n > trades.len() {
        Some((zero, zero))
    } else {
        match ledger(trades, (n - 1) as nat, zero) {
            None => None,
            Some(before) => entry(before, trades[n - 1]),
        }
    }
}

/// Cash and position after one more trade.
pub open spec fn entry(before: (BigDecimal, BigDecimal), t: Trade) -> Option<
    (BigDecimal, BigDecimal),
> {
    match product_of(t.price, t.quantity) {
        None => None,
        Some(notional) => {
            let moved = match t.order.side {
                TradeType::Buy => (
                    difference_of(before.0, notional),
                    sum_of(before.1, t.quantity),
                ),
                TradeType::Sell => (
                    sum_of(before.0, notional),
                    difference_of(before.1, t.quantity),
                ),
            };
            match moved {
                (Some(cash), Some(position)) => match difference_of(cash, t.fee) {
                    Some(paid) => Some((paid, position)),
                    None => None,
                },
                _ => None,
            }
        },
    }
}

/// The profit of a trade log: the cash it leaves plus the open position
/// valued at the last close.
pub open spec fn pnl_of(trades: Seq<Trade>, last_close: BigDecimal, zero: BigDecimal) -> Option<
    BigDecimal,
> {
    match ledger(trades, trades.len(), zero) {
        None => None,
        Some(accounts) => match product_of(accounts.1, last_close) {
            None => None,
            Some(value) => sum_of(accounts.0, value),
        },
    }
}

/// Books one more trade on cash and position.
pub fn book_trade(before: (BigDecimal, BigDecimal), t: &Trade) -> (r: Option<
    (BigDecimal, BigDecimal),
>)
    ensures
        r == entry(before, *t),
{
    let notional = match checked_product(&t.price, &t.quantity) {
        Some(n) => n,
        None => {
            return None;
        },
    };
    let moved = match t.order.side {
        TradeType::Buy => (
            checked_difference(&before.0, &notional),
            checked_sum(&before.1, &t.quantity),
        ),
        TradeType::Sell => (
            checked_sum(&before.0, &notional),
            checked_difference(&before.1, &t.quantity),
        ),
    };
    match moved {
        (Some(cash), Some(position)) => match checked_difference(&cash, &t.fee) {
            Some(paid) => Some((paid, position)),
            None => None,
        },
        _ => None,
    }
}

/// Computes the profit of a trade log, valued at the last close, starting
/// from the given zero. Nothing where a number is out of range.
pub fn profit(trades: &Vec<Trade>, last_close: &BigDecimal, zero: &BigDecimal) -> (r: Option<
    BigDecimal,
>)
    ensures
        r == pnl_of(trades@, *last_close, *zero),
{
    let mut accounts = (zero.clone(), zero.clone());
    let mut i: usize = 0;
    while i < trades.len()
        invariant
            i <= trades.len(),
            ledger(trades@, i as nat, *zero) == Some(accounts),
        decreases trades.len() - i,
    {
        match book_trade(accounts, &trades[i]) {
            Some(next) => {
                accounts = next;
            },
            None => {
                proof {
                    lemma_ledger_stays_failed(trades@, (i + 1) as nat, trades@.len(), *zero);
                }
                return None;
            },
        }
        i = i + 1;
    }
    match checked_product(&accounts.1, last_close) {
        None => None,
        Some(value) => checked_sum(&accounts.0, &value),
    }
}

proof fn lemma_ledger_stays_failed(trades: Seq<Trade>, n: nat, m: nat, zero: BigDecimal)
    requires
        n <= m <= trades.len(),
        ledger(trades, n, zero) is None,
    ensures
        ledger(trades, m, zero) is None,
    decreases m,
{
    if n < m {
        lemma_ledger_stays_failed(trades, n, (m - 1) as nat, zero);
    }
}

/// What is kept while the trades of a log are gone through one by one.
pub struct Summary {
    /// Cash and position so far.
    pub accounts: (BigDecimal, BigDecimal),
    /// The price of the latest buy, if there was one.
    pub last_buy: Option<BigDecimal>,
    /// The number of sells above the price of the buy before them.
    pub wins: u64,
    /// The number of sells.
    pub closed: u64,
    /// The highest value of the account so far.
    pub peak: BigDecimal,
    /// The deepest fall of the value below an earlier peak so far.
    pub drawdown: BigDecimal,
}

/// The summary of an empty log.
pub open spec fn opening(zero: BigDecimal) -> Summary {
    Summary {
        accounts: (zero, zero),
        last_buy: None,
        wins: 0,
        closed: 0,
        peak: zero,
        drawdown: zero,
    }
}

/// Whether a sell at `price` is a win after a latest buy at `last_buy`:
/// its price is above that of the buy.
pub open spec fn is_win(last_buy: Option<BigDecimal>, price: BigDecimal) -> bool {
    match last_buy {
        None => false,
        Some(bought) => !decimal_le(price, bought),
    }
}

/// Peak and deepest fall after the account took the given value: a value
/// at or above the peak is the new peak; one below it falls by the
/// difference, which counts where it is deeper than every fall before.
/// Nothing where the difference is out of range.
pub open spec fn marked(peak: BigDecimal, drawdown: BigDecimal, value: BigDecimal) -> Option<
    (BigDecimal, BigDecimal),
> {
    if decimal_le(peak, value) {
        Some((value, drawdown))
    } else {
        match difference_of(peak, value) {
            None => None,
            Some(fall) => if decimal_le(drawdown, fall) {
                Some((peak, fall))
            } else {
                Some((peak, drawdown))
            },
        }
    }
}

/// The value of the account after a trade: its cash plus its position at
/// the price of the trade.
pub open spec fn value_at(accounts: (BigDecimal, BigDecimal), price: BigDecimal) -> Option<
    BigDecimal,
> {
    match product_of(accounts.1, price) {
        None => None,
        Some(held) => sum_of(accounts.0, held),
    }
}

/// The summary after one more trade.
pub open spec fn summed(before: Summary, t: Trade) -> Option<Summary> {
    match entry(before.accounts, t) {
        None => None,
        Some(accounts) => match value_at(accounts, t.price) {
            None => None,
            Some(value) => match marked(before.peak, before.drawdown, value) {
                None => None,
                Some(marks) => match t.order.side {
                    TradeType::Buy => Some(
                        Summary {
                            accounts,
                            last_buy: Some(t.price),
                            wins: before.wins,
                            closed: before.closed,
                            peak: marks.0,
                            drawdown: marks.1,
                        },
                    ),
                    TradeType::Sell => if before.closed < u64::MAX && before.wins < u64::MAX {
                        Some(
                            Summary {
                                accounts,
                                last_buy: before.last_buy,
                                wins: if is_win(before.last_buy, t.price) {
                                    (before.wins + 1) as u64
                                } else {
                                    before.wins
                                },
                                closed: (before.closed + 1) as u64,
                                peak: marks.0,
                                drawdown: marks.1,
                            },
                        )
                    } else {
                        None
                    },
                },
            },
        },
    }
}

/// The summary of the first `n` trades of a log. Nothing where a number is
/// out of range.
pub open spec fn summary(trades: Seq<Trade>, n: nat, zero: BigDecimal) -> Option<Summary>
    decreases n,
{
    if n == 0 || n > trades.len() {
        Some(opening(zero))
    } else {
        match summary(trades, (n - 1) as nat, zero) {
            None => None,
            Some(before) => summed(before, trades[n - 1]),
        }
    }
}

/// Says whether a sell is a win.
pub fn sell_wins(last_buy: &Option<BigDecimal>, price: &BigDecimal) -> (r: bool)
    ensures
        r == is_win(*last_buy, *price),
{
    match last_buy {
        None => false,
        Some(bought) => !is_not_above(price, bought),
    }
}

/// Moves peak and deepest fall on by one value of the account.
pub fn mark_value(peak: BigDecimal, drawdown: BigDecimal, value: BigDecimal) -> (r: Option<
    (BigDecimal, BigDecimal),
>)
    ensures
        r == marked(peak, drawdown, value),
{
    if is_not_above(&peak, &value) {
        Some((value, drawdown))
    } else {
        match checked_difference(&peak, &value) {
            None => None,
            Some(fall) => if is_not_above(&drawdown, &fall) {
                Some((peak, fall))
            } else {
                Some((peak, drawdown))
            },
        }
    }
}

/// Takes one more trade into a summary.
pub fn sum_up(before: Summary, t: &Trade) -> (r: Option<Summary>)
    ensures
        r == summed(before, *t),
{
    let Summary { accounts, last_buy, wins, closed, peak, drawdown } = before;
    let accounts = match book_trade(accounts, t) {
        Some(a) => a,
        None => {
            return None;
        },
    };
    let value = match checked_product(&accounts.1, &t.price) {
        None => {
            return None;
        },
        Some(held) => match checked_sum(&accounts.0, &held) {
            None => {
                return None;
            },
            Some(v) => v,
        },
    };
    let marks = match mark_value(peak, drawdown, value) {
        Some(m) => m,
        None => {
            return None;
        },
    };
    match t.order.side {
        TradeType::Buy => Some(
            Summary {
                accounts,
                last_buy: Some(t.price.clone()),
                wins,
                closed,
                peak: marks.0,
                drawdown: marks.1,
            },
        ),
        TradeType::Sell => {
            let won = sell_wins(&last_buy, &t.price);
            if closed < u64::MAX && wins < u64::MAX {
                Some(
                    Summary {
                        accounts,
                        last_buy,
                        wins: if won {
                            wins + 1
                        } else {
                            wins
                        },
                        closed: closed + 1,
                        peak: marks.0,
                        drawdown: marks.1,
                    },
                )
            } else {
                None
            }
        },
    }
}

proof fn lemma_summary_stays_failed(trades: Seq<Trade>, n: nat, m: nat, zero: BigDecimal)
    requires
        n <= m <= trades.len(),
        summary(trades, n, zero) is None,
    ensures
        summary(trades, m, zero) is None,
    decreases m,
{
    if n < m {
        lemma_summary_stays_failed(trades, n, (m - 1) as nat, zero);
    }
}

/// Goes through a trade log and sums it up, starting from the given zero.
/// Nothing where a number is out of range.
pub fn summarize(trades: &Vec<Trade>, zero: &BigDecimal) -> (r: Option<Summary>)
    ensures
        r == summary(trades@, trades@.len(), *zero),
{
    let mut state = Summary {
        accounts: (zero.clone(), zero.clone()),
        last_buy: None,
        wins: 0,
        closed: 0,
        peak: zero.clone(),
        drawdown: zero.clone(),
    };
    let mut i: usize = 0;
    while i < trades.len()
        invariant
            i <= trades.len(),
            summary(trades@, i as nat, *zero) == Some(state),
        decreases trades.len() - i,
    {
        match sum_up(state, &trades[i]) {
            Some(next) => {
                state = next;
            },
            None => {
                proof {
                    lemma_summary_stays_failed(trades@, (i + 1) as nat, trades@.len(), *zero);
                }
                return None;
            },
        }
        i = i + 1;
    }
    Some(state)
}

/// The result of a run: its trades and what they sum up to, with the
/// profit valued at the last close. Nothing where a number is out of range.
pub open spec fn result_of(trades: Vec<Trade>, last_close: BigDecimal, zero: BigDecimal) -> Option<
    BacktestResult,
> {
    match pnl_of(trades@, last_close, zero) {
        None => None,
        Some(pnl) => match summary(trades@, trades@.len(), zero) {
            None => None,
            Some(s) => Some(
                BacktestResult {
                    trades,
                    pnl,
                    wins: s.wins,
                    closed: s.closed,
                    max_drawdown: s.drawdown,
                },
            ),
        },
    }
}

/// Draws up the result of a run.
pub fn draw_up(trades: Vec<Trade>, last_close: &BigDecimal, zero: &BigDecimal) -> (r: Option<
    BacktestResult,
>)
    ensures
        r == result_of(trades, *last_close, *zero),
{
    let pnl = match profit(&trades, last_close, zero) {
        Some(p) => p,
        None => {
            return None;
        },
    };
    match summarize(&trades, zero) {
        None => None,
        Some(s) => Some(
            BacktestResult {
                trades,
                pnl,
                wins: s.wins,
                closed: s.closed,
                max_drawdown: s.drawdown,
            },
        ),
    }
}

/// The text from which the zero of the accounts is read.
pub open spec fn zero_text() -> Seq<char> {
    seq!['0']
}

/// The event with which a run that is over ends its task: the failure of
/// the run if it has one; else its result, with the profit valued at
/// `last_close`; or a failure where a number of the result is out of range.
pub open spec fn ending(run: BacktestRun, last_close: BigDecimal, r: TaskEvent<BacktestResult>)
    -> bool {
    match run.failure {
        Some(message) => r == TaskEvent::<BacktestResult>::Failed(message),
        None => match parsed_decimal(zero_text()) {
            None => r is Failed,
            Some(zero) => match result_of(run.trades, last_close, zero) {
                None => r is Failed && r->Failed_0@ == "Result is out of range"@,
                Some(result) => r == TaskEvent::Completed(result),
            },
        },
    }
}

/// Ends a run and says what becomes of its task.
pub fn conclude(run: BacktestRun, last_close: &BigDecimal) -> (r: TaskEvent<BacktestResult>)
    requires
        run.failure is Some || run.phase is Finalizing,
    ensures
        ending(run, *last_close, r),
{
    let BacktestRun { phase: _, total: _, processed: _, trades, failure } = run;
    match failure {
        Some(message) => TaskEvent::Failed(message),
        None => {
            proof {
                reveal_strlit("0");
                assert("0"@ =~= zero_text());
            }
            let zero = match str_to_bigdecimal("0", "zero") {
                Ok(z) => z,
                Err(e) => {
                    return TaskEvent::Failed(e.message());
                },
            };
            match draw_up(trades, last_close, &zero) {
                Some(result) => TaskEvent::Completed(result),
                None => TaskEvent::Failed(String::from_str("Result is out of range")),
            }
        },
    }
}

/// Replays the candles through the strategy, one tick per candle in the
/// order of the candles, and returns the run as the last tick left it.
/// Whatever the strategy does, the run went from its beginning through
/// ticks on the candles at its place, and ended either after every candle,
/// ready for its result, or early with a failure on a candle it did not
/// take. Without candles no tick is made and the run is ready at once.
pub fn run_backtest<S: Strategy>(
    strategy: &mut S,
    candles: &Vec<Candle>,
    precision: &MarketPrecision,
    fees: &TradingFees,
) -> (r: BacktestRun)
    ensures
        r.wf(),
        r.total == candles@.len(),
        exists|states: Seq<BacktestRun>|
            is_run(candles@, states, *precision, *fees) && states.last() == r,
        r.failure is None <==> r.phase is Finalizing,
        r.failure is Some <==> r.phase is Done,
        r.failure is None ==> r.processed == candles@.len(),
        r.failure is Some ==> r.processed < candles@.len(),
        candles@.len() == 0 ==> r.phase is Finalizing && r.failure is None && r.processed == 0
            && r.trades@.len() == 0,
{
    let mut run = BacktestRun::new(candles.len());
    run.begin();
    let ghost mut states: Seq<BacktestRun> = seq![run];
    while matches!(run.phase, RunPhase::Streaming)
        invariant
            run.wf(),
            run.total == candles@.len(),
            is_run(candles@, states, *precision, *fees),
            states.last() == run,
            run.phase is Streaming || run.phase is Finalizing || run.phase is Done,
            run.phase is Done <==> run.failure is Some,
            run.failure is Some ==> run.processed < candles@.len(),
            candles@.len() == 0 ==> begun(run, 0),
        decreases
                candles@.len() - run.processed,
                (if run.phase is Streaming {
                    1int
                } else {
                    0int
                }),
    {
        let ghost before = run;
        let ghost earlier = states;
        run.tick(strategy, candles, precision, fees);
        proof {
            states = earlier.push(run);
            assert forall|i: int| 0 <= i < states.len() - 1 implies (#[trigger] states[i]).phase is Streaming
                && stepped(states[i], states[i + 1], candles@, *precision, *fees) by {
                if i < earlier.len() - 1 {
                    assert(states[i] == earlier[i]);
                    assert(states[i + 1] == earlier[i + 1]);
                } else {
                    assert(states[i] == before);
                    assert(states[i + 1] == run);
                }
            }
            assert(states[0] == earlier[0]);
        }
    }
    run
}

} // verus!
