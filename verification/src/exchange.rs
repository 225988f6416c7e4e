//! What the engine decides about an exchange's data: which exchanges are
//! offered, how a row of raw market data becomes a candle, and how the
//! earliest candle of a market is found.

use vstd::prelude::*;
use vstd::string::StringExecFns;
use chrono::TimeZone;
use crate::decimal::parsed_decimal;
use crate::errors::{AppError, AppResult};
use crate::models::{same_text, Candle, MarketPrecision, Timeframe, TradingFees};
use crate::utils::{invalid_field_message, str_to_bigdecimal};

verus! {

/// The exchanges that the engine offers, in the order in which it lists them.
pub open spec fn supported_exchanges() -> Seq<&'static str> {
    seq![
        "apex", "ascendex", "bequant", "binance", "binanceus", "binanceusdm", "bingx", "bitbank",
        "bitget", "bithumb", "bitmex", "bitopro", "bitstamp", "bittrade", "bitvavo", "btcalpha",
        "btcmarkets", "bybit", "coinex", "coinmetro", "defx", "deribit", "fmfwio", "gemini",
        "hashkey", "hibachi", "hollaex", "htx", "huobi", "hyperliquid", "krakenfutures", "kucoin",
        "lbank", "mercado", "ndax", "oceanex", "okxus", "poloniex", "upbit", "whitebit", "woo",
        "zonda",
    ]
}

/// Whether a name is one of the exchanges offered.
pub open spec fn is_supported(name: Seq<char>) -> bool {
    exists|i: int| 0 <= i < supported_exchanges().len() && #[trigger] supported_exchanges()[i]@ == name
}

/// Whether a list of names holds the given one.
pub open spec fn is_listed(listed: Seq<String>, name: Seq<char>) -> bool {
    exists|i: int| 0 <= i < listed.len() && #[trigger] listed[i]@ == name
}

/// Of the first `n` names, those that `listed` holds, in their order.
pub open spec fn listed_among(names: Seq<&'static str>, listed: Seq<String>, n: nat) -> Seq<
    Seq<char>,
>
    decreases n,
{
    if n == 0 || n > names.len() {
        Seq::empty()
    } else {
        let before = listed_among(names, listed, (n - 1) as nat);
        if is_listed(listed, names[n - 1]@) {
            before.push(names[n - 1]@)
        } else {
            before
        }
    }
}

/// The texts of a list of strings.
pub open spec fn texts(v: Seq<String>) -> Seq<Seq<char>> {
    Seq::new(v.len(), |i: int| v[i]@)
}

/// The exchanges offered, in listing order.
pub fn exchange_names() -> (r: Vec<&'static str>)
    ensures
        r@ == supported_exchanges(),
{
    let r = vec![
        "apex", "ascendex", "bequant", "binance", "binanceus", "binanceusdm", "bingx", "bitbank",
        "bitget", "bithumb", "bitmex", "bitopro", "bitstamp", "bittrade", "bitvavo", "btcalpha",
        "btcmarkets", "bybit", "coinex", "coinmetro", "defx", "deribit", "fmfwio", "gemini",
        "hashkey", "hibachi", "hollaex", "htx", "huobi", "hyperliquid", "krakenfutures", "kucoin",
        "lbank", "mercado", "ndax", "oceanex", "okxus", "poloniex", "upbit", "whitebit", "woo",
        "zonda",
    ];
    assert(r@ =~= supported_exchanges());
    r
}

/// Whether `listed` holds `name`.
pub fn contains_name(listed: &Vec<String>, name: &str) -> (r: bool)
    ensures
        r == is_listed(listed@, name@),
{
    let mut i: usize = 0;
    while i < listed.len()
        invariant
            i <= listed.len(),
            forall|j: int| 0 <= j < i ==> (#[trigger] listed@[j])@ != name@,
        decreases listed.len() - i,
    {
        if same_text(listed[i].as_str(), name) {
            return true;
        }
        i = i + 1;
    }
    false
}

/// Whether the engine offers the named exchange.
pub fn is_supported_exchange(name: &str) -> (r: bool)
    ensures
        r == is_supported(name@),
{
    let names = exchange_names();
    let mut i: usize = 0;
    while i < names.len()
        invariant
            i <= names.len(),
            names@ == supported_exchanges(),
            forall|j: int| 0 <= j < i ==> (#[trigger] supported_exchanges()[j])@ != name@,
        decreases names.len() - i,
    {
        if same_text(names[i], name) {
            return true;
        }
        i = i + 1;
    }
    false
}

/// The intervals that a list of texts names, in order; nothing if one of
/// them names none.
pub open spec fn parsed_timeframes(keys: Seq<String>) -> Option<Seq<Timeframe>> {
    if forall|i: int| 0 <= i < keys.len() ==> Timeframe::parse(#[trigger] keys[i]@) is Some {
        Some(Seq::new(keys.len(), |i: int| Timeframe::parse(keys[i]@).unwrap()))
    } else {
        None
    }
}

/// The first text of a list that names no interval.
pub open spec fn first_bad_timeframe(keys: Seq<String>, at: int) -> bool {
    &&& 0 <= at < keys.len()
    &&& Timeframe::parse(keys[at]@) is None
    &&& forall|j: int| 0 <= j < at ==> Timeframe::parse(#[trigger] keys[j]@) is Some
}

/// The first millisecond for which chrono has an instant: the start of the
/// year 262144 BCE, counted from the epoch.
pub const FIRST_INSTANT: i64 = -8_334_601_228_800_000;

/// The last millisecond for which chrono has an instant: the end of the
/// year 262142 CE, counted from the epoch.
pub const LAST_INSTANT: i64 = 8_210_266_876_799_999;

/// Whether chrono has a UTC instant for a count of milliseconds since the
/// epoch: the count lies between the first and the last date of the crate.
pub open spec fn utc_instant_exists(millis: int) -> bool {
    FIRST_INSTANT <= millis <= LAST_INSTANT
}

/// Calls `chrono::Utc.timestamp_millis_opt`, which gives a single instant
/// where the day of the count lies between the crate's first and last date,
/// and none elsewhere.
#[verifier::external_body]
pub(crate) fn is_utc_instant(millis: i64) -> (r: bool)
    ensures
        r == utc_instant_exists(millis as int),
{
    chrono::Utc.timestamp_millis_opt(millis).single().is_some()
}

/// The decimal digit for a number below ten.
pub open spec fn digit_char(d: nat) -> char {
    if d == 0 {
        '0'
    } else if d == 1 {
        '1'
    } else if d == 2 {
        '2'
    } else if d == 3 {
        '3'
    } else if d == 4 {
        '4'
    } else if d == 5 {
        '5'
    } else if d == 6 {
        '6'
    } else if d == 7 {
        '7'
    } else if d == 8 {
        '8'
    } else {
        '9'
    }
}

/// A natural number in decimal digits, without leading zeros.
pub open spec fn digits_text(n: nat) -> Seq<char>
    decreases n,
{
    if n < 10 {
        seq![digit_char(n)]
    } else {
        digits_text(n / 10).push(digit_char(n % 10))
    }
}

/// An integer in decimal digits, with a minus sign where it is negative.
pub open spec fn integer_text(v: int) -> Seq<char> {
    if v < 0 {
        seq!['-'] + digits_text((-v) as nat)
    } else {
        digits_text(v as nat)
    }
}

/// The digit for a number below ten, as a text of one character.
pub fn digit_text(d: u64) -> (r: &'static str)
    requires
        d < 10,
    ensures
        r@ == seq![digit_char(d as nat)],
{
    proof {
        reveal_strlit("0");
        reveal_strlit("1");
        reveal_strlit("2");
        reveal_strlit("3");
        reveal_strlit("4");
        reveal_strlit("5");
        reveal_strlit("6");
        reveal_strlit("7");
        reveal_strlit("8");
        reveal_strlit("9");
    }
    let r = if d == 0 {
        "0"
    } else if d == 1 {
        "1"
    } else if d == 2 {
        "2"
    } else if d == 3 {
        "3"
    } else if d == 4 {
        "4"
    } else if d == 5 {
        "5"
    } else if d == 6 {
        "6"
    } else if d == 7 {
        "7"
    } else if d == 8 {
        "8"
    } else {
        "9"
    };
    assert(r@ =~= seq![digit_char(d as nat)]);
    r
}

/// Writes a natural number in decimal digits.
pub fn natural_to_text(n: u64) -> (r: String)
    ensures
        r@ == digits_text(n as nat),
    decreases n,
{
    if n < 10 {
        String::from_str(digit_text(n))
    } else {
        let mut text = natural_to_text(n / 10);
        text.append(digit_text(n % 10));
        assert(text@ =~= digits_text((n / 10) as nat).push(digit_char((n % 10) as nat)));
        text
    }
}

/// Writes an integer in decimal digits, with a minus sign where it is
/// negative.
pub fn integer_to_text(v: i64) -> (r: String)
    ensures
        r@ == integer_text(v as int),
{
    if v < 0 {
        proof {
            reveal_strlit("-");
        }
        let size: u64 = (-(v as i128)) as u64;
        let mut text = String::from_str("-");
        let digits = natural_to_text(size);
        text.append(digits.as_str());
        assert(text@ =~= seq!['-'] + digits_text((-v) as nat));
        text
    } else {
        natural_to_text(v as u64)
    }
}

/// The raw fields of one bar as an exchange hands them out: the opening
/// time in milliseconds, and five numbers as text.
pub struct CandleRow {
    pub timestamp: i64,
    pub open: String,
    pub high: String,
    pub low: String,
    pub close: String,
    pub volume: String,
}

impl CandleRow {
    /// The message with which the row is refused, if it is: the time is
    /// looked at first, then the numbers in the order open, high, low,
    /// close, volume.
    pub open spec fn fault(self) -> Option<Seq<char>> {
        if !utc_instant_exists(self.timestamp as int) {
            Some("Error while parse timestamp: "@ + integer_text(self.timestamp as int))
        } else if parsed_decimal(self.open@) is None {
            Some(invalid_field_message("open price"@, self.open@))
        } else if parsed_decimal(self.high@) is None {
            Some(invalid_field_message("high price"@, self.high@))
        } else if parsed_decimal(self.low@) is None {
            Some(invalid_field_message("low price"@, self.low@))
        } else if parsed_decimal(self.close@) is None {
            Some(invalid_field_message("close price"@, self.close@))
        } else if parsed_decimal(self.volume@) is None {
            Some(invalid_field_message("volume"@, self.volume@))
        } else {
            None
        }
    }
}

/// Whether a candle is what a row says, for the given market.
pub open spec fn candle_matches_row(
    c: Candle,
    exchange: Seq<char>,
    symbol: Seq<char>,
    timeframe: Timeframe,
    row: CandleRow,
) -> bool {
    &&& c.timestamp == row.timestamp
    &&& c.exchange@ == exchange
    &&& c.symbol@ == symbol
    &&& c.timeframe == timeframe
    &&& parsed_decimal(row.open@) == Some(c.open)
    &&& parsed_decimal(row.high@) == Some(c.high)
    &&& parsed_decimal(row.low@) == Some(c.low)
    &&& parsed_decimal(row.close@) == Some(c.close)
    &&& parsed_decimal(row.volume@) == Some(c.volume)
}

/// Turns one raw row into a candle of the given market, or refuses the row
/// with the message of its first fault.
pub fn candle_from_row(exchange: &str, symbol: &str, timeframe: Timeframe, row: &CandleRow) -> (r:
    AppResult<Candle>)
    ensures
        match r {
            Ok(c) => row.fault() is None && candle_matches_row(
                c,
                exchange@,
                symbol@,
                timeframe,
                *row,
            ),
            Err(e) => e is BadRequest && row.fault() == Some(e.message_spec()),
        },
{
    if !is_utc_instant(row.timestamp) {
        let mut message = String::from_str("Error while parse timestamp: ");
        let number = integer_to_text(row.timestamp);
        message.append(number.as_str());
        return Err(AppError::BadRequest(message));
    }
    let open = match str_to_bigdecimal(row.open.as_str(), "open price") {
        Ok(d) => d,
        Err(e) => {
            return Err(e);
        },
    };
    let high = match str_to_bigdecimal(row.high.as_str(), "high price") {
        Ok(d) => d,
        Err(e) => {
            return Err(e);
        },
    };
    let low = match str_to_bigdecimal(row.low.as_str(), "low price") {
        Ok(d) => d,
        Err(e) => {
            return Err(e);
        },
    };
    let close = match str_to_bigdecimal(row.close.as_str(), "close price") {
        Ok(d) => d,
        Err(e) => {
            return Err(e);
        },
    };
    let volume = match str_to_bigdecimal(row.volume.as_str(), "volume") {
        Ok(d) => d,
        Err(e) => {
            return Err(e);
        },
    };
    Ok(
        Candle {
            timestamp: row.timestamp,
            exchange: String::from_str(exchange),
            symbol: String::from_str(symbol),
            timeframe,
            open,
            high,
            low,
            close,
            volume,
        },
    )
}

/// The first row of a page that is refused.
pub open spec fn first_bad_row(rows: Seq<CandleRow>, at: int) -> bool {
    &&& 0 <= at < rows.len()
    &&& rows[at].fault() is Some
    &&& forall|j: int| 0 <= j < at ==> (#[trigger] rows[j]).fault() is None
}

/// One exchange of the data provider, opened by name. The provider is
/// asked by the caller; what it answers is read here.
#[derive(Debug, Clone)]
pub struct CCXT {
    pub exchange_name: String,
}

impl CCXT {
    /// The offered exchanges that the data provider lists, in the engine's order.
    pub fn exchanges(listed: &Vec<String>) -> (r: Vec<String>)
        ensures
            texts(r@) == listed_among(
                supported_exchanges(),
                listed@,
                supported_exchanges().len(),
            ),
    {
        let names = exchange_names();
        let mut out: Vec<String> = Vec::new();
        let mut i: usize = 0;
        while i < names.len()
            invariant
                i <= names.len(),
                names@ == supported_exchanges(),
                texts(out@) == listed_among(supported_exchanges(), listed@, i as nat),
            decreases names.len() - i,
        {
            let name: &'static str = names[i];
            if contains_name(listed, name) {
                let ghost before = out@;
                out.push(String::from_str(name));
                assert(texts(out@) =~= texts(before).push(name@));
            }
            i = i + 1;
        }
        out
    }

    /// Opens the named exchange: a name that is not offered is refused
    /// before anything is asked of the exchange.
    pub fn with_exchange(exchange: &str) -> (r: AppResult<CCXT>)
        ensures
            match r {
                Ok(c) => is_supported(exchange@) && c.exchange_name@ == exchange@,
                Err(e) => !is_supported(exchange@) && e is BadRequest && e.message_spec()
                    == "Invalid exchange: "@ + exchange@,
            },
    {
        if is_supported_exchange(exchange) {
            Ok(CCXT { exchange_name: String::from_str(exchange) })
        } else {
            let mut message = String::from_str("Invalid exchange: ");
            message.append(exchange);
            Err(AppError::BadRequest(message))
        }
    }

    /// Reads the intervals that an exchange offers from their texts. The first
    /// text that names no interval is refused, and with it the whole list.
    pub fn timeframes(&self, keys: &Vec<String>) -> (r: AppResult<Vec<Timeframe>>)
        ensures
            match r {
                Ok(v) => parsed_timeframes(keys@) == Some(v@),
                Err(e) => parsed_timeframes(keys@) is None && e is BadRequest && exists|at: int|
                    first_bad_timeframe(keys@, at) && e.message_spec() == "Invalid timeframe: "@
                        + keys@[at]@,
            },
    {
        let mut out: Vec<Timeframe> = Vec::new();
        let mut i: usize = 0;
        while i < keys.len()
            invariant
                i <= keys.len(),
                out@.len() == i,
                forall|j: int| 0 <= j < i ==> Timeframe::parse(#[trigger] keys@[j]@) == Some(out@[j]),
            decreases keys.len() - i,
        {
            match Timeframe::from_str(keys[i].as_str()) {
                Ok(t) => {
                    out.push(t);
                },
                Err(e) => {
                    assert(first_bad_timeframe(keys@, i as int));
                    return Err(e);
                },
            }
            i = i + 1;
        }
        assert(out@ =~= Seq::new(keys@.len(), |i: int| Timeframe::parse(keys@[i]@).unwrap()));
        Ok(out)
    }

    /// Reads a market's fee rates from their texts. The maker rate is read
    /// first; a text that is no decimal is refused under the name of its rate.
    pub fn fees(&self, maker: &str, taker: &str) -> (r: AppResult<TradingFees>)
        ensures
            match r {
                Ok(f) => parsed_decimal(maker@) == Some(f.maker) && parsed_decimal(taker@) == Some(
                    f.taker,
                ),
                Err(e) => e is BadRequest && if parsed_decimal(maker@) is None {
                    e.message_spec() == invalid_field_message("maker fee"@, maker@)
                } else {
                    parsed_decimal(taker@) is None && e.message_spec() == invalid_field_message(
                        "taker fee"@,
                        taker@,
                    )
                },
            },
    {
        let maker = match str_to_bigdecimal(maker, "maker fee") {
            Ok(d) => d,
            Err(e) => {
                return Err(e);
            },
        };
        let taker = match str_to_bigdecimal(taker, "taker fee") {
            Ok(d) => d,
            Err(e) => {
                return Err(e);
            },
        };
        Ok(TradingFees { maker, taker })
    }

    /// Reads a market's step sizes from their texts. The price step is read
    /// first; a text that is no decimal is refused under the name of its step.
    pub fn precision(&self, price: &str, amount: &str) -> (r: AppResult<MarketPrecision>)
        ensures
            match r {
                Ok(p) => parsed_decimal(price@) == Some(p.price_precision) && parsed_decimal(amount@)
                    == Some(p.amount_precision),
                Err(e) => e is BadRequest && if parsed_decimal(price@) is None {
                    e.message_spec() == invalid_field_message("price precision"@, price@)
                } else {
                    parsed_decimal(amount@) is None && e.message_spec() == invalid_field_message(
                        "amount precision"@,
                        amount@,
                    )
                },
            },
    {
        let price_precision = match str_to_bigdecimal(price, "price precision") {
            Ok(d) => d,
            Err(e) => {
                return Err(e);
            },
        };
        let amount_precision = match str_to_bigdecimal(amount, "amount precision") {
            Ok(d) => d,
            Err(e) => {
                return Err(e);
            },
        };
        Ok(MarketPrecision { price_precision, amount_precision })
    }

    /// Turns a page of raw rows into candles, in the order of the rows. The
    /// first row that is refused ends the work with its message.
    pub fn fetch_candles(&self, symbol: &str, timeframe: Timeframe, rows: &Vec<CandleRow>) -> (r:
        AppResult<Vec<Candle>>)
        ensures
            match r {
                Ok(v) => v@.len() == rows@.len() && forall|i: int|
                    0 <= i < rows@.len() ==> (#[trigger] rows@[i]).fault() is None
                        && candle_matches_row(v@[i], self.exchange_name@, symbol@, timeframe, rows@[i]),
                Err(e) => e is BadRequest && exists|at: int|
                    first_bad_row(rows@, at) && rows@[at].fault() == Some(e.message_spec()),
            },
    {
        let mut out: Vec<Candle> = Vec::new();
        let mut i: usize = 0;
        while i < rows.len()
            invariant
                i <= rows.len(),
                out@.len() == i,
                forall|j: int|
                    0 <= j < i ==> (#[trigger] rows@[j]).fault() is None && candle_matches_row(
                        out@[j],
                        self.exchange_name@,
                        symbol@,
                        timeframe,
                        rows@[j],
                    ),
            decreases rows.len() - i,
        {
            match candle_from_row(self.exchange_name.as_str(), symbol, timeframe, &rows[i]) {
                Ok(c) => {
                    out.push(c);
                },
                Err(e) => {
                    assert(first_bad_row(rows@, i as int));
                    return Err(e);
                },
            }
            i = i + 1;
        }
        Ok(out)
    }
}

} // verus!
