//! Market data: bar intervals, candles, fees and step sizes.

use vstd::prelude::*;
use vstd::string::StringExecFns;
use bigdecimal::BigDecimal;
use crate::errors::{AppError, AppResult};

verus! {

/// The interval that one candle covers.
#[derive(Debug, Clone, Copy, PartialEq, Eq, Structural, Hash)]
pub enum Timeframe {
    M1,
    M5,
    M15,
    M30,
    H1,
    H4,
    D1,
    W1,
}

/// The fee rates of a market.
#[derive(Debug, Clone)]
pub struct TradingFees {
    pub maker: BigDecimal,
    pub taker: BigDecimal,
}

/// The step sizes to which a market snaps prices and amounts.
#[derive(Debug, Clone)]
pub struct MarketPrecision {
    pub price_precision: BigDecimal,
    pub amount_precision: BigDecimal,
}

/// One bar of a market. `timestamp` counts milliseconds since the Unix
/// epoch, in UTC.
#[derive(Debug, Clone)]
pub struct Candle {
    pub timestamp: i64,
    pub exchange: String,
    pub symbol: String,
    pub timeframe: Timeframe,
    pub open: BigDecimal,
    pub high: BigDecimal,
    pub low: BigDecimal,
    pub close: BigDecimal,
    pub volume: BigDecimal,
}

/// Whether two texts hold the same characters.
pub fn same_text(a: &str, b: &str) -> (r: bool)
    ensures
        r == (a@ == b@),
{
    let x = String::from_str(a);
    let y = String::from_str(b);
    x == y
}

impl Timeframe {
    /// The canonical text of the interval.
    pub open spec fn text(self) -> Seq<char> {
        match self {
            Timeframe::M1 => seq!['1', 'm'],
            Timeframe::M5 => seq!['5', 'm'],
            Timeframe::M15 => seq!['1', '5', 'm'],
            Timeframe::M30 => seq!['3', '0', 'm'],
            Timeframe::H1 => seq!['1', 'h'],
            Timeframe::H4 => seq!['4', 'h'],
            Timeframe::D1 => seq!['1', 'd'],
            Timeframe::W1 => seq!['1', 'w'],
        }
    }

    /// The interval that a text names, if it names one.
    pub open spec fn parse(text: Seq<char>) -> Option<Timeframe> {
        if text == Timeframe::M1.text() {
            Some(Timeframe::M1)
        } else if text == Timeframe::M5.text() {
            Some(Timeframe::M5)
        } else if text == Timeframe::M15.text() {
            Some(Timeframe::M15)
        } else if text == Timeframe::M30.text() {
            Some(Timeframe::M30)
        } else if text == Timeframe::H1.text() {
            Some(Timeframe::H1)
        } else if text == Timeframe::H4.text() {
            Some(Timeframe::H4)
        } else if text == Timeframe::D1.text() {
            Some(Timeframe::D1)
        } else if text == Timeframe::W1.text() {
            Some(Timeframe::W1)
        } else {
            None
        }
    }

    /// The length of the interval in milliseconds.
    pub open spec fn millis(self) -> int {
        match self {
            Timeframe::M1 => 60_000,
            Timeframe::M5 => 300_000,
            Timeframe::M15 => 900_000,
            Timeframe::M30 => 1_800_000,
            Timeframe::H1 => 3_600_000,
            Timeframe::H4 => 14_400_000,
            Timeframe::D1 => 86_400_000,
            Timeframe::W1 => 604_800_000,
        }
    }

    /// The canonical text of the interval.
    pub fn as_str(&self) -> (r: &'static str)
        ensures
            r@ == self.text(),
    {
        proof {
            reveal_strlit("1m");
            reveal_strlit("5m");
            reveal_strlit("15m");
            reveal_strlit("30m");
            reveal_strlit("1h");
            reveal_strlit("4h");
            reveal_strlit("1d");
            reveal_strlit("1w");
        }
        let r = match self {
            Timeframe::M1 => "1m",
            Timeframe::M5 => "5m",
            Timeframe::M15 => "15m",
            Timeframe::M30 => "30m",
            Timeframe::H1 => "1h",
            Timeframe::H4 => "4h",
            Timeframe::D1 => "1d",
            Timeframe::W1 => "1w",
        };
        assert(r@ =~= self.text());
        r
    }

    /// The canonical text of the interval, owned.
    pub fn to_string(&self) -> (r: String)
        ensures
            r@ == self.text(),
    {
        String::from_str(self.as_str())
    }

    /// Every interval, from the shortest to the longest.
    pub fn all() -> (r: Vec<Timeframe>)
        ensures
            r@ == seq![
                Timeframe::M1,
                Timeframe::M5,
                Timeframe::M15,
                Timeframe::M30,
                Timeframe::H1,
                Timeframe::H4,
                Timeframe::D1,
                Timeframe::W1,
            ],
    {
        let r = vec![
            Timeframe::M1,
            Timeframe::M5,
            Timeframe::M15,
            Timeframe::M30,
            Timeframe::H1,
            Timeframe::H4,
            Timeframe::D1,
            Timeframe::W1,
        ];
        assert(r@ =~= seq![
            Timeframe::M1,
            Timeframe::M5,
            Timeframe::M15,
            Timeframe::M30,
            Timeframe::H1,
            Timeframe::H4,
            Timeframe::D1,
            Timeframe::W1,
        ]);
        r
    }

    /// Reads an interval from its canonical text; any other text is refused.
    pub fn from_str(text: &str) -> (r: AppResult<Timeframe>)
        ensures
            match r {
                Ok(t) => Timeframe::parse(text@) == Some(t),
                Err(e) => Timeframe::parse(text@) is None && e is BadRequest && e.message_spec()
                    == "Invalid timeframe: "@ + text@,
            },
    {
        let all = Timeframe::all();
        let mut i: usize = 0;
        while i < all.len()
            invariant
                i <= all.len(),
                all@.len() == 8,
                all@ == seq![
                    Timeframe::M1,
                    Timeframe::M5,
                    Timeframe::M15,
                    Timeframe::M30,
                    Timeframe::H1,
                    Timeframe::H4,
                    Timeframe::D1,
                    Timeframe::W1,
                ],
                forall|j: int| 0 <= j < i ==> all@[j].text() != text@,
            decreases all.len() - i,
        {
            let t: Timeframe = all[i];
            if same_text(t.as_str(), text) {
                return Ok(t);
            }
            i = i + 1;
        }
        assert(all@[0] == Timeframe::M1 && all@[1] == Timeframe::M5 && all@[2] == Timeframe::M15
            && all@[3] == Timeframe::M30 && all@[4] == Timeframe::H1 && all@[5] == Timeframe::H4
            && all@[6] == Timeframe::D1 && all@[7] == Timeframe::W1);
        let mut message = String::from_str("Invalid timeframe: ");
        message.append(text);
        Err(AppError::BadRequest(message))
    }

    /// The length of the interval in milliseconds.
    pub fn duration_millis(&self) -> (r: i64)
        ensures
            r == self.millis(),
            r > 0,
    {
        match self {
            Timeframe::M1 => 60_000,
            Timeframe::M5 => 300_000,
            Timeframe::M15 => 900_000,
            Timeframe::M30 => 1_800_000,
            Timeframe::H1 => 3_600_000,
            Timeframe::H4 => 14_400_000,
            Timeframe::D1 => 86_400_000,
            Timeframe::W1 => 604_800_000,
        }
    }
}

/// The text of an interval reads back as that interval.
pub proof fn timeframe_text_round_trip(t: Timeframe)
    ensures
        Timeframe::parse(t.text()) == Some(t),
{
    assert(Timeframe::M1.text().len() == 2 && Timeframe::M1.text()[0] == '1'
        && Timeframe::M1.text()[1] == 'm');
    assert(Timeframe::M5.text().len() == 2 && Timeframe::M5.text()[0] == '5');
    assert(Timeframe::M15.text().len() == 3 && Timeframe::M15.text()[0] == '1');
    assert(Timeframe::M30.text().len() == 3 && Timeframe::M30.text()[0] == '3');
    assert(Timeframe::H1.text().len() == 2 && Timeframe::H1.text()[0] == '1'
        && Timeframe::H1.text()[1] == 'h');
    assert(Timeframe::H4.text().len() == 2 && Timeframe::H4.text()[0] == '4');
    assert(Timeframe::D1.text().len() == 2 && Timeframe::D1.text()[0] == '1'
        && Timeframe::D1.text()[1] == 'd');
    assert(Timeframe::W1.text().len() == 2 && Timeframe::W1.text()[0] == '1'
        && Timeframe::W1.text()[1] == 'w');
}

} // verus!
