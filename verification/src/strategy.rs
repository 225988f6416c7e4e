//! Strategies: what one is, what it sees and submits on each candle, and
//! the bookkeeping of the workspaces in which strategies are built.

use vstd::prelude::*;
use vstd::string::StringExecFns;
use bigdecimal::BigDecimal;
use crate::errors::{AppError, AppResult};
use crate::models::{same_text, Candle};
use crate::paths::{has_parent_step, joined, relative_part};
use crate::utils::safe_join;

verus! {

/// How an order is filled.
#[derive(Debug, Clone, Copy, PartialEq, Eq, Structural)]
pub enum OrderType {
    /// At the close of the candle on which it was submitted.
    Market,
    /// At its own price, if the candle trades there.
    Limit,
}

/// The side of an order or a trade.
#[derive(Debug, Clone, Copy, PartialEq, Eq, Structural)]
pub enum TradeType {
    Buy,
    Sell,
}

/// What a strategy asks for.
#[derive(Debug, Clone)]
pub struct Order {
    pub order_type: OrderType,
    pub side: TradeType,
    pub quantity: BigDecimal,
    pub price: Option<BigDecimal>,
}

/// An order as it was filled.
#[derive(Debug, Clone)]
pub struct Trade {
    pub order: Order,
    pub price: BigDecimal,
    pub quantity: BigDecimal,
    pub fee: BigDecimal,
    pub timestamp: i64,
}

/// What a strategy sees on one candle: the candle, the trades made so far,
/// and the orders it has submitted on this candle.
pub struct StrategyContext<'a> {
    pub candle: &'a Candle,
    pub trades: &'a Vec<Trade>,
    pub orders: Vec<Order>,
}

impl<'a> StrategyContext<'a> {
    /// The view of one candle, with no order submitted yet.
    pub fn new(candle: &'a Candle, trades: &'a Vec<Trade>) -> (r: StrategyContext<'a>)
        ensures
            r.candle == candle,
            r.trades == trades,
            r.orders@.len() == 0,
    {
        StrategyContext { candle, trades, orders: Vec::new() }
    }

    /// The opening time of the current candle.
    pub fn timestamp(&self) -> (r: i64)
        ensures
            r == self.candle.timestamp,
    {
        self.candle.timestamp
    }

    /// Submits an order; it is filled when the strategy returns.
    pub fn submit_order(&mut self, order: Order)
        ensures
            final(self).orders@ == old(self).orders@.push(order),
            final(self).candle == old(self).candle,
            final(self).trades == old(self).trades,
    {
        self.orders.push(order);
    }
}

/// Trading logic that is asked once per candle.
pub trait Strategy: Send {
    /// Looks at the candle in `context` and submits orders there. An error
    /// ends the backtest.
    fn tick(&mut self, context: &mut StrategyContext) -> AppResult<()>;
}

/// A strategy that was built: its name and the place of its module.
#[derive(Debug, Clone)]
pub struct StrategyEntry {
    pub name: String,
    pub path: String,
}

/// What a build of a strategy's source ended with.
pub enum BuildOutcome {
    /// The module was built at the given path.
    Built(String),
    /// The compiler refused the source; the text is its diagnostic.
    Refused(String),
}

/// The strategies that were built, by name, below one root directory.
pub struct StrategyManager {
    pub root: String,
    pub entries: Vec<StrategyEntry>,
}

/// The place of the first entry with the given name, if there is one.
pub open spec fn named(entries: Seq<StrategyEntry>, name: Seq<char>) -> bool {
    exists|i: int| 0 <= i < entries.len() && (#[trigger] entries[i]).name@ == name
}

/// `after` is `before` with a module at `path` entered under `name`: in
/// the place of the entry of that name if there was one, else at the end.
pub open spec fn entered(
    before: Seq<StrategyEntry>,
    after: Seq<StrategyEntry>,
    name: Seq<char>,
    path: String,
) -> bool {
    exists|i: int|
        {
            &&& 0 <= i < after.len()
            &&& (#[trigger] after[i]).name@ == name
            &&& after[i].path == path
            &&& forall|j: int| 0 <= j < before.len() && j != i ==> #[trigger] after[j] == before[j]
            &&& if named(before, name) {
                after.len() == before.len() && before[i].name@ == name
            } else {
                i == before.len() && after.len() == i + 1
            }
        }
}

impl StrategyManager {
    /// No name occurs twice.
    pub open spec fn wf(self) -> bool {
        forall|i: int, j: int|
            0 <= i < j < self.entries@.len() ==> (#[trigger] self.entries@[i]).name@ != (
            #[trigger] self.entries@[j]).name@
    }

    /// A manager of the given root directory, with no strategy built.
    pub fn new(root: String) -> (r: StrategyManager)
        ensures
            r.wf(),
            r.root == root,
            r.entries@.len() == 0,
    {
        StrategyManager { root, entries: Vec::new() }
    }

    /// Tests the invariant of a manager that came from outside.
    pub fn is_wf(&self) -> (r: bool)
        ensures
            r == self.wf(),
    {
        let mut i: usize = 0;
        while i < self.entries.len()
            invariant
                i <= self.entries.len(),
                forall|k: int, j: int|
                    0 <= k < j < i ==> (#[trigger] self.entries@[k]).name@ != (
                    #[trigger] self.entries@[j]).name@,
            decreases self.entries.len() - i,
        {
            let mut k: usize = 0;
            while k < i
                invariant
                    k <= i < self.entries.len(),
                    forall|m: int|
                        0 <= m < k ==> (#[trigger] self.entries@[m]).name@ != self.entries@[i as int].name@,
                decreases i - k,
            {
                if same_text(self.entries[k].name.as_str(), self.entries[i].name.as_str()) {
                    return false;
                }
                k = k + 1;
            }
            i = i + 1;
        }
        true
    }

    /// The place of the entry with the given name.
    pub fn position(&self, name: &str) -> (r: Option<usize>)
        ensures
            match r {
                Some(i) => i < self.entries@.len() && self.entries@[i as int].name@ == name@,
                None => !named(self.entries@, name@),
            },
    {
        let mut i: usize = 0;
        while i < self.entries.len()
            invariant
                i <= self.entries.len(),
                forall|j: int| 0 <= j < i ==> (#[trigger] self.entries@[j]).name@ != name@,
            decreases self.entries.len() - i,
        {
            if same_text(self.entries[i].name.as_str(), name) {
                return Some(i);
            }
            i = i + 1;
        }
        None
    }

    /// The path below the root that a user's path names. A path with two
    /// dots side by side is refused, and nothing is done with it.
    pub fn resolve(&self, path: &str) -> (r: AppResult<String>)
        ensures
            match r {
                Ok(p) => !has_parent_step(path@) && p@ == joined(self.root@, relative_part(path@)),
                Err(e) => has_parent_step(path@) && e is BadRequest && e.message_spec()
                    == "Path traversal attempt detected"@,
            },
    {
        safe_join(self.root.as_str(), path)
    }

    /// The path to delete for a user's request, or the refusal of a path
    /// that could leave the root.
    pub fn plan_delete(&self, path: &str) -> (r: AppResult<String>)
        ensures
            match r {
                Ok(p) => !has_parent_step(path@) && p@ == joined(self.root@, relative_part(path@)),
                Err(e) => has_parent_step(path@) && e is BadRequest && e.message_spec()
                    == "Path traversal attempt detected"@,
            },
    {
        self.resolve(path)
    }

    /// The two paths of a move that a user asks for. If either path could
    /// leave the root the move is refused as a whole.
    pub fn plan_move(&self, from: &str, to: &str) -> (r: AppResult<(String, String)>)
        ensures
            match r {
                Ok(p) => !has_parent_step(from@) && !has_parent_step(to@) && p.0@ == joined(
                    self.root@,
                    relative_part(from@),
                ) && p.1@ == joined(self.root@, relative_part(to@)),
                Err(e) => (has_parent_step(from@) || has_parent_step(to@)) && e is BadRequest
                    && e.message_spec() == "Path traversal attempt detected"@,
            },
    {
        let source = match self.resolve(from) {
            Ok(p) => p,
            Err(e) => {
                return Err(e);
            },
        };
        let target = match self.resolve(to) {
            Ok(p) => p,
            Err(e) => {
                return Err(e);
            },
        };
        Ok((source, target))
    }

    /// Takes note of a build. A module that was built is entered under the
    /// strategy's name, in place of an earlier one of that name; a refused
    /// source enters nothing and is reported with the compiler's diagnostic.
    pub fn register(&mut self, name: &str, outcome: BuildOutcome) -> (r: AppResult<()>)
        requires
            old(self).wf(),
        ensures
            final(self).wf(),
            final(self).root == old(self).root,
            match outcome {
                BuildOutcome::Built(path) => r is Ok && entered(
                    old(self).entries@,
                    final(self).entries@,
                    name@,
                    path,
                ),
                BuildOutcome::Refused(text) => final(self).entries@ == old(self).entries@ && (
                match r {
                    Ok(_) => false,
                    Err(e) => e is Build && e.message_spec() == text@,
                }),
            },
    {
        match outcome {
            BuildOutcome::Refused(text) => Err(AppError::Build(text)),
            BuildOutcome::Built(path) => {
                let entry = StrategyEntry { name: String::from_str(name), path };
                match self.position(name) {
                    Some(i) => {
                        self.entries.set(i, entry);
                        assert(self.entries@[i as int].name@ == name@);
                    },
                    None => {
                        self.entries.push(entry);
                        assert(self.entries@[self.entries@.len() - 1].name@ == name@);
                    },
                }
                Ok(())
            },
        }
    }

    /// The entry of a strategy that was built. A name with no successful
    /// build is not found.
    pub fn lookup(&self, name: &str) -> (r: AppResult<&StrategyEntry>)
        ensures
            match r {
                Ok(entry) => entry.name@ == name@ && exists|i: int|
                    0 <= i < self.entries@.len() && self.entries@[i] == *entry,
                Err(e) => !named(self.entries@, name@) && e is NotFound && e.message_spec()
                    == "Strategy is not built"@,
            },
    {
        match self.position(name) {
            Some(i) => Ok(&self.entries[i]),
            None => Err(AppError::NotFound(String::from_str("Strategy is not built"))),
        }
    }

    /// Every strategy that was built, in the order of their first build.
    pub fn list(&self) -> (r: &Vec<StrategyEntry>)
        ensures
            r@ == self.entries@,
    {
        &self.entries
    }
}

} // verus!
