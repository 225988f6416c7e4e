//! The search for the earliest candle of a market.
//!
//! The search bisects the millisecond axis between the epoch and now. Each
//! probe asks the exchange for the first candle at or after a point in time;
//! the caller makes the request and reports what came back.

use vstd::prelude::*;
use crate::models::Candle;

verus! {

/// The search as numbers: the interval still to be looked at, and the
/// opening time of the earliest candle seen so far.
pub struct SearchModel {
    pub left: int,
    pub right: int,
    pub best: Option<int>,
}

impl SearchModel {
    /// The search over `[0, now]` before any probe.
    pub open spec fn initial(now: int) -> SearchModel {
        SearchModel { left: 0, right: now, best: None }
    }

    /// Nothing is left to look at.
    pub open spec fn done(self) -> bool {
        self.left > self.right
    }

    /// The point in time to ask for next.
    pub open spec fn probe(self) -> int {
        self.left + (self.right - self.left) / 2
    }

    /// The search after a probe: a candle moves the search to earlier times
    /// and becomes the best seen, none moves it to later times.
    pub open spec fn step(self, found: Option<int>) -> SearchModel {
        match found {
            Some(t) => SearchModel { left: self.left, right: self.probe() - 1, best: Some(t) },
            None => SearchModel { left: self.probe() + 1, right: self.right, best: self.best },
        }
    }

    /// What the search ends with when every probe is answered by `source`.
    pub open spec fn outcome(self, source: spec_fn(int) -> Option<int>) -> Option<int>
        decreases self.right - self.left + 1,
    {
        if self.done() {
            self.best
        } else {
            self.step(source(self.probe())).outcome(source)
        }
    }
}

/// A data source that has a candle at every millisecond from `cutoff` on and
/// none before: asked for a point in time, it answers with the candle
/// opening there, or with nothing.
pub open spec fn source_from(cutoff: int) -> spec_fn(int) -> Option<int> {
    |since: int|
        if since >= cutoff {
            Some(since)
        } else {
            None
        }
}

proof fn lemma_search_closes_on_cutoff(m: SearchModel, cutoff: int)
    requires
        m.left <= cutoff <= m.right + 1,
        cutoff == m.right + 1 ==> m.best == Some(cutoff),
    ensures
        m.outcome(source_from(cutoff)) == Some(cutoff),
    decreases m.right - m.left + 1,
{
    if !m.done() {
        let next = m.step(source_from(cutoff)(m.probe()));
        lemma_search_closes_on_cutoff(next, cutoff);
    }
}

/// Against a source that has candles from `cutoff` on and none before, the
/// search over `[0, now]` ends with the candle that opens at `cutoff`.
pub proof fn search_finds_cutoff(now: int, cutoff: int)
    requires
        0 <= cutoff <= now,
    ensures
        SearchModel::initial(now).outcome(source_from(cutoff)) == Some(cutoff),
{
    lemma_search_closes_on_cutoff(SearchModel::initial(now), cutoff);
}

/// Against a source that never has a candle, the search ends with nothing.
pub proof fn search_of_empty_source(m: SearchModel)
    requires
        m.best is None,
    ensures
        m.outcome(|since: int| None::<int>) is None,
    decreases m.right - m.left + 1,
{
    if !m.done() {
        search_of_empty_source(m.step(None));
    }
}

/// The state of one search. The caller asks `next_probe` for the time to
/// request, requests one candle from there, and hands the answer to
/// `record`, until `next_probe` has nothing more to ask.
pub struct CandleSearch {
    pub left: u64,
    pub right: i64,
    pub best: Option<Candle>,
}

impl CandleSearch {
    /// The left bound is at most one past the latest time there is.
    pub open spec fn wf(self) -> bool {
        self.left <= i64::MAX as u64 + 1
    }

    /// The search as numbers.
    pub open spec fn model(self) -> SearchModel {
        SearchModel {
            left: self.left as int,
            right: self.right as int,
            best: match self.best {
                Some(c) => Some(c.timestamp as int),
                None => None,
            },
        }
    }

    /// Tests the invariant of a search that came from outside.
    pub fn is_wf(&self) -> (r: bool)
        ensures
            r == self.wf(),
    {
        self.left <= 0x8000_0000_0000_0000u64
    }

    /// Starts a search between the epoch and `now`, in milliseconds.
    pub fn new(now: i64) -> (r: CandleSearch)
        ensures
            r.wf(),
            r.model() == SearchModel::initial(now as int),
            r.best is None,
    {
        CandleSearch { left: 0, right: now, best: None }
    }

    /// The time to request next, or nothing when the search is over.
    pub fn next_probe(&self) -> (r: Option<i64>)
        requires
            self.wf(),
        ensures
            r == if self.model().done() {
                None
            } else {
                Some(self.model().probe() as i64)
            },
            r is Some ==> self.left <= r.unwrap() <= self.right,
    {
        if self.right < 0 || self.left > self.right as u64 {
            None
        } else {
            let mid: u64 = self.left + (self.right as u64 - self.left) / 2;
            Some(mid as i64)
        }
    }

    /// Takes the answer to the probe that `next_probe` named: the first
    /// candle of the page that was requested, or nothing for an empty page.
    pub fn record(&mut self, found: Option<Candle>)
        requires
            old(self).wf(),
            !old(self).model().done(),
        ensures
            final(self).wf(),
            final(self).best == if found is Some {
                found
            } else {
                old(self).best
            },
            final(self).model() == old(self).model().step(
                match found {
                    Some(c) => Some(c.timestamp as int),
                    None => None,
                },
            ),
            final(self).right - final(self).left < old(self).right - old(self).left,
    {
        let mid: u64 = self.left + (self.right as u64 - self.left) / 2;
        match found {
            Some(c) => {
                self.best = Some(c);
                self.right = mid as i64 - 1;
            },
            None => {
                self.left = mid + 1;
            },
        }
    }

    /// Ends the search with the earliest candle seen, if any was.
    pub fn finish(self) -> (r: Option<Candle>)
        ensures
            r == self.best,
    {
        self.best
    }
}

} // verus!
