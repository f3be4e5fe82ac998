//! The summary of the merged book that is streamed to clients.
use vstd::prelude::*;
use crate::book::{BookLevel, BookSide};
use crate::types::exchange_name;

verus! {

/// A level as clients see it: the exchange's name, and price and amount as
/// `f64` bit patterns.
#[derive(Clone, Debug)]
pub struct Level {
    pub exchange: String,
    pub price: u64,
    pub amount: u64,
}

/// The best levels of both sides: bids from the highest price down, asks from
/// the lowest price up. `spread` is an `f64` bit pattern.
#[derive(Clone, Debug)]
pub struct Summary {
    pub spread: u64,
    pub bids: Vec<Level>,
    pub asks: Vec<Level>,
}

/// `out` reports the book level `level`.
pub open spec fn reports(out: Level, level: BookLevel) -> bool {
    &&& out.exchange@ == exchange_name(level.exchange)
    &&& out.price == level.price
    &&& out.amount == level.quantity
}

pub open spec fn min_len(a: nat, b: nat) -> nat {
    if a < b {
        a
    } else {
        b
    }
}

/// `out` reports `levels`, one for one and in order.
pub open spec fn reports_all(out: Seq<Level>, levels: Seq<BookLevel>) -> bool {
    &&& out.len() == levels.len()
    &&& forall|k: int| 0 <= k < out.len() ==> reports(#[trigger] out[k], levels[k])
}

/// The bid levels that a summary shows: at most `max_levels`, from the
/// highest key down.
pub open spec fn summary_bids(bids: Seq<BookLevel>, max_levels: nat) -> Seq<BookLevel> {
    Seq::new(min_len(bids.len(), max_levels), |k: int| bids[bids.len() - 1 - k])
}

/// The ask levels that a summary shows: at most `max_levels`, from the
/// lowest key up.
pub open spec fn summary_asks(asks: Seq<BookLevel>, max_levels: nat) -> Seq<BookLevel> {
    asks.take(min_len(asks.len(), max_levels) as int)
}

/// A summary with a higher level limit only adds levels behind those of a
/// lower limit, and once the limit reaches a side's length the summary shows
/// the whole side.
pub proof fn lemma_summary_prefix(levels: Seq<BookLevel>, m: nat)
    ensures
        summary_bids(levels, m) =~= summary_bids(levels, m + 1).take(
            summary_bids(levels, m).len() as int,
        ),
        summary_asks(levels, m) =~= summary_asks(levels, m + 1).take(
            summary_asks(levels, m).len() as int,
        ),
        m >= levels.len() ==> summary_bids(levels, m) =~= summary_bids(levels, levels.len()),
        m >= levels.len() ==> summary_asks(levels, m) =~= levels,
{
}

/// The report of one book level.
pub fn level_of(level: &BookLevel) -> (out: Level)
    ensures
        reports(out, *level),
{
    Level { exchange: level.exchange.to_string(), price: level.price, amount: level.quantity }
}

/// The summary of a book: at most `max_levels` bids, the highest first, and at
/// most `max_levels` asks, the lowest first.
pub fn create_summary(spread: u64, bids: &BookSide, asks: &BookSide, max_levels: usize) -> (summary:
    Summary)
    ensures
        summary.spread == spread,
        reports_all(summary.bids@, summary_bids(bids@, max_levels as nat)),
        reports_all(summary.asks@, summary_asks(asks@, max_levels as nat)),
{
    let n_bids = bids.len();
    let bid_count = if n_bids < max_levels {
        n_bids
    } else {
        max_levels
    };
    let n_asks = asks.len();
    let ask_count = if n_asks < max_levels {
        n_asks
    } else {
        max_levels
    };

    let mut bid_levels: Vec<Level> = Vec::new();
    let mut k: usize = 0;
    while k < bid_count
        invariant
            n_bids == bids@.len(),
            bid_count <= n_bids,
            k <= bid_count,
            bid_levels@.len() == k,
            forall|j: int|
                0 <= j < k ==> reports(#[trigger] bid_levels@[j], bids@[bids@.len() - 1 - j]),
        decreases bid_count - k,
    {
        let level = bids.get(n_bids - 1 - k);
        bid_levels.push(level_of(&level));
        k = k + 1;
    }

    let mut ask_levels: Vec<Level> = Vec::new();
    let mut k: usize = 0;
    while k < ask_count
        invariant
            n_asks == asks@.len(),
            ask_count <= n_asks,
            k <= ask_count,
            ask_levels@.len() == k,
            forall|j: int| 0 <= j < k ==> reports(#[trigger] ask_levels@[j], asks@[j]),
        decreases ask_count - k,
    {
        let level = asks.get(k);
        ask_levels.push(level_of(&level));
        k = k + 1;
    }

    Summary { spread, bids: bid_levels, asks: ask_levels }
}

} // verus!
