//! The merged book of all exchanges, and the decisions taken on each
//! snapshot that arrives.
use vstd::prelude::*;
use crate::book::{
    BookLevel, BookSide, apply_levels, keep_highest, keep_lowest, side_wf, lemma_apply_levels_wf,
    lemma_keep_best, quantity_at, is_last_at, level_key, level_outcome,
    lemma_apply_levels_keeps_other_exchanges, lemma_apply_levels_last_write_wins,
    lemma_apply_levels_unmentioned_price, lemma_keep_best_only_drops,
};
use crate::grpc_server::{Summary, create_summary, reports_all, summary_asks, summary_bids};
use crate::types::{Exchange, OrderBook};

verus! {

/// How many levels each side of the merged book keeps.
pub const MAX_DEPTH: usize = 10usize;

/// How many summaries pass between two progress reports.
pub const REPORT_EVERY: u64 = 10u64;

/// The asks after a snapshot: its ask levels applied, then the lowest
/// `MAX_DEPTH` kept.
pub open spec fn next_asks(asks: Seq<BookLevel>, update: OrderBook) -> Seq<BookLevel> {
    keep_lowest(apply_levels(asks, update.exchnage, update.asks@), MAX_DEPTH as nat)
}

/// The bids after a snapshot: its bid levels applied, then the highest
/// `MAX_DEPTH` kept.
pub open spec fn next_bids(bids: Seq<BookLevel>, update: OrderBook) -> Seq<BookLevel> {
    keep_highest(apply_levels(bids, update.exchnage, update.bids@), MAX_DEPTH as nat)
}

/// The merged book of all exchanges, and the number of summaries produced.
pub struct CombinedBook {
    combined_asks: BookSide,
    combined_bids: BookSide,
    update_count: u64,
}

impl CombinedBook {
    pub open spec fn wf(&self) -> bool {
        side_wf(self.asks()) && side_wf(self.bids())
    }

    /// The asks, lowest price first.
    pub closed spec fn asks(&self) -> Seq<BookLevel> {
        self.combined_asks@
    }

    /// The bids, lowest price first.
    pub closed spec fn bids(&self) -> Seq<BookLevel> {
        self.combined_bids@
    }

    /// The number of summaries produced so far.
    pub closed spec fn count(&self) -> u64 {
        self.update_count
    }

    /// An empty book.
    pub fn new() -> (book: CombinedBook)
        ensures
            book.wf(),
            book.asks() == Seq::<BookLevel>::empty(),
            book.bids() == Seq::<BookLevel>::empty(),
            book.count() == 0,
    {
        CombinedBook { combined_asks: BookSide::new(), combined_bids: BookSide::new(), update_count: 0 }
    }

    /// Merges a snapshot of one exchange into the book. Crossed books (an ask
    /// below a bid) are not checked.
    pub fn apply_update(&mut self, update: OrderBook)
        requires
            old(self).wf(),
        ensures
            final(self).wf(),
            final(self).asks() == next_asks(old(self).asks(), update),
            final(self).bids() == next_bids(old(self).bids(), update),
            final(self).count() == old(self).count(),
            final(self).asks().len() <= MAX_DEPTH,
            final(self).bids().len() <= MAX_DEPTH,
    {
        proof {
            lemma_update_keeps_depth(self.asks(), self.bids(), update);
        }
        let exchange = update.exchnage;
        self.combined_asks.apply_levels(exchange, &update.asks);
        self.combined_asks.keep_lowest(MAX_DEPTH);
        self.combined_bids.apply_levels(exchange, &update.bids);
        self.combined_bids.keep_highest(MAX_DEPTH);
    }

    /// The price of the highest bid, if any.
    pub fn best_bid(&self) -> (price: Option<u64>)
        ensures
            self.bids().len() == 0 ==> price is None,
            self.bids().len() > 0 ==> price == Some(self.bids().last().price),
    {
        match self.combined_bids.last() {
            Some(level) => Some(level.price),
            None => None,
        }
    }

    /// The price of the lowest ask, if any.
    pub fn best_ask(&self) -> (price: Option<u64>)
        ensures
            self.asks().len() == 0 ==> price is None,
            self.asks().len() > 0 ==> price == Some(self.asks()[0].price),
    {
        match self.combined_asks.first() {
            Some(level) => Some(level.price),
            None => None,
        }
    }

    /// Counts one more summary, and says whether this one is to be reported
    /// in the log (every `REPORT_EVERY`-th).
    pub fn record_broadcast(&mut self) -> (report: bool)
        requires
            old(self).count() < u64::MAX,
        ensures
            final(self).count() == old(self).count() + 1,
            final(self).asks() == old(self).asks(),
            final(self).bids() == old(self).bids(),
            final(self).wf() == old(self).wf(),
            report == (final(self).count() % REPORT_EVERY == 0),
    {
        self.update_count = self.update_count + 1;
        self.update_count % REPORT_EVERY == 0
    }

    /// The number of summaries produced so far.
    pub fn update_count(&self) -> (n: u64)
        ensures
            n == self.count(),
    {
        self.update_count
    }

    /// The number of levels on the ask and on the bid side.
    pub fn depths(&self) -> (depths: (usize, usize))
        ensures
            depths.0 == self.asks().len(),
            depths.1 == self.bids().len(),
    {
        (self.combined_asks.len(), self.combined_bids.len())
    }

    /// The summary of the book, `MAX_DEPTH` levels a side at most, with the
    /// given spread (an `f64` bit pattern).
    pub fn summary(&self, spread: u64) -> (summary: Summary)
        ensures
            summary.spread == spread,
            reports_all(summary.bids@, summary_bids(self.bids(), MAX_DEPTH as nat)),
            reports_all(summary.asks@, summary_asks(self.asks(), MAX_DEPTH as nat)),
    {
        create_summary(spread, &self.combined_bids, &self.combined_asks, MAX_DEPTH)
    }
}

/// After any snapshot each side holds at most `MAX_DEPTH` levels, in order,
/// each with a positive quantity.
pub proof fn lemma_update_keeps_depth(asks: Seq<BookLevel>, bids: Seq<BookLevel>, update: OrderBook)
    requires
        side_wf(asks),
        side_wf(bids),
    ensures
        next_asks(asks, update).len() <= MAX_DEPTH,
        next_bids(bids, update).len() <= MAX_DEPTH,
        side_wf(next_asks(asks, update)),
        side_wf(next_bids(bids, update)),
{
    let a = apply_levels(asks, update.exchnage, update.asks@);
    let b = apply_levels(bids, update.exchnage, update.bids@);
    lemma_apply_levels_wf(asks, update.exchnage, update.asks@);
    lemma_apply_levels_wf(bids, update.exchnage, update.bids@);
    lemma_keep_best(a, MAX_DEPTH as nat);
    lemma_keep_best(b, MAX_DEPTH as nat);
    let ka = keep_lowest(a, MAX_DEPTH as nat);
    let kb = keep_highest(b, MAX_DEPTH as nat);
    assert forall|i: int| 0 <= i < ka.len() implies crate::price::is_positive_bits(
        #[trigger] ka[i].quantity,
    ) by {
        assert(ka[i] == a[i]);
    }
    assert forall|i: int| 0 <= i < kb.len() implies crate::price::is_positive_bits(
        #[trigger] kb[i].quantity,
    ) by {
        assert(kb[i] == b[i + (b.len() - kb.len())]);
    }
}

/// A side `after` holds what a snapshot of exchange `ex` with `levels` makes
/// of `before`: every other exchange holds at each price what it held, and
/// `ex` holds at each price what the snapshot's last level there gives, or,
/// at a price the snapshot does not mention, what it held.
pub open spec fn stored_under(
    before: Seq<BookLevel>,
    after: Seq<BookLevel>,
    ex: Exchange,
    levels: Seq<[u64; 2]>,
) -> bool {
    &&& forall|pk: u64, o: Exchange|
        o != ex ==> #[trigger] quantity_at(after, pk, o) == quantity_at(before, pk, o)
    &&& forall|pk: u64, j: int|
        #[trigger] is_last_at(levels, pk, j) ==> quantity_at(after, pk, ex) == level_outcome(
            levels[j],
        )
    &&& forall|pk: u64|
        (forall|j: int| 0 <= j < levels.len() ==> level_key(#[trigger] levels[j]) != pk)
            ==> #[trigger] quantity_at(after, pk, ex) == quantity_at(before, pk, ex)
}

/// A snapshot is stored under its own exchange: each side after it is the
/// best `MAX_DEPTH` levels of a well-formed side in which the snapshot's
/// exchange holds what the snapshot's levels set or removed, and every other
/// exchange holds exactly what it held before.
pub proof fn lemma_update_stores_under_own_exchange(
    asks: Seq<BookLevel>,
    bids: Seq<BookLevel>,
    update: OrderBook,
)
    requires
        side_wf(asks),
        side_wf(bids),
    ensures
        exists|full: Seq<BookLevel>|
            side_wf(full) && stored_under(asks, full, update.exchnage, update.asks@) && next_asks(
                asks,
                update,
            ) == keep_lowest(full, MAX_DEPTH as nat),
        exists|full: Seq<BookLevel>|
            side_wf(full) && stored_under(bids, full, update.exchnage, update.bids@) && next_bids(
                bids,
                update,
            ) == keep_highest(full, MAX_DEPTH as nat),
{
    lemma_applied_side_stored(asks, update.exchnage, update.asks@);
    lemma_applied_side_stored(bids, update.exchnage, update.bids@);
    let a = apply_levels(asks, update.exchnage, update.asks@);
    let b = apply_levels(bids, update.exchnage, update.bids@);
    assert(side_wf(a) && stored_under(asks, a, update.exchnage, update.asks@) && next_asks(
        asks,
        update,
    ) == keep_lowest(a, MAX_DEPTH as nat));
    assert(side_wf(b) && stored_under(bids, b, update.exchnage, update.bids@) && next_bids(
        bids,
        update,
    ) == keep_highest(b, MAX_DEPTH as nat));
}

proof fn lemma_applied_side_stored(s: Seq<BookLevel>, ex: Exchange, levels: Seq<[u64; 2]>)
    requires
        side_wf(s),
    ensures
        side_wf(apply_levels(s, ex, levels)),
        stored_under(s, apply_levels(s, ex, levels), ex, levels),
{
    let a = apply_levels(s, ex, levels);
    lemma_apply_levels_wf(s, ex, levels);
    assert forall|pk: u64, o: Exchange| o != ex implies #[trigger] quantity_at(a, pk, o)
        == quantity_at(s, pk, o) by {
        lemma_apply_levels_keeps_other_exchanges(s, ex, levels, pk, o);
    }
    assert forall|pk: u64, j: int| #[trigger] is_last_at(levels, pk, j) implies quantity_at(
        a,
        pk,
        ex,
    ) == level_outcome(levels[j]) by {
        lemma_apply_levels_last_write_wins(s, ex, levels, pk, j);
    }
    assert forall|pk: u64|
        (forall|j: int| 0 <= j < levels.len() ==> level_key(#[trigger] levels[j]) != pk)
        implies #[trigger] quantity_at(a, pk, ex) == quantity_at(s, pk, ex) by {
        lemma_apply_levels_unmentioned_price(s, ex, levels, pk);
    }
}

/// In the book after a snapshot, a level of another exchange is one the book
/// held before, with the same quantity; a level of the snapshot's exchange at
/// a price the snapshot mentions holds the quantity of the snapshot's last
/// level there, and at a price it does not mention, what the book held.
pub proof fn lemma_update_levels_after_cut(
    asks: Seq<BookLevel>,
    bids: Seq<BookLevel>,
    update: OrderBook,
    pk: u64,
    ex: Exchange,
)
    requires
        side_wf(asks),
        side_wf(bids),
    ensures
        ex != update.exchnage ==> (quantity_at(next_asks(asks, update), pk, ex) matches Some(q)
            ==> quantity_at(asks, pk, ex) == Some(q)),
        ex != update.exchnage ==> (quantity_at(next_bids(bids, update), pk, ex) matches Some(q)
            ==> quantity_at(bids, pk, ex) == Some(q)),
        forall|j: int|
            #![trigger is_last_at(update.asks@, pk, j)]
            ex == update.exchnage && is_last_at(update.asks@, pk, j) ==> (quantity_at(
                next_asks(asks, update),
                pk,
                ex,
            ) matches Some(q) ==> level_outcome(update.asks@[j]) == Some(q)),
        forall|j: int|
            #![trigger is_last_at(update.bids@, pk, j)]
            ex == update.exchnage && is_last_at(update.bids@, pk, j) ==> (quantity_at(
                next_bids(bids, update),
                pk,
                ex,
            ) matches Some(q) ==> level_outcome(update.bids@[j]) == Some(q)),
        ex == update.exchnage && (forall|j: int|
            0 <= j < update.asks@.len() ==> level_key(#[trigger] update.asks@[j]) != pk) ==> (
        quantity_at(next_asks(asks, update), pk, ex) matches Some(q) ==> quantity_at(asks, pk, ex)
            == Some(q)),
        ex == update.exchnage && (forall|j: int|
            0 <= j < update.bids@.len() ==> level_key(#[trigger] update.bids@[j]) != pk) ==> (
        quantity_at(next_bids(bids, update), pk, ex) matches Some(q) ==> quantity_at(bids, pk, ex)
            == Some(q)),
{
    lemma_applied_side_stored(asks, update.exchnage, update.asks@);
    lemma_applied_side_stored(bids, update.exchnage, update.bids@);
    let a = apply_levels(asks, update.exchnage, update.asks@);
    let b = apply_levels(bids, update.exchnage, update.bids@);
    lemma_keep_best_only_drops(a, MAX_DEPTH as nat, pk, ex);
    lemma_keep_best_only_drops(b, MAX_DEPTH as nat, pk, ex);
}

} // verus!
