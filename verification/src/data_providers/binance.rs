//! The Binance depth feed: each message is a full snapshot of the best
//! levels, numbered by `lastUpdateId`.
use vstd::prelude::*;
use crate::data_providers::{FeedError, Handover, is_newer, log_in_order, lemma_push_in_order, newer_than};
use crate::types::{Exchange, OrderBook};

verus! {

/// The Binance feed's state: the channel to the merged book, and the number
/// of the last snapshot handed on.
#[verifier::reject_recursive_types(D)]
pub struct Binance<D> {
    incoming_events_tx: Handover<D>,
    last_update_id: Option<u64>,
}

impl<D> Binance<D> {
    /// The number of the last snapshot handed on, if any.
    pub closed spec fn last_sent(&self) -> Option<u64> {
        self.last_update_id
    }

    /// The snapshots handed on to the merged book so far, each with its
    /// stamp, in order.
    pub closed spec fn handed(&self) -> Seq<(u64, D)> {
        self.incoming_events_tx.handed()
    }

    /// The snapshots were handed on in increasing order of their stamps, none
    /// newer than the last stamp remembered.
    pub open spec fn in_order(&self) -> bool {
        log_in_order(self.handed(), self.last_sent())
    }

    /// A feed that has handed nothing on yet.
    pub fn new(incoming_events_tx: tokio::sync::watch::Sender<D>) -> (feed: Self)
        ensures
            feed.last_sent() is None,
            feed.handed() == Seq::<(u64, D)>::empty(),
            feed.in_order(),
    {
        Self { incoming_events_tx: Handover::new(incoming_events_tx), last_update_id: None }
    }

    /// The number of the last snapshot handed on, if any.
    pub fn last_update_id(&self) -> (id: Option<u64>)
        ensures
            id == self.last_sent(),
    {
        self.last_update_id
    }

    /// Whether a snapshot numbered `update_id` is to be handed on: only one
    /// newer than the last one handed on is; older ones are ignored.
    pub fn accepts(&self, update_id: u64) -> (accept: bool)
        ensures
            accept == is_newer(self.last_sent(), update_id),
    {
        newer_than(self.last_update_id, update_id)
    }

    /// Hands a snapshot numbered `update_id` on to the merged book, and
    /// remembers its number once it was handed on.
    pub fn send_event(&mut self, update_id: u64, data: D) -> (res: Result<(), FeedError>)
        ensures
            res is Ok ==> final(self).last_sent() == Some(update_id),
            res is Ok ==> final(self).handed() == old(self).handed().push((update_id, data)),
            res is Err ==> res == Err::<(), FeedError>(FeedError::ChannelClosed),
            res is Err ==> final(self).last_sent() == old(self).last_sent(),
            res is Err ==> final(self).handed() == old(self).handed(),
            old(self).in_order() && is_newer(old(self).last_sent(), update_id) ==> final(self).in_order(),
    {
        let delivered = match self.incoming_events_tx.send(update_id, data) {
            Ok(()) => true,
            Err(_) => false,
        };
        proof {
            if delivered && old(self).in_order() && is_newer(old(self).last_sent(), update_id) {
                lemma_push_in_order(old(self).handed(), old(self).last_sent(), update_id, data);
            }
        }
        self.record_delivery(update_id, delivered)
    }

    /// Records the outcome of handing on a snapshot stamped `update_id`: once it
    /// was delivered, its stamp is remembered; otherwise every receiver is gone
    /// and the stamp stays as it was.
    pub fn record_delivery(&mut self, update_id: u64, delivered: bool) -> (res: Result<(), FeedError>)
        ensures
            delivered ==> res is Ok && final(self).last_sent() == Some(update_id),
            !delivered ==> res == Err::<(), FeedError>(FeedError::ChannelClosed)
                && final(self).last_sent() == old(self).last_sent(),
            final(self).handed() == old(self).handed(),
    {
        if delivered {
            self.last_update_id = Some(update_id);
            Ok(())
        } else {
            Err(FeedError::ChannelClosed)
        }
    }

    /// Handles a snapshot numbered `update_id`: hands it on if it is newer
    /// than the last one handed on (`Ok(true)`), ignores it otherwise
    /// (`Ok(false)`).
    pub fn on_update(&mut self, update_id: u64, data: D) -> (res: Result<bool, FeedError>)
        ensures
            !is_newer(old(self).last_sent(), update_id) ==> res == Ok::<bool, FeedError>(false)
                && final(self).last_sent() == old(self).last_sent()
                && final(self).handed() == old(self).handed(),
            is_newer(old(self).last_sent(), update_id) ==> match res {
                Ok(sent) => sent && final(self).last_sent() == Some(update_id) && final(self).handed()
                    == old(self).handed().push((update_id, data)),
                Err(e) => e == FeedError::ChannelClosed && final(self).last_sent() == old(self).last_sent()
                    && final(self).handed() == old(self).handed(),
            },
            old(self).in_order() ==> final(self).in_order(),
    {
        if !self.accepts(update_id) {
            return Ok(false);
        }
        match self.send_event(update_id, data) {
            Ok(()) => Ok(true),
            Err(e) => Err(e),
        }
    }
}

/// A Binance depth snapshot. Prices and quantities are `f64` bit patterns,
/// each level `[price, quantity]`.
#[derive(Debug, Clone)]
pub struct OrderBookUpdate {
    pub last_update_id: u64,
    pub bids: Vec<[u64; 2]>,
    pub asks: Vec<[u64; 2]>,
}

impl OrderBook {
    /// The book of a Binance snapshot, stamped with the time of the call.
    pub fn from_binance(ob: OrderBookUpdate) -> (book: OrderBook)
        ensures
            book.exchnage == Exchange::Binance,
            book.bids@ == ob.bids@,
            book.asks@ == ob.asks@,
    {
        let mut book = OrderBook::default();
        book.exchnage = Exchange::Binance;
        book.bids = ob.bids;
        book.asks = ob.asks;
        book
    }
}

/// The conversion always succeeds; its contract is that of `from_binance`.
impl TryFrom<OrderBookUpdate> for OrderBook {
    type Error = core::convert::Infallible;

    fn try_from(ob: OrderBookUpdate) -> (res: Result<Self, Self::Error>)
        ensures
            res matches Ok(book) && book.exchnage == Exchange::Binance && book.bids@ == ob.bids@
                && book.asks@ == ob.asks@,
    {
        Ok(OrderBook::from_binance(ob))
    }
}

/// The book takes the time of the conversion, which no spec function can
/// give, so the conversion is not described as a function of the update.
impl vstd::std_specs::convert::TryFromSpecImpl<OrderBookUpdate> for OrderBook {
    open spec fn obeys_try_from_spec() -> bool {
        false
    }

    open spec fn try_from_spec(ob: OrderBookUpdate) -> Result<Self, core::convert::Infallible> {
        Ok(
            OrderBook {
                exchnage: Exchange::Binance,
                bids: ob.bids,
                asks: ob.asks,
                received_at: vstd::pervasive::arbitrary(),
            },
        )
    }
}

} // verus!
