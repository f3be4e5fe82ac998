//! The Bitstamp order-book feed: a channel is subscribed to by name, and each
//! message carries a full snapshot stamped with a microsecond timestamp.
use vstd::prelude::*;
use crate::data_providers::{FeedError, Handover, is_newer, log_in_order, lemma_push_in_order, newer_than, json_to_string, json_string_literal};
use crate::types::{Exchange, OrderBook};

verus! {

/// The text of a subscription request, given the channel's name as a JSON
/// string literal. The keys stand in the order in which `serde_json` writes
/// an object's keys.
pub open spec fn subscription_text(channel_literal: Seq<char>) -> Seq<char> {
    "{\"data\":{\"channel\":"@ + channel_literal + "},\"event\":\"bts:subscribe\"}"@
}

/// The event name with which Bitstamp confirms a subscription.
pub open spec fn subscribed_event() -> Seq<char> {
    "bts:subscription_succeeded"@
}

/// Why a subscription to a Bitstamp channel failed.
#[derive(Debug, Clone)]
pub enum SubscriptionError {
    /// Bitstamp answered the subscription to this channel with another event.
    Refused { channel: String },
}

/// The subscription request for a channel whose name is given as a JSON
/// string literal.
pub fn subscription_frame(channel_literal: &str) -> (text: String)
    ensures
        text@ == subscription_text(channel_literal@),
{
    let mut text = String::from_str("{\"data\":{\"channel\":");
    text.append(channel_literal);
    text.append("},\"event\":\"bts:subscribe\"}");
    proof {
        reveal_strlit("{\"data\":{\"channel\":");
        reveal_strlit("},\"event\":\"bts:subscribe\"}");
    }
    text
}

/// The Bitstamp feed's state: the channel subscribed to, the channel to the
/// merged book, and the timestamp of the last snapshot handed on.
#[verifier::reject_recursive_types(D)]
pub struct Bitstamp<D> {
    channel: String,
    incoming_events_tx: Handover<D>,
    last_timestamp: Option<u64>,
}

impl<D> Bitstamp<D> {
    /// The timestamp of the last snapshot handed on, if any.
    pub closed spec fn last_sent(&self) -> Option<u64> {
        self.last_timestamp
    }

    /// The snapshots handed on to the merged book so far, each with its
    /// stamp, in order.
    pub closed spec fn handed(&self) -> Seq<(u64, D)> {
        self.incoming_events_tx.handed()
    }

    /// The snapshots were handed on in increasing order of their stamps, none
    /// newer than the last stamp remembered.
    pub open spec fn in_order(&self) -> bool {
        log_in_order(self.handed(), self.last_sent())
    }

    /// The name of the channel subscribed to.
    pub closed spec fn channel_name(&self) -> Seq<char> {
        self.channel@
    }

    /// A feed of the named channel that has handed nothing on yet.
    pub fn new(channel: String, incoming_events_tx: tokio::sync::watch::Sender<D>) -> (feed: Self)
        ensures
            feed.channel_name() == channel@,
            feed.last_sent() is None,
            feed.handed() == Seq::<(u64, D)>::empty(),
            feed.in_order(),
    {
        Self { channel, incoming_events_tx: Handover::new(incoming_events_tx), last_timestamp: None }
    }

    /// The name of the channel subscribed to.
    pub fn channel(&self) -> (name: &str)
        ensures
            name@ == self.channel_name(),
    {
        self.channel.as_str()
    }

    /// The timestamp of the last snapshot handed on, if any.
    pub fn last_timestamp(&self) -> (ts: Option<u64>)
        ensures
            ts == self.last_sent(),
    {
        self.last_timestamp
    }

    /// The request that subscribes to the feed's channel.
    pub fn subscription_message(&self) -> (text: String)
        ensures
            text@ == subscription_text(json_string_literal(self.channel_name())),
    {
        let literal = json_to_string(self.channel.as_str()).unwrap();
        subscription_frame(literal.as_str())
    }

    /// Checks Bitstamp's answer to the subscription, given the answer's
    /// `event` field: anything but `bts:subscription_succeeded` is a refusal.
    pub fn check_subscription(&self, event: &str) -> (res: Result<(), SubscriptionError>)
        ensures
            res is Ok <==> event@ == subscribed_event(),
            res matches Err(e) ==> e matches SubscriptionError::Refused { channel } && channel@
                == self.channel_name(),
    {
        let expected = String::from_str("bts:subscription_succeeded");
        proof {
            reveal_strlit("bts:subscription_succeeded");
        }
        let got = String::from_str(event);
        if got == expected {
            Ok(())
        } else {
            Err(SubscriptionError::Refused { channel: self.channel.clone() })
        }
    }

    /// Whether a snapshot stamped `timestamp` is to be handed on: only one
    /// newer than the last one handed on is; others are out of order.
    pub fn accepts(&self, timestamp: u64) -> (accept: bool)
        ensures
            accept == is_newer(self.last_sent(), timestamp),
    {
        newer_than(self.last_timestamp, timestamp)
    }

    /// Hands a snapshot stamped `timestamp` on to the merged book, and
    /// remembers its timestamp once it was handed on.
    pub fn send_event(&mut self, timestamp: u64, data: D) -> (res: Result<(), FeedError>)
        ensures
            res is Ok ==> final(self).last_sent() == Some(timestamp),
            res is Ok ==> final(self).handed() == old(self).handed().push((timestamp, data)),
            res is Err ==> res == Err::<(), FeedError>(FeedError::ChannelClosed),
            res is Err ==> final(self).last_sent() == old(self).last_sent(),
            res is Err ==> final(self).handed() == old(self).handed(),
            old(self).in_order() && is_newer(old(self).last_sent(), timestamp) ==> final(self).in_order(),
            final(self).channel_name() == old(self).channel_name(),
    {
        let delivered = match self.incoming_events_tx.send(timestamp, data) {
            Ok(()) => true,
            Err(_) => false,
        };
        proof {
            if delivered && old(self).in_order() && is_newer(old(self).last_sent(), timestamp) {
                lemma_push_in_order(old(self).handed(), old(self).last_sent(), timestamp, data);
            }
        }
        self.record_delivery(timestamp, delivered)
    }

    /// Records the outcome of handing on a snapshot stamped `timestamp`: once it
    /// was delivered, its stamp is remembered; otherwise every receiver is gone
    /// and the stamp stays as it was.
    pub fn record_delivery(&mut self, timestamp: u64, delivered: bool) -> (res: Result<(), FeedError>)
        ensures
            delivered ==> res is Ok && final(self).last_sent() == Some(timestamp),
            !delivered ==> res == Err::<(), FeedError>(FeedError::ChannelClosed)
                && final(self).last_sent() == old(self).last_sent(),
            final(self).handed() == old(self).handed(),
            final(self).channel_name() == old(self).channel_name(),
    {
        if delivered {
            self.last_timestamp = Some(timestamp);
            Ok(())
        } else {
            Err(FeedError::ChannelClosed)
        }
    }

    /// Handles a snapshot stamped `timestamp`: hands it on if it is newer
    /// than the last one handed on (`Ok(true)`), drops it otherwise
    /// (`Ok(false)`).
    pub fn on_update(&mut self, timestamp: u64, data: D) -> (res: Result<bool, FeedError>)
        ensures
            final(self).channel_name() == old(self).channel_name(),
            !is_newer(old(self).last_sent(), timestamp) ==> res == Ok::<bool, FeedError>(false)
                && final(self).last_sent() == old(self).last_sent()
                && final(self).handed() == old(self).handed(),
            is_newer(old(self).last_sent(), timestamp) ==> match res {
                Ok(sent) => sent && final(self).last_sent() == Some(timestamp) && final(self).handed()
                    == old(self).handed().push((timestamp, data)),
                Err(e) => e == FeedError::ChannelClosed && final(self).last_sent() == old(self).last_sent()
                    && final(self).handed() == old(self).handed(),
            },
            old(self).in_order() ==> final(self).in_order(),
    {
        if !self.accepts(timestamp) {
            return Ok(false);
        }
        match self.send_event(timestamp, data) {
            Ok(()) => Ok(true),
            Err(e) => Err(e),
        }
    }
}

/// A Bitstamp order-book message: its `data` field holds the snapshot.
#[derive(Debug)]
pub struct Event {
    data: OrderBookUpdate,
}

impl Event {
    /// The message carrying `data`.
    pub fn new(data: OrderBookUpdate) -> (event: Event)
        ensures
            event.data() == data,
    {
        Event { data }
    }

    pub closed spec fn data(&self) -> OrderBookUpdate {
        self.data
    }

    /// The snapshot the message carries.
    pub fn into_data(self) -> (data: OrderBookUpdate)
        ensures
            data == self.data(),
    {
        self.data
    }
}

/// A Bitstamp snapshot. Prices and quantities are `f64` bit patterns, each
/// level `[price, quantity]`; `microtimestamp` orders the snapshots.
#[derive(Debug)]
pub struct OrderBookUpdate {
    pub timestamp: String,
    pub microtimestamp: u64,
    pub bids: Vec<[u64; 2]>,
    pub asks: Vec<[u64; 2]>,
}

impl OrderBook {
    /// The book of a Bitstamp snapshot, stamped with the time of the call.
    pub fn from_bitstamp(ob: OrderBookUpdate) -> (book: OrderBook)
        ensures
            book.exchnage == Exchange::Bitstamp,
            book.bids@ == ob.bids@,
            book.asks@ == ob.asks@,
    {
        let mut book = OrderBook::default();
        book.exchnage = Exchange::Bitstamp;
        book.bids = ob.bids;
        book.asks = ob.asks;
        book
    }
}

/// The conversion always succeeds; its contract is that of `from_bitstamp`.
impl TryFrom<OrderBookUpdate> for OrderBook {
    type Error = core::convert::Infallible;

    fn try_from(ob: OrderBookUpdate) -> (res: Result<Self, Self::Error>)
        ensures
            res matches Ok(book) && book.exchnage == Exchange::Bitstamp && book.bids@ == ob.bids@
                && book.asks@ == ob.asks@,
    {
        Ok(OrderBook::from_bitstamp(ob))
    }
}

/// The book takes the time of the conversion, which no spec function can
/// give, so the conversion is not described as a function of the update.
impl vstd::std_specs::convert::TryFromSpecImpl<OrderBookUpdate> for OrderBook {
    open spec fn obeys_try_from_spec() -> bool {
        false
    }

    open spec fn try_from_spec(ob: OrderBookUpdate) -> Result<Self, core::convert::Infallible> {
        Ok(
            OrderBook {
                exchnage: Exchange::Bitstamp,
                bids: ob.bids,
                asks: ob.asks,
                received_at: vstd::pervasive::arbitrary(),
            },
        )
    }
}

} // verus!
