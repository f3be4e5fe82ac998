use order_book_stream::data_providers::binance::{self, Binance};
use order_book_stream::data_providers::bitstamp::{self, Bitstamp, Event, SubscriptionError};
use order_book_stream::data_providers::FeedError;
use order_book_stream::types::{Exchange, OrderBook};
use tokio::sync::watch;

#[test]
fn binance_hands_on_only_newer_snapshots() {
    let (tx, rx) = watch::channel(0u32);
    let mut feed = Binance::new(tx);
    assert_eq!(feed.last_update_id(), None);
    assert!(feed.accepts(0));
    assert_eq!(feed.on_update(5, 1), Ok(true));
    assert_eq!(*rx.borrow(), 1);
    assert_eq!(feed.on_update(5, 2), Ok(false));
    assert_eq!(feed.on_update(3, 3), Ok(false));
    assert_eq!(*rx.borrow(), 1);
    assert_eq!(feed.on_update(6, 4), Ok(true));
    assert_eq!(*rx.borrow(), 4);
    assert_eq!(feed.last_update_id(), Some(6));
}

#[test]
fn binance_keeps_its_stamp_when_no_receiver_is_left() {
    let (tx, rx) = watch::channel(0u32);
    let mut feed = Binance::new(tx);
    assert_eq!(feed.send_event(1, 1), Ok(()));
    drop(rx);
    assert_eq!(feed.on_update(2, 2), Err(FeedError::ChannelClosed));
    assert_eq!(feed.last_update_id(), Some(1));
}

#[test]
fn bitstamp_drops_out_of_order_snapshots() {
    let (tx, rx) = watch::channel(0u32);
    let mut feed = Bitstamp::new("order_book_ethbtc".to_string(), tx);
    assert_eq!(feed.channel(), "order_book_ethbtc");
    assert_eq!(feed.on_update(100, 1), Ok(true));
    assert_eq!(feed.on_update(99, 2), Ok(false));
    assert_eq!(feed.on_update(100, 3), Ok(false));
    assert_eq!(feed.on_update(101, 4), Ok(true));
    assert_eq!(*rx.borrow(), 4);
    assert_eq!(feed.last_timestamp(), Some(101));
    drop(rx);
    assert_eq!(feed.on_update(200, 5), Err(FeedError::ChannelClosed));
    assert_eq!(feed.last_timestamp(), Some(101));
}

#[test]
fn bitstamp_subscription_request() {
    let (tx, _rx) = watch::channel(0u32);
    let feed = Bitstamp::new("order_book_ethbtc".to_string(), tx);
    assert_eq!(
        feed.subscription_message(),
        r#"{"data":{"channel":"order_book_ethbtc"},"event":"bts:subscribe"}"#
    );
    let (tx, _rx) = watch::channel(0u32);
    let odd = Bitstamp::new("a\"b".to_string(), tx);
    assert_eq!(
        odd.subscription_message(),
        r#"{"data":{"channel":"a\"b"},"event":"bts:subscribe"}"#
    );
    let (tx, _rx) = watch::channel(0u32);
    let control = Bitstamp::new("a\nb\u{1}\\c\u{1f}\t".to_string(), tx);
    assert_eq!(
        control.subscription_message(),
        r#"{"data":{"channel":"a\nb\u0001\\c\u001f\t"},"event":"bts:subscribe"}"#
    );
    assert_eq!(
        bitstamp::subscription_frame("\"x\""),
        r#"{"data":{"channel":"x"},"event":"bts:subscribe"}"#
    );
}

#[test]
fn bitstamp_subscription_answer() {
    let (tx, _rx) = watch::channel(0u32);
    let feed = Bitstamp::new("order_book_btcusd".to_string(), tx);
    assert!(feed.check_subscription("bts:subscription_succeeded").is_ok());
    match feed.check_subscription("bts:error") {
        Err(SubscriptionError::Refused { channel }) => assert_eq!(channel, "order_book_btcusd"),
        other => panic!("unexpected {other:?}"),
    }
}

#[test]
fn snapshots_become_books() {
    let update = binance::OrderBookUpdate {
        last_update_id: 7,
        bids: vec![[1.0f64.to_bits(), 2.0f64.to_bits()]],
        asks: vec![[3.0f64.to_bits(), 4.0f64.to_bits()]],
    };
    let book: OrderBook = OrderBook::try_from(update.clone()).unwrap();
    assert_eq!(book.exchnage, Exchange::Binance);
    assert_eq!(book.bids, update.bids);
    assert_eq!(book.asks, update.asks);

    let event = Event::new(bitstamp::OrderBookUpdate {
        timestamp: "1700000000".to_string(),
        microtimestamp: 1_700_000_000_000_000,
        bids: vec![],
        asks: vec![[5.0f64.to_bits(), 6.0f64.to_bits()]],
    });
    let data = event.into_data();
    assert_eq!(data.microtimestamp, 1_700_000_000_000_000);
    let book = OrderBook::from_bitstamp(data);
    assert_eq!(book.exchnage, Exchange::Bitstamp);
    assert!(book.bids.is_empty());
    assert_eq!(book.asks, vec![[5.0f64.to_bits(), 6.0f64.to_bits()]]);

    let empty = OrderBook::default();
    assert_eq!(empty.exchnage, Exchange::Binance);
    assert!(empty.bids.is_empty() && empty.asks.is_empty());
}

#[test]
fn delivery_outcomes_are_recorded() {
    let (tx, _rx) = watch::channel(0u32);
    let mut feed = Binance::new(tx);
    assert_eq!(feed.record_delivery(4, true), Ok(()));
    assert_eq!(feed.last_update_id(), Some(4));
    assert_eq!(feed.record_delivery(9, false), Err(FeedError::ChannelClosed));
    assert_eq!(feed.last_update_id(), Some(4));

    let (tx, _rx) = watch::channel(0u32);
    let mut feed = Bitstamp::new("c".to_string(), tx);
    assert_eq!(feed.record_delivery(8, false), Err(FeedError::ChannelClosed));
    assert_eq!(feed.last_timestamp(), None);
    assert_eq!(feed.record_delivery(8, true), Ok(()));
    assert_eq!(feed.last_timestamp(), Some(8));
}
