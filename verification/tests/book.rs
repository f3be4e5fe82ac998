use order_book_stream::book::BookSide;
use order_book_stream::grpc_server::create_summary;
use order_book_stream::order_book_stream::{CombinedBook, MAX_DEPTH};
use order_book_stream::price::{is_positive_quantity, price_key};
use order_book_stream::types::{Exchange, OrderBook};

fn lvl(price: f64, qty: f64) -> [u64; 2] {
    [price.to_bits(), qty.to_bits()]
}

fn key(p: f64) -> u64 {
    price_key(p.to_bits())
}

#[test]
fn price_keys_follow_price_order() {
    assert!(key(f64::NEG_INFINITY) < key(-2.5));
    assert!(key(-2.5) < key(-1.0));
    assert!(key(-1.0) < key(-0.0));
    assert_eq!(key(-0.0), key(0.0));
    assert!(key(0.0) < key(f64::MIN_POSITIVE));
    assert!(key(1.0) < key(1.5));
    assert!(key(1.5) < key(f64::INFINITY));
    assert!(key(f64::INFINITY) < key(f64::NAN));
    assert_eq!(key(f64::NAN), key(-f64::NAN));
    assert_eq!(key(0.0), 0x8000_0000_0000_0000);
    assert_eq!(key(1.0), 0x8000_0000_0000_0000 + 1.0f64.to_bits());
    assert_eq!(key(-1.0), !(-1.0f64).to_bits());
}

#[test]
fn positive_quantities() {
    assert!(is_positive_quantity(0.5f64.to_bits()));
    assert!(is_positive_quantity(f64::INFINITY.to_bits()));
    assert!(is_positive_quantity(f64::MIN_POSITIVE.to_bits()));
    assert!(!is_positive_quantity(0.0f64.to_bits()));
    assert!(!is_positive_quantity((-0.0f64).to_bits()));
    assert!(!is_positive_quantity((-3.0f64).to_bits()));
    assert!(!is_positive_quantity(f64::NAN.to_bits()));
}

#[test]
fn side_keeps_levels_sorted_and_updates_in_place() {
    let mut side = BookSide::new();
    side.apply_level(Exchange::Bitstamp, lvl(2.0, 1.0));
    side.apply_level(Exchange::Binance, lvl(3.0, 1.0));
    side.apply_level(Exchange::Binance, lvl(2.0, 4.0));
    side.apply_level(Exchange::Binance, lvl(1.0, 5.0));
    assert_eq!(side.len(), 4);
    let order: Vec<(f64, Exchange)> = (0..4)
        .map(|i| (f64::from_bits(side.get(i).price), side.get(i).exchange))
        .collect();
    assert_eq!(
        order,
        vec![
            (1.0, Exchange::Binance),
            (2.0, Exchange::Binance),
            (2.0, Exchange::Bitstamp),
            (3.0, Exchange::Binance),
        ]
    );
    // a later level at the same price and exchange replaces the quantity
    side.apply_level(Exchange::Binance, lvl(2.0, 7.0));
    assert_eq!(side.len(), 4);
    assert_eq!(f64::from_bits(side.get(1).quantity), 7.0);
    // a zero quantity removes the level of that exchange only
    side.apply_level(Exchange::Binance, lvl(2.0, 0.0));
    assert_eq!(side.len(), 3);
    assert_eq!(side.get(1).exchange, Exchange::Bitstamp);
    // removing a level that is not there changes nothing
    side.apply_level(Exchange::Binance, lvl(9.0, 0.0));
    assert_eq!(side.len(), 3);
}

#[test]
fn side_pops_lowest_and_highest() {
    let mut side = BookSide::new();
    assert!(side.pop_first().is_none());
    assert!(side.pop_last().is_none());
    side.apply_levels(Exchange::Binance, &vec![lvl(5.0, 1.0), lvl(3.0, 1.0), lvl(4.0, 1.0)]);
    assert_eq!(f64::from_bits(side.pop_first().unwrap().price), 3.0);
    assert_eq!(f64::from_bits(side.pop_last().unwrap().price), 5.0);
    assert_eq!(side.len(), 1);
    assert_eq!(f64::from_bits(side.first().unwrap().price), 4.0);
    assert_eq!(f64::from_bits(side.last().unwrap().price), 4.0);
}

#[test]
fn last_level_of_a_snapshot_wins() {
    let mut side = BookSide::new();
    side.apply_levels(
        Exchange::Binance,
        &vec![lvl(1.0, 2.0), lvl(1.0, 3.0), lvl(2.0, 1.0), lvl(2.0, 0.0)],
    );
    assert_eq!(side.len(), 1);
    assert_eq!(f64::from_bits(side.get(0).quantity), 3.0);
}

#[test]
fn negative_zero_price_is_zero_price() {
    let mut side = BookSide::new();
    side.apply_level(Exchange::Binance, lvl(0.0, 1.0));
    side.apply_level(Exchange::Binance, lvl(-0.0, 2.0));
    assert_eq!(side.len(), 1);
    // the stored price stays the one first seen, only the quantity changes
    assert_eq!(side.get(0).price, 0.0f64.to_bits());
    assert_eq!(f64::from_bits(side.get(0).quantity), 2.0);
}

fn book(exchange: Exchange, bids: Vec<[u64; 2]>, asks: Vec<[u64; 2]>) -> OrderBook {
    let mut b = OrderBook::default();
    b.exchnage = exchange;
    b.bids = bids;
    b.asks = asks;
    b
}

#[test]
fn update_keeps_the_best_levels_of_each_side() {
    let mut combined = CombinedBook::new();
    let asks: Vec<[u64; 2]> = (1..=12).map(|p| lvl(100.0 + p as f64, 1.0)).collect();
    let bids: Vec<[u64; 2]> = (1..=12).map(|p| lvl(100.0 - p as f64, 1.0)).collect();
    combined.apply_update(book(Exchange::Binance, bids, asks));
    assert_eq!(combined.depths(), (MAX_DEPTH, MAX_DEPTH));
    assert_eq!(combined.best_ask().map(f64::from_bits), Some(101.0));
    assert_eq!(combined.best_bid().map(f64::from_bits), Some(99.0));

    let summary = combined.summary(2.0f64.to_bits());
    assert_eq!(summary.asks.len(), 10);
    assert_eq!(summary.bids.len(), 10);
    let ask_prices: Vec<f64> = summary.asks.iter().map(|l| f64::from_bits(l.price)).collect();
    let bid_prices: Vec<f64> = summary.bids.iter().map(|l| f64::from_bits(l.price)).collect();
    assert_eq!(ask_prices, (1..=10).map(|p| 100.0 + p as f64).collect::<Vec<_>>());
    assert_eq!(bid_prices, (1..=10).map(|p| 100.0 - p as f64).collect::<Vec<_>>());
    assert_eq!(f64::from_bits(summary.spread), 2.0);
    assert!(summary.asks.iter().all(|l| l.exchange == "binance"));
}

#[test]
fn update_of_one_exchange_keeps_the_other() {
    let mut combined = CombinedBook::new();
    combined.apply_update(book(Exchange::Binance, vec![lvl(10.0, 1.0)], vec![lvl(11.0, 1.0)]));
    combined.apply_update(book(Exchange::Bitstamp, vec![lvl(10.5, 2.0)], vec![lvl(10.8, 2.0)]));
    // Bitstamp withdraws its levels; Binance's stay
    combined.apply_update(book(Exchange::Bitstamp, vec![lvl(10.5, 0.0)], vec![lvl(10.8, 0.0)]));
    assert_eq!(combined.depths(), (1, 1));
    assert_eq!(combined.best_bid().map(f64::from_bits), Some(10.0));
    assert_eq!(combined.best_ask().map(f64::from_bits), Some(11.0));
}

#[test]
fn empty_book_has_no_best_levels() {
    let combined = CombinedBook::new();
    assert_eq!(combined.best_bid(), None);
    assert_eq!(combined.best_ask(), None);
    let summary = combined.summary(0.0f64.to_bits());
    assert!(summary.bids.is_empty() && summary.asks.is_empty());
}

#[test]
fn every_tenth_summary_is_reported() {
    let mut combined = CombinedBook::new();
    let reports: Vec<bool> = (0..20).map(|_| combined.record_broadcast()).collect();
    assert_eq!(combined.update_count(), 20);
    let reported: Vec<usize> = reports.iter().enumerate().filter(|(_, r)| **r).map(|(i, _)| i + 1).collect();
    assert_eq!(reported, vec![10, 20]);
}

#[test]
fn summary_lists_bids_from_the_highest_and_caps_levels() {
    let mut bids = BookSide::new();
    let mut asks = BookSide::new();
    bids.apply_levels(Exchange::Bitstamp, &vec![lvl(1.0, 1.0), lvl(2.0, 2.0), lvl(3.0, 3.0)]);
    asks.apply_levels(Exchange::Binance, &vec![lvl(5.0, 1.5), lvl(4.0, 2.5)]);
    let summary = create_summary(1.0f64.to_bits(), &bids, &asks, 2);
    let bid: Vec<(String, f64, f64)> = summary
        .bids
        .iter()
        .map(|l| (l.exchange.clone(), f64::from_bits(l.price), f64::from_bits(l.amount)))
        .collect();
    assert_eq!(bid, vec![("bitstamp".to_string(), 3.0, 3.0), ("bitstamp".to_string(), 2.0, 2.0)]);
    let ask: Vec<(String, f64, f64)> = summary
        .asks
        .iter()
        .map(|l| (l.exchange.clone(), f64::from_bits(l.price), f64::from_bits(l.amount)))
        .collect();
    assert_eq!(ask, vec![("binance".to_string(), 4.0, 2.5), ("binance".to_string(), 5.0, 1.5)]);
}

#[test]
fn exchange_names() {
    assert_eq!(Exchange::Binance.to_string(), "binance");
    assert_eq!(Exchange::Bitstamp.to_string(), "bitstamp");
    assert!(Exchange::Binance.precedes(&Exchange::Bitstamp));
    assert!(!Exchange::Bitstamp.precedes(&Exchange::Binance));
    assert!(!Exchange::Binance.precedes(&Exchange::Binance));
    assert_eq!(Exchange::default(), Exchange::Binance);
    assert!(Exchange::Binance < Exchange::Bitstamp);
}

#[test]
fn summaries_grow_by_prefix_with_the_level_limit() {
    let mut bids = BookSide::new();
    let mut asks = BookSide::new();
    bids.apply_levels(Exchange::Binance, &vec![lvl(1.0, 1.0), lvl(2.0, 1.0), lvl(3.0, 1.0)]);
    asks.apply_levels(Exchange::Bitstamp, &vec![lvl(4.0, 1.0), lvl(5.0, 1.0), lvl(6.0, 1.0)]);
    let prices = |v: &Vec<order_book_stream::grpc_server::Level>| {
        v.iter().map(|l| f64::from_bits(l.price)).collect::<Vec<f64>>()
    };
    let mut previous: Option<(Vec<f64>, Vec<f64>)> = None;
    for m in 0..6 {
        let s = create_summary(0, &bids, &asks, m);
        let (b, a) = (prices(&s.bids), prices(&s.asks));
        if let Some((pb, pa)) = &previous {
            assert_eq!(&b[..pb.len()], &pb[..]);
            assert_eq!(&a[..pa.len()], &pa[..]);
        }
        if m >= 3 {
            assert_eq!(b, vec![3.0, 2.0, 1.0]);
            assert_eq!(a, vec![4.0, 5.0, 6.0]);
        }
        previous = Some((b, a));
    }
}
