//! The data that flows from the exchange feeds into the merged book.
use vstd::prelude::*;

verus! {

#[verifier::external_type_specification]
#[verifier::external_body]
pub struct ExSystemTime(std::time::SystemTime);

/// `std::time::SystemTime::now`. The result is the clock's reading, so
/// nothing is stated of it.
#[verifier::external_body]
fn system_time_now() -> std::time::SystemTime {
    std::time::SystemTime::now()
}

/// `Clone::clone` of `std::time::SystemTime`, a `Copy` type: the clone is the
/// same instant.
pub assume_specification[ <std::time::SystemTime as Clone>::clone ](
    t: &std::time::SystemTime,
) -> (r: std::time::SystemTime)
    ensures
        r == *t,
;

/// A depth snapshot from one exchange. Prices and quantities are the bit
/// patterns of their `f64` values, each level `[price, quantity]`.
#[derive(Clone, Debug)]
pub struct OrderBook {
    pub exchnage: Exchange,
    pub bids: Vec<[u64; 2]>,
    pub asks: Vec<[u64; 2]>,
    pub received_at: std::time::SystemTime,
}

impl Default for OrderBook {
    fn default() -> (book: Self)
        ensures
            book.exchnage == Exchange::Binance,
            book.bids@.len() == 0,
            book.asks@.len() == 0,
    {
        OrderBook {
            exchnage: Exchange::Binance,
            bids: Vec::new(),
            asks: Vec::new(),
            received_at: system_time_now(),
        }
    }
}

/// The exchanges whose books are merged.
#[derive(Clone, Copy, Debug, Default, PartialEq, Eq, Structural, PartialOrd, Ord)]
pub enum Exchange {
    #[default]
    Binance,
    Bitstamp,
}

/// The name under which an exchange is reported.
pub open spec fn exchange_name(exchange: Exchange) -> Seq<char> {
    match exchange {
        Exchange::Binance => seq!['b', 'i', 'n', 'a', 'n', 'c', 'e'],
        Exchange::Bitstamp => seq!['b', 'i', 't', 's', 't', 'a', 'm', 'p'],
    }
}

/// The position of an exchange in the order of exchanges: Binance first.
pub open spec fn exchange_rank(exchange: Exchange) -> int {
    match exchange {
        Exchange::Binance => 0,
        Exchange::Bitstamp => 1,
    }
}

impl Exchange {
    /// The exchange's name in lower case, as shown to clients.
    pub fn to_string(&self) -> (name: String)
        ensures
            name@ == exchange_name(*self),
    {
        match self {
            Exchange::Binance => {
                let name = String::from_str("binance");
                proof {
                    reveal_strlit("binance");
                }
                name
            },
            Exchange::Bitstamp => {
                let name = String::from_str("bitstamp");
                proof {
                    reveal_strlit("bitstamp");
                }
                name
            },
        }
    }

    /// Whether this exchange comes before `other` in the order of exchanges.
    pub fn precedes(&self, other: &Exchange) -> (before: bool)
        ensures
            before == (exchange_rank(*self) < exchange_rank(*other)),
    {
        match (self, other) {
            (Exchange::Binance, Exchange::Bitstamp) => true,
            _ => false,
        }
    }
}

} // verus!
