//! The exchange feeds, and the channel through which each hands its
//! snapshots to the merged book.
pub mod binance;
pub mod bitstamp;

use vstd::prelude::*;

verus! {

#[verifier::external_type_specification]
#[verifier::external_body]
#[verifier::reject_recursive_types(T)]
pub struct ExWatchSender<T>(tokio::sync::watch::Sender<T>);

#[verifier::external_type_specification]
#[verifier::external_body]
#[verifier::reject_recursive_types(T)]
pub struct ExWatchSendError<T>(tokio::sync::watch::error::SendError<T>);

/// The channel through which a feed hands its snapshots on to the merged
/// book, with the log of what it handed on.
#[verifier::reject_recursive_types(D)]
pub struct Handover<D> {
    tx: tokio::sync::watch::Sender<D>,
    log: Ghost<Seq<(u64, D)>>,
}

impl<D> Handover<D> {
    /// The snapshots that the channel accepted so far, each with the stamp it
    /// was handed on under, in the order they were handed on.
    pub closed spec fn handed(&self) -> Seq<(u64, D)> {
        self.log@
    }

    /// The channel `tx`, nothing handed on through it yet.
    pub fn new(tx: tokio::sync::watch::Sender<D>) -> (handover: Self)
        ensures
            handover.handed() == Seq::<(u64, D)>::empty(),
    {
        Handover { tx, log: Ghost(Seq::empty()) }
    }

    /// `tokio::sync::watch::Sender::send`: fails, handing the value back, when
    /// no receiver is left, and otherwise makes the value the one the
    /// receivers see. The log records what the channel accepted: on success
    /// the value is appended under `stamp`, on failure the log is as it was.
    /// Whether a receiver is left depends on other tasks, so which outcome
    /// comes is not stated.
    #[verifier::external_body]
    pub(crate) fn send(&mut self, stamp: u64, value: D) -> (res: Result<
        (),
        tokio::sync::watch::error::SendError<D>,
    >)
        ensures
            res is Ok ==> final(self).handed() == old(self).handed().push((stamp, value)),
            res is Err ==> final(self).handed() == old(self).handed(),
    {
        self.tx.send(value)
    }
}

/// The stamps of a log of handed-on snapshots strictly increase, and none is
/// newer than the feed's last stamp `last`.
pub open spec fn log_in_order<D>(log: Seq<(u64, D)>, last: Option<u64>) -> bool {
    &&& forall|i: int, j: int| 0 <= i < j < log.len() ==> #[trigger] log[i].0 < #[trigger] log[j].0
    &&& forall|i: int| 0 <= i < log.len() ==> !is_newer(last, #[trigger] log[i].0)
}

/// Appending a snapshot newer than the last stamp, and making its stamp the
/// last one, keeps a log in order.
pub proof fn lemma_push_in_order<D>(log: Seq<(u64, D)>, last: Option<u64>, stamp: u64, value: D)
    requires
        log_in_order(log, last),
        is_newer(last, stamp),
    ensures
        log_in_order(log.push((stamp, value)), Some(stamp)),
{
    let l2 = log.push((stamp, value));
    assert forall|i: int, j: int| 0 <= i < j < l2.len() implies #[trigger] l2[i].0 < #[trigger] l2[j].0 by {
        if j < log.len() {
            assert(l2[i] == log[i] && l2[j] == log[j]);
        } else {
            assert(l2[i] == log[i]);
            assert(!is_newer(last, log[i].0));
        }
    }
    assert forall|i: int| 0 <= i < l2.len() implies !is_newer(Some(stamp), #[trigger] l2[i].0) by {
        if i < log.len() {
            assert(l2[i] == log[i]);
            assert(!is_newer(last, log[i].0));
        }
    }
}

/// A lower-case hexadecimal digit.
pub open spec fn hex_digit(n: int) -> char {
    if n < 10 {
        (n + 48) as char
    } else {
        (n + 87) as char
    }
}

/// How `serde_json` writes one character inside a string literal: `"` and
/// `\` behind a backslash, the usual short escapes for backspace, tab, line
/// feed, form feed and carriage return, any other control character below
/// U+0020 as `\u00XX` in lower-case hex, every other character as itself.
pub open spec fn json_escape_char(c: char) -> Seq<char> {
    if c == '"' {
        seq!['\\', '"']
    } else if c == '\\' {
        seq!['\\', '\\']
    } else if c == '\x08' {
        seq!['\\', 'b']
    } else if c == '\t' {
        seq!['\\', 't']
    } else if c == '\n' {
        seq!['\\', 'n']
    } else if c == '\x0C' {
        seq!['\\', 'f']
    } else if c == '\r' {
        seq!['\\', 'r']
    } else if (c as int) < 0x20 {
        seq!['\\', 'u', '0', '0', hex_digit((c as int) / 16), hex_digit((c as int) % 16)]
    } else {
        seq![c]
    }
}

/// The characters of a text, each escaped as in a JSON string literal.
pub open spec fn json_escape(text: Seq<char>) -> Seq<char>
    decreases text.len(),
{
    if text.len() == 0 {
        Seq::empty()
    } else {
        json_escape(text.drop_last()) + json_escape_char(text.last())
    }
}

/// The JSON string literal of a text, as `serde_json` writes it: the escaped
/// text between double quotes.
pub open spec fn json_string_literal(text: Seq<char>) -> Seq<char> {
    seq!['"'] + json_escape(text) + seq!['"']
}

/// `serde_json::to_string` on a string, its error dropped. Serialising a
/// string into the `Vec` that `to_string` writes to has no error path, so the
/// result is always there: the string's JSON literal.
#[verifier::external_body]
pub(crate) fn json_to_string(text: &str) -> (res: Option<String>)
    ensures
        res is Some,
        res matches Some(literal) ==> literal@ == json_string_literal(text@),
{
    serde_json::to_string(text).ok()
}

/// Why a feed could not hand a snapshot on.
#[derive(Debug, Clone, Copy, PartialEq, Eq, Structural)]
pub enum FeedError {
    /// Every receiver of the feed's channel is gone.
    ChannelClosed,
}

/// Whether an update stamped `stamp` is newer than the last one handed on:
/// true when none was handed on yet.
pub open spec fn is_newer(last: Option<u64>, stamp: u64) -> bool {
    match last {
        Some(seen) => seen < stamp,
        None => true,
    }
}

/// Whether an update stamped `stamp` is newer than the last one handed on.
pub fn newer_than(last: Option<u64>, stamp: u64) -> (newer: bool)
    ensures
        newer == is_newer(last, stamp),
{
    match last {
        Some(seen) => seen < stamp,
        None => true,
    }
}

} // verus!
