//! One side of the merged book: levels kept in increasing order of
//! (price, exchange), each with a positive quantity.
use vstd::prelude::*;
use crate::price::{is_positive_bits, price_key, price_key_spec, is_positive_quantity};
use crate::types::{Exchange, exchange_rank};

verus! {

/// A price level of one exchange. `price_key` orders the level (see
/// `price::price_key`); `price` and `quantity` are `f64` bit patterns.
#[derive(Clone, Copy, Debug, PartialEq, Eq, Structural)]
pub struct BookLevel {
    pub price_key: u64,
    pub exchange: Exchange,
    pub price: u64,
    pub quantity: u64,
}

/// The order of keys: by price key, then by exchange.
pub open spec fn key_lt(p1: u64, e1: Exchange, p2: u64, e2: Exchange) -> bool {
    p1 < p2 || (p1 == p2 && exchange_rank(e1) < exchange_rank(e2))
}

pub open spec fn level_lt(a: BookLevel, b: BookLevel) -> bool {
    key_lt(a.price_key, a.exchange, b.price_key, b.exchange)
}

/// Levels in strictly increasing key order.
pub open spec fn sorted(s: Seq<BookLevel>) -> bool {
    forall|i: int, j: int| 0 <= i < j < s.len() ==> level_lt(#[trigger] s[i], #[trigger] s[j])
}

/// Every level holds a positive quantity.
pub open spec fn all_positive(s: Seq<BookLevel>) -> bool {
    forall|i: int| 0 <= i < s.len() ==> is_positive_bits(#[trigger] s[i].quantity)
}

/// A well-formed side: sorted, with positive quantities.
pub open spec fn side_wf(s: Seq<BookLevel>) -> bool {
    sorted(s) && all_positive(s)
}

/// `i` is where the key `(pk, ex)` stands or would be inserted.
pub open spec fn is_lower_bound(s: Seq<BookLevel>, pk: u64, ex: Exchange, i: int) -> bool {
    &&& 0 <= i <= s.len()
    &&& forall|j: int| 0 <= j < i ==> key_lt(#[trigger] s[j].price_key, s[j].exchange, pk, ex)
    &&& forall|j: int|
        i <= j < s.len() ==> !key_lt(#[trigger] s[j].price_key, s[j].exchange, pk, ex)
}

pub open spec fn lower_bound(s: Seq<BookLevel>, pk: u64, ex: Exchange) -> int {
    choose|i: int| is_lower_bound(s, pk, ex, i)
}

/// The level at `i` has the key `(pk, ex)`.
pub open spec fn has_key_at(s: Seq<BookLevel>, i: int, pk: u64, ex: Exchange) -> bool {
    0 <= i < s.len() && s[i].price_key == pk && s[i].exchange == ex
}

/// Sets the quantity of the level with key `(pk, ex)`, keeping its price,
/// or adds the level in its place in the order.
pub open spec fn upsert_spec(
    s: Seq<BookLevel>,
    pk: u64,
    ex: Exchange,
    price: u64,
    quantity: u64,
) -> Seq<BookLevel> {
    let i = lower_bound(s, pk, ex);
    if has_key_at(s, i, pk, ex) {
        s.update(i, BookLevel { quantity, ..s[i] })
    } else {
        s.insert(i, BookLevel { price_key: pk, exchange: ex, price, quantity })
    }
}

/// Removes the level with key `(pk, ex)`, if there is one.
pub open spec fn remove_spec(s: Seq<BookLevel>, pk: u64, ex: Exchange) -> Seq<BookLevel> {
    let i = lower_bound(s, pk, ex);
    if has_key_at(s, i, pk, ex) {
        s.remove(i)
    } else {
        s
    }
}

pub proof fn lemma_lower_bound_unique(s: Seq<BookLevel>, pk: u64, ex: Exchange, i1: int, i2: int)
    requires
        is_lower_bound(s, pk, ex, i1),
        is_lower_bound(s, pk, ex, i2),
    ensures
        i1 == i2,
{
    if i1 < i2 {
        assert(key_lt(s[i1].price_key, s[i1].exchange, pk, ex));
    } else if i2 < i1 {
        assert(key_lt(s[i2].price_key, s[i2].exchange, pk, ex));
    }
}

/// In a sorted side every key has its place.
pub proof fn lemma_lower_bound(s: Seq<BookLevel>, pk: u64, ex: Exchange)
    requires
        sorted(s),
    ensures
        is_lower_bound(s, pk, ex, lower_bound(s, pk, ex)),
    decreases s.len(),
{
    if s.len() == 0 {
        assert(is_lower_bound(s, pk, ex, 0));
    } else {
        let t = s.drop_last();
        assert(sorted(t));
        lemma_lower_bound(t, pk, ex);
        let i = lower_bound(t, pk, ex);
        let last = s[s.len() - 1];
        if key_lt(last.price_key, last.exchange, pk, ex) {
            assert forall|j: int| 0 <= j < s.len() implies key_lt(
                #[trigger] s[j].price_key,
                s[j].exchange,
                pk,
                ex,
            ) by {
                if j < s.len() - 1 {
                    assert(level_lt(s[j], s[s.len() - 1]));
                }
            }
            assert(is_lower_bound(s, pk, ex, s.len() as int));
        } else {
            assert forall|j: int| i <= j < s.len() implies !key_lt(
                #[trigger] s[j].price_key,
                s[j].exchange,
                pk,
                ex,
            ) by {
                if j < s.len() - 1 {
                    assert(t[j] == s[j]);
                }
            }
            assert forall|j: int| 0 <= j < i implies key_lt(
                #[trigger] s[j].price_key,
                s[j].exchange,
                pk,
                ex,
            ) by {
                assert(t[j] == s[j]);
            }
            assert(is_lower_bound(s, pk, ex, i));
        }
    }
}

/// Setting a positive quantity keeps a side well formed.
pub proof fn lemma_upsert_wf(s: Seq<BookLevel>, pk: u64, ex: Exchange, price: u64, quantity: u64)
    requires
        side_wf(s),
        is_positive_bits(quantity),
    ensures
        side_wf(upsert_spec(s, pk, ex, price, quantity)),
{
    lemma_lower_bound(s, pk, ex);
    let i = lower_bound(s, pk, ex);
    let r = upsert_spec(s, pk, ex, price, quantity);
    if has_key_at(s, i, pk, ex) {
        assert forall|a: int, b: int| 0 <= a < b < r.len() implies level_lt(
            #[trigger] r[a],
            #[trigger] r[b],
        ) by {
            assert(level_lt(s[a], s[b]));
        }
        assert forall|a: int| 0 <= a < r.len() implies is_positive_bits(#[trigger] r[a].quantity) by {
            if a != i {
                assert(r[a] == s[a]);
            }
        }
    } else {
        let lvl = BookLevel { price_key: pk, exchange: ex, price, quantity };
        assert(r == s.insert(i, lvl));
        assert forall|a: int, b: int| 0 <= a < b < r.len() implies level_lt(
            #[trigger] r[a],
            #[trigger] r[b],
        ) by {
            if a < i && b > i {
                assert(level_lt(s[a], s[b - 1]));
            } else if a > i {
                assert(level_lt(s[a - 1], s[b - 1]));
            } else if b == i {
            } else if a == i {
                assert(!key_lt(s[b - 1].price_key, s[b - 1].exchange, pk, ex));
                if b - 1 > i {
                    assert(level_lt(s[i], s[b - 1]));
                }
            }
        }
        assert forall|a: int| 0 <= a < r.len() implies is_positive_bits(#[trigger] r[a].quantity) by {
            if a < i {
                assert(r[a] == s[a]);
            } else if a > i {
                assert(r[a] == s[a - 1]);
            }
        }
    }
}

/// Removing a level keeps a side well formed.
pub proof fn lemma_remove_wf(s: Seq<BookLevel>, pk: u64, ex: Exchange)
    requires
        side_wf(s),
    ensures
        side_wf(remove_spec(s, pk, ex)),
{
    lemma_lower_bound(s, pk, ex);
    let i = lower_bound(s, pk, ex);
    let r = remove_spec(s, pk, ex);
    if has_key_at(s, i, pk, ex) {
        assert(r == s.remove(i));
        assert forall|a: int, b: int| 0 <= a < b < r.len() implies level_lt(
            #[trigger] r[a],
            #[trigger] r[b],
        ) by {
            if b < i {
                assert(level_lt(s[a], s[b]));
            } else if a < i {
                assert(level_lt(s[a], s[b + 1]));
            } else {
                assert(level_lt(s[a + 1], s[b + 1]));
            }
        }
        assert forall|a: int| 0 <= a < r.len() implies is_positive_bits(#[trigger] r[a].quantity) by {
            if a < i {
                assert(r[a] == s[a]);
            } else {
                assert(r[a] == s[a + 1]);
            }
        }
    }
}

/// One side of the book.
pub struct BookSide {
    levels: Vec<BookLevel>,
}

impl View for BookSide {
    type V = Seq<BookLevel>;

    closed spec fn view(&self) -> Seq<BookLevel> {
        self.levels@
    }
}

impl BookSide {
    pub open spec fn wf(&self) -> bool {
        side_wf(self@)
    }

    /// An empty side.
    pub fn new() -> (side: BookSide)
        ensures
            side.wf(),
            side@ == Seq::<BookLevel>::empty(),
    {
        BookSide { levels: Vec::new() }
    }

    /// The number of levels.
    pub fn len(&self) -> (n: usize)
        ensures
            n == self@.len(),
    {
        self.levels.len()
    }

    /// The level at position `i`, counted from the lowest key.
    pub fn get(&self, i: usize) -> (level: BookLevel)
        requires
            i < self@.len(),
        ensures
            level == self@[i as int],
    {
        self.levels[i]
    }

    /// The position of the key `(pk, ex)`, or where it would be inserted, and
    /// whether a level with that key is there.
    fn find(&self, pk: u64, ex: Exchange) -> (res: (usize, bool))
        requires
            self.wf(),
        ensures
            is_lower_bound(self@, pk, ex, res.0 as int),
            res.1 == has_key_at(self@, res.0 as int, pk, ex),
    {
        let n = self.levels.len();
        let mut i: usize = 0;
        while i < n
            invariant
                n == self@.len(),
                self.wf(),
                i <= n,
                forall|j: int|
                    0 <= j < i ==> key_lt(#[trigger] self@[j].price_key, self@[j].exchange, pk, ex),
            decreases n - i,
        {
            let lvl = self.levels[i];
            let before = lvl.price_key < pk || (lvl.price_key == pk && lvl.exchange.precedes(&ex));
            if !before {
                assert forall|j: int| i <= j < n implies !key_lt(
                    #[trigger] self@[j].price_key,
                    self@[j].exchange,
                    pk,
                    ex,
                ) by {
                    if j > i {
                        assert(level_lt(self@[i as int], self@[j]));
                    }
                }
                let found = lvl.price_key == pk && lvl.exchange == ex;
                return (i, found);
            }
            i = i + 1;
        }
        (i, false)
    }

    /// Sets the quantity of the level with key `(pk, ex)`, or adds that level.
    pub fn upsert(&mut self, pk: u64, ex: Exchange, price: u64, quantity: u64)
        requires
            old(self).wf(),
            is_positive_bits(quantity),
        ensures
            final(self).wf(),
            final(self)@ == upsert_spec(old(self)@, pk, ex, price, quantity),
    {
        let ghost s = self@;
        let (i, found) = self.find(pk, ex);
        proof {
            lemma_lower_bound(s, pk, ex);
            lemma_lower_bound_unique(s, pk, ex, i as int, lower_bound(s, pk, ex));
        }
        if found {
            let mut lvl = self.levels[i];
            lvl.quantity = quantity;
            self.levels.set(i, lvl);
        } else {
            let lvl = BookLevel { price_key: pk, exchange: ex, price, quantity };
            self.levels.insert(i, lvl);
        }
        proof {
            lemma_upsert_wf(s, pk, ex, price, quantity);
        }
    }

    /// Removes the level with key `(pk, ex)`, if there is one.
    pub fn remove(&mut self, pk: u64, ex: Exchange)
        requires
            old(self).wf(),
        ensures
            final(self).wf(),
            final(self)@ == remove_spec(old(self)@, pk, ex),
    {
        let ghost s = self@;
        let (i, found) = self.find(pk, ex);
        proof {
            lemma_lower_bound(s, pk, ex);
            lemma_lower_bound_unique(s, pk, ex, i as int, lower_bound(s, pk, ex));
        }
        if found {
            self.levels.remove(i);
        }
        proof {
            lemma_remove_wf(s, pk, ex);
        }
    }

    /// Removes and returns the level with the lowest key.
    pub fn pop_first(&mut self) -> (first: Option<BookLevel>)
        requires
            old(self).wf(),
        ensures
            final(self).wf(),
            old(self)@.len() == 0 ==> first is None && final(self)@ == old(self)@,
            old(self)@.len() > 0 ==> first == Some(old(self)@[0]) && final(self)@ == old(
                self,
            )@.drop_first(),
    {
        if self.levels.len() == 0 {
            None
        } else {
            let ghost s = self@;
            let lvl = self.levels.remove(0);
            assert(self@ == s.drop_first());
            assert(sorted(self@)) by {
                assert forall|a: int, b: int| 0 <= a < b < self@.len() implies level_lt(
                    #[trigger] self@[a],
                    #[trigger] self@[b],
                ) by {
                    assert(level_lt(s[a + 1], s[b + 1]));
                }
            }
            assert(all_positive(self@)) by {
                assert forall|a: int| 0 <= a < self@.len() implies is_positive_bits(
                    #[trigger] self@[a].quantity,
                ) by {
                    assert(self@[a] == s[a + 1]);
                }
            }
            Some(lvl)
        }
    }

    /// Removes and returns the level with the highest key.
    pub fn pop_last(&mut self) -> (last: Option<BookLevel>)
        requires
            old(self).wf(),
        ensures
            final(self).wf(),
            old(self)@.len() == 0 ==> last is None && final(self)@ == old(self)@,
            old(self)@.len() > 0 ==> last == Some(old(self)@.last()) && final(self)@ == old(
                self,
            )@.drop_last(),
    {
        let ghost s = self@;
        let lvl = self.levels.pop();
        proof {
            if s.len() > 0 {
                assert(self@ == s.drop_last());
                assert(sorted(self@)) by {
                    assert forall|a: int, b: int| 0 <= a < b < self@.len() implies level_lt(
                        #[trigger] self@[a],
                        #[trigger] self@[b],
                    ) by {
                        assert(level_lt(s[a], s[b]));
                    }
                }
                assert(all_positive(self@)) by {
                    assert forall|a: int| 0 <= a < self@.len() implies is_positive_bits(
                        #[trigger] self@[a].quantity,
                    ) by {
                        assert(self@[a] == s[a]);
                    }
                }
            }
        }
        lvl
    }
}

} // verus!

verus! {

/// One level of a snapshot, `[price, quantity]` as `f64` bit patterns, applied
/// to a side: a positive quantity sets the level of `ex` at that price, any
/// other quantity removes it.
pub open spec fn apply_level(s: Seq<BookLevel>, ex: Exchange, level: [u64; 2]) -> Seq<BookLevel> {
    let pk = price_key_spec(level[0]);
    if is_positive_bits(level[1]) {
        upsert_spec(s, pk, ex, level[0], level[1])
    } else {
        remove_spec(s, pk, ex)
    }
}

/// The levels of a snapshot applied to a side in order.
pub open spec fn apply_levels(s: Seq<BookLevel>, ex: Exchange, levels: Seq<[u64; 2]>) -> Seq<
    BookLevel,
>
    decreases levels.len(),
{
    if levels.len() == 0 {
        s
    } else {
        apply_level(apply_levels(s, ex, levels.drop_last()), ex, levels.last())
    }
}

/// The `n` levels with the lowest keys.
pub open spec fn keep_lowest(s: Seq<BookLevel>, n: nat) -> Seq<BookLevel> {
    if s.len() > n {
        s.take(n as int)
    } else {
        s
    }
}

/// The `n` levels with the highest keys.
pub open spec fn keep_highest(s: Seq<BookLevel>, n: nat) -> Seq<BookLevel> {
    if s.len() > n {
        s.skip(s.len() - n)
    } else {
        s
    }
}

impl BookSide {
    /// Applies one `[price, quantity]` level of exchange `ex`.
    pub fn apply_level(&mut self, ex: Exchange, level: [u64; 2])
        requires
            old(self).wf(),
        ensures
            final(self).wf(),
            final(self)@ == apply_level(old(self)@, ex, level),
    {
        let pk = price_key(level[0]);
        if is_positive_quantity(level[1]) {
            self.upsert(pk, ex, level[0], level[1]);
        } else {
            self.remove(pk, ex);
        }
    }

    /// Applies the levels of a snapshot of exchange `ex` in order.
    pub fn apply_levels(&mut self, ex: Exchange, levels: &Vec<[u64; 2]>)
        requires
            old(self).wf(),
        ensures
            final(self).wf(),
            final(self)@ == apply_levels(old(self)@, ex, levels@),
    {
        let ghost s = self@;
        let n = levels.len();
        let mut i: usize = 0;
        while i < n
            invariant
                n == levels@.len(),
                i <= n,
                self.wf(),
                self@ == apply_levels(s, ex, levels@.take(i as int)),
            decreases n - i,
        {
            let level = levels[i];
            self.apply_level(ex, level);
            proof {
                let t = levels@.take(i + 1);
                assert(t.drop_last() =~= levels@.take(i as int));
                assert(t.last() == level);
            }
            i = i + 1;
        }
        assert(levels@.take(n as int) =~= levels@);
    }

    /// Drops the highest levels until at most `n` are left.
    pub fn keep_lowest(&mut self, n: usize)
        requires
            old(self).wf(),
        ensures
            final(self).wf(),
            final(self)@ == keep_lowest(old(self)@, n as nat),
    {
        let ghost s = self@;
        while self.levels.len() > n
            invariant
                self.wf(),
                self@.len() <= s.len(),
                self@ == s.take(self@.len() as int),
                s.len() > n ==> self@.len() >= n,
                s.len() <= n ==> self@ == s,
            decreases self@.len(),
        {
            self.pop_last();
        }
        assert(s.take(s.len() as int) =~= s);
    }

    /// Drops the lowest levels until at most `n` are left.
    pub fn keep_highest(&mut self, n: usize)
        requires
            old(self).wf(),
        ensures
            final(self).wf(),
            final(self)@ == keep_highest(old(self)@, n as nat),
    {
        let ghost s = self@;
        assert(s.skip(0) =~= s);
        while self.levels.len() > n
            invariant
                self.wf(),
                self@.len() <= s.len(),
                self@ == s.skip(s.len() - self@.len()),
                s.len() > n ==> self@.len() >= n,
                s.len() <= n ==> self@ == s,
            decreases self@.len(),
        {
            self.pop_first();
            assert(self@ =~= s.skip(s.len() - self@.len()));
        }
    }

    /// The level with the lowest key, if any.
    pub fn first(&self) -> (first: Option<BookLevel>)
        ensures
            self@.len() == 0 ==> first is None,
            self@.len() > 0 ==> first == Some(self@[0]),
    {
        if self.levels.len() == 0 {
            None
        } else {
            Some(self.levels[0])
        }
    }

    /// The level with the highest key, if any.
    pub fn last(&self) -> (last: Option<BookLevel>)
        ensures
            self@.len() == 0 ==> last is None,
            self@.len() > 0 ==> last == Some(self@.last()),
    {
        let n = self.levels.len();
        if n == 0 {
            None
        } else {
            Some(self.levels[n - 1])
        }
    }
}

} // verus!

verus! {

/// The quantity that a side holds for exchange `ex` at price key `pk`, if it
/// has that level.
pub open spec fn quantity_at(s: Seq<BookLevel>, pk: u64, ex: Exchange) -> Option<u64> {
    if exists|i: int| has_key_at(s, i, pk, ex) {
        Some(s[choose|i: int| has_key_at(s, i, pk, ex)].quantity)
    } else {
        None
    }
}

/// In a sorted side a key stands at one position at most.
pub proof fn lemma_key_position_unique(s: Seq<BookLevel>, pk: u64, ex: Exchange, i: int, j: int)
    requires
        sorted(s),
        has_key_at(s, i, pk, ex),
        has_key_at(s, j, pk, ex),
    ensures
        i == j,
{
    if i < j {
        assert(level_lt(s[i], s[j]));
    } else if j < i {
        assert(level_lt(s[j], s[i]));
    }
}

pub proof fn lemma_quantity_at_index(s: Seq<BookLevel>, pk: u64, ex: Exchange, i: int)
    requires
        sorted(s),
        has_key_at(s, i, pk, ex),
    ensures
        quantity_at(s, pk, ex) == Some(s[i].quantity),
{
    let c = choose|c: int| has_key_at(s, c, pk, ex);
    lemma_key_position_unique(s, pk, ex, i, c);
}

proof fn lemma_quantity_at_none(s: Seq<BookLevel>, pk: u64, ex: Exchange)
    requires
        forall|i: int| !has_key_at(s, i, pk, ex),
    ensures
        quantity_at(s, pk, ex) is None,
{
}

/// Applying a level keeps a side well formed.
pub proof fn lemma_apply_level_wf(s: Seq<BookLevel>, ex: Exchange, level: [u64; 2])
    requires
        side_wf(s),
    ensures
        side_wf(apply_level(s, ex, level)),
{
    let pk = price_key_spec(level[0]);
    if is_positive_bits(level[1]) {
        lemma_upsert_wf(s, pk, ex, level[0], level[1]);
    } else {
        lemma_remove_wf(s, pk, ex);
    }
}

/// Applying a snapshot keeps a side well formed.
pub proof fn lemma_apply_levels_wf(s: Seq<BookLevel>, ex: Exchange, levels: Seq<[u64; 2]>)
    requires
        side_wf(s),
    ensures
        side_wf(apply_levels(s, ex, levels)),
    decreases levels.len(),
{
    if levels.len() > 0 {
        lemma_apply_levels_wf(s, ex, levels.drop_last());
        lemma_apply_level_wf(apply_levels(s, ex, levels.drop_last()), ex, levels.last());
    }
}

/// A read gives back the last write: after a level is applied, the side holds
/// its quantity at its price if the quantity is positive and nothing there
/// otherwise, and every other (price, exchange) keeps what it held.
pub proof fn lemma_apply_level_read_back(s: Seq<BookLevel>, ex: Exchange, level: [u64; 2])
    requires
        side_wf(s),
    ensures
        quantity_at(apply_level(s, ex, level), price_key_spec(level[0]), ex) == (if is_positive_bits(
            level[1],
        ) {
            Some(level[1])
        } else {
            None
        }),
        forall|pk: u64, e: Exchange|
            !(pk == price_key_spec(level[0]) && e == ex) ==> #[trigger] quantity_at(
                apply_level(s, ex, level),
                pk,
                e,
            ) == quantity_at(s, pk, e),
{
    let k = price_key_spec(level[0]);
    let q = level[1];
    let r = apply_level(s, ex, level);
    lemma_apply_level_wf(s, ex, level);
    lemma_lower_bound(s, k, ex);
    let i = lower_bound(s, k, ex);
    let found = has_key_at(s, i, k, ex);
    // A key that is not at the lower bound is nowhere in `s`.
    if !found {
        assert forall|j: int| !has_key_at(s, j, k, ex) by {
            if has_key_at(s, j, k, ex) && j > i {
                assert(level_lt(s[i], s[j]));
            }
        }
    }
    if is_positive_bits(q) {
        lemma_quantity_at_index(r, k, ex, i);
    } else if found {
        assert(r == s.remove(i));
        assert forall|j: int| !has_key_at(r, j, k, ex) by {
            if has_key_at(r, j, k, ex) {
                if j < i {
                    assert(r[j] == s[j]);
                    lemma_key_position_unique(s, k, ex, i, j);
                } else {
                    assert(r[j] == s[j + 1]);
                    lemma_key_position_unique(s, k, ex, i, j + 1);
                }
            }
        }
    } else {
        assert(r == s);
    }
    assert forall|pk: u64, e: Exchange|
        !(pk == k && e == ex) implies #[trigger] quantity_at(r, pk, e) == quantity_at(s, pk, e) by {
        if is_positive_bits(q) && found {
            if exists|j: int| has_key_at(s, j, pk, e) {
                let j = choose|j: int| has_key_at(s, j, pk, e);
                assert(r[j] == s[j]);
                lemma_quantity_at_index(s, pk, e, j);
                lemma_quantity_at_index(r, pk, e, j);
            } else {
                assert forall|j: int| !has_key_at(r, j, pk, e) by {
                    assert(!has_key_at(s, j, pk, e));
                    if 0 <= j < r.len() && j != i {
                        assert(r[j] == s[j]);
                    }
                }
            }
        } else if is_positive_bits(q) {
            let lvl = BookLevel { price_key: k, exchange: ex, price: level[0], quantity: q };
            assert(r == s.insert(i, lvl));
            if exists|j: int| has_key_at(s, j, pk, e) {
                let j = choose|j: int| has_key_at(s, j, pk, e);
                lemma_quantity_at_index(s, pk, e, j);
                if j < i {
                    assert(r[j] == s[j]);
                    lemma_quantity_at_index(r, pk, e, j);
                } else {
                    assert(r[j + 1] == s[j]);
                    lemma_quantity_at_index(r, pk, e, j + 1);
                }
            } else {
                assert forall|j: int| !has_key_at(r, j, pk, e) by {
                    if 0 <= j < i {
                        assert(!has_key_at(s, j, pk, e));
                        assert(r[j] == s[j]);
                    } else if i < j < r.len() {
                        assert(!has_key_at(s, j - 1, pk, e));
                        assert(r[j] == s[j - 1]);
                    } else if j == i {
                        assert(r[j] == lvl);
                    }
                }
            }
        } else if found {
            assert(r == s.remove(i));
            if exists|j: int| has_key_at(s, j, pk, e) {
                let j = choose|j: int| has_key_at(s, j, pk, e);
                lemma_quantity_at_index(s, pk, e, j);
                if j < i {
                    assert(r[j] == s[j]);
                    lemma_quantity_at_index(r, pk, e, j);
                } else {
                    assert(j != i);
                    assert(r[j - 1] == s[j]);
                    lemma_quantity_at_index(r, pk, e, j - 1);
                }
            } else {
                assert forall|j: int| !has_key_at(r, j, pk, e) by {
                    if 0 <= j < i {
                        assert(!has_key_at(s, j, pk, e));
                        assert(r[j] == s[j]);
                    } else if i <= j < r.len() {
                        assert(!has_key_at(s, j + 1, pk, e));
                        assert(r[j] == s[j + 1]);
                    }
                }
            }
        }
    }
}

/// The price key of a `[price, quantity]` level.
pub open spec fn level_key(level: [u64; 2]) -> u64 {
    price_key_spec(level[0])
}

/// What a level leaves at its price: its quantity if positive, else nothing.
pub open spec fn level_outcome(level: [u64; 2]) -> Option<u64> {
    if is_positive_bits(level[1]) {
        Some(level[1])
    } else {
        None
    }
}

/// `j` is the last level of the snapshot at price key `pk`.
pub open spec fn is_last_at(levels: Seq<[u64; 2]>, pk: u64, j: int) -> bool {
    &&& 0 <= j < levels.len()
    &&& level_key(levels[j]) == pk
    &&& forall|m: int| j < m < levels.len() ==> level_key(#[trigger] levels[m]) != pk
}

/// A snapshot decides a price by the last level it gives there.
pub proof fn lemma_apply_levels_last_write_wins(
    s: Seq<BookLevel>,
    ex: Exchange,
    levels: Seq<[u64; 2]>,
    pk: u64,
    j: int,
)
    requires
        side_wf(s),
        is_last_at(levels, pk, j),
    ensures
        quantity_at(apply_levels(s, ex, levels), pk, ex) == level_outcome(levels[j]),
    decreases levels.len(),
{
    let init = levels.drop_last();
    let last = levels.last();
    let prev = apply_levels(s, ex, init);
    lemma_apply_levels_wf(s, ex, init);
    lemma_apply_level_read_back(prev, ex, last);
    if j == levels.len() - 1 {
    } else {
        assert(level_key(levels[levels.len() - 1]) != pk);
        assert(init[j] == levels[j]);
        assert forall|m: int| j < m < init.len() implies level_key(#[trigger] init[m]) != pk by {
            assert(init[m] == levels[m]);
        }
        lemma_apply_levels_last_write_wins(s, ex, init, pk, j);
    }
}

/// A price that a snapshot does not mention keeps what the side held there.
pub proof fn lemma_apply_levels_unmentioned_price(
    s: Seq<BookLevel>,
    ex: Exchange,
    levels: Seq<[u64; 2]>,
    pk: u64,
)
    requires
        side_wf(s),
        forall|j: int| 0 <= j < levels.len() ==> level_key(#[trigger] levels[j]) != pk,
    ensures
        quantity_at(apply_levels(s, ex, levels), pk, ex) == quantity_at(s, pk, ex),
    decreases levels.len(),
{
    if levels.len() > 0 {
        let init = levels.drop_last();
        let last = levels.last();
        assert(level_key(levels[levels.len() - 1]) != pk);
        assert forall|j: int| 0 <= j < init.len() implies level_key(#[trigger] init[j]) != pk by {
            assert(init[j] == levels[j]);
        }
        lemma_apply_levels_unmentioned_price(s, ex, init, pk);
        lemma_apply_levels_wf(s, ex, init);
        lemma_apply_level_read_back(apply_levels(s, ex, init), ex, last);
    }
}

/// A snapshot of one exchange leaves the levels of every other exchange as
/// they were (before the depth cut).
pub proof fn lemma_apply_levels_keeps_other_exchanges(
    s: Seq<BookLevel>,
    ex: Exchange,
    levels: Seq<[u64; 2]>,
    pk: u64,
    other: Exchange,
)
    requires
        side_wf(s),
        other != ex,
    ensures
        quantity_at(apply_levels(s, ex, levels), pk, other) == quantity_at(s, pk, other),
    decreases levels.len(),
{
    if levels.len() > 0 {
        let init = levels.drop_last();
        lemma_apply_levels_keeps_other_exchanges(s, ex, init, pk, other);
        lemma_apply_levels_wf(s, ex, init);
        lemma_apply_level_read_back(apply_levels(s, ex, init), ex, levels.last());
        assert(quantity_at(apply_level(apply_levels(s, ex, init), ex, levels.last()), pk, other)
            == quantity_at(apply_levels(s, ex, init), pk, other));
    }
}

/// The depth cut keeps the best levels: on the ask side every kept level is
/// below every dropped one, on the bid side above every dropped one; and no
/// more than `n` are kept.
pub proof fn lemma_keep_best(s: Seq<BookLevel>, n: nat)
    requires
        sorted(s),
    ensures
        keep_lowest(s, n).len() <= n,
        keep_highest(s, n).len() <= n,
        sorted(keep_lowest(s, n)),
        sorted(keep_highest(s, n)),
        forall|a: int, b: int|
            0 <= a < keep_lowest(s, n).len() <= b < s.len() ==> level_lt(
                #[trigger] s[a],
                #[trigger] s[b],
            ),
        forall|a: int, b: int|
            0 <= a < s.len() - keep_highest(s, n).len() <= b < s.len() ==> level_lt(
                #[trigger] s[a],
                #[trigger] s[b],
            ),
{
    let lo = keep_lowest(s, n);
    let hi = keep_highest(s, n);
    assert forall|a: int, b: int| 0 <= a < b < lo.len() implies level_lt(
        #[trigger] lo[a],
        #[trigger] lo[b],
    ) by {
        assert(level_lt(s[a], s[b]));
    }
    assert forall|a: int, b: int| 0 <= a < b < hi.len() implies level_lt(
        #[trigger] hi[a],
        #[trigger] hi[b],
    ) by {
        let d = s.len() - hi.len();
        assert(hi[a] == s[a + d]);
        assert(hi[b] == s[b + d]);
        assert(level_lt(s[a + d], s[b + d]));
    }
}

/// The depth cut only drops levels: every level that the kept part holds, the
/// side held with the same quantity.
pub proof fn lemma_keep_best_only_drops(s: Seq<BookLevel>, n: nat, pk: u64, e: Exchange)
    requires
        sorted(s),
    ensures
        quantity_at(keep_lowest(s, n), pk, e) matches Some(q) ==> quantity_at(s, pk, e) == Some(q),
        quantity_at(keep_highest(s, n), pk, e) matches Some(q) ==> quantity_at(s, pk, e) == Some(q),
{
    lemma_keep_best(s, n);
    let lo = keep_lowest(s, n);
    let hi = keep_highest(s, n);
    if exists|i: int| has_key_at(lo, i, pk, e) {
        let i = choose|i: int| has_key_at(lo, i, pk, e);
        assert(lo[i] == s[i]);
        lemma_quantity_at_index(lo, pk, e, i);
        lemma_quantity_at_index(s, pk, e, i);
    }
    if exists|i: int| has_key_at(hi, i, pk, e) {
        let i = choose|i: int| has_key_at(hi, i, pk, e);
        let d = s.len() - hi.len();
        assert(hi[i] == s[i + d]);
        lemma_quantity_at_index(hi, pk, e, i);
        lemma_quantity_at_index(s, pk, e, i + d);
    }
}

} // verus!
