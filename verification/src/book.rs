//! Order book snapshots, with prices and amounts in integer units.

use vstd::prelude::*;

use crate::kv::{
    has_key, kv_map, lemma_kv_contains, lemma_kv_push, lemma_kv_remove, lemma_unique_push,
    lemma_unique_remove_frees_key, unique_keys,
};

verus! {

/// Subscription kind for level-1 books: the best bid and ask.
#[derive(Copy, Clone, PartialEq, Eq, Structural, Hash, Debug)]
pub struct OrderBooksL1;

/// Subscription kind for level-2 books: the book aggregated by price.
#[derive(Copy, Clone, PartialEq, Eq, Structural, Hash, Debug)]
pub struct OrderBooksL2;

/// Subscription kind for level-3 books: the raw, non-aggregated book.
#[derive(Copy, Clone, PartialEq, Eq, Structural, Hash, Debug)]
pub struct OrderBooksL3;

/// One price level: an amount resting at a price, in integer units.
#[derive(Copy, Clone, PartialEq, Eq, Structural, Debug)]
pub struct Level {
    pub price: u64,
    pub amount: u64,
}

impl Level {
    pub fn new(price: u64, amount: u64) -> (r: Level)
        ensures
            r == (Level { price, amount }),
    {
        Level { price, amount }
    }
}

impl View for Level {
    type V = Level;

    open spec fn view(&self) -> Level {
        *self
    }
}

/// The latest best bid and ask.
#[derive(Copy, Clone, PartialEq, Eq, Structural, Debug)]
pub struct OrderBookL1 {
    pub last_update_time: u64,
    pub last_update_id: u64,
    pub best_bid: Level,
    pub best_ask: Level,
}

pub open spec fn level_key() -> spec_fn(Level) -> u64 {
    |l: Level| l.price
}

pub open spec fn level_val() -> spec_fn(Level) -> u64 {
    |l: Level| l.amount
}

/// The levels of one side of a book, at most one per price; viewed as a map
/// from price to amount.
#[derive(Clone, Debug)]
pub struct OrderBookSide(pub Vec<Level>);

impl View for OrderBookSide {
    type V = Map<u64, u64>;

    open spec fn view(&self) -> Map<u64, u64> {
        kv_map(self.0@, level_key(), level_val())
    }
}

impl OrderBookSide {
    /// At most one level per price.
    pub open spec fn wf(self) -> bool {
        unique_keys(self.0@, level_key())
    }

    pub fn new() -> (r: OrderBookSide)
        ensures
            r.wf(),
            r@ == Map::<u64, u64>::empty(),
    {
        OrderBookSide(Vec::new())
    }

    fn find_level(&self, price: u64) -> (r: Option<usize>)
        ensures
            match r {
                Option::Some(i) => i < self.0@.len() && self.0@[i as int].price == price,
                Option::None => !has_key(self.0@, level_key(), price),
            },
    {
        let n = self.0.len();
        let mut i: usize = 0;
        while i < n
            invariant
                n == self.0@.len(),
                i <= n,
                forall|k: int| 0 <= k < i ==> (#[trigger] self.0@[k]).price != price,
            decreases n - i,
        {
            if self.0[i].price == price {
                return Some(i);
            }
            i += 1;
        }
        None
    }

    /// Insert or update the level at the given price; a level with zero
    /// amount is removed from the side.
    pub fn upsert(&mut self, level: Level)
        requires
            old(self).wf(),
        ensures
            final(self).wf(),
            final(self)@ == if level.amount == 0 {
                old(self)@.remove(level.price)
            } else {
                old(self)@.insert(level.price, level.amount)
            },
    {
        let ghost s0 = self.0@;
        let idx = self.find_level(level.price);
        match idx {
            Option::Some(i) => {
                let _removed = self.0.remove(i);
                proof {
                    lemma_kv_remove(s0, level_key(), level_val(), i as int);
                    lemma_unique_remove_frees_key(s0, level_key(), i as int);
                }
                if level.amount > 0 {
                    let ghost s1 = self.0@;
                    self.0.push(level);
                    proof {
                        lemma_kv_push(s1, level_key(), level_val(), level);
                        lemma_unique_push(s1, level_key(), level);
                        assert(kv_map(s0, level_key(), level_val()).remove(level.price).insert(
                            level.price,
                            level.amount,
                        ) =~= kv_map(s0, level_key(), level_val()).insert(
                            level.price,
                            level.amount,
                        ));
                    }
                }
            },
            Option::None => {
                proof {
                    lemma_kv_contains(s0, level_key(), level_val(), level.price);
                }
                if level.amount > 0 {
                    self.0.push(level);
                    proof {
                        lemma_kv_push(s0, level_key(), level_val(), level);
                        lemma_unique_push(s0, level_key(), level);
                    }
                } else {
                    proof {
                        assert(kv_map(s0, level_key(), level_val()) =~= kv_map(
                            s0,
                            level_key(),
                            level_val(),
                        ).remove(level.price));
                    }
                }
            },
        }
    }
}

/// A level-2 book snapshot: both sides, keyed by price.
#[derive(Clone, Debug)]
pub struct OrderBook {
    pub last_update_time: u64,
    pub bids: OrderBookSide,
    pub asks: OrderBookSide,
}

impl OrderBook {
    pub open spec fn wf(self) -> bool {
        self.bids.wf() && self.asks.wf()
    }

    pub fn new(last_update_time: u64) -> (r: OrderBook)
        ensures
            r.wf(),
            r.last_update_time == last_update_time,
            r.bids@ == Map::<u64, u64>::empty(),
            r.asks@ == Map::<u64, u64>::empty(),
    {
        OrderBook { last_update_time, bids: OrderBookSide::new(), asks: OrderBookSide::new() }
    }
}

} // verus!
