//! The engine's inbound events and the serialized feed that delivers them.
//!
//! Producers append concurrently at runtime; the feed is a FIFO queue, so
//! the engine observes events in arrival order. The merge lemma at the end
//! states what that buys: however two producers' sequences interleave on the
//! feed, each producer's events are observed in that producer's own order.

use vstd::prelude::*;

use crate::account::AccountEvent;
use crate::book::Level;
use crate::model::{Exchange, Instrument, Market, Side};

verus! {

/// A normalised public market observation, in integer units.
#[derive(Clone, Debug)]
pub enum MarketEventKind {
    /// A public trade.
    Trade { price: u64, quantity: u64, side: Side },
    /// A closed candle.
    Candle { close: u64 },
    /// The best bid and ask changed.
    OrderBookL1 { best_bid: Level, best_ask: Level },
    /// A forced liquidation.
    Liquidation { price: u64, quantity: u64, side: Side },
    /// An on-chain token transfer.
    Erc20Transfer { value: u64 },
}

/// A timestamped market event for one instrument on one venue; times are
/// epoch milliseconds.
#[derive(Clone, Debug)]
pub struct MarketEvent {
    pub exchange_time: u64,
    pub received_time: u64,
    pub exchange: Exchange,
    pub instrument: Instrument,
    pub kind: MarketEventKind,
}

/// An operator command.
#[derive(Clone, Debug)]
pub enum Command {
    /// Stop the engine after the current event.
    Terminate,
    /// Close the position on one market with a market order.
    ExitPosition(Market),
    /// Close every position with market orders.
    ExitAllPositions,
}

/// One event on the engine's inbound feed.
#[derive(Clone, Debug)]
pub enum Event {
    Market(MarketEvent),
    Account(AccountEvent),
    Command(Command),
}

/// The serialized inbound queue: producers append, the engine takes from
/// the front, so events are observed exactly in arrival order.
#[derive(Debug)]
pub struct EventFeed {
    queue: Vec<Event>,
}

impl View for EventFeed {
    type V = Seq<Event>;

    closed spec fn view(&self) -> Seq<Event> {
        self.queue@
    }
}

impl EventFeed {
    pub fn new() -> (r: EventFeed)
        ensures
            r@ == Seq::<Event>::empty(),
    {
        EventFeed { queue: Vec::new() }
    }

    /// Append an event at the back.
    pub fn push(&mut self, event: Event)
        ensures
            final(self)@ == old(self)@.push(event),
    {
        self.queue.push(event);
    }

    /// Take the oldest event, if any.
    pub fn next(&mut self) -> (r: Option<Event>)
        ensures
            old(self)@.len() == 0 ==> r is None && final(self)@ == old(self)@,
            old(self)@.len() > 0 ==> r == Some(old(self)@[0]) && final(self)@ == old(
                self,
            )@.skip(1),
    {
        if self.queue.len() == 0 {
            None
        } else {
            let e = self.queue.remove(0);
            proof {
                assert(self.queue@ =~= old(self)@.skip(1));
            }
            Some(e)
        }
    }

    /// Number of queued events.
    pub fn len(&self) -> (r: usize)
        ensures
            r == self@.len(),
    {
        self.queue.len()
    }
}

/// `m` is an interleaving of `a` and `b`: it contains exactly their
/// elements, each sequence's in their original order.
pub open spec fn is_merge_of<T>(m: Seq<T>, a: Seq<T>, b: Seq<T>) -> bool
    decreases m.len(),
{
    if m.len() == 0 {
        a.len() == 0 && b.len() == 0
    } else {
        (a.len() > 0 && a[0] == m[0] && is_merge_of(m.drop_first(), a.drop_first(), b)) || (b.len()
            > 0 && b[0] == m[0] && is_merge_of(m.drop_first(), a, b.drop_first()))
    }
}

/// `idx` embeds `a` into `m`: strictly increasing positions at which `m`
/// carries `a`'s elements in order.
pub open spec fn is_embedding<T>(m: Seq<T>, a: Seq<T>, idx: Seq<int>) -> bool {
    idx.len() == a.len() && (forall|i: int|
        0 <= i < idx.len() ==> 0 <= #[trigger] idx[i] < m.len() && m[idx[i]] == a[i]) && (forall|
        i: int,
        j: int,
    | 0 <= i < j < idx.len() ==> idx[i] < idx[j])
}

/// However two producers' event sequences interleave on the feed, the feed
/// order observed by the engine contains each producer's events in that
/// producer's own order: the observed total order is a linear extension of
/// both producers' local orders. More producers follow by treating an
/// already-merged feed as one producer.
pub proof fn lemma_merge_preserves_producer_order<T>(m: Seq<T>, a: Seq<T>, b: Seq<T>)
    requires
        is_merge_of(m, a, b),
    ensures
        exists|idx: Seq<int>| is_embedding(m, a, idx),
        exists|idx: Seq<int>| is_embedding(m, b, idx),
    decreases m.len(),
{
    if m.len() == 0 {
        let idx = Seq::<int>::empty();
        assert(is_embedding(m, a, idx));
        assert(is_embedding(m, b, idx));
    } else if a.len() > 0 && a[0] == m[0] && is_merge_of(m.drop_first(), a.drop_first(), b) {
        lemma_merge_preserves_producer_order(m.drop_first(), a.drop_first(), b);
        let idx_a = choose|idx: Seq<int>| is_embedding(m.drop_first(), a.drop_first(), idx);
        let idx_b = choose|idx: Seq<int>| is_embedding(m.drop_first(), b, idx);
        let lift_a = Seq::new(a.len(), |i: int| if i == 0 { 0 } else { idx_a[i - 1] + 1 });
        assert(is_embedding(m, a, lift_a)) by {
            assert forall|i: int| 0 <= i < lift_a.len() implies 0 <= #[trigger] lift_a[i] < m.len()
                && m[lift_a[i]] == a[i] by {
                if i > 0 {
                    assert(m.drop_first()[idx_a[i - 1]] == a.drop_first()[i - 1]);
                }
            }
        }
        let lift_b = Seq::new(b.len(), |i: int| idx_b[i] + 1);
        assert(is_embedding(m, b, lift_b)) by {
            assert forall|i: int| 0 <= i < lift_b.len() implies 0 <= #[trigger] lift_b[i] < m.len()
                && m[lift_b[i]] == b[i] by {
                assert(m.drop_first()[idx_b[i]] == b[i]);
            }
        }
    } else {
        lemma_merge_preserves_producer_order(m.drop_first(), a, b.drop_first());
        let idx_a = choose|idx: Seq<int>| is_embedding(m.drop_first(), a, idx);
        let idx_b = choose|idx: Seq<int>| is_embedding(m.drop_first(), b.drop_first(), idx);
        let lift_a = Seq::new(a.len(), |i: int| idx_a[i] + 1);
        assert(is_embedding(m, a, lift_a)) by {
            assert forall|i: int| 0 <= i < lift_a.len() implies 0 <= #[trigger] lift_a[i] < m.len()
                && m[lift_a[i]] == a[i] by {
                assert(m.drop_first()[idx_a[i]] == a[i]);
            }
        }
        let lift_b = Seq::new(b.len(), |i: int| if i == 0 { 0 } else { idx_b[i - 1] + 1 });
        assert(is_embedding(m, b, lift_b)) by {
            assert forall|i: int| 0 <= i < lift_b.len() implies 0 <= #[trigger] lift_b[i] < m.len()
                && m[lift_b[i]] == b[i] by {
                if i > 0 {
                    assert(m.drop_first()[idx_b[i - 1]] == b.drop_first()[i - 1]);
                }
            }
        }
    }
}

} // verus!
