//! The per-venue account state machine.
//!
//! An `Account` holds balances, positions, in-flight orders and open orders
//! as vectors with unique keys; its view is four finite maps. Every account
//! event is applied deterministically: the executable `apply` is proved to
//! realise the abstract transition `spec_apply_kind`, and the
//! account invariant — balances well-formed, no client order id both
//! in-flight and open — is preserved by every event sequence.

use vstd::prelude::*;

use crate::balance::{Balance, SymBalV, SymbolBalance};
use crate::kv::{
    has_key, kv_insert_all, kv_map, kv_remove_all, lemma_insert_all_contains, lemma_kv_contains,
    lemma_kv_index, lemma_kv_map_is_insert_all, lemma_kv_push, lemma_kv_remove, lemma_kv_update,
    lemma_remove_all_contains, lemma_unique_push, lemma_unique_remove_frees_key,
    lemma_views_remove_first, unique_keys, views,
};
use crate::model::{Exchange, InstrV, Instrument, PerpSide, Side, Symbol};
use crate::order::{Cancelled, InFlight, Open, OpenV, Order, OrderV};
use crate::position::{PosV, Position};
use crate::trade::{Trade, TradeV};

verus! {

/// The type of a normalised account event.
#[derive(Clone, Debug)]
pub enum AccountEventKind {
    /// Full snapshot of the venue's open orders.
    OrdersOpen(Vec<Order<Open>>),
    /// Orders the venue newly confirmed open. The venue reports them as
    /// open orders, so that is what this variant carries.
    OrdersNew(Vec<Order<Open>>),
    /// Orders the venue cancelled.
    OrdersCancelled(Vec<Order<Cancelled>>),
    /// One symbol's balance changed.
    Balance(SymbolBalance),
    /// A fill happened.
    Trade(Trade),
    /// Several symbols' balances changed.
    Balances(Vec<SymbolBalance>),
    /// Positions changed for the included instruments.
    Positions(Vec<Position>),
}

/// Mathematical image of an account event.
pub enum AccountEventKindV {
    OrdersOpen(Seq<OrderV<OpenV>>),
    OrdersNew(Seq<OrderV<OpenV>>),
    OrdersCancelled(Seq<OrderV<Seq<char>>>),
    Balance(SymBalV),
    Trade(TradeV),
    Balances(Seq<SymBalV>),
    Positions(Seq<PosV>),
}

impl View for AccountEventKind {
    type V = AccountEventKindV;

    open spec fn view(&self) -> AccountEventKindV {
        match self {
            AccountEventKind::OrdersOpen(v) => AccountEventKindV::OrdersOpen(views(v@)),
            AccountEventKind::OrdersNew(v) => AccountEventKindV::OrdersNew(views(v@)),
            AccountEventKind::OrdersCancelled(v) => AccountEventKindV::OrdersCancelled(views(v@)),
            AccountEventKind::Balance(b) => AccountEventKindV::Balance(b@),
            AccountEventKind::Trade(t) => AccountEventKindV::Trade(t@),
            AccountEventKind::Balances(v) => AccountEventKindV::Balances(views(v@)),
            AccountEventKind::Positions(v) => AccountEventKindV::Positions(views(v@)),
        }
    }
}

/// A normalised account event: a kind, its venue, and the time this process
/// received it, in epoch milliseconds.
#[derive(Clone, Debug)]
pub struct AccountEvent {
    pub received_time: u64,
    pub exchange: Exchange,
    pub kind: AccountEventKind,
}

impl AccountEvent {
    pub fn new(exchange: Exchange, received_time: u64, kind: AccountEventKind) -> (r: AccountEvent)
        ensures
            r.exchange@ == exchange@,
            r.received_time == received_time,
            r.kind@ == kind@,
    {
        AccountEvent { received_time, exchange, kind }
    }
}

/// Health of a venue connection.
#[derive(Copy, Clone, PartialEq, Eq, Structural, Debug)]
pub enum ClientStatus {
    Connected,
    CancelOnly,
    Disconnected,
}

/// Mathematical image of an account: four finite maps.
pub struct AccountV {
    pub balances: Map<Seq<char>, Balance>,
    pub positions: Map<InstrV, PosV>,
    pub in_flight: Map<u128, OrderV<InFlight>>,
    pub open: Map<u128, OrderV<OpenV>>,
}

pub open spec fn bal_key() -> spec_fn(SymBalV) -> Seq<char> {
    |b: SymBalV| b.symbol
}

pub open spec fn bal_val() -> spec_fn(SymBalV) -> Balance {
    |b: SymBalV| b.balance
}

pub open spec fn pos_key() -> spec_fn(PosV) -> InstrV {
    |p: PosV| p.instrument
}

pub open spec fn pos_val() -> spec_fn(PosV) -> PosV {
    |p: PosV| p
}

pub open spec fn ifl_key() -> spec_fn(OrderV<InFlight>) -> u128 {
    |o: OrderV<InFlight>| o.cid
}

pub open spec fn ifl_val() -> spec_fn(OrderV<InFlight>) -> OrderV<InFlight> {
    |o: OrderV<InFlight>| o
}

pub open spec fn open_key() -> spec_fn(OrderV<OpenV>) -> u128 {
    |o: OrderV<OpenV>| o.cid
}

pub open spec fn open_val() -> spec_fn(OrderV<OpenV>) -> OrderV<OpenV> {
    |o: OrderV<OpenV>| o
}

pub open spec fn cancel_key() -> spec_fn(OrderV<Seq<char>>) -> u128 {
    |o: OrderV<Seq<char>>| o.cid
}

/// Every balance in the sequence is well-formed.
pub open spec fn all_balances_wf(v: Seq<SymBalV>) -> bool {
    forall|i: int| 0 <= i < v.len() ==> (#[trigger] v[i]).balance.wf()
}

/// The quantity held on an instrument; flat when no entry exists.
pub open spec fn pos_qty(m: Map<InstrV, PosV>, i: InstrV) -> int {
    if m.contains_key(i) {
        m[i].quantity as int
    } else {
        0
    }
}

/// The signed quantity a fill contributes: bought quantity counts up,
/// sold quantity counts down.
pub open spec fn signed_qty(side: Side, q: u64) -> int {
    match side {
        Side::Buy => q as int,
        Side::Sell => -(q as int),
    }
}

/// The position quantity after the trade stays representable.
pub open spec fn trade_fits(m: Map<InstrV, PosV>, t: TradeV) -> bool {
    i64::MIN <= pos_qty(m, t.instrument) + signed_qty(t.side, t.quantity) <= i64::MAX
}

/// The position entry after a trade: an existing entry keeps everything but
/// its quantity; a flat instrument gets a fresh entry at the trade's price.
pub open spec fn traded_position(m: Map<InstrV, PosV>, t: TradeV) -> PosV {
    let q = pos_qty(m, t.instrument) + signed_qty(t.side, t.quantity);
    if m.contains_key(t.instrument) {
        PosV { quantity: q as i64, ..m[t.instrument] }
    } else {
        PosV {
            instrument: t.instrument,
            quantity: q as i64,
            entry_price: t.price,
            unrealized_pnl: 0,
            side: PerpSide::Both,
        }
    }
}

/// The fee can be debited: the symbol has a balance that covers it.
pub open spec fn fee_applies(m: Map<Seq<char>, Balance>, t: TradeV) -> bool {
    m.contains_key(t.fees.symbol) && t.fees.fees <= m[t.fees.symbol].available && t.fees.fees
        <= m[t.fees.symbol].total
}

/// The balance after its fee debit.
pub open spec fn debited(b: Balance, fee: u64) -> Balance {
    Balance { total: (b.total - fee) as u64, available: (b.available - fee) as u64 }
}

/// Effect of a trade: the position quantity moves by the signed fill
/// quantity when that stays representable, and the fee is debited from the
/// fee symbol's balance when that balance covers it; each part that does
/// not apply leaves its map unchanged.
pub open spec fn spec_apply_trade(a: AccountV, t: TradeV) -> AccountV {
    AccountV {
        positions: if trade_fits(a.positions, t) {
            a.positions.insert(t.instrument, traded_position(a.positions, t))
        } else {
            a.positions
        },
        balances: if fee_applies(a.balances, t) {
            a.balances.insert(t.fees.symbol, debited(a.balances[t.fees.symbol], t.fees.fees))
        } else {
            a.balances
        },
        ..a
    }
}

/// The deterministic account transition, one event at a time:
/// - `Balance` and `Balances` upsert symbol balances, and are ignored whole
///   when any carried balance is malformed (`available > total`);
/// - `Positions` upserts the included instruments' positions;
/// - `OrdersOpen` replaces the open set with the snapshot and reconciles the
///   snapshot's client order ids out of the in-flight set;
/// - `OrdersNew` moves each confirmed order from in-flight (when present)
///   into the open set, accepting unknown ids;
/// - `OrdersCancelled` removes each cancelled id from the open set;
/// - `Trade` adjusts the position and debits the fee.
pub open spec fn spec_apply_kind(a: AccountV, k: AccountEventKindV) -> AccountV {
    match k {
        AccountEventKindV::Balance(b) => {
            if b.balance.wf() {
                AccountV { balances: a.balances.insert(b.symbol, b.balance), ..a }
            } else {
                a
            }
        },
        AccountEventKindV::Balances(v) => {
            if all_balances_wf(v) {
                AccountV { balances: kv_insert_all(a.balances, v, bal_key(), bal_val()), ..a }
            } else {
                a
            }
        },
        AccountEventKindV::Positions(v) => AccountV {
            positions: kv_insert_all(a.positions, v, pos_key(), pos_val()),
            ..a
        },
        AccountEventKindV::OrdersOpen(v) => AccountV {
            open: kv_map(v, open_key(), open_val()),
            in_flight: kv_remove_all(a.in_flight, v, open_key()),
            ..a
        },
        AccountEventKindV::OrdersNew(v) => AccountV {
            open: kv_insert_all(a.open, v, open_key(), open_val()),
            in_flight: kv_remove_all(a.in_flight, v, open_key()),
            ..a
        },
        AccountEventKindV::OrdersCancelled(v) => AccountV {
            open: kv_remove_all(a.open, v, cancel_key()),
            ..a
        },
        AccountEventKindV::Trade(t) => spec_apply_trade(a, t),
    }
}

/// The account invariant: every balance is well-formed, and no client order
/// id is simultaneously in-flight and open.
pub open spec fn account_inv(a: AccountV) -> bool {
    (forall|s: Seq<char>|
        #[trigger] a.balances.contains_key(s) ==> a.balances[s].wf()) && (forall|c: u128|
        !(#[trigger] a.in_flight.contains_key(c) && #[trigger] a.open.contains_key(c)))
}

/// An account after a whole sequence of events, first to last.
pub open spec fn spec_apply_events(a: AccountV, ks: Seq<AccountEventKindV>) -> AccountV
    decreases ks.len(),
{
    if ks.len() == 0 {
        a
    } else {
        spec_apply_kind(spec_apply_events(a, ks.drop_last()), ks.last())
    }
}

proof fn lemma_insert_all_balances_wf(m: Map<Seq<char>, Balance>, v: Seq<SymBalV>)
    requires
        forall|s: Seq<char>| #[trigger] m.contains_key(s) ==> m[s].wf(),
        all_balances_wf(v),
    ensures
        forall|s: Seq<char>|
            #[trigger] kv_insert_all(m, v, bal_key(), bal_val()).contains_key(s)
                ==> kv_insert_all(m, v, bal_key(), bal_val())[s].wf(),
    decreases v.len(),
{
    if v.len() > 0 {
        assert(all_balances_wf(v.drop_last())) by {
            assert(forall|i: int| 0 <= i < v.len() - 1 ==> #[trigger] v.drop_last()[i] == v[i]);
        }
        lemma_insert_all_balances_wf(m, v.drop_last());
        let prev = kv_insert_all(m, v.drop_last(), bal_key(), bal_val());
        let whole = kv_insert_all(m, v, bal_key(), bal_val());
        assert(v[v.len() - 1].balance.wf());
        assert(whole == prev.insert(bal_key()(v.last()), bal_val()(v.last())));
        assert forall|s: Seq<char>| #[trigger] whole.contains_key(s) implies whole[s].wf() by {
            if s == bal_key()(v.last()) {
                assert(whole[s] == v.last().balance);
            } else {
                assert(whole[s] == prev[s]);
            }
        }
    }
}

/// One event preserves the account invariant.
pub proof fn lemma_apply_kind_preserves_inv(a: AccountV, k: AccountEventKindV)
    requires
        account_inv(a),
    ensures
        account_inv(spec_apply_kind(a, k)),
{
    let r = spec_apply_kind(a, k);
    match k {
        AccountEventKindV::Balance(b) => {},
        AccountEventKindV::Balances(v) => {
            if all_balances_wf(v) {
                lemma_insert_all_balances_wf(a.balances, v);
            }
        },
        AccountEventKindV::Positions(v) => {},
        AccountEventKindV::OrdersOpen(v) => {
            assert forall|c: u128| !(#[trigger] r.in_flight.contains_key(c)
                && #[trigger] r.open.contains_key(c)) by {
                lemma_kv_contains(v, open_key(), open_val(), c);
                lemma_remove_all_contains(a.in_flight, v, open_key(), c);
            }
        },
        AccountEventKindV::OrdersNew(v) => {
            assert forall|c: u128| !(#[trigger] r.in_flight.contains_key(c)
                && #[trigger] r.open.contains_key(c)) by {
                lemma_insert_all_contains(a.open, v, open_key(), open_val(), c);
                lemma_remove_all_contains(a.in_flight, v, open_key(), c);
            }
        },
        AccountEventKindV::OrdersCancelled(v) => {
            assert forall|c: u128| !(#[trigger] r.in_flight.contains_key(c)
                && #[trigger] r.open.contains_key(c)) by {
                lemma_remove_all_contains(a.open, v, cancel_key(), c);
            }
        },
        AccountEventKindV::Trade(t) => {
            if fee_applies(a.balances, t) {
                assert(a.balances[t.fees.symbol].wf());
                assert(debited(a.balances[t.fees.symbol], t.fees.fees).wf());
            }
        },
    }
}

/// After any sequence of account events applied to an account that
/// satisfies the invariant, the invariant still holds: every balance obeys
/// `0 <= available <= total`, and no client order id is simultaneously
/// in-flight and open.
pub proof fn lemma_account_invariant(a: AccountV, ks: Seq<AccountEventKindV>)
    requires
        account_inv(a),
    ensures
        account_inv(spec_apply_events(a, ks)),
    decreases ks.len(),
{
    if ks.len() > 0 {
        lemma_account_invariant(a, ks.drop_last());
        lemma_apply_kind_preserves_inv(spec_apply_events(a, ks.drop_last()), ks.last());
    }
}

/// The account after the engine records a sent order as in-flight: the id
/// is inserted unless it is already tracked as in-flight or open.
pub open spec fn record_v(a: AccountV, o: OrderV<InFlight>) -> AccountV {
    if !a.in_flight.contains_key(o.cid) && !a.open.contains_key(o.cid) {
        AccountV { in_flight: a.in_flight.insert(o.cid, o), ..a }
    } else {
        a
    }
}

/// The authoritative state of one venue's account. The vectors hold at most
/// one entry per key (symbol, instrument or client order id); the view reads
/// them as finite maps.
#[derive(Debug)]
pub struct Account {
    pub balances: Vec<SymbolBalance>,
    pub positions: Vec<Position>,
    pub orders_in_flight: Vec<Order<InFlight>>,
    pub orders_open: Vec<Order<Open>>,
}

impl View for Account {
    type V = AccountV;

    open spec fn view(&self) -> AccountV {
        AccountV {
            balances: kv_map(views(self.balances@), bal_key(), bal_val()),
            positions: kv_map(views(self.positions@), pos_key(), pos_val()),
            in_flight: kv_map(views(self.orders_in_flight@), ifl_key(), ifl_val()),
            open: kv_map(views(self.orders_open@), open_key(), open_val()),
        }
    }
}

impl Account {
    /// The empty account, as a view.
    pub open spec fn new_v() -> AccountV {
        AccountV {
            balances: Map::empty(),
            positions: Map::empty(),
            in_flight: Map::empty(),
            open: Map::empty(),
        }
    }

    /// Representation invariant: each keyed vector holds unique keys.
    pub open spec fn wf(self) -> bool {
        unique_keys(views(self.balances@), bal_key()) && unique_keys(
            views(self.positions@),
            pos_key(),
        ) && unique_keys(views(self.orders_in_flight@), ifl_key()) && unique_keys(
            views(self.orders_open@),
            open_key(),
        )
    }

    /// A fresh account: everything empty.
    pub fn new() -> (r: Account)
        ensures
            r.wf(),
            r@ == Account::new_v(),
            account_inv(r@),
    {
        let r = Account {
            balances: Vec::new(),
            positions: Vec::new(),
            orders_in_flight: Vec::new(),
            orders_open: Vec::new(),
        };
        proof {
            assert(views(r.balances@).len() == 0);
            assert(views(r.positions@).len() == 0);
            assert(views(r.orders_in_flight@).len() == 0);
            assert(views(r.orders_open@).len() == 0);
        }
        r
    }

    fn find_balance(&self, sym: &Symbol) -> (r: Option<usize>)
        ensures
            match r {
                Option::Some(i) => i < self.balances@.len() && views(self.balances@)[
                    i as int
                ].symbol == sym@,
                Option::None => !has_key(views(self.balances@), bal_key(), sym@),
            },
    {
        let n = self.balances.len();
        let mut i: usize = 0;
        while i < n
            invariant
                n == self.balances@.len(),
                i <= n,
                forall|k: int|
                    0 <= k < i ==> (#[trigger] views(self.balances@)[k]).symbol != sym@,
            decreases n - i,
        {
            if self.balances[i].symbol.0 == sym.0 {
                return Some(i);
            }
            i += 1;
        }
        None
    }

    fn find_position(&self, instr: &Instrument) -> (r: Option<usize>)
        ensures
            match r {
                Option::Some(i) => i < self.positions@.len() && views(self.positions@)[
                    i as int
                ].instrument == instr@,
                Option::None => !has_key(views(self.positions@), pos_key(), instr@),
            },
    {
        let n = self.positions.len();
        let mut i: usize = 0;
        while i < n
            invariant
                n == self.positions@.len(),
                i <= n,
                forall|k: int|
                    0 <= k < i ==> (#[trigger] views(self.positions@)[k]).instrument != instr@,
            decreases n - i,
        {
            if self.positions[i].instrument == *instr {
                return Some(i);
            }
            i += 1;
        }
        None
    }

    fn find_in_flight(&self, cid: u128) -> (r: Option<usize>)
        ensures
            match r {
                Option::Some(i) => i < self.orders_in_flight@.len() && views(
                    self.orders_in_flight@,
                )[i as int].cid == cid,
                Option::None => !has_key(views(self.orders_in_flight@), ifl_key(), cid),
            },
    {
        let n = self.orders_in_flight.len();
        let mut i: usize = 0;
        while i < n
            invariant
                n == self.orders_in_flight@.len(),
                i <= n,
                forall|k: int|
                    0 <= k < i ==> (#[trigger] views(self.orders_in_flight@)[k]).cid != cid,
            decreases n - i,
        {
            if self.orders_in_flight[i].cid.0 == cid {
                return Some(i);
            }
            i += 1;
        }
        None
    }

    fn find_open(&self, cid: u128) -> (r: Option<usize>)
        ensures
            match r {
                Option::Some(i) => i < self.orders_open@.len() && views(self.orders_open@)[
                    i as int
                ].cid == cid,
                Option::None => !has_key(views(self.orders_open@), open_key(), cid),
            },
    {
        let n = self.orders_open.len();
        let mut i: usize = 0;
        while i < n
            invariant
                n == self.orders_open@.len(),
                i <= n,
                forall|k: int| 0 <= k < i ==> (#[trigger] views(self.orders_open@)[k]).cid != cid,
            decreases n - i,
        {
            if self.orders_open[i].cid.0 == cid {
                return Some(i);
            }
            i += 1;
        }
        None
    }

    /// Whether a client order id is recorded as in-flight.
    pub fn in_flight_contains(&self, cid: u128) -> (r: bool)
        ensures
            r == self@.in_flight.contains_key(cid),
    {
        let idx = self.find_in_flight(cid);
        proof {
            lemma_kv_contains(views(self.orders_in_flight@), ifl_key(), ifl_val(), cid);
        }
        match idx {
            Option::Some(i) => {
                proof {
                    assert(has_key(views(self.orders_in_flight@), ifl_key(), cid)) by {
                        assert(ifl_key()(views(self.orders_in_flight@)[i as int]) == cid);
                    }
                }
                true
            },
            Option::None => false,
        }
    }

    /// Whether a client order id is recorded as open.
    pub fn open_contains(&self, cid: u128) -> (r: bool)
        ensures
            r == self@.open.contains_key(cid),
    {
        let idx = self.find_open(cid);
        proof {
            lemma_kv_contains(views(self.orders_open@), open_key(), open_val(), cid);
        }
        match idx {
            Option::Some(i) => {
                proof {
                    assert(has_key(views(self.orders_open@), open_key(), cid)) by {
                        assert(open_key()(views(self.orders_open@)[i as int]) == cid);
                    }
                }
                true
            },
            Option::None => false,
        }
    }

    /// The open order recorded under a client order id, if any.
    pub fn get_open(&self, cid: u128) -> (r: Option<&Order<Open>>)
        requires
            self.wf(),
        ensures
            match r {
                Option::Some(o) => self@.open.contains_key(cid) && o@ == self@.open[cid],
                Option::None => !self@.open.contains_key(cid),
            },
    {
        let idx = self.find_open(cid);
        proof {
            lemma_kv_contains(views(self.orders_open@), open_key(), open_val(), cid);
        }
        match idx {
            Option::Some(i) => {
                proof {
                    lemma_kv_index(views(self.orders_open@), open_key(), open_val(), i as int);
                }
                Some(&self.orders_open[i])
            },
            Option::None => None,
        }
    }

    /// The balance recorded for a symbol, if any.
    pub fn balance_of(&self, sym: &Symbol) -> (r: Option<Balance>)
        requires
            self.wf(),
        ensures
            match r {
                Option::Some(b) => self@.balances.contains_key(sym@) && b == self@.balances[sym@],
                Option::None => !self@.balances.contains_key(sym@),
            },
    {
        let idx = self.find_balance(sym);
        proof {
            lemma_kv_contains(views(self.balances@), bal_key(), bal_val(), sym@);
        }
        match idx {
            Option::Some(i) => {
                proof {
                    assert(has_key(views(self.balances@), bal_key(), sym@)) by {
                        assert(bal_key()(views(self.balances@)[i as int]) == sym@);
                    }
                    lemma_kv_index(views(self.balances@), bal_key(), bal_val(), i as int);
                }
                Some(self.balances[i].balance)
            },
            Option::None => None,
        }
    }

    /// The quantity held on an instrument; zero when flat.
    pub fn position_quantity(&self, instr: &Instrument) -> (r: i64)
        requires
            self.wf(),
        ensures
            r as int == pos_qty(self@.positions, instr@),
    {
        let idx = self.find_position(instr);
        proof {
            lemma_kv_contains(views(self.positions@), pos_key(), pos_val(), instr@);
        }
        match idx {
            Option::Some(i) => {
                proof {
                    assert(has_key(views(self.positions@), pos_key(), instr@)) by {
                        assert(pos_key()(views(self.positions@)[i as int]) == instr@);
                    }
                    lemma_kv_index(views(self.positions@), pos_key(), pos_val(), i as int);
                }
                self.positions[i].quantity
            },
            Option::None => 0,
        }
    }

    fn upsert_balance(&mut self, sb: SymbolBalance)
        requires
            old(self).wf(),
        ensures
            final(self).wf(),
            final(self)@ == (AccountV {
                balances: old(self)@.balances.insert(sb@.symbol, sb@.balance),
                ..old(self)@
            }),
    {
        let ghost s0 = views(old(self).balances@);
        let idx = self.find_balance(&sb.symbol);
        match idx {
            Option::Some(i) => {
                let _replaced = self.balances.remove(i);
                proof {
                    assert(views(self.balances@) =~= s0.remove(i as int));
                    lemma_kv_remove(s0, bal_key(), bal_val(), i as int);
                    lemma_unique_remove_frees_key(s0, bal_key(), i as int);
                }
                let ghost s1 = views(self.balances@);
                self.balances.push(sb);
                proof {
                    assert(views(self.balances@) =~= s1.push(sb@));
                    lemma_kv_push(s1, bal_key(), bal_val(), sb@);
                    lemma_unique_push(s1, bal_key(), sb@);
                    assert(kv_map(s0, bal_key(), bal_val()).remove(sb@.symbol).insert(
                        sb@.symbol,
                        sb@.balance,
                    ) =~= kv_map(s0, bal_key(), bal_val()).insert(sb@.symbol, sb@.balance));
                }
            },
            Option::None => {
                self.balances.push(sb);
                proof {
                    assert(views(self.balances@) =~= s0.push(sb@));
                    lemma_kv_push(s0, bal_key(), bal_val(), sb@);
                    lemma_unique_push(s0, bal_key(), sb@);
                }
            },
        }
    }

    fn upsert_position(&mut self, p: Position)
        requires
            old(self).wf(),
        ensures
            final(self).wf(),
            final(self)@ == (AccountV {
                positions: old(self)@.positions.insert(p@.instrument, p@),
                ..old(self)@
            }),
    {
        let ghost s0 = views(old(self).positions@);
        let idx = self.find_position(&p.instrument);
        match idx {
            Option::Some(i) => {
                let _replaced = self.positions.remove(i);
                proof {
                    assert(views(self.positions@) =~= s0.remove(i as int));
                    lemma_kv_remove(s0, pos_key(), pos_val(), i as int);
                    lemma_unique_remove_frees_key(s0, pos_key(), i as int);
                }
                let ghost s1 = views(self.positions@);
                self.positions.push(p);
                proof {
                    assert(views(self.positions@) =~= s1.push(p@));
                    lemma_kv_push(s1, pos_key(), pos_val(), p@);
                    lemma_unique_push(s1, pos_key(), p@);
                    assert(kv_map(s0, pos_key(), pos_val()).remove(p@.instrument).insert(
                        p@.instrument,
                        p@,
                    ) =~= kv_map(s0, pos_key(), pos_val()).insert(p@.instrument, p@));
                }
            },
            Option::None => {
                self.positions.push(p);
                proof {
                    assert(views(self.positions@) =~= s0.push(p@));
                    lemma_kv_push(s0, pos_key(), pos_val(), p@);
                    lemma_unique_push(s0, pos_key(), p@);
                }
            },
        }
    }

    fn upsert_open(&mut self, o: Order<Open>)
        requires
            old(self).wf(),
        ensures
            final(self).wf(),
            final(self)@ == (AccountV {
                open: old(self)@.open.insert(o@.cid, o@),
                ..old(self)@
            }),
    {
        let ghost s0 = views(old(self).orders_open@);
        let idx = self.find_open(o.cid.0);
        match idx {
            Option::Some(i) => {
                let _replaced = self.orders_open.remove(i);
                proof {
                    assert(views(self.orders_open@) =~= s0.remove(i as int));
                    lemma_kv_remove(s0, open_key(), open_val(), i as int);
                    lemma_unique_remove_frees_key(s0, open_key(), i as int);
                }
                let ghost s1 = views(self.orders_open@);
                self.orders_open.push(o);
                proof {
                    assert(views(self.orders_open@) =~= s1.push(o@));
                    lemma_kv_push(s1, open_key(), open_val(), o@);
                    lemma_unique_push(s1, open_key(), o@);
                    assert(kv_map(s0, open_key(), open_val()).remove(o@.cid).insert(o@.cid, o@)
                        =~= kv_map(s0, open_key(), open_val()).insert(o@.cid, o@));
                }
            },
            Option::None => {
                self.orders_open.push(o);
                proof {
                    assert(views(self.orders_open@) =~= s0.push(o@));
                    lemma_kv_push(s0, open_key(), open_val(), o@);
                    lemma_unique_push(s0, open_key(), o@);
                }
            },
        }
    }

    fn remove_in_flight(&mut self, cid: u128)
        requires
            old(self).wf(),
        ensures
            final(self).wf(),
            final(self)@ == (AccountV {
                in_flight: old(self)@.in_flight.remove(cid),
                ..old(self)@
            }),
    {
        let ghost s0 = views(old(self).orders_in_flight@);
        let idx = self.find_in_flight(cid);
        match idx {
            Option::Some(i) => {
                let _removed = self.orders_in_flight.remove(i);
                proof {
                    assert(views(self.orders_in_flight@) =~= s0.remove(i as int));
                    lemma_kv_remove(s0, ifl_key(), ifl_val(), i as int);
                }
            },
            Option::None => {
                proof {
                    lemma_kv_contains(s0, ifl_key(), ifl_val(), cid);
                    assert(kv_map(s0, ifl_key(), ifl_val()) =~= kv_map(
                        s0,
                        ifl_key(),
                        ifl_val(),
                    ).remove(cid));
                }
            },
        }
    }

    fn remove_open(&mut self, cid: u128)
        requires
            old(self).wf(),
        ensures
            final(self).wf(),
            final(self)@ == (AccountV { open: old(self)@.open.remove(cid), ..old(self)@ }),
    {
        let ghost s0 = views(old(self).orders_open@);
        let idx = self.find_open(cid);
        match idx {
            Option::Some(i) => {
                let _removed = self.orders_open.remove(i);
                proof {
                    assert(views(self.orders_open@) =~= s0.remove(i as int));
                    lemma_kv_remove(s0, open_key(), open_val(), i as int);
                }
            },
            Option::None => {
                proof {
                    lemma_kv_contains(s0, open_key(), open_val(), cid);
                    assert(kv_map(s0, open_key(), open_val()) =~= kv_map(
                        s0,
                        open_key(),
                        open_val(),
                    ).remove(cid));
                }
            },
        }
    }

    fn apply_balance(&mut self, b: SymbolBalance)
        requires
            old(self).wf(),
        ensures
            final(self).wf(),
            final(self)@ == spec_apply_kind(old(self)@, AccountEventKindV::Balance(b@)),
    {
        if b.balance.available <= b.balance.total {
            self.upsert_balance(b);
        }
    }

    fn apply_balances(&mut self, v: Vec<SymbolBalance>)
        requires
            old(self).wf(),
        ensures
            final(self).wf(),
            final(self)@ == spec_apply_kind(old(self)@, AccountEventKindV::Balances(views(v@))),
    {
        let ghost orig = views(v@);
        let ghost a0 = old(self)@;
        let n = v.len();
        let mut i: usize = 0;
        while i < n
            invariant
                n == v@.len(),
                orig == views(v@),
                i <= n,
                self.wf(),
                self@ == a0,
                forall|k: int| 0 <= k < i ==> (#[trigger] orig[k]).balance.wf(),
            decreases n - i,
        {
            let bal = v[i].balance;
            if bal.available > bal.total {
                proof {
                    assert(orig[i as int] == v@[i as int]@);
                    assert(!all_balances_wf(orig));
                }
                return ;
            }
            proof {
                assert(orig[i as int] == v@[i as int]@);
            }
            i += 1;
        }
        assert(all_balances_wf(orig));
        let mut rest = v;
        proof {
            assert(orig.skip(0) =~= orig);
        }
        while rest.len() > 0
            invariant
                self.wf(),
                rest@.len() <= orig.len(),
                views(rest@) == orig.skip(orig.len() - rest@.len()),
                self@ == (AccountV {
                    balances: kv_insert_all(
                        a0.balances,
                        orig.take(orig.len() - rest@.len()),
                        bal_key(),
                        bal_val(),
                    ),
                    ..a0
                }),
            decreases rest@.len(),
        {
            let ghost k = orig.len() - rest@.len();
            let ghost r0 = rest@;
            let sb = rest.remove(0);
            proof {
                lemma_views_remove_first(r0, orig, k);
                assert(sb@ == orig[k]);
            }
            self.upsert_balance(sb);
            proof {
                assert(orig.take(k + 1).drop_last() =~= orig.take(k));
                assert(orig.take(k + 1).last() == orig[k]);
            }
        }
        proof {
            assert(orig.take(orig.len() as int) =~= orig);
        }
    }

    fn apply_positions(&mut self, v: Vec<Position>)
        requires
            old(self).wf(),
        ensures
            final(self).wf(),
            final(self)@ == spec_apply_kind(old(self)@, AccountEventKindV::Positions(views(v@))),
    {
        let ghost orig = views(v@);
        let ghost a0 = old(self)@;
        let mut rest = v;
        proof {
            assert(orig.skip(0) =~= orig);
        }
        while rest.len() > 0
            invariant
                self.wf(),
                rest@.len() <= orig.len(),
                views(rest@) == orig.skip(orig.len() - rest@.len()),
                self@ == (AccountV {
                    positions: kv_insert_all(
                        a0.positions,
                        orig.take(orig.len() - rest@.len()),
                        pos_key(),
                        pos_val(),
                    ),
                    ..a0
                }),
            decreases rest@.len(),
        {
            let ghost k = orig.len() - rest@.len();
            let ghost r0 = rest@;
            let p = rest.remove(0);
            proof {
                lemma_views_remove_first(r0, orig, k);
                assert(p@ == orig[k]);
            }
            self.upsert_position(p);
            proof {
                assert(orig.take(k + 1).drop_last() =~= orig.take(k));
                assert(orig.take(k + 1).last() == orig[k]);
            }
        }
        proof {
            assert(orig.take(orig.len() as int) =~= orig);
        }
    }

    fn apply_orders_new(&mut self, v: Vec<Order<Open>>)
        requires
            old(self).wf(),
        ensures
            final(self).wf(),
            final(self)@ == spec_apply_kind(old(self)@, AccountEventKindV::OrdersNew(views(v@))),
    {
        let ghost orig = views(v@);
        let ghost a0 = old(self)@;
        let mut rest = v;
        proof {
            assert(orig.skip(0) =~= orig);
        }
        while rest.len() > 0
            invariant
                self.wf(),
                rest@.len() <= orig.len(),
                views(rest@) == orig.skip(orig.len() - rest@.len()),
                self@ == (AccountV {
                    open: kv_insert_all(
                        a0.open,
                        orig.take(orig.len() - rest@.len()),
                        open_key(),
                        open_val(),
                    ),
                    in_flight: kv_remove_all(
                        a0.in_flight,
                        orig.take(orig.len() - rest@.len()),
                        open_key(),
                    ),
                    ..a0
                }),
            decreases rest@.len(),
        {
            let ghost k = orig.len() - rest@.len();
            let ghost r0 = rest@;
            let o = rest.remove(0);
            proof {
                lemma_views_remove_first(r0, orig, k);
                assert(o@ == orig[k]);
            }
            self.remove_in_flight(o.cid.0);
            self.upsert_open(o);
            proof {
                assert(orig.take(k + 1).drop_last() =~= orig.take(k));
                assert(orig.take(k + 1).last() == orig[k]);
            }
        }
        proof {
            assert(orig.take(orig.len() as int) =~= orig);
        }
    }

    fn apply_orders_open(&mut self, v: Vec<Order<Open>>)
        requires
            old(self).wf(),
        ensures
            final(self).wf(),
            final(self)@ == spec_apply_kind(old(self)@, AccountEventKindV::OrdersOpen(views(v@))),
    {
        let ghost orig = views(v@);
        let ghost a0 = old(self)@;
        self.orders_open.clear();
        proof {
            assert(views(self.orders_open@).len() == 0);
            assert(self@ == (AccountV { open: Map::<u128, OrderV<OpenV>>::empty(), ..a0 }));
        }
        let ghost a1 = self@;
        let mut rest = v;
        proof {
            assert(orig.skip(0) =~= orig);
        }
        while rest.len() > 0
            invariant
                self.wf(),
                rest@.len() <= orig.len(),
                views(rest@) == orig.skip(orig.len() - rest@.len()),
                self@ == (AccountV {
                    open: kv_insert_all(
                        Map::<u128, OrderV<OpenV>>::empty(),
                        orig.take(orig.len() - rest@.len()),
                        open_key(),
                        open_val(),
                    ),
                    in_flight: kv_remove_all(
                        a0.in_flight,
                        orig.take(orig.len() - rest@.len()),
                        open_key(),
                    ),
                    ..a0
                }),
            decreases rest@.len(),
        {
            let ghost k = orig.len() - rest@.len();
            let ghost r0 = rest@;
            let o = rest.remove(0);
            proof {
                lemma_views_remove_first(r0, orig, k);
                assert(o@ == orig[k]);
            }
            self.remove_in_flight(o.cid.0);
            self.upsert_open(o);
            proof {
                assert(orig.take(k + 1).drop_last() =~= orig.take(k));
                assert(orig.take(k + 1).last() == orig[k]);
            }
        }
        proof {
            assert(orig.take(orig.len() as int) =~= orig);
            lemma_kv_map_is_insert_all(orig, open_key(), open_val());
        }
    }

    fn apply_orders_cancelled(&mut self, v: Vec<Order<Cancelled>>)
        requires
            old(self).wf(),
        ensures
            final(self).wf(),
            final(self)@ == spec_apply_kind(
                old(self)@,
                AccountEventKindV::OrdersCancelled(views(v@)),
            ),
    {
        let ghost orig = views(v@);
        let ghost a0 = old(self)@;
        let mut rest = v;
        proof {
            assert(orig.skip(0) =~= orig);
        }
        while rest.len() > 0
            invariant
                self.wf(),
                rest@.len() <= orig.len(),
                views(rest@) == orig.skip(orig.len() - rest@.len()),
                self@ == (AccountV {
                    open: kv_remove_all(
                        a0.open,
                        orig.take(orig.len() - rest@.len()),
                        cancel_key(),
                    ),
                    ..a0
                }),
            decreases rest@.len(),
        {
            let ghost k = orig.len() - rest@.len();
            let ghost r0 = rest@;
            let o = rest.remove(0);
            proof {
                lemma_views_remove_first(r0, orig, k);
                assert(o@ == orig[k]);
            }
            self.remove_open(o.cid.0);
            proof {
                assert(orig.take(k + 1).drop_last() =~= orig.take(k));
                assert(orig.take(k + 1).last() == orig[k]);
            }
        }
        proof {
            assert(orig.take(orig.len() as int) =~= orig);
        }
    }

    fn apply_trade(&mut self, t: Trade)
        requires
            old(self).wf(),
        ensures
            final(self).wf(),
            final(self)@ == spec_apply_kind(old(self)@, AccountEventKindV::Trade(t@)),
    {
        let ghost a0 = old(self)@;
        let ghost tv = t@;
        let Trade { id: _, order_id: _, instrument, side, price, quantity, fees } = t;
        // Position part: move the quantity when the result stays in range.
        let idx = self.find_position(&instrument);
        proof {
            lemma_kv_contains(views(self.positions@), pos_key(), pos_val(), instrument@);
        }
        match idx {
            Option::Some(i) => {
                proof {
                    assert(has_key(views(self.positions@), pos_key(), instrument@)) by {
                        assert(pos_key()(views(self.positions@)[i as int]) == instrument@);
                    }
                    lemma_kv_index(views(self.positions@), pos_key(), pos_val(), i as int);
                }
                let cur = self.positions[i].quantity;
                let next: i128 = match side {
                    Side::Buy => (cur as i128) + (quantity as i128),
                    Side::Sell => (cur as i128) - (quantity as i128),
                };
                if (i64::MIN as i128) <= next && next <= (i64::MAX as i128) {
                    let ghost s0 = views(self.positions@);
                    let mut p = self.positions.remove(i);
                    proof {
                        assert(views(self.positions@) =~= s0.remove(i as int));
                        lemma_kv_remove(s0, pos_key(), pos_val(), i as int);
                        lemma_unique_remove_frees_key(s0, pos_key(), i as int);
                    }
                    p.quantity = next as i64;
                    proof {
                        assert(p@ == traded_position(a0.positions, tv));
                    }
                    let ghost s1 = views(self.positions@);
                    self.positions.push(p);
                    proof {
                        assert(views(self.positions@) =~= s1.push(p@));
                        lemma_kv_push(s1, pos_key(), pos_val(), p@);
                        lemma_unique_push(s1, pos_key(), p@);
                        assert(kv_map(s0, pos_key(), pos_val()).remove(instrument@).insert(
                            instrument@,
                            p@,
                        ) =~= kv_map(s0, pos_key(), pos_val()).insert(instrument@, p@));
                    }
                } else {
                    proof {
                        assert(!trade_fits(a0.positions, tv));
                    }
                }
            },
            Option::None => {
                proof {
                    assert(pos_qty(a0.positions, instrument@) == 0);
                }
                let next: i128 = match side {
                    Side::Buy => quantity as i128,
                    Side::Sell => -(quantity as i128),
                };
                if (i64::MIN as i128) <= next && next <= (i64::MAX as i128) {
                    let q: i64 = next as i64;
                    let ghost s0 = views(self.positions@);
                    let p = Position {
                        instrument,
                        quantity: q,
                        entry_price: price,
                        unrealized_pnl: 0,
                        side: PerpSide::Both,
                    };
                    proof {
                        assert(p@ == traded_position(a0.positions, tv));
                    }
                    self.positions.push(p);
                    proof {
                        assert(views(self.positions@) =~= s0.push(p@));
                        lemma_kv_push(s0, pos_key(), pos_val(), p@);
                        lemma_unique_push(s0, pos_key(), p@);
                    }
                } else {
                    proof {
                        assert(!trade_fits(a0.positions, tv));
                    }
                }
            },
        }
        // Fee part: debit the fee symbol's balance when it covers the fee.
        let ghost mid = self@;
        proof {
            assert(mid.balances == a0.balances);
        }
        let fidx = self.find_balance(&fees.symbol);
        proof {
            lemma_kv_contains(views(self.balances@), bal_key(), bal_val(), fees.symbol@);
        }
        match fidx {
            Option::Some(i) => {
                proof {
                    assert(has_key(views(self.balances@), bal_key(), fees.symbol@)) by {
                        assert(bal_key()(views(self.balances@)[i as int]) == fees.symbol@);
                    }
                    lemma_kv_index(views(self.balances@), bal_key(), bal_val(), i as int);
                }
                let b = self.balances[i].balance;
                if fees.fees <= b.available && fees.fees <= b.total {
                    let nb = Balance {
                        total: b.total - fees.fees,
                        available: b.available - fees.fees,
                    };
                    proof {
                        assert(fee_applies(a0.balances, tv));
                        assert(nb == debited(a0.balances[tv.fees.symbol], tv.fees.fees));
                    }
                    self.upsert_balance(SymbolBalance { symbol: fees.symbol, balance: nb });
                } else {
                    proof {
                        assert(!fee_applies(a0.balances, tv));
                    }
                }
            },
            Option::None => {
                proof {
                    assert(!fee_applies(a0.balances, tv));
                }
            },
        }
    }

    /// Apply one account event deterministically, per the abstract
    /// transition `spec_apply_kind`.
    pub fn apply(&mut self, kind: AccountEventKind)
        requires
            old(self).wf(),
        ensures
            final(self).wf(),
            final(self)@ == spec_apply_kind(old(self)@, kind@),
    {
        match kind {
            AccountEventKind::OrdersOpen(v) => self.apply_orders_open(v),
            AccountEventKind::OrdersNew(v) => self.apply_orders_new(v),
            AccountEventKind::OrdersCancelled(v) => self.apply_orders_cancelled(v),
            AccountEventKind::Balance(b) => self.apply_balance(b),
            AccountEventKind::Trade(t) => self.apply_trade(t),
            AccountEventKind::Balances(v) => self.apply_balances(v),
            AccountEventKind::Positions(v) => self.apply_positions(v),
        }
    }

    /// Record an order the engine has sent out. The id must not already be
    /// tracked; a duplicate is refused so that no id is both in-flight and
    /// open.
    pub fn record_in_flight(&mut self, order: Order<InFlight>)
        requires
            old(self).wf(),
        ensures
            final(self).wf(),
            final(self)@ == record_v(old(self)@, order@),
    {
        let cid = order.cid.0;
        let tracked_in_flight = self.in_flight_contains(cid);
        let tracked_open = self.open_contains(cid);
        if !tracked_in_flight && !tracked_open {
            let ghost s0 = views(old(self).orders_in_flight@);
            proof {
                lemma_kv_contains(s0, ifl_key(), ifl_val(), cid);
            }
            self.orders_in_flight.push(order);
            proof {
                assert(views(self.orders_in_flight@) =~= s0.push(order@));
                lemma_kv_push(s0, ifl_key(), ifl_val(), order@);
                lemma_unique_push(s0, ifl_key(), order@);
            }
        }
    }
}

/// Buying a quantity and then selling the same quantity on one instrument
/// returns the position quantity to its prior value, whatever the two fill
/// prices and fees were, provided the bought total stays representable.
/// A venue confirmation resolves an in-flight order: once the engine has
/// recorded an order as in-flight, a new-orders event that carries its
/// client order id moves the id out of the in-flight set and into the open
/// set.
pub proof fn lemma_confirmation_resolves_in_flight(
    a: AccountV,
    o: OrderV<InFlight>,
    v: Seq<OrderV<OpenV>>,
    i: int,
)
    requires
        0 <= i < v.len(),
        v[i].cid == o.cid,
    ensures
        ({
            let after = spec_apply_kind(record_v(a, o), AccountEventKindV::OrdersNew(v));
            after.open.contains_key(o.cid) && !after.in_flight.contains_key(o.cid)
        }),
{
    let recorded = record_v(a, o);
    lemma_insert_all_contains(recorded.open, v, open_key(), open_val(), o.cid);
    lemma_remove_all_contains(recorded.in_flight, v, open_key(), o.cid);
    assert(has_key(v, open_key(), o.cid)) by {
        assert(open_key()(v[i]) == o.cid);
    }
}

pub proof fn lemma_trade_round_trip(a: AccountV, buy: TradeV, sell: TradeV)
    requires
        buy.side == Side::Buy,
        sell.side == Side::Sell,
        sell.instrument == buy.instrument,
        sell.quantity == buy.quantity,
        trade_fits(a.positions, buy),
    ensures
        pos_qty(spec_apply_trade(spec_apply_trade(a, buy), sell).positions, buy.instrument)
            == pos_qty(a.positions, buy.instrument),
{
    let mid = spec_apply_trade(a, buy);
    assert(pos_qty(mid.positions, buy.instrument) == pos_qty(a.positions, buy.instrument)
        + buy.quantity);
    assert(trade_fits(mid.positions, sell));
}

/// The accounts after one venue's event: the named account steps by
/// `spec_apply_kind`; an event for an untracked venue changes nothing.
pub open spec fn apply_event_v(
    m: Map<Seq<char>, AccountV>,
    exchange: Seq<char>,
    k: AccountEventKindV,
) -> Map<Seq<char>, AccountV> {
    if m.contains_key(exchange) {
        m.insert(exchange, spec_apply_kind(m[exchange], k))
    } else {
        m
    }
}

/// The accounts after the engine records one sent order against its venue;
/// an unknown venue changes nothing.
pub open spec fn record_order_v(
    m: Map<Seq<char>, AccountV>,
    exchange: Seq<char>,
    o: OrderV<InFlight>,
) -> Map<Seq<char>, AccountV> {
    if m.contains_key(exchange) {
        m.insert(exchange, record_v(m[exchange], o))
    } else {
        m
    }
}

/// Mathematical image of one venue's entry.
pub struct VenueAccountV {
    pub exchange: Seq<char>,
    pub account: AccountV,
}

/// One venue's account, tagged with the venue.
#[derive(Debug)]
pub struct VenueAccount {
    pub exchange: Exchange,
    pub account: Account,
}

impl View for VenueAccount {
    type V = VenueAccountV;

    open spec fn view(&self) -> VenueAccountV {
        VenueAccountV { exchange: self.exchange@, account: self.account@ }
    }
}

pub open spec fn acct_key() -> spec_fn(VenueAccountV) -> Seq<char> {
    |e: VenueAccountV| e.exchange
}

pub open spec fn acct_val() -> spec_fn(VenueAccountV) -> AccountV {
    |e: VenueAccountV| e.account
}

/// All venues' accounts, owned by the engine; viewed as a map from venue
/// name to account state.
#[derive(Debug)]
pub struct Accounts {
    pub entries: Vec<VenueAccount>,
}

impl View for Accounts {
    type V = Map<Seq<char>, AccountV>;

    open spec fn view(&self) -> Map<Seq<char>, AccountV> {
        kv_map(views(self.entries@), acct_key(), acct_val())
    }
}

impl Accounts {
    /// Representation invariant: venue names unique, every account's keyed
    /// vectors well-formed.
    pub open spec fn wf(self) -> bool {
        unique_keys(views(self.entries@), acct_key()) && (forall|i: int|
            0 <= i < self.entries@.len() ==> (#[trigger] self.entries@[i]).account.wf())
    }

    /// One empty account per named venue; a venue named twice gets one.
    pub fn init(exchanges: Vec<Exchange>) -> (r: Accounts)
        ensures
            r.wf(),
            forall|e: Seq<char>|
                #[trigger] r@.contains_key(e) <==> exists|i: int|
                    0 <= i < exchanges@.len() && (#[trigger] exchanges@[i])@ == e,
            forall|e: Seq<char>|
                #[trigger] r@.contains_key(e) ==> r@[e] == Account::new_v(),
    {
        let mut r = Accounts { entries: Vec::new() };
        proof {
            assert(views(r.entries@).len() == 0);
        }
        let mut rest = exchanges;
        let ghost orig = rest@;
        proof {
            assert(orig.skip(0) =~= orig);
        }
        while rest.len() > 0
            invariant
                r.wf(),
                rest@.len() <= orig.len(),
                rest@ == orig.skip(orig.len() - rest@.len()),
                forall|e: Seq<char>|
                    #[trigger] r@.contains_key(e) <==> exists|i: int|
                        0 <= i < orig.len() - rest@.len() && (#[trigger] orig[i])@ == e,
                forall|e: Seq<char>|
                    #[trigger] r@.contains_key(e) ==> r@[e] == Account::new_v(),
            decreases rest@.len(),
        {
            let ghost k = orig.len() - rest@.len();
            let exchange = rest.remove(0);
            proof {
                assert(exchange == orig.skip(k)[0]);
                assert(orig.skip(k)[0] == orig[k]);
                assert(rest@ =~= orig.skip(k + 1));
            }
            let present = r.contains(&exchange);
            if !present {
                let ghost s0 = views(r.entries@);
                let entry = VenueAccount { exchange, account: Account::new() };
                r.entries.push(entry);
                proof {
                    assert(views(r.entries@) =~= s0.push(entry@));
                    lemma_kv_push(s0, acct_key(), acct_val(), entry@);
                    lemma_kv_contains(s0, acct_key(), acct_val(), entry@.exchange);
                    lemma_unique_push(s0, acct_key(), entry@);
                    assert forall|i: int|
                        0 <= i < r.entries@.len() implies (#[trigger] r.entries@[i]).account.wf()
                    by {
                        if i < r.entries@.len() - 1 {
                        } else {
                            assert(r.entries@[i] == entry);
                        }
                    }
                }
            }
            proof {
                assert forall|e: Seq<char>|
                    #[trigger] r@.contains_key(e) <==> exists|i: int|
                        0 <= i < k + 1 && (#[trigger] orig[i])@ == e by {
                    if r@.contains_key(e) {
                        if e == exchange@ {
                            assert(orig[k]@ == e);
                        }
                    }
                    if exists|i: int| 0 <= i < k + 1 && (#[trigger] orig[i])@ == e {
                        let i = choose|i: int| 0 <= i < k + 1 && (#[trigger] orig[i])@ == e;
                    }
                }
            }
        }
        proof {
            assert(orig.skip(0) =~= orig);
        }
        r
    }

    fn index_of(&self, exchange: &Exchange) -> (r: Option<usize>)
        ensures
            match r {
                Option::Some(i) => i < self.entries@.len() && views(self.entries@)[
                    i as int
                ].exchange == exchange@,
                Option::None => !has_key(views(self.entries@), acct_key(), exchange@),
            },
    {
        let n = self.entries.len();
        let mut i: usize = 0;
        while i < n
            invariant
                n == self.entries@.len(),
                i <= n,
                forall|k: int|
                    0 <= k < i ==> (#[trigger] views(self.entries@)[k]).exchange != exchange@,
            decreases n - i,
        {
            if self.entries[i].exchange.0 == exchange.0 {
                return Some(i);
            }
            i += 1;
        }
        None
    }

    /// Whether a venue is tracked.
    pub fn contains(&self, exchange: &Exchange) -> (r: bool)
        ensures
            r == self@.contains_key(exchange@),
    {
        let idx = self.index_of(exchange);
        proof {
            lemma_kv_contains(views(self.entries@), acct_key(), acct_val(), exchange@);
        }
        match idx {
            Option::Some(i) => {
                proof {
                    assert(has_key(views(self.entries@), acct_key(), exchange@)) by {
                        assert(acct_key()(views(self.entries@)[i as int]) == exchange@);
                    }
                }
                true
            },
            Option::None => false,
        }
    }

    /// The account of a venue, if tracked.
    pub fn get(&self, exchange: &Exchange) -> (r: Option<&Account>)
        requires
            self.wf(),
        ensures
            match r {
                Option::Some(a) => self@.contains_key(exchange@) && a@ == self@[exchange@]
                    && a.wf(),
                Option::None => !self@.contains_key(exchange@),
            },
    {
        let idx = self.index_of(exchange);
        proof {
            lemma_kv_contains(views(self.entries@), acct_key(), acct_val(), exchange@);
        }
        match idx {
            Option::Some(i) => {
                proof {
                    assert(has_key(views(self.entries@), acct_key(), exchange@)) by {
                        assert(acct_key()(views(self.entries@)[i as int]) == exchange@);
                    }
                    lemma_kv_index(views(self.entries@), acct_key(), acct_val(), i as int);
                }
                Some(&self.entries[i].account)
            },
            Option::None => None,
        }
    }

    /// Apply an account event to the venue it names; an event for an
    /// untracked venue is ignored.
    pub fn apply_event(&mut self, exchange: &Exchange, kind: AccountEventKind)
        requires
            old(self).wf(),
        ensures
            final(self).wf(),
            final(self)@ == apply_event_v(old(self)@, exchange@, kind@),
    {
        let ghost s0 = views(old(self).entries@);
        let idx = self.index_of(exchange);
        proof {
            lemma_kv_contains(s0, acct_key(), acct_val(), exchange@);
        }
        match idx {
            Option::Some(i) => {
                proof {
                    assert(has_key(s0, acct_key(), exchange@)) by {
                        assert(acct_key()(s0[i as int]) == exchange@);
                    }
                    lemma_kv_index(s0, acct_key(), acct_val(), i as int);
                }
                let entry = &mut self.entries[i].account;
                entry.apply(kind);
                proof {
                    let ghost s1 = views(self.entries@);
                    assert(s1 =~= s0.update(
                        i as int,
                        VenueAccountV {
                            exchange: exchange@,
                            account: spec_apply_kind(s0[i as int].account, kind@),
                        },
                    ));
                    lemma_kv_update(
                        s0,
                        acct_key(),
                        acct_val(),
                        i as int,
                        VenueAccountV {
                            exchange: exchange@,
                            account: spec_apply_kind(s0[i as int].account, kind@),
                        },
                    );
                    assert forall|j: int|
                        0 <= j < self.entries@.len() implies (#[trigger] self.entries@[j]).account.wf()
                    by {
                        if j != i {
                            assert(self.entries@[j] == old(self).entries@[j]);
                        }
                    }
                }
            },
            Option::None => {},
        }
    }

    /// Record a sent order as in-flight against its venue; an unknown venue
    /// changes nothing.
    pub fn record_in_flight(&mut self, exchange: &Exchange, order: Order<InFlight>)
        requires
            old(self).wf(),
        ensures
            final(self).wf(),
            final(self)@ == record_order_v(old(self)@, exchange@, order@),
    {
        let ghost s0 = views(old(self).entries@);
        let idx = self.index_of(exchange);
        proof {
            lemma_kv_contains(s0, acct_key(), acct_val(), exchange@);
        }
        match idx {
            Option::Some(i) => {
                proof {
                    assert(has_key(s0, acct_key(), exchange@)) by {
                        assert(acct_key()(s0[i as int]) == exchange@);
                    }
                    lemma_kv_index(s0, acct_key(), acct_val(), i as int);
                }
                let entry = &mut self.entries[i].account;
                entry.record_in_flight(order);
                proof {
                    let ghost s1 = views(self.entries@);
                    assert(s1 =~= s0.update(
                        i as int,
                        VenueAccountV {
                            exchange: exchange@,
                            account: record_v(s0[i as int].account, order@),
                        },
                    ));
                    lemma_kv_update(
                        s0,
                        acct_key(),
                        acct_val(),
                        i as int,
                        VenueAccountV {
                            exchange: exchange@,
                            account: record_v(s0[i as int].account, order@),
                        },
                    );
                    assert forall|j: int|
                        0 <= j < self.entries@.len() implies (#[trigger] self.entries@[j]).account.wf()
                    by {
                        if j != i {
                            assert(self.entries@[j] == old(self).entries@[j]);
                        }
                    }
                }
            },
            Option::None => {},
        }
    }
}

} // verus!
