//! The engine: a deterministic state machine that serializes all trading
//! decisions.
//!
//! It consumes one event at a time: market events go to the strategy, whose
//! resulting orders are recorded as in-flight and emitted as execution
//! requests; account events step the venue's account state; commands
//! terminate the engine or synthesize market orders that zero positions.
//! The engine never calls a venue itself — its only effects are the returned
//! execution requests.

use vstd::prelude::*;

use crate::account::{
    apply_event_v, record_order_v, AccountV, Accounts,
};
use crate::event::{Command, Event};
use crate::kv::views;
use crate::model::{Exchange, InstrV, Instrument, Side};
use crate::order::{
    ClientOrderId, InFlight, Order, OrderKind, OrderV, RequestCancel, RequestOpen,
};
use crate::portal::ExecutionRequest;
use crate::position::PosV;
use crate::strategy::{IndicatorUpdater, OrderGenerator};
use crate::text::sat_add64;

verus! {

/// The engine's control state: consuming events, or terminated for good.
#[derive(Copy, Clone, PartialEq, Eq, Structural, Debug)]
pub enum EngineState {
    Consume,
    Terminated,
}

/// The in-flight image of a requested order: same identity, no payload.
pub open spec fn to_in_flight_v(o: OrderV<RequestOpen>) -> OrderV<InFlight> {
    OrderV {
        exchange: o.exchange,
        instrument: o.instrument,
        cid: o.cid,
        side: o.side,
        state: InFlight,
    }
}

/// Accounts after recording every order of one venue group as in-flight.
pub open spec fn record_orders_v(
    m: Map<Seq<char>, AccountV>,
    exchange: Seq<char>,
    orders: Seq<Order<RequestOpen>>,
) -> Map<Seq<char>, AccountV>
    decreases orders.len(),
{
    if orders.len() == 0 {
        m
    } else {
        record_order_v(
            record_orders_v(m, exchange, orders.drop_last()),
            exchange,
            to_in_flight_v(orders.last()@),
        )
    }
}

/// Accounts after recording every group of requested orders as in-flight.
pub open spec fn record_groups_v(
    m: Map<Seq<char>, AccountV>,
    groups: Seq<(Exchange, Vec<Order<RequestOpen>>)>,
) -> Map<Seq<char>, AccountV>
    decreases groups.len(),
{
    if groups.len() == 0 {
        m
    } else {
        record_orders_v(
            record_groups_v(m, groups.drop_last()),
            groups.last().0@,
            groups.last().1@,
        )
    }
}

/// The execution requests a strategy's cancels contribute: one request when
/// the strategy returned groups, none otherwise.
pub open spec fn cancel_requests_seq(c: Option<Vec<(Exchange, Vec<Order<RequestCancel>>)>>) -> Seq<
    ExecutionRequest,
> {
    match c {
        Option::Some(v) => seq![ExecutionRequest::CancelOrders(v)],
        Option::None => Seq::empty(),
    }
}

/// The execution requests a strategy's orders contribute.
pub open spec fn open_requests_seq(o: Option<Vec<(Exchange, Vec<Order<RequestOpen>>)>>) -> Seq<
    ExecutionRequest,
> {
    match o {
        Option::Some(v) => seq![ExecutionRequest::OpenOrders(v)],
        Option::None => Seq::empty(),
    }
}

/// A position an exit command must close: nonzero, and on the filtered
/// instrument where one is given.
pub open spec fn exit_matches(p: PosV, filter: Option<InstrV>) -> bool {
    p.quantity != 0 && match filter {
        Option::Some(i) => p.instrument == i,
        Option::None => true,
    }
}

/// The positions an exit command closes, in account order.
pub open spec fn exit_targets(s: Seq<PosV>, filter: Option<InstrV>) -> Seq<PosV>
    decreases s.len(),
{
    if s.len() == 0 {
        Seq::empty()
    } else {
        let rest = exit_targets(s.drop_last(), filter);
        if exit_matches(s.last(), filter) {
            rest.push(s.last())
        } else {
            rest
        }
    }
}

/// The magnitude of a signed position quantity.
pub open spec fn abs_qty(q: i64) -> u64 {
    if q >= 0 {
        q as u64
    } else {
        (-(q as int)) as u64
    }
}

/// `orders` zero exactly `targets`, in order: one market order per target,
/// on the target's instrument, sized to its magnitude and sided against it.
pub open spec fn zeroing_orders(
    orders: Seq<OrderV<RequestOpen>>,
    targets: Seq<PosV>,
    exchange: Seq<char>,
) -> bool {
    orders.len() == targets.len() && forall|k: int|
        0 <= k < orders.len() ==> {
            let o = #[trigger] orders[k];
            let t = targets[k];
            o.exchange == exchange && o.instrument == t.instrument && o.side == (if t.quantity > 0 {
                Side::Sell
            } else {
                Side::Buy
            }) && o.state.kind == OrderKind::Market && o.state.price == 0 && o.state.quantity
                == abs_qty(t.quantity)
        }
}

/// The instrument filter of an exit command, as a view.
pub open spec fn opt_instr_v(f: Option<&Instrument>) -> Option<InstrV> {
    match f {
        Option::Some(i) => Option::Some(i@),
        Option::None => Option::None,
    }
}

/// The market orders that zero one account's matching positions: one per
/// nonzero (matching) position, in account order, with consecutive client
/// order ids drawn from the counter.
pub fn exit_orders(
    account: &crate::account::Account,
    filter: Option<&Instrument>,
    exchange: &Exchange,
    counter: &mut u64,
) -> (r: Vec<Order<RequestOpen>>)
    ensures
        zeroing_orders(
            views(r@),
            exit_targets(views(account.positions@), opt_instr_v(filter)),
            exchange@,
        ),
        forall|k: int|
            0 <= k < r@.len() ==> (#[trigger] views(r@)[k]).cid == sat_add64(*old(counter), k)
                as u128,
        *final(counter) == sat_add64(
            *old(counter),
            exit_targets(views(account.positions@), opt_instr_v(filter)).len() as int,
        ),
{
    let ghost fv = opt_instr_v(filter);
    let ghost pos = views(account.positions@);
    let ghost c0 = *counter;
    let mut r: Vec<Order<RequestOpen>> = Vec::new();
    let n = account.positions.len();
    let mut j: usize = 0;
    proof {
        assert(pos.take(0) =~= Seq::<PosV>::empty());
    }
    while j < n
        invariant
            n == account.positions@.len(),
            pos == views(account.positions@),
            fv == opt_instr_v(filter),
            j <= n,
            zeroing_orders(views(r@), exit_targets(pos.take(j as int), fv), exchange@),
            forall|k: int|
                0 <= k < r@.len() ==> (#[trigger] views(r@)[k]).cid == sat_add64(c0, k) as u128,
            *counter == sat_add64(c0, r@.len() as int),
        decreases n - j,
    {
        let ghost targets_so_far = exit_targets(pos.take(j as int), fv);
        let p = &account.positions[j];
        let q = p.quantity;
        let selected = q != 0 && match filter {
            Option::Some(f) => p.instrument == *f,
            Option::None => true,
        };
        proof {
            assert(pos.take(j + 1).drop_last() =~= pos.take(j as int));
            assert(pos.take(j + 1).last() == pos[j as int]);
            assert(pos[j as int] == account.positions@[j as int]@);
            assert(selected == exit_matches(pos[j as int], fv));
        }
        if selected {
            let quantity: u64 = if q >= 0 {
                q as u64
            } else {
                (-(q as i128)) as u64
            };
            let side = if q > 0 {
                Side::Sell
            } else {
                Side::Buy
            };
            let order = Order {
                exchange: exchange.duplicate(),
                instrument: p.instrument.duplicate(),
                cid: ClientOrderId(*counter as u128),
                side,
                state: RequestOpen { kind: OrderKind::Market, price: 0, quantity },
            };
            let ghost r0 = views(r@);
            r.push(order);
            proof {
                assert(views(r@) =~= r0.push(order@));
                assert(order@.state.quantity == abs_qty(pos[j as int].quantity));
            }
            if *counter < u64::MAX {
                *counter = *counter + 1;
            }
        }
        j += 1;
    }
    proof {
        assert(pos.take(n as int) =~= pos);
    }
    r
}

/// The engine. It owns the authoritative account state and a counter from
/// which client order ids are drawn.
#[derive(Debug)]
pub struct Engine {
    pub state: EngineState,
    pub accounts: Accounts,
    pub cid_counter: u64,
}

impl Engine {
    pub open spec fn wf(self) -> bool {
        self.accounts.wf()
    }

    /// A fresh engine in the consuming state.
    pub fn new(accounts: Accounts) -> (r: Engine)
        requires
            accounts.wf(),
        ensures
            r.wf(),
            r.state == EngineState::Consume,
            r.accounts == accounts,
            r.cid_counter == 0,
    {
        Engine { state: EngineState::Consume, accounts, cid_counter: 0 }
    }

    /// Forward a strategy's decisions: record every requested order as
    /// in-flight against its venue, and emit one cancel request and one
    /// open request, in that order, for whichever groups the strategy
    /// returned.
    pub fn handle_market_outputs(
        &mut self,
        cancels: Option<Vec<(Exchange, Vec<Order<RequestCancel>>)>>,
        opens: Option<Vec<(Exchange, Vec<Order<RequestOpen>>)>>,
    ) -> (requests: Vec<ExecutionRequest>)
        requires
            old(self).wf(),
        ensures
            final(self).wf(),
            final(self).state == old(self).state,
            final(self).cid_counter == old(self).cid_counter,
            final(self).accounts@ == match opens {
                Option::Some(groups) => record_groups_v(old(self).accounts@, groups@),
                Option::None => old(self).accounts@,
            },
            requests@ == cancel_requests_seq(cancels) + open_requests_seq(opens),
    {
        let mut requests: Vec<ExecutionRequest> = Vec::new();
        match opens {
            Option::Some(groups) => {
                let ghost gs = groups@;
                let ghost a0 = self.accounts@;
                let ng = groups.len();
                let mut i: usize = 0;
                proof {
                    assert(gs.take(0) =~= Seq::<(Exchange, Vec<Order<RequestOpen>>)>::empty());
                }
                while i < ng
                    invariant
                        self.wf(),
                        ng == groups@.len(),
                        gs == groups@,
                        i <= ng,
                        self.accounts@ == record_groups_v(a0, gs.take(i as int)),
                        self.state == old(self).state,
                        self.cid_counter == old(self).cid_counter,
                    decreases ng - i,
                {
                    let ghost before_group = self.accounts@;
                    let group_exchange = &groups[i].0;
                    let orders = &groups[i].1;
                    let ghost os = orders@;
                    let no = orders.len();
                    let mut k: usize = 0;
                    proof {
                        assert(os.take(0) =~= Seq::<Order<RequestOpen>>::empty());
                    }
                    while k < no
                        invariant
                            self.wf(),
                            no == os.len(),
                            os == groups@[i as int].1@,
                            i < groups@.len(),
                            gs == groups@,
                            k <= no,
                            group_exchange == &groups@[i as int].0,
                            self.accounts@ == record_orders_v(
                                before_group,
                                groups@[i as int].0@,
                                os.take(k as int),
                            ),
                            self.state == old(self).state,
                            self.cid_counter == old(self).cid_counter,
                        decreases no - k,
                    {
                        let o = &groups[i].1[k];
                        let in_flight = Order {
                            exchange: o.exchange.duplicate(),
                            instrument: o.instrument.duplicate(),
                            cid: o.cid,
                            side: o.side,
                            state: InFlight,
                        };
                        proof {
                            assert(in_flight@ == to_in_flight_v(os[k as int]@));
                            assert(os.take(k + 1).drop_last() =~= os.take(k as int));
                            assert(os.take(k + 1).last() == os[k as int]);
                        }
                        self.accounts.record_in_flight(group_exchange, in_flight);
                        k += 1;
                    }
                    proof {
                        assert(os.take(no as int) =~= os);
                        assert(gs.take(i + 1).drop_last() =~= gs.take(i as int));
                        assert(gs.take(i + 1).last() == gs[i as int]);
                    }
                    i += 1;
                }
                proof {
                    assert(gs.take(ng as int) =~= gs);
                }
                match cancels {
                    Option::Some(cancel_groups) => {
                        requests.push(ExecutionRequest::CancelOrders(cancel_groups));
                        requests.push(ExecutionRequest::OpenOrders(groups));
                        proof {
                            assert(requests@ =~= cancel_requests_seq(cancels) + open_requests_seq(
                                Some(groups),
                            ));
                        }
                    },
                    Option::None => {
                        requests.push(ExecutionRequest::OpenOrders(groups));
                        proof {
                            assert(requests@ =~= cancel_requests_seq(cancels) + open_requests_seq(
                                Some(groups),
                            ));
                        }
                    },
                }
            },
            Option::None => {
                match cancels {
                    Option::Some(cancel_groups) => {
                        requests.push(ExecutionRequest::CancelOrders(cancel_groups));
                        proof {
                            assert(requests@ =~= cancel_requests_seq(cancels) + open_requests_seq(
                                Option::None,
                            ));
                        }
                    },
                    Option::None => {
                        proof {
                            assert(requests@ =~= cancel_requests_seq(cancels) + open_requests_seq(
                                Option::None,
                            ));
                        }
                    },
                }
            },
        }
        requests
    }

    /// Synthesize the market orders that zero every matching position, one
    /// venue group per tracked account, and return the single open request
    /// carrying them.
    pub fn build_exit_requests(&mut self, filter: Option<&Instrument>) -> (requests: Vec<
        ExecutionRequest,
    >)
        requires
            old(self).wf(),
        ensures
            final(self).wf(),
            final(self).state == old(self).state,
            final(self).accounts@ == old(self).accounts@,
            final(self).accounts.entries@.len() == old(self).accounts.entries@.len(),
            requests@.len() == 1,
            requests@[0] is OpenOrders,
            ({
                let groups = requests@[0]->OpenOrders_0;
                groups@.len() == old(self).accounts.entries@.len() && forall|i: int|
                    0 <= i < groups@.len() ==> (#[trigger] groups@[i]).0@
                        == old(self).accounts.entries@[i]@.exchange && zeroing_orders(
                        views(groups@[i].1@),
                        exit_targets(
                            views(old(self).accounts.entries@[i].account.positions@),
                            opt_instr_v(filter),
                        ),
                        old(self).accounts.entries@[i]@.exchange,
                    )
            }),
    {
        let mut groups: Vec<(Exchange, Vec<Order<RequestOpen>>)> = Vec::new();
        let n = self.accounts.entries.len();
        let mut i: usize = 0;
        while i < n
            invariant
                self.wf(),
                *self == (Engine { cid_counter: self.cid_counter, ..*old(self) }),
                n == self.accounts.entries@.len(),
                i <= n,
                groups@.len() == i,
                forall|k: int|
                    0 <= k < i ==> (#[trigger] groups@[k]).0@
                        == old(self).accounts.entries@[k]@.exchange && zeroing_orders(
                        views(groups@[k].1@),
                        exit_targets(
                            views(old(self).accounts.entries@[k].account.positions@),
                            opt_instr_v(filter),
                        ),
                        old(self).accounts.entries@[k]@.exchange,
                    ),
            decreases n - i,
        {
            let exchange = self.accounts.entries[i].exchange.duplicate();
            let orders = exit_orders(
                &self.accounts.entries[i].account,
                filter,
                &exchange,
                &mut self.cid_counter,
            );
            groups.push((exchange, orders));
            i += 1;
        }
        let mut requests: Vec<ExecutionRequest> = Vec::new();
        requests.push(ExecutionRequest::OpenOrders(groups));
        requests
    }

    /// Consume one event. A terminated engine ignores everything. A market
    /// event is handed to the strategy and its decisions forwarded through
    /// `handle_market_outputs`; an account event steps the named venue's
    /// account; terminate stops the engine; the exit commands synthesize
    /// zeroing market orders.
    pub fn process_event<S: IndicatorUpdater + OrderGenerator>(
        &mut self,
        strategy: &mut S,
        event: Event,
    ) -> (requests: Vec<ExecutionRequest>)
        requires
            old(self).wf(),
        ensures
            final(self).wf(),
            old(self).state == EngineState::Terminated ==> *final(self) == *old(self)
                && requests@.len() == 0,
            old(self).state == EngineState::Consume ==> match event {
                Event::Market(_) => final(self).state == EngineState::Consume && requests@.len()
                    <= 2,
                Event::Account(ev) => final(self).state == EngineState::Consume
                    && final(self).accounts@ == apply_event_v(
                    old(self).accounts@,
                    ev.exchange@,
                    ev.kind@,
                ) && requests@.len() == 0,
                Event::Command(cmd) => match cmd {
                    Command::Terminate => final(self).state == EngineState::Terminated
                        && final(self).accounts@ == old(self).accounts@ && requests@.len() == 0,
                    Command::ExitPosition(_) | Command::ExitAllPositions => final(self).state
                        == EngineState::Consume && final(self).accounts@ == old(self).accounts@
                        && requests@.len() == 1 && requests@[0] is OpenOrders,
                },
            },
    {
        if matches!(self.state, EngineState::Terminated) {
            return Vec::new();
        }
        match event {
            Event::Market(ev) => {
                strategy.update_indicators(&ev);
                let cancels = strategy.generate_cancels(&self.accounts);
                let opens = strategy.generate_orders(&self.accounts);
                self.handle_market_outputs(cancels, opens)
            },
            Event::Account(ev) => {
                self.accounts.apply_event(&ev.exchange, ev.kind);
                Vec::new()
            },
            Event::Command(cmd) => match cmd {
                Command::Terminate => {
                    self.state = EngineState::Terminated;
                    Vec::new()
                },
                Command::ExitPosition(market) => self.build_exit_requests(
                    Some(&market.instrument),
                ),
                Command::ExitAllPositions => self.build_exit_requests(None),
            },
        }
    }
}

} // verus!
