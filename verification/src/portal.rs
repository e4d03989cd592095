//! The exchange portal's decision logic.
//!
//! The portal owns one client per venue; at runtime an async loop performs
//! the venue calls. Everything it decides is here and verified: how an
//! execution request splits into per-venue calls, and which account event a
//! venue's response turns into. Failed per-order results are dropped and
//! only successes are forwarded.

use vstd::prelude::*;

use crate::account::{AccountEventKind, AccountEventKindV};
use crate::balance::SymbolBalance;
use crate::error::ExecutionError;
use crate::kv::views;
use crate::model::Exchange;
use crate::order::{Cancelled, Open, Order, RequestCancel, RequestOpen};

verus! {

/// A normalised command from the engine to the portal.
#[derive(Debug)]
pub enum ExecutionRequest {
    /// Fetch balances from each named venue.
    FetchBalances(Vec<Exchange>),
    /// Fetch the open orders of each named venue.
    FetchOrdersOpen(Vec<Exchange>),
    /// Open the given orders, grouped by venue.
    OpenOrders(Vec<(Exchange, Vec<Order<RequestOpen>>)>),
    /// Cancel the given orders, grouped by venue.
    CancelOrders(Vec<(Exchange, Vec<Order<RequestCancel>>)>),
    /// Cancel everything open on each named venue.
    CancelOrdersAll(Vec<Exchange>),
}

/// One venue's share of an execution request.
#[derive(Debug)]
pub enum VenueCall {
    FetchBalances,
    FetchOrdersOpen,
    OpenOrders(Vec<Order<RequestOpen>>),
    CancelOrders(Vec<Order<RequestCancel>>),
    CancelOrdersAll,
}

/// Which execution client a venue maps to: a closed set, fixed at
/// initialisation, so dispatch happens at the variant boundary.
#[derive(Copy, Clone, PartialEq, Eq, Structural, Debug)]
pub enum ClientId {
    Simulated,
    Binance(crate::binance::BinanceApi),
    Uniswapx(crate::uniswapx::UniswapxApi),
}

impl ClientId {
    /// The interned venue name this client serves.
    pub fn exchange_name(&self) -> (r: &'static str)
        ensures
            r@ == client_exchange_chars(*self),
    {
        match self {
            ClientId::Simulated => "simulated",
            ClientId::Binance(_) => "binance_futures_usd",
            ClientId::Uniswapx(_) => "uniswapx",
        }
    }
}

pub open spec fn client_exchange_chars(c: ClientId) -> Seq<char> {
    match c {
        ClientId::Simulated => "simulated"@,
        ClientId::Binance(_) => "binance_futures_usd"@,
        ClientId::Uniswapx(_) => "uniswapx"@,
    }
}

/// Health of a venue connection as the portal sees it.
#[derive(Copy, Clone, PartialEq, Eq, Structural, Debug)]
pub enum ClientStatus {
    Connected,
    CancelOnly,
    Disconnected,
}

/// Split an execution request into one call per named venue, in the
/// request's order; each call is dispatched to its venue's client
/// independently, so one slow venue never delays another.
pub fn dispatch_request(request: ExecutionRequest) -> (r: Vec<(Exchange, VenueCall)>)
    ensures
        request is FetchBalances ==> {
            let v = request->FetchBalances_0;
            r@.len() == v@.len() && forall|i: int|
                0 <= i < v@.len() ==> (#[trigger] r@[i]).0 == v@[i] && r@[i].1
                    == VenueCall::FetchBalances
        },
        request is FetchOrdersOpen ==> {
            let v = request->FetchOrdersOpen_0;
            r@.len() == v@.len() && forall|i: int|
                0 <= i < v@.len() ==> (#[trigger] r@[i]).0 == v@[i] && r@[i].1
                    == VenueCall::FetchOrdersOpen
        },
        request is OpenOrders ==> {
            let v = request->OpenOrders_0;
            r@.len() == v@.len() && forall|i: int|
                0 <= i < v@.len() ==> (#[trigger] r@[i]).0 == v@[i].0 && r@[i].1
                    == VenueCall::OpenOrders(v@[i].1)
        },
        request is CancelOrders ==> {
            let v = request->CancelOrders_0;
            r@.len() == v@.len() && forall|i: int|
                0 <= i < v@.len() ==> (#[trigger] r@[i]).0 == v@[i].0 && r@[i].1
                    == VenueCall::CancelOrders(v@[i].1)
        },
        request is CancelOrdersAll ==> {
            let v = request->CancelOrdersAll_0;
            r@.len() == v@.len() && forall|i: int|
                0 <= i < v@.len() ==> (#[trigger] r@[i]).0 == v@[i] && r@[i].1
                    == VenueCall::CancelOrdersAll
        },
{
    let mut r: Vec<(Exchange, VenueCall)> = Vec::new();
    match request {
        ExecutionRequest::FetchBalances(v) => {
            let ghost orig = v@;
            let mut rest = v;
            while rest.len() > 0
                invariant
                    rest@.len() <= orig.len(),
                    rest@ == orig.skip(orig.len() - rest@.len()),
                    r@.len() == orig.len() - rest@.len(),
                    forall|i: int|
                        0 <= i < r@.len() ==> (#[trigger] r@[i]).0 == orig[i] && r@[i].1
                            == VenueCall::FetchBalances,
                decreases rest@.len(),
            {
                let ghost k = orig.len() - rest@.len();
                let exchange = rest.remove(0);
                proof {
                    assert(exchange == orig.skip(k)[0]);
                    assert(orig.skip(k)[0] == orig[k]);
                    assert(rest@ =~= orig.skip(k + 1));
                }
                r.push((exchange, VenueCall::FetchBalances));
            }
        },
        ExecutionRequest::FetchOrdersOpen(v) => {
            let ghost orig = v@;
            let mut rest = v;
            while rest.len() > 0
                invariant
                    rest@.len() <= orig.len(),
                    rest@ == orig.skip(orig.len() - rest@.len()),
                    r@.len() == orig.len() - rest@.len(),
                    forall|i: int|
                        0 <= i < r@.len() ==> (#[trigger] r@[i]).0 == orig[i] && r@[i].1
                            == VenueCall::FetchOrdersOpen,
                decreases rest@.len(),
            {
                let ghost k = orig.len() - rest@.len();
                let exchange = rest.remove(0);
                proof {
                    assert(exchange == orig.skip(k)[0]);
                    assert(orig.skip(k)[0] == orig[k]);
                    assert(rest@ =~= orig.skip(k + 1));
                }
                r.push((exchange, VenueCall::FetchOrdersOpen));
            }
        },
        ExecutionRequest::OpenOrders(v) => {
            let ghost orig = v@;
            let mut rest = v;
            while rest.len() > 0
                invariant
                    rest@.len() <= orig.len(),
                    rest@ == orig.skip(orig.len() - rest@.len()),
                    r@.len() == orig.len() - rest@.len(),
                    forall|i: int|
                        0 <= i < r@.len() ==> (#[trigger] r@[i]).0 == orig[i].0 && r@[i].1
                            == VenueCall::OpenOrders(orig[i].1),
                decreases rest@.len(),
            {
                let ghost k = orig.len() - rest@.len();
                let pair = rest.remove(0);
                proof {
                    assert(pair == orig.skip(k)[0]);
                    assert(orig.skip(k)[0] == orig[k]);
                    assert(rest@ =~= orig.skip(k + 1));
                }
                let (exchange, orders) = pair;
                r.push((exchange, VenueCall::OpenOrders(orders)));
            }
        },
        ExecutionRequest::CancelOrders(v) => {
            let ghost orig = v@;
            let mut rest = v;
            while rest.len() > 0
                invariant
                    rest@.len() <= orig.len(),
                    rest@ == orig.skip(orig.len() - rest@.len()),
                    r@.len() == orig.len() - rest@.len(),
                    forall|i: int|
                        0 <= i < r@.len() ==> (#[trigger] r@[i]).0 == orig[i].0 && r@[i].1
                            == VenueCall::CancelOrders(orig[i].1),
                decreases rest@.len(),
            {
                let ghost k = orig.len() - rest@.len();
                let pair = rest.remove(0);
                proof {
                    assert(pair == orig.skip(k)[0]);
                    assert(orig.skip(k)[0] == orig[k]);
                    assert(rest@ =~= orig.skip(k + 1));
                }
                let (exchange, orders) = pair;
                r.push((exchange, VenueCall::CancelOrders(orders)));
            }
        },
        ExecutionRequest::CancelOrdersAll(v) => {
            let ghost orig = v@;
            let mut rest = v;
            while rest.len() > 0
                invariant
                    rest@.len() <= orig.len(),
                    rest@ == orig.skip(orig.len() - rest@.len()),
                    r@.len() == orig.len() - rest@.len(),
                    forall|i: int|
                        0 <= i < r@.len() ==> (#[trigger] r@[i]).0 == orig[i] && r@[i].1
                            == VenueCall::CancelOrdersAll,
                decreases rest@.len(),
            {
                let ghost k = orig.len() - rest@.len();
                let exchange = rest.remove(0);
                proof {
                    assert(exchange == orig.skip(k)[0]);
                    assert(orig.skip(k)[0] == orig[k]);
                    assert(rest@ =~= orig.skip(k + 1));
                }
                r.push((exchange, VenueCall::CancelOrdersAll));
            }
        },
    }
    r
}

/// The successful payloads of a batch of per-order results, in order.
pub open spec fn ok_values<T>(s: Seq<Result<T, ExecutionError>>) -> Seq<T>
    decreases s.len(),
{
    if s.len() == 0 {
        Seq::empty()
    } else {
        match s.last() {
            Result::Ok(v) => ok_values(s.drop_last()).push(v),
            Result::Err(_) => ok_values(s.drop_last()),
        }
    }
}

/// Keep the successful responses, in order, and drop the failures.
pub fn remove_error_responses<T>(responses: Vec<Result<T, ExecutionError>>) -> (r: Vec<T>)
    ensures
        r@ == ok_values(responses@),
{
    let ghost orig = responses@;
    let mut r: Vec<T> = Vec::new();
    let mut rest = responses;
    proof {
        assert(orig.skip(0) =~= orig);
        assert(orig.take(0) =~= Seq::<Result<T, ExecutionError>>::empty());
    }
    while rest.len() > 0
        invariant
            rest@.len() <= orig.len(),
            rest@ == orig.skip(orig.len() - rest@.len()),
            r@ == ok_values(orig.take(orig.len() - rest@.len())),
        decreases rest@.len(),
    {
        let ghost k = orig.len() - rest@.len();
        let response = rest.remove(0);
        proof {
            assert(response == orig.skip(k)[0]);
            assert(orig.skip(k)[0] == orig[k]);
            assert(rest@ =~= orig.skip(k + 1));
        }
        match response {
            Result::Ok(v) => r.push(v),
            Result::Err(_) => {},
        }
        proof {
            assert(orig.take(k + 1).drop_last() =~= orig.take(k));
            assert(orig.take(k + 1).last() == orig[k]);
        }
    }
    proof {
        assert(orig.take(orig.len() as int) =~= orig);
    }
    r
}

/// What one venue answered to one call.
#[derive(Debug)]
pub enum VenueResponse {
    OpenOrders(Vec<Result<Order<Open>, ExecutionError>>),
    CancelOrders(Vec<Result<Order<Cancelled>, ExecutionError>>),
    CancelOrdersAll(Result<Vec<Order<Cancelled>>, ExecutionError>),
    FetchBalances(Result<Vec<SymbolBalance>, ExecutionError>),
    FetchOrdersOpen(Result<Vec<Order<Open>>, ExecutionError>),
}

/// The account event the portal forwards for one venue response: per-order
/// batches keep only their successes; a failed venue-wide call yields no
/// event at all.
pub fn response_event(response: VenueResponse) -> (r: Option<AccountEventKind>)
    ensures
        match response {
            VenueResponse::OpenOrders(results) => r is Some && r->Some_0@
                == AccountEventKindV::OrdersNew(views(ok_values(results@))),
            VenueResponse::CancelOrders(results) => r is Some && r->Some_0@
                == AccountEventKindV::OrdersCancelled(views(ok_values(results@))),
            VenueResponse::CancelOrdersAll(result) => match result {
                Result::Ok(orders) => r is Some && r->Some_0@
                    == AccountEventKindV::OrdersCancelled(views(orders@)),
                Result::Err(_) => r is None,
            },
            VenueResponse::FetchBalances(result) => match result {
                Result::Ok(balances) => r is Some && r->Some_0@
                    == AccountEventKindV::Balances(views(balances@)),
                Result::Err(_) => r is None,
            },
            VenueResponse::FetchOrdersOpen(result) => match result {
                Result::Ok(orders) => r is Some && r->Some_0@
                    == AccountEventKindV::OrdersOpen(views(orders@)),
                Result::Err(_) => r is None,
            },
        },
{
    match response {
        VenueResponse::OpenOrders(results) => Some(
            AccountEventKind::OrdersNew(remove_error_responses(results)),
        ),
        VenueResponse::CancelOrders(results) => Some(
            AccountEventKind::OrdersCancelled(remove_error_responses(results)),
        ),
        VenueResponse::CancelOrdersAll(result) => match result {
            Result::Ok(orders) => Some(AccountEventKind::OrdersCancelled(orders)),
            Result::Err(_) => None,
        },
        VenueResponse::FetchBalances(result) => match result {
            Result::Ok(balances) => Some(AccountEventKind::Balances(balances)),
            Result::Err(_) => None,
        },
        VenueResponse::FetchOrdersOpen(result) => match result {
            Result::Ok(orders) => Some(AccountEventKind::OrdersOpen(orders)),
            Result::Err(_) => None,
        },
    }
}

} // verus!
