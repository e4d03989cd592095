//! Strategy-facing types and the capabilities a strategy implements.

use vstd::prelude::*;

use crate::account::Accounts;
use crate::event::MarketEvent;
use crate::model::{Exchange, Instrument};
use crate::order::{Order, RequestCancel, RequestOpen};

verus! {

/// The advice a strategy attaches to a market: enter or leave, long or
/// short.
#[derive(Copy, Clone, PartialEq, Eq, Structural, Hash, Debug)]
pub enum Decision {
    Long,
    CloseLong,
    Short,
    CloseShort,
}

impl Decision {
    pub fn is_long(&self) -> (r: bool)
        ensures
            r == (*self == Decision::Long),
    {
        matches!(self, Decision::Long)
    }

    pub fn is_short(&self) -> (r: bool)
        ensures
            r == (*self == Decision::Short),
    {
        matches!(self, Decision::Short)
    }

    pub fn is_entry(&self) -> (r: bool)
        ensures
            r == (*self == Decision::Long || *self == Decision::Short),
    {
        matches!(self, Decision::Long | Decision::Short)
    }

    pub fn is_exit(&self) -> (r: bool)
        ensures
            r == (*self == Decision::CloseLong || *self == Decision::CloseShort),
    {
        matches!(self, Decision::CloseLong | Decision::CloseShort)
    }
}

/// Market context propagated from the event that triggered a signal:
/// the closing price (integer units) and the event time (epoch ms).
#[derive(Copy, Clone, PartialEq, Eq, Structural, Debug)]
pub struct MarketMeta {
    pub close: u64,
    pub time: u64,
}

/// Strength of an advisory signal, in integer basis units.
#[derive(Copy, Clone, PartialEq, Eq, Structural, Debug)]
pub struct SignalStrength(pub i64);

/// An advisory signal for one market: a strength per possible decision.
#[derive(Clone, Debug)]
pub struct Signal {
    pub time: u64,
    pub exchange: Exchange,
    pub instrument: Instrument,
    pub signals: Vec<(Decision, SignalStrength)>,
    pub market_meta: MarketMeta,
}

/// A forced-exit signal synthesized when the operator commands a position
/// closed; the time is epoch milliseconds.
#[derive(Clone, Debug)]
pub struct SignalForceExit {
    pub time: u64,
    pub exchange: Exchange,
    pub instrument: Instrument,
}

impl SignalForceExit {
    /// Constructs a forced exit for the given market at the given time.
    pub fn new(time: u64, exchange: Exchange, instrument: Instrument) -> (r: SignalForceExit)
        ensures
            r.time == time,
            r.exchange@ == exchange@,
            r.instrument@ == instrument@,
    {
        SignalForceExit { time, exchange, instrument }
    }
}

/// May generate an advisory signal from a market event.
pub trait SignalGenerator {
    /// Optionally return a signal given an input market event.
    fn generate_signal(&mut self, market: &MarketEvent) -> Option<Signal>;

    /// Called once when the market feed ends.
    fn on_market_feed_finished(&mut self);
}

/// Updates its indicators from each market event.
pub trait IndicatorUpdater {
    fn update_indicators(&mut self, market: &MarketEvent);
}

/// Decides orders and cancels from the current account state.
pub trait OrderGenerator {
    /// Orders to cancel, grouped by venue, if any.
    fn generate_cancels(&mut self, accounts: &Accounts) -> Option<
        Vec<(Exchange, Vec<Order<RequestCancel>>)>,
    >
        requires
            accounts.wf(),
    ;

    /// Orders to open, grouped by venue, if any.
    fn generate_orders(&mut self, accounts: &Accounts) -> Option<
        Vec<(Exchange, Vec<Order<RequestOpen>>)>,
    >
        requires
            accounts.wf(),
    ;
}

} // verus!
