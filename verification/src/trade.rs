//! Fills reported by venues.

use vstd::prelude::*;

use crate::model::{Instrument, Side, Symbol};
use crate::order::OrderId;

verus! {

/// A venue-assigned trade id.
#[derive(Clone, Debug)]
pub struct TradeId(pub String);

impl View for TradeId {
    type V = Seq<char>;

    open spec fn view(&self) -> Seq<char> {
        self.0@
    }
}

impl PartialEq for TradeId {
    fn eq(&self, other: &TradeId) -> (r: bool) {
        self.0 == other.0
    }
}

impl vstd::std_specs::cmp::PartialEqSpecImpl for TradeId {
    open spec fn obeys_eq_spec() -> bool {
        true
    }

    open spec fn eq_spec(&self, other: &TradeId) -> bool {
        self.0@ == other.0@
    }
}

/// Mathematical image of a fee.
pub struct FeesV {
    pub symbol: Seq<char>,
    pub fees: u64,
}

/// The fee paid on a fill, in integer units of the fee symbol.
#[derive(Clone, Debug)]
pub struct SymbolFees {
    pub symbol: Symbol,
    pub fees: u64,
}

impl View for SymbolFees {
    type V = FeesV;

    open spec fn view(&self) -> FeesV {
        FeesV { symbol: self.symbol@, fees: self.fees }
    }
}

/// Mathematical image of a fill.
pub struct TradeV {
    pub id: Seq<char>,
    pub order_id: Seq<char>,
    pub instrument: crate::model::InstrV,
    pub side: Side,
    pub price: u64,
    pub quantity: u64,
    pub fees: FeesV,
}

/// A fill: a quantity traded at a price on an instrument, with its fee.
/// Prices and quantities are integer units.
#[derive(Clone, Debug)]
pub struct Trade {
    pub id: TradeId,
    pub order_id: OrderId,
    pub instrument: Instrument,
    pub side: Side,
    pub price: u64,
    pub quantity: u64,
    pub fees: SymbolFees,
}

impl View for Trade {
    type V = TradeV;

    open spec fn view(&self) -> TradeV {
        TradeV {
            id: self.id@,
            order_id: self.order_id@,
            instrument: self.instrument@,
            side: self.side,
            price: self.price,
            quantity: self.quantity,
            fees: self.fees@,
        }
    }
}

} // verus!
