//! Positions per instrument, in integer units; the quantity is signed and
//! zero quantity means flat (the entry is kept, not deleted).

use vstd::prelude::*;

use crate::model::{InstrV, Instrument, PerpSide};

verus! {

/// Mathematical image of a position.
pub struct PosV {
    pub instrument: InstrV,
    pub quantity: i64,
    pub entry_price: u64,
    pub unrealized_pnl: i64,
    pub side: PerpSide,
}

/// A position: signed quantity held on one instrument.
#[derive(Clone, Debug)]
pub struct Position {
    pub instrument: Instrument,
    pub quantity: i64,
    pub entry_price: u64,
    pub unrealized_pnl: i64,
    pub side: PerpSide,
}

impl View for Position {
    type V = PosV;

    open spec fn view(&self) -> PosV {
        PosV {
            instrument: self.instrument@,
            quantity: self.quantity,
            entry_price: self.entry_price,
            unrealized_pnl: self.unrealized_pnl,
            side: self.side,
        }
    }
}

} // verus!
