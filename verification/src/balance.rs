//! Balances per symbol, in integer units.

use vstd::prelude::*;

use crate::model::Symbol;

verus! {

/// Funds held in one symbol: `available <= total` always holds, and both
/// are unsigned, so `0 <= available <= total`.
#[derive(Copy, Clone, PartialEq, Eq, Structural, Debug)]
pub struct Balance {
    pub total: u64,
    pub available: u64,
}

impl Balance {
    /// Well-formedness: the free part never exceeds the whole.
    pub open spec fn wf(self) -> bool {
        self.available <= self.total
    }

    pub fn new(total: u64, available: u64) -> (r: Balance)
        requires
            available <= total,
        ensures
            r == (Balance { total, available }),
            r.wf(),
    {
        Balance { total, available }
    }
}

/// Mathematical image of a symbol's balance.
pub struct SymBalV {
    pub symbol: Seq<char>,
    pub balance: Balance,
}

/// A balance tagged with its symbol.
#[derive(Clone, Debug)]
pub struct SymbolBalance {
    pub symbol: Symbol,
    pub balance: Balance,
}

impl View for SymbolBalance {
    type V = SymBalV;

    open spec fn view(&self) -> SymBalV {
        SymBalV { symbol: self.symbol@, balance: self.balance }
    }
}

impl SymbolBalance {
    pub fn new(symbol: Symbol, balance: Balance) -> (r: SymbolBalance)
        ensures
            r.symbol@ == symbol@,
            r.balance == balance,
    {
        SymbolBalance { symbol, balance }
    }
}

} // verus!
