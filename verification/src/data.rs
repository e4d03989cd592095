//! Market-data subscription kinds and the values their streams carry, on
//! plain integer units.

use vstd::prelude::*;

use crate::model::{Instrument, PerpSide, Symbol};

verus! {

/// An on-chain token: its address, symbol and decimal places.
#[derive(Clone, Debug)]
pub struct Token {
    pub addr: String,
    pub symbol: String,
    pub decimals: u8,
}

/// Subscription kind for intent orders observed on a decentralised venue.
#[derive(Copy, Clone, PartialEq, Eq, Structural, Hash, Debug)]
pub struct IntentOrders;

/// Whether an intent order opened or closed.
#[derive(Copy, Clone, PartialEq, Eq, Structural, Debug)]
pub enum IntentOrderUpdate {
    Opened,
    Closed,
}

/// An intent order: a decaying ask observed on a decentralised venue, in
/// integer units.
#[derive(Clone, Debug)]
pub struct IntentOrder {
    pub event: IntentOrderUpdate,
    pub instrument: Instrument,
    pub id: String,
    pub amount: u64,
    pub amount_in: String,
    pub amount_out: String,
    pub buy: bool,
    pub start_ask: u64,
    pub end_ask: u64,
    pub price: u64,
    pub created_at: u64,
    pub order_type: String,
    pub signature: String,
    pub encoded_order: String,
}

/// Subscription kind for inbound request-for-quote flows.
#[derive(Copy, Clone, PartialEq, Eq, Structural, Hash, Debug)]
pub struct RfqRequests;

/// One inbound request for a quote, in integer units; the timestamp is
/// epoch milliseconds.
#[derive(Clone, Debug)]
pub struct RfqRequest {
    pub instrument: Instrument,
    pub timestamp: u64,
    pub request_id: String,
    pub token_in_chain_id: u32,
    pub token_out_chain_id: u32,
    pub swapper: String,
    pub token_in: String,
    pub token_out: String,
    pub ask: u64,
    pub ask_raw: String,
}

/// A private account update observed on a market-data stream; the time is
/// epoch milliseconds.
#[derive(Clone, Debug)]
pub struct AccountUpdate {
    pub time: u64,
    pub balance_updates: Vec<BalanceUpdate>,
    pub position_updates: Vec<PositionUpdate>,
}

/// One balance change, in integer units with a signed change.
#[derive(Clone, Debug)]
pub struct BalanceUpdate {
    pub asset: Symbol,
    pub wallet_balance: u64,
    pub cross_wallet_balance: u64,
    pub balance_change: i64,
}

/// One position change, in integer units with signed amounts.
#[derive(Clone, Debug)]
pub struct PositionUpdate {
    pub symbol: Symbol,
    pub position_amount: i64,
    pub position_side: PerpSide,
    pub unrealized_pnl: i64,
    pub entry_price: u64,
    pub breakeven_price: u64,
}

} // verus!
