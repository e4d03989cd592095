//! Binance user-data stream payloads, on plain integer values, and their
//! conversion into normalised account events.
//!
//! JSON decoding happens outside the library; these types carry what the
//! decoded payloads say, and every conversion into the engine's model is
//! verified: balance-and-position updates become a balances event and a
//! positions event, and a filled or partially filled order update becomes a
//! trade event.

use vstd::prelude::*;

use crate::account::AccountEventKind;
use crate::account::AccountEventKindV;
use crate::balance::{Balance, SymBalV, SymbolBalance};
use crate::kv::views;
use crate::model::{InstrV, Instrument, InstrumentKind, PerpSide, Side, Symbol};
use crate::order::OrderId;
use crate::position::{PosV, Position};
use crate::text::{sat_add64, spec_decimal_chars};
use crate::trade::{FeesV, SymbolFees, Trade, TradeId, TradeV};

verus! {

/// The user-data stream event types the integration recognises.
#[derive(Copy, Clone, PartialEq, Eq, Structural, Debug)]
pub enum BinanceFuturesEventType {
    AccountUpdate,
    OrderTradeUpdate,
}

/// Parse an event-type tag; tags other than the two recognised ones are
/// rejected.
pub fn event_type_from_str(s: &str) -> (r: Option<BinanceFuturesEventType>)
    ensures
        s@ == "ACCOUNT_UPDATE"@ ==> r == Some(BinanceFuturesEventType::AccountUpdate),
        s@ == "ORDER_TRADE_UPDATE"@ ==> r == Some(BinanceFuturesEventType::OrderTradeUpdate),
        s@ != "ACCOUNT_UPDATE"@ && s@ != "ORDER_TRADE_UPDATE"@ ==> r is None,
{
    proof {
        reveal_strlit("ACCOUNT_UPDATE");
        reveal_strlit("ORDER_TRADE_UPDATE");
        assert("ACCOUNT_UPDATE"@.len() != "ORDER_TRADE_UPDATE"@.len());
    }
    let owned = String::from_str(s);
    let account_update = String::from_str("ACCOUNT_UPDATE");
    let order_trade_update = String::from_str("ORDER_TRADE_UPDATE");
    if owned == account_update {
        Some(BinanceFuturesEventType::AccountUpdate)
    } else if owned == order_trade_update {
        Some(BinanceFuturesEventType::OrderTradeUpdate)
    } else {
        None
    }
}

/// The envelope every user-data message carries: its event type.
#[derive(Copy, Clone, PartialEq, Eq, Structural, Debug)]
pub struct BinanceFutAccountEvent {
    pub event_type: BinanceFuturesEventType,
}

/// Order status codes of the futures stream.
#[derive(Copy, Clone, PartialEq, Eq, Structural, Debug)]
pub enum BinanceFutOrderStatus {
    New,
    PartiallyFilled,
    Filled,
    Canceled,
    Expired,
    ExpiredInMatch,
}

/// Execution-type codes of the futures stream.
#[derive(Copy, Clone, PartialEq, Eq, Structural, Debug)]
pub enum BinFutExecutionType {
    New,
    Canceled,
    Calculated,
    Expired,
    Trade,
    Amendment,
}

/// Order-type codes of the futures stream.
#[derive(Copy, Clone, PartialEq, Eq, Structural, Debug)]
pub enum BinFutOrderType {
    Market,
    Limit,
    Stop,
    TakeProfit,
    Liquidation,
}

/// One balance change: wallet and cross-wallet balances in integer units,
/// and the signed change excluding profit and commission.
#[derive(Clone, Debug)]
pub struct BinanceBalanceUpdate {
    pub asset: Symbol,
    pub wallet_balance: u64,
    pub cross_wallet_balance: u64,
    pub balance_change: i64,
}

/// Mathematical image of a balance update.
pub struct BbuV {
    pub asset: Seq<char>,
    pub wallet_balance: u64,
    pub cross_wallet_balance: u64,
    pub balance_change: i64,
}

impl View for BinanceBalanceUpdate {
    type V = BbuV;

    open spec fn view(&self) -> BbuV {
        BbuV {
            asset: self.asset@,
            wallet_balance: self.wallet_balance,
            cross_wallet_balance: self.cross_wallet_balance,
            balance_change: self.balance_change,
        }
    }
}

/// The symbol balance a balance update normalises to: the stream does not
/// separate free from locked funds, so wallet plus cross-wallet stands for
/// both the total and the available amount, saturating rather than wrapping.
pub open spec fn symbol_balance_of(u: BbuV) -> SymBalV {
    SymBalV {
        symbol: u.asset,
        balance: Balance {
            total: sat_add64(u.wallet_balance, u.cross_wallet_balance as int),
            available: sat_add64(u.wallet_balance, u.cross_wallet_balance as int),
        },
    }
}

impl BinanceBalanceUpdate {
    /// Normalise to a symbol balance.
    pub fn to_symbol_balance(self) -> (r: SymbolBalance)
        ensures
            r@ == symbol_balance_of(self@),
    {
        let total = if self.wallet_balance <= u64::MAX - self.cross_wallet_balance {
            self.wallet_balance + self.cross_wallet_balance
        } else {
            u64::MAX
        };
        SymbolBalance { symbol: self.asset, balance: Balance { total, available: total } }
    }
}

impl From<BinanceBalanceUpdate> for SymbolBalance {
    fn from(u: BinanceBalanceUpdate) -> (r: SymbolBalance) {
        u.to_symbol_balance()
    }
}

impl vstd::std_specs::convert::FromSpecImpl<BinanceBalanceUpdate> for SymbolBalance {
    open spec fn obeys_from_spec() -> bool {
        false
    }

    open spec fn from_spec(u: BinanceBalanceUpdate) -> SymbolBalance {
        arbitrary()
    }
}

/// One position change, in integer units with signed amounts.
#[derive(Clone, Debug)]
pub struct BinancePositionUpdate {
    pub symbol: Symbol,
    pub position_amount: i64,
    pub entry_price: u64,
    pub breakeven_price: u64,
    pub accumulated_realized: i64,
    pub unrealized_pnl: i64,
    pub margin_type: String,
    pub isolated_wallet: u64,
    pub position_side: PerpSide,
}

/// Mathematical image of a position update.
pub struct BpuV {
    pub symbol: Seq<char>,
    pub position_amount: i64,
    pub entry_price: u64,
    pub unrealized_pnl: i64,
    pub position_side: PerpSide,
}

impl View for BinancePositionUpdate {
    type V = BpuV;

    open spec fn view(&self) -> BpuV {
        BpuV {
            symbol: self.symbol@,
            position_amount: self.position_amount,
            entry_price: self.entry_price,
            unrealized_pnl: self.unrealized_pnl,
            position_side: self.position_side,
        }
    }
}

/// The position a position update normalises to. The stream reports one
/// combined market symbol, which stands as both base and quote of a
/// perpetual instrument.
pub open spec fn position_of(u: BpuV) -> PosV {
    PosV {
        instrument: InstrV { base: u.symbol, quote: u.symbol, kind: InstrumentKind::Perpetual },
        quantity: u.position_amount,
        entry_price: u.entry_price,
        unrealized_pnl: u.unrealized_pnl,
        side: u.position_side,
    }
}

impl BinancePositionUpdate {
    /// Normalise to a position.
    pub fn to_position(self) -> (r: Position)
        ensures
            r@ == position_of(self@),
    {
        let base = self.symbol.duplicate();
        Position {
            instrument: Instrument { base, quote: self.symbol, kind: InstrumentKind::Perpetual },
            quantity: self.position_amount,
            entry_price: self.entry_price,
            unrealized_pnl: self.unrealized_pnl,
            side: self.position_side,
        }
    }
}

impl From<BinancePositionUpdate> for Position {
    fn from(u: BinancePositionUpdate) -> (r: Position) {
        u.to_position()
    }
}

impl vstd::std_specs::convert::FromSpecImpl<BinancePositionUpdate> for Position {
    open spec fn obeys_from_spec() -> bool {
        false
    }

    open spec fn from_spec(u: BinancePositionUpdate) -> Position {
        arbitrary()
    }
}

/// The body of a balance-and-position update.
#[derive(Clone, Debug)]
pub struct BinanceAccountUpdateData {
    pub reason: String,
    pub balance_updates: Vec<BinanceBalanceUpdate>,
    pub position_updates: Vec<BinancePositionUpdate>,
}

/// A balance-and-position update message; times are epoch milliseconds.
#[derive(Clone, Debug)]
pub struct BinanceAccountUpdate {
    pub event_type: BinanceFuturesEventType,
    pub event_time: u64,
    pub transaction_time: u64,
    pub update_data: BinanceAccountUpdateData,
}

/// The balances event an account update yields.
pub open spec fn balances_event_of(updates: Seq<BbuV>) -> AccountEventKindV {
    AccountEventKindV::Balances(updates.map_values(|u: BbuV| symbol_balance_of(u)))
}

/// The positions event an account update yields.
pub open spec fn positions_event_of(updates: Seq<BpuV>) -> AccountEventKindV {
    AccountEventKindV::Positions(updates.map_values(|u: BpuV| position_of(u)))
}

impl BinanceAccountUpdate {
    /// Normalise into the pair of events the stream message carries: the
    /// balances event, then the positions event.
    pub fn into_events(self) -> (r: (AccountEventKind, AccountEventKind))
        ensures
            r.0@ == balances_event_of(views(self.update_data.balance_updates@)),
            r.1@ == positions_event_of(views(self.update_data.position_updates@)),
    {
        let ghost bs = views(self.update_data.balance_updates@);
        let ghost ps = views(self.update_data.position_updates@);
        let BinanceAccountUpdateData { reason: _, balance_updates, position_updates } =
            self.update_data;
        let mut balances: Vec<SymbolBalance> = Vec::new();
        let mut rest = balance_updates;
        proof {
            assert(bs.skip(0) =~= bs);
            assert(views(balances@) =~= bs.take(0).map_values(|u: BbuV| symbol_balance_of(u)));
        }
        while rest.len() > 0
            invariant
                rest@.len() <= bs.len(),
                views(rest@) == bs.skip(bs.len() - rest@.len()),
                views(balances@) == bs.take(bs.len() - rest@.len()).map_values(
                    |u: BbuV| symbol_balance_of(u),
                ),
            decreases rest@.len(),
        {
            let ghost k = bs.len() - rest@.len();
            let ghost r0 = rest@;
            let u = rest.remove(0);
            proof {
                crate::kv::lemma_views_remove_first(r0, bs, k);
                assert(u@ == bs[k]);
            }
            let ghost before = views(balances@);
            let sb = u.to_symbol_balance();
            balances.push(sb);
            proof {
                assert(views(balances@) =~= before.push(sb@));
                assert(bs.take(k + 1).drop_last() =~= bs.take(k));
                assert(bs.take(k + 1).last() == bs[k]);
                assert(bs.take(k + 1).map_values(|u: BbuV| symbol_balance_of(u)) =~= bs.take(
                    k,
                ).map_values(|u: BbuV| symbol_balance_of(u)).push(symbol_balance_of(bs[k])));
            }
        }
        proof {
            assert(bs.take(bs.len() as int) =~= bs);
        }
        let mut positions: Vec<Position> = Vec::new();
        let mut prest = position_updates;
        proof {
            assert(ps.skip(0) =~= ps);
            assert(views(positions@) =~= ps.take(0).map_values(|u: BpuV| position_of(u)));
        }
        while prest.len() > 0
            invariant
                prest@.len() <= ps.len(),
                views(prest@) == ps.skip(ps.len() - prest@.len()),
                views(positions@) == ps.take(ps.len() - prest@.len()).map_values(
                    |u: BpuV| position_of(u),
                ),
            decreases prest@.len(),
        {
            let ghost k = ps.len() - prest@.len();
            let ghost r0 = prest@;
            let u = prest.remove(0);
            proof {
                crate::kv::lemma_views_remove_first(r0, ps, k);
                assert(u@ == ps[k]);
            }
            let ghost before = views(positions@);
            let p = u.to_position();
            positions.push(p);
            proof {
                assert(views(positions@) =~= before.push(p@));
                assert(ps.take(k + 1).drop_last() =~= ps.take(k));
                assert(ps.take(k + 1).last() == ps[k]);
                assert(ps.take(k + 1).map_values(|u: BpuV| position_of(u)) =~= ps.take(
                    k,
                ).map_values(|u: BpuV| position_of(u)).push(position_of(ps[k])));
            }
        }
        proof {
            assert(ps.take(ps.len() as int) =~= ps);
        }
        (AccountEventKind::Balances(balances), AccountEventKind::Positions(positions))
    }
}

/// One order of an order-trade update, in integer units.
#[derive(Clone, Debug)]
pub struct BinanceFutOrder {
    pub symbol: Symbol,
    pub client_order_id: String,
    pub side: Side,
    pub order_type: BinFutOrderType,
    pub time_in_force: String,
    pub original_quantity: u64,
    pub original_price: u64,
    pub average_price: u64,
    pub stop_price: u64,
    pub execution_type: BinFutExecutionType,
    pub order_status: BinanceFutOrderStatus,
    pub order_id: u64,
    pub order_last_filled_quantity: u64,
    pub order_filled_accumulated_quantity: u64,
    pub last_filled_price: u64,
    pub commission_asset: Option<Symbol>,
    pub commission: Option<u64>,
    pub order_trade_time: u64,
    pub trade_id: u64,
    pub bids_notional: u64,
    pub ask_notional: u64,
    pub is_maker_side: bool,
    pub is_reduce_only: bool,
    pub is_close_all: Option<bool>,
    pub activation_price: Option<u64>,
    pub callback_rate: Option<u64>,
    pub is_price_protection: Option<bool>,
    pub realized_profit: Option<i64>,
    pub stp_mode: String,
    pub price_match_mode: String,
    pub tif_gtd_order_auto_cancel_time: i64,
    pub position_side: PerpSide,
}

/// An order-trade update message; times are epoch milliseconds.
#[derive(Clone, Debug)]
pub struct BinanceFutOrderUpdate {
    pub event_type: BinanceFuturesEventType,
    pub event_time: u64,
    pub transaction_time: u64,
    pub order: BinanceFutOrder,
}

/// The trade an order update normalises to: ids rendered in decimal, the
/// combined market symbol standing as base and quote of a perpetual, the
/// last fill's price and quantity, and the commission as the fee, with a
/// missing commission read as zero in an unnamed symbol.
pub open spec fn trade_event_of(u: BinanceFutOrderUpdate) -> AccountEventKindV {
    AccountEventKindV::Trade(
        TradeV {
            id: spec_decimal_chars(u.order.trade_id as nat),
            order_id: spec_decimal_chars(u.order.order_id as nat),
            instrument: InstrV {
                base: u.order.symbol@,
                quote: u.order.symbol@,
                kind: InstrumentKind::Perpetual,
            },
            side: u.order.side,
            price: u.order.last_filled_price,
            quantity: u.order.order_last_filled_quantity,
            fees: FeesV {
                symbol: match u.order.commission_asset {
                    Option::Some(s) => s@,
                    Option::None => Seq::empty(),
                },
                fees: match u.order.commission {
                    Option::Some(c) => c,
                    Option::None => 0,
                },
            },
        },
    )
}

impl BinanceFutOrderUpdate {
    /// Normalise into the trade event the update carries.
    pub fn into_trade_event(self) -> (r: AccountEventKind)
        ensures
            r@ == trade_event_of(self),
    {
        let order = self.order;
        let base = order.symbol.duplicate();
        let fee_symbol = match order.commission_asset {
            Option::Some(s) => s,
            Option::None => Symbol(String::new()),
        };
        let fee_amount = match order.commission {
            Option::Some(c) => c,
            Option::None => 0,
        };
        AccountEventKind::Trade(
            Trade {
                id: TradeId(crate::text::u64_string(order.trade_id)),
                order_id: OrderId(crate::text::u64_string(order.order_id)),
                instrument: Instrument {
                    base,
                    quote: order.symbol,
                    kind: InstrumentKind::Perpetual,
                },
                side: order.side,
                price: order.last_filled_price,
                quantity: order.order_last_filled_quantity,
                fees: SymbolFees { symbol: fee_symbol, fees: fee_amount },
            },
        )
    }
}

impl From<BinanceFutOrderUpdate> for AccountEventKind {
    fn from(u: BinanceFutOrderUpdate) -> (r: AccountEventKind) {
        u.into_trade_event()
    }
}

impl vstd::std_specs::convert::FromSpecImpl<BinanceFutOrderUpdate> for AccountEventKind {
    open spec fn obeys_from_spec() -> bool {
        false
    }

    open spec fn from_spec(u: BinanceFutOrderUpdate) -> AccountEventKind {
        arbitrary()
    }
}

/// A decoded user-data stream message: one of the two recognised payloads,
/// or something the decoder could not read.
#[derive(Clone, Debug)]
pub enum BinanceWsMessage {
    AccountUpdate(BinanceAccountUpdate),
    OrderUpdate(BinanceFutOrderUpdate),
    Unparsed,
}

/// The account events one stream message produces: a balance-and-position
/// update yields its balances event then its positions event; an order
/// update yields its trade event when the order is filled or partially
/// filled and nothing otherwise; an unreadable message yields nothing.
pub fn process_message(msg: BinanceWsMessage) -> (r: Vec<AccountEventKind>)
    ensures
        match msg {
            BinanceWsMessage::AccountUpdate(u) => r@.len() == 2 && r@[0]@ == balances_event_of(
                views(u.update_data.balance_updates@),
            ) && r@[1]@ == positions_event_of(views(u.update_data.position_updates@)),
            BinanceWsMessage::OrderUpdate(u) => {
                if u.order.order_status == BinanceFutOrderStatus::Filled || u.order.order_status
                    == BinanceFutOrderStatus::PartiallyFilled {
                    r@.len() == 1 && r@[0]@ == trade_event_of(u)
                } else {
                    r@.len() == 0
                }
            },
            BinanceWsMessage::Unparsed => r@.len() == 0,
        },
{
    let mut events: Vec<AccountEventKind> = Vec::new();
    match msg {
        BinanceWsMessage::AccountUpdate(u) => {
            let (balances, positions) = u.into_events();
            events.push(balances);
            events.push(positions);
        },
        BinanceWsMessage::OrderUpdate(u) => {
            match u.order.order_status {
                BinanceFutOrderStatus::Filled => {
                    events.push(u.into_trade_event());
                },
                BinanceFutOrderStatus::PartiallyFilled => {
                    events.push(u.into_trade_event());
                },
                _ => {},
            }
        },
        BinanceWsMessage::Unparsed => {},
    }
    events
}

} // verus!
