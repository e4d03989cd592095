//! Portfolio order events and their builder.

use vstd::prelude::*;

use crate::model::{Exchange, Instrument};
use crate::strategy::{Decision, MarketMeta};

verus! {

/// Failures of order-event construction.
#[derive(Copy, Clone, Debug)]
pub enum OrderEventError {
    /// Construction was attempted with the named attribute missing.
    BuilderIncomplete(&'static str),
}

/// How a limit order rests on the book.
#[derive(Copy, Clone, PartialEq, Eq, Structural, Hash, Debug)]
pub enum OrderExecutionType {
    /// No restriction.
    Standard,
    /// Rest on the book only; never take.
    MakerOnly,
}

/// The kind of order the portfolio wants placed, in integer price units.
#[derive(Copy, Clone, PartialEq, Eq, Structural, Debug)]
pub enum OrderType {
    Market,
    Limit { price: u64, execution_type: OrderExecutionType },
    Bracket,
    StopLoss { stop_price: u64 },
    TrailingStop { trailing_delta: u64, stop_price: Option<u64> },
}

/// An order the portfolio details for execution: quantity is signed by the
/// decision's direction, times are epoch milliseconds.
#[derive(Clone, Debug)]
pub struct OrderEvent {
    pub id: u128,
    pub time: u64,
    pub exchange: Exchange,
    pub instrument: Instrument,
    pub market_meta: MarketMeta,
    pub decision: Decision,
    pub quantity: i64,
    pub order_type: OrderType,
}

impl OrderEvent {
    /// Returns a builder with every attribute unset.
    pub fn builder() -> (r: OrderEventBuilder)
        ensures
            r.time is None,
            r.exchange is None,
            r.instrument is None,
            r.market_meta is None,
            r.decision is None,
            r.quantity is None,
            r.order_type is None,
    {
        OrderEventBuilder::new()
    }
}

/// Accumulates the attributes of an order event.
#[derive(Debug)]
pub struct OrderEventBuilder {
    pub time: Option<u64>,
    pub exchange: Option<Exchange>,
    pub instrument: Option<Instrument>,
    pub market_meta: Option<MarketMeta>,
    pub decision: Option<Decision>,
    pub quantity: Option<i64>,
    pub order_type: Option<OrderType>,
}

impl OrderEventBuilder {
    pub fn new() -> (r: OrderEventBuilder)
        ensures
            r.time is None,
            r.exchange is None,
            r.instrument is None,
            r.market_meta is None,
            r.decision is None,
            r.quantity is None,
            r.order_type is None,
    {
        OrderEventBuilder {
            time: None,
            exchange: None,
            instrument: None,
            market_meta: None,
            decision: None,
            quantity: None,
            order_type: None,
        }
    }

    pub fn time(self, value: u64) -> (r: OrderEventBuilder)
        ensures
            r == (OrderEventBuilder { time: Some(value), ..self }),
    {
        OrderEventBuilder { time: Some(value), ..self }
    }

    pub fn exchange(self, value: Exchange) -> (r: OrderEventBuilder)
        ensures
            r == (OrderEventBuilder { exchange: Some(value), ..self }),
    {
        OrderEventBuilder { exchange: Some(value), ..self }
    }

    pub fn instrument(self, value: Instrument) -> (r: OrderEventBuilder)
        ensures
            r == (OrderEventBuilder { instrument: Some(value), ..self }),
    {
        OrderEventBuilder { instrument: Some(value), ..self }
    }

    pub fn market_meta(self, value: MarketMeta) -> (r: OrderEventBuilder)
        ensures
            r == (OrderEventBuilder { market_meta: Some(value), ..self }),
    {
        OrderEventBuilder { market_meta: Some(value), ..self }
    }

    pub fn decision(self, value: Decision) -> (r: OrderEventBuilder)
        ensures
            r == (OrderEventBuilder { decision: Some(value), ..self }),
    {
        OrderEventBuilder { decision: Some(value), ..self }
    }

    pub fn quantity(self, value: i64) -> (r: OrderEventBuilder)
        ensures
            r == (OrderEventBuilder { quantity: Some(value), ..self }),
    {
        OrderEventBuilder { quantity: Some(value), ..self }
    }

    pub fn order_type(self, value: OrderType) -> (r: OrderEventBuilder)
        ensures
            r == (OrderEventBuilder { order_type: Some(value), ..self }),
    {
        OrderEventBuilder { order_type: Some(value), ..self }
    }

    /// Construct the order event under the given id: succeeds exactly when
    /// every attribute was set, and otherwise reports the first missing one,
    /// in declaration order.
    pub fn build(self, id: u128) -> (r: Result<OrderEvent, OrderEventError>)
        ensures
            match r {
                Result::Ok(e) => self.time is Some && self.exchange is Some && self.instrument
                    is Some && self.market_meta is Some && self.decision is Some && self.quantity
                    is Some && self.order_type is Some && e.id == id && Some(e.time) == self.time
                    && Some(e.exchange) == self.exchange && Some(e.instrument) == self.instrument
                    && Some(e.market_meta) == self.market_meta && Some(e.decision) == self.decision
                    && Some(e.quantity) == self.quantity && Some(e.order_type) == self.order_type,
                Result::Err(OrderEventError::BuilderIncomplete(m)) => (self.time is None && m@
                    == "time"@) || (self.time is Some && self.exchange is None && m@ == "exchange"@)
                    || (self.time is Some && self.exchange is Some && self.instrument is None && m@
                    == "instrument"@) || (self.time is Some && self.exchange is Some
                    && self.instrument is Some && self.market_meta is None && m@ == "market_meta"@)
                    || (self.time is Some && self.exchange is Some && self.instrument is Some
                    && self.market_meta is Some && self.decision is None && m@ == "decision"@) || (
                self.time is Some && self.exchange is Some && self.instrument is Some
                    && self.market_meta is Some && self.decision is Some && self.quantity is None
                    && m@ == "quantity"@) || (self.time is Some && self.exchange is Some
                    && self.instrument is Some && self.market_meta is Some && self.decision is Some
                    && self.quantity is Some && self.order_type is None && m@ == "order_type"@),
            },
    {
        let time = match self.time {
            Option::Some(v) => v,
            Option::None => {
                return Err(OrderEventError::BuilderIncomplete("time"));
            },
        };
        let exchange = match self.exchange {
            Option::Some(v) => v,
            Option::None => {
                return Err(OrderEventError::BuilderIncomplete("exchange"));
            },
        };
        let instrument = match self.instrument {
            Option::Some(v) => v,
            Option::None => {
                return Err(OrderEventError::BuilderIncomplete("instrument"));
            },
        };
        let market_meta = match self.market_meta {
            Option::Some(v) => v,
            Option::None => {
                return Err(OrderEventError::BuilderIncomplete("market_meta"));
            },
        };
        let decision = match self.decision {
            Option::Some(v) => v,
            Option::None => {
                return Err(OrderEventError::BuilderIncomplete("decision"));
            },
        };
        let quantity = match self.quantity {
            Option::Some(v) => v,
            Option::None => {
                return Err(OrderEventError::BuilderIncomplete("quantity"));
            },
        };
        let order_type = match self.order_type {
            Option::Some(v) => v,
            Option::None => {
                return Err(OrderEventError::BuilderIncomplete("order_type"));
            },
        };
        Ok(
            OrderEvent {
                id,
                time,
                exchange,
                instrument,
                market_meta,
                decision,
                quantity,
                order_type,
            },
        )
    }
}

} // verus!
