//! Orders and their typed lifecycle.
//!
//! An order's state follows `RequestOpen -> InFlight -> Open -> Cancelled`;
//! each step is a separate type, so an illegal transition does not
//! type-check, and the only transitions this module offers move one step
//! forward along that sequence.

use vstd::prelude::*;

use crate::model::{Exchange, InstrV, Instrument, Side};
use crate::text::spec_decimal_chars;

verus! {

/// A 128-bit client-generated order id, unique per order attempt.
#[derive(Copy, Clone, PartialEq, Eq, Structural, Hash, Debug)]
pub struct ClientOrderId(pub u128);

/// A venue-assigned order id.
#[derive(Clone, Debug)]
pub struct OrderId(pub String);

impl View for OrderId {
    type V = Seq<char>;

    open spec fn view(&self) -> Seq<char> {
        self.0@
    }
}

impl OrderId {
    pub fn new(s: &str) -> (r: OrderId)
        ensures
            r@ == s@,
    {
        OrderId(String::from_str(s))
    }

    /// The id a venue reported as a number, rendered in decimal.
    pub fn from_number(n: u64) -> (r: OrderId)
        ensures
            r@ == spec_decimal_chars(n as nat),
    {
        OrderId(crate::text::u64_string(n))
    }
}

impl PartialEq for OrderId {
    fn eq(&self, other: &OrderId) -> (r: bool) {
        self.0 == other.0
    }
}

impl vstd::std_specs::cmp::PartialEqSpecImpl for OrderId {
    open spec fn obeys_eq_spec() -> bool {
        true
    }

    open spec fn eq_spec(&self, other: &OrderId) -> bool {
        self.0@ == other.0@
    }
}

/// The kind of order a strategy wants placed.
#[derive(Copy, Clone, PartialEq, Eq, Structural, Hash, Debug)]
pub enum OrderKind {
    Limit,
    Market,
}

impl OrderKind {
    /// The kind's lower-case name.
    pub fn as_str(&self) -> (r: &'static str)
        ensures
            r@ == order_kind_chars(*self),
    {
        match self {
            OrderKind::Limit => "limit",
            OrderKind::Market => "market",
        }
    }
}

pub open spec fn order_kind_chars(k: OrderKind) -> Seq<char> {
    match k {
        OrderKind::Limit => "limit"@,
        OrderKind::Market => "market"@,
    }
}

/// State payload of an order that has been requested but not yet sent.
/// Prices and quantities are integer units.
#[derive(Copy, Clone, PartialEq, Eq, Structural, Debug)]
pub struct RequestOpen {
    pub kind: OrderKind,
    pub price: u64,
    pub quantity: u64,
}

impl View for RequestOpen {
    type V = RequestOpen;

    open spec fn view(&self) -> RequestOpen {
        *self
    }
}

/// State payload of an order sent to a venue and awaiting confirmation.
#[derive(Copy, Clone, PartialEq, Eq, Structural, Debug)]
pub struct InFlight;

impl View for InFlight {
    type V = InFlight;

    open spec fn view(&self) -> InFlight {
        *self
    }
}

/// Mathematical image of an open order's state.
pub struct OpenV {
    pub id: Seq<char>,
    pub price: u64,
    pub quantity: u64,
    pub filled_quantity: u64,
}

/// State payload of an order the venue confirmed open.
#[derive(Clone, Debug)]
pub struct Open {
    pub id: OrderId,
    pub price: u64,
    pub quantity: u64,
    pub filled_quantity: u64,
}

impl View for Open {
    type V = OpenV;

    open spec fn view(&self) -> OpenV {
        OpenV {
            id: self.id@,
            price: self.price,
            quantity: self.quantity,
            filled_quantity: self.filled_quantity,
        }
    }
}

/// State payload of a cancelled order.
#[derive(Clone, Debug)]
pub struct Cancelled {
    pub id: OrderId,
}

impl View for Cancelled {
    type V = Seq<char>;

    open spec fn view(&self) -> Seq<char> {
        self.id@
    }
}

/// State payload of a cancel that has been requested but not yet sent.
#[derive(Clone, Debug)]
pub struct RequestCancel {
    pub id: OrderId,
}

impl View for RequestCancel {
    type V = Seq<char>;

    open spec fn view(&self) -> Seq<char> {
        self.id@
    }
}

/// Mathematical image of an order in some state.
pub struct OrderV<SV> {
    pub exchange: Seq<char>,
    pub instrument: InstrV,
    pub cid: u128,
    pub side: Side,
    pub state: SV,
}

/// An order: fixed identity plus a state-specific payload.
#[derive(Clone, Debug)]
pub struct Order<State> {
    pub exchange: Exchange,
    pub instrument: Instrument,
    pub cid: ClientOrderId,
    pub side: Side,
    pub state: State,
}

impl<State: View> View for Order<State> {
    type V = OrderV<State::V>;

    open spec fn view(&self) -> OrderV<State::V> {
        OrderV {
            exchange: self.exchange@,
            instrument: self.instrument@,
            cid: self.cid.0,
            side: self.side,
            state: self.state@,
        }
    }
}

/// The stages of the order lifecycle, in observation order.
#[derive(Copy, Clone, PartialEq, Eq, Structural, Debug)]
pub enum OrderStage {
    RequestOpen,
    InFlight,
    Open,
    Cancelled,
}

/// Position of a stage in the lifecycle sequence.
pub open spec fn stage_index(s: OrderStage) -> int {
    match s {
        OrderStage::RequestOpen => 0,
        OrderStage::InFlight => 1,
        OrderStage::Open => 2,
        OrderStage::Cancelled => 3,
    }
}

/// The stage that follows `s`; `Cancelled` is terminal.
pub open spec fn next_stage(s: OrderStage) -> OrderStage {
    match s {
        OrderStage::RequestOpen => OrderStage::InFlight,
        OrderStage::InFlight => OrderStage::Open,
        OrderStage::Open => OrderStage::Cancelled,
        OrderStage::Cancelled => OrderStage::Cancelled,
    }
}

impl RequestOpen {
    pub open spec fn stage() -> OrderStage {
        OrderStage::RequestOpen
    }
}

impl InFlight {
    pub open spec fn stage() -> OrderStage {
        OrderStage::InFlight
    }
}

impl Open {
    pub open spec fn stage() -> OrderStage {
        OrderStage::Open
    }
}

impl Cancelled {
    pub open spec fn stage() -> OrderStage {
        OrderStage::Cancelled
    }
}

impl Order<RequestOpen> {
    /// Mark a requested order as sent: the one transition out of
    /// `RequestOpen`, one lifecycle step forward.
    pub fn into_in_flight(self) -> (r: Order<InFlight>)
        ensures
            r@.exchange == self@.exchange,
            r@.instrument == self@.instrument,
            r@.cid == self@.cid,
            r@.side == self@.side,
            InFlight::stage() == next_stage(RequestOpen::stage()),
    {
        Order {
            exchange: self.exchange,
            instrument: self.instrument,
            cid: self.cid,
            side: self.side,
            state: InFlight,
        }
    }
}

impl Order<InFlight> {
    /// Record the venue's confirmation of an in-flight order: the one
    /// transition out of `InFlight`, one lifecycle step forward. The open
    /// order carries the venue-assigned id and starts unfilled.
    pub fn into_open(self, id: OrderId, price: u64, quantity: u64) -> (r: Order<Open>)
        ensures
            r@.exchange == self@.exchange,
            r@.instrument == self@.instrument,
            r@.cid == self@.cid,
            r@.side == self@.side,
            r@.state == (OpenV { id: id@, price, quantity, filled_quantity: 0u64 }),
            Open::stage() == next_stage(InFlight::stage()),
    {
        Order {
            exchange: self.exchange,
            instrument: self.instrument,
            cid: self.cid,
            side: self.side,
            state: Open { id, price, quantity, filled_quantity: 0 },
        }
    }
}

impl Order<Open> {
    /// Record the venue's cancellation of an open order: the one transition
    /// out of `Open`, one lifecycle step forward.
    pub fn into_cancelled(self) -> (r: Order<Cancelled>)
        ensures
            r@.exchange == self@.exchange,
            r@.instrument == self@.instrument,
            r@.cid == self@.cid,
            r@.side == self@.side,
            r@.state == self@.state.id,
            Cancelled::stage() == next_stage(Open::stage()),
    {
        Order {
            exchange: self.exchange,
            instrument: self.instrument,
            cid: self.cid,
            side: self.side,
            state: Cancelled { id: self.state.id },
        }
    }
}

/// Each offered transition advances the lifecycle by exactly one stage, and
/// the stages read, in order, request-open, in-flight, open, cancelled. Since
/// these are the only transitions, the states observed for one client order
/// id form a prefix of that sequence.
pub proof fn lemma_order_lifecycle()
    ensures
        next_stage(RequestOpen::stage()) == InFlight::stage(),
        next_stage(InFlight::stage()) == Open::stage(),
        next_stage(Open::stage()) == Cancelled::stage(),
        forall|s: OrderStage|
            s != OrderStage::Cancelled ==> stage_index(next_stage(s)) == stage_index(s) + 1,
{
    assert forall|s: OrderStage|
        s != OrderStage::Cancelled implies stage_index(next_stage(s)) == stage_index(s) + 1 by {
        match s {
            OrderStage::RequestOpen => {},
            OrderStage::InFlight => {},
            OrderStage::Open => {},
            OrderStage::Cancelled => {},
        }
    }
}

} // verus!
