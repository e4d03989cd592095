//! Foundational market model: venues, symbols, instruments, market
//! identifiers and trade sides.

use vstd::prelude::*;

use crate::text::{lower_chars, spec_decimal_chars, to_ascii_lowercase};

verus! {

/// A currency or asset symbol, e.g. "btc" or "USDT".
#[derive(Clone, Debug)]
pub struct Symbol(pub String);

impl View for Symbol {
    type V = Seq<char>;

    open spec fn view(&self) -> Seq<char> {
        self.0@
    }
}

impl Symbol {
    pub fn new(s: &str) -> (r: Symbol)
        ensures
            r@ == s@,
    {
        Symbol(String::from_str(s))
    }

    /// A fresh symbol with the same name.
    pub fn duplicate(&self) -> (r: Symbol)
        ensures
            r@ == self@,
    {
        Symbol(String::from_str(self.0.as_str()))
    }
}

impl PartialEq for Symbol {
    fn eq(&self, other: &Symbol) -> (r: bool) {
        self.0 == other.0
    }
}

impl vstd::std_specs::cmp::PartialEqSpecImpl for Symbol {
    open spec fn obeys_eq_spec() -> bool {
        true
    }

    open spec fn eq_spec(&self, other: &Symbol) -> bool {
        self.0@ == other.0@
    }
}

impl From<&str> for Symbol {
    fn from(s: &str) -> (r: Symbol) {
        Symbol::new(s)
    }
}

impl vstd::std_specs::convert::FromSpecImpl<&str> for Symbol {
    open spec fn obeys_from_spec() -> bool {
        false
    }

    open spec fn from_spec(s: &str) -> Symbol {
        arbitrary()
    }
}

/// A venue's interned name, e.g. "binance_futures_usd".
#[derive(Clone, Debug)]
pub struct Exchange(pub String);

impl View for Exchange {
    type V = Seq<char>;

    open spec fn view(&self) -> Seq<char> {
        self.0@
    }
}

impl Exchange {
    pub fn new(s: &str) -> (r: Exchange)
        ensures
            r@ == s@,
    {
        Exchange(String::from_str(s))
    }

    /// A fresh value naming the same venue.
    pub fn duplicate(&self) -> (r: Exchange)
        ensures
            r@ == self@,
    {
        Exchange(String::from_str(self.0.as_str()))
    }
}

impl PartialEq for Exchange {
    fn eq(&self, other: &Exchange) -> (r: bool) {
        self.0 == other.0
    }
}

impl vstd::std_specs::cmp::PartialEqSpecImpl for Exchange {
    open spec fn obeys_eq_spec() -> bool {
        true
    }

    open spec fn eq_spec(&self, other: &Exchange) -> bool {
        self.0@ == other.0@
    }
}

impl From<&str> for Exchange {
    fn from(s: &str) -> (r: Exchange) {
        Exchange::new(s)
    }
}

impl vstd::std_specs::convert::FromSpecImpl<&str> for Exchange {
    open spec fn obeys_from_spec() -> bool {
        false
    }

    open spec fn from_spec(s: &str) -> Exchange {
        arbitrary()
    }
}

/// Side of a trade or order.
#[derive(Copy, Clone, PartialEq, Eq, Structural, Hash, Debug)]
pub enum Side {
    Buy,
    Sell,
}

impl Side {
    /// The side's lower-case name.
    pub fn as_str(&self) -> (r: &'static str)
        ensures
            r@ == side_chars(*self),
    {
        match self {
            Side::Buy => "buy",
            Side::Sell => "sell",
        }
    }
}

pub open spec fn side_chars(s: Side) -> Seq<char> {
    match s {
        Side::Buy => "buy"@,
        Side::Sell => "sell"@,
    }
}

/// Side of a perpetual-contract position.
#[derive(Copy, Clone, PartialEq, Eq, Structural, Hash, Debug)]
pub enum PerpSide {
    Long,
    Short,
    Both,
}

impl PerpSide {
    /// The side's lower-case name.
    pub fn as_str(&self) -> (r: &'static str)
        ensures
            r@ == perp_side_chars(*self),
    {
        match self {
            PerpSide::Long => "long",
            PerpSide::Short => "short",
            PerpSide::Both => "both",
        }
    }
}

pub open spec fn perp_side_chars(s: PerpSide) -> Seq<char> {
    match s {
        PerpSide::Long => "long"@,
        PerpSide::Short => "short"@,
        PerpSide::Both => "both"@,
    }
}

/// A calendar date, used for contract expiries.
#[derive(Copy, Clone, PartialEq, Eq, Structural, Hash, Debug)]
pub struct ExpiryDate {
    pub year: u32,
    pub month: u8,
    pub day: u8,
}

/// Call or put.
#[derive(Copy, Clone, PartialEq, Eq, Structural, Hash, Debug)]
pub enum OptionKind {
    Call,
    Put,
}

/// A dated futures contract.
#[derive(Copy, Clone, PartialEq, Eq, Structural, Hash, Debug)]
pub struct FutureContract {
    pub expiry: ExpiryDate,
}

/// An options contract; the strike is in integer price units.
#[derive(Copy, Clone, PartialEq, Eq, Structural, Hash, Debug)]
pub struct OptionContract {
    pub kind: OptionKind,
    pub strike: u64,
    pub expiry: ExpiryDate,
}

/// The kind of tradable instrument.
#[derive(Copy, Clone, PartialEq, Eq, Structural, Hash, Debug)]
pub enum InstrumentKind {
    Spot,
    Perpetual,
    Future(FutureContract),
    OptionContract(OptionContract),
    Erc20,
}

impl InstrumentKind {
    /// The kind's lower-case name.
    pub fn as_str(&self) -> (r: &'static str)
        ensures
            r@ == kind_chars(*self),
    {
        match self {
            InstrumentKind::Spot => "spot",
            InstrumentKind::Perpetual => "perpetual",
            InstrumentKind::Future(_) => "future",
            InstrumentKind::OptionContract(_) => "option",
            InstrumentKind::Erc20 => "erc20",
        }
    }
}

pub open spec fn kind_chars(k: InstrumentKind) -> Seq<char> {
    match k {
        InstrumentKind::Spot => "spot"@,
        InstrumentKind::Perpetual => "perpetual"@,
        InstrumentKind::Future(_) => "future"@,
        InstrumentKind::OptionContract(_) => "option"@,
        InstrumentKind::Erc20 => "erc20"@,
    }
}

/// Mathematical image of an instrument.
pub struct InstrV {
    pub base: Seq<char>,
    pub quote: Seq<char>,
    pub kind: InstrumentKind,
}

/// A tradable instrument: base and quote symbols plus a kind.
#[derive(Clone, Debug)]
pub struct Instrument {
    pub base: Symbol,
    pub quote: Symbol,
    pub kind: InstrumentKind,
}

impl View for Instrument {
    type V = InstrV;

    open spec fn view(&self) -> InstrV {
        InstrV { base: self.base@, quote: self.quote@, kind: self.kind }
    }
}

impl Instrument {
    pub fn new(base: &str, quote: &str, kind: InstrumentKind) -> (r: Instrument)
        ensures
            r@.base == base@,
            r@.quote == quote@,
            r@.kind == kind,
    {
        Instrument { base: Symbol::new(base), quote: Symbol::new(quote), kind }
    }

    /// A fresh value for the same instrument.
    pub fn duplicate(&self) -> (r: Instrument)
        ensures
            r@ == self@,
    {
        Instrument {
            base: self.base.duplicate(),
            quote: self.quote.duplicate(),
            kind: self.kind,
        }
    }
}

impl PartialEq for Instrument {
    fn eq(&self, other: &Instrument) -> (r: bool) {
        self.base == other.base && self.quote == other.quote && self.kind == other.kind
    }
}

impl vstd::std_specs::cmp::PartialEqSpecImpl for Instrument {
    open spec fn obeys_eq_spec() -> bool {
        true
    }

    open spec fn eq_spec(&self, other: &Instrument) -> bool {
        self@ == other@
    }
}

/// A unique combination of an exchange and an instrument.
#[derive(Clone, Debug)]
pub struct Market {
    pub exchange: Exchange,
    pub instrument: Instrument,
}

impl Market {
    /// Constructs a new market from the provided exchange and instrument.
    pub fn new(exchange: Exchange, instrument: Instrument) -> (r: Market)
        ensures
            r.exchange@ == exchange@,
            r.instrument@ == instrument@,
    {
        Market { exchange, instrument }
    }
}

impl PartialEq for Market {
    fn eq(&self, other: &Market) -> (r: bool) {
        self.exchange == other.exchange && self.instrument == other.instrument
    }
}

impl vstd::std_specs::cmp::PartialEqSpecImpl for Market {
    open spec fn obeys_eq_spec() -> bool {
        true
    }

    open spec fn eq_spec(&self, other: &Market) -> bool {
        self.exchange@ == other.exchange@ && self.instrument@ == other.instrument@
    }
}

/// The string identifier of a market: exchange, base, quote and kind joined
/// by underscores, lower-cased when the parts are ASCII.
pub open spec fn market_id_chars(ex: Seq<char>, instr: InstrV) -> Seq<char> {
    let joined = ex + "_"@ + instr.base + "_"@ + instr.quote + "_"@ + kind_chars(instr.kind);
    if vstd::utf8::is_ascii_chars(joined) {
        lower_chars(joined)
    } else {
        joined
    }
}

/// A unique string identifier for a market, e.g. "binance_btc_usdt_spot".
#[derive(Clone, Debug)]
pub struct MarketId(pub String);

impl View for MarketId {
    type V = Seq<char>;

    open spec fn view(&self) -> Seq<char> {
        self.0@
    }
}

impl PartialEq for MarketId {
    fn eq(&self, other: &MarketId) -> (r: bool) {
        self.0 == other.0
    }
}

impl vstd::std_specs::cmp::PartialEqSpecImpl for MarketId {
    open spec fn obeys_eq_spec() -> bool {
        true
    }

    open spec fn eq_spec(&self, other: &MarketId) -> bool {
        self.0@ == other.0@
    }
}

impl MarketId {
    /// Construct the unique string identifier for a market.
    pub fn new(exchange: &Exchange, instrument: &Instrument) -> (r: MarketId)
        ensures
            r@ == market_id_chars(exchange@, instrument@),
    {
        let mut s = String::new();
        s.append(exchange.0.as_str());
        s.append("_");
        s.append(instrument.base.0.as_str());
        s.append("_");
        s.append(instrument.quote.0.as_str());
        s.append("_");
        s.append(instrument.kind.as_str());
        let lowered = to_ascii_lowercase(s.as_str());
        MarketId(lowered)
    }
}

/// A unique string identifier for a subscribed data stream.
#[derive(Clone, Debug)]
pub struct SubscriptionId(pub String);

impl View for SubscriptionId {
    type V = Seq<char>;

    open spec fn view(&self) -> Seq<char> {
        self.0@
    }
}

impl PartialEq for SubscriptionId {
    fn eq(&self, other: &SubscriptionId) -> (r: bool) {
        self.0 == other.0
    }
}

impl vstd::std_specs::cmp::PartialEqSpecImpl for SubscriptionId {
    open spec fn obeys_eq_spec() -> bool {
        true
    }

    open spec fn eq_spec(&self, other: &SubscriptionId) -> bool {
        self.0@ == other.0@
    }
}

impl From<&str> for SubscriptionId {
    fn from(s: &str) -> (r: SubscriptionId) {
        SubscriptionId(String::from_str(s))
    }
}

impl vstd::std_specs::convert::FromSpecImpl<&str> for SubscriptionId {
    open spec fn obeys_from_spec() -> bool {
        false
    }

    open spec fn from_spec(s: &str) -> SubscriptionId {
        arbitrary()
    }
}

/// Transport-level failures reported by venue integrations.
#[derive(Clone, Debug)]
pub enum SocketError {
    /// An HTTP response with the given status carried an error payload.
    HttpResponse(u16, String),
    /// A payload could not be deserialised.
    Deserialise(String),
    /// The connection terminated.
    Terminated,
}

/// Types that can check whether their own state is satisfactory for use.
pub trait Validator: Sized {
    /// Check whether `self` is valid for some use case.
    fn validate(self) -> Result<Self, SocketError>;
}

/// Render an epoch-millisecond timestamp in decimal, as venue query
/// parameters carry it.
pub fn timestamp_string(ms: u64) -> (r: String)
    ensures
        r@ == spec_decimal_chars(ms as nat),
{
    crate::text::u64_string(ms)
}

} // verus!
