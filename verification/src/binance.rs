//! The Binance venue integration: endpoints, signing configuration, query
//! construction and error classification.
//!
//! Everything here computes on plain values and is verified; the HTTP
//! transport that carries the signed queries lives outside the library.

use vstd::prelude::*;

use crate::error::ExecutionError;
use crate::model::{SocketError, Symbol};
use crate::order::{Order, OrderKind, OrderV, RequestOpen};
use crate::strategy::Decision;
use crate::text::{
    format_fixed, pow10, spec_contains, spec_decimal_chars, spec_fixed_chars, str_contains,
    to_ascii_uppercase, u128_string, upper_chars,
};

verus! {

/// Whether a venue configuration points at production or the testnet.
#[derive(Copy, Clone, PartialEq, Eq, Structural, Debug)]
pub enum LiveOrTest {
    Live,
    Test,
}

/// Which Binance API family a client talks to.
#[derive(Copy, Clone, PartialEq, Eq, Structural, Debug)]
pub enum BinanceApi {
    Spot(LiveOrTest),
    Futures(LiveOrTest),
}

/// Configuration for a Binance execution client.
#[derive(Copy, Clone, PartialEq, Eq, Structural, Debug)]
pub struct BinanceConfig {
    pub client_type: BinanceApi,
}

/// A venue symbol pair: upper-cased base and quote concatenated, as Binance
/// writes market symbols; parts that are not ASCII are kept as they are.
#[derive(Clone, Debug)]
pub struct BinancePair(pub String);

impl View for BinancePair {
    type V = Seq<char>;

    open spec fn view(&self) -> Seq<char> {
        self.0@
    }
}

/// The pair string Binance expects for a base and quote.
pub open spec fn pair_chars(base: Seq<char>, quote: Seq<char>) -> Seq<char> {
    if vstd::utf8::is_ascii_chars(base + quote) {
        upper_chars(base + quote)
    } else {
        base + quote
    }
}

impl BinancePair {
    pub fn new(base: &Symbol, quote: &Symbol) -> (r: BinancePair)
        ensures
            r@ == pair_chars(base@, quote@),
    {
        let mut cat = String::new();
        cat.append(base.0.as_str());
        cat.append(quote.0.as_str());
        BinancePair(to_ascii_uppercase(cat.as_str()))
    }
}

/// The side parameter a decision maps to: entries and short-covers buy,
/// exits and shorts sell.
pub fn get_order_side(side: Decision) -> (r: &'static str)
    ensures
        r@ == decision_side_chars(side),
{
    match side {
        Decision::Long => "BUY",
        Decision::Short => "SELL",
        Decision::CloseLong => "SELL",
        Decision::CloseShort => "BUY",
    }
}

pub open spec fn decision_side_chars(side: Decision) -> Seq<char> {
    match side {
        Decision::Long => "BUY"@,
        Decision::Short => "SELL"@,
        Decision::CloseLong => "SELL"@,
        Decision::CloseShort => "BUY"@,
    }
}

/// The upper-case side parameter of an order.
pub open spec fn side_param_chars(side: crate::model::Side) -> Seq<char> {
    match side {
        crate::model::Side::Buy => "BUY"@,
        crate::model::Side::Sell => "SELL"@,
    }
}

/// The REST base URL for each API family.
pub fn get_url(api_type: BinanceApi) -> (r: &'static str)
    ensures
        r@ == url_chars(api_type),
{
    match api_type {
        BinanceApi::Spot(_) => "https://api.binance.com",
        BinanceApi::Futures(LiveOrTest::Live) => "https://fapi.binance.com",
        BinanceApi::Futures(LiveOrTest::Test) => "https://testnet.binancefuture.com",
    }
}

pub open spec fn url_chars(api_type: BinanceApi) -> Seq<char> {
    match api_type {
        BinanceApi::Spot(_) => "https://api.binance.com"@,
        BinanceApi::Futures(LiveOrTest::Live) => "https://fapi.binance.com"@,
        BinanceApi::Futures(LiveOrTest::Test) => "https://testnet.binancefuture.com"@,
    }
}

/// The order-placement path for each API family; order placement is offered
/// on the futures endpoints.
pub fn order_path(api_type: BinanceApi) -> (r: Option<&'static str>)
    ensures
        api_type is Futures <==> r == Some("/fapi/v1/order"),
        api_type is Spot ==> r is None,
{
    match api_type {
        BinanceApi::Futures(_) => Some("/fapi/v1/order"),
        BinanceApi::Spot(_) => None,
    }
}

/// The query-string parameters of one order, in the order the venue
/// documents them: symbol, side, quantity, client order id, then the
/// kind-specific parameters. A limit order is good-till-cancelled and
/// carries its price; a market order asks for a full result payload.
/// Prices and quantities are fixed-point with `decimals` fractional digits.
pub open spec fn order_params_chars(o: OrderV<RequestOpen>, decimals: nat) -> Seq<char> {
    let head = "symbol="@ + pair_chars(o.instrument.base, o.instrument.quote) + "&side="@
        + side_param_chars(o.side) + "&quantity="@ + spec_fixed_chars(
        o.state.quantity as nat,
        decimals,
    ) + "&newClientOrderId="@ + spec_decimal_chars(o.cid as nat);
    match o.state.kind {
        OrderKind::Limit => head + "&type=LIMIT&timeInForce=GTC&price="@ + spec_fixed_chars(
            o.state.price as nat,
            decimals,
        ),
        OrderKind::Market => head + "&type=MARKET&newOrderRespType=RESULT"@,
    }
}

/// Build the query-string parameters for opening one order.
pub fn open_order_query(order: &Order<RequestOpen>, decimals: u32) -> (r: String)
    requires
        pow10(decimals as nat) <= u64::MAX,
    ensures
        r@ == order_params_chars(order@, decimals as nat),
{
    let mut q = String::new();
    q.append("symbol=");
    let pair = BinancePair::new(&order.instrument.base, &order.instrument.quote);
    q.append(pair.0.as_str());
    q.append("&side=");
    match order.side {
        crate::model::Side::Buy => q.append("BUY"),
        crate::model::Side::Sell => q.append("SELL"),
    }
    q.append("&quantity=");
    let qty = format_fixed(order.state.quantity, decimals);
    q.append(qty.as_str());
    q.append("&newClientOrderId=");
    let cid = u128_string(order.cid.0);
    q.append(cid.as_str());
    match order.state.kind {
        OrderKind::Limit => {
            q.append("&type=LIMIT&timeInForce=GTC&price=");
            let price = format_fixed(order.state.price, decimals);
            q.append(price.as_str());
        },
        OrderKind::Market => {
            q.append("&type=MARKET&newOrderRespType=RESULT");
        },
    }
    q
}

/// The concatenated parameters of a whole batch, one order after another,
/// joined with ampersands.
pub open spec fn batch_params_chars(orders: Seq<Order<RequestOpen>>, decimals: nat) -> Seq<char>
    decreases orders.len(),
{
    if orders.len() == 0 {
        Seq::empty()
    } else if orders.len() == 1 {
        order_params_chars(orders.last()@, decimals)
    } else {
        batch_params_chars(orders.drop_last(), decimals) + "&"@ + order_params_chars(
            orders.last()@,
            decimals,
        )
    }
}

/// Build the batch-order query: every order's parameters joined under the
/// batch parameter.
pub fn open_orders_query(orders: &Vec<Order<RequestOpen>>, decimals: u32) -> (r: String)
    requires
        pow10(decimals as nat) <= u64::MAX,
    ensures
        r@ == "batchOrders="@ + batch_params_chars(orders@, decimals as nat),
{
    let mut q = String::new();
    q.append("batchOrders=");
    let n = orders.len();
    let mut i: usize = 0;
    proof {
        assert(orders@.take(0) =~= Seq::<Order<RequestOpen>>::empty());
    }
    while i < n
        invariant
            n == orders@.len(),
            i <= n,
            pow10(decimals as nat) <= u64::MAX,
            q@ == "batchOrders="@ + batch_params_chars(orders@.take(i as int), decimals as nat),
        decreases n - i,
    {
        if i > 0 {
            q.append("&");
        }
        let params = open_order_query(&orders[i], decimals);
        q.append(params.as_str());
        proof {
            assert(orders@.take(i + 1).drop_last() =~= orders@.take(i as int));
            assert(orders@.take(i + 1).last() == orders@[i as int]);
        }
        i += 1;
    }
    proof {
        assert(orders@.take(n as int) =~= orders@);
    }
    q
}

/// The user-data stream address for a listen key.
pub fn user_stream_url(listen_key: &str) -> (r: String)
    ensures
        r@ == "wss://fstream.binancefuture.com/ws/"@ + listen_key@,
{
    let mut url = String::new();
    url.append("wss://fstream.binancefuture.com/ws/");
    url.append(listen_key);
    url
}

/// Authentication material for signing private Binance requests: the API
/// key sent in the header, and the clock skew subtracted from each
/// timestamp, in milliseconds.
#[derive(Clone, Debug)]
pub struct BinanceSigner {
    pub api_key: String,
    pub timestamp_delta: i64,
}

impl BinanceSigner {
    pub fn init(api_key: String, timestamp_delta: i64) -> (r: BinanceSigner)
        ensures
            r.api_key@ == api_key@,
            r.timestamp_delta == timestamp_delta,
    {
        BinanceSigner { api_key, timestamp_delta }
    }

    /// The timestamp a request carries: the current time less the skew,
    /// clamped into the unsigned range instead of wrapping.
    pub fn request_timestamp(&self, now_ms: u64) -> (r: u64)
        ensures
            now_ms - self.timestamp_delta < 0 ==> r == 0,
            0 <= now_ms - self.timestamp_delta <= u64::MAX ==> r == now_ms
                - self.timestamp_delta,
            now_ms - self.timestamp_delta > u64::MAX ==> r == u64::MAX,
    {
        let now = now_ms as i128;
        let delta = self.timestamp_delta as i128;
        if delta > now {
            0
        } else {
            let d = now - delta;
            if d > (u64::MAX as i128) {
                u64::MAX
            } else {
                d as u64
            }
        }
    }
}

/// One signing round's inputs: the API key for the header and the exact
/// query string that was signed.
#[derive(Debug)]
pub struct BinanceSignConfig<'a> {
    pub api_key: &'a str,
    pub query_string: String,
}

/// Classifies Binance error payloads into the execution error taxonomy.
#[derive(Copy, Clone, Debug)]
pub struct BinanceParser;

impl BinanceParser {
    /// An error payload that reports invalid login credentials is an
    /// authorisation failure; anything else is a transport-level error
    /// carrying the HTTP status and the payload.
    pub fn parse_api_error(&self, status: u16, error_text: String) -> (r: ExecutionError)
        ensures
            spec_contains(error_text@, "Invalid login credentials"@) ==> (r matches
                ExecutionError::Unauthorised(m) && m@ == error_text@),
            !spec_contains(error_text@, "Invalid login credentials"@) ==> (r matches
                ExecutionError::Socket(SocketError::HttpResponse(s, m)) && s == status && m@
                == error_text@),
    {
        if str_contains(error_text.as_str(), "Invalid login credentials") {
            ExecutionError::Unauthorised(error_text)
        } else {
            ExecutionError::Socket(SocketError::HttpResponse(status, error_text))
        }
    }
}

} // verus!
