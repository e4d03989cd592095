//! The UniswapX venue integration: client configuration, signing material,
//! pair naming, quote echoing and error classification.

use vstd::prelude::*;

use crate::error::ExecutionError;
use crate::model::{Instrument, SocketError, Symbol};
use crate::quoter::{QuoteRequest, QuoteResponse, UniswapxQuoter};
use crate::strategy::Decision;
use crate::text::{spec_contains, str_contains, to_ascii_uppercase};

verus! {

/// Whether a configuration points at production or a test deployment.
#[derive(Copy, Clone, PartialEq, Eq, Structural, Debug)]
pub enum LiveOrTest {
    Live,
    Test,
}

/// Which API family a client talks to.
#[derive(Copy, Clone, PartialEq, Eq, Structural, Debug)]
pub enum UniswapxApi {
    Spot(LiveOrTest),
    Futures(LiveOrTest),
}

/// A UniswapX execution client; the quote server it runs lives outside the
/// library.
#[derive(Debug)]
pub struct UniswapxClient {}

impl UniswapxClient {
    pub fn new(_api_type: UniswapxApi) -> (r: UniswapxClient)
        ensures
            r == (UniswapxClient {  }),
    {
        UniswapxClient {  }
    }
}

/// Answer one inbound quote request: the request echoed back as a quote, a
/// quote id preserved.
pub fn handle_quote_request(request: QuoteRequest) -> (r: QuoteResponse)
    ensures
        r.quote_id@ == request.quote_id@,
        r.request_id@ == request.request_id@,
        r.chain_id == request.token_in_chain_id,
        r.amount_in@ == request.amount@,
        r.amount_out@ == request.amount@,
        r.swapper@ == request.swapper@,
        r.token_in@ == request.token_in@,
        r.token_out@ == request.token_out@,
{
    let quoter = UniswapxQuoter::new();
    quoter.respond(request)
}

/// The side parameter a decision maps to.
pub fn get_order_side(side: Decision) -> (r: &'static str)
    ensures
        r@ == crate::binance::decision_side_chars(side),
{
    match side {
        Decision::Long => "BUY",
        Decision::Short => "SELL",
        Decision::CloseLong => "SELL",
        Decision::CloseShort => "BUY",
    }
}

/// Authentication material for signing private requests.
#[derive(Debug)]
pub struct UniswapxSigner {
    pub api_key: String,
    pub timestamp_delta: i64,
}

impl UniswapxSigner {
    pub fn init(api_key: String, timestamp_delta: i64) -> (r: UniswapxSigner)
        ensures
            r.api_key@ == api_key@,
            r.timestamp_delta == timestamp_delta,
    {
        UniswapxSigner { api_key, timestamp_delta }
    }
}

/// A venue symbol pair: upper-cased base and quote concatenated; parts that
/// are not ASCII are kept as they are.
#[derive(Clone, Debug)]
pub struct UniswapxPair(pub String);

impl View for UniswapxPair {
    type V = Seq<char>;

    open spec fn view(&self) -> Seq<char> {
        self.0@
    }
}

impl UniswapxPair {
    pub fn new(base: &Symbol, quote: &Symbol) -> (r: UniswapxPair)
        ensures
            r@ == crate::binance::pair_chars(base@, quote@),
    {
        let mut cat = String::new();
        cat.append(base.0.as_str());
        cat.append(quote.0.as_str());
        UniswapxPair(to_ascii_uppercase(cat.as_str()))
    }
}

/// Index instruments by their venue pair name, in the given order; a later
/// instrument with the same pair shadows an earlier one when the sequence
/// is read as a map.
pub fn instruments_map(instruments: Vec<Instrument>) -> (r: Vec<(UniswapxPair, Instrument)>)
    ensures
        r@.len() == instruments@.len(),
        forall|i: int|
            0 <= i < r@.len() ==> (#[trigger] r@[i]).0@ == crate::binance::pair_chars(
                instruments@[i]@.base,
                instruments@[i]@.quote,
            ) && r@[i].1 == instruments@[i],
{
    let ghost orig = instruments@;
    let mut r: Vec<(UniswapxPair, Instrument)> = Vec::new();
    let mut rest = instruments;
    proof {
        assert(orig.skip(0) =~= orig);
    }
    while rest.len() > 0
        invariant
            rest@.len() <= orig.len(),
            rest@ == orig.skip(orig.len() - rest@.len()),
            r@.len() == orig.len() - rest@.len(),
            forall|i: int|
                0 <= i < r@.len() ==> (#[trigger] r@[i]).0@ == crate::binance::pair_chars(
                    orig[i]@.base,
                    orig[i]@.quote,
                ) && r@[i].1 == orig[i],
        decreases rest@.len(),
    {
        let ghost k = orig.len() - rest@.len();
        let instrument = rest.remove(0);
        proof {
            assert(instrument == orig.skip(k)[0]);
            assert(orig.skip(k)[0] == orig[k]);
            assert(rest@ =~= orig.skip(k + 1));
        }
        let pair = UniswapxPair::new(&instrument.base, &instrument.quote);
        r.push((pair, instrument));
    }
    r
}

/// Classifies UniswapX error payloads into the execution error taxonomy.
#[derive(Copy, Clone, Debug)]
pub struct UniswapxParser;

impl UniswapxParser {
    /// An error payload that reports invalid login credentials is an
    /// authorisation failure; anything else is a transport-level error
    /// carrying the HTTP status and the payload.
    pub fn parse_api_error(&self, status: u16, error_text: String) -> (r: ExecutionError)
        ensures
            spec_contains(error_text@, "Invalid login credentials"@) ==> (r matches
                ExecutionError::Unauthorised(m) && m@ == error_text@),
            !spec_contains(error_text@, "Invalid login credentials"@) ==> (r matches
                ExecutionError::Socket(SocketError::HttpResponse(s, m)) && s == status && m@
                == error_text@),
    {
        if str_contains(error_text.as_str(), "Invalid login credentials") {
            ExecutionError::Unauthorised(error_text)
        } else {
            ExecutionError::Socket(SocketError::HttpResponse(status, error_text))
        }
    }
}

} // verus!
