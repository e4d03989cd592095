//! The request-for-quote rendezvous.
//!
//! At runtime an HTTP server feeds inbound quote requests to a subscriber
//! and waits on a broadcast of responses; everything it decides while
//! waiting is the verified step function here: a response is delivered
//! exactly when its quote id matches the request's, other responses are
//! ignored, and a timeout or a dead channel answers with the literal body
//! "ok".

use vstd::prelude::*;

verus! {

/// How long a quote request waits for a matching response, in milliseconds.
pub const QUOTE_TIMEOUT_MS: u64 = 200;

/// An inbound quote request, as the wire carries it.
#[derive(Clone, Debug)]
pub struct QuoteRequest {
    pub request_id: String,
    pub token_in_chain_id: u32,
    pub token_out_chain_id: u32,
    pub swapper: String,
    pub token_in: String,
    pub token_out: String,
    pub amount: String,
    pub type_: u32,
    pub quote_id: String,
}

/// An outbound quote response.
#[derive(Clone, Debug)]
pub struct QuoteResponse {
    pub chain_id: u32,
    pub amount_in: String,
    pub amount_out: String,
    pub filler: String,
    pub request_id: String,
    pub swapper: String,
    pub token_in: String,
    pub token_out: String,
    pub quote_id: String,
}

/// The quoter service.
#[derive(Debug)]
pub struct UniswapxQuoter {}

impl UniswapxQuoter {
    pub fn new() -> (r: UniswapxQuoter)
        ensures
            r == (UniswapxQuoter {  }),
    {
        UniswapxQuoter {  }
    }

    /// The quote the reference subscriber answers with: the request echoed
    /// back, quoting the asked amount both ways, under the same quote id.
    pub fn respond(&self, request: QuoteRequest) -> (r: QuoteResponse)
        ensures
            r.quote_id@ == request.quote_id@,
            r.request_id@ == request.request_id@,
            r.chain_id == request.token_in_chain_id,
            r.amount_in@ == request.amount@,
            r.amount_out@ == request.amount@,
            r.swapper@ == request.swapper@,
            r.token_in@ == request.token_in@,
            r.token_out@ == request.token_out@,
    {
        let amount_out = String::from_str(request.amount.as_str());
        QuoteResponse {
            chain_id: request.token_in_chain_id,
            amount_in: request.amount,
            amount_out,
            filler: String::from_str("HERE's WHERE THE FILLER ADDRESS GOES"),
            request_id: request.request_id,
            swapper: request.swapper,
            token_in: request.token_in,
            token_out: request.token_out,
            quote_id: request.quote_id,
        }
    }
}

/// What the waiting request observes next: a broadcast response, a dead
/// channel, or the timeout elapsing.
#[derive(Debug)]
pub enum QuoteWaitEvent {
    Response(QuoteResponse),
    ChannelClosed,
    TimedOut,
}

/// What the waiting request does next.
#[derive(Debug)]
pub enum QuotePoll {
    /// Return this response: its quote id equals the request's.
    Deliver(QuoteResponse),
    /// Keep waiting: the response was for another request.
    KeepWaiting,
    /// Answer the plain body "ok": no matching quote arrived.
    ReplyOk,
}

/// One step of the rendezvous: a response is delivered exactly when its
/// quote id matches the request's; any other response is skipped; a closed
/// channel or the timeout ends the wait with the "ok" answer.
pub fn quote_step(quote_id: &String, event: QuoteWaitEvent) -> (r: QuotePoll)
    ensures
        match event {
            QuoteWaitEvent::Response(resp) => {
                if resp.quote_id@ == quote_id@ {
                    r == QuotePoll::Deliver(resp)
                } else {
                    r == QuotePoll::KeepWaiting
                }
            },
            QuoteWaitEvent::ChannelClosed => r == QuotePoll::ReplyOk,
            QuoteWaitEvent::TimedOut => r == QuotePoll::ReplyOk,
        },
{
    match event {
        QuoteWaitEvent::Response(resp) => {
            if resp.quote_id == *quote_id {
                QuotePoll::Deliver(resp)
            } else {
                QuotePoll::KeepWaiting
            }
        },
        QuoteWaitEvent::ChannelClosed => QuotePoll::ReplyOk,
        QuoteWaitEvent::TimedOut => QuotePoll::ReplyOk,
    }
}

/// The body returned when no quote matched in time.
pub fn timeout_body() -> (r: String)
    ensures
        r@ == "ok"@,
{
    String::from_str("ok")
}

/// Every delivered quote matches the request that waited for it, and a
/// request that never sees a matching response is never handed one: the
/// step function delivers a response exactly when its quote id equals the
/// request's.
pub proof fn lemma_quoter_match_id(quote_id: Seq<char>, resp: QuoteResponse, r: QuotePoll)
    requires
        r == (if resp.quote_id@ == quote_id {
            QuotePoll::Deliver(resp)
        } else {
            QuotePoll::KeepWaiting
        }),
    ensures
        r matches QuotePoll::Deliver(d) ==> d.quote_id@ == quote_id,
{
}

} // verus!
