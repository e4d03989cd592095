use cerebrum::quoter::{
    quote_step, timeout_body, QuotePoll, QuoteRequest, QuoteResponse, QuoteWaitEvent,
    UniswapxQuoter, QUOTE_TIMEOUT_MS,
};

fn request(quote_id: &str) -> QuoteRequest {
    QuoteRequest {
        request_id: "test-request-id".to_string(),
        token_in_chain_id: 1,
        token_out_chain_id: 2,
        swapper: "test-swapper-address".to_string(),
        token_in: "test-token-in-address".to_string(),
        token_out: "test-token-out-address".to_string(),
        amount: "100".to_string(),
        type_: 1,
        quote_id: quote_id.to_string(),
    }
}

fn response(quote_id: &str) -> QuoteResponse {
    QuoteResponse {
        chain_id: 1,
        amount_in: "100".to_string(),
        amount_out: "100".to_string(),
        filler: "Test filler address".to_string(),
        request_id: "test-request-id".to_string(),
        swapper: "test-swapper-address".to_string(),
        token_in: "test-token-in-address".to_string(),
        token_out: "test-token-out-address".to_string(),
        quote_id: quote_id.to_string(),
    }
}

#[test]
fn quoter_times_out_with_the_ok_body() {
    // No subscriber responds within the window: the server answers "ok".
    let waiting_for = "X".to_string();
    let poll = quote_step(&waiting_for, QuoteWaitEvent::TimedOut);
    assert!(matches!(poll, QuotePoll::ReplyOk));
    assert_eq!(timeout_body(), "ok");
    assert_eq!(QUOTE_TIMEOUT_MS, 200);
}

#[test]
fn quoter_delivers_only_the_matching_response() {
    // Responses for other requests are skipped; the matching one is
    // delivered.
    let waiting_for = "42".to_string();
    let poll = quote_step(&waiting_for, QuoteWaitEvent::Response(response("41")));
    assert!(matches!(poll, QuotePoll::KeepWaiting));

    let poll = quote_step(&waiting_for, QuoteWaitEvent::Response(response("42")));
    match poll {
        QuotePoll::Deliver(delivered) => assert_eq!(delivered.quote_id, "42"),
        other => panic!("expected a delivery, got {other:?}"),
    }
}

#[test]
fn quoter_answers_ok_when_the_channel_dies() {
    let waiting_for = "7".to_string();
    let poll = quote_step(&waiting_for, QuoteWaitEvent::ChannelClosed);
    assert!(matches!(poll, QuotePoll::ReplyOk));
}

#[test]
fn responses_echo_the_request() {
    let quoter = UniswapxQuoter::new();
    let answered = quoter.respond(request("17"));
    assert_eq!(answered.quote_id, "17");
    assert_eq!(answered.request_id, "test-request-id");
    assert_eq!(answered.chain_id, 1);
    assert_eq!(answered.amount_in, "100");
    assert_eq!(answered.amount_out, "100");

    let echoed = cerebrum::uniswapx::handle_quote_request(request("9"));
    assert_eq!(echoed.quote_id, "9");
    assert_eq!(echoed.token_in, "test-token-in-address");
}
