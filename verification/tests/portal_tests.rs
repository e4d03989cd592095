use cerebrum::account::AccountEventKind;
use cerebrum::error::ExecutionError;
use cerebrum::model::{Exchange, Instrument, InstrumentKind, Side};
use cerebrum::order::{Cancelled, ClientOrderId, Open, Order, OrderId, OrderKind, RequestOpen};
use cerebrum::portal::{
    dispatch_request, remove_error_responses, response_event, ExecutionRequest, VenueCall,
    VenueResponse,
};

fn open_order(cid: u128) -> Order<Open> {
    Order {
        exchange: Exchange::new("binance_futures_usd"),
        instrument: Instrument::new("btc", "usdt", InstrumentKind::Perpetual),
        cid: ClientOrderId(cid),
        side: Side::Buy,
        state: Open { id: OrderId::new("5"), price: 10, quantity: 1, filled_quantity: 0 },
    }
}

#[test]
fn requests_split_into_one_call_per_venue() {
    let pairs = dispatch_request(ExecutionRequest::FetchBalances(vec![
        Exchange::new("binance_futures_usd"),
        Exchange::new("uniswapx"),
    ]));
    assert_eq!(pairs.len(), 2);
    assert_eq!(pairs[0].0, Exchange::new("binance_futures_usd"));
    assert!(matches!(pairs[0].1, VenueCall::FetchBalances));
    assert_eq!(pairs[1].0, Exchange::new("uniswapx"));

    let order = Order {
        exchange: Exchange::new("binance_futures_usd"),
        instrument: Instrument::new("btc", "usdt", InstrumentKind::Perpetual),
        cid: ClientOrderId(3),
        side: Side::Buy,
        state: RequestOpen { kind: OrderKind::Limit, price: 10, quantity: 1 },
    };
    let pairs = dispatch_request(ExecutionRequest::OpenOrders(vec![(
        Exchange::new("binance_futures_usd"),
        vec![order],
    )]));
    assert_eq!(pairs.len(), 1);
    match &pairs[0].1 {
        VenueCall::OpenOrders(orders) => {
            assert_eq!(orders.len(), 1);
            assert_eq!(orders[0].cid, ClientOrderId(3));
        }
        other => panic!("expected an open call, got {other:?}"),
    }

    let pairs = dispatch_request(ExecutionRequest::CancelOrdersAll(vec![Exchange::new(
        "uniswapx",
    )]));
    assert_eq!(pairs.len(), 1);
    assert!(matches!(pairs[0].1, VenueCall::CancelOrdersAll));
}

#[test]
fn failed_per_order_results_are_dropped_in_order() {
    let results: Vec<Result<u64, ExecutionError>> = vec![
        Ok(1),
        Err(ExecutionError::Simulated("boom".to_string())),
        Ok(3),
    ];
    assert_eq!(remove_error_responses(results), vec![1, 3]);
}

#[test]
fn responses_become_account_events() {
    let event = response_event(VenueResponse::OpenOrders(vec![
        Ok(open_order(1)),
        Err(ExecutionError::Simulated("rejected".to_string())),
    ]))
    .unwrap();
    match event {
        AccountEventKind::OrdersNew(orders) => {
            assert_eq!(orders.len(), 1);
            assert_eq!(orders[0].cid, ClientOrderId(1));
        }
        other => panic!("expected a new-orders event, got {other:?}"),
    }

    let event = response_event(VenueResponse::FetchOrdersOpen(Ok(vec![open_order(2)])));
    match event {
        Some(AccountEventKind::OrdersOpen(orders)) => assert_eq!(orders.len(), 1),
        other => panic!("expected an open-orders snapshot, got {other:?}"),
    }

    // A failed venue-wide call yields no event, so no state changes.
    let event = response_event(VenueResponse::FetchBalances(Err(
        ExecutionError::Unauthorised("Invalid login credentials".to_string()),
    )));
    assert!(event.is_none());
    let event: Option<AccountEventKind> = response_event(VenueResponse::CancelOrdersAll(Err(
        ExecutionError::Simulated("down".to_string()),
    )));
    assert!(event.is_none());

    let cancelled: Vec<Result<Order<Cancelled>, ExecutionError>> = vec![Err(
        ExecutionError::OrderNotFound(ClientOrderId(9)),
    )];
    let event = response_event(VenueResponse::CancelOrders(cancelled)).unwrap();
    match event {
        AccountEventKind::OrdersCancelled(orders) => assert!(orders.is_empty()),
        other => panic!("expected a cancellation event, got {other:?}"),
    }
}
