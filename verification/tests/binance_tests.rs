use cerebrum::account::AccountEventKind;
use cerebrum::binance::{
    open_order_query, open_orders_query, BinanceApi, BinancePair, BinanceParser, BinanceSigner,
    LiveOrTest,
};
use cerebrum::binance_types::{
    event_type_from_str, process_message, BinFutExecutionType, BinFutOrderType,
    BinanceBalanceUpdate, BinanceFutOrder, BinanceFutOrderStatus, BinanceFutOrderUpdate,
    BinanceFuturesEventType, BinancePositionUpdate, BinanceWsMessage,
};
use cerebrum::error::ExecutionError;
use cerebrum::model::{InstrumentKind, PerpSide, Side, SocketError, Symbol};
use cerebrum::order::{ClientOrderId, Order, OrderKind, RequestOpen};

fn sample_order(status: BinanceFutOrderStatus) -> BinanceFutOrderUpdate {
    BinanceFutOrderUpdate {
        event_type: BinanceFuturesEventType::OrderTradeUpdate,
        event_time: 1_568_879_465_651,
        transaction_time: 1_568_879_465_650,
        order: BinanceFutOrder {
            symbol: Symbol::new("BTCUSDT"),
            client_order_id: "TEST".to_string(),
            side: Side::Buy,
            order_type: BinFutOrderType::Limit,
            time_in_force: "GTC".to_string(),
            original_quantity: 1000,
            original_price: 0,
            average_price: 0,
            stop_price: 710304,
            execution_type: BinFutExecutionType::New,
            order_status: status,
            order_id: 8886774,
            order_last_filled_quantity: 0,
            order_filled_accumulated_quantity: 0,
            last_filled_price: 0,
            commission_asset: Some(Symbol::new("USDT")),
            commission: Some(0),
            order_trade_time: 1_568_879_465_650,
            trade_id: 0,
            bids_notional: 0,
            ask_notional: 991,
            is_maker_side: false,
            is_reduce_only: false,
            is_close_all: None,
            activation_price: None,
            callback_rate: None,
            is_price_protection: None,
            realized_profit: None,
            stp_mode: "EXPIRE_TAKER".to_string(),
            price_match_mode: "OPPONENT".to_string(),
            tif_gtd_order_auto_cancel_time: 0,
            position_side: PerpSide::Long,
        },
    }
}

#[test]
fn test_order_update() {
    let order_update = sample_order(BinanceFutOrderStatus::New);

    let account_event: AccountEventKind = order_update.into();
    match account_event {
        AccountEventKind::Trade(trade) => {
            assert_eq!(trade.id.0, "0");
            assert_eq!(trade.order_id.0, "8886774");
            assert_eq!(trade.instrument.base, "BTCUSDT".into());
            assert_eq!(trade.instrument.quote, "BTCUSDT".into());
            assert_eq!(trade.side, Side::Buy);
            assert_eq!(trade.price, 0);
            assert_eq!(trade.quantity, 0);
            assert_eq!(trade.fees.symbol, "USDT".into());
            assert_eq!(trade.fees.fees, 0);
        }
        _ => panic!("unexpected account event"),
    }
}

#[test]
fn process_message_emits_trades_only_for_fills() {
    let filled = process_message(BinanceWsMessage::OrderUpdate(sample_order(
        BinanceFutOrderStatus::Filled,
    )));
    assert_eq!(filled.len(), 1);
    assert!(matches!(filled[0], AccountEventKind::Trade(_)));

    let partial = process_message(BinanceWsMessage::OrderUpdate(sample_order(
        BinanceFutOrderStatus::PartiallyFilled,
    )));
    assert_eq!(partial.len(), 1);

    let fresh = process_message(BinanceWsMessage::OrderUpdate(sample_order(
        BinanceFutOrderStatus::New,
    )));
    assert_eq!(fresh.len(), 0);

    assert_eq!(process_message(BinanceWsMessage::Unparsed).len(), 0);
}

#[test]
fn process_message_splits_account_updates() {
    let update = cerebrum::binance_types::BinanceAccountUpdate {
        event_type: BinanceFuturesEventType::AccountUpdate,
        event_time: 1_564_745_798_939,
        transaction_time: 1_564_745_798_938,
        update_data: cerebrum::binance_types::BinanceAccountUpdateData {
            reason: "ORDER".to_string(),
            balance_updates: vec![BinanceBalanceUpdate {
                asset: Symbol::new("USDT"),
                wallet_balance: 12_262_412,
                cross_wallet_balance: 10_012,
                balance_change: 5_012,
            }],
            position_updates: vec![BinancePositionUpdate {
                symbol: Symbol::new("BTCUSDT"),
                position_amount: 20,
                entry_price: 656_366,
                breakeven_price: 656_360,
                accumulated_realized: 0,
                unrealized_pnl: 285_021,
                margin_type: "isolated".to_string(),
                isolated_wallet: 1_320_070,
                position_side: PerpSide::Long,
            }],
        },
    };
    let events = process_message(BinanceWsMessage::AccountUpdate(update));
    assert_eq!(events.len(), 2);
    match &events[0] {
        AccountEventKind::Balances(balances) => {
            assert_eq!(balances.len(), 1);
            assert_eq!(balances[0].symbol, "USDT".into());
            assert_eq!(balances[0].balance.total, 12_272_424);
            assert_eq!(balances[0].balance.available, 12_272_424);
        }
        other => panic!("expected a balances event, got {other:?}"),
    }
    match &events[1] {
        AccountEventKind::Positions(positions) => {
            assert_eq!(positions.len(), 1);
            assert_eq!(positions[0].quantity, 20);
            assert_eq!(positions[0].entry_price, 656_366);
            assert_eq!(positions[0].side, PerpSide::Long);
        }
        other => panic!("expected a positions event, got {other:?}"),
    }
}

#[test]
fn event_types_parse_exactly() {
    assert_eq!(
        event_type_from_str("ACCOUNT_UPDATE"),
        Some(BinanceFuturesEventType::AccountUpdate)
    );
    assert_eq!(
        event_type_from_str("ORDER_TRADE_UPDATE"),
        Some(BinanceFuturesEventType::OrderTradeUpdate)
    );
    assert_eq!(event_type_from_str("MARGIN_CALL"), None);
}

#[test]
fn open_order_query_writes_venue_parameters() {
    let order = Order {
        exchange: "binance_futures_usd".into(),
        instrument: cerebrum::model::Instrument::new("eth", "usdt", InstrumentKind::Perpetual),
        cid: ClientOrderId(7),
        side: Side::Buy,
        state: RequestOpen {
            kind: OrderKind::Limit,
            price: 100_000_000,
            quantity: 10,
        },
    };
    let query = open_order_query(&order, 4);
    assert_eq!(
        query,
        "symbol=ETHUSDT&side=BUY&quantity=0.001&newClientOrderId=7&type=LIMIT&timeInForce=GTC&price=10000"
    );

    let market = Order {
        state: RequestOpen {
            kind: OrderKind::Market,
            price: 0,
            quantity: 25_000,
        },
        side: Side::Sell,
        ..order
    };
    let query = open_order_query(&market, 4);
    assert_eq!(
        query,
        "symbol=ETHUSDT&side=SELL&quantity=2.5&newClientOrderId=7&type=MARKET&newOrderRespType=RESULT"
    );

    let batch = open_orders_query(&vec![market], 4);
    assert_eq!(
        batch,
        "batchOrders=symbol=ETHUSDT&side=SELL&quantity=2.5&newClientOrderId=7&type=MARKET&newOrderRespType=RESULT"
    );
}

#[test]
fn pair_upper_cases_ascii_symbols() {
    let pair = BinancePair::new(&Symbol::new("eth"), &Symbol::new("usdt"));
    assert_eq!(pair.0, "ETHUSDT");
}

#[test]
fn urls_follow_api_family() {
    assert_eq!(
        cerebrum::binance::get_url(BinanceApi::Futures(LiveOrTest::Live)),
        "https://fapi.binance.com"
    );
    assert_eq!(
        cerebrum::binance::get_url(BinanceApi::Futures(LiveOrTest::Test)),
        "https://testnet.binancefuture.com"
    );
    assert_eq!(
        cerebrum::binance::get_url(BinanceApi::Spot(LiveOrTest::Live)),
        "https://api.binance.com"
    );
}

#[test]
fn auth_failures_are_classified() {
    let parser = BinanceParser;
    let err = parser.parse_api_error(400, "{\"msg\":\"Invalid login credentials\"}".to_string());
    assert!(matches!(err, ExecutionError::Unauthorised(_)));

    let err = parser.parse_api_error(502, "bad gateway".to_string());
    match err {
        ExecutionError::Socket(SocketError::HttpResponse(status, body)) => {
            assert_eq!(status, 502);
            assert_eq!(body, "bad gateway");
        }
        other => panic!("expected a transport error, got {other:?}"),
    }

    let parser = cerebrum::uniswapx::UniswapxParser;
    let err = parser.parse_api_error(401, "Invalid login credentials".to_string());
    assert!(matches!(err, ExecutionError::Unauthorised(_)));
}

#[test]
fn request_timestamps_subtract_the_skew() {
    let signer = BinanceSigner::init("api-key".to_string(), 250);
    assert_eq!(signer.request_timestamp(1_693_207_680_000), 1_693_207_679_750);
    let signer = BinanceSigner::init("api-key".to_string(), -250);
    assert_eq!(signer.request_timestamp(1_693_207_680_000), 1_693_207_680_250);
    let signer = BinanceSigner::init("api-key".to_string(), i64::MAX);
    assert_eq!(signer.request_timestamp(5), 0);
}
