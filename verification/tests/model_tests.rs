use cerebrum::book::{Level, OrderBookSide};
use cerebrum::channel::BinanceChannel;
use cerebrum::gateio::{format_expiry, GateioMarket};
use cerebrum::model::{
    Exchange, ExpiryDate, FutureContract, Instrument, InstrumentKind, Market, MarketId,
    OptionContract, OptionKind, PerpSide, Side,
};
use cerebrum::order::{ClientOrderId, Order, OrderId, OrderKind, RequestOpen};
use cerebrum::order_event::{OrderEvent, OrderEventError, OrderExecutionType, OrderType};
use cerebrum::strategy::{Decision, MarketMeta};

#[test]
fn market_ids_join_and_lower_case() {
    let market = Market::new(
        Exchange::new("Binance"),
        Instrument::new("BTC", "usd", InstrumentKind::Spot),
    );
    let id = MarketId::new(&market.exchange, &market.instrument);
    assert_eq!(id.0, "binance_btc_usd_spot");

    let perp = MarketId::new(
        &Exchange::new("ftx_old"),
        &Instrument::new("btc", "usd", InstrumentKind::Perpetual),
    );
    assert_eq!(perp.0, "ftx_old_btc_usd_perpetual");
}

#[test]
fn sides_have_lower_case_names() {
    assert_eq!(Side::Buy.as_str(), "buy");
    assert_eq!(Side::Sell.as_str(), "sell");
    assert_eq!(PerpSide::Long.as_str(), "long");
    assert_eq!(PerpSide::Short.as_str(), "short");
    assert_eq!(PerpSide::Both.as_str(), "both");
}

#[test]
fn gateio_markets_follow_the_instrument_kind() {
    let spot = GateioMarket::new(&Instrument::new("btc", "usdt", InstrumentKind::Spot));
    assert_eq!(spot.0, "BTC_USDT");

    let future = GateioMarket::new(&Instrument::new(
        "btc",
        "usdt",
        InstrumentKind::Future(FutureContract {
            expiry: ExpiryDate { year: 2024, month: 12, day: 31 },
        }),
    ));
    assert_eq!(future.0, "BTC_USDT_QUARTERLY_20241231");

    let option = GateioMarket::new(&Instrument::new(
        "btc",
        "usdt",
        InstrumentKind::OptionContract(OptionContract {
            kind: OptionKind::Call,
            strike: 30000,
            expiry: ExpiryDate { year: 2025, month: 3, day: 7 },
        }),
    ));
    assert_eq!(option.0, "BTC_USDT-20250307-30000-C");
}

#[test]
fn expiries_are_zero_padded() {
    assert_eq!(format_expiry(ExpiryDate { year: 987, month: 1, day: 2 }), "09870102");
}

#[test]
fn channels_name_their_streams() {
    assert_eq!(BinanceChannel::trades().as_str(), "@trade");
    assert_eq!(BinanceChannel::order_book_l1().as_str(), "@bookTicker");
    assert_eq!(BinanceChannel::liquidations().as_str(), "@forceOrder");
}

#[test]
fn order_lifecycle_moves_one_stage_at_a_time() {
    let requested = Order {
        exchange: Exchange::new("binance_futures_usd"),
        instrument: Instrument::new("eth", "usdt", InstrumentKind::Perpetual),
        cid: ClientOrderId(11),
        side: Side::Buy,
        state: RequestOpen { kind: OrderKind::Limit, price: 10_000, quantity: 1 },
    };
    let in_flight = requested.into_in_flight();
    assert_eq!(in_flight.cid, ClientOrderId(11));

    let open = in_flight.into_open(OrderId::from_number(22542179), 10_000, 1);
    assert_eq!(open.cid, ClientOrderId(11));
    assert_eq!(open.state.id.0, "22542179");
    assert_eq!(open.state.filled_quantity, 0);

    let cancelled = open.into_cancelled();
    assert_eq!(cancelled.cid, ClientOrderId(11));
    assert_eq!(cancelled.state.id.0, "22542179");
}

#[test]
fn book_sides_keep_one_level_per_price() {
    let mut side = OrderBookSide::new();
    side.upsert(Level::new(100, 5));
    side.upsert(Level::new(101, 7));
    side.upsert(Level::new(100, 9));
    assert_eq!(side.0.len(), 2);

    // A zero amount removes the level.
    side.upsert(Level::new(101, 0));
    assert_eq!(side.0.len(), 1);
    assert_eq!(side.0[0].price, 100);
    assert_eq!(side.0[0].amount, 9);
}

#[test]
fn order_events_build_only_when_complete() {
    let builder = OrderEvent::builder()
        .time(1_001)
        .exchange(Exchange::new("binance_futures_usd"))
        .instrument(Instrument::new("eth", "usdt", InstrumentKind::Perpetual))
        .market_meta(MarketMeta { close: 10_000, time: 1_000 })
        .decision(Decision::Long)
        .quantity(3)
        .order_type(OrderType::Limit {
            price: 10_000,
            execution_type: OrderExecutionType::Standard,
        });
    let event = builder.build(77).unwrap();
    assert_eq!(event.id, 77);
    assert_eq!(event.quantity, 3);
    assert_eq!(event.decision, Decision::Long);

    let missing_time = OrderEvent::builder().exchange(Exchange::new("x")).build(0);
    match missing_time {
        Err(OrderEventError::BuilderIncomplete(field)) => assert_eq!(field, "time"),
        other => panic!("expected an incomplete-builder error, got {other:?}"),
    }

    let missing_quantity = OrderEvent::builder()
        .time(1)
        .exchange(Exchange::new("x"))
        .instrument(Instrument::new("a", "b", InstrumentKind::Spot))
        .market_meta(MarketMeta { close: 1, time: 1 })
        .decision(Decision::Short)
        .build(0);
    match missing_quantity {
        Err(OrderEventError::BuilderIncomplete(field)) => assert_eq!(field, "quantity"),
        other => panic!("expected an incomplete-builder error, got {other:?}"),
    }
}

#[test]
fn force_exits_carry_their_market() {
    let signal = cerebrum::strategy::SignalForceExit::new(
        9,
        Exchange::new("binance_futures_usd"),
        Instrument::new("eth", "usdt", InstrumentKind::Perpetual),
    );
    assert_eq!(signal.time, 9);
    assert_eq!(signal.exchange, Exchange::new("binance_futures_usd"));
}

#[test]
fn instruments_index_by_their_pair_name() {
    let pairs = cerebrum::uniswapx::instruments_map(vec![
        Instrument::new("eth", "usdt", InstrumentKind::Erc20),
        Instrument::new("wbtc", "usdc", InstrumentKind::Erc20),
    ]);
    assert_eq!(pairs.len(), 2);
    assert_eq!(pairs[0].0 .0, "ETHUSDT");
    assert_eq!(pairs[1].0 .0, "WBTCUSDC");
    assert_eq!(pairs[1].1, Instrument::new("wbtc", "usdc", InstrumentKind::Erc20));
}
