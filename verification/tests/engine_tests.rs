use cerebrum::account::{AccountEvent, AccountEventKind, Accounts};
use cerebrum::engine::{Engine, EngineState};
use cerebrum::event::{Command, Event, EventFeed, MarketEvent, MarketEventKind};
use cerebrum::model::{Exchange, Instrument, InstrumentKind, Side};
use cerebrum::order::{ClientOrderId, InFlight, Open, Order, OrderId, OrderKind, RequestOpen};
use cerebrum::portal::ExecutionRequest;
use cerebrum::strategy::{IndicatorUpdater, OrderGenerator};
use cerebrum::trade::{SymbolFees, Trade, TradeId};

fn binance() -> Exchange {
    Exchange::new("binance_futures_usd")
}

fn eth_usdt() -> Instrument {
    Instrument::new("eth", "usdt", InstrumentKind::Perpetual)
}

fn market_event() -> MarketEvent {
    MarketEvent {
        exchange_time: 1_000,
        received_time: 1_001,
        exchange: binance(),
        instrument: eth_usdt(),
        kind: MarketEventKind::Trade { price: 10_000, quantity: 5, side: Side::Buy },
    }
}

/// Emits one buy limit order on the first market event, then nothing.
struct OneShotStrategy {
    emitted: bool,
}

impl IndicatorUpdater for OneShotStrategy {
    fn update_indicators(&mut self, _market: &MarketEvent) {}
}

impl OrderGenerator for OneShotStrategy {
    fn generate_cancels(
        &mut self,
        _accounts: &Accounts,
    ) -> Option<Vec<(Exchange, Vec<Order<cerebrum::order::RequestCancel>>)>> {
        None
    }

    fn generate_orders(
        &mut self,
        _accounts: &Accounts,
    ) -> Option<Vec<(Exchange, Vec<Order<RequestOpen>>)>> {
        if self.emitted {
            return None;
        }
        self.emitted = true;
        let order = Order {
            exchange: binance(),
            instrument: eth_usdt(),
            cid: ClientOrderId(901),
            side: Side::Buy,
            state: RequestOpen { kind: OrderKind::Limit, price: 10_000, quantity: 1 },
        };
        Some(vec![(binance(), vec![order])])
    }
}

#[test]
fn limit_order_round_trip() {
    let accounts = Accounts::init(vec![binance()]);
    let mut engine = Engine::new(accounts);
    let mut strategy = OneShotStrategy { emitted: false };

    // The first market event makes the strategy emit one buy limit order:
    // exactly one open request goes out and the id is recorded in-flight.
    let requests = engine.process_event(&mut strategy, Event::Market(market_event()));
    assert_eq!(requests.len(), 1);
    match &requests[0] {
        ExecutionRequest::OpenOrders(groups) => {
            assert_eq!(groups.len(), 1);
            assert_eq!(groups[0].0, binance());
            assert_eq!(groups[0].1.len(), 1);
            assert_eq!(groups[0].1[0].state.price, 10_000);
        }
        other => panic!("expected an open request, got {other:?}"),
    }
    let account = engine.accounts.get(&binance()).unwrap();
    assert!(account.in_flight_contains(901));

    // The venue confirms the order open under its own id: the engine
    // observes the confirmation, and the id moves from in-flight to open.
    let confirmed = Order {
        exchange: binance(),
        instrument: eth_usdt(),
        cid: ClientOrderId(901),
        side: Side::Buy,
        state: Open {
            id: OrderId::from_number(22542179),
            price: 10_000,
            quantity: 1,
            filled_quantity: 0,
        },
    };
    let event = AccountEvent::new(binance(), 1_002, AccountEventKind::OrdersNew(vec![confirmed]));
    let requests = engine.process_event(&mut strategy, Event::Account(event));
    assert!(requests.is_empty());

    let account = engine.accounts.get(&binance()).unwrap();
    assert!(!account.in_flight_contains(901));
    assert!(account.open_contains(901));
    assert_eq!(account.get_open(901).unwrap().state.id.0, "22542179");
}

#[test]
fn terminate_is_absorbing() {
    let accounts = Accounts::init(vec![binance()]);
    let mut engine = Engine::new(accounts);
    let mut strategy = OneShotStrategy { emitted: false };

    let requests = engine.process_event(&mut strategy, Event::Command(Command::Terminate));
    assert!(requests.is_empty());
    assert_eq!(engine.state, EngineState::Terminated);

    // A terminated engine ignores further events.
    let requests = engine.process_event(&mut strategy, Event::Market(market_event()));
    assert!(requests.is_empty());
    assert_eq!(engine.state, EngineState::Terminated);
}

#[test]
fn exit_all_zeroes_every_position() {
    let mut accounts = Accounts::init(vec![binance()]);
    accounts.apply_event(
        &binance(),
        AccountEventKind::Trade(Trade {
            id: TradeId("1".to_string()),
            order_id: OrderId::new("11"),
            instrument: eth_usdt(),
            side: Side::Buy,
            price: 10_000,
            quantity: 5,
            fees: SymbolFees {
                symbol: cerebrum::model::Symbol::new("USDT"),
                fees: 0,
            },
        }),
    );
    let mut engine = Engine::new(accounts);
    let mut strategy = OneShotStrategy { emitted: true };

    let requests = engine.process_event(&mut strategy, Event::Command(Command::ExitAllPositions));
    assert_eq!(requests.len(), 1);
    match &requests[0] {
        ExecutionRequest::OpenOrders(groups) => {
            assert_eq!(groups.len(), 1);
            assert_eq!(groups[0].1.len(), 1);
            let order = &groups[0].1[0];
            assert_eq!(order.side, Side::Sell);
            assert_eq!(order.state.kind, OrderKind::Market);
            assert_eq!(order.state.quantity, 5);
            assert_eq!(order.instrument, eth_usdt());
        }
        other => panic!("expected an open request, got {other:?}"),
    }
    // Synthesizing exit orders reads the accounts without changing them.
    let account = engine.accounts.get(&binance()).unwrap();
    assert_eq!(account.position_quantity(&eth_usdt()), 5);
}

#[test]
fn in_flight_record_survives_until_confirmation() {
    let mut accounts = Accounts::init(vec![binance()]);
    accounts.record_in_flight(
        &binance(),
        Order {
            exchange: binance(),
            instrument: eth_usdt(),
            cid: ClientOrderId(7),
            side: Side::Buy,
            state: InFlight,
        },
    );
    let account = accounts.get(&binance()).unwrap();
    assert!(account.in_flight_contains(7));
}

#[test]
fn feed_is_first_in_first_out() {
    let mut feed = EventFeed::new();
    assert!(feed.next().is_none());
    feed.push(Event::Command(Command::Terminate));
    feed.push(Event::Market(market_event()));
    feed.push(Event::Command(Command::ExitAllPositions));
    assert_eq!(feed.len(), 3);
    assert!(matches!(feed.next(), Some(Event::Command(Command::Terminate))));
    assert!(matches!(feed.next(), Some(Event::Market(_))));
    assert!(matches!(feed.next(), Some(Event::Command(Command::ExitAllPositions))));
    assert!(feed.next().is_none());
}

#[test]
fn exit_position_only_touches_the_named_instrument() {
    let mut accounts = Accounts::init(vec![binance()]);
    for (instrument, quantity) in [(eth_usdt(), 5u64), (btc_usdt(), 3u64)] {
        accounts.apply_event(
            &binance(),
            AccountEventKind::Trade(Trade {
                id: TradeId("1".to_string()),
                order_id: OrderId::new("11"),
                instrument,
                side: Side::Buy,
                price: 10_000,
                quantity,
                fees: SymbolFees {
                    symbol: cerebrum::model::Symbol::new("USDT"),
                    fees: 0,
                },
            }),
        );
    }
    let mut engine = Engine::new(accounts);
    let mut strategy = OneShotStrategy { emitted: true };

    let market = cerebrum::model::Market::new(binance(), btc_usdt());
    let requests =
        engine.process_event(&mut strategy, Event::Command(Command::ExitPosition(market)));
    assert_eq!(requests.len(), 1);
    match &requests[0] {
        ExecutionRequest::OpenOrders(groups) => {
            assert_eq!(groups.len(), 1);
            assert_eq!(groups[0].1.len(), 1);
            assert_eq!(groups[0].1[0].instrument, btc_usdt());
            assert_eq!(groups[0].1[0].state.quantity, 3);
            assert_eq!(groups[0].1[0].side, Side::Sell);
        }
        other => panic!("expected an open request, got {other:?}"),
    }
}

fn btc_usdt() -> Instrument {
    Instrument::new("btc", "usdt", InstrumentKind::Perpetual)
}
