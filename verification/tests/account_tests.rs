use cerebrum::account::{Account, AccountEventKind, Accounts};
use cerebrum::balance::{Balance, SymbolBalance};
use cerebrum::model::{Exchange, Instrument, InstrumentKind, Side, Symbol};
use cerebrum::order::{Cancelled, ClientOrderId, InFlight, Open, Order, OrderId};
use cerebrum::trade::{SymbolFees, Trade, TradeId};

fn btc_usdt() -> Instrument {
    Instrument::new("btc", "usdt", InstrumentKind::Perpetual)
}

fn usdt_balance(total: u64, available: u64) -> SymbolBalance {
    SymbolBalance::new(Symbol::new("USDT"), Balance::new(total, available))
}

fn open_order(cid: u128, order_id: &str) -> Order<Open> {
    Order {
        exchange: "binance_futures_usd".into(),
        instrument: btc_usdt(),
        cid: ClientOrderId(cid),
        side: Side::Buy,
        state: Open {
            id: OrderId::new(order_id),
            price: 3_000_000,
            quantity: 100,
            filled_quantity: 0,
        },
    }
}

fn in_flight_order(cid: u128) -> Order<InFlight> {
    Order {
        exchange: "binance_futures_usd".into(),
        instrument: btc_usdt(),
        cid: ClientOrderId(cid),
        side: Side::Buy,
        state: InFlight,
    }
}

fn cancelled_order(cid: u128) -> Order<Cancelled> {
    Order {
        exchange: "binance_futures_usd".into(),
        instrument: btc_usdt(),
        cid: ClientOrderId(cid),
        side: Side::Buy,
        state: Cancelled { id: OrderId::new("0") },
    }
}

fn buy_trade(quantity: u64, fee: u64) -> Trade {
    Trade {
        id: TradeId("1".to_string()),
        order_id: OrderId::new("11"),
        instrument: btc_usdt(),
        side: Side::Buy,
        price: 3_000_000,
        quantity,
        fees: SymbolFees { symbol: Symbol::new("USDT"), fees: fee },
    }
}

#[test]
fn trade_fill_moves_position_and_debits_fee() {
    // A buy of 0.01 at 30000 with a 0.3 USDT fee, in hundredths.
    let mut account = Account::new();
    account.apply(AccountEventKind::Balance(usdt_balance(100_000, 100_000)));
    account.apply(AccountEventKind::Trade(buy_trade(1, 30)));

    assert_eq!(account.position_quantity(&btc_usdt()), 1);
    let balance = account.balance_of(&Symbol::new("USDT")).unwrap();
    assert_eq!(balance.available, 99_970);
    assert_eq!(balance.total, 99_970);
}

#[test]
fn buy_then_sell_returns_the_position_to_its_prior_quantity() {
    let mut account = Account::new();
    account.apply(AccountEventKind::Balance(usdt_balance(100_000, 100_000)));
    account.apply(AccountEventKind::Trade(buy_trade(7, 0)));
    assert_eq!(account.position_quantity(&btc_usdt()), 7);

    let mut sell = buy_trade(7, 0);
    sell.side = Side::Sell;
    account.apply(AccountEventKind::Trade(sell));
    assert_eq!(account.position_quantity(&btc_usdt()), 0);
}

#[test]
fn trade_on_a_missing_balance_leaves_balances_unchanged() {
    let mut account = Account::new();
    account.apply(AccountEventKind::Trade(buy_trade(1, 30)));
    assert_eq!(account.position_quantity(&btc_usdt()), 1);
    assert!(account.balance_of(&Symbol::new("USDT")).is_none());
}

#[test]
fn uncovered_fee_is_not_debited() {
    let mut account = Account::new();
    account.apply(AccountEventKind::Balance(usdt_balance(100, 10)));
    account.apply(AccountEventKind::Trade(buy_trade(1, 50)));
    let balance = account.balance_of(&Symbol::new("USDT")).unwrap();
    assert_eq!(balance.available, 10);
    assert_eq!(balance.total, 100);
}

#[test]
fn malformed_balances_are_ignored() {
    let mut account = Account::new();
    account.apply(AccountEventKind::Balance(SymbolBalance {
        symbol: Symbol::new("USDT"),
        balance: Balance { total: 5, available: 9 },
    }));
    assert!(account.balance_of(&Symbol::new("USDT")).is_none());

    account.apply(AccountEventKind::Balances(vec![
        usdt_balance(50, 50),
        SymbolBalance {
            symbol: Symbol::new("BUSD"),
            balance: Balance { total: 1, available: 2 },
        },
    ]));
    assert!(account.balance_of(&Symbol::new("USDT")).is_none());
    assert!(account.balance_of(&Symbol::new("BUSD")).is_none());

    account.apply(AccountEventKind::Balances(vec![usdt_balance(50, 40)]));
    assert_eq!(account.balance_of(&Symbol::new("USDT")).unwrap().available, 40);
}

#[test]
fn orders_new_moves_a_cid_from_in_flight_to_open() {
    let mut account = Account::new();
    account.record_in_flight(in_flight_order(42));
    assert!(account.in_flight_contains(42));
    assert!(!account.open_contains(42));

    account.apply(AccountEventKind::OrdersNew(vec![open_order(42, "22542179")]));
    assert!(!account.in_flight_contains(42));
    assert!(account.open_contains(42));
    assert_eq!(account.get_open(42).unwrap().state.id.0, "22542179");
}

#[test]
fn orders_new_accepts_an_unknown_cid() {
    let mut account = Account::new();
    account.apply(AccountEventKind::OrdersNew(vec![open_order(9, "77")]));
    assert!(account.open_contains(9));
}

#[test]
fn orders_open_snapshot_replaces_and_reconciles() {
    let mut account = Account::new();
    account.record_in_flight(in_flight_order(1));
    account.apply(AccountEventKind::OrdersNew(vec![open_order(2, "20")]));

    account.apply(AccountEventKind::OrdersOpen(vec![open_order(1, "10"), open_order(3, "30")]));
    assert!(!account.in_flight_contains(1));
    assert!(account.open_contains(1));
    assert!(!account.open_contains(2));
    assert!(account.open_contains(3));
}

#[test]
fn no_cid_is_both_in_flight_and_open() {
    let mut account = Account::new();
    account.record_in_flight(in_flight_order(5));
    // The venue echoes the same id as open: the id must leave the
    // in-flight set as it enters the open set.
    account.apply(AccountEventKind::OrdersNew(vec![open_order(5, "50")]));
    assert!(!(account.in_flight_contains(5) && account.open_contains(5)));

    // Recording the same id as in-flight again is refused while it is open.
    account.record_in_flight(in_flight_order(5));
    assert!(!(account.in_flight_contains(5) && account.open_contains(5)));
}

#[test]
fn cancel_all_removes_both_open_orders() {
    let mut account = Account::new();
    account.apply(AccountEventKind::OrdersNew(vec![
        open_order(1, "10"),
        open_order(2, "20"),
    ]));
    assert!(account.open_contains(1) && account.open_contains(2));

    let response = cerebrum::portal::response_event(
        cerebrum::portal::VenueResponse::CancelOrdersAll(Ok(vec![
            cancelled_order(1),
            cancelled_order(2),
        ])),
    )
    .unwrap();
    match &response {
        AccountEventKind::OrdersCancelled(orders) => assert_eq!(orders.len(), 2),
        other => panic!("expected a cancellation event, got {other:?}"),
    }
    account.apply(response);
    assert!(!account.open_contains(1));
    assert!(!account.open_contains(2));
}

#[test]
fn accounts_route_events_to_the_named_venue() {
    let mut accounts = Accounts::init(vec![
        Exchange::new("binance_futures_usd"),
        Exchange::new("uniswapx"),
    ]);
    assert!(accounts.contains(&Exchange::new("binance_futures_usd")));
    assert!(!accounts.contains(&Exchange::new("kraken")));

    accounts.apply_event(
        &Exchange::new("binance_futures_usd"),
        AccountEventKind::Balance(usdt_balance(7, 7)),
    );
    let account = accounts.get(&Exchange::new("binance_futures_usd")).unwrap();
    assert_eq!(account.balance_of(&Symbol::new("USDT")).unwrap().total, 7);
    let other = accounts.get(&Exchange::new("uniswapx")).unwrap();
    assert!(other.balance_of(&Symbol::new("USDT")).is_none());

    // An event for an untracked venue changes nothing.
    accounts.apply_event(&Exchange::new("kraken"), AccountEventKind::Balance(usdt_balance(1, 1)));
    assert!(!accounts.contains(&Exchange::new("kraken")));
}

#[test]
fn a_trade_that_would_overflow_the_position_is_ignored() {
    let mut account = Account::new();
    account.apply(AccountEventKind::Trade(buy_trade(i64::MAX as u64, 0)));
    assert_eq!(account.position_quantity(&btc_usdt()), i64::MAX);

    // One more bought unit would leave the representable range: the
    // position part of the event is ignored and the state stays intact.
    account.apply(AccountEventKind::Trade(buy_trade(1, 0)));
    assert_eq!(account.position_quantity(&btc_usdt()), i64::MAX);
}
