use cerebrum::strategy::Decision;

#[test]
fn should_return_decision_is_long() {
    let decision = Decision::Long;
    assert_eq!(decision.is_long(), true)
}

#[test]
fn should_return_decision_is_not_long() {
    let decision = Decision::Short;
    assert_eq!(decision.is_long(), false)
}

#[test]
fn should_return_decision_is_short() {
    let decision = Decision::Short;
    assert_eq!(decision.is_short(), true)
}

#[test]
fn should_return_decision_is_not_short() {
    let decision = Decision::Long;
    assert_eq!(decision.is_short(), false)
}

#[test]
fn should_return_decision_is_entry() {
    let decision = Decision::Long;
    assert_eq!(decision.is_entry(), true)
}

#[test]
fn should_return_decision_is_not_entry() {
    let decision = Decision::CloseLong;
    assert_eq!(decision.is_entry(), false)
}

#[test]
fn should_return_decision_is_exit() {
    let decision = Decision::CloseShort;
    assert_eq!(decision.is_exit(), true)
}

#[test]
fn should_return_decision_is_not_exit() {
    let decision = Decision::Long;
    assert_eq!(decision.is_exit(), false)
}

#[test]
fn order_sides_follow_decisions() {
    assert_eq!(cerebrum::binance::get_order_side(Decision::Long), "BUY");
    assert_eq!(cerebrum::binance::get_order_side(Decision::Short), "SELL");
    assert_eq!(cerebrum::binance::get_order_side(Decision::CloseLong), "SELL");
    assert_eq!(cerebrum::binance::get_order_side(Decision::CloseShort), "BUY");
    assert_eq!(cerebrum::uniswapx::get_order_side(Decision::Long), "BUY");
    assert_eq!(cerebrum::uniswapx::get_order_side(Decision::CloseShort), "BUY");
}
