use std::str::FromStr;

use bybit_hedger::bybit::{AssetInfo, List, Response};
use bybit_hedger::decimal::Decimal;
use bybit_hedger::hedge::{decide_action, get_current_delta, Action, DeltaError};

fn asset(total_delta: &str) -> AssetInfo {
    AssetInfo {
        base_coin: "BTC".to_owned(),
        total_delta: total_delta.to_owned(),
        total_gamma: "0".to_owned(),
        total_vega: "0".to_owned(),
        total_theta: "0".to_owned(),
        total_rpl: "0".to_owned(),
        session_upl: "0".to_owned(),
        session_rpl: "0".to_owned(),
        im: "0".to_owned(),
        mm: "0".to_owned(),
    }
}

fn answer(assets: Vec<AssetInfo>) -> Response<List<AssetInfo>> {
    Response {
        ret_code: 0,
        ret_msg: "OK".to_owned(),
        result: List { result_total_size: assets.len() as i32, data_list: assets },
    }
}

fn same_number(quantity: &Decimal, text: &str) -> bool {
    rust_decimal::Decimal::from_i128_with_scale(quantity.mantissa(), quantity.scale())
        == rust_decimal::Decimal::from_str(text).unwrap()
}

#[test]
fn a_small_positive_delta_is_sold() {
    let delta = Decimal::parse("0.0041234").unwrap();
    match decide_action(delta) {
        Some(Action::Sell(quantity)) => {
            assert_eq!((quantity.mantissa(), quantity.scale()), (4, 3));
            assert_eq!(quantity.to_text(), "0.004");
            assert!(same_number(&quantity, "0.004"));
        }
        other => panic!("expected a sale, got {:?}", other),
    }
}

#[test]
fn a_negative_delta_is_bought_back() {
    let delta = Decimal::parse("-1.25").unwrap();
    match decide_action(delta) {
        Some(Action::Buy(quantity)) => {
            assert!(same_number(&quantity, "1.250"));
            assert_eq!(quantity.to_text(), "1.25");
        }
        other => panic!("expected a purchase, got {:?}", other),
    }
}

#[test]
fn a_delta_that_rounds_to_zero_needs_no_trade() {
    assert!(decide_action(Decimal::parse("0.0001").unwrap()).is_none());
    assert!(decide_action(Decimal::parse("-0.0004").unwrap()).is_none());
    assert!(decide_action(Decimal::parse("0").unwrap()).is_none());
    assert!(decide_action(Decimal::parse("0.000").unwrap()).is_none());
    assert!(decide_action(Decimal::parse("-0.00049").unwrap()).is_none());
}

#[test]
fn half_a_thousandth_is_traded() {
    match decide_action(Decimal::parse("0.0005").unwrap()) {
        Some(Action::Sell(quantity)) => assert_eq!(quantity.to_text(), "0.001"),
        other => panic!("expected a sale, got {:?}", other),
    }
    match decide_action(Decimal::parse("-0.0005").unwrap()) {
        Some(Action::Buy(quantity)) => assert_eq!(quantity.to_text(), "0.001"),
        other => panic!("expected a purchase, got {:?}", other),
    }
}

#[test]
fn the_quantity_is_never_negative() {
    for text in ["12.3456", "-12.3456", "0.001", "-0.001", "5", "-5", "0.0015", "-7.7777"] {
        let action = decide_action(Decimal::parse(text).unwrap()).unwrap();
        let quantity = action.quantity();
        assert!(quantity.mantissa() > 0);
        assert!(quantity.scale() <= 3);
        let buys = matches!(action, Action::Buy(_));
        assert_eq!(buys, text.starts_with('-'));
        assert_eq!(action.side(), if buys { "Buy" } else { "Sell" });
    }
}

#[test]
fn the_delta_is_that_of_the_first_asset() {
    let response = answer(vec![asset("0.0041234"), asset("-9.5")]);
    let delta = get_current_delta(&response).unwrap();
    assert_eq!((delta.mantissa(), delta.scale()), (41234, 7));
}

#[test]
fn no_asset_is_an_error() {
    let response = answer(Vec::new());
    assert_eq!(get_current_delta(&response).err(), Some(DeltaError::NoAssets));
}

#[test]
fn an_unreadable_delta_is_an_error() {
    let response = answer(vec![asset("n/a"), asset("1.0")]);
    assert_eq!(get_current_delta(&response).err(), Some(DeltaError::UnreadableDelta));
}

#[test]
fn the_return_code_is_not_looked_at() {
    let mut response = answer(vec![asset("-1.25")]);
    response.ret_code = 10001;
    let delta = get_current_delta(&response).unwrap();
    assert_eq!((delta.mantissa(), delta.scale()), (-125, 2));
}
