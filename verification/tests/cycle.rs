use bybit_hedger::cycle::{cycle_step, start_cycle, CycleCommand, CycleEvent, CycleStage};
use bybit_hedger::decimal::Decimal;
use bybit_hedger::hedge::Action;

fn delta(text: &str) -> CycleEvent {
    CycleEvent::Delta(Decimal::parse(text).unwrap())
}

#[test]
fn a_run_starts_by_reading_the_delta() {
    let (stage, command) = start_cycle();
    assert_eq!(stage, CycleStage::Checking);
    assert!(matches!(command, CycleCommand::ReadDelta));
}

#[test]
fn a_delta_that_needs_no_trade_leads_to_rest() {
    let (stage, command) = cycle_step(CycleStage::Checking, delta("0.0001")).unwrap();
    assert_eq!(stage, CycleStage::Resting);
    assert!(matches!(command, CycleCommand::Sleep));
    let (stage, command) = cycle_step(stage, CycleEvent::Woke).unwrap();
    assert_eq!(stage, CycleStage::Checking);
    assert!(matches!(command, CycleCommand::ReadDelta));
}

#[test]
fn a_delta_that_needs_a_trade_goes_through_the_whole_cycle() {
    let (stage, command) = cycle_step(CycleStage::Checking, delta("0.0041234")).unwrap();
    assert_eq!(stage, CycleStage::Trading);
    match command {
        CycleCommand::Trade(Action::Sell(quantity)) => assert_eq!(quantity.to_text(), "0.004"),
        other => panic!("expected a sale, got {:?}", other),
    }
    let (stage, command) = cycle_step(stage, CycleEvent::Filled).unwrap();
    assert_eq!(stage, CycleStage::Confirming);
    assert!(matches!(command, CycleCommand::ReadDelta));
    // whatever the second reading shows, no second trade follows
    let (stage, command) = cycle_step(stage, delta("0.5")).unwrap();
    assert_eq!(stage, CycleStage::Resting);
    assert!(matches!(command, CycleCommand::Sleep));
    let (stage, command) = cycle_step(stage, CycleEvent::Woke).unwrap();
    assert_eq!(stage, CycleStage::Checking);
    assert!(matches!(command, CycleCommand::ReadDelta));
}

#[test]
fn a_negative_delta_is_bought_back_in_the_cycle() {
    let (stage, command) = cycle_step(CycleStage::Checking, delta("-1.25")).unwrap();
    assert_eq!(stage, CycleStage::Trading);
    match command {
        CycleCommand::Trade(Action::Buy(quantity)) => assert_eq!(quantity.to_text(), "1.25"),
        other => panic!("expected a purchase, got {:?}", other),
    }
}

#[test]
fn an_event_out_of_place_is_refused() {
    assert!(cycle_step(CycleStage::Checking, CycleEvent::Filled).is_none());
    assert!(cycle_step(CycleStage::Checking, CycleEvent::Woke).is_none());
    assert!(cycle_step(CycleStage::Trading, delta("1")).is_none());
    assert!(cycle_step(CycleStage::Trading, CycleEvent::Woke).is_none());
    assert!(cycle_step(CycleStage::Confirming, CycleEvent::Filled).is_none());
    assert!(cycle_step(CycleStage::Confirming, CycleEvent::Woke).is_none());
    assert!(cycle_step(CycleStage::Resting, delta("1")).is_none());
    assert!(cycle_step(CycleStage::Resting, CycleEvent::Filled).is_none());
}
