use ta_engine::{Action, IndicatorResult, StrategyResult, RESULT_SIZE};

#[test]
fn indicator_result_truncates_to_capacity() {
    // Six values supplied: only the first four are retained.
    let r = IndicatorResult::new(&[1, 2, 3, 4, 5, 6]);
    assert_eq!(r.values_length(), 4);
    assert_eq!(r.size(), 4);
    assert_eq!(r.values(), &[1, 2, 3, 4]);
}

#[test]
fn indicator_result_keeps_short_input_in_order() {
    let r = IndicatorResult::new(&[7, -3]);
    assert_eq!(r.values_length(), 2);
    assert_eq!(r.values(), &[7, -3]);
    assert_eq!(r.value(0), 7);
    assert_eq!(r.value(1), -3);
}

#[test]
fn indicator_result_of_nothing_is_empty() {
    let r = IndicatorResult::new(&[]);
    assert_eq!(r.values_length(), 0);
    assert_eq!(r.values(), &[] as &[i64]);
}

#[test]
fn indicator_result_capacity_is_four() {
    assert_eq!(RESULT_SIZE, 4);
    let r = IndicatorResult::new(&[0; 4]);
    assert_eq!(r.values_length(), 4);
}

#[test]
fn strategy_result_tracks_counts_independently() {
    // Two values beside one signal: the two counts legitimately differ.
    let r = StrategyResult::new(&[10, 20], &[Action::BuyAll]);
    assert_eq!(r.values_length(), 2);
    assert_eq!(r.signals_length(), 1);
    assert_eq!(r.size(), (2, 1));
    assert_eq!(r.values(), &[10, 20]);
    assert_eq!(r.signals(), &[Action::BuyAll]);
}

#[test]
fn strategy_result_truncates_both_sides() {
    let signals = [
        Action::BuyAll,
        Action::SellAll,
        Action::Hold,
        Action::BuyAll,
        Action::SellAll,
    ];
    let r = StrategyResult::new(&[1, 2, 3, 4, 5, 6], &signals);
    assert_eq!(r.size(), (4, 4));
    assert_eq!(r.values(), &[1, 2, 3, 4]);
    assert_eq!(
        r.signals(),
        &[Action::BuyAll, Action::SellAll, Action::Hold, Action::BuyAll]
    );
}

#[test]
fn strategy_result_indexed_accessors() {
    let r = StrategyResult::new(&[5, 6, 7], &[Action::Hold, Action::SellAll]);
    assert_eq!(r.value(2), 7);
    assert_eq!(r.signal(1), Action::SellAll);
}

#[test]
fn default_signal_is_neutral() {
    assert_eq!(Action::default(), Action::Hold);
}
