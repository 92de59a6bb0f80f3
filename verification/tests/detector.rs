use ta_engine::{Action, Error, Method, ReversalSignal};

fn fresh(left: u8, right: u8) -> ReversalSignal {
    ReversalSignal::new(left, right, 0).expect("valid lags")
}

#[test]
fn warm_up_emits_only_neutral() {
    // Fewer inputs than left + right + 1: every signal is neutral.
    let mut d = fresh(2, 2);
    for v in [1i64, 2, 3, 2] {
        assert_eq!(d.next(v), Action::Hold);
    }
}

#[test]
fn warm_up_holds_for_other_lags() {
    let mut d = fresh(1, 3);
    for v in [9i64, 8, 7, 6] {
        assert_eq!(d.next(v), Action::Hold);
    }
}

#[test]
fn peak_gives_downward_signal_on_fifth_value() {
    let mut d = fresh(2, 2);
    let signals: Vec<Action> = [1i64, 2, 3, 2, 1].iter().map(|&v| d.next(v)).collect();
    assert_eq!(
        signals,
        vec![Action::Hold, Action::Hold, Action::Hold, Action::Hold, Action::SellAll]
    );
}

#[test]
fn trough_gives_upward_signal_on_fifth_value() {
    let mut d = fresh(2, 2);
    let signals: Vec<Action> = [5i64, 4, 3, 4, 5].iter().map(|&v| d.next(v)).collect();
    assert_eq!(
        signals,
        vec![Action::Hold, Action::Hold, Action::Hold, Action::Hold, Action::BuyAll]
    );
}

#[test]
fn flat_window_is_neutral() {
    // No strictly lower neighbor on either side: not a pivot.
    let mut d = fresh(2, 2);
    for _ in 0..6 {
        assert_eq!(d.next(3), Action::Hold);
    }
}

#[test]
fn plateau_at_candidate_position_still_fires() {
    // The maximum also occurs elsewhere, but the fixed candidate position is
    // tested, and it has a strictly lower neighbor on each side.
    let mut d = fresh(2, 2);
    let signals: Vec<Action> = [1i64, 3, 3, 2, 1].iter().map(|&v| d.next(v)).collect();
    assert_eq!(signals[4], Action::SellAll);
}

#[test]
fn window_slides_and_detects_later_pivot() {
    let mut d = fresh(1, 1);
    assert_eq!(d.next(1), Action::Hold);
    assert_eq!(d.next(2), Action::Hold);
    assert_eq!(d.next(5), Action::Hold); // window [1, 2, 5]: 2 is no extremum
    assert_eq!(d.next(4), Action::SellAll); // window [2, 5, 4]: 5 is a peak
    assert_eq!(d.next(6), Action::BuyAll); // window [5, 4, 6]: 4 is a trough
}

#[test]
fn zero_left_lag_is_rejected() {
    match ReversalSignal::new(0, 2, 0) {
        Err(Error::WrongConfig) => {}
        _ => panic!("a zero left lag must be an invalid configuration"),
    }
}

#[test]
fn zero_right_lag_is_rejected() {
    match ReversalSignal::new(3, 0, 0) {
        Err(Error::WrongConfig) => {}
        _ => panic!("a zero right lag must be an invalid configuration"),
    }
}

#[test]
fn oversized_window_is_rejected() {
    // 200 + 60 + 1 does not fit the bounded period type.
    match ReversalSignal::new(200, 60, 0) {
        Err(Error::WrongConfig) => {}
        _ => panic!("an overflowing window length must be an invalid configuration"),
    }
}

#[test]
fn widest_valid_window_is_accepted() {
    assert!(ReversalSignal::new(200, 54, 0).is_ok());
}

#[test]
fn seed_does_not_count_toward_warm_up() {
    // The construction seed pre-fills storage only: the first left + right
    // + 1 pushed values alone fill the window.
    let mut d = ReversalSignal::new(1, 1, 100).expect("valid lags");
    assert_eq!(d.next(1), Action::Hold);
    assert_eq!(d.next(2), Action::Hold);
    assert_eq!(d.next(1), Action::SellAll);
}
