use ta_engine::{
    Action, Candle, Ema, Error, Hma, HmaEmaCrossOver, HMAPivotReversalStrategy, Method,
    ReversalSignal, Source, StrategyConfig, StrategyInstance,
};

fn candle(close: i64) -> Candle {
    Candle { open: close, high: close + 2, low: close - 2, close, volume: 10 }
}

#[test]
fn pass_through_reproduces_bare_detector_signals() {
    // Round trip: the strategy wrapping the detector forwards its signal
    // unchanged, so replaying any bar sequence reproduces exactly the signal
    // sequence a bare detector produces on the same derived values.
    let cfg = HMAPivotReversalStrategy { period: 10, left: 2, right: 2, source: Source::Close };
    let mut strategy = cfg.init(&candle(100)).expect("a valid configuration");
    let mut bare = ReversalSignal::new(2, 2, 0).expect("valid lags");
    let closes = [100i64, 104, 110, 140, 130, 90, 80, 85, 120, 160, 150, 95, 100, 101];
    for &c in closes.iter() {
        let r = strategy.next(&candle(c));
        assert_eq!(r.size(), (1, 1));
        let derived = r.value(0);
        let expected = bare.next(derived);
        assert_eq!(r.signal(0), expected);
    }
}

#[test]
fn replay_is_deterministic() {
    // Two freshly constructed instances of the same configuration, fed the
    // same bars, yield identical result sequences element for element.
    let cfg = HMAPivotReversalStrategy { period: 7, left: 1, right: 2, source: Source::Hl2 };
    let mut a = cfg.init(&candle(40)).expect("a valid configuration");
    let mut b = cfg.init(&candle(40)).expect("a valid configuration");
    let closes = [41i64, 45, 39, 38, 50, 44, 44, 60, 20, 30];
    for &c in closes.iter() {
        let ra = a.next(&candle(c));
        let rb = b.next(&candle(c));
        assert_eq!(ra.values(), rb.values());
        assert_eq!(ra.signals(), rb.signals());
    }
}

#[test]
fn pivot_strategy_warm_up_is_neutral() {
    let cfg = HMAPivotReversalStrategy { period: 5, left: 2, right: 2, source: Source::Close };
    let mut strategy = cfg.init(&candle(10)).expect("a valid configuration");
    for &c in [11i64, 12, 13, 14].iter() {
        let r = strategy.next(&candle(c));
        assert_eq!(r.signal(0), Action::Hold);
    }
}

#[test]
fn pivot_strategy_rejects_invalid_period() {
    let cfg = HMAPivotReversalStrategy { period: 1, left: 2, right: 2, source: Source::Close };
    match cfg.init(&candle(10)) {
        Err(Error::WrongConfig) => {}
        _ => panic!("a period of one must fail the validation predicate"),
    }
}

#[test]
fn pivot_strategy_rejects_zero_lag() {
    let cfg = HMAPivotReversalStrategy { period: 9, left: 0, right: 2, source: Source::Close };
    match cfg.init(&candle(10)) {
        Err(Error::WrongConfig) => {}
        _ => panic!("a zero lag must fail the validation predicate"),
    }
}

#[test]
fn crossover_on_constant_prices_sells() {
    // On a constant series both averages sit exactly on the price, so the
    // level comparison is never strict and every signal is a full sell.
    let cfg = HmaEmaCrossOver { period: 4, left: 1, right: 1, source: Source::Close };
    let mut strategy = cfg.init(&candle(25)).expect("a valid configuration");
    for _ in 0..6 {
        let r = strategy.next(&candle(25));
        assert_eq!(r.value(0), 25);
        assert_eq!(r.signal(0), Action::SellAll);
    }
}

#[test]
fn crossover_exact_values_and_signals() {
    // period 3: the short sub-average has period 1 (the raw value), the
    // final smoothing has period 1, so the indicator value is
    // 2 * close - ema3(close), and the strategy compares ema3 against it.
    let cfg = HmaEmaCrossOver { period: 3, left: 1, right: 1, source: Source::Close };
    let mut strategy = cfg.init(&candle(10)).expect("a valid configuration");

    let r = strategy.next(&candle(20));
    // ema3: (2 * 20 + 2 * 10) / 4 = 15; hull: smooth(2 * 20 - 15) = 25.
    assert_eq!(r.value(0), 25);
    assert_eq!(r.signal(0), Action::SellAll);

    let r = strategy.next(&candle(0));
    // ema3: (0 + 2 * 15) / 4 = 7; hull: 2 * 0 - 7 = -7.
    assert_eq!(r.value(0), -7);
    assert_eq!(r.signal(0), Action::BuyAll);
}

#[test]
fn crossover_rejects_invalid_period() {
    let cfg = HmaEmaCrossOver { period: 2, left: 1, right: 1, source: Source::Close };
    match cfg.init(&candle(10)) {
        Err(Error::WrongConfig) => {}
        _ => panic!("a period of two must fail the validation predicate"),
    }
}

#[test]
fn strategy_names_and_config_access() {
    let cfg = HMAPivotReversalStrategy { period: 9, left: 3, right: 2, source: Source::Close };
    assert_eq!(cfg.name(), "HMAPivotReversalStrategy");
    let strategy = cfg.init(&candle(10)).expect("a valid configuration");
    assert_eq!(strategy.config(), &cfg);
    assert_eq!(strategy.name(), "HMAPivotReversalStrategy");

    let cfg = HmaEmaCrossOver { period: 9, left: 3, right: 2, source: Source::Close };
    assert_eq!(cfg.name(), "HmaEmaCrossOver");
    let strategy = cfg.init(&candle(10)).expect("a valid configuration");
    assert_eq!(strategy.config(), &cfg);
    assert_eq!(strategy.name(), "HmaEmaCrossOver");
}

#[test]
fn ema_smooths_exactly() {
    let mut ema = Ema::new(3, 10).expect("a positive period");
    // (2 * 20 + 2 * 10) / 4 = 15, then (2 * 0 + 2 * 15) / 4 = 7.
    assert_eq!(ema.next(20), 15);
    assert_eq!(ema.next(0), 7);
    // Truncating division rounds toward zero on negatives: (2 * -20 + 2 * 7)
    // is -26, and -26 / 4 is -6.
    assert_eq!(ema.next(-20), -6);
}

#[test]
fn ema_rejects_zero_period() {
    match Ema::new(0, 5) {
        Err(Error::WrongConfig) => {}
        _ => panic!("a zero period must be an invalid configuration"),
    }
}

#[test]
fn hma_rejects_period_below_two() {
    match Hma::new(1, 5) {
        Err(Error::WrongConfig) => {}
        _ => panic!("a period of one must be an invalid configuration"),
    }
}

#[test]
fn hma_follows_a_trend_quickly() {
    // The detrended smoothing overshoots toward the newest values.
    let mut hma = Hma::new(4, 10).expect("a valid period");
    let first = hma.next(20);
    assert!(first > 10);
    let second = hma.next(30);
    assert!(second > first);
}
