use ta_engine::{
    parse_period, parse_source, Candle, Error, HullMovingAverage, IndicatorConfig,
    IndicatorInstance, Source,
};

fn candle(close: i64) -> Candle {
    Candle { open: close, high: close + 1, low: close - 1, close, volume: 100 }
}

#[test]
fn default_parameters() {
    let cfg = HullMovingAverage::default();
    assert_eq!(
        cfg,
        HullMovingAverage { period: 9, left: 3, right: 2, source: Source::Close }
    );
    assert!(cfg.validate());
}

#[test]
fn set_period_updates_only_period() {
    let mut cfg = HullMovingAverage::default();
    assert!(cfg.set("period", String::from("10")).is_ok());
    assert_eq!(
        cfg,
        HullMovingAverage { period: 10, left: 3, right: 2, source: Source::Close }
    );
}

#[test]
fn set_unparsable_period_reports_name_and_value() {
    // The error carries the offending name and raw value, and the
    // configuration is unchanged by the failed call.
    let mut cfg = HullMovingAverage::default();
    match cfg.set("period", String::from("abc")) {
        Err(Error::ParameterParse(name, value)) => {
            assert_eq!(name, "period");
            assert_eq!(value, "abc");
        }
        _ => panic!("an unparsable value must be a parameter-parse error"),
    }
    assert_eq!(cfg, HullMovingAverage::default());
}

#[test]
fn set_unknown_name_is_rejected_unchanged() {
    let mut cfg = HullMovingAverage::default();
    match cfg.set("window", String::from("5")) {
        Err(Error::ParameterParse(name, value)) => {
            assert_eq!(name, "window");
            assert_eq!(value, "5");
        }
        _ => panic!("an unknown name must be a parameter-parse error"),
    }
    assert_eq!(cfg, HullMovingAverage::default());
}

#[test]
fn set_oversized_period_is_rejected() {
    let mut cfg = HullMovingAverage::default();
    assert!(cfg.set("period", String::from("256")).is_err());
    assert_eq!(cfg, HullMovingAverage::default());
}

#[test]
fn set_lags_and_source() {
    let mut cfg = HullMovingAverage::default();
    assert!(cfg.set("left", String::from("4")).is_ok());
    assert!(cfg.set("right", String::from("1")).is_ok());
    assert!(cfg.set("source", String::from("hl2")).is_ok());
    assert_eq!(
        cfg,
        HullMovingAverage { period: 9, left: 4, right: 1, source: Source::Hl2 }
    );
}

#[test]
fn set_unknown_source_is_rejected() {
    let mut cfg = HullMovingAverage::default();
    match cfg.set("source", String::from("median")) {
        Err(Error::ParameterParse(name, value)) => {
            assert_eq!(name, "source");
            assert_eq!(value, "median");
        }
        _ => panic!("an unknown source must be a parameter-parse error"),
    }
}

#[test]
fn set_zero_lag_parses_but_fails_validation() {
    // Parsing and validation are separate phases: zero parses as a period
    // value, and only the validation predicate then rejects it.
    let mut cfg = HullMovingAverage::default();
    assert!(cfg.set("left", String::from("0")).is_ok());
    assert!(!cfg.validate());
}

#[test]
fn validate_requires_period_above_two() {
    let cfg = HullMovingAverage { period: 2, ..HullMovingAverage::default() };
    assert!(!cfg.validate());
    let cfg = HullMovingAverage { period: 3, ..HullMovingAverage::default() };
    assert!(cfg.validate());
}

#[test]
fn init_with_period_one_is_wrong_config() {
    let cfg = HullMovingAverage { period: 1, left: 3, right: 2, source: Source::Close };
    match cfg.init(&candle(50)) {
        Err(Error::WrongConfig) => {}
        _ => panic!("a period of one must fail the validation predicate"),
    }
}

#[test]
fn init_with_valid_parameters_streams() {
    let cfg = HullMovingAverage { period: 10, left: 3, right: 2, source: Source::Close };
    let mut instance = cfg.init(&candle(50)).expect("a valid configuration");
    let first = instance.next(&candle(55));
    assert_eq!(first.values_length(), 1);
    assert_eq!(instance.config(), &cfg);
    assert_eq!(instance.name(), "HullMovingAverage");
}

#[test]
fn indicator_declares_its_output_size() {
    let cfg = HullMovingAverage::default();
    assert_eq!(cfg.size(), (1, 1));
    assert_eq!(cfg.name(), "HullMovingAverage");
}

#[test]
fn parse_period_accepts_plain_decimals() {
    assert_eq!(parse_period("0"), Some(0));
    assert_eq!(parse_period("9"), Some(9));
    assert_eq!(parse_period("255"), Some(255));
    assert_eq!(parse_period("007"), Some(7));
}

#[test]
fn parse_period_rejects_everything_else() {
    assert_eq!(parse_period(""), None);
    assert_eq!(parse_period("256"), None);
    assert_eq!(parse_period("99999"), None);
    assert_eq!(parse_period("-1"), None);
    assert_eq!(parse_period("+5"), None);
    assert_eq!(parse_period("1x"), None);
    assert_eq!(parse_period(" 3"), None);
}

#[test]
fn parse_source_names() {
    assert_eq!(parse_source("open"), Some(Source::Open));
    assert_eq!(parse_source("high"), Some(Source::High));
    assert_eq!(parse_source("low"), Some(Source::Low));
    assert_eq!(parse_source("close"), Some(Source::Close));
    assert_eq!(parse_source("volume"), Some(Source::Volume));
    assert_eq!(parse_source("hl2"), Some(Source::Hl2));
    assert_eq!(parse_source("Close"), None);
    assert_eq!(parse_source(""), None);
}

#[test]
fn candle_source_selectors() {
    let c = Candle { open: 1, high: 5, low: 2, close: 4, volume: 9 };
    assert_eq!(c.source(Source::Open), 1);
    assert_eq!(c.source(Source::High), 5);
    assert_eq!(c.source(Source::Low), 2);
    assert_eq!(c.source(Source::Close), 4);
    assert_eq!(c.source(Source::Volume), 9);
    assert_eq!(c.source(Source::Hl2), 3);
}

#[test]
fn candle_midpoint_rounds_toward_zero() {
    let c = Candle { open: 0, high: -5, low: 2, close: 0, volume: 0 };
    assert_eq!(c.source(Source::Hl2), -1);
}
