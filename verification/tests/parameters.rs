use indicator_core::average::{MovingAverage, Source};
use indicator_core::candle::Candle;
use indicator_core::config::IndicatorConfig;
use indicator_core::errors::Error;

fn parse_failure(name: &str, value: &str) -> Error {
    Error::ParseFailure(name.to_string(), value.to_string())
}

#[test]
fn the_default_average_is_over_twenty_closes() {
    assert_eq!(MovingAverage::default(), MovingAverage { period: 20, source: Source::Close });
    assert!(MovingAverage::default().validate());
}

#[test]
fn the_average_has_a_name() {
    assert_eq!(MovingAverage::NAME, "MovingAverage");
    assert_eq!(MovingAverage::default().name(), "MovingAverage");
    assert_eq!(MovingAverage { period: 0, source: Source::Low }.name(), "MovingAverage");
}

#[test]
fn an_unknown_name_is_rejected() {
    let mut config = MovingAverage::default();
    let outcome = config.set("__not_a_real_field__", "1".to_string());
    assert_eq!(outcome, Err(Error::UnknownParameter("__not_a_real_field__".to_string())));
    assert_eq!(config, MovingAverage::default());
}

#[test]
fn names_are_matched_exactly() {
    for name in ["Period", "PERIOD", " period", "period ", "perio", "periods", "", "Source", "sourc\u{435}"] {
        let mut config = MovingAverage { period: 9, source: Source::Low };
        let outcome = config.set(name, "5".to_string());
        assert_eq!(outcome, Err(Error::UnknownParameter(name.to_string())));
        assert_eq!(config, MovingAverage { period: 9, source: Source::Low });
    }
}

#[test]
fn an_unknown_name_is_rejected_whatever_the_value() {
    for value in ["", "close", "12", "not a value"] {
        let mut config = MovingAverage::default();
        let outcome = config.set("length", value.to_string());
        assert_eq!(outcome, Err(Error::UnknownParameter("length".to_string())));
        assert_eq!(config, MovingAverage::default());
    }
}

#[test]
fn set_period_changes_the_period_alone() {
    let mut config = MovingAverage { period: 20, source: Source::High };
    assert_eq!(config.set("period", "14".to_string()), Ok(()));
    assert_eq!(config, MovingAverage { period: 14, source: Source::High });
    assert_eq!(config.set("period", "255".to_string()), Ok(()));
    assert_eq!(config, MovingAverage { period: 255, source: Source::High });
    assert_eq!(config.set("period", "007".to_string()), Ok(()));
    assert_eq!(config, MovingAverage { period: 7, source: Source::High });
}

#[test]
fn set_source_changes_the_source_alone() {
    let mut config = MovingAverage { period: 20, source: Source::Close };
    for (token, source) in [
        ("open", Source::Open),
        ("high", Source::High),
        ("low", Source::Low),
        ("close", Source::Close),
        ("tp", Source::Typical),
    ] {
        assert_eq!(config.set("source", token.to_string()), Ok(()));
        assert_eq!(config, MovingAverage { period: 20, source });
    }
}

#[test]
fn a_malformed_period_leaves_the_configuration_as_it_was() {
    for value in ["", "abc", "256", "1000", "99999999999999999999", "-1", "+5", "1.5", " 7", "7 ", "0x10", "\u{ff17}", "1e1"] {
        let mut config = MovingAverage { period: 33, source: Source::Typical };
        let outcome = config.set("period", value.to_string());
        assert_eq!(outcome, Err(parse_failure("period", value)));
        assert_eq!(config, MovingAverage { period: 33, source: Source::Typical });
    }
}

#[test]
fn a_malformed_source_leaves_the_configuration_as_it_was() {
    for value in ["", "Close", "HIGH", "median", "close ", "1", "typical", "volume"] {
        let mut config = MovingAverage { period: 33, source: Source::Open };
        let outcome = config.set("source", value.to_string());
        assert_eq!(outcome, Err(parse_failure("source", value)));
        assert_eq!(config, MovingAverage { period: 33, source: Source::Open });
    }
}

#[test]
fn set_may_leave_a_configuration_that_does_not_validate() {
    let mut config = MovingAverage::default();
    assert_eq!(config.set("period", "0".to_string()), Ok(()));
    assert_eq!(config.period, 0);
    assert!(!config.validate());
    let seed = Candle { open: 1, high: 1, low: 1, close: 1, volume: 0 };
    assert_eq!(
        config.clone().init(&seed).err(),
        Some(Error::InvalidConfiguration("period".to_string()))
    );
    assert_eq!(config.set("period", "1".to_string()), Ok(()));
    assert!(config.validate());
    assert!(config.init(&seed).is_ok());
}

#[test]
fn validate_asks_for_a_period_of_one_at_least() {
    assert!(!MovingAverage { period: 0, source: Source::Close }.validate());
    assert!(!MovingAverage { period: 0, source: Source::Typical }.validate());
    assert!(MovingAverage { period: 1, source: Source::Close }.validate());
    assert!(MovingAverage { period: 255, source: Source::Open }.validate());
}

#[test]
fn the_shape_is_known_without_a_seed_bar() {
    for period in [0u8, 1, 14, 255] {
        for source in [Source::Open, Source::High, Source::Low, Source::Close, Source::Typical] {
            assert_eq!(MovingAverage { period, source }.size(), (1, 1));
        }
    }
}

#[test]
fn an_error_keeps_what_it_was_given() {
    let unknown = Error::UnknownParameter("length".to_string());
    let malformed = parse_failure("period", "abc");
    let invalid = Error::InvalidConfiguration("period".to_string());
    assert_eq!(unknown.clone(), unknown);
    assert_eq!(malformed.clone(), malformed);
    assert_eq!(invalid.clone(), invalid);
    assert_ne!(unknown, Error::UnknownParameter("period".to_string()));
    assert_ne!(malformed, parse_failure("period", "abd"));
    assert_ne!(invalid, Error::UnknownParameter("period".to_string()));
}
