use indicator_core::average::{MovingAverage, Source};
use indicator_core::candle::Candle;
use indicator_core::config::IndicatorConfig;
use indicator_core::errors::Error;
use indicator_core::instance::IndicatorInstance;
use indicator_core::result::{Action, IndicatorResult};

fn bar(open: i64, high: i64, low: i64, close: i64) -> Candle {
    Candle { open, high, low, close, volume: 100 }
}

fn flat(price: i64) -> Candle {
    bar(price, price, price, price)
}

fn stream() -> Vec<Candle> {
    vec![
        bar(10, 12, 9, 11),
        bar(11, 15, 10, 14),
        bar(14, 14, 7, 8),
        bar(8, 9, 8, 9),
        bar(9, 10, 8, 9),
        bar(9, 11, 9, 10),
    ]
}

fn result(mean: i64, signal: Action) -> IndicatorResult {
    IndicatorResult::new(vec![mean], vec![signal])
}

#[test]
fn eval_of_no_bars_is_empty() {
    let bars: Vec<Candle> = Vec::new();
    let results = MovingAverage::default().eval(&bars);
    assert_eq!(results, Ok(Vec::new()));
}

#[test]
fn eval_of_no_bars_is_empty_for_an_invalid_configuration() {
    let bars: Vec<Candle> = Vec::new();
    let config = MovingAverage { period: 0, source: Source::Close };
    assert!(!config.validate());
    assert_eq!(config.eval(&bars), Ok(Vec::new()));
}

#[test]
fn eval_of_one_bar_gives_exactly_one_result() {
    let bars = vec![bar(10, 12, 9, 11)];
    let results = MovingAverage::default().eval(&bars).unwrap();
    assert_eq!(results.len(), 1);
    assert_eq!(results[0], result(11, Action::Hold));
}

#[test]
fn the_single_result_is_that_of_stepping_the_seeded_instance_with_the_seed() {
    let seed = bar(10, 12, 9, 11);
    let config = MovingAverage { period: 4, source: Source::High };
    let mut instance = config.clone().init(&seed).unwrap();
    let by_hand = instance.step(&seed);
    let batch = config.eval(&[seed]).unwrap();
    assert_eq!(batch, vec![by_hand]);
    assert_eq!(batch[0], result(12, Action::Hold));
}

#[test]
fn eval_gives_one_result_for_each_bar_in_order() {
    let config = MovingAverage { period: 3, source: Source::Close };
    let results = config.eval(&stream()).unwrap();
    let expected = vec![
        result(11, Action::Hold),
        result(12, Action::Buy),
        result(11, Action::Sell),
        result(10, Action::Sell),
        result(8, Action::Buy),
        result(9, Action::Buy),
    ];
    assert_eq!(results, expected);
}

#[test]
fn eval_over_highs_gives_one_result_for_each_bar_in_order() {
    let config = MovingAverage { period: 2, source: Source::High };
    let results = config.eval(&stream()).unwrap();
    let expected = vec![
        result(12, Action::Hold),
        result(13, Action::Buy),
        result(14, Action::Hold),
        result(11, Action::Sell),
        result(9, Action::Buy),
        result(10, Action::Buy),
    ];
    assert_eq!(results, expected);
}

#[test]
fn a_period_of_one_follows_the_price() {
    let means = |source: Source| -> Vec<i64> {
        let config = MovingAverage { period: 1, source };
        let results = config.eval(&stream()).unwrap();
        for each in &results {
            assert_eq!(each.signals(), &[Action::Hold]);
        }
        results.iter().map(|each| each.values()[0]).collect()
    };
    assert_eq!(means(Source::Open), vec![10, 11, 14, 8, 9, 9]);
    assert_eq!(means(Source::High), vec![12, 15, 14, 9, 10, 11]);
    assert_eq!(means(Source::Low), vec![9, 10, 7, 8, 8, 9]);
    assert_eq!(means(Source::Close), vec![11, 14, 8, 9, 9, 10]);
    assert_eq!(means(Source::Typical), vec![10, 13, 9, 8, 9, 10]);
}

#[test]
fn the_mean_is_rounded_towards_zero() {
    let config = MovingAverage { period: 2, source: Source::Close };
    let results = config.eval(&[flat(-11), flat(-14), flat(-8), flat(9), flat(0)]).unwrap();
    let expected = vec![
        result(-11, Action::Hold),
        result(-12, Action::Sell),
        result(-11, Action::Buy),
        result(0, Action::Buy),
        result(4, Action::Sell),
    ];
    assert_eq!(results, expected);
}

#[test]
fn every_result_has_the_declared_shape() {
    let config = MovingAverage { period: 3, source: Source::Typical };
    let shape = config.size();
    assert_eq!(shape, (1, 1));
    let results = config.eval(&stream()).unwrap();
    assert_eq!(results.len(), 6);
    for each in &results {
        assert_eq!(each.size(), shape);
        assert_eq!(each.values().len(), 1);
        assert_eq!(each.signals().len(), 1);
    }
}

#[test]
fn eval_equals_init_then_step_over_every_bar() {
    let bars = stream();
    for period in 1..=8u8 {
        for source in [Source::Open, Source::High, Source::Low, Source::Close, Source::Typical] {
            let config = MovingAverage { period, source };
            let mut instance = config.clone().init(&bars[0]).unwrap();
            let mut by_hand = Vec::new();
            for i in 0..bars.len() {
                by_hand.push(instance.step(&bars[i]));
            }
            assert_eq!(config.eval(&bars), Ok(by_hand));
        }
    }
}

#[test]
fn eval_is_deterministic() {
    let first = stream();
    let second = stream();
    let config = MovingAverage { period: 5, source: Source::Low };
    let again = MovingAverage { period: 5, source: Source::Low };
    assert_eq!(config.clone().eval(&first), again.eval(&second));
    assert_eq!(config.clone().eval(&first), config.eval(&first));
}

#[test]
fn init_refuses_an_invalid_configuration() {
    let config = MovingAverage { period: 0, source: Source::Close };
    assert!(!config.validate());
    let outcome = config.init(&bar(1, 2, 0, 1));
    assert!(matches!(outcome, Err(Error::InvalidConfiguration(ref parameter)) if parameter == "period"));
}

#[test]
fn eval_refuses_an_invalid_configuration_once_there_is_a_bar() {
    let config = MovingAverage { period: 0, source: Source::High };
    assert_eq!(
        config.clone().eval(&[bar(1, 2, 0, 1)]),
        Err(Error::InvalidConfiguration("period".to_string()))
    );
    assert_eq!(
        config.eval(&stream()),
        Err(Error::InvalidConfiguration("period".to_string()))
    );
}

#[test]
fn init_accepts_every_valid_period() {
    for period in 1..=255u8 {
        let config = MovingAverage { period, source: Source::Close };
        assert!(config.validate());
        assert!(config.init(&bar(1, 2, 0, 1)).is_ok());
    }
}

#[test]
fn an_instance_declares_the_shape_of_its_configuration() {
    let config = MovingAverage { period: 7, source: Source::Close };
    let mut instance = config.clone().init(&bar(1, 2, 0, 1)).unwrap();
    assert_eq!(instance.size(), config.size());
    for i in 0..50i64 {
        let emitted = instance.step(&bar(i, i + 1, i - 1, i));
        assert_eq!(emitted.size(), config.size());
        assert_eq!(instance.size(), config.size());
    }
}

#[test]
fn the_longest_window_turns_over() {
    let bars: Vec<Candle> = (0..300i64).map(flat).collect();
    let config = MovingAverage { period: 255, source: Source::Close };
    let results = config.eval(&bars).unwrap();
    assert_eq!(results.len(), 300);
    assert_eq!(results[0], result(0, Action::Hold));
    assert_eq!(results[1], result(0, Action::Buy));
    assert_eq!(results[254], result(127, Action::Buy));
    assert_eq!(results[255], result(128, Action::Buy));
    assert_eq!(results[299], result(172, Action::Buy));
}

#[test]
fn extreme_prices_are_averaged_without_overflow() {
    let highest: Vec<Candle> = (0..300).map(|_| flat(i64::MAX)).collect();
    let config = MovingAverage { period: 255, source: Source::Typical };
    for each in config.clone().eval(&highest).unwrap() {
        assert_eq!(each, result(i64::MAX, Action::Hold));
    }
    let lowest: Vec<Candle> = (0..300).map(|_| flat(i64::MIN)).collect();
    for each in config.eval(&lowest).unwrap() {
        assert_eq!(each, result(i64::MIN, Action::Hold));
    }
    let swing = [flat(i64::MAX), flat(i64::MIN), flat(i64::MIN), flat(i64::MAX), flat(1)];
    let results = MovingAverage { period: 2, source: Source::Close }.eval(&swing).unwrap();
    let expected = vec![
        result(i64::MAX, Action::Hold),
        result(0, Action::Sell),
        result(i64::MIN, Action::Hold),
        result(0, Action::Buy),
        result(4611686018427387904, Action::Sell),
    ];
    assert_eq!(results, expected);
}
