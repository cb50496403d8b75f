use market_data_source::regimes::detector::helpers::{
    calculate_average_return, calculate_cumulative_return, calculate_ema, calculate_return, calculate_returns,
    calculate_sma, calculate_volatility, count_higher_highs_lows, count_lower_highs_lows, identify_trend,
    sqrt_approximation,
};
use market_data_source::regimes::detector::RegimeDetector;
use market_data_source::regimes::volatility::VolatilityRegimeDetector;
use market_data_source::regimes::RegimeConfig;
use market_data_source::{MarketRegime, Price, OHLC};

fn create_test_candle(close: i64) -> OHLC {
    OHLC::new(
        Price::new(close, 0),
        Price::new(close + 1, 0),
        Price::new(close - 1, 0),
        Price::new(close, 0),
        1000,
        1000000,
    )
}

#[test]
fn test_calculate_return() {
    let return_val = calculate_return(Price::new(100, 0), Price::new(110, 0));
    assert_eq!(return_val, Price::new(1, 1));

    let return_val = calculate_return(Price::new(100, 0), Price::new(90, 0));
    assert_eq!(return_val, Price::new(-1, 1));
}

#[test]
fn test_calculate_returns() {
    let data = vec![create_test_candle(100), create_test_candle(110), create_test_candle(105)];

    let returns = calculate_returns(&data);
    assert_eq!(returns.len(), 2);
    assert_eq!(returns[0], Price::new(1, 1));
}

#[test]
fn detector_test_sqrt_approximation() {
    let result = sqrt_approximation(Price::new(4, 0));
    assert!(result.saturating_sub(Price::two()).abs().lt(&Price::new(1, 3)));

    let result = sqrt_approximation(Price::new(9, 0));
    assert!(result.saturating_sub(Price::new(3, 0)).abs().lt(&Price::new(1, 3)));
}

#[test]
fn test_calculate_sma() {
    let data = vec![create_test_candle(100), create_test_candle(110), create_test_candle(120)];

    let sma = calculate_sma(&data);
    assert_eq!(sma, Price::new(110, 0));
}

#[test]
fn test_identify_trend() {
    let mut data = Vec::new();
    for i in 0..20 {
        data.push(create_test_candle(100 + i * 2));
    }

    let trend = identify_trend(&data, 5, 10);
    assert_eq!(trend, MarketRegime::Bull);
}

#[test]
fn return_from_a_price_of_zero_is_zero() {
    assert_eq!(calculate_return(Price::zero(), Price::new(5, 0)), Price::zero());
    assert_eq!(calculate_return(Price::new(0, 4), Price::new(5, 0)), Price::zero());
}

#[test]
fn returns_of_short_series_are_empty() {
    assert!(calculate_returns(&[]).is_empty());
    assert!(calculate_returns(&[create_test_candle(5)]).is_empty());
    assert_eq!(calculate_cumulative_return(&[create_test_candle(5)]), Price::zero());
    let data = vec![create_test_candle(100), create_test_candle(110), create_test_candle(105)];
    assert_eq!(calculate_cumulative_return(&data), Price::new(5, 2));
    assert_eq!(calculate_returns(&data)[1], calculate_return(Price::new(110, 0), Price::new(105, 0)));
}

#[test]
fn averages_and_volatility() {
    assert_eq!(calculate_average_return(&[]), Price::zero());
    let values = [Price::new(1, 2), Price::new(3, 2), Price::new(5, 2)];
    assert_eq!(calculate_average_return(&values), Price::new(3, 2));
    assert_eq!(calculate_volatility(&values[..1]), Price::zero());
    assert_eq!(calculate_volatility(&values), sqrt_approximation(Price::new(4, 4)));
    assert!(calculate_volatility(&values).saturating_sub(Price::new(2, 2)).abs().lt(&Price::new(1, 5)));
    assert_eq!(calculate_sma(&[]), Price::zero());
}

#[test]
fn sqrt_of_what_is_not_above_zero_is_zero() {
    assert_eq!(sqrt_approximation(Price::zero()), Price::zero());
    assert_eq!(sqrt_approximation(Price::new(-4, 0)), Price::zero());
    assert_eq!(sqrt_approximation(Price::one()), Price::one());
}

#[test]
fn sqrt_stops_after_twenty_rounds() {
    let big = Price::new(1_000_000_000_000_000_000, 0).saturating_mul(Price::new(1_000_000, 0));
    let mut x = big;
    for _ in 0..20 {
        x = x.saturating_add(big.saturating_div(x)).saturating_div(Price::two());
    }
    assert_eq!(sqrt_approximation(big), x);
    assert!(x.gt(&Price::new(1_000_000_000_000, 0)));
}

#[test]
fn trend_by_moving_averages() {
    let rising: Vec<OHLC> = (0..20).map(|i| create_test_candle(100 + i * 2)).collect();
    let falling: Vec<OHLC> = (0..20).map(|i| create_test_candle(200 - i * 2)).collect();
    let flat: Vec<OHLC> = (0..20).map(|_| create_test_candle(100)).collect();
    assert_eq!(identify_trend(&rising, 5, 20), MarketRegime::Bull);
    assert_eq!(identify_trend(&falling, 5, 20), MarketRegime::Bear);
    assert_eq!(identify_trend(&flat, 5, 20), MarketRegime::Sideways);
    assert_eq!(identify_trend(&rising[..19], 5, 20), MarketRegime::Sideways);
    assert_eq!(identify_trend(&rising, 50, 20), MarketRegime::Sideways);
    assert_eq!(identify_trend(&rising, 5, 0), MarketRegime::Sideways);
}

#[test]
fn exponential_average() {
    assert_eq!(calculate_ema(&[], 3), Price::zero());
    assert_eq!(calculate_ema(&[create_test_candle(7)], 3), Price::new(7, 0));
    let data = vec![create_test_candle(100), create_test_candle(110), create_test_candle(120)];
    assert_eq!(calculate_ema(&data, 3), Price::new(1125, 1));
}

#[test]
fn higher_and_lower_highs_and_lows() {
    let data = vec![
        OHLC::new(Price::new(10, 0), Price::new(12, 0), Price::new(9, 0), Price::new(11, 0), 1, 1),
        OHLC::new(Price::new(11, 0), Price::new(13, 0), Price::new(8, 0), Price::new(12, 0), 1, 2),
        OHLC::new(Price::new(12, 0), Price::new(13, 0), Price::new(9, 0), Price::new(12, 0), 1, 3),
        OHLC::new(Price::new(12, 0), Price::new(11, 0), Price::new(7, 0), Price::new(8, 0), 1, 4),
    ];
    assert_eq!(count_higher_highs_lows(&data), (1, 1));
    assert_eq!(count_lower_highs_lows(&data), (1, 2));
    assert_eq!(count_higher_highs_lows(&data[..1]), (0, 0));
    assert_eq!(count_lower_highs_lows(&[]), (0, 0));
}

#[test]
fn a_detector_through_its_trait() {
    fn run<D: RegimeDetector>(detector: &mut D) -> String {
        let config = RegimeConfig::default();
        assert!(detector.has_sufficient_data(20, &config));
        assert!(!detector.has_sufficient_data(19, &config));
        let data: Vec<OHLC> = (0..5).map(|i| create_test_candle(100 + i)).collect();
        assert!(detector.detect(&data, &config).is_none());
        assert!(detector.update(&data[0], &config).is_none());
        assert_eq!(detector.calculate_confidence(MarketRegime::Bull, &[]), Price::zero());
        detector.reset();
        detector.name().to_string()
    }
    let mut detector = VolatilityRegimeDetector::new(20);
    assert_eq!(run(&mut detector), "VolatilityRegimeDetector");
}
