use market_data_source::regimes::volatility::{VolatilityPercentiles, VolatilityRegime, VolatilityRegimeDetector};
use market_data_source::regimes::{RegimeConfig, RegimeState};
use market_data_source::{MarketRegime, Price, OHLC};

fn create_volatile_data(periods: usize, volatility_factor: i64) -> Vec<OHLC> {
    let mut data = Vec::new();
    let mut price = Price::new(100, 0);
    let mut rng = 42u64;

    for i in 0..periods {
        rng = (rng * 1664525 + 1013904223) % (1 << 32);
        let random = ((rng % 200) as i64 - 100) as i64;

        let change = Price::new(random * volatility_factor, 0).saturating_div(Price::new(1000, 0));
        price = price.saturating_add(change);

        let high = price.saturating_add(Price::new(volatility_factor.abs(), 0).saturating_div(Price::new(100, 0)));
        let low = price.saturating_sub(Price::new(volatility_factor.abs(), 0).saturating_div(Price::new(100, 0)));

        data.push(OHLC::new(price, high, low, price, 1000, 1000000 + i as i64));
    }

    data
}

#[test]
fn test_volatility_detector_low_vol() {
    let mut detector = VolatilityRegimeDetector::new(20);
    let config = RegimeConfig::default();

    let data = create_volatile_data(30, 1);

    let _ = detector.detect(&data, &config);
}

#[test]
fn test_volatility_detector_high_vol() {
    let mut detector = VolatilityRegimeDetector::new(20);
    let config = RegimeConfig::default();

    let data = create_volatile_data(30, 10);

    let _ = detector.detect(&data, &config);
}

#[test]
fn test_volatility_regime_classification() {
    let detector = VolatilityRegimeDetector::new(20);

    let low_vol = Price::new(3, 3);
    let _ = detector.classify_volatility(low_vol);

    let normal_vol = Price::new(8, 3);
    let _ = detector.classify_volatility(normal_vol);

    let high_vol = Price::new(25, 3);
    let _ = detector.classify_volatility(high_vol);

    let extreme_vol = Price::new(5, 2);
    let _ = detector.classify_volatility(extreme_vol);
}

#[test]
fn test_volatility_detector_update() {
    let mut detector = VolatilityRegimeDetector::new(20);
    let config = RegimeConfig::default();

    let data = create_volatile_data(30, 5);

    for candle in data.iter() {
        let _ = detector.update(candle, &config);
    }

    assert!(detector.volatility_count() > 0);
}

#[test]
fn test_volatility_detector_reset() {
    let mut detector = VolatilityRegimeDetector::new(20);
    let config = RegimeConfig::default();

    let data = create_volatile_data(30, 5);
    let _ = detector.detect(&data, &config);

    assert!(detector.volatility_count() > 0);

    detector.reset();

    assert!(detector.current_state().is_none());
    assert_eq!(detector.volatility_count(), 0);
}

#[test]
fn test_volatility_clustering_analysis() {
    let mut detector = VolatilityRegimeDetector::new(20);

    for _ in 0..15 {
        detector.push_volatility(Price::new(1, 2));
    }

    let clustering = detector.analyze_clustering();
    assert!(clustering.gt(&Price::new(8, 1)));
}

#[test]
fn test_volatility_to_market_regime() {
    assert_eq!(VolatilityRegime::Low.to_market_regime(MarketRegime::Bull), MarketRegime::Bull);

    assert_eq!(VolatilityRegime::Extreme.to_market_regime(MarketRegime::Bull), MarketRegime::Bear);

    assert_eq!(VolatilityRegime::High.to_market_regime(MarketRegime::Bull), MarketRegime::Sideways);
}

#[test]
fn classes_by_the_default_percentiles() {
    let defaults = VolatilityPercentiles::default();
    assert_eq!(defaults.low, Price::new(5, 3));
    assert_eq!(defaults.normal, Price::new(1, 2));
    assert_eq!(defaults.high, Price::new(2, 2));
    assert_eq!(defaults.extreme, Price::new(4, 2));
    let detector = VolatilityRegimeDetector::new(20);
    assert_eq!(detector.classify_volatility(Price::new(3, 3)), VolatilityRegime::Low);
    assert_eq!(detector.classify_volatility(Price::new(5, 3)), VolatilityRegime::Normal);
    assert_eq!(detector.classify_volatility(Price::new(8, 3)), VolatilityRegime::Normal);
    assert_eq!(detector.classify_volatility(Price::new(1, 2)), VolatilityRegime::High);
    assert_eq!(detector.classify_volatility(Price::new(19, 3)), VolatilityRegime::High);
    assert_eq!(detector.classify_volatility(Price::new(2, 2)), VolatilityRegime::Extreme);
    assert_eq!(detector.classify_volatility(Price::new(5, 2)), VolatilityRegime::Extreme);
}

#[test]
fn every_class_with_every_trend() {
    for trend in [MarketRegime::Bull, MarketRegime::Bear, MarketRegime::Sideways] {
        assert_eq!(VolatilityRegime::Low.to_market_regime(trend), trend);
        assert_eq!(VolatilityRegime::Normal.to_market_regime(trend), trend);
        assert_eq!(VolatilityRegime::Extreme.to_market_regime(trend), MarketRegime::Bear);
    }
    assert_eq!(VolatilityRegime::High.to_market_regime(MarketRegime::Bear), MarketRegime::Bear);
    assert_eq!(VolatilityRegime::High.to_market_regime(MarketRegime::Sideways), MarketRegime::Sideways);
}

#[test]
fn percentiles_come_from_the_sorted_volatilities() {
    let mut detector = VolatilityRegimeDetector::new(50);
    for i in 0..19 {
        detector.push_volatility(Price::new(19 - i, 0));
    }
    detector.update_percentiles();
    assert_eq!(detector.classify_volatility(Price::new(1, 2)), VolatilityRegime::High);
    detector.push_volatility(Price::new(20, 0));
    detector.update_percentiles();
    assert_eq!(detector.classify_volatility(Price::new(5, 0)), VolatilityRegime::Low);
    assert_eq!(detector.classify_volatility(Price::new(6, 0)), VolatilityRegime::Normal);
    assert_eq!(detector.classify_volatility(Price::new(10, 0)), VolatilityRegime::Normal);
    assert_eq!(detector.classify_volatility(Price::new(11, 0)), VolatilityRegime::High);
    assert_eq!(detector.classify_volatility(Price::new(15, 0)), VolatilityRegime::High);
    assert_eq!(detector.classify_volatility(Price::new(16, 0)), VolatilityRegime::Extreme);
}

#[test]
fn no_more_volatilities_are_kept_than_the_window() {
    let mut detector = VolatilityRegimeDetector::new(5);
    for i in 0..12 {
        detector.push_volatility(Price::new(i, 0));
        assert!(detector.volatility_count() <= 5);
    }
    assert_eq!(detector.volatility_count(), 5);
    let config = RegimeConfig::default();
    for candle in create_volatile_data(40, 3).iter() {
        let _ = detector.update(candle, &config);
        assert!(detector.volatility_count() <= 5);
    }
}

#[test]
fn clustering_counts_the_run_at_the_end() {
    let mut detector = VolatilityRegimeDetector::new(20);
    for _ in 0..9 {
        detector.push_volatility(Price::new(1, 2));
    }
    assert_eq!(detector.analyze_clustering(), Price::zero());
    detector.push_volatility(Price::new(1, 2));
    assert_eq!(detector.analyze_clustering(), Price::one());
    detector.push_volatility(Price::new(1, 3));
    assert_eq!(detector.analyze_clustering(), Price::new(1, 1));
    detector.push_volatility(Price::new(2, 3));
    detector.push_volatility(Price::new(3, 3));
    assert_eq!(detector.analyze_clustering(), Price::new(3, 1));
}

#[test]
fn a_single_candle_is_found_sideways_at_half_confidence() {
    let detector = VolatilityRegimeDetector::new(20);
    let data = create_volatile_data(1, 5);
    assert_eq!(detector.detect_regime(&data), (MarketRegime::Sideways, Price::new(5, 1)));
    assert_eq!(detector.detect_regime(&[]), (MarketRegime::Sideways, Price::new(5, 1)));
}

#[test]
fn the_state_moves_on_by_what_is_found() {
    let candle = OHLC::new(Price::new(10, 0), Price::new(11, 0), Price::new(9, 0), Price::new(10, 0), 1, 77);
    let floor = Price::new(6, 1);
    let none = VolatilityRegimeDetector::advance_state(None, MarketRegime::Bull, Price::new(59, 2), &candle, floor);
    assert!(none.is_none());
    let first =
        VolatilityRegimeDetector::advance_state(None, MarketRegime::Bull, Price::new(6, 1), &candle, floor).unwrap();
    assert_eq!(first.current_regime, MarketRegime::Bull);
    assert_eq!(first.duration, 1);
    assert_eq!(first.start_timestamp, 77);
    assert_eq!(first.start_price, Price::new(10, 0));
    let held: RegimeState =
        VolatilityRegimeDetector::advance_state(Some(first), MarketRegime::Bull, Price::new(4, 1), &candle, floor)
            .unwrap();
    assert_eq!(held.duration, 2);
    assert_eq!(held.confidence, Price::new(5, 1));
    let kept = VolatilityRegimeDetector::advance_state(Some(held), MarketRegime::Bear, Price::new(5, 1), &candle, floor)
        .unwrap();
    assert_eq!(kept.current_regime, MarketRegime::Bull);
    assert_eq!(kept.duration, 2);
    let turned =
        VolatilityRegimeDetector::advance_state(Some(kept), MarketRegime::Bear, Price::new(7, 1), &candle, floor)
            .unwrap();
    assert_eq!(turned.current_regime, MarketRegime::Bear);
    assert_eq!(turned.duration, 1);
    assert_eq!(turned.confidence, Price::new(7, 1));
    let mut unsure = first;
    unsure.confidence = Price::new(2, 1);
    unsure.duration = 4;
    let stayed =
        VolatilityRegimeDetector::advance_state(Some(unsure), MarketRegime::Bull, Price::new(9, 1), &candle, floor)
            .unwrap();
    assert_eq!(stayed.current_regime, MarketRegime::Bull);
    assert_eq!(stayed.duration, 5);
    assert_eq!(stayed.confidence, Price::new(55, 2));
    assert_eq!(stayed.start_timestamp, 77);
    let left =
        VolatilityRegimeDetector::advance_state(Some(unsure), MarketRegime::Bear, Price::new(1, 1), &candle, floor)
            .unwrap();
    assert_eq!(left.current_regime, MarketRegime::Bear);
    assert_eq!(left.duration, 1);
    assert_eq!(left.confidence, Price::new(1, 1));
}

#[test]
fn detection_needs_the_lookback_period() {
    let mut detector = VolatilityRegimeDetector::new(20);
    let config = RegimeConfig::default();
    let data = create_volatile_data(19, 5);
    assert!(detector.detect(&data, &config).is_none());
    assert_eq!(detector.volatility_count(), 0);
    let data = create_volatile_data(60, 5);
    let found = detector.detect(&data, &config);
    assert_eq!(detector.volatility_count(), 20);
    assert_eq!(found.map(|s| s.duration), detector.current_state().map(|s| s.duration));
    if let Some(state) = found {
        assert_eq!(state.start_timestamp, 1000059);
        assert!(state.confidence.ge(&config.min_confidence));
        assert!(state.confidence.le(&Price::one()));
    }
}

fn swinging(i: usize) -> OHLC {
    let close = if i % 2 == 0 { Price::new(100, 0) } else { Price::new(150, 0) };
    OHLC::new(close, close, close, close, 1, i as i64)
}

#[test]
fn percentiles_are_looked_at_again_at_twenty_volatilities() {
    let mut detector = VolatilityRegimeDetector::new(30);
    let config = RegimeConfig::default();
    let probe = Price::new(3, 2);
    for i in 0..19 {
        let _ = detector.update(&swinging(i), &config);
        assert_eq!(detector.classify_volatility(probe), VolatilityRegime::Extreme);
    }
    let _ = detector.update(&swinging(19), &config);
    assert_eq!(detector.volatility_count(), 20);
    assert_eq!(detector.classify_volatility(probe), VolatilityRegime::Low);
}

#[test]
fn nothing_is_reported_before_the_statistics_are_ready() {
    let mut detector = VolatilityRegimeDetector::new(30);
    let config = RegimeConfig { min_confidence: Price::zero(), ..RegimeConfig::default() };
    for i in 0..15 {
        assert!(detector.update(&swinging(i), &config).is_none());
    }
    let state = detector.update(&swinging(15), &config).unwrap();
    assert_eq!(state.current_regime, MarketRegime::Sideways);
    assert_eq!(state.duration, 1);
    assert_eq!(state.start_timestamp, 15);
    assert_eq!(state.confidence, Price::new(5, 1).saturating_add(Price::one().saturating_mul(Price::new(1, 1))).saturating_div(Price::new(11, 1)));
    let next = detector.update(&swinging(16), &config).unwrap();
    assert_eq!(next.duration, 2);
}
