use market_data_source::generator::{advance_timestamp, HISTORY_CAPACITY};
use market_data_source::{
    ConfigBuilder, GeneratorConfig, MarketDataGenerator, MarketRegime, Price, RegimeSchedule, RegimeSegment,
    TimeInterval, TrendDirection,
};
use rust_decimal::prelude::FromPrimitive;
use rust_decimal::Decimal;

fn d(value: f64) -> Price {
    let v = Decimal::from_f64(value).unwrap();
    Price::from_parts(v.mantissa(), v.scale()).unwrap()
}

#[test]
fn test_generator_creation() {
    let generator = MarketDataGenerator::new();
    assert_eq!(generator.config().starting_price, d(100.0));
}

#[test]
fn test_generator_with_config() {
    let config = ConfigBuilder::new().starting_price(d(50.0)).volatility(d(0.03)).seed(42).build().unwrap();

    let generator = MarketDataGenerator::with_config(config);
    assert!(generator.is_ok());
}

#[test]
fn test_candle_generation() {
    let config = ConfigBuilder::new().seed(42).build().unwrap();

    let mut generator = MarketDataGenerator::with_config(config).unwrap();
    let candle = generator.generate_ohlc();

    assert!(candle.is_valid());
    assert!(candle.volume.value() > 0);
}

#[test]
fn test_series_generation() {
    let config = ConfigBuilder::new().seed(42).num_points(10).build().unwrap();

    let mut generator = MarketDataGenerator::with_config(config).unwrap();
    let series = generator.generate_series(10);

    assert_eq!(series.len(), 10);

    for i in 1..series.len() {
        assert!(series[i].timestamp > series[i - 1].timestamp);
    }
}

#[test]
fn test_tick_generation() {
    let mut generator = MarketDataGenerator::new();
    let tick = generator.generate_tick();

    assert!(tick.price.gt(&Price::zero()));
    assert!(tick.volume.value() > 0);
    assert!(tick.bid.is_some());
    assert!(tick.ask.is_some());

    if let (Some(bid), Some(ask)) = (tick.bid, tick.ask) {
        assert!(ask.gt(&bid));
    }
}

#[test]
fn test_deterministic_generation() {
    let config = ConfigBuilder::new().seed(42).build().unwrap();

    let mut gen1 = MarketDataGenerator::with_config(config.clone()).unwrap();
    let mut gen2 = MarketDataGenerator::with_config(config).unwrap();

    let candles1 = gen1.generate_series(5);
    let candles2 = gen2.generate_series(5);

    for (c1, c2) in candles1.iter().zip(candles2.iter()) {
        assert_eq!(c1.open, c2.open);
        assert_eq!(c1.close, c2.close);
    }
}

#[test]
fn test_reset() {
    let config = ConfigBuilder::new().seed(42).starting_price(d(100.0)).build().unwrap();

    let mut generator = MarketDataGenerator::with_config(config).unwrap();

    let candle1 = generator.generate_ohlc();
    generator.reset();
    let candle2 = generator.generate_ohlc();

    assert_eq!(candle1.open, candle2.open);
}

#[test]
fn test_regime_control_basic() {
    let config = ConfigBuilder::new().seed(42).build().unwrap();

    let mut generator = MarketDataGenerator::with_config(config).unwrap();

    let segments = vec![RegimeSegment::new(MarketRegime::Bull, 5), RegimeSegment::new(MarketRegime::Bear, 5)];
    let schedule = RegimeSchedule::new(segments);

    generator.enable_regime_control(schedule);

    let bull_candles = generator.generate_series(5);
    let info = generator.regime_control_info().unwrap();
    assert_eq!(info.current_regime, Some(MarketRegime::Bear));

    let bear_candles = generator.generate_series(5);
    let info = generator.regime_control_info().unwrap();
    assert!(info.is_complete);

    assert_eq!(bull_candles.len(), 5);
    assert_eq!(bear_candles.len(), 5);

    for candle in &bull_candles {
        assert!(candle.is_valid());
    }
    for candle in &bear_candles {
        assert!(candle.is_valid());
    }
}

#[test]
fn test_regime_control_parameter_changes() {
    let config = ConfigBuilder::new().seed(42).trend(TrendDirection::Sideways, d(0.001)).build().unwrap();

    let mut generator = MarketDataGenerator::with_config(config).unwrap();

    let segments =
        vec![RegimeSegment::new(MarketRegime::Bull, 3), RegimeSegment::new(MarketRegime::Sideways, 3)];
    let schedule = RegimeSchedule::new(segments);

    generator.enable_regime_control(schedule);

    let config1 = generator.config().clone();
    generator.generate_ohlc();
    generator.generate_ohlc();

    assert_eq!(generator.config().trend_direction, TrendDirection::Bullish);

    generator.generate_ohlc();

    let config2 = generator.config().clone();
    assert_eq!(config2.trend_direction, TrendDirection::Sideways);
    assert_ne!(config1.trend_strength, config2.trend_strength);
}

#[test]
fn test_regime_control_force_regime() {
    let config = ConfigBuilder::new().seed(42).build().unwrap();

    let mut generator = MarketDataGenerator::with_config(config).unwrap();

    let segments = vec![RegimeSegment::new(MarketRegime::Bull, 10)];
    let schedule = RegimeSchedule::new(segments);
    generator.enable_regime_control(schedule);

    let info = generator.regime_control_info().unwrap();
    assert_eq!(info.current_regime, Some(MarketRegime::Bull));

    generator.force_regime(MarketRegime::Bear, 5, None);

    let info = generator.regime_control_info().unwrap();
    assert_eq!(info.current_regime, Some(MarketRegime::Bear));
}

#[test]
fn test_controlled_regime_series() {
    let config = ConfigBuilder::new().seed(42).build().unwrap();

    let mut generator = MarketDataGenerator::with_config(config).unwrap();

    let segments = vec![RegimeSegment::new(MarketRegime::Bull, 3), RegimeSegment::new(MarketRegime::Bear, 2)];
    let schedule = RegimeSchedule::new(segments);
    generator.enable_regime_control(schedule);

    let series = generator.generate_controlled_regime_series(5);

    assert_eq!(series.len(), 5);

    for i in 0..3 {
        if let Some(ref info) = series[i].schedule_info {
            assert_eq!(info.current_regime, Some(MarketRegime::Bull));
        }
    }

    for i in 3..5 {
        if let Some(ref info) = series[i].schedule_info {
            assert_eq!(info.current_regime, Some(MarketRegime::Bear));
        }
    }
}

#[test]
fn test_regime_schedule_reset() {
    let config = ConfigBuilder::new().seed(42).build().unwrap();

    let mut generator = MarketDataGenerator::with_config(config).unwrap();

    let segments = vec![RegimeSegment::new(MarketRegime::Bull, 2), RegimeSegment::new(MarketRegime::Bear, 2)];
    let schedule = RegimeSchedule::new(segments);
    generator.enable_regime_control(schedule);

    generator.generate_series(4);
    let info = generator.regime_control_info().unwrap();
    assert!(info.is_complete);

    generator.reset_regime_schedule();
    let info = generator.regime_control_info().unwrap();
    assert!(!info.is_complete);
    assert_eq!(info.current_regime, Some(MarketRegime::Bull));
}

fn seeded(seed: u64) -> MarketDataGenerator {
    let config = ConfigBuilder::new().seed(seed).build().unwrap();
    let mut generator = MarketDataGenerator::with_config(config).unwrap();
    generator.set_timestamp(1_700_000_000_000);
    generator
}

#[test]
fn two_generators_with_one_seed_agree_in_every_field() {
    let config = ConfigBuilder::new()
        .starting_price(d(100.0))
        .volatility(d(0.02))
        .trend(TrendDirection::Sideways, Price::zero())
        .seed(42)
        .time_interval(TimeInterval::OneMinute)
        .build()
        .unwrap();
    let mut a = MarketDataGenerator::with_config(config).unwrap();
    let mut b = MarketDataGenerator::with_config(config).unwrap();
    a.set_timestamp(1000);
    b.set_timestamp(1000);
    let left = a.generate_series(5);
    let right = b.generate_series(5);
    assert_eq!(left, right);
    assert_eq!(a.generate_ticks(5), b.generate_ticks(5));
}

#[test]
fn every_candle_is_consistent() {
    let mut generator = seeded(3);
    for candle in generator.generate_series(300) {
        assert!(candle.is_valid());
        assert!(candle.high.ge(&candle.open.max(candle.close)));
        assert!(candle.low.le(&candle.open.min(candle.close)));
        assert!(candle.high.ge(&candle.low));
        assert!(candle.low.is_positive());
    }
}

#[test]
fn prices_stay_within_the_bounds_under_high_noise() {
    let config = ConfigBuilder::new()
        .starting_price(d(100.0))
        .price_range(d(50.0), d(150.0))
        .volatility(d(0.5))
        .seed(42)
        .build()
        .unwrap();
    let mut generator = MarketDataGenerator::with_config(config).unwrap();
    for tick in generator.generate_ticks(1000) {
        assert!(tick.price.ge(&d(50.0)));
        assert!(tick.price.le(&d(150.0)));
    }
    for candle in generator.generate_series(100) {
        assert!(candle.low.ge(&d(50.0)));
        assert!(candle.high.le(&d(150.0)));
    }
}

#[test]
fn candle_timestamps_move_on_by_the_interval() {
    let config = ConfigBuilder::new().seed(1).time_interval(TimeInterval::FiveMinutes).build().unwrap();
    let mut generator = MarketDataGenerator::with_config(config).unwrap();
    generator.set_timestamp(1_000);
    let series = generator.generate_series(4);
    assert_eq!(series[0].timestamp, 1_000);
    assert_eq!(series[1].timestamp, 301_000);
    assert_eq!(series[2].timestamp, 601_000);
    assert_eq!(series[3].timestamp, 901_000);
    assert_eq!(generator.generate_ohlc().timestamp, 1_201_000);
}

#[test]
fn tick_timestamps_move_on_by_a_second() {
    let mut generator = seeded(1);
    let ticks = generator.generate_ticks(3);
    assert_eq!(ticks[0].timestamp, 1_700_000_000_000);
    assert_eq!(ticks[1].timestamp, 1_700_000_001_000);
    assert_eq!(ticks[2].timestamp, 1_700_000_002_000);
}

#[test]
fn timestamps_stop_at_the_largest_timestamp() {
    assert_eq!(advance_timestamp(i64::MAX - 10, 60_000), i64::MAX);
    assert_eq!(advance_timestamp(i64::MAX, 0), i64::MAX);
    assert_eq!(advance_timestamp(-5, 10), 5);
    assert_eq!(advance_timestamp(i64::MIN, u64::MAX), i64::MAX);
    assert_eq!(advance_timestamp(i64::MIN, i64::MAX as u64), -1);
    let mut generator = seeded(1);
    generator.set_timestamp(i64::MAX - 1);
    let series = generator.generate_series(3);
    assert_eq!(series[0].timestamp, i64::MAX - 1);
    assert_eq!(series[1].timestamp, i64::MAX);
    assert_eq!(series[2].timestamp, i64::MAX);
}

#[test]
fn tick_quotes_lie_half_a_spread_around_the_price() {
    let config = ConfigBuilder::new().starting_price(d(100.0)).seed(42).build().unwrap();
    let mut generator = MarketDataGenerator::with_config(config).unwrap();
    generator.set_timestamp(5_000);
    let tick = generator.generate_tick();
    let bid = tick.bid.unwrap();
    let ask = tick.ask.unwrap();
    assert_eq!(bid, tick.price.saturating_mul(d(0.9995)));
    assert_eq!(ask, tick.price.saturating_mul(d(1.0005)));
    assert!(ask.gt(&bid));
    assert_eq!(tick.timestamp, 5_000);
    assert_eq!(generator.generate_tick().timestamp, 6_000);
}

#[test]
fn reset_starts_the_stream_again() {
    let config = ConfigBuilder::new().seed(42).build().unwrap();
    let mut generator = MarketDataGenerator::with_config(config).unwrap();
    generator.set_timestamp(10);
    let first = generator.generate_ohlc();
    generator.generate_series(7);
    generator.reset();
    generator.set_timestamp(10);
    let again = generator.generate_ohlc();
    assert_eq!(first, again);
    let mut fresh = MarketDataGenerator::with_config(config).unwrap();
    fresh.set_timestamp(10);
    assert_eq!(fresh.generate_ohlc(), first);
}

#[test]
fn an_invalid_configuration_is_refused() {
    let mut config = GeneratorConfig::default();
    config.starting_price = d(-1.0);
    assert_eq!(
        MarketDataGenerator::with_config(config).err().unwrap(),
        "Invalid configuration: Invalid price configuration: Starting price must be positive"
    );
    let mut generator = MarketDataGenerator::new();
    config = GeneratorConfig::default();
    config.base_volume = 0;
    assert_eq!(
        generator.set_config(config).err().unwrap(),
        "Invalid configuration: Invalid parameter: Base volume must be positive"
    );
    assert_eq!(generator.config().base_volume, 100000);
}

#[test]
fn set_config_starts_the_walk_again() {
    let mut generator = seeded(5);
    generator.generate_series(3);
    let mut config = GeneratorConfig::default();
    config.starting_price = d(250.0);
    config.seed = Some(9);
    assert!(generator.set_config(config).is_ok());
    assert_eq!(generator.config().starting_price, d(250.0));
    assert_eq!(generator.current_price(), d(250.0));
    assert_eq!(generator.generate_ohlc().open, d(250.0));
}

#[test]
fn a_candle_from_given_draws_and_volume() {
    let mut generator = seeded(5);
    let draws = vec![Some(d(0.1)); 10];
    let candle = generator.candle_from_draws(&draws, 77);
    assert_eq!(candle.open, d(100.0));
    assert_eq!(candle.low, d(100.0));
    assert_eq!(candle.high, candle.close);
    assert_eq!(candle.close, d(259.37424601));
    assert_eq!(candle.volume.value(), 77);
    assert_eq!(candle.timestamp, 1_700_000_000_000);
    assert_eq!(generator.current_price(), candle.close);
    assert!(generator.data_buffer().is_empty());
    generator.enable_volatility_regime_detection(20);
    let next = generator.candle_from_draws(&draws, 78);
    assert_eq!(next.open, candle.close);
    assert_eq!(generator.data_buffer(), vec![next]);
}

#[test]
fn candles_are_kept_only_while_detection_is_on() {
    let mut generator = seeded(5);
    generator.generate_series(30);
    assert!(generator.data_buffer().is_empty());
    let shown = generator.generate_ohlc();
    generator.update_regime_detection(&shown);
    assert!(generator.data_buffer().is_empty());
    generator.enable_volatility_regime_detection(20);
    let made = generator.generate_series(3);
    assert_eq!(generator.data_buffer(), made);
    generator.disable_regime_detection();
    generator.generate_series(3);
    assert!(generator.data_buffer().is_empty());
}

#[test]
fn detection_keeps_the_last_candles_shown() {
    let mut source = seeded(9);
    let candles = source.generate_series(HISTORY_CAPACITY + 7);
    let mut generator = seeded(5);
    generator.enable_volatility_regime_detection(20);
    for (i, candle) in candles.iter().enumerate() {
        generator.update_regime_detection(candle);
        let kept = generator.data_buffer();
        let expected = if i + 1 > HISTORY_CAPACITY { HISTORY_CAPACITY } else { i + 1 };
        assert_eq!(kept.len(), expected);
        assert_eq!(kept[kept.len() - 1], *candle);
        assert_eq!(kept[0], candles[i + 1 - expected]);
    }
    assert_eq!(generator.data_buffer(), candles[7..].to_vec());
}

#[test]
fn no_more_candles_are_kept_than_the_capacity() {
    let mut generator = seeded(11);
    generator.enable_volatility_regime_detection(20);
    let series = generator.generate_series(HISTORY_CAPACITY + 50);
    let kept = generator.data_buffer();
    assert_eq!(kept.len(), HISTORY_CAPACITY);
    assert_eq!(kept[0], series[50]);
    assert_eq!(kept[HISTORY_CAPACITY - 1], series[HISTORY_CAPACITY + 49]);
    generator.disable_regime_detection();
    assert!(generator.data_buffer().is_empty());
    assert!(generator.regime_analytics().is_none());
    assert!(generator.current_regime().is_none());
}

#[test]
fn detection_reports_analytics() {
    let mut generator = seeded(11);
    assert!(generator.regime_analytics().is_none());
    assert!(generator.detect_regime_on_buffer().is_none());
    generator.enable_volatility_regime_detection(20);
    let analytics = generator.regime_analytics().unwrap();
    assert_eq!(analytics.transitions, 0);
    assert!(analytics.current_regime.is_none());
    assert_eq!(analytics.average_duration, Price::zero());
    let series =
        generator.generate_regime_aware_series(60, market_data_source::regimes::RegimeConfig::default());
    assert_eq!(series.len(), 60);
    let _ = generator.detect_regime_on_buffer();
    let after = generator.regime_analytics().unwrap();
    let changes = after.transitions;
    assert!(changes <= 60);
}

#[test]
fn schedule_of_two_segments_runs_in_order() {
    let config = ConfigBuilder::new().seed(42).build().unwrap();
    let mut generator = MarketDataGenerator::with_config(config).unwrap();
    generator.enable_regime_control(RegimeSchedule::new(vec![
        RegimeSegment::new(MarketRegime::Bull, 5),
        RegimeSegment::new(MarketRegime::Bear, 5),
    ]));
    let series = generator.generate_controlled_regime_series(10);
    for (i, item) in series.iter().enumerate() {
        let info = item.schedule_info.unwrap();
        let expected = if i < 5 { MarketRegime::Bull } else { MarketRegime::Bear };
        assert_eq!(info.current_regime, Some(expected));
        assert!(!info.is_complete);
    }
    let info = generator.regime_control_info().unwrap();
    assert!(info.is_complete);
    assert_eq!(info.total_progress, 10);
    assert_eq!(info.remaining_segments, 0);
    assert_eq!(info.current_regime, None);
}

#[test]
fn forced_regime_takes_over() {
    let config = ConfigBuilder::new().seed(42).build().unwrap();
    let mut generator = MarketDataGenerator::with_config(config).unwrap();
    generator.enable_regime_control(RegimeSchedule::new(vec![RegimeSegment::new(MarketRegime::Bull, 100)]));
    generator.generate_series(5);
    assert_eq!(generator.regime_control_info().unwrap().current_regime, Some(MarketRegime::Bull));
    generator.force_regime(MarketRegime::Bear, 10, None);
    assert_eq!(generator.regime_control_info().unwrap().current_regime, Some(MarketRegime::Bear));
    generator.generate_series(3);
    let info = generator.regime_control_info().unwrap();
    assert_eq!(info.current_regime, Some(MarketRegime::Bear));
    assert_eq!(info.current_segment_progress, d(0.3));
    assert!(!info.is_complete);
    generator.generate_series(6);
    assert!(!generator.regime_control_info().unwrap().is_complete);
    generator.generate_series(1);
    assert!(generator.regime_control_info().unwrap().is_complete);
}

#[test]
fn regime_hooks_do_nothing_without_control() {
    let mut generator = seeded(2);
    generator.force_regime(MarketRegime::Bear, 10, None);
    generator.add_regime_segment(RegimeSegment::new(MarketRegime::Bull, 3));
    generator.reset_regime_schedule();
    assert!(generator.regime_control_info().is_none());
    generator.enable_regime_control(RegimeSchedule::new(vec![]));
    generator.add_regime_segment(RegimeSegment::new(MarketRegime::Bull, 3));
    assert_eq!(generator.regime_control_info().unwrap().remaining_segments, 1);
    generator.disable_regime_control();
    assert!(generator.regime_control_info().is_none());
}

#[test]
fn the_walk_goes_on_from_its_price_when_the_regime_changes() {
    let mut generator = seeded(8);
    generator.enable_regime_control(RegimeSchedule::new(vec![
        RegimeSegment::new(MarketRegime::Bull, 2),
        RegimeSegment::new(MarketRegime::Bear, 2),
    ]));
    let series = generator.generate_series(4);
    for i in 1..4 {
        assert_eq!(series[i].open, series[i - 1].close);
    }
}
