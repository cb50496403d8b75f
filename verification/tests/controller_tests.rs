use market_data_source::regimes::controller::TransitionState;
use market_data_source::{
    GeneratorConfig, MarketRegime, Price, RegimeController, RegimeSchedule, RegimeSegment, TrendDirection,
};

#[test]
fn test_regime_segment_creation() {
    let segment = RegimeSegment::new(MarketRegime::Bull, 100);
    assert_eq!(segment.regime, MarketRegime::Bull);
    assert_eq!(segment.duration, 100);
    assert_eq!(segment.config.trend_direction, TrendDirection::Bullish);
}

#[test]
fn test_regime_schedule_basic() {
    let segments = vec![RegimeSegment::new(MarketRegime::Bull, 50), RegimeSegment::new(MarketRegime::Bear, 30)];

    let mut schedule = RegimeSchedule::new(segments);

    assert_eq!(schedule.current_segment().unwrap().regime, MarketRegime::Bull);

    for _ in 0..49 {
        schedule.advance();
    }
    assert_eq!(schedule.current_segment().unwrap().regime, MarketRegime::Bull);

    schedule.advance();
    assert_eq!(schedule.current_segment().unwrap().regime, MarketRegime::Bear);
}

#[test]
fn test_regime_schedule_completion() {
    let segments = vec![RegimeSegment::new(MarketRegime::Bull, 2)];

    let mut schedule = RegimeSchedule::new(segments);

    assert!(!schedule.is_complete());
    schedule.advance();
    assert!(!schedule.is_complete());
    schedule.advance();
    assert!(schedule.is_complete());
}

#[test]
fn test_regime_schedule_repeating() {
    let segments = vec![RegimeSegment::new(MarketRegime::Bull, 1), RegimeSegment::new(MarketRegime::Bear, 1)];

    let mut schedule = RegimeSchedule::repeating(segments);

    assert_eq!(schedule.current_segment().unwrap().regime, MarketRegime::Bull);
    schedule.advance();
    assert_eq!(schedule.current_segment().unwrap().regime, MarketRegime::Bear);
    schedule.advance();
    assert_eq!(schedule.current_segment().unwrap().regime, MarketRegime::Bull);
    assert!(!schedule.is_complete());
}

#[test]
fn test_transition_state() {
    let from_config = GeneratorConfig::default();
    let mut to_config = GeneratorConfig::default();
    to_config.volatility = Price::new(2, 1);

    let mut transition = TransitionState::new(from_config, to_config, 4);

    assert_eq!(transition.progress, Price::zero());

    transition.advance();
    assert_eq!(transition.progress, Price::new(25, 2));

    let interpolated = transition.interpolated_config();
    let expected = Price::new(2, 2)
        .saturating_add(Price::new(2, 1).saturating_sub(Price::new(2, 2)).saturating_mul(Price::new(25, 2)));
    assert_eq!(interpolated.volatility, expected);
}

#[test]
fn test_regime_controller_basic() {
    let segments = vec![RegimeSegment::new(MarketRegime::Bull, 3), RegimeSegment::new(MarketRegime::Bear, 2)];

    let schedule = RegimeSchedule::new(segments);
    let base_config = GeneratorConfig::default();
    let mut controller = RegimeController::new(schedule, base_config);

    assert_eq!(controller.current_regime(), Some(MarketRegime::Bull));
    assert_eq!(controller.current_config().trend_direction, TrendDirection::Bullish);

    for _ in 0..3 {
        controller.advance();
    }

    assert_eq!(controller.current_regime(), Some(MarketRegime::Bear));
    assert_eq!(controller.current_config().trend_direction, TrendDirection::Bearish);
}

#[test]
fn regime_presets() {
    let bull = RegimeSegment::new(MarketRegime::Bull, 1).config;
    assert_eq!(bull.trend_direction, TrendDirection::Bullish);
    assert_eq!(bull.trend_strength, Price::new(5, 3));
    assert_eq!(bull.volatility, Price::new(15, 3));
    let bear = RegimeSegment::new(MarketRegime::Bear, 1).config;
    assert_eq!(bear.trend_direction, TrendDirection::Bearish);
    assert_eq!(bear.trend_strength, Price::new(7, 3));
    assert_eq!(bear.volatility, Price::new(25, 3));
    let sideways = RegimeSegment::new(MarketRegime::Sideways, 1).config;
    assert_eq!(sideways.trend_direction, TrendDirection::Sideways);
    assert_eq!(sideways.trend_strength, Price::zero());
    assert_eq!(sideways.volatility, Price::new(10, 3));
    let own = MarketRegime::Normal { mean: Price::new(100, 0), std_dev: Price::new(4, 2), bias: Some(Price::new(1, 3)) };
    let normal = RegimeSegment::default_config_for_regime(own);
    assert_eq!(normal.trend_direction, TrendDirection::Sideways);
    assert_eq!(normal.trend_strength, Price::new(1, 3));
    assert_eq!(normal.volatility, Price::new(4, 2));
    let unbiased = MarketRegime::Normal { mean: Price::new(100, 0), std_dev: Price::new(4, 2), bias: None };
    assert_eq!(RegimeSegment::default_config_for_regime(unbiased).trend_strength, Price::zero());
    assert_eq!(bull.starting_price, Price::new(100, 0));
    let custom = RegimeSegment::with_config(MarketRegime::Bear, 9, GeneratorConfig::volatile()).with_transition(4);
    assert_eq!(custom.duration, 9);
    assert_eq!(custom.transition_duration, Some(4));
    assert_eq!(custom.config.volatility, Price::new(5, 2));
}

#[test]
fn schedule_completes_after_the_sum_of_its_durations() {
    let durations = [3usize, 1, 4, 1, 5];
    let segments: Vec<RegimeSegment> =
        durations.iter().map(|n| RegimeSegment::new(MarketRegime::Bull, *n)).collect();
    let mut schedule = RegimeSchedule::new(segments);
    assert_eq!(schedule.total_duration(), 14);
    for step in 0..14 {
        assert!(!schedule.is_complete(), "complete after {} steps", step);
        schedule.advance();
    }
    assert!(schedule.is_complete());
    assert_eq!(schedule.total_progress(), 14);
    assert!(schedule.advance().is_none());
    assert_eq!(schedule.total_progress(), 15);
    assert!(schedule.remaining_segments().is_empty());
}

#[test]
fn a_repeating_schedule_never_completes() {
    let mut schedule = RegimeSchedule::repeating(vec![
        RegimeSegment::new(MarketRegime::Bull, 3),
        RegimeSegment::new(MarketRegime::Bear, 2),
    ]);
    let expected = [
        MarketRegime::Bull,
        MarketRegime::Bull,
        MarketRegime::Bull,
        MarketRegime::Bear,
        MarketRegime::Bear,
        MarketRegime::Bull,
        MarketRegime::Bull,
        MarketRegime::Bull,
        MarketRegime::Bear,
        MarketRegime::Bear,
        MarketRegime::Bull,
        MarketRegime::Bull,
    ];
    for regime in expected {
        assert_eq!(schedule.current_segment().unwrap().regime, regime);
        assert!(!schedule.is_complete());
        schedule.advance();
    }
    assert!(!schedule.is_complete());
}

#[test]
fn an_empty_schedule_is_complete_unless_it_repeats() {
    let mut once = RegimeSchedule::new(vec![]);
    assert!(once.is_complete());
    assert!(once.current_segment().is_none());
    assert_eq!(once.current_segment_progress(), Price::one());
    assert!(once.advance().is_none());
    assert!(once.is_complete());
    let again = RegimeSchedule::repeating(vec![]);
    assert!(!again.is_complete());
}

#[test]
fn a_segment_without_steps_takes_one_step() {
    let mut schedule = RegimeSchedule::new(vec![RegimeSegment::new(MarketRegime::Bull, 0)]);
    assert_eq!(schedule.total_duration(), 0);
    assert!(!schedule.is_complete());
    assert_eq!(schedule.current_segment_progress(), Price::one());
    schedule.advance();
    assert!(schedule.is_complete());
}

#[test]
fn schedule_progress_reset_and_added_segments() {
    let mut schedule = RegimeSchedule::new(vec![RegimeSegment::new(MarketRegime::Bull, 4)]);
    assert_eq!(schedule.current_segment_progress(), Price::zero());
    schedule.advance();
    assert_eq!(schedule.current_segment_progress(), Price::new(25, 2));
    schedule.add_segment(RegimeSegment::new(MarketRegime::Bear, 2));
    assert_eq!(schedule.remaining_segments().len(), 2);
    assert_eq!(schedule.remaining_count(), 2);
    assert_eq!(schedule.total_duration(), 6);
    for _ in 0..3 {
        schedule.advance();
    }
    assert_eq!(schedule.current_segment().unwrap().regime, MarketRegime::Bear);
    schedule.reset();
    assert_eq!(schedule.total_progress(), 0);
    assert_eq!(schedule.current_segment().unwrap().regime, MarketRegime::Bull);
    assert_eq!(schedule.remaining_segments().len(), 2);
    let long = RegimeSchedule::new(vec![
        RegimeSegment::new(MarketRegime::Bull, usize::MAX),
        RegimeSegment::new(MarketRegime::Bear, 2),
    ]);
    assert_eq!(long.total_duration(), usize::MAX);
}

#[test]
fn transition_moves_in_even_steps() {
    let from = GeneratorConfig::default();
    let mut to = GeneratorConfig::default();
    to.volatility = Price::new(6, 2);
    to.trend_strength = Price::new(8, 3);
    to.trend_direction = TrendDirection::Bearish;
    to.base_volume = 5;
    let mut transition = TransitionState::new(from, to, 4);
    assert!(!transition.is_complete());
    assert_eq!(transition.interpolated_config().volatility, Price::new(2, 2));
    assert_eq!(transition.interpolated_config().trend_direction, TrendDirection::Sideways);
    let volatilities = [Price::new(3, 2), Price::new(4, 2), Price::new(5, 2), Price::new(6, 2)];
    let strengths = [Price::new(2, 3), Price::new(4, 3), Price::new(6, 3), Price::new(8, 3)];
    let directions =
        [TrendDirection::Sideways, TrendDirection::Bearish, TrendDirection::Bearish, TrendDirection::Bearish];
    for step in 0..4 {
        assert!(transition.advance());
        let config = transition.interpolated_config();
        assert_eq!(transition.current_step, step + 1);
        assert_eq!(config.volatility, volatilities[step]);
        assert_eq!(config.trend_strength, strengths[step]);
        assert_eq!(config.trend_direction, directions[step]);
        assert_eq!(config.base_volume, 100000);
    }
    assert!(transition.is_complete());
    assert!(!transition.advance());
    assert_eq!(transition.current_step, 4);
    assert_eq!(transition.progress, Price::one());
}

#[test]
fn controller_merges_only_trend_and_volatility() {
    let mut base = GeneratorConfig::default();
    base.starting_price = Price::new(50, 0);
    base.base_volume = 7;
    let mut regime = GeneratorConfig::default();
    regime.trend_direction = TrendDirection::Bearish;
    regime.trend_strength = Price::new(3, 2);
    regime.volatility = Price::new(9, 2);
    regime.base_volume = 1;
    let merged = RegimeController::merge_configs(&base, &regime);
    assert_eq!(merged.starting_price, Price::new(50, 0));
    assert_eq!(merged.base_volume, 7);
    assert_eq!(merged.trend_direction, TrendDirection::Bearish);
    assert_eq!(merged.trend_strength, Price::new(3, 2));
    assert_eq!(merged.volatility, Price::new(9, 2));
}

#[test]
fn controller_interpolates_over_a_transition() {
    let schedule = RegimeSchedule::new(vec![
        RegimeSegment::new(MarketRegime::Bull, 2),
        RegimeSegment::new(MarketRegime::Bear, 10).with_transition(5),
    ]);
    let mut controller = RegimeController::new(schedule, GeneratorConfig::default());
    assert_eq!(controller.current_config().volatility, Price::new(15, 3));
    assert!(controller.advance());
    assert!(!controller.schedule_info().in_transition);
    assert!(controller.advance());
    let info = controller.schedule_info();
    assert!(info.in_transition);
    assert_eq!(info.current_regime, Some(MarketRegime::Bear));
    assert_eq!(controller.current_config().volatility, Price::new(15, 3));
    let expected = [Price::new(17, 3), Price::new(19, 3), Price::new(21, 3), Price::new(23, 3), Price::new(25, 3)];
    for (i, volatility) in expected.iter().enumerate() {
        controller.advance();
        assert_eq!(controller.current_config().volatility, *volatility);
        assert_eq!(controller.schedule_info().in_transition, i < 4);
    }
    assert_eq!(controller.current_config().trend_direction, TrendDirection::Bearish);
    assert_eq!(controller.current_config().trend_strength, Price::new(7, 3));
}

#[test]
fn controller_force_add_and_reset() {
    let schedule = RegimeSchedule::new(vec![RegimeSegment::new(MarketRegime::Bull, 100)]);
    let mut controller = RegimeController::new(schedule, GeneratorConfig::default());
    for _ in 0..5 {
        controller.advance();
    }
    controller.force_regime(MarketRegime::Bear, 10, None);
    assert_eq!(controller.current_regime(), Some(MarketRegime::Bear));
    assert_eq!(controller.current_config().trend_direction, TrendDirection::Bearish);
    for step in 0..10 {
        assert!(!controller.schedule_info().is_complete, "complete after {} steps", step);
        let goes_on = controller.advance();
        assert_eq!(goes_on, step < 9);
    }
    assert!(controller.schedule_info().is_complete);
    controller.add_segment(RegimeSegment::new(MarketRegime::Sideways, 1));
    assert_eq!(controller.current_regime(), Some(MarketRegime::Sideways));
    controller.reset();
    assert_eq!(controller.current_regime(), Some(MarketRegime::Bear));
    assert_eq!(controller.schedule_info().remaining_segments, 2);
    assert_eq!(controller.schedule_info().total_progress, 0);
    controller.set_schedule(RegimeSchedule::new(vec![]));
    assert_eq!(controller.current_regime(), None);
    assert_eq!(controller.current_config().trend_direction, TrendDirection::Bearish);
    assert_eq!(controller.base_config().trend_direction, TrendDirection::Sideways);
}
