use market_data_source::text::integer_bytes;
use market_data_source::{Price, Tick, TimeInterval, Volume, OHLC};
use rust_decimal::prelude::FromPrimitive;
use rust_decimal::Decimal;

fn d(value: f64) -> Price {
    let v = Decimal::from_f64(value).unwrap();
    Price::from_parts(v.mantissa(), v.scale()).unwrap()
}

#[test]
fn test_ohlc_creation() {
    let ohlc = OHLC::new(d(100.0), d(105.0), d(99.0), d(103.0), 1000, 1234567890);
    assert_eq!(ohlc.open, d(100.0));
    assert_eq!(ohlc.high, d(105.0));
    assert_eq!(ohlc.low, d(99.0));
    assert_eq!(ohlc.close, d(103.0));
    assert_eq!(ohlc.volume.value(), 1000);
    assert_eq!(ohlc.timestamp, 1234567890);
}

#[test]
fn test_ohlc_validation() {
    let valid_ohlc = OHLC::new(d(100.0), d(105.0), d(99.0), d(103.0), 1000, 1234567890);
    assert!(valid_ohlc.is_valid());

    let invalid_ohlc = OHLC::new(d(100.0), d(102.0), d(99.0), d(103.0), 1000, 1234567890);
    assert!(!invalid_ohlc.is_valid());
}

#[test]
fn test_ohlc_calculations() {
    let ohlc = OHLC::new(d(100.0), d(105.0), d(99.0), d(103.0), 1000, 1234567890);
    assert_eq!(ohlc.range(), d(6.0));
    assert_eq!(ohlc.body(), d(3.0));
    assert!(ohlc.is_bullish());

    let bearish = OHLC::new(d(100.0), d(102.0), d(97.0), d(98.0), 1000, 1234567890);
    assert!(!bearish.is_bullish());
}

#[test]
fn test_tick_creation() {
    let tick = Tick::new(d(100.5), 500, 1234567890);
    assert_eq!(tick.price, d(100.5));
    assert_eq!(tick.volume.value(), 500);
    assert_eq!(tick.timestamp, 1234567890);
    assert!(tick.bid.is_none());
    assert!(tick.ask.is_none());
}

#[test]
fn test_tick_with_spread() {
    let tick = Tick::with_spread(d(100.5), 500, 1234567890, d(100.4), d(100.6));
    assert_eq!(tick.bid, Some(d(100.4)));
    assert_eq!(tick.ask, Some(d(100.6)));

    let spread = tick.spread().unwrap();
    assert_eq!(spread, d(0.2));
}

#[test]
fn test_time_interval() {
    assert_eq!(TimeInterval::OneMinute.seconds(), 60);
    assert_eq!(TimeInterval::FiveMinutes.seconds(), 300);
    assert_eq!(TimeInterval::OneHour.seconds(), 3600);
    assert_eq!(TimeInterval::OneDay.seconds(), 86400);
    assert_eq!(TimeInterval::Custom(120).seconds(), 120);

    assert_eq!(TimeInterval::OneMinute.millis(), 60000);
}

#[test]
fn test_volume() {
    let vol = Volume::new(1500);
    assert_eq!(vol.value(), 1500);
    assert_eq!(format!("{}", vol.value()), "1500");
}

#[test]
fn time_interval_millis_of_every_period() {
    assert_eq!(TimeInterval::OneMinute.millis(), 60_000);
    assert_eq!(TimeInterval::FiveMinutes.millis(), 300_000);
    assert_eq!(TimeInterval::FifteenMinutes.millis(), 900_000);
    assert_eq!(TimeInterval::ThirtyMinutes.millis(), 1_800_000);
    assert_eq!(TimeInterval::OneHour.millis(), 3_600_000);
    assert_eq!(TimeInterval::FourHours.millis(), 14_400_000);
    assert_eq!(TimeInterval::OneDay.millis(), 86_400_000);
    assert_eq!(TimeInterval::Custom(u32::MAX).millis(), 4_294_967_295_000);
    assert_eq!(TimeInterval::Custom(0).millis(), 0);
}

#[test]
fn tick_without_quotes_has_no_spread() {
    let tick = Tick::new(d(100.5), 500, 1);
    assert!(tick.spread().is_none());
}

#[test]
fn ohlc_with_a_price_of_zero_is_not_valid() {
    let zero = Price::zero();
    assert!(!OHLC::new(zero, d(1.0), zero, d(1.0), 1, 1).is_valid());
    assert!(!OHLC::new(d(2.0), d(1.0), d(1.0), d(2.0), 1, 1).is_valid());
}

#[test]
fn price_from_parts_accepts_what_a_decimal_holds() {
    assert!(Price::from_parts(0, 0).is_some());
    assert!(Price::from_parts(79_228_162_514_264_337_593_543_950_335, 28).is_some());
    assert!(Price::from_parts(-79_228_162_514_264_337_593_543_950_335, 0).is_some());
    assert!(Price::from_parts(79_228_162_514_264_337_593_543_950_336, 0).is_none());
    assert!(Price::from_parts(-79_228_162_514_264_337_593_543_950_336, 0).is_none());
    assert!(Price::from_parts(1, 29).is_none());
    let p = Price::from_parts(12345, 3).unwrap();
    assert_eq!(p.mantissa(), 12345);
    assert_eq!(p.scale(), 3);
}

#[test]
fn prices_compare_by_value() {
    assert_eq!(Price::new(10, 1), Price::new(1, 0));
    assert_eq!(Price::new(100, 2), Price::new(1000, 3));
    assert!(Price::new(5, 1) != Price::new(5, 2));
    assert!(Price::new(5, 2).lt(&Price::new(5, 1)));
    assert!(Price::new(5, 1).gt(&Price::new(5, 2)));
    assert!(Price::new(-1, 0).lt(&Price::zero()));
    assert!(Price::new(5, 1).le(&Price::new(50, 2)));
    assert!(Price::new(5, 1).ge(&Price::new(50, 2)));
    assert!(Price::new(3, 0).same_value(&Price::new(3000, 3)));
    assert!(!Price::new(3, 0).lt(&Price::new(3, 0)));
}

#[test]
fn price_signs() {
    assert!(Price::zero().is_zero());
    assert!(Price::new(0, 5).is_zero());
    assert!(!Price::new(1, 28).is_zero());
    assert!(Price::new(1, 28).is_positive());
    assert!(Price::new(-1, 28).is_negative());
    assert!(!Price::zero().is_positive());
    assert!(!Price::zero().is_negative());
    assert_eq!(Price::new(-15, 1).abs(), Price::new(15, 1));
    assert_eq!(Price::new(15, 1).abs(), Price::new(15, 1));
    assert_eq!(Price::new(15, 1).neg(), Price::new(-15, 1));
}

#[test]
fn price_arithmetic_is_exact_on_short_decimals() {
    assert_eq!(Price::new(15, 1).saturating_add(Price::new(25, 2)), Price::new(175, 2));
    assert_eq!(Price::new(15, 1).saturating_sub(Price::new(25, 2)), Price::new(125, 2));
    assert_eq!(Price::new(15, 1).saturating_mul(Price::new(2, 0)), Price::new(3, 0));
    assert_eq!(Price::new(3, 0).saturating_div(Price::new(4, 0)), Price::new(75, 2));
    assert_eq!(Price::new(1, 0).saturating_div(Price::new(3, 0)), d(1.0).saturating_div(d(3.0)));
    assert!(Price::new(1, 0).saturating_div(Price::new(3, 0)).gt(&Price::new(333, 3)));
    assert!(Price::new(1, 0).saturating_div(Price::new(3, 0)).lt(&Price::new(334, 3)));
}

#[test]
fn price_arithmetic_saturates() {
    let max = Price::max_value();
    let min = Price::min_value();
    assert_eq!(max.saturating_add(Price::one()), max);
    assert_eq!(min.saturating_sub(Price::one()), min);
    assert_eq!(min.saturating_add(Price::new(-1, 0)), min);
    assert_eq!(max.saturating_mul(Price::two()), max);
    assert_eq!(max.saturating_mul(Price::new(-2, 0)), min);
    assert_eq!(min.saturating_mul(Price::new(-2, 0)), max);
    assert_eq!(max.saturating_div(Price::new(1, 1)), max);
    assert_eq!(max.saturating_div(Price::new(-1, 1)), min);
}

#[test]
fn division_by_zero_gives_zero() {
    assert_eq!(Price::new(5, 0).saturating_div(Price::zero()), Price::zero());
    assert_eq!(Price::new(-5, 0).saturating_div(Price::new(0, 3)), Price::zero());
}

#[test]
fn price_max_min_and_clamp() {
    let a = Price::new(1, 0);
    let b = Price::new(2, 0);
    assert_eq!(a.max(b), b);
    assert_eq!(a.min(b), a);
    assert_eq!(Price::new(5, 0).clamp(a, b), b);
    assert_eq!(Price::new(-5, 0).clamp(a, b), a);
    assert_eq!(Price::new(15, 1).clamp(a, b), Price::new(15, 1));
    assert_eq!(Price::new(15, 1).clamp(b, a), a);
}

#[test]
fn price_rounding_is_to_even() {
    assert_eq!(Price::new(65, 1).round(), Price::new(6, 0));
    assert_eq!(Price::new(75, 1).round(), Price::new(8, 0));
    assert_eq!(Price::new(26, 1).round(), Price::new(3, 0));
    assert_eq!(Price::new(26, 1).round().scale(), 0);
    assert_eq!(Price::new(26, 1).round().whole_as_usize(), Some(3));
    assert_eq!(Price::new(-26, 1).round().whole_as_usize(), None);
    assert_eq!(Price::new(26, 1).whole_as_usize(), None);
}

#[test]
fn price_conversions_from_counts() {
    assert_eq!(Price::from_u64(u64::MAX).mantissa(), u64::MAX as i128);
    assert_eq!(Price::from_usize(7), Price::new(7, 0));
    assert_eq!(Price::one(), Price::new(1, 0));
    assert_eq!(Price::two(), Price::new(2, 0));
}

#[test]
fn labels_of_periods() {
    assert_eq!(TimeInterval::OneMinute.label(), "1m");
    assert_eq!(TimeInterval::FiveMinutes.label(), "5m");
    assert_eq!(TimeInterval::FifteenMinutes.label(), "15m");
    assert_eq!(TimeInterval::ThirtyMinutes.label(), "30m");
    assert_eq!(TimeInterval::OneHour.label(), "1h");
    assert_eq!(TimeInterval::FourHours.label(), "4h");
    assert_eq!(TimeInterval::OneDay.label(), "1d");
    assert_eq!(TimeInterval::Custom(90).label(), "90s");
    assert_eq!(TimeInterval::Custom(0).label(), "0s");
    for interval in [
        TimeInterval::OneMinute,
        TimeInterval::FiveMinutes,
        TimeInterval::FifteenMinutes,
        TimeInterval::ThirtyMinutes,
        TimeInterval::OneHour,
        TimeInterval::FourHours,
        TimeInterval::OneDay,
    ] {
        assert_eq!(TimeInterval::from_label(&interval.label()), Some(interval));
    }
    assert_eq!(TimeInterval::from_label("90s"), None);
    assert_eq!(TimeInterval::from_label("1M"), None);
    assert_eq!(TimeInterval::from_label(""), None);
    assert_eq!(Volume::new(1500).to_string(), "1500");
}

#[test]
fn prices_and_whole_numbers_as_text() {
    assert_eq!(Price::new(1005, 1).to_text(), b"100.5".to_vec());
    assert_eq!(Price::new(-5, 3).to_text(), b"-0.005".to_vec());
    assert_eq!(Price::new(100, 0).to_text(), b"100".to_vec());
    assert_eq!(Price::new(1000, 1).to_text(), b"100.0".to_vec());
    assert_eq!(Price::zero().to_text(), b"0".to_vec());
    assert_eq!(integer_bytes(0), b"0".to_vec());
    assert_eq!(integer_bytes(7), b"7".to_vec());
    assert_eq!(integer_bytes(-7), b"-7".to_vec());
    assert_eq!(integer_bytes(1234567890), b"1234567890".to_vec());
    assert_eq!(integer_bytes(i64::MIN as i128), b"-9223372036854775808".to_vec());
    assert_eq!(integer_bytes(u64::MAX as i128), b"18446744073709551615".to_vec());
    assert_eq!(integer_bytes(i128::MIN), b"-170141183460469231731687303715884105728".to_vec());
    assert_eq!(integer_bytes(i128::MAX), b"170141183460469231731687303715884105727".to_vec());
}

fn expected_text(m: i128, scale: u32) -> String {
    let size = m.unsigned_abs();
    let unit = 10u128.pow(scale);
    let mut text = String::new();
    if m < 0 {
        text.push('-');
    }
    text.push_str(&(size / unit).to_string());
    if scale > 0 {
        text.push('.');
        text.push_str(&format!("{:0width$}", size % unit, width = scale as usize));
    }
    text
}

fn expected_rounding(m: i128, scale: u32) -> (i128, u32) {
    if scale == 0 {
        return (m, 0);
    }
    let size = m.unsigned_abs();
    let unit = 10u128.pow(scale);
    let whole = size / unit;
    let rest = size % unit;
    let up = 2 * rest > unit || (2 * rest == unit && whole % 2 == 1);
    let rounded = (if up { whole + 1 } else { whole }) as i128;
    (if m < 0 { -rounded } else { rounded }, 0)
}

fn sample_decimals() -> Vec<(i128, u32)> {
    let mantissas: [i128; 24] = [
        0,
        1,
        -1,
        5,
        -5,
        15,
        -15,
        25,
        -25,
        49,
        50,
        51,
        -50,
        150,
        250,
        -250,
        999,
        1005,
        -1005,
        123456789,
        -123456789,
        5_000_000_000_000_000_000,
        79_228_162_514_264_337_593_543_950_335,
        -79_228_162_514_264_337_593_543_950_335,
    ];
    let scales: [u32; 9] = [0, 1, 2, 3, 9, 10, 19, 27, 28];
    let mut all = Vec::new();
    for m in mantissas {
        for scale in scales {
            all.push((m, scale));
        }
    }
    all
}

#[test]
fn the_text_of_a_price_is_sign_digits_and_point() {
    for (m, scale) in sample_decimals() {
        let price = Price::from_parts(m, scale).unwrap();
        assert_eq!(String::from_utf8(price.to_text()).unwrap(), expected_text(m, scale), "{} e-{}", m, scale);
    }
    assert_eq!(Price::new(0, 3).to_text(), b"0.000".to_vec());
    assert_eq!(Price::new(-1, 28).to_text(), b"-0.0000000000000000000000000001".to_vec());
    assert_eq!(Price::new(120, 1).to_text(), b"12.0".to_vec());
}

#[test]
fn rounding_is_half_to_even_on_the_size() {
    for (m, scale) in sample_decimals() {
        let rounded = Price::from_parts(m, scale).unwrap().round();
        assert_eq!((rounded.mantissa(), rounded.scale()), expected_rounding(m, scale), "{} e-{}", m, scale);
    }
    assert_eq!(Price::new(5, 1).round().mantissa(), 0);
    assert_eq!(Price::new(15, 1).round().mantissa(), 2);
    assert_eq!(Price::new(25, 1).round().mantissa(), 2);
    assert_eq!(Price::new(-25, 1).round().mantissa(), -2);
    assert_eq!(Price::new(-35, 1).round().mantissa(), -4);
    assert_eq!(Price::new(2500001, 6).round().mantissa(), 3);
    assert_eq!(Price::new(-49, 2).round().mantissa(), 0);
    assert_eq!(Price::new(7, 0).round(), Price::new(7, 0));
}
