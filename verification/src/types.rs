//! Candles, ticks, volumes and candle periods.

use crate::price::Price;
use crate::text::{integer_chars, integer_string, same_text};
use vstd::prelude::*;
use vstd::string::*;

verus! {

/// A traded quantity.
#[derive(Debug, Clone, Copy, PartialEq, Eq, PartialOrd, Ord, Structural)]
pub struct Volume {
    pub value: u64,
}

impl Volume {
    pub fn new(value: u64) -> (r: Volume)
        ensures
            r.value == value,
    {
        Volume { value }
    }

    pub fn value(&self) -> (r: u64)
        ensures
            r == self.value,
    {
        self.value
    }

    /// The volume in decimal digits.
    pub fn to_string(&self) -> (r: String)
        ensures
            r@ == integer_chars(self.value as int),
    {
        integer_string(self.value as i128)
    }
}

/// The period that one candle covers.
#[derive(Debug, Clone, Copy, PartialEq, Eq, Structural)]
pub enum TimeInterval {
    OneMinute,
    FiveMinutes,
    FifteenMinutes,
    ThirtyMinutes,
    OneHour,
    FourHours,
    OneDay,
    /// A period of the given number of seconds.
    Custom(u32),
}

impl TimeInterval {
    pub open spec fn spec_seconds(self) -> int {
        match self {
            TimeInterval::OneMinute => 60,
            TimeInterval::FiveMinutes => 300,
            TimeInterval::FifteenMinutes => 900,
            TimeInterval::ThirtyMinutes => 1800,
            TimeInterval::OneHour => 3600,
            TimeInterval::FourHours => 14400,
            TimeInterval::OneDay => 86400,
            TimeInterval::Custom(s) => s as int,
        }
    }

    pub open spec fn spec_millis(self) -> int {
        self.spec_seconds() * 1000
    }

    /// The period that a label names; none for any other text.
    pub open spec fn labelled(label: Seq<char>) -> Option<TimeInterval> {
        if label == "1m"@ {
            Some(TimeInterval::OneMinute)
        } else if label == "5m"@ {
            Some(TimeInterval::FiveMinutes)
        } else if label == "15m"@ {
            Some(TimeInterval::FifteenMinutes)
        } else if label == "30m"@ {
            Some(TimeInterval::ThirtyMinutes)
        } else if label == "1h"@ {
            Some(TimeInterval::OneHour)
        } else if label == "4h"@ {
            Some(TimeInterval::FourHours)
        } else if label == "1d"@ {
            Some(TimeInterval::OneDay)
        } else {
            None
        }
    }

    /// The period that a label names: `1m`, `5m`, `15m`, `30m`, `1h`, `4h`
    /// or `1d`.
    pub fn from_label(label: &str) -> (r: Option<TimeInterval>)
        ensures
            r == TimeInterval::labelled(label@),
    {
        if same_text(label, "1m") {
            Some(TimeInterval::OneMinute)
        } else if same_text(label, "5m") {
            Some(TimeInterval::FiveMinutes)
        } else if same_text(label, "15m") {
            Some(TimeInterval::FifteenMinutes)
        } else if same_text(label, "30m") {
            Some(TimeInterval::ThirtyMinutes)
        } else if same_text(label, "1h") {
            Some(TimeInterval::OneHour)
        } else if same_text(label, "4h") {
            Some(TimeInterval::FourHours)
        } else if same_text(label, "1d") {
            Some(TimeInterval::OneDay)
        } else {
            None
        }
    }

    /// The label of the period; for a custom period, its seconds in decimal
    /// digits followed by `s`.
    pub fn label(&self) -> (r: String)
        ensures
            match self {
                TimeInterval::OneMinute => r@ == "1m"@,
                TimeInterval::FiveMinutes => r@ == "5m"@,
                TimeInterval::FifteenMinutes => r@ == "15m"@,
                TimeInterval::ThirtyMinutes => r@ == "30m"@,
                TimeInterval::OneHour => r@ == "1h"@,
                TimeInterval::FourHours => r@ == "4h"@,
                TimeInterval::OneDay => r@ == "1d"@,
                TimeInterval::Custom(s) => r@ == integer_chars(*s as int) + "s"@,
            },
    {
        match self {
            TimeInterval::OneMinute => String::from_str("1m"),
            TimeInterval::FiveMinutes => String::from_str("5m"),
            TimeInterval::FifteenMinutes => String::from_str("15m"),
            TimeInterval::ThirtyMinutes => String::from_str("30m"),
            TimeInterval::OneHour => String::from_str("1h"),
            TimeInterval::FourHours => String::from_str("4h"),
            TimeInterval::OneDay => String::from_str("1d"),
            TimeInterval::Custom(s) => integer_string(*s as i128).concat("s"),
        }
    }

    /// The length of the period in seconds.
    pub fn seconds(&self) -> (r: u32)
        ensures
            r == self.spec_seconds(),
    {
        match self {
            TimeInterval::OneMinute => 60,
            TimeInterval::FiveMinutes => 300,
            TimeInterval::FifteenMinutes => 900,
            TimeInterval::ThirtyMinutes => 1800,
            TimeInterval::OneHour => 3600,
            TimeInterval::FourHours => 14400,
            TimeInterval::OneDay => 86400,
            TimeInterval::Custom(s) => *s,
        }
    }

    /// The length of the period in milliseconds.
    pub fn millis(&self) -> (r: u64)
        ensures
            r == self.spec_millis(),
            r <= 4_294_967_295_000,
    {
        let s: u64 = self.seconds() as u64;
        s * 1000
    }
}

/// One candle: the first, highest, lowest and last price of a period, the
/// volume traded in it and the millisecond at which it starts.
#[derive(Debug, Clone, Copy, PartialEq)]
pub struct OHLC {
    pub open: Price,
    pub high: Price,
    pub low: Price,
    pub close: Price,
    pub volume: Volume,
    pub timestamp: i64,
}

impl OHLC {
    /// The candle is consistent: the high is no lower and the low no higher
    /// than the open and the close, and every price is above zero.
    pub open spec fn spec_is_valid(self) -> bool {
        &&& self.high.units() >= self.open.units()
        &&& self.high.units() >= self.close.units()
        &&& self.low.units() <= self.open.units()
        &&& self.low.units() <= self.close.units()
        &&& self.high.units() >= self.low.units()
        &&& self.open.units() > 0
        &&& self.high.units() > 0
        &&& self.low.units() > 0
        &&& self.close.units() > 0
    }

    pub fn new(open: Price, high: Price, low: Price, close: Price, volume: u64, timestamp: i64) -> (r: OHLC)
        ensures
            r == (OHLC { open, high, low, close, volume: Volume { value: volume }, timestamp }),
    {
        OHLC { open, high, low, close, volume: Volume::new(volume), timestamp }
    }

    pub fn is_valid(&self) -> (r: bool)
        ensures
            r == self.spec_is_valid(),
    {
        let top = self.open.max(self.close);
        let bottom = self.open.min(self.close);
        self.high.ge(&top) && self.low.le(&bottom) && self.high.ge(&self.low) && self.open.is_positive()
            && self.high.is_positive() && self.low.is_positive() && self.close.is_positive()
    }

    /// High minus low.
    pub fn range(&self) -> (r: Price)
        ensures
            r == self.high.spec_sub(self.low),
    {
        self.high.saturating_sub(self.low)
    }

    /// The distance between open and close.
    pub fn body(&self) -> (r: Price)
        ensures
            r == self.close.spec_sub(self.open).spec_abs(),
            r.units() >= 0,
    {
        self.close.saturating_sub(self.open).abs()
    }

    /// Whether the candle closed above its open.
    pub fn is_bullish(&self) -> (r: bool)
        ensures
            r == (self.close.units() > self.open.units()),
    {
        self.close.gt(&self.open)
    }
}

/// One price observation, with the quotes around it where they are known.
#[derive(Debug, Clone, Copy, PartialEq)]
pub struct Tick {
    pub price: Price,
    pub volume: Volume,
    pub timestamp: i64,
    pub bid: Option<Price>,
    pub ask: Option<Price>,
}

impl Tick {
    /// A tick without quotes.
    pub fn new(price: Price, volume: u64, timestamp: i64) -> (r: Tick)
        ensures
            r == (Tick { price, volume: Volume { value: volume }, timestamp, bid: None, ask: None }),
    {
        Tick { price, volume: Volume::new(volume), timestamp, bid: None, ask: None }
    }

    /// A tick with both quotes.
    pub fn with_spread(price: Price, volume: u64, timestamp: i64, bid: Price, ask: Price) -> (r: Tick)
        ensures
            r == (Tick { price, volume: Volume { value: volume }, timestamp, bid: Some(bid), ask: Some(ask) }),
    {
        Tick { price, volume: Volume::new(volume), timestamp, bid: Some(bid), ask: Some(ask) }
    }

    pub open spec fn spec_spread(self) -> Option<Price> {
        match (self.bid, self.ask) {
            (Some(bid), Some(ask)) => Some(ask.spec_sub(bid)),
            _ => None,
        }
    }

    /// Ask minus bid, where both are known.
    pub fn spread(&self) -> (r: Option<Price>)
        ensures
            r == self.spec_spread(),
    {
        match (self.bid, self.ask) {
            (Some(bid), Some(ask)) => Some(ask.saturating_sub(bid)),
            _ => None,
        }
    }
}

} // verus!
