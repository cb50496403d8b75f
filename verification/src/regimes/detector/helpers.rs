//! Returns, averages and trend of a series of candles.

use crate::price::lemma_price_repr;
use crate::price::Price;
use crate::regimes::statistics::{return_between, returns_of, sqrt_approx, sum_of};
use crate::regimes::MarketRegime;
use crate::types::OHLC;
use vstd::prelude::*;

pub use crate::regimes::statistics::{calculate_return, sqrt_approximation};

verus! {

broadcast use lemma_price_repr;

/// The returns between the closes of candles that follow one another.
pub fn calculate_returns(data: &[OHLC]) -> (r: Vec<Price>)
    ensures
        r@ == returns_of(data@),
{
    let mut out: Vec<Price> = Vec::new();
    let n = data.len();
    if n < 2 {
        return out;
    }
    let mut i: usize = 1;
    proof {
        assert(returns_of(data@.take(1)) == Seq::<Price>::empty());
    }
    while i < n
        invariant
            1 <= i <= n,
            n == data@.len(),
            out@ == returns_of(data@.take(i as int)),
        decreases n - i,
    {
        proof {
            assert(data@.take(i + 1).drop_last() == data@.take(i as int));
        }
        out.push(calculate_return(data[i - 1].close, data[i].close));
        i += 1;
    }
    proof {
        assert(data@.take(n as int) == data@);
    }
    out
}

/// The return from the first close to the last; zero for fewer than two
/// candles.
pub fn calculate_cumulative_return(data: &[OHLC]) -> (r: Price)
    ensures
        r == if data@.len() < 2 {
            Price::spec_zero()
        } else {
            return_between(data@.first().close, data@.last().close)
        },
{
    let n = data.len();
    if n < 2 {
        return Price::zero();
    }
    calculate_return(data[0].close, data[n - 1].close)
}

/// The mean of the prices; zero where there is none.
pub open spec fn mean_of(values: Seq<Price>) -> Price {
    if values.len() == 0 {
        Price::spec_zero()
    } else {
        sum_of(values).spec_div(Price::from_repr(values.len() as int, 0))
    }
}

fn sum_slice(values: &[Price]) -> (r: Price)
    ensures
        r == sum_of(values@),
{
    let mut sum = Price::zero();
    let mut i: usize = 0;
    while i < values.len()
        invariant
            i <= values@.len(),
            sum == sum_of(values@.take(i as int)),
        decreases values@.len() - i,
    {
        proof {
            assert(values@.take(i + 1).drop_last() == values@.take(i as int));
        }
        sum = sum.saturating_add(values[i]);
        i += 1;
    }
    proof {
        assert(values@.take(values@.len() as int) == values@);
    }
    sum
}

/// The mean return; zero where there is none.
pub fn calculate_average_return(values: &[Price]) -> (r: Price)
    ensures
        r == mean_of(values@),
{
    if values.len() == 0 {
        return Price::zero();
    }
    sum_slice(values).saturating_div(Price::from_usize(values.len()))
}

/// The sum of the squares of the differences from `mean`, added up in order.
pub open spec fn squared_deviations(values: Seq<Price>, mean: Price) -> Price
    decreases values.len(),
{
    if values.len() == 0 {
        Price::spec_zero()
    } else {
        squared_deviations(values.drop_last(), mean).spec_add(
            values.last().spec_sub(mean).spec_mul(values.last().spec_sub(mean)),
        )
    }
}

/// The sample standard deviation: the square root of the squared deviations
/// from the mean over one less than their number; zero for fewer than two.
pub open spec fn sample_deviation(values: Seq<Price>) -> Price {
    if values.len() < 2 {
        Price::spec_zero()
    } else {
        sqrt_approx(
            squared_deviations(values, mean_of(values)).spec_div(Price::from_repr(values.len() - 1, 0)),
        )
    }
}

/// The sample standard deviation of the returns.
pub fn calculate_volatility(values: &[Price]) -> (r: Price)
    ensures
        r == sample_deviation(values@),
{
    let n = values.len();
    if n < 2 {
        return Price::zero();
    }
    let mean = calculate_average_return(values);
    let mut sum = Price::zero();
    let mut i: usize = 0;
    while i < n
        invariant
            i <= n,
            n == values@.len(),
            sum == squared_deviations(values@.take(i as int), mean),
        decreases n - i,
    {
        proof {
            assert(values@.take(i + 1).drop_last() == values@.take(i as int));
        }
        let diff = values[i].saturating_sub(mean);
        sum = sum.saturating_add(diff.saturating_mul(diff));
        i += 1;
    }
    proof {
        assert(values@.take(n as int) == values@);
    }
    sqrt_approximation(sum.saturating_div(Price::from_usize(n - 1)))
}

/// The closes of the candles.
pub open spec fn closes_of(data: Seq<OHLC>) -> Seq<Price> {
    data.map_values(|c: OHLC| c.close)
}

/// The mean close of the candles from `from` on.
fn sma_from(data: &[OHLC], from: usize) -> (r: Price)
    requires
        from <= data@.len(),
    ensures
        r == mean_of(closes_of(data@.skip(from as int))),
{
    let n = data.len();
    let ghost part = data@.skip(from as int);
    if from == n {
        proof {
            assert(closes_of(part).len() == 0);
        }
        return Price::zero();
    }
    let mut sum = Price::zero();
    let mut i: usize = from;
    proof {
        assert(closes_of(part).take(0) == Seq::<Price>::empty());
    }
    while i < n
        invariant
            from <= i <= n,
            n == data@.len(),
            part == data@.skip(from as int),
            sum == sum_of(closes_of(part).take(i - from)),
        decreases n - i,
    {
        proof {
            assert(closes_of(part).take(i - from + 1).drop_last() == closes_of(part).take(i - from));
            assert(closes_of(part).take(i - from + 1).last() == data@[i as int].close);
        }
        sum = sum.saturating_add(data[i].close);
        i += 1;
    }
    proof {
        assert(closes_of(part).take(n - from) == closes_of(part));
    }
    sum.saturating_div(Price::from_usize(n - from))
}

/// The mean close; zero where there is no candle.
pub fn calculate_sma(data: &[OHLC]) -> (r: Price)
    ensures
        r == mean_of(closes_of(data@)),
{
    proof {
        assert(data@.skip(0) == data@);
    }
    sma_from(data, 0)
}

/// The last `count` candles, or all where there are fewer.
pub open spec fn last_of(data: Seq<OHLC>, count: usize) -> Seq<OHLC> {
    if count >= data.len() {
        data
    } else {
        data.skip(data.len() - count)
    }
}

/// The trend of the candles: with fewer than `long_period` of them,
/// sideways; else the mean close of the last `short_period` against that of
/// the last `long_period`: more than 1% above is a bull market, more than 1%
/// below a bear market, and anything else sideways.
pub open spec fn trend_of(data: Seq<OHLC>, short_period: usize, long_period: usize) -> MarketRegime {
    if data.len() < long_period {
        MarketRegime::Sideways
    } else {
        let short_ma = mean_of(closes_of(last_of(data, short_period)));
        let long_ma = mean_of(closes_of(last_of(data, long_period)));
        let difference = short_ma.spec_sub(long_ma).spec_div(long_ma);
        if difference.units() > Price::from_repr(1, 2).units() {
            MarketRegime::Bull
        } else if difference.units() < Price::from_repr(1, 2).spec_neg().units() {
            MarketRegime::Bear
        } else {
            MarketRegime::Sideways
        }
    }
}

/// The trend of the candles by two moving averages.
pub fn identify_trend(data: &[OHLC], short_period: usize, long_period: usize) -> (r: MarketRegime)
    ensures
        r == trend_of(data@, short_period, long_period),
{
    let n = data.len();
    if n < long_period {
        return MarketRegime::Sideways;
    }
    let short_from = if short_period >= n {
        0
    } else {
        n - short_period
    };
    let long_from = n - long_period;
    proof {
        assert(data@.skip(0) == data@);
    }
    let short_ma = sma_from(data, short_from);
    let long_ma = sma_from(data, long_from);
    let difference = short_ma.saturating_sub(long_ma).saturating_div(long_ma);
    let threshold = Price::new(1, 2);
    if difference.gt(&threshold) {
        MarketRegime::Bull
    } else if difference.lt(&threshold.neg()) {
        MarketRegime::Bear
    } else {
        MarketRegime::Sideways
    }
}

/// The weight of the newest close in an average over `period` candles:
/// `2 / (period + 1)`.
pub open spec fn ema_alpha(period: usize) -> Price {
    Price::spec_two().spec_div(Price::from_repr(period as int, 0).spec_add(Price::spec_one()))
}

/// The average that starts at the first close and moves towards each
/// further close by the share `alpha`.
pub open spec fn ema_of(data: Seq<OHLC>, alpha: Price) -> Price
    decreases data.len(),
{
    if data.len() == 0 {
        Price::spec_zero()
    } else if data.len() == 1 {
        data[0].close
    } else {
        alpha.spec_mul(data.last().close).spec_add(
            Price::spec_one().spec_sub(alpha).spec_mul(ema_of(data.drop_last(), alpha)),
        )
    }
}

/// The exponential moving average of the closes; zero where there is no
/// candle.
pub fn calculate_ema(data: &[OHLC], period: usize) -> (r: Price)
    ensures
        r == ema_of(data@, ema_alpha(period)),
{
    let n = data.len();
    if n == 0 {
        return Price::zero();
    }
    let alpha = Price::two().saturating_div(Price::from_usize(period).saturating_add(Price::one()));
    let mut ema = data[0].close;
    let mut i: usize = 1;
    proof {
        assert(data@.take(1).len() == 1);
    }
    while i < n
        invariant
            1 <= i <= n,
            n == data@.len(),
            alpha == ema_alpha(period),
            ema == ema_of(data@.take(i as int), alpha),
        decreases n - i,
    {
        proof {
            assert(data@.take(i + 1).drop_last() == data@.take(i as int));
        }
        ema = alpha.saturating_mul(data[i].close).saturating_add(
            Price::one().saturating_sub(alpha).saturating_mul(ema),
        );
        i += 1;
    }
    proof {
        assert(data@.take(n as int) == data@);
    }
    ema
}

/// The number of candles whose high is above the high before, and the
/// number whose low is above the low before.
pub open spec fn higher_counts(data: Seq<OHLC>) -> (int, int)
    decreases data.len(),
{
    if data.len() < 2 {
        (0, 0)
    } else {
        let (highs, lows) = higher_counts(data.drop_last());
        let before = data[data.len() - 2];
        let last = data.last();
        (
            highs + if last.high.units() > before.high.units() { 1int } else { 0int },
            lows + if last.low.units() > before.low.units() { 1int } else { 0int },
        )
    }
}

/// The number of candles whose high is below the high before, and the
/// number whose low is below the low before.
pub open spec fn lower_counts(data: Seq<OHLC>) -> (int, int)
    decreases data.len(),
{
    if data.len() < 2 {
        (0, 0)
    } else {
        let (highs, lows) = lower_counts(data.drop_last());
        let before = data[data.len() - 2];
        let last = data.last();
        (
            highs + if last.high.units() < before.high.units() { 1int } else { 0int },
            lows + if last.low.units() < before.low.units() { 1int } else { 0int },
        )
    }
}

/// Counts the higher highs and the higher lows: the signs of a rise.
pub fn count_higher_highs_lows(data: &[OHLC]) -> (r: (usize, usize))
    ensures
        (r.0 as int, r.1 as int) == higher_counts(data@),
{
    let n = data.len();
    if n < 2 {
        return (0, 0);
    }
    let mut higher_highs: usize = 0;
    let mut higher_lows: usize = 0;
    let mut i: usize = 1;
    while i < n
        invariant
            1 <= i <= n,
            n == data@.len(),
            (higher_highs as int, higher_lows as int) == higher_counts(data@.take(i as int)),
            higher_highs < i,
            higher_lows < i,
        decreases n - i,
    {
        proof {
            assert(data@.take(i + 1).drop_last() == data@.take(i as int));
        }
        if data[i].high.gt(&data[i - 1].high) {
            higher_highs += 1;
        }
        if data[i].low.gt(&data[i - 1].low) {
            higher_lows += 1;
        }
        i += 1;
    }
    proof {
        assert(data@.take(n as int) == data@);
    }
    (higher_highs, higher_lows)
}

/// Counts the lower highs and the lower lows: the signs of a fall.
pub fn count_lower_highs_lows(data: &[OHLC]) -> (r: (usize, usize))
    ensures
        (r.0 as int, r.1 as int) == lower_counts(data@),
{
    let n = data.len();
    if n < 2 {
        return (0, 0);
    }
    let mut lower_highs: usize = 0;
    let mut lower_lows: usize = 0;
    let mut i: usize = 1;
    while i < n
        invariant
            1 <= i <= n,
            n == data@.len(),
            (lower_highs as int, lower_lows as int) == lower_counts(data@.take(i as int)),
            lower_highs < i,
            lower_lows < i,
        decreases n - i,
    {
        proof {
            assert(data@.take(i + 1).drop_last() == data@.take(i as int));
        }
        if data[i].high.lt(&data[i - 1].high) {
            lower_highs += 1;
        }
        if data[i].low.lt(&data[i - 1].low) {
            lower_lows += 1;
        }
        i += 1;
    }
    proof {
        assert(data@.take(n as int) == data@);
    }
    (lower_highs, lower_lows)
}

} // verus!
