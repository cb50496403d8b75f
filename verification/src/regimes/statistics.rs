//! Statistics over a sliding window of prices and of the returns between
//! them.

use crate::price::lemma_price_repr;
use crate::price::Price;
use crate::sorting::{sort_prices, sorted_seq};
use crate::types::OHLC;
use std::collections::VecDeque;
use vstd::prelude::*;

verus! {

broadcast use lemma_price_repr;

/// The return from one price to the next, `(new - old) / old`; zero where
/// the old price is zero.
pub open spec fn return_between(old_price: Price, new_price: Price) -> Price {
    if old_price.units() == 0 {
        Price::spec_zero()
    } else {
        new_price.spec_sub(old_price).spec_div(old_price)
    }
}

/// The return from one price to the next.
pub fn calculate_return(price_old: Price, price_new: Price) -> (r: Price)
    ensures
        r == return_between(price_old, price_new),
{
    if price_old.is_zero() {
        Price::zero()
    } else {
        price_new.saturating_sub(price_old).saturating_div(price_old)
    }
}

/// The distance below which two estimates of a square root count as one:
/// `0.000001`.
pub open spec fn sqrt_epsilon() -> Price {
    Price::from_repr(1, 6)
}

/// Newton's estimate of the square root of `value` after at most `rounds`
/// further rounds from the estimate `x`, where `last_x` was the estimate
/// before: a round replaces `x` by `(x + value / x) / 2`, and the rounds end
/// when two estimates in a row are no further apart than the epsilon.
pub open spec fn sqrt_rounds(value: Price, x: Price, last_x: Price, rounds: nat) -> Price
    decreases rounds,
{
    if rounds == 0 || x.spec_sub(last_x).spec_abs().units() <= sqrt_epsilon().units() {
        x
    } else {
        sqrt_rounds(value, x.spec_add(value.spec_div(x)).spec_div(Price::spec_two()), x, (rounds - 1) as nat)
    }
}

/// The square root as estimated by at most 20 rounds of Newton's method
/// from the value itself; zero for a value that is not above zero.
pub open spec fn sqrt_approx(value: Price) -> Price {
    if value.units() <= 0 {
        Price::spec_zero()
    } else {
        sqrt_rounds(value, value, Price::spec_zero(), 20)
    }
}

/// The square root as estimated by at most 20 rounds of Newton's method.
pub fn sqrt_approximation(value: Price) -> (r: Price)
    ensures
        r == sqrt_approx(value),
{
    if !value.is_positive() {
        return Price::zero();
    }
    let mut x = value;
    let mut last_x = Price::zero();
    let epsilon = Price::new(1, 6);
    let mut iterations: u32 = 0;
    while x.saturating_sub(last_x).abs().gt(&epsilon) && iterations < 20
        invariant
            iterations <= 20,
            epsilon == sqrt_epsilon(),
            sqrt_rounds(value, x, last_x, (20 - iterations) as nat) == sqrt_approx(value),
            value.units() > 0,
        decreases 20 - iterations,
    {
        last_x = x;
        x = x.saturating_add(value.saturating_div(x)).saturating_div(Price::two());
        iterations += 1;
    }
    x
}

/// What the statistics hold.
pub struct StatsView {
    pub window: usize,
    /// The last prices, oldest first.
    pub prices: Seq<Price>,
    /// The last returns, oldest first.
    pub returns: Seq<Price>,
    pub price_sum: Price,
    pub return_sum: Price,
    pub return_sum_squared: Price,
}

impl StatsView {
    pub open spec fn empty(window: usize) -> StatsView {
        StatsView {
            window,
            prices: Seq::empty(),
            returns: Seq::empty(),
            price_sum: Price::spec_zero(),
            return_sum: Price::spec_zero(),
            return_sum_squared: Price::spec_zero(),
        }
    }

    /// The returns and their sums after a price came in.
    pub open spec fn returns_after(self, price: Price) -> (Seq<Price>, Price, Price) {
        if self.prices.len() > 0 {
            let ret = return_between(self.prices.last(), price);
            let grown = self.returns.push(ret);
            let sum = self.return_sum.spec_add(ret);
            let squared = self.return_sum_squared.spec_add(ret.spec_mul(ret));
            if grown.len() > self.window {
                (grown.skip(1), sum.spec_sub(grown[0]), squared.spec_sub(grown[0].spec_mul(grown[0])))
            } else {
                (grown, sum, squared)
            }
        } else {
            (self.returns, self.return_sum, self.return_sum_squared)
        }
    }

    /// The statistics after a price came in: the return from the last price
    /// joins the returns and the price joins the prices, and from each the
    /// oldest leaves where more than `window` would be held.
    pub open spec fn update(self, price: Price) -> StatsView {
        let (kept, return_sum, return_sum_squared) = self.returns_after(price);
        let prices = self.prices.push(price);
        let sum = self.price_sum.spec_add(price);
        StatsView {
            window: self.window,
            prices: if prices.len() > self.window {
                prices.skip(1)
            } else {
                prices
            },
            returns: kept,
            price_sum: if prices.len() > self.window {
                sum.spec_sub(prices[0])
            } else {
                sum
            },
            return_sum,
            return_sum_squared,
        }
    }

    pub open spec fn mean_price(self) -> Price {
        if self.prices.len() == 0 {
            Price::spec_zero()
        } else {
            self.price_sum.spec_div(Price::from_repr(self.prices.len() as int, 0))
        }
    }

    pub open spec fn mean_return(self) -> Price {
        if self.returns.len() == 0 {
            Price::spec_zero()
        } else {
            self.return_sum.spec_div(Price::from_repr(self.returns.len() as int, 0))
        }
    }

    /// The standard deviation of the returns: the square root of the mean of
    /// their squares less the square of their mean; zero for fewer than two.
    pub open spec fn std_dev(self) -> Price {
        if self.returns.len() < 2 {
            Price::spec_zero()
        } else {
            let n = Price::from_repr(self.returns.len() as int, 0);
            let mean = self.mean_return();
            sqrt_approx(self.return_sum_squared.spec_div(n).spec_sub(mean.spec_mul(mean)).spec_abs())
        }
    }

    pub open spec fn volatility(self, periods_per_year: usize) -> Price {
        self.std_dev().spec_mul(sqrt_approx(Price::from_repr(periods_per_year as int, 0)))
    }

    pub open spec fn sharpe_ratio(self, periods_per_year: usize) -> Price {
        let vol = self.volatility(periods_per_year);
        if vol.units() == 0 {
            Price::spec_zero()
        } else {
            self.mean_return().spec_mul(Price::from_repr(periods_per_year as int, 0)).spec_div(vol)
        }
    }

    /// The change over the window, `(last - first) / first`; zero for fewer
    /// than two prices or a first price of zero.
    pub open spec fn momentum(self) -> Price {
        if self.prices.len() < 2 {
            Price::spec_zero()
        } else {
            return_between(self.prices.first(), self.prices.last())
        }
    }

    pub open spec fn max_drawdown(self) -> Price {
        if self.prices.len() < 2 {
            Price::spec_zero()
        } else {
            drawdown_scan(self.prices).1
        }
    }

    pub open spec fn variance(self) -> Price {
        self.std_dev().spec_mul(self.std_dev())
    }

    pub open spec fn skewness(self) -> Price {
        if self.returns.len() < 3 || self.std_dev().units() == 0 {
            Price::spec_zero()
        } else {
            let std_dev = self.std_dev();
            let n = Price::from_repr(self.returns.len() as int, 0);
            power_sum(self.returns, self.mean_return(), 3).spec_div(n).spec_div(
                std_dev.spec_mul(std_dev).spec_mul(std_dev),
            )
        }
    }

    pub open spec fn kurtosis(self) -> Price {
        if self.returns.len() < 4 || self.variance().units() == 0 {
            Price::spec_zero()
        } else {
            let variance = self.variance();
            let n = Price::from_repr(self.returns.len() as int, 0);
            power_sum(self.returns, self.mean_return(), 4).spec_div(n).spec_div(
                variance.spec_mul(variance),
            ).spec_sub(Price::from_repr(3, 0))
        }
    }

    /// Enough returns are held: at least half the window.
    pub open spec fn is_ready(self) -> bool {
        self.returns.len() >= self.window / 2
    }

    /// The statistics after the prices came in, in order.
    pub open spec fn after(self, prices: Seq<Price>) -> StatsView
        decreases prices.len(),
    {
        if prices.len() == 0 {
            self
        } else {
            self.after(prices.drop_last()).update(prices.last())
        }
    }

    /// Neither the prices nor the returns held are more than the window.
    pub open spec fn within_window(self) -> bool {
        self.prices.len() <= self.window && self.returns.len() <= self.window
    }

    /// The statistics hold the last prices that came in, as many as the
    /// window takes.
    pub proof fn lemma_holds_last_prices(window: usize, prices: Seq<Price>)
        ensures
            StatsView::empty(window).after(prices).window == window,
            StatsView::empty(window).after(prices).prices == (if prices.len() > window {
                prices.skip(prices.len() - window)
            } else {
                prices
            }),
        decreases prices.len(),
    {
        if prices.len() > 0 {
            let before = prices.drop_last();
            StatsView::lemma_holds_last_prices(window, before);
            let held = StatsView::empty(window).after(before).prices;
            let pushed = held.push(prices.last());
            if before.len() > window {
                assert(pushed.skip(1) =~= prices.skip(prices.len() - window));
            } else if before.len() == window {
                assert(held == before);
                assert(pushed.skip(1) =~= prices.skip(prices.len() - window));
            } else {
                assert(pushed =~= prices);
            }
        }
    }

    /// An update keeps the prices and the returns within the window.
    pub proof fn lemma_update_within_window(self, price: Price)
        requires
            self.within_window(),
        ensures
            self.update(price).within_window(),
            self.update(price).window == self.window,
    {
    }
}

/// The highest price so far and the largest fall from the highest price so
/// far, `(highest - price) / highest`, over the prices in order.
pub open spec fn drawdown_scan(prices: Seq<Price>) -> (Price, Price)
    decreases prices.len(),
{
    if prices.len() == 0 {
        (Price::spec_zero(), Price::spec_zero())
    } else {
        let (highest, deepest) = drawdown_scan(prices.drop_last());
        let price = prices.last();
        let top = if price.units() > highest.units() {
            price
        } else {
            highest
        };
        if top.units() > 0 {
            let fall = top.spec_sub(price).spec_div(top);
            (
                top,
                if fall.units() > deepest.units() {
                    fall
                } else {
                    deepest
                },
            )
        } else {
            (top, deepest)
        }
    }
}

/// The third or the fourth power of a difference.
pub open spec fn power_of(diff: Price, power: nat) -> Price {
    if power == 3 {
        diff.spec_mul(diff).spec_mul(diff)
    } else {
        diff.spec_mul(diff).spec_mul(diff).spec_mul(diff)
    }
}

/// The sum of the powers of the differences between the returns and their
/// mean, added up in order.
pub open spec fn power_sum(values: Seq<Price>, mean: Price, power: nat) -> Price
    decreases values.len(),
{
    if values.len() == 0 {
        Price::spec_zero()
    } else {
        power_sum(values.drop_last(), mean, power).spec_add(power_of(values.last().spec_sub(mean), power))
    }
}

/// Statistics over the last prices and the returns between them.
pub struct RollingStatistics {
    window_size: usize,
    price_buffer: VecDeque<Price>,
    return_buffer: VecDeque<Price>,
    price_sum: Price,
    return_sum: Price,
    return_sum_squared: Price,
}

impl View for RollingStatistics {
    type V = StatsView;

    closed spec fn view(&self) -> StatsView {
        StatsView {
            window: self.window_size,
            prices: self.price_buffer@,
            returns: self.return_buffer@,
            price_sum: self.price_sum,
            return_sum: self.return_sum,
            return_sum_squared: self.return_sum_squared,
        }
    }
}

impl RollingStatistics {
    /// Statistics over a window of `window_size`, with nothing held yet.
    pub fn new(window_size: usize) -> (r: RollingStatistics)
        ensures
            r@ == StatsView::empty(window_size),
    {
        RollingStatistics {
            window_size,
            price_buffer: VecDeque::with_capacity(window_size),
            return_buffer: VecDeque::with_capacity(window_size),
            price_sum: Price::zero(),
            return_sum: Price::zero(),
            return_sum_squared: Price::zero(),
        }
    }

    /// Takes in a price.
    pub fn update(&mut self, price: Price)
        ensures
            final(self)@ == old(self)@.update(price),
    {
        let n = self.price_buffer.len();
        if n > 0 {
            let last_price = self.price_buffer[n - 1];
            let return_val = calculate_return(last_price, price);
            self.return_buffer.push_back(return_val);
            self.return_sum = self.return_sum.saturating_add(return_val);
            self.return_sum_squared = self.return_sum_squared.saturating_add(return_val.saturating_mul(return_val));
            if self.return_buffer.len() > self.window_size {
                match self.return_buffer.pop_front() {
                    Some(old_return) => {
                        self.return_sum = self.return_sum.saturating_sub(old_return);
                        self.return_sum_squared = self.return_sum_squared.saturating_sub(
                            old_return.saturating_mul(old_return),
                        );
                    },
                    None => {},
                }
            }
        }
        self.price_buffer.push_back(price);
        self.price_sum = self.price_sum.saturating_add(price);
        if self.price_buffer.len() > self.window_size {
            match self.price_buffer.pop_front() {
                Some(old_price) => {
                    self.price_sum = self.price_sum.saturating_sub(old_price);
                },
                None => {},
            }
        }
        proof {
            let pushed = old(self)@.prices.push(price);
            assert(pushed.subrange(1, pushed.len() as int) == pushed.skip(1));
            if old(self)@.prices.len() > 0 {
                let grown = old(self)@.returns.push(return_between(old(self)@.prices.last(), price));
                assert(grown.subrange(1, grown.len() as int) == grown.skip(1));
            }
        }
    }

    /// Takes in the close of a candle.
    pub fn update_with_candle(&mut self, candle: &OHLC)
        ensures
            final(self)@ == old(self)@.update(candle.close),
    {
        self.update(candle.close);
    }

    /// The mean of the prices held; zero where none is held.
    pub fn mean_price(&self) -> (r: Price)
        ensures
            r == self@.mean_price(),
    {
        if self.price_buffer.len() == 0 {
            Price::zero()
        } else {
            self.price_sum.saturating_div(Price::from_usize(self.price_buffer.len()))
        }
    }

    /// The mean of the returns held; zero where none is held.
    pub fn mean_return(&self) -> (r: Price)
        ensures
            r == self@.mean_return(),
    {
        if self.return_buffer.len() == 0 {
            Price::zero()
        } else {
            self.return_sum.saturating_div(Price::from_usize(self.return_buffer.len()))
        }
    }

    /// The standard deviation of the returns held.
    pub fn std_dev(&self) -> (r: Price)
        ensures
            r == self@.std_dev(),
    {
        if self.return_buffer.len() < 2 {
            return Price::zero();
        }
        let n = Price::from_usize(self.return_buffer.len());
        let mean = self.mean_return();
        let variance = self.return_sum_squared.saturating_div(n).saturating_sub(mean.saturating_mul(mean));
        sqrt_approximation(variance.abs())
    }

    /// The standard deviation scaled to a year of `periods_per_year` periods.
    pub fn volatility(&self, periods_per_year: usize) -> (r: Price)
        ensures
            r == self@.volatility(periods_per_year),
    {
        let per_period = self.std_dev();
        per_period.saturating_mul(sqrt_approximation(Price::from_usize(periods_per_year)))
    }

    /// The yearly mean return over the yearly volatility; zero where the
    /// volatility is zero.
    pub fn sharpe_ratio(&self, periods_per_year: usize) -> (r: Price)
        ensures
            r == self@.sharpe_ratio(periods_per_year),
    {
        let vol = self.volatility(periods_per_year);
        if vol.is_zero() {
            Price::zero()
        } else {
            let annualized_return = self.mean_return().saturating_mul(Price::from_usize(periods_per_year));
            annualized_return.saturating_div(vol)
        }
    }

    /// The largest fall from a highest price so far, as a share of it.
    pub fn max_drawdown(&self) -> (r: Price)
        ensures
            r == self@.max_drawdown(),
    {
        let n = self.price_buffer.len();
        if n < 2 {
            return Price::zero();
        }
        let mut max_price = Price::zero();
        let mut max_dd = Price::zero();
        let mut i: usize = 0;
        while i < n
            invariant
                i <= n,
                n == self.price_buffer@.len(),
                (max_price, max_dd) == drawdown_scan(self.price_buffer@.take(i as int)),
            decreases n - i,
        {
            proof {
                assert(self.price_buffer@.take(i + 1).drop_last() == self.price_buffer@.take(i as int));
            }
            let price = self.price_buffer[i];
            if price.gt(&max_price) {
                max_price = price;
            }
            if max_price.is_positive() {
                let dd = max_price.saturating_sub(price).saturating_div(max_price);
                if dd.gt(&max_dd) {
                    max_dd = dd;
                }
            }
            i += 1;
        }
        proof {
            assert(self.price_buffer@.take(n as int) == self.price_buffer@);
        }
        max_dd
    }

    /// The change from the first price held to the last.
    pub fn momentum(&self) -> (r: Price)
        ensures
            r == self@.momentum(),
    {
        let n = self.price_buffer.len();
        if n < 2 {
            return Price::zero();
        }
        calculate_return(self.price_buffer[0], self.price_buffer[n - 1])
    }

    /// The sum of the third or fourth powers of the differences between the
    /// returns and `mean`.
    fn sum_of_powers(&self, mean: Price, fourth: bool) -> (r: Price)
        ensures
            r == power_sum(self@.returns, mean, if fourth { 4nat } else { 3nat }),
    {
        let n = self.return_buffer.len();
        let ghost power = if fourth { 4nat } else { 3nat };
        let mut sum = Price::zero();
        let mut i: usize = 0;
        while i < n
            invariant
                i <= n,
                n == self.return_buffer@.len(),
                power == (if fourth { 4nat } else { 3nat }),
                sum == power_sum(self.return_buffer@.take(i as int), mean, power),
            decreases n - i,
        {
            proof {
                assert(self.return_buffer@.take(i + 1).drop_last() == self.return_buffer@.take(i as int));
            }
            let diff = self.return_buffer[i].saturating_sub(mean);
            let cube = diff.saturating_mul(diff).saturating_mul(diff);
            let term = if fourth {
                cube.saturating_mul(diff)
            } else {
                cube
            };
            sum = sum.saturating_add(term);
            i += 1;
        }
        proof {
            assert(self.return_buffer@.take(n as int) == self.return_buffer@);
        }
        sum
    }

    /// The skewness of the returns held; zero for fewer than three or a
    /// standard deviation of zero.
    pub fn skewness(&self) -> (r: Price)
        ensures
            r == self@.skewness(),
    {
        if self.return_buffer.len() < 3 {
            return Price::zero();
        }
        let mean = self.mean_return();
        let std_dev = self.std_dev();
        if std_dev.is_zero() {
            return Price::zero();
        }
        let n = Price::from_usize(self.return_buffer.len());
        let sum_cubed = self.sum_of_powers(mean, false);
        let std_cubed = std_dev.saturating_mul(std_dev).saturating_mul(std_dev);
        sum_cubed.saturating_div(n).saturating_div(std_cubed)
    }

    /// The excess kurtosis of the returns held; zero for fewer than four or
    /// a variance of zero.
    pub fn kurtosis(&self) -> (r: Price)
        ensures
            r == self@.kurtosis(),
    {
        if self.return_buffer.len() < 4 {
            return Price::zero();
        }
        let mean = self.mean_return();
        let variance = self.variance();
        if variance.is_zero() {
            return Price::zero();
        }
        let n = Price::from_usize(self.return_buffer.len());
        let sum_fourth = self.sum_of_powers(mean, true);
        let variance_squared = variance.saturating_mul(variance);
        sum_fourth.saturating_div(n).saturating_div(variance_squared).saturating_sub(Price::new(3, 0))
    }

    /// The square of the standard deviation.
    pub fn variance(&self) -> (r: Price)
        ensures
            r == self@.variance(),
    {
        let std_dev = self.std_dev();
        std_dev.saturating_mul(std_dev)
    }

    /// Whether enough returns are held: at least half the window.
    pub fn is_ready(&self) -> (r: bool)
        ensures
            r == self@.is_ready(),
    {
        self.return_buffer.len() >= self.window_size / 2
    }

    /// Drops everything held.
    pub fn reset(&mut self)
        ensures
            final(self)@ == StatsView::empty(old(self)@.window),
    {
        self.price_buffer.clear();
        self.return_buffer.clear();
        self.price_sum = Price::zero();
        self.return_sum = Price::zero();
        self.return_sum_squared = Price::zero();
    }

    pub fn window_size(&self) -> (r: usize)
        ensures
            r == self@.window,
    {
        self.window_size
    }

    /// The number of prices held.
    pub fn data_points(&self) -> (r: usize)
        ensures
            r == self@.prices.len(),
    {
        self.price_buffer.len()
    }

    /// The square root as estimated by at most 20 rounds of Newton's method.
    pub fn sqrt_approximation(value: Price) -> (r: Price)
        ensures
            r == sqrt_approx(value),
    {
        sqrt_approximation(value)
    }
}

/// The returns between the closes of candles that follow one another.
pub open spec fn returns_of(data: Seq<OHLC>) -> Seq<Price>
    decreases data.len(),
{
    if data.len() < 2 {
        Seq::empty()
    } else {
        returns_of(data.drop_last()).push(return_between(data[data.len() - 2].close, data.last().close))
    }
}

/// The position in a sorted sequence of `len` items that stands for the
/// share `p`: `p * (len - 1)` rounded, or zero where that is no count, and
/// no further than the last position.
pub open spec fn percentile_index(p: Price, len: nat) -> int {
    let rounded = p.spec_mul(Price::from_repr(len - 1, 0)).spec_round();
    let index = if rounded.spec_scale() == 0 && 0 <= rounded.spec_mantissa() <= usize::MAX {
        rounded.spec_mantissa()
    } else {
        0
    };
    if index < len - 1 {
        index
    } else {
        len - 1
    }
}

/// The returns that are no higher than `threshold`, in order.
pub open spec fn tail_of(values: Seq<Price>, threshold: Price) -> Seq<Price> {
    values.filter(|r: Price| r.units() <= threshold.units())
}

/// The sum of the prices, added up in order.
pub open spec fn sum_of(prices: Seq<Price>) -> Price
    decreases prices.len(),
{
    if prices.len() == 0 {
        Price::spec_zero()
    } else {
        sum_of(prices.drop_last()).spec_add(prices.last())
    }
}

/// The sum of the prices, added up in order.
pub fn sum_prices(prices: &Vec<Price>) -> (r: Price)
    ensures
        r == sum_of(prices@),
{
    let mut sum = Price::zero();
    let mut i: usize = 0;
    while i < prices.len()
        invariant
            i <= prices@.len(),
            sum == sum_of(prices@.take(i as int)),
        decreases prices@.len() - i,
    {
        proof {
            assert(prices@.take(i + 1).drop_last() == prices@.take(i as int));
        }
        sum = sum.saturating_add(prices[i]);
        i += 1;
    }
    proof {
        assert(prices@.take(prices@.len() as int) == prices@);
    }
    sum
}

/// A collection of returns and its percentiles.
pub struct ReturnDistribution {
    returns: Vec<Price>,
}

impl View for ReturnDistribution {
    type V = Seq<Price>;

    closed spec fn view(&self) -> Seq<Price> {
        self.returns@
    }
}

impl ReturnDistribution {
    /// An empty collection.
    pub fn new() -> (r: ReturnDistribution)
        ensures
            r@ == Seq::<Price>::empty(),
    {
        ReturnDistribution { returns: Vec::new() }
    }

    /// Adds the returns between the closes of the candles.
    pub fn add_from_ohlc(&mut self, data: &[OHLC])
        ensures
            final(self)@ == old(self)@ + returns_of(data@),
    {
        let n = data.len();
        if n < 2 {
            proof {
                assert(old(self)@ + returns_of(data@) == old(self)@);
            }
            return ;
        }
        let mut i: usize = 1;
        proof {
            assert(returns_of(data@.take(1)) == Seq::<Price>::empty());
            assert(old(self)@ + returns_of(data@.take(1)) == old(self)@);
        }
        while i < n
            invariant
                1 <= i <= n,
                n == data@.len(),
                self.returns@ == old(self)@ + returns_of(data@.take(i as int)),
            decreases n - i,
        {
            proof {
                assert(data@.take(i + 1).drop_last() == data@.take(i as int));
                let grown = returns_of(data@.take(i as int)).push(
                    return_between(data@[i - 1].close, data@[i as int].close),
                );
                assert(returns_of(data@.take(i + 1)) == grown);
                assert((old(self)@ + returns_of(data@.take(i as int))).push(
                    return_between(data@[i - 1].close, data@[i as int].close),
                ) == old(self)@ + grown);
            }
            let return_val = calculate_return(data[i - 1].close, data[i].close);
            self.returns.push(return_val);
            i += 1;
        }
        proof {
            assert(data@.take(n as int) == data@);
        }
    }

    /// The return at the share `p` of the returns in ascending order; zero
    /// where none is held.
    pub fn percentile(&self, p: Price) -> (r: Price)
        ensures
            self@.len() == 0 ==> r == Price::spec_zero(),
            self@.len() > 0 ==> r == sorted_seq(self@)[percentile_index(p, self@.len())],
    {
        if self.returns.len() == 0 {
            return Price::zero();
        }
        let sorted = sort_prices(&self.returns);
        let last = sorted.len() - 1;
        let rounded = p.saturating_mul(Price::from_usize(last)).round();
        let index = match rounded.whole_as_usize() {
            Some(i) => i,
            None => 0,
        };
        let at = if index < last {
            index
        } else {
            last
        };
        sorted[at]
    }

    /// The value at risk at the given confidence: the percentile at one
    /// minus the confidence.
    pub fn var(&self, confidence: Price) -> (r: Price)
        ensures
            self@.len() == 0 ==> r == Price::spec_zero(),
            self@.len() > 0 ==> r == sorted_seq(self@)[percentile_index(
                Price::spec_one().spec_sub(confidence),
                self@.len(),
            )],
    {
        self.percentile(Price::one().saturating_sub(confidence))
    }

    /// The mean of the returns that are no higher than `threshold`, or
    /// `threshold` where there is none.
    pub fn tail_mean(&self, threshold: Price) -> (r: Price)
        ensures
            r == if tail_of(self@, threshold).len() == 0 {
                threshold
            } else {
                sum_of(tail_of(self@, threshold)).spec_div(
                    Price::from_repr(tail_of(self@, threshold).len() as int, 0),
                )
            },
    {
        let mut tail: Vec<Price> = Vec::new();
        let mut i: usize = 0;
        let ghost keep = |r: Price| r.units() <= threshold.units();
        proof {
            assert(self.returns@.take(0).filter(keep) == Seq::<Price>::empty());
        }
        while i < self.returns.len()
            invariant
                i <= self.returns@.len(),
                keep == (|r: Price| r.units() <= threshold.units()),
                tail@ == self.returns@.take(i as int).filter(keep),
            decreases self.returns@.len() - i,
        {
            proof {
                assert(self.returns@.take(i + 1).drop_last() == self.returns@.take(i as int));
                reveal(Seq::filter);
            }
            let item = self.returns[i];
            if item.le(&threshold) {
                tail.push(item);
            }
            i += 1;
        }
        proof {
            assert(self.returns@.take(self.returns@.len() as int) == self.returns@);
        }
        if tail.len() == 0 {
            threshold
        } else {
            sum_prices(&tail).saturating_div(Price::from_usize(tail.len()))
        }
    }

    /// The conditional value at risk at the given confidence: the mean of the
    /// returns that are no higher than the value at risk.
    pub fn cvar(&self, confidence: Price) -> (r: Price)
        ensures
            self@.len() == 0 ==> r == Price::spec_zero(),
    {
        let var_threshold = self.var(confidence);
        let r = self.tail_mean(var_threshold);
        proof {
            if self@.len() == 0 {
                assert(tail_of(self@, var_threshold).len() == 0) by {
                    reveal(Seq::filter);
                }
            }
        }
        r
    }

    /// Drops every return.
    pub fn clear(&mut self)
        ensures
            final(self)@ == Seq::<Price>::empty(),
    {
        self.returns.clear();
    }

    /// The number of returns held.
    pub fn len(&self) -> (r: usize)
        ensures
            r == self@.len(),
    {
        self.returns.len()
    }

    pub fn is_empty(&self) -> (r: bool)
        ensures
            r == (self@.len() == 0),
    {
        self.returns.len() == 0
    }
}

} // verus!
