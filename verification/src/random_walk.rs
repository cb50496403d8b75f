//! The bounded random walk that moves the price.

use crate::config::{GeneratorConfig, TrendDirection};
use crate::price::Price;
use crate::sampling::{draw_count, draw_normal, draw_shocks, draw_value};
use rand::rngs::StdRng;
use vstd::prelude::*;
use vstd::string::*;

verus! {

/// The part of a step that does not depend on chance: the trend strength,
/// with the sign of the trend direction.
pub open spec fn drift_of(config: GeneratorConfig) -> Price {
    match config.trend_direction {
        TrendDirection::Bullish => config.trend_strength,
        TrendDirection::Bearish => config.trend_strength.spec_neg(),
        TrendDirection::Sideways => Price::spec_zero(),
    }
}

/// The random part of a step: the draw, or zero where there was none.
pub open spec fn shock_of(draw: Option<Price>) -> Price {
    match draw {
        Some(s) => s,
        None => Price::spec_zero(),
    }
}

/// The price after one step: `price + price * (drift + shock)`, held between
/// the bounds.
pub open spec fn walk_step(price: Price, config: GeneratorConfig, draw: Option<Price>) -> Price {
    price.spec_add(price.spec_mul(drift_of(config).spec_add(shock_of(draw)))).spec_clamp(
        config.min_price,
        config.max_price,
    )
}

/// The price after one step for each draw.
pub open spec fn walk_end(price: Price, config: GeneratorConfig, draws: Seq<Option<Price>>) -> Price
    decreases draws.len(),
{
    if draws.len() == 0 {
        price
    } else {
        walk_step(walk_end(price, config, draws.drop_last()), config, draws.last())
    }
}

/// The highest price among the start and the prices after each step.
pub open spec fn walk_high(price: Price, config: GeneratorConfig, draws: Seq<Option<Price>>) -> Price
    decreases draws.len(),
{
    if draws.len() == 0 {
        price
    } else {
        walk_high(price, config, draws.drop_last()).spec_max(walk_end(price, config, draws))
    }
}

/// The lowest price among the start and the prices after each step.
pub open spec fn walk_low(price: Price, config: GeneratorConfig, draws: Seq<Option<Price>>) -> Price
    decreases draws.len(),
{
    if draws.len() == 0 {
        price
    } else {
        walk_low(price, config, draws.drop_last()).spec_min(walk_end(price, config, draws))
    }
}

/// The volume for a draw: the draw, or zero where there was none.
pub open spec fn volume_of(draw: Option<u64>) -> u64 {
    match draw {
        Some(v) => v,
        None => 0,
    }
}

/// A step ends between the bounds, where the lower is not above the upper.
pub proof fn lemma_walk_step_bounded(price: Price, config: GeneratorConfig, draw: Option<Price>)
    ensures
        walk_step(price, config, draw).units() <= config.max_price.units(),
        config.min_price.units() <= config.max_price.units() ==> config.min_price.units() <= walk_step(
            price,
            config,
            draw,
        ).units(),
{
}

/// A random walk over one price.
#[derive(Debug, Clone, Copy)]
pub struct RandomWalkGenerator {
    current_price: Price,
    config: GeneratorConfig,
}

impl RandomWalkGenerator {
    pub closed spec fn spec_current_price(self) -> Price {
        self.current_price
    }

    pub closed spec fn spec_config(self) -> GeneratorConfig {
        self.config
    }

    /// Whether a walk can be made for the configuration: neither standard
    /// deviation is negative.
    pub open spec fn accepts(config: GeneratorConfig) -> bool {
        config.volatility.units() >= 0 && config.volume_volatility.units() >= 0
    }

    /// A walk at the configuration's starting price. Refused where a
    /// standard deviation is negative.
    pub fn new(config: GeneratorConfig) -> (r: Result<RandomWalkGenerator, String>)
        ensures
            r.is_ok() <==> RandomWalkGenerator::accepts(config),
            r matches Ok(walk) ==> walk.spec_config() == config && walk.spec_current_price()
                == config.starting_price,
            r matches Err(e) ==> e@ == (if config.volatility.units() < 0 {
                "Failed to create price distribution: standard deviation must be non-negative"@
            } else {
                "Failed to create volume distribution: standard deviation must be non-negative"@
            }),
    {
        if config.volatility.is_negative() {
            return Err(
                String::from_str("Failed to create price distribution: standard deviation must be non-negative"),
            );
        }
        if config.volume_volatility.is_negative() {
            return Err(
                String::from_str("Failed to create volume distribution: standard deviation must be non-negative"),
            );
        }
        Ok(RandomWalkGenerator { current_price: config.starting_price, config })
    }

    /// A walk that goes on from `price` under another configuration.
    pub fn resume(config: GeneratorConfig, price: Price) -> (r: RandomWalkGenerator)
        ensures
            r.spec_config() == config,
            r.spec_current_price() == price,
    {
        RandomWalkGenerator { current_price: price, config }
    }

    pub fn current_price(&self) -> (r: Price)
        ensures
            r == self.spec_current_price(),
    {
        self.current_price
    }

    pub fn config(&self) -> (r: &GeneratorConfig)
        ensures
            *r == self.spec_config(),
    {
        &self.config
    }

    /// Moves the price by one step with the given draw and returns it.
    pub fn advance(&mut self, draw: Option<Price>) -> (r: Price)
        ensures
            r == walk_step(old(self).spec_current_price(), old(self).spec_config(), draw),
            final(self).spec_current_price() == r,
            final(self).spec_config() == old(self).spec_config(),
            r.units() <= old(self).spec_config().max_price.units(),
            old(self).spec_config().min_price.units() <= old(self).spec_config().max_price.units()
                ==> old(self).spec_config().min_price.units() <= r.units(),
    {
        let drift = match self.config.trend_direction {
            TrendDirection::Bullish => self.config.trend_strength,
            TrendDirection::Bearish => self.config.trend_strength.neg(),
            TrendDirection::Sideways => Price::zero(),
        };
        let shock = match draw {
            Some(s) => s,
            None => Price::zero(),
        };
        let change = self.current_price.saturating_mul(drift.saturating_add(shock));
        let moved = self.current_price.saturating_add(change);
        self.current_price = moved.clamp(self.config.min_price, self.config.max_price);
        self.current_price
    }

    /// Moves the price by one step with a fresh draw and returns it: the
    /// step of [`walk_step`] for some draw, so a price between the bounds.
    pub fn next_price(&mut self, rng: &mut StdRng) -> (r: Price)
        ensures
            exists|draw: Option<Price>|
                r == walk_step(old(self).spec_current_price(), old(self).spec_config(), draw),
            final(self).spec_current_price() == r,
            final(self).spec_config() == old(self).spec_config(),
            r.units() <= old(self).spec_config().max_price.units(),
            old(self).spec_config().min_price.units() <= old(self).spec_config().max_price.units()
                ==> old(self).spec_config().min_price.units() <= r.units(),
    {
        let (mean, sigma) = self.shock_parameters();
        let draw = draw_value(draw_normal(rng, mean, sigma));
        self.advance(draw)
    }

    /// Moves the price by one step for each draw and returns the price
    /// before the first step, the highest and the lowest price seen, and the
    /// price after the last step.
    pub fn candle_from_draws(&mut self, draws: &Vec<Option<Price>>) -> (r: (Price, Price, Price, Price))
        ensures
            r.0 == old(self).spec_current_price(),
            r.1 == walk_high(old(self).spec_current_price(), old(self).spec_config(), draws@),
            r.2 == walk_low(old(self).spec_current_price(), old(self).spec_config(), draws@),
            r.3 == walk_end(old(self).spec_current_price(), old(self).spec_config(), draws@),
            final(self).spec_current_price() == r.3,
            final(self).spec_config() == old(self).spec_config(),
            candle_ordered(r),
            candle_bounded(r, old(self).spec_config(), draws@.len()),
    {
        let open = self.current_price;
        let mut high = open;
        let mut low = open;
        let ghost start = *self;
        let mut i: usize = 0;
        while i < draws.len()
            invariant
                i <= draws@.len(),
                self.config == start.config,
                self.current_price == walk_end(open, start.config, draws@.take(i as int)),
                high == walk_high(open, start.config, draws@.take(i as int)),
                low == walk_low(open, start.config, draws@.take(i as int)),
                open == start.current_price,
                candle_ordered((open, high, low, self.current_price)),
                candle_bounded((open, high, low, self.current_price), start.config, i as nat),
            decreases draws@.len() - i,
        {
            proof {
                assert(draws@.take(i + 1).drop_last() == draws@.take(i as int));
                assert(draws@.take(i + 1).last() == draws@[i as int]);
            }
            let price = self.advance(draws[i]);
            high = high.max(price);
            low = low.min(price);
            i += 1;
        }
        proof {
            assert(draws@.take(i as int) == draws@);
        }
        (open, high, low, self.current_price)
    }

    /// A candle of `num_ticks` steps with fresh draws: the candle of
    /// [`RandomWalkGenerator::candle_from_draws`] for some draws. With no
    /// steps all four prices are the current price.
    pub fn generate_ohlc(&mut self, rng: &mut StdRng, num_ticks: usize) -> (r: (Price, Price, Price, Price))
        ensures
            exists|draws: Seq<Option<Price>>|
                draws.len() == num_ticks && r == candle_of(
                    old(self).spec_current_price(),
                    old(self).spec_config(),
                    draws,
                ),
            r.0 == old(self).spec_current_price(),
            final(self).spec_current_price() == r.3,
            final(self).spec_config() == old(self).spec_config(),
            candle_ordered(r),
            candle_bounded(r, old(self).spec_config(), num_ticks as nat),
            num_ticks == 0 ==> r.1 == r.0 && r.2 == r.0 && r.3 == r.0,
    {
        let (_, sigma) = self.shock_parameters();
        let draws = draw_shocks(rng, sigma, num_ticks);
        let r = self.candle_from_draws(&draws);
        proof {
            assert(r == candle_of(old(self).spec_current_price(), old(self).spec_config(), draws@));
        }
        r
    }

    /// The volume for a draw: the draw, or zero where there was none.
    pub fn volume_from_draw(draw: Option<u64>) -> (r: u64)
        ensures
            r == volume_of(draw),
    {
        match draw {
            Some(v) => v,
            None => 0,
        }
    }

    /// The standard deviation of the volume: the base volume times the
    /// volume volatility.
    pub open spec fn volume_sigma(config: GeneratorConfig) -> Price {
        Price::from_repr(config.base_volume as int, 0).spec_mul(config.volume_volatility)
    }

    /// The mean and the standard deviation of the random part of a step:
    /// zero and the volatility.
    pub fn shock_parameters(&self) -> (r: (Price, Price))
        ensures
            r.0 == Price::spec_zero(),
            r.1 == self.spec_config().volatility,
    {
        (Price::zero(), self.config.volatility)
    }

    /// The mean and the standard deviation of the volume: the base volume,
    /// and the base volume times the volume volatility.
    pub fn volume_parameters(&self) -> (r: (Price, Price))
        ensures
            r.0 == Price::from_repr(self.spec_config().base_volume as int, 0),
            r.1 == RandomWalkGenerator::volume_sigma(self.spec_config()),
    {
        let mean = Price::from_u64(self.config.base_volume);
        (mean, mean.saturating_mul(self.config.volume_volatility))
    }

    /// A volume drawn with the parameters of
    /// [`RandomWalkGenerator::volume_parameters`]: the volume of
    /// [`volume_of`] for some draw. The walk is left as it is.
    pub fn generate_volume(&mut self, rng: &mut StdRng) -> (r: u64)
        ensures
            final(self).spec_current_price() == old(self).spec_current_price(),
            final(self).spec_config() == old(self).spec_config(),
    {
        let (mean, sigma) = self.volume_parameters();
        let draw = draw_count(draw_normal(rng, mean, sigma));
        RandomWalkGenerator::volume_from_draw(draw)
    }

    /// Puts the price back to the starting price.
    pub fn reset(&mut self)
        ensures
            final(self).spec_current_price() == old(self).spec_config().starting_price,
            final(self).spec_config() == old(self).spec_config(),
    {
        self.current_price = self.config.starting_price;
    }
}

/// The candle of a walk from `price` with one step for each draw: the start,
/// the highest and lowest price seen, and the end.
pub open spec fn candle_of(price: Price, config: GeneratorConfig, draws: Seq<Option<Price>>) -> (
    Price,
    Price,
    Price,
    Price,
) {
    (price, walk_high(price, config, draws), walk_low(price, config, draws), walk_end(price, config, draws))
}

/// The high is no lower and the low no higher than the open and the close.
pub open spec fn candle_ordered(c: (Price, Price, Price, Price)) -> bool {
    &&& c.1.units() >= c.0.units()
    &&& c.1.units() >= c.3.units()
    &&& c.2.units() <= c.0.units()
    &&& c.2.units() <= c.3.units()
    &&& c.1.units() >= c.2.units()
}

/// Where the lower bound is not above the upper: the close of a candle of
/// at least one step lies between the bounds, and the high and the low lie
/// between them or at the open.
pub open spec fn candle_bounded(c: (Price, Price, Price, Price), config: GeneratorConfig, steps: nat) -> bool {
    config.min_price.units() <= config.max_price.units() ==> {
        &&& steps > 0 ==> config.min_price.units() <= c.3.units() <= config.max_price.units()
        &&& c.1.units() <= config.max_price.units() || c.1.units() == c.0.units()
        &&& c.2.units() >= config.min_price.units() || c.2.units() == c.0.units()
    }
}

/// Every candle of a walk is consistent: whatever the draws, the high is no
/// lower and the low no higher than the open and the close. Where the lower
/// bound is not above the upper, the close of a candle of at least one step
/// lies between the bounds, and the high and the low lie between them or at
/// the open.
pub proof fn lemma_candle_consistent(price: Price, config: GeneratorConfig, draws: Seq<Option<Price>>)
    ensures
        candle_ordered(candle_of(price, config, draws)),
        candle_bounded(candle_of(price, config, draws), config, draws.len()),
    decreases draws.len(),
{
    if draws.len() > 0 {
        lemma_candle_consistent(price, config, draws.drop_last());
        lemma_walk_step_bounded(walk_end(price, config, draws.drop_last()), config, draws.last());
    }
}

/// Every price of a walk that starts between the bounds lies between them:
/// the highest, the lowest and the last, whatever the draws.
pub proof fn lemma_walk_within_bounds(price: Price, config: GeneratorConfig, draws: Seq<Option<Price>>)
    requires
        config.min_price.units() <= price.units() <= config.max_price.units(),
    ensures
        config.min_price.units() <= walk_low(price, config, draws).units(),
        walk_high(price, config, draws).units() <= config.max_price.units(),
        config.min_price.units() <= walk_end(price, config, draws).units() <= config.max_price.units(),
{
    lemma_candle_consistent(price, config, draws);
}

/// A walk that starts above zero, between bounds of which the lower is above
/// zero, stays above zero: every price of every candle is above zero.
pub proof fn lemma_candle_positive(price: Price, config: GeneratorConfig, draws: Seq<Option<Price>>)
    requires
        price.units() > 0,
        0 < config.min_price.units() <= config.max_price.units(),
    ensures
        candle_of(price, config, draws).0.units() > 0,
        candle_of(price, config, draws).1.units() > 0,
        candle_of(price, config, draws).2.units() > 0,
        candle_of(price, config, draws).3.units() > 0,
    decreases draws.len(),
{
    lemma_candle_consistent(price, config, draws);
    if draws.len() > 0 {
        lemma_candle_positive(price, config, draws.drop_last());
        lemma_walk_step_bounded(walk_end(price, config, draws.drop_last()), config, draws.last());
    }
}

} // verus!
