//! Generator parameters: their defaults, the adjustments made for unusual
//! starting prices, and the rules a configuration must meet.

use crate::price::Price;
use crate::price::lemma_price_repr;
use crate::types::TimeInterval;
use vstd::prelude::*;
use vstd::string::*;

verus! {

broadcast use lemma_price_repr;

/// The direction in which prices drift.
#[derive(Debug, Clone, Copy, PartialEq, Eq, Structural)]
pub enum TrendDirection {
    Bullish,
    Bearish,
    Sideways,
}

/// Why a configuration was refused: what each [`ConfigError`] stands for.
pub enum ConfigFault {
    InvalidPrice(Seq<char>),
    InvalidVolatility(Seq<char>),
    InvalidTrend(Seq<char>),
    InvalidParameter(Seq<char>),
}

/// A refused configuration, with the reason in words.
#[derive(Debug, Clone)]
pub enum ConfigError {
    InvalidPrice(String),
    InvalidVolatility(String),
    InvalidTrend(String),
    InvalidParameter(String),
}

impl View for ConfigError {
    type V = ConfigFault;

    open spec fn view(&self) -> ConfigFault {
        match self {
            ConfigError::InvalidPrice(m) => ConfigFault::InvalidPrice(m@),
            ConfigError::InvalidVolatility(m) => ConfigFault::InvalidVolatility(m@),
            ConfigError::InvalidTrend(m) => ConfigFault::InvalidTrend(m@),
            ConfigError::InvalidParameter(m) => ConfigFault::InvalidParameter(m@),
        }
    }
}

impl ConfigFault {
    /// The fault as one line of text.
    pub open spec fn text(self) -> Seq<char> {
        match self {
            ConfigFault::InvalidPrice(m) => "Invalid price configuration: "@ + m,
            ConfigFault::InvalidVolatility(m) => "Invalid volatility configuration: "@ + m,
            ConfigFault::InvalidTrend(m) => "Invalid trend configuration: "@ + m,
            ConfigFault::InvalidParameter(m) => "Invalid parameter: "@ + m,
        }
    }
}

impl ConfigError {
    /// The error as one line of text.
    pub fn to_string(&self) -> (r: String)
        ensures
            r@ == self@.text(),
    {
        match self {
            ConfigError::InvalidPrice(m) => String::from_str("Invalid price configuration: ").concat(m.as_str()),
            ConfigError::InvalidVolatility(m) => String::from_str("Invalid volatility configuration: ").concat(
                m.as_str(),
            ),
            ConfigError::InvalidTrend(m) => String::from_str("Invalid trend configuration: ").concat(m.as_str()),
            ConfigError::InvalidParameter(m) => String::from_str("Invalid parameter: ").concat(m.as_str()),
        }
    }
}

/// The parameters of a generator.
#[derive(Debug, Clone, Copy, PartialEq)]
pub struct GeneratorConfig {
    /// The price the walk starts from.
    pub starting_price: Price,
    /// The lowest price the walk may reach.
    pub min_price: Price,
    /// The highest price the walk may reach.
    pub max_price: Price,
    pub trend_direction: TrendDirection,
    /// The drift per step, as a fraction of the price.
    pub trend_strength: Price,
    /// The standard deviation of the random part of a step, as a fraction of
    /// the price.
    pub volatility: Price,
    pub time_interval: TimeInterval,
    /// How many points to generate where the caller names no count.
    pub num_points: usize,
    /// The seed of the random stream; without one it is seeded by the
    /// operating system.
    pub seed: Option<u64>,
    /// The mean volume of a candle or tick.
    pub base_volume: u64,
    /// The standard deviation of the volume, as a fraction of `base_volume`.
    pub volume_volatility: Price,
}

pub open spec fn spec_default_starting_price() -> Price {
    Price::from_repr(100, 0)
}

pub open spec fn spec_default_min_price() -> Price {
    Price::from_repr(1, 0)
}

/// The default upper bound, which stands for "no upper bound".
pub open spec fn spec_default_max_price() -> Price {
    Price::from_repr(1_000_000_000_000_000, 0)
}

pub open spec fn spec_default_volatility() -> Price {
    Price::from_repr(2, 2)
}

pub fn default_starting_price() -> (r: Price)
    ensures
        r == spec_default_starting_price(),
{
    Price::new(100, 0)
}

pub fn default_min_price() -> (r: Price)
    ensures
        r == spec_default_min_price(),
{
    Price::new(1, 0)
}

pub fn default_max_price() -> (r: Price)
    ensures
        r == spec_default_max_price(),
{
    Price::new(1_000_000_000_000_000, 0)
}

pub fn default_trend_direction() -> (r: TrendDirection)
    ensures
        r == TrendDirection::Sideways,
{
    TrendDirection::Sideways
}

pub fn default_trend_strength() -> (r: Price)
    ensures
        r == Price::spec_zero(),
{
    Price::zero()
}

pub fn default_volatility() -> (r: Price)
    ensures
        r == spec_default_volatility(),
{
    Price::new(2, 2)
}

pub fn default_time_interval() -> (r: TimeInterval)
    ensures
        r == TimeInterval::OneMinute,
{
    TimeInterval::OneMinute
}

pub fn default_num_points() -> (r: usize)
    ensures
        r == 100,
{
    100
}

pub fn default_base_volume() -> (r: u64)
    ensures
        r == 100000,
{
    100000
}

pub fn default_volume_volatility() -> (r: Price)
    ensures
        r == Price::from_repr(3, 1),
{
    Price::new(3, 1)
}

impl Default for GeneratorConfig {
    fn default() -> (r: GeneratorConfig)
        ensures
            r == GeneratorConfig::spec_default(),
    {
        GeneratorConfig {
            starting_price: default_starting_price(),
            min_price: default_min_price(),
            max_price: default_max_price(),
            trend_direction: default_trend_direction(),
            trend_strength: default_trend_strength(),
            volatility: default_volatility(),
            time_interval: default_time_interval(),
            num_points: default_num_points(),
            seed: None,
            base_volume: default_base_volume(),
            volume_volatility: default_volume_volatility(),
        }
    }
}

impl GeneratorConfig {
    pub open spec fn spec_default() -> GeneratorConfig {
        GeneratorConfig {
            starting_price: spec_default_starting_price(),
            min_price: spec_default_min_price(),
            max_price: spec_default_max_price(),
            trend_direction: TrendDirection::Sideways,
            trend_strength: Price::spec_zero(),
            volatility: spec_default_volatility(),
            time_interval: TimeInterval::OneMinute,
            num_points: 100,
            seed: None,
            base_volume: 100000,
            volume_volatility: Price::from_repr(3, 1),
        }
    }

    /// The default configuration.
    pub fn new() -> (r: GeneratorConfig)
        ensures
            r == GeneratorConfig::spec_default(),
    {
        GeneratorConfig::default()
    }

    /// A builder that starts from the default configuration.
    pub fn builder() -> (r: ConfigBuilder)
        ensures
            r@ == GeneratorConfig::spec_default(),
    {
        ConfigBuilder::new()
    }

    /// The lower bound after the adjustments: one hundredth of a starting
    /// price above 1000 where the bound was left at its default, and half
    /// the starting price where the bound would not lie below it.
    pub open spec fn adjusted_min_price(self) -> Price {
        let first = if self.min_price.units() == spec_default_min_price().units()
            && self.starting_price.units() > Price::from_repr(1000, 0).units() {
            self.starting_price.spec_mul(Price::from_repr(1, 2))
        } else {
            self.min_price
        };
        if first.units() >= self.starting_price.units() {
            self.starting_price.spec_mul(Price::from_repr(5, 1))
        } else {
            first
        }
    }

    /// The upper bound after the adjustments: a hundred times a starting
    /// price that was set where the bound was left at its default, and twice
    /// the starting price where the bound would not lie above it.
    pub open spec fn adjusted_max_price(self) -> Price {
        let first = if self.max_price.units() == spec_default_max_price().units()
            && self.starting_price.units() != spec_default_starting_price().units() {
            self.starting_price.spec_mul(Price::from_repr(100, 0))
        } else {
            self.max_price
        };
        if first.units() <= self.starting_price.units() {
            self.starting_price.spec_mul(Price::from_repr(2, 0))
        } else {
            first
        }
    }

    /// The volatility after the adjustments: a default volatility becomes
    /// 0.05 for a starting price above 10000 and 0.005 for one below 10.
    pub open spec fn adjusted_volatility(self) -> Price {
        if self.volatility.units() == spec_default_volatility().units() {
            if self.starting_price.units() > Price::from_repr(10000, 0).units() {
                Price::from_repr(5, 2)
            } else if self.starting_price.units() < Price::from_repr(10, 0).units() {
                Price::from_repr(5, 3)
            } else {
                self.volatility
            }
        } else {
            self.volatility
        }
    }

    /// The trend strength after the adjustments: a strength of zero becomes
    /// 0.0001 for a bullish trend and -0.0001 for a bearish one.
    pub open spec fn adjusted_trend_strength(self) -> Price {
        if self.trend_strength.units() == 0 {
            match self.trend_direction {
                TrendDirection::Bullish => Price::from_repr(1, 4),
                TrendDirection::Bearish => Price::from_repr(-1, 4),
                TrendDirection::Sideways => self.trend_strength,
            }
        } else {
            self.trend_strength
        }
    }

    /// The configuration after the adjustments.
    pub open spec fn spec_smart_defaults(self) -> GeneratorConfig {
        GeneratorConfig {
            min_price: self.adjusted_min_price(),
            max_price: self.adjusted_max_price(),
            volatility: self.adjusted_volatility(),
            trend_strength: self.adjusted_trend_strength(),
            ..self
        }
    }

    /// Fills in what was left at its default from the starting price, and
    /// moves the bounds so that the starting price lies between them.
    pub fn apply_smart_defaults(&mut self)
        ensures
            *final(self) == old(self).spec_smart_defaults(),
    {
        if self.min_price == default_min_price() && self.starting_price.gt(&Price::new(1000, 0)) {
            self.min_price = self.starting_price.saturating_mul(Price::new(1, 2));
        }
        if self.max_price == default_max_price() && self.starting_price != default_starting_price() {
            self.max_price = self.starting_price.saturating_mul(Price::new(100, 0));
        }
        if self.min_price.ge(&self.starting_price) {
            self.min_price = self.starting_price.saturating_mul(Price::new(5, 1));
        }
        if self.max_price.le(&self.starting_price) {
            self.max_price = self.starting_price.saturating_mul(Price::new(2, 0));
        }
        if self.volatility == default_volatility() {
            if self.starting_price.gt(&Price::new(10000, 0)) {
                self.volatility = Price::new(5, 2);
            } else if self.starting_price.lt(&Price::new(10, 0)) {
                self.volatility = Price::new(5, 3);
            }
        }
        if self.trend_strength.is_zero() {
            match self.trend_direction {
                TrendDirection::Bullish => {
                    self.trend_strength = Price::new(1, 4);
                },
                TrendDirection::Bearish => {
                    self.trend_strength = Price::new(-1, 4);
                },
                TrendDirection::Sideways => {},
            }
        }
    }

    /// The first rule that the configuration breaks, if any.
    pub open spec fn spec_validate(self) -> Result<(), ConfigFault> {
        if self.starting_price.units() <= 0 {
            Err(ConfigFault::InvalidPrice("Starting price must be positive"@))
        } else if self.min_price.units() <= 0 {
            Err(ConfigFault::InvalidPrice("Minimum price must be positive"@))
        } else if self.min_price.units() >= self.max_price.units() {
            Err(ConfigFault::InvalidPrice("Minimum price must be less than maximum price"@))
        } else if self.volatility.units() < 0 {
            Err(ConfigFault::InvalidVolatility("Volatility must be non-negative"@))
        } else if self.trend_strength.units() < Price::spec_one().spec_neg().units()
            || self.trend_strength.units() > Price::spec_one().units() {
            Err(ConfigFault::InvalidTrend("Trend strength must be between -100% and +100%"@))
        } else if self.num_points == 0 {
            Err(ConfigFault::InvalidParameter("Number of points must be positive"@))
        } else if self.base_volume == 0 {
            Err(ConfigFault::InvalidParameter("Base volume must be positive"@))
        } else if self.volume_volatility.units() < 0 {
            Err(ConfigFault::InvalidVolatility("Volume volatility must be non-negative"@))
        } else {
            Ok(())
        }
    }

    /// Whether the configuration meets every rule.
    pub open spec fn is_valid(self) -> bool {
        &&& self.starting_price.units() > 0
        &&& 0 < self.min_price.units() < self.max_price.units()
        &&& self.volatility.units() >= 0
        &&& Price::spec_one().spec_neg().units() <= self.trend_strength.units() <= Price::spec_one().units()
        &&& self.num_points > 0
        &&& self.base_volume > 0
        &&& self.volume_volatility.units() >= 0
    }

    /// Checks the rules in a fixed order and reports the first that is
    /// broken. The outcome depends on the configuration alone.
    pub fn validate(&self) -> (r: Result<(), ConfigError>)
        ensures
            r.is_ok() <==> self.is_valid(),
            match r {
                Ok(_) => self.spec_validate().is_ok(),
                Err(e) => self.spec_validate() == Err::<(), ConfigFault>(e@),
            },
    {
        let one = Price::one();
        if !self.starting_price.is_positive() {
            return Err(ConfigError::InvalidPrice(String::from_str("Starting price must be positive")));
        }
        if !self.min_price.is_positive() {
            return Err(ConfigError::InvalidPrice(String::from_str("Minimum price must be positive")));
        }
        if self.min_price.ge(&self.max_price) {
            return Err(
                ConfigError::InvalidPrice(String::from_str("Minimum price must be less than maximum price")),
            );
        }
        if self.volatility.is_negative() {
            return Err(ConfigError::InvalidVolatility(String::from_str("Volatility must be non-negative")));
        }
        if self.trend_strength.lt(&one.neg()) || self.trend_strength.gt(&one) {
            return Err(
                ConfigError::InvalidTrend(String::from_str("Trend strength must be between -100% and +100%")),
            );
        }
        if self.num_points == 0 {
            return Err(ConfigError::InvalidParameter(String::from_str("Number of points must be positive")));
        }
        if self.base_volume == 0 {
            return Err(ConfigError::InvalidParameter(String::from_str("Base volume must be positive")));
        }
        if self.volume_volatility.is_negative() {
            return Err(
                ConfigError::InvalidVolatility(String::from_str("Volume volatility must be non-negative")),
            );
        }
        Ok(())
    }

    pub open spec fn spec_volatile() -> GeneratorConfig {
        GeneratorConfig {
            volatility: Price::from_repr(5, 2),
            volume_volatility: Price::from_repr(5, 1),
            ..GeneratorConfig::spec_default()
        }
    }

    pub open spec fn spec_stable() -> GeneratorConfig {
        GeneratorConfig {
            volatility: Price::from_repr(5, 3),
            volume_volatility: Price::from_repr(1, 1),
            ..GeneratorConfig::spec_default()
        }
    }

    pub open spec fn spec_bull_market() -> GeneratorConfig {
        GeneratorConfig {
            trend_direction: TrendDirection::Bullish,
            trend_strength: Price::from_repr(2, 3),
            volatility: Price::from_repr(2, 2),
            ..GeneratorConfig::spec_default()
        }
    }

    pub open spec fn spec_bear_market() -> GeneratorConfig {
        GeneratorConfig {
            trend_direction: TrendDirection::Bearish,
            trend_strength: Price::from_repr(2, 3),
            volatility: Price::from_repr(3, 2),
            ..GeneratorConfig::spec_default()
        }
    }

    /// A market with a volatility of 5% and a volume volatility of 50%.
    pub fn volatile() -> (r: GeneratorConfig)
        ensures
            r == GeneratorConfig::spec_volatile(),
    {
        let mut config = GeneratorConfig::default();
        config.volatility = Price::new(5, 2);
        config.volume_volatility = Price::new(5, 1);
        config
    }

    /// A market with a volatility of 0.5% and a volume volatility of 10%.
    pub fn stable() -> (r: GeneratorConfig)
        ensures
            r == GeneratorConfig::spec_stable(),
    {
        let mut config = GeneratorConfig::default();
        config.volatility = Price::new(5, 3);
        config.volume_volatility = Price::new(1, 1);
        config
    }

    /// A rising market: 0.2% drift per step at 2% volatility.
    pub fn bull_market() -> (r: GeneratorConfig)
        ensures
            r == GeneratorConfig::spec_bull_market(),
    {
        let mut config = GeneratorConfig::default();
        config.trend_direction = TrendDirection::Bullish;
        config.trend_strength = Price::new(2, 3);
        config.volatility = Price::new(2, 2);
        config
    }

    /// A falling market: 0.2% drift per step at 3% volatility.
    pub fn bear_market() -> (r: GeneratorConfig)
        ensures
            r == GeneratorConfig::spec_bear_market(),
    {
        let mut config = GeneratorConfig::default();
        config.trend_direction = TrendDirection::Bearish;
        config.trend_strength = Price::new(2, 3);
        config.volatility = Price::new(3, 2);
        config
    }
}

/// The default configuration and the four presets meet every rule.
pub proof fn lemma_presets_valid()
    ensures
        GeneratorConfig::spec_default().is_valid(),
        GeneratorConfig::spec_volatile().is_valid(),
        GeneratorConfig::spec_stable().is_valid(),
        GeneratorConfig::spec_bull_market().is_valid(),
        GeneratorConfig::spec_bear_market().is_valid(),
{
    Price::from_repr(100, 0).lemma_units_sign();
    Price::from_repr(1, 0).lemma_units_sign();
    Price::lemma_units_same_scale(Price::from_repr(1, 0), Price::from_repr(1_000_000_000_000_000, 0));
    Price::from_repr(2, 2).lemma_units_sign();
    Price::from_repr(3, 2).lemma_units_sign();
    Price::from_repr(5, 2).lemma_units_sign();
    Price::from_repr(5, 3).lemma_units_sign();
    Price::from_repr(2, 3).lemma_units_sign();
    Price::from_repr(3, 1).lemma_units_sign();
    Price::from_repr(5, 1).lemma_units_sign();
    Price::from_repr(1, 1).lemma_units_sign();
    Price::from_repr(0, 0).lemma_units_sign();
    Price::spec_one().lemma_units_sign();
    Price::spec_one().spec_neg().lemma_units_sign();
    let one = Price::spec_one().units();
    let strength = Price::from_repr(2, 3).units();
    assert(strength <= one) by {
        Price::lemma_units_rescale(1, 0);
        Price::lemma_units_rescale(10, 1);
        Price::lemma_units_rescale(100, 2);
        Price::lemma_units_same_scale(Price::from_repr(2, 3), Price::from_repr(1000, 3));
    }
}

/// Builds a configuration step by step.
pub struct ConfigBuilder {
    config: GeneratorConfig,
}

impl View for ConfigBuilder {
    type V = GeneratorConfig;

    closed spec fn view(&self) -> GeneratorConfig {
        self.config
    }
}

impl Default for ConfigBuilder {
    fn default() -> (r: ConfigBuilder)
        ensures
            r@ == GeneratorConfig::spec_default(),
    {
        ConfigBuilder::new()
    }
}

impl ConfigBuilder {
    /// A builder that starts from the default configuration.
    pub fn new() -> (r: ConfigBuilder)
        ensures
            r@ == GeneratorConfig::spec_default(),
    {
        ConfigBuilder { config: GeneratorConfig::default() }
    }

    pub fn starting_price(self, price: Price) -> (r: ConfigBuilder)
        ensures
            r@ == (GeneratorConfig { starting_price: price, ..self@ }),
    {
        let mut builder = self;
        builder.config.starting_price = price;
        builder
    }

    pub fn price_range(self, min: Price, max: Price) -> (r: ConfigBuilder)
        ensures
            r@ == (GeneratorConfig { min_price: min, max_price: max, ..self@ }),
    {
        let mut builder = self;
        builder.config.min_price = min;
        builder.config.max_price = max;
        builder
    }

    pub fn trend(self, direction: TrendDirection, strength: Price) -> (r: ConfigBuilder)
        ensures
            r@ == (GeneratorConfig { trend_direction: direction, trend_strength: strength, ..self@ }),
    {
        let mut builder = self;
        builder.config.trend_direction = direction;
        builder.config.trend_strength = strength;
        builder
    }

    pub fn volatility(self, volatility: Price) -> (r: ConfigBuilder)
        ensures
            r@ == (GeneratorConfig { volatility, ..self@ }),
    {
        let mut builder = self;
        builder.config.volatility = volatility;
        builder
    }

    pub fn time_interval(self, interval: TimeInterval) -> (r: ConfigBuilder)
        ensures
            r@ == (GeneratorConfig { time_interval: interval, ..self@ }),
    {
        let mut builder = self;
        builder.config.time_interval = interval;
        builder
    }

    pub fn num_points(self, num: usize) -> (r: ConfigBuilder)
        ensures
            r@ == (GeneratorConfig { num_points: num, ..self@ }),
    {
        let mut builder = self;
        builder.config.num_points = num;
        builder
    }

    pub fn seed(self, seed: u64) -> (r: ConfigBuilder)
        ensures
            r@ == (GeneratorConfig { seed: Some(seed), ..self@ }),
    {
        let mut builder = self;
        builder.config.seed = Some(seed);
        builder
    }

    pub fn base_volume(self, volume: u64) -> (r: ConfigBuilder)
        ensures
            r@ == (GeneratorConfig { base_volume: volume, ..self@ }),
    {
        let mut builder = self;
        builder.config.base_volume = volume;
        builder
    }

    pub fn volume_volatility(self, volatility: Price) -> (r: ConfigBuilder)
        ensures
            r@ == (GeneratorConfig { volume_volatility: volatility, ..self@ }),
    {
        let mut builder = self;
        builder.config.volume_volatility = volatility;
        builder
    }

    /// Applies the adjustments of [`GeneratorConfig::apply_smart_defaults`],
    /// then checks the rules: the adjusted configuration where it meets them,
    /// else the first rule it breaks.
    pub fn build(self) -> (r: Result<GeneratorConfig, ConfigError>)
        ensures
            r.is_ok() <==> self@.spec_smart_defaults().is_valid(),
            match r {
                Ok(config) => config == self@.spec_smart_defaults(),
                Err(e) => self@.spec_smart_defaults().spec_validate() == Err::<(), ConfigFault>(e@),
            },
    {
        let mut config = self.config;
        config.apply_smart_defaults();
        match config.validate() {
            Ok(_) => Ok(config),
            Err(e) => Err(e),
        }
    }
}

} // verus!
