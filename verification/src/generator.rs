//! The generator: a random walk with a clock, and with regime control and
//! regime detection where they are switched on.

use crate::clock::{millis_to_timestamp, timestamp_of, unix_millis_now};
use crate::config::{ConfigFault, GeneratorConfig};
use crate::price::lemma_price_repr;
use crate::price::Price;
use crate::random_walk::{candle_of, walk_step, RandomWalkGenerator};
use crate::regimes::controller::{ControllerView, ScheduleView};
use crate::regimes::volatility::{DetectorView, VolatilityRegimeDetector};
use crate::regimes::{
    price_of_count, total_duration, MarketRegime, RegimeConfig, RegimeController, RegimeSchedule, RegimeSegment,
    RegimeState, RegimeTracker, ScheduleInfo, TrackerView,
};
use crate::sampling::{draw_shocks, entropy_rng, seeded_rng};
use crate::types::{Tick, Volume, OHLC};
use rand::rngs::StdRng;
use std::collections::VecDeque;
use vstd::prelude::*;
use vstd::string::*;

verus! {

broadcast use lemma_price_repr;

/// The number of candles kept for regime detection.
pub const HISTORY_CAPACITY: usize = 200;

/// The number of steps of the walk in one candle.
pub const TICKS_PER_CANDLE: usize = 10;

/// The number of regime states that the tracker keeps.
pub const TRACKER_CAPACITY: usize = 1000;

/// The milliseconds between two ticks.
pub const TICK_MILLIS: u64 = 1000;

/// The starting price is above zero, and the lower bound is above zero and
/// below the upper.
pub open spec fn bounds_ok(config: GeneratorConfig) -> bool {
    &&& config.starting_price.units() > 0
    &&& 0 < config.min_price.units() < config.max_price.units()
}

/// A timestamp moved on by a number of milliseconds; the largest timestamp
/// where that would lie beyond it.
pub open spec fn add_millis(timestamp: i64, millis: int) -> i64 {
    if timestamp + millis > i64::MAX {
        i64::MAX
    } else {
        (timestamp + millis) as i64
    }
}

/// A timestamp moved on by a number of milliseconds.
pub fn advance_timestamp(timestamp: i64, millis: u64) -> (r: i64)
    ensures
        r == add_millis(timestamp, millis as int),
        r >= timestamp,
{
    let sum: i128 = timestamp as i128 + millis as i128;
    if sum > i64::MAX as i128 {
        i64::MAX
    } else {
        sum as i64
    }
}

/// The candles with one more, less the oldest where more than the capacity
/// would be held.
pub open spec fn push_capped(buffer: Seq<OHLC>, candle: OHLC) -> Seq<OHLC> {
    if buffer.len() >= HISTORY_CAPACITY {
        buffer.skip(1).push(candle)
    } else {
        buffer.push(candle)
    }
}

/// The half of the spread around a price: a twentieth of a percent of it.
pub open spec fn half_spread(price: Price) -> Price {
    price.spec_mul(Price::from_repr(1, 3)).spec_div(Price::from_repr(2, 0))
}

/// What a generator holds, but for its random stream.
pub struct GeneratorView {
    /// The configuration in force.
    pub config: GeneratorConfig,
    /// The price of the walk.
    pub price: Price,
    /// The timestamp of the next candle or tick.
    pub timestamp: i64,
    pub detector: Option<DetectorView>,
    pub tracker: Option<TrackerView>,
    /// The last candles, oldest first.
    pub buffer: Seq<OHLC>,
    pub controller: Option<ControllerView>,
}

impl GeneratorView {
    /// A generator at the start of its walk.
    pub open spec fn fresh(config: GeneratorConfig, timestamp: i64) -> GeneratorView {
        GeneratorView {
            config,
            price: config.starting_price,
            timestamp,
            detector: None,
            tracker: None,
            buffer: Seq::empty(),
            controller: None,
        }
    }

    /// The interval between candles: that of the controller's base
    /// configuration where regimes are controlled, else that of the
    /// configuration.
    pub open spec fn candle_millis(self) -> int {
        match self.controller {
            Some(c) => c.base_config.time_interval.spec_millis(),
            None => self.config.time_interval.spec_millis(),
        }
    }

    /// The generator after the controller, if any, took its step: the
    /// controller's configuration is in force.
    pub open spec fn controlled(self) -> GeneratorView {
        match self.controller {
            Some(c) => GeneratorView {
                config: c.advance().current_config,
                controller: Some(c.advance()),
                ..self
            },
            None => self,
        }
    }

    /// The detector and the tracker after a candle: the detector takes the
    /// candle in, and the tracker records the state that the detector then
    /// reports, if any.
    pub open spec fn detection_after(self, candle: OHLC) -> (Option<DetectorView>, Option<TrackerView>) {
        match self.detector {
            Some(d) => {
                let updated = d.update(candle, RegimeConfig::spec_default());
                let reported = if updated.stats.is_ready() {
                    updated.current_state
                } else {
                    None
                };
                (
                    Some(updated),
                    match (reported, self.tracker) {
                        (Some(state), Some(t)) => Some(t.record_capped(state)),
                        _ => self.tracker,
                    },
                )
            },
            None => (None, self.tracker),
        }
    }

    /// The candle that a walk of the given draws gives at this point.
    pub open spec fn candle(self, draws: Seq<Option<Price>>, volume: u64) -> OHLC {
        let prices = candle_of(self.price, self.config, draws);
        OHLC {
            open: prices.0,
            high: prices.1,
            low: prices.2,
            close: prices.3,
            volume: Volume { value: volume },
            timestamp: self.timestamp,
        }
    }

    /// The candles kept after a candle: where detection is on, the candle
    /// joins them, and the oldest leaves where more than the capacity would
    /// be held; without detection nothing is kept.
    pub open spec fn buffer_after(self, candle: OHLC) -> Seq<OHLC> {
        if self.detector.is_some() {
            push_capped(self.buffer, candle)
        } else {
            self.buffer
        }
    }

    /// The generator after detection, if it is on, was shown a candle: the
    /// candle is kept, the detector has taken it in, and the tracker has
    /// recorded what the detector reports.
    pub open spec fn observed(self, candle: OHLC) -> GeneratorView {
        GeneratorView {
            buffer: self.buffer_after(candle),
            detector: self.detection_after(candle).0,
            tracker: self.detection_after(candle).1,
            ..self
        }
    }

    /// The generator after it gave the candle of the given draws: the walk
    /// stands at the close, the clock has moved on by the interval, and
    /// detection, if it is on, has kept and seen the candle.
    pub open spec fn after_candle(self, draws: Seq<Option<Price>>, volume: u64) -> GeneratorView {
        let candle = self.candle(draws, volume);
        (GeneratorView {
            price: candle.close,
            timestamp: add_millis(self.timestamp, self.config.time_interval.spec_millis()),
            ..self
        }).observed(candle)
    }

    /// The tick that one step of the walk with the given draw gives at this
    /// point.
    pub open spec fn tick(self, draw: Option<Price>, volume: u64) -> Tick {
        let price = walk_step(self.price, self.config, draw);
        Tick {
            price,
            volume: Volume { value: volume },
            timestamp: self.timestamp,
            bid: Some(price.spec_sub(half_spread(price))),
            ask: Some(price.spec_add(half_spread(price))),
        }
    }

    /// The generator after it gave the tick of the given draw: the walk
    /// stands at the tick's price and the clock has moved on by a second.
    pub open spec fn after_tick(self, draw: Option<Price>) -> GeneratorView {
        GeneratorView {
            price: walk_step(self.price, self.config, draw),
            timestamp: add_millis(self.timestamp, TICK_MILLIS as int),
            ..self
        }
    }
}

/// The candles are what a generator gives in a row from `start`, each for
/// some draws, and `end` is the generator after the last of them.
pub open spec fn candles_from(start: GeneratorView, candles: Seq<OHLC>, end: GeneratorView) -> bool
    decreases candles.len(),
{
    if candles.len() == 0 {
        end == start
    } else {
        exists|before: GeneratorView, draws: Seq<Option<Price>>, volume: u64|
            #![trigger before.controlled().after_candle(draws, volume)]
            candles_from(start, candles.drop_last(), before) && draws.len() == TICKS_PER_CANDLE
                && candles.last() == before.controlled().candle(draws, volume) && end
                == before.controlled().after_candle(draws, volume)
    }
}

/// The ticks are what a generator gives in a row from `start`, each for
/// some draw, and `end` is the generator after the last of them.
pub open spec fn ticks_from(start: GeneratorView, ticks: Seq<Tick>, end: GeneratorView) -> bool
    decreases ticks.len(),
{
    if ticks.len() == 0 {
        end == start
    } else {
        exists|before: GeneratorView, draw: Option<Price>, volume: u64|
            #![trigger before.tick(draw, volume)]
            ticks_from(start, ticks.drop_last(), before) && ticks.last() == before.tick(draw, volume) && end
                == before.after_tick(draw)
    }
}

/// The regime recorded last, if any.
pub open spec fn latest_regime(view: GeneratorView) -> Option<RegimeState> {
    match view.tracker {
        Some(t) => if t.history.len() > 0 {
            Some(t.history.last())
        } else {
            None
        },
        None => None,
    }
}

/// The report on the schedule, where regimes are controlled.
pub open spec fn schedule_report(view: GeneratorView) -> Option<ScheduleInfo> {
    match view.controller {
        Some(c) => Some(RegimeController::spec_schedule_info(c)),
        None => None,
    }
}

/// The items are the candles that a generator gives in a row from `start`,
/// each with the regime recorded last after it was made, and `end` is the
/// generator after the last of them.
pub open spec fn regime_series_from(start: GeneratorView, items: Seq<RegimeOHLC>, end: GeneratorView) -> bool
    decreases items.len(),
{
    if items.len() == 0 {
        end == start
    } else {
        exists|before: GeneratorView, draws: Seq<Option<Price>>, volume: u64|
            #![trigger before.controlled().after_candle(draws, volume)]
            regime_series_from(start, items.drop_last(), before) && draws.len() == TICKS_PER_CANDLE
                && items.last().ohlc == before.controlled().candle(draws, volume) && end
                == before.controlled().after_candle(draws, volume) && items.last().regime_state == latest_regime(
                end,
            )
    }
}

/// The items are the candles that a generator gives in a row from `start`,
/// each with the report on the schedule from before it was made, and `end`
/// is the generator after the last of them.
pub open spec fn controlled_series_from(
    start: GeneratorView,
    items: Seq<ControlledRegimeOHLC>,
    end: GeneratorView,
) -> bool
    decreases items.len(),
{
    if items.len() == 0 {
        end == start
    } else {
        exists|before: GeneratorView, draws: Seq<Option<Price>>, volume: u64|
            #![trigger before.controlled().after_candle(draws, volume)]
            controlled_series_from(start, items.drop_last(), before) && draws.len() == TICKS_PER_CANDLE
                && items.last().ohlc == before.controlled().candle(draws, volume) && end
                == before.controlled().after_candle(draws, volume) && items.last().schedule_info
                == schedule_report(before)
    }
}

/// Where it does not pass the largest timestamp, a timestamp moves on by
/// exactly the milliseconds given; and it never moves back.
pub proof fn lemma_add_millis(timestamp: i64, millis: int)
    requires
        millis >= 0,
    ensures
        timestamp + millis <= i64::MAX ==> add_millis(timestamp, millis) == timestamp + millis,
        add_millis(timestamp, millis) >= timestamp,
{
}

/// Every candle of a generator whose configuration has sound bounds and
/// whose price is above zero is consistent, whatever the draws: the high is
/// no lower and the low no higher than the open and the close, and every
/// price is above zero.
pub proof fn lemma_candle_valid(view: GeneratorView, draws: Seq<Option<Price>>, volume: u64)
    requires
        bounds_ok(view.config),
        view.price.units() > 0,
    ensures
        view.candle(draws, volume).spec_is_valid(),
        view.candle(draws, volume).timestamp == view.timestamp,
        draws.len() > 0 ==> view.config.min_price.units() <= view.candle(draws, volume).close.units()
            <= view.config.max_price.units(),
{
    crate::random_walk::lemma_candle_consistent(view.price, view.config, draws);
    crate::random_walk::lemma_candle_positive(view.price, view.config, draws);
}

/// What a generator gives is settled by what it holds and by the draws:
/// two generators that hold the same give, for the same draws, the same
/// candle and the same tick, and hold the same afterwards.
pub proof fn lemma_settled_by_draws(
    a: GeneratorView,
    b: GeneratorView,
    draws: Seq<Option<Price>>,
    draw: Option<Price>,
    volume: u64,
)
    requires
        a == b,
    ensures
        a.controlled().candle(draws, volume) == b.controlled().candle(draws, volume),
        a.controlled().after_candle(draws, volume) == b.controlled().after_candle(draws, volume),
        a.tick(draw, volume) == b.tick(draw, volume),
        a.after_tick(draw) == b.after_tick(draw),
{
}

/// A generator without regime control that was put back to its starting
/// price gives, for the same draws, the candle that a fresh generator with
/// its configuration gives at that time.
pub proof fn lemma_candle_after_reset(view: GeneratorView, draws: Seq<Option<Price>>, volume: u64)
    requires
        view.controller.is_none(),
        view.price == view.config.starting_price,
    ensures
        view.controlled().candle(draws, volume) == GeneratorView::fresh(
            view.config,
            view.timestamp,
        ).controlled().candle(draws, volume),
{
}

/// The last candles of a row, as many as the capacity takes.
pub open spec fn kept_last(all: Seq<OHLC>) -> Seq<OHLC> {
    if all.len() > HISTORY_CAPACITY {
        all.skip(all.len() - HISTORY_CAPACITY)
    } else {
        all
    }
}

/// Keeping one more candle keeps the last candles of the longer row.
pub proof fn lemma_push_capped(all: Seq<OHLC>, candle: OHLC)
    ensures
        push_capped(kept_last(all), candle) == kept_last(all.push(candle)),
        kept_last(all).len() <= HISTORY_CAPACITY,
        kept_last(all).len() == (if all.len() > HISTORY_CAPACITY {
            HISTORY_CAPACITY as nat
        } else {
            all.len()
        }),
{
    assert(push_capped(kept_last(all), candle) =~= kept_last(all.push(candle)));
}

/// With detection on, a generator keeps exactly the last candles that it
/// gave, oldest first, and never more than the capacity: after a row of
/// candles it holds the last of what it held before followed by the row.
pub proof fn lemma_buffer_holds_last_candles(start: GeneratorView, candles: Seq<OHLC>, end: GeneratorView)
    requires
        candles_from(start, candles, end),
        start.detector.is_some(),
        start.buffer.len() <= HISTORY_CAPACITY,
    ensures
        end.detector.is_some(),
        end.buffer == kept_last(start.buffer + candles),
        end.buffer.len() <= HISTORY_CAPACITY,
        start.buffer.len() == 0 ==> end.buffer.len() == (if candles.len() > HISTORY_CAPACITY {
            HISTORY_CAPACITY as nat
        } else {
            candles.len()
        }),
    decreases candles.len(),
{
    if candles.len() == 0 {
        assert(start.buffer + candles == start.buffer);
    } else {
        let (before, draws, volume) = choose|before: GeneratorView, draws: Seq<Option<Price>>, volume: u64|
            #![trigger before.controlled().after_candle(draws, volume)]
            candles_from(start, candles.drop_last(), before) && draws.len() == TICKS_PER_CANDLE && candles.last()
                == before.controlled().candle(draws, volume) && end == before.controlled().after_candle(
                draws,
                volume,
            );
        lemma_buffer_holds_last_candles(start, candles.drop_last(), before);
        let all = start.buffer + candles.drop_last();
        lemma_push_capped(all, candles.last());
        assert(all.push(candles.last()) == start.buffer + candles);
        lemma_push_capped(start.buffer + candles, candles.last());
    }
}

/// The candles that a generator gives for rows of draws and for volumes,
/// one candle for each row, and the generator after the last of them.
pub open spec fn series_for(start: GeneratorView, draws: Seq<Seq<Option<Price>>>, volumes: Seq<u64>) -> (
    Seq<OHLC>,
    GeneratorView,
)
    decreases draws.len(),
{
    if draws.len() == 0 {
        (Seq::empty(), start)
    } else {
        let (candles, before) = series_for(start, draws.drop_last(), volumes.drop_last());
        (
            candles.push(before.controlled().candle(draws.last(), volumes.last())),
            before.controlled().after_candle(draws.last(), volumes.last()),
        )
    }
}

/// A row of candles is settled by what the generator holds at its start and
/// by the draws: whatever row a generator gives is the row of
/// [`series_for`] for some draws and volumes, so two generators that hold
/// the same and get the same draws give the same candles in every field and
/// hold the same afterwards.
pub proof fn lemma_series_settled_by_draws(start: GeneratorView, candles: Seq<OHLC>, end: GeneratorView)
    requires
        candles_from(start, candles, end),
    ensures
        exists|draws: Seq<Seq<Option<Price>>>, volumes: Seq<u64>|
            #![trigger series_for(start, draws, volumes)]
            draws.len() == candles.len() && volumes.len() == candles.len() && series_for(start, draws, volumes)
                == (candles, end),
    decreases candles.len(),
{
    if candles.len() == 0 {
        let draws = Seq::<Seq<Option<Price>>>::empty();
        let volumes = Seq::<u64>::empty();
        assert(series_for(start, draws, volumes) == (candles, end));
    } else {
        let (before, row, volume) = choose|before: GeneratorView, row: Seq<Option<Price>>, volume: u64|
            #![trigger before.controlled().after_candle(row, volume)]
            candles_from(start, candles.drop_last(), before) && row.len() == TICKS_PER_CANDLE && candles.last()
                == before.controlled().candle(row, volume) && end == before.controlled().after_candle(row, volume);
        lemma_series_settled_by_draws(start, candles.drop_last(), before);
        let (draws, volumes) = choose|draws: Seq<Seq<Option<Price>>>, volumes: Seq<u64>|
            #![trigger series_for(start, draws, volumes)]
            draws.len() == candles.drop_last().len() && volumes.len() == candles.drop_last().len() && series_for(
                start,
                draws,
                volumes,
            ) == (candles.drop_last(), before);
        let more = draws.push(row);
        let counts = volumes.push(volume);
        assert(more.drop_last() == draws);
        assert(counts.drop_last() == volumes);
        assert(candles.drop_last().push(candles.last()) == candles);
        assert(series_for(start, more, counts) == (candles, end));
    }
}

/// A candle with the regime found when it was made.
#[derive(Debug, Clone, Copy)]
pub struct RegimeOHLC {
    pub ohlc: OHLC,
    pub regime_state: Option<RegimeState>,
}

/// A candle with the report on the schedule from before it was made.
#[derive(Debug, Clone, Copy)]
pub struct ControlledRegimeOHLC {
    pub ohlc: OHLC,
    pub schedule_info: Option<ScheduleInfo>,
}

/// What regime detection has found so far.
#[derive(Debug, Clone, Copy)]
pub struct RegimeAnalytics {
    pub current_regime: Option<RegimeState>,
    /// The number of changes of regime.
    pub transitions: usize,
    pub average_duration: Price,
    /// The share of time in bull, bear and sideways regimes.
    pub regime_distribution: (Price, Price, Price),
}

/// Generates candles and ticks.
pub struct MarketDataGenerator {
    rng: Option<StdRng>,
    price_generator: RandomWalkGenerator,
    current_timestamp: i64,
    regime_detector: Option<VolatilityRegimeDetector>,
    regime_tracker: Option<RegimeTracker>,
    data_buffer: VecDeque<OHLC>,
    regime_controller: Option<RegimeController>,
}

impl View for MarketDataGenerator {
    type V = GeneratorView;

    closed spec fn view(&self) -> GeneratorView {
        GeneratorView {
            config: self.price_generator.spec_config(),
            price: self.price_generator.spec_current_price(),
            timestamp: self.current_timestamp,
            detector: match self.regime_detector {
                Some(d) => Some(d@),
                None => None,
            },
            tracker: match self.regime_tracker {
                Some(t) => Some(t@),
                None => None,
            },
            buffer: self.data_buffer@,
            controller: match self.regime_controller {
                Some(c) => Some(c@),
                None => None,
            },
        }
    }
}

/// The text of the error for a configuration that breaks a rule.
pub open spec fn invalid_configuration_text(fault: ConfigFault) -> Seq<char> {
    "Invalid configuration: "@ + fault.text()
}

/// What holds of every generator: the configuration has sound bounds, the
/// price is above zero, no more candles are kept than the capacity, and a
/// controller works from a base with sound bounds.
pub open spec fn sound(view: GeneratorView) -> bool {
    &&& bounds_ok(view.config)
    &&& view.price.units() > 0
    &&& view.buffer.len() <= HISTORY_CAPACITY
    &&& view.controller matches Some(c) ==> bounds_ok(c.base_config) && c.consistent()
}

impl MarketDataGenerator {
    #[verifier::type_invariant]
    closed spec fn inv(self) -> bool {
        sound(self@)
    }

    /// The price at which the walk stands: always above zero.
    pub fn current_price(&self) -> (r: Price)
        ensures
            r == self@.price,
            r.units() > 0,
    {
        proof {
            use_type_invariant(self);
        }
        self.price_generator.current_price()
    }

    /// A generator for a configuration, a random stream and a reading of
    /// the clock in milliseconds: refused where the configuration breaks a
    /// rule, and where the clock could not be read.
    pub fn build(config: GeneratorConfig, rng: StdRng, now: Option<u128>) -> (r: Result<
        MarketDataGenerator,
        String,
    >)
        ensures
            r.is_ok() <==> config.is_valid() && now.is_some(),
            r matches Ok(g) ==> g@ == GeneratorView::fresh(config, timestamp_of(now.unwrap())),
            r matches Err(e) ==> e@ == (match config.spec_validate() {
                Err(fault) => invalid_configuration_text(fault),
                Ok(_) => "Failed to get system time: the clock stands before the epoch"@,
            }),
    {
        match config.validate() {
            Err(e) => {
                return Err(String::from_str("Invalid configuration: ").concat(e.to_string().as_str()));
            },
            Ok(_) => {},
        }
        let price_generator = match RandomWalkGenerator::new(config) {
            Ok(walk) => walk,
            Err(e) => {
                return Err(e);
            },
        };
        let current_timestamp = match now {
            Some(millis) => millis_to_timestamp(millis),
            None => {
                return Err(String::from_str("Failed to get system time: the clock stands before the epoch"));
            },
        };
        Ok(
            MarketDataGenerator {
                rng: Some(rng),
                price_generator,
                current_timestamp,
                regime_detector: None,
                regime_tracker: None,
                data_buffer: VecDeque::with_capacity(100),
                regime_controller: None,
            },
        )
    }

    /// A random stream for a configuration: seeded where it names a seed,
    /// else seeded by the operating system, or from the clock where the
    /// system cannot supply a seed.
    fn stream_for(config: &GeneratorConfig) -> (r: StdRng) {
        match config.seed {
            Some(seed) => seeded_rng(seed),
            None => match entropy_rng() {
                Some(rng) => rng,
                None => {
                    let millis = match unix_millis_now() {
                        Some(m) => m,
                        None => 0,
                    };
                    seeded_rng((millis & 0xffff_ffff_ffff_ffff) as u64)
                },
            },
        }
    }

    /// Takes the random stream out for a while: the generator is left
    /// without one and holds what it held, and the stream that it had is
    /// handed out; a stream that is missing is made afresh.
    fn take_stream(&mut self) -> (r: StdRng)
        ensures
            final(self)@ == old(self)@,
            final(self).rng.is_none(),
            old(self).rng matches Some(stream) ==> r == stream,
    {
        proof {
            use_type_invariant(&*self);
        }
        let mut slot: Option<StdRng> = None;
        std::mem::swap(&mut self.rng, &mut slot);
        match slot {
            Some(rng) => rng,
            None => MarketDataGenerator::stream_for(self.price_generator.config()),
        }
    }

    /// A generator with the default configuration. Where the clock cannot
    /// be read, the first timestamp is zero.
    pub fn new() -> (r: MarketDataGenerator)
        ensures
            r@ == GeneratorView::fresh(GeneratorConfig::spec_default(), r@.timestamp),
    {
        let config = GeneratorConfig::default();
        proof {
            crate::config::lemma_presets_valid();
        }
        let rng = MarketDataGenerator::stream_for(&config);
        let current_timestamp = match unix_millis_now() {
            Some(millis) => millis_to_timestamp(millis),
            None => 0,
        };
        MarketDataGenerator {
            rng: Some(rng),
            price_generator: RandomWalkGenerator::resume(config, config.starting_price),
            current_timestamp,
            regime_detector: None,
            regime_tracker: None,
            data_buffer: VecDeque::with_capacity(100),
            regime_controller: None,
        }
    }

    /// A generator for a configuration, starting at the time by the clock.
    /// A configuration that breaks a rule is refused, with the rule in the
    /// error; a valid one is refused only where the clock cannot be read.
    pub fn with_config(config: GeneratorConfig) -> (r: Result<MarketDataGenerator, String>)
        ensures
            r.is_ok() ==> config.is_valid(),
            r matches Ok(g) ==> g@ == GeneratorView::fresh(config, g@.timestamp),
            r matches Err(e) ==> e@ == (match config.spec_validate() {
                Err(fault) => invalid_configuration_text(fault),
                Ok(_) => "Failed to get system time: the clock stands before the epoch"@,
            }),
    {
        let rng = MarketDataGenerator::stream_for(&config);
        MarketDataGenerator::build(config, rng, unix_millis_now())
    }

    /// Lets the controller, if any, take its step, and puts its
    /// configuration in force; the walk goes on from its price.
    fn update_regime_controller(&mut self)
        ensures
            final(self)@ == old(self)@.controlled(),
    {
        proof {
            use_type_invariant(&*self);
        }
        let mut slot: Option<RegimeController> = None;
        std::mem::swap(&mut self.regime_controller, &mut slot);
        match slot {
            Some(c) => {
                let mut controller = c;
                let ghost before = controller@;
                controller.advance();
                proof {
                    before.lemma_consistent(before.schedule, before.base_config);
                }
                let new_config = *controller.current_config();
                let price = self.price_generator.current_price();
                self.price_generator = RandomWalkGenerator::resume(new_config, price);
                self.regime_controller = Some(controller);
            },
            None => {},
        }
    }

    /// Shows a candle to detection, if it is on: the candle is kept, and
    /// the oldest candle leaves where more than the capacity would be held;
    /// the detector takes the candle in, and the tracker records the state
    /// that the detector then reports. Without detection nothing changes.
    pub fn update_regime_detection(&mut self, candle: &OHLC)
        ensures
            final(self)@ == old(self)@.observed(*candle),
            final(self)@.buffer.len() <= HISTORY_CAPACITY,
            old(self)@.detector.is_some() ==> final(self)@.buffer.len() > 0 && final(self)@.buffer.last()
                == *candle,
    {
        proof {
            use_type_invariant(&*self);
        }
        let mut detector_slot: Option<VolatilityRegimeDetector> = None;
        std::mem::swap(&mut self.regime_detector, &mut detector_slot);
        match detector_slot {
            Some(d) => {
                let mut buffer: VecDeque<OHLC> = VecDeque::new();
                std::mem::swap(&mut self.data_buffer, &mut buffer);
                if buffer.len() >= HISTORY_CAPACITY {
                    let ghost held = buffer@;
                    let _ = buffer.pop_front();
                    proof {
                        assert(held.subrange(1, held.len() as int) == held.skip(1));
                    }
                }
                buffer.push_back(*candle);
                std::mem::swap(&mut self.data_buffer, &mut buffer);
                let mut detector = d;
                let config = RegimeConfig::default();
                let reported = detector.update(candle, &config);
                self.regime_detector = Some(detector);
                match reported {
                    Some(state) => {
                        let mut tracker_slot: Option<RegimeTracker> = None;
                        std::mem::swap(&mut self.regime_tracker, &mut tracker_slot);
                        match tracker_slot {
                            Some(t) => {
                                let mut tracker = t;
                                tracker.record(state);
                                self.regime_tracker = Some(tracker);
                            },
                            None => {},
                        }
                    },
                    None => {},
                }
            },
            None => {},
        }
    }

    /// The candle of the given draws and volume: the walk takes one step for
    /// each draw, the candle gets the current timestamp, the clock moves on
    /// by the interval, and the candle is kept and shown to detection. The
    /// candle is consistent, and after at least one step its close lies
    /// within the bounds.
    pub fn candle_from_draws(&mut self, draws: &Vec<Option<Price>>, volume: u64) -> (r: OHLC)
        ensures
            r == old(self)@.candle(draws@, volume),
            final(self)@ == old(self)@.after_candle(draws@, volume),
            r.spec_is_valid(),
            draws@.len() > 0 ==> old(self)@.config.min_price.units() <= r.close.units()
                <= old(self)@.config.max_price.units(),
    {
        proof {
            use_type_invariant(&*self);
        }
        let mut walk = self.price_generator;
        let prices = walk.candle_from_draws(draws);
        proof {
            lemma_candle_valid(old(self)@, draws@, volume);
        }
        self.price_generator = walk;
        let timestamp = self.current_timestamp;
        self.current_timestamp = advance_timestamp(
            self.current_timestamp,
            self.price_generator.config().time_interval.millis(),
        );
        let candle = OHLC::new(prices.0, prices.1, prices.2, prices.3, volume, timestamp);
        self.update_regime_detection(&candle);
        candle
    }

    /// The next candle: the controller, if any, takes its step; the walk
    /// takes ten steps with fresh draws; a volume is drawn. The candle is
    /// consistent, its close lies within the bounds, and the clock moves on
    /// by the interval.
    pub fn generate_ohlc(&mut self) -> (r: OHLC)
        ensures
            exists|draws: Seq<Option<Price>>, volume: u64|
                draws.len() == TICKS_PER_CANDLE && r == old(self)@.controlled().candle(draws, volume)
                    && final(self)@ == old(self)@.controlled().after_candle(draws, volume),
            r.spec_is_valid(),
            r.timestamp == old(self)@.timestamp,
            final(self)@.timestamp == add_millis(old(self)@.timestamp, old(self)@.candle_millis()),
            final(self)@.candle_millis() == old(self)@.candle_millis(),
            final(self)@.config.min_price.units() <= r.close.units() <= final(self)@.config.max_price.units(),
    {
        proof {
            use_type_invariant(&*self);
        }
        self.update_regime_controller();
        proof {
            use_type_invariant(&*self);
        }
        let mut rng = self.take_stream();
        let mut walk = self.price_generator;
        let (_, sigma) = walk.shock_parameters();
        let draws = draw_shocks(&mut rng, sigma, TICKS_PER_CANDLE);
        let volume = walk.generate_volume(&mut rng);
        self.rng = Some(rng);
        let ghost before = self@;
        let candle = self.candle_from_draws(&draws, volume);
        proof {
            assert(candle == before.candle(draws@, volume));
            assert(self@ == before.after_candle(draws@, volume));
        }
        candle
    }

    /// The next candle.
    pub fn generate_candle(&mut self) -> (r: OHLC)
        ensures
            exists|draws: Seq<Option<Price>>, volume: u64|
                draws.len() == TICKS_PER_CANDLE && r == old(self)@.controlled().candle(draws, volume)
                    && final(self)@ == old(self)@.controlled().after_candle(draws, volume),
            r.spec_is_valid(),
            r.timestamp == old(self)@.timestamp,
            final(self)@.timestamp == add_millis(old(self)@.timestamp, old(self)@.candle_millis()),
            final(self)@.candle_millis() == old(self)@.candle_millis(),
    {
        self.generate_ohlc()
    }

    /// The next `count` candles, in order: each is consistent, the first
    /// has the current timestamp, and each further one that of the one
    /// before moved on by the interval.
    pub fn generate_series(&mut self, count: usize) -> (r: Vec<OHLC>)
        ensures
            r@.len() == count,
            forall|i: int| 0 <= i < count ==> (#[trigger] r@[i]).spec_is_valid(),
            count > 0 ==> r@[0].timestamp == old(self)@.timestamp,
            forall|i: int|
                0 <= i < count - 1 ==> (#[trigger] r@[i + 1]).timestamp == add_millis(
                    r@[i].timestamp,
                    old(self)@.candle_millis(),
                ),
            forall|i: int| 0 <= i < count - 1 ==> r@[i].timestamp <= (#[trigger] r@[i + 1]).timestamp,
            final(self)@.candle_millis() == old(self)@.candle_millis(),
            final(self)@.timestamp >= old(self)@.timestamp,
            candles_from(old(self)@, r@, final(self)@),
    {
        let mut candles: Vec<OHLC> = Vec::new();
        let mut i: usize = 0;
        while i < count
            invariant
                i <= count,
                candles@.len() == i,
                forall|k: int| 0 <= k < i ==> (#[trigger] candles@[k]).spec_is_valid(),
                i > 0 ==> candles@[0].timestamp == old(self)@.timestamp,
                forall|k: int|
                    0 <= k < i - 1 ==> (#[trigger] candles@[k + 1]).timestamp == add_millis(
                        candles@[k].timestamp,
                        old(self)@.candle_millis(),
                    ),
                self@.candle_millis() == old(self)@.candle_millis(),
                old(self)@.candle_millis() >= 0,
                self@.timestamp == if i == 0 {
                    old(self)@.timestamp
                } else {
                    add_millis(candles@[i - 1].timestamp, old(self)@.candle_millis())
                },
                self@.timestamp >= old(self)@.timestamp,
                candles_from(old(self)@, candles@, self@),
            decreases count - i,
        {
            let ghost before = self@;
            let ghost made = candles@;
            let candle = self.generate_ohlc();
            candles.push(candle);
            proof {
                let (draws, volume) = choose|draws: Seq<Option<Price>>, volume: u64|
                    draws.len() == TICKS_PER_CANDLE && candle == before.controlled().candle(draws, volume)
                        && self@ == before.controlled().after_candle(draws, volume);
                assert(candles@.drop_last() == made);
                assert(candles_from(old(self)@, candles@.drop_last(), before) && draws.len() == TICKS_PER_CANDLE
                    && candles@.last() == before.controlled().candle(draws, volume) && self@
                    == before.controlled().after_candle(draws, volume));
            }
            i += 1;
        }
        candles
    }

    /// The next tick: the walk takes one step with a fresh draw, a volume is
    /// drawn, the quotes lie half a spread on each side of the price, and the
    /// clock moves on by a second. The price lies within the bounds.
    pub fn generate_tick(&mut self) -> (r: Tick)
        ensures
            exists|draw: Option<Price>, volume: u64|
                r == old(self)@.tick(draw, volume) && final(self)@ == old(self)@.after_tick(draw),
            r.timestamp == old(self)@.timestamp,
            final(self)@.timestamp == add_millis(old(self)@.timestamp, TICK_MILLIS as int),
            old(self)@.config.min_price.units() <= r.price.units() <= old(self)@.config.max_price.units(),
            r.price.units() > 0,
    {
        proof {
            use_type_invariant(&*self);
        }
        let ghost before = self@;
        let mut rng = self.take_stream();
        let mut walk = self.price_generator;
        let price = walk.next_price(&mut rng);
        let ghost draw = choose|draw: Option<Price>| price == walk_step(before.price, before.config, draw);
        let volume = walk.generate_volume(&mut rng);
        self.rng = Some(rng);
        self.price_generator = walk;
        let timestamp = self.current_timestamp;
        self.current_timestamp = advance_timestamp(self.current_timestamp, TICK_MILLIS);
        let spread = Price::new(1, 3);
        let half = price.saturating_mul(spread).saturating_div(Price::new(2, 0));
        let tick = Tick::with_spread(
            price,
            volume,
            timestamp,
            price.saturating_sub(half),
            price.saturating_add(half),
        );
        proof {
            assert(tick == before.tick(draw, volume));
            assert(self@ == before.after_tick(draw));
        }
        tick
    }

    /// The next `count` ticks, in order: the first has the current
    /// timestamp, and each further one that of the one before moved on by a
    /// second.
    pub fn generate_ticks(&mut self, count: usize) -> (r: Vec<Tick>)
        ensures
            r@.len() == count,
            count > 0 ==> r@[0].timestamp == old(self)@.timestamp,
            forall|i: int|
                0 <= i < count - 1 ==> (#[trigger] r@[i + 1]).timestamp == add_millis(
                    r@[i].timestamp,
                    TICK_MILLIS as int,
                ),
            forall|i: int| 0 <= i < count ==> (#[trigger] r@[i]).price.units() > 0,
            ticks_from(old(self)@, r@, final(self)@),
    {
        let mut ticks: Vec<Tick> = Vec::new();
        let mut i: usize = 0;
        while i < count
            invariant
                i <= count,
                ticks@.len() == i,
                i > 0 ==> ticks@[0].timestamp == old(self)@.timestamp,
                forall|k: int|
                    0 <= k < i - 1 ==> (#[trigger] ticks@[k + 1]).timestamp == add_millis(
                        ticks@[k].timestamp,
                        TICK_MILLIS as int,
                    ),
                forall|k: int| 0 <= k < i ==> (#[trigger] ticks@[k]).price.units() > 0,
                self@.timestamp == if i == 0 {
                    old(self)@.timestamp
                } else {
                    add_millis(ticks@[i - 1].timestamp, TICK_MILLIS as int)
                },
                ticks_from(old(self)@, ticks@, self@),
            decreases count - i,
        {
            let ghost before = self@;
            let ghost made = ticks@;
            let tick = self.generate_tick();
            ticks.push(tick);
            proof {
                let (draw, volume) = choose|draw: Option<Price>, volume: u64|
                    tick == before.tick(draw, volume) && self@ == before.after_tick(draw);
                assert(ticks@.drop_last() == made);
                assert(ticks_from(old(self)@, ticks@.drop_last(), before) && ticks@.last() == before.tick(
                    draw,
                    volume,
                ) && self@ == before.after_tick(draw));
            }
            i += 1;
        }
        ticks
    }

    /// Puts the walk back to the starting price and the clock to the
    /// given reading, or to zero where there is none.
    fn restart(&mut self, now: Option<u128>)
        ensures
            final(self)@ == (GeneratorView {
                price: old(self)@.config.starting_price,
                timestamp: match now {
                    Some(millis) => timestamp_of(millis),
                    None => 0,
                },
                ..old(self)@
            }),
    {
        proof {
            use_type_invariant(&*self);
        }
        let mut walk = self.price_generator;
        walk.reset();
        self.price_generator = walk;
        self.current_timestamp = match now {
            Some(millis) => millis_to_timestamp(millis),
            None => 0,
        };
    }

    /// Puts the walk back to the starting price and the clock to the time by
    /// the system's clock, or to zero where it cannot be read. A seeded
    /// random stream starts again from its seed.
    pub fn reset(&mut self)
        ensures
            final(self)@ == (GeneratorView {
                price: old(self)@.config.starting_price,
                timestamp: final(self)@.timestamp,
                ..old(self)@
            }),
    {
        self.restart(unix_millis_now());
        proof {
            use_type_invariant(&*self);
        }
        match self.price_generator.config().seed {
            Some(seed) => {
                self.rng = Some(seeded_rng(seed));
            },
            None => {},
        }
    }

    /// Sets the timestamp of the next candle or tick.
    pub fn set_timestamp(&mut self, timestamp: i64)
        ensures
            final(self)@ == (GeneratorView { timestamp, ..old(self)@ }),
    {
        proof {
            use_type_invariant(&*self);
        }
        self.current_timestamp = timestamp;
    }

    /// The configuration in force: its starting price is above zero, and
    /// its lower bound is above zero and below the upper.
    pub fn config(&self) -> (r: &GeneratorConfig)
        ensures
            *r == self@.config,
            bounds_ok(*r),
    {
        proof {
            use_type_invariant(self);
        }
        self.price_generator.config()
    }

    /// Puts another configuration in force: the walk starts again at its
    /// starting price, and a seeded random stream starts from its seed. A
    /// configuration that breaks a rule is refused and changes nothing.
    pub fn set_config(&mut self, config: GeneratorConfig) -> (r: Result<(), String>)
        ensures
            r.is_ok() <==> config.is_valid(),
            r.is_ok() ==> final(self)@ == (GeneratorView {
                config,
                price: config.starting_price,
                ..old(self)@
            }),
            r.is_err() ==> final(self)@ == old(self)@,
            r matches Err(e) ==> (config.spec_validate() matches Err(fault) && e@ == invalid_configuration_text(
                fault,
            )),
    {
        proof {
            use_type_invariant(&*self);
        }
        match config.validate() {
            Err(e) => {
                return Err(String::from_str("Invalid configuration: ").concat(e.to_string().as_str()));
            },
            Ok(_) => {},
        }
        self.price_generator = RandomWalkGenerator::resume(config, config.starting_price);
        match config.seed {
            Some(seed) => {
                self.rng = Some(seeded_rng(seed));
            },
            None => {},
        }
        Ok(())
    }

    /// Switches regime detection on, over a window of `window_size`.
    pub fn enable_volatility_regime_detection(&mut self, window_size: usize)
        ensures
            final(self)@ == (GeneratorView {
                detector: Some(DetectorView::fresh(window_size)),
                tracker: Some(
                    TrackerView { history: Seq::empty(), max_history: TRACKER_CAPACITY as nat, transitions: 0 },
                ),
                ..old(self)@
            }),
    {
        proof {
            use_type_invariant(&*self);
        }
        self.regime_detector = Some(VolatilityRegimeDetector::new(window_size));
        self.regime_tracker = Some(RegimeTracker::new(TRACKER_CAPACITY));
    }

    /// Switches regime detection off and drops the candles kept.
    pub fn disable_regime_detection(&mut self)
        ensures
            final(self)@ == (GeneratorView {
                detector: None,
                tracker: None,
                buffer: Seq::empty(),
                ..old(self)@
            }),
    {
        proof {
            use_type_invariant(&*self);
        }
        self.regime_detector = None;
        self.regime_tracker = None;
        self.data_buffer = VecDeque::new();
    }

    /// The regime recorded last, where detection is on and has found one.
    pub fn current_regime(&self) -> (r: Option<&RegimeState>)
        ensures
            match r {
                Some(s) => latest_regime(self@) == Some(*s),
                None => latest_regime(self@).is_none(),
            },
    {
        match &self.regime_tracker {
            Some(tracker) => tracker.current(),
            None => None,
        }
    }

    /// What detection has found so far, where it is on.
    pub fn regime_analytics(&self) -> (r: Option<RegimeAnalytics>)
        ensures
            r.is_some() == self@.tracker.is_some(),
            r matches Some(a) ==> (self@.tracker matches Some(t) && a.transitions == t.transitions
                && a.current_regime == latest_regime(self@) && a.regime_distribution
                == RegimeTracker::spec_regime_distribution(t.history) && a.average_duration == (if t.history.len()
                == 0 {
                Price::spec_zero()
            } else {
                price_of_count(total_duration(t.history)).spec_div(Price::from_repr(t.history.len() as int, 0))
            })),
    {
        match &self.regime_tracker {
            Some(tracker) => {
                let current = match tracker.current() {
                    Some(s) => Some(*s),
                    None => None,
                };
                Some(
                    RegimeAnalytics {
                        current_regime: current,
                        transitions: tracker.transitions,
                        average_duration: tracker.average_duration(),
                        regime_distribution: tracker.regime_distribution(),
                    },
                )
            },
            None => None,
        }
    }

    /// The next `count` candles, each with the regime recorded last when it
    /// was made.
    pub fn generate_regime_aware_series(&mut self, count: usize, _regime_config: RegimeConfig) -> (r: Vec<
        RegimeOHLC,
    >)
        ensures
            r@.len() == count,
            forall|i: int| 0 <= i < count ==> (#[trigger] r@[i]).ohlc.spec_is_valid(),
            regime_series_from(old(self)@, r@, final(self)@),
    {
        let mut series: Vec<RegimeOHLC> = Vec::new();
        let mut i: usize = 0;
        while i < count
            invariant
                i <= count,
                series@.len() == i,
                forall|k: int| 0 <= k < i ==> (#[trigger] series@[k]).ohlc.spec_is_valid(),
                regime_series_from(old(self)@, series@, self@),
            decreases count - i,
        {
            let ghost before = self@;
            let ghost made = series@;
            let candle = self.generate_ohlc();
            let current = match self.current_regime() {
                Some(s) => Some(*s),
                None => None,
            };
            series.push(RegimeOHLC { ohlc: candle, regime_state: current });
            proof {
                let (draws, volume) = choose|draws: Seq<Option<Price>>, volume: u64|
                    draws.len() == TICKS_PER_CANDLE && candle == before.controlled().candle(draws, volume)
                        && self@ == before.controlled().after_candle(draws, volume);
                assert(series@.drop_last() == made);
                assert(regime_series_from(old(self)@, series@.drop_last(), before) && draws.len()
                    == TICKS_PER_CANDLE && series@.last().ohlc == before.controlled().candle(draws, volume)
                    && self@ == before.controlled().after_candle(draws, volume) && series@.last().regime_state
                    == latest_regime(self@));
            }
            i += 1;
        }
        series
    }

    /// The next `count` candles, each with the report on the schedule from
    /// before it was made.
    pub fn generate_controlled_regime_series(&mut self, count: usize) -> (r: Vec<ControlledRegimeOHLC>)
        ensures
            r@.len() == count,
            forall|i: int| 0 <= i < count ==> (#[trigger] r@[i]).ohlc.spec_is_valid(),
            count > 0 ==> r@[0].schedule_info == schedule_report(old(self)@),
            controlled_series_from(old(self)@, r@, final(self)@),
    {
        let mut series: Vec<ControlledRegimeOHLC> = Vec::new();
        let mut i: usize = 0;
        while i < count
            invariant
                i <= count,
                series@.len() == i,
                forall|k: int| 0 <= k < i ==> (#[trigger] series@[k]).ohlc.spec_is_valid(),
                i == 0 ==> self@ == old(self)@,
                i > 0 ==> series@[0].schedule_info == schedule_report(old(self)@),
                controlled_series_from(old(self)@, series@, self@),
            decreases count - i,
        {
            let ghost before = self@;
            let ghost made = series@;
            let schedule_info = self.regime_control_info();
            let candle = self.generate_ohlc();
            series.push(ControlledRegimeOHLC { ohlc: candle, schedule_info });
            proof {
                let (draws, volume) = choose|draws: Seq<Option<Price>>, volume: u64|
                    draws.len() == TICKS_PER_CANDLE && candle == before.controlled().candle(draws, volume)
                        && self@ == before.controlled().after_candle(draws, volume);
                assert(series@.drop_last() == made);
                assert(controlled_series_from(old(self)@, series@.drop_last(), before) && draws.len()
                    == TICKS_PER_CANDLE && series@.last().ohlc == before.controlled().candle(draws, volume)
                    && self@ == before.controlled().after_candle(draws, volume) && series@.last().schedule_info
                    == schedule_report(before));
            }
            i += 1;
        }
        series
    }

    /// The candles kept, oldest first: no more than the capacity.
    pub fn data_buffer(&self) -> (r: Vec<OHLC>)
        ensures
            r@ == self@.buffer,
            r@.len() <= HISTORY_CAPACITY,
    {
        proof {
            use_type_invariant(self);
        }
        let mut out: Vec<OHLC> = Vec::new();
        let mut i: usize = 0;
        while i < self.data_buffer.len()
            invariant
                i <= self.data_buffer@.len(),
                out@ == self.data_buffer@.take(i as int),
            decreases self.data_buffer@.len() - i,
        {
            out.push(self.data_buffer[i]);
            proof {
                assert(self.data_buffer@.take(i as int).push(self.data_buffer@[i as int]) == self.data_buffer@.take(
                    i + 1,
                ));
            }
            i += 1;
        }
        proof {
            assert(self.data_buffer@.take(self.data_buffer@.len() as int) == self.data_buffer@);
        }
        out
    }

    /// Runs a detection over the candles kept, where detection is on.
    pub fn detect_regime_on_buffer(&mut self) -> (r: Option<RegimeState>)
        ensures
            match old(self)@.detector {
                Some(d) => final(self)@ == (GeneratorView {
                    detector: Some(d.detect(old(self)@.buffer, RegimeConfig::spec_default()).0),
                    ..old(self)@
                }) && r == d.detect(old(self)@.buffer, RegimeConfig::spec_default()).1,
                None => final(self)@ == old(self)@ && r.is_none(),
            },
    {
        proof {
            use_type_invariant(&*self);
        }
        let candles = self.data_buffer();
        let mut slot: Option<VolatilityRegimeDetector> = None;
        std::mem::swap(&mut self.regime_detector, &mut slot);
        match slot {
            Some(d) => {
                let mut detector = d;
                let config = RegimeConfig::default();
                let found = detector.detect(candles.as_slice(), &config);
                self.regime_detector = Some(detector);
                found
            },
            None => None,
        }
    }

    /// Switches regime control on, with the configuration in force as the
    /// base that regimes are merged into.
    pub fn enable_regime_control(&mut self, schedule: RegimeSchedule)
        ensures
            final(self)@ == (GeneratorView {
                controller: Some(ControllerView::fresh(schedule@, old(self)@.config)),
                ..old(self)@
            }),
    {
        proof {
            use_type_invariant(&*self);
        }
        let ghost view = schedule@;
        let base = *self.price_generator.config();
        let controller = RegimeController::new(schedule, base);
        proof {
            controller@.lemma_consistent(view, base);
        }
        self.regime_controller = Some(controller);
    }

    /// Switches regime control off.
    pub fn disable_regime_control(&mut self)
        ensures
            final(self)@ == (GeneratorView { controller: None, ..old(self)@ }),
    {
        proof {
            use_type_invariant(&*self);
        }
        self.regime_controller = None;
    }

    /// The report on the schedule, where regimes are controlled.
    pub fn regime_control_info(&self) -> (r: Option<ScheduleInfo>)
        ensures
            r == schedule_report(self@),
    {
        match &self.regime_controller {
            Some(controller) => Some(controller.schedule_info()),
            None => None,
        }
    }

    /// Puts a schedule of one segment with the given regime in place of the
    /// current one; nothing where regimes are not controlled.
    pub fn force_regime(&mut self, regime: MarketRegime, duration: usize, transition_duration: Option<usize>)
        ensures
            final(self)@ == (GeneratorView {
                controller: match old(self)@.controller {
                    Some(c) => Some(c.force(regime, duration, transition_duration)),
                    None => None,
                },
                ..old(self)@
            }),
    {
        proof {
            use_type_invariant(&*self);
        }
        let mut slot: Option<RegimeController> = None;
        std::mem::swap(&mut self.regime_controller, &mut slot);
        match slot {
            Some(c) => {
                let mut controller = c;
                let ghost before = controller@;
                controller.force_regime(regime, duration, transition_duration);
                proof {
                    before.lemma_consistent(controller@.schedule, before.base_config);
                }
                self.regime_controller = Some(controller);
            },
            None => {},
        }
    }

    /// Adds a segment at the end of the schedule; nothing where regimes are
    /// not controlled.
    pub fn add_regime_segment(&mut self, segment: RegimeSegment)
        ensures
            final(self)@ == (GeneratorView {
                controller: match old(self)@.controller {
                    Some(c) => Some(
                        ControllerView {
                            schedule: ScheduleView {
                                segments: c.schedule.segments.push(segment),
                                original: c.schedule.original.push(segment),
                                ..c.schedule
                            },
                            ..c
                        },
                    ),
                    None => None,
                },
                ..old(self)@
            }),
    {
        proof {
            use_type_invariant(&*self);
        }
        let mut slot: Option<RegimeController> = None;
        std::mem::swap(&mut self.regime_controller, &mut slot);
        match slot {
            Some(c) => {
                let mut controller = c;
                controller.add_segment(segment);
                self.regime_controller = Some(controller);
            },
            None => {},
        }
    }

    /// Puts the schedule back to its start; nothing where regimes are not
    /// controlled.
    pub fn reset_regime_schedule(&mut self)
        ensures
            final(self)@ == (GeneratorView {
                controller: match old(self)@.controller {
                    Some(c) => Some(
                        c.with_schedule(ScheduleView::fresh(c.schedule.original, c.schedule.repeat)),
                    ),
                    None => None,
                },
                ..old(self)@
            }),
    {
        proof {
            use_type_invariant(&*self);
        }
        let mut slot: Option<RegimeController> = None;
        std::mem::swap(&mut self.regime_controller, &mut slot);
        match slot {
            Some(c) => {
                let mut controller = c;
                let ghost before = controller@;
                controller.reset();
                proof {
                    before.lemma_consistent(controller@.schedule, before.base_config);
                }
                self.regime_controller = Some(controller);
            },
            None => {},
        }
    }
}

impl Default for MarketDataGenerator {
    fn default() -> (r: MarketDataGenerator) {
        MarketDataGenerator::new()
    }
}

} // verus!
