//! Regime detection from the volatility of returns.

use crate::price::lemma_price_repr;
use crate::price::Price;
use crate::regimes::detector::helpers::{identify_trend, trend_of};
use crate::regimes::detector::RegimeDetector;
use crate::regimes::statistics::{RollingStatistics, StatsView};
use crate::regimes::{bump, MarketRegime, RegimeConfig, RegimeState};
use crate::sorting::{sort_prices, sorted_seq};
use crate::types::OHLC;
use std::collections::VecDeque;
use vstd::prelude::*;

verus! {

broadcast use lemma_price_repr;

/// How volatile a market is, against its own past.
#[derive(Debug, Clone, Copy, PartialEq, Eq, Structural)]
pub enum VolatilityRegime {
    Low,
    Normal,
    High,
    Extreme,
}

impl VolatilityRegime {
    /// The regime for a trend at this volatility: low and normal volatility
    /// keep the trend, high volatility keeps a bear market and turns
    /// anything else sideways, extreme volatility is a bear market.
    pub open spec fn spec_to_market_regime(self, trend_direction: MarketRegime) -> MarketRegime {
        match self {
            VolatilityRegime::Low => trend_direction,
            VolatilityRegime::Normal => trend_direction,
            VolatilityRegime::High => if trend_direction.spec_same(MarketRegime::Bear) {
                MarketRegime::Bear
            } else {
                MarketRegime::Sideways
            },
            VolatilityRegime::Extreme => MarketRegime::Bear,
        }
    }

    /// The regime for a trend at this volatility.
    pub fn to_market_regime(&self, trend_direction: MarketRegime) -> (r: MarketRegime)
        ensures
            r == self.spec_to_market_regime(trend_direction),
    {
        match self {
            VolatilityRegime::Low => trend_direction,
            VolatilityRegime::Normal => trend_direction,
            VolatilityRegime::High => {
                if trend_direction == MarketRegime::Bear {
                    MarketRegime::Bear
                } else {
                    MarketRegime::Sideways
                }
            },
            VolatilityRegime::Extreme => MarketRegime::Bear,
        }
    }
}

/// The volatilities that part low from normal, normal from high and high
/// from extreme, and the volatility at the 90th percentile.
#[derive(Debug, Clone, Copy)]
pub struct VolatilityPercentiles {
    /// The 25th percentile.
    pub low: Price,
    /// The 50th percentile.
    pub normal: Price,
    /// The 75th percentile.
    pub high: Price,
    /// The 90th percentile.
    pub extreme: Price,
}

impl VolatilityPercentiles {
    pub open spec fn spec_default() -> VolatilityPercentiles {
        VolatilityPercentiles {
            low: Price::from_repr(5, 3),
            normal: Price::from_repr(1, 2),
            high: Price::from_repr(2, 2),
            extreme: Price::from_repr(4, 2),
        }
    }

    /// The percentiles of a sorted sequence: the items at 25%, 50%, 75% and
    /// 90% of its length.
    pub open spec fn of_sorted(sorted: Seq<Price>) -> VolatilityPercentiles {
        VolatilityPercentiles {
            low: sorted[(sorted.len() * 25 / 100) as int],
            normal: sorted[(sorted.len() * 50 / 100) as int],
            high: sorted[(sorted.len() * 75 / 100) as int],
            extreme: sorted[(sorted.len() * 90 / 100) as int],
        }
    }

    /// The class of a volatility: low below the 25th percentile, normal
    /// below the 50th, high below the 75th, extreme from there on.
    pub open spec fn classify(self, volatility: Price) -> VolatilityRegime {
        if volatility.units() < self.low.units() {
            VolatilityRegime::Low
        } else if volatility.units() < self.normal.units() {
            VolatilityRegime::Normal
        } else if volatility.units() < self.high.units() {
            VolatilityRegime::High
        } else {
            VolatilityRegime::Extreme
        }
    }
}

impl Default for VolatilityPercentiles {
    fn default() -> (r: VolatilityPercentiles)
        ensures
            r == VolatilityPercentiles::spec_default(),
    {
        VolatilityPercentiles {
            low: Price::new(5, 3),
            normal: Price::new(1, 2),
            high: Price::new(2, 2),
            extreme: Price::new(4, 2),
        }
    }
}

/// `a * b / 100` for a count `a`.
fn share_of(a: usize, b: u8) -> (r: usize)
    requires
        b <= 100,
    ensures
        r == a * b / 100,
        a > 0 && b < 100 ==> r < a,
{
    assert(a * b <= a * 100) by (nonlinear_arith)
        requires
            b <= 100,
            a >= 0,
    ;
    assert(a > 0 && b < 100 ==> a * b < a * 100) by (nonlinear_arith);
    let wide: u128 = a as u128 * b as u128;
    (wide / 100) as usize
}

/// The number of items at the end of `values`, among the last `limit`, that
/// are all of the class `class`.
pub open spec fn run_length(
    values: Seq<Price>,
    percentiles: VolatilityPercentiles,
    class: VolatilityRegime,
    limit: nat,
) -> nat
    decreases limit,
{
    if limit == 0 || values.len() == 0 || percentiles.classify(values.last()) != class {
        0
    } else {
        1 + run_length(values.drop_last(), percentiles, class, (limit - 1) as nat)
    }
}

/// What a detector holds.
pub struct DetectorView {
    pub stats: StatsView,
    /// The last volatilities, oldest first.
    pub volatilities: Seq<Price>,
    pub current_state: Option<RegimeState>,
    /// The number of volatilities kept.
    pub max_buffer_size: usize,
    pub percentiles: VolatilityPercentiles,
}

/// The volatilities with one more, less the oldest where more than `max`
/// would be held.
pub open spec fn push_bounded(values: Seq<Price>, value: Price, max: usize) -> Seq<Price> {
    if values.len() + 1 > max {
        values.push(value).skip(1)
    } else {
        values.push(value)
    }
}

impl DetectorView {
    pub open spec fn fresh(window_size: usize) -> DetectorView {
        DetectorView {
            stats: StatsView::empty(window_size),
            volatilities: Seq::empty(),
            current_state: None,
            max_buffer_size: window_size,
            percentiles: VolatilityPercentiles::spec_default(),
        }
    }

    /// The confidence before it is held between zero and one: a half, plus
    /// 0.2 or 0.1 for low or normal volatility, less 0.1 or 0.2 for high or
    /// extreme volatility, plus 0.15 for a Sharpe ratio beyond one.
    pub open spec fn raw_confidence(class: VolatilityRegime, sharpe: Price) -> Price {
        let base = Price::from_repr(5, 1);
        let by_class = match class {
            VolatilityRegime::Low => base.spec_add(Price::from_repr(2, 1)),
            VolatilityRegime::Normal => base.spec_add(Price::from_repr(1, 1)),
            VolatilityRegime::High => base.spec_sub(Price::from_repr(1, 1)),
            VolatilityRegime::Extreme => base.spec_sub(Price::from_repr(2, 1)),
        };
        if sharpe.units() > Price::spec_one().units() || sharpe.units() < Price::spec_one().spec_neg().units() {
            by_class.spec_add(Price::from_repr(15, 2))
        } else {
            by_class
        }
    }

    /// The regime for a class of volatility, a momentum and a trend: a bear
    /// market at extreme volatility; a bull or a bear market for a momentum
    /// beyond 5% where volatility is not high; else the trend as the class
    /// of volatility lets it stand.
    pub open spec fn regime_for(class: VolatilityRegime, momentum: Price, trend: MarketRegime) -> MarketRegime {
        if class == VolatilityRegime::Extreme {
            MarketRegime::Bear
        } else if momentum.units() > Price::from_repr(5, 2).units() && class != VolatilityRegime::High {
            MarketRegime::Bull
        } else if momentum.units() < Price::from_repr(-5, 2).units() && class != VolatilityRegime::High {
            MarketRegime::Bear
        } else {
            class.spec_to_market_regime(trend)
        }
    }

    /// The regime and the confidence in it for the candles, by what the
    /// statistics hold; sideways at a confidence of a half for fewer than
    /// two candles.
    pub open spec fn estimate(self, data: Seq<OHLC>) -> (MarketRegime, Price) {
        if data.len() < 2 {
            (MarketRegime::Sideways, Price::from_repr(5, 1))
        } else {
            let class = self.percentiles.classify(self.stats.std_dev());
            (
                DetectorView::regime_for(class, self.stats.momentum(), trend_of(data, 5, 20)),
                DetectorView::raw_confidence(class, self.stats.sharpe_ratio(252)).spec_max(
                    Price::spec_zero(),
                ).spec_min(Price::spec_one()),
            )
        }
    }

    /// The share of the last ten volatilities, counted from the newest
    /// back, that are of the class of the newest without a break; zero for
    /// fewer than ten volatilities.
    pub open spec fn clustering(self) -> Price {
        if self.volatilities.len() < 10 {
            Price::spec_zero()
        } else {
            Price::from_repr(
                run_length(
                    self.volatilities,
                    self.percentiles,
                    self.percentiles.classify(self.volatilities.last()),
                    10,
                ) as int,
                0,
            ).spec_div(Price::from_repr(10, 0))
        }
    }

    /// The percentiles after a look at the volatilities: those of the
    /// volatilities in ascending order where at least 20 are held.
    pub open spec fn refreshed_percentiles(self) -> VolatilityPercentiles {
        if self.volatilities.len() < 20 {
            self.percentiles
        } else {
            VolatilityPercentiles::of_sorted(sorted_seq(self.volatilities))
        }
    }

    /// The detector after the close of a candle came in: the statistics
    /// take it in, and the standard deviation joins the volatilities.
    pub open spec fn take_in(self, close: Price) -> DetectorView {
        let stats = self.stats.update(close);
        DetectorView {
            stats,
            volatilities: push_bounded(self.volatilities, stats.std_dev(), self.max_buffer_size),
            ..self
        }
    }

    /// The state after a regime was found with a confidence: a state that
    /// is due for a change starts the regime found; one of the regime found
    /// lasts one period more, at the mean of both confidences; any other
    /// stays. Without a state, one starts where the confidence is at least
    /// `min_confidence`.
    pub open spec fn next_state(
        state: Option<RegimeState>,
        regime: MarketRegime,
        confidence: Price,
        candle: OHLC,
        min_confidence: Price,
    ) -> Option<RegimeState> {
        match state {
            Some(s) => if s.spec_should_transition(regime, confidence) {
                Some(
                    RegimeState {
                        current_regime: regime,
                        confidence,
                        duration: 1,
                        start_timestamp: candle.timestamp,
                        start_price: candle.close,
                    },
                )
            } else if s.current_regime.spec_same(regime) {
                Some(
                    RegimeState {
                        duration: bump(s.duration),
                        confidence: s.confidence.spec_add(confidence).spec_div(Price::spec_two()),
                        ..s
                    },
                )
            } else {
                Some(s)
            },
            None => if confidence.units() >= min_confidence.units() {
                Some(
                    RegimeState {
                        current_regime: regime,
                        confidence,
                        duration: 1,
                        start_timestamp: candle.timestamp,
                        start_price: candle.close,
                    },
                )
            } else {
                None
            },
        }
    }

    /// A finding of the regime held never starts it anew: the state keeps
    /// its regime, its start and its start price, and lasts one period more.
    pub proof fn lemma_same_regime_persists(
        state: RegimeState,
        regime: MarketRegime,
        confidence: Price,
        candle: OHLC,
        min_confidence: Price,
    )
        requires
            regime.spec_same(state.current_regime),
        ensures
            DetectorView::next_state(Some(state), regime, confidence, candle, min_confidence) == Some(
                RegimeState {
                    duration: bump(state.duration),
                    confidence: state.confidence.spec_add(confidence).spec_div(Price::spec_two()),
                    ..state
                },
            ),
    {
        regime.lemma_same_is_symmetric(state.current_regime);
    }

    /// The detector after one more candle: the candle is taken in; where
    /// the statistics are ready, the percentiles are looked at again each
    /// time the number of volatilities held is a multiple of ten, and the
    /// state moves on by the regime found for the candle alone, at its
    /// confidence plus a tenth of the clustering, over 1.1.
    pub open spec fn update(self, candle: OHLC, config: RegimeConfig) -> DetectorView {
        let taken = self.take_in(candle.close);
        if !taken.stats.is_ready() {
            taken
        } else {
            let looked = DetectorView {
                percentiles: if taken.volatilities.len() >= 20 && taken.volatilities.len() % 10 == 0 {
                    taken.refreshed_percentiles()
                } else {
                    taken.percentiles
                },
                ..taken
            };
            let (regime, confidence) = looked.estimate(seq![candle]);
            let blended = confidence.spec_add(looked.clustering().spec_mul(Price::from_repr(1, 1))).spec_div(
                Price::from_repr(11, 1),
            );
            DetectorView {
                current_state: DetectorView::next_state(
                    looked.current_state,
                    regime,
                    blended,
                    candle,
                    config.min_confidence,
                ),
                ..looked
            }
        }
    }

    /// The statistics and the volatilities after the candles came in, in
    /// order: each close is taken in, and once the statistics are ready
    /// each standard deviation joins the volatilities.
    pub open spec fn filled(self, data: Seq<OHLC>) -> DetectorView
        decreases data.len(),
    {
        if data.len() == 0 {
            self
        } else {
            let before = self.filled(data.drop_last());
            let stats = before.stats.update(data.last().close);
            DetectorView {
                stats,
                volatilities: if stats.is_ready() {
                    push_bounded(before.volatilities, stats.std_dev(), before.max_buffer_size)
                } else {
                    before.volatilities
                },
                ..before
            }
        }
    }

    /// The detector as it starts a detection: with statistics and
    /// volatilities emptied.
    pub open spec fn cleared(self) -> DetectorView {
        DetectorView {
            stats: StatsView::empty(self.max_buffer_size),
            volatilities: Seq::empty(),
            ..self
        }
    }

    /// The detector after a detection over the candles, and the regime
    /// found. Fewer candles than the lookback period leave it as it is and
    /// find nothing. Else the candles are taken in afresh; fewer than two
    /// volatilities find nothing; else the percentiles are looked at again,
    /// and the regime found for the candles, at its confidence plus a fifth
    /// of the clustering, over 1.2 and no more than one, becomes the state
    /// where the confidence is at least `min_confidence`.
    pub open spec fn detect(self, data: Seq<OHLC>, config: RegimeConfig) -> (DetectorView, Option<RegimeState>) {
        if data.len() < config.lookback_period {
            (self, None)
        } else {
            let taken = self.cleared().filled(data);
            if taken.volatilities.len() < 2 {
                (taken, None)
            } else {
                let looked = DetectorView { percentiles: taken.refreshed_percentiles(), ..taken };
                let (regime, confidence) = looked.estimate(data);
                let blended = confidence.spec_add(looked.clustering().spec_mul(Price::from_repr(2, 1))).spec_div(
                    Price::from_repr(12, 1),
                ).spec_min(Price::spec_one());
                if blended.units() >= config.min_confidence.units() && data.len() > 0 {
                    let state = RegimeState {
                        current_regime: regime,
                        confidence: blended,
                        duration: 1,
                        start_timestamp: data.last().timestamp,
                        start_price: data.last().close,
                    };
                    (DetectorView { current_state: Some(state), ..looked }, Some(state))
                } else {
                    (looked, looked.current_state)
                }
            }
        }
    }

    /// The confidence that the candles show the given regime: that of the
    /// regime found where it is the given one, else one minus it; zero
    /// without candles or before the statistics are ready.
    pub open spec fn confidence_in(self, regime: MarketRegime, data: Seq<OHLC>) -> Price {
        if data.len() == 0 || !self.stats.is_ready() {
            Price::spec_zero()
        } else {
            let (found, confidence) = self.estimate(data);
            if found.spec_same(regime) {
                confidence
            } else {
                Price::spec_one().spec_sub(confidence)
            }
        }
    }

    /// The volatilities held are no more than are kept.
    pub open spec fn within_bounds(self) -> bool {
        self.volatilities.len() <= self.max_buffer_size
    }

    /// An update keeps the volatilities within what is kept.
    pub proof fn lemma_update_within_bounds(self, candle: OHLC, config: RegimeConfig)
        requires
            self.within_bounds(),
        ensures
            self.update(candle, config).within_bounds(),
            self.update(candle, config).max_buffer_size == self.max_buffer_size,
    {
    }
}

/// Finds regimes from the volatility of returns over a sliding window.
pub struct VolatilityRegimeDetector {
    stats: RollingStatistics,
    volatility_buffer: VecDeque<Price>,
    current_state: Option<RegimeState>,
    max_buffer_size: usize,
    vol_percentiles: VolatilityPercentiles,
}

impl View for VolatilityRegimeDetector {
    type V = DetectorView;

    closed spec fn view(&self) -> DetectorView {
        DetectorView {
            stats: self.stats@,
            volatilities: self.volatility_buffer@,
            current_state: self.current_state,
            max_buffer_size: self.max_buffer_size,
            percentiles: self.vol_percentiles,
        }
    }
}

impl VolatilityRegimeDetector {
    /// A detector over a window of `window_size`, with nothing taken in.
    pub fn new(window_size: usize) -> (r: VolatilityRegimeDetector)
        ensures
            r@ == DetectorView::fresh(window_size),
    {
        VolatilityRegimeDetector {
            stats: RollingStatistics::new(window_size),
            volatility_buffer: VecDeque::with_capacity(window_size),
            current_state: None,
            max_buffer_size: window_size,
            vol_percentiles: VolatilityPercentiles::default(),
        }
    }

    /// The class of a volatility by the percentiles held.
    pub fn classify_volatility(&self, volatility: Price) -> (r: VolatilityRegime)
        ensures
            r == self@.percentiles.classify(volatility),
    {
        if volatility.lt(&self.vol_percentiles.low) {
            VolatilityRegime::Low
        } else if volatility.lt(&self.vol_percentiles.normal) {
            VolatilityRegime::Normal
        } else if volatility.lt(&self.vol_percentiles.high) {
            VolatilityRegime::High
        } else {
            VolatilityRegime::Extreme
        }
    }

    /// The number of volatilities held.
    pub fn volatility_count(&self) -> (r: usize)
        ensures
            r == self@.volatilities.len(),
    {
        self.volatility_buffer.len()
    }

    /// The state held.
    pub fn current_state(&self) -> (r: Option<RegimeState>)
        ensures
            r == self@.current_state,
    {
        self.current_state
    }

    /// Puts a volatility among those held, as the newest.
    pub fn push_volatility(&mut self, volatility: Price)
        ensures
            final(self)@ == (DetectorView {
                volatilities: push_bounded(old(self)@.volatilities, volatility, old(self)@.max_buffer_size),
                ..old(self)@
            }),
    {
        self.volatility_buffer.push_back(volatility);
        if self.volatility_buffer.len() > self.max_buffer_size {
            let ghost pushed = self.volatility_buffer@;
            let _ = self.volatility_buffer.pop_front();
            proof {
                assert(pushed.subrange(1, pushed.len() as int) == pushed.skip(1));
            }
        }
    }

    /// Takes the percentiles from the volatilities held, where at least 20
    /// are held.
    pub fn update_percentiles(&mut self)
        ensures
            final(self)@ == (DetectorView { percentiles: old(self)@.refreshed_percentiles(), ..old(self)@ }),
    {
        let n = self.volatility_buffer.len();
        if n < 20 {
            return ;
        }
        let mut values: Vec<Price> = Vec::new();
        let mut i: usize = 0;
        while i < n
            invariant
                i <= n,
                n == self.volatility_buffer@.len(),
                values@ == self.volatility_buffer@.take(i as int),
            decreases n - i,
        {
            values.push(self.volatility_buffer[i]);
            proof {
                assert(self.volatility_buffer@.take(i as int).push(self.volatility_buffer@[i as int])
                    == self.volatility_buffer@.take(i + 1));
            }
            i += 1;
        }
        proof {
            assert(self.volatility_buffer@.take(n as int) == self.volatility_buffer@);
        }
        let sorted = sort_prices(&values);
        let len = sorted.len();
        self.vol_percentiles.low = sorted[share_of(len, 25)];
        self.vol_percentiles.normal = sorted[share_of(len, 50)];
        self.vol_percentiles.high = sorted[share_of(len, 75)];
        self.vol_percentiles.extreme = sorted[share_of(len, 90)];
    }

    /// The regime and the confidence in it for the candles.
    pub fn detect_regime(&self, data: &[OHLC]) -> (r: (MarketRegime, Price))
        ensures
            r == self@.estimate(data@),
    {
        if data.len() < 2 {
            return (MarketRegime::Sideways, Price::new(5, 1));
        }
        let current_vol = self.stats.std_dev();
        let vol_regime = self.classify_volatility(current_vol);
        let trend = identify_trend(data, 5, 20);
        let momentum = self.stats.momentum();
        let sharpe = self.stats.sharpe_ratio(252);
        let mut confidence = Price::new(5, 1);
        match vol_regime {
            VolatilityRegime::Low => {
                confidence = confidence.saturating_add(Price::new(2, 1));
            },
            VolatilityRegime::Normal => {
                confidence = confidence.saturating_add(Price::new(1, 1));
            },
            VolatilityRegime::High => {
                confidence = confidence.saturating_sub(Price::new(1, 1));
            },
            VolatilityRegime::Extreme => {
                confidence = confidence.saturating_sub(Price::new(2, 1));
            },
        }
        if sharpe.gt(&Price::one()) {
            confidence = confidence.saturating_add(Price::new(15, 2));
        } else if sharpe.lt(&Price::one().neg()) {
            confidence = confidence.saturating_add(Price::new(15, 2));
        }
        let regime = if vol_regime == VolatilityRegime::Extreme {
            MarketRegime::Bear
        } else if momentum.gt(&Price::new(5, 2)) && vol_regime != VolatilityRegime::High {
            MarketRegime::Bull
        } else if momentum.lt(&Price::new(-5, 2)) && vol_regime != VolatilityRegime::High {
            MarketRegime::Bear
        } else {
            vol_regime.to_market_regime(trend)
        };
        confidence = confidence.max(Price::zero()).min(Price::one());
        (regime, confidence)
    }

    /// The share of the last ten volatilities that are of the class of the
    /// newest without a break.
    pub fn analyze_clustering(&self) -> (r: Price)
        ensures
            r == self@.clustering(),
    {
        let n = self.volatility_buffer.len();
        if n < 10 {
            return Price::zero();
        }
        let current = self.classify_volatility(self.volatility_buffer[n - 1]);
        let mut count: usize = 0;
        let mut go_on = true;
        proof {
            assert(self.volatility_buffer@.take(n as int) == self.volatility_buffer@);
        }
        while count < 10 && go_on
            invariant
                count <= 10,
                n == self.volatility_buffer@.len(),
                n >= 10,
                current == self@.percentiles.classify(self.volatility_buffer@.last()),
                go_on ==> count + run_length(
                    self.volatility_buffer@.take(n - count),
                    self@.percentiles,
                    current,
                    (10 - count) as nat,
                ) == run_length(self.volatility_buffer@, self@.percentiles, current, 10),
                !go_on ==> count == run_length(self.volatility_buffer@, self@.percentiles, current, 10),
            decreases 10 - count + if go_on { 1int } else { 0int },
        {
            proof {
                assert(self.volatility_buffer@.take(n - count).drop_last() == self.volatility_buffer@.take(
                    n - count - 1,
                ));
                assert(self.volatility_buffer@.take(n - count).last() == self.volatility_buffer@[n - count - 1]);
            }
            if self.classify_volatility(self.volatility_buffer[n - 1 - count]) == current {
                count += 1;
            } else {
                go_on = false;
            }
        }
        Price::from_usize(count).saturating_div(Price::new(10, 0))
    }

    /// The state after a regime was found with a confidence.
    pub fn advance_state(
        state: Option<RegimeState>,
        regime: MarketRegime,
        confidence: Price,
        candle: &OHLC,
        min_confidence: Price,
    ) -> (r: Option<RegimeState>)
        ensures
            r == DetectorView::next_state(state, regime, confidence, *candle, min_confidence),
    {
        match state {
            Some(s) => {
                let mut next = s;
                if next.should_transition(regime, confidence) {
                    next.transition(regime, confidence, candle.timestamp, candle.close);
                } else if next.current_regime == regime {
                    next.increment_duration();
                    next.confidence = next.confidence.saturating_add(confidence).saturating_div(Price::two());
                }
                Some(next)
            },
            None => {
                if confidence.ge(&min_confidence) {
                    Some(RegimeState::new(regime, confidence, candle.timestamp, candle.close))
                } else {
                    None
                }
            },
        }
    }

    /// The regime of the candles, where it can be told.
    pub fn detect(&mut self, data: &[OHLC], config: &RegimeConfig) -> (r: Option<RegimeState>)
        ensures
            (final(self)@, r) == old(self)@.detect(data@, *config),
    {
        if data.len() < config.lookback_period {
            return None;
        }
        self.stats = RollingStatistics::new(self.max_buffer_size);
        self.volatility_buffer.clear();
        let n = data.len();
        let mut i: usize = 0;
        proof {
            assert(data@.take(0) == Seq::<OHLC>::empty());
        }
        while i < n
            invariant
                i <= n,
                n == data@.len(),
                self@ == old(self)@.cleared().filled(data@.take(i as int)),
            decreases n - i,
        {
            proof {
                assert(data@.take(i + 1).drop_last() == data@.take(i as int));
            }
            self.stats.update_with_candle(&data[i]);
            if self.stats.is_ready() {
                let vol = self.stats.std_dev();
                self.push_volatility(vol);
            }
            i += 1;
        }
        proof {
            assert(data@.take(n as int) == data@);
        }
        if self.volatility_buffer.len() < 2 {
            return None;
        }
        self.update_percentiles();
        let (regime, found) = self.detect_regime(data);
        let clustering = self.analyze_clustering();
        let confidence = found.saturating_add(clustering.saturating_mul(Price::new(2, 1))).saturating_div(
            Price::new(12, 1),
        ).min(Price::one());
        if confidence.ge(&config.min_confidence) && n > 0 {
            let last_candle = &data[n - 1];
            let state = RegimeState::new(regime, confidence, last_candle.timestamp, last_candle.close);
            self.current_state = Some(state);
            Some(state)
        } else {
            self.current_state
        }
    }

    /// Takes in one more candle; the regime then held, if any, and nothing
    /// before the statistics are ready.
    pub fn update(&mut self, candle: &OHLC, config: &RegimeConfig) -> (r: Option<RegimeState>)
        ensures
            final(self)@ == old(self)@.update(*candle, *config),
            r == if final(self)@.stats.is_ready() {
                final(self)@.current_state
            } else {
                None
            },
    {
        self.stats.update_with_candle(candle);
        let vol = self.stats.std_dev();
        self.push_volatility(vol);
        if !self.stats.is_ready() {
            return None;
        }
        if self.volatility_buffer.len() >= 20 && self.volatility_buffer.len() % 10 == 0 {
            self.update_percentiles();
        }
        let mut recent: Vec<OHLC> = Vec::new();
        recent.push(*candle);
        proof {
            assert(recent@ == seq![*candle]);
        }
        let (regime, found) = self.detect_regime(recent.as_slice());
        let clustering = self.analyze_clustering();
        let confidence = found.saturating_add(clustering.saturating_mul(Price::new(1, 1))).saturating_div(
            Price::new(11, 1),
        );
        self.current_state = VolatilityRegimeDetector::advance_state(
            self.current_state,
            regime,
            confidence,
            candle,
            config.min_confidence,
        );
        self.current_state
    }

    /// The confidence that the candles show the given regime.
    pub fn calculate_confidence(&self, regime: MarketRegime, data: &[OHLC]) -> (r: Price)
        ensures
            r == self@.confidence_in(regime, data@),
    {
        if data.len() == 0 || !self.stats.is_ready() {
            return Price::zero();
        }
        let (detected_regime, confidence) = self.detect_regime(data);
        if detected_regime == regime {
            confidence
        } else {
            Price::one().saturating_sub(confidence)
        }
    }

    /// Forgets everything taken in and goes back to the default percentiles.
    pub fn reset(&mut self)
        ensures
            final(self)@ == DetectorView::fresh(old(self)@.max_buffer_size),
            old(self)@.stats.window == old(self)@.max_buffer_size ==> final(self)@ == DetectorView::fresh(
                old(self)@.stats.window,
            ),
    {
        self.stats = RollingStatistics::new(self.max_buffer_size);
        self.volatility_buffer.clear();
        self.current_state = None;
        self.vol_percentiles = VolatilityPercentiles::default();
    }

    /// The name of the method.
    pub fn name(&self) -> (r: &'static str)
        ensures
            r@ == "VolatilityRegimeDetector"@,
    {
        "VolatilityRegimeDetector"
    }
}

impl RegimeDetector for VolatilityRegimeDetector {
    fn detect(&mut self, data: &[OHLC], config: &RegimeConfig) -> (r: Option<RegimeState>)
        ensures
            (final(self)@, r) == old(self)@.detect(data@, *config),
    {
        VolatilityRegimeDetector::detect(self, data, config)
    }

    fn update(&mut self, candle: &OHLC, config: &RegimeConfig) -> (r: Option<RegimeState>)
        ensures
            final(self)@ == old(self)@.update(*candle, *config),
            r == if final(self)@.stats.is_ready() {
                final(self)@.current_state
            } else {
                None
            },
    {
        VolatilityRegimeDetector::update(self, candle, config)
    }

    fn calculate_confidence(&self, regime: MarketRegime, data: &[OHLC]) -> (r: Price)
        ensures
            r == self@.confidence_in(regime, data@),
    {
        VolatilityRegimeDetector::calculate_confidence(self, regime, data)
    }

    fn reset(&mut self)
        ensures
            final(self)@ == DetectorView::fresh(old(self)@.max_buffer_size),
    {
        VolatilityRegimeDetector::reset(self)
    }

    fn name(&self) -> (r: &str)
        ensures
            r@ == "VolatilityRegimeDetector"@,
    {
        VolatilityRegimeDetector::name(self)
    }
}

} // verus!
