//! Market regimes: the labels, the state of a detected regime, and the
//! record of regimes over time.

use crate::price::lemma_price_repr;
use crate::price::Price;
use crate::price::MAX_MANTISSA;
use std::collections::VecDeque;
use vstd::prelude::*;

pub mod controller;
pub mod detector;
pub mod statistics;
pub mod volatility;

pub use controller::{RegimeController, RegimeSchedule, RegimeSegment, ScheduleInfo, TransitionState};
pub use detector::RegimeDetector;
pub use statistics::RollingStatistics;
pub use volatility::VolatilityRegimeDetector;

verus! {

broadcast use lemma_price_repr;

/// A market state.
#[derive(Debug, Clone, Copy)]
pub enum MarketRegime {
    /// A lasting rise.
    Bull,
    /// A lasting fall.
    Bear,
    /// No lasting direction.
    Sideways,
    /// A market given by its own parameters.
    Normal {
        /// The mean price.
        mean: Price,
        /// The standard deviation, used as the volatility.
        std_dev: Price,
        /// The drift, if any.
        bias: Option<Price>,
    },
}

/// Whether two optional prices are both absent or equal in value.
pub open spec fn same_optional_price(a: Option<Price>, b: Option<Price>) -> bool {
    match (a, b) {
        (Some(x), Some(y)) => x.units() == y.units(),
        (None, None) => true,
        _ => false,
    }
}

impl MarketRegime {
    /// Whether two regimes are the same label, with parameters equal in value.
    pub open spec fn spec_same(self, other: MarketRegime) -> bool {
        match (self, other) {
            (MarketRegime::Bull, MarketRegime::Bull) => true,
            (MarketRegime::Bear, MarketRegime::Bear) => true,
            (MarketRegime::Sideways, MarketRegime::Sideways) => true,
            (
                MarketRegime::Normal { mean: m1, std_dev: s1, bias: b1 },
                MarketRegime::Normal { mean: m2, std_dev: s2, bias: b2 },
            ) => m1.units() == m2.units() && s1.units() == s2.units() && same_optional_price(b1, b2),
            _ => false,
        }
    }

    /// Sameness of regimes does not depend on the side from which it is
    /// asked.
    pub proof fn lemma_same_is_symmetric(self, other: MarketRegime)
        ensures
            self.spec_same(other) == other.spec_same(self),
    {
    }

    pub open spec fn spec_volatility_factor(self) -> Price {
        match self {
            MarketRegime::Bull => Price::from_repr(8, 1),
            MarketRegime::Bear => Price::from_repr(12, 1),
            MarketRegime::Sideways => Price::spec_one(),
            MarketRegime::Normal { std_dev, .. } => std_dev,
        }
    }

    pub open spec fn spec_drift_factor(self) -> Price {
        match self {
            MarketRegime::Bull => Price::from_repr(5, 3),
            MarketRegime::Bear => Price::from_repr(-5, 3),
            MarketRegime::Sideways => Price::spec_zero(),
            MarketRegime::Normal { bias, .. } => match bias {
                Some(b) => b,
                None => Price::spec_zero(),
            },
        }
    }

    /// The regime in words.
    pub fn description(&self) -> (r: &'static str)
        ensures
            r@ == (match self {
                MarketRegime::Bull => "Bull market - upward trend"@,
                MarketRegime::Bear => "Bear market - downward trend"@,
                MarketRegime::Sideways => "Sideways market - ranging"@,
                MarketRegime::Normal { .. } => "Normal market - volatility-based regime"@,
            }),
    {
        match self {
            MarketRegime::Bull => "Bull market - upward trend",
            MarketRegime::Bear => "Bear market - downward trend",
            MarketRegime::Sideways => "Sideways market - ranging",
            MarketRegime::Normal { .. } => "Normal market - volatility-based regime",
        }
    }

    /// The factor by which the regime scales volatility: 0.8 for a bull, 1.2
    /// for a bear and 1 for a sideways market.
    pub fn volatility_factor(&self) -> (r: Price)
        ensures
            r == self.spec_volatility_factor(),
    {
        match self {
            MarketRegime::Bull => Price::new(8, 1),
            MarketRegime::Bear => Price::new(12, 1),
            MarketRegime::Sideways => Price::one(),
            MarketRegime::Normal { std_dev, .. } => *std_dev,
        }
    }

    /// The drift that is typical of the regime: 0.005 for a bull, -0.005 for
    /// a bear and none for a sideways market.
    pub fn drift_factor(&self) -> (r: Price)
        ensures
            r == self.spec_drift_factor(),
    {
        match self {
            MarketRegime::Bull => Price::new(5, 3),
            MarketRegime::Bear => Price::new(-5, 3),
            MarketRegime::Sideways => Price::zero(),
            MarketRegime::Normal { bias, .. } => match bias {
                Some(b) => *b,
                None => Price::zero(),
            },
        }
    }
}

impl PartialEq for MarketRegime {
    fn eq(&self, other: &MarketRegime) -> (r: bool) {
        match (*self, *other) {
            (MarketRegime::Bull, MarketRegime::Bull) => true,
            (MarketRegime::Bear, MarketRegime::Bear) => true,
            (MarketRegime::Sideways, MarketRegime::Sideways) => true,
            (
                MarketRegime::Normal { mean: m1, std_dev: s1, bias: b1 },
                MarketRegime::Normal { mean: m2, std_dev: s2, bias: b2 },
            ) => {
                let biases = match (b1, b2) {
                    (Some(x), Some(y)) => x.same_value(&y),
                    (None, None) => true,
                    _ => false,
                };
                m1.same_value(&m2) && s1.same_value(&s2) && biases
            },
            _ => false,
        }
    }
}

impl vstd::std_specs::cmp::PartialEqSpecImpl for MarketRegime {
    open spec fn obeys_eq_spec() -> bool {
        true
    }

    open spec fn eq_spec(&self, other: &MarketRegime) -> bool {
        self.spec_same(*other)
    }
}

/// Whether two optional regimes are both absent or the same.
pub open spec fn same_optional_regime(a: Option<MarketRegime>, b: Option<MarketRegime>) -> bool {
    match (a, b) {
        (Some(x), Some(y)) => x.spec_same(y),
        (None, None) => true,
        _ => false,
    }
}

/// Whether two optional regimes are both absent or the same.
pub fn optional_regimes_match(a: Option<MarketRegime>, b: Option<MarketRegime>) -> (r: bool)
    ensures
        r == same_optional_regime(a, b),
{
    match (a, b) {
        (Some(x), Some(y)) => x == y,
        (None, None) => true,
        _ => false,
    }
}

/// `n + 1`, or `n` where that is the largest number.
pub open spec fn bump(n: usize) -> usize {
    if n < usize::MAX {
        (n + 1) as usize
    } else {
        n
    }
}

/// A regime that holds, with the confidence in it and since when it holds.
#[derive(Debug, Clone, Copy)]
pub struct RegimeState {
    pub current_regime: MarketRegime,
    /// Between zero and one.
    pub confidence: Price,
    /// The number of periods that the regime has held.
    pub duration: usize,
    pub start_timestamp: i64,
    pub start_price: Price,
}

impl RegimeState {
    /// A regime in its first period.
    pub fn new(regime: MarketRegime, confidence: Price, timestamp: i64, price: Price) -> (r: RegimeState)
        ensures
            r == (RegimeState {
                current_regime: regime,
                confidence,
                duration: 1,
                start_timestamp: timestamp,
                start_price: price,
            }),
    {
        RegimeState {
            current_regime: regime,
            confidence,
            duration: 1,
            start_timestamp: timestamp,
            start_price: price,
        }
    }

    /// Counts one more period.
    pub fn increment_duration(&mut self)
        ensures
            *final(self) == (RegimeState { duration: bump(old(self).duration), ..*old(self) }),
    {
        if self.duration < usize::MAX {
            self.duration += 1;
        }
    }

    /// A change is due only to another regime than the current one: where it
    /// is found with a confidence above 0.6, or where the confidence in the
    /// current one is below 0.3. A finding of the current regime is never a
    /// change.
    pub open spec fn spec_should_transition(self, new_regime: MarketRegime, new_confidence: Price) -> bool {
        !new_regime.spec_same(self.current_regime) && (new_confidence.units() > Price::from_repr(6, 1).units()
            || self.confidence.units() < Price::from_repr(3, 1).units())
    }

    /// Whether the state should change to the regime found.
    pub fn should_transition(&self, new_regime: MarketRegime, new_confidence: Price) -> (r: bool)
        ensures
            r == self.spec_should_transition(new_regime, new_confidence),
            new_regime.spec_same(self.current_regime) ==> !r,
    {
        new_regime != self.current_regime && (new_confidence.gt(&Price::new(6, 1)) || self.confidence.lt(
            &Price::new(3, 1),
        ))
    }

    /// Starts the first period of another regime.
    pub fn transition(&mut self, new_regime: MarketRegime, confidence: Price, timestamp: i64, price: Price)
        ensures
            *final(self) == (RegimeState {
                current_regime: new_regime,
                confidence,
                duration: 1,
                start_timestamp: timestamp,
                start_price: price,
            }),
    {
        self.current_regime = new_regime;
        self.confidence = confidence;
        self.duration = 1;
        self.start_timestamp = timestamp;
        self.start_price = price;
    }
}

/// The parameters of regime detection.
#[derive(Debug, Clone, Copy)]
pub struct RegimeConfig {
    /// The number of candles a detection looks back on.
    pub lookback_period: usize,
    pub bull_threshold: Price,
    pub bear_threshold: Price,
    /// The least confidence with which a first regime is reported.
    pub min_confidence: Price,
    pub use_volatility: bool,
    pub window_size: usize,
}

impl Default for RegimeConfig {
    fn default() -> (r: RegimeConfig)
        ensures
            r == RegimeConfig::spec_default(),
    {
        RegimeConfig {
            lookback_period: 20,
            bull_threshold: Price::new(2, 2),
            bear_threshold: Price::new(-2, 2),
            min_confidence: Price::new(6, 1),
            use_volatility: true,
            window_size: 20,
        }
    }
}

impl RegimeConfig {
    pub open spec fn spec_default() -> RegimeConfig {
        RegimeConfig {
            lookback_period: 20,
            bull_threshold: Price::from_repr(2, 2),
            bear_threshold: Price::from_repr(-2, 2),
            min_confidence: Price::from_repr(6, 1),
            use_volatility: true,
            window_size: 20,
        }
    }
}

/// The last `max` items of `s`.
pub open spec fn keep_last<T>(s: Seq<T>, max: nat) -> Seq<T> {
    if s.len() > max {
        s.skip(s.len() - max)
    } else {
        s
    }
}

/// The sum of the durations.
pub open spec fn total_duration(history: Seq<RegimeState>) -> int
    decreases history.len(),
{
    if history.len() == 0 {
        0
    } else {
        total_duration(history.drop_last()) + history.last().duration
    }
}

/// The three classes of the distribution: a market given by its own
/// parameters counts as sideways.
#[derive(Debug, Clone, Copy, PartialEq, Eq, Structural)]
pub enum RegimeClass {
    Bull,
    Bear,
    Sideways,
}

pub open spec fn class_of(regime: MarketRegime) -> RegimeClass {
    match regime {
        MarketRegime::Bull => RegimeClass::Bull,
        MarketRegime::Bear => RegimeClass::Bear,
        MarketRegime::Sideways => RegimeClass::Sideways,
        MarketRegime::Normal { .. } => RegimeClass::Sideways,
    }
}

/// The sum of the durations of the states of one class.
pub open spec fn class_duration(history: Seq<RegimeState>, class: RegimeClass) -> int
    decreases history.len(),
{
    if history.len() == 0 {
        0
    } else {
        class_duration(history.drop_last(), class) + if class_of(history.last().current_regime) == class {
            history.last().duration as int
        } else {
            0
        }
    }
}

/// A count as a price: the count itself, or the largest price where the
/// count is above it.
pub open spec fn price_of_count(n: int) -> Price {
    if n > MAX_MANTISSA {
        Price::spec_max_value()
    } else {
        Price::from_repr(n, 0)
    }
}

/// A count as a price.
pub fn count_as_price(n: u128) -> (r: Price)
    ensures
        r == price_of_count(n as int),
{
    if n > MAX_MANTISSA as u128 {
        Price::max_value()
    } else {
        match Price::from_parts(n as i128, 0) {
            Some(p) => p,
            None => Price::max_value(),
        }
    }
}

/// The number of places at which a regime is followed by another one.
pub open spec fn regime_changes(regimes: Seq<MarketRegime>) -> nat
    decreases regimes.len(),
{
    if regimes.len() < 2 {
        0
    } else {
        regime_changes(regimes.drop_last()) + if regimes[regimes.len() - 2].spec_same(regimes.last()) {
            0nat
        } else {
            1nat
        }
    }
}

/// What a tracker holds.
pub struct TrackerView {
    pub history: Seq<RegimeState>,
    pub max_history: nat,
    pub transitions: nat,
}

impl TrackerView {
    /// The tracker after one more state: a change of regime against the last
    /// state held is counted, the state is added, and the oldest states
    /// leave until no more than `max_history` are held.
    pub open spec fn record(self, state: RegimeState) -> TrackerView {
        TrackerView {
            history: keep_last(self.history.push(state), self.max_history),
            max_history: self.max_history,
            transitions: if self.history.len() > 0 && !self.history.last().current_regime.spec_same(
                state.current_regime,
            ) {
                self.transitions + 1
            } else {
                self.transitions
            },
        }
    }

    /// The tracker after one more state, as a machine counts: the count of
    /// changes stops at the largest number.
    pub open spec fn record_capped(self, state: RegimeState) -> TrackerView {
        let recorded = self.record(state);
        TrackerView {
            transitions: if recorded.transitions > usize::MAX {
                usize::MAX as nat
            } else {
                recorded.transitions
            },
            ..recorded
        }
    }

    /// The tracker after the states, recorded in order from an empty one.
    pub open spec fn after(max_history: nat, states: Seq<RegimeState>) -> TrackerView
        decreases states.len(),
    {
        if states.len() == 0 {
            TrackerView { history: Seq::empty(), max_history, transitions: 0 }
        } else {
            TrackerView::after(max_history, states.drop_last()).record(states.last())
        }
    }
}

/// The regimes of the states, in order.
pub open spec fn regimes_of(states: Seq<RegimeState>) -> Seq<MarketRegime> {
    states.map_values(|s: RegimeState| s.current_regime)
}

/// A tracker that keeps at least one state counts exactly the changes of
/// regime among the states recorded, and holds the last of them.
pub proof fn lemma_transitions_count_changes(max_history: nat, states: Seq<RegimeState>)
    requires
        max_history > 0,
    ensures
        TrackerView::after(max_history, states).transitions == regime_changes(regimes_of(states)),
        TrackerView::after(max_history, states).max_history == max_history,
        TrackerView::after(max_history, states).history.len() <= max_history,
        states.len() > 0 ==> TrackerView::after(max_history, states).history.len() > 0 && TrackerView::after(
            max_history,
            states,
        ).history.last() == states.last(),
    decreases states.len(),
{
    if states.len() > 0 {
        let before = states.drop_last();
        lemma_transitions_count_changes(max_history, before);
        let prior = TrackerView::after(max_history, before);
        let pushed = prior.history.push(states.last());
        assert(TrackerView::after(max_history, states).history == keep_last(pushed, max_history));
        assert(keep_last(pushed, max_history).len() <= max_history);
        assert(keep_last(pushed, max_history).last() == states.last());
        assert(regimes_of(states).drop_last() == regimes_of(before));
        assert(regimes_of(states).last() == states.last().current_regime);
        if states.len() >= 2 {
            assert(regimes_of(states)[states.len() - 2] == before.last().current_regime);
            assert(prior.history.last() == before.last());
        } else {
            assert(prior.history.len() == 0);
        }
    } else {
        assert(TrackerView::after(max_history, states).history.len() == 0);
    }
}

/// Records the regimes found over time.
#[derive(Debug, Clone)]
pub struct RegimeTracker {
    /// The states recorded, oldest first.
    pub history: VecDeque<RegimeState>,
    /// The number of states kept.
    pub max_history: usize,
    /// The number of changes of regime seen.
    pub transitions: usize,
}

impl View for RegimeTracker {
    type V = TrackerView;

    open spec fn view(&self) -> TrackerView {
        TrackerView {
            history: self.history@,
            max_history: self.max_history as nat,
            transitions: self.transitions as nat,
        }
    }
}

impl RegimeTracker {
    /// An empty tracker that keeps the last `max_history` states.
    pub fn new(max_history: usize) -> (r: RegimeTracker)
        ensures
            r@ == (TrackerView { history: Seq::empty(), max_history: max_history as nat, transitions: 0 }),
    {
        RegimeTracker { history: VecDeque::with_capacity(max_history), max_history, transitions: 0 }
    }

    /// Records a state. The count of changes stops at the largest number.
    pub fn record(&mut self, state: RegimeState)
        ensures
            final(self)@ == old(self)@.record_capped(state),
            old(self)@.transitions < usize::MAX ==> final(self)@ == old(self)@.record(state),
    {
        let n = self.history.len();
        if n > 0 {
            let last = self.history[n - 1];
            if last.current_regime != state.current_regime {
                if self.transitions < usize::MAX {
                    self.transitions += 1;
                }
            }
        }
        self.history.push_back(state);
        let ghost pushed = self.history@;
        while self.history.len() > self.max_history
            invariant
                self.max_history == old(self).max_history,
                self.transitions == if old(self)@.record(state).transitions > usize::MAX {
                    usize::MAX
                } else {
                    old(self)@.record(state).transitions as usize
                },
                pushed == old(self).history@.push(state),
                self.history@.len() <= pushed.len(),
                self.history@.len() >= self.max_history || self.history@.len() == pushed.len(),
                self.history@ == pushed.skip(pushed.len() - self.history@.len()),
            decreases self.history@.len(),
        {
            let ghost before = self.history@;
            let _ = self.history.pop_front();
            proof {
                assert(before.subrange(1, before.len() as int) == pushed.skip(
                    pushed.len() - before.len() + 1,
                ));
            }
        }
        proof {
            assert(pushed.skip(0) == pushed);
        }
    }

    /// The state recorded last.
    pub fn current(&self) -> (r: Option<&RegimeState>)
        ensures
            match r {
                Some(s) => self@.history.len() > 0 && *s == self@.history.last(),
                None => self@.history.len() == 0,
            },
    {
        let n = self.history.len();
        if n > 0 {
            Some(&self.history[n - 1])
        } else {
            None
        }
    }

    /// The mean duration of the states held; zero where none is held.
    pub fn average_duration(&self) -> (r: Price)
        ensures
            r == if self@.history.len() == 0 {
                Price::spec_zero()
            } else {
                price_of_count(total_duration(self@.history)).spec_div(
                    Price::from_repr(self@.history.len() as int, 0),
                )
            },
    {
        let n = self.history.len();
        if n == 0 {
            return Price::zero();
        }
        let mut total: u128 = 0;
        let mut i: usize = 0;
        while i < n
            invariant
                i <= n,
                n == self.history@.len(),
                total == total_duration(self.history@.take(i as int)),
                total <= i * usize::MAX,
            decreases n - i,
        {
            proof {
                assert(self.history@.take(i + 1).drop_last() == self.history@.take(i as int));
                lemma_duration_bound(i as int);
            }
            total = total + self.history[i].duration as u128;
            i += 1;
        }
        proof {
            assert(self.history@.take(n as int) == self.history@);
        }
        count_as_price(total).saturating_div(Price::from_usize(n))
    }

    /// The sum of the durations of the states of one class.
    fn duration_in(&self, class: RegimeClass) -> (r: u128)
        ensures
            r == class_duration(self@.history, class),
            r <= total_duration(self@.history),
            total_duration(self@.history) <= self@.history.len() * usize::MAX,
    {
        let n = self.history.len();
        let mut sum: u128 = 0;
        let ghost mut total: int = 0;
        let mut i: usize = 0;
        while i < n
            invariant
                i <= n,
                n == self.history@.len(),
                sum == class_duration(self.history@.take(i as int), class),
                total == total_duration(self.history@.take(i as int)),
                sum <= total,
                total <= i * usize::MAX,
            decreases n - i,
        {
            proof {
                assert(self.history@.take(i + 1).drop_last() == self.history@.take(i as int));
                lemma_duration_bound(i as int);
                total = total + self.history@[i as int].duration;
            }
            let state = self.history[i];
            let counts = match state.current_regime {
                MarketRegime::Bull => class == RegimeClass::Bull,
                MarketRegime::Bear => class == RegimeClass::Bear,
                MarketRegime::Sideways => class == RegimeClass::Sideways,
                MarketRegime::Normal { .. } => class == RegimeClass::Sideways,
            };
            if counts {
                sum = sum + state.duration as u128;
            }
            i += 1;
        }
        proof {
            assert(self.history@.take(n as int) == self.history@);
        }
        sum
    }

    pub open spec fn spec_regime_distribution(history: Seq<RegimeState>) -> (Price, Price, Price) {
        let bull = class_duration(history, RegimeClass::Bull);
        let bear = class_duration(history, RegimeClass::Bear);
        let sideways = class_duration(history, RegimeClass::Sideways);
        let total = bull + bear + sideways;
        if history.len() == 0 || total == 0 {
            (Price::spec_zero(), Price::spec_zero(), Price::spec_zero())
        } else {
            (
                price_of_count(bull).spec_div(price_of_count(total)),
                price_of_count(bear).spec_div(price_of_count(total)),
                price_of_count(sideways).spec_div(price_of_count(total)),
            )
        }
    }

    /// The share of the recorded periods spent in bull, bear and sideways
    /// regimes; zeros where nothing was recorded.
    pub fn regime_distribution(&self) -> (r: (Price, Price, Price))
        ensures
            r == RegimeTracker::spec_regime_distribution(self@.history),
    {
        if self.history.len() == 0 {
            return (Price::zero(), Price::zero(), Price::zero());
        }
        let bull = self.duration_in(RegimeClass::Bull);
        let bear = self.duration_in(RegimeClass::Bear);
        let sideways = self.duration_in(RegimeClass::Sideways);
        proof {
            lemma_classes_partition(self@.history);
            lemma_duration_bound(self@.history.len() as int);
        }
        let total = bull + bear + sideways;
        if total == 0 {
            return (Price::zero(), Price::zero(), Price::zero());
        }
        let whole = count_as_price(total);
        (
            count_as_price(bull).saturating_div(whole),
            count_as_price(bear).saturating_div(whole),
            count_as_price(sideways).saturating_div(whole),
        )
    }
}

/// The durations of as many states as a machine can count add up to less
/// than `2^128`.
pub proof fn lemma_duration_bound(n: int)
    requires
        0 <= n <= usize::MAX,
    ensures
        (n + 1) * usize::MAX == n * usize::MAX + usize::MAX,
        n * usize::MAX + usize::MAX <= u128::MAX,
{
    assert((n + 1) * usize::MAX == n * usize::MAX + usize::MAX) by (nonlinear_arith);
    assert(n * usize::MAX <= 0xFFFF_FFFF_FFFF_FFFF * 0xFFFF_FFFF_FFFF_FFFF) by (nonlinear_arith)
        requires
            0 <= n <= 0xFFFF_FFFF_FFFF_FFFF,
            0 <= usize::MAX <= 0xFFFF_FFFF_FFFF_FFFF,
    ;
}

/// Every state falls in exactly one class.
pub proof fn lemma_classes_partition(history: Seq<RegimeState>)
    ensures
        class_duration(history, RegimeClass::Bull) + class_duration(history, RegimeClass::Bear) + class_duration(
            history,
            RegimeClass::Sideways,
        ) == total_duration(history),
    decreases history.len(),
{
    if history.len() > 0 {
        lemma_classes_partition(history.drop_last());
    }
}

} // verus!
