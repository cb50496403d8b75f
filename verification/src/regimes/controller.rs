//! Scheduled regimes: a queue of segments, the transitions between them and
//! the controller that turns both into the configuration in force.

use crate::config::{GeneratorConfig, TrendDirection};
use crate::price::lemma_price_repr;
use crate::price::Price;
use crate::regimes::{bump, optional_regimes_match, same_optional_regime, MarketRegime};
use std::collections::VecDeque;
use vstd::prelude::*;

verus! {

broadcast use lemma_price_repr;

/// A stretch of steps under one regime.
#[derive(Debug, Clone, Copy)]
pub struct RegimeSegment {
    pub regime: MarketRegime,
    /// The number of steps.
    pub duration: usize,
    /// The parameters of the regime; trend and volatility are taken from it.
    pub config: GeneratorConfig,
    /// The number of steps over which the parameters move to those of this
    /// segment; without one, or with zero, they change at once.
    pub transition_duration: Option<usize>,
}

/// The parameters that stand for a regime where none are given: a bull market
/// rises by 0.5% per step at 1.5% volatility, a bear market falls by 0.7% at
/// 2.5%, a sideways market has no drift at 1%; a market given by its own
/// parameters takes its bias as drift and its standard deviation as
/// volatility.
pub open spec fn regime_defaults(regime: MarketRegime) -> GeneratorConfig {
    match regime {
        MarketRegime::Bull => GeneratorConfig {
            trend_direction: TrendDirection::Bullish,
            trend_strength: Price::from_repr(5, 3),
            volatility: Price::from_repr(15, 3),
            ..GeneratorConfig::spec_default()
        },
        MarketRegime::Bear => GeneratorConfig {
            trend_direction: TrendDirection::Bearish,
            trend_strength: Price::from_repr(7, 3),
            volatility: Price::from_repr(25, 3),
            ..GeneratorConfig::spec_default()
        },
        MarketRegime::Sideways => GeneratorConfig {
            trend_direction: TrendDirection::Sideways,
            trend_strength: Price::spec_zero(),
            volatility: Price::from_repr(10, 3),
            ..GeneratorConfig::spec_default()
        },
        MarketRegime::Normal { mean, std_dev, bias } => GeneratorConfig {
            trend_direction: TrendDirection::Sideways,
            trend_strength: match bias {
                Some(b) => b,
                None => Price::spec_zero(),
            },
            volatility: std_dev,
            ..GeneratorConfig::spec_default()
        },
    }
}

impl RegimeSegment {
    pub open spec fn spec_new(regime: MarketRegime, duration: usize) -> RegimeSegment {
        RegimeSegment { regime, duration, config: regime_defaults(regime), transition_duration: None }
    }

    /// A segment with the parameters that stand for its regime.
    pub fn new(regime: MarketRegime, duration: usize) -> (r: RegimeSegment)
        ensures
            r == RegimeSegment::spec_new(regime, duration),
    {
        RegimeSegment {
            regime,
            duration,
            config: RegimeSegment::default_config_for_regime(regime),
            transition_duration: None,
        }
    }

    /// A segment with parameters of its own.
    pub fn with_config(regime: MarketRegime, duration: usize, config: GeneratorConfig) -> (r: RegimeSegment)
        ensures
            r == (RegimeSegment { regime, duration, config, transition_duration: None }),
    {
        RegimeSegment { regime, duration, config, transition_duration: None }
    }

    /// The segment with a transition of the given number of steps.
    pub fn with_transition(self, transition_duration: usize) -> (r: RegimeSegment)
        ensures
            r == (RegimeSegment { transition_duration: Some(transition_duration), ..self }),
    {
        let mut segment = self;
        segment.transition_duration = Some(transition_duration);
        segment
    }

    /// The parameters that stand for a regime.
    pub fn default_config_for_regime(regime: MarketRegime) -> (r: GeneratorConfig)
        ensures
            r == regime_defaults(regime),
    {
        let mut config = GeneratorConfig::default();
        match regime {
            MarketRegime::Bull => {
                config.trend_direction = TrendDirection::Bullish;
                config.trend_strength = Price::new(5, 3);
                config.volatility = Price::new(15, 3);
            },
            MarketRegime::Bear => {
                config.trend_direction = TrendDirection::Bearish;
                config.trend_strength = Price::new(7, 3);
                config.volatility = Price::new(25, 3);
            },
            MarketRegime::Sideways => {
                config.trend_direction = TrendDirection::Sideways;
                config.trend_strength = Price::zero();
                config.volatility = Price::new(10, 3);
            },
            MarketRegime::Normal { mean, std_dev, bias } => {
                config.trend_direction = TrendDirection::Sideways;
                config.trend_strength = match bias {
                    Some(b) => b,
                    None => Price::zero(),
                };
                config.volatility = std_dev;
            },
        }
        config
    }
}

/// The sum of the durations of the segments.
pub open spec fn durations_sum(segments: Seq<RegimeSegment>) -> nat
    decreases segments.len(),
{
    if segments.len() == 0 {
        0
    } else {
        segments[0].duration as nat + durations_sum(segments.skip(1))
    }
}

/// What a schedule holds.
pub struct ScheduleView {
    /// The segments still to come, the current one first.
    pub segments: Seq<RegimeSegment>,
    /// The steps taken in the current segment.
    pub progress: usize,
    /// The steps taken in all.
    pub total: usize,
    /// Whether the schedule starts again when it runs out.
    pub repeat: bool,
    /// The segments the schedule starts again from.
    pub original: Seq<RegimeSegment>,
}

impl ScheduleView {
    /// A schedule before its first step.
    pub open spec fn fresh(segments: Seq<RegimeSegment>, repeat: bool) -> ScheduleView {
        ScheduleView { segments, progress: 0, total: 0, repeat, original: segments }
    }

    /// The schedule after one step: the step is counted; where that fills
    /// the current segment, the segment leaves and the count in the segment
    /// starts again; where none is left and the schedule repeats, the
    /// original segments come back.
    pub open spec fn advance(self) -> ScheduleView {
        let progress = bump(self.progress);
        let total = bump(self.total);
        if self.segments.len() > 0 && progress >= self.segments[0].duration {
            let rest = self.segments.skip(1);
            ScheduleView {
                segments: if rest.len() == 0 && self.repeat {
                    self.original
                } else {
                    rest
                },
                progress: 0,
                total,
                ..self
            }
        } else {
            ScheduleView { progress, total, ..self }
        }
    }

    /// The schedule after `n` steps.
    pub open spec fn after_steps(self, n: nat) -> ScheduleView
        decreases n,
    {
        if n == 0 {
            self
        } else {
            self.advance().after_steps((n - 1) as nat)
        }
    }

    /// A schedule is complete when no segment is left and it does not repeat.
    pub open spec fn is_complete(self) -> bool {
        self.segments.len() == 0 && !self.repeat
    }

    pub open spec fn current_regime(self) -> Option<MarketRegime> {
        if self.segments.len() > 0 {
            Some(self.segments[0].regime)
        } else {
            None
        }
    }

    /// Steps add up: `a + b` steps are `a` steps and then `b` steps.
    pub proof fn lemma_after_steps_add(self, a: nat, b: nat)
        ensures
            self.after_steps(a + b) == self.after_steps(a).after_steps(b),
        decreases a,
    {
        if a > 0 {
            self.advance().lemma_after_steps_add((a - 1) as nat, b);
        }
    }

    /// The steps that are left in the current segment end it, and no fewer
    /// do: until then the segments stay as they are, and then the head leaves.
    pub proof fn lemma_finish_head(self, k: nat)
        requires
            self.segments.len() > 0,
            self.progress < self.segments[0].duration,
            k == self.segments[0].duration - self.progress,
        ensures
            self.after_steps(k).progress == 0,
            self.after_steps(k).repeat == self.repeat,
            self.after_steps(k).original == self.original,
            self.after_steps(k).segments == (if self.segments.len() == 1 && self.repeat {
                self.original
            } else {
                self.segments.skip(1)
            }),
            forall|j: nat| j < k ==> (#[trigger] self.after_steps(j)).segments == self.segments,
        decreases k,
    {
        let next = self.advance();
        if k == 1 {
            assert(self.after_steps(1) == next.after_steps(0));
            assert forall|j: nat| j < k implies (#[trigger] self.after_steps(j)).segments == self.segments by {
                assert(j == 0);
            }
        } else {
            next.lemma_finish_head((k - 1) as nat);
            assert(self.after_steps(k) == next.after_steps((k - 1) as nat));
            assert forall|j: nat| j < k implies (#[trigger] self.after_steps(j)).segments == self.segments by {
                if j > 0 {
                    assert(self.after_steps(j) == next.after_steps((j - 1) as nat));
                }
            }
        }
    }

    /// A schedule that does not repeat, whose segments all last at least one
    /// step, is complete after as many steps as its segments last in all,
    /// and not before.
    pub proof fn lemma_completes_after_total(self)
        requires
            !self.repeat,
            self.progress == 0,
            forall|i: int| 0 <= i < self.segments.len() ==> (#[trigger] self.segments[i]).duration >= 1,
        ensures
            self.after_steps(durations_sum(self.segments)).is_complete(),
            forall|j: nat| j < durations_sum(self.segments) ==> !(#[trigger] self.after_steps(j)).is_complete(),
        decreases self.segments.len(),
    {
        if self.segments.len() > 0 {
            let d = self.segments[0].duration as nat;
            let rest = self.segments.skip(1);
            self.lemma_finish_head(d);
            let then = self.after_steps(d);
            assert(then.segments == rest);
            assert forall|i: int| 0 <= i < rest.len() implies (#[trigger] rest[i]).duration >= 1 by {
                assert(rest[i] == self.segments[i + 1]);
            }
            then.lemma_completes_after_total();
            self.lemma_after_steps_add(d, durations_sum(rest));
            assert forall|j: nat| j < durations_sum(self.segments) implies !(#[trigger] self.after_steps(
                j,
            )).is_complete() by {
                if j >= d {
                    self.lemma_after_steps_add(d, (j - d) as nat);
                    assert(!then.after_steps((j - d) as nat).is_complete());
                }
            }
        }
    }

    /// Every step is counted: after `n` steps the total is `n` more, or
    /// the largest number where that is less.
    pub proof fn lemma_total_progress(self, n: nat)
        ensures
            self.after_steps(n).total == (if self.total + n > usize::MAX {
                usize::MAX as int
            } else {
                self.total + n
            }),
        decreases n,
    {
        if n > 0 {
            self.advance().lemma_total_progress((n - 1) as nat);
        }
    }

    /// A schedule that repeats is never complete.
    pub proof fn lemma_repeating_never_completes(self, n: nat)
        requires
            self.repeat,
        ensures
            self.after_steps(n).repeat,
            !self.after_steps(n).is_complete(),
        decreases n,
    {
        if n > 0 {
            self.advance().lemma_repeating_never_completes((n - 1) as nat);
        }
    }
}

/// A queue of segments that can start again from its original form.
#[derive(Debug, Clone)]
pub struct RegimeSchedule {
    segments: VecDeque<RegimeSegment>,
    current_segment_progress: usize,
    total_progress: usize,
    repeat: bool,
    original_segments: Vec<RegimeSegment>,
}

impl View for RegimeSchedule {
    type V = ScheduleView;

    closed spec fn view(&self) -> ScheduleView {
        ScheduleView {
            segments: self.segments@,
            progress: self.current_segment_progress,
            total: self.total_progress,
            repeat: self.repeat,
            original: self.original_segments@,
        }
    }
}

/// A queue with the items of `items`, in order.
fn queue_of(items: &Vec<RegimeSegment>) -> (r: VecDeque<RegimeSegment>)
    ensures
        r@ == items@,
{
    let mut queue: VecDeque<RegimeSegment> = VecDeque::new();
    let mut i: usize = 0;
    while i < items.len()
        invariant
            i <= items@.len(),
            queue@ == items@.take(i as int),
        decreases items@.len() - i,
    {
        queue.push_back(items[i]);
        proof {
            assert(items@.take(i as int).push(items@[i as int]) == items@.take(i + 1));
        }
        i += 1;
    }
    proof {
        assert(items@.take(items@.len() as int) == items@);
    }
    queue
}

/// The share `part / whole` as a price.
pub open spec fn ratio(part: usize, whole: usize) -> Price {
    Price::from_repr(part as int, 0).spec_div(Price::from_repr(whole as int, 0))
}

impl RegimeSchedule {
    /// A schedule that runs once.
    pub fn new(segments: Vec<RegimeSegment>) -> (r: RegimeSchedule)
        ensures
            r@ == ScheduleView::fresh(segments@, false),
    {
        let queue = queue_of(&segments);
        RegimeSchedule {
            segments: queue,
            current_segment_progress: 0,
            total_progress: 0,
            repeat: false,
            original_segments: segments,
        }
    }

    /// A schedule that starts again when it runs out.
    pub fn repeating(segments: Vec<RegimeSegment>) -> (r: RegimeSchedule)
        ensures
            r@ == ScheduleView::fresh(segments@, true),
    {
        let mut schedule = RegimeSchedule::new(segments);
        schedule.repeat = true;
        schedule
    }

    /// The segment in force.
    pub fn current_segment(&self) -> (r: Option<&RegimeSegment>)
        ensures
            match r {
                Some(s) => self@.segments.len() > 0 && *s == self@.segments[0],
                None => self@.segments.len() == 0,
            },
    {
        if self.segments.len() > 0 {
            Some(&self.segments[0])
        } else {
            None
        }
    }

    /// Takes one step and returns the segment then in force.
    pub fn advance(&mut self) -> (r: Option<RegimeSegment>)
        ensures
            final(self)@ == old(self)@.advance(),
            match r {
                Some(s) => final(self)@.segments.len() > 0 && s == final(self)@.segments[0],
                None => final(self)@.segments.len() == 0,
            },
    {
        if self.current_segment_progress < usize::MAX {
            self.current_segment_progress += 1;
        }
        if self.total_progress < usize::MAX {
            self.total_progress += 1;
        }
        if self.segments.len() > 0 {
            let duration = self.segments[0].duration;
            if self.current_segment_progress >= duration {
                let _ = self.segments.pop_front();
                self.current_segment_progress = 0;
                proof {
                    assert(self.segments@ == old(self)@.segments.skip(1));
                }
                if self.segments.len() == 0 && self.repeat {
                    self.segments = queue_of(&self.original_segments);
                }
            }
        }
        if self.segments.len() > 0 {
            Some(self.segments[0])
        } else {
            None
        }
    }

    pub open spec fn spec_segment_progress(view: ScheduleView) -> Price {
        if view.segments.len() > 0 && view.segments[0].duration != 0 {
            ratio(view.progress, view.segments[0].duration)
        } else {
            Price::spec_one()
        }
    }

    /// The share of the current segment that is done; one where no segment
    /// is in force or it lasts no step.
    pub fn current_segment_progress(&self) -> (r: Price)
        ensures
            r == RegimeSchedule::spec_segment_progress(self@),
    {
        if self.segments.len() > 0 {
            let duration = self.segments[0].duration;
            if duration == 0 {
                Price::one()
            } else {
                Price::from_usize(self.current_segment_progress).saturating_div(Price::from_usize(duration))
            }
        } else {
            Price::one()
        }
    }

    /// The number of steps taken; it stops at the largest number.
    pub fn total_progress(&self) -> (r: usize)
        ensures
            r == self@.total,
    {
        self.total_progress
    }

    pub fn is_complete(&self) -> (r: bool)
        ensures
            r == self@.is_complete(),
    {
        self.segments.len() == 0 && !self.repeat
    }

    /// Puts the schedule back to its original segments, before the first step.
    pub fn reset(&mut self)
        ensures
            final(self)@ == ScheduleView::fresh(old(self)@.original, old(self)@.repeat),
    {
        self.segments = queue_of(&self.original_segments);
        self.current_segment_progress = 0;
        self.total_progress = 0;
    }

    /// Adds a segment at the end, of the queue and of the original segments.
    pub fn add_segment(&mut self, segment: RegimeSegment)
        ensures
            final(self)@ == (ScheduleView {
                segments: old(self)@.segments.push(segment),
                original: old(self)@.original.push(segment),
                ..old(self)@
            }),
    {
        self.segments.push_back(segment);
        self.original_segments.push(segment);
    }

    /// The segments still to come, the current one first.
    pub fn remaining_segments(&self) -> (r: Vec<RegimeSegment>)
        ensures
            r@ == self@.segments,
    {
        let mut out: Vec<RegimeSegment> = Vec::new();
        let mut i: usize = 0;
        while i < self.segments.len()
            invariant
                i <= self.segments@.len(),
                out@ == self.segments@.take(i as int),
            decreases self.segments@.len() - i,
        {
            out.push(self.segments[i]);
            proof {
                assert(self.segments@.take(i as int).push(self.segments@[i as int]) == self.segments@.take(i + 1));
            }
            i += 1;
        }
        proof {
            assert(self.segments@.take(self.segments@.len() as int) == self.segments@);
        }
        out
    }

    /// The number of segments still to come.
    pub fn remaining_count(&self) -> (r: usize)
        ensures
            r == self@.segments.len(),
    {
        self.segments.len()
    }

    /// The number of steps of the original segments in all, or the largest
    /// number where they add up to more.
    pub fn total_duration(&self) -> (r: usize)
        ensures
            r == if durations_sum(self@.original) > usize::MAX {
                usize::MAX as nat
            } else {
                durations_sum(self@.original)
            },
    {
        let n = self.original_segments.len();
        let mut sum: usize = 0;
        let mut i: usize = n;
        proof {
            assert(self.original_segments@.skip(n as int) == Seq::<RegimeSegment>::empty());
        }
        while i > 0
            invariant
                i <= n,
                n == self.original_segments@.len(),
                sum == if durations_sum(self.original_segments@.skip(i as int)) > usize::MAX {
                    usize::MAX as nat
                } else {
                    durations_sum(self.original_segments@.skip(i as int))
                },
            decreases i,
        {
            i -= 1;
            proof {
                assert(self.original_segments@.skip(i as int).skip(1) == self.original_segments@.skip(i + 1));
                assert(self.original_segments@.skip(i as int)[0] == self.original_segments@[i as int]);
            }
            let d = self.original_segments[i].duration;
            if sum > usize::MAX - d {
                sum = usize::MAX;
            } else {
                sum = sum + d;
            }
        }
        proof {
            assert(self.original_segments@.skip(0) == self.original_segments@);
        }
        sum
    }
}

/// A move from one configuration to another over a number of steps.
#[derive(Debug, Clone, Copy)]
pub struct TransitionState {
    pub from_config: GeneratorConfig,
    pub to_config: GeneratorConfig,
    /// The share of the steps taken, between zero and one.
    pub progress: Price,
    /// The number of steps.
    pub duration: usize,
    /// The number of steps taken.
    pub current_step: usize,
}

/// The value at the share `progress` of the way between two values:
/// `from + (to - from) * progress`.
pub open spec fn lerp(from: Price, to: Price, progress: Price) -> Price {
    from.spec_add(to.spec_sub(from).spec_mul(progress))
}

/// The share of a transition of `duration` steps that is done after `step`
/// of them.
pub open spec fn progress_at(step: usize, duration: usize) -> Price {
    if step == 0 {
        Price::spec_zero()
    } else {
        ratio(step, duration)
    }
}

impl TransitionState {
    pub open spec fn spec_new(from_config: GeneratorConfig, to_config: GeneratorConfig, duration: usize)
        -> TransitionState {
        TransitionState { from_config, to_config, progress: Price::spec_zero(), duration, current_step: 0 }
    }

    /// A transition before its first step.
    pub fn new(from_config: GeneratorConfig, to_config: GeneratorConfig, duration: usize) -> (r: TransitionState)
        ensures
            r == TransitionState::spec_new(from_config, to_config, duration),
    {
        TransitionState { from_config, to_config, progress: Price::zero(), duration, current_step: 0 }
    }

    /// The transition after one more step, where one is left.
    pub open spec fn spec_advance(self) -> TransitionState {
        if self.current_step < self.duration {
            TransitionState {
                current_step: (self.current_step + 1) as usize,
                progress: ratio((self.current_step + 1) as usize, self.duration),
                ..self
            }
        } else {
            self
        }
    }

    /// Takes one step, where one is left, and says whether it did.
    pub fn advance(&mut self) -> (r: bool)
        ensures
            r == (old(self).current_step < old(self).duration),
            *final(self) == old(self).spec_advance(),
    {
        if self.current_step < self.duration {
            self.current_step += 1;
            self.progress = Price::from_usize(self.current_step).saturating_div(Price::from_usize(self.duration));
            true
        } else {
            false
        }
    }

    /// The configuration in force: trend strength and volatility lie at the
    /// share `progress` of the way from the old values to the new ones, the
    /// trend direction is the new one from half of the way on, and all else
    /// is as in the old configuration.
    pub open spec fn spec_interpolated(self) -> GeneratorConfig {
        GeneratorConfig {
            trend_strength: lerp(self.from_config.trend_strength, self.to_config.trend_strength, self.progress),
            volatility: lerp(self.from_config.volatility, self.to_config.volatility, self.progress),
            trend_direction: if self.progress.units() >= Price::from_repr(5, 1).units() {
                self.to_config.trend_direction
            } else {
                self.from_config.trend_direction
            },
            ..self.from_config
        }
    }

    /// The configuration in force.
    pub fn interpolated_config(&self) -> (r: GeneratorConfig)
        ensures
            r == self.spec_interpolated(),
    {
        let mut config = self.from_config;
        let from_strength = self.from_config.trend_strength;
        let to_strength = self.to_config.trend_strength;
        config.trend_strength = from_strength.saturating_add(
            to_strength.saturating_sub(from_strength).saturating_mul(self.progress),
        );
        let from_vol = self.from_config.volatility;
        let to_vol = self.to_config.volatility;
        config.volatility = from_vol.saturating_add(to_vol.saturating_sub(from_vol).saturating_mul(self.progress));
        if self.progress.ge(&Price::new(5, 1)) {
            config.trend_direction = self.to_config.trend_direction;
        }
        config
    }

    pub open spec fn spec_is_complete(self) -> bool {
        self.current_step >= self.duration
    }

    /// Whether every step was taken.
    pub fn is_complete(&self) -> (r: bool)
        ensures
            r == self.spec_is_complete(),
    {
        self.current_step >= self.duration
    }

    /// The transition after `steps` steps.
    pub open spec fn after(self, steps: nat) -> TransitionState
        decreases steps,
    {
        if steps == 0 {
            self
        } else {
            self.after((steps - 1) as nat).spec_advance()
        }
    }

    /// After `step` of the `duration` steps of a transition, the volatility
    /// and the trend strength in force are `from + (to - from) * step /
    /// duration`.
    pub proof fn lemma_interpolation(from: GeneratorConfig, to: GeneratorConfig, duration: usize, step: usize)
        requires
            step <= duration,
        ensures
            TransitionState::spec_new(from, to, duration).after(step as nat).current_step == step,
            TransitionState::spec_new(from, to, duration).after(step as nat).spec_interpolated().volatility == lerp(
                from.volatility,
                to.volatility,
                progress_at(step, duration),
            ),
            TransitionState::spec_new(from, to, duration).after(step as nat).spec_interpolated().trend_strength
                == lerp(from.trend_strength, to.trend_strength, progress_at(step, duration)),
            TransitionState::spec_new(from, to, duration).after(step as nat).from_config == from,
            TransitionState::spec_new(from, to, duration).after(step as nat).to_config == to,
            TransitionState::spec_new(from, to, duration).after(step as nat).duration == duration,
            TransitionState::spec_new(from, to, duration).after(step as nat).progress == progress_at(step, duration),
        decreases step,
    {
        if step > 0 {
            TransitionState::lemma_interpolation(from, to, duration, (step - 1) as usize);
        }
    }
}

/// The base configuration with trend direction, trend strength and
/// volatility taken from the regime's.
pub open spec fn merged(base: GeneratorConfig, regime_specific: GeneratorConfig) -> GeneratorConfig {
    GeneratorConfig {
        trend_direction: regime_specific.trend_direction,
        trend_strength: regime_specific.trend_strength,
        volatility: regime_specific.volatility,
        ..base
    }
}

/// Whether two configurations agree in all but trend direction, trend
/// strength and volatility.
pub open spec fn same_market(a: GeneratorConfig, b: GeneratorConfig) -> bool {
    merged(a, b) == b
}

/// What a controller holds.
pub struct ControllerView {
    pub schedule: ScheduleView,
    pub current_config: GeneratorConfig,
    pub transition: Option<TransitionState>,
    pub base_config: GeneratorConfig,
}

impl ControllerView {
    /// The configuration that a schedule starts with: the base merged with
    /// the first segment's, or the fallback where there is no segment.
    pub open spec fn starting_config(schedule: ScheduleView, base: GeneratorConfig, fallback: GeneratorConfig)
        -> GeneratorConfig {
        if schedule.segments.len() > 0 {
            merged(base, schedule.segments[0].config)
        } else {
            fallback
        }
    }

    pub open spec fn fresh(schedule: ScheduleView, base: GeneratorConfig) -> ControllerView {
        ControllerView {
            schedule,
            current_config: ControllerView::starting_config(schedule, base, base),
            transition: None,
            base_config: base,
        }
    }

    /// The configuration and the transition after the active transition, if
    /// any, took its step: the configuration is the interpolated one, and a
    /// transition that took its last step is dropped.
    pub open spec fn after_transition_step(self) -> (GeneratorConfig, Option<TransitionState>) {
        match self.transition {
            Some(t) => if t.current_step < t.duration {
                let moved = t.spec_advance();
                (
                    moved.spec_interpolated(),
                    if moved.spec_is_complete() {
                        None
                    } else {
                        Some(moved)
                    },
                )
            } else {
                (self.current_config, Some(t))
            },
            None => (self.current_config, None),
        }
    }

    /// The controller after one step: the active transition moves on, the
    /// schedule takes its step, and where that brings another regime the
    /// configuration changes to the base merged with the new segment's: at
    /// once, or by a new transition where the segment asks for one.
    pub open spec fn advance(self) -> ControllerView {
        let (config, transition) = self.after_transition_step();
        let schedule = self.schedule.advance();
        if !same_optional_regime(self.schedule.current_regime(), schedule.current_regime())
            && schedule.segments.len() > 0 {
            let segment = schedule.segments[0];
            let target = merged(self.base_config, segment.config);
            match segment.transition_duration {
                Some(d) => if d > 0 {
                    ControllerView {
                        schedule,
                        current_config: config,
                        transition: Some(TransitionState::spec_new(config, target, d)),
                        base_config: self.base_config,
                    }
                } else {
                    ControllerView { schedule, current_config: target, transition, base_config: self.base_config }
                },
                None => ControllerView {
                    schedule,
                    current_config: target,
                    transition,
                    base_config: self.base_config,
                },
            }
        } else {
            ControllerView { schedule, current_config: config, transition, base_config: self.base_config }
        }
    }

    /// The controller with another schedule.
    pub open spec fn with_schedule(self, schedule: ScheduleView) -> ControllerView {
        ControllerView {
            schedule,
            current_config: ControllerView::starting_config(schedule, self.base_config, self.current_config),
            transition: None,
            base_config: self.base_config,
        }
    }

    /// The segment that a forced regime runs as.
    pub open spec fn forced_segment(regime: MarketRegime, duration: usize, transition_duration: Option<usize>)
        -> RegimeSegment {
        RegimeSegment {
            transition_duration: Some(
                match transition_duration {
                    Some(d) => d,
                    None => 0,
                },
            ),
            ..RegimeSegment::spec_new(regime, duration)
        }
    }

    /// The controller after a regime was forced.
    pub open spec fn force(self, regime: MarketRegime, duration: usize, transition_duration: Option<usize>)
        -> ControllerView {
        self.with_schedule(
            ScheduleView::fresh(seq![ControllerView::forced_segment(regime, duration, transition_duration)], false),
        )
    }

    /// The configuration in force, and the one that an active transition
    /// starts from, agree with the base configuration in all but trend
    /// direction, trend strength and volatility.
    pub open spec fn consistent(self) -> bool {
        &&& same_market(self.base_config, self.current_config)
        &&& self.transition matches Some(t) ==> same_market(self.base_config, t.from_config)
    }

    /// A controller is consistent at its start, and stays so.
    pub proof fn lemma_consistent(self, schedule: ScheduleView, base: GeneratorConfig)
        ensures
            ControllerView::fresh(schedule, base).consistent(),
            self.consistent() ==> self.advance().consistent() && self.with_schedule(schedule).consistent(),
            self.advance().base_config == self.base_config,
            self.with_schedule(schedule).base_config == self.base_config,
    {
    }

    /// The controller after `n` steps.
    pub open spec fn after_steps(self, n: nat) -> ControllerView
        decreases n,
    {
        if n == 0 {
            self
        } else {
            self.advance().after_steps((n - 1) as nat)
        }
    }

    /// The schedule of a controller moves as a schedule alone does.
    pub proof fn lemma_schedule_after_steps(self, n: nat)
        ensures
            self.after_steps(n).schedule == self.schedule.after_steps(n),
        decreases n,
    {
        if n > 0 {
            self.advance().lemma_schedule_after_steps((n - 1) as nat);
        }
    }

    /// A forced regime is in force at once, and its schedule is complete
    /// after exactly `duration` steps, where that is at least one.
    pub proof fn lemma_forced_regime(
        self,
        regime: MarketRegime,
        duration: usize,
        transition_duration: Option<usize>,
    )
        requires
            duration >= 1,
        ensures
            self.force(regime, duration, transition_duration).schedule.current_regime() == Some(regime),
            self.force(regime, duration, transition_duration).after_steps(duration as nat).schedule.is_complete(),
            forall|j: nat|
                j < duration ==> !(#[trigger] self.force(regime, duration, transition_duration).after_steps(
                    j,
                )).schedule.is_complete(),
    {
        let forced = self.force(regime, duration, transition_duration);
        let segments = seq![ControllerView::forced_segment(regime, duration, transition_duration)];
        assert(forced.schedule.segments == segments);
        assert(segments.skip(1).len() == 0);
        assert(durations_sum(segments.skip(1)) == 0);
        assert(durations_sum(segments) == duration);
        forced.schedule.lemma_completes_after_total();
        forced.lemma_schedule_after_steps(duration as nat);
        assert forall|j: nat| j < duration implies !(#[trigger] forced.after_steps(j)).schedule.is_complete() by {
            forced.lemma_schedule_after_steps(j);
        }
    }
}

/// A report on a schedule.
#[derive(Debug, Clone, Copy)]
pub struct ScheduleInfo {
    pub current_regime: Option<MarketRegime>,
    /// The share of the current segment that is done.
    pub current_segment_progress: Price,
    /// The number of steps taken.
    pub total_progress: usize,
    pub is_complete: bool,
    /// The number of segments still to come.
    pub remaining_segments: usize,
    /// Whether the parameters are on their way to those of a new segment.
    pub in_transition: bool,
}

/// Runs a schedule and keeps the configuration in force.
#[derive(Debug)]
pub struct RegimeController {
    schedule: RegimeSchedule,
    current_config: GeneratorConfig,
    transition: Option<TransitionState>,
    base_config: GeneratorConfig,
}

impl View for RegimeController {
    type V = ControllerView;

    closed spec fn view(&self) -> ControllerView {
        ControllerView {
            schedule: self.schedule@,
            current_config: self.current_config,
            transition: self.transition,
            base_config: self.base_config,
        }
    }
}

impl RegimeController {
    /// A controller at the start of `schedule`.
    pub fn new(schedule: RegimeSchedule, base_config: GeneratorConfig) -> (r: RegimeController)
        ensures
            r@ == ControllerView::fresh(schedule@, base_config),
    {
        let current_config = match schedule.current_segment() {
            Some(segment) => RegimeController::merge_configs(&base_config, &segment.config),
            None => base_config,
        };
        RegimeController { schedule, current_config, transition: None, base_config }
    }

    /// The configuration in force.
    pub fn current_config(&self) -> (r: &GeneratorConfig)
        ensures
            *r == self@.current_config,
    {
        &self.current_config
    }

    /// The configuration that regimes are merged into.
    pub fn base_config(&self) -> (r: &GeneratorConfig)
        ensures
            *r == self@.base_config,
    {
        &self.base_config
    }

    /// The regime in force.
    pub fn current_regime(&self) -> (r: Option<MarketRegime>)
        ensures
            r == self@.schedule.current_regime(),
    {
        match self.schedule.current_segment() {
            Some(segment) => Some(segment.regime),
            None => None,
        }
    }

    /// Takes one step and says whether the schedule goes on.
    pub fn advance(&mut self) -> (r: bool)
        ensures
            final(self)@ == old(self)@.advance(),
            r == !final(self)@.schedule.is_complete(),
    {
        match self.transition {
            Some(t) => {
                let mut moved = t;
                if moved.advance() {
                    self.current_config = moved.interpolated_config();
                    if moved.is_complete() {
                        self.transition = None;
                    } else {
                        self.transition = Some(moved);
                    }
                }
            },
            None => {},
        }
        let previous_regime = self.current_regime();
        let current_segment = self.schedule.advance();
        let new_regime = match current_segment {
            Some(segment) => Some(segment.regime),
            None => None,
        };
        if !optional_regimes_match(previous_regime, new_regime) {
            match current_segment {
                Some(segment) => {
                    let new_config = RegimeController::merge_configs(&self.base_config, &segment.config);
                    match segment.transition_duration {
                        Some(d) => {
                            if d > 0 {
                                self.transition = Some(TransitionState::new(self.current_config, new_config, d));
                            } else {
                                self.current_config = new_config;
                            }
                        },
                        None => {
                            self.current_config = new_config;
                        },
                    }
                },
                None => {},
            }
        }
        !self.schedule.is_complete()
    }

    /// The base configuration with trend direction, trend strength and
    /// volatility taken from the regime's.
    pub fn merge_configs(base: &GeneratorConfig, regime_specific: &GeneratorConfig) -> (r: GeneratorConfig)
        ensures
            r == merged(*base, *regime_specific),
    {
        let mut config = *base;
        config.trend_direction = regime_specific.trend_direction;
        config.trend_strength = regime_specific.trend_strength;
        config.volatility = regime_specific.volatility;
        config
    }

    pub open spec fn spec_schedule_info(view: ControllerView) -> ScheduleInfo {
        ScheduleInfo {
            current_regime: view.schedule.current_regime(),
            current_segment_progress: RegimeSchedule::spec_segment_progress(view.schedule),
            total_progress: view.schedule.total,
            is_complete: view.schedule.is_complete(),
            remaining_segments: view.schedule.segments.len() as usize,
            in_transition: view.transition.is_some(),
        }
    }

    /// A report on the schedule.
    pub fn schedule_info(&self) -> (r: ScheduleInfo)
        ensures
            r == RegimeController::spec_schedule_info(self@),
    {
        ScheduleInfo {
            current_regime: self.current_regime(),
            current_segment_progress: self.schedule.current_segment_progress(),
            total_progress: self.schedule.total_progress(),
            is_complete: self.schedule.is_complete(),
            remaining_segments: self.schedule.remaining_count(),
            in_transition: self.transition.is_some(),
        }
    }

    /// Puts another schedule in place of the current one and drops the
    /// active transition. The configuration becomes the base merged with the
    /// first segment's; it stays where the schedule has no segment.
    pub fn set_schedule(&mut self, schedule: RegimeSchedule)
        ensures
            final(self)@ == old(self)@.with_schedule(schedule@),
    {
        self.schedule = schedule;
        match self.schedule.current_segment() {
            Some(segment) => {
                self.current_config = RegimeController::merge_configs(&self.base_config, &segment.config);
            },
            None => {},
        }
        self.transition = None;
    }

    /// Adds a segment at the end of the schedule.
    pub fn add_segment(&mut self, segment: RegimeSegment)
        ensures
            final(self)@ == (ControllerView {
                schedule: ScheduleView {
                    segments: old(self)@.schedule.segments.push(segment),
                    original: old(self)@.schedule.original.push(segment),
                    ..old(self)@.schedule
                },
                ..old(self)@
            }),
    {
        self.schedule.add_segment(segment);
    }

    /// Puts the schedule back to its start and drops the active transition.
    pub fn reset(&mut self)
        ensures
            final(self)@ == old(self)@.with_schedule(
                ScheduleView::fresh(old(self)@.schedule.original, old(self)@.schedule.repeat),
            ),
    {
        self.schedule.reset();
        self.transition = None;
        match self.schedule.current_segment() {
            Some(segment) => {
                self.current_config = RegimeController::merge_configs(&self.base_config, &segment.config);
            },
            None => {},
        }
    }

    /// Puts a schedule of one segment with the given regime in place of the
    /// current one.
    pub fn force_regime(&mut self, regime: MarketRegime, duration: usize, transition_duration: Option<usize>)
        ensures
            final(self)@ == old(self)@.force(regime, duration, transition_duration),
            final(self)@.schedule.current_regime() == Some(regime),
    {
        let steps = match transition_duration {
            Some(d) => d,
            None => 0,
        };
        let segment = RegimeSegment::new(regime, duration).with_transition(steps);
        let mut segments: Vec<RegimeSegment> = Vec::new();
        segments.push(segment);
        proof {
            assert(segments@ == seq![segment]);
        }
        self.set_schedule(RegimeSchedule::new(segments));
    }
}

} // verus!
