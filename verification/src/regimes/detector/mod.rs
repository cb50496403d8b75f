//! What a regime detector offers.

use crate::price::Price;
use crate::regimes::{MarketRegime, RegimeConfig, RegimeState};
use crate::types::OHLC;
use vstd::prelude::*;

pub mod helpers;

verus! {

/// A way of finding the regime of a market from its candles.
pub trait RegimeDetector {
    /// The regime of the candles, where it can be told.
    fn detect(&mut self, data: &[OHLC], config: &RegimeConfig) -> Option<RegimeState>;

    /// Takes in one more candle; the regime then held, if any.
    fn update(&mut self, candle: &OHLC, config: &RegimeConfig) -> Option<RegimeState>;

    /// The confidence that the candles show the given regime.
    fn calculate_confidence(&self, regime: MarketRegime, data: &[OHLC]) -> Price;

    /// Forgets everything taken in.
    fn reset(&mut self);

    /// The name of the method.
    fn name(&self) -> &str;

    /// Whether `data_points` candles are enough: as many as the lookback
    /// period.
    fn has_sufficient_data(&self, data_points: usize, config: &RegimeConfig) -> (r: bool)
        ensures
            r == (data_points >= config.lookback_period),
    {
        data_points >= config.lookback_period
    }
}

} // verus!
