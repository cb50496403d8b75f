//! The random stream: a seeded generator and draws from a normal
//! distribution. What a draw returns is not modelled; the functions that use
//! one are verified for every value of it.

use crate::price::Price;
use rand::rngs::{OsRng, StdRng};
use rand::SeedableRng;
use rand_distr::{Distribution, Normal};
use rust_decimal::prelude::FromPrimitive;
use rust_decimal::Decimal;
use vstd::prelude::*;

verus! {

#[verifier::external_type_specification]
#[verifier::external_body]
pub struct ExStdRng(StdRng);

/// `StdRng::seed_from_u64`: a generator whose stream is fixed by `seed`.
/// Nothing is claimed of the stream.
#[verifier::external_body]
pub(crate) fn seeded_rng(seed: u64) -> (r: StdRng) {
    StdRng::seed_from_u64(seed)
}

/// `StdRng::from_rng` on `rand::rngs::OsRng`: a generator seeded by the
/// operating system, or `None` where the system cannot supply a seed.
/// Nothing is claimed of the stream.
#[verifier::external_body]
pub(crate) fn entropy_rng() -> (r: Option<StdRng>) {
    StdRng::from_rng(OsRng).ok()
}

/// One draw from a normal distribution, in two forms.
#[derive(Debug, Clone, Copy)]
pub struct NormalDraw {
    /// The draw as a decimal; `None` where it is no number or too large
    /// for one.
    pub value: Option<Price>,
    /// The draw as a count: without its fraction, zero for a draw below
    /// zero or no number, and `u64::MAX` for one above it.
    pub count: u64,
}

/// One draw of `rand_distr::Normal` with the given mean and standard
/// deviation, both handed over as floating-point numbers by
/// `Decimal::as_f64`. The draw comes back as a decimal by
/// `Decimal::from_f64`, and as a count by Rust's cast from a float to `u64`.
/// `None` where `Normal::new` refuses the parameters. Nothing is claimed of
/// the value drawn.
#[verifier::external_body]
pub(crate) fn draw_normal(rng: &mut StdRng, mean: Price, std_dev: Price) -> (r: Option<NormalDraw>) {
    let m = Decimal::from_i128_with_scale(mean.mantissa(), mean.scale()).as_f64();
    let s = Decimal::from_i128_with_scale(std_dev.mantissa(), std_dev.scale()).as_f64();
    let x = Normal::new(m, s).ok()?.sample(rng);
    let value = Decimal::from_f64(x).and_then(|d| Price::from_parts(d.mantissa(), d.scale()));
    Some(NormalDraw { value, count: x as u64 })
}

/// The draw as a decimal, where there is one.
pub fn draw_value(draw: Option<NormalDraw>) -> (r: Option<Price>)
    ensures
        r == (match draw {
            Some(d) => d.value,
            None => None,
        }),
{
    match draw {
        Some(d) => d.value,
        None => None,
    }
}

/// The draw as a count, where there is one.
pub fn draw_count(draw: Option<NormalDraw>) -> (r: Option<u64>)
    ensures
        r == (match draw {
            Some(d) => Some(d.count),
            None => None,
        }),
{
    match draw {
        Some(d) => Some(d.count),
        None => None,
    }
}

/// `count` draws around zero with the given standard deviation, in the order
/// in which they were drawn.
pub(crate) fn draw_shocks(rng: &mut StdRng, std_dev: Price, count: usize) -> (r: Vec<Option<Price>>)
    ensures
        r@.len() == count,
{
    let mut shocks: Vec<Option<Price>> = Vec::new();
    let mut i: usize = 0;
    while i < count
        invariant
            i <= count,
            shocks@.len() == i,
        decreases count - i,
    {
        let shock = draw_value(draw_normal(rng, Price::zero(), std_dev));
        shocks.push(shock);
        i += 1;
    }
    shocks
}

} // verus!
