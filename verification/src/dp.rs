//! The Laplace noise that makes a query private.
//!
//! A Laplace variable of a given scale is the difference of two independent
//! exponential variables, and an exponential variable is `-scale * ln(u)` for
//! `u` uniform in the unit interval.
use crate::fixed_point::Fixed;
use crate::random::{get_random_fixed_unit_interval, unit_interval, Generator, GeneratorView};
use vstd::prelude::*;

verus! {

/// The noise that two logarithms of uniform draws give: the difference of
/// the two exponential variables `-scale * log1` and `-scale * log2`.
#[verifier::opaque]
pub open spec fn noise_of_logs(scale: Fixed, log1: Fixed, log2: Fixed) -> Fixed {
    let e1 = scale.spec_wrapping_neg().spec_wrapping_mul(log1);
    let e2 = scale.spec_wrapping_neg().spec_wrapping_mul(log2);
    e1.spec_wrapping_sub(e2)
}

/// The noise that two uniform draws give, or nothing where one of them has
/// no logarithm: it is zero, or the fixed-point routine gives up on it.
pub open spec fn noise_of_uniforms(scale: Fixed, u1: Fixed, u2: Fixed) -> Option<Fixed> {
    if u1@ > 0 && u2@ > 0 {
        match (u1.spec_ln(), u2.spec_ln()) {
            (Some(log1), Some(log2)) => Some(noise_of_logs(scale, log1, log2)),
            _ => None,
        }
    } else {
        None
    }
}

/// The noise that a generator's next two words give.
pub open spec fn spec_laplace(rng: GeneratorView, scale: Fixed) -> Option<Fixed> {
    noise_of_uniforms(scale, unit_interval(rng.word(0)), unit_interval(rng.word(1)))
}

/// The Laplace noise of a given scale from the logarithms of two uniform
/// draws: `-scale * log1 - (-scale * log2)`, each product rounded down to a
/// multiple of `2^-32`, every step wrapped on overflow.
pub fn laplace_from_logs(scale: Fixed, log1: Fixed, log2: Fixed) -> (noise: Fixed)
    ensures
        noise == noise_of_logs(scale, log1, log2),
{
    proof {
        reveal(noise_of_logs);
    }
    let e1 = scale.wrapping_neg().wrapping_mul(log1);
    let e2 = scale.wrapping_neg().wrapping_mul(log2);
    e1.wrapping_sub(e2)
}

/// The Laplace noise of a given scale from two uniform draws. The logarithm
/// is taken of positive draws only; where a draw is zero, or the routine
/// gives up on it, there is no noise.
pub fn laplace_from_uniforms(scale: Fixed, u1: Fixed, u2: Fixed) -> (noise: Option<Fixed>)
    ensures
        noise == noise_of_uniforms(scale, u1, u2),
{
    if u1.bits <= 0 || u2.bits <= 0 {
        return None;
    }
    let log1 = match u1.ln() {
        Some(log) => log,
        None => {
            return None;
        },
    };
    let log2 = match u2.ln() {
        Some(log) => log,
        None => {
            return None;
        },
    };
    Some(laplace_from_logs(scale, log1, log2))
}

/// Draws Laplace noise of a given scale. Two words are drawn whatever comes
/// of them; there is no noise where one of the two has no logarithm.
pub fn laplace(rng: &mut Generator, scale: Fixed) -> (noise: Option<Fixed>)
    ensures
        noise == spec_laplace(old(rng)@, scale),
        final(rng)@ == old(rng)@.advanced(2),
{
    let u1 = get_random_fixed_unit_interval(rng);
    let u2 = get_random_fixed_unit_interval(rng);
    laplace_from_uniforms(scale, u1, u2)
}

} // verus!
