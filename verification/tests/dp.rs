use private_stats::dp::{laplace, laplace_from_logs, laplace_from_uniforms};
use private_stats::fixed_point::{Fixed, ONE_BITS};
use private_stats::random::Generator;
use rand::{RngCore, SeedableRng};
use rand_chacha::ChaChaRng;
use substrate_fixed::transcendental::ln;
use substrate_fixed::types::{I32F32, I64F64};

fn number(n: i64) -> Fixed {
    Fixed::from_bits(n * ONE_BITS)
}

fn uniform_by_the_crates(rng: &mut ChaChaRng) -> I32F32 {
    let numerator = rng.next_u32();
    let ratio = I64F64::from_num(numerator) / I64F64::from_num(u32::MAX);
    I32F32::from_num(ratio)
}

fn laplace_by_the_crates(rng: &mut ChaChaRng, scale: I32F32) -> I32F32 {
    let e1: I32F32 = (-scale) * ln::<I32F32, I32F32>(uniform_by_the_crates(rng)).unwrap();
    let e2: I32F32 = (-scale) * ln::<I32F32, I32F32>(uniform_by_the_crates(rng)).unwrap();
    e1 - e2
}

#[test]
fn noise_from_two_logarithms() {
    // -1 * -1 - (-1 * -2) = 1 - 2 = -1
    assert_eq!(laplace_from_logs(number(1), number(-1), number(-2)), number(-1));
    // -3 * -2 - (-3 * -1) = 6 - 3 = 3
    assert_eq!(laplace_from_logs(number(3), number(-2), number(-1)), number(3));
    // equal draws cancel
    assert_eq!(laplace_from_logs(number(5), number(-7), number(-7)), number(0));
    // a scale of zero gives no noise
    assert_eq!(laplace_from_logs(number(0), number(-7), number(-1)), number(0));
}

#[test]
fn noise_from_two_logarithms_rounds_each_product_down() {
    // scale 2^-32: -scale * 0.5 = -2^-33 rounds down to -2^-32, and
    // -scale * -0.5 = 2^-33 rounds down to zero.
    let step = Fixed::from_bits(1);
    let half = Fixed::from_bits(1 << 31);
    assert_eq!(laplace_from_logs(step, half, half.wrapping_neg()), Fixed::from_bits(-1));
}

#[test]
fn no_noise_from_a_draw_of_zero() {
    let half = Fixed::from_bits(1 << 31);
    assert_eq!(laplace_from_uniforms(number(1), Fixed::from_bits(0), half), None);
    assert_eq!(laplace_from_uniforms(number(1), half, Fixed::from_bits(0)), None);
    assert_eq!(laplace_from_uniforms(number(1), Fixed::from_bits(0), Fixed::from_bits(0)), None);
}

#[test]
fn no_noise_from_a_negative_number() {
    let half = Fixed::from_bits(1 << 31);
    assert_eq!(laplace_from_uniforms(number(1), half.wrapping_neg(), half), None);
    assert_eq!(laplace_from_uniforms(number(1), half, Fixed::from_bits(-1)), None);
    assert_eq!(laplace_from_uniforms(number(1), Fixed::from_bits(i64::MIN), half), None);
}

#[test]
fn no_noise_from_a_draw_without_logarithm() {
    let half = Fixed::from_bits(1 << 31);
    assert_eq!(laplace_from_uniforms(number(1), Fixed::from_bits(1), half), None);
    assert_eq!(laplace_from_uniforms(number(1), half, Fixed::from_bits(2)), None);
    assert!(laplace_from_uniforms(number(1), Fixed::from_bits(3), half).is_some());
}

#[test]
fn noise_from_two_uniform_draws() {
    let half = Fixed::from_bits(1 << 31);
    let quarter = Fixed::from_bits(1 << 30);
    let one = number(1);
    // ln(1) = 0: a draw of one adds nothing.
    assert_eq!(laplace_from_uniforms(number(4), one, one), Some(number(0)));
    let log_half = half.ln().unwrap();
    let log_quarter = quarter.ln().unwrap();
    assert_eq!(
        laplace_from_uniforms(number(2), half, quarter),
        Some(laplace_from_logs(number(2), log_half, log_quarter))
    );
    // -2 * ln(0.5) + 2 * ln(0.25) = 2 * ln(0.5) is about -1.386
    let noise = laplace_from_uniforms(number(2), half, quarter).unwrap();
    let value = noise.to_bits() as f64 / 4294967296.0;
    assert!((value + 1.386).abs() < 0.01, "the noise came out as {}", value);
}

#[test]
fn laplace_draws_two_words() {
    let mut rng = Generator { seed: [3u8; 32], position: 0 };
    let _ = laplace(&mut rng, number(1));
    assert_eq!(rng.position, 2);
    let _ = laplace(&mut rng, number(1));
    assert_eq!(rng.position, 4);
}

#[test]
fn laplace_agrees_with_the_crates() {
    for key in 0..40u8 {
        let seed = [key; 32];
        let mut probe = ChaChaRng::from_seed(seed);
        if probe.next_u32() < 3 || probe.next_u32() < 3 {
            continue;
        }
        for scale_bits in [ONE_BITS, ONE_BITS / 2, 3 * ONE_BITS, 12345678] {
            let mut ours = Generator { seed, position: 0 };
            let mut theirs = ChaChaRng::from_seed(seed);
            let expected = laplace_by_the_crates(&mut theirs, I32F32::from_bits(scale_bits));
            assert_eq!(
                laplace(&mut ours, Fixed::from_bits(scale_bits)),
                Some(Fixed::from_bits(expected.to_bits()))
            );
        }
    }
}

#[test]
fn laplace_is_a_function_of_the_generator() {
    let mut a = Generator { seed: [8u8; 32], position: 6 };
    let mut b = Generator { seed: [8u8; 32], position: 6 };
    assert_eq!(laplace(&mut a, number(2)), laplace(&mut b, number(2)));
    assert_eq!(a.position, b.position);
}
