//! The entropy pool and the random generator derived from it.
//!
//! The pool is 32 persisted bytes. Every call folds its own content into the
//! pool through SHA-256, so that no two calls see the same pool, and the pool
//! is never rewound. The generator of a call is the ChaCha20 stream keyed by
//! the pool as that call left it; it lives for that call only.
//!
//! SHA-256 is that of the `sha2` crate and the stream that of `rand_chacha`,
//! reached through the two private functions at the end of this file whose
//! contracts are not proved.
use crate::error::ContractError;
use crate::fixed_point::{trunc_div, wrap128, wrap64, Fixed, WideFixed};
use crate::state::{Store, StoreView};
use rand::{RngCore, SeedableRng};
use rand_chacha::ChaChaRng;
use sha2::{Digest, Sha256};
use vstd::arithmetic::div_mod::{lemma_div_is_ordered, lemma_div_multiples_vanish_quotient};
use vstd::prelude::*;

verus! {

/// The SHA-256 digest of a byte string.
pub uninterp spec fn sha256_digest(data: Seq<u8>) -> Seq<u8>;

/// The 32-bit word at place `index` of the ChaCha20 stream that the 32 bytes
/// of `seed` key, with stream number zero.
pub uninterp spec fn chacha_word(seed: Seq<u8>, index: u64) -> u32;

/// The pool of a store in which none was written: 32 zero bytes.
pub open spec fn zero_pool() -> Seq<u8> {
    Seq::new(32, |i: int| 0u8)
}

/// The pool that a call finds.
pub open spec fn current_pool(store: StoreView) -> Seq<u8> {
    match store.entropy_pool {
        Some(pool) => pool,
        None => zero_pool(),
    }
}

/// The store after `additional_entropy` was folded into its pool: the new
/// pool is the digest of the old one followed by the new bytes.
pub open spec fn with_more_entropy(store: StoreView, additional_entropy: Seq<u8>) -> StoreView {
    StoreView {
        entropy_pool: Some(sha256_digest(current_pool(store) + additional_entropy)),
        ..store
    }
}

/// A position in the random stream that a pool keys.
#[derive(Clone, Copy, Debug)]
pub struct Generator {
    /// The pool that keys the stream.
    pub seed: [u8; 32],
    /// How many words were drawn.
    pub position: u64,
}

/// A [`Generator`] with its seed as a sequence.
pub struct GeneratorView {
    pub seed: Seq<u8>,
    pub position: u64,
}

impl View for Generator {
    type V = GeneratorView;

    open spec fn view(&self) -> GeneratorView {
        GeneratorView { seed: self.seed@, position: self.position }
    }
}

impl GeneratorView {
    /// The generator after `n` more draws. The count of draws wraps at `2^64`.
    pub open spec fn advanced(self, n: nat) -> GeneratorView {
        GeneratorView {
            seed: self.seed,
            position: ((self.position + n) % 0x1_0000_0000_0000_0000) as u64,
        }
    }

    /// The word that the `n`-th draw from now gives, counting from zero.
    pub open spec fn word(self, n: nat) -> u32 {
        chacha_word(self.seed, self.advanced(n).position)
    }

    /// The generator that a store's pool keys, before any draw.
    pub open spec fn of_store(store: StoreView) -> GeneratorView {
        GeneratorView { seed: current_pool(store), position: 0 }
    }
}

/// Drawing `a` words and then `b` more is drawing `a + b` words.
pub proof fn lemma_advanced_twice(rng: GeneratorView, a: nat, b: nat)
    ensures
        rng.advanced(a).advanced(b) == rng.advanced(a + b),
        rng.advanced(0) == rng,
        forall|n: nat| #[trigger] rng.advanced(a).word(n) == rng.word(a + n),
{
    assert forall|n: nat| #[trigger] rng.advanced(a).word(n) == rng.word(a + n) by {
        assert(rng.advanced(a).advanced(n).position == rng.advanced(a + n).position);
    }
}

/// The number in the unit interval that a drawn word stands for: the word
/// divided by `2^32 - 1` in the wide precision, then narrowed.
#[verifier::opaque]
pub open spec fn unit_interval(word: u32) -> Fixed {
    WideFixed::spec_from_u32(word).spec_wrapping_div(WideFixed::spec_from_u32(u32::MAX)).spec_narrow()
}

/// Nothing wraps in [`unit_interval`]: the result is the quotient of
/// `word * 2^64` by `2^32 - 1`, rounded down, with its low 32 bits dropped.
/// It lies between zero and one, and only the word zero gives zero.
pub proof fn lemma_unit_interval(word: u32)
    ensures
        unit_interval(word)@ == ((word * 0x1_0000_0000_0000_0000) / 0xFFFF_FFFF) / 0x1_0000_0000,
        0 <= unit_interval(word)@ <= 0x1_0000_0000,
        unit_interval(word)@ == 0 <==> word == 0,
        word == u32::MAX ==> unit_interval(word)@ == 0x1_0000_0000,
{
    reveal(unit_interval);
    let scale: int = 0x1_0000_0000_0000_0000;
    let numerator: int = word * scale;
    let denominator: int = 0xFFFF_FFFF * scale;
    let quotient: int = numerator / 0xFFFF_FFFF;
    assert(WideFixed::spec_from_u32(word)@ == numerator);
    assert(WideFixed::spec_from_u32(u32::MAX)@ == denominator);
    assert((numerator * scale) / denominator == quotient) by {
        lemma_div_multiples_vanish_quotient(scale, numerator, 0xFFFF_FFFF);
        assert(scale * numerator == numerator * scale);
        assert(scale * 0xFFFF_FFFF == denominator);
    }
    assert(trunc_div(numerator * scale, denominator) == quotient);
    assert(0 <= quotient <= scale) by {
        lemma_div_is_ordered(0, numerator, 0xFFFF_FFFF);
        lemma_div_is_ordered(numerator, 0xFFFF_FFFF * scale, 0xFFFF_FFFF);
    }
    assert(wrap128(quotient) == quotient);
    let narrowed: int = quotient / 0x1_0000_0000;
    assert(0 <= narrowed <= 0x1_0000_0000);
    assert(wrap64(narrowed) == narrowed);
    if word > 0 {
        assert(quotient >= 0x1_0000_0000) by {
            lemma_div_is_ordered(scale, numerator, 0xFFFF_FFFF);
        }
    }
}

/// The number in the unit interval that a drawn word stands for.
pub fn unit_interval_of(word: u32) -> (r: Fixed)
    ensures
        r == unit_interval(word),
        0 <= r@ <= 0x1_0000_0000,
        r@ == 0 <==> word == 0,
{
    proof {
        reveal(unit_interval);
        lemma_unit_interval(word);
    }
    let ratio = WideFixed::from_u32(word).wrapping_div(WideFixed::from_u32(u32::MAX));
    ratio.narrow()
}

impl Generator {
    /// Draws the next word of the stream.
    pub fn next_u32(&mut self) -> (word: u32)
        ensures
            word == old(self)@.word(0),
            final(self)@ == old(self)@.advanced(1),
    {
        let word = stream_word(&self.seed, self.position);
        self.position = self.position.wrapping_add(1);
        word
    }
}

/// The pool that a call finds: the persisted one, or 32 zero bytes where
/// none was persisted.
pub fn get_current_entropy_pool(store: &Store) -> (pool: [u8; 32])
    ensures
        pool@ == current_pool(store@),
{
    match store.entropy_pool {
        Some(pool) => pool,
        None => {
            let pool = [0u8;32];
            assert(pool@ =~= zero_pool());
            pool
        },
    }
}

/// Folds `additional_entropy` into the pool. No other slot changes, and this
/// never fails.
pub fn supply_more_entropy(
    store: &mut Store,
    additional_entropy: &[u8],
) -> (r: Result<(), ContractError>)
    ensures
        r is Ok,
        final(store)@ == with_more_entropy(old(store)@, additional_entropy@),
{
    let current_entropy_pool = get_current_entropy_pool(store);
    let mut new_entropy_source: Vec<u8> = Vec::new();
    let mut i: usize = 0;
    while i < 32
        invariant
            i <= 32,
            new_entropy_source@ == current_entropy_pool@.take(i as int),
        decreases 32 - i,
    {
        new_entropy_source.push(current_entropy_pool[i]);
        i = i + 1;
    }
    assert(current_entropy_pool@.take(32) =~= current_entropy_pool@);
    let mut j: usize = 0;
    while j < additional_entropy.len()
        invariant
            j <= additional_entropy@.len(),
            new_entropy_source@ == current_entropy_pool@ + additional_entropy@.take(j as int),
        decreases additional_entropy@.len() - j,
    {
        new_entropy_source.push(additional_entropy[j]);
        assert(additional_entropy@.take(j + 1) =~= additional_entropy@.take(j as int).push(
            additional_entropy@[j as int],
        ));
        j = j + 1;
    }
    assert(additional_entropy@.take(j as int) =~= additional_entropy@);
    store.entropy_pool = Some(sha256(&new_entropy_source));
    Ok(())
}

/// The generator that the current pool keys, before any draw.
pub fn get_random_number_generator(store: &Store) -> (rng: Generator)
    ensures
        rng@ == GeneratorView::of_store(store@),
{
    Generator { seed: get_current_entropy_pool(store), position: 0 }
}

/// Draws a number from the unit interval: one word of the stream, divided by
/// `2^32 - 1`. The result lies between zero and one, both included, and it is
/// zero only where the word drawn is zero.
pub fn get_random_fixed_unit_interval(rng: &mut Generator) -> (r: Fixed)
    ensures
        r == unit_interval(old(rng)@.word(0)),
        final(rng)@ == old(rng)@.advanced(1),
        0 <= r@ <= 0x1_0000_0000,
        r@ == 0 <==> old(rng)@.word(0) == 0,
{
    let numerator = rng.next_u32();
    unit_interval_of(numerator)
}

/// Calls `Sha256::digest`. Trusted: the result is the SHA-256 digest of the
/// bytes.
#[verifier::external_body]
fn sha256(data: &Vec<u8>) -> (digest: [u8; 32])
    ensures
        digest@ == sha256_digest(data@),
{
    Sha256::digest(data).into()
}

/// Seeds a `ChaChaRng` with `seed`, moves it to the word at place `index`
/// with `set_word_pos` and calls `next_u32` once. Trusted: the result is the
/// word at that place of the stream that the seed keys, which is also what
/// the draw number `index` of a generator fresh from `from_seed` gives.
#[verifier::external_body]
fn stream_word(seed: &[u8; 32], index: u64) -> (word: u32)
    ensures
        word == chacha_word(seed@, index),
{
    let mut rng = ChaChaRng::from_seed(*seed);
    rng.set_word_pos(u128::from(index));
    rng.next_u32()
}

} // verus!
