//! The pseudo-random generator that drives the sensor simulation: a linear
//! congruential generator over `u64`, seeded per engine instance so that runs
//! are reproducible.

use vstd::prelude::*;

verus! {

/// One step of the linear congruential generator: the next seed, which is
/// also the value drawn.
pub open spec fn lcg_next(seed: u64) -> u64 {
    (((seed as int) * 1103515245 + 12345) % 0x1_0000_0000_0000_0000) as u64
}

/// The seed after `k` draws from the generator, starting at `seed`.
pub open spec fn nth_seed(seed: u64, k: nat) -> u64
    decreases k,
{
    if k == 0 {
        seed
    } else {
        lcg_next(nth_seed(seed, (k - 1) as nat))
    }
}

/// Drawing `a + b` values is drawing `a`, then `b` more from where the
/// generator stood.
pub proof fn lemma_nth_seed_add(seed: u64, a: nat, b: nat)
    ensures
        nth_seed(seed, a + b) == nth_seed(nth_seed(seed, a), b),
    decreases b,
{
    if b > 0 {
        lemma_nth_seed_add(seed, a, (b - 1) as nat);
    }
}

/// Draw the next pseudo-random value: the successor of `seed` under the
/// generator. The caller keeps the result as the new seed.
pub fn random(seed: u64) -> (r: u64)
    ensures
        r == lcg_next(seed),
{
    let wide: u128 = (seed as u128) * 1103515245 + 12345;
    let reduced: u128 = wide % 0x1_0000_0000_0000_0000;
    reduced as u64
}

} // verus!
