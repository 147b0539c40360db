//! Randomness for fragmentation. The generator is seedable and injected by
//! the caller, so a fixed seed reproduces a session exactly. Only the two
//! items that touch the outside generator are trusted; everything layered on
//! them states no more than that each draw lies in its requested range.

use vstd::prelude::*;

use rand::Rng;
use rand::SeedableRng;

use crate::asteroid::{wf_jitter, wf_seed, ChildJitter, FragmentSeed, JITTER_LIMIT, SPIN_LIMIT};

verus! {

#[verifier::external_type_specification]
#[verifier::external_body]
pub struct ExStdRng(rand::rngs::StdRng);

/// Relies on rand's `StdRng::seed_from_u64` (via `SeedableRng`): constructs
/// a generator whose stream of draws is a function of the seed alone.
/// Nothing about the stream itself is assumed.
#[verifier::external_body]
pub fn rng_from_seed(seed: u64) -> rand::rngs::StdRng {
    rand::rngs::StdRng::seed_from_u64(seed)
}

/// Relies on rand's `Rng::gen_range` over an inclusive integer range: the
/// sample lies within the range. The call panics only on an empty range,
/// which the precondition excludes. Which value comes back is not assumed;
/// two calls on equal arguments may differ.
#[verifier::external_body]
pub fn gen_range_i64(rng: &mut rand::rngs::StdRng, lo: i64, hi: i64) -> (r: i64)
    requires
        lo <= hi,
    ensures
        lo <= r <= hi,
{
    rng.gen_range(lo..=hi)
}

/// Draws the random inputs of one fragmentation event: the shared ring
/// angle first, then, per ring child in order, a velocity jitter pair and
/// an angular velocity.
pub fn draw_fragment_seed(rng: &mut rand::rngs::StdRng, count: usize) -> (s: FragmentSeed)
    ensures
        wf_seed(s, count as int),
{
    let angle = gen_range_i64(rng, 0, 359);
    let mut jitter: Vec<ChildJitter> = Vec::new();
    let mut i: usize = 0;
    while i < count
        invariant
            0 <= i <= count,
            jitter@.len() == i,
            forall|k: int| 0 <= k < i ==> wf_jitter(#[trigger] jitter@[k]),
        decreases count - i,
    {
        let vel_x = gen_range_i64(rng, -JITTER_LIMIT, JITTER_LIMIT);
        let vel_y = gen_range_i64(rng, -JITTER_LIMIT, JITTER_LIMIT);
        let spin = gen_range_i64(rng, -SPIN_LIMIT, SPIN_LIMIT);
        jitter.push(ChildJitter { vel_x, vel_y, spin });
        i += 1;
    }
    FragmentSeed { angle_deg: angle, jitter }
}

} // verus!
