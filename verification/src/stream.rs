//! The pseudo-random stream behind every randomised decision.
//!
//! The generator is `rand_chacha::ChaCha8Rng`, driven through the `rand`
//! crate. Its algorithms are not restated here: what a call hands out is
//! given a name, and the contracts below say only that equal positions in
//! the stream give equal results, together with the few facts the sequencer
//! relies on.

use rand::rngs::OsRng;
use rand::seq::SliceRandom;
use rand::{Rng, SeedableRng};
use rand_chacha::ChaCha8Rng;
use vstd::prelude::*;

verus! {

/// The generator type of `rand_chacha`, carried through as an opaque value.
#[verifier::external_type_specification]
#[verifier::external_body]
pub struct ExChaCha8Rng(rand_chacha::ChaCha8Rng);

/// The position of a generator in its stream: the seed, the stream number
/// and the word offset, which together decide every value the generator
/// will hand out.
pub uninterp spec fn stream_state(rng: ChaCha8Rng) -> Seq<u8>;

/// The position of a generator that was just seeded with `seed`.
pub uninterp spec fn seeded_state(seed: u64) -> Seq<u8>;

/// The number drawn below `bound` at position `state`, and the position
/// after the draw.
pub uninterp spec fn drawn_below(state: Seq<u8>, bound: i64) -> (i64, Seq<u8>);

/// The rearrangement of `items` by a shuffle at position `state`, and the
/// position after the shuffle.
pub uninterp spec fn shuffled(state: Seq<u8>, items: Seq<i64>) -> (Seq<i64>, Seq<u8>);

/// What a shuffle at position `state` makes of `items`, and the position
/// after it. A shuffle only rearranges; the model says so at every position,
/// so that what is proved of runs can rest on it.
pub open spec fn shuffle_at(state: Seq<u8>, items: Seq<i64>) -> (Seq<i64>, Seq<u8>) {
    let outcome = shuffled(state, items);
    if outcome.0.to_multiset() == items.to_multiset() {
        outcome
    } else {
        (items, outcome.1)
    }
}

/// The number that a draw below `bound` gives at position `state`, and the
/// position after it. A draw stays below its bound; the model says so at
/// every position.
pub open spec fn draw_at(state: Seq<u8>, bound: i64) -> (i64, Seq<u8>) {
    let outcome = drawn_below(state, bound);
    if 0 <= outcome.0 < bound {
        outcome
    } else {
        (0, outcome.1)
    }
}

/// Calls `ChaCha8Rng::seed_from_u64`. Trusted: the generator's position is a
/// function of the seed alone.
#[verifier::external_body]
pub(crate) fn seeded_stream(seed: u64) -> (rng: ChaCha8Rng)
    ensures
        stream_state(rng) == seeded_state(seed),
{
    ChaCha8Rng::seed_from_u64(seed)
}

/// Calls `ChaCha8Rng::from_rng` on the operating system's generator `OsRng`.
/// Nothing is claimed of the outcome: it is `None` when the system has no
/// entropy to give.
#[verifier::external_body]
pub(crate) fn entropy_stream() -> (rng: Option<ChaCha8Rng>) {
    ChaCha8Rng::from_rng(OsRng).ok()
}

/// Calls `Rng::gen_range` on `0..bound`. Trusted: the value lies in that
/// range, and value and new position are functions of the old position and
/// the bound. An empty range would panic, hence the precondition.
#[verifier::external_body]
pub(crate) fn draw_below(rng: &mut ChaCha8Rng, bound: i64) -> (value: i64)
    requires
        bound > 0,
    ensures
        0 <= value < bound,
        value == drawn_below(stream_state(*old(rng)), bound).0,
        stream_state(*final(rng)) == drawn_below(stream_state(*old(rng)), bound).1,
{
    rng.gen_range(0..bound)
}

/// Calls `SliceRandom::shuffle`. Trusted: the shuffle only swaps entries, so
/// the values keep their multiplicities, and arrangement and new position
/// are functions of the old position and the old arrangement.
#[verifier::external_body]
pub(crate) fn shuffle_values(rng: &mut ChaCha8Rng, values: &mut Vec<i64>)
    ensures
        final(values)@.to_multiset() == old(values)@.to_multiset(),
        final(values)@ == shuffled(stream_state(*old(rng)), old(values)@).0,
        stream_state(*final(rng)) == shuffled(stream_state(*old(rng)), old(values)@).1,
{
    values.shuffle(rng)
}

} // verus!
