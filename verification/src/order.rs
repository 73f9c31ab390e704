//! The channel-order generator of the blocked mode.
//!
//! An order is a permutation of the channel numbers of one hand. A new order
//! never begins with the channel on which the previous one ended, so that no
//! channel is stimulated twice in a row across a cycle boundary.

use crate::config::MAX_CHANNELS;
use crate::stream::{shuffle_at, shuffle_values, stream_state};
use rand_chacha::ChaCha8Rng;
use vstd::prelude::*;

verus! {

/// How often a shuffled order is drawn again before the generator settles
/// the repetition itself.
pub const REDRAW_LIMIT: u32 = 1000;

/// The channels in their natural order.
pub open spec fn identity_order(channels: nat) -> Seq<i64> {
    Seq::new(channels, |i: int| i as i64)
}

/// Whether `order` holds each of the channels `0..channels` exactly once.
pub open spec fn is_permutation(order: Seq<i64>, channels: nat) -> bool {
    &&& order.len() == channels
    &&& order.no_duplicates()
    &&& forall|i: int| 0 <= i < order.len() ==> 0 <= #[trigger] order[i] < channels
}

/// Whether `order` begins with the channel on which `previous` ended. An
/// empty `previous` stands for "no order yet" and is never repeated.
pub open spec fn repeats(order: Seq<i64>, previous: Seq<i64>) -> bool {
    order.len() > 0 && previous.len() > 0 && order.first() == previous.last()
}

/// `order` with its first two channels exchanged if it repeats `previous`
/// and has two channels to exchange; otherwise `order` itself.
pub open spec fn settled(order: Seq<i64>, previous: Seq<i64>) -> Seq<i64> {
    if repeats(order, previous) && order.len() >= 2 {
        order.update(0, order[1]).update(1, order[0])
    } else {
        order
    }
}

/// The attempt that ends a run of redraws: `attempt` itself if it does not
/// repeat `previous` or the budget is spent, else the outcome of shuffling
/// again from the position that the attempt left.
pub open spec fn redrawn(
    attempt: (Seq<i64>, Seq<u8>),
    channels: nat,
    previous: Seq<i64>,
    budget: nat,
) -> (Seq<i64>, Seq<u8>)
    decreases budget,
{
    if budget == 0 || !repeats(attempt.0, previous) {
        attempt
    } else {
        redrawn(
            shuffle_at(attempt.1, identity_order(channels)),
            channels,
            previous,
            (budget - 1) as nat,
        )
    }
}

/// The order generated at stream position `state`, and the position after
/// the generation.
pub open spec fn generated_order(
    state: Seq<u8>,
    channels: nat,
    previous: Seq<i64>,
    randomize: bool,
) -> (Seq<i64>, Seq<u8>) {
    if randomize {
        let last = redrawn(
            shuffle_at(state, identity_order(channels)),
            channels,
            previous,
            REDRAW_LIMIT as nat,
        );
        (settled(last.0, previous), last.1)
    } else {
        (identity_order(channels), state)
    }
}

/// The natural order is a permutation.
pub proof fn lemma_identity_is_permutation(channels: nat)
    requires
        channels <= MAX_CHANNELS,
    ensures
        is_permutation(identity_order(channels), channels),
{
}

/// Every rearrangement of the natural order is a permutation.
pub proof fn lemma_rearranged_is_permutation(order: Seq<i64>, channels: nat)
    requires
        channels <= MAX_CHANNELS,
        order.to_multiset() == identity_order(channels).to_multiset(),
    ensures
        is_permutation(order, channels),
{
    broadcast use {vstd::seq_lib::to_multiset_len, vstd::seq_lib::to_multiset_contains};

    let natural = identity_order(channels);
    assert(order.len() == channels) by {
        assert(natural.to_multiset().len() == natural.len());
    }
    assert forall|i: int| 0 <= i < order.len() implies 0 <= #[trigger] order[i] < channels by {
        assert(natural.to_multiset().count(order[i]) > 0);
        assert(natural.contains(order[i]));
    }
    natural.lemma_multiset_has_no_duplicates();
    order.lemma_multiset_has_no_duplicates_conv();
}

/// Settling keeps a permutation a permutation, and with two channels or
/// more the settled order does not repeat the previous one.
pub proof fn lemma_settled(order: Seq<i64>, previous: Seq<i64>, channels: nat)
    requires
        is_permutation(order, channels),
    ensures
        is_permutation(settled(order, previous), channels),
        channels >= 2 ==> !repeats(settled(order, previous), previous),
        !repeats(order, previous) ==> settled(order, previous) == order,
{
    if repeats(order, previous) && order.len() >= 2 {
        let fixed = settled(order, previous);
        assert(fixed[0] == order[1] && fixed[1] == order[0]);
        assert(forall|i: int| 2 <= i < fixed.len() ==> fixed[i] == order[i]);
    }
}

/// Redrawing a rearrangement of the natural order ends in one.
pub proof fn lemma_redrawn_rearranges(
    attempt: (Seq<i64>, Seq<u8>),
    channels: nat,
    previous: Seq<i64>,
    budget: nat,
)
    requires
        attempt.0.to_multiset() == identity_order(channels).to_multiset(),
    ensures
        redrawn(attempt, channels, previous, budget).0.to_multiset() == identity_order(
            channels,
        ).to_multiset(),
    decreases budget,
{
    if budget != 0 && repeats(attempt.0, previous) {
        lemma_redrawn_rearranges(
            shuffle_at(attempt.1, identity_order(channels)),
            channels,
            previous,
            (budget - 1) as nat,
        );
    }
}

/// Every generated order is a permutation of the channels. Without
/// randomisation it is the natural order and the stream stays where it was;
/// with randomisation and two channels or more it does not begin with the
/// channel on which the previous order ended.
pub proof fn lemma_generated_order(
    state: Seq<u8>,
    channels: nat,
    previous: Seq<i64>,
    randomize: bool,
)
    requires
        channels <= MAX_CHANNELS,
    ensures
        is_permutation(generated_order(state, channels, previous, randomize).0, channels),
        !randomize ==> generated_order(state, channels, previous, randomize) == (
            identity_order(channels),
            state,
        ),
        randomize && channels >= 2 ==> !repeats(
            generated_order(state, channels, previous, randomize).0,
            previous,
        ),
{
    lemma_identity_is_permutation(channels);
    if randomize {
        let first = shuffle_at(state, identity_order(channels));
        lemma_redrawn_rearranges(first, channels, previous, REDRAW_LIMIT as nat);
        let last = redrawn(first, channels, previous, REDRAW_LIMIT as nat);
        lemma_rearranged_is_permutation(last.0, channels);
        lemma_settled(last.0, previous, channels);
    }
}

/// Builds the natural order of `channels` channels.
pub fn natural_order(channels: u32) -> (order: Vec<i64>)
    ensures
        order@ == identity_order(channels as nat),
{
    let mut order: Vec<i64> = Vec::new();
    let mut next: u32 = 0;
    while next < channels
        invariant
            next <= channels,
            order@ == identity_order(next as nat),
        decreases channels - next,
    {
        order.push(next as i64);
        next += 1;
    }
    order
}

/// Tells whether `order` begins with the channel on which `previous` ended.
pub fn begins_with_last(order: &Vec<i64>, previous: &Vec<i64>) -> (same: bool)
    ensures
        same == repeats(order@, previous@),
{
    order.len() > 0 && previous.len() > 0 && order[0] == previous[previous.len() - 1]
}

/// Exchanges the first two channels of an order that repeats `previous`.
pub fn settle_order(order: Vec<i64>, previous: &Vec<i64>) -> (fixed: Vec<i64>)
    ensures
        fixed@ == settled(order@, previous@),
{
    let mut fixed = order;
    if fixed.len() >= 2 && begins_with_last(&fixed, previous) {
        let first: i64 = fixed[0];
        let second: i64 = fixed[1];
        fixed.set(0, second);
        fixed.set(1, first);
    }
    fixed
}

/// Generates the next channel order of one hand.
///
/// Without randomisation this is the natural order and the stream is left
/// alone. Otherwise the natural order is shuffled, and shuffled again while
/// the outcome repeats `previous`, at most [`REDRAW_LIMIT`] times over; an
/// order that still repeats is settled by exchanging its first two channels.
pub fn generate_order(
    rng: &mut ChaCha8Rng,
    channels: u32,
    previous: &Vec<i64>,
    randomize: bool,
) -> (order: Vec<i64>)
    requires
        1 <= channels <= MAX_CHANNELS,
    ensures
        order@ == generated_order(
            stream_state(*old(rng)),
            channels as nat,
            previous@,
            randomize,
        ).0,
        stream_state(*final(rng)) == generated_order(
            stream_state(*old(rng)),
            channels as nat,
            previous@,
            randomize,
        ).1,
        is_permutation(order@, channels as nat),
        !randomize ==> order@ == identity_order(channels as nat),
        randomize && channels >= 2 ==> !repeats(order@, previous@),
{
    let mut order = natural_order(channels);
    proof {
        lemma_generated_order(stream_state(*old(rng)), channels as nat, previous@, randomize);
    }
    if !randomize {
        return order;
    }
    shuffle_values(rng, &mut order);
    let ghost first = (order@, stream_state(*rng));
    let mut budget: u32 = REDRAW_LIMIT;
    while budget > 0 && begins_with_last(&order, previous)
        invariant
            redrawn((order@, stream_state(*rng)), channels as nat, previous@, budget as nat)
                == redrawn(first, channels as nat, previous@, REDRAW_LIMIT as nat),
        decreases budget,
    {
        order = natural_order(channels);
        shuffle_values(rng, &mut order);
        budget -= 1;
    }
    settle_order(order, previous)
}

} // verus!
