//! The delay generator of the phase-shift modes.
//!
//! Instead of taking turns, every channel starts its pulse a number of
//! samples after the start of the slot. The delays of one hand are either
//! drawn at random from an interval or taken from a fixed ladder; in both
//! cases they are shuffled over the channels, and one of them is zero.

use crate::arith::{lemma_product_bound, lemma_quotient_bound};
use crate::config::{Configuration, SchedulingMode, MAX_CHANNELS};
use crate::stream::{draw_at, draw_below, shuffle_at, shuffle_values, stream_state};
use rand_chacha::ChaCha8Rng;
use vstd::prelude::*;

verus! {

/// The delays of `count` channels before they are shuffled, drawn from
/// position `state` on, and the position after the last draw. The first
/// channel is not delayed; each further one is delayed by a number drawn
/// below `bound`, or not at all where `bound` leaves no number to draw.
pub open spec fn drawn_delays(state: Seq<u8>, count: nat, bound: i64) -> (Seq<i64>, Seq<u8>)
    decreases count,
{
    if count == 0 {
        (Seq::empty(), state)
    } else if count == 1 {
        (seq![0i64], state)
    } else {
        let before = drawn_delays(state, (count - 1) as nat, bound);
        if bound > 0 {
            let draw = draw_at(before.1, bound);
            (before.0.push(draw.0), draw.1)
        } else {
            (before.0.push(0i64), before.1)
        }
    }
}

/// The shuffled random delays generated at position `state`, and the
/// position after the generation.
pub open spec fn generated_random_delays(
    state: Seq<u8>,
    channels: nat,
    bound: i64,
) -> (Seq<i64>, Seq<u8>) {
    let drawn = drawn_delays(state, channels, bound);
    shuffle_at(drawn.1, drawn.0)
}

/// Whether every delay is at least zero and below `bound`, with zero
/// allowed whatever the bound.
pub open spec fn delays_within(delays: Seq<i64>, bound: i64) -> bool {
    forall|i: int|
        0 <= i < delays.len() ==> 0 <= #[trigger] delays[i] && (delays[i] < bound || delays[i]
            == 0)
}

/// A rearrangement has the length of what was rearranged, and the two hold
/// the same values.
pub proof fn lemma_rearranged_values(from: Seq<i64>, to: Seq<i64>)
    requires
        to.to_multiset() == from.to_multiset(),
    ensures
        to.len() == from.len(),
        forall|i: int| 0 <= i < to.len() ==> from.contains(#[trigger] to[i]),
        forall|i: int| 0 <= i < from.len() ==> to.contains(#[trigger] from[i]),
{
    broadcast use {vstd::seq_lib::to_multiset_len, vstd::seq_lib::to_multiset_contains};

    assert(from.to_multiset().len() == from.len());
    assert forall|i: int| 0 <= i < to.len() implies from.contains(#[trigger] to[i]) by {
        assert(from.to_multiset().count(to[i]) > 0);
    }
    assert forall|i: int| 0 <= i < from.len() implies to.contains(#[trigger] from[i]) by {
        assert(to.to_multiset().count(from[i]) > 0);
    }
}

/// The delays drawn for one hand are as many as the hand has channels, lie
/// within the bound, and begin with the zero of the first channel.
pub proof fn lemma_drawn_delays(state: Seq<u8>, count: nat, bound: i64)
    requires
        count >= 1,
    ensures
        drawn_delays(state, count, bound).0.len() == count,
        drawn_delays(state, count, bound).0[0] == 0,
        delays_within(drawn_delays(state, count, bound).0, bound),
    decreases count,
{
    if count > 1 {
        lemma_drawn_delays(state, (count - 1) as nat, bound);
    }
}

/// The random delays of one hand are as many as the hand has channels, lie
/// within the bound, and one of them is zero.
pub proof fn lemma_generated_random_delays(state: Seq<u8>, channels: nat, bound: i64)
    requires
        channels >= 1,
    ensures
        generated_random_delays(state, channels, bound).0.len() == channels,
        delays_within(generated_random_delays(state, channels, bound).0, bound),
        generated_random_delays(state, channels, bound).0.contains(0i64),
{
    lemma_drawn_delays(state, channels, bound);
    let drawn = drawn_delays(state, channels, bound);
    let delays = generated_random_delays(state, channels, bound).0;
    lemma_rearranged_values(drawn.0, delays);
    assert(drawn.0[0] == 0);
    assert forall|i: int| 0 <= i < delays.len() implies 0 <= #[trigger] delays[i] && (delays[i]
        < bound || delays[i] == 0) by {
        assert(drawn.0.contains(delays[i]));
    }
}

impl Configuration {
    /// The fixed delays of one hand are the rungs of the ladder in some
    /// order; none of them is negative and one of them is zero.
    pub proof fn lemma_ladder_delays(&self, state: Seq<u8>)
        requires
            self.valid(),
        ensures
            shuffle_at(state, self.ladder()).0.to_multiset() == self.ladder().to_multiset(),
            shuffle_at(state, self.ladder()).0.len() == self.channels,
            forall|i: int|
                0 <= i < self.channels ==> 0 <= #[trigger] shuffle_at(state, self.ladder()).0[i],
            shuffle_at(state, self.ladder()).0.contains(0i64),
    {
        let ladder = self.ladder();
        let delays = shuffle_at(state, ladder).0;
        lemma_rearranged_values(ladder, delays);
        assert(ladder[0] == 0) by {
            self.lemma_ladder_rung_range(0);
            assert(self.spec_ladder_rung(0) == 0) by (nonlinear_arith)
                requires
                    self.spec_ladder_rung(0) == 0 * (1000int / (self.stim_freq_hz as int)) / 4
                        * self.sample_rate_hz / 1000,
            ;
        }
        assert forall|i: int| 0 <= i < self.channels implies 0 <= #[trigger] delays[i] by {
            assert(ladder.contains(delays[i]));
            let j = choose|j: int| 0 <= j < ladder.len() && ladder[j] == delays[i];
            self.lemma_ladder_rung_range(j);
        }
    }

    /// The number of samples below which random delays are drawn; zero
    /// outside the random phase-shift mode.
    pub open spec fn spec_shift_bound(&self) -> int {
        match self.scheduling_mode {
            SchedulingMode::RandomPhaseShift(interval) => interval * self.sample_rate_hz / 1000,
            _ => 0,
        }
    }

    /// The delay on rung `channel` of the quarter-period ladder.
    pub open spec fn spec_ladder_rung(&self, channel: int) -> int {
        channel * (1000int / (self.stim_freq_hz as int)) / 4 * self.sample_rate_hz / 1000
    }

    /// The ladder of fixed delays, one rung per channel.
    pub open spec fn ladder(&self) -> Seq<i64> {
        Seq::new(self.channels as nat, |channel: int| self.spec_ladder_rung(channel) as i64)
    }

    /// Every rung of the ladder is a delay of at least zero that fits the
    /// delay type.
    pub proof fn lemma_ladder_rung_range(&self, channel: int)
        requires
            self.valid(),
            0 <= channel <= MAX_CHANNELS,
        ensures
            0 <= self.spec_ladder_rung(channel) <= i64::MAX,
            0 <= channel * (1000int / (self.stim_freq_hz as int)) <= MAX_CHANNELS * 1000,
            0 <= channel * (1000int / (self.stim_freq_hz as int)) / 4 * self.sample_rate_hz
                <= MAX_CHANNELS * 250 * u32::MAX,
    {
        let per_period = 1000int / (self.stim_freq_hz as int);
        lemma_quotient_bound(1000, self.stim_freq_hz as int);
        lemma_product_bound(channel, per_period, MAX_CHANNELS as int, 1000);
        let quarter = channel * per_period / 4;
        lemma_product_bound(
            quarter,
            self.sample_rate_hz as int,
            MAX_CHANNELS * 250,
            u32::MAX as int,
        );
    }

    /// Computes the number of samples below which random delays are drawn.
    pub fn shift_bound(&self) -> (bound: i64)
        ensures
            bound == self.spec_shift_bound(),
    {
        match self.scheduling_mode {
            SchedulingMode::RandomPhaseShift(interval) => {
                proof {
                    lemma_product_bound(
                        interval as int,
                        self.sample_rate_hz as int,
                        u32::MAX as int,
                        u32::MAX as int,
                    );
                }
                (interval as u64 * self.sample_rate_hz as u64 / 1000) as i64
            },
            _ => 0,
        }
    }

    /// Computes the delay on rung `channel` of the quarter-period ladder.
    pub fn ladder_rung(&self, channel: u32) -> (delay: i64)
        requires
            self.valid(),
            channel <= MAX_CHANNELS,
        ensures
            delay == self.spec_ladder_rung(channel as int),
            0 <= delay,
    {
        proof {
            self.lemma_ladder_rung_range(channel as int);
        }
        let per_period: u64 = 1000 / self.stim_freq_hz as u64;
        let quarter: u64 = channel as u64 * per_period / 4;
        (quarter as u128 * self.sample_rate_hz as u128 / 1000) as i64
    }
}

/// Generates the random delays of one hand.
///
/// The first channel gets no delay and each further one a number of samples
/// drawn below `bound`; then the delays are shuffled over the channels. With
/// a `bound` below one nothing is drawn and every delay is zero.
pub fn random_delays(rng: &mut ChaCha8Rng, channels: u32, bound: i64) -> (delays: Vec<i64>)
    requires
        1 <= channels,
    ensures
        delays@ == generated_random_delays(stream_state(*old(rng)), channels as nat, bound).0,
        stream_state(*final(rng)) == generated_random_delays(
            stream_state(*old(rng)),
            channels as nat,
            bound,
        ).1,
        delays@.len() == channels,
        delays_within(delays@, bound),
        delays@.contains(0i64),
{
    let mut delays: Vec<i64> = Vec::new();
    delays.push(0);
    let mut filled: u32 = 1;
    while filled < channels
        invariant
            1 <= filled <= channels,
            delays@.len() == filled,
            delays@[0] == 0,
            delays_within(delays@, bound),
            (delays@, stream_state(*rng)) == drawn_delays(
                stream_state(*old(rng)),
                filled as nat,
                bound,
            ),
        decreases channels - filled,
    {
        let delay: i64 = if bound > 0 {
            draw_below(rng, bound)
        } else {
            0
        };
        delays.push(delay);
        filled += 1;
    }
    shuffle_values(rng, &mut delays);
    proof {
        lemma_generated_random_delays(stream_state(*old(rng)), channels as nat, bound);
    }
    delays
}

/// Generates the fixed delays of one hand: the rungs of the quarter-period
/// ladder, shuffled over the channels.
pub fn ladder_delays(rng: &mut ChaCha8Rng, config: &Configuration) -> (delays: Vec<i64>)
    requires
        config.valid(),
    ensures
        delays@ == shuffle_at(stream_state(*old(rng)), config.ladder()).0,
        stream_state(*final(rng)) == shuffle_at(stream_state(*old(rng)), config.ladder()).1,
        delays@.to_multiset() == config.ladder().to_multiset(),
        delays@.len() == config.channels,
        forall|i: int| 0 <= i < delays@.len() ==> 0 <= #[trigger] delays@[i],
        delays@.contains(0i64),
{
    let mut delays: Vec<i64> = Vec::new();
    let mut channel: u32 = 0;
    while channel < config.channels
        invariant
            config.valid(),
            channel <= config.channels,
            delays@.len() == channel,
            forall|i: int| 0 <= i < channel ==> delays@[i] == #[trigger] config.ladder()[i],
        decreases config.channels - channel,
    {
        let rung: i64 = config.ladder_rung(channel);
        delays.push(rung);
        channel += 1;
    }
    assert(delays@ =~= config.ladder());
    shuffle_values(rng, &mut delays);
    proof {
        config.lemma_ladder_delays(stream_state(*old(rng)));
    }
    delays
}

} // verus!
