//! What holds of every run, stated over the views of its states.

use crate::config::{Configuration, HANDS};
use crate::order::identity_order;
use crate::sequencer::SequencerView;
use crate::stream::seeded_state;
use crate::tone::Tone;
use vstd::prelude::*;

verus! {

/// Whether `states` are the states of a run under `config` from its
/// beginning on, tick by tick, on a random stream that starts at `stream`.
pub open spec fn is_run(
    states: Seq<SequencerView>,
    config: &Configuration,
    stream: Seq<u8>,
) -> bool {
    &&& states.len() > 0
    &&& states[0] == SequencerView::initial(config, stream)
    &&& forall|tick: int|
        0 <= tick < states.len() - 1 ==> #[trigger] states[tick + 1] == states[tick].advanced(
            config,
        )
}

/// Two runs of equal length under one configuration and one seed pass
/// through the same states and produce the same frames.
pub proof fn lemma_reproducible(
    config: &Configuration,
    seed: u64,
    first: Seq<SequencerView>,
    second: Seq<SequencerView>,
)
    requires
        is_run(first, config, seeded_state(seed)),
        is_run(second, config, seeded_state(seed)),
        first.len() == second.len(),
    ensures
        first == second,
        forall|tick: int|
            0 <= tick < first.len() ==> first[tick].frame(config) == second[tick].frame(config),
{
    lemma_runs_agree(config, seed, first, second, first.len() - 1);
    assert forall|tick: int| 0 <= tick < first.len() implies first[tick] == second[tick] by {
        lemma_runs_agree(config, seed, first, second, tick);
    }
}

/// Two runs under one configuration and one seed agree at every tick that
/// both have reached.
pub proof fn lemma_runs_agree(
    config: &Configuration,
    seed: u64,
    first: Seq<SequencerView>,
    second: Seq<SequencerView>,
    tick: int,
)
    requires
        is_run(first, config, seeded_state(seed)),
        is_run(second, config, seeded_state(seed)),
        0 <= tick < first.len(),
        tick < second.len(),
    ensures
        first[tick] == second[tick],
    decreases tick,
{
    if tick > 0 {
        lemma_runs_agree(config, seed, first, second, tick - 1);
        assert(second[(tick - 1) + 1] == second[tick - 1].advanced(config));
    }
}

/// Every state of a run meets the invariant: its slot is the one that the
/// clock gives, its slot start is where that slot began, and both hands
/// have the schedule that the mode calls for.
pub proof fn lemma_run_invariant(
    states: Seq<SequencerView>,
    config: &Configuration,
    stream: Seq<u8>,
    tick: int,
)
    requires
        config.valid(),
        is_run(states, config, stream),
        0 <= tick < states.len(),
        tick <= u64::MAX,
    ensures
        states[tick].inv(config),
        states[tick].sample == tick,
    decreases tick,
{
    if tick == 0 {
        SequencerView::lemma_initial(config, stream);
    } else {
        lemma_run_invariant(states, config, stream, tick - 1);
        states[tick - 1].lemma_advanced(config);
        assert(states[(tick - 1) + 1] == states[tick - 1].advanced(config));
    }
}

/// Whenever a run renews its schedule, no hand gets a channel order that
/// begins with the channel on which its previous order ended; between
/// renewals the schedule stays as it is.
pub proof fn lemma_run_avoids_repeat(
    states: Seq<SequencerView>,
    config: &Configuration,
    stream: Seq<u8>,
    tick: int,
)
    requires
        config.valid(),
        is_run(states, config, stream),
        0 <= tick < states.len() - 1,
        tick < u64::MAX,
    ensures
        states[tick].renews(config) ==> states[tick + 1].avoids_repeat(states[tick], config),
        !states[tick].renews(config) ==> states[tick + 1].channel_order
            == states[tick].channel_order,
{
    lemma_run_invariant(states, config, stream, tick);
    states[tick].lemma_advanced(config);
}

/// In a pause cycle every frame of a run is silent.
pub proof fn lemma_run_pause_silence(
    states: Seq<SequencerView>,
    config: &Configuration,
    stream: Seq<u8>,
    tick: int,
)
    requires
        is_run(states, config, stream),
        0 <= tick < states.len(),
        config.spec_in_pause(states[tick].sample),
    ensures
        forall|i: int|
            0 <= i < states[tick].frame(config).len() ==> states[tick].frame(config)[i]
                == Tone::Silent,
{
    lemma_pause_silence(states[tick], config);
}

/// Without randomisation both hands have the natural order in every state
/// of a run.
pub proof fn lemma_run_unrandomized(
    states: Seq<SequencerView>,
    config: &Configuration,
    stream: Seq<u8>,
    tick: int,
)
    requires
        is_run(states, config, stream),
        config.scheduling_mode is Blocked,
        !config.randomize,
        0 <= tick < states.len(),
    ensures
        states[tick].channel_order == seq![
            identity_order(config.channels as nat),
            identity_order(config.channels as nat),
        ],
    decreases tick,
{
    if tick == 0 {
        lemma_unrandomized_order(states[0], config, stream);
    } else {
        lemma_run_unrandomized(states, config, stream, tick - 1);
        lemma_unrandomized_run(states[tick - 1], config);
        assert(states[(tick - 1) + 1] == states[tick - 1].advanced(config));
    }
}

/// At a sample in a pause cycle every tone of the frame is silent, whatever
/// the schedule.
pub proof fn lemma_pause_silence(state: SequencerView, config: &Configuration)
    requires
        config.spec_in_pause(state.sample),
    ensures
        forall|i: int|
            0 <= i < state.frame(config).len() ==> state.frame(config)[i] == Tone::Silent,
{
}

/// In blocked mode, outside a pause, the channel that has the slot sounds
/// with sine argument zero at the sample at which the slot begins.
pub proof fn lemma_slot_onset(state: SequencerView, config: &Configuration, hand: int)
    requires
        state.inv(config),
        config.scheduling_mode is Blocked,
        !config.spec_in_pause(state.sample),
        state.sample == state.cycle_start,
        0 <= hand < HANDS,
    ensures
        state.tone(config, hand, state.channel_order[hand][state.cycle] as int) == Tone::Sine(0),
{
    config.lemma_onset_zero(state.channel_order[hand][state.cycle], 0, state.cycle_start);
}

/// In blocked mode the channel that the order of a hand names for the slot
/// is one of the hand's channels, and no other channel of the hand sounds.
pub proof fn lemma_one_active_channel(state: SequencerView, config: &Configuration, hand: int)
    requires
        state.inv(config),
        config.scheduling_mode is Blocked,
        0 <= hand < HANDS,
    ensures
        0 <= state.channel_order[hand][state.cycle] < config.channels,
        forall|channel: int|
            state.tone(config, hand, channel) is Sine ==> channel
                == state.channel_order[hand][state.cycle],
{
    config.lemma_clock_ranges(state.sample);
}

/// Without randomisation every generation gives both hands the natural
/// order, at the beginning of a run and at every renewal, and leaves the
/// random stream where it was.
pub proof fn lemma_unrandomized_order(state: SequencerView, config: &Configuration, stream: Seq<u8>)
    requires
        config.scheduling_mode is Blocked,
        !config.randomize,
    ensures
        state.regenerated(config).channel_order == seq![
            identity_order(config.channels as nat),
            identity_order(config.channels as nat),
        ],
        SequencerView::initial(config, stream).channel_order == seq![
            identity_order(config.channels as nat),
            identity_order(config.channels as nat),
        ],
        state.regenerated(config).stream == state.stream,
{
}

/// Without randomisation the natural order, once set, stays through every
/// tick.
pub proof fn lemma_unrandomized_run(state: SequencerView, config: &Configuration)
    requires
        config.scheduling_mode is Blocked,
        !config.randomize,
        state.channel_order == seq![
            identity_order(config.channels as nat),
            identity_order(config.channels as nat),
        ],
    ensures
        state.advanced(config).channel_order == state.channel_order,
{
}

} // verus!
