//! The sequencer state machine.
//!
//! The state follows a sample counter through the slots of the cycle. It
//! notes where the current slot began, counts the events after which a
//! schedule is renewed, and holds the schedule of both hands together with
//! the random stream that renews it.

use crate::config::{ConfigError, Configuration, SchedulingMode, HANDS};
use crate::delay::{
    delays_within, generated_random_delays, ladder_delays, lemma_generated_random_delays,
    random_delays,
};
use crate::order::{
    generate_order, generated_order, is_permutation, lemma_generated_order, repeats,
};
use crate::stream::{entropy_stream, seeded_state, seeded_stream, shuffle_at, stream_state};
use crate::tone::Tone;
use rand_chacha::ChaCha8Rng;
use vstd::prelude::*;

verus! {

/// Why no sequencer could be set up.
#[derive(Clone, Copy, Debug, PartialEq, Eq, Structural)]
pub enum InitError {
    /// The configuration was refused for the reason held.
    Invalid(ConfigError),
    /// No seed was configured and the system had no entropy to give.
    EntropyUnavailable,
}

/// What a tick does to the clock part of the state.
#[derive(Clone, Copy, Debug, PartialEq, Eq, Structural)]
pub struct Tick {
    /// The slot that the new sample falls into.
    pub cycle: u32,
    /// The sample at which that slot began.
    pub cycle_start: u64,
    /// The count of events since the schedule was last renewed.
    pub repetition_counter: u32,
    /// Whether the schedule is renewed at this tick.
    pub renew: bool,
}

/// The state of a run as the contracts see it.
pub struct SequencerView {
    pub sample: int,
    pub cycle: int,
    pub cycle_start: int,
    pub repetition_counter: int,
    /// The channel order of each hand; used in blocked mode.
    pub channel_order: Seq<Seq<i64>>,
    /// The delay of each channel of each hand; used in the phase-shift modes.
    pub channel_delay: Seq<Seq<i64>>,
    /// The position of the random stream.
    pub stream: Seq<u8>,
}

/// The state of one run.
pub struct SequencerState {
    sample: u64,
    cycle: u32,
    cycle_start: u64,
    repetition_counter: u32,
    channel_order: Vec<Vec<i64>>,
    channel_delay: Vec<Vec<i64>>,
    rng: ChaCha8Rng,
}

impl Configuration {
    /// The clock part of the state after the tick that leads to `sample`.
    ///
    /// The slot start moves whenever the slot changes. An event is counted
    /// when the slot number falls in blocked mode, and whenever it changes
    /// in the phase-shift modes; the schedule is renewed at a counted event
    /// that finds the counter at the number of repetitions.
    pub open spec fn spec_tick(
        &self,
        sample: int,
        cycle: int,
        cycle_start: int,
        repetition_counter: int,
    ) -> Tick {
        let next = self.spec_active_cycle(sample);
        let counted = if self.scheduling_mode is Blocked {
            next < cycle
        } else {
            next != cycle
        };
        let renew = counted && repetition_counter >= self.repetitions;
        Tick {
            cycle: next as u32,
            cycle_start: if next != cycle {
                sample as u64
            } else {
                cycle_start as u64
            },
            repetition_counter: if !counted {
                repetition_counter as u32
            } else if renew {
                1
            } else {
                (repetition_counter + 1) as u32
            },
            renew,
        }
    }

    /// Decides what the tick that leads to `sample` does to the clock part
    /// of the state.
    pub fn tick(
        &self,
        sample: u64,
        cycle: u32,
        cycle_start: u64,
        repetition_counter: u32,
    ) -> (tick: Tick)
        requires
            self.valid(),
        ensures
            tick == self.spec_tick(
                sample as int,
                cycle as int,
                cycle_start as int,
                repetition_counter as int,
            ),
    {
        let next: u32 = self.active_cycle(sample);
        let counted: bool = match self.scheduling_mode {
            SchedulingMode::Blocked => next < cycle,
            _ => next != cycle,
        };
        let renew: bool = counted && repetition_counter >= self.repetitions;
        Tick {
            cycle: next,
            cycle_start: if next != cycle {
                sample
            } else {
                cycle_start
            },
            repetition_counter: if !counted {
                repetition_counter
            } else if renew {
                1
            } else {
                repetition_counter + 1
            },
            renew,
        }
    }
}

impl SequencerView {
    /// Whether `hand` has the schedule that the mode calls for: in blocked
    /// mode a permutation of the channels, in the phase-shift modes one
    /// delay per channel, none of them negative and one of them zero, drawn
    /// below the shift bound or taken from the ladder.
    pub open spec fn hand_scheduled(self, config: &Configuration, hand: int) -> bool {
        match config.scheduling_mode {
            SchedulingMode::Blocked => is_permutation(
                self.channel_order[hand],
                config.channels as nat,
            ),
            SchedulingMode::RandomPhaseShift(_) => {
                &&& self.channel_delay[hand].len() == config.channels
                &&& delays_within(self.channel_delay[hand], config.spec_shift_bound() as i64)
                &&& self.channel_delay[hand].contains(0i64)
            },
            SchedulingMode::FixedPhaseShift => {
                &&& self.channel_delay[hand].len() == config.channels
                &&& self.channel_delay[hand].to_multiset() == config.ladder().to_multiset()
                &&& self.channel_delay[hand].contains(0i64)
            },
        }
    }

    /// Whether no hand begins its channel order with the channel on which
    /// its order in `previous` ended. This is asked of randomised orders of
    /// two channels or more.
    pub open spec fn avoids_repeat(self, previous: SequencerView, config: &Configuration) -> bool {
        config.scheduling_mode is Blocked && config.randomize && config.channels >= 2 ==> {
            &&& !repeats(self.channel_order[0], previous.channel_order[0])
            &&& !repeats(self.channel_order[1], previous.channel_order[1])
        }
    }

    /// The invariant of a run under `config`: the configuration is valid;
    /// the slot is the one that the clock gives for the sample; the slot
    /// start is the sample at which that slot most recently began; the
    /// repetition counter lies between one and the number of repetitions;
    /// and both hands have the schedule that the mode calls for.
    pub open spec fn inv(self, config: &Configuration) -> bool {
        &&& config.valid()
        &&& 0 <= self.cycle_start <= self.sample <= u64::MAX
        &&& 0 <= self.cycle < config.channels
        &&& self.cycle == config.spec_active_cycle(self.sample)
        &&& forall|s: int|
            self.cycle_start <= s <= self.sample ==> #[trigger] config.spec_active_cycle(s)
                == self.cycle
        &&& self.cycle_start == 0 || config.spec_active_cycle(self.cycle_start - 1) != self.cycle
        &&& 1 <= self.repetition_counter <= config.repetitions
        &&& self.channel_order.len() == HANDS
        &&& self.channel_delay.len() == HANDS
        &&& self.hand_scheduled(config, 0)
        &&& self.hand_scheduled(config, 1)
    }

    /// The state with the schedule of both hands renewed, first hand first.
    pub open spec fn regenerated(self, config: &Configuration) -> SequencerView {
        let channels = config.channels as nat;
        match config.scheduling_mode {
            SchedulingMode::Blocked => {
                let first = generated_order(
                    self.stream,
                    channels,
                    self.channel_order[0],
                    config.randomize,
                );
                let second = generated_order(
                    first.1,
                    channels,
                    self.channel_order[1],
                    config.randomize,
                );
                SequencerView { channel_order: seq![first.0, second.0], stream: second.1, ..self }
            },
            SchedulingMode::RandomPhaseShift(_) => {
                let bound = config.spec_shift_bound() as i64;
                let first = generated_random_delays(self.stream, channels, bound);
                let second = generated_random_delays(first.1, channels, bound);
                SequencerView { channel_delay: seq![first.0, second.0], stream: second.1, ..self }
            },
            SchedulingMode::FixedPhaseShift => {
                let first = shuffle_at(self.stream, config.ladder());
                let second = shuffle_at(first.1, config.ladder());
                SequencerView { channel_delay: seq![first.0, second.0], stream: second.1, ..self }
            },
        }
    }

    /// The state at sample zero, before any schedule was generated, with
    /// the random stream at position `stream`.
    pub open spec fn blank(stream: Seq<u8>) -> SequencerView {
        SequencerView {
            sample: 0,
            cycle: 0,
            cycle_start: 0,
            repetition_counter: 1,
            channel_order: seq![Seq::empty(), Seq::empty()],
            channel_delay: seq![Seq::empty(), Seq::empty()],
            stream,
        }
    }

    /// The state in which a run begins.
    pub open spec fn initial(config: &Configuration, stream: Seq<u8>) -> SequencerView {
        Self::blank(stream).regenerated(config)
    }

    /// Whether the next tick renews the schedule.
    pub open spec fn renews(self, config: &Configuration) -> bool {
        config.spec_tick(
            self.sample + 1,
            self.cycle,
            self.cycle_start,
            self.repetition_counter,
        ).renew
    }

    /// The state one tick later.
    pub open spec fn advanced(self, config: &Configuration) -> SequencerView {
        let tick = config.spec_tick(
            self.sample + 1,
            self.cycle,
            self.cycle_start,
            self.repetition_counter,
        );
        let moved = SequencerView {
            sample: self.sample + 1,
            cycle: tick.cycle as int,
            cycle_start: tick.cycle_start as int,
            repetition_counter: tick.repetition_counter as int,
            ..self
        };
        if tick.renew {
            moved.regenerated(config)
        } else {
            moved
        }
    }

    /// Renewing the schedule touches nothing but the schedule and the
    /// stream. It gives both hands the schedule that the mode calls for, and
    /// no hand a channel order that begins where its previous one ended.
    pub proof fn lemma_regenerated(self, config: &Configuration)
        requires
            config.valid(),
            self.channel_order.len() == HANDS,
            self.channel_delay.len() == HANDS,
        ensures
            self.regenerated(config).sample == self.sample,
            self.regenerated(config).cycle == self.cycle,
            self.regenerated(config).cycle_start == self.cycle_start,
            self.regenerated(config).repetition_counter == self.repetition_counter,
            self.regenerated(config).channel_order.len() == HANDS,
            self.regenerated(config).channel_delay.len() == HANDS,
            self.regenerated(config).hand_scheduled(config, 0),
            self.regenerated(config).hand_scheduled(config, 1),
            self.regenerated(config).avoids_repeat(self, config),
    {
        let channels = config.channels as nat;
        match config.scheduling_mode {
            SchedulingMode::Blocked => {
                let first = generated_order(
                    self.stream,
                    channels,
                    self.channel_order[0],
                    config.randomize,
                );
                lemma_generated_order(
                    self.stream,
                    channels,
                    self.channel_order[0],
                    config.randomize,
                );
                lemma_generated_order(first.1, channels, self.channel_order[1], config.randomize);
            },
            SchedulingMode::RandomPhaseShift(_) => {
                let bound = config.spec_shift_bound() as i64;
                let first = generated_random_delays(self.stream, channels, bound);
                lemma_generated_random_delays(self.stream, channels, bound);
                lemma_generated_random_delays(first.1, channels, bound);
            },
            SchedulingMode::FixedPhaseShift => {
                let first = shuffle_at(self.stream, config.ladder());
                config.lemma_ladder_delays(self.stream);
                config.lemma_ladder_delays(first.1);
            },
        }
    }

    /// A run begins in a state that meets the invariant.
    pub proof fn lemma_initial(config: &Configuration, stream: Seq<u8>)
        requires
            config.valid(),
        ensures
            Self::initial(config, stream).inv(config),
            Self::initial(config, stream).sample == 0,
    {
        Self::blank(stream).lemma_regenerated(config);
        config.lemma_first_slot();
    }

    /// A tick keeps the invariant, and a tick that renews the schedule
    /// gives no hand a channel order that begins where its previous one
    /// ended.
    pub proof fn lemma_advanced(self, config: &Configuration)
        requires
            self.inv(config),
            self.sample < u64::MAX,
        ensures
            self.advanced(config).inv(config),
            self.advanced(config).sample == self.sample + 1,
            self.renews(config) ==> self.advanced(config).avoids_repeat(self, config),
            !self.renews(config) ==> self.advanced(config).channel_order == self.channel_order
                && self.advanced(config).channel_delay == self.channel_delay
                && self.advanced(config).stream == self.stream,
    {
        config.lemma_clock_ranges(self.sample + 1);
        let tick = config.spec_tick(
            self.sample + 1,
            self.cycle,
            self.cycle_start,
            self.repetition_counter,
        );
        let moved = SequencerView {
            sample: self.sample + 1,
            cycle: tick.cycle as int,
            cycle_start: tick.cycle_start as int,
            repetition_counter: tick.repetition_counter as int,
            ..self
        };
        if tick.renew {
            moved.lemma_regenerated(config);
        }
    }

    /// What `channel` of `hand` sounds at the current sample: nothing in a
    /// pause cycle, else the tone that the mode gives it.
    pub open spec fn tone(self, config: &Configuration, hand: int, channel: int) -> Tone {
        if config.spec_in_pause(self.sample) {
            Tone::Silent
        } else if config.scheduling_mode is Blocked {
            config.spec_blocked_tone(
                self.channel_order[hand][self.cycle],
                self.cycle_start,
                self.sample,
                channel,
            )
        } else {
            config.spec_shifted_tone(
                self.channel_delay[hand][channel],
                self.cycle_start,
                self.sample,
            )
        }
    }

    /// The tones of the channels of `hand`, in channel order.
    pub open spec fn hand_tones(self, config: &Configuration, hand: int) -> Seq<Tone> {
        Seq::new(config.channels as nat, |channel: int| self.tone(config, hand, channel))
    }

    /// The frame of the current sample: the tones of the first hand, then
    /// those of the second.
    pub open spec fn frame(self, config: &Configuration) -> Seq<Tone> {
        self.hand_tones(config, 0) + self.hand_tones(config, 1)
    }
}

impl View for SequencerState {
    type V = SequencerView;

    closed spec fn view(&self) -> SequencerView {
        SequencerView {
            sample: self.sample as int,
            cycle: self.cycle as int,
            cycle_start: self.cycle_start as int,
            repetition_counter: self.repetition_counter as int,
            channel_order: Seq::new(
                self.channel_order@.len(),
                |hand: int| self.channel_order@[hand]@,
            ),
            channel_delay: Seq::new(
                self.channel_delay@.len(),
                |hand: int| self.channel_delay@[hand]@,
            ),
            stream: stream_state(self.rng),
        }
    }
}

impl SequencerState {
    /// Renews the schedule of both hands, first hand first.
    fn regenerate(&mut self, config: &Configuration)
        requires
            config.valid(),
            old(self)@.channel_order.len() == HANDS,
            old(self)@.channel_delay.len() == HANDS,
        ensures
            final(self)@ == old(self)@.regenerated(config),
            final(self)@.channel_order.len() == HANDS,
            final(self)@.channel_delay.len() == HANDS,
            final(self)@.hand_scheduled(config, 0),
            final(self)@.hand_scheduled(config, 1),
            final(self)@.avoids_repeat(old(self)@, config),
    {
        match config.scheduling_mode {
            SchedulingMode::Blocked => {
                let first = generate_order(
                    &mut self.rng,
                    config.channels,
                    &self.channel_order[0],
                    config.randomize,
                );
                let second = generate_order(
                    &mut self.rng,
                    config.channels,
                    &self.channel_order[1],
                    config.randomize,
                );
                self.channel_order.set(0, first);
                self.channel_order.set(1, second);
                assert(self@.channel_order =~= seq![first@, second@]);
            },
            SchedulingMode::RandomPhaseShift(_) => {
                let bound: i64 = config.shift_bound();
                let first = random_delays(&mut self.rng, config.channels, bound);
                let second = random_delays(&mut self.rng, config.channels, bound);
                self.channel_delay.set(0, first);
                self.channel_delay.set(1, second);
                assert(self@.channel_delay =~= seq![first@, second@]);
            },
            SchedulingMode::FixedPhaseShift => {
                let first = ladder_delays(&mut self.rng, config);
                let second = ladder_delays(&mut self.rng, config);
                self.channel_delay.set(0, first);
                self.channel_delay.set(1, second);
                assert(self@.channel_delay =~= seq![first@, second@]);
            },
        }
    }

    /// Sets up a run on the given random stream.
    ///
    /// The configuration is validated first. The run begins at sample zero
    /// with a freshly generated schedule.
    pub fn with_stream(
        config: &Configuration,
        rng: ChaCha8Rng,
    ) -> (outcome: Result<SequencerState, ConfigError>)
        ensures
            outcome is Ok <==> config.valid(),
            match outcome {
                Ok(state) => state@ == SequencerView::initial(config, stream_state(rng))
                    && state@.inv(config),
                Err(error) => config.first_violation() == Some(error),
            },
    {
        match config.validate() {
            Err(error) => Err(error),
            Ok(()) => {
                let mut channel_order: Vec<Vec<i64>> = Vec::new();
                channel_order.push(Vec::new());
                channel_order.push(Vec::new());
                let mut channel_delay: Vec<Vec<i64>> = Vec::new();
                channel_delay.push(Vec::new());
                channel_delay.push(Vec::new());
                let mut state = SequencerState {
                    sample: 0,
                    cycle: 0,
                    cycle_start: 0,
                    repetition_counter: 1,
                    channel_order,
                    channel_delay,
                    rng,
                };
                assert(state@.channel_order =~= seq![Seq::empty(), Seq::empty()]);
                assert(state@.channel_delay =~= seq![Seq::empty(), Seq::empty()]);
                state.regenerate(config);
                proof {
                    config.lemma_first_slot();
                }
                Ok(state)
            },
        }
    }

    /// Sets up a run on a stream seeded as the configuration says: from the
    /// configured seed, or from the system's entropy where none is
    /// configured.
    pub fn initialize(config: &Configuration) -> (outcome: Result<SequencerState, InitError>)
        ensures
            match outcome {
                Ok(state) => {
                    &&& config.valid()
                    &&& state@.inv(config)
                    &&& exists|stream: Seq<u8>| state@ == SequencerView::initial(config, stream)
                    &&& forall|seed: i64|
                        config.seed == Some(seed) ==> state@ == SequencerView::initial(
                            config,
                            seeded_state(seed as u64),
                        )
                },
                Err(InitError::Invalid(error)) => config.first_violation() == Some(error),
                Err(InitError::EntropyUnavailable) => config.valid() && config.seed is None,
            },
            config.valid() && config.seed is Some ==> outcome is Ok,
    {
        match config.validate() {
            Err(error) => Err(InitError::Invalid(error)),
            Ok(()) => {
                let stream: Option<ChaCha8Rng> = match config.seed {
                    Some(seed) => Some(seeded_stream(seed as u64)),
                    None => entropy_stream(),
                };
                match stream {
                    None => Err(InitError::EntropyUnavailable),
                    Some(rng) => match Self::with_stream(config, rng) {
                        Ok(state) => Ok(state),
                        Err(error) => Err(InitError::Invalid(error)),
                    },
                }
            },
        }
    }

    /// Advances the run by one sample.
    pub fn advance(&mut self, config: &Configuration)
        requires
            old(self)@.inv(config),
            old(self)@.sample < u64::MAX,
        ensures
            final(self)@ == old(self)@.advanced(config),
            final(self)@.inv(config),
            final(self)@.sample == old(self)@.sample + 1,
            old(self)@.renews(config) ==> final(self)@.avoids_repeat(old(self)@, config),
    {
        let sample: u64 = self.sample + 1;
        let tick: Tick = config.tick(sample, self.cycle, self.cycle_start, self.repetition_counter);
        proof {
            config.lemma_clock_ranges(sample as int);
        }
        self.sample = sample;
        self.cycle = tick.cycle;
        self.cycle_start = tick.cycle_start;
        self.repetition_counter = tick.repetition_counter;
        if tick.renew {
            self.regenerate(config);
        }
    }

    /// Computes what `channel` of `hand` sounds at the current sample.
    pub fn tone(&self, config: &Configuration, hand: usize, channel: usize) -> (tone: Tone)
        requires
            self@.inv(config),
            hand < HANDS,
            channel < config.channels,
        ensures
            tone == self@.tone(config, hand as int, channel as int),
    {
        if config.in_pause(self.sample) {
            return Tone::Silent;
        }
        match config.scheduling_mode {
            SchedulingMode::Blocked => {
                proof {
                    config.lemma_clock_ranges(self.sample as int);
                }
                let active: i64 = self.channel_order[hand][self.cycle as usize];
                config.blocked_tone(active, self.cycle_start, self.sample, channel)
            },
            _ => {
                let delay: i64 = self.channel_delay[hand][channel];
                config.shifted_tone(delay, self.cycle_start, self.sample)
            },
        }
    }

    /// Assembles the frame of the current sample, ordered by hand and then
    /// by channel.
    pub fn frame(&self, config: &Configuration) -> (frame: Vec<Tone>)
        requires
            self@.inv(config),
        ensures
            frame@ == self@.frame(config),
            frame@.len() == HANDS * config.channels,
            config.spec_in_pause(self@.sample) ==> forall|i: int|
                0 <= i < frame@.len() ==> frame@[i] == Tone::Silent,
    {
        let channels: usize = config.channels as usize;
        let mut frame: Vec<Tone> = Vec::new();
        let mut channel: usize = 0;
        while channel < channels
            invariant
                self@.inv(config),
                channels == config.channels,
                channel <= channels,
                frame@ == self@.hand_tones(config, 0).take(channel as int),
            decreases channels - channel,
        {
            let tone: Tone = self.tone(config, 0, channel);
            frame.push(tone);
            channel += 1;
        }
        channel = 0;
        while channel < channels
            invariant
                self@.inv(config),
                channels == config.channels,
                channel <= channels,
                frame@ == self@.hand_tones(config, 0) + self@.hand_tones(config, 1).take(
                    channel as int,
                ),
            decreases channels - channel,
        {
            let tone: Tone = self.tone(config, 1, channel);
            frame.push(tone);
            channel += 1;
        }
        frame
    }

    /// Advances the run by one sample and assembles the frame of the new
    /// sample. In a pause cycle every tone of the frame is silent.
    pub fn advance_and_sample(&mut self, config: &Configuration) -> (frame: Vec<Tone>)
        requires
            old(self)@.inv(config),
            old(self)@.sample < u64::MAX,
        ensures
            final(self)@ == old(self)@.advanced(config),
            final(self)@.inv(config),
            old(self)@.renews(config) ==> final(self)@.avoids_repeat(old(self)@, config),
            frame@ == final(self)@.frame(config),
            frame@.len() == HANDS * config.channels,
            config.spec_in_pause(old(self)@.sample + 1) ==> forall|i: int|
                0 <= i < frame@.len() ==> frame@[i] == Tone::Silent,
    {
        self.advance(config);
        self.frame(config)
    }

    /// The sample counter.
    pub fn sample(&self) -> (sample: u64)
        ensures
            sample == self@.sample,
    {
        self.sample
    }

    /// The slot that the current sample falls into.
    pub fn cycle(&self) -> (cycle: u32)
        ensures
            cycle == self@.cycle,
    {
        self.cycle
    }

    /// The sample at which the current slot began.
    pub fn cycle_start(&self) -> (start: u64)
        ensures
            start == self@.cycle_start,
    {
        self.cycle_start
    }

    /// The count of events since the schedule was last renewed.
    pub fn repetition_counter(&self) -> (count: u32)
        ensures
            count == self@.repetition_counter,
    {
        self.repetition_counter
    }

    /// The channel order of `hand`, or nothing where there is no such hand.
    pub fn channel_order(&self, hand: usize) -> (order: Option<Vec<i64>>)
        ensures
            match order {
                Some(order) => hand < self@.channel_order.len() && order@
                    == self@.channel_order[hand as int],
                None => hand >= self@.channel_order.len(),
            },
    {
        if hand < self.channel_order.len() {
            Some(copy_of(&self.channel_order[hand]))
        } else {
            None
        }
    }

    /// The channel delays of `hand`, or nothing where there is no such hand.
    pub fn channel_delay(&self, hand: usize) -> (delays: Option<Vec<i64>>)
        ensures
            match delays {
                Some(delays) => hand < self@.channel_delay.len() && delays@
                    == self@.channel_delay[hand as int],
                None => hand >= self@.channel_delay.len(),
            },
    {
        if hand < self.channel_delay.len() {
            Some(copy_of(&self.channel_delay[hand]))
        } else {
            None
        }
    }
}

/// Copies a list of numbers.
fn copy_of(values: &Vec<i64>) -> (copy: Vec<i64>)
    ensures
        copy@ == values@,
{
    let mut copy: Vec<i64> = Vec::new();
    let mut index: usize = 0;
    while index < values.len()
        invariant
            index <= values.len(),
            copy@ == values@.take(index as int),
        decreases values.len() - index,
    {
        copy.push(values[index]);
        index += 1;
    }
    copy
}

} // verus!
