//! Run parameters, their validation and the advisory warnings about them.

use crate::arith::{lemma_product_bound, lemma_quotient_below};
use vstd::prelude::*;

verus! {

/// Number of independent channel groups.
pub const HANDS: usize = 2;

/// Largest supported channel count per hand. A frame of `HANDS * channels`
/// values can then be indexed on every platform.
pub const MAX_CHANNELS: u32 = 0x7fff_ffff;

/// How pulses are placed within a cycle.
#[derive(Clone, Copy, Debug, PartialEq, Eq, Structural)]
pub enum SchedulingMode {
    /// One channel per slot, in the order of the current permutation.
    Blocked,
    /// Every channel starts its pulse after a random delay drawn from an
    /// interval given in milliseconds.
    RandomPhaseShift(u32),
    /// Every channel starts its pulse on a rung of a quarter-period ladder.
    FixedPhaseShift,
}

/// The numeric parameters that must be positive.
#[derive(Clone, Copy, Debug, PartialEq, Eq, Structural)]
pub enum Parameter {
    SampleRate,
    StimFrequency,
    StimDuration,
    CyclePeriod,
    PauseCyclePeriod,
    Repetitions,
    ShiftInterval,
}

/// Why a configuration is refused.
#[derive(Clone, Copy, Debug, PartialEq, Eq, Structural)]
pub enum ConfigError {
    /// The channel count is zero or above [`MAX_CHANNELS`].
    UnsupportedChannelCount,
    /// Random and fixed phase shift were selected together.
    ConflictingModes,
    /// The named parameter is zero.
    NonPositive(Parameter),
}

/// Advisory findings about a configuration; the run may proceed.
#[derive(Clone, Copy, Debug, PartialEq, Eq, Structural)]
pub enum ConfigWarning {
    /// The stimulation frequency is not a multiple of the number of pulses
    /// that fit into a second, so a pulse may end off a zero crossing.
    FrequencyMismatch,
    /// The pulses of all channels together are longer than the cycle.
    OverlappingPulses,
    /// The pause cycle with this index lies outside the pause period.
    DeadPauseCycle(u32),
    /// The phase shift interval exceeds the room of a slot by this many
    /// milliseconds.
    ShiftTooLarge(u64),
}

/// The parameters of one run.
#[derive(Clone, Debug)]
pub struct Configuration {
    /// Channels per hand.
    pub channels: u32,
    pub sample_rate_hz: u32,
    pub stim_freq_hz: u32,
    pub stim_duration_ms: u32,
    pub cycle_period_ms: u32,
    /// Length of the pause super-cycle, in cycles.
    pub pause_cycle_period: u32,
    /// Cycles of the pause super-cycle in which every channel is silent.
    pub pause_cycles: Vec<u32>,
    /// Number of counted cycle events for which a schedule is kept.
    pub repetitions: u32,
    /// Whether channel orders are shuffled.
    pub randomize: bool,
    pub scheduling_mode: SchedulingMode,
    /// Seed of the random stream; `None` asks for entropy.
    pub seed: Option<i64>,
}

/// The entries of `pauses` that lie at or beyond `period`, each as a warning,
/// in their order.
pub open spec fn dead_pauses(pauses: Seq<u32>, period: u32) -> Seq<ConfigWarning> {
    pauses.filter(|p: u32| p >= period).map_values(|p: u32| ConfigWarning::DeadPauseCycle(p))
}

impl SchedulingMode {
    /// The mode selected by the two phase shift options.
    pub open spec fn spec_from_options(
        shift_interval_ms: Option<u32>,
        fixed: bool,
    ) -> Result<SchedulingMode, ConfigError> {
        match shift_interval_ms {
            Some(interval) => if fixed {
                Err(ConfigError::ConflictingModes)
            } else {
                Ok(SchedulingMode::RandomPhaseShift(interval))
            },
            None => if fixed {
                Ok(SchedulingMode::FixedPhaseShift)
            } else {
                Ok(SchedulingMode::Blocked)
            },
        }
    }

    /// Selects the scheduling mode from a random shift interval and a flag
    /// for the fixed shift; both at once are refused.
    pub fn from_options(
        shift_interval_ms: Option<u32>,
        fixed: bool,
    ) -> (mode: Result<SchedulingMode, ConfigError>)
        ensures
            mode == Self::spec_from_options(shift_interval_ms, fixed),
    {
        match shift_interval_ms {
            Some(interval) => if fixed {
                Err(ConfigError::ConflictingModes)
            } else {
                Ok(SchedulingMode::RandomPhaseShift(interval))
            },
            None => if fixed {
                Ok(SchedulingMode::FixedPhaseShift)
            } else {
                Ok(SchedulingMode::Blocked)
            },
        }
    }
}

impl Configuration {
    /// The first rule that the configuration breaks, if any.
    pub open spec fn first_violation(&self) -> Option<ConfigError> {
        if self.channels == 0 || self.channels > MAX_CHANNELS {
            Some(ConfigError::UnsupportedChannelCount)
        } else if self.sample_rate_hz == 0 {
            Some(ConfigError::NonPositive(Parameter::SampleRate))
        } else if self.stim_freq_hz == 0 {
            Some(ConfigError::NonPositive(Parameter::StimFrequency))
        } else if self.stim_duration_ms == 0 {
            Some(ConfigError::NonPositive(Parameter::StimDuration))
        } else if self.cycle_period_ms == 0 {
            Some(ConfigError::NonPositive(Parameter::CyclePeriod))
        } else if self.pause_cycle_period == 0 {
            Some(ConfigError::NonPositive(Parameter::PauseCyclePeriod))
        } else if self.repetitions == 0 {
            Some(ConfigError::NonPositive(Parameter::Repetitions))
        } else if self.scheduling_mode == SchedulingMode::RandomPhaseShift(0) {
            Some(ConfigError::NonPositive(Parameter::ShiftInterval))
        } else {
            None
        }
    }

    /// A configuration on which the sequencer may run.
    pub open spec fn valid(&self) -> bool {
        &&& 1 <= self.channels <= MAX_CHANNELS
        &&& self.sample_rate_hz > 0
        &&& self.stim_freq_hz > 0
        &&& self.stim_duration_ms > 0
        &&& self.cycle_period_ms > 0
        &&& self.pause_cycle_period > 0
        &&& self.repetitions > 0
        &&& self.scheduling_mode != SchedulingMode::RandomPhaseShift(0)
    }

    /// Checks the configuration and names the first rule it breaks.
    pub fn validate(&self) -> (outcome: Result<(), ConfigError>)
        ensures
            outcome is Ok <==> self.valid(),
            outcome == match self.first_violation() {
                Some(error) => Err::<(), ConfigError>(error),
                None => Ok(()),
            },
    {
        if self.channels == 0 || self.channels > MAX_CHANNELS {
            return Err(ConfigError::UnsupportedChannelCount);
        }
        if self.sample_rate_hz == 0 {
            return Err(ConfigError::NonPositive(Parameter::SampleRate));
        }
        if self.stim_freq_hz == 0 {
            return Err(ConfigError::NonPositive(Parameter::StimFrequency));
        }
        if self.stim_duration_ms == 0 {
            return Err(ConfigError::NonPositive(Parameter::StimDuration));
        }
        if self.cycle_period_ms == 0 {
            return Err(ConfigError::NonPositive(Parameter::CyclePeriod));
        }
        if self.pause_cycle_period == 0 {
            return Err(ConfigError::NonPositive(Parameter::PauseCyclePeriod));
        }
        if self.repetitions == 0 {
            return Err(ConfigError::NonPositive(Parameter::Repetitions));
        }
        match self.scheduling_mode {
            SchedulingMode::RandomPhaseShift(interval) => {
                if interval == 0 {
                    return Err(ConfigError::NonPositive(Parameter::ShiftInterval));
                }
            },
            _ => {},
        }
        Ok(())
    }

    /// Whether the stimulation frequency fails to be a multiple of the
    /// number of pulses per second.
    pub open spec fn frequency_mismatch(&self) -> bool {
        let per_second = 1000int / (self.stim_duration_ms as int);
        per_second == 0 || self.stim_freq_hz as int % per_second != 0
    }

    /// Whether the pulses of all channels exceed the cycle period.
    pub open spec fn pulses_overlap(&self) -> bool {
        self.stim_duration_ms * self.channels > self.cycle_period_ms
    }

    /// By how many milliseconds a random shift interval exceeds a slot, if
    /// shifted pulses do not fit into the cycle.
    pub open spec fn shift_excess(&self) -> Option<int> {
        match self.scheduling_mode {
            SchedulingMode::RandomPhaseShift(interval) => if (interval + self.stim_duration_ms)
                * self.channels > self.cycle_period_ms {
                Some(
                    interval + self.stim_duration_ms - self.cycle_period_ms as int / (
                    self.channels as int),
                )
            } else {
                None
            },
            _ => None,
        }
    }

    /// All warnings about the configuration, in the order in which they are
    /// reported.
    pub open spec fn spec_warnings(&self) -> Seq<ConfigWarning> {
        (if self.frequency_mismatch() {
            seq![ConfigWarning::FrequencyMismatch]
        } else {
            Seq::empty()
        }) + (if self.pulses_overlap() {
            seq![ConfigWarning::OverlappingPulses]
        } else {
            Seq::empty()
        }) + dead_pauses(self.pause_cycles@, self.pause_cycle_period) + (match self.shift_excess() {
            Some(excess) => seq![ConfigWarning::ShiftTooLarge(excess as u64)],
            None => Seq::empty(),
        })
    }

    /// Collects the advisory warnings about a valid configuration.
    pub fn warnings(&self) -> (found: Vec<ConfigWarning>)
        requires
            self.valid(),
        ensures
            found@ == self.spec_warnings(),
    {
        let mut found: Vec<ConfigWarning> = Vec::new();
        let per_second: u32 = 1000 / self.stim_duration_ms;
        if per_second == 0 || self.stim_freq_hz % per_second != 0 {
            found.push(ConfigWarning::FrequencyMismatch);
        }
        proof {
            lemma_product_bound(
                self.stim_duration_ms as int,
                self.channels as int,
                u32::MAX as int,
                u32::MAX as int,
            );
        }
        if self.stim_duration_ms as u64 * self.channels as u64 > self.cycle_period_ms as u64 {
            found.push(ConfigWarning::OverlappingPulses);
        }
        let ghost head = found@;
        let mut index: usize = 0;
        while index < self.pause_cycles.len()
            invariant
                index <= self.pause_cycles.len(),
                found@ == head + dead_pauses(
                    self.pause_cycles@.take(index as int),
                    self.pause_cycle_period,
                ),
            decreases self.pause_cycles.len() - index,
        {
            let pause: u32 = self.pause_cycles[index];
            proof {
                let period = self.pause_cycle_period;
                let before = self.pause_cycles@.take(index as int);
                assert(self.pause_cycles@.take(index + 1) == before.push(pause));
                before.lemma_filter_push(pause, |p: u32| p >= period);
            }
            if pause >= self.pause_cycle_period {
                found.push(ConfigWarning::DeadPauseCycle(pause));
            }
            index += 1;
        }
        proof {
            assert(self.pause_cycles@.take(index as int) == self.pause_cycles@);
        }
        match self.scheduling_mode {
            SchedulingMode::RandomPhaseShift(interval) => {
                let span: u64 = interval as u64 + self.stim_duration_ms as u64;
                proof {
                    lemma_product_bound(
                        span as int,
                        self.channels as int,
                        2 * u32::MAX,
                        MAX_CHANNELS as int,
                    );
                }
                if span * self.channels as u64 > self.cycle_period_ms as u64 {
                    let slot: u64 = (self.cycle_period_ms / self.channels) as u64;
                    proof {
                        lemma_quotient_below(
                            self.cycle_period_ms as int,
                            self.channels as int,
                            span as int,
                        );
                    }
                    found.push(ConfigWarning::ShiftTooLarge(span - slot));
                }
            },
            _ => {},
        }
        found
    }
}

} // verus!
