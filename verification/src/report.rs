//! The texts that tell a user about a configuration: the message of each
//! error and warning, and the overview of a run.

use crate::config::{ConfigError, ConfigWarning, Configuration, Parameter, SchedulingMode};
use crate::text::{append, append_decimal, append_joined, append_signed, decimal, joined, signed_decimal};
use vstd::prelude::*;

verus! {

impl Parameter {
    /// The name of the parameter in messages.
    pub open spec fn spec_name(self) -> Seq<char> {
        match self {
            Parameter::SampleRate => "sample rate"@,
            Parameter::StimFrequency => "stimulation frequency"@,
            Parameter::StimDuration => "stimulation period"@,
            Parameter::CyclePeriod => "cycle period"@,
            Parameter::PauseCyclePeriod => "pauze cycle period"@,
            Parameter::Repetitions => "number of repetitions"@,
            Parameter::ShiftInterval => "phase shift interval"@,
        }
    }

    /// The name of the parameter in messages.
    pub fn name(self) -> (name: &'static str)
        ensures
            name@ == self.spec_name(),
    {
        match self {
            Parameter::SampleRate => "sample rate",
            Parameter::StimFrequency => "stimulation frequency",
            Parameter::StimDuration => "stimulation period",
            Parameter::CyclePeriod => "cycle period",
            Parameter::PauseCyclePeriod => "pauze cycle period",
            Parameter::Repetitions => "number of repetitions",
            Parameter::ShiftInterval => "phase shift interval",
        }
    }
}

impl ConfigError {
    /// The message that tells a user of the error.
    pub open spec fn spec_message(self) -> Seq<char> {
        match self {
            ConfigError::UnsupportedChannelCount =>
                "ERROR: This number of channels is not supported"@,
            ConfigError::ConflictingModes =>
                "ERROR: Conflicting command line options, choose either random of fixed phase shift mode."@,
            ConfigError::NonPositive(parameter) => "ERROR: The "@ + parameter.spec_name()
                + " must be positive"@,
        }
    }

    /// Builds the message that tells a user of the error.
    pub fn message(self) -> (message: String)
        ensures
            message@ == self.spec_message(),
    {
        let mut message: String = String::new();
        match self {
            ConfigError::UnsupportedChannelCount => {
                append(&mut message, "ERROR: This number of channels is not supported");
            },
            ConfigError::ConflictingModes => {
                append(
                    &mut message,
                    "ERROR: Conflicting command line options, choose either random of fixed phase shift mode.",
                );
            },
            ConfigError::NonPositive(parameter) => {
                append(&mut message, "ERROR: The ");
                append(&mut message, parameter.name());
                append(&mut message, " must be positive");
            },
        }
        message
    }
}

impl ConfigWarning {
    /// The message that tells a user of the warning.
    pub open spec fn spec_message(self) -> Seq<char> {
        match self {
            ConfigWarning::FrequencyMismatch =>
                "WARNING: Stimulation period and frequency do not match!"@,
            ConfigWarning::OverlappingPulses =>
                "WARNING: overlapping stimulation periods not supported!"@,
            ConfigWarning::DeadPauseCycle(pause) => "WARNING: This pauze will have no effect: "@
                + decimal(pause as nat),
            ConfigWarning::ShiftTooLarge(excess) => "WARNING: Phase shift is too large: "@
                + decimal(excess as nat) + "ms over limit"@,
        }
    }

    /// Builds the message that tells a user of the warning.
    pub fn message(self) -> (message: String)
        ensures
            message@ == self.spec_message(),
    {
        let mut message: String = String::new();
        match self {
            ConfigWarning::FrequencyMismatch => {
                append(&mut message, "WARNING: Stimulation period and frequency do not match!");
            },
            ConfigWarning::OverlappingPulses => {
                append(&mut message, "WARNING: overlapping stimulation periods not supported!");
            },
            ConfigWarning::DeadPauseCycle(pause) => {
                append(&mut message, "WARNING: This pauze will have no effect: ");
                append_decimal(&mut message, pause as u64);
            },
            ConfigWarning::ShiftTooLarge(excess) => {
                append(&mut message, "WARNING: Phase shift is too large: ");
                append_decimal(&mut message, excess);
                append(&mut message, "ms over limit");
            },
        }
        message
    }
}

impl Configuration {
    /// The line of the overview that tells the scheduling mode.
    pub open spec fn mode_line(&self) -> Seq<char> {
        match self.scheduling_mode {
            SchedulingMode::RandomPhaseShift(interval) =>
                "     Phaseshifted, random interval : "@ + decimal(interval as nat) + "ms\n"@,
            SchedulingMode::FixedPhaseShift => "     Phaseshifted, fixed interval\n"@,
            SchedulingMode::Blocked => "     Interleaved\n"@,
        }
    }

    /// The lines of the overview that tell the pause cycles.
    pub open spec fn pause_lines(&self) -> Seq<char> {
        if self.pause_cycles@.len() == 0 {
            "   Without pauzes\n"@
        } else {
            "   Pauze cycle period      : "@ + decimal(self.pause_cycle_period as nat) + "\n"@
                + "   Pauze on cycles         : ["@ + joined(self.pause_cycles@, ", "@) + "]\n"@
        }
    }

    /// The line of the overview that tells the seed.
    pub open spec fn seed_line(&self) -> Seq<char> {
        match self.seed {
            Some(seed) => "   Random seed             : "@ + signed_decimal(seed as int) + "\n"@,
            None => "   Randomized seed\n"@,
        }
    }

    /// The overview of a run of `seconds` seconds, line by line.
    pub open spec fn spec_overview(&self, seconds: u32) -> Seq<char> {
        "Generating FLAC output for:\n"@ + "   Channels [L/R]          : "@ + decimal(
            self.channels as nat,
        ) + "\n"@ + "   Sample Rate             : "@ + decimal(self.sample_rate_hz as nat)
            + "Hz\n"@ + "   Duration                : "@ + decimal(seconds as nat) + "s\n"@
            + "\n"@ + "   Stimulation details:\n"@ + "     Stimulation Frequency : "@ + decimal(
            self.stim_freq_hz as nat,
        ) + "Hz\n"@ + "     Stimulation Period    : "@ + decimal(self.stim_duration_ms as nat)
            + "ms\n"@ + "     Cycle Period          : "@ + decimal(self.cycle_period_ms as nat)
            + "ms\n"@ + "     Cycle repetitions     : "@ + decimal(self.repetitions as nat)
            + "\n"@ + "\n"@ + self.mode_line() + "\n"@ + self.pause_lines() + "\n"@
            + self.seed_line()
    }

    /// Builds the overview of a run of `seconds` seconds.
    pub fn overview(&self, seconds: u32) -> (overview: String)
        ensures
            overview@ == self.spec_overview(seconds),
    {
        let mut overview: String = String::new();
        append(&mut overview, "Generating FLAC output for:\n");
        append(&mut overview, "   Channels [L/R]          : ");
        append_decimal(&mut overview, self.channels as u64);
        append(&mut overview, "\n");
        append(&mut overview, "   Sample Rate             : ");
        append_decimal(&mut overview, self.sample_rate_hz as u64);
        append(&mut overview, "Hz\n");
        append(&mut overview, "   Duration                : ");
        append_decimal(&mut overview, seconds as u64);
        append(&mut overview, "s\n");
        append(&mut overview, "\n");
        append(&mut overview, "   Stimulation details:\n");
        append(&mut overview, "     Stimulation Frequency : ");
        append_decimal(&mut overview, self.stim_freq_hz as u64);
        append(&mut overview, "Hz\n");
        append(&mut overview, "     Stimulation Period    : ");
        append_decimal(&mut overview, self.stim_duration_ms as u64);
        append(&mut overview, "ms\n");
        append(&mut overview, "     Cycle Period          : ");
        append_decimal(&mut overview, self.cycle_period_ms as u64);
        append(&mut overview, "ms\n");
        append(&mut overview, "     Cycle repetitions     : ");
        append_decimal(&mut overview, self.repetitions as u64);
        append(&mut overview, "\n");
        append(&mut overview, "\n");
        match self.scheduling_mode {
            SchedulingMode::RandomPhaseShift(interval) => {
                append(&mut overview, "     Phaseshifted, random interval : ");
                append_decimal(&mut overview, interval as u64);
                append(&mut overview, "ms\n");
            },
            SchedulingMode::FixedPhaseShift => {
                append(&mut overview, "     Phaseshifted, fixed interval\n");
            },
            SchedulingMode::Blocked => {
                append(&mut overview, "     Interleaved\n");
            },
        }
        append(&mut overview, "\n");
        if self.pause_cycles.len() == 0 {
            append(&mut overview, "   Without pauzes\n");
        } else {
            append(&mut overview, "   Pauze cycle period      : ");
            append_decimal(&mut overview, self.pause_cycle_period as u64);
            append(&mut overview, "\n");
            append(&mut overview, "   Pauze on cycles         : [");
            append_joined(&mut overview, &self.pause_cycles, ", ");
            append(&mut overview, "]\n");
        }
        append(&mut overview, "\n");
        match self.seed {
            Some(seed) => {
                append(&mut overview, "   Random seed             : ");
                append_signed(&mut overview, seed);
                append(&mut overview, "\n");
            },
            None => {
                append(&mut overview, "   Randomized seed\n");
            },
        }
        assert(overview@ =~= self.spec_overview(seconds));
        overview
    }
}

} // verus!
