//! The name of the output file, which spells out the parameters of the run.

use crate::config::{Configuration, SchedulingMode};
use crate::text::{append, append_decimal, append_joined, append_signed, decimal, joined, signed_decimal};
use vstd::prelude::*;

verus! {

impl Configuration {
    /// The part of the file name that tells the scheduling mode.
    pub open spec fn mode_label(&self) -> Seq<char> {
        match self.scheduling_mode {
            SchedulingMode::Blocked => "Interleaved--"@,
            SchedulingMode::RandomPhaseShift(interval) => decimal(interval as nat)
                + "PhaseShifted--"@,
            SchedulingMode::FixedPhaseShift => "FixPhaseShifted--"@,
        }
    }

    /// The part of the file name that tells the pause cycles; empty where
    /// there are none.
    pub open spec fn pause_label(&self) -> Seq<char> {
        if self.pause_cycles@.len() == 0 {
            Seq::empty()
        } else {
            joined(self.pause_cycles@, "_"@) + "P"@ + decimal(self.pause_cycle_period as nat)
                + "--"@
        }
    }

    /// The part of the file name that tells the seed; empty where there is
    /// none.
    pub open spec fn seed_label(&self) -> Seq<char> {
        match self.seed {
            Some(seed) => signed_decimal(seed as int) + "RSEED--"@,
            None => Seq::empty(),
        }
    }

    /// The name of the file that takes `seconds` seconds of output.
    pub open spec fn spec_output_name(&self, seconds: u32) -> Seq<char> {
        "output/Sine-"@ + self.mode_label() + decimal(self.stim_freq_hz as nat) + "SFREQ-"@
            + decimal(self.stim_duration_ms as nat) + "SPER-"@ + decimal(
            self.cycle_period_ms as nat,
        ) + "CPER-"@ + decimal(self.repetitions as nat) + "R--"@ + self.pause_label()
            + self.seed_label() + decimal(self.channels as nat) + "LR-"@ + decimal(
            self.sample_rate_hz as nat,
        ) + "Hz-"@ + decimal(seconds as nat) + "s"@ + ".flac"@
    }

    /// Builds the name of the file that takes `seconds` seconds of output.
    pub fn output_name(&self, seconds: u32) -> (name: String)
        ensures
            name@ == self.spec_output_name(seconds),
    {
        let mut name: String = String::new();
        append(&mut name, "output/Sine-");
        match self.scheduling_mode {
            SchedulingMode::Blocked => {
                append(&mut name, "Interleaved--");
            },
            SchedulingMode::RandomPhaseShift(interval) => {
                append_decimal(&mut name, interval as u64);
                append(&mut name, "PhaseShifted--");
            },
            SchedulingMode::FixedPhaseShift => {
                append(&mut name, "FixPhaseShifted--");
            },
        }
        append_decimal(&mut name, self.stim_freq_hz as u64);
        append(&mut name, "SFREQ-");
        append_decimal(&mut name, self.stim_duration_ms as u64);
        append(&mut name, "SPER-");
        append_decimal(&mut name, self.cycle_period_ms as u64);
        append(&mut name, "CPER-");
        append_decimal(&mut name, self.repetitions as u64);
        append(&mut name, "R--");
        let ghost head = name@;
        if self.pause_cycles.len() > 0 {
            append_joined(&mut name, &self.pause_cycles, "_");
            append(&mut name, "P");
            append_decimal(&mut name, self.pause_cycle_period as u64);
            append(&mut name, "--");
        }
        match self.seed {
            Some(seed) => {
                append_signed(&mut name, seed);
                append(&mut name, "RSEED--");
            },
            None => {},
        }
        assert(name@ =~= head + self.pause_label() + self.seed_label());
        append_decimal(&mut name, self.channels as u64);
        append(&mut name, "LR-");
        append_decimal(&mut name, self.sample_rate_hz as u64);
        append(&mut name, "Hz-");
        append_decimal(&mut name, seconds as u64);
        append(&mut name, "s");
        append(&mut name, ".flac");
        name
    }
}

} // verus!
