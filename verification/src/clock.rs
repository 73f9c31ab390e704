//! The cycle clock: which slot of a cycle, and which cycle of the pause
//! super-cycle, a sample falls into.
//!
//! All quotients truncate, so a slot is a contiguous run of samples.

use crate::arith::lemma_product_bound;
use crate::config::Configuration;
use vstd::prelude::*;

verus! {

impl Configuration {
    /// The length of one cycle in thousandths of a sample.
    pub open spec fn cycle_span(&self) -> int {
        self.sample_rate_hz * self.cycle_period_ms
    }

    /// The slot of the cycle that `sample` falls into.
    pub open spec fn spec_active_cycle(&self, sample: int) -> int {
        (sample * 1000 * self.channels / self.cycle_span()) % (self.channels as int)
    }

    /// The cycle of the pause super-cycle that `sample` falls into.
    pub open spec fn spec_pause_super_cycle(&self, sample: int) -> int {
        (sample * 1000 / self.cycle_span()) % (self.pause_cycle_period as int)
    }

    /// Whether every channel is silent at `sample`.
    pub open spec fn spec_in_pause(&self, sample: int) -> bool {
        self.pause_cycles@.contains(self.spec_pause_super_cycle(sample) as u32)
    }

    /// The length of a pulse in samples.
    pub open spec fn spec_pulse_samples(&self) -> int {
        self.stim_duration_ms * self.sample_rate_hz / 1000
    }

    /// The slots of a valid configuration are numbered below the channel
    /// count, and the pause cycles below the pause period.
    pub proof fn lemma_clock_ranges(&self, sample: int)
        requires
            self.valid(),
            0 <= sample,
        ensures
            0 < self.cycle_span() <= u32::MAX * u32::MAX,
            0 <= self.spec_active_cycle(sample) < self.channels,
            0 <= self.spec_pause_super_cycle(sample) < self.pause_cycle_period,
    {
        lemma_product_bound(
            self.sample_rate_hz as int,
            self.cycle_period_ms as int,
            u32::MAX as int,
            u32::MAX as int,
        );
        assert(self.cycle_span() > 0) by (nonlinear_arith)
            requires
                self.sample_rate_hz > 0,
                self.cycle_period_ms > 0,
                self.cycle_span() == self.sample_rate_hz * self.cycle_period_ms,
        ;
    }

    /// A run begins in the first slot.
    pub proof fn lemma_first_slot(&self)
        requires
            self.valid(),
        ensures
            self.spec_active_cycle(0) == 0,
    {
        self.lemma_clock_ranges(0);
        let span = self.cycle_span();
        let channels = self.channels as int;
        assert((0int * 1000 * channels / span) % channels == 0) by (nonlinear_arith)
            requires
                span > 0,
                channels > 0,
        ;
    }

    /// Computes the slot of the cycle that `sample` falls into.
    pub fn active_cycle(&self, sample: u64) -> (cycle: u32)
        requires
            self.valid(),
        ensures
            cycle == self.spec_active_cycle(sample as int),
            cycle < self.channels,
    {
        proof {
            self.lemma_clock_ranges(sample as int);
            lemma_product_bound(
                self.sample_rate_hz as int,
                self.cycle_period_ms as int,
                u32::MAX as int,
                u32::MAX as int,
            );
            lemma_product_bound(
                sample * 1000,
                self.channels as int,
                u64::MAX * 1000,
                u32::MAX as int,
            );
        }
        let span: u128 = self.sample_rate_hz as u128 * self.cycle_period_ms as u128;
        let slots: u128 = sample as u128 * 1000 * self.channels as u128;
        ((slots / span) % self.channels as u128) as u32
    }

    /// Computes the cycle of the pause super-cycle that `sample` falls into.
    pub fn pause_super_cycle(&self, sample: u64) -> (cycle: u32)
        requires
            self.valid(),
        ensures
            cycle == self.spec_pause_super_cycle(sample as int),
            cycle < self.pause_cycle_period,
    {
        proof {
            self.lemma_clock_ranges(sample as int);
            lemma_product_bound(
                self.sample_rate_hz as int,
                self.cycle_period_ms as int,
                u32::MAX as int,
                u32::MAX as int,
            );
        }
        let span: u128 = self.sample_rate_hz as u128 * self.cycle_period_ms as u128;
        let millis: u128 = sample as u128 * 1000;
        ((millis / span) % self.pause_cycle_period as u128) as u32
    }

    /// Tells whether `sample` lies in a pause cycle.
    pub fn in_pause(&self, sample: u64) -> (paused: bool)
        requires
            self.valid(),
        ensures
            paused == self.spec_in_pause(sample as int),
    {
        let current: u32 = self.pause_super_cycle(sample);
        let mut index: usize = 0;
        while index < self.pause_cycles.len()
            invariant
                index <= self.pause_cycles.len(),
                current == self.spec_pause_super_cycle(sample as int),
                forall|k: int| 0 <= k < index ==> self.pause_cycles@[k] != current,
            decreases self.pause_cycles.len() - index,
        {
            if self.pause_cycles[index] == current {
                return true;
            }
            index += 1;
        }
        false
    }

    /// The number of samples in `seconds` seconds of output.
    pub open spec fn spec_run_length(&self, seconds: u32) -> int {
        seconds * self.sample_rate_hz
    }

    /// Computes the number of samples in `seconds` seconds of output.
    pub fn run_length(&self, seconds: u32) -> (samples: u64)
        ensures
            samples == self.spec_run_length(seconds),
    {
        proof {
            lemma_product_bound(
                seconds as int,
                self.sample_rate_hz as int,
                u32::MAX as int,
                u32::MAX as int,
            );
        }
        seconds as u64 * self.sample_rate_hz as u64
    }

    /// Computes the length of a pulse in samples.
    pub fn pulse_samples(&self) -> (length: u64)
        ensures
            length == self.spec_pulse_samples(),
    {
        proof {
            lemma_product_bound(
                self.stim_duration_ms as int,
                self.sample_rate_hz as int,
                u32::MAX as int,
                u32::MAX as int,
            );
        }
        self.stim_duration_ms as u64 * self.sample_rate_hz as u64 / 1000
    }
}

} // verus!
