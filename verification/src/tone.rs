//! The tone synthesiser: what one channel sounds at one sample.
//!
//! A pulse is a sine whose argument grows with the samples elapsed since the
//! pulse began. The synthesiser works on integers throughout and hands out
//! the numerator `n` of the argument `n * pi / sample_rate_hz`; the sine
//! itself is taken by the caller.
//!
//! In blocked mode one channel per hand has the slot. In the phase-shift
//! modes every channel has a window of its own, placed by its delay; a
//! negative delay opens the window before the slot begins. Windows of
//! different channels may overlap, and then each channel sounds regardless
//! of the others.

use crate::arith::lemma_product_bound;
use crate::config::Configuration;
use vstd::prelude::*;
use vstd::set_lib::{lemma_int_range, lemma_len_subset, set_int_range};

verus! {

/// What a channel sounds at one sample.
#[derive(Clone, Copy, Debug, PartialEq, Eq, Structural)]
pub enum Tone {
    /// Amplitude zero.
    Silent,
    /// Amplitude `sin(n * pi / sample_rate_hz)` for the number `n` held.
    Sine(u128),
}

impl Configuration {
    /// The numerator of the sine argument `elapsed` samples into a pulse.
    pub open spec fn spec_phase(&self, elapsed: int) -> int {
        elapsed * self.stim_freq_hz * 2
    }

    /// The tone of `channel` in blocked mode, where `active_channel` has
    /// the slot that began at `cycle_start`: the active channel sounds until
    /// the pulse length has elapsed, every other channel is silent.
    pub open spec fn spec_blocked_tone(
        &self,
        active_channel: i64,
        cycle_start: int,
        sample: int,
        channel: int,
    ) -> Tone {
        let elapsed = sample - cycle_start;
        if channel == active_channel && elapsed <= self.spec_pulse_samples() {
            Tone::Sine(self.spec_phase(elapsed) as u128)
        } else {
            Tone::Silent
        }
    }

    /// The tone of a channel in a phase-shift mode: the channel sounds
    /// strictly inside the window that begins `delay` samples after
    /// `cycle_start` and lasts one pulse length. A negative delay opens the
    /// window before the slot.
    pub open spec fn spec_shifted_tone(&self, delay: i64, cycle_start: int, sample: int) -> Tone {
        let window_start = cycle_start + delay;
        if window_start < sample < window_start + self.spec_pulse_samples() {
            Tone::Sine(self.spec_phase(sample - window_start) as u128)
        } else {
            Tone::Silent
        }
    }

    /// The samples from `cycle_start` on at which `channel` is not silent
    /// in blocked mode.
    pub open spec fn blocked_pulse(
        &self,
        active_channel: i64,
        cycle_start: int,
        channel: int,
    ) -> Set<int> {
        Set::new(
            |sample: int|
                cycle_start <= sample && self.spec_blocked_tone(
                    active_channel,
                    cycle_start,
                    sample,
                    channel,
                ) is Sine,
        )
    }

    /// The samples at which a channel with the given delay is not silent in
    /// a phase-shift mode.
    pub open spec fn shifted_pulse(&self, delay: i64, cycle_start: int) -> Set<int> {
        Set::new(|sample: int| self.spec_shifted_tone(delay, cycle_start, sample) is Sine)
    }

    /// The numerator of the sine argument fits the tone for every elapsed
    /// time that a sample counter can hold.
    pub proof fn lemma_phase_range(&self, elapsed: int)
        requires
            0 <= elapsed <= u64::MAX,
        ensures
            0 <= self.spec_phase(elapsed) <= u128::MAX,
            0 <= elapsed * self.stim_freq_hz <= u64::MAX * u32::MAX,
    {
        lemma_product_bound(elapsed, self.stim_freq_hz as int, u64::MAX as int, u32::MAX as int);
    }

    /// A pulse begins at zero: at the sample at which a pulse sets in, the
    /// sine argument is zero in blocked mode and the channel is still
    /// silent in the phase-shift modes, so the amplitude is zero in both.
    pub proof fn lemma_onset_zero(&self, active_channel: i64, delay: i64, cycle_start: int)
        ensures
            self.spec_phase(0) == 0,
            self.spec_blocked_tone(active_channel, cycle_start, cycle_start, active_channel as int)
                == Tone::Sine(0),
            self.spec_shifted_tone(delay, cycle_start, cycle_start + delay) == Tone::Silent,
    {
        assert(self.spec_phase(0) == 0) by (nonlinear_arith)
            requires
                self.spec_phase(0) == 0 * self.stim_freq_hz * 2,
        ;
        lemma_product_bound(
            self.stim_duration_ms as int,
            self.sample_rate_hz as int,
            u32::MAX as int,
            u32::MAX as int,
        );
    }

    /// In neither mode does a pulse last longer than the pulse length and
    /// one sample more.
    pub proof fn lemma_pulse_length(
        &self,
        active_channel: i64,
        delay: i64,
        cycle_start: int,
        channel: int,
    )
        ensures
            self.blocked_pulse(active_channel, cycle_start, channel).finite(),
            self.blocked_pulse(active_channel, cycle_start, channel).len()
                <= self.spec_pulse_samples() + 1,
            self.shifted_pulse(delay, cycle_start).finite(),
            self.shifted_pulse(delay, cycle_start).len() <= self.spec_pulse_samples() + 1,
    {
        let length = self.spec_pulse_samples();
        lemma_product_bound(
            self.stim_duration_ms as int,
            self.sample_rate_hz as int,
            u32::MAX as int,
            u32::MAX as int,
        );
        let blocked_room = set_int_range(cycle_start, cycle_start + length + 1);
        lemma_int_range(cycle_start, cycle_start + length + 1);
        lemma_len_subset(self.blocked_pulse(active_channel, cycle_start, channel), blocked_room);
        let window_start = cycle_start + delay;
        let shifted_room = set_int_range(window_start, window_start + length + 1);
        lemma_int_range(window_start, window_start + length + 1);
        lemma_len_subset(self.shifted_pulse(delay, cycle_start), shifted_room);
    }

    /// Computes the tone of `channel` in blocked mode.
    pub fn blocked_tone(
        &self,
        active_channel: i64,
        cycle_start: u64,
        sample: u64,
        channel: usize,
    ) -> (tone: Tone)
        requires
            cycle_start <= sample,
        ensures
            tone == self.spec_blocked_tone(
                active_channel,
                cycle_start as int,
                sample as int,
                channel as int,
            ),
    {
        if active_channel < 0 || active_channel as u64 != channel as u64 {
            return Tone::Silent;
        }
        let elapsed: u64 = sample - cycle_start;
        if elapsed > self.pulse_samples() {
            return Tone::Silent;
        }
        proof {
            self.lemma_phase_range(elapsed as int);
        }
        Tone::Sine(elapsed as u128 * self.stim_freq_hz as u128 * 2)
    }

    /// Computes the tone of a channel in a phase-shift mode.
    pub fn shifted_tone(&self, delay: i64, cycle_start: u64, sample: u64) -> (tone: Tone)
        ensures
            tone == self.spec_shifted_tone(delay, cycle_start as int, sample as int),
    {
        let window_start: i128 = cycle_start as i128 + delay as i128;
        let window_end: i128 = window_start + self.pulse_samples() as i128;
        let now: i128 = sample as i128;
        if window_start < now && now < window_end {
            let elapsed: u128 = (now - window_start) as u128;
            proof {
                self.lemma_phase_range(elapsed as int);
            }
            Tone::Sine(elapsed * self.stim_freq_hz as u128 * 2)
        } else {
            Tone::Silent
        }
    }
}

} // verus!
