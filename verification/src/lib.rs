//! A sequencer for multi-channel tactile stimulation signals.
//!
//! For every sample tick the sequencer decides, for each channel of each
//! hand, whether a short sine pulse is active and which argument the sine is
//! evaluated at. The schedule is cyclic, optionally randomised through a
//! seeded generator, and optionally phase shifted per channel.
//!
//! All timing is integer arithmetic on sample counts. A [`Tone`] carries the
//! integer numerator of the sine argument; turning it into an amplitude is
//! left to the caller.
//!
//! - [`config`]: the run parameters, their validation and warnings
//! - [`clock`]: from a sample to its slot and its pause cycle
//! - [`stream`]: the random stream, as far as the sequencer relies on it
//! - [`order`]: channel orders for the blocked mode
//! - [`delay`]: channel delays for the phase-shift modes
//! - [`tone`]: what a channel sounds at a sample
//! - [`sequencer`]: the state machine that ties them together
//! - [`laws`]: what holds of every run
//! - [`naming`]: the name of the output file
//! - [`report`]: the messages and the overview shown to a user
//! - [`text`]: numbers and lists of numbers as text

mod arith;
pub mod clock;
pub mod config;
pub mod delay;
pub mod laws;
pub mod naming;
pub mod order;
pub mod report;
pub mod sequencer;
pub mod stream;
pub mod text;
pub mod tone;

pub use config::{
    ConfigError, ConfigWarning, Configuration, Parameter, SchedulingMode, HANDS, MAX_CHANNELS,
};
pub use tone::Tone;
pub use sequencer::{InitError, SequencerState, SequencerView, Tick};
