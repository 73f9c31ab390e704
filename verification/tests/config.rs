use stim_sequencer::{
    ConfigError, ConfigWarning, Configuration, Parameter, SchedulingMode, MAX_CHANNELS,
};

fn base() -> Configuration {
    Configuration {
        channels: 4,
        sample_rate_hz: 44100,
        stim_freq_hz: 250,
        stim_duration_ms: 100,
        cycle_period_ms: 666,
        pause_cycle_period: 5,
        pause_cycles: vec![3, 4],
        repetitions: 25,
        randomize: true,
        scheduling_mode: SchedulingMode::Blocked,
        seed: Some(4),
    }
}

#[test]
fn validate_accepts_the_reference_configuration() {
    assert_eq!(base().validate(), Ok(()));
}

#[test]
fn validate_refuses_zero_channels() {
    let mut config = base();
    config.channels = 0;
    assert_eq!(config.validate(), Err(ConfigError::UnsupportedChannelCount));
}

#[test]
fn validate_refuses_too_many_channels() {
    let mut config = base();
    config.channels = MAX_CHANNELS;
    assert_eq!(config.validate(), Ok(()));
    config.channels = MAX_CHANNELS + 1;
    assert_eq!(config.validate(), Err(ConfigError::UnsupportedChannelCount));
}

#[test]
fn validate_accepts_a_single_channel() {
    let mut config = base();
    config.channels = 1;
    assert_eq!(config.validate(), Ok(()));
}

#[test]
fn validate_names_each_zero_parameter() {
    let mut config = base();
    config.sample_rate_hz = 0;
    assert_eq!(
        config.validate(),
        Err(ConfigError::NonPositive(Parameter::SampleRate))
    );
    let mut config = base();
    config.stim_freq_hz = 0;
    assert_eq!(
        config.validate(),
        Err(ConfigError::NonPositive(Parameter::StimFrequency))
    );
    let mut config = base();
    config.stim_duration_ms = 0;
    assert_eq!(
        config.validate(),
        Err(ConfigError::NonPositive(Parameter::StimDuration))
    );
    let mut config = base();
    config.cycle_period_ms = 0;
    assert_eq!(
        config.validate(),
        Err(ConfigError::NonPositive(Parameter::CyclePeriod))
    );
    let mut config = base();
    config.pause_cycle_period = 0;
    assert_eq!(
        config.validate(),
        Err(ConfigError::NonPositive(Parameter::PauseCyclePeriod))
    );
    let mut config = base();
    config.repetitions = 0;
    assert_eq!(
        config.validate(),
        Err(ConfigError::NonPositive(Parameter::Repetitions))
    );
    let mut config = base();
    config.scheduling_mode = SchedulingMode::RandomPhaseShift(0);
    assert_eq!(
        config.validate(),
        Err(ConfigError::NonPositive(Parameter::ShiftInterval))
    );
}

#[test]
fn validate_reports_the_first_violation() {
    let mut config = base();
    config.channels = 0;
    config.sample_rate_hz = 0;
    config.repetitions = 0;
    assert_eq!(config.validate(), Err(ConfigError::UnsupportedChannelCount));
    config.channels = 4;
    assert_eq!(
        config.validate(),
        Err(ConfigError::NonPositive(Parameter::SampleRate))
    );
    config.sample_rate_hz = 8000;
    assert_eq!(
        config.validate(),
        Err(ConfigError::NonPositive(Parameter::Repetitions))
    );
}

#[test]
fn validate_accepts_the_phase_shift_modes() {
    let mut config = base();
    config.scheduling_mode = SchedulingMode::RandomPhaseShift(1);
    assert_eq!(config.validate(), Ok(()));
    config.scheduling_mode = SchedulingMode::FixedPhaseShift;
    assert_eq!(config.validate(), Ok(()));
}

#[test]
fn from_options_selects_the_mode() {
    assert_eq!(
        SchedulingMode::from_options(None, false),
        Ok(SchedulingMode::Blocked)
    );
    assert_eq!(
        SchedulingMode::from_options(Some(20), false),
        Ok(SchedulingMode::RandomPhaseShift(20))
    );
    assert_eq!(
        SchedulingMode::from_options(None, true),
        Ok(SchedulingMode::FixedPhaseShift)
    );
}

#[test]
fn from_options_refuses_both_shifts_at_once() {
    assert_eq!(
        SchedulingMode::from_options(Some(20), true),
        Err(ConfigError::ConflictingModes)
    );
    assert_eq!(
        SchedulingMode::from_options(Some(0), true),
        Err(ConfigError::ConflictingModes)
    );
}

#[test]
fn warnings_are_empty_for_the_reference_configuration() {
    // 1000 / 100 = 10 pulses per second and 250 is a multiple of 10.
    assert_eq!(base().warnings(), Vec::<ConfigWarning>::new());
}

#[test]
fn warnings_report_a_frequency_mismatch() {
    let mut config = base();
    config.stim_freq_hz = 255;
    assert_eq!(config.warnings(), vec![ConfigWarning::FrequencyMismatch]);
}

#[test]
fn warnings_report_a_mismatch_for_pulses_longer_than_a_second() {
    let mut config = base();
    config.stim_duration_ms = 1001;
    config.cycle_period_ms = 5000;
    assert_eq!(config.warnings(), vec![ConfigWarning::FrequencyMismatch]);
}

#[test]
fn warnings_report_overlapping_pulses() {
    let mut config = base();
    config.cycle_period_ms = 399;
    assert_eq!(config.warnings(), vec![ConfigWarning::OverlappingPulses]);
    config.cycle_period_ms = 400;
    assert_eq!(config.warnings(), Vec::<ConfigWarning>::new());
}

#[test]
fn warnings_report_each_dead_pause_cycle_in_order() {
    let mut config = base();
    config.pause_cycles = vec![7, 0, 5, 4, 7];
    assert_eq!(
        config.warnings(),
        vec![
            ConfigWarning::DeadPauseCycle(7),
            ConfigWarning::DeadPauseCycle(5),
            ConfigWarning::DeadPauseCycle(7),
        ]
    );
}

#[test]
fn warnings_report_a_shift_that_is_too_large() {
    let mut config = base();
    // (66 + 100) * 4 = 664 fits into 666, (67 + 100) * 4 = 668 does not.
    config.scheduling_mode = SchedulingMode::RandomPhaseShift(66);
    assert_eq!(config.warnings(), Vec::<ConfigWarning>::new());
    config.scheduling_mode = SchedulingMode::RandomPhaseShift(67);
    // 67 + 100 - 666 / 4 = 167 - 166 = 1.
    assert_eq!(config.warnings(), vec![ConfigWarning::ShiftTooLarge(1)]);
    config.scheduling_mode = SchedulingMode::RandomPhaseShift(200);
    assert_eq!(config.warnings(), vec![ConfigWarning::ShiftTooLarge(134)]);
}

#[test]
fn warnings_come_in_a_fixed_order() {
    let mut config = base();
    config.stim_freq_hz = 251;
    config.stim_duration_ms = 200;
    config.pause_cycles = vec![9];
    config.scheduling_mode = SchedulingMode::RandomPhaseShift(300);
    // 1000 / 200 = 5 and 251 % 5 = 1; 200 * 4 = 800 > 666;
    // (300 + 200) * 4 = 2000 > 666 with 500 - 166 = 334 over.
    assert_eq!(
        config.warnings(),
        vec![
            ConfigWarning::FrequencyMismatch,
            ConfigWarning::OverlappingPulses,
            ConfigWarning::DeadPauseCycle(9),
            ConfigWarning::ShiftTooLarge(334),
        ]
    );
}

#[test]
fn warnings_survive_the_largest_parameters() {
    let mut config = base();
    config.channels = MAX_CHANNELS;
    config.stim_duration_ms = u32::MAX;
    config.cycle_period_ms = u32::MAX;
    config.scheduling_mode = SchedulingMode::RandomPhaseShift(u32::MAX);
    let excess = 2 * u32::MAX as u64 - (u32::MAX / MAX_CHANNELS) as u64;
    assert_eq!(
        config.warnings(),
        vec![
            ConfigWarning::FrequencyMismatch,
            ConfigWarning::OverlappingPulses,
            ConfigWarning::ShiftTooLarge(excess),
        ]
    );
}
