use stim_sequencer::{Configuration, SchedulingMode};

fn reference() -> Configuration {
    Configuration {
        channels: 4,
        sample_rate_hz: 44100,
        stim_freq_hz: 250,
        stim_duration_ms: 100,
        cycle_period_ms: 666,
        pause_cycle_period: 5,
        pause_cycles: vec![3, 4],
        repetitions: 25,
        randomize: true,
        scheduling_mode: SchedulingMode::Blocked,
        seed: Some(4),
    }
}

#[test]
fn output_name_of_the_reference_run() {
    assert_eq!(
        reference().output_name(1),
        "output/Sine-Interleaved--250SFREQ-100SPER-666CPER-25R--3_4P5--4RSEED--4LR-44100Hz-1s.flac"
    );
}

#[test]
fn output_name_without_pauses_and_seed() {
    let mut config = reference();
    config.pause_cycles = Vec::new();
    config.seed = None;
    assert_eq!(
        config.output_name(600),
        "output/Sine-Interleaved--250SFREQ-100SPER-666CPER-25R--4LR-44100Hz-600s.flac"
    );
}

#[test]
fn output_name_tells_the_phase_shift() {
    let mut config = reference();
    config.pause_cycles = vec![0];
    config.scheduling_mode = SchedulingMode::RandomPhaseShift(20);
    assert_eq!(
        config.output_name(10),
        "output/Sine-20PhaseShifted--250SFREQ-100SPER-666CPER-25R--0P5--4RSEED--4LR-44100Hz-10s.flac"
    );
    config.scheduling_mode = SchedulingMode::FixedPhaseShift;
    assert_eq!(
        config.output_name(10),
        "output/Sine-FixPhaseShifted--250SFREQ-100SPER-666CPER-25R--0P5--4RSEED--4LR-44100Hz-10s.flac"
    );
}

#[test]
fn output_name_writes_negative_and_extreme_numbers() {
    let mut config = reference();
    config.seed = Some(-17);
    config.pause_cycles = vec![10, 0, 4294967295];
    config.channels = 0;
    assert_eq!(
        config.output_name(0),
        "output/Sine-Interleaved--250SFREQ-100SPER-666CPER-25R--10_0_4294967295P5---17RSEED--0LR-44100Hz-0s.flac"
    );
    config.seed = Some(i64::MIN);
    config.pause_cycles = Vec::new();
    assert_eq!(
        config.output_name(4294967295),
        "output/Sine-Interleaved--250SFREQ-100SPER-666CPER-25R---9223372036854775808RSEED--0LR-44100Hz-4294967295s.flac"
    );
    config.seed = Some(i64::MAX);
    assert_eq!(
        config.output_name(1),
        "output/Sine-Interleaved--250SFREQ-100SPER-666CPER-25R--9223372036854775807RSEED--0LR-44100Hz-1s.flac"
    );
}
