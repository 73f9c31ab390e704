use rand::SeedableRng;
use rand_chacha::ChaCha8Rng;
use stim_sequencer::{
    ConfigError, Configuration, InitError, Parameter, SchedulingMode, SequencerState, Tick, Tone,
};

fn reference() -> Configuration {
    Configuration {
        channels: 4,
        sample_rate_hz: 44100,
        stim_freq_hz: 250,
        stim_duration_ms: 100,
        cycle_period_ms: 666,
        pause_cycle_period: 5,
        pause_cycles: vec![3, 4],
        repetitions: 25,
        randomize: true,
        scheduling_mode: SchedulingMode::Blocked,
        seed: Some(4),
    }
}

fn start(config: &Configuration) -> SequencerState {
    match SequencerState::initialize(config) {
        Ok(state) => state,
        Err(error) => panic!("no sequencer: {:?}", error),
    }
}

fn pcm(tone: Tone, sample_rate_hz: u32) -> i32 {
    let amplitude = match tone {
        Tone::Silent => 0.0,
        Tone::Sine(numerator) => {
            (numerator as f64 * std::f64::consts::PI / sample_rate_hz as f64).sin()
        }
    };
    (amplitude * i16::MAX as f64) as i32
}

fn is_permutation(order: &[i64], channels: usize) -> bool {
    let mut sorted = order.to_vec();
    sorted.sort();
    sorted == (0..channels as i64).collect::<Vec<i64>>()
}

#[test]
fn tick_keeps_the_slot_within_a_slot() {
    let config = reference();
    assert_eq!(
        config.tick(100, 0, 0, 7),
        Tick { cycle: 0, cycle_start: 0, repetition_counter: 7, renew: false }
    );
}

#[test]
fn tick_moves_the_slot_start_when_the_slot_changes() {
    let config = reference();
    assert_eq!(
        config.tick(7343, 0, 0, 7),
        Tick { cycle: 1, cycle_start: 7343, repetition_counter: 7, renew: false }
    );
}

#[test]
fn tick_counts_a_wrap_in_blocked_mode() {
    let config = reference();
    assert_eq!(
        config.tick(29371, 3, 22028, 7),
        Tick { cycle: 0, cycle_start: 29371, repetition_counter: 8, renew: false }
    );
}

#[test]
fn tick_renews_at_the_last_repetition() {
    let config = reference();
    assert_eq!(
        config.tick(29371, 3, 22028, 25),
        Tick { cycle: 0, cycle_start: 29371, repetition_counter: 1, renew: true }
    );
    assert_eq!(
        config.tick(29371, 3, 22028, 24),
        Tick { cycle: 0, cycle_start: 29371, repetition_counter: 25, renew: false }
    );
}

#[test]
fn tick_counts_every_slot_change_in_the_phase_shift_modes() {
    let mut config = reference();
    config.scheduling_mode = SchedulingMode::FixedPhaseShift;
    assert_eq!(
        config.tick(7343, 0, 0, 7),
        Tick { cycle: 1, cycle_start: 7343, repetition_counter: 8, renew: false }
    );
    assert_eq!(
        config.tick(7343, 0, 0, 25),
        Tick { cycle: 1, cycle_start: 7343, repetition_counter: 1, renew: true }
    );
    assert_eq!(
        config.tick(7342, 0, 0, 25),
        Tick { cycle: 0, cycle_start: 0, repetition_counter: 25, renew: false }
    );
    config.scheduling_mode = SchedulingMode::RandomPhaseShift(10);
    assert_eq!(
        config.tick(29371, 3, 22028, 2),
        Tick { cycle: 0, cycle_start: 29371, repetition_counter: 3, renew: false }
    );
}

#[test]
fn initialize_starts_at_sample_zero_with_a_schedule() {
    let config = reference();
    let state = start(&config);
    assert_eq!(state.sample(), 0);
    assert_eq!(state.cycle(), 0);
    assert_eq!(state.cycle_start(), 0);
    assert_eq!(state.repetition_counter(), 1);
    for hand in 0..2 {
        let order = state.channel_order(hand).unwrap();
        assert!(is_permutation(&order, 4));
        assert_eq!(state.channel_delay(hand), Some(Vec::new()));
    }
    assert_eq!(state.channel_order(2), None);
    assert_eq!(state.channel_delay(2), None);
}

#[test]
fn initialize_refuses_an_invalid_configuration() {
    let mut config = reference();
    config.channels = 0;
    assert_eq!(
        SequencerState::initialize(&config).err(),
        Some(InitError::Invalid(ConfigError::UnsupportedChannelCount))
    );
    let mut config = reference();
    config.cycle_period_ms = 0;
    config.seed = None;
    assert_eq!(
        SequencerState::initialize(&config).err(),
        Some(InitError::Invalid(ConfigError::NonPositive(Parameter::CyclePeriod)))
    );
}

#[test]
fn with_stream_refuses_an_invalid_configuration() {
    let mut config = reference();
    config.repetitions = 0;
    let rng = ChaCha8Rng::seed_from_u64(4);
    assert_eq!(
        SequencerState::with_stream(&config, rng).err(),
        Some(ConfigError::NonPositive(Parameter::Repetitions))
    );
}

#[test]
fn initialize_seeds_the_stream_from_the_configured_seed() {
    let config = reference();
    let seeded = start(&config);
    let direct = SequencerState::with_stream(&config, ChaCha8Rng::seed_from_u64(4)).unwrap();
    for hand in 0..2 {
        assert_eq!(seeded.channel_order(hand), direct.channel_order(hand));
    }
}

#[test]
fn initialize_with_different_seeds_gives_different_runs() {
    let mut config = reference();
    config.channels = 16;
    let mut orders: Vec<Vec<i64>> = Vec::new();
    for seed in 0..20i64 {
        config.seed = Some(seed);
        let order = start(&config).channel_order(0).unwrap();
        if !orders.contains(&order) {
            orders.push(order);
        }
    }
    assert_eq!(orders.len(), 20);
}

#[test]
fn initialize_without_a_seed_draws_on_entropy() {
    let mut config = reference();
    config.channels = 16;
    config.seed = None;
    let first = start(&config);
    let second = start(&config);
    assert!(is_permutation(&first.channel_order(0).unwrap(), 16));
    assert_ne!(
        (first.channel_order(0), first.channel_order(1)),
        (second.channel_order(0), second.channel_order(1))
    );
}

#[test]
fn initialize_in_the_phase_shift_modes_generates_delays() {
    let mut config = reference();
    config.scheduling_mode = SchedulingMode::FixedPhaseShift;
    let state = start(&config);
    for hand in 0..2 {
        let mut delays = state.channel_delay(hand).unwrap();
        delays.sort();
        assert_eq!(delays, vec![0, 44, 88, 132]);
        assert_eq!(state.channel_order(hand), Some(Vec::new()));
    }
    config.scheduling_mode = SchedulingMode::RandomPhaseShift(10);
    let state = start(&config);
    for hand in 0..2 {
        let delays = state.channel_delay(hand).unwrap();
        assert_eq!(delays.len(), 4);
        assert!(delays.contains(&0));
        assert!(delays.iter().all(|&delay| 0 <= delay && delay < 441));
    }
}

#[test]
fn advance_follows_the_cycle_clock() {
    let config = reference();
    let mut state = start(&config);
    let mut expected_start = 0;
    for sample in 1..=100_000u64 {
        let before = state.cycle();
        state.advance(&config);
        assert_eq!(state.sample(), sample);
        assert_eq!(state.cycle(), config.active_cycle(sample));
        if state.cycle() != before {
            expected_start = sample;
        }
        assert_eq!(state.cycle_start(), expected_start);
    }
}

#[test]
fn advance_counts_repetitions_and_renews_the_order() {
    let mut config = reference();
    config.repetitions = 3;
    let mut state = start(&config);
    let mut counter = 1;
    let mut wraps = 0;
    let mut renewals = 0;
    let mut orders = (state.channel_order(0), state.channel_order(1));
    for _ in 0..400_000u64 {
        let before = state.cycle();
        state.advance(&config);
        let now = (state.channel_order(0), state.channel_order(1));
        if state.cycle() < before {
            wraps += 1;
            if counter < 3 {
                counter += 1;
                assert_eq!(now, orders);
            } else {
                counter = 1;
                renewals += 1;
            }
        } else {
            assert_eq!(now, orders);
        }
        orders = now;
        assert_eq!(state.repetition_counter(), counter);
    }
    assert_eq!(wraps, 13);
    assert_eq!(renewals, 4);
}

#[test]
fn renewed_orders_never_begin_where_the_previous_ended() {
    let mut config = reference();
    config.repetitions = 1;
    config.sample_rate_hz = 1000;
    config.cycle_period_ms = 8;
    let mut state = start(&config);
    let mut renewals = 0;
    let mut changed = 0;
    for _ in 0..40_000u64 {
        let previous = (state.channel_order(0).unwrap(), state.channel_order(1).unwrap());
        let before = state.cycle();
        state.advance(&config);
        if state.cycle() < before {
            renewals += 1;
            let left = state.channel_order(0).unwrap();
            let right = state.channel_order(1).unwrap();
            assert!(is_permutation(&left, 4));
            assert!(is_permutation(&right, 4));
            assert_ne!(left[0], previous.0[3]);
            assert_ne!(right[0], previous.1[3]);
            if left != previous.0 {
                changed += 1;
            }
        }
    }
    assert_eq!(renewals, 5000);
    assert!(changed > 4000);
}

#[test]
fn unrandomized_orders_are_always_the_natural_order() {
    let mut config = reference();
    config.randomize = false;
    config.repetitions = 1;
    config.sample_rate_hz = 1000;
    config.cycle_period_ms = 8;
    let mut state = start(&config);
    for _ in 0..5_000u64 {
        assert_eq!(state.channel_order(0), Some(vec![0, 1, 2, 3]));
        assert_eq!(state.channel_order(1), Some(vec![0, 1, 2, 3]));
        state.advance(&config);
    }
}

#[test]
fn phase_shift_delays_are_renewed_after_the_repetitions() {
    let mut config = reference();
    config.scheduling_mode = SchedulingMode::RandomPhaseShift(10);
    config.repetitions = 2;
    let mut state = start(&config);
    let mut counter = 1;
    let mut delays = (state.channel_delay(0), state.channel_delay(1));
    let mut renewals = 0;
    for _ in 0..100_000u64 {
        let before = state.cycle();
        state.advance(&config);
        let now = (state.channel_delay(0), state.channel_delay(1));
        if state.cycle() != before {
            if counter < 2 {
                counter += 1;
                assert_eq!(now, delays);
            } else {
                counter = 1;
                renewals += 1;
                assert_ne!(now, delays);
            }
        } else {
            assert_eq!(now, delays);
        }
        assert_eq!(state.repetition_counter(), counter);
        delays = now;
    }
    assert_eq!(renewals, 6);
}

#[test]
fn frame_is_ordered_by_hand_and_channel() {
    let mut config = reference();
    config.pause_cycles = Vec::new();
    let mut state = start(&config);
    for _ in 0..10 {
        state.advance(&config);
    }
    let frame = state.frame(&config);
    assert_eq!(frame.len(), 8);
    for hand in 0..2usize {
        let active = state.channel_order(hand).unwrap()[0] as usize;
        for channel in 0..4usize {
            assert_eq!(frame[hand * 4 + channel], state.tone(&config, hand, channel));
            if channel == active {
                assert_eq!(frame[hand * 4 + channel], Tone::Sine(10 * 500));
            } else {
                assert_eq!(frame[hand * 4 + channel], Tone::Silent);
            }
        }
    }
}

#[test]
fn frame_in_a_phase_shift_mode_follows_the_delays() {
    let mut config = reference();
    config.pause_cycles = Vec::new();
    config.scheduling_mode = SchedulingMode::FixedPhaseShift;
    let mut state = start(&config);
    for _ in 0..100 {
        state.advance(&config);
    }
    let frame = state.frame(&config);
    for hand in 0..2usize {
        let delays = state.channel_delay(hand).unwrap();
        for channel in 0..4usize {
            let expected = if delays[channel] < 100 {
                Tone::Sine((100 - delays[channel]) as u128 * 500)
            } else {
                Tone::Silent
            };
            assert_eq!(frame[hand * 4 + channel], expected);
        }
    }
}

#[test]
fn frames_in_a_pause_are_silent() {
    let config = reference();
    let mut state = start(&config);
    let mut paused = 0;
    for sample in 1..=150_000u64 {
        let frame = state.advance_and_sample(&config);
        if config.in_pause(sample) {
            paused += 1;
            assert_eq!(frame, vec![Tone::Silent; 8]);
        }
    }
    assert_eq!(paused, 146852 - 88112 + 1);
}

#[test]
fn a_pulse_begins_with_amplitude_zero() {
    let config = reference();
    let mut state = start(&config);
    let mut onsets = 0;
    for _ in 0..60_000u64 {
        let frame = state.advance_and_sample(&config);
        if state.sample() == state.cycle_start() {
            onsets += 1;
            for hand in 0..2usize {
                let active = state.channel_order(hand).unwrap()[state.cycle() as usize] as usize;
                assert_eq!(frame[hand * 4 + active], Tone::Sine(0));
                assert_eq!(pcm(frame[hand * 4 + active], 44100), 0);
            }
        }
    }
    assert_eq!(onsets, 8);
}

#[test]
fn runs_with_one_seed_are_identical() {
    for mode in [
        SchedulingMode::Blocked,
        SchedulingMode::RandomPhaseShift(20),
        SchedulingMode::FixedPhaseShift,
    ] {
        let mut config = reference();
        config.scheduling_mode = mode;
        config.repetitions = 1;
        let mut first = start(&config);
        let mut second = start(&config);
        for _ in 0..100_000u64 {
            let one = first.advance_and_sample(&config);
            let other = second.advance_and_sample(&config);
            assert_eq!(one, other);
            let bytes: Vec<i32> = one.iter().map(|&tone| pcm(tone, 44100)).collect();
            let others: Vec<i32> = other.iter().map(|&tone| pcm(tone, 44100)).collect();
            assert_eq!(bytes, others);
        }
        assert_eq!(first.channel_order(0), second.channel_order(0));
        assert_eq!(first.channel_delay(1), second.channel_delay(1));
    }
}

#[test]
fn one_second_of_the_reference_run() {
    let config = reference();
    assert_eq!(config.validate(), Ok(()));
    assert!(config.warnings().is_empty());
    let mut state = start(&config);
    let samples_to_go = config.run_length(1);
    assert_eq!(samples_to_go, 44100);
    let mut frames = 0u64;
    let mut sounding_frames = 0u64;
    for sample in 1..=samples_to_go {
        let frame = state.advance_and_sample(&config);
        frames += 1;
        assert_eq!(frame.len(), 8);
        assert_eq!(state.sample(), sample);
        // One second covers super-cycle indices 0 and 1 only.
        assert!(config.pause_super_cycle(sample) < 2);
        for hand in 0..2usize {
            let active = state.channel_order(hand).unwrap()[state.cycle() as usize] as usize;
            let elapsed = sample - state.cycle_start();
            for channel in 0..4usize {
                let tone = frame[hand * 4 + channel];
                if channel == active && elapsed <= 4410 {
                    assert_eq!(tone, Tone::Sine(elapsed as u128 * 500));
                } else {
                    assert_eq!(tone, Tone::Silent);
                }
            }
            let sounding = (0..4usize)
                .filter(|&channel| frame[hand * 4 + channel] != Tone::Silent)
                .count();
            assert!(sounding <= 1);
            if hand == 0 && sounding == 1 {
                sounding_frames += 1;
            }
        }
    }
    assert_eq!(frames, 44100);
    // The run begins at sample 1 of the first slot; further slots begin at
    // 7343, 14686, 22028, 29371 and 36714, and the last one at 44056.
    assert_eq!(sounding_frames, 4410 + 5 * 4411 + 45);
}

#[test]
fn the_reference_run_is_silent_in_super_cycles_three_and_four() {
    let config = reference();
    let mut state = start(&config);
    for sample in 1..=160_000u64 {
        let frame = state.advance_and_sample(&config);
        let index = config.pause_super_cycle(sample);
        let silent = frame.iter().all(|&tone| tone == Tone::Silent);
        if index == 3 || index == 4 {
            assert!(silent);
        } else if sample - state.cycle_start() <= 4410 {
            assert!(!silent);
        }
    }
}

#[test]
fn a_negative_seed_is_taken_as_its_unsigned_bit_pattern() {
    let mut config = reference();
    config.channels = 16;
    config.seed = Some(-1);
    let seeded = start(&config);
    let direct = SequencerState::with_stream(&config, ChaCha8Rng::seed_from_u64(u64::MAX)).unwrap();
    assert_eq!(seeded.channel_order(0), direct.channel_order(0));
    assert_eq!(seeded.channel_order(1), direct.channel_order(1));
}
