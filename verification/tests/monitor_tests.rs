use noise_cancellation::monitor::{SampleClock, PEAK_DECAY_PERIOD};

#[test]
fn clock_starts_at_zero() {
    assert_eq!(SampleClock::new().count(), 0);
}

#[test]
fn clock_counts_every_sample() {
    let mut clock = SampleClock::new();
    assert!(!clock.advance(100));
    assert!(!clock.advance(23));
    assert_eq!(clock.count(), 123);
}

#[test]
fn decay_when_total_is_a_multiple_of_the_period() {
    let mut clock = SampleClock::new();
    assert!(!clock.advance(47_999));
    assert!(clock.advance(1));
    assert_eq!(clock.count(), PEAK_DECAY_PERIOD);
    assert!(clock.advance(PEAK_DECAY_PERIOD));
}

#[test]
fn empty_buffer_at_start_is_a_decay_point() {
    let mut clock = SampleClock::new();
    assert!(clock.advance(0));
}

#[test]
fn blocks_of_256_decay_every_375_blocks() {
    // 256 does not divide 48000, so the total first hits a multiple of it
    // after 96000 samples.
    let mut clock = SampleClock::new();
    let mut decays = vec![];
    for block in 1..=800usize {
        if clock.advance(256) {
            decays.push(block);
        }
    }
    assert_eq!(decays, vec![375, 750]);
}

#[test]
fn blocks_of_480_decay_every_100_blocks() {
    let mut clock = SampleClock::new();
    let mut decays = vec![];
    for block in 1..=250usize {
        if clock.advance(480) {
            decays.push(block);
        }
    }
    assert_eq!(decays, vec![100, 200]);
}
