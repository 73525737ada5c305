use demo1::transmit::{sample_duration_us, AudioPlayer, RestDetector, SAMPLE_RATE_HZ};

#[test]
fn sample_duration_at_rate() {
    assert_eq!(sample_duration_us(SAMPLE_RATE_HZ), 500);
    assert_eq!(sample_duration_us(3), 333_333);
}

#[test]
fn detector_starts_resting() {
    let d = RestDetector::new();
    assert!(d.is_resting());
    assert_eq!(d.silent_run(), 0);
}

#[test]
fn detector_needs_sixteen_silent_samples() {
    let mut d = RestDetector::new();
    d.tick(false);
    assert!(d.is_resting());
    d.tick(true);
    assert!(!d.is_resting());
    for i in 1..16 {
        d.tick(false);
        assert_eq!(d.silent_run(), i);
        assert!(!d.is_resting());
    }
    d.tick(false);
    assert_eq!(d.silent_run(), 16);
    assert!(d.is_resting());
    d.tick(true);
    assert!(!d.is_resting());
    assert_eq!(d.silent_run(), 0);
}

#[test]
fn player_reads_bits_and_wraps() {
    // 0b0000_0101: bits 1, 0, 1, 0, 0, 0, 0, 0
    let mut p = AudioPlayer::new(vec![0b0000_0101]);
    let mut got = Vec::new();
    for _ in 0..10 {
        got.push(p.begin_sample());
        assert!(!p.end_sample(0, 0));
    }
    assert_eq!(
        got,
        vec![true, false, true, false, false, false, false, false, true, false]
    );
}

#[test]
fn player_forces_pause_after_a_second_of_sound() {
    let mut p = AudioPlayer::new(vec![0xFF]);
    assert!(p.begin_sample());
    // the stretch of sound starts at 1000
    assert!(!p.end_sample(1_000, 1_000));
    assert!(p.begin_sample());
    assert!(!p.end_sample(5, 1_001_000));
    assert!(p.begin_sample());
    assert!(p.end_sample(5, 1_001_001));
    // the clock restarts at the next sound sample
    assert!(p.begin_sample());
    assert!(!p.end_sample(2_000_000, 2_000_000));
}

#[test]
fn player_at_rest_does_not_time() {
    let mut p = AudioPlayer::new(vec![0x00, 0x00, 0x00]);
    for _ in 0..24 {
        assert!(!p.begin_sample());
        assert!(!p.end_sample(0, u64::MAX));
    }
}
