use demo1::infrared::{
    classify_low_duration, BitPeriodState, Event, IrDecoder, State, BIT0_MAX_US, BIT0_MIN_US,
    BIT1_MAX_US, BIT1_MIN_US,
};

/// The classification as the ratio of the low phase to 562.5 µs.
fn classify_by_ratio(low: u64) -> Event {
    let ratio = low as f64 / 562.5;
    if (0.5..=2.0).contains(&ratio) {
        Event::DecodedBit(false)
    } else if (2.1..=3.5).contains(&ratio) {
        Event::DecodedBit(true)
    } else {
        Event::DecodedUnknown
    }
}

#[test]
fn classification_matches_ratio_bands() {
    for low in 0..=20_000u64 {
        assert_eq!(classify_low_duration(low), classify_by_ratio(low), "low = {low}");
    }
    for low in [u64::MAX, u64::MAX / 2, 1 << 53, (1 << 53) + 1, 123_456_789_012] {
        assert_eq!(classify_low_duration(low), classify_by_ratio(low), "low = {low}");
    }
}

#[test]
fn classification_band_edges() {
    assert_eq!(classify_low_duration(BIT0_MIN_US - 1), Event::DecodedUnknown);
    assert_eq!(classify_low_duration(BIT0_MIN_US), Event::DecodedBit(false));
    assert_eq!(classify_low_duration(562), Event::DecodedBit(false));
    assert_eq!(classify_low_duration(BIT0_MAX_US), Event::DecodedBit(false));
    assert_eq!(classify_low_duration(BIT0_MAX_US + 1), Event::DecodedUnknown);
    assert_eq!(classify_low_duration(BIT1_MIN_US - 1), Event::DecodedUnknown);
    assert_eq!(classify_low_duration(BIT1_MIN_US), Event::DecodedBit(true));
    assert_eq!(classify_low_duration(1687), Event::DecodedBit(true));
    assert_eq!(classify_low_duration(BIT1_MAX_US), Event::DecodedBit(true));
    assert_eq!(classify_low_duration(BIT1_MAX_US + 1), Event::DecodedUnknown);
    assert_eq!(classify_low_duration(0), Event::DecodedUnknown);
}

#[test]
fn new_decoder_is_idle() {
    assert_eq!(IrDecoder::new().state(), State::Idle);
}

#[test]
fn idle_ignores_low_level() {
    let mut d = IrDecoder::new();
    assert_eq!(d.tick(false, 10), None);
    assert_eq!(d.state(), State::Idle);
}

#[test]
fn valid_preamble_opens_frame() {
    let mut d = IrDecoder::new();
    assert_eq!(d.tick(true, 1_000), None);
    assert_eq!(d.state(), State::MaybePreamble { start_high_at: 1_000 });
    assert_eq!(d.tick(true, 5_000), None);
    assert_eq!(d.tick(false, 10_000), Some(Event::NewFrameReady));
    assert_eq!(d.state(), State::ReadyAfterPreamble);
}

#[test]
fn preamble_bounds_are_inclusive() {
    let mut d = IrDecoder::new();
    d.tick(true, 0);
    assert_eq!(d.tick(false, 8_000), Some(Event::NewFrameReady));
    let mut d = IrDecoder::new();
    d.tick(true, 0);
    assert_eq!(d.tick(false, 10_000), Some(Event::NewFrameReady));
}

#[test]
fn short_or_long_pulse_is_noise() {
    let mut d = IrDecoder::new();
    d.tick(true, 100);
    assert_eq!(d.tick(false, 100 + 7_999), None);
    assert_eq!(d.state(), State::Idle);
    let mut d = IrDecoder::new();
    d.tick(true, 100);
    assert_eq!(d.tick(false, 100 + 10_001), None);
    assert_eq!(d.state(), State::Idle);
}

fn after_preamble() -> IrDecoder {
    let mut d = IrDecoder::new();
    d.tick(true, 0);
    assert_eq!(d.tick(false, 9_000), Some(Event::NewFrameReady));
    d
}

#[test]
fn bit_periods_decode_by_low_length() {
    let mut d = after_preamble();
    assert_eq!(d.tick(false, 13_000), None);
    // a zero: 560 µs high, 560 µs low
    assert_eq!(d.tick(true, 13_500), None);
    assert_eq!(
        d.state(),
        State::BitPeriod {
            high_start_at: 13_500,
            low_start_at: 0,
            low_end_at: 0,
            state: BitPeriodState::HighStart
        }
    );
    assert_eq!(d.tick(false, 14_060), None);
    assert_eq!(d.tick(true, 14_620), Some(Event::DecodedBit(false)));
    // a one: 1690 µs low
    assert_eq!(d.tick(false, 15_180), None);
    assert_eq!(d.tick(true, 16_870), Some(Event::DecodedBit(true)));
    // an unreadable period: 1150 µs low
    assert_eq!(d.tick(false, 17_430), None);
    assert_eq!(d.tick(true, 18_580), Some(Event::DecodedUnknown));
    assert_eq!(
        d.state(),
        State::BitPeriod {
            high_start_at: 18_580,
            low_start_at: 17_430,
            low_end_at: 18_580,
            state: BitPeriodState::HighStart
        }
    );
}

#[test]
fn long_low_ends_fragment() {
    let mut d = after_preamble();
    d.tick(true, 10_000);
    d.tick(false, 10_560);
    assert_eq!(d.tick(false, 16_560), None);
    assert_eq!(d.tick(false, 16_561), Some(Event::DataFragReady));
    assert_eq!(d.state(), State::ReadyAfterPreamble);
}

#[test]
fn long_high_becomes_preamble() {
    let mut d = after_preamble();
    d.tick(true, 10_000);
    assert_eq!(d.tick(true, 18_000), None);
    assert_eq!(d.state(), State::BitPeriod {
        high_start_at: 10_000,
        low_start_at: 0,
        low_end_at: 0,
        state: BitPeriodState::HighStart
    });
    assert_eq!(d.tick(true, 18_001), None);
    assert_eq!(d.state(), State::MaybePreamble { start_high_at: 10_000 });
    // the long pulse counts from its start: 9 ms in all
    assert_eq!(d.tick(false, 19_000), Some(Event::NewFrameReady));
}

#[test]
fn repeated_time_is_accepted() {
    let mut d = IrDecoder::new();
    d.tick(true, 5);
    d.tick(true, 5);
    assert_eq!(d.tick(false, 5), None);
    assert_eq!(d.state(), State::Idle);
}
