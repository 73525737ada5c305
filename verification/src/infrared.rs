//! Edge-timing decoder for a pulse-distance infrared protocol.
//!
//! The decoder is fed the level of the receiver output together with the
//! time of the sample, in microseconds. A frame opens with a long high pulse
//! (the preamble); afterwards every bit is a short high pulse followed by a
//! low phase whose length carries the bit value. The unit of that encoding is
//! 562.5 µs: a low phase of 0.5 to 2.0 units is a `0`, one of 2.1 to 3.5 units
//! a `1`. Measured in whole microseconds these bands are `282..=1125` and
//! `1182..=1968`, which is how they are written below.

use vstd::prelude::*;

verus! {

/// Shortest accepted preamble, in microseconds.
pub const PREAMBLE_MIN_US: u64 = 8000;

/// Longest accepted preamble, in microseconds.
pub const PREAMBLE_MAX_US: u64 = 10000;

/// A high phase inside a bit period that lasts longer than this is taken
/// for the start of a new preamble.
pub const HIGH_TIMEOUT_US: u64 = 8000;

/// A low phase inside a bit period that lasts longer than this ends the
/// current data fragment.
pub const LOW_TIMEOUT_US: u64 = 6000;

/// Shortest low phase read as a `0` bit (0.5 units of 562.5 µs, rounded up).
pub const BIT0_MIN_US: u64 = 282;

/// Longest low phase read as a `0` bit (2.0 units of 562.5 µs).
pub const BIT0_MAX_US: u64 = 1125;

/// Shortest low phase read as a `1` bit (2.1 units of 562.5 µs, rounded up).
pub const BIT1_MIN_US: u64 = 1182;

/// Longest low phase read as a `1` bit (3.5 units of 562.5 µs, rounded down).
pub const BIT1_MAX_US: u64 = 1968;

/// Which half of a bit period the decoder is in.
#[derive(Clone, Copy, Debug, PartialEq, Eq, Structural)]
pub enum BitPeriodState {
    HighStart,
    LowStart,
}

/// The decoder's state; every timestamp is in microseconds.
#[derive(Clone, Copy, Debug, PartialEq, Eq, Structural)]
pub enum State {
    Idle,
    MaybePreamble { start_high_at: u64 },
    ReadyAfterPreamble,
    BitPeriod { high_start_at: u64, low_start_at: u64, low_end_at: u64, state: BitPeriodState },
}

/// What one call of [`IrDecoder::tick`] can report.
#[derive(Clone, Copy, Debug, PartialEq, Eq, Structural)]
pub enum Event {
    DecodedBit(bool),
    DecodedUnknown,
    NewFrameReady,
    DataFragReady,
}

/// The event for a low phase of `low` microseconds that has just ended.
pub open spec fn classify_low(low: int) -> Event {
    if BIT0_MIN_US <= low && low <= BIT0_MAX_US {
        Event::DecodedBit(false)
    } else if BIT1_MIN_US <= low && low <= BIT1_MAX_US {
        Event::DecodedBit(true)
    } else {
        Event::DecodedUnknown
    }
}

/// The latest instant the state has recorded; a call of `tick` must not be
/// given an earlier time.
pub open spec fn last_time(s: State) -> u64 {
    match s {
        State::Idle => 0,
        State::MaybePreamble { start_high_at } => start_high_at,
        State::ReadyAfterPreamble => 0,
        State::BitPeriod { high_start_at, low_start_at, low_end_at, state } => match state {
            BitPeriodState::HighStart => high_start_at,
            BitPeriodState::LowStart => low_start_at,
        },
    }
}

/// The timestamps of a bit period were recorded in the order in which the
/// edges happen.
pub open spec fn well_formed(s: State) -> bool {
    match s {
        State::BitPeriod { high_start_at, low_start_at, low_end_at, state } => {
            &&& low_end_at <= high_start_at
            &&& match state {
                BitPeriodState::HighStart => low_start_at <= high_start_at,
                BitPeriodState::LowStart => high_start_at <= low_start_at,
            }
        },
        _ => true,
    }
}

/// One step of the decoder: the next state and the event, if any, for a
/// sample of level `signal` taken at time `now`.
pub open spec fn step(s: State, signal: bool, now: u64) -> (State, Option<Event>) {
    match s {
        State::Idle => {
            if signal {
                (State::MaybePreamble { start_high_at: now }, None)
            } else {
                (s, None)
            }
        },
        State::MaybePreamble { start_high_at } => {
            if signal {
                (s, None)
            } else if PREAMBLE_MIN_US <= now - start_high_at && now - start_high_at
                <= PREAMBLE_MAX_US {
                (State::ReadyAfterPreamble, Some(Event::NewFrameReady))
            } else {
                (State::Idle, None)
            }
        },
        State::ReadyAfterPreamble => {
            if signal {
                (
                    State::BitPeriod {
                        high_start_at: now,
                        low_start_at: 0,
                        low_end_at: 0,
                        state: BitPeriodState::HighStart,
                    },
                    None,
                )
            } else {
                (s, None)
            }
        },
        State::BitPeriod { high_start_at, low_start_at, low_end_at, state } => match state {
            BitPeriodState::HighStart => {
                if !signal {
                    (
                        State::BitPeriod {
                            high_start_at,
                            low_start_at: now,
                            low_end_at,
                            state: BitPeriodState::LowStart,
                        },
                        None,
                    )
                } else if now - high_start_at > HIGH_TIMEOUT_US {
                    (State::MaybePreamble { start_high_at: high_start_at }, None)
                } else {
                    (s, None)
                }
            },
            BitPeriodState::LowStart => {
                if signal {
                    (
                        State::BitPeriod {
                            high_start_at: now,
                            low_start_at,
                            low_end_at: now,
                            state: BitPeriodState::HighStart,
                        },
                        Some(classify_low(now - low_start_at)),
                    )
                } else if now - low_start_at > LOW_TIMEOUT_US {
                    (State::ReadyAfterPreamble, Some(Event::DataFragReady))
                } else {
                    (s, None)
                }
            },
        },
    }
}


/// Time never has to run backwards: from a well-formed state, a sample taken
/// no earlier than the state's last recorded instant leads to a well-formed
/// state whose last recorded instant is no later than that sample. So a
/// decoder fed with non-decreasing times accepts every sample.
pub proof fn lemma_step_keeps_time_order(s: State, signal: bool, now: u64)
    requires
        well_formed(s),
        last_time(s) <= now,
    ensures
        well_formed(step(s, signal, now).0),
        last_time(step(s, signal, now).0) <= now,
{
}

/// The time the current low phase of a bit period began, if the decoder is
/// in one.
pub open spec fn low_phase_start(s: State) -> Option<u64> {
    match s {
        State::BitPeriod { low_start_at, state: BitPeriodState::LowStart, .. } => Some(low_start_at),
        _ => None,
    }
}

/// The time the current candidate preamble began, if the decoder is
/// measuring one.
pub open spec fn preamble_start(s: State) -> Option<u64> {
    match s {
        State::MaybePreamble { start_high_at } => Some(start_high_at),
        _ => None,
    }
}

/// Where each event comes from: a bit (or an unreadable bit) is reported
/// exactly when a low phase inside a bit period ends with a rising edge, and
/// it is the classification of that low phase's length; a new frame is
/// reported exactly when a high pulse of 8 to 10 ms ends; a fragment ends
/// exactly when a low phase inside a bit period outlasts 6 ms. After a frame
/// or fragment event the decoder waits for the next bit period.
pub proof fn lemma_event_sources(s: State, signal: bool, now: u64)
    ensures
        ({
            let (next, ev) = step(s, signal, now);
            &&& (ev == Some(Event::DecodedBit(false)) || ev == Some(Event::DecodedBit(true)) || ev
                == Some(Event::DecodedUnknown)) <==> (signal && low_phase_start(s) is Some)
            &&& signal && low_phase_start(s) is Some ==> ev == Some(
                classify_low(now - low_phase_start(s).unwrap()),
            )
            &&& ev == Some(Event::NewFrameReady) <==> (!signal && preamble_start(s) is Some
                && PREAMBLE_MIN_US <= now - preamble_start(s).unwrap() <= PREAMBLE_MAX_US)
            &&& ev == Some(Event::DataFragReady) <==> (!signal && low_phase_start(s) is Some && now
                - low_phase_start(s).unwrap() > LOW_TIMEOUT_US)
            &&& (ev == Some(Event::NewFrameReady) || ev == Some(Event::DataFragReady)) ==> next
                == State::ReadyAfterPreamble
        }),
{
}

/// The preamble: from rest, a high edge at `t0` and a low edge at `t1`
/// open a frame exactly when the pulse lasted 8 to 10 ms; otherwise the
/// pulse is dropped as noise and the decoder is at rest again.
pub proof fn lemma_preamble(t0: u64, t1: u64)
    requires
        t0 <= t1,
    ensures
        step(step(State::Idle, true, t0).0, false, t1) == (if PREAMBLE_MIN_US <= t1 - t0
            <= PREAMBLE_MAX_US {
            (State::ReadyAfterPreamble, Some(Event::NewFrameReady))
        } else {
            (State::Idle, None::<Event>)
        }),
{
}

/// A bit period: once its high pulse has started at `h`, a falling edge at
/// `t1` and the next rising edge at `t2` report the bit that the length of
/// the low phase `t2 - t1` encodes, whatever the length of the high pulse,
/// and the next period starts at `t2`.
pub proof fn lemma_bit_period(h: u64, l: u64, e: u64, t1: u64, t2: u64)
    requires
        h <= t1 <= t2,
    ensures
        ({
            let s = State::BitPeriod {
                high_start_at: h,
                low_start_at: l,
                low_end_at: e,
                state: BitPeriodState::HighStart,
            };
            let (mid, ev1) = step(s, false, t1);
            let (next, ev2) = step(mid, true, t2);
            &&& ev1 == None::<Event>
            &&& ev2 == Some(classify_low(t2 - t1))
            &&& next == State::BitPeriod {
                high_start_at: t2,
                low_start_at: t1,
                low_end_at: t2,
                state: BitPeriodState::HighStart,
            }
        }),
{
}

/// The state after samples of one level `signal` taken at the times `times`,
/// in order, from the state `s`.
pub open spec fn feed(s: State, signal: bool, times: Seq<u64>) -> State
    decreases times.len(),
{
    if times.len() == 0 {
        s
    } else {
        step(feed(s, signal, times.drop_last()), signal, times.last()).0
    }
}

/// All of `times` lie in `lo..=hi`.
pub open spec fn all_within(times: Seq<u64>, lo: int, hi: int) -> bool {
    forall|i: int| 0 <= i < times.len() ==> lo <= #[trigger] times[i] <= hi
}

/// A steady level changes nothing until a time-out: at rest or between
/// bit periods low samples change nothing; while a preamble is measured
/// high samples keep its start; in the high half of a bit period high
/// samples up to 8 ms after its start keep the period as it is; in the low
/// half low samples up to 6 ms after its start keep it as it is. Each such
/// sample reports no event.
pub proof fn lemma_steady_level(s: State, signal: bool, now: u64)
    ensures
        s == State::Idle && !signal ==> step(s, signal, now) == (s, None::<Event>),
        s == State::ReadyAfterPreamble && !signal ==> step(s, signal, now) == (s, None::<Event>),
        s is MaybePreamble && signal ==> step(s, signal, now) == (s, None::<Event>),
        (s matches State::BitPeriod { high_start_at: h, state: BitPeriodState::HighStart, .. }
            ==> (signal && h <= now && now - h <= HIGH_TIMEOUT_US ==> step(s, signal, now) == (
            s,
            None::<Event>,
        ))),
        (s matches State::BitPeriod { low_start_at: l, state: BitPeriodState::LowStart, .. } ==> (
        !signal && l <= now && now - l <= LOW_TIMEOUT_US ==> step(s, signal, now) == (
            s,
            None::<Event>,
        ))),
{
}

/// The same over any number of samples of the steady level.
pub proof fn lemma_steady_run(s: State, signal: bool, times: Seq<u64>)
    requires
        (s == State::Idle && !signal) || (s == State::ReadyAfterPreamble && !signal) || (
        s is MaybePreamble && signal) || (s matches State::BitPeriod {
            high_start_at: h,
            state: BitPeriodState::HighStart,
            ..
        } && signal && all_within(times, h as int, h + HIGH_TIMEOUT_US)) || (
        s matches State::BitPeriod { low_start_at: l, state: BitPeriodState::LowStart, .. }
            && !signal && all_within(times, l as int, l + LOW_TIMEOUT_US)),
    ensures
        feed(s, signal, times) == s,
    decreases times.len(),
{
    if times.len() > 0 {
        let p = times.drop_last();
        assert forall|i: int| 0 <= i < p.len() implies p[i] == times[i] by {}
        lemma_steady_run(s, signal, p);
        assert(times.last() == times[times.len() - 1]);
        lemma_steady_level(s, signal, times.last());
    }
}

/// The preamble is measured from its rising edge: from rest, a rising edge
/// at `t0`, any high samples between `t0` and `t1`, and a falling edge at
/// `t1` open a frame exactly when `t1 - t0` is 8 to 10 ms, and otherwise
/// leave the decoder at rest.
pub proof fn lemma_preamble_sampled(t0: u64, times: Seq<u64>, t1: u64)
    requires
        t0 <= t1,
        all_within(times, t0 as int, t1 as int),
    ensures
        step(feed(step(State::Idle, true, t0).0, true, times), false, t1) == (if PREAMBLE_MIN_US
            <= t1 - t0 <= PREAMBLE_MAX_US {
            (State::ReadyAfterPreamble, Some(Event::NewFrameReady))
        } else {
            (State::Idle, None::<Event>)
        }),
{
    lemma_steady_run(State::MaybePreamble { start_high_at: t0 }, true, times);
}

/// A high phase inside a bit period is timed from its rising edge `h`: high
/// samples up to 8 ms later keep the period, and the first high sample
/// later than that turns it into a candidate preamble that started at `h`.
pub proof fn lemma_long_high_is_preamble(h: u64, l: u64, e: u64, times: Seq<u64>, t2: u64)
    requires
        all_within(times, h as int, h + HIGH_TIMEOUT_US),
        h + HIGH_TIMEOUT_US < t2,
    ensures
        ({
            let s = State::BitPeriod {
                high_start_at: h,
                low_start_at: l,
                low_end_at: e,
                state: BitPeriodState::HighStart,
            };
            &&& feed(s, true, times) == s
            &&& step(feed(s, true, times), true, t2) == (
                State::MaybePreamble { start_high_at: h },
                None::<Event>,
            )
        }),
{
    let s = State::BitPeriod {
        high_start_at: h,
        low_start_at: l,
        low_end_at: e,
        state: BitPeriodState::HighStart,
    };
    lemma_steady_run(s, true, times);
}

/// A sampled bit period: after its rising edge at `h`, high samples `highs`
/// before the falling edge `t1`, low samples `lows` up to 6 ms after `t1`,
/// and the rising edge `t2` report the bit that the low phase `t2 - t1`
/// encodes, and nothing before; the next period starts at `t2`.
pub proof fn lemma_bit_period_sampled(
    h: u64,
    l: u64,
    e: u64,
    highs: Seq<u64>,
    t1: u64,
    lows: Seq<u64>,
    t2: u64,
)
    requires
        h <= t1 <= t2,
        t1 - h <= HIGH_TIMEOUT_US,
        all_within(highs, h as int, t1 as int),
        all_within(lows, t1 as int, t1 + LOW_TIMEOUT_US),
    ensures
        ({
            let s = State::BitPeriod {
                high_start_at: h,
                low_start_at: l,
                low_end_at: e,
                state: BitPeriodState::HighStart,
            };
            let low = State::BitPeriod {
                high_start_at: h,
                low_start_at: t1,
                low_end_at: e,
                state: BitPeriodState::LowStart,
            };
            &&& feed(s, true, highs) == s
            &&& step(s, false, t1) == (low, None::<Event>)
            &&& feed(low, false, lows) == low
            &&& step(low, true, t2) == (
                State::BitPeriod {
                    high_start_at: t2,
                    low_start_at: t1,
                    low_end_at: t2,
                    state: BitPeriodState::HighStart,
                },
                Some(classify_low(t2 - t1)),
            )
        }),
{
    let s = State::BitPeriod {
        high_start_at: h,
        low_start_at: l,
        low_end_at: e,
        state: BitPeriodState::HighStart,
    };
    let low = State::BitPeriod {
        high_start_at: h,
        low_start_at: t1,
        low_end_at: e,
        state: BitPeriodState::LowStart,
    };
    assert forall|i: int| 0 <= i < highs.len() implies h <= #[trigger] highs[i] <= h
        + HIGH_TIMEOUT_US by {}
    lemma_steady_run(s, true, highs);
    lemma_steady_run(low, false, lows);
}

/// The bit that a low phase of `low` microseconds encodes: 282 to 1125 µs
/// is a `0`, 1182 to 1968 µs a `1`, anything else unreadable.
pub proof fn lemma_bit_bands(low: int)
    ensures
        classify_low(low) == Event::DecodedBit(false) <==> 282 <= low <= 1125,
        classify_low(low) == Event::DecodedBit(true) <==> 1182 <= low <= 1968,
        classify_low(low) == Event::DecodedUnknown <==> !(282 <= low <= 1125 || 1182 <= low
            <= 1968),
{
}

/// The first bit of a frame: after the preamble, low samples change
/// nothing; the rising edge at `h` opens a bit period timed from `h`; and
/// with samples in between as in `lemma_bit_period_sampled`, the falling
/// edge at `t1` and the rising edge at `t2` report the bit of `t2 - t1`.
pub proof fn lemma_first_bit(
    idle_lows: Seq<u64>,
    h: u64,
    highs: Seq<u64>,
    t1: u64,
    lows: Seq<u64>,
    t2: u64,
)
    requires
        h <= t1 <= t2,
        t1 - h <= HIGH_TIMEOUT_US,
        all_within(highs, h as int, t1 as int),
        all_within(lows, t1 as int, t1 + LOW_TIMEOUT_US),
    ensures
        ({
            let r = State::ReadyAfterPreamble;
            let s = State::BitPeriod {
                high_start_at: h,
                low_start_at: 0,
                low_end_at: 0,
                state: BitPeriodState::HighStart,
            };
            let low = State::BitPeriod {
                high_start_at: h,
                low_start_at: t1,
                low_end_at: 0,
                state: BitPeriodState::LowStart,
            };
            &&& feed(r, false, idle_lows) == r
            &&& step(r, true, h) == (s, None::<Event>)
            &&& step(feed(feed(s, true, highs), false, seq![t1].add(lows)), true, t2) == (
                State::BitPeriod {
                    high_start_at: t2,
                    low_start_at: t1,
                    low_end_at: t2,
                    state: BitPeriodState::HighStart,
                },
                Some(classify_low(t2 - t1)),
            )
        }),
{
    let r = State::ReadyAfterPreamble;
    let s = State::BitPeriod {
        high_start_at: h,
        low_start_at: 0,
        low_end_at: 0,
        state: BitPeriodState::HighStart,
    };
    let low = State::BitPeriod {
        high_start_at: h,
        low_start_at: t1,
        low_end_at: 0,
        state: BitPeriodState::LowStart,
    };
    lemma_steady_run(r, false, idle_lows);
    lemma_bit_period_sampled(h, 0, 0, highs, t1, lows, t2);
    lemma_feed_prefix(s, false, t1, lows);
}

/// `feed` over `seq![t] + rest` equals `feed` over `rest` from the state
/// after `t`.
proof fn lemma_feed_prefix(s: State, signal: bool, t: u64, rest: Seq<u64>)
    ensures
        feed(s, signal, seq![t].add(rest)) == feed(step(s, signal, t).0, signal, rest),
    decreases rest.len(),
{
    let all = seq![t].add(rest);
    if rest.len() == 0 {
        assert(all.drop_last() =~= Seq::<u64>::empty());
    } else {
        assert(all.drop_last() =~= seq![t].add(rest.drop_last()));
        lemma_feed_prefix(s, signal, t, rest.drop_last());
    }
}

/// Classifies a low phase of `low` microseconds that has just ended.
pub fn classify_low_duration(low: u64) -> (e: Event)
    ensures
        e == classify_low(low as int),
{
    if BIT0_MIN_US <= low && low <= BIT0_MAX_US {
        Event::DecodedBit(false)
    } else if BIT1_MIN_US <= low && low <= BIT1_MAX_US {
        Event::DecodedBit(true)
    } else {
        Event::DecodedUnknown
    }
}

/// Decoder of the receiver's output, one sample at a time.
pub struct IrDecoder {
    state: State,
}

impl View for IrDecoder {
    type V = State;

    closed spec fn view(&self) -> State {
        self.state
    }
}

impl IrDecoder {
    #[verifier::type_invariant]
    spec fn timestamps_in_order(self) -> bool {
        well_formed(self.state)
    }

    /// A decoder waiting for the first preamble.
    pub fn new() -> (d: Self)
        ensures
            d@ == State::Idle,
    {
        Self { state: State::Idle }
    }

    /// The decoder's current state.
    pub fn state(&self) -> (s: State)
        ensures
            s == self@,
            well_formed(s),
    {
        proof {
            use_type_invariant(self);
        }
        self.state
    }

    /// The latest instant the decoder has recorded; `tick` must not be given
    /// an earlier time.
    pub fn last_recorded(&self) -> (t: u64)
        ensures
            t == last_time(self@),
    {
        match self.state {
            State::Idle => 0,
            State::MaybePreamble { start_high_at } => start_high_at,
            State::ReadyAfterPreamble => 0,
            State::BitPeriod { high_start_at, low_start_at, low_end_at, state } => match state {
                BitPeriodState::HighStart => high_start_at,
                BitPeriodState::LowStart => low_start_at,
            },
        }
    }

    /// Feeds one sample: `signal` is the level, `now` the time in
    /// microseconds. Returns the bit, frame or fragment event that the
    /// sample completes, if any.
    pub fn tick(&mut self, signal: bool, now: u64) -> (result: Option<Event>)
        requires
            last_time(old(self)@) <= now,
        ensures
            (final(self)@, result) == step(old(self)@, signal, now),
            well_formed(final(self)@),
    {
        proof {
            use_type_invariant(&*self);
        }
        let mut result = None;
        let next = match self.state {
            State::Idle => {
                if signal {
                    State::MaybePreamble { start_high_at: now }
                } else {
                    State::Idle
                }
            },
            State::MaybePreamble { start_high_at } => {
                if !signal {
                    if now - start_high_at >= PREAMBLE_MIN_US && now - start_high_at
                        <= PREAMBLE_MAX_US {
                        // a valid preamble
                        result = Some(Event::NewFrameReady);
                        State::ReadyAfterPreamble
                    } else {
                        // noise: back to idle
                        State::Idle
                    }
                } else {
                    State::MaybePreamble { start_high_at }
                }
            },
            State::ReadyAfterPreamble => {
                if signal {
                    State::BitPeriod {
                        high_start_at: now,
                        low_start_at: 0,
                        low_end_at: 0,
                        state: BitPeriodState::HighStart,
                    }
                } else {
                    State::ReadyAfterPreamble
                }
            },
            State::BitPeriod { high_start_at, low_start_at, low_end_at, state } => match state {
                BitPeriodState::HighStart => {
                    if !signal {
                        State::BitPeriod {
                            high_start_at,
                            low_start_at: now,
                            low_end_at,
                            state: BitPeriodState::LowStart,
                        }
                    } else if now - high_start_at > HIGH_TIMEOUT_US {
                        // a high phase this long is a preamble
                        State::MaybePreamble { start_high_at: high_start_at }
                    } else {
                        State::BitPeriod { high_start_at, low_start_at, low_end_at, state }
                    }
                },
                BitPeriodState::LowStart => {
                    if signal {
                        // the period has ended: decode it and open the next one
                        let low_duration = now - low_start_at;
                        let _high_duration = low_start_at - high_start_at;
                        result = Some(classify_low_duration(low_duration));
                        State::BitPeriod {
                            high_start_at: now,
                            low_start_at,
                            low_end_at: now,
                            state: BitPeriodState::HighStart,
                        }
                    } else if now - low_start_at > LOW_TIMEOUT_US {
                        // a low phase this long ends the fragment
                        result = Some(Event::DataFragReady);
                        State::ReadyAfterPreamble
                    } else {
                        State::BitPeriod { high_start_at, low_start_at, low_end_at, state }
                    }
                },
            },
        };
        self.state = next;
        result
    }
}

} // verus!
