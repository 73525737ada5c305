//! The transmitter's playback logic: a one-bit audio signal is played
//! sample by sample, and a detector of silence lets the player force a short
//! pause after a long stretch of sound, which the receiver's
//! anti-interference circuit needs.

use crate::bits::{bit_at_lsb0, bit_lsb0, bit_view_fits};
use vstd::prelude::*;

verus! {

/// Silent samples in a row after which the signal counts as resting.
pub const REST_SAMPLES_MIN: usize = 16;

/// Samples played per second.
pub const SAMPLE_RATE_HZ: u32 = 2000;

/// Sound may last this long, in microseconds, before a forced pause.
pub const ACTIVE_LIMIT_US: u64 = 1_000_000;

/// Length of the forced pause, in milliseconds.
pub const HARD_REST_MS: u64 = 100;

/// The duration of one sample, in microseconds, at `rate` samples per second.
pub fn sample_duration_us(rate: u32) -> (d: u64)
    requires
        rate > 0,
    ensures
        d == 1_000_000int / (rate as int),
{
    (1_000_000u32 / rate) as u64
}

/// One step of the silence detector on the pair (resting, silent samples in
/// a row).
pub open spec fn detector_step(rest: bool, count: int, sample: bool) -> (bool, int) {
    if sample {
        (false, 0)
    } else {
        (rest || count + 1 >= REST_SAMPLES_MIN, count + 1)
    }
}

/// The detector's pair after the samples `s`, from the pair (`rest`, `count`).
pub open spec fn detector_run(rest: bool, count: int, s: Seq<bool>) -> (bool, int)
    decreases s.len(),
{
    if s.len() == 0 {
        (rest, count)
    } else {
        let (r, c) = detector_run(rest, count, s.drop_last());
        detector_step(r, c, s.last())
    }
}

/// The number of silent samples at the end of `s`.
pub open spec fn trailing_silence(s: Seq<bool>) -> int
    decreases s.len(),
{
    if s.len() == 0 {
        0
    } else if s.last() {
        0
    } else {
        trailing_silence(s.drop_last()) + 1
    }
}

/// The signal has rested: no sound yet, or the last samples were silent long
/// enough.
pub open spec fn has_rested(s: Seq<bool>) -> bool {
    (forall|i: int| 0 <= i < s.len() ==> !s[i]) || trailing_silence(s) >= REST_SAMPLES_MIN
}

/// A fresh detector, fed any samples, rests exactly when it has heard no
/// sound yet or when the latest 16 samples or more were silent; its counter
/// is the number of silent samples since the last sound (or since the start).
pub proof fn lemma_rest_means_silence(s: Seq<bool>)
    ensures
        detector_run(true, 0, s) == (has_rested(s), trailing_silence(s)),
    decreases s.len(),
{
    if s.len() > 0 {
        let p = s.drop_last();
        lemma_rest_means_silence(p);
        if !s.last() {
            if forall|i: int| 0 <= i < p.len() ==> !p[i] {
                assert forall|i: int| 0 <= i < s.len() implies !s[i] by {
                    if i < p.len() {
                        assert(!p[i]);
                    }
                }
            } else {
                let i = choose|i: int| 0 <= i < p.len() && p[i];
                assert(s[i]);
            }
        } else {
            assert(s[s.len() - 1]);
        }
    }
}

/// Tells sound from rest in a one-bit signal.
pub struct RestDetector {
    rest: bool,
    rest_sample_counter: usize,
}

impl RestDetector {
    /// Whether the signal is resting.
    pub closed spec fn resting(&self) -> bool {
        self.rest
    }

    /// Silent samples since the last sound.
    pub closed spec fn silent_samples(&self) -> usize {
        self.rest_sample_counter
    }

    /// A detector that has heard nothing yet, and so rests.
    pub fn new() -> (d: Self)
        ensures
            d.resting(),
            d.silent_samples() == 0,
    {
        Self { rest: true, rest_sample_counter: 0 }
    }

    /// Whether the signal is resting.
    pub fn is_resting(&self) -> (r: bool)
        ensures
            r == self.resting(),
    {
        self.rest
    }

    /// Silent samples since the last sound.
    pub fn silent_run(&self) -> (n: usize)
        ensures
            n == self.silent_samples(),
    {
        self.rest_sample_counter
    }

    /// Takes one sample: `true` is sound, `false` silence.
    pub fn tick(&mut self, sample: bool)
        requires
            !sample ==> old(self).silent_samples() < usize::MAX,
        ensures
            (final(self).resting(), final(self).silent_samples() as int) == detector_step(
                old(self).resting(),
                old(self).silent_samples() as int,
                sample,
            ),
    {
        if !sample {
            self.rest_sample_counter = self.rest_sample_counter + 1;
        } else {
            self.rest_sample_counter = 0;
            self.rest = false;
        }
        if self.rest_sample_counter >= REST_SAMPLES_MIN {
            self.rest = true;
        }
    }
}

/// Plays a one-bit signal stored least-significant bit first, over and over.
pub struct AudioPlayer {
    data: Vec<u8>,
    sample_n: usize,
    rest_detector: RestDetector,
    last_active_start: Option<u64>,
}

/// The signal data that a player can hold: not empty, and short enough to be
/// viewed and counted bit by bit.
pub open spec fn playable(len: int) -> bool {
    &&& len > 0
    &&& bit_view_fits(len)
    &&& 8 * len <= usize::MAX
}

impl AudioPlayer {
    #[verifier::type_invariant]
    spec fn position_in_range(self) -> bool {
        &&& playable(self.data.len() as int)
        &&& self.sample_n <= 8 * self.data.len()
    }

    /// The signal's bytes.
    pub closed spec fn data(&self) -> Seq<u8> {
        self.data@
    }

    /// The index of the current sample.
    pub closed spec fn position(&self) -> usize {
        self.sample_n
    }

    /// The silence detector.
    pub closed spec fn detector(&self) -> RestDetector {
        self.rest_detector
    }

    /// When the current stretch of sound began, if the player is timing one.
    pub closed spec fn active_since(&self) -> Option<u64> {
        self.last_active_start
    }

    /// A player at the start of `data`, resting.
    pub fn new(data: Vec<u8>) -> (p: Self)
        requires
            playable(data.len() as int),
        ensures
            p.data() == data@,
            p.position() == 0,
            p.detector().resting(),
            p.detector().silent_samples() == 0,
            p.active_since() is None,
    {
        AudioPlayer {
            data,
            sample_n: 0,
            rest_detector: RestDetector::new(),
            last_active_start: None,
        }
    }

    /// Silent samples since the last sound.
    pub fn silent_run(&self) -> (n: usize)
        ensures
            n == self.detector().silent_samples(),
    {
        self.rest_detector.silent_run()
    }

    /// Whether the signal is resting.
    pub fn is_resting(&self) -> (r: bool)
        ensures
            r == self.detector().resting(),
    {
        self.rest_detector.is_resting()
    }

    /// When the current stretch of sound began, if the player is timing one.
    pub fn active_start(&self) -> (t: Option<u64>)
        ensures
            t == self.active_since(),
    {
        self.last_active_start
    }

    /// Picks the next sample, going back to the start after the last one,
    /// and feeds it to the silence detector. The result is the level to
    /// output for the sample's duration.
    pub fn begin_sample(&mut self) -> (level: bool)
        requires
            old(self).detector().silent_samples() < usize::MAX,
        ensures
            ({
                let len = 8 * old(self).data().len();
                let idx = if old(self).position() >= len {
                    0
                } else {
                    old(self).position() as int
                };
                &&& final(self).position() == idx
                &&& idx < len
                &&& level == bit_lsb0(old(self).data(), idx)
                &&& (final(self).detector().resting(), final(self).detector().silent_samples()
                    as int) == detector_step(
                    old(self).detector().resting(),
                    old(self).detector().silent_samples() as int,
                    level,
                )
            }),
            final(self).data() == old(self).data(),
            final(self).active_since() == old(self).active_since(),
    {
        proof {
            use_type_invariant(&*self);
        }
        let bit_len = self.data.len() * 8;
        if self.sample_n >= bit_len {
            self.sample_n = 0;
        }
        let sample = bit_at_lsb0(self.data.as_slice(), self.sample_n);
        let mut detector = RestDetector::new();
        std::mem::swap(&mut detector, &mut self.rest_detector);
        detector.tick(sample);
        self.rest_detector = detector;
        sample
    }

    /// Ends the current sample. While the signal sounds, the player times the
    /// stretch of sound, starting the clock at `start_now` if it was not
    /// running; once the stretch has lasted more than a second at `now` the
    /// result asks for a forced pause and the clock stops. While the signal
    /// rests the clock stops. The player then moves to the next sample.
    pub fn end_sample(&mut self, start_now: u64, now: u64) -> (hard_rest: bool)
        requires
            old(self).position() < 8 * old(self).data().len(),
            !old(self).detector().resting() ==> now >= match old(self).active_since() {
                Some(t) => t,
                None => start_now,
            },
        ensures
            final(self).position() == old(self).position() + 1,
            final(self).data() == old(self).data(),
            final(self).detector() == old(self).detector(),
            ({
                let since = match old(self).active_since() {
                    Some(t) => t,
                    None => start_now,
                };
                if old(self).detector().resting() {
                    !hard_rest && final(self).active_since() is None
                } else if now - since > ACTIVE_LIMIT_US {
                    hard_rest && final(self).active_since() is None
                } else {
                    !hard_rest && final(self).active_since() == Some(since)
                }
            }),
    {
        proof {
            use_type_invariant(&*self);
        }
        let mut hard_rest = false;
        if !self.rest_detector.is_resting() {
            let since = match self.last_active_start {
                Some(t) => t,
                None => start_now,
            };
            self.last_active_start = Some(since);
            if now - since > ACTIVE_LIMIT_US {
                // the receiver needs a pause after a long stretch of sound
                hard_rest = true;
                self.last_active_start = None;
            }
        } else {
            self.last_active_start = None;
        }
        self.sample_n = self.sample_n + 1;
        hard_rest
    }
}

} // verus!
