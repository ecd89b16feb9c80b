//! Energy-based voice activity detection over fixed-size frames of 16-bit PCM.
use vstd::prelude::*;

verus! {

/// Number of samples the detector examines per decision.
pub const FRAME_SIZE: usize = 512;

/// Largest magnitude of a 16-bit sample, squared.
pub const MAX_SQUARE: u64 = 1073741824;

/// Energy threshold used when no other is given: 0.01 of full scale (32768).
pub const DEFAULT_ENERGY_THRESHOLD: u16 = 328;

/// Sum of the squares of the samples.
pub open spec fn sum_squares(s: Seq<i16>) -> int
    decreases s.len(),
{
    if s.len() == 0 {
        0
    } else {
        sum_squares(s.drop_last()) + (s.last() as int) * (s.last() as int)
    }
}

/// `r` is the root-mean-square of `s`, rounded down (zero for an empty frame).
pub open spec fn is_floor_rms(r: int, s: Seq<i16>) -> bool {
    if s.len() == 0 {
        r == 0
    } else {
        &&& 0 <= r
        &&& r * r * s.len() <= sum_squares(s)
        &&& sum_squares(s) < (r + 1) * (r + 1) * s.len()
    }
}

/// The root-mean-square energy of `s` exceeds `threshold`.
pub open spec fn frame_active(s: Seq<i16>, threshold: int) -> bool {
    sum_squares(s) > threshold * threshold * s.len()
}

/// Frames of silence that make up `silence_ms` at `sample_rate`:
/// the quotient rounded half up, and at least one.
pub open spec fn silence_frame_target(silence_ms: u32, sample_rate: u32) -> nat {
    let d = 1000 * FRAME_SIZE as int;
    let n = (2 * ((silence_ms as int) * (sample_rate as int)) + d) / (2 * d);
    if n < 1 {
        1
    } else {
        n as nat
    }
}

/// The silent-frame counter after one more frame.
pub open spec fn next_silent_frames(count: nat, active: bool) -> nat {
    if active {
        0
    } else if count < u64::MAX {
        count + 1
    } else {
        count
    }
}

/// What a frame reports, given whether it was active and the counter after it.
pub open spec fn frame_outcome(active: bool, count: nat, target: nat) -> SilenceState {
    if active {
        SilenceState::Voice
    } else if count >= target {
        SilenceState::SilenceDetected
    } else {
        SilenceState::PossibleSilence
    }
}

/// The counter after `k` silent frames fed from `count`.
pub open spec fn after_silent_frames(count: nat, k: nat) -> nat
    decreases k,
{
    if k == 0 {
        count
    } else {
        next_silent_frames(after_silent_frames(count, (k - 1) as nat), false)
    }
}

/// Magnitude of a sample.
pub open spec fn magnitude(a: i16) -> int {
    if a < 0 {
        -(a as int)
    } else {
        a as int
    }
}

/// A frame of `n` copies of the sample `a`.
pub open spec fn constant_frame(a: i16, n: nat) -> Seq<i16> {
    Seq::new(n, |i: int| a)
}

proof fn lemma_constant_sum_squares(a: i16, n: nat)
    ensures
        sum_squares(constant_frame(a, n)) == n * ((a as int) * (a as int)),
    decreases n,
{
    if n > 0 {
        let s = constant_frame(a, n);
        let m = (n - 1) as nat;
        let sq = (a as int) * (a as int);
        assert(s.drop_last() =~= constant_frame(a, m));
        assert(s.last() == a);
        lemma_constant_sum_squares(a, m);
        assert(sum_squares(s) == sum_squares(constant_frame(a, m)) + sq);
        assert(m * sq + sq == n * sq) by (nonlinear_arith)
            requires
                m + 1 == n,
        ;
        assert(sum_squares(s) == n * sq);
    } else {
        assert(constant_frame(a, n).len() == 0);
    }
}

/// The energy of a frame that repeats one sample `a` is exactly `|a|`, and
/// such a frame is active exactly when `|a|` exceeds the threshold.
pub proof fn lemma_constant_frame_energy(a: i16, n: nat, threshold: int)
    requires
        n > 0,
        threshold >= 0,
    ensures
        is_floor_rms(magnitude(a), constant_frame(a, n)),
        frame_active(constant_frame(a, n), threshold) <==> magnitude(a) > threshold,
{
    lemma_constant_sum_squares(a, n);
    let m = magnitude(a);
    let s = sum_squares(constant_frame(a, n));
    assert(m * m == (a as int) * (a as int)) by (nonlinear_arith)
        requires
            m == (if a < 0 {
                -(a as int)
            } else {
                a as int
            }),
    ;
    assert(m * m * n <= s < (m + 1) * (m + 1) * n) by (nonlinear_arith)
        requires
            s == n * (m * m),
            m >= 0,
            n > 0,
    ;
    assert(s > threshold * threshold * n <==> m > threshold) by (nonlinear_arith)
        requires
            s == n * (m * m),
            m >= 0,
            threshold >= 0,
            n > 0,
    ;
}

/// For frames that repeat one sample, activity is monotonic in the sample's
/// magnitude: a louder constant frame is active whenever a quieter one is.
pub proof fn lemma_activity_monotonic(a: i16, b: i16, n: nat, threshold: int)
    requires
        n > 0,
        threshold >= 0,
        magnitude(a) <= magnitude(b),
        frame_active(constant_frame(a, n), threshold),
    ensures
        frame_active(constant_frame(b, n), threshold),
{
    lemma_constant_frame_energy(a, n, threshold);
    lemma_constant_frame_energy(b, n, threshold);
}

/// Feeding `k` silent frames to a fresh or reset detector reports silence on
/// the `k`-th frame exactly when `k` reaches the target computed from the
/// silence duration and sample rate, and never earlier.
pub proof fn lemma_sustained_silence(silence_ms: u32, sample_rate: u32, k: nat)
    requires
        1 <= k <= u64::MAX,
    ensures
        after_silent_frames(0, k) == k,
        frame_outcome(false, after_silent_frames(0, k), silence_frame_target(silence_ms, sample_rate))
            == SilenceState::SilenceDetected <==> k >= silence_frame_target(
            silence_ms,
            sample_rate,
        ),
{
    lemma_silent_count(k);
}

proof fn lemma_silent_count(k: nat)
    requires
        k <= u64::MAX,
    ensures
        after_silent_frames(0, k) == k,
    decreases k,
{
    if k > 0 {
        lemma_silent_count((k - 1) as nat);
    }
}

#[derive(Debug, Clone, Copy, PartialEq, Eq, Structural)]
pub enum SilenceState {
    Voice,
    PossibleSilence,
    SilenceDetected,
}

/// The detector's configuration and counter, as numbers.
pub struct VadModel {
    pub energy_threshold: nat,
    pub silence_target: nat,
    pub silent_frames: nat,
    pub frame_size: nat,
}

pub struct VoiceActivityDetector {
    energy_threshold: u16,
    silence_frame_count: u64,
    current_silent_frames: u64,
    frame_size: usize,
}

impl View for VoiceActivityDetector {
    type V = VadModel;

    closed spec fn view(&self) -> VadModel {
        VadModel {
            energy_threshold: self.energy_threshold as nat,
            silence_target: self.silence_frame_count as nat,
            silent_frames: self.current_silent_frames as nat,
            frame_size: self.frame_size as nat,
        }
    }
}

proof fn lemma_square_bound(x: i16)
    ensures
        0 <= (x as int) * (x as int) <= MAX_SQUARE,
{
    let v = x as int;
    assert(0 <= v * v <= 1073741824) by (nonlinear_arith)
        requires
            -32768 <= v <= 32767,
    ;
}

proof fn lemma_sum_squares_bound(s: Seq<i16>)
    ensures
        0 <= sum_squares(s) <= s.len() * MAX_SQUARE,
    decreases s.len(),
{
    if s.len() > 0 {
        lemma_sum_squares_bound(s.drop_last());
        lemma_square_bound(s.last());
    }
}

/// Integer square root of `m`, rounded down.
fn isqrt(m: u64) -> (r: u64)
    requires
        m <= MAX_SQUARE,
    ensures
        r * r <= m < (r + 1) * (r + 1),
        r <= 32768,
{
    let mut lo: u64 = 0;
    let mut hi: u64 = 32769;
    assert(m < 32769 * 32769);
    while hi - lo > 1
        invariant
            lo < hi <= 32769,
            lo * lo <= m,
            m < hi * hi,
        decreases hi - lo,
    {
        let mid = lo + (hi - lo) / 2;
        assert(mid * mid <= 32769 * 32769) by (nonlinear_arith)
            requires
                mid <= 32769,
        ;
        if mid * mid <= m {
            lo = mid;
        } else {
            hi = mid;
        }
    }
    lo
}

proof fn lemma_floor_rms(r: int, q: int, total: int, n: int)
    requires
        n > 0,
        total >= 0,
        q == total / n,
        r >= 0,
        r * r <= q < (r + 1) * (r + 1),
    ensures
        r * r * n <= total < (r + 1) * (r + 1) * n,
{
    assert(q * n <= total < (q + 1) * n) by (nonlinear_arith)
        requires
            n > 0,
            total >= 0,
            q == total / n,
    ;
    assert(r * r * n <= q * n) by (nonlinear_arith)
        requires
            r * r <= q,
            n > 0,
    ;
    assert((q + 1) * n <= (r + 1) * (r + 1) * n) by (nonlinear_arith)
        requires
            q + 1 <= (r + 1) * (r + 1),
            n > 0,
    ;
}

/// Sum of the squares of the samples.
fn square_sum(samples: &[i16]) -> (total: u128)
    ensures
        total as int == sum_squares(samples@),
        total <= samples@.len() * MAX_SQUARE,
{
    let mut total: u128 = 0;
    let mut i: usize = 0;
    while i < samples.len()
        invariant
            i <= samples@.len(),
            total as int == sum_squares(samples@.take(i as int)),
            total <= i * MAX_SQUARE,
        decreases samples@.len() - i,
    {
        let x = samples[i];
        proof {
            lemma_square_bound(x);
            assert(samples@.take(i + 1).drop_last() =~= samples@.take(i as int));
        }
        let sq = (x as i64) * (x as i64);
        total = total + sq as u128;
        i = i + 1;
    }
    assert(samples@.take(i as int) =~= samples@);
    total
}

impl VoiceActivityDetector {
    pub open spec fn well_formed(&self) -> bool {
        &&& self@.silence_target >= 1
        &&& self@.frame_size == FRAME_SIZE
    }

    /// A detector that declares silence after `silence_duration_ms` of frames
    /// whose energy is at most `energy_threshold`.
    pub fn new(energy_threshold: u16, silence_duration_ms: u32, sample_rate: u32) -> (r: Self)
        ensures
            r@.energy_threshold == energy_threshold,
            r@.silence_target == silence_frame_target(silence_duration_ms, sample_rate),
            r@.silent_frames == 0,
            r@.frame_size == FRAME_SIZE,
            r.well_formed(),
    {
        let d: u128 = 1000 * (FRAME_SIZE as u128);
        let ms = silence_duration_ms as u128;
        let rate = sample_rate as u128;
        assert(ms * rate <= 0xffff_ffff_u128 * 0xffff_ffff_u128) by (nonlinear_arith)
            requires
                ms <= 0xffff_ffff,
                rate <= 0xffff_ffff,
        ;
        let product: u128 = ms * rate;
        let n: u128 = (2 * product + d) / (2 * d);
        assert(n <= u64::MAX) by (nonlinear_arith)
            requires
                d == 512000,
                n == (2 * product + d) / (2 * d),
                product <= 0xffff_ffff_u128 * 0xffff_ffff_u128,
        ;
        let target: u64 = if n < 1 {
            1
        } else {
            n as u64
        };
        VoiceActivityDetector {
            energy_threshold,
            silence_frame_count: target,
            current_silent_frames: 0,
            frame_size: FRAME_SIZE,
        }
    }

    /// Root-mean-square energy of a frame, rounded down; zero for an empty frame.
    pub fn calculate_energy(&self, samples: &[i16]) -> (r: u32)
        ensures
            is_floor_rms(r as int, samples@),
    {
        if samples.len() == 0 {
            return 0;
        }
        let total = square_sum(samples);
        let n = samples.len() as u128;
        let q: u128 = total / n;
        assert(q <= MAX_SQUARE) by (nonlinear_arith)
            requires
                n > 0,
                total <= n * MAX_SQUARE,
                q == total / n,
        ;
        let r = isqrt(q as u64);
        proof {
            lemma_floor_rms(r as int, q as int, total as int, n as int);
        }
        r as u32
    }

    /// Whether the frame's energy exceeds the threshold.
    pub fn is_voice_active(&self, samples: &[i16]) -> (r: bool)
        ensures
            r == frame_active(samples@, self@.energy_threshold as int),
    {
        let total = square_sum(samples);
        let t = self.energy_threshold as u128;
        let n = samples.len() as u128;
        assert(t * t <= 0xffff_ffff_u128) by (nonlinear_arith)
            requires
                t <= 0xffff,
        ;
        let tt: u128 = t * t;
        assert(tt * n <= 0xffff_ffff_u128 * 0xffff_ffff_ffff_ffff_u128) by (nonlinear_arith)
            requires
                tt <= 0xffff_ffff,
                n <= 0xffff_ffff_ffff_ffff,
        ;
        total > tt * n
    }

    /// Classifies a frame and advances the count of consecutive silent frames.
    pub fn process_frame(&mut self, samples: &[i16]) -> (r: SilenceState)
        ensures
            final(self)@.energy_threshold == old(self)@.energy_threshold,
            final(self)@.silence_target == old(self)@.silence_target,
            final(self)@.frame_size == old(self)@.frame_size,
            final(self)@.silent_frames == next_silent_frames(
                old(self)@.silent_frames,
                frame_active(samples@, old(self)@.energy_threshold as int),
            ),
            r == frame_outcome(
                frame_active(samples@, old(self)@.energy_threshold as int),
                final(self)@.silent_frames,
                old(self)@.silence_target,
            ),
            r == SilenceState::Voice ==> final(self)@.silent_frames == 0,
            old(self).well_formed() ==> final(self).well_formed(),
    {
        let is_active = self.is_voice_active(samples);
        if is_active {
            self.current_silent_frames = 0;
            SilenceState::Voice
        } else {
            if self.current_silent_frames < u64::MAX {
                self.current_silent_frames = self.current_silent_frames + 1;
            }
            if self.current_silent_frames >= self.silence_frame_count {
                SilenceState::SilenceDetected
            } else {
                SilenceState::PossibleSilence
            }
        }
    }

    /// Forgets the silent frames seen so far; the configuration stays.
    pub fn reset(&mut self)
        ensures
            final(self)@ == (VadModel { silent_frames: 0, ..old(self)@ }),
    {
        self.current_silent_frames = 0;
    }

    pub fn frame_size(&self) -> (r: usize)
        ensures
            r == self@.frame_size,
    {
        self.frame_size
    }

    /// Consecutive silent frames needed before silence is declared.
    pub fn silence_frame_target(&self) -> (r: u64)
        ensures
            r == self@.silence_target,
    {
        self.silence_frame_count
    }

    /// Consecutive silent frames seen so far.
    pub fn silent_frames(&self) -> (r: u64)
        ensures
            r == self@.silent_frames,
    {
        self.current_silent_frames
    }

    pub fn is_silence_detected(&self) -> (r: bool)
        ensures
            r == (self@.silent_frames >= self@.silence_target),
    {
        self.current_silent_frames >= self.silence_frame_count
    }
}

impl Default for VoiceActivityDetector {
    /// A detector with the default threshold that declares silence after
    /// 1.5 seconds at 16 kHz.
    fn default() -> (r: Self)
        ensures
            r@.energy_threshold == DEFAULT_ENERGY_THRESHOLD,
            r@.silence_target == silence_frame_target(1500, 16000),
            r@.silent_frames == 0,
            r.well_formed(),
    {
        Self::new(DEFAULT_ENERGY_THRESHOLD, 1500, 16000)
    }
}

} // verus!
