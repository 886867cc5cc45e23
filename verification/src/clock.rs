//! Playback clock: measures position, drift against wall time, and jitter.
//!
//! All figures are integers: drift in parts per million, jitter in whole
//! nanoseconds, positions in milliseconds. Wall-clock readings enter only as
//! explicit `now_ns` arguments of the `*_at` functions; the argument-free
//! counterparts feed them one reading from `time_source::now_ns`.
use vstd::prelude::*;
use crate::format::AudioFormat;
use crate::time_source::now_ns;

verus! {

/// Health figures of the running clock.
#[derive(Debug, Clone, Copy, PartialEq, Eq, Structural)]
pub struct ClockStats {
    /// Relative deviation of frames played from frames expected, in parts
    /// per million, rounded toward zero and saturated to i64.
    pub drift_ppm: i64,
    /// Standard deviation of the per-update frame discrepancies, rescaled to
    /// nanoseconds via the sample rate, rounded down.
    pub jitter_ns: u64,
    /// Ring fill level in thousandths; the clock itself reports 0.
    pub buffer_level_permille: u32,
}

/// How many frames a perfect clock produces in `elapsed_ns` at `rate` Hz.
pub open spec fn spec_expected_frames(elapsed_ns: int, rate: int) -> int {
    elapsed_ns * rate / 1_000_000_000
}

pub open spec fn spec_sat_add_u64(a: int, b: int) -> int {
    if a + b > u64::MAX { u64::MAX as int } else { a + b }
}

pub open spec fn spec_clamp_i64(x: int) -> int {
    if x > i64::MAX {
        i64::MAX as int
    } else if x < i64::MIN {
        i64::MIN as int
    } else {
        x
    }
}

pub open spec fn spec_cap_u64(x: int) -> int {
    if x > u64::MAX { u64::MAX as int } else { x }
}

/// Largest r with r * r <= n.
pub open spec fn spec_isqrt(n: nat) -> nat
    decreases n,
{
    if n == 0 {
        0nat
    } else {
        let r = spec_isqrt((n - 1) as nat);
        if (r + 1) * (r + 1) <= n {
            (r + 1) as nat
        } else {
            r
        }
    }
}

pub proof fn lemma_isqrt_bounds(n: nat)
    ensures
        spec_isqrt(n) * spec_isqrt(n) <= n,
        n < (spec_isqrt(n) + 1) * (spec_isqrt(n) + 1),
    decreases n,
{
    if n == 0 {
        assert(spec_isqrt(0nat) == 0);
        assert((0 + 1) * (0 + 1) == 1) by (nonlinear_arith);
    } else {
        lemma_isqrt_bounds((n - 1) as nat);
        let r = spec_isqrt((n - 1) as nat);
        if (r + 1) * (r + 1) <= n {
            assert(spec_isqrt(n) == r + 1);
            assert(n < (r + 2) * (r + 2)) by (nonlinear_arith)
                requires
                    (n - 1) < (r + 1) * (r + 1),
                    (r + 1) * (r + 1) <= n,
                    r >= 0,
            ;
        } else {
            assert(spec_isqrt(n) == r);
            assert(r * r <= n - 1 < n);
        }
    }
}

pub proof fn lemma_isqrt_unique(a: nat, b: nat, n: nat)
    requires
        a * a <= n,
        n < (a + 1) * (a + 1),
        b * b <= n,
        n < (b + 1) * (b + 1),
    ensures
        a == b,
{
    assert(a == b) by (nonlinear_arith)
        requires
            a * a <= n,
            n < (a + 1) * (a + 1),
            b * b <= n,
            n < (b + 1) * (b + 1),
            a >= 0,
            b >= 0,
    ;
}

/// Binary-search integer square root.
fn isqrt_u128(n: u128) -> (r: u128)
    ensures
        r == spec_isqrt(n as nat),
{
    proof {
        lemma_isqrt_bounds(n as nat);
    }
    let mut lo: u128 = 0;
    let mut hi: u128 = 0x1_0000_0000_0000_0000u128;
    proof {
        assert((hi as int) * (hi as int) > n as int) by (nonlinear_arith)
            requires
                hi == 0x1_0000_0000_0000_0000u128,
                n <= u128::MAX,
        ;
    }
    while lo + 1 < hi
        invariant
            lo < hi <= 0x1_0000_0000_0000_0000u128,
            (lo as int) * (lo as int) <= n as int,
            (n as int) < (hi as int) * (hi as int),
        decreases hi - lo,
    {
        let mid = lo + (hi - lo) / 2;
        proof {
            assert((mid as int) * (mid as int) <= u128::MAX) by (nonlinear_arith)
                requires
                    0 <= mid < 0x1_0000_0000_0000_0000u128,
            ;
        }
        if mid * mid <= n {
            lo = mid;
        } else {
            hi = mid;
        }
    }
    proof {
        lemma_isqrt_unique(lo as nat, spec_isqrt(n as nat), n as nat);
    }
    lo
}

/// Sum of a sequence of samples.
pub open spec fn seq_sum(s: Seq<u64>) -> int
    decreases s.len(),
{
    if s.len() == 0 {
        0
    } else {
        seq_sum(s.drop_last()) + s.last()
    }
}

/// Sum of squared deviations of the samples from `avg`.
pub open spec fn seq_sq_dev_sum(s: Seq<u64>, avg: int) -> int
    decreases s.len(),
{
    if s.len() == 0 {
        0
    } else {
        seq_sq_dev_sum(s.drop_last(), avg) + (s.last() - avg) * (s.last() - avg)
    }
}

proof fn lemma_seq_sum_take_step(s: Seq<u64>, i: int)
    requires
        0 <= i < s.len(),
    ensures
        seq_sum(s.take(i + 1)) == seq_sum(s.take(i)) + s[i],
{
    assert(s.take(i + 1).drop_last() =~= s.take(i));
    assert(s.take(i + 1).last() == s[i]);
}

proof fn lemma_seq_sq_dev_take_step(s: Seq<u64>, avg: int, i: int)
    requires
        0 <= i < s.len(),
    ensures
        seq_sq_dev_sum(s.take(i + 1), avg) == seq_sq_dev_sum(s.take(i), avg) + (s[i] - avg) * (s[i] - avg),
{
    assert(s.take(i + 1).drop_last() =~= s.take(i));
    assert(s.take(i + 1).last() == s[i]);
}

proof fn lemma_seq_sum_bound(s: Seq<u64>, cap: int)
    requires
        forall|i: int| 0 <= i < s.len() ==> #[trigger] s[i] <= cap,
        cap >= 0,
    ensures
        0 <= seq_sum(s) <= s.len() * cap,
    decreases s.len(),
{
    if s.len() == 0 {
    } else {
        lemma_seq_sum_bound(s.drop_last(), cap);
        assert((s.len() - 1) * cap + cap == s.len() * cap) by (nonlinear_arith);
    }
}

/// The jitter window keeps at most this many samples.
pub open spec fn window_limit() -> int {
    100
}

/// A new sample joins at the back; the oldest leaves once the window is full.
pub open spec fn window_push(s: Seq<u64>, x: u64) -> Seq<u64> {
    if s.len() + 1 > window_limit() {
        s.push(x).skip(1)
    } else {
        s.push(x)
    }
}

/// Per-update discrepancies are stored saturated to u32::MAX so that their
/// squares cannot overflow any machine width.
pub open spec fn spec_jitter_sample(frames: int, expected: int) -> int {
    let d = if frames >= expected { frames - expected } else { expected - frames };
    if d > u32::MAX { u32::MAX as int } else { d }
}

/// Measures playback position and health against wall time.
pub struct AudioClock {
    pub format: AudioFormat,
    pub start_ns: Option<u64>,
    pub frames_played: u64,
    pub last_update_ns: Option<u64>,
    pub drift_accumulator: i64,
    pub jitter_samples: Vec<u64>,
}

impl AudioClock {
    pub open spec fn wf(self) -> bool {
        &&& self.format.sample_rate >= 1
        &&& self.jitter_samples@.len() <= window_limit()
        &&& (self.start_ns is Some <==> self.last_update_ns is Some)
        &&& forall|i: int| 0 <= i < self.jitter_samples@.len()
            ==> #[trigger] self.jitter_samples@[i] <= u32::MAX
    }

    pub open spec fn spec_is_running(self) -> bool {
        self.start_ns is Some
    }

    /// Nanoseconds on the wall since start, never negative.
    pub open spec fn spec_elapsed(self, now: int) -> int {
        if self.start_ns is Some && now >= self.start_ns->0 {
            now - self.start_ns->0
        } else {
            0
        }
    }

    /// Frames a perfect clock would have played since start, capped to u64.
    pub open spec fn spec_expected_total(self, now: int) -> int {
        spec_cap_u64(spec_expected_frames(self.spec_elapsed(now), self.format.sample_rate as int))
    }

    /// Drift in parts per million at wall time `now`; zero before any frame
    /// was expected. Rounded toward zero.
    pub open spec fn spec_drift_ppm(self, now: int) -> int {
        let e = self.spec_expected_total(now);
        if e > 0 {
            if self.frames_played >= e {
                spec_clamp_i64((self.frames_played - e) * 1_000_000 / e)
            } else {
                spec_clamp_i64(-((e - self.frames_played) * 1_000_000 / e))
            }
        } else {
            0
        }
    }

    /// Mean of the jitter window, rounded down; zero when empty.
    pub open spec fn spec_jitter_avg(self) -> int {
        if self.jitter_samples@.len() == 0 {
            0
        } else {
            seq_sum(self.jitter_samples@) / self.jitter_samples@.len() as int
        }
    }

    /// Population variance of the window around that mean, rounded down.
    pub open spec fn spec_jitter_variance(self) -> int {
        if self.jitter_samples@.len() == 0 {
            0
        } else {
            seq_sq_dev_sum(self.jitter_samples@, self.spec_jitter_avg())
                / self.jitter_samples@.len() as int
        }
    }

    /// Standard deviation in frames, rescaled to nanoseconds.
    pub open spec fn spec_jitter_ns(self) -> int {
        spec_cap_u64(
            (spec_isqrt(self.spec_jitter_variance() as nat) as int) * 1_000_000_000
                / self.format.sample_rate as int,
        )
    }

    /// The whole answer of `get_stats` at wall time `now`.
    pub open spec fn spec_stats(self, now: int) -> Option<ClockStats> {
        if self.spec_is_running() {
            Some(ClockStats {
                drift_ppm: self.spec_drift_ppm(now) as i64,
                jitter_ns: self.spec_jitter_ns() as u64,
                buffer_level_permille: 0,
            })
        } else {
            None
        }
    }

    pub fn new(format: AudioFormat) -> (r: Self)
        requires
            format.sample_rate >= 1,
        ensures
            r.wf(),
            r.format == format,
            !r.spec_is_running(),
            r.frames_played == 0,
            r.drift_accumulator == 0,
            r.jitter_samples@.len() == 0,
    {
        Self {
            format,
            start_ns: None,
            frames_played: 0,
            last_update_ns: None,
            drift_accumulator: 0,
            jitter_samples: Vec::new(),
        }
    }

    /// Start measuring at wall time `now_ns`, zeroing all counters.
    pub fn start_at(&mut self, now_ns: u64)
        requires
            old(self).wf(),
        ensures
            final(self).wf(),
            final(self).format == old(self).format,
            final(self).start_ns == Some(now_ns),
            final(self).last_update_ns == Some(now_ns),
            final(self).frames_played == 0,
            final(self).drift_accumulator == 0,
            final(self).jitter_samples@.len() == 0,
    {
        self.start_ns = Some(now_ns);
        self.last_update_ns = Some(now_ns);
        self.frames_played = 0;
        self.drift_accumulator = 0;
        self.jitter_samples.clear();
    }

    /// Start measuring now.
    pub fn start(&mut self)
        requires
            old(self).wf(),
        ensures
            final(self).wf(),
            final(self).format == old(self).format,
            final(self).spec_is_running(),
            final(self).frames_played == 0,
            final(self).drift_accumulator == 0,
            final(self).jitter_samples@.len() == 0,
    {
        let now = now_ns();
        self.start_at(now);
    }

    /// Stop measuring; counters keep their values.
    pub fn stop(&mut self)
        requires
            old(self).wf(),
        ensures
            final(self).wf(),
            final(self).format == old(self).format,
            !final(self).spec_is_running(),
            final(self).frames_played == old(self).frames_played,
            final(self).drift_accumulator == old(self).drift_accumulator,
            final(self).jitter_samples@ == old(self).jitter_samples@,
    {
        self.start_ns = None;
        self.last_update_ns = None;
    }

    pub fn is_running(&self) -> (r: bool)
        ensures
            r == self.spec_is_running(),
    {
        self.start_ns.is_some()
    }

    /// Record that `frames` frames were consumed, judged at wall time
    /// `now_ns`. A stopped clock ignores the call.
    pub fn update_at(&mut self, frames: u64, now_ns: u64)
        requires
            old(self).wf(),
        ensures
            final(self).wf(),
            final(self).format == old(self).format,
            final(self).start_ns == old(self).start_ns,
            !old(self).spec_is_running() ==> *final(self) == *old(self),
            old(self).spec_is_running() ==> {
                let last = old(self).last_update_ns->0;
                let elapsed = if now_ns >= last { now_ns - last } else { 0 };
                let expected = spec_cap_u64(
                    spec_expected_frames(elapsed as int, old(self).format.sample_rate as int),
                );
                &&& final(self).frames_played == spec_sat_add_u64(
                    old(self).frames_played as int,
                    frames as int,
                )
                &&& final(self).drift_accumulator == spec_clamp_i64(
                    old(self).drift_accumulator + (frames - expected),
                )
                &&& final(self).jitter_samples@ == window_push(
                    old(self).jitter_samples@,
                    spec_jitter_sample(frames as int, expected) as u64,
                )
                &&& final(self).last_update_ns == Some(now_ns)
            },
    {
        if self.start_ns.is_none() {
            return ;
        }
        let last = self.last_update_ns.unwrap();
        let elapsed: u64 = if now_ns >= last { now_ns - last } else { 0 };
        proof {
            lemma_u64_u32_product_fits(elapsed as int, self.format.sample_rate as int);
        }
        let e128: u128 = (elapsed as u128) * (self.format.sample_rate as u128) / 1_000_000_000u128;
        let expected: u64 = if e128 > u64::MAX as u128 { u64::MAX } else { e128 as u64 };

        let diff: u64 = if frames >= expected { frames - expected } else { expected - frames };
        let sample: u64 = if diff > u32::MAX as u64 { u32::MAX as u64 } else { diff };
        self.jitter_samples.push(sample);
        if self.jitter_samples.len() > 100 {
            self.jitter_samples.remove(0);
            proof {
                assert(self.jitter_samples@ =~= window_push(
                    old(self).jitter_samples@,
                    spec_jitter_sample(frames as int, expected as int) as u64,
                ));
            }
        }

        let delta: i128 = frames as i128 - expected as i128;
        let acc: i128 = self.drift_accumulator as i128 + delta;
        self.drift_accumulator = if acc > i64::MAX as i128 {
            i64::MAX
        } else if acc < i64::MIN as i128 {
            i64::MIN
        } else {
            acc as i64
        };

        self.frames_played = if frames > u64::MAX - self.frames_played {
            u64::MAX
        } else {
            self.frames_played + frames
        };
        self.last_update_ns = Some(now_ns);
    }

    /// Record consumed frames against the wall clock now.
    pub fn update(&mut self, frames: u64)
        requires
            old(self).wf(),
        ensures
            final(self).wf(),
            final(self).format == old(self).format,
            final(self).start_ns == old(self).start_ns,
            !old(self).spec_is_running() ==> *final(self) == *old(self),
            old(self).spec_is_running() ==> final(self).frames_played
                == spec_sat_add_u64(old(self).frames_played as int, frames as int),
    {
        let now = now_ns();
        self.update_at(frames, now);
    }

    /// Playback position in milliseconds derived from frames played;
    /// nothing while stopped.
    pub fn get_position(&self) -> (r: Option<u64>)
        requires
            self.wf(),
        ensures
            r == if self.spec_is_running() {
                Some(
                    spec_cap_u64(
                        self.frames_played * 1000 / self.format.sample_rate as int,
                    ) as u64,
                )
            } else {
                None::<u64>
            },
    {
        if self.start_ns.is_some() {
            let ms128: u128 = (self.frames_played as u128) * 1000u128
                / (self.format.sample_rate as u128);
            let ms: u64 = if ms128 > u64::MAX as u128 { u64::MAX } else { ms128 as u64 };
            Some(ms)
        } else {
            None
        }
    }

    /// Drift and jitter judged at wall time `now_ns`; nothing while stopped.
    pub fn stats_at(&self, now_ns: u64) -> (r: Option<ClockStats>)
        requires
            self.wf(),
        ensures
            r == self.spec_stats(now_ns as int),
    {
        if self.start_ns.is_none() {
            return None;
        }
        let start = self.start_ns.unwrap();
        let elapsed: u64 = if now_ns >= start { now_ns - start } else { 0 };
        proof {
            lemma_u64_u32_product_fits(elapsed as int, self.format.sample_rate as int);
        }
        let e128: u128 = (elapsed as u128) * (self.format.sample_rate as u128) / 1_000_000_000u128;
        let expected: u64 = if e128 > u64::MAX as u128 { u64::MAX } else { e128 as u64 };

        let drift_ppm: i64 = if expected > 0 {
            if self.frames_played >= expected {
                let q: u128 = ((self.frames_played - expected) as u128) * 1_000_000u128
                    / (expected as u128);
                if q > i64::MAX as u128 {
                    i64::MAX
                } else {
                    q as i64
                }
            } else {
                let q: u128 = ((expected - self.frames_played) as u128) * 1_000_000u128
                    / (expected as u128);
                if q >= 0x8000_0000_0000_0000u128 {
                    i64::MIN
                } else {
                    -(q as i64)
                }
            }
        } else {
            0
        };

        let jitter_ns: u64 = self.jitter_window_stddev_ns();

        Some(ClockStats { drift_ppm, jitter_ns, buffer_level_permille: 0 })
    }

    /// Standard deviation of the jitter window in nanoseconds.
    fn jitter_window_stddev_ns(&self) -> (r: u64)
        requires
            self.wf(),
        ensures
            r == self.spec_jitter_ns(),
    {
        let n = self.jitter_samples.len();
        if n == 0 {
            return 0;
        }
        let mut sum: u64 = 0;
        let mut i: usize = 0;
        proof {
            lemma_seq_sum_bound(self.jitter_samples@, u32::MAX as int);
        }
        while i < n
            invariant
                self.wf(),
                n == self.jitter_samples@.len(),
                i <= n,
                sum == seq_sum(self.jitter_samples@.take(i as int)),
                sum <= i * (u32::MAX as int),
            decreases n - i,
        {
            proof {
                lemma_seq_sum_take_step(self.jitter_samples@, i as int);
                lemma_seq_sum_bound(self.jitter_samples@.take(i as int + 1), u32::MAX as int);
            }
            sum = sum + self.jitter_samples[i];
            i = i + 1;
        }
        proof {
            assert(self.jitter_samples@.take(n as int) =~= self.jitter_samples@);
        }
        let avg: u64 = sum / (n as u64);
        proof {
            lemma_div_pos_le(seq_sum(self.jitter_samples@), n as int, u32::MAX as int);
        }

        let mut sq_sum: u128 = 0;
        let mut j: usize = 0;
        proof {
            lemma_avg_dev_cap(self.jitter_samples@, avg as int);
        }
        while j < n
            invariant
                self.wf(),
                n == self.jitter_samples@.len(),
                j <= n,
                avg <= u32::MAX,
                sq_sum == seq_sq_dev_sum(self.jitter_samples@.take(j as int), avg as int),
                sq_sum <= j * ((u32::MAX as int) * (u32::MAX as int)),
            decreases n - j,
        {
            let x = self.jitter_samples[j];
            let d: u64 = if x >= avg { x - avg } else { avg - x };
            proof {
                assert((d as int) * (d as int) <= u128::MAX) by (nonlinear_arith)
                    requires
                        0 <= d <= u32::MAX,
                ;
            }
            let d2: u128 = (d as u128) * (d as u128);
            proof {
                lemma_seq_sq_dev_take_step(self.jitter_samples@, avg as int, j as int);
                assert((d as int) * (d as int)
                    == (self.jitter_samples@[j as int] - avg) * (self.jitter_samples@[j as int] - avg))
                    by (nonlinear_arith)
                    requires
                        d == if self.jitter_samples@[j as int] >= avg {
                            self.jitter_samples@[j as int] - avg
                        } else {
                            avg - self.jitter_samples@[j as int]
                        },
                ;
                assert((d as int) * (d as int) <= (u32::MAX as int) * (u32::MAX as int))
                    by (nonlinear_arith)
                    requires
                        0 <= d <= u32::MAX,
                ;
                assert((j + 1) * ((u32::MAX as int) * (u32::MAX as int))
                    == j * ((u32::MAX as int) * (u32::MAX as int))
                        + (u32::MAX as int) * (u32::MAX as int)) by (nonlinear_arith);
            }
            sq_sum = sq_sum + d2;
            j = j + 1;
        }
        proof {
            assert(self.jitter_samples@.take(n as int) =~= self.jitter_samples@);
        }
        let variance: u128 = sq_sum / (n as u128);
        proof {
            lemma_div_pos_le(
                seq_sq_dev_sum(self.jitter_samples@, avg as int),
                n as int,
                (u32::MAX as int) * (u32::MAX as int),
            );
        }
        let root: u128 = isqrt_u128(variance);
        proof {
            lemma_isqrt_bounds(variance as nat);
            assert(spec_isqrt(variance as nat) <= u32::MAX) by (nonlinear_arith)
                requires
                    spec_isqrt(variance as nat) * spec_isqrt(variance as nat) <= variance,
                    variance <= (u32::MAX as int) * (u32::MAX as int),
            ;
        }
        let scaled: u128 = root * 1_000_000_000u128 / (self.format.sample_rate as u128);
        if scaled > u64::MAX as u128 {
            u64::MAX
        } else {
            scaled as u64
        }
    }

    /// Drift and jitter against the wall clock now; nothing while stopped.
    pub fn get_stats(&self) -> (r: Option<ClockStats>)
        requires
            self.wf(),
        ensures
            r is Some <==> self.spec_is_running(),
            r is Some ==> r->0.jitter_ns == self.spec_jitter_ns(),
    {
        let now = now_ns();
        self.stats_at(now)
    }

    /// Zero the counters; a running clock restarts its epoch at `now_ns`.
    pub fn reset_at(&mut self, now_ns: u64)
        requires
            old(self).wf(),
        ensures
            final(self).wf(),
            final(self).format == old(self).format,
            final(self).frames_played == 0,
            final(self).drift_accumulator == 0,
            final(self).jitter_samples@.len() == 0,
            final(self).spec_is_running() == old(self).spec_is_running(),
            old(self).spec_is_running() ==> final(self).start_ns == Some(now_ns),
    {
        self.frames_played = 0;
        self.drift_accumulator = 0;
        self.jitter_samples.clear();
        if self.start_ns.is_some() {
            self.start_ns = Some(now_ns);
            self.last_update_ns = Some(now_ns);
        }
    }

    /// Zero the counters without stopping.
    pub fn reset(&mut self)
        requires
            old(self).wf(),
        ensures
            final(self).wf(),
            final(self).format == old(self).format,
            final(self).frames_played == 0,
            final(self).drift_accumulator == 0,
            final(self).jitter_samples@.len() == 0,
            final(self).spec_is_running() == old(self).spec_is_running(),
    {
        let now = now_ns();
        self.reset_at(now);
    }
}

/// Division of a bounded nonnegative quantity keeps its bound.
proof fn lemma_div_pos_le(total: int, n: int, cap: int)
    requires
        n >= 1,
        0 <= total <= n * cap,
        cap >= 0,
    ensures
        0 <= total / n <= cap,
{
    assert(0 <= total / n <= cap) by (nonlinear_arith)
        requires
            n >= 1,
            0 <= total <= n * cap,
            cap >= 0,
    ;
}

/// Every sample and the window average lie in [0, u32::MAX], so deviations
/// lie in [-u32::MAX, u32::MAX].
proof fn lemma_avg_dev_cap(s: Seq<u64>, avg: int)
    requires
        forall|i: int| 0 <= i < s.len() ==> #[trigger] s[i] <= u32::MAX,
        0 <= avg <= u32::MAX,
    ensures
        forall|i: int| 0 <= i < s.len() ==> -(u32::MAX as int) <= #[trigger] s[i] - avg <= u32::MAX as int,
{
}

/// The product of a value that fits in 64 bits and one that fits in 32 bits
/// fits in 128 bits.
pub proof fn lemma_u64_u32_product_fits(a: int, b: int)
    requires
        0 <= a <= u64::MAX,
        0 <= b <= u32::MAX,
    ensures
        0 <= a * b <= u128::MAX,
{
    assert(0 <= a * b <= u128::MAX) by (nonlinear_arith)
        requires
            0 <= a <= u64::MAX,
            0 <= b <= u32::MAX,
    ;
}

/// Clock-drift supervisor: decides when measured drift warrants a
/// rate-correction hint.
#[derive(Debug, Clone, Copy)]
pub struct ClockSync {
    pub target_drift_ppm: i64,
    pub correction_threshold_ppm: i64,
}

impl ClockSync {
    pub fn new() -> (r: Self)
        ensures
            r.target_drift_ppm == 10,
            r.correction_threshold_ppm == 50,
    {
        Self { target_drift_ppm: 10, correction_threshold_ppm: 50 }
    }

    pub fn with_threshold(self, ppm: i64) -> (r: Self)
        ensures
            r.correction_threshold_ppm == ppm,
            r.target_drift_ppm == self.target_drift_ppm,
    {
        Self { correction_threshold_ppm: ppm, ..self }
    }

    /// Correction is owed exactly when |drift| exceeds the threshold.
    pub fn needs_correction(&self, stats: &ClockStats) -> (r: bool)
        requires
            stats.drift_ppm > i64::MIN,
        ensures
            r == (abs_i64(stats.drift_ppm as int) > self.correction_threshold_ppm),
    {
        let mag: i64 = if stats.drift_ppm >= 0 { stats.drift_ppm } else { -stats.drift_ppm };
        mag > self.correction_threshold_ppm
    }

    /// The rate-correction hint in parts per million: the measured drift,
    /// negated; zero while no correction is owed.
    pub fn calculate_correction(&self, stats: &ClockStats) -> (r: i64)
        requires
            stats.drift_ppm > i64::MIN,
        ensures
            abs_i64(stats.drift_ppm as int) > self.correction_threshold_ppm ==> r == -stats.drift_ppm,
            abs_i64(stats.drift_ppm as int) <= self.correction_threshold_ppm ==> r == 0,
    {
        if self.needs_correction(stats) {
            -stats.drift_ppm
        } else {
            0
        }
    }
}

impl Default for ClockSync {
    fn default() -> (r: Self)
        ensures
            r.target_drift_ppm == 10,
            r.correction_threshold_ppm == 50,
    {
        ClockSync::new()
    }
}

pub open spec fn abs_i64(x: int) -> int {
    if x >= 0 { x } else { -x }
}

/// Law: a clock started at wall time `t`, asked for statistics at that same
/// instant and before any update, reports zero drift and zero jitter.
pub proof fn lemma_stats_zero_at_start(c: AudioClock, t: u64)
    requires
        c.wf(),
        c.start_ns == Some(t),
        c.frames_played == 0,
        c.jitter_samples@.len() == 0,
    ensures
        c.spec_stats(t as int) == Some(ClockStats { drift_ppm: 0i64, jitter_ns: 0u64, buffer_level_permille: 0u32 }),
{
    assert(c.spec_elapsed(t as int) == 0);
    assert(spec_expected_frames(0, c.format.sample_rate as int) == 0);
    assert(c.spec_jitter_variance() == 0);
    assert(spec_isqrt(0) == 0);
}

/// Law: with exactly one sample in the jitter window, the reported jitter is
/// zero — one observation has no spread.
pub proof fn lemma_jitter_zero_with_single_sample(c: AudioClock)
    requires
        c.wf(),
        c.jitter_samples@.len() == 1,
    ensures
        c.spec_jitter_ns() == 0,
{
    let s = c.jitter_samples@;
    let x = s[0] as int;
    assert(s.drop_last() =~= Seq::<u64>::empty());
    assert(seq_sum(Seq::<u64>::empty()) == 0);
    assert(seq_sum(s) == seq_sum(s.drop_last()) + s.last());
    assert(s.last() == s[0]);
    assert(seq_sum(s) == x);
    assert(c.spec_jitter_avg() == x);
    assert(seq_sq_dev_sum(Seq::<u64>::empty(), x) == 0);
    assert(seq_sq_dev_sum(s, x) == seq_sq_dev_sum(s.drop_last(), x) + (s.last() - x) * (s.last() - x));
    assert(seq_sq_dev_sum(s, x) == 0);
    assert(c.spec_jitter_variance() == 0);
    assert(spec_isqrt(0) == 0);
}

} // verus!
