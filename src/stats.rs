//! Statistics over a series of measured round-trip times.
//!
//! Every sample is a whole number of microseconds. The reduction uses integer
//! arithmetic only: the mean is the truncated quotient of the sum by the count,
//! the variance is the population variance truncated the same way, and the
//! standard deviation is its truncated integer square root.

use crate::interval::{duration_debug, duration_text};
use vstd::prelude::*;
use vstd::string::StringExecFns;

verus! {

/// The text of a duration of `micros` microseconds.
pub open spec fn micros_text(micros: u64) -> Seq<char> {
    duration_text((micros / 1_000_000) as u64, ((micros % 1_000_000) * 1000) as u32)
}

/// Writes a duration of `micros` microseconds as text.
fn micros_debug(micros: u64) -> (r: String)
    ensures
        r@ == micros_text(micros),
{
    duration_debug(micros / 1_000_000, ((micros % 1_000_000) * 1000) as u32)
}

/// Sum of all samples.
pub open spec fn sum_of(s: Seq<u64>) -> int
    decreases s.len(),
{
    if s.len() == 0 {
        0
    } else {
        sum_of(s.drop_last()) + s.last()
    }
}

/// Smallest sample of a non-empty series.
pub open spec fn min_of(s: Seq<u64>) -> int
    recommends
        s.len() > 0,
    decreases s.len(),
{
    if s.len() <= 1 {
        s[0] as int
    } else if s.last() < min_of(s.drop_last()) {
        s.last() as int
    } else {
        min_of(s.drop_last())
    }
}

/// Largest sample of a non-empty series.
pub open spec fn max_of(s: Seq<u64>) -> int
    recommends
        s.len() > 0,
    decreases s.len(),
{
    if s.len() <= 1 {
        s[0] as int
    } else if s.last() > max_of(s.drop_last()) {
        s.last() as int
    } else {
        max_of(s.drop_last())
    }
}

/// Truncated mean of a non-empty series.
pub open spec fn mean_of(s: Seq<u64>) -> int
    recommends
        s.len() > 0,
{
    sum_of(s) / (s.len() as int)
}

/// Sum of the squared distances of the samples to `m`.
pub open spec fn sq_dev_sum(s: Seq<u64>, m: int) -> int
    decreases s.len(),
{
    if s.len() == 0 {
        0
    } else {
        sq_dev_sum(s.drop_last(), m) + (s.last() - m) * (s.last() - m)
    }
}

/// Population variance of a non-empty series, in square microseconds: the sum
/// of squared deviations from the truncated mean, divided by the count and
/// truncated.
pub open spec fn variance_of(s: Seq<u64>) -> int
    recommends
        s.len() > 0,
{
    sq_dev_sum(s, mean_of(s)) / (s.len() as int)
}

/// The square of the largest `u64`: no squared deviation of two `u64` values
/// exceeds it.
pub open spec fn max_square() -> int {
    0xffff_ffff_ffff_fffe_0000_0000_0000_0001
}

/// `r` is the truncated square root of `v`.
pub open spec fn is_isqrt(r: int, v: int) -> bool {
    0 <= r && r * r <= v < (r + 1) * (r + 1)
}

/// Relies on `num_integer::Roots::sqrt` for `u128`, which returns the truncated
/// principal square root `r` with `r * r <= v < (r + 1) * (r + 1)` and never
/// panics on an unsigned value.
#[verifier::external_body]
fn isqrt(v: u128) -> (r: u128)
    ensures
        is_isqrt(r as int, v as int),
{
    num_integer::Roots::sqrt(&v)
}

/// Converts a microsecond count to the `u64` that the statistics report,
/// saturating at the largest `u64`.
pub fn from_micros(micros: u128) -> (r: u64)
    ensures
        r as int == if micros <= u64::MAX as u128 { micros as int } else { u64::MAX as int },
{
    if micros <= u64::MAX as u128 {
        micros as u64
    } else {
        u64::MAX
    }
}

/// The summary line for the texts of the four statistics.
pub open spec fn summary_text(min: Seq<char>, avg: Seq<char>, max: Seq<char>, stdev: Seq<char>) -> Seq<
    char,
> {
    "rtt min/avg/max/stdev = "@ + min + "/"@ + avg + "/"@ + max + "/"@ + stdev
}

/// Joins the texts of the minimum, mean, maximum and standard deviation into
/// the summary line.
pub fn summary_line(min: &str, avg: &str, max: &str, stdev: &str) -> (r: String)
    ensures
        r@ == summary_text(min@, avg@, max@, stdev@),
{
    let mut s = String::from_str("rtt min/avg/max/stdev = ");
    s.append(min);
    s.append("/");
    s.append(avg);
    s.append("/");
    s.append(max);
    s.append("/");
    s.append(stdev);
    s
}

/// Minimum, maximum, mean and standard deviation of a series of round-trip
/// times, each in microseconds.
#[derive(Debug, Clone, Copy, PartialEq, Eq, Structural)]
pub struct Stats {
    min: u64,
    max: u64,
    avg: u64,
    sd: u64,
}

impl Stats {
    /// Smallest sample, in microseconds.
    pub closed spec fn min_spec(&self) -> u64 {
        self.min
    }

    /// Largest sample, in microseconds.
    pub closed spec fn max_spec(&self) -> u64 {
        self.max
    }

    /// Truncated mean, in microseconds.
    pub closed spec fn avg_spec(&self) -> u64 {
        self.avg
    }

    /// Standard deviation, in microseconds.
    pub closed spec fn stdev_spec(&self) -> u64 {
        self.sd
    }

    /// Smallest sample, in microseconds.
    pub fn min(&self) -> (r: u64)
        ensures
            r == self.min_spec(),
    {
        self.min
    }

    /// Largest sample, in microseconds.
    pub fn max(&self) -> (r: u64)
        ensures
            r == self.max_spec(),
    {
        self.max
    }

    /// Truncated mean, in microseconds.
    pub fn avg(&self) -> (r: u64)
        ensures
            r == self.avg_spec(),
    {
        self.avg
    }

    /// Population standard deviation, in microseconds.
    pub fn stdev(&self) -> (r: u64)
        ensures
            r == self.stdev_spec(),
    {
        self.sd
    }

    /// The summary line: `rtt min/avg/max/stdev = ` and the four durations
    /// as text, separated by slashes.
    pub fn to_string(&self) -> (r: String)
        ensures
            r@ == summary_text(
                micros_text(self.min_spec()),
                micros_text(self.avg_spec()),
                micros_text(self.max_spec()),
                micros_text(self.stdev_spec()),
            ),
    {
        summary_line(
            micros_debug(self.min).as_str(),
            micros_debug(self.avg).as_str(),
            micros_debug(self.max).as_str(),
            micros_debug(self.sd).as_str(),
        )
    }

    /// The statistics of `elapseds`, a series of round-trip times in
    /// microseconds, or `None` when the series is empty.
    pub fn new(elapseds: &[u64]) -> (r: Option<Stats>)
        ensures
            r is None <==> elapseds@.len() == 0,
            r matches Some(st) ==> {
                &&& st.min_spec() == min_of(elapseds@)
                &&& st.max_spec() == max_of(elapseds@)
                &&& st.avg_spec() == mean_of(elapseds@)
                &&& is_isqrt(st.stdev_spec() as int, variance_of(elapseds@))
            },
    {
        let len = elapseds.len();
        if len == 0 {
            return None;
        }
        let s = Ghost(elapseds@);
        let mut min: u64 = elapseds[0];
        let mut max: u64 = elapseds[0];
        let mut sum: u128 = 0;
        let mut i: usize = 0;
        while i < len
            invariant
                s@ == elapseds@,
                len == s@.len(),
                0 < len,
                i <= len,
                sum as int == sum_of(s@.subrange(0, i as int)),
                sum as int <= i * (u64::MAX as int),
                i > 0 ==> min as int == min_of(s@.subrange(0, i as int)),
                i > 0 ==> max as int == max_of(s@.subrange(0, i as int)),
                i == 0 ==> min == s@[0] && max == s@[0],
            decreases len - i,
        {
            let x = elapseds[i];
            proof {
                let next = s@.subrange(0, i + 1);
                assert(next.drop_last() =~= s@.subrange(0, i as int));
                assert(sum + x <= (i + 1) * (u64::MAX as int)) by (nonlinear_arith)
                    requires
                        sum <= i * (u64::MAX as int),
                        x <= u64::MAX,
                ;
                assert((i + 1) * (u64::MAX as int) <= usize::MAX as int * (u64::MAX as int)) by (nonlinear_arith)
                    requires
                        i < usize::MAX,
                ;
            }
            if i > 0 {
                if x < min {
                    min = x;
                }
                if x > max {
                    max = x;
                }
            }
            sum = sum + x as u128;
            i = i + 1;
        }
        assert(s@.subrange(0, len as int) =~= s@);
        let n: u128 = len as u128;
        let avg: u128 = sum / n;
        assert(avg <= u64::MAX) by (nonlinear_arith)
            requires
                avg == sum / n,
                sum <= n * (u64::MAX as int),
                n > 0,
        ;
        // The sum of squared deviations may pass the largest `u128` even
        // though the variance never does; it is kept as `q * n + rem` with
        // `rem < n`, so that `q` is the variance of the samples seen so far.
        let mut q: u128 = 0;
        let mut rem: u128 = 0;
        let mut j: usize = 0;
        while j < len
            invariant
                s@ == elapseds@,
                len == s@.len(),
                n == len,
                n > 0,
                j <= len,
                avg <= u64::MAX,
                avg as int == mean_of(s@),
                rem < n,
                q * n + rem == sq_dev_sum(s@.subrange(0, j as int), avg as int),
                sq_dev_sum(s@.subrange(0, j as int), avg as int) <= j * max_square(),
            decreases len - j,
        {
            let x = elapseds[j] as u128;
            let diff: u128 = if x >= avg {
                x - avg
            } else {
                avg - x
            };
            assert(diff * diff <= max_square()) by (nonlinear_arith)
                requires
                    diff <= u64::MAX,
            ;
            let sq: u128 = diff * diff;
            let qa: u128 = sq / n;
            let ra: u128 = sq % n;
            let ghost total = sq_dev_sum(s@.subrange(0, j as int), avg as int);
            proof {
                let next = s@.subrange(0, j + 1);
                assert(next.drop_last() =~= s@.subrange(0, j as int));
                assert(sq == (x - avg) * (x - avg)) by (nonlinear_arith)
                    requires
                        sq == diff * diff,
                        diff == x - avg || diff == avg - x,
                ;
                assert(sq_dev_sum(next, avg as int) == total + sq);
                assert(qa * n + ra == sq && ra < n) by (nonlinear_arith)
                    requires
                        qa == sq / n,
                        ra == sq % n,
                        n > 0,
                ;
                assert(q + qa <= max_square()) by (nonlinear_arith)
                    requires
                        q * n + rem == total,
                        qa * n + ra == sq,
                        total + sq <= (j + 1) * max_square(),
                        j + 1 <= n,
                        n > 0,
                        rem >= 0,
                        ra >= 0,
                ;
                assert(rem + ra >= n ==> q + qa + 1 <= max_square()) by (nonlinear_arith)
                    requires
                        q * n + rem == total,
                        qa * n + ra == sq,
                        total + sq <= (j + 1) * max_square(),
                        j + 1 <= n,
                        n > 0,
                ;
            }
            let ghost (q0, rem0) = (q, rem);
            q = q + qa;
            rem = rem + ra;
            if rem >= n {
                q = q + 1;
                rem = rem - n;
            }
            assert(q * n + rem == total + sq) by (nonlinear_arith)
                requires
                    q0 * n + rem0 == total,
                    qa * n + ra == sq,
                    (q == q0 + qa && rem == rem0 + ra) || (q == q0 + qa + 1 && rem == rem0 + ra - n),
            ;
            j = j + 1;
        }
        assert(s@.subrange(0, len as int) =~= s@);
        let variance: u128 = q;
        assert(variance == variance_of(s@)) by (nonlinear_arith)
            requires
                q * n + rem == sq_dev_sum(s@, avg as int),
                rem < n,
                rem >= 0,
                n == s@.len(),
                n > 0,
                variance == q,
                avg as int == mean_of(s@),
                variance_of(s@) == sq_dev_sum(s@, mean_of(s@)) / (s@.len() as int),
        ;
        let sd = isqrt(variance);
        assert(sd <= u64::MAX) by (nonlinear_arith)
            requires
                sd * sd <= variance,
                variance <= u128::MAX,
                sd >= 0,
        ;
        Some(Stats { min, max, avg: from_micros(avg), sd: from_micros(sd) })
    }
}

} // verus!
