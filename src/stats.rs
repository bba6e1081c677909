//! Aggregation of the round-trip times that a probe session recorded.
use vstd::prelude::*;

verus! {

/// Largest round-trip time, in microseconds, that a session records (about
/// eight years): it keeps the sums of 1024 samples and of their squares in
/// fixed-width integers.
pub const MAX_RTT_US: u64 = 0x1_0000_0000_0000;

/// Number of samples in `s`: the strictly positive entries.
pub open spec fn sample_count(s: Seq<u64>) -> nat
    decreases s.len(),
{
    if s.len() == 0 {
        0
    } else {
        sample_count(s.drop_last()) + if s.last() > 0 {
            1nat
        } else {
            0nat
        }
    }
}

/// Sum of the samples in `s` (zero entries add nothing).
pub open spec fn sample_sum(s: Seq<u64>) -> nat
    decreases s.len(),
{
    if s.len() == 0 {
        0
    } else {
        sample_sum(s.drop_last()) + s.last() as nat
    }
}

/// Sum of the squares of the samples in `s`.
pub open spec fn sample_sq_sum(s: Seq<u64>) -> nat
    decreases s.len(),
{
    if s.len() == 0 {
        0
    } else {
        sample_sq_sum(s.drop_last()) + (s.last() * s.last()) as nat
    }
}

/// Smallest sample in `s`, or 0 when there is none.
pub open spec fn sample_min(s: Seq<u64>) -> u64
    decreases s.len(),
{
    if s.len() == 0 {
        0
    } else {
        let m = sample_min(s.drop_last());
        let x = s.last();
        if x > 0 && (m == 0 || x < m) {
            x
        } else {
            m
        }
    }
}

/// Largest sample in `s`, or 0 when there is none.
pub open spec fn sample_max(s: Seq<u64>) -> u64
    decreases s.len(),
{
    if s.len() == 0 {
        0
    } else {
        let m = sample_max(s.drop_last());
        if s.last() > m {
            s.last()
        } else {
            m
        }
    }
}

/// The statistics of one probe session. Round-trip times are in
/// microseconds; their mean is `rtt_sum_us / samples` and their mean
/// deviation the square root of `rtt_sq_sum / samples - mean * mean`.
#[derive(Debug)]
pub struct Stats {
    /// The probed peer.
    pub target: String,
    /// Start of the session, in milliseconds since the Unix epoch.
    pub epoch_ms: u128,
    /// Time from the start of the session to the aggregation.
    pub duration_us: u64,
    /// Probes that were sent.
    pub sent: u64,
    /// Responses that were matched to a probe.
    pub received: u64,
    /// Responses beyond the first for a tracking slot.
    pub duplicate_packets: u64,
    /// Probes whose send was refused, or whose wait ended in a read failure.
    pub refused_packets: u64,
    /// Probes that had no usable response within the timeout.
    pub timed_out_packets: u64,
    /// Number of round-trip samples.
    pub samples: u64,
    pub rtt_min_us: u64,
    pub rtt_max_us: u64,
    pub rtt_sum_us: u64,
    /// Sum of the squared round-trip times, in square microseconds.
    pub rtt_sq_sum: u128,
}

/// The aggregate of a tracking buffer: sample count, minimum, maximum, sum and
/// sum of squares of its strictly positive entries.
pub struct RttSummary {
    pub samples: u64,
    pub min_us: u64,
    pub max_us: u64,
    pub sum_us: u64,
    pub sq_sum: u128,
}

pub open spec fn bounded_samples(s: Seq<u64>) -> bool {
    forall|i: int| 0 <= i < s.len() ==> s[i] <= MAX_RTT_US
}

proof fn lemma_sample_bounds(s: Seq<u64>)
    requires
        bounded_samples(s),
    ensures
        sample_count(s) <= s.len(),
        sample_sum(s) <= s.len() * MAX_RTT_US,
        sample_sq_sum(s) <= s.len() * (MAX_RTT_US * MAX_RTT_US),
        sample_min(s) <= MAX_RTT_US,
        sample_max(s) <= MAX_RTT_US,
    decreases s.len(),
{
    if s.len() > 0 {
        let t = s.drop_last();
        assert(bounded_samples(t));
        lemma_sample_bounds(t);
        let x = s.last();
        assert(x <= MAX_RTT_US);
        assert(x * x <= MAX_RTT_US * MAX_RTT_US) by (nonlinear_arith)
            requires x <= MAX_RTT_US;
        assert(s.len() * MAX_RTT_US == (s.len() - 1) * MAX_RTT_US + MAX_RTT_US) by (nonlinear_arith);
        assert(s.len() * (MAX_RTT_US * MAX_RTT_US) == (s.len() - 1) * (MAX_RTT_US * MAX_RTT_US)
            + MAX_RTT_US * MAX_RTT_US) by (nonlinear_arith);
    }
}

/// Aggregates the strictly positive entries of a tracking buffer. The buffer
/// holds at most 1024 entries of at most `MAX_RTT_US`, so that the sums fit.
pub fn summarize(rtts: &Vec<u64>) -> (r: RttSummary)
    requires
        rtts@.len() <= 1024,
        bounded_samples(rtts@),
    ensures
        r.samples == sample_count(rtts@),
        r.min_us == sample_min(rtts@),
        r.max_us == sample_max(rtts@),
        r.sum_us == sample_sum(rtts@),
        r.sq_sum == sample_sq_sum(rtts@),
{
    let mut samples: u64 = 0;
    let mut min_us: u64 = 0;
    let mut max_us: u64 = 0;
    let mut sum_us: u64 = 0;
    let mut sq_sum: u128 = 0;
    let mut i: usize = 0;
    while i < rtts.len()
        invariant
            i <= rtts@.len() <= 1024,
            bounded_samples(rtts@),
            samples == sample_count(rtts@.take(i as int)),
            min_us == sample_min(rtts@.take(i as int)),
            max_us == sample_max(rtts@.take(i as int)),
            sum_us == sample_sum(rtts@.take(i as int)),
            sq_sum == sample_sq_sum(rtts@.take(i as int)),
        decreases rtts@.len() - i,
    {
        let x = rtts[i];
        proof {
            let t = rtts@.take(i as int + 1);
            assert(t.drop_last() =~= rtts@.take(i as int));
            assert(bounded_samples(t));
            lemma_sample_bounds(t);
            assert(t.len() * MAX_RTT_US <= 1024 * MAX_RTT_US) by (nonlinear_arith)
                requires t.len() <= 1024;
            assert(t.len() * (MAX_RTT_US * MAX_RTT_US) <= 1024 * (MAX_RTT_US * MAX_RTT_US))
                by (nonlinear_arith)
                requires t.len() <= 1024;
        }
        if x > 0 {
            samples = samples + 1;
            if min_us == 0 || x < min_us {
                min_us = x;
            }
            if x > max_us {
                max_us = x;
            }
        }
        sum_us = sum_us + x;
        sq_sum = sq_sum + (x as u128) * (x as u128);
        i = i + 1;
    }
    assert(rtts@.take(i as int) =~= rtts@);
    RttSummary { samples, min_us, max_us, sum_us, sq_sum }
}

} // verus!
