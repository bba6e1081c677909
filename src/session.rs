//! The probe session: the decisions of the send / wait / timeout loop against
//! one peer, and the bookkeeping of its results. The caller owns the socket and
//! the clock; it performs each step and reports what happened.
use vstd::prelude::*;
use crate::codec::{decode, decode_spec, encode, lemma_round_trip, request_bytes, ECHO_RESPONSE};
use crate::stats::{
    bounded_samples, sample_count, sample_max, sample_min, sample_sq_sum, sample_sum, summarize,
    Stats, MAX_RTT_US,
};

verus! {

/// Number of slots of the circular tracking buffers.
pub const TRACK_PINGS_SIZE: usize = 1024;

/// Wait used when the configured timeout is 0 ("wait indefinitely"): one year.
pub const WAIT_FOREVER_MS: u64 = 31_536_000_000;

/// The sequence number that follows `seq`, wrapping at 65536.
pub open spec fn next_seq(seq: u16) -> u16 {
    if seq == u16::MAX {
        0
    } else {
        (seq + 1) as u16
    }
}

/// The tracking slot of a sequence number.
pub open spec fn slot(seq: u16) -> int {
    seq as int % TRACK_PINGS_SIZE as int
}

/// Total of the match counts of all slots.
pub open spec fn hit_total(hits: Seq<u64>) -> nat
    decreases hits.len(),
{
    if hits.len() == 0 {
        0
    } else {
        hit_total(hits.drop_last()) + hits.last() as nat
    }
}

/// Number of slots with at least one match.
pub open spec fn filled_slots(hits: Seq<u64>) -> nat
    decreases hits.len(),
{
    if hits.len() == 0 {
        0
    } else {
        filled_slots(hits.drop_last()) + if hits.last() > 0 {
            1nat
        } else {
            0nat
        }
    }
}

proof fn lemma_totals_update(hits: Seq<u64>, k: int, v: u64)
    requires
        0 <= k < hits.len(),
    ensures
        hit_total(hits.update(k, v)) + hits[k] == hit_total(hits) + v,
        filled_slots(hits.update(k, v)) + (if hits[k] > 0 {
            1int
        } else {
            0int
        }) == filled_slots(hits) + (if v > 0 {
            1int
        } else {
            0int
        }),
    decreases hits.len(),
{
    let u = hits.update(k, v);
    if k == hits.len() - 1 {
        assert(u.drop_last() =~= hits.drop_last());
    } else {
        assert(u.drop_last() =~= hits.drop_last().update(k, v));
        lemma_totals_update(hits.drop_last(), k, v);
    }
}

proof fn lemma_totals_zero(n: nat)
    ensures
        hit_total(Seq::new(n, |i: int| 0u64)) == 0,
        filled_slots(Seq::new(n, |i: int| 0u64)) == 0,
    decreases n,
{
    if n > 0 {
        assert(Seq::new(n, |i: int| 0u64).drop_last() =~= Seq::new((n - 1) as nat, |i: int| 0u64));
        lemma_totals_zero((n - 1) as nat);
    }
}

/// The state of a probe session.
pub struct PingerState {
    pub target: Seq<char>,
    pub epoch_ms: u128,
    /// Number of probes to run.
    pub count: u64,
    pub interval_ms: u64,
    pub timeout_ms: u64,
    /// Sequence number of the next probe.
    pub seq: u16,
    /// Probes whose outcome is settled.
    pub done: u64,
    /// Sequence number of the probe that awaits its outcome, if any.
    pub in_flight: Option<u16>,
    pub sent: u64,
    pub received: u64,
    pub duplicate: u64,
    pub refused: u64,
    pub timed_out: u64,
    /// Last round-trip time recorded in each slot, in microseconds (0: none).
    pub rtts: Seq<u64>,
    /// Number of responses matched to each slot.
    pub hits: Seq<u64>,
}

impl PingerState {
    pub open spec fn in_flight_count(self) -> int {
        if self.in_flight is Some {
            1
        } else {
            0
        }
    }

    /// What holds of every state that a session goes through.
    pub open spec fn wf(self) -> bool {
        &&& self.rtts.len() == TRACK_PINGS_SIZE
        &&& self.hits.len() == TRACK_PINGS_SIZE
        &&& self.done + self.in_flight_count() <= self.count
        &&& self.done == self.received + self.refused + self.timed_out
        &&& self.received + self.timed_out + self.in_flight_count() <= self.sent
        &&& self.sent <= self.done + self.in_flight_count()
        &&& self.received == hit_total(self.hits)
        &&& self.duplicate + filled_slots(self.hits) == self.received
        &&& forall|i: int| 0 <= i < TRACK_PINGS_SIZE ==> #[trigger] self.hits[i] <= self.received
        &&& bounded_samples(self.rtts)
    }

    /// All probes have been run.
    pub open spec fn is_complete(self) -> bool {
        self.done == self.count && self.in_flight is None
    }

    /// The next probe may be sent.
    pub open spec fn ready(self) -> bool {
        self.done < self.count && self.in_flight is None
    }

    /// The send of the next probe was refused: it is settled as refused, and
    /// the sequence number stays for the next attempt.
    pub open spec fn after_send_refused(self) -> PingerState {
        PingerState { refused: (self.refused + 1) as u64, done: (self.done + 1) as u64, ..self }
    }

    /// The next probe left: it is in flight, and the sequence number moves on.
    pub open spec fn after_sent(self) -> PingerState {
        PingerState {
            sent: (self.sent + 1) as u64,
            seq: next_seq(self.seq),
            in_flight: Some(self.seq),
            ..self
        }
    }

    /// No usable response came within the timeout.
    pub open spec fn after_timeout(self) -> PingerState {
        PingerState {
            timed_out: (self.timed_out + 1) as u64,
            done: (self.done + 1) as u64,
            in_flight: None,
            ..self
        }
    }

    /// Reading the socket failed: counted as refused, and the sequence number
    /// moves on once more.
    pub open spec fn after_read_failure(self) -> PingerState {
        PingerState {
            refused: (self.refused + 1) as u64,
            done: (self.done + 1) as u64,
            seq: next_seq(self.seq),
            in_flight: None,
            ..self
        }
    }

    /// A response for sequence number `seq` came after `rtt_us` microseconds.
    pub open spec fn after_match(self, seq: u16, rtt_us: u64) -> PingerState {
        let k = slot(seq);
        let h = (self.hits[k] + 1) as u64;
        PingerState {
            rtts: self.rtts.update(k, rtt_us),
            hits: self.hits.update(k, h),
            duplicate: if h > 1 {
                (self.duplicate + 1) as u64
            } else {
                self.duplicate
            },
            received: (self.received + 1) as u64,
            done: (self.done + 1) as u64,
            in_flight: None,
            ..self
        }
    }

    /// The sequence number that a decoded response is matched to: its own, or
    /// that of the probe in flight when it carries none.
    pub open spec fn effective_seq(self, seq: Option<u16>) -> u16 {
        match seq {
            Some(s) => s,
            None => self.in_flight->0,
        }
    }

    /// A datagram `b` came after `rtt_us` microseconds. One that does not
    /// decode settles the probe as timed out.
    pub open spec fn after_datagram(self, b: Seq<u8>, rtt_us: u64) -> PingerState {
        match decode_spec(b) {
            Ok(h) => self.after_match(self.effective_seq(h.sequence_number), rtt_us),
            Err(_) => self.after_timeout(),
        }
    }
}

/// What the aggregation of state `s` at `duration_us` microseconds after its
/// start gives.
pub open spec fn stats_of(r: Stats, s: PingerState, duration_us: u64) -> bool {
    &&& r.target@ == s.target
    &&& r.epoch_ms == s.epoch_ms
    &&& r.duration_us == duration_us
    &&& r.sent == s.sent
    &&& r.received == s.received
    &&& r.duplicate_packets == s.duplicate
    &&& r.refused_packets == s.refused
    &&& r.timed_out_packets == s.timed_out
    &&& r.samples == sample_count(s.rtts)
    &&& r.rtt_min_us == sample_min(s.rtts)
    &&& r.rtt_max_us == sample_max(s.rtts)
    &&& r.rtt_sum_us == sample_sum(s.rtts)
    &&& r.rtt_sq_sum == sample_sq_sum(s.rtts)
}

/// A probe session against one peer.
pub struct Pinger {
    target: String,
    epoch_ms: u128,
    count: u64,
    interval_ms: u64,
    timeout_ms: u64,
    seq: u16,
    done: u64,
    in_flight: Option<u16>,
    sent: u64,
    received: u64,
    duplicate_packets: u64,
    refused_packets: u64,
    timed_out_packets: u64,
    send_times: Vec<u64>,
    received_packets: Vec<u64>,
}

impl View for Pinger {
    type V = PingerState;

    closed spec fn view(&self) -> PingerState {
        PingerState {
            target: self.target@,
            epoch_ms: self.epoch_ms,
            count: self.count,
            interval_ms: self.interval_ms,
            timeout_ms: self.timeout_ms,
            seq: self.seq,
            done: self.done,
            in_flight: self.in_flight,
            sent: self.sent,
            received: self.received,
            duplicate: self.duplicate_packets,
            refused: self.refused_packets,
            timed_out: self.timed_out_packets,
            rtts: self.send_times@,
            hits: self.received_packets@,
        }
    }
}

fn zeroed_slots() -> (r: Vec<u64>)
    ensures
        r@ == Seq::new(TRACK_PINGS_SIZE as nat, |i: int| 0u64),
{
    let mut r: Vec<u64> = Vec::with_capacity(TRACK_PINGS_SIZE);
    let mut i: usize = 0;
    while i < TRACK_PINGS_SIZE
        invariant
            i <= TRACK_PINGS_SIZE,
            r@ == Seq::new(i as nat, |j: int| 0u64),
        decreases TRACK_PINGS_SIZE - i,
    {
        r.push(0);
        i = i + 1;
        assert(r@ =~= Seq::new(i as nat, |j: int| 0u64));
    }
    r
}

impl Pinger {
    /// A session of `count` probes against `target`, started at `epoch_ms`
    /// milliseconds after the Unix epoch; nothing is sent or recorded yet.
    pub fn new(target: String, epoch_ms: u128, count: u64, interval_ms: u64, timeout_ms: u64) -> (r:
        Pinger)
        ensures
            r@.wf(),
            r@.target == target@,
            r@.epoch_ms == epoch_ms,
            r@.count == count,
            r@.interval_ms == interval_ms,
            r@.timeout_ms == timeout_ms,
            r@.seq == 0,
            r@.done == 0,
            r@.in_flight is None,
            r@.sent == 0,
            r@.received == 0,
            r@.duplicate == 0,
            r@.refused == 0,
            r@.timed_out == 0,
            r@.rtts == Seq::new(TRACK_PINGS_SIZE as nat, |i: int| 0u64),
            r@.hits == Seq::new(TRACK_PINGS_SIZE as nat, |i: int| 0u64),
    {
        let send_times = zeroed_slots();
        let received_packets = zeroed_slots();
        proof {
            lemma_totals_zero(TRACK_PINGS_SIZE as nat);
        }
        Pinger {
            target,
            epoch_ms,
            count,
            interval_ms,
            timeout_ms,
            seq: 0,
            done: 0,
            in_flight: None,
            sent: 0,
            received: 0,
            duplicate_packets: 0,
            refused_packets: 0,
            timed_out_packets: 0,
            send_times,
            received_packets,
        }
    }

    /// Whether the next probe may be sent.
    pub fn is_ready(&self) -> (r: bool)
        ensures
            r == self@.ready(),
    {
        self.done < self.count && self.in_flight.is_none()
    }

    /// Whether all probes have been run.
    pub fn is_complete(&self) -> (r: bool)
        ensures
            r == self@.is_complete(),
    {
        self.done == self.count && self.in_flight.is_none()
    }

    /// The datagram of the next probe.
    pub fn request(&self) -> (r: Vec<u8>)
        ensures
            r@ == request_bytes(self@.seq),
    {
        encode(self.seq)
    }

    /// How long to wait for a response, in milliseconds: the configured
    /// timeout, or a year where it is 0.
    pub fn wait_ms(&self) -> (r: u64)
        ensures
            r == if self@.timeout_ms == 0 {
                WAIT_FOREVER_MS
            } else {
                self@.timeout_ms
            },
    {
        if self.timeout_ms == 0 {
            WAIT_FOREVER_MS
        } else {
            self.timeout_ms
        }
    }

    /// The pause after a response or a read failure, in milliseconds.
    pub fn interval_ms(&self) -> (r: u64)
        ensures
            r == self@.interval_ms,
    {
        self.interval_ms
    }

    /// The send of the next probe was refused. The caller goes on to the next
    /// probe at once.
    pub fn on_send_refused(&mut self)
        requires
            old(self)@.wf(),
            old(self)@.ready(),
        ensures
            final(self)@ == old(self)@.after_send_refused(),
            final(self)@.wf(),
    {
        self.refused_packets = self.refused_packets + 1;
        self.done = self.done + 1;
    }

    /// The next probe was sent. The caller then waits for a datagram, at most
    /// `wait_ms()` milliseconds.
    pub fn on_sent(&mut self)
        requires
            old(self)@.wf(),
            old(self)@.ready(),
        ensures
            final(self)@ == old(self)@.after_sent(),
            final(self)@.wf(),
    {
        self.sent = self.sent + 1;
        self.in_flight = Some(self.seq);
        self.seq = self.seq.wrapping_add(1);
    }

    /// The wait for the probe in flight ran out. The caller goes on to the
    /// next probe at once.
    pub fn on_timeout(&mut self)
        requires
            old(self)@.wf(),
            old(self)@.in_flight is Some,
        ensures
            final(self)@ == old(self)@.after_timeout(),
            final(self)@.wf(),
    {
        self.timed_out_packets = self.timed_out_packets + 1;
        self.done = self.done + 1;
        self.in_flight = None;
    }

    /// Reading the socket failed while the probe was in flight. The caller
    /// pauses for the interval before the next probe.
    pub fn on_read_failure(&mut self)
        requires
            old(self)@.wf(),
            old(self)@.in_flight is Some,
        ensures
            final(self)@ == old(self)@.after_read_failure(),
            final(self)@.wf(),
    {
        self.refused_packets = self.refused_packets + 1;
        self.done = self.done + 1;
        self.seq = self.seq.wrapping_add(1);
        self.in_flight = None;
    }

    /// Datagram `b` arrived `rtt_us` microseconds after the probe in flight
    /// was sent. Returns the sequence number that it was matched to, after
    /// which the caller pauses for the interval; or `None` when it does not
    /// decode, and the probe counts as timed out.
    pub fn on_datagram(&mut self, b: &[u8], rtt_us: u64) -> (r: Option<u16>)
        requires
            old(self)@.wf(),
            old(self)@.in_flight is Some,
            rtt_us <= MAX_RTT_US,
        ensures
            final(self)@ == old(self)@.after_datagram(b@, rtt_us),
            final(self)@.wf(),
            r == match decode_spec(b@) {
                Ok(h) => Some(old(self)@.effective_seq(h.sequence_number)),
                Err(_) => None::<u16>,
            },
    {
        match decode(b) {
            Ok(h) => {
                let seq = match h.sequence_number {
                    Some(s) => s,
                    None => self.in_flight.unwrap(),
                };
                self.record_match(seq, rtt_us);
                Some(seq)
            },
            Err(_) => {
                self.on_timeout();
                None
            },
        }
    }

    fn record_match(&mut self, seq: u16, rtt_us: u64)
        requires
            old(self)@.wf(),
            old(self)@.in_flight is Some,
            rtt_us <= MAX_RTT_US,
        ensures
            final(self)@ == old(self)@.after_match(seq, rtt_us),
            final(self)@.wf(),
    {
        let ghost s0 = self@;
        let k: usize = (seq as usize) % TRACK_PINGS_SIZE;
        assert(s0.hits[k as int] <= s0.received);
        proof {
            lemma_totals_update(s0.hits, k as int, (s0.hits[k as int] + 1) as u64);
        }
        self.send_times.set(k, rtt_us);
        let h = self.received_packets[k] + 1;
        self.received_packets.set(k, h);
        if h > 1 {
            self.duplicate_packets = self.duplicate_packets + 1;
        }
        self.received = self.received + 1;
        self.done = self.done + 1;
        self.in_flight = None;
        proof {
            let s1 = self@;
            assert(s1 == s0.after_match(seq, rtt_us));
            assert forall|i: int| 0 <= i < s1.rtts.len() implies s1.rtts[i] <= MAX_RTT_US by {
                if i != k {
                    assert(s1.rtts[i] == s0.rtts[i]);
                }
            }
            assert forall|i: int| 0 <= i < TRACK_PINGS_SIZE implies #[trigger] s1.hits[i]
                <= s1.received by {
                if i != k {
                    assert(s1.hits[i] == s0.hits[i]);
                }
            }
        }
    }

    /// Sequence number of the next probe.
    pub fn sequence(&self) -> (r: u16)
        ensures
            r == self@.seq,
    {
        self.seq
    }

    /// Probes sent so far.
    pub fn sent(&self) -> (r: u64)
        ensures
            r == self@.sent,
    {
        self.sent
    }

    /// Responses matched so far.
    pub fn received(&self) -> (r: u64)
        ensures
            r == self@.received,
    {
        self.received
    }

    /// Duplicate responses so far.
    pub fn duplicate_packets(&self) -> (r: u64)
        ensures
            r == self@.duplicate,
    {
        self.duplicate_packets
    }

    /// Refused probes so far.
    pub fn refused_packets(&self) -> (r: u64)
        ensures
            r == self@.refused,
    {
        self.refused_packets
    }

    /// Timed-out probes so far.
    pub fn timed_out_packets(&self) -> (r: u64)
        ensures
            r == self@.timed_out,
    {
        self.timed_out_packets
    }

    /// The statistics of the session, `duration_us` microseconds after its
    /// start.
    pub fn calculate_stats(&self, duration_us: u64) -> (r: Stats)
        requires
            self@.wf(),
        ensures
            stats_of(r, self@, duration_us),
    {
        let summary = summarize(&self.send_times);
        Stats {
            target: self.target.clone(),
            epoch_ms: self.epoch_ms,
            duration_us,
            sent: self.sent,
            received: self.received,
            duplicate_packets: self.duplicate_packets,
            refused_packets: self.refused_packets,
            timed_out_packets: self.timed_out_packets,
            samples: summary.samples,
            rtt_min_us: summary.min_us,
            rtt_max_us: summary.max_us,
            rtt_sum_us: summary.sum_us,
            rtt_sq_sum: summary.sq_sum,
        }
    }
}

/// Every probe of a completed session is settled exactly once, as received,
/// refused or timed out; where every send succeeded, the probes sent are
/// therefore the sum of the three.
pub proof fn lemma_accounting(s: PingerState)
    requires
        s.wf(),
        s.is_complete(),
    ensures
        s.count == s.received + s.refused + s.timed_out,
        s.sent == s.count ==> s.sent == s.received + s.refused + s.timed_out,
{
}

/// Each slot with a match accounts for one receipt, and every further match in
/// it for one duplicate: the receipts are at least the slots matched.
pub proof fn lemma_duplicates_beyond_first(s: PingerState)
    requires
        s.wf(),
    ensures
        s.received == hit_total(s.hits),
        s.duplicate == s.received - filled_slots(s.hits),
        s.received >= filled_slots(s.hits),
{
}

/// Two responses for one sequence number, whose slot had no match before,
/// count as two receipts and one duplicate, with a probe sent in between.
pub proof fn lemma_duplicate(s: PingerState, seq: u16, rtt1: u64, rtt2: u64)
    requires
        s.wf(),
        s.in_flight is Some,
        s.done + 2 < s.count,
        s.hits[slot(seq)] == 0,
        rtt1 <= MAX_RTT_US,
        rtt2 <= MAX_RTT_US,
    ensures
        ({
            let b = request_bytes(seq).update(1, ECHO_RESPONSE);
            let s3 = s.after_datagram(b, rtt1).after_sent().after_datagram(b, rtt2);
            &&& s3.duplicate == s.duplicate + 1
            &&& s3.received == s.received + 2
            &&& s3.hits[slot(seq)] == 2
        }),
{
    let b = request_bytes(seq).update(1, ECHO_RESPONSE);
    lemma_round_trip(seq);
    let s1 = s.after_datagram(b, rtt1);
    assert(s1 == s.after_match(seq, rtt1));
    let s2 = s1.after_sent();
    assert(s2.after_datagram(b, rtt2) == s2.after_match(seq, rtt2));
}

/// Aggregating one state twice gives the same record but for the duration,
/// which is the caller's measurement.
pub proof fn lemma_stats_idempotent(s: PingerState, r1: Stats, r2: Stats, d1: u64, d2: u64)
    requires
        stats_of(r1, s, d1),
        stats_of(r2, s, d2),
    ensures
        r1.target@ == r2.target@,
        r1.epoch_ms == r2.epoch_ms,
        r1.sent == r2.sent,
        r1.received == r2.received,
        r1.duplicate_packets == r2.duplicate_packets,
        r1.refused_packets == r2.refused_packets,
        r1.timed_out_packets == r2.timed_out_packets,
        r1.samples == r2.samples,
        r1.rtt_min_us == r2.rtt_min_us,
        r1.rtt_max_us == r2.rtt_max_us,
        r1.rtt_sum_us == r2.rtt_sum_us,
        r1.rtt_sq_sum == r2.rtt_sq_sum,
{
}

} // verus!
