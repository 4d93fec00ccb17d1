//! Process-wide performance accounting.
//!
//! The monitor keeps monotone packet and byte counters, a bounded FIFO
//! window of per-packet processing latencies, and a bounded FIFO history of
//! timestamped forwarded-byte events. From those it derives, at snapshot
//! time, the average latency over the retained window, the packet-loss
//! ratio (dropped over received, in thousandths, zero when nothing was
//! received), and the current bandwidth usage as the bytes forwarded within
//! the most recent one-second look-back.
//!
//! Time enters as an argument: callers pass the current instant as whole
//! milliseconds, so every derived value is a function of the monitor's
//! state and that instant.

use vstd::prelude::*;

verus! {

/// Bound on the retained latency samples and forwarded-byte events.
pub const HISTORY_CAPACITY: usize = 1000;

/// The length of the bandwidth look-back window, in milliseconds.
pub const BANDWIDTH_WINDOW_MILLIS: u64 = 1000;

/// A point-in-time snapshot of the aggregate counters and derived rates.
#[derive(Debug, Clone, Copy, PartialEq, Eq, Structural)]
pub struct PerformanceStats {
    pub packets_received: u64,
    pub packets_forwarded: u64,
    pub packets_dropped: u64,
    /// Bytes forwarded within the most recent one-second look-back.
    pub bandwidth_usage: u64,
    /// Arithmetic mean of the retained latency window, in milliseconds.
    pub average_latency: u64,
    /// Dropped over received, in thousandths, uncapped.
    pub packet_loss_rate: u64,
    /// Milliseconds since the monitor was created.
    pub uptime: u64,
}

/// One forwarded-bytes event: how many bytes left, and when.
#[derive(Debug, Clone, Copy, PartialEq, Eq, Structural)]
pub struct ByteEvent {
    /// Milliseconds timestamp of the send.
    pub at: u64,
    pub bytes: u64,
}

/// Sum of a sequence of samples.
pub open spec fn spec_sum(s: Seq<u64>) -> int
    decreases s.len(),
{
    if s.len() == 0 {
        0
    } else {
        spec_sum(s.drop_last()) + s.last()
    }
}

/// Arithmetic mean of a sample window; zero for an empty window.
pub open spec fn spec_average(s: Seq<u64>) -> int {
    if s.len() == 0 {
        0
    } else {
        spec_sum(s) / s.len() as int
    }
}

/// Bytes of the events that fall inside the look-back window ending at
/// `now`: an event counts while it is less than the window length old.
pub open spec fn spec_recent_bytes(events: Seq<ByteEvent>, now: u64) -> int
    decreases events.len(),
{
    if events.len() == 0 {
        0
    } else {
        spec_recent_bytes(events.drop_last(), now) + if events.last().at
            + BANDWIDTH_WINDOW_MILLIS > now {
            events.last().bytes as int
        } else {
            0
        }
    }
}

/// Dropped over received in thousandths, zero when nothing was received.
/// The quotient is not capped: more drops than receipts report a ratio
/// above one, exactly as counted.
pub open spec fn spec_loss_rate(dropped: u64, received: u64) -> int {
    if received == 0 {
        0
    } else {
        dropped * 1000 / received as int
    }
}

/// A ratio clamped into the [0, 1] bound the metrics store keeps, in
/// thousandths.
pub open spec fn spec_clamp_ratio(x: int) -> int {
    if x > 1000 {
        1000
    } else {
        x
    }
}

/// A FIFO window admitting one new element: push, and evict the oldest when
/// the capacity is exceeded.
pub open spec fn spec_window_push<T>(s: Seq<T>, x: T, capacity: int) -> Seq<T> {
    let pushed = s.push(x);
    if pushed.len() > capacity {
        pushed.subrange(1, pushed.len() as int)
    } else {
        pushed
    }
}

/// A value clamped into `u64`.
pub open spec fn spec_clamp_u64(x: int) -> int {
    if x > u64::MAX {
        u64::MAX as int
    } else {
        x
    }
}

/// The packet-loss law: the reported ratio is exactly zero when nothing
/// was received, equals dropped over received (in thousandths) otherwise,
/// is never negative, and stays a ratio — at most one — whenever drops do
/// not exceed receipts.
pub proof fn lemma_loss_rate_properties(dropped: u64, received: u64)
    ensures
        received == 0 ==> spec_loss_rate(dropped, received) == 0,
        received > 0 ==> spec_loss_rate(dropped, received) == dropped * 1000 / received as int,
        0 <= spec_loss_rate(dropped, received),
        dropped <= received ==> spec_loss_rate(dropped, received) <= 1000,
{
    if received > 0 {
        assert(dropped * 1000 / received as int >= 0) by (nonlinear_arith)
            requires
                received > 0,
                dropped >= 0,
        ;
        if dropped <= received {
            assert(dropped * 1000 / received as int <= 1000) by (nonlinear_arith)
                requires
                    0 < received,
                    0 <= dropped <= received,
            ;
        }
    }
}

/// The window law: a FIFO window at or under its capacity stays so after
/// a push, and a full window evicts exactly its oldest element — what is
/// retained is the previous contents shifted by one, with the new element
/// at the end.
pub proof fn lemma_window_push_properties<T>(s: Seq<T>, x: T, capacity: int)
    requires
        capacity >= 1,
        s.len() <= capacity,
    ensures
        spec_window_push(s, x, capacity).len() <= capacity,
        s.len() < capacity ==> spec_window_push(s, x, capacity) == s.push(x),
        s.len() == capacity ==> spec_window_push(s, x, capacity) == s.drop_first().push(x),
{
    if s.len() == capacity {
        assert(spec_window_push(s, x, capacity) =~= s.drop_first().push(x));
    }
}

/// Aggregate counters and bounded histories for the whole engine.
pub struct PerformanceMonitor {
    pub packets_received: u64,
    pub packets_forwarded: u64,
    pub packets_dropped: u64,
    pub total_bytes_received: u64,
    pub total_bytes_forwarded: u64,
    /// Retained processing latencies, in milliseconds, oldest first.
    pub latency_samples: Vec<u64>,
    pub max_latency_samples: usize,
    /// Retained forwarded-byte events, oldest first.
    pub forwarded_events: Vec<ByteEvent>,
    pub max_forwarded_events: usize,
    /// Milliseconds timestamp of the monitor's creation.
    pub start_time: u64,
}

impl PerformanceMonitor {
    /// Both histories respect their capacity bound.
    pub open spec fn wf(&self) -> bool {
        &&& self.latency_samples@.len() <= self.max_latency_samples
        &&& self.forwarded_events@.len() <= self.max_forwarded_events
    }

    /// A fresh monitor: all counters zero, histories empty, uptime origin at
    /// `now`.
    pub fn new(now: u64) -> (r: Self)
        ensures
            r.packets_received == 0,
            r.packets_forwarded == 0,
            r.packets_dropped == 0,
            r.total_bytes_received == 0,
            r.total_bytes_forwarded == 0,
            r.latency_samples@ == Seq::<u64>::empty(),
            r.max_latency_samples == HISTORY_CAPACITY,
            r.forwarded_events@ == Seq::<ByteEvent>::empty(),
            r.max_forwarded_events == HISTORY_CAPACITY,
            r.start_time == now,
            r.wf(),
    {
        PerformanceMonitor {
            packets_received: 0,
            packets_forwarded: 0,
            packets_dropped: 0,
            total_bytes_received: 0,
            total_bytes_forwarded: 0,
            latency_samples: Vec::new(),
            max_latency_samples: HISTORY_CAPACITY,
            forwarded_events: Vec::new(),
            max_forwarded_events: HISTORY_CAPACITY,
            start_time: now,
        }
    }

    /// Account one packet arriving from the virtual device.
    pub fn record_packet_received(&mut self, bytes: usize)
        requires
            old(self).packets_received < u64::MAX,
            old(self).total_bytes_received + bytes <= u64::MAX,
        ensures
            final(self).packets_received == old(self).packets_received + 1,
            final(self).total_bytes_received == old(self).total_bytes_received + bytes,
            final(self).packets_forwarded == old(self).packets_forwarded,
            final(self).packets_dropped == old(self).packets_dropped,
            final(self).total_bytes_forwarded == old(self).total_bytes_forwarded,
            final(self).latency_samples == old(self).latency_samples,
            final(self).max_latency_samples == old(self).max_latency_samples,
            final(self).forwarded_events == old(self).forwarded_events,
            final(self).max_forwarded_events == old(self).max_forwarded_events,
            final(self).start_time == old(self).start_time,
    {
        self.packets_received = self.packets_received + 1;
        self.total_bytes_received = self.total_bytes_received + bytes as u64;
    }

    /// Account one packet sent out a physical interface at instant `now`.
    pub fn record_packet_forwarded(&mut self, bytes: usize, now: u64)
        requires
            old(self).packets_forwarded < u64::MAX,
            old(self).total_bytes_forwarded + bytes <= u64::MAX,
        ensures
            final(self).packets_forwarded == old(self).packets_forwarded + 1,
            final(self).total_bytes_forwarded == old(self).total_bytes_forwarded + bytes,
            final(self).forwarded_events@ == spec_window_push(
                old(self).forwarded_events@,
                ByteEvent { at: now, bytes: bytes as u64 },
                old(self).max_forwarded_events as int,
            ),
            final(self).packets_received == old(self).packets_received,
            final(self).packets_dropped == old(self).packets_dropped,
            final(self).total_bytes_received == old(self).total_bytes_received,
            final(self).latency_samples == old(self).latency_samples,
            final(self).max_latency_samples == old(self).max_latency_samples,
            final(self).max_forwarded_events == old(self).max_forwarded_events,
            final(self).start_time == old(self).start_time,
            old(self).wf() ==> final(self).wf(),
    {
        self.packets_forwarded = self.packets_forwarded + 1;
        self.total_bytes_forwarded = self.total_bytes_forwarded + bytes as u64;
        self.forwarded_events.push(ByteEvent { at: now, bytes: bytes as u64 });
        if self.forwarded_events.len() > self.max_forwarded_events {
            self.forwarded_events.remove(0);
            assert(self.forwarded_events@ =~= spec_window_push(
                old(self).forwarded_events@,
                ByteEvent { at: now, bytes: bytes as u64 },
                old(self).max_forwarded_events as int,
            ));
        }
    }

    /// Account one packet that could not be routed or sent.
    pub fn record_packet_dropped(&mut self)
        requires
            old(self).packets_dropped < u64::MAX,
        ensures
            final(self).packets_dropped == old(self).packets_dropped + 1,
            final(self).packets_received == old(self).packets_received,
            final(self).packets_forwarded == old(self).packets_forwarded,
            final(self).total_bytes_received == old(self).total_bytes_received,
            final(self).total_bytes_forwarded == old(self).total_bytes_forwarded,
            final(self).latency_samples == old(self).latency_samples,
            final(self).max_latency_samples == old(self).max_latency_samples,
            final(self).forwarded_events == old(self).forwarded_events,
            final(self).max_forwarded_events == old(self).max_forwarded_events,
            final(self).start_time == old(self).start_time,
    {
        self.packets_dropped = self.packets_dropped + 1;
    }

    /// Record one end-to-end processing latency, in milliseconds, into the
    /// FIFO window; the oldest sample is evicted when the window is full.
    pub fn record_processing_latency(&mut self, latency: u64)
        ensures
            final(self).latency_samples@ == spec_window_push(
                old(self).latency_samples@,
                latency,
                old(self).max_latency_samples as int,
            ),
            final(self).packets_received == old(self).packets_received,
            final(self).packets_forwarded == old(self).packets_forwarded,
            final(self).packets_dropped == old(self).packets_dropped,
            final(self).total_bytes_received == old(self).total_bytes_received,
            final(self).total_bytes_forwarded == old(self).total_bytes_forwarded,
            final(self).max_latency_samples == old(self).max_latency_samples,
            final(self).forwarded_events == old(self).forwarded_events,
            final(self).max_forwarded_events == old(self).max_forwarded_events,
            final(self).start_time == old(self).start_time,
            old(self).wf() ==> final(self).wf(),
    {
        self.latency_samples.push(latency);
        if self.latency_samples.len() > self.max_latency_samples {
            self.latency_samples.remove(0);
            assert(self.latency_samples@ =~= spec_window_push(
                old(self).latency_samples@,
                latency,
                old(self).max_latency_samples as int,
            ));
        }
    }

    /// Derive the point-in-time statistics at instant `now`.
    pub fn get_current_stats(&self, now: u64) -> (r: PerformanceStats)
        requires
            now >= self.start_time,
        ensures
            r.packets_received == self.packets_received,
            r.packets_forwarded == self.packets_forwarded,
            r.packets_dropped == self.packets_dropped,
            r.average_latency == spec_average(self.latency_samples@),
            r.packet_loss_rate == spec_clamp_u64(
                spec_loss_rate(self.packets_dropped, self.packets_received),
            ),
            r.bandwidth_usage == spec_clamp_u64(spec_recent_bytes(self.forwarded_events@, now)),
            r.uptime == now - self.start_time,
    {
        let sample_count = self.latency_samples.len();
        let mut total_latency: u128 = 0;
        for i in 0..sample_count
            invariant
                sample_count == self.latency_samples@.len(),
                total_latency == spec_sum(self.latency_samples@.take(i as int)),
                total_latency <= i * (u64::MAX as int),
        {
            assert(self.latency_samples@.take(i + 1).drop_last() =~= self.latency_samples@.take(
                i as int,
            ));
            total_latency = total_latency + self.latency_samples[i] as u128;
        }
        assert(self.latency_samples@.take(sample_count as int) =~= self.latency_samples@);
        let average_latency: u64 = if sample_count > 0 {
            assert(total_latency as int / (sample_count as int) <= u64::MAX as int)
                by (nonlinear_arith)
                requires
                    total_latency <= sample_count * (u64::MAX as int),
                    sample_count > 0,
            ;
            (total_latency / sample_count as u128) as u64
        } else {
            0
        };

        let packet_loss_rate: u64 = if self.packets_received > 0 {
            let per_mille = (self.packets_dropped as u128) * 1000 / (self.packets_received
                as u128);
            if per_mille > u64::MAX as u128 {
                u64::MAX
            } else {
                per_mille as u64
            }
        } else {
            0
        };

        let event_count = self.forwarded_events.len();
        let mut recent_bytes: u128 = 0;
        for i in 0..event_count
            invariant
                event_count == self.forwarded_events@.len(),
                recent_bytes == spec_recent_bytes(self.forwarded_events@.take(i as int), now),
                recent_bytes <= i * (u64::MAX as int),
        {
            assert(self.forwarded_events@.take(i + 1).drop_last() =~= self.forwarded_events@.take(
                i as int,
            ));
            let event = self.forwarded_events[i];
            if event.at as u128 + BANDWIDTH_WINDOW_MILLIS as u128 > now as u128 {
                recent_bytes = recent_bytes + event.bytes as u128;
            }
        }
        assert(self.forwarded_events@.take(event_count as int) =~= self.forwarded_events@);
        let bandwidth_usage: u64 = if recent_bytes > u64::MAX as u128 {
            u64::MAX
        } else {
            recent_bytes as u64
        };

        PerformanceStats {
            packets_received: self.packets_received,
            packets_forwarded: self.packets_forwarded,
            packets_dropped: self.packets_dropped,
            bandwidth_usage,
            average_latency,
            packet_loss_rate,
            uptime: now - self.start_time,
        }
    }

    /// Clear every counter and history. The capacities and the uptime origin
    /// stay.
    pub fn reset_stats(&mut self)
        ensures
            final(self).packets_received == 0,
            final(self).packets_forwarded == 0,
            final(self).packets_dropped == 0,
            final(self).total_bytes_received == 0,
            final(self).total_bytes_forwarded == 0,
            final(self).latency_samples@ == Seq::<u64>::empty(),
            final(self).forwarded_events@ == Seq::<ByteEvent>::empty(),
            final(self).max_latency_samples == old(self).max_latency_samples,
            final(self).max_forwarded_events == old(self).max_forwarded_events,
            final(self).start_time == old(self).start_time,
            final(self).wf(),
    {
        self.packets_received = 0;
        self.packets_forwarded = 0;
        self.packets_dropped = 0;
        self.total_bytes_received = 0;
        self.total_bytes_forwarded = 0;
        self.latency_samples.clear();
        self.forwarded_events.clear();
    }
}

} // verus!
