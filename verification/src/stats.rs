//! Per-session statistics and the final throughput report.
use vstd::prelude::*;

verus! {

/// Running totals for one session: packet count, cumulative bytes and the
/// largest single read/write observed.
#[derive(Clone, Copy, Debug, PartialEq, Eq)]
pub struct StatsCollector {
    pub packet_count: u64,
    pub max_packet_size: usize,
    pub total_bytes: u64,
}

/// Derived bandwidth figures, integer-truncated.
#[derive(Clone, Copy, Debug, PartialEq, Eq)]
pub struct Bandwidth {
    pub bps: u64,
    pub kbps: u64,
    pub mbps: u64,
}

/// The final statistics emitted at session end. `bandwidth` is `None` when
/// the test ran for under one full second: the quotient is undefined then,
/// never a division fault.
#[derive(Clone, Copy, Debug, PartialEq, Eq)]
pub struct Report {
    pub packet_count: u64,
    pub max_packet_size: usize,
    pub total_bytes: u64,
    pub elapsed_ms: u64,
    pub bandwidth: Option<Bandwidth>,
}

/// One recorded read/write of `n` bytes over the mathematical model
/// (packet count, total bytes, maximum packet size).
pub open spec fn record_model(m: (int, int, int), n: int) -> (int, int, int) {
    (m.0 + 1, m.1 + n, if n > m.2 {
        n
    } else {
        m.2
    })
}

/// A whole sequence of recorded reads, first to last.
pub open spec fn record_all(m: (int, int, int), ns: Seq<int>) -> (int, int, int)
    decreases ns.len(),
{
    if ns.len() == 0 {
        m
    } else {
        record_all(record_model(m, ns[0]), ns.drop_first())
    }
}

/// The report derived from the totals and the wall-clock bounds. Bandwidth
/// divides by whole elapsed seconds, truncating; under one second it is
/// undefined and reported as `None`.
pub open spec fn spec_report(count: int, total: int, maxp: int, start_ms: int, end_ms: int) -> Report {
    let elapsed = end_ms - start_ms;
    let secs = elapsed / 1000;
    Report {
        packet_count: count as u64,
        max_packet_size: maxp as usize,
        total_bytes: total as u64,
        elapsed_ms: elapsed as u64,
        bandwidth: if secs == 0 {
            None
        } else {
            Some(Bandwidth {
                bps: (total / secs) as u64,
                kbps: ((total / 1024) / secs) as u64,
                mbps: (((total / 1024) / 1024) / secs) as u64,
            })
        },
    }
}

impl StatsCollector {
    /// The mathematical model: (packet count, total bytes, max packet size).
    pub open spec fn model(&self) -> (int, int, int) {
        (self.packet_count as int, self.total_bytes as int, self.max_packet_size as int)
    }

    /// Nothing observed yet.
    pub open spec fn is_zero(&self) -> bool {
        self.model() == (0int, 0int, 0int)
    }

    pub fn new() -> (s: StatsCollector)
        ensures
            s.is_zero(),
    {
        StatsCollector { packet_count: 0, max_packet_size: 0, total_bytes: 0 }
    }

    /// Account one successful read/write of `bytes_read` bytes: one more
    /// packet, `bytes_read` more cumulative bytes, and a possibly larger
    /// maximum.
    pub fn record(&mut self, bytes_read: usize)
        requires
            old(self).packet_count < u64::MAX,
            old(self).total_bytes + bytes_read <= u64::MAX,
        ensures
            final(self).model() == record_model(old(self).model(), bytes_read as int),
    {
        self.packet_count = self.packet_count + 1;
        self.total_bytes = self.total_bytes + (bytes_read as u64);
        if bytes_read > self.max_packet_size {
            self.max_packet_size = bytes_read;
        }
    }

    /// Compute the final report for a session that began at `start_ms` and
    /// ended at `end_ms` (wall-clock milliseconds).
    pub fn finalize(&self, start_ms: u64, end_ms: u64) -> (r: Report)
        requires
            start_ms <= end_ms,
        ensures
            r == spec_report(
                self.packet_count as int,
                self.total_bytes as int,
                self.max_packet_size as int,
                start_ms as int,
                end_ms as int,
            ),
    {
        let elapsed_ms: u64 = end_ms - start_ms;
        let secs: u64 = elapsed_ms / 1000;
        let bandwidth: Option<Bandwidth> = if secs == 0 {
            None
        } else {
            Some(Bandwidth {
                bps: self.total_bytes / secs,
                kbps: (self.total_bytes / 1024) / secs,
                mbps: ((self.total_bytes / 1024) / 1024) / secs,
            })
        };
        Report {
            packet_count: self.packet_count,
            max_packet_size: self.max_packet_size,
            total_bytes: self.total_bytes,
            elapsed_ms,
            bandwidth,
        }
    }
}

/// Monotonic stats law: across any sequence of recorded reads, the packet
/// count and the byte total never decrease, and the running maximum never
/// shrinks.
pub proof fn lemma_stats_monotonic(m: (int, int, int), ns: Seq<int>)
    requires
        forall|i: int| 0 <= i < ns.len() ==> ns[i] >= 0,
    ensures
        record_all(m, ns).0 >= m.0,
        record_all(m, ns).1 >= m.1,
        record_all(m, ns).2 >= m.2,
    decreases ns.len(),
{
    if ns.len() > 0 {
        assert(ns[0] >= 0);
        assert forall|i: int| 0 <= i < ns.drop_first().len() implies ns.drop_first()[i] >= 0 by {
            assert(ns.drop_first()[i] == ns[i + 1]);
        }
        lemma_stats_monotonic(record_model(m, ns[0]), ns.drop_first());
    }
}

} // verus!
