//! Per-endpoint response-time bookkeeping: request count, total, minimum
//! and maximum, and a rendered summary line.
use vstd::prelude::*;
use crate::text::dec_digits;

verus! {

/// Response-time statistics for one endpoint.
#[derive(Debug, Clone)]
pub struct EndpointMetrics {
    /// Total number of requests.
    pub count: usize,
    /// Total response time in milliseconds.
    pub total_time_ms: u64,
    /// Minimum response time in milliseconds.
    pub min_time_ms: u64,
    /// Maximum response time in milliseconds.
    pub max_time_ms: u64,
}

impl Default for EndpointMetrics {
    /// Fresh metrics: no requests recorded.
    fn default() -> (r: Self)
        ensures
            r.count == 0,
            r.total_time_ms == 0,
            r.min_time_ms == 0,
            r.max_time_ms == 0,
    {
        EndpointMetrics { count: 0, total_time_ms: 0, min_time_ms: 0, max_time_ms: 0 }
    }
}

impl EndpointMetrics {
    /// Record one response time: bump the count and total, and widen the
    /// minimum and maximum. A minimum of zero means "none recorded yet".
    pub fn add_response_time(&mut self, time_ms: u64)
        requires
            old(self).count < usize::MAX,
            old(self).total_time_ms + time_ms <= u64::MAX,
        ensures
            final(self).count == old(self).count + 1,
            final(self).total_time_ms == old(self).total_time_ms + time_ms,
            final(self).min_time_ms == if old(self).min_time_ms == 0 || time_ms < old(
                self,
            ).min_time_ms {
                time_ms
            } else {
                old(self).min_time_ms
            },
            final(self).max_time_ms == if time_ms > old(self).max_time_ms {
                time_ms
            } else {
                old(self).max_time_ms
            },
    {
        self.count = self.count + 1;
        self.total_time_ms = self.total_time_ms + time_ms;
        if self.min_time_ms == 0 || time_ms < self.min_time_ms {
            self.min_time_ms = time_ms;
        }
        if time_ms > self.max_time_ms {
            self.max_time_ms = time_ms;
        }
    }

    /// The average response time in hundredths of a millisecond, rounded
    /// down; zero when nothing was recorded.
    pub open spec fn spec_avg_hundredths(self) -> int {
        if self.count == 0 {
            0
        } else {
            (self.total_time_ms * 100) / (self.count as int)
        }
    }

    /// The rendered summary line for these metrics.
    pub open spec fn spec_summary(self) -> Seq<char> {
        "requests: "@ + dec_digits(self.count as int) + ", avg: "@ + dec_digits(
            self.spec_avg_hundredths() / 100,
        ) + "."@ + seq![
            crate::text::digit_char((self.spec_avg_hundredths() % 100) / 10),
            crate::text::digit_char(self.spec_avg_hundredths() % 10),
        ] + "ms, min: "@ + dec_digits(self.min_time_ms as int) + "ms, max: "@ + dec_digits(
            self.max_time_ms as int,
        ) + "ms"@
    }

    /// A human-readable summary: request count, average with two decimals,
    /// minimum and maximum, each in milliseconds.
    pub fn summary(&self) -> (r: String)
        requires
            self.total_time_ms * 100 <= u64::MAX,
        ensures
            r@ == self.spec_summary(),
    {
        let hundredths: u64 = if self.count == 0 {
            0
        } else {
            (self.total_time_ms * 100) / (self.count as u64)
        };
        assert(hundredths == self.spec_avg_hundredths());
        let mut out = String::from_str("requests: ");
        let c = crate::text::u64_to_string(self.count as u64);
        out.append(c.as_str());
        out.append(", avg: ");
        let avg_int = crate::text::u64_to_string(hundredths / 100);
        out.append(avg_int.as_str());
        out.append(".");
        let frac: u64 = hundredths % 100;
        crate::text::push_char(&mut out, ((48 + frac / 10) as u8) as char);
        crate::text::push_char(&mut out, ((48 + frac % 10) as u8) as char);
        out.append("ms, min: ");
        let mn = crate::text::u64_to_string(self.min_time_ms);
        out.append(mn.as_str());
        out.append("ms, max: ");
        let mx = crate::text::u64_to_string(self.max_time_ms);
        out.append(mx.as_str());
        out.append("ms");
        proof {
            assert((self.spec_avg_hundredths() % 100) / 10 == (hundredths % 100) as int / 10);
            assert(self.spec_avg_hundredths() % 10 == (hundredths % 100) as int % 10) by {
                assert(self.spec_avg_hundredths() % 10 == (self.spec_avg_hundredths() % 100) % 10);
            }
            assert(out@ =~= self.spec_summary());
        }
        out
    }
}

} // verus!
