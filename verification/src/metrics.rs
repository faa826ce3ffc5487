//! Running counters of one stream, kept between two reports.

use vstd::prelude::*;

verus! {

/// Counters of one stream since its last report: points received, batches
/// handed out, the smallest and largest latency measured, and the points
/// whose latency could not be measured because they were stamped ahead of
/// the clock.
#[derive(Debug)]
pub struct StreamMetrics {
    stream_name: String,
    point_count: usize,
    batch_count: u64,
    max_latency: u64,
    min_latency: u64,
    ignored_count: usize,
}

/// What a [`StreamMetrics`] holds, field by field.
pub struct StreamMetricsView {
    pub stream_name: Seq<char>,
    pub point_count: usize,
    pub batch_count: u64,
    pub max_latency: u64,
    pub min_latency: u64,
    pub ignored_count: usize,
}

/// The latency of a point stamped `timestamp` that arrives at `now`:
/// the time in between, or nothing if the stamp lies in the future.
pub open spec fn latency_of(timestamp: u64, now: u64) -> Option<u64> {
    if timestamp <= now {
        Some((now - timestamp) as u64)
    } else {
        None
    }
}

impl StreamMetricsView {
    /// Counters of a stream that has seen nothing yet.
    pub open spec fn new(stream_name: Seq<char>) -> StreamMetricsView {
        StreamMetricsView {
            stream_name,
            point_count: 0,
            batch_count: 0,
            max_latency: 0,
            min_latency: 0,
            ignored_count: 0,
        }
    }

    /// Whether no latency has been measured since the last report.
    pub open spec fn unmeasured(self) -> bool {
        self.point_count == self.ignored_count
    }

    /// The counters after one more point. The counts stop at the largest
    /// value of their type.
    pub open spec fn add_point(self, latency: Option<u64>) -> StreamMetricsView {
        let point_count = if self.point_count < usize::MAX {
            (self.point_count + 1) as usize
        } else {
            self.point_count
        };
        match latency {
            None => StreamMetricsView {
                point_count,
                ignored_count: if self.ignored_count < usize::MAX {
                    (self.ignored_count + 1) as usize
                } else {
                    self.ignored_count
                },
                ..self
            },
            Some(l) => StreamMetricsView {
                point_count,
                max_latency: if self.unmeasured() || l > self.max_latency {
                    l
                } else {
                    self.max_latency
                },
                min_latency: if self.unmeasured() || l < self.min_latency {
                    l
                } else {
                    self.min_latency
                },
                ..self
            },
        }
    }

    /// The counters after one more batch.
    pub open spec fn add_batch(self) -> StreamMetricsView {
        StreamMetricsView {
            batch_count: if self.batch_count < u64::MAX {
                (self.batch_count + 1) as u64
            } else {
                self.batch_count
            },
            ..self
        }
    }

    /// The counters after a report: all zero, under the same name.
    pub open spec fn prepare_next(self) -> StreamMetricsView {
        Self::new(self.stream_name)
    }
}

impl View for StreamMetrics {
    type V = StreamMetricsView;

    closed spec fn view(&self) -> StreamMetricsView {
        StreamMetricsView {
            stream_name: self.stream_name@,
            point_count: self.point_count,
            batch_count: self.batch_count,
            max_latency: self.max_latency,
            min_latency: self.min_latency,
            ignored_count: self.ignored_count,
        }
    }
}

impl Clone for StreamMetrics {
    fn clone(&self) -> (r: Self)
        ensures
            r == *self,
    {
        StreamMetrics {
            stream_name: self.stream_name.clone(),
            point_count: self.point_count,
            batch_count: self.batch_count,
            max_latency: self.max_latency,
            min_latency: self.min_latency,
            ignored_count: self.ignored_count,
        }
    }
}

impl StreamMetrics {
    /// Fresh counters for the stream `name`.
    pub fn new(name: &str) -> (m: StreamMetrics)
        ensures
            m@ == StreamMetricsView::new(name@),
    {
        StreamMetrics {
            stream_name: String::from_str(name),
            point_count: 0,
            batch_count: 0,
            max_latency: 0,
            min_latency: 0,
            ignored_count: 0,
        }
    }

    /// The name of the stream that is counted.
    pub fn stream(&self) -> (s: &String)
        ensures
            s@ == self@.stream_name,
    {
        &self.stream_name
    }

    /// Points received since the last report.
    pub fn point_count(&self) -> (n: usize)
        ensures
            n == self@.point_count,
    {
        self.point_count
    }

    /// Batches handed out since the last report.
    pub fn batch_count(&self) -> (n: u64)
        ensures
            n == self@.batch_count,
    {
        self.batch_count
    }

    /// The largest latency measured since the last report, in milliseconds.
    pub fn max_latency(&self) -> (n: u64)
        ensures
            n == self@.max_latency,
    {
        self.max_latency
    }

    /// The smallest latency measured since the last report, in milliseconds.
    pub fn min_latency(&self) -> (n: u64)
        ensures
            n == self@.min_latency,
    {
        self.min_latency
    }

    /// Points since the last report that were stamped ahead of the clock.
    pub fn ignored_count(&self) -> (n: usize)
        ensures
            n == self@.ignored_count,
    {
        self.ignored_count
    }

    /// Counts a point stamped `timestamp` that arrives at `now`.
    pub fn add_point(&mut self, timestamp: u64, now: u64)
        ensures
            final(self)@ == old(self)@.add_point(latency_of(timestamp, now)),
        no_unwind
    {
        let unmeasured = self.point_count == self.ignored_count;
        if self.point_count < usize::MAX {
            self.point_count = self.point_count + 1;
        }
        if timestamp <= now {
            let latency: u64 = now - timestamp;
            if unmeasured || latency > self.max_latency {
                self.max_latency = latency;
            }
            if unmeasured || latency < self.min_latency {
                self.min_latency = latency;
            }
        } else if self.ignored_count < usize::MAX {
            self.ignored_count = self.ignored_count + 1;
        }
    }

    /// Counts a batch.
    pub fn add_batch(&mut self)
        ensures
            final(self)@ == old(self)@.add_batch(),
        no_unwind
    {
        if self.batch_count < u64::MAX {
            self.batch_count = self.batch_count + 1;
        }
    }

    /// Starts the next reporting period: every counter returns to zero.
    pub fn prepare_next(&mut self)
        ensures
            final(self)@ == old(self)@.prepare_next(),
        no_unwind
    {
        self.point_count = 0;
        self.batch_count = 0;
        self.max_latency = 0;
        self.min_latency = 0;
        self.ignored_count = 0;
    }
}

} // verus!
