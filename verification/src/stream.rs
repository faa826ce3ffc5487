//! A buffer of points for one stream, emptied into a package when it is
//! full or when the caller asks.

use vstd::prelude::*;
use crate::bridge::StreamConfig;
use crate::channel::TrySendError;
use crate::metrics::{latency_of, StreamMetrics, StreamMetricsView};
use crate::payload::{views, Point};
use crate::text::{decimal, push_decimal};

verus! {

/// Seconds a stream waits for more points when nothing else is configured.
pub const DEFAULT_TIMEOUT: u64 = 60;

/// Points a stream holds when no size is configured.
pub const MAX_BUFFER_SIZE: usize = 100;

/// A batch of points ready for the transport, with the topic to publish
/// it on, the number of anomalies seen while it was gathered and the
/// largest latency among its points.
#[derive(Debug)]
pub struct Package<T> {
    pub topic: String,
    pub stream: String,
    pub points: Vec<T>,
    pub anomaly_count: usize,
    pub latency: u64,
}

/// What a [`Package`] holds, field by field.
pub struct PackageView<A> {
    pub topic: Seq<char>,
    pub stream: Seq<char>,
    pub points: Seq<A>,
    pub anomaly_count: usize,
    pub latency: u64,
}

/// What a batch from `stream` says of its `count` anomalies:
/// `{stream}: {count} anomalies`.
pub open spec fn anomalies_text(stream: Seq<char>, count: nat) -> Seq<char> {
    stream + ": "@ + decimal(count) + " anomalies"@
}

impl<T: View> View for Package<T> {
    type V = PackageView<T::V>;

    open spec fn view(&self) -> PackageView<T::V> {
        PackageView {
            topic: self.topic@,
            stream: self.stream@,
            points: views(self.points@),
            anomaly_count: self.anomaly_count,
            latency: self.latency,
        }
    }
}

impl<T: View> Package<T> {
    /// The topic to publish the batch on.
    pub fn topic(&self) -> (s: &String)
        ensures
            s@ == self@.topic,
    {
        &self.topic
    }

    /// The name of the stream the batch comes from.
    pub fn stream(&self) -> (s: &String)
        ensures
            s@ == self@.stream,
    {
        &self.stream
    }

    /// The number of points in the batch.
    pub fn len(&self) -> (n: usize)
        ensures
            n == self@.points.len(),
    {
        self.points.len()
    }

    /// Whether the batch holds no point.
    pub fn is_empty(&self) -> (b: bool)
        ensures
            b == (self@.points.len() == 0),
    {
        self.points.len() == 0
    }

    /// The anomalies seen while the batch was gathered, in words and as
    /// a number; nothing if there were none.
    pub fn anomalies(&self) -> (r: Option<(String, usize)>)
        ensures
            match r {
                Some((text, count)) => {
                    &&& self@.anomaly_count > 0
                    &&& count == self@.anomaly_count
                    &&& text@ == anomalies_text(self@.stream, count as nat)
                },
                None => self@.anomaly_count == 0,
            },
    {
        if self.anomaly_count == 0 {
            None
        } else {
            let mut text = self.stream.clone();
            text.append(": ");
            push_decimal(&mut text, self.anomaly_count as u64);
            text.append(" anomalies");
            Some((text, self.anomaly_count))
        }
    }

    /// The largest latency among the points of the batch, in milliseconds.
    pub fn latency(&self) -> (n: u64)
        ensures
            n == self@.latency,
    {
        self.latency
    }
}

/// What a fill did to the buffer.
#[derive(Debug)]
pub enum StreamStatus<T> {
    /// The buffer holds this many points and has room for more.
    Partial(usize),
    /// The buffer of the named stream became full; this is its batch.
    Flushed(String, Package<T>),
    /// The buffer of the named stream received its first point; a flush is
    /// due after this many seconds.
    Init(String, u64),
}

/// What a [`StreamStatus`] says.
pub enum StreamStatusView<A> {
    Partial(usize),
    Flushed(Seq<char>, PackageView<A>),
    Init(Seq<char>, u64),
}

impl<T: View> View for StreamStatus<T> {
    type V = StreamStatusView<T::V>;

    open spec fn view(&self) -> StreamStatusView<T::V> {
        match self {
            StreamStatus::Partial(n) => StreamStatusView::Partial(*n),
            StreamStatus::Flushed(name, package) => StreamStatusView::Flushed(name@, package@),
            StreamStatus::Init(name, period) => StreamStatusView::Init(name@, *period),
        }
    }
}

/// The state of a stream: its configuration, the points waiting in the
/// buffer in arrival order, and what was observed while they arrived.
pub struct StreamView<A> {
    pub name: Seq<char>,
    pub topic: Seq<char>,
    pub max_buffer_size: usize,
    pub flush_period: u64,
    pub last_sequence: u32,
    pub last_timestamp: u64,
    pub items: Seq<A>,
    pub anomaly_count: usize,
    pub batch_latency: u64,
    pub metrics: StreamMetricsView,
}

/// The topic of a stream that was not configured:
/// `/tenants/{project}/devices/{device}/events/{stream}/jsonarray`.
pub open spec fn dynamic_topic(stream: Seq<char>, project_id: Seq<char>, device_id: Seq<char>) -> Seq<char> {
    "/tenants/"@ + project_id + "/devices/"@ + device_id + "/events/"@ + stream + "/jsonarray"@
}

/// How many anomalies a point adds: one if its sequence number does not
/// exceed the last one, one more if its timestamp lies before the last one.
pub open spec fn anomalies_of(last_sequence: u32, last_timestamp: u64, sequence: u32, timestamp: u64) -> nat {
    let a: nat = if sequence <= last_sequence { 1 } else { 0 };
    let b: nat = if timestamp < last_timestamp { 1 } else { 0 };
    a + b
}

impl<A> StreamView<A> {
    /// An empty stream.
    pub open spec fn new(name: Seq<char>, topic: Seq<char>, max_buffer_size: usize, flush_period: u64) -> StreamView<A> {
        StreamView {
            name,
            topic,
            max_buffer_size,
            flush_period,
            last_sequence: 0,
            last_timestamp: 0,
            items: Seq::empty(),
            anomaly_count: 0,
            batch_latency: 0,
            metrics: StreamMetricsView::new(name),
        }
    }

    /// The buffer is within its bound, and is never left full.
    pub open spec fn wf(self) -> bool {
        &&& self.items.len() <= self.max_buffer_size
        &&& self.max_buffer_size > 0 ==> self.items.len() < self.max_buffer_size
    }

    /// The stream with one more point at the end of its buffer, before any
    /// flush. The anomaly count stops at the largest value of its type.
    pub open spec fn pushed(self, item: A, sequence: u32, timestamp: u64, now: u64) -> StreamView<A> {
        let anomalies = self.anomaly_count + anomalies_of(
            self.last_sequence,
            self.last_timestamp,
            sequence,
            timestamp,
        );
        let latency = latency_of(timestamp, now);
        StreamView {
            last_sequence: sequence,
            last_timestamp: timestamp,
            items: self.items.push(item),
            anomaly_count: if anomalies <= usize::MAX {
                anomalies as usize
            } else {
                usize::MAX
            },
            batch_latency: if latency is Some && latency->0 > self.batch_latency {
                latency->0
            } else {
                self.batch_latency
            },
            metrics: self.metrics.add_point(latency),
            ..self
        }
    }

    /// Whether the buffer has reached its size and must be handed out.
    pub open spec fn is_due(self) -> bool {
        self.items.len() >= self.max_buffer_size
    }

    /// The batch that the buffer makes as it stands.
    pub open spec fn package(self) -> PackageView<A> {
        PackageView {
            topic: self.topic,
            stream: self.name,
            points: self.items,
            anomaly_count: self.anomaly_count,
            latency: self.batch_latency,
        }
    }

    /// The stream after its buffer was handed out as a batch.
    pub open spec fn emptied(self) -> StreamView<A> {
        StreamView {
            items: Seq::empty(),
            anomaly_count: 0,
            batch_latency: 0,
            metrics: self.metrics.add_batch(),
            ..self
        }
    }

    /// The stream after a point arrived, and what the fill reports: the
    /// batch if the buffer reached its size, `Init` if the point is the
    /// first of a new batch, else the number of points waiting.
    pub open spec fn fill(self, item: A, sequence: u32, timestamp: u64, now: u64) -> (StreamView<A>, StreamStatusView<A>) {
        let pushed = self.pushed(item, sequence, timestamp, now);
        if pushed.is_due() {
            (pushed.emptied(), StreamStatusView::Flushed(self.name, pushed.package()))
        } else if pushed.items.len() == 1 {
            (pushed, StreamStatusView::Init(self.name, self.flush_period))
        } else {
            (pushed, StreamStatusView::Partial(pushed.items.len() as usize))
        }
    }

    /// The stream after a forced flush, and the batch, if there was
    /// anything to hand out.
    pub open spec fn flush(self) -> (StreamView<A>, Option<PackageView<A>>) {
        if self.items.len() == 0 {
            (self, None)
        } else {
            (self.emptied(), Some(self.package()))
        }
    }

    /// The stream after its counters were reported.
    pub open spec fn reported(self) -> StreamView<A> {
        StreamView { metrics: self.metrics.prepare_next(), ..self }
    }
}

/// A buffer of points for one stream.
#[derive(Debug)]
pub struct Stream<T> {
    name: String,
    topic: String,
    max_buffer_size: usize,
    flush_period: u64,
    last_sequence: u32,
    last_timestamp: u64,
    buffer: Vec<T>,
    anomaly_count: usize,
    batch_latency: u64,
    metrics: StreamMetrics,
}

impl<T: Point> View for Stream<T> {
    type V = StreamView<T::V>;

    closed spec fn view(&self) -> StreamView<T::V> {
        StreamView {
            name: self.name@,
            topic: self.topic@,
            max_buffer_size: self.max_buffer_size,
            flush_period: self.flush_period,
            last_sequence: self.last_sequence,
            last_timestamp: self.last_timestamp,
            items: views(self.buffer@),
            anomaly_count: self.anomaly_count,
            batch_latency: self.batch_latency,
            metrics: self.metrics@,
        }
    }
}

impl<T> Stream<T> {
    #[verifier::type_invariant]
    closed spec fn inv(self) -> bool {
        &&& self.buffer@.len() <= self.max_buffer_size
        &&& self.max_buffer_size > 0 ==> self.buffer@.len() < self.max_buffer_size
    }
}

impl<T: Point> Stream<T> {
    /// An empty buffer named `name` that publishes on `topic`, holds up to
    /// `max_buffer_size` points and waits [`DEFAULT_TIMEOUT`] seconds.
    pub fn new(name: &str, topic: &str, max_buffer_size: usize) -> (s: Stream<T>)
        ensures
            s@ == StreamView::<T::V>::new(name@, topic@, max_buffer_size, DEFAULT_TIMEOUT),
            s@.wf(),
    {
        let s = Stream {
            name: String::from_str(name),
            topic: String::from_str(topic),
            max_buffer_size,
            flush_period: DEFAULT_TIMEOUT,
            last_sequence: 0,
            last_timestamp: 0,
            buffer: Vec::new(),
            anomaly_count: 0,
            batch_latency: 0,
            metrics: StreamMetrics::new(name),
        };
        assert(s@.items =~= Seq::empty());
        s
    }

    /// An empty buffer named `name` with the topic, size and flush period
    /// of `config`.
    pub fn with_config(name: &str, config: &StreamConfig) -> (s: Stream<T>)
        ensures
            s@ == StreamView::<T::V>::new(name@, config.topic@, config.buf_size, config.flush_period),
            s@.wf(),
    {
        let mut s: Stream<T> = Stream::new(name, config.topic.as_str(), config.buf_size);
        s.flush_period = config.flush_period;
        s
    }

    /// An empty buffer of `max_buffer_size` points for a stream that was
    /// not configured; its topic is [`dynamic_topic`].
    pub fn dynamic_with_size(
        name: &str,
        project_id: &str,
        device_id: &str,
        max_buffer_size: usize,
    ) -> (s: Stream<T>)
        ensures
            s@ == StreamView::<T::V>::new(
                name@,
                dynamic_topic(name@, project_id@, device_id@),
                max_buffer_size,
                DEFAULT_TIMEOUT,
            ),
            s@.wf(),
    {
        let mut topic = String::from_str("/tenants/");
        topic.append(project_id);
        topic.append("/devices/");
        topic.append(device_id);
        topic.append("/events/");
        topic.append(name);
        topic.append("/jsonarray");
        Stream::new(name, topic.as_str(), max_buffer_size)
    }

    /// An empty buffer of [`MAX_BUFFER_SIZE`] points for a stream that was
    /// not configured.
    pub fn dynamic(name: &str, project_id: &str, device_id: &str) -> (s: Stream<T>)
        ensures
            s@ == StreamView::<T::V>::new(
                name@,
                dynamic_topic(name@, project_id@, device_id@),
                MAX_BUFFER_SIZE,
                DEFAULT_TIMEOUT,
            ),
            s@.wf(),
    {
        Stream::dynamic_with_size(name, project_id, device_id, MAX_BUFFER_SIZE)
    }

    /// The name of the stream.
    pub fn name(&self) -> (s: &String)
        ensures
            s@ == self@.name,
    {
        &self.name
    }

    /// The number of points a batch of this stream holds.
    pub fn max_buffer_size(&self) -> (n: usize)
        ensures
            n == self@.max_buffer_size,
    {
        self.max_buffer_size
    }

    /// Seconds after the first point of a batch at which a flush is due.
    pub fn flush_period(&self) -> (n: u64)
        ensures
            n == self@.flush_period,
    {
        self.flush_period
    }

    /// The number of points waiting in the buffer.
    pub fn len(&self) -> (n: usize)
        ensures
            n == self@.items.len(),
            self@.wf(),
    {
        proof {
            use_type_invariant(self);
        }
        self.buffer.len()
    }

    /// Whether no point is waiting in the buffer.
    pub fn is_empty(&self) -> (b: bool)
        ensures
            b == (self@.items.len() == 0),
    {
        self.buffer.len() == 0
    }

    /// The counters of the stream since its last report.
    pub fn metrics(&self) -> (m: &StreamMetrics)
        ensures
            m@ == self@.metrics,
    {
        &self.metrics
    }

    /// A copy of the counters if they are due for a report, that is, if a
    /// point has arrived since the last one.
    pub fn metrics_due(&self) -> (m: Option<StreamMetrics>)
        ensures
            match m {
                Some(m) => self@.metrics.point_count > 0 && m@ == self@.metrics,
                None => self@.metrics.point_count == 0,
            },
    {
        if self.metrics.point_count() > 0 {
            Some(self.metrics.clone())
        } else {
            None
        }
    }

    /// Finishes a report of the stream's counters, given what the channel
    /// answered when they were offered: an accepted report starts the
    /// next period with every counter at zero; a rejected one leaves the
    /// counters as they are and is handed on as the error.
    pub fn settle_metrics(&mut self, sent: Result<(), TrySendError<StreamMetrics>>) -> (r: Result<
        (),
        TrySendError<StreamMetrics>,
    >)
        ensures
            match sent {
                Ok(()) => r is Ok && final(self)@ == old(self)@.reported(),
                Err(e) => r == Err::<(), TrySendError<StreamMetrics>>(e) && final(self)@ == old(self)@,
            },
    {
        match sent {
            Ok(()) => {
                self.prepare_next_metrics();
                Ok(())
            },
            Err(e) => Err(e),
        }
    }

    /// Starts the next reporting period of the stream's counters.
    pub fn prepare_next_metrics(&mut self)
        ensures
            final(self)@ == old(self)@.reported(),
    {
        proof {
            use_type_invariant(&*self);
        }
        self.metrics.prepare_next();
    }

    /// Appends `point`, which arrives at `now` (milliseconds since the
    /// epoch). When the buffer reaches its size, the batch leaves with the
    /// status and the buffer is empty again.
    pub fn fill(&mut self, point: T, now: u64) -> (status: StreamStatus<T>)
        ensures
            final(self)@ == old(self)@.fill(point@, point.spec_sequence(), point.spec_timestamp(), now).0,
            status@ == old(self)@.fill(point@, point.spec_sequence(), point.spec_timestamp(), now).1,
            old(self)@.wf(),
            final(self)@.wf(),
    {
        proof {
            use_type_invariant(&*self);
        }
        let ghost pushed = self@.pushed(point@, point.spec_sequence(), point.spec_timestamp(), now);
        let sequence = point.sequence();
        let timestamp = point.timestamp();
        let mut anomalies: usize = 0;
        if sequence <= self.last_sequence {
            anomalies = anomalies + 1;
        }
        if timestamp < self.last_timestamp {
            anomalies = anomalies + 1;
        }
        let anomaly_count = self.anomaly_count.saturating_add(anomalies);
        let latency = if timestamp <= now && now - timestamp > self.batch_latency {
            now - timestamp
        } else {
            self.batch_latency
        };
        self.metrics.add_point(timestamp, now);
        let mut points: Vec<T> = Vec::new();
        std::mem::swap(&mut self.buffer, &mut points);
        points.push(point);
        assert(views(points@) =~= pushed.items);
        self.last_sequence = sequence;
        self.last_timestamp = timestamp;
        if points.len() >= self.max_buffer_size {
            self.metrics.add_batch();
            self.anomaly_count = 0;
            self.batch_latency = 0;
            assert(self@.items =~= Seq::empty());
            let package = Package {
                topic: self.topic.clone(),
                stream: self.name.clone(),
                points,
                anomaly_count,
                latency,
            };
            StreamStatus::Flushed(self.name.clone(), package)
        } else {
            let len = points.len();
            self.anomaly_count = anomaly_count;
            self.batch_latency = latency;
            self.buffer = points;
            if len == 1 {
                StreamStatus::Init(self.name.clone(), self.flush_period)
            } else {
                StreamStatus::Partial(len)
            }
        }
    }

    /// Hands out whatever waits in the buffer. With an empty buffer
    /// nothing changes and nothing is handed out.
    pub fn flush(&mut self) -> (package: Option<Package<T>>)
        ensures
            final(self)@ == old(self)@.flush().0,
            option_package_view(package) == old(self)@.flush().1,
            old(self)@.wf(),
            final(self)@.wf(),
    {
        proof {
            use_type_invariant(&*self);
        }
        if self.buffer.len() == 0 {
            None
        } else {
            let mut points: Vec<T> = Vec::new();
            std::mem::swap(&mut self.buffer, &mut points);
            let package = Package {
                topic: self.topic.clone(),
                stream: self.name.clone(),
                points,
                anomaly_count: self.anomaly_count,
                latency: self.batch_latency,
            };
            self.metrics.add_batch();
            self.anomaly_count = 0;
            self.batch_latency = 0;
            assert(self@.items =~= Seq::empty());
            Some(package)
        }
    }
}

/// A fill keeps the buffer within its bound, whatever arrives.
pub proof fn lemma_fill_keeps_bound<A>(s: StreamView<A>, item: A, sequence: u32, timestamp: u64, now: u64)
    requires
        s.wf(),
    ensures
        s.fill(item, sequence, timestamp, now).0.wf(),
        s.fill(item, sequence, timestamp, now).0.items.len() <= s.max_buffer_size,
{
}

/// For a stream that holds at least one point per batch, a fill reports
/// `Flushed` exactly when the point it appends brings the buffer to its
/// size; the batch then holds what was waiting, followed by that point.
pub proof fn lemma_flushed_iff_full<A>(s: StreamView<A>, item: A, sequence: u32, timestamp: u64, now: u64)
    requires
        s.wf(),
        s.max_buffer_size > 0,
    ensures
        s.fill(item, sequence, timestamp, now).1 is Flushed <==> s.items.len() + 1 == s.max_buffer_size,
        s.fill(item, sequence, timestamp, now).1 matches StreamStatusView::Flushed(name, package) ==> {
            &&& name == s.name
            &&& package.points == s.items.push(item)
            &&& package.points.len() == s.max_buffer_size
            &&& s.fill(item, sequence, timestamp, now).0.items.len() == 0
        },
{
}

/// Points leave in the order in which they arrived, none lost and none
/// twice: after a fill the point is the last of the buffer, or, if the
/// fill completed a batch, the last of that batch, behind all that was
/// waiting.
pub proof fn lemma_fill_keeps_order<A>(s: StreamView<A>, item: A, sequence: u32, timestamp: u64, now: u64)
    ensures
        match s.fill(item, sequence, timestamp, now).1 {
            StreamStatusView::Flushed(_, package) => {
                &&& package.points == s.items.push(item)
                &&& s.fill(item, sequence, timestamp, now).0.items == Seq::<A>::empty()
            },
            StreamStatusView::Init(_, _) => {
                &&& s.items.len() == 0
                &&& s.fill(item, sequence, timestamp, now).0.items == seq![item]
            },
            StreamStatusView::Partial(len) => {
                &&& len == s.items.len() + 1
                &&& s.fill(item, sequence, timestamp, now).0.items == s.items.push(item)
            },
        },
        s.flush().1 matches Some(package) ==> package.points == s.items,
{
    if s.items.len() == 0 {
        assert(s.items.push(item) =~= seq![item]);
    }
}

/// Flushing an empty buffer changes nothing and hands nothing out, so a
/// second flush right after a first one is always of that kind.
pub proof fn lemma_flush_idempotent<A>(s: StreamView<A>)
    ensures
        s.items.len() == 0 ==> s.flush() == (s, None::<PackageView<A>>),
        s.flush().0.flush() == (s.flush().0, None::<PackageView<A>>),
        s.wf() ==> s.flush().0.wf(),
{
}

/// The view of an optional package.
pub open spec fn option_package_view<T: View>(p: Option<Package<T>>) -> Option<PackageView<T::V>> {
    match p {
        Some(p) => Some(p@),
        None => None,
    }
}

} // verus!
