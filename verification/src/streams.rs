//! The registry of stream buffers, with the timers that flush them.

use vstd::prelude::*;
use crate::bridge::Config;
use crate::channel::{try_send, TrySendError};
use crate::delaymap::{DelayMap, DelayMapView};
use crate::metrics::{StreamMetrics, StreamMetricsView};
use crate::payload::{Payload, PayloadView};
use crate::stream::{
    dynamic_topic, option_package_view, Package, PackageView, Stream, StreamStatus,
    StreamStatusView, StreamView, DEFAULT_TIMEOUT, MAX_BUFFER_SIZE,
};
use crate::text::same_text;

verus! {

/// The number of streams that may be created for names that were not
/// configured.
pub const MAX_DYNAMIC_STREAMS: usize = 20;

/// The state of the registry: the streams in the order they were created,
/// the configured ones first, the flush timers, and the channel for the
/// counters.
pub struct StreamsView {
    pub project_id: Seq<char>,
    pub device_id: Seq<char>,
    pub streams: Seq<StreamView<PayloadView>>,
    pub configured: nat,
    pub timeouts: DelayMapView<Seq<char>>,
    /// The channel on which the counters are reported.
    pub metrics_tx: flume::Sender<StreamMetrics>,
}

impl StreamsView {
    /// The names of the streams, in order.
    pub open spec fn names(self) -> Seq<Seq<char>> {
        self.streams.map_values(|s: StreamView<PayloadView>| s.name)
    }

    /// No two streams share a name, and no more than
    /// [`MAX_DYNAMIC_STREAMS`] of them were created beyond the configured
    /// ones; every buffer is within its bound and no key has two timers.
    pub open spec fn wf(self) -> bool {
        &&& forall|i: int, j: int|
            0 <= i < j < self.streams.len() ==> (#[trigger] self.streams[i]).name != (#[trigger] self.streams[j]).name
        &&& self.streams.len() <= self.configured + MAX_DYNAMIC_STREAMS
        &&& forall|i: int| 0 <= i < self.streams.len() ==> (#[trigger] self.streams[i]).wf()
        &&& self.timeouts.wf()
    }

    /// Every point that waits in a stream of more than one point per batch
    /// is covered by an armed flush timer: it will not wait for ever.
    pub open spec fn covered(self) -> bool {
        forall|i: int|
            0 <= i < self.streams.len() && (#[trigger] self.streams[i]).max_buffer_size > 1
                && self.streams[i].items.len() > 0 ==> self.timeouts.armed(self.streams[i].name)
    }

    /// Whether position `i` holds the stream named `name`.
    pub open spec fn at(self, i: int, name: Seq<char>) -> bool {
        0 <= i < self.streams.len() && self.streams[i].name == name
    }

    /// Whether a stream is named `name`.
    pub open spec fn has(self, name: Seq<char>) -> bool {
        exists|i: int| self.at(i, name)
    }

    /// The position of the stream named `name`.
    pub open spec fn index(self, name: Seq<char>) -> int {
        choose|i: int| self.at(i, name)
    }

    /// The number of streams created for names that were not configured.
    pub open spec fn dynamic_count(self) -> nat {
        if self.streams.len() > self.configured {
            (self.streams.len() - self.configured) as nat
        } else {
            0
        }
    }

    /// Whether a point for `name` is dropped: the name is unknown and no
    /// further stream may be created.
    pub open spec fn drops(self, name: Seq<char>) -> bool {
        !self.has(name) && self.dynamic_count() >= MAX_DYNAMIC_STREAMS
    }

    /// The registry with a stream for `name`: as it is if the name is
    /// known, else with a new empty stream at the end.
    pub open spec fn with_stream(self, name: Seq<char>) -> StreamsView {
        if self.has(name) {
            self
        } else {
            StreamsView {
                streams: self.streams.push(
                    StreamView::new(
                        name,
                        dynamic_topic(name, self.project_id, self.device_id),
                        MAX_BUFFER_SIZE,
                        DEFAULT_TIMEOUT,
                    ),
                ),
                ..self
            }
        }
    }

    /// The timers after a fill of a stream of `max_buffer_size` points
    /// reported `status` at `now`: armed on `Init`, disarmed on `Flushed`,
    /// untouched otherwise and for streams of at most one point.
    pub open spec fn timeouts_after(
        self,
        max_buffer_size: usize,
        status: StreamStatusView<PayloadView>,
        now: u64,
    ) -> DelayMapView<Seq<char>> {
        if max_buffer_size > 1 {
            match status {
                StreamStatusView::Flushed(name, _) => self.timeouts.remove(name),
                StreamStatusView::Init(name, period) => self.timeouts.insert(name, now, period),
                StreamStatusView::Partial(_) => self.timeouts,
            }
        } else {
            self.timeouts
        }
    }

    /// The registry after the point `data` arrived at `now`, and the batch
    /// that the point completed, if it completed one.
    pub open spec fn forward(self, data: PayloadView, now: u64) -> (StreamsView, Option<PackageView<PayloadView>>) {
        if self.drops(data.stream) {
            (self, None)
        } else {
            let base = self.with_stream(data.stream);
            let i = base.index(data.stream);
            let (stream, status) = base.streams[i].fill(data, data.sequence, data.timestamp, now);
            (
                StreamsView {
                    streams: base.streams.update(i, stream),
                    timeouts: base.timeouts_after(base.streams[i].max_buffer_size, status, now),
                    ..base
                },
                match status {
                    StreamStatusView::Flushed(_, package) => Some(package),
                    _ => None,
                },
            )
        }
    }

    /// The registry after the stream `name` was flushed, and its batch, if
    /// anything was waiting. An unknown name changes nothing.
    pub open spec fn flush_stream(self, name: Seq<char>) -> (StreamsView, Option<PackageView<PayloadView>>) {
        if self.has(name) {
            let i = self.index(name);
            (
                StreamsView { streams: self.streams.update(i, self.streams[i].flush().0), ..self },
                self.streams[i].flush().1,
            )
        } else {
            (self, None)
        }
    }

    /// The registry after a poll of its timers at `now`: the timer that
    /// fired, if any, is disarmed.
    pub open spec fn timed_out(self, now: u64) -> StreamsView {
        StreamsView { timeouts: self.timeouts.next(now).0, ..self }
    }

    /// The registry after its flush timers were polled at `now`: if one
    /// has expired it is disarmed and its stream is flushed, and the batch
    /// is handed out if anything was waiting.
    pub open spec fn on_timeout(self, now: u64) -> (StreamsView, Option<PackageView<PayloadView>>) {
        match self.timeouts.next(now).1 {
            Some(name) => self.timed_out(now).flush_stream(name),
            None => (self, None),
        }
    }

    /// Whether the counters of the stream at position `i` are due for a
    /// report: it has received a point since its last report.
    pub open spec fn metrics_due(self, i: int) -> bool {
        self.streams[i].metrics.point_count > 0
    }

    /// The registry after the counters of the first `k` streams were dealt
    /// with: those that were due are reset, all else is as it was.
    pub open spec fn reported_upto(self, k: int) -> StreamsView {
        StreamsView {
            streams: Seq::new(
                self.streams.len(),
                |i: int|
                    if i < k && self.metrics_due(i) {
                        self.streams[i].reported()
                    } else {
                        self.streams[i]
                    },
            ),
            ..self
        }
    }

    /// Making room for a name that is not dropped keeps the registry well
    /// formed, and the name then has a stream.
    pub proof fn lemma_with_stream(self, name: Seq<char>)
        requires
            self.wf(),
            !self.drops(name),
        ensures
            self.with_stream(name).wf(),
            self.with_stream(name).has(name),
    {
        let base = self.with_stream(name);
        if !self.has(name) {
            let last = self.streams.len() as int;
            assert forall|i: int, j: int| 0 <= i < j < base.streams.len() implies (#[trigger] base.streams[i]).name != (#[trigger] base.streams[j]).name by {
                if j == last {
                    if base.streams[i].name == name {
                        assert(self.at(i, name));
                    }
                } else {
                    assert(self.streams[i].name != self.streams[j].name);
                }
            }
            assert forall|i: int| 0 <= i < base.streams.len() implies (#[trigger] base.streams[i]).wf() by {
                if i < last {
                    assert(self.streams[i].wf());
                }
            }
            assert(base.at(last, name));
        }
    }

    /// Only the counters of streams that were due change in a report, and
    /// they return to zero; buffers, names and timers stay as they were.
    pub proof fn lemma_reported(self, k: int)
        requires
            self.wf(),
        ensures
            self.reported_upto(k).wf(),
            self.reported_upto(k).streams.len() == self.streams.len(),
            forall|i: int| 0 <= i < self.streams.len() ==> {
                let after = #[trigger] self.reported_upto(k).streams[i];
                if i < k && self.metrics_due(i) {
                    &&& after == self.streams[i].reported()
                    &&& after.metrics == StreamMetricsView::new(self.streams[i].metrics.stream_name)
                    &&& after.metrics.point_count == 0
                } else {
                    after == self.streams[i]
                }
            },
    {
        let r = self.reported_upto(k);
        assert forall|i: int, j: int| 0 <= i < j < r.streams.len() implies (#[trigger] r.streams[i]).name != (#[trigger] r.streams[j]).name by {
            assert(self.streams[i].name != self.streams[j].name);
        }
        assert forall|i: int| 0 <= i < r.streams.len() implies (#[trigger] r.streams[i]).wf() by {
            assert(self.streams[i].wf());
        }
    }

    /// Once [`MAX_DYNAMIC_STREAMS`] streams were created for names that
    /// were not configured, a point for yet another unknown name is
    /// dropped: no batch leaves and the registry is as it was.
    pub proof fn lemma_forward_beyond_cap(self, data: PayloadView, now: u64)
        requires
            !self.has(data.stream),
            self.dynamic_count() >= MAX_DYNAMIC_STREAMS,
        ensures
            self.forward(data, now) == (self, None::<PackageView<PayloadView>>),
    {
    }

    /// A point changes the stream of its name alone: every stream that
    /// was there under another name is as it was, at its position.
    pub proof fn lemma_forward_leaves_others(self, data: PayloadView, now: u64)
        requires
            self.wf(),
        ensures
            self.forward(data, now).0.streams.len() >= self.streams.len(),
            forall|i: int| 0 <= i < self.streams.len() && self.streams[i].name != data.stream ==> #[trigger] self.forward(data, now).0.streams[i] == self.streams[i],
    {
        if !self.drops(data.stream) {
            self.lemma_with_stream(data.stream);
            let base = self.with_stream(data.stream);
            let i = base.index(data.stream);
            assert(base.at(i, data.stream));
        }
    }

    /// A stream whose batches hold one point at most never touches the
    /// timers: each of its points leaves at once.
    pub proof fn lemma_single_point_stream_needs_no_timer(self, data: PayloadView, now: u64)
        requires
            self.wf(),
            self.has(data.stream),
            self.streams[self.index(data.stream)].max_buffer_size <= 1,
        ensures
            self.forward(data, now).0.timeouts == self.timeouts,
            self.forward(data, now).1 is Some,
            self.forward(data, now).0.streams[self.index(data.stream)].items.len() == 0,
    {
        let i = self.index(data.stream);
        assert(self.streams[i].wf());
    }

    /// Taking a point in keeps the registry well formed.
    pub proof fn lemma_forward_keeps_wf(self, data: PayloadView, now: u64)
        requires
            self.wf(),
        ensures
            self.forward(data, now).0.wf(),
    {
        if !self.drops(data.stream) {
            self.lemma_with_stream(data.stream);
            let base = self.with_stream(data.stream);
            let i = base.index(data.stream);
            let after = self.forward(data, now).0;
            base.timeouts.lemma_remove(data.stream);
            base.timeouts.lemma_insert(data.stream, now, base.streams[i].flush_period);
            assert forall|a: int, b: int| 0 <= a < b < after.streams.len() implies (#[trigger] after.streams[a]).name != (#[trigger] after.streams[b]).name by {
                assert(base.streams[a].name != base.streams[b].name);
            }
            assert forall|j: int| 0 <= j < after.streams.len() implies (#[trigger] after.streams[j]).wf() by {
                assert(base.streams[j].wf());
            }
        }
    }

    /// Taking a point in keeps every waiting point covered by a timer.
    pub proof fn lemma_forward_keeps_cover(self, data: PayloadView, now: u64)
        requires
            self.wf(),
            self.covered(),
        ensures
            self.forward(data, now).0.covered(),
    {
        if !self.drops(data.stream) {
            self.lemma_with_stream(data.stream);
            let base = self.with_stream(data.stream);
            let i = base.index(data.stream);
            let name = data.stream;
            let after = self.forward(data, now).0;
            base.timeouts.lemma_remove(name);
            base.timeouts.lemma_insert(name, now, base.streams[i].flush_period);
            assert forall|j: int|
                0 <= j < after.streams.len() && (#[trigger] after.streams[j]).max_buffer_size > 1
                    && after.streams[j].items.len() > 0 implies after.timeouts.armed(after.streams[j].name) by {
                if j != i {
                    if j < self.streams.len() {
                        assert(self.streams[j] == base.streams[j]);
                    }
                    if i < j {
                        assert(base.streams[i].name != base.streams[j].name);
                    } else {
                        assert(base.streams[j].name != base.streams[i].name);
                    }
                } else {
                    if base.streams[i].items.len() > 0 {
                        assert(self.timeouts.armed(name));
                    }
                }
            }
        }
    }

    /// A poll of the flush timers keeps every waiting point covered: the
    /// stream whose timer fired is emptied.
    pub proof fn lemma_on_timeout_keeps_cover(self, now: u64)
        requires
            self.wf(),
            self.covered(),
        ensures
            self.on_timeout(now).0.covered(),
            self.on_timeout(now).0.wf(),
    {
        match self.timeouts.next(now).1 {
            Some(name) => {
                let k = self.timeouts.next_index();
                self.timeouts.lemma_next_exists();
                self.timeouts.lemma_index(k, name);
                self.timeouts.lemma_remove(name);
                let polled = self.timed_out(now);
                let after = self.on_timeout(now).0;
                if polled.has(name) {
                    let i = polled.index(name);
                    assert forall|j: int| 0 <= j < after.streams.len() implies (#[trigger] after.streams[j]).wf() by {
                        assert(self.streams[j].wf());
                    }
                    assert forall|a: int, b: int| 0 <= a < b < after.streams.len() implies (#[trigger] after.streams[a]).name != (#[trigger] after.streams[b]).name by {
                        assert(self.streams[a].name != self.streams[b].name);
                    }
                    assert forall|j: int|
                        0 <= j < after.streams.len() && (#[trigger] after.streams[j]).max_buffer_size > 1
                            && after.streams[j].items.len() > 0 implies after.timeouts.armed(after.streams[j].name) by {
                        if j != i {
                            if i < j {
                                assert(self.streams[i].name != self.streams[j].name);
                            } else {
                                assert(self.streams[j].name != self.streams[i].name);
                            }
                        }
                    }
                } else {
                    assert forall|j: int|
                        0 <= j < after.streams.len() && (#[trigger] after.streams[j]).max_buffer_size > 1
                            && after.streams[j].items.len() > 0 implies after.timeouts.armed(after.streams[j].name) by {
                        if self.streams[j].name == name {
                            assert(polled.at(j, name));
                        }
                    }
                }
            },
            None => {},
        }
    }

    /// A name's position is the only one that holds it.
    pub proof fn lemma_index(self, i: int, name: Seq<char>)
        requires
            self.wf(),
            self.at(i, name),
        ensures
            self.has(name),
            self.index(name) == i,
    {
        let j = self.index(name);
        if i < j {
            assert(self.streams[i].name != self.streams[j].name);
        } else if j < i {
            assert(self.streams[j].name != self.streams[i].name);
        }
    }
}

/// The stream buffers by name, with their flush timers and the channel
/// on which their counters are reported.
#[derive(Debug)]
pub struct Streams {
    project_id: String,
    device_id: String,
    metrics_tx: flume::Sender<StreamMetrics>,
    map: Vec<Stream<Payload>>,
    configured: usize,
    stream_timeouts: DelayMap<String>,
}

impl View for Streams {
    type V = StreamsView;

    closed spec fn view(&self) -> StreamsView {
        StreamsView {
            project_id: self.project_id@,
            device_id: self.device_id@,
            streams: self.map@.map_values(|s: Stream<Payload>| s@),
            configured: self.configured as nat,
            timeouts: self.stream_timeouts@,
            metrics_tx: self.metrics_tx,
        }
    }
}

impl Streams {
    #[verifier::type_invariant]
    closed spec fn inv(self) -> bool {
        self@.wf()
    }

    /// A registry with one empty stream for each configured name, in the
    /// order of the configuration, and no timer armed. `metrics_tx` is
    /// where the counters will be reported.
    pub fn new(config: &Config, metrics_tx: flume::Sender<StreamMetrics>) -> (s: Streams)
        ensures
            s@.project_id == config.project_id@,
            s@.device_id == config.device_id@,
            s@.metrics_tx == metrics_tx,
            s@.configured == config.streams.keys().len(),
            s@.streams.len() == config.streams.keys().len(),
            forall|i: int| 0 <= i < s@.streams.len() ==> #[trigger] s@.streams[i] == StreamView::<PayloadView>::new(
                config.streams.keys()[i],
                config.streams.values()[i].topic@,
                config.streams.values()[i].buf_size,
                config.streams.values()[i].flush_period,
            ),
            s@.timeouts.timers.len() == 0,
            s@.wf(),
            s@.covered(),
    {
        let n = config.streams.len();
        proof {
            config.streams.lemma_entries();
        }
        let mut map: Vec<Stream<Payload>> = Vec::new();
        let mut i: usize = 0;
        while i < n
            invariant
                i <= n,
                n == config.streams.keys().len(),
                n == config.streams.values().len(),
                map@.len() == i,
                forall|j: int| 0 <= j < i ==> (#[trigger] map@[j])@ == StreamView::<PayloadView>::new(
                    config.streams.keys()[j],
                    config.streams.values()[j].topic@,
                    config.streams.values()[j].buf_size,
                    config.streams.values()[j].flush_period,
                ),
            decreases n - i,
        {
            let stream = Stream::with_config(config.streams.key_at(i).as_str(), config.streams.value_at(i));
            map.push(stream);
            i += 1;
        }
        Streams {
            project_id: config.project_id.clone(),
            device_id: config.device_id.clone(),
            metrics_tx,
            map,
            configured: n,
            stream_timeouts: DelayMap::new(),
        }
    }

    /// The number of streams in the registry.
    pub fn len(&self) -> (n: usize)
        ensures
            n == self@.streams.len(),
            self@.wf(),
    {
        proof {
            use_type_invariant(self);
        }
        self.map.len()
    }

    /// The stream named `name`, if there is one.
    pub fn get(&self, name: &str) -> (r: Option<&Stream<Payload>>)
        ensures
            match r {
                Some(s) => self@.has(name@) && s@ == self@.streams[self@.index(name@)],
                None => !self@.has(name@),
            },
    {
        proof {
            use_type_invariant(self);
        }
        match self.position(name) {
            Some(i) => {
                proof {
                    self@.lemma_index(i as int, name@);
                }
                Some(&self.map[i])
            },
            None => None,
        }
    }

    /// Whether a point for the stream `name` would be dropped: the name
    /// is unknown and [`MAX_DYNAMIC_STREAMS`] streams were created already.
    pub fn drops(&self, name: &str) -> (b: bool)
        ensures
            b == self@.drops(name@),
    {
        match self.position(name) {
            Some(_) => false,
            None => self.map.len() >= self.configured && self.map.len() - self.configured
                >= MAX_DYNAMIC_STREAMS,
        }
    }

    /// Whether a flush timer is armed.
    pub fn has_pending_timeouts(&self) -> (b: bool)
        ensures
            b == (self@.timeouts.timers.len() > 0),
    {
        self.stream_timeouts.has_pending()
    }

    /// The moment at which the next flush timer expires, if any is armed.
    pub fn next_timeout_deadline(&self) -> (d: Option<u64>)
        ensures
            match d {
                Some(d) => self@.timeouts.timers.len() > 0 && d == self@.timeouts.timers[self@.timeouts.next_index()].deadline,
                None => self@.timeouts.timers.len() == 0,
            },
    {
        self.stream_timeouts.next_deadline()
    }

    /// Takes the point `data`, which arrives at `now` (milliseconds since
    /// the epoch), into the buffer of its stream. An unknown name gets a
    /// new stream unless [`MAX_DYNAMIC_STREAMS`] were created already: then
    /// the point is dropped and nothing changes. The flush timer of the
    /// stream is armed on the first point of a batch and disarmed when the
    /// batch leaves, which is then handed to the caller.
    pub fn forward(&mut self, data: Payload, now: u64) -> (package: Option<Package<Payload>>)
        ensures
            final(self)@ == old(self)@.forward(data@, now).0,
            option_package_view(package) == old(self)@.forward(data@, now).1,
            old(self)@.wf(),
            final(self)@.wf(),
    {
        proof {
            use_type_invariant(&*self);
        }
        let ghost pre = self@;
        let ghost base = pre.with_stream(data@.stream);
        let found = self.position(data.stream.as_str());
        let mut map: Vec<Stream<Payload>> = Vec::new();
        let index = match found {
            Some(i) => {
                std::mem::swap(&mut self.map, &mut map);
                i
            },
            None => {
                if self.map.len() >= self.configured && self.map.len() - self.configured >= MAX_DYNAMIC_STREAMS {
                    return None;
                }
                let stream = Stream::dynamic(
                    data.stream.as_str(),
                    self.project_id.as_str(),
                    self.device_id.as_str(),
                );
                std::mem::swap(&mut self.map, &mut map);
                map.push(stream);
                map.len() - 1
            },
        };
        proof {
            pre.lemma_with_stream(data@.stream);
            base.lemma_index(index as int, data@.stream);
        }
        let max = map[index].max_buffer_size();
        let status = map[index].fill(data, now);
        assert(map@.map_values(|s: Stream<Payload>| s@) =~= base.streams.update(
            index as int,
            base.streams[index as int].fill(data@, data@.sequence, data@.timestamp, now).0,
        ));
        let mut timeouts: DelayMap<String> = DelayMap::new();
        std::mem::swap(&mut self.stream_timeouts, &mut timeouts);
        let package = match status {
            StreamStatus::Flushed(name, package) => {
                if max > 1 {
                    timeouts.remove(&name);
                }
                Some(package)
            },
            StreamStatus::Init(name, period) => {
                if max > 1 {
                    timeouts.insert(&name, now, period);
                }
                None
            },
            StreamStatus::Partial(_) => None,
        };
        self.map = map;
        self.stream_timeouts = timeouts;
        package
    }

    /// Flushes the stream named `name`, as when its timer has fired, and
    /// hands its batch to the caller. Nothing happens for an unknown name
    /// or an empty buffer.
    pub fn flush_stream(&mut self, name: &str) -> (package: Option<Package<Payload>>)
        ensures
            final(self)@ == old(self)@.flush_stream(name@).0,
            option_package_view(package) == old(self)@.flush_stream(name@).1,
            old(self)@.wf(),
            final(self)@.wf(),
    {
        proof {
            use_type_invariant(&*self);
        }
        match self.position(name) {
            Some(i) => {
                proof {
                    self@.lemma_index(i as int, name@);
                }
                let mut map: Vec<Stream<Payload>> = Vec::new();
                std::mem::swap(&mut self.map, &mut map);
                let package = map[i].flush();
                assert(map@.map_values(|s: Stream<Payload>| s@) =~= old(self)@.streams.update(
                    i as int,
                    old(self)@.streams[i as int].flush().0,
                ));
                self.map = map;
                package
            },
            None => None,
        }
    }

    /// Polls the flush timers at `now`: the name of the stream whose timer
    /// expires next, if it has expired. The timer is disarmed; the stream
    /// is left for [`Streams::flush_stream`].
    pub fn next_timeout(&mut self, now: u64) -> (name: Option<String>)
        ensures
            final(self)@ == old(self)@.timed_out(now),
            match name {
                Some(k) => old(self)@.timeouts.next(now).1 == Some(k@),
                None => old(self)@.timeouts.next(now).1 is None,
            },
            final(self)@.wf(),
    {
        proof {
            use_type_invariant(&*self);
        }
        let mut timeouts: DelayMap<String> = DelayMap::new();
        std::mem::swap(&mut self.stream_timeouts, &mut timeouts);
        let name = timeouts.next(now);
        self.stream_timeouts = timeouts;
        name
    }

    /// Reports the counters of every stream that has received a point
    /// since its last report, in the order of the registry, and resets
    /// them. The pass ends at the first report that the channel does not
    /// accept: that stream and all after it keep their counters, and the
    /// rejected report comes back in the error.
    pub fn check_and_flush_metrics(&mut self) -> (r: Result<(), TrySendError<StreamMetrics>>)
        ensures
            match r {
                Ok(()) => final(self)@ == old(self)@.reported_upto(old(self)@.streams.len() as int),
                Err(e) => exists|k: int|
                    0 <= k < old(self)@.streams.len() && old(self)@.metrics_due(k) && e.message()@ == old(
                        self,
                    )@.streams[k].metrics && final(self)@ == #[trigger] old(self)@.reported_upto(k),
            },
            final(self)@.wf(),
    {
        proof {
            use_type_invariant(&*self);
        }
        let ghost pre = self@;
        let mut map: Vec<Stream<Payload>> = Vec::new();
        std::mem::swap(&mut self.map, &mut map);
        assert(self@.streams =~= Seq::empty());
        let mut i: usize = 0;
        while i < map.len()
            invariant
                i <= map@.len(),
                pre == old(self)@,
                pre.wf(),
                map@.len() == pre.streams.len(),
                map@.map_values(|s: Stream<Payload>| s@) == pre.reported_upto(i as int).streams,
                self.map@.len() == 0,
                self@ == (StreamsView { streams: Seq::empty(), ..pre }),
            decreases map@.len() - i,
        {
            let ghost before = map@.map_values(|s: Stream<Payload>| s@);
            assert(before[i as int] == pre.streams[i as int]);
            match map[i].metrics_due() {
                Some(snapshot) => {
                    let sent = try_send(&self.metrics_tx, snapshot);
                    match map[i].settle_metrics(sent) {
                        Ok(()) => {
                            assert(map@.map_values(|s: Stream<Payload>| s@) =~= before.update(
                                i as int,
                                before[i as int].reported(),
                            ));
                        },
                        Err(e) => {
                            proof {
                                pre.lemma_reported(i as int);
                            }
                            assert(map@.map_values(|s: Stream<Payload>| s@) =~= before);
                            self.map = map;
                            return Err(e);
                        },
                    }
                },
                None => {},
            }
            i += 1;
        }
        proof {
            pre.lemma_reported(i as int);
        }
        self.map = map;
        Ok(())
    }

    fn position(&self, name: &str) -> (r: Option<usize>)
        ensures
            match r {
                Some(i) => self@.at(i as int, name@),
                None => !self@.has(name@),
            },
    {
        let mut i: usize = 0;
        while i < self.map.len()
            invariant
                i <= self.map.len(),
                forall|j: int| 0 <= j < i ==> !self@.at(j, name@),
            decreases self.map.len() - i,
        {
            if same_text(self.map[i].name(), name) {
                return Some(i);
            }
            i += 1;
        }
        None
    }
}

} // verus!
