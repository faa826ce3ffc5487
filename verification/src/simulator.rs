//! The device simulator: its streams, the schedule of its events, and the
//! choices it leaves to chance.

use vstd::prelude::*;
use std::time::Duration;
use crate::action::{ActionResponse, ActionResponseView};
use crate::text::push_decimal;

verus! {

/// The kinds of data that the simulator generates.
#[derive(Debug, Copy, Clone, Eq, PartialEq, Structural)]
pub enum DataEventType {
    GenerateGPS,
    GenerateIMU,
    GenerateDeviceShadow,
    GeneratePeripheralState,
    GenerateMotor,
    GenerateBMS,
}

/// A response that the simulator has scheduled for an action, due at
/// `timestamp` (milliseconds since the epoch).
#[derive(Debug, PartialEq, Eq)]
pub struct ActionResponseEvent {
    pub timestamp: u64,
    pub action_id: String,
    pub device_id: String,
    pub status: String,
    pub progress: u8,
}

impl Clone for ActionResponseEvent {
    fn clone(&self) -> (r: Self)
        ensures
            r == *self,
    {
        ActionResponseEvent {
            timestamp: self.timestamp,
            action_id: self.action_id.clone(),
            device_id: self.device_id.clone(),
            status: self.status.clone(),
            progress: self.progress,
        }
    }
}

/// The span of `millis` milliseconds, as `Duration::from_millis` makes it.
pub uninterp spec fn duration_of_millis(millis: u64) -> Duration;

/// Calls `Duration::from_millis`; the contract names its result.
#[verifier::external_body]
fn duration_from_millis(millis: u64) -> (d: Duration)
    ensures
        d == duration_of_millis(millis),
{
    Duration::from_millis(millis)
}

/// The milliseconds between two events of one kind.
pub open spec fn event_period_millis(event_type: DataEventType) -> u64 {
    match event_type {
        DataEventType::GenerateGPS => 1000,
        DataEventType::GenerateIMU => 100,
        DataEventType::GenerateDeviceShadow => 1000,
        DataEventType::GeneratePeripheralState => 1000,
        DataEventType::GenerateMotor => 250,
        DataEventType::GenerateBMS => 250,
    }
}

/// Computes [`event_period_millis`].
pub fn event_period(event_type: DataEventType) -> (millis: u64)
    ensures
        millis == event_period_millis(event_type),
{
    match event_type {
        DataEventType::GenerateGPS => 1000,
        DataEventType::GenerateIMU => 100,
        DataEventType::GenerateDeviceShadow => 1000,
        DataEventType::GeneratePeripheralState => 1000,
        DataEventType::GenerateMotor => 250,
        DataEventType::GenerateBMS => 250,
    }
}

/// The time to wait before the next event of the kind `event_type`.
pub fn next_event_duration(event_type: DataEventType) -> (d: Duration)
    ensures
        d == duration_of_millis(event_period_millis(event_type)),
{
    duration_from_millis(event_period(event_type))
}

/// What the schedule knows of a simulated device: its number, which of
/// the paths it drives along and how long that path is, where on the path
/// it starts, and the milliseconds by which its events are shifted.
#[derive(Debug, Clone, Copy, PartialEq, Eq, Structural)]
pub struct DeviceData {
    pub device_id: u32,
    pub path: usize,
    pub path_len: u32,
    pub path_offset: u32,
    pub time_offset: u64,
}

/// The number of paths that the devices choose from.
pub const PATHS: usize = 10;

/// The largest shift of a device's events, in milliseconds, is below this.
pub const MAX_TIME_OFFSET: u64 = 10000;

/// Calls `rand::Rng::gen_range` on the generator of the thread, for the
/// integers from `low` up to, and not including, `high`. Which of them
/// comes back is a matter of chance: the contract claims only that it is
/// one of them, as the documentation of `gen_range` says. It leaves out
/// the empty range, on which `gen_range` panics. The generator is seeded
/// by the operating system when a thread first uses it; nothing is
/// claimed for a system that cannot do so.
#[verifier::external_body]
fn random_in(low: i64, high: i64) -> (r: i64)
    requires
        low < high,
    ensures
        low <= r < high,
{
    rand::Rng::gen_range(&mut rand::thread_rng(), low..high)
}

/// A random integer from `start` up to, and not including, `end`.
pub fn generate_int(start: i32, end: i32) -> (r: i64)
    requires
        start < end,
    ensures
        start <= r < end,
{
    random_in(start as i64, end as i64)
}

/// Why a device cannot drive along the path it drew.
#[derive(Debug, Clone, Copy, PartialEq, Eq, Structural)]
pub enum PathError {
    /// There is no path of that number.
    Missing(usize),
    /// The path of that number has no position.
    Empty(usize),
}

/// The length of the path numbered `path`, if there is such a path and it
/// has a position to start from.
pub open spec fn path_length(path_lens: Seq<u32>, path: usize) -> Result<u32, PathError> {
    if path >= path_lens.len() {
        Err(PathError::Missing(path))
    } else if path_lens[path as int] == 0 {
        Err(PathError::Empty(path))
    } else {
        Ok(path_lens[path as int])
    }
}

/// Computes [`path_length`].
pub fn usable_path(path_lens: &Vec<u32>, path: usize) -> (len: Result<u32, PathError>)
    ensures
        len == path_length(path_lens@, path),
{
    if path >= path_lens.len() {
        Err(PathError::Missing(path))
    } else if path_lens[path] == 0 {
        Err(PathError::Empty(path))
    } else {
        Ok(path_lens[path])
    }
}

/// A device numbered `device_id` that drives along one of the first
/// [`PATHS`] paths, whose lengths are `path_lens`. The path, the position
/// on it where the device starts and the shift of its events are drawn at
/// random: the path among those ten, the position on the path, the shift
/// below [`MAX_TIME_OFFSET`]. If the path drawn is missing or empty the
/// device cannot be placed, and the error names that path.
pub fn new_device_data(device_id: u32, path_lens: &Vec<u32>) -> (device: Result<DeviceData, PathError>)
    ensures
        match device {
            Ok(d) => {
                &&& d.device_id == device_id
                &&& d.path < PATHS
                &&& path_length(path_lens@, d.path) == Ok::<u32, PathError>(d.path_len)
                &&& d.path_offset < d.path_len
                &&& d.time_offset < MAX_TIME_OFFSET
            },
            Err(PathError::Missing(path)) => path < PATHS && path_length(path_lens@, path) == Err::<
                u32,
                PathError,
            >(PathError::Missing(path)),
            Err(PathError::Empty(path)) => path < PATHS && path_length(path_lens@, path) == Err::<
                u32,
                PathError,
            >(PathError::Empty(path)),
        },
{
    let path = random_in(0, 10) as usize;
    match usable_path(path_lens, path) {
        Ok(path_len) => {
            let path_offset = random_in(0, path_len as i64) as u32;
            let time_offset = random_in(0, 10000) as u64;
            Ok(DeviceData { device_id, path, path_len, path_offset, time_offset })
        },
        Err(e) => Err(e),
    }
}

/// The name of the stream on which a device numbered `device_id` sends
/// data of the kind `event_type`.
pub open spec fn event_stream_name(event_type: DataEventType, device_id: nat) -> Seq<char> {
    match event_type {
        DataEventType::GenerateGPS => "gps"@,
        DataEventType::GenerateIMU => "imu"@,
        DataEventType::GenerateDeviceShadow => "device_shadow"@,
        DataEventType::GeneratePeripheralState => "peripheral_state"@,
        DataEventType::GenerateMotor => "motro"@,
        DataEventType::GenerateBMS => "/tenants/demo/devices/"@ + crate::text::decimal(device_id)
            + "/events/bms/jsonarray"@,
    }
}

/// Computes [`event_stream_name`].
pub fn event_stream(event_type: DataEventType, device_id: u32) -> (name: String)
    ensures
        name@ == event_stream_name(event_type, device_id as nat),
{
    match event_type {
        DataEventType::GenerateGPS => String::from_str("gps"),
        DataEventType::GenerateIMU => String::from_str("imu"),
        DataEventType::GenerateDeviceShadow => String::from_str("device_shadow"),
        DataEventType::GeneratePeripheralState => String::from_str("peripheral_state"),
        DataEventType::GenerateMotor => String::from_str("motro"),
        DataEventType::GenerateBMS => device_topic(device_id as u64, "/events/bms/jsonarray"),
    }
}

/// The number of answers that the simulator gives to one action.
pub const ANSWERS: u8 = 100;

/// The simulator's `step`-th answer to the action `action_id`: progress
/// in percent as long as `step` is below [`ANSWERS`], success from then
/// on.
pub open spec fn answer(action_id: Seq<char>, step: u8, timestamp: u64) -> ActionResponseView {
    if step < ANSWERS {
        ActionResponseView::progress(action_id, "in_progress"@, step, timestamp)
    } else {
        ActionResponseView::success(action_id, timestamp)
    }
}

/// Computes [`answer`].
pub fn action_answer(action_id: &str, step: u8, timestamp: u64) -> (response: ActionResponse)
    ensures
        response@ == answer(action_id@, step, timestamp),
{
    if step < ANSWERS {
        ActionResponse::progress(action_id, "in_progress", step, timestamp)
    } else {
        ActionResponse::success(action_id, timestamp)
    }
}

/// The position on its path that a device reports with its `sequence`-th
/// GPS point: it moves on by one position per point, and starts over at
/// the end of the path.
pub open spec fn path_position(device: DeviceData, sequence: u32) -> int {
    (device.path_offset + sequence) % (device.path_len as int)
}

/// Computes [`path_position`] for a device whose path is not empty.
pub fn path_index(device: &DeviceData, sequence: u32) -> (index: usize)
    requires
        device.path_len > 0,
    ensures
        index == path_position(*device, sequence),
        index < device.path_len,
{
    let position: u64 = (device.path_offset as u64 + sequence as u64) % (device.path_len as u64);
    position as usize
}

/// The name of the file that holds the `i`-th path: `{dir}/path{i}.json`.
pub open spec fn path_file_name(paths_dir: Seq<char>, i: nat) -> Seq<char> {
    paths_dir + "/path"@ + crate::text::decimal(i) + ".json"@
}

/// Computes [`path_file_name`].
pub fn path_file(paths_dir: &str, i: u64) -> (name: String)
    ensures
        name@ == path_file_name(paths_dir@, i as nat),
{
    let mut name = String::from_str(paths_dir);
    name.append("/path");
    push_decimal(&mut name, i);
    name.append(".json");
    name
}

/// The shortest wait, in milliseconds, that the schedule sleeps for: an
/// event due sooner is generated at once.
pub const MIN_WAIT: u64 = 50;

/// How long to sleep at `now` before an event due at `due` is generated:
/// the time left, if it exceeds [`MIN_WAIT`].
pub fn time_to_wait(due: u64, now: u64) -> (wait: Option<u64>)
    ensures
        wait == if due - now > MIN_WAIT {
            Some((due - now) as u64)
        } else {
            None
        },
{
    if due > now && due - now > MIN_WAIT {
        Some(due - now)
    } else {
        None
    }
}

/// Data of one kind, due from one device at `timestamp` (milliseconds on
/// the clock of the simulation), as the device's `sequence`-th of that
/// kind.
#[derive(Debug, Clone, Copy, PartialEq, Eq, Structural)]
pub struct DataEvent {
    pub timestamp: u64,
    pub event_type: DataEventType,
    pub device: DeviceData,
    pub sequence: u32,
}

/// The kinds of data in the order in which a device's first events are
/// scheduled.
pub open spec fn initial_kinds() -> Seq<DataEventType> {
    seq![
        DataEventType::GenerateGPS,
        DataEventType::GenerateDeviceShadow,
        DataEventType::GeneratePeripheralState,
        DataEventType::GenerateMotor,
        DataEventType::GenerateBMS,
        DataEventType::GenerateIMU,
    ]
}

/// The sum of two moments or spans, or the largest value if the sum
/// cannot be written in 64 bits.
pub open spec fn later(a: u64, b: u64) -> u64 {
    if a + b <= u64::MAX {
        (a + b) as u64
    } else {
        u64::MAX
    }
}

/// The first events of a device when the simulation starts at
/// `timestamp`: one of each kind, all due once the device's shift has
/// passed, each the first of its kind.
pub open spec fn initial_events(timestamp: u64, device: DeviceData) -> Seq<DataEvent> {
    initial_kinds().map_values(
        |event_type: DataEventType|
            DataEvent { timestamp: later(timestamp, device.time_offset), event_type, device, sequence: 1 },
    )
}

/// The event that follows `event`: the same kind from the same device,
/// one period later, with the next sequence number. The sequence number
/// stops at the largest value of its type.
pub open spec fn following(event: DataEvent) -> DataEvent {
    DataEvent {
        timestamp: later(event.timestamp, event_period_millis(event.event_type)),
        sequence: if event.sequence < u32::MAX {
            (event.sequence + 1) as u32
        } else {
            event.sequence
        },
        ..event
    }
}

/// Computes [`following`].
pub fn next_data_event(event: &DataEvent) -> (next: DataEvent)
    ensures
        next == following(*event),
{
    DataEvent {
        timestamp: event.timestamp.saturating_add(event_period(event.event_type)),
        event_type: event.event_type,
        device: event.device,
        sequence: if event.sequence < u32::MAX {
            event.sequence + 1
        } else {
            event.sequence
        },
    }
}

/// Whether position `i` of `events` holds the event that is due first:
/// none is due earlier, and none before it is due as early.
pub open spec fn is_earliest(events: Seq<DataEvent>, i: int) -> bool {
    &&& 0 <= i < events.len()
    &&& forall|j: int| 0 <= j < events.len() ==> events[i].timestamp <= (#[trigger] events[j]).timestamp
    &&& forall|j: int| 0 <= j < i ==> (#[trigger] events[j]).timestamp > events[i].timestamp
}

/// The events that wait to be generated. The one that is due first leaves
/// first; among events due at the same time, the one scheduled first.
#[derive(Debug)]
pub struct EventQueue {
    events: Vec<DataEvent>,
}

impl View for EventQueue {
    type V = Seq<DataEvent>;

    closed spec fn view(&self) -> Seq<DataEvent> {
        self.events@
    }
}

impl EventQueue {
    /// A queue without events.
    pub fn new() -> (q: EventQueue)
        ensures
            q@ == Seq::<DataEvent>::empty(),
    {
        EventQueue { events: Vec::new() }
    }

    /// The number of events that wait.
    pub fn len(&self) -> (n: usize)
        ensures
            n == self@.len(),
    {
        self.events.len()
    }

    /// Schedules `event`.
    pub fn push(&mut self, event: DataEvent)
        ensures
            final(self)@ == old(self)@.push(event),
    {
        self.events.push(event);
    }

    /// The moment at which the next event is due, if any waits.
    pub fn peek_timestamp(&self) -> (t: Option<u64>)
        ensures
            match t {
                Some(t) => exists|i: int| is_earliest(self@, i) && t == self@[i].timestamp,
                None => self@.len() == 0,
            },
    {
        if self.events.len() == 0 {
            None
        } else {
            let i = self.earliest();
            Some(self.events[i].timestamp)
        }
    }

    fn earliest(&self) -> (i: usize)
        requires
            self@.len() > 0,
        ensures
            is_earliest(self@, i as int),
    {
        let mut best: usize = 0;
        let mut i: usize = 1;
        while i < self.events.len()
            invariant
                1 <= i <= self.events.len(),
                best < i,
                forall|j: int| 0 <= j < i ==> self@[best as int].timestamp <= (#[trigger] self@[j]).timestamp,
                forall|j: int| 0 <= j < best ==> (#[trigger] self@[j]).timestamp > self@[best as int].timestamp,
            decreases self.events.len() - i,
        {
            if self.events[i].timestamp < self.events[best].timestamp {
                best = i;
            }
            i += 1;
        }
        best
    }

    /// Takes out the event that is due first, if any waits.
    pub fn pop(&mut self) -> (event: Option<DataEvent>)
        ensures
            match event {
                Some(e) => exists|i: int|
                    #[trigger] is_earliest(old(self)@, i) && e == old(self)@[i] && final(self)@ == old(
                        self,
                    )@.remove(i),
                None => old(self)@.len() == 0 && final(self)@ == old(self)@,
            },
    {
        if self.events.len() == 0 {
            None
        } else {
            let i = self.earliest();
            Some(self.events.remove(i))
        }
    }
}

/// Schedules the first events of `device` for a simulation that starts at
/// `timestamp`; see [`initial_events`].
pub fn generate_initial_events(events: &mut EventQueue, timestamp: u64, device: &DeviceData)
    ensures
        final(events)@ == old(events)@ + initial_events(timestamp, *device),
{
    let due = timestamp.saturating_add(device.time_offset);
    let device = *device;
    events.push(DataEvent { timestamp: due, event_type: DataEventType::GenerateGPS, device, sequence: 1 });
    events.push(
        DataEvent { timestamp: due, event_type: DataEventType::GenerateDeviceShadow, device, sequence: 1 },
    );
    events.push(
        DataEvent { timestamp: due, event_type: DataEventType::GeneratePeripheralState, device, sequence: 1 },
    );
    events.push(DataEvent { timestamp: due, event_type: DataEventType::GenerateMotor, device, sequence: 1 });
    events.push(DataEvent { timestamp: due, event_type: DataEventType::GenerateBMS, device, sequence: 1 });
    events.push(DataEvent { timestamp: due, event_type: DataEventType::GenerateIMU, device, sequence: 1 });
    assert(events@ =~= old(events)@ + initial_events(timestamp, device));
}

/// The number of streams that each simulated device has.
pub const STREAMS_PER_DEVICE: usize = 7;

/// What stands behind the device number in the topic of a device's
/// `k`-th stream.
pub open spec fn stream_suffix(k: int) -> Seq<char> {
    if k == 0 {
        "/events/gps/jsonarray"@
    } else if k == 1 {
        "/events/peripheral_state/jsonarray"@
    } else if k == 2 {
        "/events/device_shadow/jsonarray"@
    } else if k == 3 {
        "/events/motor/jsonarray"@
    } else if k == 4 {
        "/events/bms/jsonarray"@
    } else if k == 5 {
        "/events/imu/jsonarray"@
    } else {
        "/action/status"@
    }
}

/// The batch size of a device's `k`-th stream.
pub open spec fn stream_size(k: int) -> usize {
    if k == 3 || k == 4 {
        4
    } else if k == 5 {
        10
    } else {
        1
    }
}

/// The topic and batch size of the `k`-th stream of the device numbered
/// `device`.
pub open spec fn device_stream(device: nat, k: int) -> (Seq<char>, usize) {
    ("/tenants/demo/devices/"@ + crate::text::decimal(device) + stream_suffix(k), stream_size(k))
}

/// The topic and batch size of each entry, in order.
pub open spec fn stream_views(streams: Seq<(String, usize)>) -> Seq<(Seq<char>, usize)> {
    streams.map_values(|e: (String, usize)| (e.0@, e.1))
}

fn device_topic(device: u64, suffix: &str) -> (s: String)
    ensures
        s@ == "/tenants/demo/devices/"@ + crate::text::decimal(device as nat) + suffix@,
{
    let mut s = String::from_str("/tenants/demo/devices/");
    push_decimal(&mut s, device);
    s.append(suffix);
    s
}

/// The streams of the devices numbered 1 to `num_devices`, device by
/// device, seven each: topic and batch size.
pub fn create_streams(num_devices: u32) -> (streams: Vec<(String, usize)>)
    ensures
        streams@.len() == STREAMS_PER_DEVICE * num_devices,
        forall|d: int, k: int|
            0 <= d < num_devices && 0 <= k < STREAMS_PER_DEVICE ==> #[trigger] stream_views(
                streams@,
            )[d * 7 + k] == device_stream((d + 1) as nat, k),
{
    let mut streams: Vec<(String, usize)> = Vec::new();
    let mut device: u64 = 0;
    while device < num_devices as u64
        invariant
            device <= num_devices,
            streams@.len() == 7 * device,
            forall|d: int, k: int|
                0 <= d < device && 0 <= k < 7 ==> #[trigger] stream_views(streams@)[d * 7 + k]
                    == device_stream((d + 1) as nat, k),
        decreases num_devices - device,
    {
        let ghost before = stream_views(streams@);
        let number = device + 1;
        streams.push((device_topic(number, "/events/gps/jsonarray"), 1));
        streams.push((device_topic(number, "/events/peripheral_state/jsonarray"), 1));
        streams.push((device_topic(number, "/events/device_shadow/jsonarray"), 1));
        streams.push((device_topic(number, "/events/motor/jsonarray"), 4));
        streams.push((device_topic(number, "/events/bms/jsonarray"), 4));
        streams.push((device_topic(number, "/events/imu/jsonarray"), 10));
        streams.push((device_topic(number, "/action/status"), 1));
        proof {
            let after = stream_views(streams@);
            assert forall|d: int, k: int| 0 <= d < device + 1 && 0 <= k < 7 implies #[trigger] after[d * 7 + k]
                == device_stream((d + 1) as nat, k) by {
                if d < device {
                    assert(after[d * 7 + k] == before[d * 7 + k]);
                }
            }
        }
        device += 1;
    }
    streams
}

} // verus!
