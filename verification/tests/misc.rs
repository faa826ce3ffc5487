use std::time::Duration;

use uplink::action::Action;
use uplink::bridge::{ActionRoute, CurrentAction, StreamConfig};
use uplink::simulator::{
    action_answer, create_streams, event_period, event_stream, generate_initial_events,
    generate_int, new_device_data, next_data_event, next_event_duration, path_file, path_index,
    time_to_wait, usable_path, DataEvent, DataEventType, DeviceData, EventQueue, PathError,
    ANSWERS, STREAMS_PER_DEVICE,
};
use uplink::table::Table;
use uplink::text::{joined, decimal_string, push_decimal, same_text};

#[test]
fn decimal_numerals() {
    assert_eq!(decimal_string(0), "0");
    assert_eq!(decimal_string(7), "7");
    assert_eq!(decimal_string(10), "10");
    assert_eq!(decimal_string(1234567890), "1234567890");
    assert_eq!(decimal_string(u64::MAX), "18446744073709551615");
    let mut text = "n=".to_string();
    push_decimal(&mut text, 405);
    assert_eq!(text, "n=405");
}

#[test]
fn text_helpers() {
    assert_eq!(joined("ab", "cd"), "abcd");
    assert_eq!(joined("", ""), "");
    assert!(same_text(&"abc".to_string(), "abc"));
    assert!(!same_text(&"abc".to_string(), "abd"));
    assert!(!same_text(&"abc".to_string(), "ab"));
}

#[test]
fn table_keeps_one_value_per_name() {
    let mut table: Table<u32> = Table::new();
    assert_eq!(table.len(), 0);
    assert!(table.get("a").is_none());
    table.insert("a", 1);
    table.insert("b", 2);
    assert_eq!(table.get("a"), Some(&1));
    assert_eq!(table.get("b"), Some(&2));
    assert!(table.contains_key("a"));
    assert!(!table.contains_key("c"));
    table.insert("a", 3);
    assert_eq!(table.len(), 2);
    assert_eq!(table.get("a"), Some(&3));
    assert_eq!(table.key_at(0), "a");
    assert_eq!(table.value_at(0), &3);
    assert_eq!(table.key_at(1), "b");
    assert_eq!(table.value_at(1), &2);
    let empty: Table<String> = Table::default();
    assert_eq!(empty.len(), 0);
}

#[test]
fn simulator_streams_of_two_devices() {
    let streams = create_streams(2);
    assert_eq!(STREAMS_PER_DEVICE, 7);
    let expected = vec![
        ("/tenants/demo/devices/1/events/gps/jsonarray".to_string(), 1),
        ("/tenants/demo/devices/1/events/peripheral_state/jsonarray".to_string(), 1),
        ("/tenants/demo/devices/1/events/device_shadow/jsonarray".to_string(), 1),
        ("/tenants/demo/devices/1/events/motor/jsonarray".to_string(), 4),
        ("/tenants/demo/devices/1/events/bms/jsonarray".to_string(), 4),
        ("/tenants/demo/devices/1/events/imu/jsonarray".to_string(), 10),
        ("/tenants/demo/devices/1/action/status".to_string(), 1),
        ("/tenants/demo/devices/2/events/gps/jsonarray".to_string(), 1),
        ("/tenants/demo/devices/2/events/peripheral_state/jsonarray".to_string(), 1),
        ("/tenants/demo/devices/2/events/device_shadow/jsonarray".to_string(), 1),
        ("/tenants/demo/devices/2/events/motor/jsonarray".to_string(), 4),
        ("/tenants/demo/devices/2/events/bms/jsonarray".to_string(), 4),
        ("/tenants/demo/devices/2/events/imu/jsonarray".to_string(), 10),
        ("/tenants/demo/devices/2/action/status".to_string(), 1),
    ];
    assert_eq!(streams, expected);
}

#[test]
fn simulator_streams_edge_counts() {
    assert!(create_streams(0).is_empty());
    let streams = create_streams(12);
    assert_eq!(streams.len(), 84);
    assert_eq!(streams[83], ("/tenants/demo/devices/12/action/status".to_string(), 1));
    assert_eq!(streams[70], ("/tenants/demo/devices/11/events/gps/jsonarray".to_string(), 1));
}

#[test]
fn simulator_event_periods() {
    assert_eq!(next_event_duration(DataEventType::GenerateGPS), Duration::from_millis(1000));
    assert_eq!(next_event_duration(DataEventType::GenerateIMU), Duration::from_millis(100));
    assert_eq!(next_event_duration(DataEventType::GenerateDeviceShadow), Duration::from_millis(1000));
    assert_eq!(next_event_duration(DataEventType::GeneratePeripheralState), Duration::from_millis(1000));
    assert_eq!(next_event_duration(DataEventType::GenerateMotor), Duration::from_millis(250));
    assert_eq!(next_event_duration(DataEventType::GenerateBMS), Duration::from_millis(250));
}

#[test]
fn current_action_records_identity_and_deadline() {
    let action = Action::new("9", "kind", "name", "payload");
    let current = CurrentAction::new(action, 2_000, 15);
    assert_eq!(current.id, "9");
    assert_eq!(current.action.action_id, "9");
    assert_eq!(current.action.name, "name");
    assert_eq!(current.deadline, 17_000);
}

#[test]
fn actions_are_cloned_and_renamed() {
    let action = Action::new("9", "kind", "name", "payload");
    let copy = action.clone();
    let renamed = action.renamed("other");
    assert_eq!(copy.name, "name");
    assert_eq!(renamed.name, "other");
    assert_eq!(renamed.action_id, "9");
    assert_eq!(renamed.kind, "kind");
    assert_eq!(renamed.payload, "payload");
}

#[test]
fn plain_settings_can_be_copied() {
    let route = ActionRoute { name: "reboot".to_string(), timeout: 10 };
    let copy = route.clone();
    assert_eq!(copy.name, "reboot");
    assert_eq!(copy.timeout, 10);
    let stream = StreamConfig { topic: "t".to_string(), buf_size: 3, flush_period: 4 };
    let copy = stream.clone();
    assert_eq!(copy.topic, "t");
    assert_eq!(copy.buf_size, 3);
    assert_eq!(copy.flush_period, 4);
}

#[test]
fn blacklist_is_matched_by_name() {
    let config = uplink::bridge::StreamMetricsConfig {
        enabled: true,
        topic: "metrics".to_string(),
        blacklist: vec!["gps".to_string(), "imu".to_string()],
        timeout: 10,
    };
    assert!(config.is_blacklisted("gps"));
    assert!(config.is_blacklisted("imu"));
    assert!(!config.is_blacklisted("bms"));
    assert!(!config.is_blacklisted("gp"));
    assert!(!uplink::bridge::StreamMetricsConfig::default().is_blacklisted("gps"));
}

#[test]
fn action_route_from_reference() {
    let route = ActionRoute { name: "reboot".to_string(), timeout: 10 };
    let copy = ActionRoute::from(&route);
    assert_eq!(copy.name, "reboot");
    assert_eq!(copy.timeout, 10);
}

#[test]
fn simulator_schedule_pops_events_in_time_order() {
    let device = DeviceData { device_id: 3, path: 0, path_len: 5, path_offset: 4, time_offset: 250 };
    assert_eq!(path_index(&device, 0), 4);
    assert_eq!(path_index(&device, 1), 0);
    assert_eq!(path_index(&device, 7), 1);
    let far = DeviceData { device_id: 3, path: 0, path_len: 7, path_offset: u32::MAX, time_offset: 0 };
    assert_eq!(path_index(&far, u32::MAX), ((2 * (u32::MAX as u64)) % 7) as usize);

    let mut events = EventQueue::new();
    assert_eq!(events.pop(), None);
    assert_eq!(events.peek_timestamp(), None);
    generate_initial_events(&mut events, 1_000, &device);
    assert_eq!(events.len(), 6);
    assert_eq!(events.peek_timestamp(), Some(1_250));

    // all six are due at once: they leave in the order they were scheduled
    let first = events.pop().unwrap();
    assert_eq!(
        first,
        DataEvent { timestamp: 1_250, event_type: DataEventType::GenerateGPS, device, sequence: 1 }
    );
    let next = next_data_event(&first);
    assert_eq!(
        next,
        DataEvent { timestamp: 2_250, event_type: DataEventType::GenerateGPS, device, sequence: 2 }
    );
    events.push(next);
    let order: Vec<DataEventType> = (0..5).map(|_| events.pop().unwrap().event_type).collect();
    assert_eq!(
        order,
        vec![
            DataEventType::GenerateDeviceShadow,
            DataEventType::GeneratePeripheralState,
            DataEventType::GenerateMotor,
            DataEventType::GenerateBMS,
            DataEventType::GenerateIMU,
        ]
    );
    // the fast kinds come round before the slow ones
    let imu = DataEvent { timestamp: 1_250, event_type: DataEventType::GenerateIMU, device, sequence: 1 };
    events.push(next_data_event(&imu));
    assert_eq!(events.pop().unwrap().timestamp, 1_350);
    assert_eq!(events.pop().unwrap().timestamp, 2_250);
    assert_eq!(events.len(), 0);

    assert_eq!(event_period(DataEventType::GenerateMotor), 250);
    let last = DataEvent {
        timestamp: u64::MAX - 5,
        event_type: DataEventType::GenerateBMS,
        device,
        sequence: u32::MAX,
    };
    let after = next_data_event(&last);
    assert_eq!(after.timestamp, u64::MAX);
    assert_eq!(after.sequence, u32::MAX);
}

#[test]
fn random_integers_stay_in_their_range() {
    let mut seen = [false; 4];
    for _ in 0..400 {
        let value = generate_int(-2, 2);
        assert!((-2..2).contains(&value));
        seen[(value + 2) as usize] = true;
    }
    // four values, four hundred draws: each has come up
    assert_eq!(seen, [true; 4]);
    for _ in 0..50 {
        assert_eq!(generate_int(7, 8), 7);
    }
}

#[test]
fn new_devices_start_on_one_of_the_paths() {
    let path_lens: Vec<u32> = vec![3, 1, 4, 1, 5, 9, 2, 6, 5, 3, 0];
    let mut paths_seen = [false; 10];
    for _ in 0..400 {
        let device = new_device_data(17, &path_lens).unwrap();
        assert_eq!(device.device_id, 17);
        assert!(device.path < 10);
        assert_eq!(device.path_len, path_lens[device.path]);
        assert!(device.path_offset < device.path_len);
        assert!(device.time_offset < 10_000);
        paths_seen[device.path] = true;
    }
    assert!(paths_seen.iter().filter(|seen| **seen).count() > 1);
}

#[test]
fn new_devices_fail_only_on_the_path_they_drew() {
    // every second path is empty, and there are eight only
    let path_lens: Vec<u32> = vec![2, 0, 2, 0, 2, 0, 2, 0];
    let (mut placed, mut empty, mut missing) = (0, 0, 0);
    for _ in 0..600 {
        match new_device_data(1, &path_lens) {
            Ok(device) => {
                assert!(device.path < 8 && device.path % 2 == 0);
                assert_eq!(device.path_len, 2);
                assert!(device.path_offset < 2);
                placed += 1;
            }
            Err(PathError::Empty(path)) => {
                assert!(path < 8 && path % 2 == 1);
                empty += 1;
            }
            Err(PathError::Missing(path)) => {
                assert!(path == 8 || path == 9);
                missing += 1;
            }
        }
    }
    assert!(placed > 0 && empty > 0 && missing > 0);

    assert_eq!(usable_path(&path_lens, 0), Ok(2));
    assert_eq!(usable_path(&path_lens, 1), Err(PathError::Empty(1)));
    assert_eq!(usable_path(&path_lens, 8), Err(PathError::Missing(8)));
    assert_eq!(usable_path(&Vec::new(), 0), Err(PathError::Missing(0)));
}

#[test]
fn simulator_paths_and_waits() {
    assert_eq!(path_file("/etc/paths", 0), "/etc/paths/path0.json");
    assert_eq!(path_file("", 9), "/path9.json");
    assert_eq!(path_file("paths", 10), "paths/path10.json");

    assert_eq!(time_to_wait(1_000, 900), Some(100));
    assert_eq!(time_to_wait(1_000, 949), Some(51));
    assert_eq!(time_to_wait(1_000, 950), None);
    assert_eq!(time_to_wait(1_000, 1_000), None);
    assert_eq!(time_to_wait(1_000, 2_000), None);
    assert_eq!(time_to_wait(u64::MAX, 0), Some(u64::MAX));
}

#[test]
fn simulator_stream_names() {
    assert_eq!(event_stream(DataEventType::GenerateGPS, 4), "gps");
    assert_eq!(event_stream(DataEventType::GenerateIMU, 4), "imu");
    assert_eq!(event_stream(DataEventType::GenerateDeviceShadow, 4), "device_shadow");
    assert_eq!(event_stream(DataEventType::GeneratePeripheralState, 4), "peripheral_state");
    assert_eq!(event_stream(DataEventType::GenerateMotor, 4), "motro");
    assert_eq!(
        event_stream(DataEventType::GenerateBMS, 4),
        "/tenants/demo/devices/4/events/bms/jsonarray"
    );
    assert_eq!(
        event_stream(DataEventType::GenerateBMS, u32::MAX),
        "/tenants/demo/devices/4294967295/events/bms/jsonarray"
    );
}

#[test]
fn simulator_answers_an_action_in_steps() {
    assert_eq!(ANSWERS, 100);
    let first = action_answer("7", 1, 10);
    assert_eq!(first.action_id, "7");
    assert_eq!(first.state, "in_progress");
    assert_eq!(first.progress, 1);
    assert_eq!(first.timestamp, 10);
    assert!(first.errors.is_empty());
    let late = action_answer("7", 99, 20);
    assert_eq!(late.state, "in_progress");
    assert_eq!(late.progress, 99);
    assert!(!late.is_done() && !late.is_completed());
    let last = action_answer("7", 100, 30);
    assert!(last.is_completed());
    assert_eq!(last.progress, 100);
    assert_eq!(last.timestamp, 30);
    assert!(action_answer("7", 255, 40).is_completed());
}

#[test]
fn settings_can_be_cloned() {
    let mut table: Table<String> = Table::new();
    table.insert("a", "x".to_string());
    table.insert("b", "y".to_string());
    let copy = table.clone();
    table.insert("a", "z".to_string());
    assert_eq!(copy.len(), 2);
    assert_eq!(copy.key_at(0), "a");
    assert_eq!(copy.get("a"), Some(&"x".to_string()));
    assert_eq!(copy.get("b"), Some(&"y".to_string()));
    assert_eq!(table.get("a"), Some(&"z".to_string()));

    let mut config = uplink::bridge::Config::default();
    config.project_id = "demo".to_string();
    config.streams.insert("gps", StreamConfig { topic: "t".to_string(), buf_size: 3, flush_period: 4 });
    config.action_redirections.insert("download", "install".to_string());
    config.stream_metrics.blacklist.push("imu".to_string());
    let copy = config.clone();
    assert_eq!(copy.project_id, "demo");
    assert_eq!(copy.streams.get("gps").unwrap().buf_size, 3);
    assert_eq!(copy.action_redirections.get("download"), Some(&"install".to_string()));
    assert!(copy.stream_metrics.is_blacklisted("imu"));

    let mut whole = uplink::config::Config::default();
    whole.bridge = config;
    whole.broker = "localhost".to_string();
    whole.processes.push(ActionRoute { name: "reboot".to_string(), timeout: 10 });
    whole.tcpapps.insert("app", uplink::config::AppConfig { port: 5050, actions: Vec::new() });
    let copy = whole.clone();
    assert_eq!(copy.broker, "localhost");
    assert_eq!(copy.bridge.project_id, "demo");
    assert_eq!(copy.processes[0].name, "reboot");
    assert_eq!(copy.tcpapps.get("app").unwrap().port, 5050);
}
