use flume::{bounded, Receiver};

use uplink::bridge::{Config, StreamConfig};
use uplink::channel::TrySendError;
use uplink::metrics::StreamMetrics;
use uplink::payload::Payload;
use uplink::streams::{Streams, MAX_DYNAMIC_STREAMS};

fn data(stream: &str, sequence: u32, timestamp: u64) -> Payload {
    Payload { stream: stream.to_string(), sequence, timestamp, payload: serde_json::Value::Null }
}

fn config_with(streams: &[(&str, usize, u64)]) -> Config {
    let mut config = Config::default();
    config.project_id = "demo".to_string();
    config.device_id = "7".to_string();
    for (name, buf_size, flush_period) in streams {
        let stream = StreamConfig {
            topic: format!("/configured/{}", name),
            buf_size: *buf_size,
            flush_period: *flush_period,
        };
        config.streams.insert(name, stream);
    }
    config
}

fn registry(streams: &[(&str, usize, u64)], capacity: usize) -> (Streams, Receiver<StreamMetrics>) {
    let (metrics_tx, metrics_rx) = bounded(capacity);
    (Streams::new(&config_with(streams), metrics_tx), metrics_rx)
}

#[test]
fn configured_streams_exist_from_the_start() {
    let (streams, _rx) = registry(&[("gps", 2, 5), ("imu", 10, 1)], 10);
    assert_eq!(streams.len(), 2);
    let gps = streams.get("gps").unwrap();
    assert_eq!(gps.max_buffer_size(), 2);
    assert_eq!(gps.flush_period(), 5);
    assert!(gps.is_empty());
    assert_eq!(streams.get("imu").unwrap().max_buffer_size(), 10);
    assert!(streams.get("bms").is_none());
    assert!(!streams.has_pending_timeouts());
}

#[test]
fn forward_fills_and_flushes_configured_stream() {
    let (mut streams, _rx) = registry(&[("gps", 2, 5)], 10);
    assert!(streams.forward(data("gps", 1, 10), 1_000).is_none());
    assert_eq!(streams.get("gps").unwrap().len(), 1);
    // the first point arms the flush timer
    assert_eq!(streams.next_timeout_deadline(), Some(6_000));
    let package = streams.forward(data("gps", 2, 20), 2_000).unwrap();
    assert_eq!(package.topic, "/configured/gps");
    assert_eq!(package.stream, "gps");
    assert_eq!(package.points.len(), 2);
    assert_eq!(package.points[0].sequence, 1);
    assert_eq!(package.points[1].sequence, 2);
    // the flush disarms it
    assert!(!streams.has_pending_timeouts());
    assert!(streams.get("gps").unwrap().is_empty());
}

#[test]
fn unknown_stream_is_created_on_first_point() {
    let (mut streams, _rx) = registry(&[("gps", 2, 5)], 10);
    assert!(streams.forward(data("can", 1, 10), 1_000).is_none());
    assert_eq!(streams.len(), 2);
    let can = streams.get("can").unwrap();
    assert_eq!(can.max_buffer_size(), 100);
    assert_eq!(can.flush_period(), 60);
    assert_eq!(can.len(), 1);
    assert_eq!(streams.next_timeout_deadline(), Some(61_000));
    assert_eq!(streams.flush_stream("can").unwrap().topic, "/tenants/demo/devices/7/events/can/jsonarray");
}

#[test]
fn dynamic_streams_are_capped() {
    let (mut streams, _rx) = registry(&[("gps", 2, 5)], 10);
    assert_eq!(MAX_DYNAMIC_STREAMS, 20);
    for i in 0..20 {
        assert!(streams.forward(data(&format!("dynamic_{}", i), 1, 0), 0).is_none());
    }
    assert_eq!(streams.len(), 21);
    // the 21st unknown name is dropped and nothing else changes
    assert!(streams.forward(data("one_too_many", 1, 0), 0).is_none());
    assert_eq!(streams.len(), 21);
    assert!(streams.get("one_too_many").is_none());
    for i in 0..20 {
        assert_eq!(streams.get(&format!("dynamic_{}", i)).unwrap().len(), 1);
    }
    assert!(streams.get("gps").unwrap().is_empty());
    // known names are still served
    assert!(streams.forward(data("dynamic_3", 2, 0), 0).is_none());
    assert_eq!(streams.get("dynamic_3").unwrap().len(), 2);
    assert!(streams.forward(data("gps", 1, 0), 0).is_none());
    assert_eq!(streams.get("gps").unwrap().len(), 1);
}

#[test]
fn stream_of_one_point_never_uses_timers() {
    let (mut streams, _rx) = registry(&[("status", 1, 5)], 10);
    let package = streams.forward(data("status", 1, 0), 0).unwrap();
    assert_eq!(package.points.len(), 1);
    assert!(!streams.has_pending_timeouts());
    let package = streams.forward(data("status", 2, 0), 0).unwrap();
    assert_eq!(package.points[0].sequence, 2);
    assert!(!streams.has_pending_timeouts());
}

#[test]
fn timer_expiry_flushes_only_that_stream() {
    let (mut streams, _rx) = registry(&[("gps", 5, 5), ("imu", 5, 1)], 10);
    assert!(streams.forward(data("gps", 1, 0), 1_000).is_none());
    assert!(streams.forward(data("imu", 1, 0), 1_500).is_none());
    assert!(streams.forward(data("imu", 2, 0), 1_600).is_none());
    assert_eq!(streams.next_timeout_deadline(), Some(2_500));
    assert_eq!(streams.next_timeout(2_499), None);
    let name = streams.next_timeout(2_500).unwrap();
    assert_eq!(name, "imu");
    let package = streams.flush_stream(&name).unwrap();
    assert_eq!(package.stream, "imu");
    assert_eq!(package.points.len(), 2);
    assert!(streams.get("imu").unwrap().is_empty());
    assert_eq!(streams.get("gps").unwrap().len(), 1);
    assert_eq!(streams.next_timeout_deadline(), Some(6_000));
    // the next point of the flushed stream arms its timer again
    assert!(streams.forward(data("imu", 3, 0), 3_000).is_none());
    assert_eq!(streams.next_timeout_deadline(), Some(4_000));
}

#[test]
fn flush_stream_ignores_unknown_and_empty_streams() {
    let (mut streams, _rx) = registry(&[("gps", 5, 5)], 10);
    assert!(streams.flush_stream("nothing").is_none());
    assert!(streams.flush_stream("gps").is_none());
    assert_eq!(streams.len(), 1);
}

#[test]
fn metrics_are_sent_only_for_streams_with_traffic() {
    let (mut streams, rx) = registry(&[("gps", 5, 5), ("imu", 5, 5), ("bms", 5, 5)], 10);
    assert!(streams.check_and_flush_metrics().is_ok());
    assert!(rx.try_recv().is_err());

    let _ = streams.forward(data("imu", 1, 100), 130);
    let _ = streams.forward(data("imu", 2, 100), 110);
    assert!(streams.check_and_flush_metrics().is_ok());
    let metrics = rx.try_recv().unwrap();
    assert_eq!(metrics.stream(), "imu");
    assert_eq!(metrics.point_count(), 2);
    assert_eq!(metrics.min_latency(), 10);
    assert_eq!(metrics.max_latency(), 30);
    assert!(rx.try_recv().is_err());
    // reset after the report
    assert_eq!(streams.get("imu").unwrap().metrics().point_count(), 0);
    assert_eq!(streams.get("imu").unwrap().len(), 2);

    // nothing new: the next tick sends nothing
    assert!(streams.check_and_flush_metrics().is_ok());
    assert!(rx.try_recv().is_err());
}

#[test]
fn full_metrics_channel_ends_the_pass() {
    let (mut streams, rx) = registry(&[("gps", 5, 5), ("imu", 5, 5), ("bms", 5, 5)], 1);
    let _ = streams.forward(data("gps", 1, 0), 0);
    let _ = streams.forward(data("imu", 1, 0), 0);
    let _ = streams.forward(data("bms", 1, 0), 0);
    match streams.check_and_flush_metrics() {
        Err(TrySendError::Full(metrics)) => {
            assert_eq!(metrics.stream(), "imu");
            assert_eq!(metrics.point_count(), 1);
        }
        _ => panic!("the channel holds one report"),
    }
    assert_eq!(rx.try_recv().unwrap().stream(), "gps");
    assert_eq!(streams.get("gps").unwrap().metrics().point_count(), 0);
    assert_eq!(streams.get("imu").unwrap().metrics().point_count(), 1);
    assert_eq!(streams.get("bms").unwrap().metrics().point_count(), 1);

    // the next pass goes on with what was kept
    match streams.check_and_flush_metrics() {
        Err(error) => assert_eq!(error.into_inner().stream(), "bms"),
        Ok(()) => panic!("the channel holds one report"),
    }
    assert_eq!(rx.try_recv().unwrap().stream(), "imu");
}

#[test]
fn closed_metrics_channel_is_reported() {
    let (mut streams, rx) = registry(&[("gps", 5, 5)], 1);
    drop(rx);
    assert!(streams.check_and_flush_metrics().is_ok());
    let _ = streams.forward(data("gps", 1, 0), 0);
    assert!(matches!(streams.check_and_flush_metrics(), Err(TrySendError::Disconnected(_))));
    assert_eq!(streams.get("gps").unwrap().metrics().point_count(), 1);
}

#[test]
fn metrics_pass_with_room_reports_every_due_stream_once() {
    let (mut streams, rx) = registry(&[("gps", 5, 5), ("imu", 5, 5), ("bms", 5, 5), ("can", 5, 5)], 10);
    let _ = streams.forward(data("gps", 1, 10), 15);
    let _ = streams.forward(data("bms", 1, 10), 40);
    let _ = streams.forward(data("bms", 2, 10), 20);
    assert!(streams.check_and_flush_metrics().is_ok());
    let first = rx.try_recv().unwrap();
    assert_eq!(first.stream(), "gps");
    assert_eq!(first.point_count(), 1);
    assert_eq!(first.max_latency(), 5);
    let second = rx.try_recv().unwrap();
    assert_eq!(second.stream(), "bms");
    assert_eq!(second.point_count(), 2);
    assert_eq!(second.min_latency(), 10);
    assert_eq!(second.max_latency(), 30);
    assert!(rx.try_recv().is_err());
    for name in ["gps", "imu", "bms", "can"] {
        assert_eq!(streams.get(name).unwrap().metrics().point_count(), 0);
    }
    assert_eq!(streams.get("bms").unwrap().len(), 2);
}
