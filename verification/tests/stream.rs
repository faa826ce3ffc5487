use uplink::action::ActionResponse;
use uplink::bridge::StreamConfig;
use uplink::channel::TrySendError;
use uplink::metrics::StreamMetrics;
use uplink::payload::{Payload, Point};
use uplink::stream::{Stream, StreamStatus, DEFAULT_TIMEOUT, MAX_BUFFER_SIZE};

fn point(stream: &str, sequence: u32, timestamp: u64) -> Payload {
    Payload {
        stream: stream.to_string(),
        sequence,
        timestamp,
        payload: serde_json::Value::String(format!("{}-{}", stream, sequence)),
    }
}

#[test]
fn fill_reports_init_partial_flushed() {
    let mut stream: Stream<Payload> = Stream::new("gps", "/topic/gps", 3);
    assert!(stream.is_empty());
    match stream.fill(point("gps", 1, 10), 15) {
        StreamStatus::Init(name, period) => {
            assert_eq!(name, "gps");
            assert_eq!(period, DEFAULT_TIMEOUT);
        }
        _ => panic!("the first point starts a batch"),
    }
    assert_eq!(stream.len(), 1);
    match stream.fill(point("gps", 2, 20), 25) {
        StreamStatus::Partial(len) => assert_eq!(len, 2),
        _ => panic!("the buffer has room"),
    }
    assert_eq!(stream.len(), 2);
    match stream.fill(point("gps", 3, 30), 42) {
        StreamStatus::Flushed(name, package) => {
            assert_eq!(name, "gps");
            assert_eq!(package.topic, "/topic/gps");
            assert_eq!(package.stream, "gps");
            assert_eq!(package.points.len(), 3);
            assert_eq!(package.len(), 3);
            assert!(!package.is_empty());
            assert_eq!(package.points[0].sequence, 1);
            assert_eq!(package.points[1].sequence, 2);
            assert_eq!(package.points[2].sequence, 3);
            assert_eq!(package.points[2].payload, serde_json::Value::String("gps-3".to_string()));
            assert_eq!(package.anomalies(), None);
            assert_eq!(package.latency(), 12);
            assert_eq!(package.topic(), "/topic/gps");
            assert_eq!(package.stream(), "gps");
        }
        _ => panic!("the buffer is full"),
    }
    assert_eq!(stream.len(), 0);
    // the next point starts a new batch
    assert!(matches!(stream.fill(point("gps", 4, 40), 45), StreamStatus::Init(_, _)));
}

#[test]
fn buffer_of_one_flushes_every_point() {
    let mut stream: Stream<Payload> = Stream::new("gps", "/topic/gps", 1);
    for sequence in 1..4 {
        match stream.fill(point("gps", sequence, 10), 10) {
            StreamStatus::Flushed(_, package) => {
                assert_eq!(package.points.len(), 1);
                assert_eq!(package.points[0].sequence, sequence);
            }
            _ => panic!("every fill is a flush"),
        }
        assert!(stream.is_empty());
    }
}

#[test]
fn buffer_of_zero_flushes_every_point() {
    let mut stream: Stream<Payload> = Stream::new("gps", "/topic/gps", 0);
    match stream.fill(point("gps", 1, 10), 10) {
        StreamStatus::Flushed(_, package) => assert_eq!(package.points.len(), 1),
        _ => panic!("every fill is a flush"),
    }
    assert!(stream.is_empty());
}

#[test]
fn flush_hands_out_a_partial_batch() {
    let mut stream: Stream<Payload> = Stream::new("gps", "/topic/gps", 10);
    let _ = stream.fill(point("gps", 1, 10), 10);
    let _ = stream.fill(point("gps", 2, 20), 20);
    let package = stream.flush().unwrap();
    assert_eq!(package.points.len(), 2);
    assert_eq!(package.points[0].sequence, 1);
    assert_eq!(package.points[1].sequence, 2);
    assert!(stream.is_empty());
    assert_eq!(stream.metrics().batch_count(), 1);
}

#[test]
fn flush_of_empty_buffer_is_a_no_op() {
    let mut stream: Stream<Payload> = Stream::new("gps", "/topic/gps", 10);
    assert!(stream.flush().is_none());
    assert!(stream.flush().is_none());
    assert!(stream.is_empty());
    assert_eq!(stream.metrics().batch_count(), 0);
    assert_eq!(stream.metrics().point_count(), 0);
    let _ = stream.fill(point("gps", 1, 10), 10);
    assert!(stream.flush().is_some());
    assert!(stream.flush().is_none());
    assert_eq!(stream.metrics().batch_count(), 1);
}

#[test]
fn metrics_follow_the_points() {
    let mut stream: Stream<Payload> = Stream::new("gps", "/topic/gps", 2);
    assert_eq!(stream.metrics().stream(), "gps");
    let _ = stream.fill(point("gps", 1, 100), 130);
    assert_eq!(stream.metrics().point_count(), 1);
    assert_eq!(stream.metrics().min_latency(), 30);
    assert_eq!(stream.metrics().max_latency(), 30);
    let _ = stream.fill(point("gps", 2, 200), 210);
    assert_eq!(stream.metrics().point_count(), 2);
    assert_eq!(stream.metrics().batch_count(), 1);
    assert_eq!(stream.metrics().min_latency(), 10);
    assert_eq!(stream.metrics().max_latency(), 30);
    // a point stamped ahead of the clock is counted and not measured
    let _ = stream.fill(point("gps", 3, 500), 400);
    assert_eq!(stream.metrics().point_count(), 3);
    assert_eq!(stream.metrics().ignored_count(), 1);
    assert_eq!(stream.metrics().min_latency(), 10);
    assert_eq!(stream.metrics().max_latency(), 30);
    let _ = stream.fill(point("gps", 4, 500), 550);
    assert_eq!(stream.metrics().max_latency(), 50);
    assert_eq!(stream.metrics().batch_count(), 2);

    assert!(stream.metrics_due().is_some());
    stream.prepare_next_metrics();
    assert!(stream.metrics_due().is_none());
    assert_eq!(stream.metrics().stream(), "gps");
    assert_eq!(stream.metrics().point_count(), 0);
    assert_eq!(stream.metrics().batch_count(), 0);
    assert_eq!(stream.metrics().min_latency(), 0);
    assert_eq!(stream.metrics().max_latency(), 0);
    assert_eq!(stream.metrics().ignored_count(), 0);
}

#[test]
fn stream_metrics_count_on_their_own() {
    let mut metrics = StreamMetrics::new("imu");
    metrics.add_point(5, 3);
    assert_eq!(metrics.point_count(), 1);
    assert_eq!(metrics.ignored_count(), 1);
    assert_eq!(metrics.max_latency(), 0);
    metrics.add_point(5, 12);
    assert_eq!(metrics.point_count(), 2);
    assert_eq!(metrics.min_latency(), 7);
    assert_eq!(metrics.max_latency(), 7);
    metrics.add_point(2, 12);
    assert_eq!(metrics.min_latency(), 7);
    assert_eq!(metrics.max_latency(), 10);
    metrics.add_batch();
    assert_eq!(metrics.batch_count(), 1);
    let copy = metrics.clone();
    metrics.prepare_next();
    assert_eq!(metrics.point_count(), 0);
    assert_eq!(copy.point_count(), 3);
    assert_eq!(copy.stream(), "imu");
}

#[test]
fn anomalies_are_counted_per_batch() {
    let mut stream: Stream<Payload> = Stream::new("gps", "/topic/gps", 4);
    let _ = stream.fill(point("gps", 5, 100), 100);
    // the sequence number repeats
    let _ = stream.fill(point("gps", 5, 110), 110);
    // sequence number and timestamp both go back
    let _ = stream.fill(point("gps", 4, 90), 120);
    match stream.fill(point("gps", 6, 130), 130) {
        StreamStatus::Flushed(_, package) => {
            assert_eq!(package.anomaly_count, 3);
            assert_eq!(package.anomalies(), Some(("gps: 3 anomalies".to_string(), 3)));
        }
        _ => panic!("the buffer is full"),
    }
    // the count starts again with the next batch, the last point is remembered
    let _ = stream.fill(point("gps", 6, 140), 140);
    assert_eq!(stream.flush().unwrap().anomaly_count, 1);
}

#[test]
fn package_latency_is_the_largest_of_its_points() {
    let mut stream: Stream<Payload> = Stream::new("gps", "/topic/gps", 3);
    let _ = stream.fill(point("gps", 1, 100), 105);
    let _ = stream.fill(point("gps", 2, 100), 180);
    match stream.fill(point("gps", 3, 200), 190) {
        StreamStatus::Flushed(_, package) => assert_eq!(package.latency, 80),
        _ => panic!("the buffer is full"),
    }
    let _ = stream.fill(point("gps", 4, 300), 301);
    assert_eq!(stream.flush().unwrap().latency, 1);
}

#[test]
fn constructors_set_topic_size_and_period() {
    let config = StreamConfig { topic: "/custom".to_string(), buf_size: 7, flush_period: 12 };
    let mut stream: Stream<Payload> = Stream::with_config("can", &config);
    assert_eq!(stream.name(), "can");
    assert_eq!(stream.max_buffer_size(), 7);
    assert_eq!(stream.flush_period(), 12);
    match stream.fill(point("can", 1, 1), 1) {
        StreamStatus::Init(name, period) => {
            assert_eq!(name, "can");
            assert_eq!(period, 12);
        }
        _ => panic!("the first point starts a batch"),
    }
    assert_eq!(stream.flush().unwrap().topic, "/custom");

    let mut stream: Stream<Payload> = Stream::dynamic("imu", "demo", "42");
    assert_eq!(stream.max_buffer_size(), MAX_BUFFER_SIZE);
    assert_eq!(MAX_BUFFER_SIZE, 100);
    assert_eq!(stream.flush_period(), 60);
    let _ = stream.fill(point("imu", 1, 1), 1);
    assert_eq!(stream.flush().unwrap().topic, "/tenants/demo/devices/42/events/imu/jsonarray");

    let mut stream: Stream<Payload> = Stream::dynamic_with_size("", "", "", 1);
    match stream.fill(point("", 1, 1), 1) {
        StreamStatus::Flushed(name, package) => {
            assert_eq!(name, "");
            assert_eq!(package.topic, "/tenants//devices//events//jsonarray");
        }
        _ => panic!("every fill is a flush"),
    }
}

#[test]
fn buffer_never_exceeds_its_size() {
    let mut stream: Stream<Payload> = Stream::new("gps", "/topic/gps", 5);
    let mut flushed = 0;
    for sequence in 1..=23u32 {
        let before = stream.len();
        let status = stream.fill(point("gps", sequence, 0), 0);
        assert!(stream.len() < 5);
        match status {
            StreamStatus::Flushed(_, package) => {
                assert_eq!(before + 1, 5);
                assert_eq!(package.points.len(), 5);
                flushed += 1;
            }
            _ => assert!(before + 1 < 5),
        }
    }
    assert_eq!(flushed, 4);
    assert_eq!(stream.len(), 3);
}

#[test]
fn points_report_sequence_and_timestamp() {
    let payload = point("gps", 9, 99);
    assert_eq!(payload.sequence(), 9);
    assert_eq!(payload.timestamp(), 99);
    let response = ActionResponse::progress("1", "Running", 10, 77).set_sequence(3);
    assert_eq!(response.sequence(), 3);
    assert_eq!(response.timestamp(), 77);
}

#[test]
fn action_response_constructors() {
    let response = ActionResponse::progress("a", "Running", 10, 77);
    assert_eq!(response.action_id, "a");
    assert_eq!(response.sequence, 0);
    assert_eq!(response.timestamp, 77);
    assert_eq!(response.state, "Running");
    assert_eq!(response.progress, 10);
    assert!(response.errors.is_empty());
    assert!(response.done_response.is_none());
    assert!(!response.is_completed() && !response.is_failed() && !response.is_done());

    let response = ActionResponse::success("a", 78);
    assert_eq!(response.state, "Completed");
    assert_eq!(response.progress, 100);
    assert!(response.is_completed() && !response.is_failed() && !response.is_done());

    let response = ActionResponse::failure("a", "broken".to_string(), 79).add_error("twice".to_string());
    assert_eq!(response.state, "Failed");
    assert_eq!(response.progress, 100);
    assert_eq!(response.errors, ["broken", "twice"]);
    assert!(!response.is_completed() && response.is_failed() && !response.is_done());

    let response = ActionResponse::progress("a", "Downloaded", 100, 80);
    assert!(response.is_done());
    let copy = response.clone();
    assert_eq!(copy.state, "Downloaded");
    assert_eq!(copy.timestamp, 80);
}

#[test]
fn settle_metrics_follows_the_channel() {
    let mut stream: Stream<Payload> = Stream::new("gps", "/topic/gps", 5);
    let _ = stream.fill(point("gps", 1, 100), 130);
    let _ = stream.fill(point("gps", 2, 100), 110);

    // a rejected report comes back and the counters stay
    let snapshot = stream.metrics_due().unwrap();
    match stream.settle_metrics(Err(TrySendError::Full(snapshot))) {
        Err(TrySendError::Full(rejected)) => {
            assert_eq!(rejected.stream(), "gps");
            assert_eq!(rejected.point_count(), 2);
        }
        _ => panic!("the rejection is handed on"),
    }
    assert_eq!(stream.metrics().point_count(), 2);
    assert_eq!(stream.metrics().max_latency(), 30);
    let snapshot = stream.metrics_due().unwrap();
    assert!(matches!(
        stream.settle_metrics(Err(TrySendError::Disconnected(snapshot))),
        Err(TrySendError::Disconnected(_))
    ));
    assert_eq!(stream.metrics().point_count(), 2);

    // an accepted report starts the next period
    assert!(stream.settle_metrics(Ok(())).is_ok());
    assert_eq!(stream.metrics().point_count(), 0);
    assert_eq!(stream.metrics().max_latency(), 0);
    assert_eq!(stream.metrics().min_latency(), 0);
    assert_eq!(stream.metrics().stream(), "gps");
    assert!(stream.metrics_due().is_none());
    // the points that wait are not touched
    assert_eq!(stream.len(), 2);
}
