use uplink::delaymap::{deadline, DelayMap};

fn key(name: &str) -> String {
    name.to_string()
}

#[test]
fn empty_map_has_nothing_pending() {
    let mut map: DelayMap<String> = DelayMap::new();
    assert!(!map.has_pending());
    assert_eq!(map.next_deadline(), None);
    assert_eq!(map.next(u64::MAX), None);
}

#[test]
fn timers_fire_in_expiry_order() {
    let mut map = DelayMap::new();
    map.insert(&key("slow"), 1_000, 30);
    map.insert(&key("fast"), 1_000, 10);
    map.insert(&key("medium"), 1_000, 20);
    assert!(map.has_pending());
    assert_eq!(map.next_deadline(), Some(11_000));
    assert_eq!(map.next(10_999), None);
    assert_eq!(map.next(11_000), Some("fast".to_string()));
    assert_eq!(map.next(11_000), None);
    assert_eq!(map.next_deadline(), Some(21_000));
    assert_eq!(map.next(100_000), Some("medium".to_string()));
    assert_eq!(map.next(100_000), Some("slow".to_string()));
    assert_eq!(map.next(100_000), None);
    assert!(!map.has_pending());
}

#[test]
fn equal_deadlines_fire_in_insertion_order() {
    let mut map = DelayMap::new();
    map.insert(&key("b"), 0, 5);
    map.insert(&key("a"), 0, 5);
    map.insert(&key("c"), 0, 5);
    assert_eq!(map.next(5_000), Some("b".to_string()));
    assert_eq!(map.next(5_000), Some("a".to_string()));
    assert_eq!(map.next(5_000), Some("c".to_string()));
}

#[test]
fn insert_replaces_the_timer_of_a_key() {
    let mut map = DelayMap::new();
    map.insert(&key("a"), 0, 5);
    map.insert(&key("b"), 0, 7);
    map.insert(&key("a"), 0, 9);
    assert_eq!(map.next_deadline(), Some(7_000));
    assert_eq!(map.next(6_000), None);
    assert_eq!(map.next(8_000), Some("b".to_string()));
    assert_eq!(map.next(8_000), None);
    assert_eq!(map.next(9_000), Some("a".to_string()));
    assert!(!map.has_pending());
}

#[test]
fn reinserted_key_counts_as_the_latest_insertion() {
    let mut map = DelayMap::new();
    map.insert(&key("a"), 0, 5);
    map.insert(&key("b"), 0, 5);
    map.insert(&key("a"), 0, 5);
    assert_eq!(map.next(5_000), Some("b".to_string()));
    assert_eq!(map.next(5_000), Some("a".to_string()));
    assert_eq!(map.next(5_000), None);
}

#[test]
fn remove_disarms_and_ignores_absent_keys() {
    let mut map = DelayMap::new();
    map.insert(&key("a"), 0, 5);
    map.insert(&key("b"), 0, 6);
    map.remove(&key("missing"));
    assert_eq!(map.next_deadline(), Some(5_000));
    map.remove(&key("a"));
    assert_eq!(map.next_deadline(), Some(6_000));
    map.remove(&key("a"));
    assert_eq!(map.next(10_000), Some("b".to_string()));
    assert!(!map.has_pending());
}

#[test]
fn deadlines_are_in_milliseconds_and_saturate() {
    assert_eq!(deadline(1_500, 10), 11_500);
    assert_eq!(deadline(0, 0), 0);
    assert_eq!(deadline(u64::MAX - 10, 1), u64::MAX);
    assert_eq!(deadline(5, u64::MAX), u64::MAX);
    assert_eq!(deadline(0, u64::MAX / 1000), u64::MAX / 1000 * 1000);
}

#[test]
fn keys_may_be_numbers() {
    let mut map: DelayMap<u64> = DelayMap::new();
    map.insert(&7, 0, 3);
    map.insert(&8, 0, 2);
    map.insert(&7, 500, 1);
    assert_eq!(map.next_deadline(), Some(1_500));
    assert_eq!(map.next(1_499), None);
    assert_eq!(map.next(1_500), Some(7));
    map.remove(&9);
    assert_eq!(map.next(2_000), Some(8));
    assert!(!map.has_pending());
}
