use backpressure::config::{
    Config, BIND_ADDRESS, WORKERS, DEFAULT_CAPACITY, DEFAULT_POLL_MILLIS, HANDOFF_CAPACITY, MAX_CAPACITY, MAX_POLL_MILLIS,
};

#[test]
fn defaults() {
    let config = Config::default();
    assert_eq!(config.capacity(), 5);
    assert_eq!(config.poll_millis(), 1_000);
    assert_eq!(DEFAULT_CAPACITY, 5);
    assert_eq!(DEFAULT_POLL_MILLIS, 1_000);
    assert_eq!(HANDOFF_CAPACITY, 1);
    assert_eq!(WORKERS, 1);
    assert_eq!(BIND_ADDRESS, "127.0.0.1:8080");
}

#[test]
fn new_keeps_values_within_limits() {
    let config = Config::new(7, 250).unwrap();
    assert_eq!(config.capacity(), 7);
    assert_eq!(config.poll_millis(), 250);
    assert!(Config::new(1, 0).is_some());
    assert!(Config::new(MAX_CAPACITY, MAX_POLL_MILLIS).is_some());
}

#[test]
fn new_refuses_values_outside_limits() {
    assert!(Config::new(0, 1_000).is_none());
    assert!(Config::new(MAX_CAPACITY + 1, 1_000).is_none());
    assert!(Config::new(5, MAX_POLL_MILLIS + 1).is_none());
}
