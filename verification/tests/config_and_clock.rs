//! Configuration defaults and the manual clock.

use asynclog::clock::Clock;
use asynclog::clock::ManualClock;
use asynclog::engine::LogConfig;

#[test]
fn config_defaults_match_the_documented_values() {
    let cfg = LogConfig::new_for_dir("somewhere".to_string());
    assert_eq!(cfg.log_dir, "somewhere");
    assert_eq!(cfg.index_max_items, 10_000_000);
    assert_eq!(cfg.segment_max_bytes, 1_024_000_000);
    assert_eq!(cfg.flush_interval_ms, 1000);
    assert_eq!(cfg.pool_capacity, 30);
    assert_eq!(cfg.pool_buf_initial_bytes, 16_384);
}

#[test]
fn manual_clock_advances_and_saturates() {
    let mut clock = ManualClock::at(5);
    assert_eq!(clock.now_ms(), 5);
    clock.advance(95);
    assert_eq!(clock.now_ms(), 100);
    clock.advance(u64::MAX);
    assert_eq!(clock.now_ms(), u64::MAX);
}
