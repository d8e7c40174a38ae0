use orientation_telemetry::logger::MAX_LOG_LEVEL;
use orientation_telemetry::logger::RttTargetLogger;

#[test]
fn level_gate_passes_levels_within_the_static_maximum() {
    let logger = RttTargetLogger;
    assert_eq!(MAX_LOG_LEVEL, 5);
    for level in 1..=5u8 {
        assert!(logger.enabled(level));
    }
    assert!(!logger.enabled(6));
    assert!(!logger.enabled(255));
}
