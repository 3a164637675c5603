use wayle_config::custom::{default_format, default_interval, default_true, RestartDelay, MIN_MS};

#[test]
fn clamps_zero_to_minimum() {
    assert_eq!(RestartDelay::new(0).value(), 1);
}

#[test]
fn preserves_valid_value() {
    assert_eq!(RestartDelay::new(500).value(), 500);
}

#[test]
fn default_is_1000ms() {
    assert_eq!(RestartDelay::default().value(), 1000);
}

#[test]
fn restart_delay_from_clamps() {
    assert_eq!(RestartDelay::from(0u64).value(), MIN_MS);
    assert_eq!(RestartDelay::from(250u64).value(), 250);
    assert_eq!(RestartDelay::new(u64::MAX).value(), u64::MAX);
}

#[test]
fn custom_module_defaults() {
    assert_eq!(default_interval(), 5000);
    assert_eq!(default_format(), "{{ output }}");
    assert!(default_true());
}
