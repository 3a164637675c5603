use wayle_config::cava::{
    BarCount, Framerate, FrequencyHz, BAR_COUNT_MAX, BAR_COUNT_MIN, FRAMERATE_MAX, FRAMERATE_MIN,
    FREQUENCY_MIN,
};

#[test]
fn bar_count_clamps_below_min() {
    assert_eq!(BarCount::new(0).value(), BAR_COUNT_MIN);
}

#[test]
fn bar_count_clamps_above_max() {
    assert_eq!(BarCount::new(BAR_COUNT_MAX + 1).value(), BAR_COUNT_MAX);
}

#[test]
fn bar_count_preserves_valid() {
    assert_eq!(BarCount::new(128).value(), 128);
}

#[test]
fn framerate_clamps_below_min() {
    assert_eq!(Framerate::new(0).value(), FRAMERATE_MIN);
}

#[test]
fn framerate_clamps_above_max() {
    assert_eq!(Framerate::new(FRAMERATE_MAX + 1).value(), FRAMERATE_MAX);
}

#[test]
fn framerate_preserves_valid() {
    assert_eq!(Framerate::new(144).value(), 144);
}

#[test]
fn frequency_clamps_zero_to_min() {
    assert_eq!(FrequencyHz::new(0).value(), FREQUENCY_MIN);
}

#[test]
fn frequency_preserves_valid() {
    assert_eq!(FrequencyHz::new(50).value(), 50);
    assert_eq!(FrequencyHz::new(20000).value(), 20000);
}

#[test]
fn clamp_bounds_are_kept() {
    assert_eq!(BarCount::new(1).value(), 1);
    assert_eq!(BarCount::new(256).value(), 256);
    assert_eq!(BarCount::new(u16::MAX).value(), 256);
    assert_eq!(Framerate::new(360).value(), 360);
    assert_eq!(Framerate::new(u32::MAX).value(), 360);
    assert_eq!(FrequencyHz::new(u32::MAX).value(), u32::MAX);
}

#[test]
fn defaults_and_conversions() {
    assert_eq!(BarCount::default().value(), 20);
    assert_eq!(BarCount::from(0u16).value(), 1);
    assert_eq!(Framerate::from(1000u32).value(), 360);
    assert_eq!(Framerate::default().value(), 60);
    assert_eq!(FrequencyHz::from(0u32).value(), 1);
}
