use system_monitor::severity::classify;
use system_monitor::severity::Severity;

#[test]
fn classify_above_critical_is_critical() {
    assert_eq!(classify(950, 700, 900), Severity::Critical);
}

#[test]
fn classify_boundary_critical_inclusive() {
    assert_eq!(classify(900, 700, 900), Severity::Critical);
}

#[test]
fn classify_boundary_warning_inclusive() {
    assert_eq!(classify(700, 700, 900), Severity::Warning);
}

#[test]
fn classify_below_warning_is_normal() {
    assert_eq!(classify(699, 700, 900), Severity::Normal);
    assert_eq!(classify(0, 700, 900), Severity::Normal);
}

#[test]
fn classify_between_thresholds_is_warning() {
    assert_eq!(classify(800, 700, 900), Severity::Warning);
    assert_eq!(classify(899, 700, 900), Severity::Warning);
}

#[test]
fn classify_raw_value_out_of_display_range() {
    // comparisons use the raw value, even above 100%
    assert_eq!(classify(1500, 700, 900), Severity::Critical);
}

#[test]
fn classify_equal_thresholds() {
    assert_eq!(classify(700, 700, 700), Severity::Critical);
    assert_eq!(classify(699, 700, 700), Severity::Normal);
}
