use crate::severity::spec_classify;
use crate::severity::Severity;
use vstd::prelude::*;

verus! {

/// The terminal colors the monitor uses for metric values.
#[derive(Clone, Copy, Debug, PartialEq, Eq, Structural)]
pub enum UsageColor {
    White,
    Green,
    Yellow,
    Red,
}

/// The color that stands for a severity bucket.
pub open spec fn spec_color_of_severity(s: Severity) -> UsageColor {
    match s {
        Severity::Critical => UsageColor::Red,
        Severity::Warning => UsageColor::Yellow,
        Severity::Normal => UsageColor::Green,
    }
}

/// Color choice for a utilization value: white when colors are off, otherwise
/// red at or above critical, yellow at or above warning, green below both.
pub open spec fn spec_usage_color(
    usage: int,
    warning: int,
    critical: int,
    use_colors: bool,
) -> UsageColor {
    if !use_colors {
        UsageColor::White
    } else {
        spec_color_of_severity(spec_classify(usage, warning, critical))
    }
}

pub fn get_usage_color(usage: u32, warning: u32, critical: u32, use_colors: bool) -> (r:
    UsageColor)
    ensures
        r == spec_usage_color(usage as int, warning as int, critical as int, use_colors),
{
    if !use_colors {
        UsageColor::White
    } else if usage >= critical {
        UsageColor::Red
    } else if usage >= warning {
        UsageColor::Yellow
    } else {
        UsageColor::Green
    }
}

} // verus!
