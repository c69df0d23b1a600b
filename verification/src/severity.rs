use vstd::prelude::*;

verus! {

/// Three-way classification of a metric value against a threshold pair.
#[derive(Clone, Copy, Debug, PartialEq, Eq, Structural)]
pub enum Severity {
    Normal,
    Warning,
    Critical,
}

/// Classification rule: critical wins, then warning, else normal;
/// both boundaries are inclusive. Values are in tenths of a percent.
pub open spec fn spec_classify(value: int, warning: int, critical: int) -> Severity {
    if value >= critical {
        Severity::Critical
    } else if value >= warning {
        Severity::Warning
    } else {
        Severity::Normal
    }
}

/// Maps a utilization value (tenths of a percent) and a (warning, critical)
/// threshold pair to a severity bucket. Comparisons use the raw value, even
/// outside the 0..=1000 display range.
pub fn classify(value: u32, warning: u32, critical: u32) -> (r: Severity)
    ensures
        r == spec_classify(value as int, warning as int, critical as int),
{
    if value >= critical {
        Severity::Critical
    } else if value >= warning {
        Severity::Warning
    } else {
        Severity::Normal
    }
}

/// For any ordered threshold pair within the percent scale (0 to 1000 tenths),
/// the buckets partition the value line: Critical iff value >= critical,
/// Warning iff warning <= value < critical, Normal iff value < warning.
pub proof fn lemma_classify_partition(value: int, warning: int, critical: int)
    requires
        0 <= warning <= critical <= 1000,
    ensures
        (spec_classify(value, warning, critical) == Severity::Critical) <==> value >= critical,
        (spec_classify(value, warning, critical) == Severity::Warning) <==> (warning <= value
            < critical),
        (spec_classify(value, warning, critical) == Severity::Normal) <==> value < warning,
{
}

/// Both boundaries are inclusive: a value equal to the critical threshold is
/// Critical, and a value equal to a strictly lower warning threshold is Warning.
pub proof fn lemma_classify_boundary(warning: int, critical: int)
    ensures
        spec_classify(critical, warning, critical) == Severity::Critical,
        warning < critical ==> spec_classify(warning, warning, critical) == Severity::Warning,
{
}

} // verus!
