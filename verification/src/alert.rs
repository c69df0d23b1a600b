use crate::severity::spec_classify;
use crate::severity::Severity;
use crate::textfmt::fmt_tenths;
use crate::textfmt::spec_tenths;
use vstd::prelude::*;
use vstd::string::StringExecFns;

verus! {

/// One threshold breach: the metric category, the breaching value in tenths
/// of a percent, its severity, and the formatted operator-facing message.
pub struct Alert {
    pub category: String,
    pub value_tenths: u32,
    pub severity: Severity,
    pub message: String,
}

/// The word the message uses for a severity: "critical" at critical, "high"
/// otherwise.
pub open spec fn spec_severity_word(sev: Severity) -> Seq<char> {
    if sev == Severity::Critical {
        "critical"@
    } else {
        "high"@
    }
}

/// "<category> usage is <high|critical>: <value to 1 decimal>%".
pub open spec fn spec_alert_message(cat: Seq<char>, t: nat, sev: Severity) -> Seq<char> {
    cat + " usage is "@ + spec_severity_word(sev) + ": "@ + spec_tenths(t) + "%"@
}

pub fn alert_message(category: &str, value: u32, sev: Severity) -> (r: String)
    ensures
        r@ == spec_alert_message(category@, value as nat, sev),
{
    proof {
        reveal_strlit(" usage is ");
        reveal_strlit("critical");
        reveal_strlit("high");
        reveal_strlit(": ");
        reveal_strlit("%");
    }
    let mut s = category.to_owned();
    s.append(" usage is ");
    let word = if sev == Severity::Critical {
        "critical"
    } else {
        "high"
    };
    s.append(word);
    s.append(": ");
    s.append(fmt_tenths(value as u64).as_str());
    s.append("%");
    proof {
        assert(s@ =~= spec_alert_message(category@, value as nat, sev));
    }
    s
}

/// Decides whether a metric value breaches its thresholds. The result is Some
/// exactly when the raw value is at or above a threshold; the alert then
/// carries the classified severity and the formatted message.
pub fn evaluate_metric(category: &str, usage: u32, warning: u32, critical: u32) -> (r: Option<
    Alert,
>)
    ensures
        (r is Some) <==> (usage >= critical || usage >= warning),
        r matches Some(a) ==> a.severity == spec_classify(
            usage as int,
            warning as int,
            critical as int,
        ),
        r matches Some(a) ==> a.severity != Severity::Normal,
        r matches Some(a) ==> a.category@ == category@,
        r matches Some(a) ==> a.value_tenths == usage,
        r matches Some(a) ==> a.message@ == spec_alert_message(
            category@,
            usage as nat,
            a.severity,
        ),
{
    if usage >= critical {
        let message = alert_message(category, usage, Severity::Critical);
        Some(
            Alert {
                category: category.to_owned(),
                value_tenths: usage,
                severity: Severity::Critical,
                message,
            },
        )
    } else if usage >= warning {
        let message = alert_message(category, usage, Severity::Warning);
        Some(
            Alert {
                category: category.to_owned(),
                value_tenths: usage,
                severity: Severity::Warning,
                message,
            },
        )
    } else {
        None
    }
}

/// "[<timestamp>] ALERT: <message>\n", the alert log file line.
pub open spec fn spec_log_entry(ts: Seq<char>, msg: Seq<char>) -> Seq<char> {
    seq!['['] + ts + "] ALERT: "@ + msg + seq!['\n']
}

pub fn format_log_entry(timestamp: &str, message: &str) -> (r: String)
    ensures
        r@ == spec_log_entry(timestamp@, message@),
{
    proof {
        reveal_strlit("[");
        reveal_strlit("] ALERT: ");
        reveal_strlit("\n");
    }
    let mut s = "[".to_owned();
    s.append(timestamp);
    s.append("] ALERT: ");
    s.append(message);
    s.append("\n");
    proof {
        assert(s@ =~= spec_log_entry(timestamp@, message@));
    }
    s
}

/// What one alert makes the monitor do: the line to append to the alert log,
/// when logging is enabled, and the diagnostic always sent to the runtime
/// warning channel.
pub struct AlertOutput {
    pub log_line: Option<String>,
    pub diagnostic: String,
}

/// The alert logger's decision: the file line exists exactly when alert
/// logging is enabled; the runtime diagnostic carries the message regardless.
pub fn plan_log_alert(message: &str, log_alerts: bool, timestamp: &str) -> (r: AlertOutput)
    ensures
        (r.log_line is Some) <==> log_alerts,
        r.log_line matches Some(line) ==> line@ == spec_log_entry(timestamp@, message@),
        r.diagnostic@ == message@,
{
    let log_line = if log_alerts {
        Some(format_log_entry(timestamp, message))
    } else {
        None
    };
    AlertOutput { log_line, diagnostic: message.to_owned() }
}

} // verus!
