use crate::config::Config;
use crate::textfmt::fmt_tenths;
use crate::textfmt::fmt_u64;
use crate::textfmt::spec_dec;
use crate::textfmt::spec_tenths;
use vstd::prelude::*;
use vstd::string::StringExecFns;

verus! {

/// The settings-file spelling of a boolean.
pub open spec fn spec_bool_text(b: bool) -> Seq<char> {
    if b {
        "true"@
    } else {
        "false"@
    }
}

pub fn bool_text(b: bool) -> (r: &'static str)
    ensures
        r@ == spec_bool_text(b),
{
    proof {
        reveal_strlit("true");
        reveal_strlit("false");
    }
    if b {
        "true"
    } else {
        "false"
    }
}

/// The configuration file document for a configuration: four sections, one
/// `key = value` line per field, thresholds written as percentages to one
/// decimal, and the log file path written as-is between quotes.
pub open spec fn spec_config_toml(c: Config) -> Seq<char> {
    "[general]\n"@ + "refresh_interval = "@ + spec_dec(c.general.refresh_interval as nat) + "\n"@
        + "log_alerts = "@ + spec_bool_text(c.general.log_alerts) + "\n"@ + "log_file = \""@
        + c.general.log_file@ + "\"\n"@ + "\n[display]\n"@ + "show_progress_bars = "@
        + spec_bool_text(c.display.show_progress_bars) + "\n"@ + "use_colors = "@ + spec_bool_text(
        c.display.use_colors,
    ) + "\n"@ + "show_per_core_cpu = "@ + spec_bool_text(c.display.show_per_core_cpu) + "\n"@
        + "max_processes_to_display = "@ + spec_dec(c.display.max_processes_to_display as nat)
        + "\n"@ + "\n[thresholds]\n"@ + "cpu_warning = "@ + spec_tenths(
        c.thresholds.cpu_warning as nat,
    ) + "\n"@ + "cpu_critical = "@ + spec_tenths(c.thresholds.cpu_critical as nat) + "\n"@
        + "memory_warning = "@ + spec_tenths(c.thresholds.memory_warning as nat) + "\n"@
        + "memory_critical = "@ + spec_tenths(c.thresholds.memory_critical as nat) + "\n"@
        + "disk_warning = "@ + spec_tenths(c.thresholds.disk_warning as nat) + "\n"@
        + "disk_critical = "@ + spec_tenths(c.thresholds.disk_critical as nat) + "\n"@
        + "swap_warning = "@ + spec_tenths(c.thresholds.swap_warning as nat) + "\n"@
        + "swap_critical = "@ + spec_tenths(c.thresholds.swap_critical as nat) + "\n"@
        + "\n[alerts]\n"@ + "enable_desktop_notifications = "@ + spec_bool_text(
        c.alerts.enable_desktop_notifications,
    ) + "\n"@ + "enable_email_alerts = "@ + spec_bool_text(c.alerts.enable_email_alerts) + "\n"@
        + "enable_sound_alerts = "@ + spec_bool_text(c.alerts.enable_sound_alerts) + "\n"@
}

/// Renders the configuration as its settings-file document. Reloading the
/// document yields the same field values.
#[verifier::rlimit(30)]
pub fn render_config_toml(c: &Config) -> (r: String)
    ensures
        r@ == spec_config_toml(*c),
{
    proof {
        reveal_strlit("[general]\n");
        reveal_strlit("refresh_interval = ");
        reveal_strlit("log_alerts = ");
        reveal_strlit("log_file = \"");
        reveal_strlit("\"\n");
        reveal_strlit("\n[display]\n");
        reveal_strlit("show_progress_bars = ");
        reveal_strlit("use_colors = ");
        reveal_strlit("show_per_core_cpu = ");
        reveal_strlit("max_processes_to_display = ");
        reveal_strlit("\n[thresholds]\n");
        reveal_strlit("cpu_warning = ");
        reveal_strlit("cpu_critical = ");
        reveal_strlit("memory_warning = ");
        reveal_strlit("memory_critical = ");
        reveal_strlit("disk_warning = ");
        reveal_strlit("disk_critical = ");
        reveal_strlit("swap_warning = ");
        reveal_strlit("swap_critical = ");
        reveal_strlit("\n[alerts]\n");
        reveal_strlit("enable_desktop_notifications = ");
        reveal_strlit("enable_email_alerts = ");
        reveal_strlit("enable_sound_alerts = ");
        reveal_strlit("\n");
    }
    let mut s = "[general]\n".to_owned();
    s.append("refresh_interval = ");
    s.append(fmt_u64(c.general.refresh_interval).as_str());
    s.append("\n");
    s.append("log_alerts = ");
    s.append(bool_text(c.general.log_alerts));
    s.append("\n");
    s.append("log_file = \"");
    s.append(c.general.log_file.as_str());
    s.append("\"\n");
    s.append("\n[display]\n");
    s.append("show_progress_bars = ");
    s.append(bool_text(c.display.show_progress_bars));
    s.append("\n");
    s.append("use_colors = ");
    s.append(bool_text(c.display.use_colors));
    s.append("\n");
    s.append("show_per_core_cpu = ");
    s.append(bool_text(c.display.show_per_core_cpu));
    s.append("\n");
    s.append("max_processes_to_display = ");
    s.append(fmt_u64(c.display.max_processes_to_display as u64).as_str());
    s.append("\n");
    s.append("\n[thresholds]\n");
    s.append("cpu_warning = ");
    s.append(fmt_tenths(c.thresholds.cpu_warning as u64).as_str());
    s.append("\n");
    s.append("cpu_critical = ");
    s.append(fmt_tenths(c.thresholds.cpu_critical as u64).as_str());
    s.append("\n");
    s.append("memory_warning = ");
    s.append(fmt_tenths(c.thresholds.memory_warning as u64).as_str());
    s.append("\n");
    s.append("memory_critical = ");
    s.append(fmt_tenths(c.thresholds.memory_critical as u64).as_str());
    s.append("\n");
    s.append("disk_warning = ");
    s.append(fmt_tenths(c.thresholds.disk_warning as u64).as_str());
    s.append("\n");
    s.append("disk_critical = ");
    s.append(fmt_tenths(c.thresholds.disk_critical as u64).as_str());
    s.append("\n");
    s.append("swap_warning = ");
    s.append(fmt_tenths(c.thresholds.swap_warning as u64).as_str());
    s.append("\n");
    s.append("swap_critical = ");
    s.append(fmt_tenths(c.thresholds.swap_critical as u64).as_str());
    s.append("\n");
    s.append("\n[alerts]\n");
    s.append("enable_desktop_notifications = ");
    s.append(bool_text(c.alerts.enable_desktop_notifications));
    s.append("\n");
    s.append("enable_email_alerts = ");
    s.append(bool_text(c.alerts.enable_email_alerts));
    s.append("\n");
    s.append("enable_sound_alerts = ");
    s.append(bool_text(c.alerts.enable_sound_alerts));
    s.append("\n");
    proof {
        assert(s@ =~= spec_config_toml(*c));
    }
    s
}

} // verus!
