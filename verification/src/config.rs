use vstd::prelude::*;

verus! {

/// General settings: refresh interval in seconds, the alert-logging toggle,
/// and the alert log file path.
pub struct GeneralConfig {
    pub refresh_interval: u64,
    pub log_alerts: bool,
    pub log_file: String,
}

/// Display settings.
pub struct DisplayConfig {
    pub show_progress_bars: bool,
    pub use_colors: bool,
    pub show_per_core_cpu: bool,
    pub max_processes_to_display: usize,
}

/// Threshold pairs, in tenths of a percent (700 stands for 70.0%).
pub struct ThresholdsConfig {
    pub cpu_warning: u32,
    pub cpu_critical: u32,
    pub memory_warning: u32,
    pub memory_critical: u32,
    pub disk_warning: u32,
    pub disk_critical: u32,
    pub swap_warning: u32,
    pub swap_critical: u32,
}

/// Feature toggles for notification channels; only logging is wired to an
/// effect.
pub struct AlertsConfig {
    pub enable_desktop_notifications: bool,
    pub enable_email_alerts: bool,
    pub enable_sound_alerts: bool,
}

/// One run's immutable configuration snapshot.
pub struct Config {
    pub general: GeneralConfig,
    pub display: DisplayConfig,
    pub thresholds: ThresholdsConfig,
    pub alerts: AlertsConfig,
}

/// Every field of the built-in default configuration.
pub open spec fn spec_is_default_config(c: Config) -> bool {
    &&& c.general.refresh_interval == 30
    &&& c.general.log_alerts == true
    &&& c.general.log_file@ == "system_monitor.log"@
    &&& c.display.show_progress_bars == true
    &&& c.display.use_colors == true
    &&& c.display.show_per_core_cpu == true
    &&& c.display.max_processes_to_display == 10
    &&& c.thresholds.cpu_warning == 700
    &&& c.thresholds.cpu_critical == 900
    &&& c.thresholds.memory_warning == 700
    &&& c.thresholds.memory_critical == 900
    &&& c.thresholds.disk_warning == 700
    &&& c.thresholds.disk_critical == 900
    &&& c.thresholds.swap_warning == 700
    &&& c.thresholds.swap_critical == 900
    &&& c.alerts.enable_desktop_notifications == false
    &&& c.alerts.enable_email_alerts == false
    &&& c.alerts.enable_sound_alerts == false
}

impl Default for Config {
    /// The settings used when no configuration file exists.
    fn default() -> (c: Config)
        ensures
            spec_is_default_config(c),
    {
        Config {
            general: GeneralConfig {
                refresh_interval: 30,
                log_alerts: true,
                log_file: "system_monitor.log".to_owned(),
            },
            display: DisplayConfig {
                show_progress_bars: true,
                use_colors: true,
                show_per_core_cpu: true,
                max_processes_to_display: 10,
            },
            thresholds: ThresholdsConfig {
                cpu_warning: 700,
                cpu_critical: 900,
                memory_warning: 700,
                memory_critical: 900,
                disk_warning: 700,
                disk_critical: 900,
                swap_warning: 700,
                swap_critical: 900,
            },
            alerts: AlertsConfig {
                enable_desktop_notifications: false,
                enable_email_alerts: false,
                enable_sound_alerts: false,
            },
        }
    }
}

/// Each warning threshold sits at or below its critical partner; an inverted
/// pair would silently suppress warning alerts.
pub open spec fn spec_thresholds_ordered(t: ThresholdsConfig) -> bool {
    &&& t.cpu_warning <= t.cpu_critical
    &&& t.memory_warning <= t.memory_critical
    &&& t.disk_warning <= t.disk_critical
    &&& t.swap_warning <= t.swap_critical
}

/// Checks the threshold invariant, so a caller can fail loudly on an
/// inverted pair.
pub fn validate_thresholds(c: &Config) -> (r: bool)
    ensures
        r == spec_thresholds_ordered(c.thresholds),
{
    let t = &c.thresholds;
    t.cpu_warning <= t.cpu_critical && t.memory_warning <= t.memory_critical && t.disk_warning
        <= t.disk_critical && t.swap_warning <= t.swap_critical
}

} // verus!
