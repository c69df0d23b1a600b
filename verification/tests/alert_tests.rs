use system_monitor::alert::alert_message;
use system_monitor::alert::evaluate_metric;
use system_monitor::alert::format_log_entry;
use system_monitor::alert::plan_log_alert;
use system_monitor::config::Config;
use system_monitor::cycle::evaluate_alerts;
use system_monitor::cycle::plan_cycle_alerts;
use system_monitor::sample::DiskInfo;
use system_monitor::sample::Sample;
use system_monitor::severity::Severity;

fn quiet_sample() -> Sample {
    Sample {
        cpu_tenths: 0,
        per_core_tenths: vec![],
        total_memory: 1000,
        used_memory: 0,
        available_memory: 1000,
        total_swap: 0,
        used_swap: 0,
        disks: vec![],
        processes: vec![],
        os_name: None,
        hostname: None,
        uptime_seconds: 0,
        load_one_hundredths: 0,
        load_five_hundredths: 0,
        load_fifteen_hundredths: 0,
    }
}

#[test]
fn alert_message_exact() {
    assert_eq!(alert_message("CPU", 950, Severity::Critical), "CPU usage is critical: 95.0%");
    assert_eq!(alert_message("Memory", 755, Severity::Warning), "Memory usage is high: 75.5%");
}

#[test]
fn evaluate_metric_below_warning_is_none() {
    assert!(evaluate_metric("CPU", 699, 700, 900).is_none());
}

#[test]
fn evaluate_metric_warning_and_critical() {
    let w = evaluate_metric("CPU", 700, 700, 900).unwrap();
    assert_eq!(w.severity, Severity::Warning);
    assert_eq!(w.message, "CPU usage is high: 70.0%");
    let c = evaluate_metric("CPU", 900, 700, 900).unwrap();
    assert_eq!(c.severity, Severity::Critical);
    assert_eq!(c.message, "CPU usage is critical: 90.0%");
}

#[test]
fn format_log_entry_exact() {
    assert_eq!(
        format_log_entry("2024-01-02 03:04:05", "CPU usage is critical: 95.0%"),
        "[2024-01-02 03:04:05] ALERT: CPU usage is critical: 95.0%\n"
    );
}

#[test]
fn cpu_critical_scenario_logs_one_alert() {
    // cpu_warning 70, cpu_critical 90, sampled CPU at 95.0%
    let config = Config::default();
    let mut sample = quiet_sample();
    sample.cpu_tenths = 950;
    let alerts = evaluate_alerts(&sample, &config);
    assert_eq!(alerts.len(), 1);
    assert_eq!(alerts[0].category, "CPU");
    assert_eq!(alerts[0].severity, Severity::Critical);
    assert!(alerts[0].message.contains("critical: 95.0%"));
    assert_eq!(alerts[0].message, "CPU usage is critical: 95.0%");

    let planned = plan_cycle_alerts(&sample, &config, "2024-01-02 03:04:05");
    assert_eq!(planned.outputs.len(), 1);
    assert_eq!(
        planned.outputs[0].log_line.as_deref(),
        Some("[2024-01-02 03:04:05] ALERT: CPU usage is critical: 95.0%\n")
    );
}

#[test]
fn logging_disabled_keeps_diagnostic() {
    // the file write is suppressed, the runtime diagnostic still fires
    let out = plan_log_alert("CPU usage is high: 75.0%", false, "2024-01-02 03:04:05");
    assert!(out.log_line.is_none());
    assert_eq!(out.diagnostic, "CPU usage is high: 75.0%");

    let on = plan_log_alert("CPU usage is high: 75.0%", true, "2024-01-02 03:04:05");
    assert_eq!(
        on.log_line.as_deref(),
        Some("[2024-01-02 03:04:05] ALERT: CPU usage is high: 75.0%\n")
    );
    assert_eq!(on.diagnostic, "CPU usage is high: 75.0%");
}

#[test]
fn swap_absent_never_alerts() {
    // total_swap = 0: no swap alert even with thresholds at zero
    let mut config = Config::default();
    config.thresholds.swap_warning = 0;
    config.thresholds.swap_critical = 0;
    let sample = quiet_sample();
    let alerts = evaluate_alerts(&sample, &config);
    assert!(alerts.iter().all(|a| a.category != "Swap"));
    assert_eq!(alerts.len(), 0);
}

#[test]
fn swap_present_alerts_against_thresholds() {
    let config = Config::default();
    let mut sample = quiet_sample();
    sample.total_swap = 100;
    sample.used_swap = 95;
    let alerts = evaluate_alerts(&sample, &config);
    assert_eq!(alerts.len(), 1);
    assert_eq!(alerts[0].category, "Swap");
    assert_eq!(alerts[0].severity, Severity::Critical);
}

#[test]
fn disk_alert_carries_mount_point() {
    let config = Config::default();
    let mut sample = quiet_sample();
    sample.disks = vec![
        DiskInfo { mount_point: "/".to_string(), total_bytes: 100, available_bytes: 20 },
        DiskInfo { mount_point: "/data".to_string(), total_bytes: 100, available_bytes: 90 },
    ];
    let alerts = evaluate_alerts(&sample, &config);
    assert_eq!(alerts.len(), 1);
    assert_eq!(alerts[0].category, "Disk /");
    assert_eq!(alerts[0].severity, Severity::Warning);
    assert_eq!(alerts[0].message, "Disk / usage is high: 80.0%");
}
