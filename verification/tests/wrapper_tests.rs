use system_monitor::bar::create_progress_bar;
use system_monitor::config::Config;
use system_monitor::cycle::plan_cycle_alerts_now;
use system_monitor::sample::Sample;
use system_monitor::toml_text::render_config_toml;

#[test]
fn colored_bar_keeps_bracket_and_percentage() {
    // whatever styling the terminal layer adds, the frame and the
    // right-aligned percentage are fixed
    let b = create_progress_bar(950, 700, 900, true);
    assert!(b.starts_with('['));
    assert!(b.contains("] "));
    assert!(b.ends_with("  95.0%"));
}

#[test]
fn colored_bar_carries_exact_glyph_run() {
    // the glyph run itself survives the styling: 10 filled at 50%,
    // 20 filled at 100%, 20 empty at 0%
    assert!(create_progress_bar(500, 700, 900, true).contains("##########----------"));
    assert!(create_progress_bar(1000, 700, 900, true).contains("####################"));
    assert!(create_progress_bar(0, 700, 900, true).contains("--------------------"));
}

#[test]
fn cycle_against_live_clock() {
    let config = Config::default();
    let sample = Sample {
        cpu_tenths: 950,
        per_core_tenths: vec![],
        total_memory: 100,
        used_memory: 0,
        available_memory: 100,
        total_swap: 0,
        used_swap: 0,
        disks: vec![],
        processes: vec![],
        os_name: None,
        hostname: None,
        uptime_seconds: 0,
        load_one_hundredths: 0,
        load_five_hundredths: 0,
        load_fifteen_hundredths: 0,
    };
    let planned = plan_cycle_alerts_now(&sample, &config);
    assert_eq!(planned.alerts.len(), 1);
    assert_eq!(planned.outputs.len(), 1);
    let line = planned.outputs[0].log_line.as_deref().expect("logging is on by default");
    assert!(line.starts_with('['));
    assert!(line.ends_with("] ALERT: CPU usage is critical: 95.0%\n"));
    assert_eq!(planned.outputs[0].diagnostic, "CPU usage is critical: 95.0%");
}

#[test]
fn generated_document_layout() {
    let doc = render_config_toml(&Config::default());
    assert!(doc.starts_with("[general]\n"));
    assert!(doc.contains("\n[display]\n"));
    assert!(doc.contains("\n[thresholds]\n"));
    assert!(doc.contains("\n[alerts]\n"));
    assert!(doc.contains("cpu_warning = 70.0\n"));
    assert!(doc.contains("log_file = \"system_monitor.log\"\n"));
}
