use system_monitor::config::Config;
use system_monitor::config::validate_thresholds;
use system_monitor::monitor::next_cycle_action;
use system_monitor::monitor::LoopAction;
use system_monitor::toml_text::render_config_toml;

#[test]
fn default_config_values() {
    let c = Config::default();
    assert_eq!(c.general.refresh_interval, 30);
    assert!(c.general.log_alerts);
    assert_eq!(c.general.log_file, "system_monitor.log");
    assert!(c.display.show_progress_bars);
    assert!(c.display.use_colors);
    assert!(c.display.show_per_core_cpu);
    assert_eq!(c.display.max_processes_to_display, 10);
    assert_eq!(c.thresholds.cpu_warning, 700);
    assert_eq!(c.thresholds.cpu_critical, 900);
    assert_eq!(c.thresholds.swap_critical, 900);
    assert!(!c.alerts.enable_desktop_notifications);
    assert!(!c.alerts.enable_email_alerts);
    assert!(!c.alerts.enable_sound_alerts);
}

#[test]
fn default_thresholds_are_ordered() {
    assert!(validate_thresholds(&Config::default()));
}

#[test]
fn inverted_pair_fails_validation() {
    let mut c = Config::default();
    c.thresholds.disk_warning = 950;
    assert!(!validate_thresholds(&c));
}

#[test]
fn generated_config_round_trips() {
    // the generated document, reloaded, yields the same field values
    let c = Config::default();
    let doc = render_config_toml(&c);
    let v: toml::Value = toml::from_str(&doc).expect("generated document must parse");
    assert_eq!(v["general"]["refresh_interval"].as_integer(), Some(30));
    assert_eq!(v["general"]["log_alerts"].as_bool(), Some(true));
    assert_eq!(v["general"]["log_file"].as_str(), Some("system_monitor.log"));
    assert_eq!(v["display"]["show_progress_bars"].as_bool(), Some(true));
    assert_eq!(v["display"]["use_colors"].as_bool(), Some(true));
    assert_eq!(v["display"]["show_per_core_cpu"].as_bool(), Some(true));
    assert_eq!(v["display"]["max_processes_to_display"].as_integer(), Some(10));
    assert_eq!(v["thresholds"]["cpu_warning"].as_float(), Some(70.0));
    assert_eq!(v["thresholds"]["cpu_critical"].as_float(), Some(90.0));
    assert_eq!(v["thresholds"]["memory_warning"].as_float(), Some(70.0));
    assert_eq!(v["thresholds"]["memory_critical"].as_float(), Some(90.0));
    assert_eq!(v["thresholds"]["disk_warning"].as_float(), Some(70.0));
    assert_eq!(v["thresholds"]["disk_critical"].as_float(), Some(90.0));
    assert_eq!(v["thresholds"]["swap_warning"].as_float(), Some(70.0));
    assert_eq!(v["thresholds"]["swap_critical"].as_float(), Some(90.0));
    assert_eq!(v["alerts"]["enable_desktop_notifications"].as_bool(), Some(false));
    assert_eq!(v["alerts"]["enable_email_alerts"].as_bool(), Some(false));
    assert_eq!(v["alerts"]["enable_sound_alerts"].as_bool(), Some(false));
}

#[test]
fn nondefault_config_round_trips() {
    let mut c = Config::default();
    c.general.refresh_interval = 5;
    c.general.log_alerts = false;
    c.thresholds.cpu_warning = 655;
    c.display.max_processes_to_display = 3;
    let doc = render_config_toml(&c);
    let v: toml::Value = toml::from_str(&doc).expect("generated document must parse");
    assert_eq!(v["general"]["refresh_interval"].as_integer(), Some(5));
    assert_eq!(v["general"]["log_alerts"].as_bool(), Some(false));
    assert_eq!(v["thresholds"]["cpu_warning"].as_float(), Some(65.5));
    assert_eq!(v["display"]["max_processes_to_display"].as_integer(), Some(3));
}

#[test]
fn once_mode_stops_after_one_cycle() {
    // once mode returns control instead of sleeping
    assert_eq!(next_cycle_action(true, 30), LoopAction::Stop);
}

#[test]
fn continuous_mode_sleeps_the_interval() {
    assert_eq!(next_cycle_action(false, 30), LoopAction::SleepThenRepeat(30));
    assert_eq!(next_cycle_action(false, 5), LoopAction::SleepThenRepeat(5));
}
