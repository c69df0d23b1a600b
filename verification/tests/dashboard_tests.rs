use system_monitor::color::get_usage_color;
use system_monitor::color::UsageColor;
use system_monitor::config::Config;
use system_monitor::dashboard::process_row_color;
use system_monitor::dashboard::render_dashboard;
use system_monitor::dashboard::render_memory_section;
use system_monitor::dashboard::render_swap_line;
use system_monitor::dashboard::render_system_section;
use system_monitor::procs::ProcessInfo;
use system_monitor::sample::DiskInfo;
use system_monitor::sample::Sample;
use system_monitor::usage::gb_tenths;
use system_monitor::usage::mb_tenths;
use system_monitor::usage::usage_tenths;
use system_monitor::usage::uptime_parts;

const GIB: u64 = 1024 * 1024 * 1024;

fn plain_config() -> Config {
    let mut c = Config::default();
    c.display.use_colors = false;
    c
}

fn sample() -> Sample {
    Sample {
        cpu_tenths: 250,
        per_core_tenths: vec![100, 400],
        total_memory: 8 * GIB,
        used_memory: 2 * GIB,
        available_memory: 6 * GIB,
        total_swap: 0,
        used_swap: 0,
        disks: vec![DiskInfo {
            mount_point: "/".to_string(),
            total_bytes: 100 * GIB,
            available_bytes: 40 * GIB,
        }],
        processes: vec![
            ProcessInfo { pid: 7, name: "idle".to_string(), cpu_tenths: 10, memory_bytes: GIB },
            ProcessInfo { pid: 9, name: "busy".to_string(), cpu_tenths: 990, memory_bytes: GIB },
        ],
        os_name: Some("TestOS".to_string()),
        hostname: Some("box".to_string()),
        uptime_seconds: 7380,
        load_one_hundredths: 123,
        load_five_hundredths: 50,
        load_fifteen_hundredths: 7,
    }
}

#[test]
fn byte_conversions() {
    assert_eq!(gb_tenths(GIB), 10);
    assert_eq!(gb_tenths(8 * GIB), 80);
    assert_eq!(gb_tenths(GIB / 2), 5);
    assert_eq!(mb_tenths(1024 * 1024), 10);
    assert_eq!(usage_tenths(0, 0), 0);
    assert_eq!(usage_tenths(95, 100), 950);
    assert_eq!(uptime_parts(7380), (2, 3));
}

#[test]
fn disk_with_zero_capacity_reads_zero_usage() {
    // no division error, usage is 0.0
    let d = DiskInfo { mount_point: "/void".to_string(), total_bytes: 0, available_bytes: 0 };
    assert_eq!(d.usage_tenths(), 0);
}

#[test]
fn swap_absent_renders_not_available() {
    let s = sample();
    assert_eq!(render_swap_line(&s, &plain_config()), "Swap Usage: Not Available");
    assert_eq!(render_swap_line(&s, &Config::default()), "Swap Usage: Not Available");
}

#[test]
fn swap_present_renders_bar() {
    let mut s = sample();
    s.total_swap = 100;
    s.used_swap = 50;
    assert_eq!(render_swap_line(&s, &plain_config()), "Swap Usage: [  50.0%]");
}

#[test]
fn memory_section_exact_plain_lines() {
    let s = sample();
    let lines = render_memory_section(&s, &plain_config());
    assert_eq!(lines.len(), 5);
    assert_eq!(lines[1], "RAM Usage:  [  25.0%]");
    assert_eq!(lines[2], "Total:      8.0 GB");
    assert_eq!(lines[3], "Used:       2.0 GB");
    assert_eq!(lines[4], "Available:  6.0 GB");
}

#[test]
fn system_section_lines() {
    let s = sample();
    let lines = render_system_section(&s);
    assert_eq!(lines.len(), 5);
    assert_eq!(lines[1], "OS:         TestOS");
    assert_eq!(lines[2], "Hostname:   box");
    assert_eq!(lines[3], "Uptime:     2h 3m");
    assert_eq!(lines[4], "Load Avg:   1.23, 0.50, 0.07");
}

#[test]
fn dashboard_structure() {
    let s = sample();
    let c = plain_config();
    let d = render_dashboard(&s, &c, "2024-01-02 03:04:05");
    assert_eq!(d.header.len(), 3);
    // heading, overall, "Per Core:", two cores
    assert_eq!(d.cpu.len(), 5);
    assert_eq!(d.cpu[1], "Overall Usage: [  25.0%]");
    assert_eq!(d.cpu[2], "Per Core:");
    // one disk: heading + mount line + detail line
    assert_eq!(d.disks.len(), 3);
    assert_eq!(d.disks[1], "Mount: / [  60.0%]");
    assert_eq!(d.disks[2], "  Total: 100.0 GB | Used: 60.0 GB | Free: 40.0 GB");
    // heading + columns + rule + two rows
    assert_eq!(d.processes.len(), 5);
    assert_eq!(d.processes[1], "PID      NAME                 CPU%     MEMORY    ");
    assert_eq!(d.processes[2], "-".repeat(50));
}

#[test]
fn per_core_lines_exact() {
    let s = sample();
    let c = plain_config();
    let d = render_dashboard(&s, &c, "2024-01-02 03:04:05");
    assert_eq!(d.cpu[3], "  Core  0: [  10.0%]");
    assert_eq!(d.cpu[4], "  Core  1: [  40.0%]");
}

#[test]
fn process_rows_use_fixed_fifty_eighty_thresholds() {
    // row coloring ignores the configured CPU thresholds
    assert_eq!(process_row_color(850, true), UsageColor::Red);
    assert_eq!(process_row_color(800, true), UsageColor::Red);
    assert_eq!(process_row_color(600, true), UsageColor::Yellow);
    assert_eq!(process_row_color(500, true), UsageColor::Yellow);
    assert_eq!(process_row_color(100, true), UsageColor::Green);
    assert_eq!(process_row_color(990, false), UsageColor::White);
}

#[test]
fn header_title_carries_timestamp() {
    let s = sample();
    let d = render_dashboard(&s, &plain_config(), "2024-01-02 03:04:05");
    assert!(d.header[1].contains("       System Monitor - 2024-01-02 03:04:05"));
    assert!(d.header[0].contains("================================================"));
}

#[test]
fn section_headings_and_footer_carry_their_text() {
    let s = sample();
    let d = render_dashboard(&s, &plain_config(), "2024-01-02 03:04:05");
    assert!(d.cpu[0].contains("CPU INFORMATION"));
    assert!(d.memory[0].contains("MEMORY INFORMATION"));
    assert!(d.disks[0].contains("DISK INFORMATION"));
    assert!(d.processes[0].contains("TOP PROCESSES"));
    assert!(d.system[0].contains("SYSTEM INFORMATION"));
    assert!(d.footer.contains("Press Ctrl+C to exit..."));
}

#[test]
fn process_rows_carry_name_and_memory() {
    let s = sample();
    let d = render_dashboard(&s, &plain_config(), "2024-01-02 03:04:05");
    // top row is the busiest process; 1 GiB resident is 1024.0 MB
    assert!(d.processes[3].contains(" busy                 "));
    assert!(d.processes[3].ends_with("1024.0    MB"));
    assert!(d.processes[4].contains(" idle                 "));
    // pid and CPU% survive the styling of their columns
    assert!(d.processes[3].contains('9'));
    assert!(d.processes[3].contains("99.0%"));
    assert!(d.processes[4].contains('7'));
    assert!(d.processes[4].contains("1.0%"));
}

#[test]
fn usage_color_buckets() {
    assert_eq!(get_usage_color(950, 700, 900, true), UsageColor::Red);
    assert_eq!(get_usage_color(750, 700, 900, true), UsageColor::Yellow);
    assert_eq!(get_usage_color(100, 700, 900, true), UsageColor::Green);
    assert_eq!(get_usage_color(950, 700, 900, false), UsageColor::White);
}
