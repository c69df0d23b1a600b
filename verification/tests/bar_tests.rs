use system_monitor::bar::bar_fill;
use system_monitor::bar::bar_glyphs;
use system_monitor::bar::create_progress_bar;
use system_monitor::bar::plain_bar;
use system_monitor::textfmt::fmt_hundredths;
use system_monitor::textfmt::fmt_tenths;
use system_monitor::textfmt::fmt_u64;
use system_monitor::textfmt::pad_left;
use system_monitor::textfmt::pad_right;
use system_monitor::textfmt::truncate_chars;

#[test]
fn plain_bar_exact_text() {
    // colors off: exactly "[ XX.X%]", right-aligned, no glyphs
    assert_eq!(plain_bar(950), "[  95.0%]");
    assert_eq!(plain_bar(953), "[  95.3%]");
    assert_eq!(plain_bar(5), "[   0.5%]");
    assert_eq!(plain_bar(1000), "[ 100.0%]");
}

#[test]
fn progress_bar_without_colors_has_no_glyphs() {
    let b = create_progress_bar(950, 700, 900, false);
    assert_eq!(b, "[  95.0%]");
    assert!(!b.contains('#'));
    assert!(!b.contains('-'));
}

#[test]
fn bar_fill_half_is_ten_cells() {
    assert_eq!(bar_fill(500), 10);
    assert_eq!(bar_glyphs(500), "##########----------");
}

#[test]
fn bar_fill_full_is_twenty_cells() {
    assert_eq!(bar_fill(1000), 20);
    assert_eq!(bar_glyphs(1000), "####################");
}

#[test]
fn bar_fill_zero_is_empty() {
    assert_eq!(bar_fill(0), 0);
    assert_eq!(bar_glyphs(0), "--------------------");
}

#[test]
fn bar_fill_clamps_above_full() {
    assert_eq!(bar_fill(1300), 20);
}

#[test]
fn decimal_formatting() {
    assert_eq!(fmt_u64(0), "0");
    assert_eq!(fmt_u64(30), "30");
    assert_eq!(fmt_u64(18446744073709551615), "18446744073709551615");
    assert_eq!(fmt_tenths(700), "70.0");
    assert_eq!(fmt_tenths(953), "95.3");
    assert_eq!(fmt_tenths(5), "0.5");
    assert_eq!(fmt_hundredths(123), "1.23");
    assert_eq!(fmt_hundredths(5), "0.05");
}

#[test]
fn padding_and_truncation() {
    assert_eq!(pad_left("9.5", 6), "   9.5");
    assert_eq!(pad_left("123.4", 3), "123.4");
    assert_eq!(pad_right("PID", 8), "PID     ");
    assert_eq!(truncate_chars("a-process-name-that-runs-long", 20), "a-process-name-that-");
    assert_eq!(truncate_chars("short", 20), "short");
}
