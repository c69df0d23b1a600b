use crate::bar::create_progress_bar;
use crate::bar::spec_colored_bar;
use crate::bar::spec_plain_bar;
use crate::color::get_usage_color;
use crate::color::spec_usage_color;
use crate::color::UsageColor;
use crate::config::Config;
use crate::cycle::spec_disk_usage;
use crate::paint::blue_bold;
use crate::paint::bright_black;
use crate::paint::cyan_bold;
use crate::paint::painted;
use crate::procs::spec_top_order;
use crate::procs::top_process_order;
use crate::procs::ProcessInfo;
use crate::sample::DiskInfo;
use crate::sample::Sample;
use crate::textfmt::fmt_tenths;
use crate::textfmt::lemma_dec_no_escape;
use crate::textfmt::lemma_no_escape_concat;
use crate::textfmt::lemma_tenths_no_escape;
use crate::textfmt::fmt_u64;
use crate::textfmt::pad_left;
use crate::textfmt::pad_right;
use crate::textfmt::repeated;
use crate::textfmt::spec_dec;
use crate::textfmt::spec_no_escape;
use crate::textfmt::spec_pad_left;
use crate::textfmt::spec_pad_right;
use crate::textfmt::spec_repeat;
use crate::textfmt::spec_tenths;
use crate::textfmt::spec_truncate;
use crate::textfmt::truncate_chars;
use crate::usage::gb_tenths;
use crate::usage::mb_tenths;
use crate::usage::spec_gb_tenths;
use crate::usage::spec_mb_tenths;
use crate::usage::uptime_parts;
use vstd::prelude::*;
use vstd::string::StringExecFns;

verus! {

/// The dashboard of one cycle, section by section, in display order. Painted
/// lines carry whatever styling the terminal layer produced.
pub struct Dashboard {
    pub header: Vec<String>,
    pub cpu: Vec<String>,
    pub memory: Vec<String>,
    pub swap: String,
    pub disks: Vec<String>,
    pub processes: Vec<String>,
    pub system: Vec<String>,
    pub footer: String,
}

/// The line is the text inside whatever styling the terminal layer added: the
/// text stands intact and contiguous between an escape prefix and suffix,
/// either of which may be empty.
pub open spec fn spec_styled(text: Seq<char>, line: Seq<char>) -> bool {
    exists|pre: Seq<char>, suf: Seq<char>| line == pre + text + suf
}

fn label_value_line(label: &str, value: &str) -> (r: String)
    ensures
        r@ == label@ + value@,
{
    let mut s = label.to_owned();
    s.append(value);
    s
}

fn gb_line(label: &str, bytes: u64) -> (r: String)
    ensures
        r@ == label@ + spec_tenths(spec_gb_tenths(bytes as nat)) + " GB"@,
{
    proof {
        reveal_strlit(" GB");
    }
    let mut s = label.to_owned();
    s.append(fmt_tenths(gb_tenths(bytes)).as_str());
    s.append(" GB");
    s
}

/// A colored per-core line: the core label and index, then the colored bar of
/// that core's utilization around whatever styling the terminal layer chose.
pub open spec fn spec_core_line(t: u32, idx: int, line: Seq<char>) -> bool {
    exists|pre: Seq<char>, suf: Seq<char>|
        line == "  Core "@ + spec_pad_left(spec_dec(idx as nat), 2) + ": "@ + (
        #[trigger] spec_colored_bar(t as nat, pre, suf))
}

proof fn lemma_core_line_intro(t: u32, idx: int, pre: Seq<char>, suf: Seq<char>, line: Seq<char>)
    requires
        line == "  Core "@ + spec_pad_left(spec_dec(idx as nat), 2) + ": "@ + spec_colored_bar(
            t as nat,
            pre,
            suf,
        ),
    ensures
        spec_core_line(t, idx, line),
{
}

/// The CPU section: heading, the overall bar, and one bar per core when
/// per-core display is on.
pub open spec fn spec_cpu_section_ok(s: Sample, c: Config, lines: Seq<String>) -> bool {
    &&& lines.len() == (if c.display.show_per_core_cpu {
        3 + s.per_core_tenths@.len()
    } else {
        2
    })
    &&& spec_styled("CPU INFORMATION"@, lines[0]@)
    &&& (!c.display.use_colors ==> lines[1]@ == "Overall Usage: "@ + spec_plain_bar(
        s.cpu_tenths as nat,
    ))
    &&& (c.display.use_colors ==> exists|pre: Seq<char>, suf: Seq<char>|
        lines[1]@ == "Overall Usage: "@ + spec_colored_bar(s.cpu_tenths as nat, pre, suf))
    &&& (c.display.show_per_core_cpu ==> lines[2]@ == "Per Core:"@)
    &&& (c.display.show_per_core_cpu && !c.display.use_colors ==> forall|j: int|
        0 <= j < s.per_core_tenths@.len() ==> lines[3 + j]@ == "  Core "@ + spec_pad_left(
            spec_dec(j as nat),
            2,
        ) + ": "@ + spec_plain_bar((#[trigger] s.per_core_tenths@[j]) as nat))
    &&& (c.display.show_per_core_cpu && c.display.use_colors ==> forall|j: int|
        0 <= j < s.per_core_tenths@.len() ==> spec_core_line(
            #[trigger] s.per_core_tenths@[j],
            j,
            lines[3 + j]@,
        ))
}

pub fn render_cpu_section(s: &Sample, c: &Config) -> (r: Vec<String>)
    ensures
        spec_cpu_section_ok(*s, *c, r@),
{
    let use_colors = c.display.use_colors;
    let mut lines: Vec<String> = Vec::new();
    proof {
        reveal_strlit("CPU INFORMATION");
        assert(spec_no_escape("CPU INFORMATION"@));
    }
    lines.push(cyan_bold("CPU INFORMATION"));
    let bar = create_progress_bar(
        s.cpu_tenths,
        c.thresholds.cpu_warning,
        c.thresholds.cpu_critical,
        use_colors,
    );
    lines.push(label_value_line("Overall Usage: ", bar.as_str()));
    if c.display.show_per_core_cpu {
        lines.push("Per Core:".to_owned());
        let mut i: usize = 0;
        while i < s.per_core_tenths.len()
            invariant
                i <= s.per_core_tenths@.len(),
                lines@.len() == 3 + i,
                spec_styled("CPU INFORMATION"@, lines@[0]@),
                lines@[1]@ == "Overall Usage: "@ + bar@,
                lines@[2]@ == "Per Core:"@,
                use_colors == c.display.use_colors,
                !use_colors ==> bar@ == spec_plain_bar(s.cpu_tenths as nat),
                use_colors ==> exists|pre: Seq<char>, suf: Seq<char>|
                    bar@ == spec_colored_bar(s.cpu_tenths as nat, pre, suf),
                !use_colors ==> forall|j: int|
                    0 <= j < i ==> lines@[3 + j]@ == "  Core "@ + spec_pad_left(spec_dec(j as nat), 2)
                        + ": "@ + spec_plain_bar((#[trigger] s.per_core_tenths@[j]) as nat),
                use_colors ==> forall|j: int|
                    0 <= j < i ==> spec_core_line(
                        #[trigger] s.per_core_tenths@[j],
                        j,
                        lines@[3 + j]@,
                    ),
            decreases s.per_core_tenths@.len() - i,
        {
            let core_bar = create_progress_bar(
                s.per_core_tenths[i],
                c.thresholds.cpu_warning,
                c.thresholds.cpu_critical,
                use_colors,
            );
            proof {
                reveal_strlit("  Core ");
                reveal_strlit(": ");
            }
            let mut line = "  Core ".to_owned();
            line.append(pad_left(fmt_u64(i as u64).as_str(), 2).as_str());
            line.append(": ");
            line.append(core_bar.as_str());
            let ghost line_view = line@;
            let ghost prev_lines = lines@;
            proof {
                if !use_colors {
                    assert(line_view =~= "  Core "@ + spec_pad_left(spec_dec(i as nat), 2) + ": "@
                        + spec_plain_bar(s.per_core_tenths@[i as int] as nat));
                } else {
                    let (pre, suf) = choose|pre: Seq<char>, suf: Seq<char>|
                        core_bar@ == #[trigger] spec_colored_bar(
                            s.per_core_tenths@[i as int] as nat,
                            pre,
                            suf,
                        );
                    assert(line_view =~= "  Core "@ + spec_pad_left(spec_dec(i as nat), 2) + ": "@
                        + spec_colored_bar(s.per_core_tenths@[i as int] as nat, pre, suf));
                    lemma_core_line_intro(
                        s.per_core_tenths@[i as int],
                        i as int,
                        pre,
                        suf,
                        line_view,
                    );
                }
            }
            lines.push(line);
            proof {
                if use_colors {
                    assert forall|j: int| 0 <= j < i + 1 implies spec_core_line(
                        #[trigger] s.per_core_tenths@[j],
                        j,
                        lines@[3 + j]@,
                    ) by {
                        if j < i {
                            assert(lines@[3 + j] == prev_lines[3 + j]);
                        } else {
                            assert(lines@[3 + j]@ == line_view);
                        }
                    }
                }
            }
            i = i + 1;
        }
    }
    lines
}

/// The memory section: heading, RAM bar, and the three totals in GB to one
/// decimal.
pub open spec fn spec_memory_section_ok(s: Sample, c: Config, lines: Seq<String>) -> bool {
    &&& lines.len() == 5
    &&& spec_styled("MEMORY INFORMATION"@, lines[0]@)
    &&& (!c.display.use_colors ==> lines[1]@ == "RAM Usage:  "@ + spec_plain_bar(
        s.spec_memory_usage(),
    ))
    &&& (c.display.use_colors ==> exists|pre: Seq<char>, suf: Seq<char>|
        lines[1]@ == "RAM Usage:  "@ + spec_colored_bar(s.spec_memory_usage(), pre, suf))
    &&& lines[2]@ == "Total:      "@ + spec_tenths(spec_gb_tenths(s.total_memory as nat)) + " GB"@
    &&& lines[3]@ == "Used:       "@ + spec_tenths(spec_gb_tenths(s.used_memory as nat)) + " GB"@
    &&& lines[4]@ == "Available:  "@ + spec_tenths(spec_gb_tenths(s.available_memory as nat))
        + " GB"@
}

pub fn render_memory_section(s: &Sample, c: &Config) -> (r: Vec<String>)
    requires
        s.wf(),
    ensures
        spec_memory_section_ok(*s, *c, r@),
{
    let mut lines: Vec<String> = Vec::new();
    proof {
        reveal_strlit("MEMORY INFORMATION");
        assert(spec_no_escape("MEMORY INFORMATION"@));
    }
    lines.push(cyan_bold("MEMORY INFORMATION"));
    let usage = s.memory_usage_tenths();
    let bar = create_progress_bar(
        usage,
        c.thresholds.memory_warning,
        c.thresholds.memory_critical,
        c.display.use_colors,
    );
    lines.push(label_value_line("RAM Usage:  ", bar.as_str()));
    lines.push(gb_line("Total:      ", s.total_memory));
    lines.push(gb_line("Used:       ", s.used_memory));
    lines.push(gb_line("Available:  ", s.available_memory));
    lines
}

/// The swap line: a bar when swap exists, the fixed "Not Available" text when
/// it does not.
pub open spec fn spec_swap_line_ok(s: Sample, c: Config, line: Seq<char>) -> bool {
    &&& (s.total_swap == 0 ==> line == "Swap Usage: Not Available"@)
    &&& (s.total_swap > 0 && !c.display.use_colors ==> line == "Swap Usage: "@ + spec_plain_bar(
        s.spec_swap_usage(),
    ))
    &&& (s.total_swap > 0 && c.display.use_colors ==> exists|pre: Seq<char>, suf: Seq<char>|
        line == "Swap Usage: "@ + spec_colored_bar(s.spec_swap_usage(), pre, suf))
}

pub fn render_swap_line(s: &Sample, c: &Config) -> (r: String)
    requires
        s.wf(),
    ensures
        spec_swap_line_ok(*s, *c, r@),
{
    if s.total_swap > 0 {
        let usage = s.swap_usage_tenths();
        let bar = create_progress_bar(
            usage,
            c.thresholds.swap_warning,
            c.thresholds.swap_critical,
            c.display.use_colors,
        );
        label_value_line("Swap Usage: ", bar.as_str())
    } else {
        "Swap Usage: Not Available".to_owned()
    }
}

/// A colored mount line: the mount point, then the colored bar of the
/// volume's utilization around whatever styling the terminal layer chose.
pub open spec fn spec_mount_line(d: DiskInfo, line: Seq<char>) -> bool {
    exists|pre: Seq<char>, suf: Seq<char>|
        line == "Mount: "@ + d.mount_point@ + " "@ + (#[trigger] spec_colored_bar(
            spec_disk_usage(d) as nat,
            pre,
            suf,
        ))
}

proof fn lemma_mount_line_intro(d: DiskInfo, pre: Seq<char>, suf: Seq<char>, line: Seq<char>)
    requires
        line == "Mount: "@ + d.mount_point@ + " "@ + spec_colored_bar(
            spec_disk_usage(d) as nat,
            pre,
            suf,
        ),
    ensures
        spec_mount_line(d, line),
{
}

/// The two detail parts of one volume: capacity, used and free space in GB.
pub open spec fn spec_disk_detail(d: DiskInfo) -> Seq<char> {
    "  Total: "@ + spec_tenths(spec_gb_tenths(d.total_bytes as nat)) + " GB | Used: "@
        + spec_tenths(spec_gb_tenths(d.spec_used() as nat)) + " GB | Free: "@ + spec_tenths(
        spec_gb_tenths(d.available_bytes as nat),
    ) + " GB"@
}

fn disk_detail_line(d: &DiskInfo) -> (r: String)
    requires
        d.wf(),
    ensures
        r@ == spec_disk_detail(*d),
{
    proof {
        reveal_strlit("  Total: ");
        reveal_strlit(" GB | Used: ");
        reveal_strlit(" GB | Free: ");
        reveal_strlit(" GB");
    }
    let mut s = "  Total: ".to_owned();
    s.append(fmt_tenths(gb_tenths(d.total_bytes)).as_str());
    s.append(" GB | Used: ");
    s.append(fmt_tenths(gb_tenths(d.used_bytes())).as_str());
    s.append(" GB | Free: ");
    s.append(fmt_tenths(gb_tenths(d.available_bytes)).as_str());
    s.append(" GB");
    proof {
        assert(s@ =~= spec_disk_detail(*d));
    }
    s
}

/// The disk section: heading, then a mount line and a detail line per volume,
/// in provider order.
pub open spec fn spec_disk_section_ok(s: Sample, c: Config, lines: Seq<String>) -> bool {
    &&& lines.len() == 1 + 2 * s.disks@.len()
    &&& spec_styled("DISK INFORMATION"@, lines[0]@)
    &&& forall|i: int|
        0 <= i < s.disks@.len() ==> lines[2 + 2 * i]@ == spec_disk_detail(#[trigger] s.disks@[i])
    &&& (!c.display.use_colors ==> forall|i: int|
        0 <= i < s.disks@.len() ==> lines[1 + 2 * i]@ == "Mount: "@
            + (#[trigger] s.disks@[i]).mount_point@ + " "@ + spec_plain_bar(
            spec_disk_usage(s.disks@[i]) as nat,
        ))
    &&& (c.display.use_colors ==> forall|i: int|
        0 <= i < s.disks@.len() ==> spec_mount_line(#[trigger] s.disks@[i], lines[1 + 2 * i]@))
}

pub fn render_disk_section(s: &Sample, c: &Config) -> (r: Vec<String>)
    requires
        s.wf(),
    ensures
        spec_disk_section_ok(*s, *c, r@),
{
    let use_colors = c.display.use_colors;
    let mut lines: Vec<String> = Vec::new();
    proof {
        reveal_strlit("DISK INFORMATION");
        assert(spec_no_escape("DISK INFORMATION"@));
    }
    lines.push(cyan_bold("DISK INFORMATION"));
    let mut i: usize = 0;
    while i < s.disks.len()
        invariant
            s.wf(),
            i <= s.disks@.len(),
            lines@.len() == 1 + 2 * i,
            spec_styled("DISK INFORMATION"@, lines@[0]@),
            use_colors == c.display.use_colors,
            forall|j: int|
                0 <= j < i ==> lines@[2 + 2 * j]@ == spec_disk_detail(#[trigger] s.disks@[j]),
            !use_colors ==> forall|j: int|
                0 <= j < i ==> lines@[1 + 2 * j]@ == "Mount: "@
                    + (#[trigger] s.disks@[j]).mount_point@ + " "@ + spec_plain_bar(
                    spec_disk_usage(s.disks@[j]) as nat,
                ),
            use_colors ==> forall|j: int|
                0 <= j < i ==> spec_mount_line(#[trigger] s.disks@[j], lines@[1 + 2 * j]@),
        decreases s.disks@.len() - i,
    {
        let disk = &s.disks[i];
        let usage = disk.usage_tenths();
        let bar = create_progress_bar(
            usage,
            c.thresholds.disk_warning,
            c.thresholds.disk_critical,
            use_colors,
        );
        proof {
            reveal_strlit("Mount: ");
            reveal_strlit(" ");
        }
        let mut mount_line = "Mount: ".to_owned();
        mount_line.append(disk.mount_point.as_str());
        mount_line.append(" ");
        mount_line.append(bar.as_str());
        proof {
            if !use_colors {
                assert(mount_line@ =~= "Mount: "@ + s.disks@[i as int].mount_point@ + " "@
                    + spec_plain_bar(spec_disk_usage(s.disks@[i as int]) as nat));
            } else {
                let (pre, suf) = choose|pre: Seq<char>, suf: Seq<char>|
                    bar@ == #[trigger] spec_colored_bar(usage as nat, pre, suf);
                assert(usage as nat == spec_disk_usage(s.disks@[i as int]) as nat);
                assert(mount_line@ =~= "Mount: "@ + s.disks@[i as int].mount_point@ + " "@
                    + spec_colored_bar(spec_disk_usage(s.disks@[i as int]) as nat, pre, suf));
                lemma_mount_line_intro(s.disks@[i as int], pre, suf, mount_line@);
            }
        }
        let ghost mount_view = mount_line@;
        let ghost prev_lines = lines@;
        lines.push(mount_line);
        lines.push(disk_detail_line(disk));
        proof {
            if use_colors {
                assert forall|j: int| 0 <= j < i + 1 implies spec_mount_line(
                    #[trigger] s.disks@[j],
                    lines@[1 + 2 * j]@,
                ) by {
                    if j < i {
                        assert(lines@[1 + 2 * j] == prev_lines[1 + 2 * j]);
                    } else {
                        assert(lines@[1 + 2 * j]@ == mount_view);
                    }
                }
            }
        }
        i = i + 1;
    }
    lines
}

/// Row coloring for the process table uses fixed thresholds of 50% and 80%,
/// independent of the configured CPU thresholds.
pub fn process_row_color(cpu_tenths: u32, use_colors: bool) -> (r: UsageColor)
    ensures
        r == spec_usage_color(cpu_tenths as int, 500, 800, use_colors),
{
    get_usage_color(cpu_tenths, 500, 800, use_colors)
}

/// The fixed column header of the process table.
pub open spec fn spec_proc_header() -> Seq<char> {
    spec_pad_right("PID"@, 8) + seq![' '] + spec_pad_right("NAME"@, 20) + seq![' ']
        + spec_pad_right("CPU%"@, 8) + seq![' '] + spec_pad_right("MEMORY"@, 10)
}

/// One process row: the process id's digits and the CPU percentage, each
/// inside the terminal layer's styling and padded to its column, around the
/// name truncated to 20 characters and padded, the memory in tenths of a
/// mebibyte padded to 10, and the "MB" suffix.
pub open spec fn spec_process_row(p: ProcessInfo, line: Seq<char>) -> bool {
    exists|pid_s: Seq<char>, cpu_s: Seq<char>|
        {
            &&& #[trigger] spec_styled(spec_dec(p.pid as nat), pid_s)
            &&& #[trigger] spec_styled(spec_tenths(p.cpu_tenths as nat) + seq!['%'], cpu_s)
            &&& line == spec_pad_right(pid_s, 8) + seq![' '] + spec_pad_right(
                spec_truncate(p.name@, 20),
                20,
            ) + seq![' '] + spec_pad_right(cpu_s, 8) + seq![' '] + spec_pad_right(
                spec_tenths(spec_mb_tenths(p.memory_bytes as nat)),
                10,
            ) + "MB"@
        }
}

proof fn lemma_process_row_intro(
    p: ProcessInfo,
    pid_s: Seq<char>,
    cpu_s: Seq<char>,
    line: Seq<char>,
)
    requires
        spec_styled(spec_dec(p.pid as nat), pid_s),
        spec_styled(spec_tenths(p.cpu_tenths as nat) + seq!['%'], cpu_s),
        line == spec_pad_right(pid_s, 8) + seq![' '] + spec_pad_right(
            spec_truncate(p.name@, 20),
            20,
        ) + seq![' '] + spec_pad_right(cpu_s, 8) + seq![' '] + spec_pad_right(
            spec_tenths(spec_mb_tenths(p.memory_bytes as nat)),
            10,
        ) + "MB"@,
    ensures
        spec_process_row(p, line),
{
}

/// The process section: heading, column header, a rule of 50 dashes, then one
/// row per displayed process: the display selection of the sample's process
/// list, in its order, one row each.
pub open spec fn spec_process_section_ok(s: Sample, c: Config, lines: Seq<String>) -> bool {
    &&& lines.len() == 3 + (if c.display.max_processes_to_display <= s.processes@.len() {
        c.display.max_processes_to_display as int
    } else {
        s.processes@.len() as int
    })
    &&& spec_styled("TOP PROCESSES"@, lines[0]@)
    &&& lines[1]@ == spec_proc_header()
    &&& lines[2]@ == spec_repeat('-', 50)
    &&& exists|ord: Seq<usize>|
        spec_top_order(s.processes@, c.display.max_processes_to_display as int, ord) && (forall|
            i: int,
        |
            0 <= i < ord.len() ==> spec_process_row(
                s.processes@[(#[trigger] ord[i]) as int],
                lines[3 + i]@,
            ))
}

pub fn render_process_section(s: &Sample, c: &Config) -> (r: Vec<String>)
    ensures
        spec_process_section_ok(*s, *c, r@),
{
    let mut lines: Vec<String> = Vec::new();
    proof {
        reveal_strlit("TOP PROCESSES");
        assert(spec_no_escape("TOP PROCESSES"@));
    }
    lines.push(cyan_bold("TOP PROCESSES"));
    proof {
        reveal_strlit("PID");
        reveal_strlit("NAME");
        reveal_strlit("CPU%");
        reveal_strlit("MEMORY");
        reveal_strlit(" ");
    }
    let mut hdr = pad_right("PID", 8);
    hdr.append(" ");
    hdr.append(pad_right("NAME", 20).as_str());
    hdr.append(" ");
    hdr.append(pad_right("CPU%", 8).as_str());
    hdr.append(" ");
    hdr.append(pad_right("MEMORY", 10).as_str());
    proof {
        assert(" "@ =~= seq![' ']);
        assert(hdr@ =~= spec_proc_header());
    }
    lines.push(hdr);
    proof {
        reveal_strlit("-");
        assert("-"@ =~= seq!['-']);
    }
    lines.push(repeated("-", 50));
    let order = top_process_order(&s.processes, c.display.max_processes_to_display);
    let mut i: usize = 0;
    while i < order.len()
        invariant
            i <= order@.len(),
            lines@.len() == 3 + i,
            spec_styled("TOP PROCESSES"@, lines@[0]@),
            lines@[1]@ == spec_proc_header(),
            lines@[2]@ == spec_repeat('-', 50),
            spec_top_order(s.processes@, c.display.max_processes_to_display as int, order@),
            forall|i2: int|
                0 <= i2 < i ==> spec_process_row(
                    s.processes@[(#[trigger] order@[i2]) as int],
                    lines@[3 + i2]@,
                ),
        decreases order@.len() - i,
    {
        let k = order[i];
        let p = &s.processes[k];
        let color = process_row_color(p.cpu_tenths, c.display.use_colors);
        proof {
            lemma_dec_no_escape(p.pid as nat);
        }
        let pid_txt = painted(fmt_u64(p.pid).as_str(), color);
        proof {
            reveal_strlit("%");
            reveal_strlit(" ");
            reveal_strlit("MB");
        }
        let mut cpu_txt = fmt_tenths(p.cpu_tenths as u64);
        cpu_txt.append("%");
        proof {
            assert("%"@ =~= seq!['%']);
            assert(cpu_txt@ == spec_tenths(p.cpu_tenths as nat) + seq!['%']);
            lemma_tenths_no_escape(p.cpu_tenths as nat);
            assert(spec_no_escape(seq!['%']));
            lemma_no_escape_concat(spec_tenths(p.cpu_tenths as nat), seq!['%']);
        }
        let cpu_painted = painted(cpu_txt.as_str(), color);
        let ghost pid_styled = pid_txt@;
        let ghost cpu_styled = cpu_painted@;
        let pid_part = pad_right(pid_txt.as_str(), 8);
        let name_part = pad_right(truncate_chars(p.name.as_str(), 20).as_str(), 20);
        let cpu_part = pad_right(cpu_painted.as_str(), 8);
        let mem_part = pad_right(fmt_tenths(mb_tenths(p.memory_bytes)).as_str(), 10);
        let mut row = pid_part;
        row.append(" ");
        row.append(name_part.as_str());
        row.append(" ");
        row.append(cpu_part.as_str());
        row.append(" ");
        row.append(mem_part.as_str());
        row.append("MB");
        proof {
            assert(" "@ =~= seq![' ']);
            let q = s.processes@[k as int];
            assert(spec_styled(spec_dec(q.pid as nat), pid_styled));
            assert(spec_styled(spec_tenths(q.cpu_tenths as nat) + seq!['%'], cpu_styled));
            assert(row@ =~= spec_pad_right(pid_styled, 8) + seq![' '] + spec_pad_right(
                spec_truncate(q.name@, 20),
                20,
            ) + seq![' '] + spec_pad_right(cpu_styled, 8) + seq![' '] + spec_pad_right(
                spec_tenths(spec_mb_tenths(q.memory_bytes as nat)),
                10,
            ) + "MB"@);
            lemma_process_row_intro(q, pid_styled, cpu_styled, row@);
        }
        lines.push(row);
        i = i + 1;
    }
    proof {
        assert(spec_top_order(s.processes@, c.display.max_processes_to_display as int, order@)
            && (forall|i2: int|
            0 <= i2 < order@.len() ==> spec_process_row(
                s.processes@[(#[trigger] order@[i2]) as int],
                lines@[3 + i2]@,
            )));
    }
    lines
}

/// The uptime line: whole hours, then the remaining whole minutes.
pub open spec fn spec_uptime_line(up: nat) -> Seq<char> {
    "Uptime:     "@ + spec_dec(up / 3600) + "h "@ + spec_dec((up % 3600) / 60) + "m"@
}

/// The load-average line, each value to two decimals.
pub open spec fn spec_load_line(l1: nat, l5: nat, l15: nat) -> Seq<char> {
    "Load Avg:   "@ + crate::textfmt::spec_hundredths(l1) + ", "@
        + crate::textfmt::spec_hundredths(l5) + ", "@ + crate::textfmt::spec_hundredths(l15)
}

/// The system section: heading, OS name and hostname when known, uptime and
/// load averages.
pub open spec fn spec_system_section_ok(s: Sample, lines: Seq<String>) -> bool {
    let extra = (if s.os_name is Some {
        1int
    } else {
        0int
    }) + (if s.hostname is Some {
        1int
    } else {
        0int
    });
    &&& lines.len() == 3 + extra
    &&& spec_styled("SYSTEM INFORMATION"@, lines[0]@)
    &&& (s.os_name matches Some(n) ==> lines[1]@ == "OS:         "@ + n@)
    &&& (s.os_name is Some ==> (s.hostname matches Some(h) ==> lines[2]@ == "Hostname:   "@ + h@))
    &&& (s.os_name is None ==> (s.hostname matches Some(h) ==> lines[1]@ == "Hostname:   "@ + h@))
    &&& lines[lines.len() - 2]@ == spec_uptime_line(s.uptime_seconds as nat)
    &&& lines[lines.len() - 1]@ == spec_load_line(
        s.load_one_hundredths as nat,
        s.load_five_hundredths as nat,
        s.load_fifteen_hundredths as nat,
    )
}

pub fn render_system_section(s: &Sample) -> (r: Vec<String>)
    ensures
        spec_system_section_ok(*s, r@),
{
    let mut lines: Vec<String> = Vec::new();
    proof {
        reveal_strlit("SYSTEM INFORMATION");
        assert(spec_no_escape("SYSTEM INFORMATION"@));
    }
    lines.push(cyan_bold("SYSTEM INFORMATION"));
    match &s.os_name {
        Some(n) => {
            lines.push(label_value_line("OS:         ", n.as_str()));
        },
        None => {},
    }
    match &s.hostname {
        Some(h) => {
            lines.push(label_value_line("Hostname:   ", h.as_str()));
        },
        None => {},
    }
    let (hours, minutes) = uptime_parts(s.uptime_seconds);
    proof {
        reveal_strlit("h ");
        reveal_strlit("m");
    }
    let mut up = "Uptime:     ".to_owned();
    up.append(fmt_u64(hours).as_str());
    up.append("h ");
    up.append(fmt_u64(minutes).as_str());
    up.append("m");
    proof {
        assert(up@ =~= spec_uptime_line(s.uptime_seconds as nat));
    }
    lines.push(up);
    proof {
        reveal_strlit(", ");
    }
    let mut load = "Load Avg:   ".to_owned();
    load.append(crate::textfmt::fmt_hundredths(s.load_one_hundredths).as_str());
    load.append(", ");
    load.append(crate::textfmt::fmt_hundredths(s.load_five_hundredths).as_str());
    load.append(", ");
    load.append(crate::textfmt::fmt_hundredths(s.load_fifteen_hundredths).as_str());
    proof {
        assert(load@ =~= spec_load_line(
            s.load_one_hundredths as nat,
            s.load_five_hundredths as nat,
            s.load_fifteen_hundredths as nat,
        ));
    }
    lines.push(load);
    lines
}

/// The banner and title of one redraw: two banner lines around the title line
/// carrying the cycle's timestamp, each inside the terminal layer's styling.
/// A timestamp holding the escape character would itself be re-styled, so the
/// title claim holds for escape-free timestamps (the clock's always are).
pub fn render_header(timestamp: &str) -> (r: Vec<String>)
    ensures
        r@.len() == 3,
        spec_styled("================================================"@, r@[0]@),
        spec_no_escape(timestamp@) ==> spec_styled(
            "       System Monitor - "@ + timestamp@,
            r@[1]@,
        ),
        spec_styled("================================================"@, r@[2]@),
{
    proof {
        reveal_strlit("================================================");
        assert(spec_no_escape("================================================"@));
        reveal_strlit("       System Monitor - ");
        assert(spec_no_escape("       System Monitor - "@));
        if spec_no_escape(timestamp@) {
            lemma_no_escape_concat("       System Monitor - "@, timestamp@);
        }
    }
    let mut lines: Vec<String> = Vec::new();
    lines.push(blue_bold("================================================"));
    let mut title = "       System Monitor - ".to_owned();
    title.append(timestamp);
    lines.push(blue_bold(title.as_str()));
    lines.push(blue_bold("================================================"));
    lines
}

/// The full dashboard of one cycle, every section in display order.
pub fn render_dashboard(s: &Sample, c: &Config, timestamp: &str) -> (r: Dashboard)
    requires
        s.wf(),
    ensures
        r.header@.len() == 3,
        spec_no_escape(timestamp@) ==> spec_styled(
            "       System Monitor - "@ + timestamp@,
            r.header@[1]@,
        ),
        spec_cpu_section_ok(*s, *c, r.cpu@),
        spec_memory_section_ok(*s, *c, r.memory@),
        spec_swap_line_ok(*s, *c, r.swap@),
        spec_disk_section_ok(*s, *c, r.disks@),
        spec_process_section_ok(*s, *c, r.processes@),
        spec_system_section_ok(*s, r.system@),
        spec_styled("Press Ctrl+C to exit..."@, r.footer@),
{
    proof {
        reveal_strlit("Press Ctrl+C to exit...");
        assert(spec_no_escape("Press Ctrl+C to exit..."@));
    }
    Dashboard {
        header: render_header(timestamp),
        cpu: render_cpu_section(s, c),
        memory: render_memory_section(s, c),
        swap: render_swap_line(s, c),
        disks: render_disk_section(s, c),
        processes: render_process_section(s, c),
        system: render_system_section(s),
        footer: bright_black("Press Ctrl+C to exit..."),
    }
}

} // verus!
