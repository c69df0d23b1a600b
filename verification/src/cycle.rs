use crate::alert::evaluate_metric;
use crate::alert::plan_log_alert;
use crate::alert::spec_alert_message;
use crate::alert::spec_log_entry;
use crate::alert::Alert;
use crate::alert::AlertOutput;
use crate::clock::local_timestamp;
use crate::config::Config;
use crate::sample::DiskInfo;
use crate::sample::Sample;
use crate::severity::spec_classify;
use crate::severity::Severity;
use crate::usage::spec_usage_tenths;
use vstd::prelude::*;
use vstd::string::StringExecFns;

verus! {

/// A value breaches when it sits at or above either threshold.
pub open spec fn spec_breach(value: int, warning: int, critical: int) -> bool {
    value >= critical || value >= warning
}

/// The alert a single metric contributes: category, value (tenths of a
/// percent) and severity; empty when nothing breaches.
pub open spec fn spec_metric_alert(cat: Seq<char>, value: int, w: int, c: int) -> Seq<
    (Seq<char>, int, Severity),
> {
    if spec_breach(value, w, c) {
        seq![(cat, value, spec_classify(value, w, c))]
    } else {
        Seq::empty()
    }
}

/// Disk alerts carry the mount point in their category.
pub open spec fn spec_disk_category(mount: Seq<char>) -> Seq<char> {
    "Disk "@ + mount
}

/// Utilization of one volume in tenths of a percent.
pub open spec fn spec_disk_usage(d: DiskInfo) -> int {
    spec_usage_tenths(d.spec_used() as nat, d.total_bytes as nat) as int
}

/// The alerts the volumes contribute, in provider order.
pub open spec fn spec_disk_alerts(disks: Seq<DiskInfo>, w: int, c: int) -> Seq<
    (Seq<char>, int, Severity),
>
    decreases disks.len(),
{
    if disks.len() == 0 {
        Seq::empty()
    } else {
        spec_disk_alerts(disks.drop_last(), w, c) + spec_metric_alert(
            spec_disk_category(disks.last().mount_point@),
            spec_disk_usage(disks.last()),
            w,
            c,
        )
    }
}

/// Every alert one cycle raises, in evaluation order: CPU, memory, swap (only
/// when swap exists), then each volume. A sample without swap contributes no
/// swap entry whatever the thresholds.
pub open spec fn spec_alerts(s: Sample, c: Config) -> Seq<(Seq<char>, int, Severity)> {
    spec_metric_alert(
        "CPU"@,
        s.cpu_tenths as int,
        c.thresholds.cpu_warning as int,
        c.thresholds.cpu_critical as int,
    ) + spec_metric_alert(
        "Memory"@,
        s.spec_memory_usage() as int,
        c.thresholds.memory_warning as int,
        c.thresholds.memory_critical as int,
    ) + (if s.total_swap > 0 {
        spec_metric_alert(
            "Swap"@,
            s.spec_swap_usage() as int,
            c.thresholds.swap_warning as int,
            c.thresholds.swap_critical as int,
        )
    } else {
        Seq::empty()
    }) + spec_disk_alerts(
        s.disks@,
        c.thresholds.disk_warning as int,
        c.thresholds.disk_critical as int,
    )
}

/// An alert record agrees with its description: same category, value and
/// severity, the severity is a real breach, and the message is the formatted
/// text for exactly those.
pub open spec fn spec_alert_matches(a: Alert, d: (Seq<char>, int, Severity)) -> bool {
    &&& a.category@ == d.0
    &&& a.value_tenths as int == d.1
    &&& a.severity == d.2
    &&& a.severity != Severity::Normal
    &&& a.message@ == spec_alert_message(d.0, d.1 as nat, d.2)
}

pub open spec fn spec_alerts_match(alerts: Seq<Alert>, ds: Seq<(Seq<char>, int, Severity)>) -> bool {
    &&& alerts.len() == ds.len()
    &&& forall|i: int| 0 <= i < ds.len() ==> spec_alert_matches(#[trigger] alerts[i], ds[i])
}

proof fn lemma_match_push(
    alerts: Seq<Alert>,
    ds: Seq<(Seq<char>, int, Severity)>,
    a: Alert,
    d: (Seq<char>, int, Severity),
)
    requires
        spec_alerts_match(alerts, ds),
        spec_alert_matches(a, d),
    ensures
        spec_alerts_match(alerts.push(a), ds.push(d)),
{
    assert forall|i: int|
        0 <= i < ds.push(d).len() implies spec_alert_matches(
        #[trigger] alerts.push(a)[i],
        ds.push(d)[i],
    ) by {
        if i < ds.len() {
            assert(alerts.push(a)[i] == alerts[i]);
            assert(ds.push(d)[i] == ds[i]);
        } else {
            assert(alerts.push(a)[i] == a);
            assert(ds.push(d)[i] == d);
        }
    }
}

/// Checks one metric and appends its alert, if any, keeping the record list
/// aligned with its description list.
fn push_metric_alert(
    r: &mut Vec<Alert>,
    Ghost(ds): Ghost<Seq<(Seq<char>, int, Severity)>>,
    category: &str,
    usage: u32,
    warning: u32,
    critical: u32,
) -> (ds2: Ghost<Seq<(Seq<char>, int, Severity)>>)
    requires
        spec_alerts_match(old(r)@, ds),
    ensures
        ds2@ == ds + spec_metric_alert(
            category@,
            usage as int,
            warning as int,
            critical as int,
        ),
        spec_alerts_match(final(r)@, ds2@),
{
    let ghost m = spec_metric_alert(category@, usage as int, warning as int, critical as int);
    match evaluate_metric(category, usage, warning, critical) {
        Some(a) => {
            proof {
                assert(spec_alert_matches(a, m[0]));
                lemma_match_push(r@, ds, a, m[0]);
                assert(ds.push(m[0]) =~= ds + m);
            }
            r.push(a);
        },
        None => {
            proof {
                assert(ds =~= ds + m);
            }
        },
    }
    Ghost(ds + m)
}

/// Evaluates every metric of the sample against the configured thresholds.
/// The result is exactly the cycle's alert list: one record per breaching
/// metric, in evaluation order, each with the classified severity and the
/// formatted message.
pub fn evaluate_alerts(s: &Sample, c: &Config) -> (r: Vec<Alert>)
    requires
        s.wf(),
    ensures
        spec_alerts_match(r@, spec_alerts(*s, *c)),
{
    let mut r: Vec<Alert> = Vec::new();
    let ghost ds0: Seq<(Seq<char>, int, Severity)> = Seq::empty();
    let Ghost(ds1) = push_metric_alert(
        &mut r,
        Ghost(ds0),
        "CPU",
        s.cpu_tenths,
        c.thresholds.cpu_warning,
        c.thresholds.cpu_critical,
    );
    let mem = s.memory_usage_tenths();
    let Ghost(ds2) = push_metric_alert(
        &mut r,
        Ghost(ds1),
        "Memory",
        mem,
        c.thresholds.memory_warning,
        c.thresholds.memory_critical,
    );
    let mut ds_cur: Ghost<Seq<(Seq<char>, int, Severity)>> = Ghost(ds2);
    if s.total_swap > 0 {
        let swp = s.swap_usage_tenths();
        ds_cur = push_metric_alert(
            &mut r,
            Ghost(ds2),
            "Swap",
            swp,
            c.thresholds.swap_warning,
            c.thresholds.swap_critical,
        );
    }
    let ghost base = ds_cur@;
    let ghost dw = c.thresholds.disk_warning as int;
    let ghost dc = c.thresholds.disk_critical as int;
    let mut i: usize = 0;
    while i < s.disks.len()
        invariant
            s.wf(),
            i <= s.disks@.len(),
            c.thresholds.disk_warning as int == dw,
            c.thresholds.disk_critical as int == dc,
            spec_alerts_match(r@, base + spec_disk_alerts(s.disks@.take(i as int), dw, dc)),
        decreases s.disks@.len() - i,
    {
        let disk = &s.disks[i];
        let usage = disk.usage_tenths();
        proof {
            reveal_strlit("Disk ");
        }
        let mut cat = "Disk ".to_owned();
        cat.append(disk.mount_point.as_str());
        let ghost before = base + spec_disk_alerts(s.disks@.take(i as int), dw, dc);
        let Ghost(after) = push_metric_alert(
            &mut r,
            Ghost(before),
            cat.as_str(),
            usage,
            c.thresholds.disk_warning,
            c.thresholds.disk_critical,
        );
        proof {
            let taken = s.disks@.take(i + 1);
            assert(taken.drop_last() =~= s.disks@.take(i as int));
            assert(taken.last() == s.disks@[i as int]);
            assert(cat@ == spec_disk_category(disk.mount_point@));
            assert(after =~= base + spec_disk_alerts(taken, dw, dc));
        }
        i = i + 1;
    }
    proof {
        assert(s.disks@.take(s.disks@.len() as int) =~= s.disks@);
        assert(base + spec_disk_alerts(s.disks@, dw, dc) =~= spec_alerts(*s, *c));
    }
    r
}

proof fn lemma_disk_alert_categories(disks: Seq<DiskInfo>, w: int, c: int)
    ensures
        forall|i: int|
            0 <= i < spec_disk_alerts(disks, w, c).len() ==> (#[trigger] spec_disk_alerts(
                disks,
                w,
                c,
            )[i]).0.len() >= 5,
    decreases disks.len(),
{
    reveal_strlit("Disk ");
    if disks.len() == 0 {
    } else {
        lemma_disk_alert_categories(disks.drop_last(), w, c);
        let pre = spec_disk_alerts(disks.drop_last(), w, c);
        let m = spec_metric_alert(
            spec_disk_category(disks.last().mount_point@),
            spec_disk_usage(disks.last()),
            w,
            c,
        );
        assert forall|i: int|
            0 <= i < spec_disk_alerts(disks, w, c).len() implies (#[trigger] spec_disk_alerts(
            disks,
            w,
            c,
        )[i]).0.len() >= 5 by {
            if i < pre.len() {
                assert(spec_disk_alerts(disks, w, c)[i] == pre[i]);
            } else {
                assert(spec_disk_alerts(disks, w, c)[i] == m[i - pre.len()]);
            }
        }
    }
}

/// A sample without swap contributes no swap alert, whatever the thresholds:
/// no alert of such a cycle carries the swap category.
pub proof fn lemma_swap_absent_no_swap_alert(s: Sample, c: Config)
    requires
        s.total_swap == 0,
    ensures
        forall|i: int|
            0 <= i < spec_alerts(s, c).len() ==> (#[trigger] spec_alerts(s, c)[i]).0 != "Swap"@,
{
    reveal_strlit("CPU");
    reveal_strlit("Memory");
    reveal_strlit("Swap");
    let p1 = spec_metric_alert(
        "CPU"@,
        s.cpu_tenths as int,
        c.thresholds.cpu_warning as int,
        c.thresholds.cpu_critical as int,
    );
    let p2 = spec_metric_alert(
        "Memory"@,
        s.spec_memory_usage() as int,
        c.thresholds.memory_warning as int,
        c.thresholds.memory_critical as int,
    );
    let p4 = spec_disk_alerts(
        s.disks@,
        c.thresholds.disk_warning as int,
        c.thresholds.disk_critical as int,
    );
    lemma_disk_alert_categories(
        s.disks@,
        c.thresholds.disk_warning as int,
        c.thresholds.disk_critical as int,
    );
    assert(spec_alerts(s, c) == p1 + p2 + Seq::<(Seq<char>, int, Severity)>::empty() + p4);
    assert forall|i: int|
        0 <= i < spec_alerts(s, c).len() implies (#[trigger] spec_alerts(s, c)[i]).0
        != "Swap"@ by {
        let whole = p1 + p2 + Seq::<(Seq<char>, int, Severity)>::empty() + p4;
        if i < p1.len() {
            assert(whole[i] == p1[i]);
            assert(whole[i].0.len() == 3);
        } else if i < p1.len() + p2.len() {
            assert(whole[i] == p2[i - p1.len()]);
            assert(whole[i].0.len() == 6);
        } else {
            assert(whole[i] == p4[i - p1.len() - p2.len()]);
            assert(whole[i].0.len() >= 5);
        }
        assert("Swap"@.len() == 4);
    }
}

/// What one cycle hands back for its side effects: the alerts, and for each
/// alert the planned log line and runtime diagnostic.
pub struct CycleAlerts {
    pub alerts: Vec<Alert>,
    pub outputs: Vec<AlertOutput>,
}

/// Evaluates the cycle's alerts and plans their logging: one output per
/// alert, its file line present exactly when alert logging is enabled, its
/// diagnostic always carrying the alert message.
pub fn plan_cycle_alerts(s: &Sample, c: &Config, timestamp: &str) -> (r: CycleAlerts)
    requires
        s.wf(),
    ensures
        spec_alerts_match(r.alerts@, spec_alerts(*s, *c)),
        r.outputs@.len() == r.alerts@.len(),
        forall|i: int|
            0 <= i < r.outputs@.len() ==> ((#[trigger] r.outputs@[i].log_line) is Some
                <==> c.general.log_alerts),
        forall|i: int|
            0 <= i < r.outputs@.len() ==> ((#[trigger] r.outputs@[i].log_line) matches Some(line)
                ==> line@ == spec_log_entry(timestamp@, r.alerts@[i].message@)),
        forall|i: int|
            0 <= i < r.outputs@.len() ==> (#[trigger] r.outputs@[i].diagnostic)@
                == r.alerts@[i].message@,
{
    let alerts = evaluate_alerts(s, c);
    let mut outputs: Vec<AlertOutput> = Vec::new();
    let mut i: usize = 0;
    while i < alerts.len()
        invariant
            i <= alerts@.len(),
            outputs@.len() == i,
            forall|j: int|
                0 <= j < i ==> ((#[trigger] outputs@[j].log_line) is Some
                    <==> c.general.log_alerts),
            forall|j: int|
                0 <= j < i ==> ((#[trigger] outputs@[j].log_line) matches Some(line) ==> line@
                    == spec_log_entry(timestamp@, alerts@[j].message@)),
            forall|j: int|
                0 <= j < i ==> (#[trigger] outputs@[j].diagnostic)@ == alerts@[j].message@,
        decreases alerts@.len() - i,
    {
        let out = plan_log_alert(alerts[i].message.as_str(), c.general.log_alerts, timestamp);
        outputs.push(out);
        i = i + 1;
    }
    CycleAlerts { alerts, outputs }
}

/// Every present log line of the cycle is the entry for its alert's message
/// at the one given timestamp.
pub open spec fn spec_logged_at(ts: Seq<char>, alerts: Seq<Alert>, outputs: Seq<AlertOutput>) -> bool {
    forall|i: int|
        0 <= i < outputs.len() ==> ((#[trigger] outputs[i].log_line) matches Some(line) ==> line@
            == spec_log_entry(ts, alerts[i].message@))
}

/// Plans the cycle's alerts against the current local time, as read from the
/// system clock: one clock read stamps every log line of the cycle, though
/// the timestamp's value is whatever the clock gave.
pub fn plan_cycle_alerts_now(s: &Sample, c: &Config) -> (r: CycleAlerts)
    requires
        s.wf(),
    ensures
        spec_alerts_match(r.alerts@, spec_alerts(*s, *c)),
        r.outputs@.len() == r.alerts@.len(),
        forall|i: int|
            0 <= i < r.outputs@.len() ==> ((#[trigger] r.outputs@[i].log_line) is Some
                <==> c.general.log_alerts),
        exists|ts: Seq<char>| #[trigger] spec_logged_at(ts, r.alerts@, r.outputs@),
        forall|i: int|
            0 <= i < r.outputs@.len() ==> (#[trigger] r.outputs@[i].diagnostic)@
                == r.alerts@[i].message@,
{
    let ts = local_timestamp();
    let r = plan_cycle_alerts(s, c, ts.as_str());
    proof {
        assert(spec_logged_at(ts@, r.alerts@, r.outputs@));
    }
    r
}

} // verus!
