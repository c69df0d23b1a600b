use system_monitor::procs::rank_processes;
use system_monitor::procs::top_process_order;
use system_monitor::procs::ProcessInfo;

fn proc(pid: u64, name: &str, cpu_tenths: u32) -> ProcessInfo {
    ProcessInfo { pid, name: name.to_string(), cpu_tenths, memory_bytes: 1024 }
}

#[test]
fn rank_sorts_descending_by_cpu() {
    let procs = vec![proc(1, "a", 100), proc(2, "b", 900), proc(3, "c", 500)];
    let ix = rank_processes(&procs);
    assert_eq!(ix, vec![1, 2, 0]);
}

#[test]
fn rank_keeps_provider_order_on_ties() {
    // equal CPU values stay in their original order
    let procs = vec![proc(1, "a", 500), proc(2, "b", 900), proc(3, "c", 500), proc(4, "d", 500)];
    let ix = rank_processes(&procs);
    assert_eq!(ix, vec![1, 0, 2, 3]);
}

#[test]
fn top_order_respects_maximum() {
    let procs = vec![proc(1, "a", 100), proc(2, "b", 900), proc(3, "c", 500), proc(4, "d", 700)];
    let ix = top_process_order(&procs, 2);
    assert_eq!(ix.len(), 2);
    assert_eq!(ix, vec![1, 3]);
    // and the shown ones are sorted descending
    assert!(procs[ix[0]].cpu_tenths >= procs[ix[1]].cpu_tenths);
}

#[test]
fn top_order_with_max_beyond_length() {
    let procs = vec![proc(1, "a", 100), proc(2, "b", 900)];
    let ix = top_process_order(&procs, 10);
    assert_eq!(ix, vec![1, 0]);
}

#[test]
fn top_order_of_empty_list() {
    let procs: Vec<ProcessInfo> = vec![];
    assert_eq!(top_process_order(&procs, 10).len(), 0);
}
