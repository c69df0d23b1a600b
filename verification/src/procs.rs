use vstd::prelude::*;

verus! {

/// One process row of a sample: identifier, name, CPU in tenths of a percent,
/// and resident memory in bytes.
pub struct ProcessInfo {
    pub pid: u64,
    pub name: String,
    pub cpu_tenths: u32,
    pub memory_bytes: u64,
}

/// Display order on positions of the process list: by CPU descending, ties by
/// original position ascending (the provider's stable order).
pub open spec fn spec_rank_before(procs: Seq<ProcessInfo>, a: int, b: int) -> bool {
    procs[a].cpu_tenths > procs[b].cpu_tenths || (procs[a].cpu_tenths == procs[b].cpu_tenths && a
        <= b)
}

/// All positions in `ix` are in range and stand in display order.
pub open spec fn spec_ranked(procs: Seq<ProcessInfo>, ix: Seq<usize>) -> bool {
    &&& forall|i: int| 0 <= i < ix.len() ==> (#[trigger] ix[i]) < procs.len()
    &&& forall|i: int, j: int|
        0 <= i < j < ix.len() ==> spec_rank_before(procs, ix[i] as int, ix[j] as int)
}

fn rank_before_exec(procs: &Vec<ProcessInfo>, a: usize, b: usize) -> (r: bool)
    requires
        a < procs@.len(),
        b < procs@.len(),
    ensures
        r == spec_rank_before(procs@, a as int, b as int),
{
    let ca = procs[a].cpu_tenths;
    let cb = procs[b].cpu_tenths;
    ca > cb || (ca == cb && a <= b)
}

/// Inserts position `e` into an ordered position list, keeping the order and
/// every position already present.
fn insert_rank(procs: &Vec<ProcessInfo>, ix: &mut Vec<usize>, e: usize)
    requires
        spec_ranked(procs@, old(ix)@),
        e < procs@.len(),
    ensures
        spec_ranked(procs@, final(ix)@),
        final(ix)@.len() == old(ix)@.len() + 1,
        forall|k: usize| old(ix)@.contains(k) ==> final(ix)@.contains(k),
        final(ix)@.contains(e),
        exists|p: int| 0 <= p <= old(ix)@.len() && final(ix)@ == old(ix)@.insert(p, e),
{
    let mut p: usize = 0;
    while p < ix.len() && rank_before_exec(procs, ix[p], e)
        invariant
            p <= ix@.len(),
            ix@ == old(ix)@,
            spec_ranked(procs@, ix@),
            e < procs@.len(),
            forall|i: int| 0 <= i < p ==> spec_rank_before(procs@, ix@[i] as int, e as int),
        decreases ix@.len() - p,
    {
        p = p + 1;
    }
    let ghost prev = ix@;
    let ghost pos = p as int;
    proof {
        // the order is total: where ix[p] does not come before e, e comes before it
        if pos < prev.len() {
            assert(spec_rank_before(procs@, e as int, prev[pos] as int));
        }
        prev.insert_ensures(pos, e);
    }
    ix.insert(p, e);
    proof {
        assert(ix@ == prev.insert(pos, e));
        assert(ix@.contains(e)) by {
            assert(ix@[pos] == e);
        }
        assert forall|k: usize| prev.contains(k) implies ix@.contains(k) by {
            let i = choose|i: int| 0 <= i < prev.len() && prev[i] == k;
            if i < pos {
                assert(ix@[i] == k);
            } else {
                assert(ix@[i + 1] == k);
            }
        }
        assert forall|i: int, j: int| 0 <= i < j < ix@.len() implies spec_rank_before(
            procs@,
            ix@[i] as int,
            ix@[j] as int,
        ) by {
            if i < pos && j < pos {
            } else if i < pos && j == pos {
            } else if i < pos && j > pos {
                assert(ix@[j] == prev[j - 1]);
            } else if i == pos && j > pos {
                // e comes before every element at or past the insertion point
                assert(ix@[j] == prev[j - 1]);
                if pos < prev.len() {
                    assert(spec_rank_before(procs@, e as int, prev[pos] as int));
                    if j - 1 > pos {
                        assert(spec_rank_before(procs@, prev[pos] as int, prev[j - 1] as int));
                    }
                }
            } else {
                assert(ix@[i] == prev[i - 1]);
                assert(ix@[j] == prev[j - 1]);
            }
        }
    }
}

/// The full display ranking of the process list: every position exactly once,
/// ordered by CPU descending with ties kept in the provider's order.
pub fn rank_processes(procs: &Vec<ProcessInfo>) -> (ix: Vec<usize>)
    ensures
        ix@.len() == procs@.len(),
        spec_ranked(procs@, ix@),
        forall|k: usize| (k as int) < procs@.len() ==> ix@.contains(k),
        forall|i: int, j: int| 0 <= i < j < ix@.len() ==> ix@[i] != ix@[j],
{
    let mut ix: Vec<usize> = Vec::new();
    let mut k: usize = 0;
    while k < procs.len()
        invariant
            k <= procs@.len(),
            ix@.len() == k,
            spec_ranked(procs@, ix@),
            forall|j: usize| (j as int) < k ==> ix@.contains(j),
            forall|j: int| 0 <= j < ix@.len() ==> (#[trigger] ix@[j]) < k,
            forall|i1: int, j1: int| 0 <= i1 < j1 < ix@.len() ==> ix@[i1] != ix@[j1],
        decreases procs@.len() - k,
    {
        let ghost prev = ix@;
        insert_rank(procs, &mut ix, k);
        proof {
            let p = choose|p: int| 0 <= p <= prev.len() && ix@ == prev.insert(p, k);
            prev.insert_ensures(p, k);
            assert forall|j: int| 0 <= j < ix@.len() implies (#[trigger] ix@[j]) < k + 1 by {
                if j < p {
                    assert(ix@[j] == prev[j]);
                } else if j == p {
                } else {
                    assert(ix@[j] == prev[j - 1]);
                }
            }
            assert forall|i1: int, j1: int| 0 <= i1 < j1 < ix@.len() implies ix@[i1]
                != ix@[j1] by {
                if i1 != p && j1 != p {
                    let a = if i1 < p {
                        i1
                    } else {
                        i1 - 1
                    };
                    let b = if j1 < p {
                        j1
                    } else {
                        j1 - 1
                    };
                    assert(ix@[i1] == prev[a]);
                    assert(ix@[j1] == prev[b]);
                } else if i1 == p {
                    assert(ix@[i1] == k);
                    assert(ix@[j1] == prev[j1 - 1]);
                } else {
                    assert(ix@[j1] == k);
                    assert(ix@[i1] == prev[if i1 < p {
                        i1
                    } else {
                        i1 - 1
                    }]);
                }
            }
        }
        k = k + 1;
    }
    ix
}

/// The display selection: as many positions as fit the maximum, each at most
/// once, in display order, and no hidden position outranking a shown one.
pub open spec fn spec_top_order(procs: Seq<ProcessInfo>, max: int, ix: Seq<usize>) -> bool {
    &&& ix.len() == (if max <= procs.len() {
        max
    } else {
        procs.len() as int
    })
    &&& spec_ranked(procs, ix)
    &&& forall|i: int, j: int| 0 <= i < j < ix.len() ==> ix[i] != ix[j]
    &&& forall|i: int, k: usize|
        0 <= i < ix.len() && (k as int) < procs.len() && !ix.contains(k) ==> spec_rank_before(
            procs,
            ix[i] as int,
            k as int,
        )
}

/// Positions of the processes to display: at most `max` of them, each at most
/// once, in display order, and no hidden process outranks a shown one.
pub fn top_process_order(procs: &Vec<ProcessInfo>, max: usize) -> (ix: Vec<usize>)
    ensures
        spec_top_order(procs@, max as int, ix@),
{
    let mut full = rank_processes(procs);
    let ghost whole = full@;
    let cut: usize = if max <= full.len() {
        max
    } else {
        full.len()
    };
    full.truncate(cut);
    proof {
        assert(full@ =~= whole.subrange(0, cut as int));
        assert forall|i: int, k: usize|
            0 <= i < full@.len() && (k as int) < procs@.len() && !full@.contains(k)
                implies spec_rank_before(procs@, full@[i] as int, k as int) by {
            assert(whole.contains(k));
            let p = choose|p: int| 0 <= p < whole.len() && whole[p] == k;
            // k sits past the cut, else the shown prefix would contain it
            assert(p >= cut) by {
                if p < cut {
                    assert(full@[p] == k);
                }
            }
            if i < p {
                assert(spec_rank_before(procs@, whole[i] as int, whole[p] as int));
            }
        }
    }
    full
}

} // verus!
