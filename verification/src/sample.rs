use crate::procs::ProcessInfo;
use crate::usage::spec_usage_tenths;
use crate::usage::usage_tenths;
use vstd::prelude::*;

verus! {

/// One mounted volume: its mount point and total/available space in bytes.
pub struct DiskInfo {
    pub mount_point: String,
    pub total_bytes: u64,
    pub available_bytes: u64,
}

impl DiskInfo {
    /// Within a sample, available space never exceeds capacity.
    pub open spec fn wf(&self) -> bool {
        self.available_bytes <= self.total_bytes
    }

    /// Space in use: capacity less what is available.
    pub open spec fn spec_used(&self) -> int {
        self.total_bytes - self.available_bytes
    }

    pub fn used_bytes(&self) -> (r: u64)
        requires
            self.wf(),
        ensures
            r == self.spec_used(),
    {
        self.total_bytes - self.available_bytes
    }

    /// Utilization of the volume in tenths of a percent. A volume with zero
    /// capacity reads as zero usage, never a division error.
    pub fn usage_tenths(&self) -> (r: u32)
        requires
            self.wf(),
        ensures
            r == spec_usage_tenths(self.spec_used() as nat, self.total_bytes as nat),
            self.total_bytes == 0 ==> r == 0,
            r <= 1000,
    {
        usage_tenths(self.used_bytes(), self.total_bytes)
    }
}

/// One refresh's worth of metrics, constructed fresh each cycle and consumed
/// synchronously. Utilization values are in tenths of a percent; load
/// averages are in hundredths.
pub struct Sample {
    pub cpu_tenths: u32,
    pub per_core_tenths: Vec<u32>,
    pub total_memory: u64,
    pub used_memory: u64,
    pub available_memory: u64,
    pub total_swap: u64,
    pub used_swap: u64,
    pub disks: Vec<DiskInfo>,
    pub processes: Vec<ProcessInfo>,
    pub os_name: Option<String>,
    pub hostname: Option<String>,
    pub uptime_seconds: u64,
    pub load_one_hundredths: u64,
    pub load_five_hundredths: u64,
    pub load_fifteen_hundredths: u64,
}

impl Sample {
    /// What the metric provider guarantees of a snapshot: used never exceeds
    /// total, for memory, swap and every volume.
    pub open spec fn wf(&self) -> bool {
        &&& self.used_memory <= self.total_memory
        &&& self.used_swap <= self.total_swap
        &&& forall|i: int| 0 <= i < self.disks@.len() ==> (#[trigger] self.disks@[i]).wf()
    }

    /// Memory utilization in tenths of a percent.
    pub open spec fn spec_memory_usage(&self) -> nat {
        spec_usage_tenths(self.used_memory as nat, self.total_memory as nat)
    }

    pub fn memory_usage_tenths(&self) -> (r: u32)
        requires
            self.wf(),
        ensures
            r == self.spec_memory_usage(),
            r <= 1000,
    {
        usage_tenths(self.used_memory, self.total_memory)
    }

    /// Swap utilization in tenths of a percent; zero when there is no swap.
    pub open spec fn spec_swap_usage(&self) -> nat {
        spec_usage_tenths(self.used_swap as nat, self.total_swap as nat)
    }

    pub fn swap_usage_tenths(&self) -> (r: u32)
        requires
            self.wf(),
        ensures
            r == self.spec_swap_usage(),
            self.total_swap == 0 ==> r == 0,
            r <= 1000,
    {
        usage_tenths(self.used_swap, self.total_swap)
    }
}

} // verus!
