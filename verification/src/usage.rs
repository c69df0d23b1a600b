use vstd::arithmetic::div_mod::lemma_div_is_ordered;
use vstd::arithmetic::div_mod::lemma_div_multiples_vanish;
use vstd::arithmetic::mul::lemma_mul_inequality;
use vstd::prelude::*;

verus! {

/// Utilization in tenths of a percent. A zero-capacity resource reads as
/// zero usage rather than a division error.
pub open spec fn spec_usage_tenths(used: nat, total: nat) -> nat {
    if total == 0 {
        0
    } else {
        used * 1000 / total
    }
}

pub fn usage_tenths(used: u64, total: u64) -> (r: u32)
    requires
        used <= total,
    ensures
        r == spec_usage_tenths(used as nat, total as nat),
        r <= 1000,
{
    if total == 0 {
        0u32
    } else {
        let q: u128 = (used as u128) * 1000 / (total as u128);
        proof {
            lemma_mul_inequality(used as int, total as int, 1000);
            lemma_div_is_ordered(used as int * 1000, total as int * 1000, total as int);
            lemma_div_multiples_vanish(1000, total as int);
        }
        q as u32
    }
}

/// Bytes rendered as tenths of a gibibyte, rounded to the nearest tenth.
pub open spec fn spec_gb_tenths(bytes: nat) -> nat {
    (bytes * 10 + 536870912) / 1073741824
}

pub fn gb_tenths(bytes: u64) -> (r: u64)
    ensures
        r == spec_gb_tenths(bytes as nat),
{
    let q: u128 = ((bytes as u128) * 10 + 536870912) / 1073741824;
    proof {
        lemma_mul_inequality(bytes as int, u64::MAX as int, 10);
        lemma_div_is_ordered(
            bytes as int * 10 + 536870912,
            u64::MAX as int * 10 + 536870912,
            1073741824,
        );
    }
    q as u64
}

/// Bytes rendered as tenths of a mebibyte, rounded to the nearest tenth.
pub open spec fn spec_mb_tenths(bytes: nat) -> nat {
    (bytes * 10 + 524288) / 1048576
}

pub fn mb_tenths(bytes: u64) -> (r: u64)
    ensures
        r == spec_mb_tenths(bytes as nat),
{
    let q: u128 = ((bytes as u128) * 10 + 524288) / 1048576;
    proof {
        lemma_mul_inequality(bytes as int, u64::MAX as int, 10);
        lemma_div_is_ordered(
            bytes as int * 10 + 524288,
            u64::MAX as int * 10 + 524288,
            1048576,
        );
    }
    q as u64
}

/// Uptime split into whole hours and the remaining whole minutes.
pub fn uptime_parts(uptime_seconds: u64) -> (r: (u64, u64))
    ensures
        r.0 == uptime_seconds as int / 3600,
        r.1 == (uptime_seconds as int % 3600) / 60,
        r.1 < 60,
{
    let hours = uptime_seconds / 3600;
    let minutes = (uptime_seconds % 3600) / 60;
    (hours, minutes)
}

} // verus!
