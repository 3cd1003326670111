//! Aggregation of mounted-volume capacities: the total across all volumes and
//! the used portion, derived as total minus available, clamped so a stale
//! reading with more available than total space never underflows.

use vstd::prelude::*;
use crate::text::{format_size, size_text};

verus! {

/// Capacity figures of one mounted volume, in bytes.
pub struct VolumeSpace {
    pub total: u64,
    pub available: u64,
}

impl VolumeSpace {
    pub fn new(total: u64, available: u64) -> (r: VolumeSpace)
        ensures
            r.total == total,
            r.available == available,
    {
        VolumeSpace { total, available }
    }
}

/// `x` clamped to the unsigned 64-bit range from above.
pub open spec fn sat64(x: int) -> int {
    if x > u64::MAX as int {
        u64::MAX as int
    } else {
        x
    }
}

/// Sum of the volumes' total capacities, unbounded.
pub open spec fn sum_totals(vs: Seq<VolumeSpace>) -> int
    decreases vs.len(),
{
    if vs.len() == 0 {
        0
    } else {
        sum_totals(vs.drop_last()) + vs.last().total
    }
}

/// Sum of the volumes' available capacities, unbounded.
pub open spec fn sum_available(vs: Seq<VolumeSpace>) -> int
    decreases vs.len(),
{
    if vs.len() == 0 {
        0
    } else {
        sum_available(vs.drop_last()) + vs.last().available
    }
}

/// Aggregate capacity reported for a volume set.
pub open spec fn total_bytes(vs: Seq<VolumeSpace>) -> int {
    sat64(sum_totals(vs))
}

/// Aggregate available space reported for a volume set.
pub open spec fn available_bytes(vs: Seq<VolumeSpace>) -> int {
    sat64(sum_available(vs))
}

/// Aggregate used space: total minus available, clamped to zero when the
/// available figure exceeds the total.
pub open spec fn used_bytes(vs: Seq<VolumeSpace>) -> int {
    if available_bytes(vs) > total_bytes(vs) {
        0
    } else {
        total_bytes(vs) - available_bytes(vs)
    }
}

pub proof fn lemma_sums_nonneg(vs: Seq<VolumeSpace>)
    ensures
        sum_totals(vs) >= 0,
        sum_available(vs) >= 0,
    decreases vs.len(),
{
    if vs.len() > 0 {
        lemma_sums_nonneg(vs.drop_last());
    }
}

/// For every volume set, the used figure never exceeds the total figure and
/// never goes negative, whatever each volume reported.
pub proof fn lemma_used_never_exceeds_total(vs: Seq<VolumeSpace>)
    ensures
        0 <= used_bytes(vs) <= total_bytes(vs),
{
    lemma_sums_nonneg(vs);
}

fn sat_add(a: u64, b: u64) -> (r: u64)
    ensures
        r as int == sat64(a as int + b as int),
{
    if b <= u64::MAX - a {
        a + b
    } else {
        u64::MAX
    }
}

fn sum_spaces(volumes: &Vec<VolumeSpace>) -> (r: (u64, u64))
    ensures
        r.0 as int == total_bytes(volumes@),
        r.1 as int == available_bytes(volumes@),
{
    let n = volumes.len();
    let mut total: u64 = 0;
    let mut available: u64 = 0;
    let mut i: usize = 0;
    while i < n
        invariant
            n == volumes@.len(),
            0 <= i <= n,
            total as int == sat64(sum_totals(volumes@.take(i as int))),
            available as int == sat64(sum_available(volumes@.take(i as int))),
        decreases n - i,
    {
        proof {
            let taken = volumes@.take(i + 1);
            assert(taken.drop_last() =~= volumes@.take(i as int));
            assert(taken.last() == volumes@[i as int]);
            lemma_sums_nonneg(volumes@.take(i as int));
        }
        total = sat_add(total, volumes[i].total);
        available = sat_add(available, volumes[i].available);
        i += 1;
    }
    proof {
        assert(volumes@.take(n as int) =~= volumes@);
    }
    (total, available)
}

/// Aggregate capacity of `volumes`, saturating at the unsigned 64-bit limit.
pub fn storage_total_of(volumes: &Vec<VolumeSpace>) -> (r: u64)
    ensures
        r as int == total_bytes(volumes@),
{
    let (total, _available) = sum_spaces(volumes);
    total
}

/// Aggregate used space of `volumes`: total minus available, clamped to zero
/// rather than underflowing when available exceeds total.
pub fn storage_used_of(volumes: &Vec<VolumeSpace>) -> (r: u64)
    ensures
        r as int == used_bytes(volumes@),
{
    let (total, available) = sum_spaces(volumes);
    if available > total {
        0
    } else {
        total - available
    }
}

/// Relies on sysinfo::Disks::new_with_refreshed_list, sysinfo::Disks::list,
/// sysinfo::Disk::total_space and sysinfo::Disk::available_space: the total
/// and available capacity in bytes of each currently mounted volume.
#[verifier::external_body]
fn volume_spaces() -> Vec<VolumeSpace> {
    sysinfo::Disks::new_with_refreshed_list()
        .list()
        .iter()
        .map(|d| VolumeSpace::new(d.total_space(), d.available_space()))
        .collect()
}

/// Formatted used space across all mounted volumes, from a fresh volume list.
pub fn get_storage_used() -> (r: String)
    ensures
        exists|vs: Seq<VolumeSpace>| r@ == size_text(used_bytes(vs) as u64),
{
    let volumes = volume_spaces();
    let used = storage_used_of(&volumes);
    let r = format_size(used);
    proof {
        lemma_used_never_exceeds_total(volumes@);
        assert(r@ == size_text(used_bytes(volumes@) as u64));
    }
    r
}

/// Formatted total capacity across all mounted volumes, from a fresh volume
/// list.
pub fn get_storage_total() -> (r: String)
    ensures
        exists|vs: Seq<VolumeSpace>| r@ == size_text(total_bytes(vs) as u64),
{
    let volumes = volume_spaces();
    let total = storage_total_of(&volumes);
    let r = format_size(total);
    proof {
        lemma_sums_nonneg(volumes@);
        assert(r@ == size_text(total_bytes(volumes@) as u64));
    }
    r
}

} // verus!
