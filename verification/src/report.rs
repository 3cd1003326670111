//! The assembled machine specification report.
//!
//! The aggregator queries each reader independently; every reader absorbs its
//! own failures into an explicit fallback, so assembling the report never
//! fails and every field is always populated.

use vstd::prelude::*;
use crate::directx::{dx_label_of, get_directx_version, stored_view};
use crate::graphics::{get_graphics_info, scan, AdapterProbe};
use crate::host::{get_memory_info, get_os_info, get_processor_info, system_new_all,
    system_refresh_all};
use crate::storage::{get_storage_total, get_storage_used, total_bytes, used_bytes, VolumeSpace};
use crate::text::{seq_views, size_text};

verus! {

/// One best-effort report of the host's hardware and software environment.
/// Constructed fresh per request and never mutated afterwards.
pub struct SystemReport {
    pub os: String,
    pub cpu: String,
    pub ram: String,
    pub storage_used: String,
    pub storage_total: String,
    pub gpu: Vec<String>,
    pub directx: String,
}

/// Assembles the full report. The host, memory, and storage readings are
/// taken here from freshly refreshed snapshots; the adapter probe trace and
/// the stored graphics-API version value are platform readings handed in by
/// the caller. No reader's failure escapes: each substitutes its fallback.
pub fn get_computer_specs(
    adapter_probes: &Vec<AdapterProbe>,
    directx_version: &Option<String>,
) -> (r: SystemReport)
    ensures
        seq_views(r.gpu@) == scan(adapter_probes@),
        r.directx@ == dx_label_of(stored_view(*directx_version)),
        exists|m: u64| r.ram@ == size_text(m),
        exists|vs: Seq<VolumeSpace>| r.storage_used@ == size_text(used_bytes(vs) as u64),
        exists|vs: Seq<VolumeSpace>| r.storage_total@ == size_text(total_bytes(vs) as u64),
{
    let mut sys = system_new_all();
    system_refresh_all(&mut sys);
    SystemReport {
        os: get_os_info(),
        cpu: get_processor_info(&sys),
        ram: get_memory_info(&sys),
        storage_used: get_storage_used(),
        storage_total: get_storage_total(),
        gpu: get_graphics_info(adapter_probes),
        directx: get_directx_version(directx_version),
    }
}

} // verus!
