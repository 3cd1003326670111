//! Host inventory: operating-system description, processor brand, and total
//! physical memory, read from the host information subsystem with its
//! "refresh all, then query" pattern. Each reader substitutes an explicit
//! fallback when its source has nothing.

use vstd::prelude::*;
use vstd::string::StringExecFns;
use crate::text::{format_size, seq_views, size_text};

verus! {

/// The host information subsystem's snapshot type, sysinfo::System, declared
/// opaque: it is only created, refreshed, and queried through the readers
/// below.
#[verifier::external_type_specification]
#[verifier::external_body]
pub struct ExSystem(sysinfo::System);

/// Relies on sysinfo::System::new_all: a snapshot handle with every reading
/// loaded once.
#[verifier::external_body]
pub(crate) fn system_new_all() -> sysinfo::System {
    sysinfo::System::new_all()
}

/// Relies on sysinfo::System::refresh_all: refreshes every cached reading of
/// the snapshot in place.
#[verifier::external_body]
pub(crate) fn system_refresh_all(sys: &mut sysinfo::System) {
    sys.refresh_all()
}

/// Relies on sysinfo::System::long_os_version: a textual description of the
/// running operating system, when the platform can give one.
#[verifier::external_body]
fn long_os_version_text() -> Option<String> {
    sysinfo::System::long_os_version()
}

/// Relies on sysinfo::System::cpus and sysinfo::Cpu::brand: one brand string
/// per known processor, in the platform's order.
#[verifier::external_body]
fn cpu_brand_names(sys: &sysinfo::System) -> Vec<String> {
    sys.cpus().iter().map(|c| c.brand().to_string()).collect()
}

/// Relies on sysinfo::System::total_memory: the total physical memory of the
/// host in bytes.
#[verifier::external_body]
fn total_memory_bytes(sys: &sysinfo::System) -> u64 {
    sys.total_memory()
}

/// The description reported for an optional OS text: the text itself, or the
/// fixed fallback when none is available.
pub open spec fn os_text_of(os: Option<Seq<char>>) -> Seq<char> {
    match os {
        Some(s) => s,
        None => "Unknown OS"@,
    }
}

/// The brand reported for a processor list: the first entry, or the fixed
/// fallback when the list is empty.
pub open spec fn brand_text_of(brands: Seq<Seq<char>>) -> Seq<char> {
    if brands.len() > 0 {
        brands[0]
    } else {
        "Unknown CPU"@
    }
}

/// The OS description for a reading, with the fallback for an absent one.
pub fn os_description(os: Option<String>) -> (r: String)
    ensures
        r@ == os_text_of(match os {
            Some(s) => Some(s@),
            None => None,
        }),
{
    match os {
        Some(s) => s,
        None => String::from_str("Unknown OS"),
    }
}

/// The brand of the first listed processor, with the fallback for an empty
/// list.
pub fn first_brand_or_unknown(brands: &Vec<String>) -> (r: String)
    ensures
        r@ == brand_text_of(seq_views(brands@)),
{
    if brands.len() > 0 {
        brands[0].clone()
    } else {
        String::from_str("Unknown CPU")
    }
}

/// The OS description of this host, or the fallback when the platform gives
/// none.
pub fn get_os_info() -> String {
    os_description(long_os_version_text())
}

/// The brand string of the host's first processor, or the fallback when no
/// processor is listed.
pub fn get_processor_info(sys: &sysinfo::System) -> String {
    let brands = cpu_brand_names(sys);
    first_brand_or_unknown(&brands)
}

/// The host's total physical memory, formatted as magnitude and unit.
pub fn get_memory_info(sys: &sysinfo::System) -> (r: String)
    ensures
        exists|m: u64| r@ == size_text(m),
{
    let total = total_memory_bytes(sys);
    let r = format_size(total);
    proof {
        assert(r@ == size_text(total));
    }
    r
}

} // verus!
