//! The root pointer walker and the discovery helpers around it: which
//! table directory is authoritative, which configuration table entry
//! holds the root pointer, which memory region covers an address, and
//! the probe schedule for a low MMIO page.

use vstd::prelude::*;
use crate::layout::ACPI_2_RSDP_REVISION;
use crate::layout::RootSystemDescriptionPointer3;

verus! {

broadcast use vstd::array::group_array_axioms;

/// Failure conditions of the discovery pipeline.
#[derive(Clone, Copy, PartialEq, Eq, Structural, Debug)]
pub enum AcpiError {
    /// Neither table directory pointer of the root pointer is usable.
    DirectoryNotFound,
    /// No configuration table entry carries the requested identifier.
    TableNotFound,
    /// No memory region covers the requested address.
    RegionNotFound,
}

/// The directory pointer the root pointer makes authoritative: the newer
/// 64-bit directory when the root pointer is revision 2 or later and
/// that pointer is non-zero, otherwise the older 32-bit directory.
pub open spec fn spec_selected_directory(rsdp: RootSystemDescriptionPointer3) -> u64 {
    if rsdp.revision >= ACPI_2_RSDP_REVISION && rsdp.xsdt_address != 0 {
        rsdp.xsdt_address
    } else {
        rsdp.rsdt_address as u64
    }
}

/// Select the authoritative table directory pointer, failing with a
/// discovery error when the selected pointer is zero.
pub fn select_directory(rsdp: &RootSystemDescriptionPointer3) -> (r: Result<u64, AcpiError>)
    ensures
        spec_selected_directory(*rsdp) != 0 ==> r == Ok::<u64, AcpiError>(
            spec_selected_directory(*rsdp),
        ),
        spec_selected_directory(*rsdp) == 0 ==> r == Err::<u64, AcpiError>(
            AcpiError::DirectoryNotFound,
        ),
{
    let sdt_ptr: u64 = if rsdp.revision >= ACPI_2_RSDP_REVISION && rsdp.xsdt_address != 0 {
        rsdp.xsdt_address
    } else {
        rsdp.rsdt_address as u64
    };
    if sdt_ptr == 0 {
        Err(AcpiError::DirectoryNotFound)
    } else {
        Ok(sdt_ptr)
    }
}

/// One entry of the firmware's configuration table: a 16-byte identifier
/// and the physical address it points at.
#[derive(Clone, Copy, PartialEq, Eq, Debug)]
pub struct ConfigTableEntry {
    pub guid: [u8; 16],
    pub address: u64,
}

/// No entry of the table carries this identifier.
pub open spec fn spec_no_guid_match(entries: Seq<ConfigTableEntry>, guid: Seq<u8>) -> bool {
    forall|j: int| 0 <= j < entries.len() ==> (#[trigger] entries[j]).guid@ != guid
}

/// `e` is the first entry of the table carrying this identifier.
pub open spec fn spec_first_guid_match(
    entries: Seq<ConfigTableEntry>,
    guid: Seq<u8>,
    e: ConfigTableEntry,
) -> bool {
    exists|i: int|
        0 <= i < entries.len() && entries[i] == e && e.guid@ == guid && (forall|j: int|
            0 <= j < i ==> (#[trigger] entries[j]).guid@ != guid)
}

fn guid_eq(a: &[u8; 16], b: &[u8; 16]) -> (r: bool)
    ensures
        r == (a@ == b@),
{
    let mut k: usize = 0;
    while k < 16
        invariant
            k <= 16,
            forall|j: int| 0 <= j < k ==> a@[j] == b@[j],
        decreases 16 - k,
    {
        if a[k] != b[k] {
            proof {
                assert(a@[k as int] != b@[k as int]);
            }
            return false;
        }
        k = k + 1;
    }
    proof {
        assert(a@ =~= b@);
    }
    true
}

/// Find the first configuration table entry carrying `guid`.
pub fn find_config_entry(entries: &Vec<ConfigTableEntry>, guid: &[u8; 16]) -> (r: Result<
    ConfigTableEntry,
    AcpiError,
>)
    ensures
        match r {
            Ok(e) => spec_first_guid_match(entries@, guid@, e),
            Err(err) => err == AcpiError::TableNotFound && spec_no_guid_match(entries@, guid@),
        },
{
    let n = entries.len();
    let mut i: usize = 0;
    while i < n
        invariant
            n == entries@.len(),
            i <= n,
            forall|j: int| 0 <= j < i ==> (#[trigger] entries@[j]).guid@ != guid@,
        decreases n - i,
    {
        if guid_eq(&entries[i].guid, guid) {
            return Ok(entries[i]);
        }
        i = i + 1;
    }
    Err(AcpiError::TableNotFound)
}

/// Find the configuration table entry holding the root pointer: the
/// first entry under the newer identifier, or, when the newer one is
/// absent everywhere, the first entry under the older identifier.
pub fn find_root_pointer_entry(
    entries: &Vec<ConfigTableEntry>,
    guid_newer: &[u8; 16],
    guid_older: &[u8; 16],
) -> (r: Result<ConfigTableEntry, AcpiError>)
    ensures
        match r {
            Ok(e) => spec_first_guid_match(entries@, guid_newer@, e) || (spec_no_guid_match(
                entries@,
                guid_newer@,
            ) && spec_first_guid_match(entries@, guid_older@, e)),
            Err(err) => err == AcpiError::TableNotFound && spec_no_guid_match(
                entries@,
                guid_newer@,
            ) && spec_no_guid_match(entries@, guid_older@),
        },
{
    match find_config_entry(entries, guid_newer) {
        Ok(e) => Ok(e),
        Err(_) => find_config_entry(entries, guid_older),
    }
}

/// A physical memory region: a start address and a size in 4096-byte
/// pages.
#[derive(Clone, Copy, PartialEq, Eq, Structural, Debug)]
pub struct MemoryRegion {
    pub phys_start: u64,
    pub page_count: u64,
}

/// Does the region cover the address?
pub open spec fn spec_region_contains(r: MemoryRegion, addr: u64) -> bool {
    r.phys_start <= addr < r.phys_start + 4096 * r.page_count
}

/// No region of the map covers this address.
pub open spec fn spec_no_region_contains(regions: Seq<MemoryRegion>, addr: u64) -> bool {
    forall|j: int| 0 <= j < regions.len() ==> !spec_region_contains(#[trigger] regions[j], addr)
}

/// `reg` is the first region of the map covering this address.
pub open spec fn spec_first_region_containing(
    regions: Seq<MemoryRegion>,
    addr: u64,
    reg: MemoryRegion,
) -> bool {
    exists|i: int|
        0 <= i < regions.len() && regions[i] == reg && spec_region_contains(reg, addr) && (
        forall|j: int| 0 <= j < i ==> !spec_region_contains(#[trigger] regions[j], addr))
}

/// Find the first region of the memory map that covers `addr`.
pub fn find_region(regions: &Vec<MemoryRegion>, addr: u64) -> (r: Result<MemoryRegion, AcpiError>)
    ensures
        match r {
            Ok(reg) => spec_first_region_containing(regions@, addr, reg),
            Err(err) => err == AcpiError::RegionNotFound && spec_no_region_contains(
                regions@,
                addr,
            ),
        },
{
    let n = regions.len();
    let mut i: usize = 0;
    while i < n
        invariant
            n == regions@.len(),
            i <= n,
            forall|j: int| 0 <= j < i ==> !spec_region_contains(#[trigger] regions@[j], addr),
        decreases n - i,
    {
        let reg = regions[i];
        let covered = addr >= reg.phys_start && ((addr - reg.phys_start) as u128) < 4096u128 * (
        reg.page_count as u128);
        if covered {
            return Ok(reg);
        }
        i = i + 1;
    }
    Err(AcpiError::RegionNotFound)
}

/// How many page-aligned slots are probed when looking for a free low
/// MMIO page.
pub const MMIO_PROBE_SLOTS: usize = 256;

/// The fixed probe schedule for a low MMIO page: attempt `n` probes the
/// page starting at `4096 * n`, and the schedule is exhausted after
/// `MMIO_PROBE_SLOTS` attempts.
pub fn next_probe_address(attempt: usize) -> (r: Option<u64>)
    ensures
        attempt < MMIO_PROBE_SLOTS ==> r == Some((4096 * attempt) as u64),
        attempt >= MMIO_PROBE_SLOTS ==> r == None::<u64>,
{
    if attempt < MMIO_PROBE_SLOTS {
        Some(4096u64 * attempt as u64)
    } else {
        None
    }
}

} // verus!
