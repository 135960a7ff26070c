//! Records of the flat-handoff boot protocol used with the companion boot
//! stub.
//!
//! Unlike the tag-based protocol there is no negotiation step: the
//! bootloader calls the kernel's entry symbol with a single pointer to a
//! fixed-layout response structure holding a memory-map pointer and count
//! together with the kernel's relocated virtual base address. The types
//! here are the decoded, validated forms of those records: the unverified
//! surroundings check the raw pointer and count before handing the library
//! plain values.

use vstd::prelude::*;

verus! {

/// The request record the kernel image publishes in its dedicated linker
/// section so the boot stub can find it.
#[derive(Clone, Copy, Debug, Hash, PartialEq, Eq, Structural)]
pub struct BootloaderRequest {
    /// The fixed signature identifying the record.
    pub signature: u64,
    /// The protocol version the kernel was built against.
    pub api_version: u64,
}

/// The decoded response structure the boot stub hands to the kernel's
/// entry symbol.
#[derive(Clone, Debug, PartialEq, Eq)]
pub struct BootloaderResponse {
    /// The virtual address at which the kernel was loaded.
    pub kernel_virtual_address: u64,
    /// The decoded memory map entries, in the boot stub's order.
    pub memory_map_entries: Vec<MemoryMapEntry>,
}

/// One boot-stub-reported region of physical memory.
#[derive(Clone, Copy, Debug, Hash, PartialEq, Eq, Structural)]
pub struct MemoryMapEntry {
    /// The physical address at which the region starts.
    pub base: u64,
    /// The length of the region in bytes.
    pub size: u64,
    /// The kind of the region.
    pub kind: MemoryMapEntryKind,
}

/// The kind of a boot-stub-reported memory region; only usable regions may
/// be claimed as general-purpose physical memory.
#[derive(Clone, Copy, Debug, Hash, PartialEq, Eq, Structural)]
pub struct MemoryMapEntryKind(pub u64);

impl MemoryMapEntryKind {
    /// Returns the kind of a region safe to claim as general-purpose
    /// memory.
    pub fn usable() -> (r: Self)
        ensures
            r.0 == 0,
    {
        MemoryMapEntryKind(0)
    }

    /// Returns the kind of a reserved region.
    pub fn reserved() -> (r: Self)
        ensures
            r.0 == 1,
    {
        MemoryMapEntryKind(1)
    }

    /// Returns the kind of a region holding the boot stub's own structures,
    /// reclaimable once they are no longer needed.
    pub fn bootloader_reclaimable() -> (r: Self)
        ensures
            r.0 == 2,
    {
        MemoryMapEntryKind(2)
    }

    /// Returns the kind of the region holding the kernel image.
    pub fn kernel() -> (r: Self)
        ensures
            r.0 == 3,
    {
        MemoryMapEntryKind(3)
    }
}

} // verus!
