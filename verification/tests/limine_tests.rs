use capora_kernel::limine::{
    base_revision_accepted, base_revision_tag, DirectMapRequest, DirectMapResponse,
    EntryPointRequest, KernelAddressRequest, KernelAddressResponse, LimineRequest,
    MemoryMapEntry, MemoryMapEntryType, MemoryMapRequest, MemoryMapResponse, Request, Response,
    LIMINE_BASE_REVISION, LIMINE_MAGIC_0, LIMINE_MAGIC_1,
};
use capora_kernel::boot_stub::{
    BootloaderRequest, BootloaderResponse, MemoryMapEntry as StubMapEntry, MemoryMapEntryKind,
};
use capora_kernel::memory::VirtualAddress;

#[test]
fn base_revision_negotiation() {
    let tag = base_revision_tag();
    assert_eq!(tag[2], LIMINE_BASE_REVISION);
    // The tag as published: the bootloader has not touched it, so the
    // declared revision was not honored.
    assert!(!base_revision_accepted(&tag));
    // The bootloader overwrites the last word when it accepts.
    let accepted = [tag[0], tag[1], 0];
    assert!(base_revision_accepted(&accepted));
}

#[test]
fn request_records_carry_protocol_ids() {
    let request = Request::new(MemoryMapRequest::new());
    assert_eq!(request.id[0], LIMINE_MAGIC_0);
    assert_eq!(request.id[1], LIMINE_MAGIC_1);
    assert_eq!(request.revision, 0);
    assert!(request.response().is_none());

    assert_eq!(EntryPointRequest::id()[0], LIMINE_MAGIC_0);
    assert_ne!(MemoryMapRequest::id()[2], KernelAddressRequest::id()[2]);
    assert_ne!(MemoryMapRequest::id()[2], DirectMapRequest::id()[2]);
    let entry = Request::new(EntryPointRequest::new(VirtualAddress::new(0x1000).unwrap()));
    assert_eq!(entry.body.entry_point.value(), 0x1000);
}

#[test]
fn response_revision_gating() {
    // A response is usable only if its advertised revision is at least the
    // revision the kernel compiled against.
    let response = Response { revision: 0, body: DirectMapResponse { offset: 0x1234 } };
    assert!(response.is_supported());
    assert_eq!(response.revision(), 0);
    assert_eq!(response.body().unwrap().offset, 0x1234);

    let newer = Response { revision: 7, body: KernelAddressResponse {
        physical_base: 0x10_0000,
        virtual_base: 0xFFFF_FFFF_8000_0000,
    } };
    assert!(newer.is_supported());
    assert_eq!(newer.body().unwrap().virtual_base, 0xFFFF_FFFF_8000_0000);
}

#[test]
fn answered_request_exposes_response() {
    let mut request = Request::new(KernelAddressRequest::new());
    assert!(request.response().is_none());
    request.response = Some(Response { revision: 0, body: KernelAddressResponse {
        physical_base: 0x20_0000,
        virtual_base: 0xFFFF_FFFF_8000_0000,
    } });
    let response = request.response().unwrap();
    assert_eq!(response.body().unwrap().physical_base, 0x20_0000);
}

#[test]
fn memory_map_response_entries() {
    let response = Response { revision: 0, body: MemoryMapResponse { entries: vec![
        MemoryMapEntry { base: 0x1000, length: 0x1000, mem_type: MemoryMapEntryType::usable() },
        MemoryMapEntry { base: 0x2000, length: 0x3000, mem_type: MemoryMapEntryType::reserved() },
    ] } };
    let body = response.body().unwrap();
    let entries = body.as_slice();
    assert_eq!(entries.len(), 2);
    assert_eq!(entries[0].base, 0x1000);
    assert_eq!(entries[1].mem_type, MemoryMapEntryType::reserved());
}

#[test]
fn memory_map_entry_kinds_distinct() {
    let kinds = [
        MemoryMapEntryType::usable(),
        MemoryMapEntryType::reserved(),
        MemoryMapEntryType::acpi_reclaimable(),
        MemoryMapEntryType::acpi_nvs(),
        MemoryMapEntryType::bad_memory(),
        MemoryMapEntryType::bootloader_reclaimable(),
        MemoryMapEntryType::kernel_and_modules(),
        MemoryMapEntryType::framebuffer(),
    ];
    for (i, a) in kinds.iter().enumerate() {
        for (j, b) in kinds.iter().enumerate() {
            assert_eq!(a == b, i == j);
        }
    }
}

#[test]
fn flat_handoff_records() {
    let request = BootloaderRequest { signature: 0x1234, api_version: 1 };
    assert_eq!(request.api_version, 1);
    let response = BootloaderResponse {
        kernel_virtual_address: 0xFFFF_FFFF_8000_0000,
        memory_map_entries: vec![StubMapEntry {
            base: 0x1000,
            size: 0x1000,
            kind: MemoryMapEntryKind::usable(),
        }],
    };
    assert_eq!(response.memory_map_entries.len(), 1);
    assert_ne!(MemoryMapEntryKind::usable(), MemoryMapEntryKind::reserved());
    assert_ne!(MemoryMapEntryKind::bootloader_reclaimable(), MemoryMapEntryKind::kernel());
}
