use capora_kernel::boot::{
    BootloaderMemoryMapIterator, FrameAllocator, KernelMappingCounts, ProgramHeader,
};
use capora_kernel::boot_stub::{MemoryMapEntry as StubEntry, MemoryMapEntryKind};
use capora_kernel::limine::{MemoryMapEntry as LimineEntry, MemoryMapEntryType};
use capora_kernel::memory::Frame;

fn limine_map(entries: Vec<LimineEntry>) -> FrameAllocator {
    FrameAllocator::new(BootloaderMemoryMapIterator::new_limine(entries))
}

#[test]
fn allocator_ordering_and_exhaustion() {
    // Entries: usable 0x1000..0x4000, reserved 0x4000..0x5000, usable
    // 0x5000..0x6000. Frames come out at 0x1000, 0x2000, 0x3000, 0x5000,
    // then absent forever after.
    let entries = vec![
        LimineEntry { base: 0x1000, length: 0x3000, mem_type: MemoryMapEntryType::usable() },
        LimineEntry { base: 0x4000, length: 0x1000, mem_type: MemoryMapEntryType::reserved() },
        LimineEntry { base: 0x5000, length: 0x1000, mem_type: MemoryMapEntryType::usable() },
    ];
    let mut allocator = limine_map(entries);
    let mut addresses = Vec::new();
    while let Some(frame) = allocator.allocate_frame() {
        addresses.push(frame.base_address().value());
    }
    assert_eq!(addresses, vec![0x1000, 0x2000, 0x3000, 0x5000]);
    assert_eq!(allocator.allocate_frame(), None);
    assert_eq!(allocator.allocate_frame(), None);
}

#[test]
fn allocator_skips_degenerate_entries() {
    // A zero-length usable entry contributes zero frames and does not
    // stall the sequence.
    let entries = vec![
        LimineEntry { base: 0x1000, length: 0x1000, mem_type: MemoryMapEntryType::usable() },
        LimineEntry { base: 0x2000, length: 0, mem_type: MemoryMapEntryType::usable() },
        LimineEntry { base: 0x3000, length: 0x1000, mem_type: MemoryMapEntryType::usable() },
    ];
    let mut allocator = limine_map(entries);
    assert_eq!(allocator.allocate_frame(), Some(Frame(1)));
    assert_eq!(allocator.allocate_frame(), Some(Frame(3)));
    assert_eq!(allocator.allocate_frame(), None);
}

#[test]
fn allocator_skips_out_of_range_entries() {
    // An entry outside the supported physical width is dropped; the
    // sequence continues with the next entry.
    let entries = vec![
        LimineEntry { base: 1 << 52, length: 0x1000, mem_type: MemoryMapEntryType::usable() },
        LimineEntry {
            base: (1 << 52) - 0x1000,
            length: 0x2000,
            mem_type: MemoryMapEntryType::usable(),
        },
        LimineEntry { base: u64::MAX, length: u64::MAX, mem_type: MemoryMapEntryType::usable() },
        LimineEntry { base: 0x7000, length: 0x1000, mem_type: MemoryMapEntryType::usable() },
    ];
    let mut allocator = limine_map(entries);
    assert_eq!(allocator.allocate_frame(), Some(Frame(7)));
    assert_eq!(allocator.allocate_frame(), None);
}

#[test]
fn allocator_empty_map() {
    let mut allocator = limine_map(Vec::new());
    assert_eq!(allocator.allocate_frame(), None);

    let reserved_only = vec![LimineEntry {
        base: 0x1000,
        length: 0x1000,
        mem_type: MemoryMapEntryType::reserved(),
    }];
    let mut allocator = limine_map(reserved_only);
    assert_eq!(allocator.allocate_frame(), None);
}

#[test]
fn allocator_unaligned_entry_covers_touched_frames() {
    // An entry from 0x1800 to 0x2800 touches frames 1 and 2.
    let entries = vec![LimineEntry {
        base: 0x1800,
        length: 0x1000,
        mem_type: MemoryMapEntryType::usable(),
    }];
    let mut allocator = limine_map(entries);
    assert_eq!(allocator.allocate_frame(), Some(Frame(1)));
    assert_eq!(allocator.allocate_frame(), Some(Frame(2)));
    assert_eq!(allocator.allocate_frame(), None);
}

#[test]
fn allocator_over_flat_handoff_map() {
    // The flat-handoff protocol feeds the same allocator.
    let entries = vec![
        StubEntry { base: 0x1000, size: 0x2000, kind: MemoryMapEntryKind::usable() },
        StubEntry { base: 0x3000, size: 0x1000, kind: MemoryMapEntryKind::reserved() },
        StubEntry { base: 0x9000, size: 0x1000, kind: MemoryMapEntryKind::usable() },
    ];
    let mut allocator = FrameAllocator::new(BootloaderMemoryMapIterator::new_capora(entries));
    assert_eq!(allocator.allocate_frame(), Some(Frame(1)));
    assert_eq!(allocator.allocate_frame(), Some(Frame(2)));
    assert_eq!(allocator.allocate_frame(), Some(Frame(9)));
    assert_eq!(allocator.allocate_frame(), None);
}

fn header(segment_type: u32, virtual_address: u64, memory_size: u64) -> ProgramHeader {
    let mut slice = [0u8; 56];
    slice[..4].copy_from_slice(&segment_type.to_le_bytes());
    slice[16..24].copy_from_slice(&virtual_address.to_le_bytes());
    slice[40..48].copy_from_slice(&memory_size.to_le_bytes());
    ProgramHeader { slice }
}

#[test]
fn program_header_field_decoding() {
    let mut slice = [0u8; 56];
    slice[..4].copy_from_slice(&1u32.to_le_bytes());
    slice[4..8].copy_from_slice(&5u32.to_le_bytes());
    slice[8..16].copy_from_slice(&0x1122_3344_5566_7788u64.to_le_bytes());
    slice[16..24].copy_from_slice(&0xFFFF_8000_0000_1000u64.to_le_bytes());
    slice[40..48].copy_from_slice(&0x2345u64.to_le_bytes());
    let ph = ProgramHeader { slice };
    assert_eq!(ph.segment_type(), 1);
    assert_eq!(ph.flags(), 5);
    assert_eq!(ph.offset(), 0x1122_3344_5566_7788);
    assert_eq!(ph.virtual_address(), 0xFFFF_8000_0000_1000);
    assert_eq!(ph.memory_size(), 0x2345);
}

#[test]
fn mapping_plan_single_segment() {
    // One loadable segment of three pages: one root table page plus one
    // page at each lower level.
    let headers = vec![header(1, 0x1000, 0x3000)];
    let counts = capora_kernel::boot::plan_kernel_mapping(0, &headers);
    assert_eq!(
        counts,
        KernelMappingCounts { page_table_pages: 4, backing_frames: 3 }
    );
}

#[test]
fn mapping_plan_skips_non_loadable() {
    // Non-loadable segments contribute nothing.
    let headers = vec![header(2, 0x1000, 0x3000), header(0, 0x8000, 0x1000)];
    let counts = capora_kernel::boot::plan_kernel_mapping(0, &headers);
    assert_eq!(
        counts,
        KernelMappingCounts { page_table_pages: 1, backing_frames: 0 }
    );
}

#[test]
fn mapping_plan_crossing_second_level_tables() {
    // A segment spanning the last page of one 2 MiB region and the first
    // of the next needs two second-level entries' worth of tables.
    let headers = vec![header(1, 0x1F_F000, 0x2000)];
    let counts = capora_kernel::boot::plan_kernel_mapping(0, &headers);
    assert_eq!(
        counts,
        KernelMappingCounts { page_table_pages: 5, backing_frames: 2 }
    );
}

#[test]
fn mapping_plan_higher_half_segments() {
    // Two loadable segments in the higher half sharing their tables.
    let headers = vec![
        header(1, 0xFFFF_FFFF_8000_0000, 0x2000),
        header(1, 0xFFFF_FFFF_8000_2000, 0x1000),
    ];
    let counts = capora_kernel::boot::plan_kernel_mapping(0, &headers);
    assert_eq!(
        counts,
        KernelMappingCounts { page_table_pages: 4, backing_frames: 3 }
    );
}

#[test]
fn mapping_plan_with_load_offset() {
    // The kernel's load address shifts every segment before counting.
    let headers = vec![header(1, 0x1000, 0x1000)];
    let counts = capora_kernel::boot::plan_kernel_mapping(0x20_0000, &headers);
    assert_eq!(
        counts,
        KernelMappingCounts { page_table_pages: 4, backing_frames: 1 }
    );
}

#[test]
fn program_header_table_chunking() {
    // One record per full 56 bytes, in order, trailing bytes dropped.
    let mut bytes = Vec::new();
    bytes.extend_from_slice(&header(1, 0x1000, 0x2000).slice);
    bytes.extend_from_slice(&header(7, 0x9000, 0x100).slice);
    bytes.extend_from_slice(&[0xAB; 13]);
    let headers = capora_kernel::boot::parse_program_headers(&bytes);
    assert_eq!(headers.len(), 2);
    assert_eq!(headers[0].segment_type(), 1);
    assert_eq!(headers[0].virtual_address(), 0x1000);
    assert_eq!(headers[0].memory_size(), 0x2000);
    assert_eq!(headers[1].segment_type(), 7);
    assert_eq!(headers[1].virtual_address(), 0x9000);

    assert!(capora_kernel::boot::parse_program_headers(&bytes[..55]).is_empty());
}
