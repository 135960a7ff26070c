use capora_kernel::memory::{
    Frame, FrameRange, FrameRangeIter, Page, PageRange, PageRangeIter, PhysicalAddress,
    VirtualAddress,
};

#[test]
fn physical_address_width_boundary() {
    // Width 52: 1 << 52 is absent, (1 << 52) - 1 is present.
    assert!(PhysicalAddress::new(1u64 << 52).is_none());
    let max = PhysicalAddress::new((1u64 << 52) - 1).unwrap();
    assert_eq!(max.value(), (1u64 << 52) - 1);
    assert!(PhysicalAddress::new(0).is_some());
    assert!(PhysicalAddress::new(u64::MAX).is_none());
}

#[test]
fn physical_address_masking() {
    assert_eq!(PhysicalAddress::new_masked(u64::MAX).value(), (1u64 << 52) - 1);
    assert_eq!(PhysicalAddress::new_masked(0x1234).value(), 0x1234);
    assert_eq!(PhysicalAddress::new_masked(1u64 << 52).value(), 0);
    assert_eq!(PhysicalAddress::zero().value(), 0);
}

#[test]
fn physical_address_frame_offset() {
    assert_eq!(PhysicalAddress::new(0x1234).unwrap().frame_offset(), 0x234);
    assert_eq!(PhysicalAddress::new(0x1000).unwrap().frame_offset(), 0);
}

#[test]
fn virtual_address_canonicality() {
    // Below the gap: accepted.
    assert!(VirtualAddress::new(0).is_some());
    assert!(VirtualAddress::new(0x0000_7FFF_FFFF_FFFF).is_some());
    // Inside the gap: rejected.
    assert!(VirtualAddress::new(0x0000_8000_0000_0000).is_none());
    assert!(VirtualAddress::new(0xFFFF_7FFF_FFFF_FFFF).is_none());
    assert!(VirtualAddress::new(0x8000_0000_0000_0000).is_none());
    // Above the gap: accepted.
    assert!(VirtualAddress::new(0xFFFF_8000_0000_0000).is_some());
    assert!(VirtualAddress::new(u64::MAX).is_some());
}

#[test]
fn virtual_address_sign_extension() {
    // The sign-extending constructor always yields a value the validating
    // constructor accepts.
    for &raw in &[
        0u64,
        0x0000_8000_0000_0000,
        0xFFFF_7FFF_FFFF_FFFF,
        0x1234_5678_9ABC_DEF0,
        u64::MAX,
        0x0000_7FFF_FFFF_FFFF,
    ] {
        let forced = VirtualAddress::new_canonical(raw);
        assert!(VirtualAddress::new(forced.value()).is_some());
    }
    // Bit 47 set: upper bits are filled in.
    assert_eq!(
        VirtualAddress::new_canonical(0x0000_8000_0000_0000).value(),
        0xFFFF_8000_0000_0000
    );
    // Bit 47 clear: upper bits are cleared.
    assert_eq!(VirtualAddress::new_canonical(0xAAAA_0000_0000_1000).value(), 0x1000);
    // A canonical value is returned unchanged.
    assert_eq!(VirtualAddress::new_canonical(0xFFFF_FFFF_FFFF_F000).value(), 0xFFFF_FFFF_FFFF_F000);
    assert_eq!(VirtualAddress::new_canonical(0x4242).value(), 0x4242);
}

#[test]
fn virtual_address_page_offset() {
    assert_eq!(VirtualAddress::new(0x5678).unwrap().page_offset(), 0x678);
    assert_eq!(VirtualAddress::zero().page_offset(), 0);
}

#[test]
fn frame_roundtrip() {
    for &number in &[0u64, 1, 0x1234, (1u64 << 40) - 1] {
        let frame = Frame(number);
        assert_eq!(Frame::containing_address(frame.base_address()), frame);
    }
    assert_eq!(Frame::containing_address(PhysicalAddress::new(0x1FFF).unwrap()).number(), 1);
    assert_eq!(Frame(3).base_address().value(), 0x3000);
}

#[test]
fn page_roundtrip() {
    for &number in &[0u64, 1, 0x7_FFFF_FFFF, 0xF_FFF8_0000_0000, (1u64 << 52) - 1] {
        let page = Page(number);
        assert_eq!(Page::containing_address(page.base_address()), page);
    }
    assert_eq!(Page(2).base_address().value(), 0x2000);
}

#[test]
fn frame_range_size() {
    // size = end - start + 1 when end >= start, else 0.
    assert_eq!(FrameRange::inclusive_range(Frame(2), Frame(5)).size_in_frames(), 4);
    assert_eq!(FrameRange::inclusive_range(Frame(5), Frame(5)).size_in_frames(), 1);
    assert_eq!(FrameRange::inclusive_range(Frame(5), Frame(2)).size_in_frames(), 0);
    assert_eq!(FrameRange::inclusive_range(Frame(0), Frame(0)).size_in_frames(), 1);
    assert_eq!(
        FrameRange::inclusive_range(Frame(2), Frame(5)).size_in_bytes(),
        4 * 4096
    );
    assert_eq!(FrameRange::inclusive_range(Frame(2), Frame(5)).start(), Frame(2));
    assert_eq!(
        FrameRange::inclusive_range(Frame(2), Frame(5)).start_address().value(),
        0x2000
    );
}

#[test]
fn frame_range_contains_address() {
    let range = FrameRange::inclusive_range(Frame(2), Frame(4));
    assert!(!range.contains_address(PhysicalAddress::new(0x1FFF).unwrap()));
    assert!(range.contains_address(PhysicalAddress::new(0x2000).unwrap()));
    assert!(range.contains_address(PhysicalAddress::new(0x4FFF).unwrap()));
    assert!(!range.contains_address(PhysicalAddress::new(0x5000).unwrap()));
}

#[test]
fn frame_range_offsets() {
    let range = FrameRange::inclusive_range(Frame(2), Frame(4));
    assert_eq!(range.offset_of_address(PhysicalAddress::new(0x2345).unwrap()), Some(0x345));
    assert_eq!(range.offset_of_address(PhysicalAddress::new(0x5000).unwrap()), None);
    assert_eq!(
        range.address_at_offset(0x345),
        Some(PhysicalAddress::new(0x2345).unwrap())
    );
    assert_eq!(range.address_at_offset(3 * 4096), None);
}

#[test]
fn frame_range_containment_shared_end() {
    // The containment test compares the ends strictly: a sub-range whose
    // end exactly equals the containing range's end is reported as not
    // contained. This pins the chosen semantics.
    let outer = FrameRange::inclusive_range(Frame(2), Frame(8));
    let shares_end = FrameRange::inclusive_range(Frame(4), Frame(8));
    assert!(!outer.contains_range(&shares_end));
    let inner = FrameRange::inclusive_range(Frame(4), Frame(7));
    assert!(outer.contains_range(&inner));
    assert!(outer.contains_range(&outer) == false);
}

#[test]
fn frame_range_overlaps() {
    let a = FrameRange::inclusive_range(Frame(2), Frame(5));
    let b = FrameRange::inclusive_range(Frame(5), Frame(9));
    let c = FrameRange::inclusive_range(Frame(6), Frame(9));
    assert!(a.overlaps(&b));
    assert!(b.overlaps(&a));
    assert!(!a.overlaps(&c));
}

#[test]
fn frame_range_iteration() {
    let range = FrameRange::inclusive_range(Frame(2), Frame(4));
    let mut iter = range.into_iter();
    assert_eq!(iter.next(), Some(Frame(2)));
    assert_eq!(iter.next(), Some(Frame(3)));
    assert_eq!(iter.next(), Some(Frame(4)));
    assert_eq!(iter.next(), None);
    assert_eq!(iter.next(), None);

    let mut empty = FrameRangeIter::empty();
    assert_eq!(empty.next(), None);
}

#[test]
fn page_range_rejects_gap_straddling() {
    // A range crossing the non-canonical gap cannot be constructed.
    let low = Page(0x7_FFFF_FFFF);
    let high = Page(0xF_FFF8_0000_0000);
    assert!(PageRange::inclusive_range(low, high).is_none());
    // Ranges within one half are fine.
    assert!(PageRange::inclusive_range(Page(2), Page(5)).is_some());
    assert!(
        PageRange::inclusive_range(Page(0xF_FFF8_0000_0000), Page(0xF_FFF8_0000_0003)).is_some()
    );
}

#[test]
fn page_range_size() {
    assert_eq!(
        PageRange::inclusive_range(Page(2), Page(5)).unwrap().size_in_pages(),
        4
    );
    assert_eq!(
        PageRange::inclusive_range(Page(5), Page(2)).unwrap().size_in_pages(),
        0
    );
    assert_eq!(
        PageRange::inclusive_range(Page(2), Page(5)).unwrap().size_in_bytes(),
        4 * 4096
    );
}

#[test]
fn page_range_queries() {
    let range = PageRange::inclusive_range(Page(2), Page(4)).unwrap();
    assert!(range.contains_address(VirtualAddress::new(0x2000).unwrap()));
    assert!(!range.contains_address(VirtualAddress::new(0x5000).unwrap()));
    assert_eq!(range.offset_of_address(VirtualAddress::new(0x2345).unwrap()), Some(0x345));
    assert_eq!(range.offset_of_address(VirtualAddress::new(0x5000).unwrap()), None);
    assert_eq!(
        range.address_at_offset(0x345),
        Some(VirtualAddress::new(0x2345).unwrap())
    );
    assert_eq!(range.address_at_offset(3 * 4096), None);
    assert_eq!(range.start(), Page(2));
    assert_eq!(range.start_address().value(), 0x2000);
}

#[test]
fn page_range_containment_shared_end() {
    // Same strict-end semantics as the frame ranges.
    let outer = PageRange::inclusive_range(Page(2), Page(8)).unwrap();
    let shares_end = PageRange::inclusive_range(Page(4), Page(8)).unwrap();
    assert!(!outer.contains_range(&shares_end));
    let inner = PageRange::inclusive_range(Page(4), Page(7)).unwrap();
    assert!(outer.contains_range(&inner));
    let a = PageRange::inclusive_range(Page(2), Page(5)).unwrap();
    let b = PageRange::inclusive_range(Page(5), Page(9)).unwrap();
    assert!(a.overlaps(&b));
}

#[test]
fn page_range_iteration() {
    let range = PageRange::inclusive_range(Page(7), Page(9)).unwrap();
    let mut iter = range.into_iter();
    assert_eq!(iter.next(), Some(Page(7)));
    assert_eq!(iter.next(), Some(Page(8)));
    assert_eq!(iter.next(), Some(Page(9)));
    assert_eq!(iter.next(), None);

    let mut empty = PageRangeIter::empty();
    assert_eq!(empty.next(), None);
}

#[test]
fn page_table_indexes() {
    let page = Page((3 << 27) | (5 << 18) | (7 << 9) | 11);
    assert_eq!(page.pml4e_index(), 3);
    assert_eq!(page.pml3e_index(), 5);
    assert_eq!(page.pml2e_index(), 7);
}
