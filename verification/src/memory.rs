//! Physical and virtual address, frame and page types with validated
//! arithmetic.
//!
//! Physical addresses must fit within the processor's supported physical
//! width. Virtual addresses must be canonical: the bits above the supported
//! virtual width must be a sign-extension of the highest valid bit, which
//! leaves a gap of non-canonical values in the middle of the address space.
//! Frames and pages are the fixed-size aligned units of physical and virtual
//! memory; ranges of them are inclusive and never underflow.

use vstd::prelude::*;

verus! {

/// Number of address bits the processor supports for physical addresses.
pub const PHYSICAL_ADDRESS_BITS: u8 = 52;

/// Exclusive upper bound of the valid physical addresses: `1 << 52`.
pub const PHYSICAL_ADDRESS_LIMIT: u64 = 0x10_0000_0000_0000;

/// A bitmask for the valid values of a [`PhysicalAddress`].
pub const PHYSICAL_ADDRESS_MASK: u64 = 0xF_FFFF_FFFF_FFFF;

/// The number of bytes that make up a [`Frame`] or a [`Page`].
pub const FRAME_SIZE: u64 = 4096;

/// Exclusive upper bound of valid [`Frame`] numbers:
/// `PHYSICAL_ADDRESS_LIMIT / FRAME_SIZE`.
pub const FRAME_NUMBER_LIMIT: u64 = 0x100_0000_0000;

/// Number of address bits the processor supports for virtual addresses.
pub const VIRTUAL_ADDRESS_BITS: u8 = 48;

/// The start of the gap of non-canonical values in the virtual address space.
pub const START_GAP: u64 = 0x0000_8000_0000_0000;

/// The end of the gap of non-canonical values in the virtual address space.
pub const END_GAP: u64 = 0xFFFF_7FFF_FFFF_FFFF;

/// First [`Page`] number of the gap: pages below this bound lie in the lower
/// canonical half.
pub const LOW_HALF_PAGE_LIMIT: u64 = 0x8_0000_0000;

/// First [`Page`] number of the higher canonical half.
pub const HIGH_HALF_PAGE_START: u64 = 0xF_FFF8_0000_0000;

/// Exclusive upper bound of [`Page`] numbers.
pub const PAGE_NUMBER_LIMIT: u64 = 0x10_0000_0000_0000;

/// Whether `v` uses only the supported low-order physical address bits.
pub open spec fn physical_address_valid(v: u64) -> bool {
    v < PHYSICAL_ADDRESS_LIMIT
}

/// Whether `v` is canonical: the bits above the supported virtual width are a
/// sign-extension of the highest valid bit, so `v` lies below the start of
/// the gap or above its end.
pub open spec fn virtual_address_canonical(v: u64) -> bool {
    v < START_GAP || v > END_GAP
}

/// The canonical address whose low 48 bits are those of `v`: the bits above
/// them are replaced by a sign-extension of bit 47.
pub open spec fn spec_canonicalize(v: u64) -> u64 {
    let low = v % 0x1_0000_0000_0000;
    if low < 0x8000_0000_0000 {
        low
    } else {
        (low + 0xFFFF_0000_0000_0000) as u64
    }
}

/// A physical memory address.
#[derive(Clone, Copy, Debug, Hash, PartialEq, Eq, Structural)]
pub struct PhysicalAddress(pub u64);

impl PhysicalAddress {
    /// The mathematical value of this address.
    pub open spec fn view(self) -> int {
        self.0 as int
    }

    /// A physical address is well-formed when it fits within the supported
    /// physical address width. The constructors only produce such values.
    pub open spec fn wf(self) -> bool {
        physical_address_valid(self.0)
    }

    /// Returns the zero [`PhysicalAddress`].
    pub fn zero() -> (r: Self)
        ensures
            r.wf(),
            r@ == 0,
    {
        PhysicalAddress(0)
    }

    /// Returns the [`PhysicalAddress`] at `address` if `address` is a valid
    /// [`PhysicalAddress`]; the result is present iff `address` uses only the
    /// supported low-order bits.
    pub fn new(address: u64) -> (r: Option<Self>)
        ensures
            physical_address_valid(address) ==> r == Some(PhysicalAddress(address)),
            !physical_address_valid(address) ==> r is None,
            r matches Some(a) ==> a.wf() && a@ == address,
    {
        proof {
            assert(address & 0xF_FFFF_FFFF_FFFFu64 == address <==> address < 0x10_0000_0000_0000u64)
                by (bit_vector);
        }
        if address & PHYSICAL_ADDRESS_MASK != address {
            return None;
        }

        Some(PhysicalAddress(address))
    }

    /// Returns the [`PhysicalAddress`] at `address`, masking off any invalid
    /// bits: the result is `address` reduced modulo the physical address
    /// limit.
    pub fn new_masked(address: u64) -> (r: Self)
        ensures
            r.wf(),
            r@ == address % PHYSICAL_ADDRESS_LIMIT,
            physical_address_valid(address) ==> r@ == address,
    {
        proof {
            assert(address & 0xF_FFFF_FFFF_FFFFu64 == address % 0x10_0000_0000_0000u64)
                by (bit_vector);
        }
        PhysicalAddress(address & PHYSICAL_ADDRESS_MASK)
    }

    /// Returns the underlying value of this [`PhysicalAddress`].
    pub fn value(&self) -> (r: u64)
        ensures
            r == self@,
    {
        self.0
    }

    /// Returns the offset within a [`Frame`] at which this
    /// [`PhysicalAddress`] lies.
    pub fn frame_offset(&self) -> (r: u64)
        ensures
            r == self@ % (FRAME_SIZE as int),
    {
        self.0 % FRAME_SIZE
    }
}

/// A region of physical memory aligned to an architecture-dependent value,
/// identified by its frame number: its base address is
/// `number * FRAME_SIZE`.
#[derive(Clone, Copy, Debug, Hash, PartialEq, Eq, Structural)]
pub struct Frame(pub u64);

impl Frame {
    /// The frame number as a mathematical value.
    pub open spec fn view(self) -> int {
        self.0 as int
    }

    /// A frame is well-formed when its base address fits within the
    /// supported physical address width.
    pub open spec fn wf(self) -> bool {
        self.0 < FRAME_NUMBER_LIMIT
    }

    /// The base address of the frame as a mathematical value.
    pub open spec fn spec_base(self) -> int {
        self@ * (FRAME_SIZE as int)
    }

    /// Returns the [`Frame`] that contains the [`PhysicalAddress`]:
    /// `containing_address` is floor-division by the frame size.
    pub fn containing_address(address: PhysicalAddress) -> (r: Self)
        ensures
            r@ == address@ / (FRAME_SIZE as int),
            address.wf() ==> r.wf(),
    {
        Frame(address.value() / FRAME_SIZE)
    }

    /// Returns the [`Frame`] number of this [`Frame`].
    pub fn number(&self) -> (r: u64)
        ensures
            r == self@,
    {
        self.0
    }

    /// Returns the [`PhysicalAddress`] at the base of this [`Frame`].
    pub fn base_address(&self) -> (r: PhysicalAddress)
        requires
            self.wf(),
        ensures
            r@ == self.spec_base(),
            r.wf(),
    {
        PhysicalAddress(self.0 * FRAME_SIZE)
    }
}

/// Multiplying a unit number by the unit size and dividing again gives the
/// number back, and the product is aligned.
proof fn lemma_unit_address_roundtrip(number: int)
    by (nonlinear_arith)
    requires
        number >= 0,
    ensures
        (number * (FRAME_SIZE as int)) / (FRAME_SIZE as int) == number,
        (number * (FRAME_SIZE as int)) % (FRAME_SIZE as int) == 0,
{
}

/// The frame round trip: the frame containing a well-formed frame's base
/// address is that frame itself, since [`Frame::containing_address`]
/// divides what [`Frame::base_address`] multiplied.
pub proof fn lemma_frame_address_roundtrip(f: Frame)
    requires
        f.wf(),
    ensures
        f.spec_base() / (FRAME_SIZE as int) == f@,
        f.spec_base() % (FRAME_SIZE as int) == 0,
{
    lemma_unit_address_roundtrip(f@);
}

/// The page round trip: the page containing a well-formed page's base
/// address is that page itself, since [`Page::containing_address`] divides
/// what [`Page::base_address`] multiplied.
pub proof fn lemma_page_address_roundtrip(p: Page)
    requires
        p.wf(),
    ensures
        p.spec_base() / (FRAME_SIZE as int) == p@,
        p.spec_base() % (FRAME_SIZE as int) == 0,
{
    lemma_unit_address_roundtrip(p@);
}

/// A range of contiguous [`Frame`]s: a start frame and an inclusive count.
#[derive(Clone, Copy, Debug, Hash, PartialEq, Eq, Structural)]
pub struct FrameRange {
    /// The first frame of the range.
    pub frame: Frame,
    /// The number of frames in the range.
    pub size: u64,
}

impl FrameRange {
    /// The first frame number as a mathematical value.
    pub open spec fn spec_start(self) -> int {
        self.frame@
    }

    /// The number of frames as a mathematical value.
    pub open spec fn spec_size(self) -> int {
        self.size as int
    }

    /// A range is well-formed when every frame in it, and the frame one past
    /// its end, has a base address within the supported physical width.
    pub open spec fn wf(self) -> bool {
        self.spec_start() + self.spec_size() <= FRAME_NUMBER_LIMIT
    }

    /// Whether the frame containing mathematical address `addr` lies in the
    /// range.
    pub open spec fn spec_contains(self, addr: int) -> bool {
        self.spec_start() <= addr / (FRAME_SIZE as int) < self.spec_start() + self.spec_size()
    }

    /// Returns the [`FrameRange`] that starts at `start` and ends at `end`,
    /// inclusively. The size is `end - start + 1` when `end >= start`, and
    /// `0` otherwise: an inverted range never underflows.
    pub fn inclusive_range(start: Frame, end: Frame) -> (r: Self)
        requires
            start@ > 0 || end@ < u64::MAX,
        ensures
            r.frame == start,
            end@ < start@ ==> r.spec_size() == 0,
            end@ >= start@ ==> r.spec_size() == end@ - start@ + 1,
            start.wf() && end.wf() ==> r.wf(),
    {
        let size: u64 = if end.number() < start.number() {
            0
        } else {
            end.number() - start.number() + 1
        };

        FrameRange { frame: start, size }
    }

    /// Returns the [`Frame`] at the start of the [`FrameRange`].
    pub fn start(&self) -> (r: Frame)
        ensures
            r == self.frame,
    {
        self.frame
    }

    /// Returns the [`PhysicalAddress`] at the start of the [`FrameRange`].
    pub fn start_address(&self) -> (r: PhysicalAddress)
        requires
            self.frame.wf(),
        ensures
            r@ == self.frame.spec_base(),
            r.wf(),
    {
        self.frame.base_address()
    }

    /// Returns the number of [`Frame`]s this [`FrameRange`] contains.
    pub fn size_in_frames(&self) -> (r: u64)
        ensures
            r == self.spec_size(),
    {
        self.size
    }

    /// Returns the number of bytes this [`FrameRange`] contains.
    pub fn size_in_bytes(&self) -> (r: u64)
        requires
            self.wf(),
        ensures
            r == self.spec_size() * (FRAME_SIZE as int),
    {
        self.size * FRAME_SIZE
    }

    /// Returns `true` if this [`FrameRange`] contains the given
    /// [`PhysicalAddress`].
    pub fn contains_address(&self, address: PhysicalAddress) -> (r: bool)
        requires
            self.wf(),
        ensures
            r == self.spec_contains(address@),
    {
        self.start().number() <= Frame::containing_address(address).number()
            && Frame::containing_address(address).number()
                < self.start().number() + self.size_in_frames()
    }

    /// Returns the offset into this [`FrameRange`] at which the given
    /// [`PhysicalAddress`] lies, and `None` iff the address is not contained
    /// in this [`FrameRange`].
    pub fn offset_of_address(&self, address: PhysicalAddress) -> (r: Option<u64>)
        requires
            self.wf(),
        ensures
            self.spec_contains(address@) ==> r == Some(
                (address@ - self.frame.spec_base()) as u64,
            ),
            !self.spec_contains(address@) ==> r is None,
    {
        if !self.contains_address(address) {
            return None;
        }

        proof {
            lemma_unit_range_bounds(self.frame@, self.spec_size(), address@);
        }
        Some(address.value() - self.start_address().value())
    }

    /// Returns the [`PhysicalAddress`] located at the given `offset` in this
    /// [`FrameRange`], and `None` iff `offset` is not below the size in
    /// bytes of this [`FrameRange`].
    pub fn address_at_offset(&self, offset: u64) -> (r: Option<PhysicalAddress>)
        requires
            self.wf(),
        ensures
            offset < self.spec_size() * (FRAME_SIZE as int) ==> r == Some(
                PhysicalAddress((self.frame.spec_base() + offset) as u64),
            ),
            offset >= self.spec_size() * (FRAME_SIZE as int) ==> r is None,
    {
        if !(offset < self.size_in_bytes()) {
            return None;
        }

        proof {
            lemma_unit_range_bounds(self.frame@, self.spec_size(), 0);
        }
        Some(PhysicalAddress(self.start_address().value() + offset))
    }

    /// Returns `true` if this [`FrameRange`] fully contains the given
    /// `other` [`FrameRange`].
    ///
    /// The comparison of the ends is strict: a range does not count as
    /// containing another range whose end frame is exactly its own last
    /// frame.
    pub fn contains_range(&self, other: &FrameRange) -> (r: bool)
        requires
            self.wf(),
            other.wf(),
        ensures
            r == (self.spec_start() <= other.spec_start() && other.spec_start()
                + other.spec_size() < self.spec_start() + self.spec_size()),
    {
        self.start().number() <= other.start().number()
            && other.start().number() + other.size_in_frames()
                < self.start().number() + self.size_in_frames()
    }

    /// Returns `true` if this [`FrameRange`] overlaps with the given `other`
    /// [`FrameRange`].
    pub fn overlaps(&self, other: &FrameRange) -> (r: bool)
        requires
            self.wf(),
            other.wf(),
        ensures
            r == (self.spec_start() < other.spec_start() + other.spec_size()
                && other.spec_start() < self.spec_start() + self.spec_size()),
    {
        self.start().number() < other.start().number() + other.size_in_frames()
            && other.start().number() < self.start().number() + self.size_in_frames()
    }

    /// Returns an iterator over the [`Frame`]s of this [`FrameRange`].
    pub fn into_iter(self) -> (r: FrameRangeIter)
        ensures
            r.frame == self.frame,
            r.remaining == self.size,
    {
        FrameRangeIter { frame: self.frame, remaining: self.size }
    }
}

/// An address whose containing unit lies within a range of units lies at or
/// beyond the range's base address, and within its size in bytes.
proof fn lemma_unit_range_bounds(start: int, size: int, addr: int)
    by (nonlinear_arith)
    requires
        0 <= start,
        0 <= size,
        start + size <= PAGE_NUMBER_LIMIT,
    ensures
        start <= addr / (FRAME_SIZE as int) < start + size ==> start * (FRAME_SIZE as int) <= addr
            < (start + size) * (FRAME_SIZE as int),
        start * (FRAME_SIZE as int) + size * (FRAME_SIZE as int) == (start + size) * (
        FRAME_SIZE as int),
{
}

/// An iterator over the [`Frame`]s that make up a [`FrameRange`], yielding
/// them one unit at a time in ascending order.
#[derive(Clone, Copy, Debug)]
pub struct FrameRangeIter {
    /// The next frame to yield.
    pub frame: Frame,
    /// How many frames are still to be yielded.
    pub remaining: u64,
}

impl FrameRangeIter {
    /// An iterator is well-formed when every frame it will still yield is a
    /// well-formed frame.
    pub open spec fn wf(self) -> bool {
        self.frame@ + self.remaining <= FRAME_NUMBER_LIMIT
    }

    /// Returns a [`FrameRangeIter`] that yields no frames.
    pub fn empty() -> (r: Self)
        ensures
            r.wf(),
            r.remaining == 0,
    {
        FrameRangeIter { frame: Frame(0), remaining: 0 }
    }

    /// Yields the next [`Frame`], advancing one unit, or `None` iff the
    /// iterator is exhausted.
    pub fn next(&mut self) -> (r: Option<Frame>)
        requires
            old(self).wf(),
        ensures
            final(self).wf(),
            old(self).remaining == 0 ==> r is None && *final(self) == *old(self),
            old(self).remaining > 0 ==> r == Some(old(self).frame) && final(self).remaining
                == old(self).remaining - 1 && old(self).frame.wf(),
            old(self).remaining > 1 ==> final(self).frame@ == old(self).frame@ + 1,
    {
        if self.remaining == 0 {
            return None;
        }

        let frame = self.frame;
        self.remaining = self.remaining - 1;
        if self.remaining > 0 {
            self.frame = Frame(frame.0 + 1);
        }

        Some(frame)
    }
}

/// A virtual memory address.
#[derive(Clone, Copy, Debug, Hash, PartialEq, Eq, Structural)]
pub struct VirtualAddress(pub u64);

impl VirtualAddress {
    /// The mathematical value of this address.
    pub open spec fn view(self) -> int {
        self.0 as int
    }

    /// A virtual address is well-formed when it is canonical. The
    /// constructors only produce such values.
    pub open spec fn wf(self) -> bool {
        virtual_address_canonical(self.0)
    }

    /// Returns the zero [`VirtualAddress`].
    pub fn zero() -> (r: Self)
        ensures
            r.wf(),
            r@ == 0,
    {
        VirtualAddress(0)
    }

    /// Returns the [`VirtualAddress`] at `address` if `address` is a valid
    /// [`VirtualAddress`]; the result is present iff `address` is canonical.
    pub fn new(address: u64) -> (r: Option<Self>)
        ensures
            virtual_address_canonical(address) ==> r == Some(VirtualAddress(address)),
            !virtual_address_canonical(address) ==> r is None,
            r matches Some(a) ==> a.wf() && a@ == address,
    {
        proof {
            assert({
                let upper17 = address & !0x0000_7FFF_FFFF_FFFFu64;
                (upper17 == 0 || upper17 == !0x0000_7FFF_FFFF_FFFFu64) <==> (address
                    < 0x0000_8000_0000_0000u64 || address > 0xFFFF_7FFF_FFFF_FFFFu64)
            }) by (bit_vector);
        }
        let upper17 = address & !0x0000_7FFF_FFFF_FFFF;
        if !(upper17 == 0 || upper17 == !0x0000_7FFF_FFFF_FFFF) {
            return None;
        }

        Some(VirtualAddress(address))
    }

    /// Returns the [`VirtualAddress`] at `address`, removing any bits that
    /// disrupt canonicality: the bits above the supported virtual width are
    /// replaced by a sign-extension of the highest valid bit, so the low
    /// bits are kept, the result is always canonical, and a canonical input
    /// is returned unchanged.
    pub fn new_canonical(address: u64) -> (r: Self)
        ensures
            r.wf(),
            r.0 == spec_canonicalize(address),
            r@ % (START_GAP as int) == (address as int) % (START_GAP as int),
            virtual_address_canonical(address) ==> r@ == address,
    {
        proof {
            assert({
                let r = if address & 0x0000_8000_0000_0000u64 != 0 {
                    address | 0xFFFF_8000_0000_0000u64
                } else {
                    address & 0x0000_7FFF_FFFF_FFFFu64
                };
                &&& (r < 0x0000_8000_0000_0000u64 || r > 0xFFFF_7FFF_FFFF_FFFFu64)
                &&& r == spec_canonicalize(address)
                &&& r % 0x0000_8000_0000_0000u64 == address % 0x0000_8000_0000_0000u64
                &&& ((address < 0x0000_8000_0000_0000u64 || address > 0xFFFF_7FFF_FFFF_FFFFu64)
                    ==> r == address)
            }) by (bit_vector);
        }
        if address & START_GAP != 0 {
            VirtualAddress(address | 0xFFFF_8000_0000_0000)
        } else {
            VirtualAddress(address & 0x0000_7FFF_FFFF_FFFF)
        }
    }

    /// Returns the underlying value of this [`VirtualAddress`].
    pub fn value(&self) -> (r: u64)
        ensures
            r == self@,
    {
        self.0
    }

    /// Returns the offset within a [`Page`] at which this [`VirtualAddress`]
    /// lies.
    pub fn page_offset(&self) -> (r: u64)
        ensures
            r == self@ % (FRAME_SIZE as int),
    {
        self.0 % FRAME_SIZE
    }
}

/// A region of virtual memory aligned to an architecture-dependent value,
/// identified by its page number: its base address is `number * FRAME_SIZE`.
#[derive(Clone, Copy, Debug, Hash, PartialEq, Eq, Structural)]
pub struct Page(pub u64);

impl Page {
    /// The page number as a mathematical value.
    pub open spec fn view(self) -> int {
        self.0 as int
    }

    /// A page is well-formed when its base address is canonical: its number
    /// lies in the lower canonical half or in the higher canonical half.
    pub open spec fn wf(self) -> bool {
        self.0 < LOW_HALF_PAGE_LIMIT || (HIGH_HALF_PAGE_START <= self.0 && self.0
            < PAGE_NUMBER_LIMIT)
    }

    /// The base address of the page as a mathematical value.
    pub open spec fn spec_base(self) -> int {
        self@ * (FRAME_SIZE as int)
    }

    /// Returns the [`Page`] that contains the [`VirtualAddress`]:
    /// `containing_address` is floor-division by the page size.
    pub fn containing_address(address: VirtualAddress) -> (r: Self)
        ensures
            r@ == address@ / (FRAME_SIZE as int),
            address.wf() ==> r.wf(),
    {
        proof {
            let v = address.0;
            assert((v < 0x0000_8000_0000_0000u64 || v > 0xFFFF_7FFF_FFFF_FFFFu64) ==> (v
                / 4096u64 < 0x8_0000_0000u64 || (0xF_FFF8_0000_0000u64 <= v / 4096u64 && v
                / 4096u64 < 0x10_0000_0000_0000u64))) by (bit_vector);
        }
        Page(address.value() / FRAME_SIZE)
    }

    /// Returns the [`Page`] number of this [`Page`].
    pub fn number(&self) -> (r: u64)
        ensures
            r == self@,
    {
        self.0
    }

    /// Returns the [`VirtualAddress`] at the base of this [`Page`].
    pub fn base_address(&self) -> (r: VirtualAddress)
        requires
            self.wf(),
        ensures
            r@ == self.spec_base(),
            r.wf(),
    {
        proof {
            let n = self.0;
            assert((n < 0x8_0000_0000u64 || (0xF_FFF8_0000_0000u64 <= n && n
                < 0x10_0000_0000_0000u64)) ==> (n * 4096 < 0x0000_8000_0000_0000
                || n * 4096 > 0xFFFF_7FFF_FFFF_FFFF) && n * 4096 <= u64::MAX) by (bit_vector);
        }
        VirtualAddress(self.0 * FRAME_SIZE)
    }

    /// The index of the page's entry in the fourth-level page table.
    pub open spec fn spec_pml4e_index(self) -> u64 {
        (self.0 / 0x800_0000) % 512
    }

    /// The index of the page's entry in the third-level page table.
    pub open spec fn spec_pml3e_index(self) -> u64 {
        (self.0 / 0x4_0000) % 512
    }

    /// The index of the page's entry in the second-level page table.
    pub open spec fn spec_pml2e_index(self) -> u64 {
        (self.0 / 0x200) % 512
    }

    /// Returns the index of this [`Page`]'s entry in the fourth-level page
    /// table.
    pub fn pml4e_index(&self) -> (r: u64)
        ensures
            r == self.spec_pml4e_index(),
            r < 512,
    {
        (self.0 / 0x800_0000) % 512
    }

    /// Returns the index of this [`Page`]'s entry in the third-level page
    /// table.
    pub fn pml3e_index(&self) -> (r: u64)
        ensures
            r == self.spec_pml3e_index(),
            r < 512,
    {
        (self.0 / 0x4_0000) % 512
    }

    /// Returns the index of this [`Page`]'s entry in the second-level page
    /// table.
    pub fn pml2e_index(&self) -> (r: u64)
        ensures
            r == self.spec_pml2e_index(),
            r < 512,
    {
        (self.0 / 0x200) % 512
    }
}

/// A range of contiguous [`Page`]s: a start page and an inclusive count.
/// Construction fails if the range would straddle the non-canonical gap in
/// the virtual address space, so a well-formed range lies entirely within
/// one canonical half.
#[derive(Clone, Copy, Debug, Hash, PartialEq, Eq, Structural)]
pub struct PageRange {
    /// The first page of the range.
    pub page: Page,
    /// The number of pages in the range.
    pub size: u64,
}

impl PageRange {
    /// The first page number as a mathematical value.
    pub open spec fn spec_start(self) -> int {
        self.page@
    }

    /// The number of pages as a mathematical value.
    pub open spec fn spec_size(self) -> int {
        self.size as int
    }

    /// A range is well-formed when its start page is well-formed and all its
    /// pages lie within a single canonical half.
    pub open spec fn wf(self) -> bool {
        self.page.wf() && (self.spec_size() == 0 || self.spec_start() + self.spec_size()
            <= LOW_HALF_PAGE_LIMIT || (self.spec_start() >= HIGH_HALF_PAGE_START
            && self.spec_start() + self.spec_size() <= PAGE_NUMBER_LIMIT))
    }

    /// Whether the page containing mathematical address `addr` lies in the
    /// range.
    pub open spec fn spec_contains(self, addr: int) -> bool {
        self.spec_start() <= addr / (FRAME_SIZE as int) < self.spec_start() + self.spec_size()
    }

    /// Returns the [`PageRange`] that starts at `start` and ends at `end`,
    /// inclusively, with size `end - start + 1` when `end >= start` and `0`
    /// otherwise. The result is absent iff the range would cross the gap in
    /// the virtual address space, which holds exactly when `start`'s base
    /// address lies at or below the gap's end while `end`'s base address
    /// lies at or above the gap's start.
    pub fn inclusive_range(start: Page, end: Page) -> (r: Option<PageRange>)
        requires
            start.wf(),
            end.wf(),
        ensures
            (start.spec_base() <= END_GAP && end.spec_base() >= START_GAP) <==> r is None,
            r matches Some(range) ==> {
                &&& range.page == start
                &&& (end@ < start@ ==> range.spec_size() == 0)
                &&& (end@ >= start@ ==> range.spec_size() == end@ - start@ + 1)
                &&& range.wf()
            },
    {
        if start.base_address().value() <= END_GAP && end.base_address().value() >= START_GAP {
            return None;
        }

        let size: u64 = if end.number() < start.number() {
            0
        } else {
            end.number() - start.number() + 1
        };

        proof {
            lemma_page_range_halves(start@, end@);
        }
        Some(PageRange { page: start, size })
    }

    /// Returns the [`Page`] at the start of this [`PageRange`].
    pub fn start(&self) -> (r: Page)
        ensures
            r == self.page,
    {
        self.page
    }

    /// Returns the [`VirtualAddress`] at the start of this [`PageRange`].
    pub fn start_address(&self) -> (r: VirtualAddress)
        requires
            self.page.wf(),
        ensures
            r@ == self.page.spec_base(),
            r.wf(),
    {
        self.page.base_address()
    }

    /// Returns the number of [`Page`]s this [`PageRange`] contains.
    pub fn size_in_pages(&self) -> (r: u64)
        ensures
            r == self.spec_size(),
    {
        self.size
    }

    /// Returns the number of bytes this [`PageRange`] contains.
    pub fn size_in_bytes(&self) -> (r: u64)
        requires
            self.wf(),
        ensures
            r == self.spec_size() * (FRAME_SIZE as int),
    {
        proof {
            lemma_unit_range_bounds(self.page@, self.spec_size(), 0);
        }
        self.size * FRAME_SIZE
    }

    /// Returns `true` if this [`PageRange`] contains the given
    /// [`VirtualAddress`].
    pub fn contains_address(&self, address: VirtualAddress) -> (r: bool)
        requires
            self.wf(),
        ensures
            r == self.spec_contains(address@),
    {
        self.start().number() <= Page::containing_address(address).number()
            && Page::containing_address(address).number()
                < self.start().number() + self.size_in_pages()
    }

    /// Returns the offset into this [`PageRange`] at which the given
    /// [`VirtualAddress`] lies, and `None` iff the address is not contained
    /// within this [`PageRange`].
    pub fn offset_of_address(&self, address: VirtualAddress) -> (r: Option<u64>)
        requires
            self.wf(),
        ensures
            self.spec_contains(address@) ==> r == Some((address@ - self.page.spec_base()) as u64),
            !self.spec_contains(address@) ==> r is None,
    {
        if !self.contains_address(address) {
            return None;
        }

        proof {
            lemma_unit_range_bounds(self.page@, self.spec_size(), address@);
        }
        Some(address.value() - self.start_address().value())
    }

    /// Returns the [`VirtualAddress`] located at the given `offset` in this
    /// [`PageRange`], and `None` iff `offset` is not below the size in bytes
    /// of this [`PageRange`].
    pub fn address_at_offset(&self, offset: u64) -> (r: Option<VirtualAddress>)
        requires
            self.wf(),
        ensures
            offset < self.spec_size() * (FRAME_SIZE as int) ==> r == Some(
                VirtualAddress((self.page.spec_base() + offset) as u64),
            ),
            offset >= self.spec_size() * (FRAME_SIZE as int) ==> r is None,
    {
        if !(offset < self.size_in_bytes()) {
            return None;
        }

        proof {
            lemma_unit_range_bounds(self.page@, self.spec_size(), 0);
        }
        Some(VirtualAddress(self.start_address().value() + offset))
    }

    /// Returns `true` if this [`PageRange`] fully contains the given `other`
    /// [`PageRange`].
    ///
    /// The comparison of the ends is strict: a range does not count as
    /// containing another range whose end page is exactly its own last page.
    pub fn contains_range(&self, other: &PageRange) -> (r: bool)
        requires
            self.wf(),
            other.wf(),
        ensures
            r == (self.spec_start() <= other.spec_start() && other.spec_start()
                + other.spec_size() < self.spec_start() + self.spec_size()),
    {
        self.start().number() <= other.start().number()
            && other.start().number() + other.size_in_pages()
                < self.start().number() + self.size_in_pages()
    }

    /// Returns `true` if this [`PageRange`] overlaps with the given `other`
    /// [`PageRange`].
    pub fn overlaps(&self, other: &PageRange) -> (r: bool)
        requires
            self.wf(),
            other.wf(),
        ensures
            r == (self.spec_start() < other.spec_start() + other.spec_size()
                && other.spec_start() < self.spec_start() + self.spec_size()),
    {
        self.start().number() < other.start().number() + other.size_in_pages()
            && other.start().number() < self.start().number() + self.size_in_pages()
    }

    /// Returns an iterator over the [`Page`]s of this [`PageRange`].
    pub fn into_iter(self) -> (r: PageRangeIter)
        ensures
            r.page == self.page,
            r.remaining == self.size,
            self.wf() ==> r.wf(),
    {
        PageRangeIter { page: self.page, remaining: self.size }
    }
}

/// A gap check over base addresses separates the two canonical halves: when
/// two well-formed pages do not cross the gap, the inclusive range between
/// them lies in a single half.
proof fn lemma_page_range_halves(start: int, end: int)
    requires
        start < LOW_HALF_PAGE_LIMIT || (HIGH_HALF_PAGE_START <= start && start
            < PAGE_NUMBER_LIMIT),
        end < LOW_HALF_PAGE_LIMIT || (HIGH_HALF_PAGE_START <= end && end < PAGE_NUMBER_LIMIT),
        start * (FRAME_SIZE as int) > END_GAP || end * (FRAME_SIZE as int) < START_GAP,
    ensures
        start >= end ==> start >= HIGH_HALF_PAGE_START || end + 1 <= LOW_HALF_PAGE_LIMIT
            || start < LOW_HALF_PAGE_LIMIT,
        start <= end ==> end + 1 <= LOW_HALF_PAGE_LIMIT || start >= HIGH_HALF_PAGE_START,
{
    assert(HIGH_HALF_PAGE_START * (FRAME_SIZE as int) == 0xFFFF_8000_0000_0000)
        by (nonlinear_arith);
    assert(LOW_HALF_PAGE_LIMIT * (FRAME_SIZE as int) == 0x0000_8000_0000_0000)
        by (nonlinear_arith);
    if start * (FRAME_SIZE as int) > END_GAP {
        assert(start >= HIGH_HALF_PAGE_START) by (nonlinear_arith)
            requires
                start * (FRAME_SIZE as int) > END_GAP as int,
                HIGH_HALF_PAGE_START * (FRAME_SIZE as int) == END_GAP + 1,
        ;
    } else {
        assert(end < LOW_HALF_PAGE_LIMIT) by (nonlinear_arith)
            requires
                end * (FRAME_SIZE as int) < START_GAP as int,
                LOW_HALF_PAGE_LIMIT * (FRAME_SIZE as int) == START_GAP as int,
        ;
    }
}

/// An iterator over the [`Page`]s that make up a [`PageRange`], yielding
/// them one unit at a time in ascending order.
#[derive(Clone, Copy, Debug)]
pub struct PageRangeIter {
    /// The next page to yield.
    pub page: Page,
    /// How many pages are still to be yielded.
    pub remaining: u64,
}

impl PageRangeIter {
    /// An iterator is well-formed when every page it will still yield is a
    /// well-formed page and they all lie in a single canonical half.
    pub open spec fn wf(self) -> bool {
        self.remaining == 0 || (self.page.wf() && (self.page@ + self.remaining
            <= LOW_HALF_PAGE_LIMIT || (self.page@ >= HIGH_HALF_PAGE_START && self.page@
            + self.remaining <= PAGE_NUMBER_LIMIT)))
    }

    /// Returns a [`PageRangeIter`] that yields no pages.
    pub fn empty() -> (r: Self)
        ensures
            r.wf(),
            r.remaining == 0,
    {
        PageRangeIter { page: Page(0), remaining: 0 }
    }

    /// Yields the next [`Page`], advancing one unit, or `None` iff the
    /// iterator is exhausted.
    pub fn next(&mut self) -> (r: Option<Page>)
        requires
            old(self).wf(),
        ensures
            final(self).wf(),
            old(self).remaining == 0 ==> r is None && *final(self) == *old(self),
            old(self).remaining > 0 ==> r == Some(old(self).page) && final(self).remaining
                == old(self).remaining - 1 && old(self).page.wf(),
            old(self).remaining > 1 ==> final(self).page@ == old(self).page@ + 1,
    {
        if self.remaining == 0 {
            return None;
        }

        let page = self.page;
        self.remaining = self.remaining - 1;
        if self.remaining > 0 {
            self.page = Page(page.0 + 1);
        }

        Some(page)
    }
}

} // verus!
