//! Deriving the usable physical frames from a bootloader memory map, and
//! sizing the kernel's own mapping.
//!
//! Both boot protocols expose the same abstraction: a finite sequence of
//! `(base, length, usability-kind)` triples. The allocator walks that
//! sequence lazily, skipping entries that are not usable, are empty, or lie
//! outside the supported physical address range, and yields one frame at a
//! time in ascending order within each entry.

use vstd::prelude::*;

use crate::boot_stub;
use crate::limine;
use crate::memory::{
    spec_canonicalize, Frame, FrameRange, FrameRangeIter, Page, PageRange, PhysicalAddress,
    VirtualAddress, END_GAP, FRAME_NUMBER_LIMIT, FRAME_SIZE, PHYSICAL_ADDRESS_LIMIT, START_GAP,
};

verus! {

/// The frames numbered `start` up to but excluding `start + n`, in
/// ascending order.
pub open spec fn spec_unit_frames(start: int, n: int) -> Seq<Frame> {
    Seq::new(n as nat, |i: int| Frame((start + i) as u64))
}

/// The frames of the given [`FrameRange`], in ascending order.
pub open spec fn spec_range_frames(range: FrameRange) -> Seq<Frame> {
    spec_unit_frames(range.spec_start(), range.spec_size())
}

/// The frames a single memory map entry `(base, length, usable)`
/// contributes: the frames touching its bytes when the entry is usable,
/// non-empty and lies within the supported physical address range, and no
/// frames at all otherwise.
pub open spec fn spec_entry_frames(e: (int, int, bool)) -> Seq<Frame> {
    if e.2 && e.1 > 0 && 0 <= e.0 && e.0 + e.1 <= PHYSICAL_ADDRESS_LIMIT {
        spec_unit_frames(
            e.0 / (FRAME_SIZE as int),
            (e.0 + e.1 - 1) / (FRAME_SIZE as int) + 1 - e.0 / (FRAME_SIZE as int),
        )
    } else {
        Seq::empty()
    }
}

/// The frames contributed by the entries of `s` from position `i` on, in
/// map order.
pub open spec fn spec_frames_from(s: Seq<(int, int, bool)>, i: int) -> Seq<Frame>
    decreases s.len() - i,
{
    if 0 <= i < s.len() {
        spec_entry_frames(s[i]) + spec_frames_from(s, i + 1)
    } else {
        Seq::empty()
    }
}

/// A memory map entry that is empty, or not usable, contributes no frames;
/// the allocator passes over such an entry without stalling.
pub proof fn lemma_degenerate_entry_contributes_no_frames(e: (int, int, bool))
    requires
        !e.2 || e.1 == 0,
    ensures
        spec_entry_frames(e) == Seq::<Frame>::empty(),
{
}

/// Within one memory map entry the frames come out in strictly ascending
/// order of their numbers, so the allocator's frames mirror the map order
/// and no frame is produced twice from one entry.
pub proof fn lemma_unit_frames_ascending(start: int, n: int, i: int, j: int)
    requires
        0 <= start,
        start + n <= FRAME_NUMBER_LIMIT,
        0 <= i < j < n,
    ensures
        spec_unit_frames(start, n)[i]@ < spec_unit_frames(start, n)[j]@,
{
}

/// The first frame number a memory map entry contributes.
pub open spec fn spec_entry_first_frame(e: (int, int, bool)) -> int {
    e.0 / (FRAME_SIZE as int)
}

/// The last frame number a memory map entry contributes.
pub open spec fn spec_entry_last_frame(e: (int, int, bool)) -> int {
    (e.0 + e.1 - 1) / (FRAME_SIZE as int)
}

/// Whether the memory map is ordered: any entry that contributes frames
/// ends strictly before every later contributing entry begins.
pub open spec fn spec_map_ordered(s: Seq<(int, int, bool)>) -> bool {
    forall|i: int, j: int|
        0 <= i < j < s.len() && spec_entry_frames(#[trigger] s[i]).len() > 0 && spec_entry_frames(
            #[trigger] s[j],
        ).len() > 0 ==> spec_entry_last_frame(s[i]) < spec_entry_first_frame(s[j])
}

/// Every frame still to come from position `m` of an ordered map lies
/// strictly above `bound` whenever every contributing entry from `m` on
/// begins strictly above `bound`.
proof fn lemma_frames_from_lower_bound(s: Seq<(int, int, bool)>, m: int, bound: int, k: int)
    requires
        forall|j: int|
            m <= j < s.len() && spec_entry_frames(#[trigger] s[j]).len() > 0
                ==> spec_entry_first_frame(s[j]) > bound,
        0 <= k < spec_frames_from(s, m).len(),
    ensures
        spec_frames_from(s, m)[k]@ > bound,
    decreases s.len() - m,
{
    if 0 <= m < s.len() {
        let head = spec_entry_frames(s[m]);
        if k < head.len() {
            assert(head[k]@ == spec_entry_first_frame(s[m]) + k);
        } else {
            lemma_frames_from_lower_bound(s, m + 1, bound, k - head.len());
        }
    }
}

/// Over an ordered memory map the remaining frames come out in strictly
/// ascending order of their numbers: the allocator mirrors the map order
/// and never produces the same frame twice.
pub proof fn lemma_ordered_map_frames_ascending(
    s: Seq<(int, int, bool)>,
    i: int,
    k1: int,
    k2: int,
)
    requires
        spec_map_ordered(s),
        0 <= i,
        0 <= k1 < k2 < spec_frames_from(s, i).len(),
    ensures
        spec_frames_from(s, i)[k1]@ < spec_frames_from(s, i)[k2]@,
    decreases s.len() - i,
{
    if 0 <= i < s.len() {
        let head = spec_entry_frames(s[i]);
        if k2 < head.len() {
            assert(head[k1]@ == spec_entry_first_frame(s[i]) + k1);
            assert(head[k2]@ == spec_entry_first_frame(s[i]) + k2);
        } else if k1 >= head.len() {
            lemma_ordered_map_frames_ascending(s, i + 1, k1 - head.len(), k2 - head.len());
        } else {
            assert(head[k1]@ <= spec_entry_last_frame(s[i])) by {
                assert(head[k1]@ == spec_entry_first_frame(s[i]) + k1);
            }
            assert forall|j: int|
                i + 1 <= j < s.len() && spec_entry_frames(#[trigger] s[j]).len()
                    > 0 implies spec_entry_first_frame(s[j]) > spec_entry_last_frame(
                s[i],
            ) by {
                assert(spec_entry_frames(s[i]).len() > 0);
            }
            lemma_frames_from_lower_bound(s, i + 1, spec_entry_last_frame(s[i]), k2 - head.len());
        }
    }
}

/// The lazy, finite, non-restartable sequence of memory map entries of the
/// protocol the kernel was booted with, converted one usable entry at a
/// time into a [`FrameRange`].
#[derive(Clone, Debug)]
pub enum BootloaderMemoryMapIterator {
    /// The memory map of the flat-handoff protocol.
    Capora {
        /// The decoded entries, in the boot stub's order.
        entries: Vec<boot_stub::MemoryMapEntry>,
        /// How many entries have been consumed.
        index: usize,
    },
    /// The memory map of the tag-based protocol.
    Limine {
        /// The decoded entries, in the bootloader's order.
        entries: Vec<limine::MemoryMapEntry>,
        /// How many entries have been consumed.
        index: usize,
    },
}

impl BootloaderMemoryMapIterator {
    /// The uniform `(base, length, usable)` view of all entries of the map,
    /// consumed ones included.
    pub open spec fn view(self) -> Seq<(int, int, bool)> {
        match self {
            BootloaderMemoryMapIterator::Capora { entries, .. } => entries@.map_values(
                |e: boot_stub::MemoryMapEntry| (e.base as int, e.size as int, e.kind.0 == 0),
            ),
            BootloaderMemoryMapIterator::Limine { entries, .. } => entries@.map_values(
                |e: limine::MemoryMapEntry| (e.base as int, e.length as int, e.mem_type.0 == 0),
            ),
        }
    }

    /// How many entries have been consumed.
    pub open spec fn spec_index(self) -> int {
        match self {
            BootloaderMemoryMapIterator::Capora { index, .. } => index as int,
            BootloaderMemoryMapIterator::Limine { index, .. } => index as int,
        }
    }

    /// The cursor never passes the end of the map, whose length a vector
    /// can hold.
    pub open spec fn wf(self) -> bool {
        self.spec_index() <= self@.len() <= usize::MAX
    }

    /// The frames of all entries not yet consumed, in map order.
    pub open spec fn remaining_frames(self) -> Seq<Frame> {
        spec_frames_from(self@, self.spec_index())
    }

    /// Returns the iterator over the flat-handoff protocol's map.
    pub fn new_capora(entries: Vec<boot_stub::MemoryMapEntry>) -> (r: Self)
        ensures
            (r == BootloaderMemoryMapIterator::Capora { entries, index: 0 }),
            r.wf(),
            r.spec_index() == 0,
    {
        let n = entries.len();
        let r = BootloaderMemoryMapIterator::Capora { entries, index: 0 };
        proof {
            assert(r@.len() == n);
        }
        r
    }

    /// Returns the iterator over the tag-based protocol's map.
    pub fn new_limine(entries: Vec<limine::MemoryMapEntry>) -> (r: Self)
        ensures
            (r == BootloaderMemoryMapIterator::Limine { entries, index: 0 }),
            r.wf(),
            r.spec_index() == 0,
    {
        let n = entries.len();
        let r = BootloaderMemoryMapIterator::Limine { entries, index: 0 };
        proof {
            assert(r@.len() == n);
        }
        r
    }

    /// Returns the number of entries of the map.
    fn map_len(&self) -> (r: usize)
        ensures
            r == self@.len(),
    {
        match self {
            BootloaderMemoryMapIterator::Capora { entries, .. } => entries.len(),
            BootloaderMemoryMapIterator::Limine { entries, .. } => entries.len(),
        }
    }

    /// Returns the position of the cursor.
    fn cursor(&self) -> (r: usize)
        ensures
            r == self.spec_index(),
    {
        match self {
            BootloaderMemoryMapIterator::Capora { index, .. } => *index,
            BootloaderMemoryMapIterator::Limine { index, .. } => *index,
        }
    }

    /// Returns the `(base, length, usable)` triple of the entry at `i`.
    fn entry_at(&self, i: usize) -> (r: (u64, u64, bool))
        requires
            i < self@.len(),
        ensures
            self@[i as int] == (r.0 as int, r.1 as int, r.2),
    {
        match self {
            BootloaderMemoryMapIterator::Capora { entries, .. } => {
                let e = entries[i];
                (e.base, e.size, e.kind == boot_stub::MemoryMapEntryKind::usable())
            },
            BootloaderMemoryMapIterator::Limine { entries, .. } => {
                let e = entries[i];
                (e.base, e.length, e.mem_type == limine::MemoryMapEntryType::usable())
            },
        }
    }

    /// Moves the cursor past the entry it points at.
    fn advance(&mut self)
        requires
            old(self).wf(),
            old(self).spec_index() < old(self)@.len(),
        ensures
            final(self)@ == old(self)@,
            final(self).spec_index() == old(self).spec_index() + 1,
            final(self).wf(),
    {
        match self {
            BootloaderMemoryMapIterator::Capora { index, .. } => {
                *index = *index + 1;
            },
            BootloaderMemoryMapIterator::Limine { index, .. } => {
                *index = *index + 1;
            },
        }
    }

    /// Yields the [`FrameRange`] of the next usable, non-empty, in-range
    /// entry of the map, skipping every entry that contributes no frames,
    /// and `None` iff no frames remain. The frames of the returned range
    /// are exactly the head of the remaining frame sequence.
    pub fn next(&mut self) -> (r: Option<FrameRange>)
        requires
            old(self).wf(),
        ensures
            final(self).wf(),
            final(self)@ == old(self)@,
            final(self).spec_index() >= old(self).spec_index(),
            r is None ==> old(self).remaining_frames() == Seq::<Frame>::empty()
                && final(self).remaining_frames() == Seq::<Frame>::empty(),
            r matches Some(range) ==> {
                &&& range.wf()
                &&& range.spec_size() > 0
                &&& final(self).spec_index() > old(self).spec_index()
                &&& old(self).remaining_frames() == spec_range_frames(range)
                    + final(self).remaining_frames()
            },
    {
        loop
            invariant
                self.wf(),
                self@ == old(self)@,
                self.spec_index() >= old(self).spec_index(),
                spec_frames_from(self@, self.spec_index()) == old(self).remaining_frames(),
            decreases self@.len() - self.spec_index(),
        {
            if self.cursor() >= self.map_len() {
                return None;
            }

            let ghost i = self.spec_index();
            let (base, length, usable) = self.entry_at(self.cursor());
            self.advance();

            if usable && length > 0 {
                if let Some(base_address) = PhysicalAddress::new(base) {
                    if let Some(end) = base.checked_add(length) {
                        if let Some(end_address) = PhysicalAddress::new(end - 1) {
                            let start_frame = Frame::containing_address(base_address);
                            let end_frame = Frame::containing_address(end_address);
                            proof {
                                lemma_entry_division_bounds(base as int, length as int);
                            }
                            let range = FrameRange::inclusive_range(start_frame, end_frame);
                            proof {
                                assert(spec_entry_frames(self@[i]) =~= spec_range_frames(range));
                            }
                            return Some(range);
                        }
                    }
                }
            }

            proof {
                assert(spec_entry_frames(self@[i]) =~= Seq::<Frame>::empty());
                assert(spec_frames_from(self@, i) == spec_entry_frames(self@[i])
                    + spec_frames_from(self@, i + 1));
                assert(spec_entry_frames(self@[i]) + spec_frames_from(self@, i + 1)
                    =~= spec_frames_from(self@, i + 1));
            }
        }
    }
}

/// Division facts about a usable in-range entry: the frame of its last byte
/// comes at or after the frame of its first byte, and both frame numbers
/// stay within the supported range.
proof fn lemma_entry_division_bounds(base: int, length: int)
    by (nonlinear_arith)
    requires
        0 <= base,
        1 <= length,
        base + length <= PHYSICAL_ADDRESS_LIMIT,
    ensures
        base / (FRAME_SIZE as int) <= (base + length - 1) / (FRAME_SIZE as int),
        (base + length - 1) / (FRAME_SIZE as int) < FRAME_NUMBER_LIMIT,
{
}

/// The frames the given [`FrameRangeIter`] will still yield, in ascending
/// order.
pub open spec fn spec_iter_frames(it: FrameRangeIter) -> Seq<Frame> {
    spec_unit_frames(it.frame@, it.remaining as int)
}

/// The lazy, stateful source of physical frames during boot: it consumes
/// the bootloader's memory map one usable entry at a time and yields one
/// frame per call, in map order, never yielding the same frame of an entry
/// twice.
#[derive(Clone, Debug)]
pub struct FrameAllocator {
    /// The untouched memory map the allocator was created over.
    pub original: BootloaderMemoryMapIterator,
    /// The cursor over the not-yet-consumed memory map entries.
    pub entries: BootloaderMemoryMapIterator,
    /// The frames of the entry currently being handed out.
    pub current: FrameRangeIter,
}

impl FrameAllocator {
    /// Both cursors of the allocator are well-formed.
    pub open spec fn wf(self) -> bool {
        self.entries.wf() && self.current.wf()
    }

    /// The frames the allocator will still yield: the rest of the entry
    /// being handed out, then the frames of the remaining entries, in map
    /// order.
    pub open spec fn remaining_frames(self) -> Seq<Frame> {
        spec_iter_frames(self.current) + self.entries.remaining_frames()
    }

    /// Returns a [`FrameAllocator`] over the given memory map.
    pub fn new(entries: BootloaderMemoryMapIterator) -> (r: FrameAllocator)
        requires
            entries.wf(),
        ensures
            r.wf(),
            r.entries == entries,
            r.remaining_frames() == entries.remaining_frames(),
    {
        let original = entries.clone();
        let r = FrameAllocator { original, entries, current: FrameRangeIter::empty() };
        proof {
            assert(r.remaining_frames() =~= r.entries.remaining_frames());
        }
        r
    }

    /// Yields the next usable frame, and `None` iff the memory map is
    /// exhausted: the result is exactly the head of the remaining frame
    /// sequence, which loses that head and nothing else.
    pub fn allocate_frame(&mut self) -> (r: Option<Frame>)
        requires
            old(self).wf(),
        ensures
            final(self).wf(),
            old(self).remaining_frames().len() == 0 ==> r is None
                && final(self).remaining_frames().len() == 0,
            old(self).remaining_frames().len() > 0 ==> r == Some(old(self).remaining_frames()[0])
                && final(self).remaining_frames() == old(self).remaining_frames().drop_first(),
    {
        let mut next_frame = self.current.next();
        proof {
            lemma_iter_step(old(self).current, self.current, next_frame);
        }
        while next_frame.is_none()
            invariant
                self.wf(),
                next_frame is None ==> {
                    &&& spec_iter_frames(self.current).len() == 0
                    &&& self.remaining_frames() == old(self).remaining_frames()
                },
                next_frame matches Some(f) ==> old(self).remaining_frames().len() > 0 && f
                    == old(self).remaining_frames()[0] && self.remaining_frames()
                    == old(self).remaining_frames().drop_first(),
            decreases self.entries@.len() - self.entries.spec_index(),
        {
            let range = match self.entries.next() {
                Some(range) => range,
                None => {
                    proof {
                        assert(spec_iter_frames(self.current).len() == 0);
                        assert(self.remaining_frames() =~= Seq::<Frame>::empty());
                        assert(old(self).remaining_frames().len() == 0);
                    }
                    return None;
                },
            };
            self.current = range.into_iter();
            let ghost before = self.current;
            next_frame = self.current.next();
            proof {
                lemma_iter_step(before, self.current, next_frame);
                assert(spec_iter_frames(before) =~= spec_range_frames(range));
                assert(spec_iter_frames(before).len() > 0);
                assert(self.remaining_frames() =~= old(self).remaining_frames().drop_first());
            }
        }

        next_frame
    }
}

/// The little-endian value of the four bytes of `s` starting at `off`.
pub open spec fn spec_le_u32(s: Seq<u8>, off: int) -> int {
    s[off] + s[off + 1] * 0x100 + s[off + 2] * 0x1_0000 + s[off + 3] * 0x100_0000
}

/// The little-endian value of the eight bytes of `s` starting at `off`.
pub open spec fn spec_le_u64(s: Seq<u8>, off: int) -> int {
    spec_le_u32(s, off) + spec_le_u32(s, off + 4) * 0x1_0000_0000
}

/// One ELF program header describing a loadable segment, read from the
/// linker-provided table as a raw fixed-size record. The fields are decoded
/// at fixed byte offsets, least-significant byte first, because the
/// record's natural alignment is not guaranteed.
#[derive(Clone, Copy, Debug, PartialEq, Eq)]
pub struct ProgramHeader {
    /// The raw bytes of the record.
    pub slice: [u8; 56],
}

impl ProgramHeader {
    /// The segment type stored in the record's first four bytes.
    pub open spec fn spec_segment_type(self) -> int {
        spec_le_u32(self.slice@, 0)
    }

    /// The segment flags stored at byte offset 4.
    pub open spec fn spec_flags(self) -> int {
        spec_le_u32(self.slice@, 4)
    }

    /// The segment's file offset stored at byte offset 8.
    pub open spec fn spec_offset(self) -> int {
        spec_le_u64(self.slice@, 8)
    }

    /// The segment's virtual address stored at byte offset 16.
    pub open spec fn spec_virtual_address(self) -> int {
        spec_le_u64(self.slice@, 16)
    }

    /// The segment's size in memory stored at byte offset 40.
    pub open spec fn spec_memory_size(self) -> int {
        spec_le_u64(self.slice@, 40)
    }

    /// Reads the four bytes starting at `off` as a little-endian value.
    fn read_u32(&self, off: usize) -> (r: u32)
        requires
            off + 4 <= 56,
        ensures
            r == spec_le_u32(self.slice@, off as int),
    {
        let b0 = self.slice[off] as u32;
        let b1 = self.slice[off + 1] as u32;
        let b2 = self.slice[off + 2] as u32;
        let b3 = self.slice[off + 3] as u32;
        b0 + b1 * 0x100 + b2 * 0x1_0000 + b3 * 0x100_0000
    }

    /// Reads the eight bytes starting at `off` as a little-endian value.
    fn read_u64(&self, off: usize) -> (r: u64)
        requires
            off + 8 <= 56,
        ensures
            r == spec_le_u64(self.slice@, off as int),
    {
        let low = self.read_u32(off) as u64;
        let high = self.read_u32(off + 4) as u64;
        low + high * 0x1_0000_0000
    }

    /// Returns the segment type of the record; loadable segments have type
    /// one.
    pub fn segment_type(&self) -> (r: u32)
        ensures
            r == self.spec_segment_type(),
    {
        self.read_u32(0)
    }

    /// Returns the flags of the segment.
    pub fn flags(&self) -> (r: u32)
        ensures
            r == self.spec_flags(),
    {
        self.read_u32(4)
    }

    /// Returns the file offset of the segment.
    pub fn offset(&self) -> (r: u64)
        ensures
            r == self.spec_offset(),
    {
        self.read_u64(8)
    }

    /// Returns the virtual address of the segment.
    pub fn virtual_address(&self) -> (r: u64)
        ensures
            r == self.spec_virtual_address(),
    {
        self.read_u64(16)
    }

    /// Returns the size in memory of the segment.
    pub fn memory_size(&self) -> (r: u64)
        ensures
            r == self.spec_memory_size(),
    {
        self.read_u64(40)
    }
}

/// Reinterprets a raw byte range as the array of fixed-size program-header
/// records it holds: one record per full 56 bytes, in order, with any
/// trailing partial record dropped.
pub fn parse_program_headers(bytes: &[u8]) -> (r: Vec<ProgramHeader>)
    ensures
        r@.len() == bytes@.len() as int / 56,
        forall|i: int|
            0 <= i < r@.len() ==> (#[trigger] r@[i]).slice@ == bytes@.subrange(
                56 * i,
                56 * i + 56,
            ),
{
    let mut headers: Vec<ProgramHeader> = Vec::new();
    let n = bytes.len();
    let count = n / 56;
    let mut i: usize = 0;
    while i < count
        invariant
            n == bytes@.len(),
            count == bytes@.len() as int / 56,
            i <= count,
            headers@.len() == i,
            forall|k: int|
                0 <= k < i ==> (#[trigger] headers@[k]).slice@ == bytes@.subrange(
                    56 * k,
                    56 * k + 56,
                ),
        decreases count - i,
    {
        let mut record = [0u8; 56];
        let mut j: usize = 0;
        while j < 56
            invariant
                j <= 56,
                i < count,
                n == bytes@.len(),
                count == bytes@.len() as int / 56,
                forall|m: int| 0 <= m < j ==> record@[m] == bytes@[56 * (i as int) + m],
            decreases 56 - j,
        {
            record[j] = bytes[56 * i + j];
            j = j + 1;
        }
        proof {
            assert(record@ =~= bytes@.subrange(56 * (i as int), 56 * (i as int) + 56));
        }
        headers.push(ProgramHeader { slice: record });
        i = i + 1;
    }

    headers
}

/// What mapping the kernel's loadable segments will take: how many
/// page-table pages the mapping needs, counting the root table, and how
/// many frames back the segments themselves.
#[derive(Clone, Copy, Debug, Hash, PartialEq, Eq, Structural)]
pub struct KernelMappingCounts {
    /// The number of page-table pages the mapping needs.
    pub page_table_pages: u64,
    /// The number of frames backing the loadable segments.
    pub backing_frames: u64,
}

/// One page's step of the page-table walk, on a state of the last
/// fourth-, third- and second-level indexes seen and the running page
/// count: entering a new table at some level costs one page, and entering
/// a higher-level table makes the lower indexes unknown again.
pub open spec fn spec_table_walk_step(s: (int, int, int, int), page: int) -> (int, int, int, int) {
    let p4 = (page / 0x800_0000) % 512;
    let p3 = (page / 0x4_0000) % 512;
    let p2 = (page / 0x200) % 512;
    let s1 = if p4 != s.0 {
        (p4, 512int, 512int, s.3 + 1)
    } else {
        s
    };
    let s2 = if p3 != s1.1 {
        (s1.0, p3, 512int, s1.3 + 1)
    } else {
        s1
    };
    if p2 != s2.2 {
        (s2.0, s2.1, p2, s2.3 + 1)
    } else {
        s2
    }
}

/// The page-table walk over the `n` consecutive pages starting at `start`.
pub open spec fn spec_walk_pages(start: int, n: int, s: (int, int, int, int)) -> (
    int,
    int,
    int,
    int,
)
    decreases n,
{
    if n <= 0 {
        s
    } else {
        spec_walk_pages(start + 1, n - 1, spec_table_walk_step(s, start))
    }
}

/// Whether the program header describes a loadable segment.
pub open spec fn spec_loadable(ph: ProgramHeader) -> bool {
    ph.spec_segment_type() == 1
}

/// The first page of the segment once the kernel's load address is added
/// and the sum is forced canonical.
pub open spec fn spec_segment_start_page(ka: int, ph: ProgramHeader) -> int {
    spec_canonicalize((ka + ph.spec_virtual_address()) as u64) as int / (FRAME_SIZE as int)
}

/// The last page of the segment once the kernel's load address is added
/// and the sum is forced canonical.
pub open spec fn spec_segment_end_page(ka: int, ph: ProgramHeader) -> int {
    spec_canonicalize((ka + ph.spec_virtual_address() + ph.spec_memory_size() - 1) as u64) as int
        / (FRAME_SIZE as int)
}

/// The number of pages of the segment's inclusive page range.
pub open spec fn spec_segment_page_count(ka: int, ph: ProgramHeader) -> int {
    if spec_segment_end_page(ka, ph) < spec_segment_start_page(ka, ph) {
        0
    } else {
        spec_segment_end_page(ka, ph) - spec_segment_start_page(ka, ph) + 1
    }
}

/// A loadable segment the orchestrator can process: it is non-empty, it
/// ends within the address space, and its page range does not straddle the
/// non-canonical gap.
pub open spec fn spec_segment_ok(ka: int, ph: ProgramHeader) -> bool {
    &&& ph.spec_memory_size() >= 1
    &&& ka + ph.spec_virtual_address() + ph.spec_memory_size() - 1 <= u64::MAX
    &&& (spec_segment_start_page(ka, ph) * (FRAME_SIZE as int) > END_GAP
        || spec_segment_end_page(ka, ph) * (FRAME_SIZE as int) < START_GAP)
}

/// The page-table walk and backing-frame total over the loadable segments
/// of `phs` from position `i` on.
pub open spec fn spec_walk_segments(
    ka: int,
    phs: Seq<ProgramHeader>,
    i: int,
    s: (int, int, int, int),
    backing: int,
) -> ((int, int, int, int), int)
    decreases phs.len() - i,
{
    if 0 <= i < phs.len() {
        if spec_loadable(phs[i]) {
            spec_walk_segments(
                ka,
                phs,
                i + 1,
                spec_walk_pages(
                    spec_segment_start_page(ka, phs[i]),
                    spec_segment_page_count(ka, phs[i]),
                    s,
                ),
                backing + spec_segment_page_count(ka, phs[i]),
            )
        } else {
            spec_walk_segments(ka, phs, i + 1, s, backing)
        }
    } else {
        (s, backing)
    }
}

/// The full mapping plan of the kernel image loaded at `ka`: the walk over
/// all loadable segments, starting from the single root table page and no
/// indexes seen.
pub open spec fn spec_mapping_plan(ka: int, phs: Seq<ProgramHeader>) -> (
    (int, int, int, int),
    int,
) {
    spec_walk_segments(ka, phs, 0, (512int, 512int, 512int, 1int), 0)
}

/// One walk step never lowers the page count, and raises it by at most
/// three.
proof fn lemma_step_monotone(s: (int, int, int, int), page: int)
    ensures
        s.3 <= spec_table_walk_step(s, page).3 <= s.3 + 3,
{
}

/// Walking pages never lowers the page count.
proof fn lemma_walk_pages_monotone(start: int, n: int, s: (int, int, int, int))
    ensures
        spec_walk_pages(start, n, s).3 >= s.3,
    decreases n,
{
    if n > 0 {
        lemma_step_monotone(s, start);
        lemma_walk_pages_monotone(start + 1, n - 1, spec_table_walk_step(s, start));
    }
}

/// Walking segments never lowers the page count nor the backing total.
proof fn lemma_walk_segments_monotone(
    ka: int,
    phs: Seq<ProgramHeader>,
    i: int,
    s: (int, int, int, int),
    backing: int,
)
    ensures
        spec_walk_segments(ka, phs, i, s, backing).0.3 >= s.3,
        spec_walk_segments(ka, phs, i, s, backing).1 >= backing,
    decreases phs.len() - i,
{
    if 0 <= i < phs.len() {
        if spec_loadable(phs[i]) {
            let start = spec_segment_start_page(ka, phs[i]);
            let n = spec_segment_page_count(ka, phs[i]);
            lemma_walk_pages_monotone(start, n, s);
            lemma_walk_segments_monotone(
                ka,
                phs,
                i + 1,
                spec_walk_pages(start, n, s),
                backing + n,
            );
        } else {
            lemma_walk_segments_monotone(ka, phs, i + 1, s, backing);
        }
    }
}

/// Sizes the mapping of the kernel image loaded at `kernel_address`: walks
/// the loadable program headers, accumulating how many page-table pages
/// their mapping would need and how many frames back them. The counts are
/// computed here and consumed by later virtual-memory setup; page tables
/// themselves are not built at this layer.
pub fn plan_kernel_mapping(kernel_address: u64, program_headers: &Vec<ProgramHeader>) -> (r:
    KernelMappingCounts)
    requires
        forall|i: int|
            0 <= i < program_headers@.len() && spec_loadable(#[trigger] program_headers@[i])
                ==> spec_segment_ok(kernel_address as int, program_headers@[i]),
        spec_mapping_plan(kernel_address as int, program_headers@).0.3 <= u64::MAX,
        spec_mapping_plan(kernel_address as int, program_headers@).1 <= u64::MAX,
    ensures
        r.page_table_pages == spec_mapping_plan(kernel_address as int, program_headers@).0.3,
        r.backing_frames == spec_mapping_plan(kernel_address as int, program_headers@).1,
{
    let ghost ka = kernel_address as int;
    let ghost phs = program_headers@;
    let ghost plan = spec_mapping_plan(ka, phs);

    let mut pml4e_index: u64 = 512;
    let mut pml3e_index: u64 = 512;
    let mut pml2e_index: u64 = 512;

    let mut page_table_page_count: u64 = 1;
    let mut kernel_backing_frame_count: u64 = 0;

    let mut index: usize = 0;
    while index < program_headers.len()
        invariant
            index <= phs.len(),
            phs == program_headers@,
            ka == kernel_address as int,
            plan == spec_mapping_plan(ka, phs),
            plan.0.3 <= u64::MAX,
            plan.1 <= u64::MAX,
            forall|i: int|
                0 <= i < phs.len() && spec_loadable(#[trigger] phs[i]) ==> spec_segment_ok(
                    ka,
                    phs[i],
                ),
            spec_walk_segments(
                ka,
                phs,
                index as int,
                (
                    pml4e_index as int,
                    pml3e_index as int,
                    pml2e_index as int,
                    page_table_page_count as int,
                ),
                kernel_backing_frame_count as int,
            ) == plan,
        decreases phs.len() - index,
    {
        let program_header = program_headers[index];
        let ghost seg_state = (
            pml4e_index as int,
            pml3e_index as int,
            pml2e_index as int,
            page_table_page_count as int,
        );

        if program_header.segment_type() == 1 {
            proof {
                assert(spec_loadable(phs[index as int]));
                assert(spec_segment_ok(ka, phs[index as int]));
            }
            let page = Page::containing_address(
                VirtualAddress::new_canonical(kernel_address + program_header.virtual_address()),
            );
            let end_page = Page::containing_address(
                VirtualAddress::new_canonical(
                    kernel_address + program_header.virtual_address() + (
                    program_header.memory_size() - 1),
                ),
            );
            let page_range = PageRange::inclusive_range(page, end_page).unwrap();

            let size = page_range.size_in_pages();
            let start_page_number = page.number();
            proof {
                assert(start_page_number as int == spec_segment_start_page(
                    ka,
                    phs[index as int],
                ));
                assert(size as int == spec_segment_page_count(ka, phs[index as int]));
            }
            let ghost seg_target = spec_walk_pages(
                start_page_number as int,
                size as int,
                seg_state,
            );
            let ghost backing_target = kernel_backing_frame_count as int + size as int;
            proof {
                lemma_walk_segments_monotone(
                    ka,
                    phs,
                    index as int + 1,
                    seg_target,
                    backing_target,
                );
            }

            let mut j: u64 = 0;
            while j < size
                invariant
                    j <= size,
                    page_range.wf(),
                    start_page_number == page_range.page.0,
                    size == page_range.size,
                    seg_target.3 <= plan.0.3 <= u64::MAX,
                    spec_walk_pages(
                        start_page_number as int + j as int,
                        size as int - j as int,
                        (
                            pml4e_index as int,
                            pml3e_index as int,
                            pml2e_index as int,
                            page_table_page_count as int,
                        ),
                    ) == seg_target,
                decreases size - j,
            {
                let page_j = Page(start_page_number + j);
                let p4 = page_j.pml4e_index();
                let p3 = page_j.pml3e_index();
                let p2 = page_j.pml2e_index();
                let ghost s_pre = (
                    pml4e_index as int,
                    pml3e_index as int,
                    pml2e_index as int,
                    page_table_page_count as int,
                );
                proof {
                    lemma_walk_pages_monotone(
                        start_page_number as int + j as int + 1,
                        size as int - j as int - 1,
                        spec_table_walk_step(s_pre, start_page_number as int + j as int),
                    );
                    lemma_step_monotone(s_pre, start_page_number as int + j as int);
                }

                if p4 != pml4e_index {
                    pml4e_index = p4;
                    page_table_page_count = page_table_page_count + 1;

                    pml3e_index = 512;
                    pml2e_index = 512;
                }
                if p3 != pml3e_index {
                    pml3e_index = p3;
                    page_table_page_count = page_table_page_count + 1;

                    pml2e_index = 512;
                }
                if p2 != pml2e_index {
                    pml2e_index = p2;
                    page_table_page_count = page_table_page_count + 1;
                }

                proof {
                    assert((
                        pml4e_index as int,
                        pml3e_index as int,
                        pml2e_index as int,
                        page_table_page_count as int,
                    ) == spec_table_walk_step(s_pre, start_page_number as int + j as int));
                }
                j = j + 1;
            }

            kernel_backing_frame_count = kernel_backing_frame_count + size;
        }

        index = index + 1;
    }

    KernelMappingCounts {
        page_table_pages: page_table_page_count,
        backing_frames: kernel_backing_frame_count,
    }
}

/// One step of a [`FrameRangeIter`] pops exactly the head of its frame
/// sequence.
proof fn lemma_iter_step(before: FrameRangeIter, after: FrameRangeIter, r: Option<Frame>)
    requires
        before.wf(),
        after.wf(),
        before.remaining == 0 ==> r is None && after == before,
        before.remaining > 0 ==> r == Some(before.frame) && after.remaining == before.remaining
            - 1,
        before.remaining > 1 ==> after.frame@ == before.frame@ + 1,
    ensures
        r is None ==> spec_iter_frames(before).len() == 0 && spec_iter_frames(after).len() == 0,
        r matches Some(f) ==> spec_iter_frames(before).len() > 0 && f == spec_iter_frames(
            before,
        )[0] && spec_iter_frames(after) == spec_iter_frames(before).drop_first(),
{
    if before.remaining > 0 {
        assert(spec_iter_frames(after) =~= spec_iter_frames(before).drop_first());
    }
}

} // verus!
