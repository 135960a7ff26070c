//! Segment selectors referencing the Global Descriptor Table.

use vstd::prelude::*;

verus! {

/// The privilege level associated with an item.
#[derive(Clone, Copy, Debug, Hash, PartialEq, Eq, Structural)]
pub enum PrivilegeLevel {
    /// Ring 0 is the most privileged ring, used by critical system-software
    /// components that require direct access to, and control over, all
    /// processor and system resources.
    Ring0,
    /// Ring 1 is typically not used anymore, and its privilege is controlled
    /// by the operating system.
    Ring1,
    /// Ring 2 is typically not used anymore, and its privilege is controlled
    /// by the operating system.
    Ring2,
    /// Ring 3 is the least privileged ring, used by application software.
    Ring3,
}

impl PrivilegeLevel {
    /// The numeric encoding of the privilege level.
    pub open spec fn spec_value(self) -> u16 {
        match self {
            PrivilegeLevel::Ring0 => 0,
            PrivilegeLevel::Ring1 => 1,
            PrivilegeLevel::Ring2 => 2,
            PrivilegeLevel::Ring3 => 3,
        }
    }

    /// Returns the numeric encoding of this [`PrivilegeLevel`].
    pub fn value(self) -> (r: u16)
        ensures
            r == self.spec_value(),
            r < 4,
    {
        match self {
            PrivilegeLevel::Ring0 => 0,
            PrivilegeLevel::Ring1 => 1,
            PrivilegeLevel::Ring2 => 2,
            PrivilegeLevel::Ring3 => 3,
        }
    }

    /// Returns the [`PrivilegeLevel`] encoded by the low two bits of `v`.
    pub fn from_bits(v: u16) -> (r: Self)
        ensures
            r.spec_value() == v % 4,
    {
        proof {
            assert(v & 0b11 == v % 4) by (bit_vector);
        }
        match v & 0b11 {
            0 => PrivilegeLevel::Ring0,
            1 => PrivilegeLevel::Ring1,
            2 => PrivilegeLevel::Ring2,
            _ => PrivilegeLevel::Ring3,
        }
    }
}

/// Selects a GDT segment to use: the segment's index in the table together
/// with the requested privilege level, encoded as `index << 3 | privilege`.
#[derive(Clone, Copy, Debug, Hash, PartialEq, Eq, Structural)]
pub struct SegmentSelector(pub u16);

impl SegmentSelector {
    /// The table index encoded in the selector.
    pub open spec fn spec_index(self) -> u16 {
        self.0 / 8
    }

    /// The numeric requested privilege level encoded in the selector.
    pub open spec fn spec_rpl(self) -> u16 {
        self.0 % 4
    }

    /// Returns the selector for the NULL segment.
    pub fn null() -> (r: Self)
        ensures
            r.0 == 0,
            r.spec_index() == 0,
            r.spec_rpl() == 0,
    {
        SegmentSelector(0)
    }

    /// Creates a new [`SegmentSelector`] that indicates usage of the segment
    /// at `index`, with the requested [`PrivilegeLevel`].
    pub fn new(index: u16, rpl: PrivilegeLevel) -> (r: Self)
        requires
            index < 0x2000,
        ensures
            r.0 == index * 8 + rpl.spec_value(),
            r.spec_index() == index,
            r.spec_rpl() == rpl.spec_value(),
    {
        let v = rpl.value();
        proof {
            let i = index;
            assert(i < 0x2000 && v < 4 ==> (i << 3 | v) == i * 8 + v && ((i * 8 + v) as u16) / 8
                == i && ((i * 8 + v) as u16) % 4 == v) by (bit_vector);
        }
        SegmentSelector(index << 3 | v)
    }

    /// Returns the index of the segment associated with this
    /// [`SegmentSelector`].
    pub fn index(&self) -> (r: u16)
        ensures
            r == self.spec_index(),
    {
        proof {
            let v = self.0;
            assert(v >> 3 == v / 8) by (bit_vector);
        }
        self.0 >> 3
    }

    /// The requested [`PrivilegeLevel`] associated with this
    /// [`SegmentSelector`].
    pub fn privilege_level(&self) -> (r: PrivilegeLevel)
        ensures
            r.spec_value() == self.spec_rpl(),
    {
        PrivilegeLevel::from_bits(self.0)
    }

    /// Sets the requested [`PrivilegeLevel`] associated with this
    /// [`SegmentSelector`]: the low three bits are cleared and replaced by
    /// the level, keeping the encoded index and nothing else.
    pub fn set_privilege_level(&mut self, level: PrivilegeLevel)
        ensures
            final(self).0 == (old(self).0 / 8) * 8 + level.spec_value(),
            final(self).spec_index() == old(self).spec_index(),
            final(self).spec_rpl() == level.spec_value(),
    {
        let v = level.value();
        proof {
            let s = self.0;
            assert(v < 4 ==> (s & 0xFFF8 | v) == (s / 8) * 8 + v && (s & 0xFFF8 | v) / 8 == s / 8
                && (s & 0xFFF8 | v) % 4 == v) by (bit_vector);
        }
        self.0 = self.0 & 0xFFF8 | v
    }
}

} // verus!
