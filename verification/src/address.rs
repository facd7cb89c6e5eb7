//! Logical addresses: a segment:offset pair, or the "unset" sentinel.
use vstd::prelude::*;
use vstd::std_specs::cmp::PartialEqSpecImpl;

verus! {

/// Flat address of `seg:offset`: the segment shifted left by four bits plus
/// the offset.
pub open spec fn flat(seg: u16, offset: u16) -> int {
    seg as int * 16 + offset as int
}

/// Adding the offset to the flat address of the segment's first byte gives the
/// flat address of `seg:offset`.
pub proof fn lemma_flat_is_base_plus_offset(seg: u16, offset: u16)
    ensures
        flat(seg, 0) + offset == flat(seg, offset),
        0 <= flat(seg, offset) <= 0x10_FFEF,
{
}

/// The 16-bit sum of `a` and `b`, wrapping at 64 KiB.
pub open spec fn wrap16(v: int) -> u16 {
    (v % 0x1_0000) as u16
}

/// `a + b` wrapped to 16 bits.
pub fn add16(a: u16, b: u16) -> (r: u16)
    ensures
        r == wrap16(a + b),
{
    ((a as u32 + b as u32) % 0x1_0000) as u16
}

/// `a - b` wrapped to 16 bits.
pub fn sub16(a: u16, b: u16) -> (r: u16)
    ensures
        r == wrap16(a - b),
{
    ((a as u32 + 0x1_0000 - b as u32) % 0x1_0000) as u16
}

/// A logical address. Two addresses are equal when they name the same flat
/// address.
#[derive(Clone, Copy, Debug)]
pub enum MemoryAddress {
    /// A real-mode segment:offset pair.
    RealSegmentOffset(u16, u16),
    /// No address has been assigned.
    Unset,
}

impl MemoryAddress {
    pub open spec fn spec_segment(self) -> u16 {
        match self {
            MemoryAddress::RealSegmentOffset(seg, _) => seg,
            MemoryAddress::Unset => 0,
        }
    }

    pub open spec fn spec_offset(self) -> u16 {
        match self {
            MemoryAddress::RealSegmentOffset(_, off) => off,
            MemoryAddress::Unset => 0,
        }
    }

    /// The flat address; the unset sentinel counts as 0.
    pub open spec fn spec_value(self) -> int {
        flat(self.spec_segment(), self.spec_offset())
    }

    /// The address `n` bytes further in the same segment, the offset wrapping
    /// at 64 KiB; the unset sentinel stays unset.
    pub open spec fn spec_advance(self, n: int) -> MemoryAddress {
        match self {
            MemoryAddress::RealSegmentOffset(seg, off) => MemoryAddress::RealSegmentOffset(
                seg,
                wrap16(off + n),
            ),
            MemoryAddress::Unset => MemoryAddress::Unset,
        }
    }

    pub fn segment(&self) -> (r: u16)
        ensures
            r == self.spec_segment(),
    {
        match self {
            MemoryAddress::RealSegmentOffset(seg, _) => *seg,
            MemoryAddress::Unset => 0,
        }
    }

    pub fn offset(&self) -> (r: u16)
        ensures
            r == self.spec_offset(),
    {
        match self {
            MemoryAddress::RealSegmentOffset(_, off) => *off,
            MemoryAddress::Unset => 0,
        }
    }

    /// Flat address of the pair.
    pub fn value(&self) -> (r: u32)
        ensures
            r == self.spec_value(),
            r <= 0x10_FFEF,
    {
        match self {
            MemoryAddress::RealSegmentOffset(seg, off) => (*seg as u32) * 16 + (*off as u32),
            MemoryAddress::Unset => 0,
        }
    }

    /// Replaces the offset and keeps the segment.
    pub fn set_offset(&mut self, offset: u16)
        ensures
            *final(self) == (match *old(self) {
                MemoryAddress::RealSegmentOffset(seg, _) => MemoryAddress::RealSegmentOffset(
                    seg,
                    offset,
                ),
                MemoryAddress::Unset => MemoryAddress::Unset,
            }),
    {
        match *self {
            MemoryAddress::RealSegmentOffset(seg, _) => {
                *self = MemoryAddress::RealSegmentOffset(seg, offset);
            },
            MemoryAddress::Unset => {},
        }
    }

    /// Moves `n` bytes forward inside the segment.
    pub fn inc_n(&mut self, n: u16)
        ensures
            *final(self) == old(self).spec_advance(n as int),
    {
        match *self {
            MemoryAddress::RealSegmentOffset(seg, off) => {
                *self = MemoryAddress::RealSegmentOffset(seg, add16(off, n));
            },
            MemoryAddress::Unset => {},
        }
    }

    pub fn inc_u8(&mut self)
        ensures
            *final(self) == old(self).spec_advance(1),
    {
        self.inc_n(1)
    }

    pub fn inc_u16(&mut self)
        ensures
            *final(self) == old(self).spec_advance(2),
    {
        self.inc_n(2)
    }

    pub fn inc_u32(&mut self)
        ensures
            *final(self) == old(self).spec_advance(4),
    {
        self.inc_n(4)
    }

    /// Whether `self` lies strictly before `other` in flat memory.
    pub fn precedes(&self, other: &MemoryAddress) -> (r: bool)
        ensures
            r == (self.spec_value() < other.spec_value()),
    {
        self.value() < other.value()
    }
}

/// Two addresses are equal when they name the same flat address.
impl PartialEq for MemoryAddress {
    fn eq(&self, other: &MemoryAddress) -> (r: bool) {
        self.value() == other.value()
    }
}

impl PartialEqSpecImpl for MemoryAddress {
    open spec fn obeys_eq_spec() -> bool {
        true
    }

    open spec fn eq_spec(&self, other: &MemoryAddress) -> bool {
        self.spec_value() == other.spec_value()
    }
}

} // verus!
