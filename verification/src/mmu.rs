//! Segmented view of the flat memory: every access takes a segment:offset
//! pair, and the interrupt vector table lives at flat address 0.
use vstd::prelude::*;
use crate::address::{flat, MemoryAddress};
use crate::memory::{le16, le32, splice, store16, store32, Memory, MEMORY_SIZE};

verus! {

/// Whether the `n` bytes that start at `seg:offset` all lie inside memory.
pub open spec fn in_range(seg: u16, offset: u16, n: int) -> bool {
    flat(seg, offset) + n <= MEMORY_SIZE
}

/// The owner of memory; every component reaches memory through it.
pub struct MMU {
    pub memory: Memory,
}

impl View for MMU {
    type V = Seq<u8>;

    open spec fn view(&self) -> Seq<u8> {
        self.memory@
    }
}

impl MMU {
    pub open spec fn wf(&self) -> bool {
        self.memory.wf()
    }

    pub fn new() -> (m: MMU)
        ensures
            m.wf(),
            forall|i: int| 0 <= i < MEMORY_SIZE ==> m@[i] == 0u8,
    {
        MMU { memory: Memory::new() }
    }

    /// The physical address of a segment:offset pair.
    pub fn to_flat(seg: u16, offset: u16) -> (r: u32)
        ensures
            r == flat(seg, offset),
    {
        (seg as u32) * 16 + (offset as u32)
    }

    /// The pair as one 32-bit value with the segment in the high 16 bits.
    pub fn to_long_pair(seg: u16, offset: u16) -> (r: u32)
        ensures
            r == seg as int * 0x1_0000 + offset as int,
    {
        (seg as u32) * 0x1_0000 + (offset as u32)
    }

    /// The segment of a long pair: its high 16 bits.
    pub fn segment_from_long_pair(long: u32) -> (r: u16)
        ensures
            r == long as int / 0x1_0000,
    {
        (long / 0x1_0000) as u16
    }

    /// The offset of a long pair: its low 16 bits.
    pub fn offset_from_long_pair(long: u32) -> (r: u16)
        ensures
            r == long as int % 0x1_0000,
    {
        (long % 0x1_0000) as u16
    }

    /// Whether `n` bytes at `seg:offset` can be accessed.
    pub fn check_range(seg: u16, offset: u16, n: u32) -> (r: bool)
        requires
            n <= MEMORY_SIZE,
        ensures
            r == in_range(seg, offset, n as int),
    {
        MMU::to_flat(seg, offset) + n <= MEMORY_SIZE as u32
    }

    pub fn read_u8(&self, seg: u16, offset: u16) -> (r: u8)
        requires
            self.wf(),
            in_range(seg, offset, 1),
        ensures
            r == self@[flat(seg, offset)],
    {
        self.memory.read_u8(MMU::to_flat(seg, offset))
    }

    pub fn read_u16(&self, seg: u16, offset: u16) -> (r: u16)
        requires
            self.wf(),
            in_range(seg, offset, 2),
        ensures
            r == le16(self@, flat(seg, offset)),
    {
        self.memory.read_u16(MMU::to_flat(seg, offset))
    }

    pub fn read_u32(&self, seg: u16, offset: u16) -> (r: u32)
        requires
            self.wf(),
            in_range(seg, offset, 4),
        ensures
            r == le32(self@, flat(seg, offset)),
    {
        self.memory.read_u32(MMU::to_flat(seg, offset))
    }

    pub fn write_u8(&mut self, seg: u16, offset: u16, data: u8)
        requires
            old(self).wf(),
            in_range(seg, offset, 1),
        ensures
            final(self).wf(),
            final(self)@ == old(self)@.update(flat(seg, offset), data),
    {
        let addr = MMU::to_flat(seg, offset);
        self.memory.write_u8(addr, data);
    }

    pub fn write(&mut self, seg: u16, offset: u16, data: &[u8])
        requires
            old(self).wf(),
            in_range(seg, offset, data@.len() as int),
        ensures
            final(self).wf(),
            final(self)@ == splice(old(self)@, flat(seg, offset), data@),
    {
        let addr = MMU::to_flat(seg, offset);
        self.memory.write(addr, data);
    }

    pub fn write_u16(&mut self, seg: u16, offset: u16, data: u16)
        requires
            old(self).wf(),
            in_range(seg, offset, 2),
        ensures
            final(self).wf(),
            final(self)@ == store16(old(self)@, flat(seg, offset), data),
    {
        let addr = MMU::to_flat(seg, offset);
        self.memory.write_u16(addr, data);
    }

    pub fn write_u32(&mut self, seg: u16, offset: u16, data: u32)
        requires
            old(self).wf(),
            in_range(seg, offset, 4),
        ensures
            final(self).wf(),
            final(self)@ == store32(old(self)@, flat(seg, offset), data),
    {
        let addr = MMU::to_flat(seg, offset);
        self.memory.write_u32(addr, data);
    }

    /// Copy of `length` bytes from `seg:offset` on.
    pub fn read(&self, seg: u16, offset: u16, length: usize) -> (r: Vec<u8>)
        requires
            self.wf(),
            in_range(seg, offset, length as int),
        ensures
            r@ == self@.subrange(flat(seg, offset), flat(seg, offset) + length),
    {
        let addr = MMU::to_flat(seg, offset);
        self.memory.read(addr, length)
    }

    /// Stores the long pair `data` as entry `v` of the interrupt vector table.
    pub fn set_vec(&mut self, v: u32, data: u32)
        requires
            old(self).wf(),
            v * 4 + 4 <= MEMORY_SIZE,
        ensures
            final(self).wf(),
            final(self)@ == store32(old(self)@, v * 4, data),
    {
        self.memory.write_u32(v * 4, data);
    }

    /// Entry `v` of the interrupt vector table as (segment, offset): the
    /// offset is the low word, the segment the high word.
    pub fn read_vec(&self, v: u16) -> (r: (u16, u16))
        requires
            self.wf(),
        ensures
            r.1 == le16(self@, v * 4),
            r.0 == le16(self@, v * 4 + 2),
    {
        let at: u32 = (v as u32) * 4;
        let off = self.memory.read_u16(at);
        let seg = self.memory.read_u16(at + 2);
        (seg, off)
    }

    /// Points entry `v` of the interrupt vector table at `addr`.
    pub fn write_vec(&mut self, v: u16, addr: &MemoryAddress)
        requires
            old(self).wf(),
        ensures
            final(self).wf(),
            final(self)@ == store16(
                store16(old(self)@, v * 4, addr.spec_offset()),
                v * 4 + 2,
                addr.spec_segment(),
            ),
    {
        let at: u32 = (v as u32) * 4;
        self.memory.write_u16(at, addr.offset());
        self.memory.write_u16(at + 2, addr.segment());
    }

    /// Writes a byte at `addr` and moves `addr` past it.
    pub fn write_u8_inc(&mut self, addr: &mut MemoryAddress, data: u8)
        requires
            old(self).wf(),
            old(addr).spec_value() + 1 <= MEMORY_SIZE,
        ensures
            final(self).wf(),
            final(self)@ == old(self)@.update(old(addr).spec_value(), data),
            *final(addr) == old(addr).spec_advance(1),
    {
        self.write_u8(addr.segment(), addr.offset(), data);
        addr.inc_u8();
    }

    /// Writes a word at `addr` and moves `addr` past it.
    pub fn write_u16_inc(&mut self, addr: &mut MemoryAddress, data: u16)
        requires
            old(self).wf(),
            old(addr).spec_value() + 2 <= MEMORY_SIZE,
        ensures
            final(self).wf(),
            final(self)@ == store16(old(self)@, old(addr).spec_value(), data),
            *final(addr) == old(addr).spec_advance(2),
    {
        self.write_u16(addr.segment(), addr.offset(), data);
        addr.inc_u16();
    }

    /// Writes a double word at `addr` and moves `addr` past it.
    pub fn write_u32_inc(&mut self, addr: &mut MemoryAddress, data: u32)
        requires
            old(self).wf(),
            old(addr).spec_value() + 4 <= MEMORY_SIZE,
        ensures
            final(self).wf(),
            final(self)@ == store32(old(self)@, old(addr).spec_value(), data),
            *final(addr) == old(addr).spec_advance(4),
    {
        self.write_u32(addr.segment(), addr.offset(), data);
        addr.inc_u32();
    }

    /// A snapshot copy of all of memory.
    pub fn dump_mem(&self) -> (r: Vec<u8>)
        requires
            self.wf(),
        ensures
            r@ == self@,
    {
        self.memory.snapshot()
    }
}

} // verus!
