//! Flat physical memory: one contiguous array of exactly 1 MiB, addressed by a
//! 20-bit flat address, with little-endian multi-byte access.
use vstd::prelude::*;

verus! {

/// Number of bytes of physical memory (1 MiB).
pub const MEMORY_SIZE: usize = 0x10_0000;

/// The little-endian 16-bit word stored at index `i` of `mem`.
pub open spec fn le16(mem: Seq<u8>, i: int) -> int {
    mem[i] as int + 256 * (mem[i + 1] as int)
}

/// The little-endian 32-bit word stored at index `i` of `mem`.
pub open spec fn le32(mem: Seq<u8>, i: int) -> int {
    le16(mem, i) + 65536 * le16(mem, i + 2)
}

/// `mem` with the bytes of `data` written at index `at` and onwards.
pub open spec fn splice(mem: Seq<u8>, at: int, data: Seq<u8>) -> Seq<u8> {
    Seq::new(
        mem.len(),
        |i: int|
            if at <= i < at + data.len() {
                data[i - at]
            } else {
                mem[i]
            },
    )
}

/// `mem` with the 16-bit word `v` stored little-endian at index `at`.
pub open spec fn store16(mem: Seq<u8>, at: int, v: u16) -> Seq<u8> {
    mem.update(at, (v % 256) as u8).update(at + 1, (v / 256) as u8)
}

/// `mem` with the 32-bit word `v` stored little-endian at index `at`.
pub open spec fn store32(mem: Seq<u8>, at: int, v: u32) -> Seq<u8> {
    store16(store16(mem, at, (v % 65536) as u16), at + 2, (v / 65536) as u16)
}

/// Reading back a stored word gives the word, and the length is kept.
pub proof fn lemma_store16_load(mem: Seq<u8>, at: int, v: u16)
    requires
        0 <= at,
        at + 1 < mem.len(),
    ensures
        le16(store16(mem, at, v), at) == v,
        store16(mem, at, v).len() == mem.len(),
        forall|j: int|
            0 <= j < mem.len() && j != at && j != at + 1 ==> #[trigger] store16(mem, at, v)[j]
                == mem[j],
{
}

/// The memory of the machine.
pub struct Memory {
    pub memory: Vec<u8>,
}

impl View for Memory {
    type V = Seq<u8>;

    open spec fn view(&self) -> Seq<u8> {
        self.memory@
    }
}

impl Memory {
    /// The array holds exactly 1 MiB.
    pub open spec fn wf(&self) -> bool {
        self.memory@.len() == MEMORY_SIZE
    }

    /// Zero-filled memory.
    pub fn new() -> (m: Memory)
        ensures
            m.wf(),
            forall|i: int| 0 <= i < MEMORY_SIZE ==> m@[i] == 0u8,
    {
        Memory { memory: vec![0u8;MEMORY_SIZE] }
    }

    pub fn read_u8(&self, addr: u32) -> (r: u8)
        requires
            self.wf(),
            addr < MEMORY_SIZE,
        ensures
            r == self@[addr as int],
    {
        self.memory[addr as usize]
    }

    pub fn read_u16(&self, addr: u32) -> (r: u16)
        requires
            self.wf(),
            addr + 1 < MEMORY_SIZE,
        ensures
            r == le16(self@, addr as int),
    {
        let lo: u16 = self.memory[addr as usize] as u16;
        let hi: u16 = self.memory[addr as usize + 1] as u16;
        hi * 256 + lo
    }

    pub fn read_u32(&self, addr: u32) -> (r: u32)
        requires
            self.wf(),
            addr + 3 < MEMORY_SIZE,
        ensures
            r == le32(self@, addr as int),
    {
        let lo: u32 = self.read_u16(addr) as u32;
        let hi: u32 = self.read_u16(addr + 2) as u32;
        hi * 65536 + lo
    }

    /// Copy of the `length` bytes that start at `addr`.
    pub fn read(&self, addr: u32, length: usize) -> (r: Vec<u8>)
        requires
            self.wf(),
            addr + length <= MEMORY_SIZE,
        ensures
            r@ == self@.subrange(addr as int, addr + length),
    {
        let mut out: Vec<u8> = Vec::new();
        let mut i: usize = 0;
        while i < length
            invariant
                self.wf(),
                addr + length <= MEMORY_SIZE,
                i <= length,
                out@ == self@.subrange(addr as int, addr + i),
            decreases length - i,
        {
            out.push(self.memory[addr as usize + i]);
            i += 1;
            assert(out@ =~= self@.subrange(addr as int, addr + i));
        }
        out
    }

    pub fn write_u8(&mut self, addr: u32, data: u8)
        requires
            old(self).wf(),
            addr < MEMORY_SIZE,
        ensures
            final(self).wf(),
            final(self)@ == old(self)@.update(addr as int, data),
    {
        self.memory[addr as usize] = data;
    }

    pub fn write_u16(&mut self, addr: u32, data: u16)
        requires
            old(self).wf(),
            addr + 1 < MEMORY_SIZE,
        ensures
            final(self).wf(),
            final(self)@ == store16(old(self)@, addr as int, data),
    {
        self.memory[addr as usize] = (data % 256) as u8;
        self.memory[addr as usize + 1] = (data / 256) as u8;
    }

    pub fn write_u32(&mut self, addr: u32, data: u32)
        requires
            old(self).wf(),
            addr + 3 < MEMORY_SIZE,
        ensures
            final(self).wf(),
            final(self)@ == store32(old(self)@, addr as int, data),
    {
        self.write_u16(addr, (data % 65536) as u16);
        self.write_u16(addr + 2, (data / 65536) as u16);
    }

    /// Writes all of `data` at `addr` and onwards.
    pub fn write(&mut self, addr: u32, data: &[u8])
        requires
            old(self).wf(),
            addr + data@.len() <= MEMORY_SIZE,
        ensures
            final(self).wf(),
            final(self)@ == splice(old(self)@, addr as int, data@),
    {
        let n: usize = data.len();
        let mut i: usize = 0;
        while i < n
            invariant
                self.wf(),
                n == data@.len(),
                addr + n <= MEMORY_SIZE,
                i <= n,
                self@ == splice(old(self)@, addr as int, data@.subrange(0, i as int)),
            decreases n - i,
        {
            self.memory[addr as usize + i] = data[i];
            i += 1;
            assert(self@ =~= splice(old(self)@, addr as int, data@.subrange(0, i as int)));
        }
        assert(data@.subrange(0, n as int) =~= data@);
    }

    /// A copy of the whole array.
    pub fn snapshot(&self) -> (r: Vec<u8>)
        requires
            self.wf(),
        ensures
            r@ == self@,
    {
        let r = self.read(0, MEMORY_SIZE);
        assert(self@.subrange(0, MEMORY_SIZE as int) =~= self@);
        r
    }
}

} // verus!
