//! The program loader: raw images and segmented ("MZ") executables.
//!
//! A raw image is placed at 085F:0100 and the registers are seeded as DOS
//! does. A segmented executable starts with a header of 14 little-endian
//! words; its code image is loaded like a raw image, and the words that its
//! relocation table names are rebased.
use vstd::prelude::*;
use crate::cpu::CPU;
use crate::memory::{le16, splice, store16, MEMORY_SIZE};
use crate::state::State;

verus! {

/// Segment of the program segment prefix.
pub const PSP_SEGMENT: u16 = 0x085F;

/// Offset of a program in its segment: the program segment prefix takes the
/// first 256 bytes.
pub const PROGRAM_OFFSET: u16 = 0x0100;

/// Flat address at which a program is placed.
pub const PROGRAM_BASE: u32 = 0x86F0;

/// The segment at which the image of a program starts: the paragraph after
/// the program segment prefix.
pub const LOAD_SEGMENT: u16 = 0x086F;

/// The largest raw image: 64 KiB less the program segment prefix.
pub const MAX_IMAGE: usize = 0xFF00;

/// Size of the header of a segmented executable.
pub const HEADER_SIZE: usize = 28;

/// Why a file cannot be loaded.
#[derive(Clone, Copy, Debug, PartialEq, Eq, Structural)]
pub enum LoadError {
    /// the header, the code image or the relocation table does not lie
    /// inside the file, or a relocation points outside the code image
    Malformed,
    /// the image does not fit the program's segment
    TooLarge,
}

/// The header of a segmented executable: 14 little-endian words.
#[derive(Clone, Copy, Debug, PartialEq, Eq, Structural)]
pub struct ExeHeader {
    /// 0x5A4D == "MZ"
    pub signature: u16,
    /// padding info for exact data size
    pub bytes_in_last_block: u16,
    /// data size in 512-byte blocks
    pub blocks_in_file: u16,
    /// number of relocation items
    pub num_relocs: u16,
    /// header size in 16-byte paragraphs
    pub header_paragraphs: u16,
    pub min_extra_paragraphs: u16,
    pub max_extra_paragraphs: u16,
    pub ss: u16,
    pub sp: u16,
    pub checksum: u16,
    pub ip: u16,
    pub cs: u16,
    pub reloc_table_offset: u16,
    pub overlay_number: u16,
}

/// One entry of the relocation table.
#[derive(Clone, Copy, Debug, PartialEq, Eq, Structural)]
pub struct ExeReloc {
    pub offset: u16,
    pub segment: u16,
}

/// Word `i` of the header.
pub open spec fn header_word(data: Seq<u8>, i: int) -> u16 {
    le16(data, 2 * i) as u16
}

/// The header that the first 28 bytes of a file hold.
pub open spec fn spec_header(data: Seq<u8>) -> ExeHeader {
    ExeHeader {
        signature: header_word(data, 0),
        bytes_in_last_block: header_word(data, 1),
        blocks_in_file: header_word(data, 2),
        num_relocs: header_word(data, 3),
        header_paragraphs: header_word(data, 4),
        min_extra_paragraphs: header_word(data, 5),
        max_extra_paragraphs: header_word(data, 6),
        ss: header_word(data, 7),
        sp: header_word(data, 8),
        checksum: header_word(data, 9),
        ip: header_word(data, 10),
        cs: header_word(data, 11),
        reloc_table_offset: header_word(data, 12),
        overlay_number: header_word(data, 13),
    }
}

/// Whether a file claims to be a segmented executable.
pub open spec fn is_mz(data: Seq<u8>) -> bool {
    data.len() >= 2 && data[0] == 0x4D && data[1] == 0x5A
}

impl ExeHeader {
    /// Where the code image starts in the file.
    pub open spec fn code_start(self) -> int {
        self.header_paragraphs * 16
    }

    /// Where the code image ends in the file: the blocks of 512 bytes, less
    /// what the last block lacks.
    pub open spec fn code_end(self) -> int {
        if self.bytes_in_last_block > 0 {
            self.blocks_in_file * 512 - (512 - self.bytes_in_last_block)
        } else {
            self.blocks_in_file * 512
        }
    }

    /// Where the relocation table ends in the file.
    pub open spec fn relocs_end(self) -> int {
        self.reloc_table_offset + self.num_relocs * 4
    }

    /// Entry `i` of the relocation table of the file.
    pub open spec fn reloc(self, data: Seq<u8>, i: int) -> ExeReloc {
        ExeReloc {
            offset: le16(data, self.reloc_table_offset + 4 * i) as u16,
            segment: le16(data, self.reloc_table_offset + 4 * i + 2) as u16,
        }
    }
}

impl ExeReloc {
    /// The place in the code image of the word to rebase.
    pub open spec fn target(self) -> int {
        self.segment * 16 + self.offset
    }
}

/// Whether the code image and the relocation table lie inside a file of
/// `len` bytes, and every relocation inside the code image.
pub open spec fn well_formed(data: Seq<u8>) -> bool {
    let h = spec_header(data);
    &&& data.len() >= HEADER_SIZE
    &&& h.bytes_in_last_block <= 512
    &&& h.code_start() <= h.code_end() <= data.len()
    &&& h.relocs_end() <= data.len()
    &&& forall|i: int|
        0 <= i < h.num_relocs ==> (#[trigger] h.reloc(data, i)).target() + 2 <= h.code_end()
            - h.code_start()
}

/// Memory after the first `k` entries of the relocation table were applied
/// to the image at flat address `base`: `delta` is added to each word that
/// an entry names, wrapping at 16 bits.
pub open spec fn relocated(
    mem: Seq<u8>,
    base: int,
    data: Seq<u8>,
    h: ExeHeader,
    delta: u16,
    k: nat,
) -> Seq<u8>
    decreases k,
{
    if k == 0 {
        mem
    } else {
        let m = relocated(mem, base, data, h, delta, (k - 1) as nat);
        let at = base + h.reloc(data, k - 1).target();
        store16(m, at, ((le16(m, at) + delta) % 0x1_0000) as u16)
    }
}

/// The registers after a raw image of `len` bytes was loaded: CS, DS, ES and
/// SS hold the segment of the program segment prefix, IP the offset of the
/// program, and the other registers what DOS leaves in them. AX and BX are
/// kept.
pub open spec fn seeded(s: State, len: int) -> State {
    State {
        ip: PROGRAM_OFFSET,
        rom_base: PROGRAM_BASE,
        rom_length: len as u32,
        ..s.with_sreg(1, PSP_SEGMENT).with_sreg(3, PSP_SEGMENT).with_sreg(0, PSP_SEGMENT).with_sreg(
            2,
            PSP_SEGMENT,
        ).with_reg16(4, 0xFFFE).with_reg16(5, 0x091C).with_reg16(1, 0x00FF).with_reg16(
            2,
            PSP_SEGMENT,
        ).with_reg16(6, 0x0100).with_reg16(7, 0xFFFE)
    }
}

/// The state after a raw image was loaded.
pub open spec fn com_loaded(s: State, image: Seq<u8>) -> State {
    State { mem: splice(s.mem, PROGRAM_BASE as int, image), ..seeded(s, image.len() as int) }
}

/// The state after a well-formed segmented executable was loaded: the code
/// image is loaded like a raw image, SP and SS come from the header, and the
/// relocations are applied with the load segment.
pub open spec fn exe_loaded(s: State, data: Seq<u8>) -> State {
    let h = spec_header(data);
    let image = data.subrange(h.code_start(), h.code_end());
    let s1 = com_loaded(s, image).with_reg16(4, h.sp).with_sreg(2, h.ss);
    State {
        mem: relocated(s1.mem, PROGRAM_BASE as int, data, h, LOAD_SEGMENT, h.num_relocs as nat),
        ..s1
    }
}

/// What loading a file gives: the new state, or the reason for which the
/// file is refused.
pub open spec fn load_result(s: State, data: Seq<u8>) -> Result<State, LoadError> {
    if is_mz(data) {
        let h = spec_header(data);
        if !well_formed(data) {
            Err(LoadError::Malformed)
        } else if h.code_end() - h.code_start() > MAX_IMAGE {
            Err(LoadError::TooLarge)
        } else {
            Ok(exe_loaded(s, data))
        }
    } else if data.len() > MAX_IMAGE {
        Err(LoadError::TooLarge)
    } else {
        Ok(com_loaded(s, data))
    }
}

fn word(data: &[u8], i: usize) -> (r: u16)
    requires
        i + 1 < data@.len(),
    ensures
        r == le16(data@, i as int),
{
    let lo: u16 = data[i] as u16;
    let hi: u16 = data[i + 1] as u16;
    hi * 256 + lo
}

/// Reads the header of a segmented executable; there is none in a file of
/// less than 28 bytes.
pub fn parse_header(data: &[u8]) -> (r: Option<ExeHeader>)
    ensures
        r == if data@.len() >= HEADER_SIZE {
            Some(spec_header(data@))
        } else {
            None
        },
{
    if data.len() < HEADER_SIZE {
        return None;
    }
    Some(
        ExeHeader {
            signature: word(data, 0),
            bytes_in_last_block: word(data, 2),
            blocks_in_file: word(data, 4),
            num_relocs: word(data, 6),
            header_paragraphs: word(data, 8),
            min_extra_paragraphs: word(data, 10),
            max_extra_paragraphs: word(data, 12),
            ss: word(data, 14),
            sp: word(data, 16),
            checksum: word(data, 18),
            ip: word(data, 20),
            cs: word(data, 22),
            reloc_table_offset: word(data, 24),
            overlay_number: word(data, 26),
        },
    )
}

/// Entry `i` of the relocation table.
pub fn read_reloc(data: &[u8], h: &ExeHeader, i: usize) -> (r: ExeReloc)
    requires
        i < h.num_relocs,
        h.relocs_end() <= data@.len(),
    ensures
        r == h.reloc(data@, i as int),
{
    let at: usize = h.reloc_table_offset as usize + 4 * i;
    ExeReloc { offset: word(data, at), segment: word(data, at + 2) }
}

/// Whether the parts of a segmented executable lie where its header says.
pub fn check_layout(data: &[u8]) -> (ok: bool)
    ensures
        ok == well_formed(data@),
{
    let h = match parse_header(data) {
        Some(h) => h,
        None => {
            return false;
        },
    };
    if h.bytes_in_last_block > 512 {
        return false;
    }
    let start: usize = h.header_paragraphs as usize * 16;
    let blocks: usize = h.blocks_in_file as usize * 512;
    let lacking: usize = if h.bytes_in_last_block > 0 {
        512 - h.bytes_in_last_block as usize
    } else {
        0
    };
    if blocks < lacking {
        return false;
    }
    let end: usize = blocks - lacking;
    if start > end || end > data.len() {
        return false;
    }
    let relocs_end: usize = h.reloc_table_offset as usize + h.num_relocs as usize * 4;
    if relocs_end > data.len() {
        return false;
    }
    let mut i: usize = 0;
    while i < h.num_relocs as usize
        invariant
            i <= h.num_relocs,
            h == spec_header(data@),
            h.relocs_end() <= data@.len(),
            start == h.code_start(),
            end == h.code_end(),
            start <= end,
            forall|k: int|
                0 <= k < i ==> (#[trigger] h.reloc(data@, k)).target() + 2 <= end - start,
        decreases h.num_relocs - i,
    {
        let r = read_reloc(data, &h, i);
        let target: usize = r.segment as usize * 16 + r.offset as usize;
        if target + 2 > end - start {
            assert(!(h.reloc(data@, i as int).target() + 2 <= h.code_end() - h.code_start()));
            return false;
        }
        i += 1;
    }
    true
}

impl CPU {
    /// Seeds the registers for a program of `len` bytes.
    fn seed(&mut self, len: usize)
        requires
            len <= MEMORY_SIZE,
        ensures
            final(self)@ == seeded(old(self)@, len as int),
            final(self).wf() == old(self).wf(),
    {
        self.set_sreg(1, PSP_SEGMENT);
        self.set_sreg(3, PSP_SEGMENT);
        self.set_sreg(0, PSP_SEGMENT);
        self.set_sreg(2, PSP_SEGMENT);
        self.set_r16(4, 0xFFFE);
        self.set_r16(5, 0x091C);
        self.set_r16(1, 0x00FF);
        self.set_r16(2, PSP_SEGMENT);
        self.set_r16(6, 0x0100);
        self.set_r16(7, 0xFFFE);
        self.ip = PROGRAM_OFFSET;
        self.rom_base = PROGRAM_BASE;
        self.rom_length = len as u32;
    }

    /// Loads a raw image into CS:0100 and points IP at the program start.
    pub fn load_com(&mut self, data: &[u8])
        requires
            old(self).wf(),
            data@.len() <= MAX_IMAGE,
        ensures
            final(self).wf(),
            final(self)@ == com_loaded(old(self)@, data@),
    {
        self.seed(data.len());
        self.mmu.memory.write(PROGRAM_BASE, data);
    }

    /// Adds `delta` to each word of the image at flat address `base` that
    /// the relocation table of the file names.
    pub fn relocate(&mut self, base: u32, data: &[u8], h: &ExeHeader, delta: u16)
        requires
            old(self).wf(),
            h.relocs_end() <= data@.len(),
            forall|i: int|
                0 <= i < h.num_relocs ==> base + (#[trigger] h.reloc(data@, i)).target() + 2
                    <= MEMORY_SIZE,
        ensures
            final(self).wf(),
            final(self)@ == (State {
                mem: relocated(
                    old(self)@.mem,
                    base as int,
                    data@,
                    *h,
                    delta,
                    h.num_relocs as nat,
                ),
                ..old(self)@
            }),
    {
        let mut i: usize = 0;
        while i < h.num_relocs as usize
            invariant
                i <= h.num_relocs,
                self.wf(),
                h.relocs_end() <= data@.len(),
                forall|k: int|
                    0 <= k < h.num_relocs ==> base + (#[trigger] h.reloc(data@, k)).target() + 2
                        <= MEMORY_SIZE,
                self@ == (State {
                    mem: relocated(old(self)@.mem, base as int, data@, *h, delta, i as nat),
                    ..old(self)@
                }),
            decreases h.num_relocs - i,
        {
            let r = read_reloc(data, h, i);
            assert(base + h.reloc(data@, i as int).target() + 2 <= MEMORY_SIZE);
            let at: u32 = base + r.segment as u32 * 16 + r.offset as u32;
            let old_word = self.mmu.memory.read_u16(at);
            let new_word: u16 = ((old_word as u32 + delta as u32) % 0x1_0000) as u16;
            self.mmu.memory.write_u16(at, new_word);
            i += 1;
        }
    }

    /// Loads a program: a segmented executable if the file starts with "MZ",
    /// else a raw image. A file that is refused changes nothing.
    pub fn load_executable(&mut self, data: &[u8]) -> (r: Result<(), LoadError>)
        requires
            old(self).wf(),
        ensures
            final(self).wf(),
            match load_result(old(self)@, data@) {
                Ok(s) => r is Ok && final(self)@ == s,
                Err(e) => r == Err::<(), LoadError>(e) && final(self)@ == old(self)@,
            },
    {
        if data.len() >= 2 && data[0] == 0x4D && data[1] == 0x5A {
            self.load_exe(data)
        } else if data.len() > MAX_IMAGE {
            Err(LoadError::TooLarge)
        } else {
            self.load_com(data);
            Ok(())
        }
    }

    /// Loads a segmented executable.
    pub fn load_exe(&mut self, data: &[u8]) -> (r: Result<(), LoadError>)
        requires
            old(self).wf(),
        ensures
            final(self).wf(),
            !well_formed(data@) ==> r == Err::<(), LoadError>(LoadError::Malformed) && final(self)@
                == old(self)@,
            well_formed(data@) && spec_header(data@).code_end() - spec_header(data@).code_start()
                > MAX_IMAGE ==> r == Err::<(), LoadError>(LoadError::TooLarge) && final(self)@
                == old(self)@,
            well_formed(data@) && spec_header(data@).code_end() - spec_header(data@).code_start()
                <= MAX_IMAGE ==> r is Ok && final(self)@ == exe_loaded(old(self)@, data@),
    {
        if !check_layout(data) {
            return Err(LoadError::Malformed);
        }
        let h = match parse_header(data) {
            Some(h) => h,
            None => {
                return Err(LoadError::Malformed);
            },
        };
        let start: usize = h.header_paragraphs as usize * 16;
        let lacking: usize = if h.bytes_in_last_block > 0 {
            512 - h.bytes_in_last_block as usize
        } else {
            0
        };
        let end: usize = h.blocks_in_file as usize * 512 - lacking;
        if end - start > MAX_IMAGE {
            return Err(LoadError::TooLarge);
        }
        let image = vstd::slice::slice_subrange(data, start, end);
        self.load_com(image);
        self.set_r16(4, h.sp);
        self.set_sreg(2, h.ss);
        self.relocate(PROGRAM_BASE, data, &h, LOAD_SEGMENT);
        Ok(())
    }
}

} // verus!
