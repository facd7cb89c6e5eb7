//! The BIOS data area and the default interrupt vector table.
use vstd::prelude::*;
use crate::address::MemoryAddress;
use crate::memory::{le16, store16, MEMORY_SIZE};
use crate::mmu::MMU;
use crate::modes::{GFXMode, VideoModeBlock};

verus! {

/// Segment of the BIOS data area.
pub const DATA_SEG: u16 = 0x0040;

/// Segment of the BIOS ROM; an interrupt whose vector points into it is
/// served by the host.
pub const ROM_SEG: u16 = 0xF000;

/// current video mode (u8)
pub const DATA_CURRENT_MODE: u16 = 0x49;

/// number of text columns (u16)
pub const DATA_NB_COLS: u16 = 0x4A;

/// bytes per video page (u16)
pub const DATA_PAGE_SIZE: u16 = 0x4C;

/// offset of the current page in video memory (u16)
pub const DATA_CURRENT_START: u16 = 0x4E;

/// cursor positions: for each of 8 pages the column, then the row
pub const DATA_CURSOR_POS: u16 = 0x50;

/// current page (u8)
pub const DATA_CURRENT_PAGE: u16 = 0x62;

/// number of text rows minus one (u8)
pub const DATA_NB_ROWS: u16 = 0x84;

/// character height in scan lines
pub const DATA_CHAR_HEIGHT: u16 = 0x85;

/// mode set options (u8)
pub const DATA_MODESET_CTL: u16 = 0x89;

/// PCjr page register (u8)
pub const DATA_CRTCPU_PAGE: u16 = 0x8A;

/// pointer to the video save pointer table (u32)
pub const DATA_VS_POINTER: u16 = 0xA8;

/// The opcode of IRET.
pub const IRET: u8 = 0xCF;

/// Flat address of offset `off` of the BIOS data area.
pub open spec fn bda(off: int) -> int {
    0x400 + off
}

pub open spec fn bda8(mem: Seq<u8>, off: int) -> u8 {
    mem[bda(off)]
}

pub open spec fn bda16(mem: Seq<u8>, off: int) -> u16 {
    le16(mem, bda(off)) as u16
}

/// The cursor column of a page.
pub open spec fn cursor_col(mem: Seq<u8>, page: u8) -> u8 {
    bda8(mem, 0x50 + page * 2)
}

/// The cursor row of a page.
pub open spec fn cursor_row(mem: Seq<u8>, page: u8) -> u8 {
    bda8(mem, 0x51 + page * 2)
}

pub fn cursor_pos_col(mmu: &MMU, page: u8) -> (r: u8)
    requires
        mmu.wf(),
    ensures
        r == cursor_col(mmu@, page),
{
    mmu.read_u8(DATA_SEG, DATA_CURSOR_POS + page as u16 * 2)
}

pub fn cursor_pos_row(mmu: &MMU, page: u8) -> (r: u8)
    requires
        mmu.wf(),
    ensures
        r == cursor_row(mmu@, page),
{
    mmu.read_u8(DATA_SEG, DATA_CURSOR_POS + page as u16 * 2 + 1)
}

/// The BIOS data area after a mode set: mode number, columns, page size,
/// page start 0, page 0, rows minus one and character height.
pub open spec fn bda_mode_set(mem: Seq<u8>, m: VideoModeBlock) -> Seq<u8> {
    let m1 = mem.update(bda(0x49), (m.mode % 256) as u8);
    let m2 = store16(m1, bda(0x4A), m.twidth as u16);
    let m3 = store16(m2, bda(0x4C), (m.plength % 0x1_0000) as u16);
    let m4 = store16(m3, bda(0x4E), 0);
    let m5 = m4.update(bda(0x62), 0);
    let m6 = m5.update(bda(0x84), (m.theight - 1) as u8);
    store16(m6, bda(0x85), m.cheight as u16)
}

/// Flat address of the video memory that a mode set clears.
pub open spec fn clear_start(m: VideoModeBlock) -> int {
    match m.kind {
        GFXMode::TEXT => m.pstart as int,
        GFXMode::EGA | GFXMode::VGA => 0xA_0000,
        _ => 0xB_8000,
    }
}

/// Number of bytes that a mode set clears.
pub open spec fn clear_len(m: VideoModeBlock) -> int {
    match m.kind {
        GFXMode::EGA | GFXMode::VGA => 0x1_0000,
        _ => 0x8000,
    }
}

/// What a mode set fills the byte at `i` with: in text modes a blank with
/// attribute 7, else 0.
pub open spec fn clear_byte(m: VideoModeBlock, i: int) -> u8 {
    if m.kind == GFXMode::TEXT {
        if (i - clear_start(m)) % 2 == 0 {
            0x20
        } else {
            0x07
        }
    } else {
        0
    }
}

/// Memory with the video memory of the mode cleared.
pub open spec fn cleared(mem: Seq<u8>, m: VideoModeBlock) -> Seq<u8> {
    Seq::new(
        mem.len(),
        |i: int|
            if clear_start(m) <= i < clear_start(m) + clear_len(m) {
                clear_byte(m, i)
            } else {
                mem[i]
            },
    )
}

/// Memory with every interrupt vector `n` pointing at F000:`n`, where an
/// IRET stands.
pub open spec fn with_default_vectors(mem: Seq<u8>) -> Seq<u8> {
    Seq::new(
        mem.len(),
        |i: int|
            if 0 <= i < 0x400 {
                if i % 4 == 0 {
                    (i / 4) as u8
                } else if i % 4 == 3 {
                    0xF0
                } else {
                    0
                }
            } else if 0xF_0000 <= i < 0xF_0100 {
                IRET
            } else {
                mem[i]
            },
    )
}

/// The BIOS: it keeps its data in the BIOS data area of memory.
pub struct BIOS {}

impl BIOS {
    pub fn default() -> BIOS {
        BIOS {  }
    }

    /// Installs the default interrupt vector table.
    pub fn init(&mut self, mmu: &mut MMU)
        requires
            old(mmu).wf(),
        ensures
            final(mmu).wf(),
            final(mmu)@ == with_default_vectors(old(mmu)@),
    {
        let ghost start = mmu@;
        let mut n: u16 = 0;
        while n < 256
            invariant
                n <= 256,
                mmu.wf(),
                start.len() == MEMORY_SIZE,
                forall|i: int|
                    0 <= i < MEMORY_SIZE ==> mmu@[i] == if (i < n * 4) || (0xF_0000 <= i < 0xF_0000
                        + n) {
                        with_default_vectors(start)[i]
                    } else {
                        start[i]
                    },
            decreases 256 - n,
        {
            mmu.write_vec(n, &MemoryAddress::RealSegmentOffset(ROM_SEG, n));
            mmu.write_u8(ROM_SEG, n, IRET);
            n += 1;
        }
        assert(mmu@ =~= with_default_vectors(start));
    }

    /// Records the mode in the BIOS data area and, if asked, clears its
    /// video memory.
    pub fn set_video_mode(&mut self, mmu: &mut MMU, mode: &VideoModeBlock, clear_mem: bool)
        requires
            old(mmu).wf(),
            mode.wf(),
        ensures
            final(mmu).wf(),
            final(mmu)@ == if clear_mem {
                cleared(bda_mode_set(old(mmu)@, *mode), *mode)
            } else {
                bda_mode_set(old(mmu)@, *mode)
            },
    {
        mmu.write_u8(DATA_SEG, DATA_CURRENT_MODE, (mode.mode % 256) as u8);
        mmu.write_u16(DATA_SEG, DATA_NB_COLS, mode.twidth as u16);
        mmu.write_u16(DATA_SEG, DATA_PAGE_SIZE, (mode.plength % 0x1_0000) as u16);
        mmu.write_u16(DATA_SEG, DATA_CURRENT_START, 0);
        mmu.write_u8(DATA_SEG, DATA_CURRENT_PAGE, 0);
        mmu.write_u8(DATA_SEG, DATA_NB_ROWS, mode.theight - 1);
        mmu.write_u16(DATA_SEG, DATA_CHAR_HEIGHT, mode.cheight as u16);
        if clear_mem {
            let ghost before = mmu@;
            let text = mode.is_text();
            let start: u32 = match mode.kind {
                GFXMode::TEXT => mode.pstart,
                GFXMode::EGA | GFXMode::VGA => 0xA_0000,
                _ => 0xB_8000,
            };
            let len: u32 = match mode.kind {
                GFXMode::EGA | GFXMode::VGA => 0x1_0000,
                _ => 0x8000,
            };
            let mut i: u32 = 0;
            while i < len
                invariant
                    i <= len,
                    mmu.wf(),
                    mode.wf(),
                    before.len() == MEMORY_SIZE,
                    start == clear_start(*mode),
                    len == clear_len(*mode),
                    text == mode.spec_is_text(),
                    forall|k: int|
                        0 <= k < MEMORY_SIZE ==> #[trigger] mmu@[k] == if start <= k < start + i {
                            clear_byte(*mode, k)
                        } else {
                            before[k]
                        },
                decreases len - i,
            {
                let b: u8 = if text {
                    if i % 2 == 0 {
                        0x20
                    } else {
                        0x07
                    }
                } else {
                    0
                };
                let ghost prev = mmu@;
                assert(b == clear_byte(*mode, start + i));
                mmu.memory.write_u8(start + i, b);
                assert(mmu@ == prev.update(start + i, b));
                assert forall|k: int| 0 <= k < MEMORY_SIZE implies #[trigger] mmu@[k] == if start
                    <= k < start + i + 1 {
                    clear_byte(*mode, k)
                } else {
                    before[k]
                } by {
                    if k == start + i {
                        assert(mmu@[k] == b);
                    } else {
                        assert(mmu@[k] == prev[k]);
                    }
                }
                i += 1;
            }
            assert(mmu@ =~= cleared(before, *mode));
        }
    }
}

} // verus!
