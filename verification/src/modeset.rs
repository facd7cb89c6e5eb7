//! Mode set and the block transfers of DAC registers.
use vstd::prelude::*;
use crate::address::{add16, flat, wrap16, MemoryAddress};
use crate::bios::{
    bda, bda8, bda_mode_set, cleared, cursor_col, cursor_row, BIOS, DATA_CHAR_HEIGHT,
    DATA_MODESET_CTL, DATA_NB_ROWS, DATA_SEG,
};
use crate::crtc::CRTC;
use crate::dac::component;
use crate::gpu::{
    crtc_cursor_set, crtc_start, cursor_set, gray, gray_of, last_row, page_set, page_start,
    palette_of, GPU, Video,
};
use crate::memory::store16;
use crate::mmu::{in_range, MMU};
use crate::modes::{GFXMode, GraphicCard, VideoModeBlock};
use crate::palette::{color6, palette_color, palette_len, ColorSpace, Palette};
use crate::pixel::{byte_or_zero, read_or_zero};
use crate::teletype::Screen;

verus! {

/// The screen after the cursor of a page moved.
pub open spec fn cursor_moved(s: Screen, row: u8, col: u8, page: u8) -> Screen {
    Screen {
        mem: cursor_set(s.mem, row, col, page),
        regs: crtc_cursor_set(s.regs, s.mem, row, col, page),
    }
}

/// The screen after a page became the active one: the page start and the
/// page number are recorded, the CRT controller gets the start address, and
/// the cursor of the page is set again.
pub open spec fn page_selected(s: Screen, card: GraphicCard, mode: VideoModeBlock, page: u8) -> Screen {
    let m = page_set(s.mem, page);
    let a = crtc_start(card, mode, page_start(s.mem, page));
    cursor_moved(
        Screen {
            mem: m,
            regs: CRTC::written(
                CRTC::written(s.regs, 0x0C, (a / 256) as u8),
                0x0D,
                (a % 256) as u8,
            ),
        },
        cursor_row(m, page),
        cursor_col(m, page),
        page,
    )
}

/// The screen after the cursors of the pages below `n` went to the top left.
pub open spec fn cursors_home(s: Screen, n: nat) -> Screen
    decreases n,
{
    if n == 0 {
        s
    } else {
        cursor_moved(cursors_home(s, (n - 1) as nat), 0, 0, (n - 1) as u8)
    }
}

/// The font that interrupt vector 43h points at after a mode set, by
/// character height: the 8x8 font for heights up to 3 and for 7 and 8, the
/// 8x14 and 8x16 fonts for 14 and 16; for another height the vector stays.
pub open spec fn mode_font(v: Video, cheight: u8) -> Option<MemoryAddress> {
    if cheight <= 3 || cheight == 7 || cheight == 8 {
        Some(v.font_8_first)
    } else if cheight == 14 {
        Some(v.font_14)
    } else if cheight == 16 {
        Some(v.font_16)
    } else {
        None
    }
}

/// Memory with interrupt vector `v` pointing at `addr`.
pub open spec fn vector_set(mem: Seq<u8>, v: int, addr: MemoryAddress) -> Seq<u8> {
    store16(store16(mem, v * 4, addr.spec_offset()), v * 4 + 2, addr.spec_segment())
}

/// The screen after a mode set to the mode block `block`.
pub open spec fn mode_set_screen(s: Screen, v: Video, block: VideoModeBlock) -> Screen {
    let s1 = Screen { mem: cleared(bda_mode_set(s.mem, block), block), regs: s.regs };
    let s2 = page_selected(cursors_home(s1, 8), v.card, block, 0);
    match mode_font(v, block.cheight) {
        Some(font) => Screen { mem: vector_set(s2.mem, 0x43, font), regs: s2.regs },
        None => s2,
    }
}

/// The colour that a DAC register takes from 6-bit components, summed to
/// gray if asked.
pub open spec fn dac_color(r: u8, g: u8, b: u8, to_gray: bool) -> ColorSpace {
    if to_gray {
        color6((gray_of(r, g, b), gray_of(r, g, b), gray_of(r, g, b)))
    } else {
        color6((r, g, b))
    }
}

/// The colours after the first `k` registers of a block were set from the
/// table of red, green and blue bytes at `seg:off`, starting at register
/// `index`; with them the offset and the register that come next.
pub open spec fn dac_block_set(
    pal: Seq<ColorSpace>,
    mem: Seq<u8>,
    seg: u16,
    off: u16,
    index: u8,
    to_gray: bool,
    k: nat,
) -> (Seq<ColorSpace>, u16, u8)
    decreases k,
{
    if k == 0 {
        (pal, off, index)
    } else {
        let before = dac_block_set(pal, mem, seg, off, index, to_gray, (k - 1) as nat);
        let at = before.1;
        (
            before.0.update(
                before.2 as int,
                dac_color(
                    byte_or_zero(mem, seg, at),
                    byte_or_zero(mem, seg, wrap16(at + 1)),
                    byte_or_zero(mem, seg, wrap16(at + 2)),
                    to_gray,
                ),
            ),
            wrap16(at + 3),
            ((before.2 + 1) % 256) as u8,
        )
    }
}

/// Memory with `v` stored at `seg:off`, if that lies inside memory.
pub open spec fn stored_or_skipped(mem: Seq<u8>, seg: u16, off: u16, v: u8) -> Seq<u8> {
    if in_range(seg, off, 1) {
        mem.update(flat(seg, off), v)
    } else {
        mem
    }
}

/// Memory after the first `k` registers of a block, from register `index`
/// on, were stored at `seg:off` as 6-bit red, green and blue bytes; with it
/// the offset and the register that come next.
pub open spec fn dac_block_read(
    mem: Seq<u8>,
    pal: Seq<ColorSpace>,
    seg: u16,
    off: u16,
    index: u8,
    k: nat,
) -> (Seq<u8>, u16, u8)
    decreases k,
{
    if k == 0 {
        (mem, off, index)
    } else {
        let before = dac_block_read(mem, pal, seg, off, index, (k - 1) as nat);
        let at = before.1;
        let c = pal[before.2 as int];
        (
            stored_or_skipped(
                stored_or_skipped(
                    stored_or_skipped(before.0, seg, at, component(c, 0) / 4),
                    seg,
                    wrap16(at + 1),
                    component(c, 1) / 4,
                ),
                seg,
                wrap16(at + 2),
                component(c, 2) / 4,
            ),
            wrap16(at + 3),
            ((before.2 + 1) % 256) as u8,
        )
    }
}

/// The number of text rows minus one that a load of the 8x16 font sets:
/// from DL for row specifier 0, else 14, 25 or 43 rows.
pub open spec fn chargen_rows(row: u8, dl: u8) -> u8 {
    if row == 0 {
        ((dl + 255) % 256) as u8
    } else if row == 1 {
        13
    } else if row == 3 {
        42
    } else {
        24
    }
}

/// Stores a byte if the address lies inside memory.
pub fn store_or_skip(mmu: &mut MMU, seg: u16, off: u16, v: u8)
    requires
        old(mmu).wf(),
    ensures
        final(mmu).wf(),
        final(mmu)@ == stored_or_skipped(old(mmu)@, seg, off, v),
{
    if MMU::check_range(seg, off, 1) {
        mmu.write_u8(seg, off, v);
    }
}

/// The row of the mode table for a mode number.
pub open spec fn mode_row_for(v: Video, mode: u8) -> VideoModeBlock {
    v.modes[last_row(v.modes, mode, v.modes.len())->0]
}

/// Whether a mode set to the mode number can be done: the mode is in the
/// mode table, and there is a palette for its kind.
pub open spec fn mode_known(v: Video, mode: u8) -> bool {
    &&& last_row(v.modes, mode, v.modes.len()) is Some
    &&& palette_of(mode_row_for(v, mode).kind) is Some
}

/// The colours after a palette was loaded: its colours come first, the
/// colours past its length are kept.
pub open spec fn palette_loaded(pal: Seq<ColorSpace>, p: Palette) -> Seq<ColorSpace> {
    Seq::new(
        256,
        |i: int|
            if i < palette_len(p) {
                palette_color(p, i as u8)
            } else {
                pal[i]
            },
    )
}

/// The adapter after a mode set.
pub open spec fn mode_set_video(v: Video, mem: Seq<u8>, mode: u8) -> Video {
    let block = mode_row_for(v, mode);
    Video {
        mode: block,
        pal: palette_loaded(v.pal, palette_of(block.kind)->0),
        crtc: mode_set_screen(Screen { mem, regs: v.crtc }, v, block).regs,
        ..v
    }
}

impl GPU {
    /// int 10h, ah = 00h: SET VIDEO MODE.
    /// The mode must be in the mode table of the card; of two rows with the
    /// number the later counts.
    pub fn set_mode(&mut self, mmu: &mut MMU, bios: &mut BIOS, mode: u8)
        requires
            old(mmu).wf(),
            old(self).wf(),
            mode_known(old(self)@, mode),
        ensures
            final(mmu).wf(),
            final(self).wf(),
            final(self)@ == mode_set_video(old(self)@, old(mmu)@, mode),
            final(mmu)@ == mode_set_screen(
                old(self).screen(old(mmu)),
                old(self)@,
                mode_row_for(old(self)@, mode),
            ).mem,
    {
        let found = self.lookup_mode(mode);
        let i = match found {
            Some(i) => i,
            None => 0,
        };
        self.mode = self.modes[i];
        assert(self.mode == mode_row_for(old(self)@, mode));
        let p = match self.mode.kind {
            GFXMode::TEXT => Palette::Text,
            GFXMode::CGA2 => Palette::Cga2,
            GFXMode::CGA4 => Palette::Cga4,
            GFXMode::EGA => Palette::Ega,
            _ => Palette::Vga,
        };
        self.dac.load(p);
        let block = self.mode;
        bios.set_video_mode(mmu, &block, true);
        let ghost s1 = self.screen(mmu);
        let mut ct: u8 = 0;
        while ct < 8
            invariant
                ct <= 8,
                mmu.wf(),
                self.wf(),
                self.mode == block,
                self@ == (Video {
                    mode: block,
                    pal: self.dac.pal@,
                    crtc: self.crtc@,
                    ..old(self)@
                }),
                old(self).dac.pal@.len() == 256,
                self.screen(mmu) == cursors_home(s1, ct as nat),
                forall|i: int|
                    0 <= i < 256 ==> self.dac.pal@[i] == if i < palette_len(p) {
                        palette_color(p, i as u8)
                    } else {
                        old(self).dac.pal@[i]
                    },
            decreases 8 - ct,
        {
            self.set_cursor_pos(mmu, 0, 0, ct);
            ct += 1;
        }
        self.set_active_page(mmu, 0);
        let h = self.mode.cheight;
        if h <= 3 || h == 7 || h == 8 {
            let font = self.font_8_first;
            mmu.write_vec(0x43, &font);
        } else if h == 14 {
            let font = self.font_14;
            mmu.write_vec(0x43, &font);
        } else if h == 16 {
            let font = self.font_16;
            mmu.write_vec(0x43, &font);
        }
        assert(self.dac.pal@ =~= palette_loaded(old(self).dac.pal@, p));
    }

    /// int 10h, ax = 1012h: SET BLOCK OF DAC REGISTERS.
    /// `seg:off` points at a table of three bytes for each register: red,
    /// green and blue, 6 bits each. Bytes outside memory read as 0.
    pub fn set_dac_block(&mut self, mmu: &mut MMU, index: u16, count: u16, seg: u16, off: u16)
        requires
            old(mmu).wf(),
            old(self).wf(),
        ensures
            *final(mmu) == *old(mmu),
            final(self).wf(),
            final(self).dac.pal@ == dac_block_set(
                old(self).dac.pal@,
                old(mmu)@,
                seg,
                off,
                (index % 256) as u8,
                bda8(old(mmu)@, 0x89) & 0x06 != 0,
                count as nat,
            ).0,
            final(self).dac.write_index == dac_block_set(
                old(self).dac.pal@,
                old(mmu)@,
                seg,
                off,
                (index % 256) as u8,
                bda8(old(mmu)@, 0x89) & 0x06 != 0,
                count as nat,
            ).2,
            final(self).dac.pel_index == 0,
            final(self).dac.read_index == old(self).dac.read_index,
            final(self).same_but_dac(old(self)),
    {
        let first: u8 = (index % 256) as u8;
        self.dac.set_pel_write_index(first);
        let to_gray = (mmu.read_u8(DATA_SEG, DATA_MODESET_CTL) & 0x06) != 0;
        let mut at = off;
        let mut k: u16 = 0;
        while k < count
            invariant
                k <= count,
                mmu.wf(),
                *mmu == *old(mmu),
                self.wf(),
                first == index % 256,
                (self.dac.pal@, at, self.dac.write_index) == dac_block_set(
                    old(self).dac.pal@,
                    mmu@,
                    seg,
                    off,
                    first,
                    to_gray,
                    k as nat,
                ),
                self.dac.pel_index == 0,
                self.dac.read_index == old(self).dac.read_index,
                self.same_but_dac(old(self)),
            decreases count - k,
        {
            let r = read_or_zero(mmu, seg, at);
            let g = read_or_zero(mmu, seg, add16(at, 1));
            let b = read_or_zero(mmu, seg, add16(at, 2));
            at = add16(at, 3);
            if to_gray {
                let ic = gray(r, g, b);
                self.dac.write_rgb(ic, ic, ic);
            } else {
                self.dac.write_rgb(r, g, b);
            }
            k += 1;
        }
    }

    /// int 10h, ax = 1017h: READ BLOCK OF DAC REGISTERS.
    /// The buffer at `seg:off` is filled with `count` triples of red, green
    /// and blue; bytes outside memory are left out.
    pub fn read_dac_block(&mut self, mmu: &mut MMU, index: u16, count: u16, seg: u16, off: u16)
        requires
            old(mmu).wf(),
            old(self).wf(),
        ensures
            final(mmu).wf(),
            final(self).wf(),
            final(mmu)@ == dac_block_read(
                old(mmu)@,
                old(self).dac.pal@,
                seg,
                off,
                (index % 256) as u8,
                count as nat,
            ).0,
            final(self).dac.pal == old(self).dac.pal,
            final(self).dac.read_index == dac_block_read(
                old(mmu)@,
                old(self).dac.pal@,
                seg,
                off,
                (index % 256) as u8,
                count as nat,
            ).2,
            final(self).dac.pel_index == 0,
            final(self).dac.write_index == old(self).dac.write_index,
            final(self).same_but_dac(old(self)),
    {
        let first: u8 = (index % 256) as u8;
        self.dac.set_pel_read_index(first);
        let mut at = off;
        let mut k: u16 = 0;
        while k < count
            invariant
                k <= count,
                mmu.wf(),
                self.wf(),
                first == index % 256,
                (mmu@, at, self.dac.read_index) == dac_block_read(
                    old(mmu)@,
                    self.dac.pal@,
                    seg,
                    off,
                    first,
                    k as nat,
                ),
                self.dac.pal == old(self).dac.pal,
                self.dac.pel_index == 0,
                self.dac.write_index == old(self).dac.write_index,
                self.same_but_dac(old(self)),
            decreases count - k,
        {
            let c = self.dac.read_rgb();
            store_or_skip(mmu, seg, at, c.0);
            store_or_skip(mmu, seg, add16(at, 1), c.1);
            store_or_skip(mmu, seg, add16(at, 2), c.2);
            at = add16(at, 3);
            k += 1;
        }
    }

    /// int 10h, ax = 1124h: GRAPH-MODE CHARGEN - LOAD 8x16 GRAPHICS CHARS.
    /// On a card other than a VGA nothing happens.
    pub fn load_graphics_chars(&mut self, mmu: &mut MMU, row: u8, dl: u8)
        requires
            old(mmu).wf(),
        ensures
            final(mmu).wf(),
            *final(self) == *old(self),
            final(mmu)@ == if old(self).card.spec_is_vga() {
                store16(vector_set(old(mmu)@, 0x43, old(self).font_16), bda(0x85), 16).update(
                    bda(0x84),
                    chargen_rows(row, dl),
                )
            } else {
                old(mmu)@
            },
    {
        if !self.card.is_vga() {
            return ;
        }
        let font = self.font_16;
        mmu.write_vec(0x43, &font);
        mmu.write_u16(DATA_SEG, DATA_CHAR_HEIGHT, 16);
        let val: u8 = if row == 0 {
            ((dl as u16 + 255) % 256) as u8
        } else if row == 1 {
            13
        } else if row == 3 {
            42
        } else {
            24
        };
        mmu.write_u8(DATA_SEG, DATA_NB_ROWS, val);
    }
}

} // verus!
