//! The video adapter as the BIOS sees it: mode, cursor, pages and palette.
use vstd::prelude::*;
use crate::address::{wrap16, MemoryAddress};
use crate::bios::{
    bda, bda16, bda8, cursor_col, cursor_pos_col, cursor_pos_row, cursor_row, BIOS,
    DATA_CURRENT_PAGE, DATA_CURRENT_START, DATA_CURSOR_POS, DATA_MODESET_CTL, DATA_NB_COLS,
    DATA_PAGE_SIZE, DATA_SEG,
};
use crate::crtc::CRTC;
use crate::dac::DAC;
use crate::memory::store16;
use crate::mmu::MMU;
use crate::modes::{mode_row, GFXMode, GraphicCard, VideoModeBlock};
use crate::palette::{palette_color, ColorSpace, Palette};

verus! {

/// The video adapter.
pub struct GPU {
    pub scanline: u32,
    pub crtc: CRTC,
    pub dac: DAC,
    pub font_8_first: MemoryAddress,
    pub font_8_second: MemoryAddress,
    pub font_14: MemoryAddress,
    pub font_14_alternate: MemoryAddress,
    pub font_16: MemoryAddress,
    pub font_16_alternate: MemoryAddress,
    pub static_config: MemoryAddress,
    pub video_parameter_table: MemoryAddress,
    pub video_dcc_table: MemoryAddress,
    pub card: GraphicCard,
    pub mode: VideoModeBlock,
    pub modes: Vec<VideoModeBlock>,
}

/// The video adapter as a mathematical value.
pub struct Video {
    /// the CRT controller: 25 registers, then the index register
    pub crtc: Seq<u8>,
    /// the colours of the DAC
    pub pal: Seq<ColorSpace>,
    pub read_index: u8,
    pub write_index: u8,
    pub pel_index: u8,
    pub scanline: u32,
    pub card: GraphicCard,
    pub mode: VideoModeBlock,
    pub modes: Seq<VideoModeBlock>,
    pub font_8_first: MemoryAddress,
    pub font_8_second: MemoryAddress,
    pub font_14: MemoryAddress,
    pub font_14_alternate: MemoryAddress,
    pub font_16: MemoryAddress,
    pub font_16_alternate: MemoryAddress,
    pub static_config: MemoryAddress,
    pub video_parameter_table: MemoryAddress,
    pub video_dcc_table: MemoryAddress,
}

impl View for GPU {
    type V = Video;

    open spec fn view(&self) -> Video {
        Video {
            crtc: self.crtc@,
            pal: self.dac.pal@,
            read_index: self.dac.read_index,
            write_index: self.dac.write_index,
            pel_index: self.dac.pel_index,
            scanline: self.scanline,
            card: self.card,
            mode: self.mode,
            modes: self.modes@,
            font_8_first: self.font_8_first,
            font_8_second: self.font_8_second,
            font_14: self.font_14,
            font_14_alternate: self.font_14_alternate,
            font_16: self.font_16,
            font_16_alternate: self.font_16_alternate,
            static_config: self.static_config,
            video_parameter_table: self.video_parameter_table,
            video_dcc_table: self.video_dcc_table,
        }
    }
}

/// The adapter as it is created: a VGA with its mode table, in mode 3, with
/// the text palette in the first 64 colours of the DAC and black in the
/// others, all registers 0 and no address assigned.
pub open spec fn created_video() -> Video {
    Video {
        crtc: Seq::new(26, |i: int| 0u8),
        pal: Seq::new(
            256,
            |i: int|
                if i < 64 {
                    palette_color(Palette::Text, i as u8)
                } else {
                    ColorSpace::RGB(0, 0, 0)
                },
        ),
        read_index: 0,
        write_index: 0,
        pel_index: 0,
        scanline: 0,
        card: GraphicCard::VGA,
        mode: mode_row(GraphicCard::VGA, 3),
        modes: Seq::new(15, |i: int| mode_row(GraphicCard::VGA, i as usize)),
        font_8_first: MemoryAddress::Unset,
        font_8_second: MemoryAddress::Unset,
        font_14: MemoryAddress::Unset,
        font_14_alternate: MemoryAddress::Unset,
        font_16: MemoryAddress::Unset,
        font_16_alternate: MemoryAddress::Unset,
        static_config: MemoryAddress::Unset,
        video_parameter_table: MemoryAddress::Unset,
        video_dcc_table: MemoryAddress::Unset,
    }
}

/// The last row among the first `n` of a mode table that has the mode
/// number, if there is one.
pub open spec fn last_row(modes: Seq<VideoModeBlock>, mode: u8, n: nat) -> Option<int>
    decreases n,
{
    if n == 0 {
        None
    } else if modes[n - 1].mode == mode {
        Some(n - 1)
    } else {
        last_row(modes, mode, (n - 1) as nat)
    }
}

/// The palette that a mode set loads for a kind of mode.
pub open spec fn palette_of(kind: GFXMode) -> Option<Palette> {
    match kind {
        GFXMode::TEXT => Some(Palette::Text),
        GFXMode::CGA2 => Some(Palette::Cga2),
        GFXMode::CGA4 => Some(Palette::Cga4),
        GFXMode::EGA => Some(Palette::Ega),
        GFXMode::VGA => Some(Palette::Vga),
        _ => None,
    }
}

/// The offset of the cursor in character cells, as the CRT controller takes
/// it: columns times row, plus column, plus half the page start, wrapped to
/// 16 bits.
pub open spec fn cursor_address(mem: Seq<u8>, row: u8, col: u8) -> u16 {
    wrap16(bda16(mem, 0x4A) * row + col + bda16(mem, 0x4E) / 2)
}

/// Memory after the cursor of `page` was set.
pub open spec fn cursor_set(mem: Seq<u8>, row: u8, col: u8, page: u8) -> Seq<u8> {
    mem.update(bda(0x50 + page * 2), col).update(bda(0x51 + page * 2), row)
}

/// The CRT controller registers after the cursor of `page` was set: for the
/// active page, registers 0Eh and 0Fh take the cursor address.
pub open spec fn crtc_cursor_set(regs: Seq<u8>, mem: Seq<u8>, row: u8, col: u8, page: u8) -> Seq<
    u8,
> {
    let m = cursor_set(mem, row, col, page);
    if page == bda8(m, 0x62) {
        let a = cursor_address(m, row, col);
        CRTC::written(CRTC::written(regs, 0x0E, (a / 256) as u8), 0x0F, (a % 256) as u8)
    } else {
        regs
    }
}

/// The start of `page` in video memory: the page number times the page size,
/// wrapped to 16 bits.
pub open spec fn page_start(mem: Seq<u8>, page: u8) -> u16 {
    wrap16(page * bda16(mem, 0x4C))
}

/// The page start as the CRT controller takes it: halved, but not on an EGA
/// or VGA in a mode from 8 on.
pub open spec fn crtc_start(card: GraphicCard, mode: VideoModeBlock, start: u16) -> u16 {
    if card.spec_is_ega_vga() && mode.mode >= 8 {
        start
    } else {
        start / 2
    }
}

/// Memory after `page` became the active page, before the cursor is set
/// again.
pub open spec fn page_set(mem: Seq<u8>, page: u8) -> Seq<u8> {
    store16(mem, bda(0x4E), page_start(mem, page)).update(bda(0x62), page)
}

/// The clamped intensity of a colour, as the VGA BIOS sums it to gray.
pub open spec fn gray_of(r: u8, g: u8, b: u8) -> u8 {
    let i = (77 * r + 151 * g + 28 * b + 0x80) / 256;
    if i > 0x3F {
        0x3F
    } else {
        i as u8
    }
}

/// The product of two 16-bit values.
pub fn product(a: u16, b: u16) -> (r: u32)
    ensures
        r == a * b,
        r <= 0xFFFE_0001,
{
    assert(a * b <= 0xFFFF * 0xFFFF) by (nonlinear_arith)
        requires
            0 <= a <= 0xFFFF,
            0 <= b <= 0xFFFF,
    ;
    a as u32 * b as u32
}

pub fn gray(r: u8, g: u8, b: u8) -> (v: u8)
    ensures
        v == gray_of(r, g, b),
{
    let i: u32 = (77 * r as u32 + 151 * g as u32 + 28 * b as u32 + 0x80) / 256;
    if i > 0x3F {
        0x3F
    } else {
        i as u8
    }
}

impl GPU {
    /// Whether two adapters differ in the CRT controller at most.
    pub open spec fn same_but_crtc(&self, o: &GPU) -> bool {
        &&& self.scanline == o.scanline
        &&& self.dac == o.dac
        &&& self.font_8_first == o.font_8_first
        &&& self.font_8_second == o.font_8_second
        &&& self.font_14 == o.font_14
        &&& self.font_14_alternate == o.font_14_alternate
        &&& self.font_16 == o.font_16
        &&& self.font_16_alternate == o.font_16_alternate
        &&& self.static_config == o.static_config
        &&& self.video_parameter_table == o.video_parameter_table
        &&& self.video_dcc_table == o.video_dcc_table
        &&& self.card == o.card
        &&& self.mode == o.mode
        &&& self.modes == o.modes
    }

    /// Whether two adapters differ in the DAC at most.
    pub open spec fn same_but_dac(&self, o: &GPU) -> bool {
        &&& self.scanline == o.scanline
        &&& self.crtc == o.crtc
        &&& self.font_8_first == o.font_8_first
        &&& self.font_8_second == o.font_8_second
        &&& self.font_14 == o.font_14
        &&& self.font_14_alternate == o.font_14_alternate
        &&& self.font_16 == o.font_16
        &&& self.font_16_alternate == o.font_16_alternate
        &&& self.static_config == o.static_config
        &&& self.video_parameter_table == o.video_parameter_table
        &&& self.video_dcc_table == o.video_dcc_table
        &&& self.card == o.card
        &&& self.mode == o.mode
        &&& self.modes == o.modes
    }

    pub open spec fn wf(&self) -> bool {
        &&& self.dac.wf()
        &&& self.mode.wf()
        &&& forall|i: int| 0 <= i < self.modes@.len() ==> (#[trigger] self.modes@[i]).wf()
    }

    /// A VGA in 80x25 text mode.
    pub fn default() -> (g: GPU)
        ensures
            g.wf(),
            g@ == created_video(),
    {
        let generation = GraphicCard::VGA;
        let modes = VideoModeBlock::get_mode_block(&generation);
        let mode = modes[3];
        let g = GPU {
            scanline: 0,
            crtc: CRTC::default(),
            dac: DAC::default(),
            font_8_first: MemoryAddress::Unset,
            font_8_second: MemoryAddress::Unset,
            font_14: MemoryAddress::Unset,
            font_14_alternate: MemoryAddress::Unset,
            font_16: MemoryAddress::Unset,
            font_16_alternate: MemoryAddress::Unset,
            static_config: MemoryAddress::Unset,
            video_parameter_table: MemoryAddress::Unset,
            video_dcc_table: MemoryAddress::Unset,
            card: generation,
            mode,
            modes,
        };
        assert(g@.pal =~= created_video().pal);
        assert(g@.modes =~= created_video().modes);
        g
    }

    /// The last row of the mode table with the mode number, if there is one.
    pub fn lookup_mode(&self, mode: u8) -> (r: Option<usize>)
        ensures
            match r {
                Some(i) => last_row(self.modes@, mode, self.modes@.len()) == Some(i as int) && i
                    < self.modes@.len() && self.modes@[i as int].mode == mode,
                None => last_row(self.modes@, mode, self.modes@.len()) is None,
            },
    {
        let mut found: Option<usize> = None;
        let mut i: usize = 0;
        while i < self.modes.len()
            invariant
                i <= self.modes@.len(),
                match found {
                    Some(k) => last_row(self.modes@, mode, i as nat) == Some(k as int) && k < i
                        && self.modes@[k as int].mode == mode,
                    None => last_row(self.modes@, mode, i as nat) is None,
                },
            decreases self.modes@.len() - i,
        {
            if self.modes[i].mode == mode as u16 {
                found = Some(i);
            }
            i += 1;
        }
        found
    }

    /// The active display page.
    pub fn get_active_page(&self, mmu: &mut MMU) -> (page: u8)
        requires
            old(mmu).wf(),
        ensures
            page == bda8(old(mmu)@, 0x62),
            *final(mmu) == *old(mmu),
    {
        mmu.read_u8(DATA_SEG, DATA_CURRENT_PAGE)
    }

    /// int 10h, ah = 02h: SET CURSOR POSITION
    pub fn set_cursor_pos(&mut self, mmu: &mut MMU, row: u8, col: u8, page: u8)
        requires
            old(mmu).wf(),
        ensures
            final(mmu).wf(),
            final(mmu)@ == cursor_set(old(mmu)@, row, col, page),
            final(self).crtc@ == crtc_cursor_set(
                old(self).crtc@,
                old(mmu)@,
                row,
                col,
                page,
            ),
            final(self).same_but_crtc(old(self)),
    {
        let cursor_ofs: u16 = page as u16 * 2;
        mmu.write_u8(DATA_SEG, DATA_CURSOR_POS + cursor_ofs, col);
        mmu.write_u8(DATA_SEG, DATA_CURSOR_POS + cursor_ofs + 1, row);
        if page == self.get_active_page(mmu) {
            let ncols = mmu.read_u16(DATA_SEG, DATA_NB_COLS);
            let start = mmu.read_u16(DATA_SEG, DATA_CURRENT_START);
            let address: u32 = (product(ncols, row as u16) + col as u32 + (start / 2) as u32)
                % 0x1_0000;
            self.crtc.write(0x0E, (address / 256) as u8);
            self.crtc.write(0x0F, (address % 256) as u8);
        }
    }

    /// int 10h, ah = 05h: SELECT ACTIVE DISPLAY PAGE
    pub fn set_active_page(&mut self, mmu: &mut MMU, page: u8)
        requires
            old(mmu).wf(),
        ensures
            final(mmu).wf(),
            final(mmu)@ == ({
                let m = page_set(old(mmu)@, page);
                cursor_set(m, cursor_row(m, page), cursor_col(m, page), page)
            }),
            final(self).crtc@ == ({
                let m = page_set(old(mmu)@, page);
                let a = crtc_start(old(self).card, old(self).mode, page_start(old(mmu)@, page));
                crtc_cursor_set(
                    CRTC::written(
                        CRTC::written(old(self).crtc@, 0x0C, (a / 256) as u8),
                        0x0D,
                        (a % 256) as u8,
                    ),
                    m,
                    cursor_row(m, page),
                    cursor_col(m, page),
                    page,
                )
            }),
            final(self).same_but_crtc(old(self)),
    {
        let size = mmu.read_u16(DATA_SEG, DATA_PAGE_SIZE);
        let mut mem_address: u16 = (product(page as u16, size) % 0x1_0000) as u16;
        mmu.write_u16(DATA_SEG, DATA_CURRENT_START, mem_address);
        if self.card.is_ega_vga() {
            if self.mode.mode < 8 {
                mem_address = mem_address / 2;
            }
        } else {
            mem_address = mem_address / 2;
        }
        self.crtc.write(0x0C, (mem_address / 256) as u8);
        self.crtc.write(0x0D, (mem_address % 256) as u8);
        mmu.write_u8(DATA_SEG, DATA_CURRENT_PAGE, page);
        let cur_row = cursor_pos_row(mmu, page);
        let cur_col = cursor_pos_col(mmu, page);
        self.set_cursor_pos(mmu, cur_row, cur_col, page);
    }

    /// int 10h, ax = 1010h: SET INDIVIDUAL DAC REGISTER.
    /// Colour components are 6-bit values; if gray summing is on, the colour
    /// is replaced by its intensity.
    pub fn set_individual_dac_register(&mut self, mmu: &mut MMU, index: u8, r: u8, g: u8, b: u8)
        requires
            old(mmu).wf(),
            old(self).wf(),
        ensures
            *final(mmu) == *old(mmu),
            final(self).wf(),
            final(self).dac.pal@ == old(self).dac.pal@.update(
                index as int,
                if bda8(old(mmu)@, 0x89) & 0x06 == 0 {
                    crate::palette::color6((r, g, b))
                } else {
                    crate::palette::color6((gray_of(r, g, b), gray_of(r, g, b), gray_of(r, g, b)))
                },
            ),
            final(self).dac.write_index == ((index + 1) % 256) as u8,
            final(self).dac.pel_index == 0,
            final(self).dac.read_index == old(self).dac.read_index,
            final(self).same_but_dac(old(self)),
    {
        self.dac.set_pel_write_index(index);
        if (mmu.read_u8(DATA_SEG, DATA_MODESET_CTL) & 0x06) == 0 {
            self.dac.write_rgb(r, g, b);
        } else {
            let ic = gray(r, g, b);
            self.dac.write_rgb(ic, ic, ic);
        }
    }

    /// int 10h, ax = 1015h: READ INDIVIDUAL DAC REGISTER: the 6-bit red,
    /// green and blue of a colour.
    pub fn get_individual_dac_register(&mut self, reg: u8) -> (c: (u8, u8, u8))
        requires
            old(self).wf(),
        ensures
            final(self).wf(),
            c.0 == crate::dac::component(old(self).dac.pal@[reg as int], 0) / 4,
            c.1 == crate::dac::component(old(self).dac.pal@[reg as int], 1) / 4,
            c.2 == crate::dac::component(old(self).dac.pal@[reg as int], 2) / 4,
            final(self).dac.pal == old(self).dac.pal,
            final(self).dac.read_index == ((reg + 1) % 256) as u8,
            final(self).dac.pel_index == 0,
            final(self).dac.write_index == old(self).dac.write_index,
            final(self).same_but_dac(old(self)),
    {
        self.dac.set_pel_read_index(reg);
        self.dac.read_rgb()
    }

    /// Counts scan lines, to have something that toggles the status
    /// register: the line goes back to 0 after the width of the screen.
    pub fn progress_scanline(&mut self)
        ensures
            final(self)@ == (Video {
                scanline: if old(self).scanline >= old(self).mode.swidth {
                    0
                } else {
                    (old(self).scanline + 1) as u32
                },
                ..old(self)@
            }),
            final(self).wf() == old(self).wf(),
    {
        if self.scanline >= self.mode.swidth {
            self.scanline = 0;
        } else {
            self.scanline = self.scanline + 1;
        }
    }

    /// CGA status register (03DAh): bits 0 and 3, retrace in progress, are
    /// set while the scan line is 0.
    pub fn read_cga_status_register(&self) -> (flags: u8)
        ensures
            flags == if self.scanline == 0 {
                0x09u8
            } else {
                0u8
            },
    {
        if self.scanline == 0 {
            0x09
        } else {
            0
        }
    }

    /// Resets the flip-flop of the attribute controller. The adapter that is
    /// modelled has none, so nothing changes.
    pub fn reset_actl(&self) {
    }

    /// Size of the video BIOS ROM in bytes.
    pub fn video_bios_size(&self) -> (r: u16)
        ensures
            r == 0x8000,
    {
        0x8000
    }
}

} // verus!
