//! Writing pixels and characters to video memory.
use vstd::prelude::*;
use crate::address::{add16, flat, wrap16};
use crate::bios::{
    bda16, bda8, DATA_CHAR_HEIGHT, DATA_CRTCPU_PAGE, DATA_CURRENT_MODE, DATA_NB_COLS,
    DATA_PAGE_SIZE, DATA_SEG,
};
use crate::gpu::{page_start, product, GPU};
use crate::memory::{le16, store16};
use crate::mmu::{in_range, MMU};
use crate::modes::{GFXMode, GraphicCard, VideoModeBlock};

verus! {

/// The kinds of mode in which pixels can be written; in text modes a write
/// changes nothing.
pub open spec fn draws(kind: GFXMode) -> bool {
    kind == GFXMode::TEXT || kind == GFXMode::CGA4 || kind == GFXMode::VGA
}

/// 16 KiB CGA modes: the byte offset of pixel (`x`, `y`) in segment B800h.
/// Odd scan lines lie 8 KiB after the even ones.
pub open spec fn cga16_offset(x: u16, y: u16) -> u16 {
    wrap16(
        (y / 2) * 80 + x / 4 + if y % 2 == 1 {
            8192int
        } else {
            0
        },
    )
}

/// The two colour bits moved to the place of pixel `x` in its byte.
pub open spec fn cga_place(color: u8, x: u16) -> u8 {
    if x % 4 == 0 {
        (color & 3) << 6
    } else if x % 4 == 1 {
        (color & 3) << 4
    } else if x % 4 == 2 {
        (color & 3) << 2
    } else {
        color & 3
    }
}

/// The mask that clears the bits of pixel `x` in its byte.
pub open spec fn cga_mask(x: u16) -> u8 {
    if x % 4 == 0 {
        0x3F
    } else if x % 4 == 1 {
        0xCF
    } else if x % 4 == 2 {
        0xF3
    } else {
        0xFC
    }
}

/// 16 KiB CGA modes: the byte after pixel `x` was written. A colour with
/// bit 7 set is XORed onto the pixel.
pub open spec fn cga16_byte(old: u8, x: u16, color: u8) -> u8 {
    if color & 0x80 != 0 {
        old ^ cga_place(color, x)
    } else {
        (old & cga_mask(x)) | cga_place(color, x)
    }
}

/// 32 KiB modes: the byte offset of the word that holds pixel (`x`, `y`).
pub open spec fn cga32_offset(x: u16, y: u16) -> u16 {
    wrap16((y / 4) * 160 + (x / 8) * 2 + 8192 * (y % 4))
}

/// 32 KiB modes: the word after pixel `x` was written; the low colour bit
/// goes to the low byte, the high colour bit to the high byte.
pub open spec fn cga32_word(old: u16, x: u16, color: u8) -> u16 {
    let bit = (7 - x % 8) as u16;
    let low = ((color & 1) as u16) << bit;
    let high = (((color & 2) >> 1) as u16) << ((bit + 8) as u16);
    if color & 0x80 != 0 {
        (old ^ low) ^ high
    } else {
        ((old & !(0x101u16 << bit)) | low) | high
    }
}

/// The segment of the 32 KiB modes: on a PCjr the page that the page
/// register names, else B800h.
pub open spec fn cga32_segment(mem: Seq<u8>, card: GraphicCard) -> u16 {
    if card == GraphicCard::PCJr {
        (((bda8(mem, 0x8A) / 8) % 8) * 1024) as u16
    } else {
        0xB800
    }
}

/// Memory after pixel (`x`, `y`) was given `color`.
pub open spec fn pixel_written(
    mem: Seq<u8>,
    kind: GFXMode,
    card: GraphicCard,
    x: u16,
    y: u16,
    color: u8,
) -> Seq<u8> {
    match kind {
        GFXMode::CGA4 => if bda8(mem, 0x49) <= 5 {
            let at = flat(0xB800, cga16_offset(x, y));
            mem.update(at, cga16_byte(mem[at], x, color))
        } else {
            let at = flat(cga32_segment(mem, card), cga32_offset(x, y));
            store16(mem, at, cga32_word(le16(mem, at) as u16, x, color))
        },
        GFXMode::VGA => mem.update(flat(0xA000, wrap16(y * 320 + x)), color),
        _ => mem,
    }
}

/// Memory after the first `k` pixels of a glyph row were written from the
/// left: a set bit of `bitline` gives `attr`, a clear one `attr` masked.
pub open spec fn row_drawn(
    mem: Seq<u8>,
    kind: GFXMode,
    card: GraphicCard,
    x: u16,
    y: u16,
    bitline: u8,
    attr: u8,
    xor_mask: u8,
    k: nat,
) -> Seq<u8>
    decreases k,
{
    if k == 0 {
        mem
    } else {
        let m = row_drawn(mem, kind, card, x, y, bitline, attr, xor_mask, (k - 1) as nat);
        pixel_written(
            m,
            kind,
            card,
            wrap16(x + k - 1),
            y,
            if bit_set(bitline, k) {
                attr
            } else {
                attr & xor_mask
            },
        )
    }
}

/// Whether pixel `k` (1 to 8, from the left) of a glyph row is set.
pub open spec fn bit_set(bitline: u8, k: nat) -> bool {
    (bitline as int / top_weight(k)) % 2 == 1
}

/// The weight of bit `k` counted from the top bit of a byte: 128 for 1.
pub open spec fn top_weight(k: nat) -> int {
    if k <= 1 {
        128
    } else if k == 2 {
        64
    } else if k == 3 {
        32
    } else if k == 4 {
        16
    } else if k == 5 {
        8
    } else if k == 6 {
        4
    } else if k == 7 {
        2
    } else {
        1
    }
}

/// The byte at `seg:off`; outside memory it reads as 0.
pub open spec fn byte_or_zero(mem: Seq<u8>, seg: u16, off: u16) -> u8 {
    if in_range(seg, off, 1) {
        mem[flat(seg, off)]
    } else {
        0
    }
}

/// Memory after the first `n` rows of the glyph at `seg:off` were drawn with
/// the top left corner at (`x`, `y`).
pub open spec fn glyph_drawn(
    mem: Seq<u8>,
    kind: GFXMode,
    card: GraphicCard,
    seg: u16,
    off: u16,
    x: u16,
    y: u16,
    attr: u8,
    xor_mask: u8,
    n: nat,
) -> Seq<u8>
    decreases n,
{
    if n == 0 {
        mem
    } else {
        let m = glyph_drawn(mem, kind, card, seg, off, x, y, attr, xor_mask, (n - 1) as nat);
        row_drawn(
            m,
            kind,
            card,
            x,
            wrap16(y + n - 1),
            byte_or_zero(m, seg, wrap16(off + n - 1)),
            attr,
            xor_mask,
            8,
        )
    }
}

/// Where the glyph of `chr` lies: (segment, offset). The font is the one
/// that interrupt vector 43h points at; in the CGA modes the characters from
/// 80h on come from the font of vector 1Fh.
pub open spec fn glyph_address(mem: Seq<u8>, kind: GFXMode, chr: u8) -> (u16, u16) {
    let height = bda8(mem, 0x85);
    if (kind == GFXMode::CGA4 || kind == GFXMode::CGA2 || kind == GFXMode::TANDY16) && chr >= 0x80 {
        (le16(mem, 0x7E) as u16, wrap16(le16(mem, 0x7C) + (chr - 0x80) * height))
    } else {
        (le16(mem, 0x10E) as u16, wrap16(le16(mem, 0x10C) + chr * height))
    }
}

/// The colour that a glyph is drawn in: the attribute, or without one the
/// brightest colour of the mode; mode 6 keeps only the XOR bit.
pub open spec fn glyph_attr(mode: VideoModeBlock, attr: u8, use_attr: bool) -> u8 {
    let a: u8 = if use_attr {
        attr
    } else if mode.kind == GFXMode::CGA4 {
        0x3
    } else if mode.kind == GFXMode::CGA2 {
        0x1
    } else {
        0x7
    };
    if mode.mode == 6 {
        (a & 0x80) | 1
    } else {
        a
    }
}

/// Text modes: flat address of the cell (`col`, `row`) of a page.
pub open spec fn cell_address(mem: Seq<u8>, mode: VideoModeBlock, col: u16, row: u16, page: u8) -> int {
    mode.pstart + page_start(mem, page) + wrap16((row * bda16(mem, 0x4A) + col) * 2)
}

/// Memory after the character `chr` was written at cell (`col`, `row`) of
/// `page`: in a text mode the character byte and, if asked, the attribute
/// byte of the cell; in a graphics mode the pixels of its glyph.
pub open spec fn char_written(
    mem: Seq<u8>,
    mode: VideoModeBlock,
    card: GraphicCard,
    col: u16,
    row: u16,
    page: u8,
    chr: u8,
    attr: u8,
    use_attr: bool,
) -> Seq<u8> {
    if mode.kind == GFXMode::TEXT {
        let at = cell_address(mem, mode, col, row, page);
        let m = mem.update(at, chr);
        if use_attr {
            m.update(at + 1, attr)
        } else {
            m
        }
    } else {
        let g = glyph_address(mem, mode.kind, chr);
        glyph_drawn(
            mem,
            mode.kind,
            card,
            g.0,
            g.1,
            wrap16(8 * col),
            wrap16(bda8(mem, 0x85) * row),
            glyph_attr(mode, attr, use_attr),
            if mode.kind == GFXMode::VGA {
                0
            } else {
                0x80
            },
            bda8(mem, 0x85) as nat,
        )
    }
}

fn place(color: u8, x: u16) -> (r: u8)
    ensures
        r == cga_place(color, x),
{
    if x % 4 == 0 {
        (color & 3) << 6
    } else if x % 4 == 1 {
        (color & 3) << 4
    } else if x % 4 == 2 {
        (color & 3) << 2
    } else {
        color & 3
    }
}

fn mask(x: u16) -> (r: u8)
    ensures
        r == cga_mask(x),
{
    if x % 4 == 0 {
        0x3F
    } else if x % 4 == 1 {
        0xCF
    } else if x % 4 == 2 {
        0xF3
    } else {
        0xFC
    }
}

fn word32(old: u16, x: u16, color: u8) -> (r: u16)
    ensures
        r == cga32_word(old, x, color),
{
    let bit: u16 = 7 - x % 8;
    let low: u16 = ((color & 1) as u16) << bit;
    let high: u16 = (((color & 2) >> 1) as u16) << (bit + 8);
    if color & 0x80 != 0 {
        (old ^ low) ^ high
    } else {
        ((old & !(0x101u16 << bit)) | low) | high
    }
}

fn weight_of(k: u8) -> (r: u8)
    requires
        1 <= k <= 8,
    ensures
        r == top_weight(k as nat),
        r > 0,
{
    if k <= 1 {
        128
    } else if k == 2 {
        64
    } else if k == 3 {
        32
    } else if k == 4 {
        16
    } else if k == 5 {
        8
    } else if k == 6 {
        4
    } else if k == 7 {
        2
    } else {
        1
    }
}

/// The byte at `seg:off`, or 0 outside memory.
pub fn read_or_zero(mmu: &MMU, seg: u16, off: u16) -> (r: u8)
    requires
        mmu.wf(),
    ensures
        r == byte_or_zero(mmu@, seg, off),
{
    if MMU::check_range(seg, off, 1) {
        mmu.read_u8(seg, off)
    } else {
        0
    }
}

impl GPU {
    /// int 10h, ah = 0Ch: WRITE GRAPHICS PIXEL.
    /// color: if bit 7 is set, the value is XORed onto the screen, except in
    /// 256-colour modes.
    pub fn write_pixel(&mut self, mmu: &mut MMU, x: u16, y: u16, _page: u8, color: u8)
        requires
            old(mmu).wf(),
            draws(old(self).mode.kind),
        ensures
            final(mmu).wf(),
            final(mmu)@ == pixel_written(
                old(mmu)@,
                old(self).mode.kind,
                old(self).card,
                x,
                y,
                color,
            ),
            *final(self) == *old(self),
    {
        match self.mode.kind {
            GFXMode::CGA4 => {
                if mmu.read_u8(DATA_SEG, DATA_CURRENT_MODE) <= 5 {
                    let bank: u32 = if y % 2 == 1 {
                        8192
                    } else {
                        0
                    };
                    let off: u16 = (((y / 2) as u32 * 80 + (x / 4) as u32 + bank) % 0x1_0000) as u16;
                    let old_byte = mmu.read_u8(0xB800, off);
                    let new_byte = if color & 0x80 != 0 {
                        old_byte ^ place(color, x)
                    } else {
                        (old_byte & mask(x)) | place(color, x)
                    };
                    mmu.write_u8(0xB800, off, new_byte);
                } else {
                    let seg: u16 = if self.card.is_pc_jr() {
                        let cpupage = (mmu.read_u8(DATA_SEG, DATA_CRTCPU_PAGE) / 8) % 8;
                        cpupage as u16 * 1024
                    } else {
                        0xB800
                    };
                    let off: u16 = (((y / 4) as u32 * 160 + (x / 8) as u32 * 2 + 8192 * (y % 4) as u32)
                        % 0x1_0000) as u16;
                    let old_word = mmu.read_u16(seg, off);
                    mmu.write_u16(seg, off, word32(old_word, x, color));
                }
            },
            GFXMode::VGA => {
                let off: u16 = ((y as u32 * 320 + x as u32) % 0x1_0000) as u16;
                mmu.write_u8(0xA000, off, color);
            },
            _ => {},
        }
    }

    /// One row of a glyph.
    fn draw_row(&mut self, mmu: &mut MMU, x: u16, y: u16, bitline: u8, attr: u8, xor_mask: u8)
        requires
            old(mmu).wf(),
            draws(old(self).mode.kind),
        ensures
            final(mmu).wf(),
            final(mmu)@ == row_drawn(
                old(mmu)@,
                old(self).mode.kind,
                old(self).card,
                x,
                y,
                bitline,
                attr,
                xor_mask,
                8,
            ),
            *final(self) == *old(self),
    {
        let mut k: u8 = 0;
        while k < 8
            invariant
                k <= 8,
                mmu.wf(),
                *self == *old(self),
                draws(self.mode.kind),
                mmu@ == row_drawn(
                    old(mmu)@,
                    self.mode.kind,
                    self.card,
                    x,
                    y,
                    bitline,
                    attr,
                    xor_mask,
                    k as nat,
                ),
            decreases 8 - k,
        {
            k += 1;
            let on = (bitline / weight_of(k)) % 2 == 1;
            let tx = add16(x, (k - 1) as u16);
            self.write_pixel(
                mmu,
                tx,
                y,
                0,
                if on {
                    attr
                } else {
                    attr & xor_mask
                },
            );
        }
    }

    /// The rows of a glyph.
    fn draw_glyph(
        &mut self,
        mmu: &mut MMU,
        seg: u16,
        off: u16,
        x: u16,
        y: u16,
        attr: u8,
        xor_mask: u8,
        height: u8,
    )
        requires
            old(mmu).wf(),
            draws(old(self).mode.kind),
        ensures
            final(mmu).wf(),
            final(mmu)@ == glyph_drawn(
                old(mmu)@,
                old(self).mode.kind,
                old(self).card,
                seg,
                off,
                x,
                y,
                attr,
                xor_mask,
                height as nat,
            ),
            *final(self) == *old(self),
    {
        let mut n: u8 = 0;
        while n < height
            invariant
                n <= height,
                mmu.wf(),
                *self == *old(self),
                draws(self.mode.kind),
                mmu@ == glyph_drawn(
                    old(mmu)@,
                    self.mode.kind,
                    self.card,
                    seg,
                    off,
                    x,
                    y,
                    attr,
                    xor_mask,
                    n as nat,
                ),
            decreases height - n,
        {
            let line = read_or_zero(mmu, seg, add16(off, n as u16));
            self.draw_row(mmu, x, add16(y, n as u16), line, attr, xor_mask);
            n += 1;
        }
    }

    /// Writes one character at a cell of a page.
    pub fn write_char_internal(
        &mut self,
        mmu: &mut MMU,
        col: u16,
        row: u16,
        page: u8,
        chr: u16,
        attr: u8,
        use_attr: bool,
    )
        requires
            old(mmu).wf(),
            old(self).mode.wf(),
            draws(old(self).mode.kind),
        ensures
            final(mmu).wf(),
            final(mmu)@ == char_written(
                old(mmu)@,
                old(self).mode,
                old(self).card,
                col,
                row,
                page,
                (chr % 256) as u8,
                attr,
                use_attr,
            ),
            *final(self) == *old(self),
    {
        let chr: u8 = (chr % 256) as u8;
        let cheight = mmu.read_u8(DATA_SEG, DATA_CHAR_HEIGHT);
        match self.mode.kind {
            GFXMode::TEXT => {
                let size = mmu.read_u16(DATA_SEG, DATA_PAGE_SIZE);
                let ncols = mmu.read_u16(DATA_SEG, DATA_NB_COLS);
                let start: u32 = product(page as u16, size) % 0x1_0000;
                let cell: u64 = ((product(row, ncols) as u64 + col as u64) * 2) % 0x1_0000;
                let dst: u32 = self.mode.pstart + start + cell as u32;
                mmu.memory.write_u8(dst, chr);
                if use_attr {
                    mmu.memory.write_u8(dst + 1, attr);
                }
            },
            _ => {
                let cga = match self.mode.kind {
                    GFXMode::CGA4 | GFXMode::CGA2 | GFXMode::TANDY16 => true,
                    _ => false,
                };
                let font = if cga && chr >= 0x80 {
                    let v = mmu.read_vec(0x1F);
                    (v.0, ((v.1 as u32 + product((chr - 0x80) as u16, cheight as u16)) % 0x1_0000) as u16)
                } else {
                    let v = mmu.read_vec(0x43);
                    (v.0, ((v.1 as u32 + product(chr as u16, cheight as u16)) % 0x1_0000) as u16)
                };
                let mut a: u8 = if use_attr {
                    attr
                } else {
                    match self.mode.kind {
                        GFXMode::CGA4 => 0x3,
                        GFXMode::CGA2 => 0x1,
                        _ => 0x7,
                    }
                };
                if self.mode.mode == 6 {
                    a = (a & 0x80) | 1;
                }
                let x: u16 = ((8 * col as u32) % 0x1_0000) as u16;
                let y: u16 = (product(cheight as u16, row) % 0x1_0000) as u16;
                let xor_mask: u8 = match self.mode.kind {
                    GFXMode::VGA => 0,
                    _ => 0x80,
                };
                self.draw_glyph(mmu, font.0, font.1, x, y, a, xor_mask, cheight);
            },
        }
    }
}

} // verus!
