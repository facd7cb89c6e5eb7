//! Character output with a moving cursor: teletype output, repeated
//! characters and strings.
use vstd::prelude::*;
use crate::address::{add16, wrap16};
use crate::bios::{
    bda16, bda8, cursor_col, cursor_pos_col, cursor_pos_row, cursor_row, DATA_NB_COLS, DATA_NB_ROWS,
    DATA_PAGE_SIZE, DATA_SEG,
};
use crate::gpu::{crtc_cursor_set, cursor_set, page_start, product, GPU};
use crate::crtc::CRTC;
use crate::memory::{Memory, MEMORY_SIZE};
use crate::mmu::MMU;
use crate::modes::{GFXMode, GraphicCard, VideoModeBlock};
use crate::pixel::{byte_or_zero, char_written, draws, read_or_zero};

verus! {

/// What character output changes: memory and the registers of the CRT
/// controller.
pub struct Screen {
    pub mem: Seq<u8>,
    pub regs: Seq<u8>,
}

/// Flat address of the first cell of a page.
pub open spec fn page_base(mem: Seq<u8>, mode: VideoModeBlock, page: u8) -> int {
    mode.pstart + page_start(mem, page)
}

/// Bytes of one text row.
pub open spec fn row_bytes(mem: Seq<u8>) -> int {
    bda16(mem, 0x4A) * 2
}

/// Bytes of all text rows of a page.
pub open spec fn rows_bytes(mem: Seq<u8>) -> int {
    (bda8(mem, 0x84) + 1) * row_bytes(mem)
}

/// Whether the rows of the page lie inside memory, so that they can scroll.
pub open spec fn scroll_fits(mem: Seq<u8>, mode: VideoModeBlock, page: u8) -> bool {
    page_base(mem, mode, page) + rows_bytes(mem) <= MEMORY_SIZE
}

/// Memory after the text of a page scrolled up by one row: every row takes
/// the content of the row below, and the last row is blank with attribute
/// 7. A page that does not lie inside memory does not scroll.
pub open spec fn scrolled(mem: Seq<u8>, mode: VideoModeBlock, page: u8) -> Seq<u8> {
    let base = page_base(mem, mode, page);
    let line = row_bytes(mem);
    let total = rows_bytes(mem);
    if !scroll_fits(mem, mode, page) {
        mem
    } else {
        Seq::new(
            mem.len(),
            |i: int|
                if base <= i < base + total - line {
                    mem[i + line]
                } else if base + total - line <= i < base + total {
                    if (i - base) % 2 == 0 {
                        0x20u8
                    } else {
                        0x07u8
                    }
                } else {
                    mem[i]
                },
        )
    }
}

/// The screen after teletype output of `chr` on `page`: backspace, carriage
/// return and line feed move the cursor, any other character is written at
/// the cursor, which then moves right. Past the last column the cursor goes
/// to the start of the next row; past the last row it stays on the last row
/// and, in a text mode, the page scrolls up.
pub open spec fn teletyped(
    s: Screen,
    mode: VideoModeBlock,
    card: GraphicCard,
    chr: u8,
    attr: u8,
    page: u8,
    use_attr: bool,
) -> Screen {
    let ncols = bda16(s.mem, 0x4A) as int;
    let nrows = bda8(s.mem, 0x84) + 1;
    let row0 = cursor_row(s.mem, page) as int;
    let col0 = cursor_col(s.mem, page) as int;
    let written = chr != 8 && chr != 13 && chr != 10;
    let m1 = if written {
        char_written(s.mem, mode, card, col0 as u16, row0 as u16, page, chr, attr, use_attr)
    } else {
        s.mem
    };
    let row1 = if chr == 10 {
        row0 + 1
    } else {
        row0
    };
    let col1 = if chr == 8 {
        if col0 > 0 {
            col0 - 1
        } else {
            col0
        }
    } else if chr == 13 {
        0
    } else if chr == 10 {
        col0
    } else {
        col0 + 1
    };
    let wrap = col1 == ncols;
    let row2 = if wrap {
        row1 + 1
    } else {
        row1
    };
    let col2 = if wrap {
        0
    } else {
        col1
    };
    let bottom = row2 == nrows;
    let m3 = if bottom && mode.kind == GFXMode::TEXT {
        scrolled(m1, mode, page)
    } else {
        m1
    };
    let row3 = if bottom {
        row2 - 1
    } else {
        row2
    };
    Screen {
        mem: cursor_set(m3, (row3 % 256) as u8, (col2 % 256) as u8, page),
        regs: crtc_cursor_set(s.regs, m3, (row3 % 256) as u8, (col2 % 256) as u8, page),
    }
}

/// Memory and cursor after `k` copies of `chr` were written from cell
/// (`col`, `row`) on, on a screen `ncols` wide: (memory, column, row).
pub open spec fn chars_written(
    mem: Seq<u8>,
    mode: VideoModeBlock,
    card: GraphicCard,
    col: u8,
    row: u8,
    page: u8,
    chr: u8,
    attr: u8,
    use_attr: bool,
    ncols: u16,
    k: nat,
) -> (Seq<u8>, u8, u8)
    decreases k,
{
    if k == 0 {
        (mem, col, row)
    } else {
        let before = chars_written(
            mem,
            mode,
            card,
            col,
            row,
            page,
            chr,
            attr,
            use_attr,
            ncols,
            (k - 1) as nat,
        );
        let m = char_written(
            before.0,
            mode,
            card,
            before.1 as u16,
            before.2 as u16,
            page,
            chr,
            attr,
            use_attr,
        );
        let c = ((before.1 + 1) % 256) as u8;
        if c == ncols {
            (m, 0, ((before.2 + 1) % 256) as u8)
        } else {
            (m, c, before.2)
        }
    }
}

/// The page that a character is written to: in a graphics mode the page
/// number is taken modulo the number of pages on an EGA or VGA, and is 0 on
/// a CGA.
pub open spec fn write_page(mode: VideoModeBlock, card: GraphicCard, page: u8) -> u8 {
    if mode.spec_is_text() {
        page
    } else if card.spec_is_ega_vga() {
        page % mode.ptotal
    } else if card == GraphicCard::CGA {
        0
    } else {
        page
    }
}

/// Whether teletype output of `chr` only moves the cursor: backspace,
/// carriage return and line feed.
pub open spec fn moves_cursor(chr: u8) -> bool {
    chr == 8 || chr == 13 || chr == 10
}

/// Whether `chr` can go to teletype output in a mode of `kind`: a character
/// that is drawn needs a mode in which pixels can be written.
pub open spec fn typable(kind: GFXMode, chr: u8) -> bool {
    draws(kind) || moves_cursor(chr)
}

/// Screen, string offset and attribute after the first `k` characters of the
/// string at `seg:off` were sent to teletype output. With bit 1 of `flag`
/// set, each character is followed by its attribute.
pub open spec fn string_typed(
    s: Screen,
    mode: VideoModeBlock,
    card: GraphicCard,
    seg: u16,
    off: u16,
    attr: u8,
    flag: u8,
    page: u8,
    k: nat,
) -> (Screen, u16, u8)
    decreases k,
{
    if k == 0 {
        (s, off, attr)
    } else {
        let before = string_typed(s, mode, card, seg, off, attr, flag, page, (k - 1) as nat);
        let chr = byte_or_zero(before.0.mem, seg, before.1);
        let o2 = wrap16(before.1 + 1);
        if flag & 2 != 0 {
            let a = byte_or_zero(before.0.mem, seg, o2);
            (teletyped(before.0, mode, card, chr, a, page, true), wrap16(o2 + 1), a)
        } else {
            (teletyped(before.0, mode, card, chr, before.2, page, true), o2, before.2)
        }
    }
}

/// The character of the string that goes to teletype output after `k`
/// others.
pub open spec fn string_char(
    s: Screen,
    mode: VideoModeBlock,
    card: GraphicCard,
    seg: u16,
    off: u16,
    attr: u8,
    flag: u8,
    page: u8,
    k: nat,
) -> u8 {
    let before = string_typed(s, mode, card, seg, off, attr, flag, page, k);
    byte_or_zero(before.0.mem, seg, before.1)
}

/// Whether each of the first `k` characters of the string can go to
/// teletype output.
pub open spec fn string_typable(
    s: Screen,
    mode: VideoModeBlock,
    card: GraphicCard,
    seg: u16,
    off: u16,
    attr: u8,
    flag: u8,
    page: u8,
    k: nat,
) -> bool
    decreases k,
{
    k == 0 || (string_typable(s, mode, card, seg, off, attr, flag, page, (k - 1) as nat)
        && typable(
        mode.kind,
        string_char(s, mode, card, seg, off, attr, flag, page, (k - 1) as nat),
    ))
}

/// Among characters that can all be typed, each one can.
pub proof fn lemma_string_typable_at(
    s: Screen,
    mode: VideoModeBlock,
    card: GraphicCard,
    seg: u16,
    off: u16,
    attr: u8,
    flag: u8,
    page: u8,
    n: nat,
    k: nat,
)
    requires
        string_typable(s, mode, card, seg, off, attr, flag, page, n),
        k < n,
    ensures
        typable(mode.kind, string_char(s, mode, card, seg, off, attr, flag, page, k)),
    decreases n,
{
    if k + 1 < n {
        lemma_string_typable_at(s, mode, card, seg, off, attr, flag, page, (n - 1) as nat, k);
    }
}

/// Where pixels can be written, every string can be typed.
pub proof fn lemma_drawn_string_typable(
    s: Screen,
    mode: VideoModeBlock,
    card: GraphicCard,
    seg: u16,
    off: u16,
    attr: u8,
    flag: u8,
    page: u8,
    k: nat,
)
    requires
        draws(mode.kind),
    ensures
        string_typable(s, mode, card, seg, off, attr, flag, page, k),
    decreases k,
{
    if k > 0 {
        lemma_drawn_string_typable(s, mode, card, seg, off, attr, flag, page, (k - 1) as nat);
    }
}

/// The screen on which a string starts: the cursor of the page stands at
/// (`row`, `col`), or stays where it is if `row` is FFh.
pub open spec fn string_start(s: Screen, row: u8, col: u8, page: u8) -> Screen {
    let r = if row == 0xFF {
        cursor_row(s.mem, page)
    } else {
        row
    };
    let c = if row == 0xFF {
        cursor_col(s.mem, page)
    } else {
        col
    };
    Screen { mem: cursor_set(s.mem, r, c, page), regs: crtc_cursor_set(s.regs, s.mem, r, c, page) }
}

/// Whether `chr` can go to teletype output in a mode of `kind`.
pub fn is_typable(kind: GFXMode, chr: u8) -> (r: bool)
    ensures
        r == typable(kind, chr),
{
    let drawn = match kind {
        GFXMode::TEXT | GFXMode::CGA4 | GFXMode::VGA => true,
        _ => false,
    };
    drawn || chr == 8 || chr == 13 || chr == 10
}

impl GPU {
    pub open spec fn screen(&self, mmu: &MMU) -> Screen {
        Screen { mem: mmu@, regs: self.crtc@ }
    }

    /// Scrolls the text of a page up by one row.
    fn scroll_up(&self, mmu: &mut MMU, page: u8)
        requires
            old(mmu).wf(),
            self.mode.wf(),
        ensures
            final(mmu).wf(),
            final(mmu)@ == scrolled(old(mmu)@, self.mode, page),
    {
        let ncols = mmu.read_u16(DATA_SEG, DATA_NB_COLS);
        let nrows: u32 = mmu.read_u8(DATA_SEG, DATA_NB_ROWS) as u32 + 1;
        let size = mmu.read_u16(DATA_SEG, DATA_PAGE_SIZE);
        let base: u32 = self.mode.pstart + product(page as u16, size) % 0x1_0000;
        let line: u32 = ncols as u32 * 2;
        assert(nrows * line <= 256 * 0x2_0000) by (nonlinear_arith)
            requires
                0 <= nrows <= 256,
                0 <= line <= 0x2_0000,
        ;
        let total: u32 = nrows * line;
        assert(total >= line) by (nonlinear_arith)
            requires
                total == nrows * line,
                nrows >= 1,
                line >= 0,
        ;
        if base as u64 + total as u64 > MEMORY_SIZE as u64 {
            return ;
        }
        let ghost start = mmu@;
        let moved: u32 = total - line;
        let mut i: u32 = 0;
        while i < moved
            invariant
                i <= moved,
                moved == total - line,
                base + total <= MEMORY_SIZE,
                mmu.wf(),
                start.len() == MEMORY_SIZE,
                forall|k: int|
                    0 <= k < MEMORY_SIZE ==> #[trigger] mmu@[k] == if base <= k < base + i {
                        start[k + line]
                    } else {
                        start[k]
                    },
            decreases moved - i,
        {
            let ghost prev = mmu@;
            let b = mmu.memory.read_u8(base + i + line);
            mmu.memory.write_u8(base + i, b);
            assert forall|k: int| 0 <= k < MEMORY_SIZE implies #[trigger] mmu@[k] == if base <= k
                < base + i + 1 {
                start[k + line]
            } else {
                start[k]
            } by {
                if k != base + i {
                    assert(mmu@[k] == prev[k]);
                }
            }
            i += 1;
        }
        let mut j: u32 = moved;
        while j < total
            invariant
                moved <= j <= total,
                moved == total - line,
                base + total <= MEMORY_SIZE,
                mmu.wf(),
                start.len() == MEMORY_SIZE,
                forall|k: int|
                    0 <= k < MEMORY_SIZE ==> #[trigger] mmu@[k] == if base <= k < base + moved {
                        start[k + line]
                    } else if base + moved <= k < base + j {
                        if (k - base) % 2 == 0 {
                            0x20u8
                        } else {
                            0x07u8
                        }
                    } else {
                        start[k]
                    },
            decreases total - j,
        {
            let ghost prev = mmu@;
            let b: u8 = if j % 2 == 0 {
                0x20
            } else {
                0x07
            };
            mmu.memory.write_u8(base + j, b);
            assert forall|k: int| 0 <= k < MEMORY_SIZE implies #[trigger] mmu@[k] == if base <= k
                < base + moved {
                start[k + line]
            } else if base + moved <= k < base + j + 1 {
                if (k - base) % 2 == 0 {
                    0x20u8
                } else {
                    0x07u8
                }
            } else {
                start[k]
            } by {
                if k != base + j {
                    assert(mmu@[k] == prev[k]);
                }
            }
            j += 1;
        }
        assert(mmu@ =~= scrolled(start, self.mode, page));
    }

    /// Teletype output of one character.
    pub fn teletype_output_attr(&mut self, mmu: &mut MMU, chr: u8, attr: u8, page: u8, use_attr: bool)
        requires
            old(mmu).wf(),
            old(self).wf(),
            typable(old(self).mode.kind, chr),
        ensures
            final(mmu).wf(),
            final(self).screen(final(mmu)) == teletyped(
                old(self).screen(old(mmu)),
                old(self).mode,
                old(self).card,
                chr,
                attr,
                page,
                use_attr,
            ),
            final(self).same_but_crtc(old(self)),
    {
        let ncols = mmu.read_u16(DATA_SEG, DATA_NB_COLS);
        let nrows: u16 = mmu.read_u8(DATA_SEG, DATA_NB_ROWS) as u16 + 1;
        let mut cur_row: u16 = cursor_pos_row(mmu, page) as u16;
        let mut cur_col: u16 = cursor_pos_col(mmu, page) as u16;
        if chr == 8 {
            if cur_col > 0 {
                cur_col -= 1;
            }
        } else if chr == 13 {
            cur_col = 0;
        } else if chr == 10 {
            cur_row += 1;
        } else {
            self.write_char_internal(mmu, cur_col, cur_row, page, chr as u16, attr, use_attr);
            cur_col += 1;
        }
        if cur_col == ncols {
            cur_col = 0;
            cur_row += 1;
        }
        if cur_row == nrows {
            if self.mode.is_text() {
                self.scroll_up(mmu, page);
            }
            cur_row -= 1;
        }
        self.set_cursor_pos(mmu, (cur_row % 256) as u8, (cur_col % 256) as u8, page);
    }

    /// int 10h, ah = 0Eh: TELETYPE OUTPUT.
    /// Displays a character on the screen, advancing the cursor and
    /// scrolling the screen as necessary. The attribute counts in graphics
    /// modes only.
    pub fn teletype_output(&mut self, mmu: &mut MMU, chr: u8, page: u8, attr: u8)
        requires
            old(mmu).wf(),
            old(self).wf(),
            typable(old(self).mode.kind, chr),
        ensures
            final(mmu).wf(),
            final(self).screen(final(mmu)) == teletyped(
                old(self).screen(old(mmu)),
                old(self).mode,
                old(self).card,
                chr,
                attr,
                page,
                old(self).mode.kind != GFXMode::TEXT,
            ),
            final(self).same_but_crtc(old(self)),
    {
        let use_attr = !self.mode.is_text();
        self.teletype_output_attr(mmu, chr, attr, page, use_attr);
    }

    /// int 10h, ah = 0Ah: WRITE CHARACTER ONLY AT CURSOR POSITION, `count`
    /// times; the cursor stays.
    pub fn write_char(&mut self, mmu: &mut MMU, chr: u16, attr: u8, page: u8, count: u16, showattr: bool)
        requires
            old(mmu).wf(),
            old(self).wf(),
            draws(old(self).mode.kind),
        ensures
            final(mmu).wf(),
            *final(self) == *old(self),
            final(mmu)@ == ({
                let p = write_page(old(self).mode, old(self).card, page);
                chars_written(
                    old(mmu)@,
                    old(self).mode,
                    old(self).card,
                    cursor_col(old(mmu)@, p),
                    cursor_row(old(mmu)@, p),
                    p,
                    (chr % 256) as u8,
                    attr,
                    showattr || !old(self).mode.spec_is_text(),
                    bda16(old(mmu)@, 0x4A),
                    count as nat,
                ).0
            }),
    {
        let mut page = page;
        let mut showattr = showattr;
        if !self.mode.is_text() {
            showattr = true;
            match self.card {
                GraphicCard::EGA | GraphicCard::VGA => {
                    page = page % self.mode.ptotal;
                },
                GraphicCard::CGA => {
                    page = 0;
                },
                _ => {},
            }
        }
        let mut cur_row = cursor_pos_row(mmu, page);
        let mut cur_col = cursor_pos_col(mmu, page);
        let ncols = mmu.read_u16(DATA_SEG, DATA_NB_COLS);
        let ghost first_col = cur_col;
        let ghost first_row = cur_row;
        let mut k: u16 = 0;
        while k < count
            invariant
                k <= count,
                mmu.wf(),
                *self == *old(self),
                self.wf(),
                draws(self.mode.kind),
                (mmu@, cur_col, cur_row) == chars_written(
                    old(mmu)@,
                    self.mode,
                    self.card,
                    first_col,
                    first_row,
                    page,
                    (chr % 256) as u8,
                    attr,
                    showattr,
                    ncols,
                    k as nat,
                ),
            decreases count - k,
        {
            self.write_char_internal(mmu, cur_col as u16, cur_row as u16, page, chr, attr, showattr);
            k += 1;
            cur_col = ((cur_col as u16 + 1) % 256) as u8;
            if cur_col as u16 == ncols {
                cur_col = 0;
                cur_row = ((cur_row as u16 + 1) % 256) as u8;
            }
        }
    }

    /// Whether WRITE STRING can be performed with these arguments: whether
    /// each character of the string can go to teletype output. The string
    /// is typed on trial where the mode does not settle it; memory and
    /// adapter are as before afterwards.
    pub fn can_write_string(
        &mut self,
        mmu: &mut MMU,
        row: u8,
        col: u8,
        flag: u8,
        attr: u8,
        str_seg: u16,
        str_off: u16,
        count: u16,
        page: u8,
    ) -> (r: bool)
        requires
            old(mmu).wf(),
            old(self).wf(),
        ensures
            final(mmu).wf(),
            final(mmu)@ == old(mmu)@,
            *final(self) == *old(self),
            r == string_typable(
                string_start(old(self).screen(old(mmu)), row, col, page),
                old(self).mode,
                old(self).card,
                str_seg,
                str_off,
                attr,
                flag,
                page,
                count as nat,
            ),
    {
        let ghost before = string_start(self.screen(mmu), row, col, page);
        if is_typable(self.mode.kind, 0) {
            proof {
                lemma_drawn_string_typable(
                    before,
                    self.mode,
                    self.card,
                    str_seg,
                    str_off,
                    attr,
                    flag,
                    page,
                    count as nat,
                );
            }
            return true;
        }
        let saved = mmu.memory.snapshot();
        let index = self.crtc.index;
        let registers = self.crtc.registers;
        let mut row = row;
        let mut col = col;
        if row == 0xFF {
            row = cursor_pos_row(mmu, page);
            col = cursor_pos_col(mmu, page);
        }
        self.set_cursor_pos(mmu, row, col, page);
        let ghost s0 = self.screen(mmu);
        let mut off = str_off;
        let mut a = attr;
        let mut k: u16 = 0;
        let mut all = true;
        while k < count
            invariant_except_break
                all,
                string_typable(s0, self.mode, self.card, str_seg, str_off, attr, flag, page, k as nat),
                (self.screen(mmu), off, a) == string_typed(
                    s0,
                    self.mode,
                    self.card,
                    str_seg,
                    str_off,
                    attr,
                    flag,
                    page,
                    k as nat,
                ),
            invariant
                k <= count,
                mmu.wf(),
                self.wf(),
                self.same_but_crtc(old(self)),
                s0 == before,
            ensures
                mmu.wf(),
                self.same_but_crtc(old(self)),
                all == string_typable(
                    s0,
                    self.mode,
                    self.card,
                    str_seg,
                    str_off,
                    attr,
                    flag,
                    page,
                    count as nat,
                ),
            decreases count - k,
        {
            let chr = read_or_zero(mmu, str_seg, off);
            if !is_typable(self.mode.kind, chr) {
                proof {
                    if string_typable(
                        s0,
                        self.mode,
                        self.card,
                        str_seg,
                        str_off,
                        attr,
                        flag,
                        page,
                        count as nat,
                    ) {
                        lemma_string_typable_at(
                            s0,
                            self.mode,
                            self.card,
                            str_seg,
                            str_off,
                            attr,
                            flag,
                            page,
                            count as nat,
                            k as nat,
                        );
                    }
                }
                all = false;
                break ;
            }
            off = add16(off, 1);
            if flag & 2 != 0 {
                a = read_or_zero(mmu, str_seg, off);
                off = add16(off, 1);
            }
            self.teletype_output_attr(mmu, chr, a, page, true);
            k += 1;
        }
        mmu.memory = Memory { memory: saved };
        self.crtc = CRTC { index, registers };
        all
    }

    /// int 10h, ah = 13h: WRITE STRING.
    /// The string at `str_seg:str_off` goes to teletype output from
    /// (`row`, `col`) on, or from the cursor if `row` is FFh. Unless bit 0 of
    /// `flag` is set, the cursor returns to where it was.
    pub fn write_string(
        &mut self,
        mmu: &mut MMU,
        row: u8,
        col: u8,
        flag: u8,
        attr: u8,
        str_seg: u16,
        str_off: u16,
        count: u16,
        page: u8,
    )
        requires
            old(mmu).wf(),
            old(self).wf(),
            string_typable(
                string_start(old(self).screen(old(mmu)), row, col, page),
                old(self).mode,
                old(self).card,
                str_seg,
                str_off,
                attr,
                flag,
                page,
                count as nat,
            ),
        ensures
            final(mmu).wf(),
            final(self).same_but_crtc(old(self)),
            final(self).screen(final(mmu)) == ({
                let m0 = old(mmu)@;
                let cur_row = cursor_row(m0, page);
                let cur_col = cursor_col(m0, page);
                let s0 = string_start(old(self).screen(old(mmu)), row, col, page);
                let s1 = string_typed(
                    s0,
                    old(self).mode,
                    old(self).card,
                    str_seg,
                    str_off,
                    attr,
                    flag,
                    page,
                    count as nat,
                ).0;
                if flag & 1 == 0 {
                    Screen {
                        mem: cursor_set(s1.mem, cur_row, cur_col, page),
                        regs: crtc_cursor_set(s1.regs, s1.mem, cur_row, cur_col, page),
                    }
                } else {
                    s1
                }
            }),
    {
        let cur_row = cursor_pos_row(mmu, page);
        let cur_col = cursor_pos_col(mmu, page);
        let mut row = row;
        let mut col = col;
        if row == 0xFF {
            row = cur_row;
            col = cur_col;
        }
        self.set_cursor_pos(mmu, row, col, page);
        let ghost s0 = self.screen(mmu);
        let mut off = str_off;
        let mut a = attr;
        let mut k: u16 = 0;
        while k < count
            invariant
                k <= count,
                mmu.wf(),
                self.wf(),
                self.same_but_crtc(old(self)),
                string_typable(
                    s0,
                    self.mode,
                    self.card,
                    str_seg,
                    str_off,
                    attr,
                    flag,
                    page,
                    count as nat,
                ),
                (self.screen(mmu), off, a) == string_typed(
                    s0,
                    self.mode,
                    self.card,
                    str_seg,
                    str_off,
                    attr,
                    flag,
                    page,
                    k as nat,
                ),
            decreases count - k,
        {
            proof {
                lemma_string_typable_at(
                    s0,
                    self.mode,
                    self.card,
                    str_seg,
                    str_off,
                    attr,
                    flag,
                    page,
                    count as nat,
                    k as nat,
                );
            }
            let chr = read_or_zero(mmu, str_seg, off);
            off = add16(off, 1);
            if flag & 2 != 0 {
                a = read_or_zero(mmu, str_seg, off);
                off = add16(off, 1);
            }
            self.teletype_output_attr(mmu, chr, a, page, true);
            k += 1;
        }
        if flag & 1 == 0 {
            self.set_cursor_pos(mmu, cur_row, cur_col, page);
        }
    }
}

} // verus!
