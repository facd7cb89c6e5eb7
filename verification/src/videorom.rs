//! The video BIOS ROM at segment C000h: signature, fonts, the table of
//! static functionality, and the tables that the BIOS data area points at.
//!
//! The fonts and the video parameter table are data of the adapter that is
//! emulated; whoever sets the machine up supplies them.
use vstd::prelude::*;
use crate::address::{flat, MemoryAddress};
use crate::bios::{bda, DATA_SEG, DATA_VS_POINTER};
use crate::gpu::{GPU, Video};
use crate::memory::{splice, store16, store32};
use crate::mmu::MMU;
use crate::modes::GraphicCard;
use crate::modeset::vector_set;

verus! {

/// Segment of the video BIOS ROM.
pub const VIDEO_ROM_SEG: u16 = 0xC000;

/// Bytes of the 8x8 font: 256 characters of 8 rows.
pub const FONT_08_SIZE: usize = 2048;

/// Bytes of the 8x14 font.
pub const FONT_14_SIZE: usize = 3584;

/// Bytes of the 8x16 font.
pub const FONT_16_SIZE: usize = 4096;

/// The most bytes that a video parameter table can have.
pub const MAX_PARAMETERS: usize = 0x2000;

/// The data of a video ROM.
pub struct VideoRom {
    pub font_08: Vec<u8>,
    pub font_14: Vec<u8>,
    pub font_16: Vec<u8>,
    /// the video parameter table of the card
    pub parameters: Vec<u8>,
}

impl VideoRom {
    pub open spec fn wf(&self) -> bool {
        &&& self.font_08@.len() == FONT_08_SIZE
        &&& self.font_14@.len() == FONT_14_SIZE
        &&& self.font_16@.len() == FONT_16_SIZE
        &&& self.parameters@.len() <= MAX_PARAMETERS
    }
}

/// The static functionality table: what the adapter supports.
pub open spec fn static_functionality() -> Seq<u8> {
    seq![
        0xffu8, 0xff, 0x0f, 0x00, 0x00, 0x00, 0x00, 0x07, 0x04, 0x02, 0xff, 0x0e, 0x00, 0x00, 0x00,
        0x00,
    ]
}

/// The display combination codes.
pub open spec fn display_codes() -> Seq<u16> {
    seq![
        0x0000u16, 0x0100, 0x0200, 0x0102, 0x0400, 0x0104, 0x0500, 0x0502, 0x0600, 0x0601, 0x0605,
        0x0800, 0x0801, 0x0700, 0x0702, 0x0706,
    ]
}

/// The copyright notice of the ROM.
pub open spec fn copyright(card: GraphicCard) -> Seq<u8> {
    if card.spec_is_vga() {
        seq![
            0x49u8, 0x42, 0x4D, 0x20, 0x63, 0x6F, 0x6D, 0x70, 0x61, 0x74, 0x69, 0x62, 0x6C, 0x65,
            0x20, 0x56, 0x47, 0x41, 0x20, 0x42, 0x49, 0x4F, 0x53, 0x00,
        ]
    } else {
        seq![
            0x49u8, 0x42, 0x4D, 0x20, 0x63, 0x6F, 0x6D, 0x70, 0x61, 0x74, 0x69, 0x62, 0x6C, 0x65,
            0x20, 0x45, 0x47, 0x41, 0x20, 0x42, 0x49, 0x4F, 0x53, 0x00,
        ]
    }
}

/// Memory, and the place in the ROM segment where the next byte goes.
pub struct Cursor {
    pub mem: Seq<u8>,
    pub off: u16,
}

impl Cursor {
    /// The address of the cursor.
    pub open spec fn addr(self) -> MemoryAddress {
        MemoryAddress::RealSegmentOffset(VIDEO_ROM_SEG, self.off)
    }

    pub open spec fn at(self) -> int {
        flat(VIDEO_ROM_SEG, self.off)
    }

    pub open spec fn moved(self, n: int) -> u16 {
        crate::address::wrap16(self.off + n)
    }

    #[verifier::opaque]
    pub open spec fn put8(self, b: u8) -> Cursor {
        Cursor { mem: self.mem.update(self.at(), b), off: self.moved(1) }
    }

    #[verifier::opaque]
    pub open spec fn put16(self, v: u16) -> Cursor {
        Cursor { mem: store16(self.mem, self.at(), v), off: self.moved(2) }
    }

    #[verifier::opaque]
    pub open spec fn put32(self, v: u32) -> Cursor {
        Cursor { mem: store32(self.mem, self.at(), v), off: self.moved(4) }
    }

    #[verifier::opaque]
    pub open spec fn put_bytes(self, data: Seq<u8>) -> Cursor {
        Cursor { mem: splice(self.mem, self.at(), data), off: self.moved(data.len() as int) }
    }

    /// The first `k` words of a table, one after the other.
    pub open spec fn put_words(self, words: Seq<u16>, k: nat) -> Cursor
        decreases k,
    {
        if k == 0 {
            self
        } else {
            self.put_words(words, (k - 1) as nat).put16(words[k - 1])
        }
    }

    /// The head of the ROM of an EGA or VGA: signature, size in blocks of
    /// 512 bytes, entry point, and the copyright notice at offset 1Eh; the
    /// fonts start at offset 100h.
    pub open spec fn header(self, card: GraphicCard) -> Cursor {
        let c = self.put16(0xAA55).put8(0x40).put8(0xFE).put8(0x38).put16(0).put8(0xCB);
        Cursor { mem: splice(c.mem, flat(VIDEO_ROM_SEG, 0x1E), copyright(card)), off: 0x100 }
    }
}

/// What the ROM looks like after the fonts were placed: memory, the cursor,
/// and where the fonts lie.
pub struct Placed {
    pub cursor: Cursor,
    pub video: Video,
}

/// The ROM with its fonts: the first half of the 8x8 font on every card; on
/// an EGA or VGA the second half and the 8x14 font; on a VGA the 8x16 font
/// and the static functionality table.
pub open spec fn fonts_placed(c: Cursor, v: Video, rom: &VideoRom) -> Placed {
    let c1 = c.put_bytes(rom.font_08@.subrange(0, 1024));
    let v1 = Video { font_8_first: c.addr(), ..v };
    if !v.card.spec_is_ega_vga() {
        Placed { cursor: c1, video: v1 }
    } else {
        let c2 = c1.put_bytes(rom.font_08@.subrange(1024, 2048));
        let c3 = c2.put_bytes(rom.font_14@);
        let v3 = Video { font_8_second: c1.addr(), font_14: c2.addr(), ..v1 };
        if !v.card.spec_is_vga() {
            Placed { cursor: c3, video: v3 }
        } else {
            let c4 = c3.put_bytes(rom.font_16@);
            let c5 = c4.put_bytes(static_functionality());
            Placed {
                cursor: c5,
                video: Video { font_16: c3.addr(), static_config: c4.addr(), ..v3 },
            }
        }
    }
}

/// The ROM with its tables, on an EGA or VGA: the video parameter table; on
/// a VGA the display combination table and the secondary save pointer
/// table; then the save pointer table, to which the BIOS data area points.
pub open spec fn tables_placed(c: Cursor, v: Video, rom: &VideoRom) -> Placed {
    let c1 = c.put_bytes(rom.parameters@);
    let v1 = Video { video_parameter_table: c.addr(), ..v };
    let vga = v.card.spec_is_vga();
    let c2 = if vga {
        c1.put8(0x10).put8(1).put8(8).put8(0).put_words(display_codes(), 16)
    } else {
        c1
    };
    let v2 = if vga {
        Video { video_dcc_table: c1.addr(), ..v1 }
    } else {
        v1
    };
    let c3 = if vga {
        c2.put16(0x1A).put32(c1.at() as u32).put32(0).put32(0).put32(0).put32(0).put32(0)
    } else {
        c2
    };
    let c4 = Cursor { mem: store32(c3.mem, bda(0xA8), c3.at() as u32), off: c3.off };
    let c5 = c4.put32(c.at() as u32).put32(0).put32(0).put32(0);
    let c6 = if vga {
        c5.put32(c2.at() as u32)
    } else {
        c5
    };
    let c7 = Cursor { mem: c6.mem, off: c6.moved(4) };
    Placed { cursor: c7.put32(0).put32(0), video: v2 }
}

/// The machine after the video ROM was installed.
pub open spec fn rom_installed(mem: Seq<u8>, v: Video, rom: &VideoRom) -> Placed {
    let start = Cursor { mem, off: 3 };
    let c0 = if v.card.spec_is_ega_vga() {
        start.header(v.card)
    } else {
        start
    };
    let f = fonts_placed(c0, v, rom);
    let c1 = Cursor {
        mem: vector_set(f.cursor.mem, 0x1F, f.video.font_8_second),
        off: f.cursor.off,
    };
    let v1 = Video { font_14_alternate: c1.addr(), font_16_alternate: c1.addr(), ..f.video };
    let c2 = c1.put8(0);
    let t = if v.card.spec_is_ega_vga() {
        tables_placed(c2, v1, rom)
    } else {
        Placed { cursor: c2, video: v1 }
    };
    if v.card == GraphicCard::Tandy {
        Placed {
            cursor: Cursor {
                mem: vector_set(t.cursor.mem, 0x44, t.video.font_8_first),
                off: t.cursor.off,
            },
            video: t.video,
        }
    } else {
        t
    }
}

/// Whether memory and an address are what a cursor says.
pub open spec fn cursor_is(c: Cursor, mmu: &MMU, addr: MemoryAddress) -> bool {
    c.mem == mmu@ && addr == c.addr()
}

fn put8(mmu: &mut MMU, addr: &mut MemoryAddress, b: u8, Ghost(c): Ghost<Cursor>)
    requires
        old(mmu).wf(),
        cursor_is(c, old(mmu), *old(addr)),
    ensures
        final(mmu).wf(),
        cursor_is(c.put8(b), final(mmu), *final(addr)),
{
    reveal(Cursor::put8);
    mmu.write_u8_inc(addr, b);
}

fn put16(mmu: &mut MMU, addr: &mut MemoryAddress, v: u16, Ghost(c): Ghost<Cursor>)
    requires
        old(mmu).wf(),
        cursor_is(c, old(mmu), *old(addr)),
    ensures
        final(mmu).wf(),
        cursor_is(c.put16(v), final(mmu), *final(addr)),
{
    reveal(Cursor::put16);
    mmu.write_u16_inc(addr, v);
}

fn put32(mmu: &mut MMU, addr: &mut MemoryAddress, v: u32, Ghost(c): Ghost<Cursor>)
    requires
        old(mmu).wf(),
        cursor_is(c, old(mmu), *old(addr)),
    ensures
        final(mmu).wf(),
        cursor_is(c.put32(v), final(mmu), *final(addr)),
{
    reveal(Cursor::put32);
    mmu.write_u32_inc(addr, v);
}

fn put_bytes(mmu: &mut MMU, addr: &mut MemoryAddress, data: &[u8], Ghost(c): Ghost<Cursor>)
    requires
        old(mmu).wf(),
        cursor_is(c, old(mmu), *old(addr)),
        data@.len() <= 0x1_0000,
    ensures
        final(mmu).wf(),
        cursor_is(c.put_bytes(data@), final(mmu), *final(addr)),
{
    reveal(Cursor::put_bytes);
    mmu.write(addr.segment(), addr.offset(), data);
    let n = data.len();
    if n == 0x1_0000 {
        assert(c.moved(0x1_0000) == c.off);
    } else {
        addr.inc_n(n as u16);
    }
}

impl GPU {
    /// Writes the video parameter table of the card at `addr`, which moves
    /// past it; returns the size of the table.
    pub fn setup_video_parameter_table(
        &mut self,
        mmu: &mut MMU,
        addr: &mut MemoryAddress,
        table: &[u8],
    ) -> (n: u16)
        requires
            old(mmu).wf(),
            table@.len() <= MAX_PARAMETERS,
            *old(addr) == MemoryAddress::RealSegmentOffset(VIDEO_ROM_SEG, old(addr).spec_offset()),
        ensures
            final(mmu).wf(),
            *final(self) == *old(self),
            n == table@.len(),
            cursor_is(
                (Cursor { mem: old(mmu)@, off: old(addr).spec_offset() }).put_bytes(table@),
                final(mmu),
                *final(addr),
            ),
    {
        let ghost c = Cursor { mem: mmu@, off: addr.spec_offset() };
        put_bytes(mmu, addr, table, Ghost(c));
        table.len() as u16
    }

    /// Places the fonts in the ROM.
    fn place_fonts(
        &mut self,
        mmu: &mut MMU,
        addr: &mut MemoryAddress,
        rom: &VideoRom,
        Ghost(c): Ghost<Cursor>,
    )
        requires
            old(mmu).wf(),
            rom.wf(),
            cursor_is(c, old(mmu), *old(addr)),
        ensures
            final(mmu).wf(),
            cursor_is(fonts_placed(c, old(self)@, rom).cursor, final(mmu), *final(addr)),
            final(self)@ == fonts_placed(c, old(self)@, rom).video,
            final(self).wf() == old(self).wf(),
    {
        self.font_8_first = *addr;
        put_bytes(mmu, addr, vstd::slice::slice_subrange(rom.font_08.as_slice(), 0, 1024), Ghost(c));
        let ghost c1 = c.put_bytes(rom.font_08@.subrange(0, 1024));
        if self.card.is_ega_vga() {
            self.font_8_second = *addr;
            put_bytes(
                mmu,
                addr,
                vstd::slice::slice_subrange(rom.font_08.as_slice(), 1024, 2048),
                Ghost(c1),
            );
            let ghost c2 = c1.put_bytes(rom.font_08@.subrange(1024, 2048));
            self.font_14 = *addr;
            put_bytes(mmu, addr, rom.font_14.as_slice(), Ghost(c2));
            let ghost c3 = c2.put_bytes(rom.font_14@);
            if self.card.is_vga() {
                self.font_16 = *addr;
                put_bytes(mmu, addr, rom.font_16.as_slice(), Ghost(c3));
                let ghost c4 = c3.put_bytes(rom.font_16@);
                self.static_config = *addr;
                let table: [u8; 16] = [
                    0xff, 0xff, 0x0f, 0x00, 0x00, 0x00, 0x00, 0x07, 0x04, 0x02, 0xff, 0x0e, 0x00,
                    0x00, 0x00, 0x00,
                ];
                assert(table@ =~= static_functionality());
                put_bytes(mmu, addr, table.as_slice(), Ghost(c4));
            }
        }
    }

    /// Places the tables of an EGA or VGA in the ROM.
    fn place_tables(
        &mut self,
        mmu: &mut MMU,
        addr: &mut MemoryAddress,
        rom: &VideoRom,
        Ghost(c): Ghost<Cursor>,
    )
        requires
            old(mmu).wf(),
            rom.wf(),
            cursor_is(c, old(mmu), *old(addr)),
        ensures
            final(mmu).wf(),
            cursor_is(tables_placed(c, old(self)@, rom).cursor, final(mmu), *final(addr)),
            final(self)@ == tables_placed(c, old(self)@, rom).video,
            final(self).wf() == old(self).wf(),
    {
        let vga = self.card.is_vga();
        let parameters = addr.value();
        self.video_parameter_table = *addr;
        let _ = self.setup_video_parameter_table(mmu, addr, rom.parameters.as_slice());
        let ghost c1 = c.put_bytes(rom.parameters@);
        let mut save_pointer: u32 = 0;
        let ghost mut c3 = c1;
        if vga {
            self.video_dcc_table = *addr;
            let dcc = addr.value();
            put8(mmu, addr, 0x10, Ghost(c1));
            put8(mmu, addr, 1, Ghost(c1.put8(0x10)));
            put8(mmu, addr, 8, Ghost(c1.put8(0x10).put8(1)));
            put8(mmu, addr, 0, Ghost(c1.put8(0x10).put8(1).put8(8)));
            let ghost c1d = c1.put8(0x10).put8(1).put8(8).put8(0);
            let codes: [u16; 16] = [
                0x0000, 0x0100, 0x0200, 0x0102, 0x0400, 0x0104, 0x0500, 0x0502, 0x0600, 0x0601,
                0x0605, 0x0800, 0x0801, 0x0700, 0x0702, 0x0706,
            ];
            assert(codes@ =~= display_codes());
            let mut k: usize = 0;
            while k < 16
                invariant
                    k <= 16,
                    mmu.wf(),
                    codes@ == display_codes(),
                    cursor_is(c1d.put_words(display_codes(), k as nat), mmu, *addr),
                decreases 16 - k,
            {
                put16(mmu, addr, codes[k], Ghost(c1d.put_words(display_codes(), k as nat)));
                k += 1;
            }
            let ghost c2 = c1d.put_words(display_codes(), 16);
            save_pointer = addr.value();
            put16(mmu, addr, 0x1A, Ghost(c2));
            put32(mmu, addr, dcc, Ghost(c2.put16(0x1A)));
            put32(mmu, addr, 0, Ghost(c2.put16(0x1A).put32(dcc)));
            put32(mmu, addr, 0, Ghost(c2.put16(0x1A).put32(dcc).put32(0)));
            put32(mmu, addr, 0, Ghost(c2.put16(0x1A).put32(dcc).put32(0).put32(0)));
            put32(mmu, addr, 0, Ghost(c2.put16(0x1A).put32(dcc).put32(0).put32(0).put32(0)));
            put32(
                mmu,
                addr,
                0,
                Ghost(c2.put16(0x1A).put32(dcc).put32(0).put32(0).put32(0).put32(0)),
            );
            proof {
                c3 = c2.put16(0x1A).put32(dcc).put32(0).put32(0).put32(0).put32(0).put32(0);
            }
        }
        mmu.write_u32(DATA_SEG, DATA_VS_POINTER, addr.value());
        let ghost c4 = Cursor { mem: mmu@, off: c3.off };
        put32(mmu, addr, parameters, Ghost(c4));
        put32(mmu, addr, 0, Ghost(c4.put32(parameters)));
        put32(mmu, addr, 0, Ghost(c4.put32(parameters).put32(0)));
        put32(mmu, addr, 0, Ghost(c4.put32(parameters).put32(0).put32(0)));
        let ghost c5 = c4.put32(parameters).put32(0).put32(0).put32(0);
        let ghost mut c6 = c5;
        if vga {
            put32(mmu, addr, save_pointer, Ghost(c5));
            proof {
                c6 = c5.put32(save_pointer);
            }
        }
        addr.inc_u32();
        let ghost c7 = Cursor { mem: c6.mem, off: c6.moved(4) };
        put32(mmu, addr, 0, Ghost(c7));
        put32(mmu, addr, 0, Ghost(c7.put32(0)));
    }

    /// Installs the video ROM and records where its parts lie.
    pub fn init(&mut self, mmu: &mut MMU, rom: &VideoRom)
        requires
            old(mmu).wf(),
            rom.wf(),
        ensures
            final(mmu).wf(),
            final(mmu)@ == rom_installed(old(mmu)@, old(self)@, rom).cursor.mem,
            final(self)@ == rom_installed(old(mmu)@, old(self)@, rom).video,
            final(self).wf() == old(self).wf(),
    {
        let mut addr = MemoryAddress::RealSegmentOffset(VIDEO_ROM_SEG, 3);
        let ghost start = Cursor { mem: mmu@, off: 3 };
        let ghost mut c0 = start;
        if self.card.is_ega_vga() {
            let size = self.video_bios_size();
            put16(mmu, &mut addr, 0xAA55, Ghost(start));
            put8(mmu, &mut addr, (size / 512) as u8, Ghost(start.put16(0xAA55)));
            put8(mmu, &mut addr, 0xFE, Ghost(start.put16(0xAA55).put8(0x40)));
            put8(mmu, &mut addr, 0x38, Ghost(start.put16(0xAA55).put8(0x40).put8(0xFE)));
            put16(mmu, &mut addr, 0, Ghost(start.put16(0xAA55).put8(0x40).put8(0xFE).put8(0x38)));
            put8(
                mmu,
                &mut addr,
                0xCB,
                Ghost(start.put16(0xAA55).put8(0x40).put8(0xFE).put8(0x38).put16(0)),
            );
            if self.card.is_vga() {
                let notice: [u8; 24] = [
                    0x49, 0x42, 0x4D, 0x20, 0x63, 0x6F, 0x6D, 0x70, 0x61, 0x74, 0x69, 0x62, 0x6C,
                    0x65, 0x20, 0x56, 0x47, 0x41, 0x20, 0x42, 0x49, 0x4F, 0x53, 0x00,
                ];
                assert(notice@ =~= copyright(self.card));
                mmu.write(VIDEO_ROM_SEG, 0x1E, notice.as_slice());
            } else {
                let notice: [u8; 24] = [
                    0x49, 0x42, 0x4D, 0x20, 0x63, 0x6F, 0x6D, 0x70, 0x61, 0x74, 0x69, 0x62, 0x6C,
                    0x65, 0x20, 0x45, 0x47, 0x41, 0x20, 0x42, 0x49, 0x4F, 0x53, 0x00,
                ];
                assert(notice@ =~= copyright(self.card));
                mmu.write(VIDEO_ROM_SEG, 0x1E, notice.as_slice());
            }
            addr.set_offset(0x100);
            proof {
                c0 = start.header(self.card);
            }
        }
        self.place_fonts(mmu, &mut addr, rom, Ghost(c0));
        let ghost f = fonts_placed(c0, old(self)@, rom);
        let second = self.font_8_second;
        mmu.write_vec(0x1F, &second);
        let ghost c1 = Cursor { mem: mmu@, off: f.cursor.off };
        self.font_14_alternate = addr;
        self.font_16_alternate = addr;
        put8(mmu, &mut addr, 0, Ghost(c1));
        if self.card.is_ega_vga() {
            self.place_tables(mmu, &mut addr, rom, Ghost(c1.put8(0)));
        }
        if self.card.is_tandy() {
            let first = self.font_8_first;
            mmu.write_vec(0x44, &first);
        }
    }
}

} // verus!
