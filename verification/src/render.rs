//! The frame composer: the picture that the video memory shows in the two
//! graphics modes that are rendered, as width * height * 3 bytes of red,
//! green and blue.
use vstd::prelude::*;
use crate::dac::component;
use crate::gpu::GPU;
use crate::memory::MEMORY_SIZE;
use crate::mmu::MMU;
use crate::palette::ColorSpace;

verus! {

/// Flat address of the linear frame buffer of mode 13h.
pub const VGA_BASE: usize = 0xA_0000;

/// Flat address of the two interleaved banks of mode 04h.
pub const CGA_BASE: usize = 0xB_8000;

/// Mode 04h: flat address of the byte that holds pixel (`x`, `y`). Even
/// scan lines are in the first bank, odd ones in the second, 2000h further;
/// a line is 80 bytes, a byte four pixels.
pub open spec fn cga_offset(x: int, y: int) -> int {
    CGA_BASE + (y % 2) * 0x2000 + 80 * (y / 2) + x / 4
}

/// Mode 04h: the two bits of pixel `x` in its byte; the leftmost pixel is in
/// the top two bits.
pub open spec fn cga_bits(byte: u8, x: int) -> int {
    let weight: int = if x % 4 == 0 {
        64
    } else if x % 4 == 1 {
        16
    } else if x % 4 == 2 {
        4
    } else {
        1
    };
    (byte as int / weight) % 4
}

/// Mode 04h: the DAC colour for a 2-bit pixel value, in the palette of
/// black, cyan, magenta and white.
pub open spec fn cga_color_index(bits: int) -> int {
    if bits == 0 {
        0
    } else if bits == 1 {
        3
    } else if bits == 2 {
        5
    } else {
        7
    }
}

/// Byte `j` of the frame of mode 13h: component `j` % 3 of the colour that
/// the byte of pixel `j` / 3 selects.
pub open spec fn vga_frame_byte(mem: Seq<u8>, pal: Seq<ColorSpace>, j: int) -> u8 {
    component(pal[mem[VGA_BASE + j / 3] as int], j % 3)
}

/// Byte `j` of the frame of mode 04h on a screen `width` pixels wide.
pub open spec fn cga_frame_byte(mem: Seq<u8>, pal: Seq<ColorSpace>, width: int, j: int) -> u8 {
    let p = j / 3;
    let x = p % width;
    let y = p / width;
    component(pal[cga_color_index(cga_bits(mem[cga_offset(x, y)], x))], j % 3)
}

fn color_bytes(c: ColorSpace) -> (r: (u8, u8, u8))
    ensures
        r.0 == component(c, 0),
        r.1 == component(c, 1),
        r.2 == component(c, 2),
{
    match c {
        ColorSpace::RGB(r, g, b) => (r, g, b),
    }
}

impl GPU {
    /// 320x200 in 4 colours (CGA): the frame of mode 04h.
    pub fn render_mode04_frame(&self, memory: &[u8]) -> (buf: Vec<u8>)
        requires
            self.wf(),
            memory@.len() == MEMORY_SIZE,
        ensures
            buf@.len() == self.mode.swidth * self.mode.sheight * 3,
            forall|j: int|
                0 <= j < buf@.len() ==> buf@[j] == cga_frame_byte(
                    memory@,
                    self.dac.pal@,
                    self.mode.swidth as int,
                    j,
                ),
    {
        let w: usize = self.mode.swidth as usize;
        let n: usize = (self.mode.swidth * self.mode.sheight) as usize;
        let mut buf: Vec<u8> = Vec::new();
        let mut p: usize = 0;
        while p < n
            invariant
                self.wf(),
                memory@.len() == MEMORY_SIZE,
                w == self.mode.swidth,
                n == self.mode.swidth * self.mode.sheight,
                p <= n,
                buf@.len() == p * 3,
                forall|j: int|
                    0 <= j < buf@.len() ==> buf@[j] == cga_frame_byte(
                        memory@,
                        self.dac.pal@,
                        w as int,
                        j,
                    ),
            decreases n - p,
        {
            let x: usize = p % w;
            let y: usize = p / w;
            assert(y < self.mode.sheight) by (nonlinear_arith)
                requires
                    y == p / w,
                    p < w * self.mode.sheight,
                    w > 0,
            ;
            let offset: usize = CGA_BASE + (y % 2) * 0x2000 + 80 * (y / 2) + x / 4;
            let byte = memory[offset];
            let weight: u8 = if x % 4 == 0 {
                64
            } else if x % 4 == 1 {
                16
            } else if x % 4 == 2 {
                4
            } else {
                1
            };
            let bits: u8 = (byte / weight) % 4;
            let index: usize = if bits == 0 {
                0
            } else if bits == 1 {
                3
            } else if bits == 2 {
                5
            } else {
                7
            };
            let c = color_bytes(self.dac.pal[index]);
            let ghost before = buf@;
            buf.push(c.0);
            buf.push(c.1);
            buf.push(c.2);
            assert forall|j: int| 0 <= j < buf@.len() implies buf@[j] == cga_frame_byte(
                memory@,
                self.dac.pal@,
                w as int,
                j,
            ) by {
                if j < p * 3 {
                    assert(buf@[j] == before[j]);
                } else {
                    assert(j / 3 == p);
                }
            }
            p += 1;
        }
        buf
    }

    /// 320x200 in 256 colours (VGA): the frame of mode 13h.
    pub fn render_mode13_frame(&self, memory: &[u8]) -> (buf: Vec<u8>)
        requires
            self.wf(),
            memory@.len() == MEMORY_SIZE,
        ensures
            buf@.len() == self.mode.swidth * self.mode.sheight * 3,
            forall|j: int|
                0 <= j < buf@.len() ==> buf@[j] == vga_frame_byte(memory@, self.dac.pal@, j),
    {
        let n: usize = (self.mode.swidth * self.mode.sheight) as usize;
        let mut buf: Vec<u8> = Vec::new();
        let mut p: usize = 0;
        while p < n
            invariant
                self.wf(),
                memory@.len() == MEMORY_SIZE,
                n == self.mode.swidth * self.mode.sheight,
                p <= n,
                buf@.len() == p * 3,
                forall|j: int|
                    0 <= j < buf@.len() ==> buf@[j] == vga_frame_byte(memory@, self.dac.pal@, j),
            decreases n - p,
        {
            let byte = memory[VGA_BASE + p];
            let c = color_bytes(self.dac.pal[byte as usize]);
            let ghost before = buf@;
            buf.push(c.0);
            buf.push(c.1);
            buf.push(c.2);
            assert forall|j: int| 0 <= j < buf@.len() implies buf@[j] == vga_frame_byte(
                memory@,
                self.dac.pal@,
                j,
            ) by {
                if j < p * 3 {
                    assert(buf@[j] == before[j]);
                } else {
                    assert(j / 3 == p);
                }
            }
            p += 1;
        }
        buf
    }

    /// The frame that a snapshot of memory shows in the current mode. Only
    /// modes 04h and 13h are rendered; in any other mode the frame is empty.
    pub fn render_frame(&self, mmu: &MMU) -> (buf: Vec<u8>)
        requires
            self.wf(),
            mmu.wf(),
        ensures
            self.mode.mode == 0x04 ==> buf@.len() == self.mode.swidth * self.mode.sheight * 3
                && forall|j: int|
                0 <= j < buf@.len() ==> buf@[j] == cga_frame_byte(
                    mmu@,
                    self.dac.pal@,
                    self.mode.swidth as int,
                    j,
                ),
            self.mode.mode == 0x13 ==> buf@.len() == self.mode.swidth * self.mode.sheight * 3
                && forall|j: int|
                0 <= j < buf@.len() ==> buf@[j] == vga_frame_byte(mmu@, self.dac.pal@, j),
            self.mode.mode != 0x04 && self.mode.mode != 0x13 ==> buf@.len() == 0,
    {
        let memory = mmu.dump_mem();
        if self.mode.mode == 0x04 {
            self.render_mode04_frame(memory.as_slice())
        } else if self.mode.mode == 0x13 {
            self.render_mode13_frame(memory.as_slice())
        } else {
            Vec::new()
        }
    }
}

} // verus!
