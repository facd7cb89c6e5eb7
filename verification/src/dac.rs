//! The digital-to-analog converter of the VGA: 256 colours, read and written
//! one component at a time through an index that moves on by itself.
use vstd::prelude::*;
use crate::palette::{
    palette_color, palette_color_of, palette_len, scale6, scale6_of, ColorSpace, Palette,
};

verus! {

/// Component `k` of a colour: 0 is red, 1 green, 2 blue.
pub open spec fn component(c: ColorSpace, k: int) -> u8 {
    match c {
        ColorSpace::RGB(r, g, b) => if k == 0 {
            r
        } else if k == 1 {
            g
        } else {
            b
        },
    }
}

/// The colour with component `k` replaced.
pub open spec fn with_component(c: ColorSpace, k: int, v: u8) -> ColorSpace {
    match c {
        ColorSpace::RGB(r, g, b) => if k == 0 {
            ColorSpace::RGB(v, g, b)
        } else if k == 1 {
            ColorSpace::RGB(r, v, b)
        } else {
            ColorSpace::RGB(r, g, v)
        },
    }
}

/// The index after one more component: it moves to the next colour after
/// blue, and from 255 back to 0.
pub open spec fn next_index(index: u8, pel: u8) -> u8 {
    if pel == 2 {
        ((index + 1) % 256) as u8
    } else {
        index
    }
}

pub open spec fn next_pel(pel: u8) -> u8 {
    if pel == 2 {
        0
    } else {
        (pel + 1) as u8
    }
}

/// The DAC: 256 colours, and the state of the access through its ports.
pub struct DAC {
    pub pal: Vec<ColorSpace>,
    /// the colour that the next read takes a component from
    pub read_index: u8,
    /// the colour that the next write gives a component to
    pub write_index: u8,
    /// the component that is next
    pub pel_index: u8,
}

impl DAC {
    pub open spec fn wf(&self) -> bool {
        &&& self.pal@.len() == 256
        &&& self.pel_index < 3
    }

    /// All colours black but the first 64, which hold the text palette.
    pub fn default() -> (d: DAC)
        ensures
            d.wf(),
            d.read_index == 0 && d.write_index == 0 && d.pel_index == 0,
            forall|i: int| 0 <= i < 64 ==> d.pal@[i] == palette_color(Palette::Text, i as u8),
            forall|i: int| 64 <= i < 256 ==> d.pal@[i] == ColorSpace::RGB(0, 0, 0),
    {
        let mut d = DAC {
            pal: vec![ColorSpace::RGB(0, 0, 0);256],
            read_index: 0,
            write_index: 0,
            pel_index: 0,
        };
        d.load(Palette::Text);
        d
    }

    /// Replaces the first colours by those of the palette; the colours past
    /// its length are kept.
    pub fn load(&mut self, p: Palette)
        requires
            old(self).wf(),
        ensures
            final(self).wf(),
            final(self).read_index == old(self).read_index,
            final(self).write_index == old(self).write_index,
            final(self).pel_index == old(self).pel_index,
            forall|i: int|
                0 <= i < 256 ==> final(self).pal@[i] == if i < palette_len(p) {
                    palette_color(p, i as u8)
                } else {
                    old(self).pal@[i]
                },
    {
        let n: usize = match p {
            Palette::Text => 64,
            Palette::Cga2 => 2,
            Palette::Cga4 => 16,
            Palette::Ega => 64,
            Palette::Vga => 256,
        };
        let mut i: usize = 0;
        while i < n
            invariant
                n == palette_len(p),
                i <= n,
                self.wf(),
                self.read_index == old(self).read_index,
                self.write_index == old(self).write_index,
                self.pel_index == old(self).pel_index,
                forall|k: int|
                    0 <= k < 256 ==> self.pal@[k] == if k < i {
                        palette_color(p, k as u8)
                    } else {
                        old(self).pal@[k]
                    },
            decreases n - i,
        {
            self.pal[i] = palette_color_of(p, i as u8);
            i += 1;
        }
    }

    pub fn set_pel_write_index(&mut self, index: u8)
        ensures
            final(self).pal == old(self).pal,
            final(self).read_index == old(self).read_index,
            final(self).write_index == index,
            final(self).pel_index == 0,
    {
        self.write_index = index;
        self.pel_index = 0;
    }

    pub fn set_pel_read_index(&mut self, index: u8)
        ensures
            final(self).pal == old(self).pal,
            final(self).write_index == old(self).write_index,
            final(self).read_index == index,
            final(self).pel_index == 0,
    {
        self.read_index = index;
        self.pel_index = 0;
    }

    /// Writes the next component, a 6-bit value, of the colour at the write
    /// index.
    pub fn set_pel_data(&mut self, v: u8)
        requires
            old(self).wf(),
        ensures
            final(self).wf(),
            final(self).pal@ == old(self).pal@.update(
                old(self).write_index as int,
                with_component(
                    old(self).pal@[old(self).write_index as int],
                    old(self).pel_index as int,
                    scale6(v),
                ),
            ),
            final(self).write_index == next_index(old(self).write_index, old(self).pel_index),
            final(self).pel_index == next_pel(old(self).pel_index),
            final(self).read_index == old(self).read_index,
    {
        let at = self.write_index as usize;
        let s = scale6_of(v);
        let c = match self.pal[at] {
            ColorSpace::RGB(r, g, b) => if self.pel_index == 0 {
                ColorSpace::RGB(s, g, b)
            } else if self.pel_index == 1 {
                ColorSpace::RGB(r, s, b)
            } else {
                ColorSpace::RGB(r, g, s)
            },
        };
        self.pal[at] = c;
        if self.pel_index == 2 {
            self.pel_index = 0;
            self.write_index = ((self.write_index as u16 + 1) % 256) as u8;
        } else {
            self.pel_index = self.pel_index + 1;
        }
    }

    /// Reads the next component of the colour at the read index, as a 6-bit
    /// value.
    pub fn get_pel_data(&mut self) -> (v: u8)
        requires
            old(self).wf(),
        ensures
            final(self).wf(),
            v == component(old(self).pal@[old(self).read_index as int], old(self).pel_index as int)
                / 4,
            final(self).pal == old(self).pal,
            final(self).read_index == next_index(old(self).read_index, old(self).pel_index),
            final(self).pel_index == next_pel(old(self).pel_index),
            final(self).write_index == old(self).write_index,
    {
        let at = self.read_index as usize;
        let v = match self.pal[at] {
            ColorSpace::RGB(r, g, b) => if self.pel_index == 0 {
                r
            } else if self.pel_index == 1 {
                g
            } else {
                b
            },
        };
        if self.pel_index == 2 {
            self.pel_index = 0;
            self.read_index = ((self.read_index as u16 + 1) % 256) as u8;
        } else {
            self.pel_index = self.pel_index + 1;
        }
        v / 4
    }

    /// Writes the three components of the colour at the write index.
    pub fn write_rgb(&mut self, r: u8, g: u8, b: u8)
        requires
            old(self).wf(),
            old(self).pel_index == 0,
        ensures
            final(self).wf(),
            final(self).pal@ == old(self).pal@.update(
                old(self).write_index as int,
                crate::palette::color6((r, g, b)),
            ),
            final(self).write_index == ((old(self).write_index + 1) % 256) as u8,
            final(self).pel_index == 0,
            final(self).read_index == old(self).read_index,
    {
        self.set_pel_data(r);
        self.set_pel_data(g);
        self.set_pel_data(b);
        assert(self.pal@ =~= old(self).pal@.update(
            old(self).write_index as int,
            crate::palette::color6((r, g, b)),
        ));
    }

    /// Reads the three components of the colour at the read index, 6 bits
    /// each.
    pub fn read_rgb(&mut self) -> (c: (u8, u8, u8))
        requires
            old(self).wf(),
            old(self).pel_index == 0,
        ensures
            final(self).wf(),
            c.0 == component(old(self).pal@[old(self).read_index as int], 0) / 4,
            c.1 == component(old(self).pal@[old(self).read_index as int], 1) / 4,
            c.2 == component(old(self).pal@[old(self).read_index as int], 2) / 4,
            final(self).pal == old(self).pal,
            final(self).read_index == ((old(self).read_index + 1) % 256) as u8,
            final(self).pel_index == 0,
            final(self).write_index == old(self).write_index,
    {
        let r = self.get_pel_data();
        let g = self.get_pel_data();
        let b = self.get_pel_data();
        (r, g, b)
    }
}

} // verus!
