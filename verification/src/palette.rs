//! Colours and the palettes that a mode set loads into the DAC.
//!
//! The tables hold 6-bit components, as the DAC registers do; a colour of
//! the DAC holds them scaled to 8 bits.
use vstd::prelude::*;

verus! {

/// A colour.
#[derive(Clone, Copy, Debug, PartialEq, Eq, Structural)]
pub enum ColorSpace {
    RGB(u8, u8, u8),
}

/// A 6-bit component scaled to 8 bits: 0 stays 0 and 63 becomes 255.
pub open spec fn scale6(v: u8) -> u8 {
    ((v % 64) * 4 + (v % 64) / 16) as u8
}

pub fn scale6_of(v: u8) -> (r: u8)
    ensures
        r == scale6(v),
        r / 4 == v % 64,
{
    (v % 64) * 4 + (v % 64) / 16
}

/// The DAC colour of three 6-bit components.
pub open spec fn color6(t: (u8, u8, u8)) -> ColorSpace {
    ColorSpace::RGB(scale6(t.0), scale6(t.1), scale6(t.2))
}

pub fn color6_of(t: (u8, u8, u8)) -> (r: ColorSpace)
    ensures
        r == color6(t),
{
    ColorSpace::RGB(scale6_of(t.0), scale6_of(t.1), scale6_of(t.2))
}

/// The 16 colours of the CGA and EGA text palette, as 6-bit red, green and blue.
pub open spec fn cga_color(i: u8) -> (u8, u8, u8) {
    match i {
        0 => (0x00, 0x00, 0x00),
        1 => (0x00, 0x00, 0x2A),
        2 => (0x00, 0x2A, 0x00),
        3 => (0x00, 0x2A, 0x2A),
        4 => (0x2A, 0x00, 0x00),
        5 => (0x2A, 0x00, 0x2A),
        6 => (0x2A, 0x15, 0x00),
        7 => (0x2A, 0x2A, 0x2A),
        8 => (0x15, 0x15, 0x15),
        9 => (0x15, 0x15, 0x3F),
        10 => (0x15, 0x3F, 0x15),
        11 => (0x15, 0x3F, 0x3F),
        12 => (0x3F, 0x15, 0x15),
        13 => (0x3F, 0x15, 0x3F),
        14 => (0x3F, 0x3F, 0x15),
        _ => (0x3F, 0x3F, 0x3F),
    }
}

pub fn cga_color_of(i: u8) -> (r: (u8, u8, u8))
    ensures
        r == cga_color(i),
        r.0 < 64 && r.1 < 64 && r.2 < 64,
{
    match i {
        0 => (0x00, 0x00, 0x00),
        1 => (0x00, 0x00, 0x2A),
        2 => (0x00, 0x2A, 0x00),
        3 => (0x00, 0x2A, 0x2A),
        4 => (0x2A, 0x00, 0x00),
        5 => (0x2A, 0x00, 0x2A),
        6 => (0x2A, 0x15, 0x00),
        7 => (0x2A, 0x2A, 0x2A),
        8 => (0x15, 0x15, 0x15),
        9 => (0x15, 0x15, 0x3F),
        10 => (0x15, 0x3F, 0x15),
        11 => (0x15, 0x3F, 0x3F),
        12 => (0x3F, 0x15, 0x15),
        13 => (0x3F, 0x15, 0x3F),
        14 => (0x3F, 0x3F, 0x15),
        _ => (0x3F, 0x3F, 0x3F),
    }
}

/// Step `i` of the 16-step gray ramp of the VGA palette, 6 bits.
pub open spec fn gray_level(i: u8) -> u8 {
    match i {
        0 => 0x00,
        1 => 0x05,
        2 => 0x08,
        3 => 0x0B,
        4 => 0x0E,
        5 => 0x11,
        6 => 0x14,
        7 => 0x18,
        8 => 0x1C,
        9 => 0x20,
        10 => 0x24,
        11 => 0x28,
        12 => 0x2D,
        13 => 0x32,
        14 => 0x38,
        _ => 0x3F,
    }
}

pub fn gray_level_of(i: u8) -> (r: u8)
    ensures
        r == gray_level(i),
        r < 64,
{
    match i {
        0 => 0x00,
        1 => 0x05,
        2 => 0x08,
        3 => 0x0B,
        4 => 0x0E,
        5 => 0x11,
        6 => 0x14,
        7 => 0x18,
        8 => 0x1C,
        9 => 0x20,
        10 => 0x24,
        11 => 0x28,
        12 => 0x2D,
        13 => 0x32,
        14 => 0x38,
        _ => 0x3F,
    }
}

/// Level `step` (0 to 4) of colour ramp `ramp` of the VGA palette: ramps 0 to 2 are
/// the bright group at full, half and low saturation, 3 to 5 the medium group, 6 to
/// 8 the dark group.
pub open spec fn ramp_level(ramp: u8, step: u8) -> u8 {
    match ramp {
        0 => match step {
            0 => 0x00,
            1 => 0x10,
            2 => 0x1F,
            3 => 0x2F,
            _ => 0x3F,
        },
        1 => match step {
            0 => 0x1F,
            1 => 0x27,
            2 => 0x2F,
            3 => 0x37,
            _ => 0x3F,
        },
        2 => match step {
            0 => 0x2D,
            1 => 0x31,
            2 => 0x36,
            3 => 0x3A,
            _ => 0x3F,
        },
        3 => match step {
            0 => 0x00,
            1 => 0x07,
            2 => 0x0E,
            3 => 0x15,
            _ => 0x1C,
        },
        4 => match step {
            0 => 0x0E,
            1 => 0x11,
            2 => 0x15,
            3 => 0x18,
            _ => 0x1C,
        },
        5 => match step {
            0 => 0x14,
            1 => 0x16,
            2 => 0x18,
            3 => 0x1A,
            _ => 0x1C,
        },
        6 => match step {
            0 => 0x00,
            1 => 0x04,
            2 => 0x08,
            3 => 0x0C,
            _ => 0x10,
        },
        7 => match step {
            0 => 0x08,
            1 => 0x0A,
            2 => 0x0C,
            3 => 0x0E,
            _ => 0x10,
        },
        _ => match step {
            0 => 0x0B,
            1 => 0x0C,
            2 => 0x0D,
            3 => 0x0F,
            _ => 0x10,
        },
    }
}

pub fn ramp_level_of(ramp: u8, step: u8) -> (r: u8)
    ensures
        r == ramp_level(ramp, step),
        r < 64,
{
    match ramp {
        0 => match step {
            0 => 0x00,
            1 => 0x10,
            2 => 0x1F,
            3 => 0x2F,
            _ => 0x3F,
        },
        1 => match step {
            0 => 0x1F,
            1 => 0x27,
            2 => 0x2F,
            3 => 0x37,
            _ => 0x3F,
        },
        2 => match step {
            0 => 0x2D,
            1 => 0x31,
            2 => 0x36,
            3 => 0x3A,
            _ => 0x3F,
        },
        3 => match step {
            0 => 0x00,
            1 => 0x07,
            2 => 0x0E,
            3 => 0x15,
            _ => 0x1C,
        },
        4 => match step {
            0 => 0x0E,
            1 => 0x11,
            2 => 0x15,
            3 => 0x18,
            _ => 0x1C,
        },
        5 => match step {
            0 => 0x14,
            1 => 0x16,
            2 => 0x18,
            3 => 0x1A,
            _ => 0x1C,
        },
        6 => match step {
            0 => 0x00,
            1 => 0x04,
            2 => 0x08,
            3 => 0x0C,
            _ => 0x10,
        },
        7 => match step {
            0 => 0x08,
            1 => 0x0A,
            2 => 0x0C,
            3 => 0x0E,
            _ => 0x10,
        },
        _ => match step {
            0 => 0x0B,
            1 => 0x0C,
            2 => 0x0D,
            3 => 0x0F,
            _ => 0x10,
        },
    }
}

/// One component of an EGA colour number: two thirds if the bit of weight
/// `high` is set plus one third if the bit of weight `low` is set.
pub open spec fn ega_part(i: u8, high: u8, low: u8) -> u8 {
    (if (i / high) % 2 == 1 {
        0x2Aint
    } else {
        0
    } + if (i / low) % 2 == 1 {
        0x15int
    } else {
        0
    }) as u8
}

pub fn ega_part_of(i: u8, high: u8, low: u8) -> (r: u8)
    requires
        high > 0,
        low > 0,
    ensures
        r == ega_part(i, high, low),
{
    let a: u8 = if (i / high) % 2 == 1 {
        0x2A
    } else {
        0
    };
    let b: u8 = if (i / low) % 2 == 1 {
        0x15
    } else {
        0
    };
    a + b
}

/// Colour `i` of the 64-colour EGA palette: bits 2, 1, 0 of the number are
/// the high red, green and blue bits, bits 5, 4, 3 the low ones.
pub open spec fn ega_color(i: u8) -> (u8, u8, u8) {
    (
        ega_part(i, 4, 32),
        ega_part(i, 2, 16),
        ega_part(i, 1, 8),
    )
}

pub fn ega_color_of(i: u8) -> (r: (u8, u8, u8))
    ensures
        r == ega_color(i),
{
    (
        ega_part_of(i, 4, 32),
        ega_part_of(i, 2, 16),
        ega_part_of(i, 1, 8),
    )
}

/// Colour `hue` (0 to 23) of the colour wheel built on ramp `ramp`: from blue
/// over magenta, red, yellow, green and cyan back towards blue.
pub open spec fn hue_color(ramp: u8, hue: u8) -> (u8, u8, u8) {
    let lo = ramp_level(ramp, 0);
    let hi = ramp_level(ramp, 4);
    if hue < 4 {
        (ramp_level(ramp, hue), lo, hi)
    } else if hue < 8 {
        (hi, lo, ramp_level(ramp, (8 - hue) as u8))
    } else if hue < 12 {
        (hi, ramp_level(ramp, (hue - 8) as u8), lo)
    } else if hue < 16 {
        (ramp_level(ramp, (16 - hue) as u8), hi, lo)
    } else if hue < 20 {
        (lo, hi, ramp_level(ramp, (hue - 16) as u8))
    } else {
        (lo, ramp_level(ramp, (24 - hue) as u8), hi)
    }
}

pub fn hue_color_of(ramp: u8, hue: u8) -> (r: (u8, u8, u8))
    requires
        hue < 24,
    ensures
        r == hue_color(ramp, hue),
{
    let lo = ramp_level_of(ramp, 0);
    let hi = ramp_level_of(ramp, 4);
    if hue < 4 {
        (ramp_level_of(ramp, hue), lo, hi)
    } else if hue < 8 {
        (hi, lo, ramp_level_of(ramp, (8 - hue) as u8))
    } else if hue < 12 {
        (hi, ramp_level_of(ramp, (hue - 8) as u8), lo)
    } else if hue < 16 {
        (ramp_level_of(ramp, (16 - hue) as u8), hi, lo)
    } else if hue < 20 {
        (lo, hi, ramp_level_of(ramp, (hue - 16) as u8))
    } else {
        (lo, ramp_level_of(ramp, (24 - hue) as u8), hi)
    }
}

/// Colour `i` of the default 256-colour VGA palette: the 16 CGA colours, 16
/// grays, nine colour wheels of 24 hues, and 8 blacks.
pub open spec fn vga_color(i: u8) -> (u8, u8, u8) {
    if i < 16 {
        cga_color(i)
    } else if i < 32 {
        let g = gray_level((i - 16) as u8);
        (g, g, g)
    } else if i < 248 {
        hue_color(((i - 32) / 24) as u8, ((i - 32) % 24) as u8)
    } else {
        (0, 0, 0)
    }
}

pub fn vga_color_of(i: u8) -> (r: (u8, u8, u8))
    ensures
        r == vga_color(i),
{
    if i < 16 {
        cga_color_of(i)
    } else if i < 32 {
        let g = gray_level_of((i - 16) as u8);
        (g, g, g)
    } else if i < 248 {
        hue_color_of(((i - 32) / 24) as u8, ((i - 32) % 24) as u8)
    } else {
        (0, 0, 0)
    }
}

/// The palettes that can be loaded.
#[derive(Clone, Copy, Debug, PartialEq, Eq, Structural)]
pub enum Palette {
    /// the 64 colours of the text modes
    Text,
    /// black and white
    Cga2,
    /// the 16 CGA colours
    Cga4,
    /// the 64 EGA colours
    Ega,
    /// the 256 VGA colours
    Vga,
}

/// Number of colours of a palette.
pub open spec fn palette_len(p: Palette) -> int {
    match p {
        Palette::Text => 64,
        Palette::Cga2 => 2,
        Palette::Cga4 => 16,
        Palette::Ega => 64,
        Palette::Vga => 256,
    }
}

/// Colour `i` of a palette.
pub open spec fn palette_color(p: Palette, i: u8) -> ColorSpace {
    color6(
        match p {
            Palette::Text => ega_color(i),
            Palette::Cga2 => if i == 0 {
                (0, 0, 0)
            } else {
                (0x3F, 0x3F, 0x3F)
            },
            Palette::Cga4 => cga_color(i),
            Palette::Ega => ega_color(i),
            Palette::Vga => vga_color(i),
        },
    )
}

pub fn palette_color_of(p: Palette, i: u8) -> (r: ColorSpace)
    ensures
        r == palette_color(p, i),
{
    color6_of(
        match p {
            Palette::Text => ega_color_of(i),
            Palette::Cga2 => if i == 0 {
                (0, 0, 0)
            } else {
                (0x3F, 0x3F, 0x3F)
            },
            Palette::Cga4 => cga_color_of(i),
            Palette::Ega => ega_color_of(i),
            Palette::Vga => vga_color_of(i),
        },
    )
}

/// All colours of a palette, in order.
pub fn palette(p: Palette) -> (r: Vec<ColorSpace>)
    ensures
        r@.len() == palette_len(p),
        forall|i: int| 0 <= i < r@.len() ==> r@[i] == palette_color(p, i as u8),
{
    let n: usize = match p {
        Palette::Text => 64,
        Palette::Cga2 => 2,
        Palette::Cga4 => 16,
        Palette::Ega => 64,
        Palette::Vga => 256,
    };
    let mut out: Vec<ColorSpace> = Vec::new();
    let mut i: usize = 0;
    while i < n
        invariant
            n == palette_len(p),
            i <= n,
            out@.len() == i,
            forall|k: int| 0 <= k < i ==> out@[k] == palette_color(p, k as u8),
        decreases n - i,
    {
        out.push(palette_color_of(p, i as u8));
        i += 1;
    }
    out
}

pub fn text_palette() -> (r: Vec<ColorSpace>)
    ensures
        r@.len() == 64,
        forall|i: int| 0 <= i < 64 ==> r@[i] == palette_color(Palette::Text, i as u8),
{
    palette(Palette::Text)
}

pub fn cga_palette_2() -> (r: Vec<ColorSpace>)
    ensures
        r@.len() == 2,
        forall|i: int| 0 <= i < 2 ==> r@[i] == palette_color(Palette::Cga2, i as u8),
{
    palette(Palette::Cga2)
}

pub fn cga_palette() -> (r: Vec<ColorSpace>)
    ensures
        r@.len() == 16,
        forall|i: int| 0 <= i < 16 ==> r@[i] == palette_color(Palette::Cga4, i as u8),
{
    palette(Palette::Cga4)
}

pub fn ega_palette() -> (r: Vec<ColorSpace>)
    ensures
        r@.len() == 64,
        forall|i: int| 0 <= i < 64 ==> r@[i] == palette_color(Palette::Ega, i as u8),
{
    palette(Palette::Ega)
}

pub fn vga_palette() -> (r: Vec<ColorSpace>)
    ensures
        r@.len() == 256,
        forall|i: int| 0 <= i < 256 ==> r@[i] == palette_color(Palette::Vga, i as u8),
{
    palette(Palette::Vga)
}

} // verus!
