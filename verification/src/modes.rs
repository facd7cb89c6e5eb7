//! Graphics cards and the video modes they offer.
use vstd::prelude::*;

verus! {

/// The kinds of graphics card.
#[derive(Clone, Copy, Debug, PartialEq, Eq, Structural)]
pub enum GraphicCard {
    CGA,
    EGA,
    VGA,
    Tandy,
    PCJr,
    Hercules,
}

impl GraphicCard {
    pub open spec fn spec_is_ega_vga(self) -> bool {
        self == GraphicCard::EGA || self == GraphicCard::VGA
    }

    pub open spec fn spec_is_vga(self) -> bool {
        self == GraphicCard::VGA
    }

    pub fn is_ega_vga(&self) -> (r: bool)
        ensures
            r == self.spec_is_ega_vga(),
    {
        match self {
            GraphicCard::EGA | GraphicCard::VGA => true,
            _ => false,
        }
    }

    pub fn is_vga(&self) -> (r: bool)
        ensures
            r == self.spec_is_vga(),
    {
        match self {
            GraphicCard::VGA => true,
            _ => false,
        }
    }

    pub fn is_pc_jr(&self) -> (r: bool)
        ensures
            r == (*self == GraphicCard::PCJr),
    {
        match self {
            GraphicCard::PCJr => true,
            _ => false,
        }
    }

    pub fn is_tandy(&self) -> (r: bool)
        ensures
            r == (*self == GraphicCard::Tandy),
    {
        match self {
            GraphicCard::Tandy => true,
            _ => false,
        }
    }
}

/// The memory layout of a video mode.
#[derive(Clone, Copy, Debug, PartialEq, Eq, Structural)]
pub enum GFXMode {
    TEXT,
    CGA2,
    CGA4,
    EGA,
    VGA,
    TANDY16,
}

/// The parameters of a video mode.
#[derive(Clone, Copy, Debug, PartialEq, Eq, Structural)]
pub struct VideoModeBlock {
    /// the BIOS mode number
    pub mode: u16,
    pub kind: GFXMode,
    /// screen width in pixels
    pub swidth: u32,
    /// screen height in pixels
    pub sheight: u32,
    /// text columns
    pub twidth: u8,
    /// text rows
    pub theight: u8,
    /// character cell width
    pub cwidth: u8,
    /// character cell height
    pub cheight: u8,
    /// number of pages
    pub ptotal: u8,
    /// flat address of the first page
    pub pstart: u32,
    /// bytes per page
    pub plength: u32,
}

impl VideoModeBlock {
    /// The screen fits the video memory window, there is at least one page,
    /// and the pages lie in that window.
    pub open spec fn wf(self) -> bool {
        &&& 0 < self.swidth <= 1024
        &&& 0 < self.sheight <= 1024
        &&& self.swidth * self.sheight <= 0x6_0000
        &&& self.ptotal >= 1
        &&& 0xA_0000 <= self.pstart <= 0xB_8000
        &&& self.plength <= 0x1_0000
        &&& self.theight >= 1
    }

    pub open spec fn spec_is_text(self) -> bool {
        self.kind == GFXMode::TEXT
    }

    pub fn is_text(&self) -> (r: bool)
        ensures
            r == self.spec_is_text(),
    {
        match self.kind {
            GFXMode::TEXT => true,
            _ => false,
        }
    }

    /// The mode table of a card.
    pub fn get_mode_block(card: &GraphicCard) -> (r: Vec<VideoModeBlock>)
        ensures
            r@.len() == mode_count(*card),
            forall|i: int| 0 <= i < r@.len() ==> r@[i] == mode_row(*card, i as usize) && r@[i].wf(),
    {
        let n = mode_count_of(*card);
        let mut out: Vec<VideoModeBlock> = Vec::new();
        let mut i: usize = 0;
        while i < n
            invariant
                n == mode_count(*card),
                i <= n,
                out@.len() == i,
                forall|k: int|
                    0 <= k < i ==> out@[k] == mode_row(*card, k as usize) && out@[k].wf(),
            decreases n - i,
        {
            out.push(mode_row_of(*card, i));
            i += 1;
        }
        out
    }
}

pub open spec fn block(
    mode: u16,
    kind: GFXMode,
    swidth: u32,
    sheight: u32,
    twidth: u8,
    theight: u8,
    cwidth: u8,
    cheight: u8,
    ptotal: u8,
    pstart: u32,
    plength: u32,
) -> VideoModeBlock {
    VideoModeBlock {
        mode,
        kind,
        swidth,
        sheight,
        twidth,
        theight,
        cwidth,
        cheight,
        ptotal,
        pstart,
        plength,
    }
}

pub fn make_block(
    mode: u16,
    kind: GFXMode,
    swidth: u32,
    sheight: u32,
    twidth: u8,
    theight: u8,
    cwidth: u8,
    cheight: u8,
    ptotal: u8,
    pstart: u32,
    plength: u32,
) -> (r: VideoModeBlock)
    ensures
        r == block(
            mode,
            kind,
            swidth,
            sheight,
            twidth,
            theight,
            cwidth,
            cheight,
            ptotal,
            pstart,
            plength,
        ),
{
    VideoModeBlock {
        mode,
        kind,
        swidth,
        sheight,
        twidth,
        theight,
        cwidth,
        cheight,
        ptotal,
        pstart,
        plength,
    }
}

/// Number of rows of the mode table of a card.
pub open spec fn mode_count(card: GraphicCard) -> usize {
    match card {
        GraphicCard::VGA => 15,
        GraphicCard::EGA => 12,
        _ => 7,
    }
}

pub fn mode_count_of(card: GraphicCard) -> (r: usize)
    ensures
        r == mode_count(card),
        r <= 16,
{
    match card {
        GraphicCard::VGA => 15,
        GraphicCard::EGA => 12,
        _ => 7,
    }
}

/// Row `i` of the mode table of a card.
pub open spec fn mode_row(card: GraphicCard, i: usize) -> VideoModeBlock {
    match card {
        GraphicCard::VGA => match i {
            0 => block(0x00, GFXMode::TEXT, 360, 400, 40, 25, 9, 16, 8, 0xB8000, 0x0800),
            1 => block(0x01, GFXMode::TEXT, 360, 400, 40, 25, 9, 16, 8, 0xB8000, 0x0800),
            2 => block(0x02, GFXMode::TEXT, 720, 400, 80, 25, 9, 16, 8, 0xB8000, 0x1000),
            3 => block(0x03, GFXMode::TEXT, 720, 400, 80, 25, 9, 16, 8, 0xB8000, 0x1000),
            4 => block(0x04, GFXMode::CGA4, 320, 200, 40, 25, 8, 8, 1, 0xB8000, 0x4000),
            5 => block(0x05, GFXMode::CGA4, 320, 200, 40, 25, 8, 8, 1, 0xB8000, 0x4000),
            6 => block(0x06, GFXMode::CGA2, 640, 200, 80, 25, 8, 8, 1, 0xB8000, 0x4000),
            7 => block(0x07, GFXMode::TEXT, 720, 400, 80, 25, 9, 16, 8, 0xB0000, 0x1000),
            8 => block(0x0D, GFXMode::EGA, 320, 200, 40, 25, 8, 8, 8, 0xA0000, 0x2000),
            9 => block(0x0E, GFXMode::EGA, 640, 200, 80, 25, 8, 8, 4, 0xA0000, 0x4000),
            10 => block(0x0F, GFXMode::EGA, 640, 350, 80, 25, 8, 14, 2, 0xA0000, 0x8000),
            11 => block(0x10, GFXMode::EGA, 640, 350, 80, 25, 8, 14, 2, 0xA0000, 0x8000),
            12 => block(0x11, GFXMode::EGA, 640, 480, 80, 30, 8, 16, 1, 0xA0000, 0xA000),
            13 => block(0x12, GFXMode::EGA, 640, 480, 80, 30, 8, 16, 1, 0xA0000, 0xA000),
            _ => block(0x13, GFXMode::VGA, 320, 200, 40, 25, 8, 8, 1, 0xA0000, 0x2000),
        },
        GraphicCard::EGA => match i {
            0 => block(0x00, GFXMode::TEXT, 320, 350, 40, 25, 8, 14, 8, 0xB8000, 0x0800),
            1 => block(0x01, GFXMode::TEXT, 320, 350, 40, 25, 8, 14, 8, 0xB8000, 0x0800),
            2 => block(0x02, GFXMode::TEXT, 640, 350, 80, 25, 8, 14, 8, 0xB8000, 0x1000),
            3 => block(0x03, GFXMode::TEXT, 640, 350, 80, 25, 8, 14, 8, 0xB8000, 0x1000),
            4 => block(0x04, GFXMode::CGA4, 320, 200, 40, 25, 8, 8, 1, 0xB8000, 0x4000),
            5 => block(0x05, GFXMode::CGA4, 320, 200, 40, 25, 8, 8, 1, 0xB8000, 0x4000),
            6 => block(0x06, GFXMode::CGA2, 640, 200, 80, 25, 8, 8, 1, 0xB8000, 0x4000),
            7 => block(0x07, GFXMode::TEXT, 720, 350, 80, 25, 9, 14, 8, 0xB0000, 0x1000),
            8 => block(0x0D, GFXMode::EGA, 320, 200, 40, 25, 8, 8, 8, 0xA0000, 0x2000),
            9 => block(0x0E, GFXMode::EGA, 640, 200, 80, 25, 8, 8, 4, 0xA0000, 0x4000),
            10 => block(0x0F, GFXMode::EGA, 640, 350, 80, 25, 8, 14, 2, 0xA0000, 0x8000),
            _ => block(0x10, GFXMode::EGA, 640, 350, 80, 25, 8, 14, 2, 0xA0000, 0x8000),
        },
        _ => match i {
            0 => block(0x00, GFXMode::TEXT, 320, 200, 40, 25, 8, 8, 8, 0xB8000, 0x0800),
            1 => block(0x01, GFXMode::TEXT, 320, 200, 40, 25, 8, 8, 8, 0xB8000, 0x0800),
            2 => block(0x02, GFXMode::TEXT, 640, 200, 80, 25, 8, 8, 4, 0xB8000, 0x1000),
            3 => block(0x03, GFXMode::TEXT, 640, 200, 80, 25, 8, 8, 4, 0xB8000, 0x1000),
            4 => block(0x04, GFXMode::CGA4, 320, 200, 40, 25, 8, 8, 1, 0xB8000, 0x4000),
            5 => block(0x05, GFXMode::CGA4, 320, 200, 40, 25, 8, 8, 1, 0xB8000, 0x4000),
            _ => block(0x06, GFXMode::CGA2, 640, 200, 80, 25, 8, 8, 1, 0xB8000, 0x4000),
        },
    }
}

pub fn mode_row_of(card: GraphicCard, i: usize) -> (r: VideoModeBlock)
    ensures
        r == mode_row(card, i),
        i < mode_count(card) ==> r.wf(),
{
    match card {
        GraphicCard::VGA => match i {
            0 => make_block(0x00, GFXMode::TEXT, 360, 400, 40, 25, 9, 16, 8, 0xB8000, 0x0800),
            1 => make_block(0x01, GFXMode::TEXT, 360, 400, 40, 25, 9, 16, 8, 0xB8000, 0x0800),
            2 => make_block(0x02, GFXMode::TEXT, 720, 400, 80, 25, 9, 16, 8, 0xB8000, 0x1000),
            3 => make_block(0x03, GFXMode::TEXT, 720, 400, 80, 25, 9, 16, 8, 0xB8000, 0x1000),
            4 => make_block(0x04, GFXMode::CGA4, 320, 200, 40, 25, 8, 8, 1, 0xB8000, 0x4000),
            5 => make_block(0x05, GFXMode::CGA4, 320, 200, 40, 25, 8, 8, 1, 0xB8000, 0x4000),
            6 => make_block(0x06, GFXMode::CGA2, 640, 200, 80, 25, 8, 8, 1, 0xB8000, 0x4000),
            7 => make_block(0x07, GFXMode::TEXT, 720, 400, 80, 25, 9, 16, 8, 0xB0000, 0x1000),
            8 => make_block(0x0D, GFXMode::EGA, 320, 200, 40, 25, 8, 8, 8, 0xA0000, 0x2000),
            9 => make_block(0x0E, GFXMode::EGA, 640, 200, 80, 25, 8, 8, 4, 0xA0000, 0x4000),
            10 => make_block(0x0F, GFXMode::EGA, 640, 350, 80, 25, 8, 14, 2, 0xA0000, 0x8000),
            11 => make_block(0x10, GFXMode::EGA, 640, 350, 80, 25, 8, 14, 2, 0xA0000, 0x8000),
            12 => make_block(0x11, GFXMode::EGA, 640, 480, 80, 30, 8, 16, 1, 0xA0000, 0xA000),
            13 => make_block(0x12, GFXMode::EGA, 640, 480, 80, 30, 8, 16, 1, 0xA0000, 0xA000),
            _ => make_block(0x13, GFXMode::VGA, 320, 200, 40, 25, 8, 8, 1, 0xA0000, 0x2000),
        },
        GraphicCard::EGA => match i {
            0 => make_block(0x00, GFXMode::TEXT, 320, 350, 40, 25, 8, 14, 8, 0xB8000, 0x0800),
            1 => make_block(0x01, GFXMode::TEXT, 320, 350, 40, 25, 8, 14, 8, 0xB8000, 0x0800),
            2 => make_block(0x02, GFXMode::TEXT, 640, 350, 80, 25, 8, 14, 8, 0xB8000, 0x1000),
            3 => make_block(0x03, GFXMode::TEXT, 640, 350, 80, 25, 8, 14, 8, 0xB8000, 0x1000),
            4 => make_block(0x04, GFXMode::CGA4, 320, 200, 40, 25, 8, 8, 1, 0xB8000, 0x4000),
            5 => make_block(0x05, GFXMode::CGA4, 320, 200, 40, 25, 8, 8, 1, 0xB8000, 0x4000),
            6 => make_block(0x06, GFXMode::CGA2, 640, 200, 80, 25, 8, 8, 1, 0xB8000, 0x4000),
            7 => make_block(0x07, GFXMode::TEXT, 720, 350, 80, 25, 9, 14, 8, 0xB0000, 0x1000),
            8 => make_block(0x0D, GFXMode::EGA, 320, 200, 40, 25, 8, 8, 8, 0xA0000, 0x2000),
            9 => make_block(0x0E, GFXMode::EGA, 640, 200, 80, 25, 8, 8, 4, 0xA0000, 0x4000),
            10 => make_block(0x0F, GFXMode::EGA, 640, 350, 80, 25, 8, 14, 2, 0xA0000, 0x8000),
            _ => make_block(0x10, GFXMode::EGA, 640, 350, 80, 25, 8, 14, 2, 0xA0000, 0x8000),
        },
        _ => match i {
            0 => make_block(0x00, GFXMode::TEXT, 320, 200, 40, 25, 8, 8, 8, 0xB8000, 0x0800),
            1 => make_block(0x01, GFXMode::TEXT, 320, 200, 40, 25, 8, 8, 8, 0xB8000, 0x0800),
            2 => make_block(0x02, GFXMode::TEXT, 640, 200, 80, 25, 8, 8, 4, 0xB8000, 0x1000),
            3 => make_block(0x03, GFXMode::TEXT, 640, 200, 80, 25, 8, 8, 4, 0xB8000, 0x1000),
            4 => make_block(0x04, GFXMode::CGA4, 320, 200, 40, 25, 8, 8, 1, 0xB8000, 0x4000),
            5 => make_block(0x05, GFXMode::CGA4, 320, 200, 40, 25, 8, 8, 1, 0xB8000, 0x4000),
            _ => make_block(0x06, GFXMode::CGA2, 640, 200, 80, 25, 8, 8, 1, 0xB8000, 0x4000),
        },
    }
}

} // verus!
