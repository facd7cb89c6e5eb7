use dustbox::address::MemoryAddress;
use dustbox::bios::BIOS;
use dustbox::crtc::CRTC;
use dustbox::dac::DAC;
use dustbox::gpu::{gray, GPU};
use dustbox::machine::{Machine, Service};
use dustbox::mmu::MMU;
use dustbox::modes::{GFXMode, GraphicCard, VideoModeBlock};
use dustbox::palette::{cga_palette, cga_palette_2, ega_palette, text_palette, vga_palette, ColorSpace};
use dustbox::register::{AX, BX, CX, DX};
use dustbox::videorom::VideoRom;

fn gpu_in_mode(mode: u8) -> (GPU, MMU) {
    let mut gpu = GPU::default();
    let mut mmu = MMU::new();
    let mut bios = BIOS::default();
    bios.init(&mut mmu);
    gpu.set_mode(&mut mmu, &mut bios, mode);
    (gpu, mmu)
}

#[test]
fn default_gpu_is_a_vga_in_text_mode() {
    let gpu = GPU::default();
    assert_eq!(GraphicCard::VGA, gpu.card);
    assert_eq!(3, gpu.mode.mode);
    assert_eq!(GFXMode::TEXT, gpu.mode.kind);
    assert_eq!((720, 400, 80, 25), (gpu.mode.swidth, gpu.mode.sheight, gpu.mode.twidth, gpu.mode.theight));
    assert_eq!(0, gpu.scanline);
    assert_eq!(256, gpu.dac.pal.len());
    assert_eq!(0x8000, gpu.video_bios_size());
    assert_eq!(Some(14), gpu.lookup_mode(0x13));
    assert_eq!(Some(4), gpu.lookup_mode(0x04));
    assert_eq!(None, gpu.lookup_mode(0x08));
    assert_eq!(15, VideoModeBlock::get_mode_block(&GraphicCard::VGA).len());
    assert_eq!(12, VideoModeBlock::get_mode_block(&GraphicCard::EGA).len());
    assert_eq!(7, VideoModeBlock::get_mode_block(&GraphicCard::CGA).len());
    assert!(GraphicCard::EGA.is_ega_vga() && !GraphicCard::EGA.is_vga());
    assert!(GraphicCard::PCJr.is_pc_jr() && GraphicCard::Tandy.is_tandy());
}

#[test]
fn palettes() {
    let vga = vga_palette();
    assert_eq!(256, vga.len());
    assert_eq!(ColorSpace::RGB(0x00, 0x00, 0x00), vga[0]);
    assert_eq!(ColorSpace::RGB(0x00, 0x00, 0xAA), vga[1]);
    assert_eq!(ColorSpace::RGB(0xAA, 0x55, 0x00), vga[6]);
    assert_eq!(ColorSpace::RGB(0xFF, 0xFF, 0xFF), vga[15]);
    assert_eq!(ColorSpace::RGB(0x14, 0x14, 0x14), vga[17]);
    assert_eq!(ColorSpace::RGB(0xFF, 0xFF, 0xFF), vga[31]);
    assert_eq!(ColorSpace::RGB(0x00, 0x00, 0xFF), vga[32]);
    assert_eq!(ColorSpace::RGB(0x41, 0x00, 0xFF), vga[33]);
    assert_eq!(ColorSpace::RGB(0xFF, 0x00, 0xFF), vga[36]);
    assert_eq!(ColorSpace::RGB(0xFF, 0x00, 0x00), vga[40]);
    assert_eq!(ColorSpace::RGB(0xFF, 0xFF, 0x00), vga[44]);
    assert_eq!(ColorSpace::RGB(0x00, 0xFF, 0x00), vga[48]);
    assert_eq!(ColorSpace::RGB(0x00, 0xFF, 0xFF), vga[52]);
    assert_eq!(ColorSpace::RGB(0x00, 0x41, 0xFF), vga[55]);
    assert_eq!(ColorSpace::RGB(0x7D, 0x7D, 0xFF), vga[56]);
    assert_eq!(ColorSpace::RGB(0xB6, 0xB6, 0xFF), vga[80]);
    assert_eq!(ColorSpace::RGB(0x00, 0x00, 0x71), vga[104]);
    assert_eq!(ColorSpace::RGB(0x00, 0x00, 0x41), vga[176]);
    assert_eq!(ColorSpace::RGB(0x2C, 0x41, 0x41), vga[244]);
    assert_eq!(ColorSpace::RGB(0x2C, 0x30, 0x41), vga[247]);
    for i in 248..256 {
        assert_eq!(ColorSpace::RGB(0, 0, 0), vga[i]);
    }
    let ega = ega_palette();
    assert_eq!(64, ega.len());
    assert_eq!(ColorSpace::RGB(0x00, 0x00, 0xAA), ega[1]);
    assert_eq!(ColorSpace::RGB(0xAA, 0x00, 0x00), ega[4]);
    assert_eq!(ColorSpace::RGB(0x00, 0x00, 0x55), ega[8]);
    assert_eq!(ColorSpace::RGB(0xAA, 0x55, 0x00), ega[0x14]);
    assert_eq!(ColorSpace::RGB(0xFF, 0xFF, 0xFF), ega[63]);
    assert_eq!(ega, text_palette());
    let cga = cga_palette();
    assert_eq!(16, cga.len());
    assert_eq!(vga[..16].to_vec(), cga);
    assert_eq!(vec![ColorSpace::RGB(0, 0, 0), ColorSpace::RGB(255, 255, 255)], cga_palette_2());
}

#[test]
fn mode_set_records_the_mode_and_clears_the_screen() {
    let mut gpu = GPU::default();
    let mut mmu = MMU::new();
    let mut bios = BIOS::default();
    mmu.write(0xB800, 0x0000, &[0x41, 0x1F]);
    mmu.write(0xA000, 0x0000, &[0x55]);
    gpu.font_16 = MemoryAddress::RealSegmentOffset(0xC000, 0x1234);
    gpu.set_mode(&mut mmu, &mut bios, 0x03);
    assert_eq!(0x03, mmu.read_u8(0x40, 0x49));
    assert_eq!(80, mmu.read_u16(0x40, 0x4A));
    assert_eq!(0x1000, mmu.read_u16(0x40, 0x4C));
    assert_eq!(0, mmu.read_u16(0x40, 0x4E));
    assert_eq!(0, mmu.read_u8(0x40, 0x62));
    assert_eq!(24, mmu.read_u8(0x40, 0x84));
    assert_eq!(16, mmu.read_u16(0x40, 0x85));
    // blanks with attribute 7
    assert_eq!(vec![0x20, 0x07, 0x20, 0x07], mmu.read(0xB800, 0x0000, 4));
    assert_eq!(vec![0x20, 0x07], mmu.read(0xB800, 0x7FFE, 2));
    assert_eq!(0x55, mmu.read_u8(0xA000, 0));
    // interrupt 43h points at the font of the character height
    assert_eq!((0xC000, 0x1234), mmu.read_vec(0x43));
    assert_eq!(text_palette(), gpu.dac.pal[..64].to_vec());
    for page in 0..8 {
        assert_eq!(0, mmu.read_u16(0x40, 0x50 + page * 2));
    }
    gpu.set_mode(&mut mmu, &mut bios, 0x13);
    assert_eq!(GFXMode::VGA, gpu.mode.kind);
    assert_eq!(0x00, mmu.read_u8(0xA000, 0));
    assert_eq!(vec![0x20, 0x07], mmu.read(0xB800, 0x0000, 2));
    assert_eq!(vga_palette(), gpu.dac.pal);
    assert_eq!(40, mmu.read_u16(0x40, 0x4A));
    gpu.set_mode(&mut mmu, &mut bios, 0x04);
    assert_eq!(vec![0x00, 0x00], mmu.read(0xB800, 0x0000, 2));
    assert_eq!(cga_palette(), gpu.dac.pal[..16].to_vec());
    // the colours behind the palette are kept
    assert_eq!(vga_palette()[16..].to_vec(), gpu.dac.pal[16..].to_vec());
}

#[test]
fn cursor_and_pages() {
    let (mut gpu, mut mmu) = gpu_in_mode(0x03);
    gpu.set_cursor_pos(&mut mmu, 5, 10, 0);
    assert_eq!(10, mmu.read_u8(0x40, 0x50));
    assert_eq!(5, mmu.read_u8(0x40, 0x51));
    // 5 * 80 + 10 = 410 = 0x019a
    assert_eq!(0x01, gpu.crtc.registers[0x0E]);
    assert_eq!(0x9A, gpu.crtc.registers[0x0F]);
    // another page than the active one: only the BIOS data area changes
    gpu.set_cursor_pos(&mut mmu, 1, 2, 3);
    assert_eq!(2, mmu.read_u8(0x40, 0x56));
    assert_eq!(1, mmu.read_u8(0x40, 0x57));
    assert_eq!(0x9A, gpu.crtc.registers[0x0F]);
    assert_eq!(0, gpu.get_active_page(&mut mmu));
    gpu.set_active_page(&mut mmu, 3);
    assert_eq!(3, gpu.get_active_page(&mut mmu));
    assert_eq!(0x3000, mmu.read_u16(0x40, 0x4E));
    // the start address in character cells
    assert_eq!(0x18, gpu.crtc.registers[0x0C]);
    assert_eq!(0x00, gpu.crtc.registers[0x0D]);
    // 1 * 80 + 2 + 0x3000 / 2
    assert_eq!(0x18, gpu.crtc.registers[0x0E]);
    assert_eq!(0x52, gpu.crtc.registers[0x0F]);
    assert_eq!(0x0F, gpu.crtc.index);
}

#[test]
fn teletype_in_text_mode() {
    let (mut gpu, mut mmu) = gpu_in_mode(0x03);
    for c in b"Hi" {
        gpu.teletype_output(&mut mmu, *c, 0, 0x1F);
    }
    // the attribute is not written in text mode
    assert_eq!(vec![b'H', 0x07, b'i', 0x07, b' ', 0x07], mmu.read(0xB800, 0, 6));
    assert_eq!((2, 0), (mmu.read_u8(0x40, 0x50), mmu.read_u8(0x40, 0x51)));
    gpu.teletype_output(&mut mmu, 8, 0, 0);
    assert_eq!(1, mmu.read_u8(0x40, 0x50));
    gpu.teletype_output(&mut mmu, b'\n', 0, 0);
    assert_eq!((1, 1), (mmu.read_u8(0x40, 0x50), mmu.read_u8(0x40, 0x51)));
    gpu.teletype_output(&mut mmu, b'\r', 0, 0);
    assert_eq!((0, 1), (mmu.read_u8(0x40, 0x50), mmu.read_u8(0x40, 0x51)));
    gpu.teletype_output(&mut mmu, 8, 0, 0);
    assert_eq!(0, mmu.read_u8(0x40, 0x50));
    // past the last column the cursor goes to the next row
    gpu.set_cursor_pos(&mut mmu, 1, 79, 0);
    gpu.teletype_output_attr(&mut mmu, b'x', 0x4E, 0, true);
    assert_eq!(vec![b'x', 0x4E], mmu.read(0xB800, (80 + 79) * 2, 2));
    assert_eq!((0, 2), (mmu.read_u8(0x40, 0x50), mmu.read_u8(0x40, 0x51)));
}

#[test]
fn teletype_scrolls_at_the_bottom() {
    let (mut gpu, mut mmu) = gpu_in_mode(0x03);
    mmu.write(0xB800, 0, b"t\x01o\x02p\x03");
    mmu.write(0xB800, 160, b"s\x04");
    gpu.set_cursor_pos(&mut mmu, 24, 0, 0);
    gpu.teletype_output(&mut mmu, b'z', 0, 0);
    assert_eq!(vec![b'z', 0x07], mmu.read(0xB800, 24 * 160, 2));
    gpu.teletype_output(&mut mmu, b'\n', 0, 0);
    // every row moved up, the last row is blank, the cursor stays in it
    assert_eq!(vec![b's', 0x04, b' ', 0x07], mmu.read(0xB800, 0, 4));
    assert_eq!(vec![b'z', 0x07], mmu.read(0xB800, 23 * 160, 2));
    assert_eq!(vec![b' ', 0x07, b' ', 0x07], mmu.read(0xB800, 24 * 160, 4));
    assert_eq!((1, 24), (mmu.read_u8(0x40, 0x50), mmu.read_u8(0x40, 0x51)));
    // what lies behind the page is not touched
    mmu.write(0xB800, 25 * 160, &[0xEE]);
    gpu.teletype_output(&mut mmu, b'\n', 0, 0);
    assert_eq!(0xEE, mmu.read_u8(0xB800, 25 * 160));
    assert_eq!(vec![b' ', 0x07], mmu.read(0xB800, 23 * 160, 2));
}

#[test]
fn characters_and_strings() {
    let (mut gpu, mut mmu) = gpu_in_mode(0x03);
    gpu.set_cursor_pos(&mut mmu, 0, 78, 0);
    gpu.write_char(&mut mmu, b'*' as u16, 0x2A, 0, 3, true);
    assert_eq!(vec![b'*', 0x2A, b'*', 0x2A, b'*', 0x2A], mmu.read(0xB800, 78 * 2, 6));
    // the cursor stays
    assert_eq!((78, 0), (mmu.read_u8(0x40, 0x50), mmu.read_u8(0x40, 0x51)));
    gpu.write_char(&mut mmu, 0x141, 0x00, 0, 1, false);
    assert_eq!(vec![b'A', 0x2A], mmu.read(0xB800, 78 * 2, 2));
    mmu.write(0x2000, 0x0000, b"ab\rc");
    gpu.write_string(&mut mmu, 2, 5, 0x00, 0x17, 0x2000, 0x0000, 4, 0);
    assert_eq!(vec![b'a', 0x17, b'b', 0x17], mmu.read(0xB800, 2 * 160 + 10, 4));
    assert_eq!(vec![b'c', 0x17], mmu.read(0xB800, 2 * 160, 2));
    // without bit 0 of the flags the cursor returns
    assert_eq!((78, 0), (mmu.read_u8(0x40, 0x50), mmu.read_u8(0x40, 0x51)));
    // with bit 1 each character brings its attribute; row ffh is the cursor
    mmu.write(0x2000, 0x0010, &[b'x', 0x1E, b'y', 0x2F]);
    gpu.set_cursor_pos(&mut mmu, 4, 0, 0);
    gpu.write_string(&mut mmu, 0xFF, 0, 0x03, 0x00, 0x2000, 0x0010, 2, 0);
    assert_eq!(vec![b'x', 0x1E, b'y', 0x2F], mmu.read(0xB800, 4 * 160, 4));
    assert_eq!((2, 4), (mmu.read_u8(0x40, 0x50), mmu.read_u8(0x40, 0x51)));
}

#[test]
fn pixels() {
    let (mut gpu, mut mmu) = gpu_in_mode(0x13);
    gpu.write_pixel(&mut mmu, 319, 199, 0, 0x7F);
    assert_eq!(0x7F, mmu.read_u8(0xA000, 63999));
    gpu.write_pixel(&mut mmu, 1, 1, 0, 0x80);
    assert_eq!(0x80, mmu.read_u8(0xA000, 321));
    let (mut gpu, mut mmu) = gpu_in_mode(0x04);
    gpu.write_pixel(&mut mmu, 0, 0, 0, 3);
    gpu.write_pixel(&mut mmu, 1, 0, 0, 2);
    gpu.write_pixel(&mut mmu, 3, 0, 0, 1);
    assert_eq!(0xE1, mmu.read_u8(0xB800, 0));
    // odd lines lie in the second bank
    gpu.write_pixel(&mut mmu, 4, 1, 0, 1);
    assert_eq!(0x40, mmu.read_u8(0xB800, 0x2001));
    gpu.write_pixel(&mut mmu, 319, 199, 0, 3);
    assert_eq!(0x03, mmu.read_u8(0xB800, 0x2000 + 99 * 80 + 79));
    // a colour with bit 7 is xored onto the pixel
    gpu.write_pixel(&mut mmu, 0, 0, 0, 0x81);
    assert_eq!(0xA1, mmu.read_u8(0xB800, 0));
    // a pixel is overwritten
    gpu.write_pixel(&mut mmu, 1, 0, 0, 0);
    assert_eq!(0x81, mmu.read_u8(0xB800, 0));
    // in a text mode nothing is written
    let (mut gpu, mut mmu) = gpu_in_mode(0x03);
    let before = mmu.dump_mem();
    gpu.write_pixel(&mut mmu, 10, 10, 0, 0xFF);
    assert_eq!(before, mmu.dump_mem());
}

#[test]
fn glyphs_in_graphics_modes() {
    let (mut gpu, mut mmu) = gpu_in_mode(0x13);
    // a font of one glyph: character 1, eight rows
    mmu.write_vec(0x43, &MemoryAddress::RealSegmentOffset(0xC000, 0x0100));
    mmu.write_u8(0x40, 0x85, 8);
    mmu.write(0xC000, 0x0108, &[0x80, 0x01, 0xFF, 0x00, 0x00, 0x00, 0x00, 0x18]);
    gpu.teletype_output(&mut mmu, 1, 0, 0x0C);
    assert_eq!(vec![0x0C, 0, 0, 0, 0, 0, 0, 0], mmu.read(0xA000, 0, 8));
    assert_eq!(vec![0, 0, 0, 0, 0, 0, 0, 0x0C], mmu.read(0xA000, 320, 8));
    assert_eq!(vec![0x0C; 8], mmu.read(0xA000, 640, 8));
    assert_eq!(vec![0, 0, 0, 0x0C, 0x0C, 0, 0, 0], mmu.read(0xA000, 7 * 320, 8));
    assert_eq!((1, 0), (mmu.read_u8(0x40, 0x50), mmu.read_u8(0x40, 0x51)));
    // the next character goes eight pixels to the right
    gpu.teletype_output(&mut mmu, 1, 0, 0x0A);
    assert_eq!(vec![0x0A, 0], mmu.read(0xA000, 8, 2));
    let (mut gpu, mut mmu) = gpu_in_mode(0x04);
    mmu.write_vec(0x43, &MemoryAddress::RealSegmentOffset(0xC000, 0x0100));
    mmu.write_vec(0x1F, &MemoryAddress::RealSegmentOffset(0xC000, 0x0500));
    mmu.write_u8(0x40, 0x85, 8);
    mmu.write(0xC000, 0x0508, &[0xF0, 0, 0, 0, 0, 0, 0, 0]);
    // characters from 80h on come from the font of vector 1fh
    gpu.write_char(&mut mmu, 0x81, 0x02, 0, 1, true);
    assert_eq!(vec![0xAA, 0x00], mmu.read(0xB800, 0, 2));
}

#[test]
fn dac_registers() {
    let (mut gpu, mut mmu) = gpu_in_mode(0x13);
    gpu.set_individual_dac_register(&mut mmu, 5, 0x3F, 0x00, 0x15);
    assert_eq!(ColorSpace::RGB(0xFF, 0x00, 0x55), gpu.dac.pal[5]);
    assert_eq!((0x3F, 0x00, 0x15), gpu.get_individual_dac_register(5));
    // only six bits count
    gpu.set_individual_dac_register(&mut mmu, 6, 0xFF, 0x40, 0x81);
    assert_eq!((0x3F, 0x00, 0x01), gpu.get_individual_dac_register(6));
    mmu.write(0x2000, 0x0100, &[1, 2, 3, 4, 5, 6, 7, 8, 9]);
    gpu.set_dac_block(&mut mmu, 0xFF, 3, 0x2000, 0x0100);
    // the index wraps from 255 to 0
    assert_eq!((1, 2, 3), gpu.get_individual_dac_register(255));
    assert_eq!((4, 5, 6), gpu.get_individual_dac_register(0));
    assert_eq!((7, 8, 9), gpu.get_individual_dac_register(1));
    gpu.read_dac_block(&mut mmu, 0xFF, 2, 0x3000, 0x0000);
    assert_eq!(vec![1, 2, 3, 4, 5, 6, 0], mmu.read(0x3000, 0, 7));
    // with gray summing on, a colour is replaced by its intensity
    mmu.write_u8(0x40, 0x89, 0x02);
    assert_eq!(0x1C, gray(0x3F, 0x10, 0x00));
    assert_eq!(0x3F, gray(0x3F, 0x3F, 0x3F));
    assert_eq!(0x3F, gray(0xFF, 0xFF, 0xFF));
    gpu.set_individual_dac_register(&mut mmu, 9, 0x3F, 0x10, 0x00);
    assert_eq!((0x1C, 0x1C, 0x1C), gpu.get_individual_dac_register(9));
    gpu.set_dac_block(&mut mmu, 10, 1, 0x2000, 0x0100);
    let g = gray(1, 2, 3);
    assert_eq!((g, g, g), gpu.get_individual_dac_register(10));
    // a block outside memory: the table reads as 0, the buffer is left out
    gpu.set_dac_block(&mut mmu, 20, 1, 0xFFFF, 0x0010);
    assert_eq!((0, 0, 0), gpu.get_individual_dac_register(20));
    gpu.read_dac_block(&mut mmu, 0, 1, 0xFFFF, 0x000E);
    assert_eq!(4, mmu.memory.read_u8(0xFFFFE));
    assert_eq!(5, mmu.memory.read_u8(0xFFFFF));
    let mut dac = DAC::default();
    dac.set_pel_write_index(1);
    dac.set_pel_data(0x3F);
    assert_eq!(ColorSpace::RGB(0xFF, 0x00, 0xAA), dac.pal[1]);
    dac.set_pel_read_index(1);
    assert_eq!(0x3F, dac.get_pel_data());
    assert_eq!(0x00, dac.get_pel_data());
    assert_eq!(0x2A, dac.get_pel_data());
    assert_eq!(2, dac.read_index);
    let mut crtc = CRTC::default();
    crtc.write(0x0A, 0x20);
    assert_eq!(0x20, crtc.read_current());
    crtc.set_index(0x19);
    crtc.write_current(0x55);
    assert_eq!(0, crtc.read_current());
    assert_eq!(0x20, crtc.registers[0x0A]);
}

#[test]
fn frames() {
    let (gpu, mut mmu) = gpu_in_mode(0x13);
    mmu.write(0xA000, 0, &[15, 1]);
    mmu.write_u8(0xA000, 63999, 4);
    let frame = gpu.render_frame(&mmu);
    assert_eq!(320 * 200 * 3, frame.len());
    assert_eq!(vec![0xFF, 0xFF, 0xFF, 0x00, 0x00, 0xAA, 0, 0, 0], frame[..9].to_vec());
    assert_eq!(vec![0xAA, 0x00, 0x00], frame[frame.len() - 3..].to_vec());
    assert_eq!(frame, gpu.render_mode13_frame(&mmu.dump_mem()));
    let (gpu, mut mmu) = gpu_in_mode(0x04);
    // the four pixels of a byte: 3, 2, 1, 0 -> white, magenta, cyan, black
    mmu.write_u8(0xB800, 0, 0xE4);
    // the first byte of the second line lies in the second bank
    mmu.write_u8(0xB800, 0x2000, 0x40);
    // the last byte of line 198
    mmu.write_u8(0xB800, 99 * 80 + 79, 0x03);
    let frame = gpu.render_frame(&mmu);
    assert_eq!(320 * 200 * 3, frame.len());
    assert_eq!(
        vec![0xAA, 0xAA, 0xAA, 0xAA, 0x00, 0xAA, 0x00, 0xAA, 0xAA, 0x00, 0x00, 0x00],
        frame[..12].to_vec()
    );
    assert_eq!(vec![0x00, 0xAA, 0xAA], frame[320 * 3..320 * 3 + 3].to_vec());
    let last = (198 * 320 + 319) * 3;
    assert_eq!(vec![0xAA, 0xAA, 0xAA], frame[last..last + 3].to_vec());
    assert_eq!(frame, gpu.render_mode04_frame(&mmu.dump_mem()));
    // no other mode is rendered
    let (gpu, mmu) = gpu_in_mode(0x03);
    assert!(gpu.render_frame(&mmu).is_empty());
}

#[test]
fn scanline_and_status() {
    let (mut gpu, _mmu) = gpu_in_mode(0x13);
    assert_eq!(0x09, gpu.read_cga_status_register());
    gpu.progress_scanline();
    assert_eq!(1, gpu.scanline);
    assert_eq!(0x00, gpu.read_cga_status_register());
    gpu.scanline = 320;
    gpu.progress_scanline();
    assert_eq!(0, gpu.scanline);
    gpu.reset_actl();
}

#[test]
fn chargen() {
    let (mut gpu, mut mmu) = gpu_in_mode(0x12);
    gpu.font_16 = MemoryAddress::RealSegmentOffset(0xC000, 0x1700);
    for (row, dl, rows) in [(0u8, 30u8, 29u8), (1, 0, 13), (2, 0, 24), (3, 0, 42), (7, 0, 24), (0, 0, 255)] {
        gpu.load_graphics_chars(&mut mmu, row, dl);
        assert_eq!(rows, mmu.read_u8(0x40, 0x84));
        assert_eq!(16, mmu.read_u16(0x40, 0x85));
        assert_eq!((0xC000, 0x1700), mmu.read_vec(0x43));
    }
    gpu.card = GraphicCard::EGA;
    mmu.write_u8(0x40, 0x84, 1);
    gpu.load_graphics_chars(&mut mmu, 1, 0);
    assert_eq!(1, mmu.read_u8(0x40, 0x84));
}

#[test]
fn video_rom() {
    let rom = VideoRom {
        font_08: (0..2048u32).map(|i| (i % 253) as u8).collect(),
        font_14: (0..3584u32).map(|i| (i % 251) as u8).collect(),
        font_16: (0..4096u32).map(|i| (i % 249) as u8).collect(),
        parameters: vec![0xEE; 64],
    };
    let mut machine = Machine::default();
    machine.install_video_rom(&rom);
    let gpu = &machine.hw.gpu;
    let mmu = &machine.cpu.mmu;
    assert_eq!(vec![0x55, 0xAA, 0x40, 0xFE, 0x38, 0x00, 0x00, 0xCB], mmu.read(0xC000, 3, 8));
    assert_eq!(b"IBM compatible VGA BIOS\0".to_vec(), mmu.read(0xC000, 0x1E, 24));
    assert_eq!(0xC0100, gpu.font_8_first.value());
    assert_eq!(0xC0500, gpu.font_8_second.value());
    assert_eq!(0xC0900, gpu.font_14.value());
    assert_eq!(0xC1700, gpu.font_16.value());
    assert_eq!(0xC2700, gpu.static_config.value());
    assert_eq!(0xC2710, gpu.font_14_alternate.value());
    assert_eq!(0xC2710, gpu.font_16_alternate.value());
    assert_eq!(0xC2711, gpu.video_parameter_table.value());
    assert_eq!(0xC2751, gpu.video_dcc_table.value());
    assert_eq!(rom.font_08, mmu.read(0xC000, 0x0100, 2048));
    assert_eq!(rom.font_14, mmu.read(0xC000, 0x0900, 3584));
    assert_eq!(rom.font_16, mmu.read(0xC000, 0x1700, 4096));
    assert_eq!(
        vec![0xFF, 0xFF, 0x0F, 0, 0, 0, 0, 0x07, 0x04, 0x02, 0xFF, 0x0E, 0, 0, 0, 0, 0x00],
        mmu.read(0xC000, 0x2700, 17)
    );
    assert_eq!(vec![0xEE; 64], mmu.read(0xC000, 0x2711, 64));
    assert_eq!(vec![0x10, 0x01, 0x08, 0x00, 0x00, 0x00, 0x00, 0x01], mmu.read(0xC000, 0x2751, 8));
    assert_eq!(vec![0x06, 0x07], mmu.read(0xC000, 0x2751 + 4 + 30, 2));
    // the secondary save pointer table: its length, then the pointer to the
    // display combination table
    assert_eq!(0x001A, mmu.read_u16(0xC000, 0x2775));
    assert_eq!(0xC2751, mmu.read_u32(0xC000, 0x2777));
    // the BIOS data area points at the save pointer table
    assert_eq!(0xC2775 + 0x1A, mmu.read_u32(0x0040, 0x00A8));
    assert_eq!(0xC2711, mmu.read_u32(0xC000, 0x278F));
    assert_eq!(0xC2775, mmu.read_u32(0xC000, 0x278F + 16));
    // the second half of the 8x8 font serves the characters from 80h on
    assert_eq!((0xC000, 0x0500), mmu.read_vec(0x1F));
    // a CGA has the first half of the 8x8 font only, from offset 3 on
    let mut gpu = GPU::default();
    gpu.card = GraphicCard::CGA;
    let mut mmu = MMU::new();
    gpu.init(&mut mmu, &rom);
    assert_eq!(0xC0003, gpu.font_8_first.value());
    assert_eq!(rom.font_08[..1024].to_vec(), mmu.read(0xC000, 3, 1024));
    assert_eq!(0, gpu.font_8_second.value());
    assert_eq!(0xC0403, gpu.font_14_alternate.value());
    assert_eq!(vec![0; 16], mmu.read(0xC000, 0x0403, 16));
    assert_eq!((0, 0), mmu.read_vec(0x1F));
    assert_eq!(0, mmu.read_u32(0x0040, 0x00A8));
    let mut table = vec![1u8, 2, 3];
    let mut addr = MemoryAddress::RealSegmentOffset(0xC000, 0x8000);
    assert_eq!(3, gpu.setup_video_parameter_table(&mut mmu, &mut addr, &table));
    assert_eq!(0x8003, addr.offset());
    table.push(0);
    assert_eq!(table, mmu.read(0xC000, 0x8000, 4));
}

fn machine_with(code: &[u8]) -> Machine {
    let mut machine = Machine::default();
    machine.load_executable(code).unwrap();
    machine
}

#[test]
fn host_services() {
    // int 10h, ah = 0eh: teletype
    let mut machine = machine_with(&[
        0xB8, 0x41, 0x0E,       // mov ax,0x0e41
        0xB7, 0x00,             // mov bh,0
        0xCD, 0x10,             // int 0x10
        0xB4, 0x0F,             // mov ah,0x0f
        0xCD, 0x10,             // int 0x10
        0xB8, 0x00, 0x4C,       // mov ax,0x4c00
        0xCD, 0x21,             // int 0x21
    ]);
    machine.execute_instructions(4);
    assert_eq!(0x0107, machine.cpu.ip);
    assert_eq!(b'A', machine.cpu.mmu.read_u8(0xB800, 0));
    assert_eq!(1, machine.cpu.mmu.read_u8(0x40, 0x50));
    assert_eq!(0x07, machine.cpu.mmu.read_u8(0xB800, 1));
    machine.execute_instructions(3);
    // 80 columns, mode 3
    assert_eq!(0x5003, machine.cpu.r16[AX].u16());
    machine.execute_instructions(3);
    assert!(machine.cpu.halted);
    assert_eq!(Service::Teletype, dustbox::machine::service_for(0x10, 0x0E, 0x41));
    assert_eq!(Service::Terminate, dustbox::machine::service_for(0x21, 0x4C, 0));
    assert_eq!(Service::Terminate, dustbox::machine::service_for(0x20, 0, 0));
    assert_eq!(Service::PrintString, dustbox::machine::service_for(0x21, 0x09, 0));
    assert_eq!(Service::Unknown, dustbox::machine::service_for(0x21, 0x30, 0));
    assert_eq!(Service::SetDacBlock, dustbox::machine::service_for(0x10, 0x10, 0x12));
    assert_eq!(Service::LoadChars, dustbox::machine::service_for(0x10, 0x11, 0x24));
    assert_eq!(Service::KeyRead, dustbox::machine::service_for(0x16, 0, 0));
}

#[test]
fn host_services_take_their_arguments_from_registers() {
    let mut machine = Machine::default();
    machine.cpu.set_r16(0, 0x0013);
    assert!(machine.handle_interrupt(0x10));
    assert_eq!(0x13, machine.hw.gpu.mode.mode);
    // an unknown mode is refused
    machine.cpu.set_r16(0, 0x0055);
    assert!(!machine.handle_interrupt(0x10));
    assert_eq!(0x13, machine.hw.gpu.mode.mode);
    // write pixel: colour al, x cx, y dx
    machine.cpu.set_r16(0, 0x0C2A);
    machine.cpu.set_r16(1, 3);
    machine.cpu.set_r16(2, 1);
    assert!(machine.handle_interrupt(0x10));
    assert_eq!(0x2A, machine.cpu.mmu.read_u8(0xA000, 323));
    // get mode
    machine.cpu.set_r16(0, 0x0F00);
    assert!(machine.handle_interrupt(0x10));
    assert_eq!(0x2813, machine.cpu.r16[AX].u16());
    assert_eq!(0x00, machine.cpu.get_r8(7));
    // set and get a dac register
    machine.cpu.set_r16(0, 0x1010);
    machine.cpu.set_r16(3, 0x0007);
    machine.cpu.set_r16(2, 0x3F00);
    machine.cpu.set_r16(1, 0x2A15);
    assert!(machine.handle_interrupt(0x10));
    assert_eq!(ColorSpace::RGB(0xFF, 0xAA, 0x55), machine.hw.gpu.dac.pal[7]);
    machine.cpu.set_r16(0, 0x1015);
    machine.cpu.set_r16(1, 0);
    machine.cpu.set_r16(2, 0);
    assert!(machine.handle_interrupt(0x10));
    assert_eq!(0x3F00, machine.cpu.r16[DX].u16());
    assert_eq!(0x2A15, machine.cpu.r16[CX].u16());
    // set cursor: row dh, column dl, page bh
    machine.cpu.set_r16(0, 0x0200);
    machine.cpu.set_r16(3, 0x0100);
    machine.cpu.set_r16(2, 0x0305);
    assert!(machine.handle_interrupt(0x10));
    assert_eq!((5, 3), (machine.cpu.mmu.read_u8(0x40, 0x52), machine.cpu.mmu.read_u8(0x40, 0x53)));
    // keyboard: no key
    machine.cpu.set_r16(0, 0x00FF);
    assert!(machine.handle_interrupt(0x16));
    assert_eq!(0, machine.cpu.r16[AX].u16());
    // an unknown service changes nothing
    machine.cpu.set_r16(0, 0x3000);
    let bx = machine.cpu.r16[BX].u16();
    assert!(!machine.handle_interrupt(0x21));
    assert_eq!(0x3000, machine.cpu.r16[AX].u16());
    assert_eq!(bx, machine.cpu.r16[BX].u16());
    assert!(!machine.handle_interrupt(0x33));
}

#[test]
fn dos_prints_a_string_up_to_its_dollar() {
    let mut code = vec![
        0xBA, 0x0B, 0x01,       // mov dx,0x010b
        0xB4, 0x09,             // mov ah,9
        0xCD, 0x21,             // int 0x21
        0xB4, 0x4C,             // mov ah,0x4c
        0xCD, 0x21,             // int 0x21
    ];
    code.extend_from_slice(b"Hello\r\nyou$ not this");
    let mut machine = machine_with(&code);
    machine.execute_frame();
    assert!(machine.cpu.halted);
    assert!(!machine.cpu.fatal_error);
    let row0 = machine.cpu.mmu.read(0xB800, 0, 12);
    assert_eq!(b"H\x07e\x07l\x07l\x07o\x07 \x07".to_vec(), row0);
    assert_eq!(b"y\x07o\x07u\x07 \x07".to_vec(), machine.cpu.mmu.read(0xB800, 160, 8));
    assert_eq!((3, 1), (machine.cpu.mmu.read_u8(0x40, 0x50), machine.cpu.mmu.read_u8(0x40, 0x51)));
    // int 21h, ah = 02h prints the character in dl
    let mut machine = machine_with(&[0xB2, 0x21, 0xB4, 0x02, 0xCD, 0x21, 0xF4]);
    machine.execute_frame();
    assert_eq!(vec![b'!', 0x07], machine.cpu.mmu.read(0xB800, 0, 2));
}

#[test]
fn ports() {
    let mut machine = machine_with(&[
        0xBA, 0xC8, 0x03,       // mov dx,0x3c8
        0xB0, 0x02,             // mov al,2
        0xEE,                   // out dx,al       write index 2
        0x42,                   // inc dx
        0xB0, 0x3F,             // mov al,0x3f
        0xEE,                   // out dx,al       red
        0xB0, 0x00,             // mov al,0
        0xEE,                   // out dx,al       green
        0xEE,                   // out dx,al       blue
        0xBA, 0xDA, 0x03,       // mov dx,0x3da
        0xEC,                   // in al,dx
        0xBA, 0xC7, 0x03,       // mov dx,0x3c7
        0xB0, 0x02,             // mov al,2
        0xEE,                   // out dx,al       read index 2
        0xBA, 0xC9, 0x03,       // mov dx,0x3c9
        0xED,                   // in ax,dx        red, and the byte of port 3cah
    ]);
    machine.execute_instructions(9);
    assert_eq!(ColorSpace::RGB(0xFF, 0x00, 0x00), machine.hw.gpu.dac.pal[2]);
    assert_eq!(3, machine.hw.gpu.dac.write_index);
    machine.execute_instructions(2);
    assert_eq!(0x09, machine.cpu.get_r8(0));
    machine.execute_instructions(5);
    assert_eq!(0x003F, machine.cpu.r16[AX].u16());
    assert_eq!(0, machine.port_in8(0x1234));
    machine.port_out(0x3D4, 0x550E, true);
    assert_eq!(0x55, machine.hw.gpu.crtc.registers[0x0E]);
    assert_eq!(0x55, machine.port_in8(0x3D5));
}

#[test]
fn peripherals_tick_every_100_cycles() {
    let mut machine = machine_with(&[0xEB, 0xFE]); // jmp self
    machine.execute_instructions(99);
    assert_eq!(0, machine.hw.gpu.scanline);
    assert_eq!(0, machine.hw.pit.counter0.count);
    machine.execute_instructions(1);
    assert_eq!(1, machine.hw.gpu.scanline);
    assert_eq!(0xFFFF, machine.hw.pit.counter0.count);
    machine.execute_instructions(200);
    assert_eq!(3, machine.hw.gpu.scanline);
    assert_eq!(0xFFFD, machine.hw.pit.counter0.count);
    assert_eq!(300, machine.cpu.cycle_count);
    // a frame ends after clock / 60 instructions, and the count starts again
    machine.execute_frame();
    assert_eq!(0, machine.cpu.cycle_count);
    assert_eq!(5_000_000 / 60 + 1, machine.cpu.instruction_count);
    machine.execute_frame();
    assert_eq!(2 * (5_000_000 / 60 + 1), machine.cpu.instruction_count);
    // a fatal error ends the frame
    let mut machine = machine_with(&[0x90, 0x0F, 0xFF]);
    machine.execute_frame();
    assert!(machine.cpu.fatal_error);
    assert_eq!(1, machine.cpu.instruction_count);
}

#[test]
fn control_characters_move_the_cursor_in_any_mode() {
    let mut machine = Machine::default();
    machine.cpu.set_r16(0, 0x0006); // 640x200 in two colours
    assert!(machine.handle_interrupt(0x10));
    assert_eq!(GFXMode::CGA2, machine.hw.gpu.mode.kind);
    let cursor = |m: &Machine| (m.cpu.mmu.read_u8(0x40, 0x50), m.cpu.mmu.read_u8(0x40, 0x51));
    assert_eq!((0, 0), cursor(&machine));
    // int 10h, ah = 0eh: a line feed
    machine.cpu.set_r16(3, 0);
    machine.cpu.set_r16(0, 0x0E0A);
    assert!(machine.handle_interrupt(0x10));
    assert_eq!((0, 1), cursor(&machine));
    // a character that would have to be drawn is refused, and nothing changes
    let before = machine.cpu.mmu.memory.memory.clone();
    machine.cpu.set_r16(0, 0x0E41);
    assert!(!machine.handle_interrupt(0x10));
    assert!(before == machine.cpu.mmu.memory.memory);
    // int 21h, ah = 09h: a string of control characters
    machine.cpu.set_sreg(3, 0x2000);
    machine.cpu.mmu.write(0x2000, 0x0010, b"\n\n\r$A");
    machine.cpu.set_r16(2, 0x0010);
    machine.cpu.set_r16(0, 0x0900);
    assert!(machine.handle_interrupt(0x21));
    assert_eq!((0, 3), cursor(&machine));
    // a string with a character to draw is refused as a whole
    machine.cpu.mmu.write(0x2000, 0x0010, b"\n\nA\n$");
    let before = machine.cpu.mmu.memory.memory.clone();
    let registers = machine.hw.gpu.crtc.registers;
    assert!(!machine.handle_interrupt(0x21));
    assert!(before == machine.cpu.mmu.memory.memory);
    assert_eq!(registers, machine.hw.gpu.crtc.registers);
    assert_eq!((0, 3), cursor(&machine));
    // int 21h, ah = 02h: the character in dl
    machine.cpu.set_r16(2, 0x000A);
    machine.cpu.set_r16(0, 0x0200);
    assert!(machine.handle_interrupt(0x21));
    assert_eq!((0, 4), cursor(&machine));
    machine.cpu.set_r16(2, 0x0041);
    assert!(!machine.handle_interrupt(0x21));
    // int 10h, ah = 13h: two line feeds from row 2, column 5 on; the cursor moves along
    machine.cpu.set_sreg(0, 0x2000);
    machine.cpu.mmu.write(0x2000, 0x0020, b"\n\nB");
    machine.cpu.set_r16(5, 0x0020);
    machine.cpu.set_r16(1, 2);
    machine.cpu.set_r16(2, 0x0205);
    machine.cpu.set_r16(3, 0x0007);
    machine.cpu.set_r16(0, 0x1301);
    assert!(machine.handle_interrupt(0x10));
    assert_eq!((5, 4), cursor(&machine));
    // with the third character it is refused
    machine.cpu.set_r16(1, 3);
    assert!(!machine.handle_interrupt(0x10));
    assert_eq!((5, 4), cursor(&machine));
}

#[test]
fn a_string_can_be_tried_before_it_is_written() {
    let mut machine = Machine::default();
    machine.cpu.set_r16(0, 0x0006);
    assert!(machine.handle_interrupt(0x10));
    let gpu = &mut machine.hw.gpu;
    let mmu = &mut machine.cpu.mmu;
    mmu.write(0x2000, 0, b"\r\n\x08x");
    let before = mmu.memory.memory.clone();
    assert!(gpu.can_write_string(mmu, 1, 1, 1, 7, 0x2000, 0, 3, 0));
    assert!(!gpu.can_write_string(mmu, 1, 1, 1, 7, 0x2000, 0, 4, 0));
    assert!(gpu.can_write_string(mmu, 1, 1, 1, 7, 0x2000, 0, 0, 0));
    assert!(before == mmu.memory.memory);
    assert_eq!((0, 0), (mmu.read_u8(0x40, 0x50), mmu.read_u8(0x40, 0x51)));
    gpu.write_string(mmu, 1, 1, 1, 7, 0x2000, 0, 3, 0);
    assert_eq!((0, 2), (mmu.read_u8(0x40, 0x50), mmu.read_u8(0x40, 0x51)));
    gpu.teletype_output(mmu, b'\n', 0, 7);
    assert_eq!((0, 3), (mmu.read_u8(0x40, 0x50), mmu.read_u8(0x40, 0x51)));
    // in a text mode every string can be written
    let mut machine = Machine::default();
    machine.cpu.mmu.write(0x2000, 0, b"text");
    let before = machine.cpu.mmu.memory.memory.clone();
    assert!(machine.hw.gpu.can_write_string(&mut machine.cpu.mmu, 0, 0, 0, 7, 0x2000, 0, 4, 0));
    assert!(before == machine.cpu.mmu.memory.memory);
}
