use dustbox::loader::{LoadError, LOAD_SEGMENT, PROGRAM_BASE};
use dustbox::machine::Machine;
use dustbox::palette::vga_palette;
use dustbox::register::{AX, BP, CS, CX, DI, DS, DX, ES, SI, SP, SS};

fn mz_file(relocs: &[(u16, u16)], code: &[u8]) -> Vec<u8> {
    let header_paragraphs: u16 = 4; // 64 bytes of header and relocation table
    let total = 64 + code.len();
    let blocks = ((total + 511) / 512) as u16;
    let last = (total % 512) as u16;
    let words: [u16; 14] = [
        0x5A4D, last, blocks, relocs.len() as u16, header_paragraphs, 0, 0xFFFF, 0x0923, 0x1000, 0,
        0x0000, 0x0000, 28, 0,
    ];
    let mut out = Vec::new();
    for w in words.iter() {
        out.push((w & 0xFF) as u8);
        out.push((w >> 8) as u8);
    }
    for (seg, off) in relocs {
        out.push((off & 0xFF) as u8);
        out.push((off >> 8) as u8);
        out.push((seg & 0xFF) as u8);
        out.push((seg >> 8) as u8);
    }
    while out.len() < 64 {
        out.push(0);
    }
    out.extend_from_slice(code);
    out
}

#[test]
fn com_load_seeds_registers() {
    let mut machine = Machine::default();
    let code: Vec<u8> = vec![0xB8, 0x01, 0x00, 0xF4];
    assert!(machine.load_executable(&code).is_ok());
    let cpu = &machine.cpu;
    assert_eq!(0x0100, cpu.ip);
    assert_eq!(0x085F, cpu.sreg16[CS].u16());
    assert_eq!(0x085F, cpu.sreg16[DS].u16());
    assert_eq!(0x085F, cpu.sreg16[ES].u16());
    assert_eq!(0x085F, cpu.sreg16[SS].u16());
    assert_eq!(0xFFFE, cpu.r16[SP].u16());
    assert_eq!(0x091C, cpu.r16[BP].u16());
    assert_eq!(0x00FF, cpu.r16[CX].u16());
    assert_eq!(0x085F, cpu.r16[DX].u16());
    assert_eq!(0x0100, cpu.r16[SI].u16());
    assert_eq!(0xFFFE, cpu.r16[DI].u16());
    assert_eq!(0x86F0, cpu.rom_base);
    assert_eq!(4, cpu.rom_length);
    assert_eq!(code, machine.cpu.mmu.read(0x085F, 0x0100, 4));
    assert_eq!(0x86F0, cpu.get_offset());
}

#[test]
fn com_runs_to_halt() {
    let mut machine = Machine::default();
    let code: Vec<u8> = vec![
        0xB8, 0x34, 0x12, // mov ax,0x1234
        0xF4,             // hlt
    ];
    machine.load_executable(&code).unwrap();
    machine.execute_instructions(2);
    assert_eq!(0x1234, machine.cpu.r16[AX].u16());
    assert!(machine.cpu.halted);
    assert!(!machine.cpu.fatal_error);
    assert_eq!(2, machine.cpu.instruction_count);
}

#[test]
fn too_large_image_is_refused() {
    let mut machine = Machine::default();
    let code: Vec<u8> = vec![0x90; 0xFF01];
    assert_eq!(Err(LoadError::TooLarge), machine.load_executable(&code));
    assert_eq!(0, machine.cpu.ip);
    assert_eq!(0, machine.cpu.rom_length);
}

#[test]
fn truncated_mz_is_refused() {
    let mut machine = Machine::default();
    let file: Vec<u8> = vec![0x4D, 0x5A, 0x00, 0x00];
    assert_eq!(Err(LoadError::Malformed), machine.load_executable(&file));
    assert_eq!(0, machine.cpu.ip);
    let mut file = mz_file(&[(0, 1)], &[0x90, 0x34, 0x12]);
    file.truncate(66);
    assert_eq!(Err(LoadError::Malformed), machine.load_executable(&file));
}

#[test]
fn mz_relocation_points_outside_image() {
    let mut machine = Machine::default();
    let file = mz_file(&[(0, 2)], &[0x90, 0x34, 0x12]);
    assert_eq!(Err(LoadError::Malformed), machine.load_executable(&file));
}

#[test]
fn mz_load_applies_relocation() {
    let mut machine = Machine::default();
    let file = mz_file(&[(0, 1)], &[0xB8, 0x34, 0x12, 0xF4]);
    assert!(machine.load_executable(&file).is_ok());
    // the code image lies at the program base, the header is left out
    assert_eq!(0xB8, machine.cpu.mmu.memory.read_u8(PROGRAM_BASE));
    assert_eq!(0xF4, machine.cpu.mmu.memory.read_u8(PROGRAM_BASE + 3));
    // the word at base + 1 is rebased by the load segment
    assert_eq!(0x1234 + LOAD_SEGMENT, machine.cpu.mmu.memory.read_u16(PROGRAM_BASE + 1));
    // stack from the header
    assert_eq!(0x1000, machine.cpu.r16[SP].u16());
    assert_eq!(0x0923, machine.cpu.sreg16[SS].u16());
    assert_eq!(0x0100, machine.cpu.ip);
    assert_eq!(4, machine.cpu.rom_length);
}

#[test]
fn relocation_adds_the_delta_to_the_named_word() {
    let mut machine = Machine::default();
    let file = mz_file(&[(0, 1)], &[0xB8, 0x34, 0x12, 0xF4]);
    let header = dustbox::loader::parse_header(&file).unwrap();
    assert_eq!(1, header.num_relocs);
    machine.cpu.load_com(&file[64..]);
    machine.cpu.relocate(PROGRAM_BASE, &file, &header, 0x10);
    assert_eq!(0x1234 + 0x10, machine.cpu.mmu.memory.read_u16(PROGRAM_BASE + 1));
    assert_eq!(0xB8, machine.cpu.mmu.memory.read_u8(PROGRAM_BASE));
    assert_eq!(0xF4, machine.cpu.mmu.memory.read_u8(PROGRAM_BASE + 3));
}

#[test]
fn int10_sets_mode_13() {
    let mut machine = Machine::default();
    let code: Vec<u8> = vec![
        0xB8, 0x13, 0x00, // mov ax,0x13
        0xCD, 0x10,       // int 0x10
        0xF4,             // hlt
    ];
    machine.load_executable(&code).unwrap();
    machine.execute_instructions(2); // mov, int: now at F000:0010
    assert_eq!(0xF000, machine.cpu.sreg16[CS].u16());
    assert_eq!(0x0010, machine.cpu.ip);
    machine.execute_instruction(); // the service, then the iret
    assert_eq!(0x085F, machine.cpu.sreg16[CS].u16());
    assert_eq!(0x0105, machine.cpu.ip);
    assert_eq!(0x13, machine.hw.gpu.mode.mode);
    assert_eq!(320, machine.hw.gpu.mode.swidth);
    assert_eq!(200, machine.hw.gpu.mode.sheight);
    assert_eq!(vga_palette(), machine.hw.gpu.dac.pal);
    // BIOS data area: mode, columns
    assert_eq!(0x13, machine.cpu.mmu.read_u8(0x0040, 0x0049));
    assert_eq!(40, machine.cpu.mmu.read_u16(0x0040, 0x004A));
}

#[test]
fn frame_of_mode_13_shows_palette_colours() {
    let mut machine = Machine::default();
    let code: Vec<u8> = vec![
        0xB8, 0x13, 0x00, // mov ax,0x13
        0xCD, 0x10,       // int 0x10
        0xB8, 0x00, 0xA0, // mov ax,0xa000
        0x8E, 0xC0,       // mov es,ax
        0x31, 0xFF,       // xor di,di
        0xB0, 0x04,       // mov al,4   (red)
        0xAA,             // stosb
        0xB0, 0x0F,       // mov al,15  (white)
        0xAA,             // stosb
        0xF4,             // hlt
    ];
    machine.load_executable(&code).unwrap();
    machine.execute_frame();
    assert!(machine.cpu.halted);
    let frame = machine.hw.gpu.render_frame(&machine.cpu.mmu);
    assert_eq!(320 * 200 * 3, frame.len());
    assert_eq!(&[0xAA, 0x00, 0x00], &frame[0..3]);
    assert_eq!(&[0xFF, 0xFF, 0xFF], &frame[3..6]);
    assert_eq!(&[0x00, 0x00, 0x00], &frame[6..9]);
}

#[test]
fn machine_is_switched_on_in_text_mode() {
    let machine = Machine::default();
    assert_eq!(3, machine.hw.gpu.mode.mode);
    assert_eq!(0x03, machine.cpu.mmu.read_u8(0x0040, 0x0049));
    assert_eq!(80, machine.cpu.mmu.read_u16(0x0040, 0x004A));
    assert_eq!(24, machine.cpu.mmu.read_u8(0x0040, 0x0084));
    assert_eq!(vec![0x20, 0x07], machine.cpu.mmu.read(0xB800, 0, 2));
    // every interrupt vector points at an iret in the BIOS ROM segment
    for n in [0u16, 0x10, 0x21, 0xFF] {
        if n != 0x43 {
            assert_eq!((0xF000, n), machine.cpu.mmu.read_vec(n));
        }
        assert_eq!(0xCF, machine.cpu.mmu.read_u8(0xF000, n));
    }
    assert_eq!(0, machine.cpu.ip);
    assert_eq!(0xFFF0, machine.cpu.r16[SP].u16());
    assert_eq!(0, machine.hw.pit.counter0.count);
}

#[test]
fn hard_reset_keeps_memory() {
    let mut machine = Machine::default();
    let code: Vec<u8> = vec![0xB8, 0x34, 0x12, 0xF4];
    machine.load_executable(&code).unwrap();
    machine.execute_instructions(2);
    machine.hard_reset();
    assert_eq!(0, machine.cpu.ip);
    assert_eq!(0, machine.cpu.r16[AX].u16());
    assert_eq!(0xFFF0, machine.cpu.r16[SP].u16());
    assert!(!machine.cpu.halted);
    assert_eq!(code, machine.cpu.mmu.read(0x085F, 0x0100, 4));
    let snapshot = machine.register_snapshot();
    assert_eq!(0, snapshot.ip);
    assert_eq!(0xDEAD, snapshot.sreg16[DS].u16());
}
