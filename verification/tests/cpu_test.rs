use dustbox::cpu::CPU;
use dustbox::register::{AX, CX, DS, DX, ES, SP};

#[test]
fn can_execute_sr_r16() {
    let mut cpu = CPU::new();
    let code: Vec<u8> = vec![
        0xB9, 0x23, 0x01, // mov cx,0x123
        0x8E, 0xC1,       // mov es,cx   | sr, r16
    ];
    cpu.load_rom(&code, 0x100);

    cpu.execute_instruction();
    assert_eq!(0x103, cpu.ip);
    assert_eq!(0x123, cpu.r16[CX].u16());

    cpu.execute_instruction();
    assert_eq!(0x105, cpu.ip);
    assert_eq!(0x123, cpu.sreg16[ES].u16());
}

#[test]
fn can_execute_r16_r16() {
    let mut cpu = CPU::new();
    let code: Vec<u8> = vec![
        0xB8, 0x23, 0x01, // mov ax,0x123
        0x8B, 0xE0,       // mov sp,ax   | r16, r16
    ];
    cpu.load_rom(&code, 0x100);

    cpu.execute_instruction();
    assert_eq!(0x103, cpu.ip);
    assert_eq!(0x123, cpu.r16[AX].u16());

    cpu.execute_instruction();
    assert_eq!(0x105, cpu.ip);
    assert_eq!(0x123, cpu.r16[SP].u16());
}

#[test]
fn can_handle_stack() {
    let mut cpu = CPU::new();
    let code: Vec<u8> = vec![
        0xB8, 0x88, 0x88, // mov ax,0x8888
        0x8E, 0xD8,       // mov ds,ax
        0x1E,             // push ds
        0x07,             // pop es
    ];
    cpu.load_rom(&code, 0x100);

    cpu.execute_instruction(); // mov
    cpu.execute_instruction(); // mov

    assert_eq!(0xFFF0, cpu.r16[SP].u16());
    cpu.execute_instruction(); // push
    assert_eq!(0xFFEE, cpu.r16[SP].u16());
    cpu.execute_instruction(); // pop
    assert_eq!(0xFFF0, cpu.r16[SP].u16());

    assert_eq!(0x107, cpu.ip);
    assert_eq!(0x8888, cpu.r16[AX].u16());
    assert_eq!(0x8888, cpu.sreg16[DS].u16());
    assert_eq!(0x8888, cpu.sreg16[ES].u16());
}

#[test]
fn can_execute_mov() {
    let mut cpu = CPU::new();
    let code: Vec<u8> = vec![
        0xB2, 0x13, // mov dl,0x13
        0x88, 0xD0, // mov al,dl
    ];
    cpu.load_rom(&code, 0x100);

    cpu.execute_instruction(); // mov dl,0x13
    assert_eq!(0x102, cpu.ip);
    assert_eq!(0x13, cpu.r16[DX].lo_u8());

    cpu.execute_instruction(); // mov al,dl
    assert_eq!(0x104, cpu.ip);
    assert_eq!(0x13, cpu.r16[AX].lo_u8());
}

#[test]
fn add_sets_arithmetic_flags() {
    let mut cpu = CPU::new();
    let code: Vec<u8> = vec![
        0xB0, 0x7F, // mov al,0x7f
        0x04, 0x01, // add al,1
    ];
    cpu.load_rom(&code, 0x100);
    cpu.execute_instruction();
    cpu.execute_instruction();
    assert_eq!(0x80, cpu.r16[AX].lo_u8());
    assert!(!cpu.flags.carry);
    assert!(cpu.flags.sign);
    assert!(!cpu.flags.zero);
    assert!(cpu.flags.overflow);
    assert!(!cpu.flags.parity);
    assert!(cpu.flags.adjust);
}

#[test]
fn loop_decrements_cx_and_branches() {
    let mut cpu = CPU::new();
    let code: Vec<u8> = vec![
        0xB9, 0x03, 0x00, // mov cx,3
        0x49,             // dec cx
        0xE2, 0xFD,       // loop -3
    ];
    cpu.load_rom(&code, 0x100);
    cpu.execute_instruction(); // mov
    assert_eq!(3, cpu.r16[CX].u16());
    cpu.execute_instruction(); // dec
    assert_eq!(2, cpu.r16[CX].u16());
    cpu.execute_instruction(); // loop, first run: taken
    assert_eq!(1, cpu.r16[CX].u16());
    assert_eq!(0x103, cpu.ip);
    cpu.execute_instruction(); // dec
    assert_eq!(0, cpu.r16[CX].u16());
    assert!(cpu.flags.zero);
    cpu.execute_instruction(); // loop, second run: cx wraps, so taken again
    assert_eq!(0xFFFF, cpu.r16[CX].u16());
    assert_eq!(0x103, cpu.ip);
    assert_eq!(5, cpu.instruction_count);
}
