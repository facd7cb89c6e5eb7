use dustbox::cpu::CPU;
use dustbox::decoder::decode;
use dustbox::encoder::Encoder;
use dustbox::instruction::{Decoded, Parameter, Segment};
use dustbox::op::Op;
use dustbox::register::{AX, BP, BX, CS, CX, DI, DS, DX, ES, SI, SP, SS};
use dustbox::semantics::Effect;

fn cpu_with(code: &[u8]) -> CPU {
    let mut cpu = CPU::new();
    cpu.load_rom(&code.to_vec(), 0x100);
    // a data segment that is not in the way of code and stack
    cpu.set_sreg(3, 0x2000);
    cpu.set_sreg(0, 0x3000);
    cpu
}

fn run(cpu: &mut CPU, steps: usize) {
    for _ in 0..steps {
        cpu.execute_instruction();
    }
}

#[test]
fn new_cpu_is_reset() {
    let cpu = CPU::new();
    assert_eq!(0, cpu.ip);
    assert_eq!(0, cpu.instruction_count);
    assert_eq!(0xFFF0, cpu.r16[SP].u16());
    assert_eq!(0xDEAD, cpu.sreg16[DS].u16());
    for r in [AX, CX, DX, BX, BP, SI, DI] {
        assert_eq!(0, cpu.r16[r].u16());
    }
    for s in [ES, CS, SS] {
        assert_eq!(0, cpu.sreg16[s].u16());
    }
    assert_eq!(0xF002, cpu.flags.to_word());
    assert!(!cpu.fatal_error);
    assert!(!cpu.halted);
    assert_eq!(0, cpu.get_offset());
}

#[test]
fn load_rom_copies_up_to_64k() {
    let mut cpu = CPU::new();
    let code: Vec<u8> = (0..0x200u32).map(|i| (i % 251) as u8).collect();
    cpu.load_rom(&code, 0xFF00);
    assert_eq!(0xFF00, cpu.ip);
    assert_eq!(0xFF00, cpu.rom_base);
    assert_eq!(0x100, cpu.rom_length);
    assert_eq!(code[..0x100].to_vec(), cpu.read_u8_slice(0xFF00, 0x100));
    // nothing is written past the first 64 KiB
    assert_eq!(vec![0u8; 16], cpu.read_u8_slice(0x10000, 16));
    cpu.reset();
    assert_eq!(0, cpu.ip);
    assert_eq!(0, cpu.instruction_count);
    assert_eq!(code[..0x100].to_vec(), cpu.read_u8_slice(0xFF00, 0x100));
}

#[test]
fn byte_registers_alias_word_registers() {
    let mut cpu = cpu_with(&[
        0xB8, 0x34, 0x12, // mov ax,0x1234
        0xB4, 0xAB,       // mov ah,0xab
        0x88, 0xE3,       // mov bl,ah
        0x88, 0xC7,       // mov bh,al
    ]);
    run(&mut cpu, 4);
    assert_eq!(0xAB34, cpu.r16[AX].u16());
    assert_eq!(0x34AB, cpu.r16[BX].u16());
    assert_eq!(0xAB, cpu.get_r8(4));
    assert_eq!(0x34, cpu.get_r8(0));
    assert_eq!(0xAB, cpu.get_parameter_value(&Parameter::Reg8(3)));
    assert_eq!(0x34AB, cpu.get_parameter_value(&Parameter::Reg16(3)));
    assert_eq!(0x2000, cpu.get_parameter_value(&Parameter::SReg16(3)));
    assert_eq!(0x12, cpu.get_parameter_value(&Parameter::Imm8(0x12)));
    assert_eq!(0, cpu.get_parameter_value(&Parameter::Empty));
    cpu.write_u8_param(&Parameter::Reg8(5), 0x77);
    assert_eq!(0x7700, cpu.r16[CX].u16());
    cpu.write_u16_param(&Parameter::SReg16(0), 0x1111);
    assert_eq!(0x1111, cpu.sreg16[ES].u16());
    cpu.write_u16_param(&Parameter::Imm16(5), 0x2222);
    assert_eq!(4, cpu.instruction_count);
}

#[test]
fn memory_operands() {
    let mut cpu = cpu_with(&[
        0xBB, 0x00, 0x10,             // mov bx,0x1000
        0xBE, 0x02, 0x00,             // mov si,2
        0xC7, 0x00, 0x34, 0x12,       // mov word [bx+si],0x1234
        0x8B, 0x87, 0x02, 0x00,       // mov ax,[bx+2]
        0x26, 0x89, 0x40, 0xFE,       // mov [es:bx+si-2],ax
        0xBD, 0x00, 0x80,             // mov bp,0x8000
        0x89, 0x46, 0x00,             // mov [bp+0],ax     (stack segment)
        0x8D, 0x52, 0x7F,             // lea dx,[bp+si+0x7f]
        0xA0, 0x03, 0x10,             // mov al,[0x1003]
    ]);
    run(&mut cpu, 9);
    assert_eq!(0x1234, cpu.mmu.read_u16(0x2000, 0x1002));
    assert_eq!(0x1234, cpu.mmu.read_u16(0x3000, 0x1000));
    assert_eq!(0x1234, cpu.mmu.read_u16(0x0000, 0x8000));
    assert_eq!(0x8081, cpu.r16[DX].u16());
    assert_eq!(0x1212, cpu.r16[AX].u16());
    assert!(!cpu.fatal_error);
    assert_eq!(0x1234, cpu.peek_u16_at(0x21002));
    assert_eq!(0x12, cpu.peek_u8_at(0x21003));
    cpu.write_u16(0x21002, 0xBEEF);
    cpu.write_u8(0x21004, 0x01);
    assert_eq!(0xBEEF, cpu.mmu.read_u16(0x2000, 0x1002));
    assert_eq!(0x01, cpu.mmu.read_u8(0x2000, 0x1004));
}

#[test]
fn access_outside_memory_is_fatal() {
    let mut cpu = cpu_with(&[
        0xB8, 0xFF, 0xFF,       // mov ax,0xffff
        0x8E, 0xD8,             // mov ds,ax
        0xA0, 0x10, 0x00,       // mov al,[0x0010]   at flat 0x100000
    ]);
    run(&mut cpu, 2);
    assert!(!cpu.fatal_error);
    run(&mut cpu, 1);
    assert!(cpu.fatal_error);
    assert_eq!(0x00, cpu.get_r8(0));
    let mut cpu = cpu_with(&[
        0xB8, 0xFF, 0xFF,       // mov ax,0xffff
        0x8E, 0xD8,             // mov ds,ax
        0xA3, 0x0F, 0x00,       // mov [0x000f],ax   the high byte lies outside
    ]);
    run(&mut cpu, 3);
    assert!(cpu.fatal_error);
    assert_eq!(0x00, cpu.mmu.memory.read_u8(0xFFFFF));
}

#[test]
fn invalid_instruction_is_fatal_and_is_not_counted() {
    let mut cpu = cpu_with(&[0x90, 0x0F, 0xFF]);
    run(&mut cpu, 1);
    assert_eq!(1, cpu.instruction_count);
    assert!(!cpu.fatal_error);
    run(&mut cpu, 1);
    assert!(cpu.fatal_error);
    assert_eq!(0x101, cpu.ip);
    assert_eq!(1, cpu.instruction_count);
    // a 32-bit form is not implemented
    let mut cpu = cpu_with(&[0x66, 0x40]);
    run(&mut cpu, 1);
    assert!(cpu.fatal_error);
    assert_eq!(0, cpu.r16[AX].u16());
}

#[test]
fn push_and_pop_pairs() {
    for x in [0x0000u16, 0x0001, 0x8888, 0xFFFF] {
        let mut cpu = cpu_with(&[
            0xB8, (x & 0xFF) as u8, (x >> 8) as u8, // mov ax,x
            0x50,                                   // push ax
            0x5B,                                   // pop bx
        ]);
        run(&mut cpu, 2);
        assert_eq!(0xFFEE, cpu.r16[SP].u16());
        assert_eq!(x, cpu.mmu.read_u16(0x0000, 0xFFEE));
        run(&mut cpu, 1);
        assert_eq!(0xFFF0, cpu.r16[SP].u16());
        assert_eq!(x, cpu.r16[BX].u16());
        assert_eq!(0, cpu.r16[SP].u16() % 2);
    }
    // push sp pushes the value before the push; pop sp takes what it pops
    let mut cpu = cpu_with(&[0x54, 0x58, 0x68, 0x34, 0x12, 0x5C]);
    run(&mut cpu, 2);
    assert_eq!(0xFFF0, cpu.r16[AX].u16());
    run(&mut cpu, 2);
    assert_eq!(0x1234, cpu.r16[SP].u16());
}

#[test]
fn pusha_and_popa() {
    let mut cpu = cpu_with(&[0x60, 0x31, 0xC0, 0x31, 0xDB, 0x31, 0xC9, 0x61]);
    for (i, v) in [0x1111u16, 0x2222, 0x3333, 0x4444].iter().enumerate() {
        cpu.set_r16(i as u8, *v);
    }
    cpu.set_r16(5, 0x5555);
    cpu.set_r16(6, 0x6666);
    cpu.set_r16(7, 0x7777);
    run(&mut cpu, 1);
    assert_eq!(0xFFE0, cpu.r16[SP].u16());
    assert_eq!(0x1111, cpu.mmu.read_u16(0, 0xFFEE));
    assert_eq!(0xFFF0, cpu.mmu.read_u16(0, 0xFFE6));
    assert_eq!(0x7777, cpu.mmu.read_u16(0, 0xFFE0));
    run(&mut cpu, 4);
    assert_eq!(0x1111, cpu.r16[AX].u16());
    assert_eq!(0x2222, cpu.r16[CX].u16());
    assert_eq!(0x3333, cpu.r16[DX].u16());
    assert_eq!(0x4444, cpu.r16[BX].u16());
    assert_eq!(0xFFF0, cpu.r16[SP].u16());
    assert_eq!(0x5555, cpu.r16[BP].u16());
    assert_eq!(0x6666, cpu.r16[SI].u16());
    assert_eq!(0x7777, cpu.r16[DI].u16());
}

#[test]
fn pushf_and_popf_round_trip() {
    for w in [0x0000u16, 0xFFFF, 0x0AD5, 0x0401, 0x08C4] {
        let mut cpu = cpu_with(&[
            0x68, (w & 0xFF) as u8, (w >> 8) as u8, // push w
            0x9D,                                   // popf
            0x9C,                                   // pushf
            0x58,                                   // pop ax
            0x9C,                                   // pushf
            0x9D,                                   // popf
        ]);
        run(&mut cpu, 4);
        assert_eq!((w & 0x0FD5) | 0xF002, cpu.r16[AX].u16());
        let flags = cpu.flags;
        run(&mut cpu, 2);
        assert_eq!(flags, cpu.flags);
        assert_eq!(0xFFF0, cpu.r16[SP].u16());
        assert_eq!((w & 0x0FD5) | 0xF002, cpu.flags.to_word());
    }
}

#[test]
fn call_and_ret() {
    let mut cpu = cpu_with(&[
        0xE8, 0x03, 0x00,       // 0100 call 0x0106
        0xF4,                   // 0103 hlt
        0x90, 0x90,             // 0104
        0xB8, 0x05, 0x00,       // 0106 mov ax,5
        0xC2, 0x02, 0x00,       // 0109 ret 2
    ]);
    run(&mut cpu, 1);
    assert_eq!(0x0106, cpu.ip);
    assert_eq!(0xFFEE, cpu.r16[SP].u16());
    assert_eq!(0x0103, cpu.mmu.read_u16(0, 0xFFEE));
    run(&mut cpu, 2);
    assert_eq!(0x0103, cpu.ip);
    assert_eq!(0xFFF2, cpu.r16[SP].u16());
    run(&mut cpu, 1);
    assert!(cpu.halted);
    // far call and far return
    let mut cpu = cpu_with(&[
        0x9A, 0x10, 0x00, 0x00, 0x10, // 0100 call 0x1000:0x0010
    ]);
    cpu.mmu.write(0x1000, 0x0010, &[0xCB]); // retf
    run(&mut cpu, 1);
    assert_eq!(0x1000, cpu.sreg16[CS].u16());
    assert_eq!(0x0010, cpu.ip);
    assert_eq!(0x0105, cpu.mmu.read_u16(0, 0xFFEC));
    assert_eq!(0x0000, cpu.mmu.read_u16(0, 0xFFEE));
    run(&mut cpu, 1);
    assert_eq!(0x0000, cpu.sreg16[CS].u16());
    assert_eq!(0x0105, cpu.ip);
    assert_eq!(0xFFF0, cpu.r16[SP].u16());
}

#[test]
fn conditional_jumps() {
    // cmp al,5 with al = 3: below and less
    let cases: [(u8, bool); 16] = [
        (0x70, false), (0x71, true), (0x72, true), (0x73, false), (0x74, false), (0x75, true),
        (0x76, true), (0x77, false), (0x78, true), (0x79, false), (0x7A, false), (0x7B, true),
        (0x7C, true), (0x7D, false), (0x7E, true), (0x7F, false),
    ];
    for (opcode, taken) in cases {
        let mut cpu = cpu_with(&[0xB0, 0x03, 0x3C, 0x05, opcode, 0x10]);
        run(&mut cpu, 3);
        assert_eq!(if taken { 0x0116 } else { 0x0106 }, cpu.ip, "{:02X}", opcode);
    }
    let mut cpu = cpu_with(&[0xE3, 0x10]);
    run(&mut cpu, 1);
    assert_eq!(0x0112, cpu.ip);
    let mut cpu = cpu_with(&[0xB9, 0x01, 0x00, 0xE3, 0x10]);
    run(&mut cpu, 2);
    assert_eq!(0x0105, cpu.ip);
    // loope leaves the loop when the zero flag is clear
    let mut cpu = cpu_with(&[0xB9, 0x05, 0x00, 0x3C, 0x01, 0xE1, 0xFC]);
    run(&mut cpu, 3);
    assert_eq!(0x0107, cpu.ip);
    assert_eq!(4, cpu.r16[CX].u16());
    let mut cpu = cpu_with(&[0xB9, 0x05, 0x00, 0x3C, 0x01, 0xE0, 0xFC]);
    run(&mut cpu, 3);
    assert_eq!(0x0103, cpu.ip);
    let mut cpu = cpu_with(&[0xBB, 0x00, 0x02, 0xFF, 0xE3]);
    run(&mut cpu, 2);
    assert_eq!(0x0200, cpu.ip);
}

#[test]
fn interrupts() {
    let mut cpu = cpu_with(&[0xFB, 0xF9, 0xCD, 0x21]);
    cpu.mmu.set_vec(0x21, 0x1234_5678);
    cpu.mmu.write(0x1234, 0x5678, &[0xB0, 0x01, 0xCF]); // mov al,1; iret
    run(&mut cpu, 3);
    assert_eq!(0x1234, cpu.sreg16[CS].u16());
    assert_eq!(0x5678, cpu.ip);
    assert!(!cpu.flags.interrupt_enable);
    assert!(!cpu.flags.trap);
    assert!(cpu.flags.carry);
    assert_eq!(0xFFEA, cpu.r16[SP].u16());
    // flags, then cs, then ip
    assert_eq!(0xF203, cpu.mmu.read_u16(0, 0xFFEE));
    assert_eq!(0x0000, cpu.mmu.read_u16(0, 0xFFEC));
    assert_eq!(0x0104, cpu.mmu.read_u16(0, 0xFFEA));
    run(&mut cpu, 2);
    assert_eq!(0x0000, cpu.sreg16[CS].u16());
    assert_eq!(0x0104, cpu.ip);
    assert!(cpu.flags.interrupt_enable);
    assert_eq!(0xFFF0, cpu.r16[SP].u16());
    assert_eq!(0x01, cpu.get_r8(0));
    // into without overflow does nothing
    let mut cpu = cpu_with(&[0xCE]);
    run(&mut cpu, 1);
    assert_eq!(0x0101, cpu.ip);
    let mut cpu = cpu_with(&[0xB0, 0x7F, 0x04, 0x01, 0xCE]);
    cpu.mmu.set_vec(4, 0x0000_4000);
    run(&mut cpu, 3);
    assert_eq!(0x4000, cpu.ip);
}

#[test]
fn division_by_zero_raises_interrupt_0() {
    let mut cpu = cpu_with(&[
        0xB8, 0x64, 0x00,       // mov ax,100
        0xB3, 0x00,             // mov bl,0
        0xF6, 0xF3,             // div bl
    ]);
    cpu.mmu.set_vec(0, 0x0000_3000);
    run(&mut cpu, 3);
    assert_eq!(0x3000, cpu.ip);
    assert_eq!(100, cpu.r16[AX].u16());
    assert_eq!(0x0107, cpu.mmu.read_u16(0, 0xFFEA));
    assert!(!cpu.fatal_error);
    // a quotient that does not fit
    let mut cpu = cpu_with(&[0xB8, 0x00, 0x10, 0xB3, 0x02, 0xF6, 0xF3]);
    cpu.mmu.set_vec(0, 0x0000_3000);
    run(&mut cpu, 3);
    assert_eq!(0x3000, cpu.ip);
    let mut cpu = cpu_with(&[0xB8, 0x07, 0x00, 0xB3, 0x02, 0xF6, 0xF3]);
    run(&mut cpu, 3);
    assert_eq!(0x0103, cpu.r16[AX].u16());
    let mut cpu = cpu_with(&[
        0xBA, 0x01, 0x00,       // mov dx,1
        0xB8, 0x00, 0x00,       // mov ax,0
        0xBB, 0x03, 0x00,       // mov bx,3
        0xF7, 0xF3,             // div bx      0x10000 / 3
    ]);
    run(&mut cpu, 4);
    assert_eq!(0x5555, cpu.r16[AX].u16());
    assert_eq!(0x0001, cpu.r16[DX].u16());
    let mut cpu = cpu_with(&[
        0xB8, 0xF9, 0xFF,       // mov ax,-7
        0x99,                   // cwd
        0xBB, 0x02, 0x00,       // mov bx,2
        0xF7, 0xFB,             // idiv bx
    ]);
    run(&mut cpu, 4);
    assert_eq!(0xFFFD, cpu.r16[AX].u16());
    assert_eq!(0xFFFF, cpu.r16[DX].u16());
}

#[test]
fn multiplication_fills_the_double_accumulator() {
    let mut cpu = cpu_with(&[0xB8, 0x10, 0xFF, 0xB3, 0x10, 0xF6, 0xE3]);
    run(&mut cpu, 3);
    assert_eq!(0x0100, cpu.r16[AX].u16());
    assert!(cpu.flags.carry && cpu.flags.overflow);
    let mut cpu = cpu_with(&[0xB8, 0x00, 0x80, 0xBB, 0x04, 0x00, 0xF7, 0xE3]);
    run(&mut cpu, 3);
    assert_eq!(0x0000, cpu.r16[AX].u16());
    assert_eq!(0x0002, cpu.r16[DX].u16());
    let mut cpu = cpu_with(&[0xB8, 0xFE, 0xFF, 0xBB, 0x03, 0x00, 0xF7, 0xEB]);
    run(&mut cpu, 3);
    assert_eq!(0xFFFA, cpu.r16[AX].u16());
    assert_eq!(0xFFFF, cpu.r16[DX].u16());
    assert!(!cpu.flags.carry);
    // imul cx,bx,-2
    let mut cpu = cpu_with(&[0xBB, 0x0A, 0x00, 0x6B, 0xCB, 0xFE]);
    run(&mut cpu, 2);
    assert_eq!(0xFFEC, cpu.r16[CX].u16());
    assert_eq!(0x000A, cpu.r16[BX].u16());
}

#[test]
fn string_instructions_obey_direction_and_repeat() {
    let mut cpu = cpu_with(&[
        0xBE, 0x00, 0x10,       // mov si,0x1000
        0xBF, 0x00, 0x20,       // mov di,0x2000
        0xB9, 0x03, 0x00,       // mov cx,3
        0xF3, 0xA4,             // rep movsb
        0xF4,                   // hlt
    ]);
    cpu.mmu.write(0x2000, 0x1000, &[1, 2, 3, 4]);
    run(&mut cpu, 3);
    // each step runs the instruction once and comes back to it
    run(&mut cpu, 1);
    assert_eq!(0x0109, cpu.ip);
    assert_eq!(2, cpu.r16[CX].u16());
    run(&mut cpu, 2);
    assert_eq!(0x010B, cpu.ip);
    assert_eq!(0, cpu.r16[CX].u16());
    assert_eq!(0x1003, cpu.r16[SI].u16());
    assert_eq!(0x2003, cpu.r16[DI].u16());
    assert_eq!(vec![1, 2, 3, 0], cpu.mmu.read(0x3000, 0x2000, 4));
    assert_eq!(6, cpu.instruction_count);
    // with cx = 0 the instruction does nothing
    let mut cpu = cpu_with(&[0xF3, 0xAA]);
    cpu.set_r8(0, 0x55);
    run(&mut cpu, 1);
    assert_eq!(0x0102, cpu.ip);
    assert_eq!(0, cpu.mmu.read_u8(0x3000, 0));
    assert_eq!(0, cpu.r16[DI].u16());
    // std: downwards
    let mut cpu = cpu_with(&[0xFD, 0xB8, 0x34, 0x12, 0xBF, 0x10, 0x00, 0xAB, 0xAB]);
    run(&mut cpu, 5);
    assert_eq!(0x000C, cpu.r16[DI].u16());
    assert_eq!(0x1234, cpu.mmu.read_u16(0x3000, 0x0010));
    assert_eq!(0x1234, cpu.mmu.read_u16(0x3000, 0x000E));
    // repne scasb stops at the byte it looks for
    let mut cpu = cpu_with(&[0xB0, 0x03, 0xB9, 0x10, 0x00, 0xF2, 0xAE]);
    cpu.mmu.write(0x3000, 0x0000, &[1, 2, 3, 4]);
    run(&mut cpu, 5);
    assert_eq!(0x0107, cpu.ip);
    assert_eq!(0x0003, cpu.r16[DI].u16());
    assert_eq!(0x000D, cpu.r16[CX].u16());
    assert!(cpu.flags.zero);
    // repe cmpsw stops at the first difference
    let mut cpu = cpu_with(&[0xB9, 0x10, 0x00, 0xF3, 0xA7]);
    cpu.mmu.write(0x2000, 0x0000, &[1, 0, 2, 0, 3, 0]);
    cpu.mmu.write(0x3000, 0x0000, &[1, 0, 2, 0, 4, 0]);
    run(&mut cpu, 4);
    assert_eq!(0x0105, cpu.ip);
    assert_eq!(0x0006, cpu.r16[SI].u16());
    assert_eq!(0x000D, cpu.r16[CX].u16());
    assert!(!cpu.flags.zero);
    assert!(cpu.flags.carry);
    // lodsb with a segment override
    let mut cpu = cpu_with(&[0x26, 0xAC]);
    cpu.mmu.write(0x3000, 0x0000, &[0x99]);
    run(&mut cpu, 1);
    assert_eq!(0x99, cpu.get_r8(0));
    assert_eq!(1, cpu.r16[SI].u16());
}

#[test]
fn exchange_extend_and_load_far() {
    let mut cpu = cpu_with(&[
        0xB8, 0x11, 0x11,       // mov ax,0x1111
        0xBB, 0x22, 0x22,       // mov bx,0x2222
        0x93,                   // xchg ax,bx
        0x86, 0xE0,             // xchg al,ah
        0xB0, 0x80,             // mov al,0x80
        0x98,                   // cbw
        0x99,                   // cwd
        0x0F, 0xB6, 0xC8,       // movzx cx,al
        0x0F, 0xBE, 0xF0,       // movsx si,al
        0xC4, 0x3E, 0x00, 0x10, // les di,[0x1000]
    ]);
    cpu.mmu.write(0x2000, 0x1000, &[0x78, 0x56, 0x34, 0x12]);
    run(&mut cpu, 3);
    assert_eq!(0x2222, cpu.r16[AX].u16());
    assert_eq!(0x1111, cpu.r16[BX].u16());
    run(&mut cpu, 4);
    assert_eq!(0xFF80, cpu.r16[AX].u16());
    assert_eq!(0xFFFF, cpu.r16[DX].u16());
    run(&mut cpu, 3);
    assert_eq!(0x0080, cpu.r16[CX].u16());
    assert_eq!(0xFF80, cpu.r16[SI].u16());
    assert_eq!(0x5678, cpu.r16[DI].u16());
    assert_eq!(0x1234, cpu.sreg16[ES].u16());
}

#[test]
fn flag_instructions() {
    let mut cpu = cpu_with(&[0xF9, 0xF5, 0xF5, 0xF8, 0xFD, 0xFC, 0xFB, 0xFA, 0xF9, 0xD6, 0x9F, 0xB4, 0xD5, 0x9E]);
    run(&mut cpu, 1);
    assert!(cpu.flags.carry);
    run(&mut cpu, 1);
    assert!(!cpu.flags.carry);
    run(&mut cpu, 1);
    assert!(cpu.flags.carry);
    run(&mut cpu, 1);
    assert!(!cpu.flags.carry);
    run(&mut cpu, 1);
    assert!(cpu.flags.direction);
    run(&mut cpu, 1);
    assert!(!cpu.flags.direction);
    run(&mut cpu, 1);
    assert!(cpu.flags.interrupt_enable);
    run(&mut cpu, 1);
    assert!(!cpu.flags.interrupt_enable);
    run(&mut cpu, 2); // stc; salc
    assert_eq!(0xFF, cpu.get_r8(0));
    run(&mut cpu, 1); // lahf
    assert_eq!(0x03, cpu.get_r8(4));
    run(&mut cpu, 2); // mov ah,0xd5; sahf
    assert!(cpu.flags.carry && cpu.flags.parity && cpu.flags.adjust && cpu.flags.zero && cpu.flags.sign);
    assert_eq!(0xF0D7, cpu.flags.to_word());
}

#[test]
fn coprocessor_escape_is_passed_over() {
    let mut cpu = cpu_with(&[0xD9, 0xC0, 0xDD, 0x06, 0x00, 0x10, 0x40]);
    run(&mut cpu, 1);
    assert!(!cpu.fatal_error);
    assert_eq!(0x102, cpu.ip);
    assert_eq!(1, cpu.instruction_count);
    run(&mut cpu, 2);
    assert!(!cpu.fatal_error);
    assert_eq!(0x107, cpu.ip);
    assert_eq!(1, cpu.r16[AX].u16());
    assert_eq!(0xFFF0, cpu.r16[SP].u16());
}

#[test]
fn enter_and_leave() {
    let mut cpu = cpu_with(&[0xBD, 0x34, 0x12, 0xC8, 0x10, 0x00, 0x00, 0xC9, 0xC8, 0x00, 0x00, 0x01]);
    run(&mut cpu, 2);
    assert_eq!(0xFFEE, cpu.r16[BP].u16());
    assert_eq!(0xFFDE, cpu.r16[SP].u16());
    assert_eq!(0x1234, cpu.mmu.read_u16(0, 0xFFEE));
    run(&mut cpu, 1);
    assert_eq!(0x1234, cpu.r16[BP].u16());
    assert_eq!(0xFFF0, cpu.r16[SP].u16());
    // at level 1 the new frame pointer is pushed as well
    run(&mut cpu, 1);
    assert!(!cpu.fatal_error);
    assert_eq!(0xFFEE, cpu.r16[BP].u16());
    assert_eq!(0xFFEC, cpu.r16[SP].u16());
    assert_eq!(0x1234, cpu.mmu.read_u16(0, 0xFFEE));
    assert_eq!(0xFFEE, cpu.mmu.read_u16(0, 0xFFEC));
}

#[test]
fn enter_copies_the_enclosing_frame_pointers() {
    let mut cpu = cpu_with(&[0xBD, 0x34, 0x12, 0xC8, 0x00, 0x00, 0x01, 0xC8, 0x04, 0x00, 0x02]);
    run(&mut cpu, 3);
    assert!(!cpu.fatal_error);
    assert_eq!(0xFFEA, cpu.r16[BP].u16());
    assert_eq!(0xFFE2, cpu.r16[SP].u16());
    assert_eq!(0xFFEE, cpu.mmu.read_u16(0, 0xFFEA));
    assert_eq!(0xFFEE, cpu.mmu.read_u16(0, 0xFFE8));
    assert_eq!(0xFFEA, cpu.mmu.read_u16(0, 0xFFE6));
}

#[test]
fn port_instructions_ask_the_outside() {
    let mut cpu = cpu_with(&[0xE4, 0x60, 0xBA, 0xDA, 0x03, 0xED, 0xB8, 0x34, 0x12, 0xE6, 0x43, 0xEF, 0x6E]);
    assert_eq!(Effect::PortIn { port: 0x60, wide: false }, cpu.execute_instruction());
    assert_eq!(Effect::Done, cpu.execute_instruction());
    assert_eq!(Effect::PortIn { port: 0x3DA, wide: true }, cpu.execute_instruction());
    assert_eq!(Effect::Done, cpu.execute_instruction());
    assert_eq!(Effect::PortOut { port: 0x43, value: 0x34, wide: false }, cpu.execute_instruction());
    assert_eq!(Effect::PortOut { port: 0x3DA, value: 0x1234, wide: true }, cpu.execute_instruction());
    cpu.mmu.write(0x2000, 0x0000, &[0x77]);
    assert_eq!(Effect::PortOut { port: 0x3DA, value: 0x77, wide: false }, cpu.execute_instruction());
    assert_eq!(1, cpu.r16[SI].u16());
}

#[test]
fn bit_instructions() {
    let mut cpu = cpu_with(&[
        0xB8, 0x10, 0x00,       // mov ax,0x0010
        0xBB, 0x04, 0x00,       // mov bx,4
        0x0F, 0xA3, 0xD8,       // bt ax,bx
        0x0F, 0xBC, 0xC8,       // bsf cx,ax
        0xBA, 0xCD, 0xAB,       // mov dx,0xabcd
        0x0F, 0xA4, 0xD0, 0x04, // shld ax,dx,4
        0x0F, 0x92, 0xC3,       // setc bl
    ]);
    run(&mut cpu, 3);
    assert!(cpu.flags.carry);
    run(&mut cpu, 1);
    assert_eq!(4, cpu.r16[CX].u16());
    assert!(!cpu.flags.zero);
    run(&mut cpu, 2);
    assert_eq!(0x010A, cpu.r16[AX].u16());
    assert!(!cpu.flags.carry);
    run(&mut cpu, 1);
    assert_eq!(0x00, cpu.get_r8(3));
}

#[test]
fn executing_the_encoding_is_executing_the_instruction() {
    let encoder = Encoder::new();
    let ops = vec![
        Decoded::new2(Op::Mov16, Parameter::Reg16(0), Parameter::Imm16(0x1234)),
        Decoded::new2(Op::Mov16, Parameter::Reg16(2), Parameter::Imm16(0x00FF)),
        Decoded::new1(Op::Push16, Parameter::Imm16(0x0AD5)),
        Decoded::new(Op::Popf),
        Decoded::new2(Op::Add8, Parameter::Reg8(0), Parameter::Imm8(0xCC)),
        Decoded::new2(Op::Sbb16, Parameter::Reg16(0), Parameter::Reg16(2)),
        Decoded::new1(Op::Mul8, Parameter::Reg8(2)),
        Decoded::new2(Op::Xchg8, Parameter::Reg8(2), Parameter::Reg8(3)),
        Decoded::new2(Op::Shr8, Parameter::Reg8(0), Parameter::Imm8(3)),
        Decoded::new(Op::Lahf),
        Decoded::new(Op::Cwd16),
        Decoded::new1(Op::Aam, Parameter::Imm8(10)),
    ];
    let bytes = encoder.encode_vec(&ops).unwrap();
    let mut by_bytes = cpu_with(&bytes);
    let mut direct = cpu_with(&bytes);
    for op in ops.iter() {
        let mut op = *op;
        op.length = encoder.encode(&op).unwrap().len() as u8;
        assert_eq!(op, decode(&by_bytes.fetch(), by_bytes.ip));
        by_bytes.execute_instruction();
        direct.execute(&op);
        assert_eq!(direct.ip, by_bytes.ip);
        assert_eq!(direct.flags, by_bytes.flags);
        for r in 0..8 {
            assert_eq!(direct.r16[r].u16(), by_bytes.r16[r].u16());
        }
    }
    assert_eq!(12, by_bytes.instruction_count);
    assert!(!by_bytes.fatal_error);
}

#[test]
fn the_encoding_in_memory_does_not_matter_to_what_keeps_out_of_it() {
    let encoder = Encoder::new();
    let word = Parameter::Ptr16(Segment::Default, 0x0400);
    let ops = vec![
        Decoded::new2(Op::Mov16, Parameter::Reg16(0), Parameter::Imm16(0x1234)),
        Decoded::new2(Op::Mov16, word, Parameter::Reg16(0)),
        Decoded::new2(Op::Add16, word, Parameter::Imm16(0xF000)),
        Decoded::new2(Op::Mov16, Parameter::Reg16(3), word),
        Decoded::new1(Op::Push16, Parameter::Reg16(3)),
        Decoded::new(Op::Pushf),
        Decoded::new1(Op::Pop16, Parameter::Reg16(1)),
        Decoded::new(Op::Popf),
        Decoded::new2(Op::Xor8, Parameter::Reg8(6), Parameter::Reg8(1)),
        Decoded::new1(Op::Not16, word),
    ];
    let bytes = encoder.encode_vec(&ops).unwrap();
    let mut by_bytes = cpu_with(&bytes);
    // the same processor, but with zeros where the other holds the code
    let mut direct = cpu_with(&vec![0u8; bytes.len()]);
    for op in ops.iter() {
        let mut op = *op;
        op.length = encoder.encode(&op).unwrap().len() as u8;
        by_bytes.execute_instruction();
        direct.execute(&op);
        assert_eq!(direct.ip, by_bytes.ip);
        assert_eq!(direct.flags, by_bytes.flags);
        for r in 0..8 {
            assert_eq!(direct.r16[r].u16(), by_bytes.r16[r].u16());
        }
        let a = &direct.mmu.memory.memory;
        let b = &by_bytes.mmu.memory.memory;
        assert!(a[..0x100] == b[..0x100]);
        assert!(a[0x100 + bytes.len()..] == b[0x100 + bytes.len()..]);
    }
    assert_eq!(0x0234 ^ 0xFFFF, by_bytes.mmu.read_u16(0x2000, 0x0400));
    assert_eq!(0x0234, by_bytes.r16[BX].u16());
    assert_eq!(0x0234, by_bytes.mmu.read_u16(0, 0xFFEE));
    assert_eq!(0xFFF0, by_bytes.r16[SP].u16());
    assert!(by_bytes.mmu.memory.memory[0x100..0x100 + bytes.len()] == bytes[..]);
    assert!(!by_bytes.fatal_error && !direct.fatal_error);
}

#[test]
fn disassembles_without_executing() {
    let mut cpu = cpu_with(&[0xB9, 0x23, 0x01, 0x8E, 0xC1]);
    let line = cpu.disasm_instruction();
    assert_eq!(0x100, line.offset);
    assert_eq!(3, line.length);
    assert_eq!(vec![0xB9, 0x23, 0x01], line.bytes);
    assert_eq!("Mov16  cx, 0x0123", line.text);
    assert_eq!("[000100] B9 23 01   Mov16  cx, 0x0123", line.pretty_string());
    assert_eq!(0x100, cpu.ip);
    assert_eq!(0, cpu.r16[CX].u16());
    assert_eq!(0, cpu.instruction_count);
    let d = cpu.decode_instruction();
    assert_eq!(Op::Mov16, d.command);
    cpu.execute_instruction();
    let line = cpu.disasm_instruction();
    assert_eq!("[000103] 8E C1   Mov16  es, cx", line.pretty_string());
}
