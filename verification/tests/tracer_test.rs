use dustbox::address::MemoryAddress;
use dustbox::cpu::CPU;
use dustbox::machine::Machine;
use dustbox::op::Op;
use dustbox::tracer::{address_string, sorted_by_value, xref_header, Tracer};

fn offsets(v: &Vec<MemoryAddress>) -> Vec<u16> {
    v.iter().map(|ma| ma.offset()).collect()
}

fn trace(code: &[u8]) -> (Tracer, CPU) {
    let mut cpu = CPU::new();
    cpu.load_rom(&code.to_vec(), 0x100);
    let mut tracer = Tracer::new();
    assert!(tracer.trace_execution(&cpu));
    (tracer, cpu)
}

#[test]
fn trace_skips_what_a_jump_jumps_over() {
    let (mut tracer, cpu) = trace(&[
        0xB8, 0x01, 0x00,       // 0100 mov ax,1
        0xEB, 0x02,             // 0103 jmp 0x0107
        0xF4, 0xF4,             // 0105 hlt; hlt
        0x90,                   // 0107 nop
    ]);
    assert_eq!(vec![0x100, 0x103, 0x107], offsets(&tracer.visited_addresses));
    assert!(tracer.has_visited_address(MemoryAddress::RealSegmentOffset(0, 0x107)));
    assert!(!tracer.has_visited_address(MemoryAddress::RealSegmentOffset(0, 0x105)));
    assert!(!tracer.has_visited_address(MemoryAddress::RealSegmentOffset(0, 0x106)));
    assert!(!tracer.has_any_unvisited_destinations());
    assert_eq!(None, tracer.get_unvisited_destination().map(|ma| ma.offset()));
    let lines = tracer.present_trace(&cpu);
    assert_eq!(3, lines.len());
    assert_eq!(vec![0x100, 0x103, 0x107], lines.iter().map(|l| l.address.offset()).collect::<Vec<u16>>());
    assert_eq!(vec![Op::Mov16, Op::JmpShort, Op::Nop], lines.iter().map(|l| l.instruction.command).collect::<Vec<Op>>());
    // the nop does not follow the jump without a gap
    assert_eq!(vec![false, false, true], lines.iter().map(|l| l.separator).collect::<Vec<bool>>());
    // and the jump is its only source
    assert!(lines[0].xref.is_empty());
    assert!(lines[1].xref.is_empty());
    assert_eq!(vec![0x103], offsets(&lines[2].xref));
    // the bytes of the lines cover the reached instructions, and no more
    let covered: Vec<u16> = lines
        .iter()
        .flat_map(|l| (0..l.instruction.length as u16).map(move |k| l.address.offset() + k))
        .collect();
    assert_eq!(vec![0x100, 0x101, 0x102, 0x103, 0x104, 0x107], covered);
}

#[test]
fn trace_follows_both_sides_of_a_branch() {
    let (mut tracer, cpu) = trace(&[
        0xB9, 0x03, 0x00,       // 0100 mov cx,3
        0x49,                   // 0103 dec cx
        0x74, 0x04,             // 0104 jz 0x010a
        0xE2, 0xFB,             // 0106 loop 0x0103
        0xEB, 0xF9,             // 0108 jmp 0x0103
        0xE8, 0x01, 0x00,       // 010a call 0x010e
        0xC3,                   // 010d ret
        0xF4,                   // 010e hlt
        0xC3,                   // 010f ret
    ]);
    let mut visited = offsets(&tracer.visited_addresses);
    visited.sort();
    assert_eq!(vec![0x100, 0x103, 0x104, 0x106, 0x108, 0x10A, 0x10D, 0x10E, 0x10F], visited);
    let lines = tracer.present_trace(&cpu);
    assert_eq!(9, lines.len());
    for line in lines.iter() {
        let expected: Vec<u16> = match line.address.offset() {
            0x103 => vec![0x106, 0x108],
            0x10A => vec![0x104],
            0x10E => vec![0x10A],
            _ => vec![],
        };
        assert_eq!(expected, offsets(&line.xref), "{:04X}", line.address.offset());
    }
    // everything is adjacent
    assert!(lines.iter().all(|l| !l.separator));
    assert_eq!(
        Some(vec![0x106, 0x108]),
        tracer
            .get_sources_for_destination(MemoryAddress::RealSegmentOffset(0, 0x103))
            .map(|v| offsets(&v))
    );
    assert_eq!(
        None,
        tracer
            .get_sources_for_destination(MemoryAddress::RealSegmentOffset(0, 0x100))
            .map(|v| offsets(&v))
    );
}

#[test]
fn trace_ignores_indirect_targets_and_stops_at_the_end_of_the_program() {
    let (tracer, _cpu) = trace(&[
        0xFF, 0xD3,             // 0100 call bx
        0x74, 0x10,             // 0102 jz 0x0114     beyond the program
        0x90,                   // 0104 nop
    ]);
    let mut visited = offsets(&tracer.visited_addresses);
    visited.sort();
    // the target of the jz is walked as well: it is a destination, though
    // it lies behind the program
    assert_eq!(vec![0x100, 0x102, 0x104, 0x114], visited);
    let (tracer, _cpu) = trace(&[0xFF, 0xE3, 0x90]);
    assert_eq!(vec![0x100], offsets(&tracer.visited_addresses));
    let (tracer, _cpu) = trace(&[0xC3, 0x90]);
    assert_eq!(vec![0x100], offsets(&tracer.visited_addresses));
}

#[test]
fn trace_of_a_loaded_program() {
    let mut machine = Machine::default();
    machine
        .load_executable(&[
            0xEB, 0x01,         // 0100 jmp 0x0103
            0xCC,               // 0102
            0xE2, 0xFE,         // 0103 loop 0x0103
            0xC3,               // 0105 ret
        ])
        .unwrap();
    let mut tracer = Tracer::new();
    assert!(tracer.trace_execution(&machine.cpu));
    let lines = tracer.present_trace(&machine.cpu);
    assert_eq!(vec![0x100, 0x103, 0x105], lines.iter().map(|l| l.address.offset()).collect::<Vec<u16>>());
    assert_eq!(0x085F, lines[0].address.segment());
    assert_eq!(vec![0x100, 0x103], offsets(&lines[1].xref));
    assert_eq!(vec![false, true, false], lines.iter().map(|l| l.separator).collect::<Vec<bool>>());
}

#[test]
fn addresses_are_sorted_by_flat_value() {
    let v = vec![
        MemoryAddress::RealSegmentOffset(0x1000, 0x0020),
        MemoryAddress::RealSegmentOffset(0x0000, 0x0005),
        MemoryAddress::RealSegmentOffset(0x1001, 0x0000),
        MemoryAddress::RealSegmentOffset(0x0FFF, 0x0040),
        MemoryAddress::Unset,
    ];
    let sorted = sorted_by_value(&v);
    assert_eq!(vec![0, 5, 0x10010, 0x10020, 0x10030], sorted.iter().map(|a| a.value()).collect::<Vec<u32>>());
    assert_eq!(0, sorted_by_value(&vec![]).len());
}

#[test]
fn destinations_are_deduplicated_by_flat_address() {
    let mut tracer = Tracer::new();
    let src = MemoryAddress::RealSegmentOffset(0, 0x50);
    tracer.learn_destination(0x0010, 0x0000, src);
    assert_eq!(1, tracer.seen_destinations.len());
    // the same flat address, written in another segment
    tracer.learn_destination(0x0000, 0x0100, src);
    assert_eq!(1, tracer.seen_destinations.len());
    assert_eq!(0x0010, tracer.seen_destinations[0].address.segment());
    assert!(!tracer.seen_destinations[0].visited);
    assert_eq!(2, tracer.xrefs.len());
    assert_eq!(MemoryAddress::RealSegmentOffset(0, 0x100), tracer.xrefs[1].destination);
    // a visited destination stays visited when it is learned again
    tracer.seen_destinations[0].visited = true;
    tracer.learn_destination(0x000F, 0x0010, src);
    assert_eq!(1, tracer.seen_destinations.len());
    assert!(tracer.seen_destinations[0].visited);
    // another flat address is a new destination, not walked yet
    tracer.learn_destination(0x0000, 0x0101, src);
    assert_eq!(2, tracer.seen_destinations.len());
    assert_eq!(0x101, tracer.seen_destinations[1].address.value());
    assert!(!tracer.seen_destinations[1].visited);
}

#[test]
fn xref_header_lists_the_sources() {
    let sources = vec![
        MemoryAddress::RealSegmentOffset(0x085F, 0x0100),
        MemoryAddress::RealSegmentOffset(0x085F, 0x01A0),
        MemoryAddress::RealSegmentOffset(0x0000, 0xFFFF),
    ];
    assert_eq!("; xref: 085F:0100, 085F:01A0, 0000:FFFF", xref_header(&sources));
    assert_eq!("; xref: 085F:0100", xref_header(&sources[..1].to_vec()));
    assert_eq!("; xref: ", xref_header(&Vec::new()));
    assert_eq!("ABCD:00EF", address_string(&MemoryAddress::RealSegmentOffset(0xABCD, 0xEF)));
}
