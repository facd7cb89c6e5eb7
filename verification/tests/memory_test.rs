use dustbox::address::{add16, sub16, MemoryAddress};
use dustbox::flags::Flags;
use dustbox::memory::{Memory, MEMORY_SIZE};
use dustbox::mmu::MMU;
use dustbox::register::Register16;

#[test]
fn memory_is_one_mebibyte_of_zeros() {
    let m = Memory::new();
    assert_eq!(0x10_0000, MEMORY_SIZE);
    assert_eq!(MEMORY_SIZE, m.memory.len());
    assert!(m.memory.iter().all(|b| *b == 0));
}

#[test]
fn flat_address_is_segment_times_16_plus_offset() {
    assert_eq!(0x0000, MMU::to_flat(0x0000, 0x0000));
    assert_eq!(0x086F0, MMU::to_flat(0x085F, 0x0100));
    assert_eq!(0xFFFFF, MMU::to_flat(0xF000, 0xFFFF));
    assert_eq!(0x10FFEF, MMU::to_flat(0xFFFF, 0xFFFF));
    let mut seg: u32 = 0;
    while seg <= 0xFFFF {
        let mut off: u32 = 0;
        while off <= 0xFFFF {
            assert_eq!(MMU::to_flat(seg as u16, 0) + off, MMU::to_flat(seg as u16, off as u16));
            off += 0x0FFF;
        }
        seg += 0x0111;
    }
}

#[test]
fn long_pairs_split_and_join() {
    assert_eq!(0x1234_5678, MMU::to_long_pair(0x1234, 0x5678));
    assert_eq!(0x1234, MMU::segment_from_long_pair(0x1234_5678));
    assert_eq!(0x5678, MMU::offset_from_long_pair(0x1234_5678));
    assert_eq!(0xFFFF, MMU::segment_from_long_pair(0xFFFF_0000));
    assert_eq!(0x0000, MMU::offset_from_long_pair(0xFFFF_0000));
}

#[test]
fn words_are_little_endian() {
    let mut mmu = MMU::new();
    mmu.write_u16(0x1000, 0x0010, 0xBEEF);
    assert_eq!(0xEF, mmu.read_u8(0x1000, 0x0010));
    assert_eq!(0xBE, mmu.read_u8(0x1000, 0x0011));
    assert_eq!(0xBEEF, mmu.read_u16(0x1000, 0x0010));
    // the flat address is what matters
    assert_eq!(0xBEEF, mmu.read_u16(0x1001, 0x0000));
    mmu.write_u32(0x2000, 0xFFFE, 0x1122_3344);
    assert_eq!(0x44, mmu.read_u8(0x2000, 0xFFFE));
    assert_eq!(0x33, mmu.read_u8(0x2000, 0xFFFF));
    // the dword straddles the end of the segment
    assert_eq!(0x22, mmu.read_u8(0x3000, 0x0000));
    assert_eq!(0x11, mmu.read_u8(0x3000, 0x0001));
    assert_eq!(0x1122_3344, mmu.read_u32(0x2000, 0xFFFE));
}

#[test]
fn slices_are_written_and_read_back() {
    let mut mmu = MMU::new();
    mmu.write(0x0100, 0x0004, &[1, 2, 3, 4, 5]);
    assert_eq!(vec![1, 2, 3, 4, 5], mmu.read(0x0100, 0x0004, 5));
    assert_eq!(vec![0, 1, 2], mmu.read(0x0100, 0x0003, 3));
    assert_eq!(vec![5, 0], mmu.read(0x0100, 0x0008, 2));
    assert_eq!(Vec::<u8>::new(), mmu.read(0x0100, 0x0004, 0));
    let dump = mmu.dump_mem();
    assert_eq!(MEMORY_SIZE, dump.len());
    assert_eq!(3, dump[0x1006]);
    assert!(MMU::check_range(0xF000, 0xFFFF, 1));
    assert!(!MMU::check_range(0xF000, 0xFFFF, 2));
    assert!(!MMU::check_range(0xFFFF, 0x0010, 1));
}

#[test]
fn vectors_hold_offset_then_segment() {
    let mut mmu = MMU::new();
    mmu.set_vec(0x21, 0xF000_0021);
    assert_eq!(0x0021, mmu.read_u16(0x0000, 0x21 * 4));
    assert_eq!(0xF000, mmu.read_u16(0x0000, 0x21 * 4 + 2));
    assert_eq!((0xF000, 0x0021), mmu.read_vec(0x21));
    mmu.write_vec(0x43, &MemoryAddress::RealSegmentOffset(0xC000, 0x0100));
    assert_eq!((0xC000, 0x0100), mmu.read_vec(0x43));
    assert_eq!(0x00, mmu.read_u8(0x0000, 0x43 * 4));
    assert_eq!(0x01, mmu.read_u8(0x0000, 0x43 * 4 + 1));
    assert_eq!(0x00, mmu.read_u8(0x0000, 0x43 * 4 + 2));
    assert_eq!(0xC0, mmu.read_u8(0x0000, 0x43 * 4 + 3));
    mmu.write_vec(0x44, &MemoryAddress::Unset);
    assert_eq!((0, 0), mmu.read_vec(0x44));
}

#[test]
fn writes_through_an_address_move_it() {
    let mut mmu = MMU::new();
    let mut addr = MemoryAddress::RealSegmentOffset(0xC000, 0xFFFE);
    mmu.write_u8_inc(&mut addr, 0x11);
    assert_eq!(0xFFFF, addr.offset());
    mmu.write_u16_inc(&mut addr, 0x3322);
    // the offset wraps, the write goes on at the flat address
    assert_eq!(0x0001, addr.offset());
    assert_eq!(0x11, mmu.memory.read_u8(0xCFFFE));
    assert_eq!(0x22, mmu.memory.read_u8(0xCFFFF));
    assert_eq!(0x33, mmu.memory.read_u8(0xD0000));
    mmu.write_u32_inc(&mut addr, 0xAABB_CCDD);
    assert_eq!(0x0005, addr.offset());
    assert_eq!(0xAABB_CCDD, mmu.read_u32(0xC000, 0x0001));
}

#[test]
fn addresses_compare_by_flat_value() {
    let a = MemoryAddress::RealSegmentOffset(0x1000, 0x0010);
    let b = MemoryAddress::RealSegmentOffset(0x1001, 0x0000);
    let c = MemoryAddress::RealSegmentOffset(0x1001, 0x0001);
    assert_eq!(0x10010, a.value());
    assert!(a == b);
    assert!(a != c);
    assert!(a.precedes(&c));
    assert!(!c.precedes(&a));
    assert!(!a.precedes(&b));
    assert_eq!(0, MemoryAddress::Unset.value());
    assert!(MemoryAddress::Unset == MemoryAddress::RealSegmentOffset(0, 0));
    assert_eq!(0x1000, a.segment());
    assert_eq!(0x0010, a.offset());
}

#[test]
fn addresses_move_inside_their_segment() {
    let mut a = MemoryAddress::RealSegmentOffset(0x1000, 0xFFFF);
    a.inc_u8();
    assert_eq!(0x1000, a.segment());
    assert_eq!(0x0000, a.offset());
    a.inc_n(0x0123);
    assert_eq!(0x0123, a.offset());
    a.inc_u16();
    a.inc_u32();
    assert_eq!(0x0129, a.offset());
    a.set_offset(0x4000);
    assert_eq!(0x14000, a.value());
    let mut u = MemoryAddress::Unset;
    u.inc_n(5);
    u.set_offset(7);
    assert_eq!(0, u.value());
    assert_eq!(0x0001, add16(0xFFFF, 2));
    assert_eq!(0xFFFF, sub16(0x0001, 2));
}

#[test]
fn register_halves_are_independent() {
    let mut r = Register16 { val: 0x1234 };
    assert_eq!(0x34, r.lo_u8());
    assert_eq!(0x12, r.hi_u8());
    r.set_hi(0xAB);
    assert_eq!(0xAB34, r.u16());
    r.set_lo(0xCD);
    assert_eq!(0xABCD, r.u16());
    r.set_u16(0x00FF);
    assert_eq!(0xFF, r.lo_u8());
    assert_eq!(0x00, r.hi_u8());
}

#[test]
fn flags_word_has_fixed_reserved_bits() {
    let mut f = Flags::new();
    assert_eq!(0xF002, f.to_word());
    f.set_word(0xFFFF);
    // bits 3 and 5 cannot be set
    assert_eq!(0xFFD7, f.to_word());
    assert!(f.carry && f.parity && f.adjust && f.zero && f.sign);
    assert!(f.trap && f.interrupt_enable && f.direction && f.overflow);
    f.set_word(0x0000);
    assert_eq!(0xF002, f.to_word());
    let mut w: u32 = 0;
    while w <= 0xFFFF {
        f.set_word(w as u16);
        let r = f.to_word();
        assert_eq!(w as u16 & 0x0FD5, r & 0x0FD5);
        assert_eq!(0xF002, r & 0xF02A);
        let mut g = Flags::new();
        g.set_word(r);
        assert_eq!(f, g);
        w += 1;
    }
}

#[test]
fn flags_low_byte_is_what_lahf_and_sahf_see() {
    let mut f = Flags::new();
    f.carry = true;
    f.zero = true;
    f.overflow = true;
    assert_eq!(0x43, f.lo_u8());
    f.set_lo_u8(0x94);
    assert!(!f.carry && f.parity && f.adjust && !f.zero && f.sign);
    // the flags of the high byte are not touched
    assert!(f.overflow);
    assert_eq!(0x96, f.lo_u8());
}
