//! 16-bit registers with byte halves, and the indices of the register file.
use vstd::prelude::*;

verus! {

/// Index of AX in the general purpose registers; CX, DX, BX, SP, BP, SI
/// and DI follow.
pub const AX: usize = 0;

pub const CX: usize = 1;

pub const DX: usize = 2;

pub const BX: usize = 3;

pub const SP: usize = 4;

pub const BP: usize = 5;

pub const SI: usize = 6;

pub const DI: usize = 7;

/// Index of ES in the segment registers; CS, SS, DS, FS and GS follow.
pub const ES: usize = 0;

pub const CS: usize = 1;

pub const SS: usize = 2;

pub const DS: usize = 3;

pub const FS: usize = 4;

pub const GS: usize = 5;

/// The high byte of a 16-bit value.
pub open spec fn hi_byte(v: u16) -> u8 {
    (v / 256) as u8
}

/// The low byte of a 16-bit value.
pub open spec fn lo_byte(v: u16) -> u8 {
    (v % 256) as u8
}

/// The 16-bit value with high byte `hi` and low byte `lo`.
pub open spec fn join_bytes(hi: u8, lo: u8) -> u16 {
    (hi as int * 256 + lo as int) as u16
}

/// A 16-bit register.
#[derive(Clone, Copy, Debug)]
pub struct Register16 {
    pub val: u16,
}

impl Register16 {
    pub fn set_hi(&mut self, val: u8)
        ensures
            final(self).val == join_bytes(val, lo_byte(old(self).val)),
    {
        self.val = (self.val % 256) + (val as u16) * 256;
    }

    pub fn set_lo(&mut self, val: u8)
        ensures
            final(self).val == join_bytes(hi_byte(old(self).val), val),
    {
        self.val = (self.val / 256) * 256 + val as u16;
    }

    pub fn set_u16(&mut self, val: u16)
        ensures
            final(self).val == val,
    {
        self.val = val;
    }

    pub fn lo_u8(&mut self) -> (r: u8)
        ensures
            r == lo_byte(old(self).val),
            *final(self) == *old(self),
    {
        (self.val % 256) as u8
    }

    pub fn hi_u8(&mut self) -> (r: u8)
        ensures
            r == hi_byte(old(self).val),
            *final(self) == *old(self),
    {
        (self.val / 256) as u8
    }

    pub fn u16(&self) -> (r: u16)
        ensures
            r == self.val,
    {
        self.val
    }
}

/// The two halves of a register are independent: setting one keeps the other,
/// and the halves read back as written.
pub proof fn lemma_byte_halves(v: u16, b: u8)
    ensures
        lo_byte(join_bytes(b, lo_byte(v))) == lo_byte(v),
        hi_byte(join_bytes(b, lo_byte(v))) == b,
        hi_byte(join_bytes(hi_byte(v), b)) == hi_byte(v),
        lo_byte(join_bytes(hi_byte(v), b)) == b,
        join_bytes(hi_byte(v), lo_byte(v)) == v,
{
}

} // verus!
