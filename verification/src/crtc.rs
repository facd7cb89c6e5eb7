//! The CRT controller: an index register and the registers it selects.
use vstd::prelude::*;

verus! {

/// Number of registers of the controller.
pub const CRTC_REGISTERS: usize = 25;

/// The CRT controller.
pub struct CRTC {
    pub index: u8,
    pub registers: [u8; 25],
}

/// The controller as a sequence of 26 bytes: the 25 registers, then the
/// index register.
impl View for CRTC {
    type V = Seq<u8>;

    open spec fn view(&self) -> Seq<u8> {
        self.registers@.push(self.index)
    }
}

impl CRTC {
    pub fn default() -> (c: CRTC)
        ensures
            c@ == Seq::new(26, |i: int| 0u8),
    {
        let c = CRTC { index: 0, registers: [0u8;25] };
        assert(c@ =~= Seq::new(26, |i: int| 0u8));
        c
    }

    /// The controller after the index register was set.
    pub open spec fn selected(v: Seq<u8>, index: u8) -> Seq<u8> {
        v.update(CRTC_REGISTERS as int, index)
    }

    /// The controller after a write of `b` to the register that the index
    /// register selects; an index that selects no register changes nothing.
    pub open spec fn written_current(v: Seq<u8>, b: u8) -> Seq<u8> {
        if v[CRTC_REGISTERS as int] < CRTC_REGISTERS {
            v.update(v[CRTC_REGISTERS as int] as int, b)
        } else {
            v
        }
    }

    /// The controller after register `index` was selected and written.
    pub open spec fn written(v: Seq<u8>, index: u8, b: u8) -> Seq<u8> {
        CRTC::written_current(CRTC::selected(v, index), b)
    }

    /// What a read through the index register gives: the register, or 0 if
    /// the index selects none.
    pub open spec fn current(v: Seq<u8>) -> u8 {
        if v[CRTC_REGISTERS as int] < CRTC_REGISTERS {
            v[v[CRTC_REGISTERS as int] as int]
        } else {
            0
        }
    }

    pub fn set_index(&mut self, index: u8)
        ensures
            final(self)@ == CRTC::selected(old(self)@, index),
    {
        self.index = index;
        assert(self@ =~= CRTC::selected(old(self)@, index));
    }

    pub fn write_current(&mut self, v: u8)
        ensures
            final(self)@ == CRTC::written_current(old(self)@, v),
    {
        if (self.index as usize) < CRTC_REGISTERS {
            self.registers[self.index as usize] = v;
        }
        assert(self@ =~= CRTC::written_current(old(self)@, v));
    }

    /// Writes `v` to register `index`, leaving the index there.
    pub fn write(&mut self, index: u8, v: u8)
        ensures
            final(self)@ == CRTC::written(old(self)@, index, v),
    {
        self.set_index(index);
        self.write_current(v);
    }

    pub fn read_current(&self) -> (v: u8)
        ensures
            v == CRTC::current(self@),
    {
        if (self.index as usize) < CRTC_REGISTERS {
            self.registers[self.index as usize]
        } else {
            0
        }
    }
}

} // verus!
