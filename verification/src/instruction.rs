//! The decoded instruction record and its operands.
use vstd::prelude::*;
use crate::op::Op;

verus! {

/// A segment register chosen by an override prefix, or the default of the
/// addressing form.
#[derive(Clone, Copy, Debug, PartialEq, Eq, Structural)]
pub enum Segment {
    Default,
    ES,
    CS,
    SS,
    DS,
    FS,
    GS,
}

/// The eight 16-bit addressing modes, in the order of the ModR/M `rm` field.
#[derive(Clone, Copy, Debug, PartialEq, Eq, Structural)]
pub enum AMode {
    BXSI,
    BXDI,
    BPSI,
    BPDI,
    SI,
    DI,
    BP,
    BX,
}

impl AMode {
    /// The addressing mode that `rm` encodes.
    pub open spec fn from_rm(rm: u8) -> AMode {
        match rm {
            0 => AMode::BXSI,
            1 => AMode::BXDI,
            2 => AMode::BPSI,
            3 => AMode::BPDI,
            4 => AMode::SI,
            5 => AMode::DI,
            6 => AMode::BP,
            _ => AMode::BX,
        }
    }

    /// The `rm` value that encodes this mode.
    pub open spec fn rm(self) -> u8 {
        match self {
            AMode::BXSI => 0,
            AMode::BXDI => 1,
            AMode::BPSI => 2,
            AMode::BPDI => 3,
            AMode::SI => 4,
            AMode::DI => 5,
            AMode::BP => 6,
            AMode::BX => 7,
        }
    }

    /// Modes that address through BP take SS as their default segment.
    pub open spec fn uses_bp(self) -> bool {
        self == AMode::BPSI || self == AMode::BPDI || self == AMode::BP
    }

    pub fn of_rm(rm: u8) -> (r: AMode)
        ensures
            r == AMode::from_rm(rm),
            rm < 8 ==> r.rm() == rm,
    {
        match rm {
            0 => AMode::BXSI,
            1 => AMode::BXDI,
            2 => AMode::BPSI,
            3 => AMode::BPDI,
            4 => AMode::SI,
            5 => AMode::DI,
            6 => AMode::BP,
            _ => AMode::BX,
        }
    }

    pub fn index(&self) -> (r: u8)
        ensures
            r == self.rm(),
            r < 8,
            AMode::from_rm(r) == *self,
    {
        match self {
            AMode::BXSI => 0,
            AMode::BXDI => 1,
            AMode::BPSI => 2,
            AMode::BPDI => 3,
            AMode::SI => 4,
            AMode::DI => 5,
            AMode::BP => 6,
            AMode::BX => 7,
        }
    }

    pub fn is_plain_bp(&self) -> (r: bool)
        ensures
            r == (*self == AMode::BP),
    {
        match self {
            AMode::BP => true,
            _ => false,
        }
    }

    pub fn is_bp_based(&self) -> (r: bool)
        ensures
            r == self.uses_bp(),
    {
        match self {
            AMode::BPSI | AMode::BPDI | AMode::BP => true,
            _ => false,
        }
    }
}

/// The repeat prefix of a string instruction.
#[derive(Clone, Copy, Debug, PartialEq, Eq, Structural)]
pub enum RepeatMode {
    NoRepeat,
    Rep,
    Repe,
    Repne,
}

/// The size of operands or addresses that the prefixes select.
#[derive(Clone, Copy, Debug, PartialEq, Eq, Structural)]
pub enum OperandSize {
    Bits16,
    Bits32,
}

/// One operand of an instruction.
#[derive(Clone, Copy, Debug, PartialEq, Eq, Structural)]
pub enum Parameter {
    Imm8(u8),
    Imm16(u16),
    Imm32(u32),
    /// index of an 8-bit register: AL, CL, DL, BL, AH, CH, DH, BH
    Reg8(u8),
    /// index of a 16-bit general register
    Reg16(u8),
    /// index of a segment register
    SReg16(u8),
    /// memory at segment:[amode]
    Ptr16Amode(Segment, AMode),
    /// memory at segment:[amode + 8-bit signed displacement]
    Ptr16AmodeS8(Segment, AMode, i8),
    /// memory at segment:[amode + 16-bit signed displacement]
    Ptr16AmodeS16(Segment, AMode, i16),
    /// memory at segment:[16-bit offset]
    Ptr16(Segment, u16),
    /// far pointer segment:offset held in the instruction
    Ptr16Imm(u16, u16),
    Empty,
}

impl Parameter {
    /// Register operands name a register that exists.
    pub open spec fn wf(self) -> bool {
        match self {
            Parameter::Reg8(i) => i < 8,
            Parameter::Reg16(i) => i < 8,
            Parameter::SReg16(i) => i < 6,
            _ => true,
        }
    }

    /// Whether the operand is in memory.
    pub open spec fn is_memory(self) -> bool {
        self is Ptr16Amode || self is Ptr16AmodeS8 || self is Ptr16AmodeS16 || self is Ptr16
    }

    pub fn in_memory(&self) -> (r: bool)
        ensures
            r == self.is_memory(),
    {
        match self {
            Parameter::Ptr16Amode(_, _) | Parameter::Ptr16AmodeS8(_, _, _)
            | Parameter::Ptr16AmodeS16(_, _, _) | Parameter::Ptr16(_, _) => true,
            _ => false,
        }
    }
}

/// A decoded instruction.
#[derive(Clone, Copy, Debug, PartialEq, Eq, Structural)]
pub struct Decoded {
    pub command: Op,
    pub dst: Parameter,
    pub src: Parameter,
    pub src2: Parameter,
    /// the segment override in front of the instruction, if any
    pub segment_prefix: Segment,
    pub repeat: RepeatMode,
    pub lock: bool,
    pub op_size: OperandSize,
    pub address_size: OperandSize,
    /// number of bytes of the encoding, prefixes included
    pub length: u8,
}

impl Decoded {
    pub open spec fn wf(self) -> bool {
        &&& self.dst.wf()
        &&& self.src.wf()
        &&& self.src2.wf()
        &&& self.length <= 15
    }

    /// The record of `command` with the given operands, no prefix, and length
    /// 0: what an encoder takes.
    pub open spec fn spec_new(command: Op, dst: Parameter, src: Parameter, src2: Parameter) -> Decoded {
        Decoded {
            command,
            dst,
            src,
            src2,
            segment_prefix: Segment::Default,
            repeat: RepeatMode::NoRepeat,
            lock: false,
            op_size: OperandSize::Bits16,
            address_size: OperandSize::Bits16,
            length: 0,
        }
    }

    pub fn new(command: Op) -> (r: Decoded)
        ensures
            r == Decoded::spec_new(command, Parameter::Empty, Parameter::Empty, Parameter::Empty),
    {
        Decoded::new3(command, Parameter::Empty, Parameter::Empty, Parameter::Empty)
    }

    pub fn new1(command: Op, dst: Parameter) -> (r: Decoded)
        ensures
            r == Decoded::spec_new(command, dst, Parameter::Empty, Parameter::Empty),
    {
        Decoded::new3(command, dst, Parameter::Empty, Parameter::Empty)
    }

    pub fn new2(command: Op, dst: Parameter, src: Parameter) -> (r: Decoded)
        ensures
            r == Decoded::spec_new(command, dst, src, Parameter::Empty),
    {
        Decoded::new3(command, dst, src, Parameter::Empty)
    }

    pub fn new3(command: Op, dst: Parameter, src: Parameter, src2: Parameter) -> (r: Decoded)
        ensures
            r == Decoded::spec_new(command, dst, src, src2),
    {
        Decoded {
            command,
            dst,
            src,
            src2,
            segment_prefix: Segment::Default,
            repeat: RepeatMode::NoRepeat,
            lock: false,
            op_size: OperandSize::Bits16,
            address_size: OperandSize::Bits16,
            length: 0,
        }
    }
}

} // verus!
