//! The instruction kinds, and the reasons for which decoding can fail.
use vstd::prelude::*;

verus! {

/// The class of instruction decode error that occured.
#[derive(Clone, Copy, Debug, PartialEq, Eq, Structural)]
pub enum Invalid {
    /// a reg value was unhandled / invalid
    Reg(u8),
    /// unimplemented / invalid CPU instr
    Op,
    /// unimplemented / invalid FPU instr
    FPUOp,
}

/// The instruction kinds.
#[derive(Clone, Copy, Debug, PartialEq, Eq, Structural)]
pub enum Op {
    /// ASCII Adjust After Addition
    Aaa,

    /// ASCII Adjust AX Before Division
    Aad,

    /// ASCII Adjust AX After Multiply
    Aam,

    /// ASCII Adjust AL After Subtraction
    Aas,

    Adc8, Adc16, Adc32,
    Add8, Add16, Add32,
    And8, And16, And32,

    /// Adjust RPL Field of Segment Selector
    Arpl,

    /// Check Array Index Against Bounds
    Bound,

    /// Bit Scan Forward
    Bsf,

    /// Bit Test
    Bt,

    Bts,
    CallNear, CallFar,

    /// Convert Byte to Word
    Cbw,

    /// Clear Carry Flag
    Clc,

    /// Clear Direction Flag
    Cld,

    /// Clear Interrupt Flag
    Cli,

    /// Complement Carry Flag
    Cmc,

    Cmp8, Cmp16, Cmp32,
    Cmpsb, Cmpsw,

    /// Convert Word to Doubleword
    Cwd16, Cwde32,

    /// Decimal Adjust AL after Addition
    Daa,

    /// Decimal Adjust AL after Subtraction
    Das,

    Dec8, Dec16, Dec32,
    Div8, Div16, Div32,

    Enter,
    Hlt,

    Idiv8, Idiv16, Idiv32,
    Imul8, Imul16, Imul32,

    /// Input from Port
    In8, In16,

    Inc8, Inc16, Inc32,

    /// Input from Port to String
    Insb, Insw,

    Int,
    Into,
    Iret,

    /// Jump if above (CF=0 and ZF=0).    (alias: jnbe)
    Ja,

    /// Jump if carry (CF=1).    (alias: jb, jnae)
    Jc,

    /// Jump if CX register is 0.
    Jcxz,

    /// Jump if greater (ZF=0 and SF=OF).    (alias: jnle)
    Jg,

    /// Jump if less (SF ≠ OF).    (alias: jnge)
    Jl,

    JmpShort, JmpNear, JmpFar,

    /// Jump if not above (CF=1 or ZF=1).    (alias: jbe)
    Jna,

    /// Jump if not carry (CF=0).    (alias: jae, jnb)
    Jnc,

    /// Jump if not greater (ZF=1 or SF ≠ OF).    (alias: jle)
    Jng,

    /// Jump if not less (SF=OF).    (alias: jge)
    Jnl,

    /// Jump if not overflow (OF=0).
    Jno,

    /// Jump if not sign (SF=0).
    Jns,

    /// Jump if not zero (ZF=0).    (alias: jne)
    Jnz,

    /// Jump if overflow (OF=1).
    Jo,

    /// Jump short if parity even (PF=1)
    Jpe,

    /// Jump short if parity odd (PF=0).
    Jpo,

    /// Jump if sign (SF=1).
    Js,

    /// Jump if zero (ZF ← 1).    (alias: je)
    Jz,

    /// Load Status Flags into AH Register
    Lahf,

    Lds,

    /// Load Effective Address
    Lea16,

    Leave,

    Les,

    Lodsb, Lodsw, Lodsd,

    Loop, Loope, Loopne,

    Mov8, Mov16, Mov32,
    Movsb, Movsw, Movsd,

    /// Move with Sign-Extension
    Movsx16, Movsx32,

    /// Move with Zero-Extend
    Movzx16, Movzx32,

    Mul8, Mul16, Mul32,
    Neg8, Neg16, Neg32,
    Nop,
    Not8, Not16, Not32,
    Or8, Or16, Or32,
    Out8, Out16,
    Outsb, Outsw,
    Pop16, Pop32,

    /// Pop DI, SI, BP, BX, DX, CX, and AX.
    Popa16,

    /// Pop EDI, ESI, EBP, EBX, EDX, ECX, and EAX.
    Popad32,

    /// Pop top of stack into lower 16 bits of EFLAGS.
    Popf,

    Push16, Push32,

    /// Push AX, CX, DX, BX, SP as it was before, BP, SI, and DI.
    Pusha16,

    /// Push EAX, ECX, EDX, EBX, ESP as it was before, EBP, ESI, and EDI.
    Pushad32,

    /// push 16 bit FLAGS register onto stack
    Pushf,

    Rcl8, Rcl16, Rcl32,
    Rcr8, Rcr16, Rcr32,

    Retn, Retf, RetImm16,

    Rol8, Rol16, Rol32,
    Ror8, Ror16, Ror32,

    /// Store AH into Flags
    Sahf,

    /// "salc", or "setalc": undocumented, sets AL to 0xFF if the carry flag
    /// is set and to 0 otherwise
    Salc,

    Sar8, Sar16, Sar32,

    /// Integer Subtraction with Borrow
    Sbb8, Sbb16, Sbb32,

    Scasb, Scasw,

    /// setc: Set byte if carry (CF=1).
    /// alias setb: Set byte if below (CF=1).
    Setc,

    /// setg: Set byte if greater (ZF=0 and SF=OF).
    /// alias setnle: Set byte if not less or equal (ZF=0 and SF=OF).
    Setg,

    /// setnz: Set byte if not zero (ZF=0).
    /// alias setne: Set byte if not equal (ZF=0).
    Setnz,

    Shl8, Shl16, Shl32,

    /// Double Precision Shift Left
    Shld,

    Shr8, Shr16, Shr32,

    /// Double Precision Shift Right
    Shrd,

    Sldt,

    /// Set Carry Flag
    Stc,

    /// Set Direction Flag
    Std,

    /// Set Interrupt Flag
    Sti,

    Stosb, Stosw, Stosd,
    Sub8, Sub16, Sub32,
    Test8, Test16, Test32,

    /// Exchange Register/Memory with Register
    Xchg8, Xchg16, Xchg32,

    Xlatb,

    Xor8, Xor16, Xor32,

    /// No instruction has been decoded into this record yet.
    Uninitialized,
    /// Not a recognized instruction; the payload tells why.
    Invalid(Invalid),
}

impl Op {
    /// Every kind but `Uninitialized` and `Invalid` is a valid instruction.
    pub open spec fn spec_is_valid(self) -> bool {
        !(self is Uninitialized) && !(self is Invalid)
    }

    /// The `reg` field that selects this kind in the F6 group, if it has one:
    /// TEST=0, NOT=2, NEG=3, MUL=4, IMUL=5, DIV=6, IDIV=7.
    pub open spec fn spec_f6_index(self) -> Option<u8> {
        match self {
            Op::Test8 => Some(0u8),
            Op::Not8 => Some(2u8),
            Op::Neg8 => Some(3u8),
            Op::Mul8 => Some(4u8),
            Op::Imul8 => Some(5u8),
            Op::Div8 => Some(6u8),
            Op::Idiv8 => Some(7u8),
            _ => None,
        }
    }

    /// The `reg` field that selects this kind in the FE/FF group, if it has
    /// one: INC=0, DEC=1, CALL=2, JMP=4, PUSH=6.
    pub open spec fn spec_feff_index(self) -> Option<u8> {
        match self {
            Op::Inc8 | Op::Inc16 | Op::Inc32 => Some(0u8),
            Op::Dec8 | Op::Dec16 | Op::Dec32 => Some(1u8),
            Op::CallNear => Some(2u8),
            Op::JmpNear => Some(4u8),
            Op::Push16 => Some(6u8),
            _ => None,
        }
    }

    pub fn is_valid(&self) -> (r: bool)
        ensures
            r == self.spec_is_valid(),
    {
        match *self {
            Op::Uninitialized | Op::Invalid(_) => false,
            _ => true,
        }
    }

    /// used by encoder
    pub fn f6_index(&self) -> (r: u8)
        requires
            self.spec_f6_index() is Some,
        ensures
            Some(r) == self.spec_f6_index(),
    {
        match *self {
            Op::Test8 => 0,
            Op::Not8 => 2,
            Op::Neg8 => 3,
            Op::Mul8 => 4,
            Op::Imul8 => 5,
            Op::Div8 => 6,
            _ => 7,
        }
    }

    /// used by encoder
    pub fn feff_index(&self) -> (r: u8)
        requires
            self.spec_feff_index() is Some,
        ensures
            Some(r) == self.spec_feff_index(),
    {
        match *self {
            Op::Inc8 | Op::Inc16 | Op::Inc32 => 0,
            Op::Dec8 | Op::Dec16 | Op::Dec32 => 1,
            Op::CallNear => 2,
            Op::JmpNear => 4,
            _ => 6,
        }
    }
}

} // verus!
