//! The machine state as Verus sees it, with the register file, register
//! pairs, memory operands, the stack and instruction fetch.
use vstd::prelude::*;
use crate::flags::{flag_of, Flag, Flags};

verus! {

/// The size of memory: every 16-bit address names a byte.
pub const MEM_SIZE: usize = 65536;

/// The seven byte registers.
#[derive(Clone, Copy, Debug, PartialEq, Eq, Structural)]
pub struct Regs {
    pub a: u8,
    pub b: u8,
    pub c: u8,
    pub d: u8,
    pub e: u8,
    pub h: u8,
    pub l: u8,
}

/// A byte register by name.
#[derive(Clone, Copy, Debug, PartialEq, Eq, Structural)]
pub enum Reg8 {
    A,
    B,
    C,
    D,
    E,
    H,
    L,
}

/// A 16-bit register pair by name; `SP` is the stack pointer.
#[derive(Clone, Copy, Debug, PartialEq, Eq, Structural)]
pub enum Reg16 {
    BC,
    DE,
    HL,
    SP,
}

/// Why an instruction, or an interrupt, could not be carried out.
#[derive(Clone, Copy, Debug, PartialEq, Eq, Structural)]
pub enum EmuError {
    /// An operand would be read past the top of memory.
    FetchOutOfRange,
    /// A push with SP below 2.
    StackOverflow,
    /// A pop that would read past the top of memory.
    StackUnderflow,
    /// An opcode with no handler.
    Unimplemented(u8),
    /// An interrupt while INTE is clear.
    InterruptsDisabled,
}

/// What a step asks of the host.
#[derive(Clone, Copy, Debug, PartialEq, Eq, Structural)]
pub enum Event {
    /// An instruction was executed; nothing is asked.
    Continue,
    /// The processor is halted: nothing was executed.
    Idle,
    /// `OUT`: write `value` to the device on `port`.
    Output { port: u8, value: u8 },
    /// `IN`: read a byte from the device on `port` (0xFF where none is
    /// bound) and write it into A before the next step.
    Input { port: u8 },
}

/// The state of the machine.
pub struct CpuState {
    pub pc: u16,
    pub sp: u16,
    pub regs: Regs,
    pub flags: Flags,
    pub mem: Seq<u8>,
    /// The interrupt-enable latch.
    pub inte: bool,
    /// False once HLT has run, until an interrupt is accepted.
    pub running: bool,
}

/// Memory covers the whole 16-bit address space.
pub open spec fn valid(s: CpuState) -> bool {
    s.mem.len() == MEM_SIZE
}

/// `x` modulo 2^16.
pub open spec fn wrap16(x: int) -> u16 {
    (x % 65536) as u16
}

/// The 16-bit value with high byte `hi` and low byte `lo`.
pub open spec fn word(hi: u8, lo: u8) -> u16 {
    (hi as nat * 256 + lo as nat) as u16
}

pub open spec fn high_byte(v: u16) -> u8 {
    (v as nat / 256) as u8
}

pub open spec fn low_byte(v: u16) -> u8 {
    (v as nat % 256) as u8
}

pub open spec fn reg_of(r: Regs, which: Reg8) -> u8 {
    match which {
        Reg8::A => r.a,
        Reg8::B => r.b,
        Reg8::C => r.c,
        Reg8::D => r.d,
        Reg8::E => r.e,
        Reg8::H => r.h,
        Reg8::L => r.l,
    }
}

pub open spec fn with_reg(r: Regs, which: Reg8, v: u8) -> Regs {
    match which {
        Reg8::A => Regs { a: v, ..r },
        Reg8::B => Regs { b: v, ..r },
        Reg8::C => Regs { c: v, ..r },
        Reg8::D => Regs { d: v, ..r },
        Reg8::E => Regs { e: v, ..r },
        Reg8::H => Regs { h: v, ..r },
        Reg8::L => Regs { l: v, ..r },
    }
}

/// The register that operand selector `sel` names (000=B ... 101=L,
/// 111=A); 110 is memory at HL and has no register.
pub open spec fn sel_reg(sel: u8) -> Reg8 {
    if sel == 0 {
        Reg8::B
    } else if sel == 1 {
        Reg8::C
    } else if sel == 2 {
        Reg8::D
    } else if sel == 3 {
        Reg8::E
    } else if sel == 4 {
        Reg8::H
    } else if sel == 5 {
        Reg8::L
    } else {
        Reg8::A
    }
}

/// The register pair that bits 5..4 of an opcode name (SP for 11).
pub open spec fn pair_reg(p: u8) -> Reg16 {
    if p == 0 {
        Reg16::BC
    } else if p == 1 {
        Reg16::DE
    } else if p == 2 {
        Reg16::HL
    } else {
        Reg16::SP
    }
}

pub open spec fn hl(s: CpuState) -> u16 {
    word(s.regs.h, s.regs.l)
}

pub open spec fn pair_of(s: CpuState, which: Reg16) -> u16 {
    match which {
        Reg16::BC => word(s.regs.b, s.regs.c),
        Reg16::DE => word(s.regs.d, s.regs.e),
        Reg16::HL => word(s.regs.h, s.regs.l),
        Reg16::SP => s.sp,
    }
}

/// `s` with a pair written: high byte to the first register, low to the second.
pub open spec fn with_pair(s: CpuState, which: Reg16, v: u16) -> CpuState {
    match which {
        Reg16::BC => CpuState { regs: Regs { b: high_byte(v), c: low_byte(v), ..s.regs }, ..s },
        Reg16::DE => CpuState { regs: Regs { d: high_byte(v), e: low_byte(v), ..s.regs }, ..s },
        Reg16::HL => CpuState { regs: Regs { h: high_byte(v), l: low_byte(v), ..s.regs }, ..s },
        Reg16::SP => CpuState { sp: v, ..s },
    }
}

/// The byte that operand selector `sel` names: a register, or memory at HL
/// for 110.
pub open spec fn operand(s: CpuState, sel: u8) -> u8 {
    if sel == 6 {
        s.mem[hl(s) as int]
    } else {
        reg_of(s.regs, sel_reg(sel))
    }
}

pub open spec fn with_operand(s: CpuState, sel: u8, v: u8) -> CpuState {
    if sel == 6 {
        CpuState { mem: s.mem.update(hl(s) as int, v), ..s }
    } else {
        CpuState { regs: with_reg(s.regs, sel_reg(sel), v), ..s }
    }
}

pub open spec fn with_a(s: CpuState, v: u8) -> CpuState {
    CpuState { regs: Regs { a: v, ..s.regs }, ..s }
}

pub open spec fn with_pc(s: CpuState, pc: u16) -> CpuState {
    CpuState { pc, ..s }
}

/// PUSH: the high byte at SP-1, the low byte at SP-2, SP lowered by 2;
/// SP below 2 is a stack overflow.
pub open spec fn push_spec(s: CpuState, v: u16) -> Result<CpuState, EmuError> {
    if s.sp < 2 {
        Err(EmuError::StackOverflow)
    } else {
        Ok(
            CpuState {
                sp: (s.sp - 2) as u16,
                mem: s.mem.update(s.sp - 1, high_byte(v)).update(s.sp - 2, low_byte(v)),
                ..s
            },
        )
    }
}

/// POP: the low byte at SP, the high byte at SP+1, SP raised by 2; a read
/// past the top of memory is a stack underflow.
pub open spec fn pop_spec(s: CpuState) -> Result<(CpuState, u16), EmuError> {
    if s.sp as int + 2 > MEM_SIZE {
        Err(EmuError::StackUnderflow)
    } else {
        Ok(
            (
                CpuState { sp: wrap16(s.sp + 2), ..s },
                word(s.mem[s.sp + 1], s.mem[s.sp as int]),
            ),
        )
    }
}

/// An immediate byte: the byte at PC, and PC moved past it.
pub open spec fn read_byte_spec(s: CpuState) -> (CpuState, u8) {
    (with_pc(s, wrap16(s.pc + 1)), s.mem[s.pc as int])
}

/// A little-endian immediate address at PC, and PC moved past it; one that
/// would run past the top of memory is refused.
pub open spec fn read_addr_spec(s: CpuState) -> Result<(CpuState, u16), EmuError> {
    if s.pc as int + 2 > MEM_SIZE {
        Err(EmuError::FetchOutOfRange)
    } else {
        Ok((with_pc(s, wrap16(s.pc + 2)), word(s.mem[s.pc + 1], s.mem[s.pc as int])))
    }
}

/// True when `flag` has the value `want`.
pub open spec fn holds(s: CpuState, flag: Flag, want: bool) -> bool {
    flag_of(s.flags, flag) == want
}

} // verus!
