//! What each instruction does, as spec functions from state to state. An
//! instruction that fails leaves the state as it found it.
use vstd::prelude::*;
use crate::alu::{alu_spec, dad_spec, daa_spec, dcr_spec, inr_spec, rotate_spec};
use crate::flags::{pack_spec, unpack_spec, Flag, Flags};
use crate::state::{
    hl, high_byte, holds, low_byte, operand, pair_of, pair_reg, pop_spec, push_spec, read_addr_spec,
    read_byte_spec, with_a, with_operand, with_pair, with_pc, word, wrap16, CpuState, EmuError, Event,
    Reg16, Regs,
};

verus! {

/// `JMP`-if: with `flag == want`, PC takes the immediate address; otherwise
/// PC moves past it.
pub open spec fn jump_spec(s: CpuState, flag: Flag, want: bool) -> Result<CpuState, EmuError> {
    if holds(s, flag, want) {
        match read_addr_spec(s) {
            Ok((s1, a)) => Ok(with_pc(s1, a)),
            Err(e) => Err(e),
        }
    } else {
        Ok(with_pc(s, wrap16(s.pc + 2)))
    }
}

/// `CALL a`: the address of the next instruction is pushed, PC takes `a`.
pub open spec fn call_spec(s: CpuState, a: u16) -> Result<CpuState, EmuError> {
    match push_spec(s, s.pc) {
        Ok(s1) => Ok(with_pc(s1, a)),
        Err(e) => Err(e),
    }
}

/// `CALL` with its address read at PC.
pub open spec fn call_imm_spec(s: CpuState) -> Result<CpuState, EmuError> {
    match read_addr_spec(s) {
        Ok((s1, a)) => call_spec(s1, a),
        Err(e) => Err(e),
    }
}

/// `CALL`-if: a call where `flag == want`, else PC moves past the address.
pub open spec fn call_when_spec(s: CpuState, flag: Flag, want: bool) -> Result<
    CpuState,
    EmuError,
> {
    if holds(s, flag, want) {
        call_imm_spec(s)
    } else {
        Ok(with_pc(s, wrap16(s.pc + 2)))
    }
}

/// `RET`: PC takes the popped address.
pub open spec fn ret_spec(s: CpuState) -> Result<CpuState, EmuError> {
    match pop_spec(s) {
        Ok((s1, v)) => Ok(with_pc(s1, v)),
        Err(e) => Err(e),
    }
}

/// `RET`-if: a return where `flag == want`, else nothing.
pub open spec fn ret_when_spec(s: CpuState, flag: Flag, want: bool) -> Result<CpuState, EmuError> {
    if holds(s, flag, want) {
        ret_spec(s)
    } else {
        Ok(s)
    }
}

/// The flag that condition code `y` (bits 5..3 of a branch opcode) tests:
/// NZ/Z, NC/C, PO/PE, P/M.
pub open spec fn cond_flag(y: u8) -> Flag {
    if y / 2 == 0 {
        Flag::Zero
    } else if y / 2 == 1 {
        Flag::Carry
    } else if y / 2 == 2 {
        Flag::Parity
    } else {
        Flag::Sign
    }
}

/// The program status word: A high, the flag byte low.
pub open spec fn psw(s: CpuState) -> u16 {
    word(s.regs.a, pack_spec(s.flags))
}

/// `s` with A and the flags written.
pub open spec fn with_af(s: CpuState, a: u8, f: Flags) -> CpuState {
    CpuState { regs: Regs { a, ..s.regs }, flags: f, ..s }
}

pub open spec fn alu_step(s: CpuState, k: u8, v: u8) -> CpuState {
    let (a, f) = alu_spec(k, s.regs.a, v, s.flags);
    with_af(s, a, f)
}

/// `LXI` (`q` = 0) and `DAD` (`q` = 1) on pair `p`.
pub open spec fn pair_load_spec(s: CpuState, p: u8, q: u8) -> Result<CpuState, EmuError> {
    if q == 0 {
        match read_addr_spec(s) {
            Ok((s1, v)) => Ok(with_pair(s1, pair_reg(p), v)),
            Err(e) => Err(e),
        }
    } else {
        let (v, c) = dad_spec(hl(s), pair_of(s, pair_reg(p)));
        let s1 = with_pair(s, Reg16::HL, v);
        Ok(CpuState { flags: Flags { carry: c, ..s.flags }, ..s1 })
    }
}

/// `STAX B`, `STAX D`, `SHLD`, `STA` (`q` = 0) and `LDAX B`, `LDAX D`,
/// `LHLD`, `LDA` (`q` = 1), for `p` = 0..3.
pub open spec fn transfer_spec(s: CpuState, p: u8, q: u8) -> Result<CpuState, EmuError> {
    if p < 2 {
        let at = pair_of(s, pair_reg(p));
        if q == 0 {
            Ok(CpuState { mem: s.mem.update(at as int, s.regs.a), ..s })
        } else {
            Ok(with_a(s, s.mem[at as int]))
        }
    } else {
        match read_addr_spec(s) {
            Ok((s1, at)) => {
                let next = wrap16(at + 1);
                if p == 2 && q == 0 {
                    Ok(
                        CpuState {
                            mem: s1.mem.update(at as int, s1.regs.l).update(next as int, s1.regs.h),
                            ..s1
                        },
                    )
                } else if p == 2 {
                    Ok(
                        CpuState {
                            regs: Regs { l: s1.mem[at as int], h: s1.mem[next as int], ..s1.regs },
                            ..s1
                        },
                    )
                } else if q == 0 {
                    Ok(CpuState { mem: s1.mem.update(at as int, s1.regs.a), ..s1 })
                } else {
                    Ok(with_a(s1, s1.mem[at as int]))
                }
            },
            Err(e) => Err(e),
        }
    }
}

/// The accumulator group 0x07..0x3F step 8: `RLC`, `RRC`, `RAL`, `RAR`,
/// `DAA`, `CMA`, `STC`, `CMC` for `y` = 0..7.
pub open spec fn accumulator_spec(s: CpuState, y: u8) -> CpuState {
    if y < 4 {
        let (a, c) = rotate_spec(y, s.regs.a, s.flags.carry);
        with_af(s, a, Flags { carry: c, ..s.flags })
    } else if y == 4 {
        let (a, f) = daa_spec(s.regs.a, s.flags);
        with_af(s, a, f)
    } else if y == 5 {
        with_a(s, (255 - s.regs.a) as u8)
    } else if y == 6 {
        CpuState { flags: Flags { carry: true, ..s.flags }, ..s }
    } else {
        CpuState { flags: Flags { carry: !s.flags.carry, ..s.flags }, ..s }
    }
}

/// Opcodes 0x00..0x3F.
pub open spec fn low_block_spec(s: CpuState, op: u8) -> Result<CpuState, EmuError> {
    let y = op / 8 % 8;
    let z = op % 8;
    let p = op / 16 % 4;
    let q = op / 8 % 2;
    if z == 0 {
        if op == 0 {
            Ok(s)
        } else {
            Err(EmuError::Unimplemented(op))
        }
    } else if z == 1 {
        pair_load_spec(s, p, q)
    } else if z == 2 {
        transfer_spec(s, p, q)
    } else if z == 3 {
        let v = pair_of(s, pair_reg(p));
        if q == 0 {
            Ok(with_pair(s, pair_reg(p), wrap16(v + 1)))
        } else {
            Ok(with_pair(s, pair_reg(p), wrap16(v - 1)))
        }
    } else if z == 4 {
        let (v, f) = inr_spec(operand(s, y), s.flags);
        Ok(CpuState { flags: f, ..with_operand(s, y, v) })
    } else if z == 5 {
        let (v, f) = dcr_spec(operand(s, y), s.flags);
        Ok(CpuState { flags: f, ..with_operand(s, y, v) })
    } else if z == 6 {
        let (s1, v) = read_byte_spec(s);
        Ok(with_operand(s1, y, v))
    } else {
        Ok(accumulator_spec(s, y))
    }
}

/// Opcodes 0x40..0x7F: `MOV`, and `HLT` at 0x76.
pub open spec fn mov_block_spec(s: CpuState, op: u8) -> CpuState {
    if op == 0x76 {
        CpuState { running: false, ..s }
    } else {
        with_operand(s, op / 8 % 8, operand(s, op % 8))
    }
}

/// Opcodes 0xC0..0xFF.
#[verifier::opaque]
pub open spec fn high_block_spec(s: CpuState, op: u8) -> Result<(CpuState, Event), EmuError> {
    let y = op / 8 % 8;
    let z = op % 8;
    let p = op / 16 % 4;
    let q = op / 8 % 2;
    if z == 0 {
        continued(ret_when_spec(s, cond_flag(y), y % 2 == 1))
    } else if z == 1 {
        if q == 0 {
            match pop_spec(s) {
                Ok((s1, v)) => if p == 3 {
                    Ok((with_af(s1, high_byte(v), unpack_spec(low_byte(v))), Event::Continue))
                } else {
                    Ok((with_pair(s1, pair_reg(p), v), Event::Continue))
                },
                Err(e) => Err(e),
            }
        } else if p == 0 {
            continued(ret_spec(s))
        } else if p == 1 {
            Err(EmuError::Unimplemented(op))
        } else if p == 2 {
            Ok((with_pc(s, hl(s)), Event::Continue))
        } else {
            Ok((CpuState { sp: hl(s), ..s }, Event::Continue))
        }
    } else if z == 2 {
        continued(jump_spec(s, cond_flag(y), y % 2 == 1))
    } else if z == 3 {
        if y == 0 {
            match read_addr_spec(s) {
                Ok((s1, a)) => Ok((with_pc(s1, a), Event::Continue)),
                Err(e) => Err(e),
            }
        } else if y == 1 {
            Err(EmuError::Unimplemented(op))
        } else if y == 2 {
            let (s1, port) = read_byte_spec(s);
            Ok((s1, Event::Output { port, value: s.regs.a }))
        } else if y == 3 {
            let (s1, port) = read_byte_spec(s);
            Ok((s1, Event::Input { port }))
        } else if y == 4 {
            let next = wrap16(s.sp + 1);
            Ok(
                (
                    CpuState {
                        regs: Regs { l: s.mem[s.sp as int], h: s.mem[next as int], ..s.regs },
                        mem: s.mem.update(s.sp as int, s.regs.l).update(next as int, s.regs.h),
                        ..s
                    },
                    Event::Continue,
                ),
            )
        } else if y == 5 {
            Ok(
                (
                    CpuState {
                        regs: Regs { d: s.regs.h, e: s.regs.l, h: s.regs.d, l: s.regs.e, ..s.regs },
                        ..s
                    },
                    Event::Continue,
                ),
            )
        } else {
            // DI and EI; EI takes effect at once, without the one-instruction delay.
            Ok((CpuState { inte: y == 7, ..s }, Event::Continue))
        }
    } else if z == 4 {
        continued(call_when_spec(s, cond_flag(y), y % 2 == 1))
    } else if z == 5 {
        if q == 0 {
            let v = if p == 3 {
                psw(s)
            } else {
                pair_of(s, pair_reg(p))
            };
            continued(push_spec(s, v))
        } else if p == 0 {
            continued(call_imm_spec(s))
        } else {
            Err(EmuError::Unimplemented(op))
        }
    } else if z == 6 {
        let (s1, v) = read_byte_spec(s);
        Ok((alu_step(s1, y, v), Event::Continue))
    } else {
        continued(call_spec(s, (y * 8) as u16))
    }
}

/// An instruction's result, with nothing asked of the host.
pub open spec fn continued(r: Result<CpuState, EmuError>) -> Result<(CpuState, Event), EmuError> {
    match r {
        Ok(s1) => Ok((s1, Event::Continue)),
        Err(e) => Err(e),
    }
}

/// Executes opcode `op`, already fetched (PC is past it).
#[verifier::opaque]
pub open spec fn execute_spec(s: CpuState, op: u8) -> Result<(CpuState, Event), EmuError> {
    if op < 0x40 {
        continued(low_block_spec(s, op))
    } else if op < 0x80 {
        Ok((mov_block_spec(s, op), Event::Continue))
    } else if op < 0xC0 {
        Ok((alu_step(s, op / 8 % 8, operand(s, op % 8)), Event::Continue))
    } else {
        high_block_spec(s, op)
    }
}

/// The state and result of `execute_spec` applied after `s`; on failure the
/// state stays `s`.
pub open spec fn settle(s: CpuState, r: Result<(CpuState, Event), EmuError>) -> (
    CpuState,
    Result<Event, EmuError>,
) {
    match r {
        Ok((s2, ev)) => (s2, Ok(ev)),
        Err(e) => (s, Err(e)),
    }
}

/// One step: idle when halted; otherwise fetch the opcode at PC, move PC
/// past it and execute it. A failed instruction leaves PC past its opcode.
pub open spec fn step_spec(s: CpuState) -> (CpuState, Result<Event, EmuError>) {
    if !s.running {
        (s, Ok(Event::Idle))
    } else {
        let s1 = with_pc(s, wrap16(s.pc + 1));
        settle(s1, execute_spec(s1, s.mem[s.pc as int]))
    }
}

/// An interrupt: refused with INTE clear, with no effect. Otherwise INTE is
/// cleared, the processor runs again and `op` is executed without a fetch.
pub open spec fn interrupt_spec(s: CpuState, op: u8) -> (CpuState, Result<Event, EmuError>) {
    if !s.inte {
        (s, Err(EmuError::InterruptsDisabled))
    } else {
        let s1 = CpuState { inte: false, running: true, ..s };
        settle(s1, execute_spec(s1, op))
    }
}

} // verus!
