//! Laws of the engine, proved over the spec functions that its executable
//! contracts use (`step_spec`, `push_spec`, `pop_spec`, `pack_spec`).
use vstd::prelude::*;
use crate::flags::{even_parity, flag_of, ones, pack_spec, unpack_spec, Flags};
use crate::semantics::{
    alu_step, call_imm_spec, call_spec, call_when_spec, cond_flag, continued, execute_spec,
    high_block_spec, jump_spec, low_block_spec, psw, ret_spec, settle, step_spec, with_af,
};
use crate::state::{
    high_byte, low_byte, operand, pop_spec, push_spec, read_addr_spec, read_byte_spec, valid, with_pc, word, wrap16, CpuState,
    EmuError, Event,
};

verus! {

/// The opcode at PC.
pub open spec fn opcode(s: CpuState) -> u8 {
    s.mem[s.pc as int]
}

/// The state after one step.
pub open spec fn next(s: CpuState) -> CpuState {
    step_spec(s).0
}

/// True when the step from `s` succeeds, asking nothing of the host.
pub open spec fn steps_ok(s: CpuState) -> bool {
    step_spec(s).1 == Ok::<Event, EmuError>(Event::Continue)
}

/// The little-endian address that follows the opcode at PC.
pub open spec fn operand_addr(s: CpuState) -> u16 {
    word(s.mem[s.pc + 2], s.mem[s.pc + 1])
}

/// True when condition code `y` (NZ, Z, NC, C, PO, PE, P, M) holds.
pub open spec fn condition(f: Flags, y: u8) -> bool {
    flag_of(f, cond_flag(y)) == (y % 2 == 1)
}

/// The flag byte keeps bit 1 set and bits 3 and 5 clear, and reading it back
/// gives the five flags unchanged: it holds the five flags and nothing else.
pub proof fn lemma_flag_byte(f: Flags)
    ensures
        pack_spec(f) & 0x02 == 0x02,
        pack_spec(f) & 0x28 == 0,
        unpack_spec(pack_spec(f)) == f,
{
    let v = pack_spec(f);
    assert(v & 0x02 == 0x02 && v & 0x28 == 0) by (bit_vector)
        requires
            v / 2 % 2 == 1,
            v / 8 % 2 == 0,
            v / 32 % 2 == 0,
    ;
}

/// `PUSH PSW` writes A above the flag byte, with its fixed bits applied,
/// and a following `POP PSW` gives A and the flags back.
pub proof fn lemma_push_psw(s: CpuState)
    requires
        valid(s),
        s.running,
        opcode(s) == 0xF5,
        s.sp >= 2,
    ensures
        steps_ok(s),
        next(s).sp == s.sp - 2,
        next(s).mem[s.sp - 1] == s.regs.a,
        next(s).mem[s.sp - 2] == pack_spec(s.flags),
        opcode(next(s)) == 0xF1 ==> steps_ok(next(s)) && next(next(s)).regs.a == s.regs.a
            && next(next(s)).flags == s.flags && next(next(s)).sp == s.sp,
{
    lemma_flag_byte(s.flags);
    let s1 = fetched(s);
    lemma_step(s);
    lemma_exec_high(s1, 0xF5);
    lemma_high_push_psw(s1);
    let w = word(s.regs.a, pack_spec(s.flags));
    assert(high_byte(w) == s.regs.a && low_byte(w) == pack_spec(s.flags));
    assert(psw(s1) == w);
    let s2 = push_spec(s1, w)->Ok_0;
    assert(next(s) == s2);
    if opcode(s2) == 0xF1 {
        lemma_step(s2);
        lemma_exec_high(fetched(s2), 0xF1);
        lemma_high_pop_psw(fetched(s2));
        assert(s2.mem[s2.sp + 1] == s.regs.a);
        assert(s2.mem[s2.sp as int] == pack_spec(s.flags));
    }
}

/// `PUSH v` and then `POP` give `v` back and restore SP, for every SP that
/// leaves room for two bytes.
pub proof fn lemma_push_pop(s: CpuState, v: u16)
    requires
        valid(s),
        s.sp >= 2,
    ensures
        push_spec(s, v) is Ok,
        pop_spec(push_spec(s, v)->Ok_0) is Ok,
        pop_spec(push_spec(s, v)->Ok_0)->Ok_0.1 == v,
        pop_spec(push_spec(s, v)->Ok_0)->Ok_0.0.sp == s.sp,
{
    let s1 = push_spec(s, v)->Ok_0;
    assert(s1.mem[s1.sp + 1] == high_byte(v));
    assert(s1.mem[s1.sp as int] == low_byte(v));
}

/// `JMP a` sets PC to `a` and leaves SP.
pub proof fn lemma_jmp(s: CpuState)
    requires
        valid(s),
        s.running,
        opcode(s) == 0xC3,
        s.pc + 3 <= 65536,
    ensures
        steps_ok(s),
        next(s).pc == operand_addr(s),
        next(s).sp == s.sp,
{
    let s1 = fetched(s);
    lemma_step(s);
    lemma_exec_high(s1, 0xC3);
    lemma_high_jmp(s1);
    assert(read_addr_spec(s1) == Ok::<(CpuState, u16), EmuError>(
        (with_pc(s1, wrap16(s1.pc + 2)), operand_addr(s)),
    ));
}

/// `CALL a` followed at once by the `RET` at `a` brings PC back to the
/// instruction after the call, and SP back to where it was.
pub proof fn lemma_call_ret(s: CpuState)
    requires
        valid(s),
        s.running,
        opcode(s) == 0xCD,
        s.pc + 3 <= 65536,
        s.sp >= 2,
        s.mem[operand_addr(s) as int] == 0xC9,
        operand_addr(s) != s.sp - 1,
        operand_addr(s) != s.sp - 2,
    ensures
        steps_ok(s),
        next(s).pc == operand_addr(s),
        steps_ok(next(s)),
        next(next(s)).pc == wrap16(s.pc + 3),
        next(next(s)).sp == s.sp,
{
    let s1 = fetched(s);
    let a = operand_addr(s);
    lemma_step(s);
    lemma_exec_high(s1, 0xCD);
    lemma_high_call(s1);
    let s2 = with_pc(s1, wrap16(s1.pc + 2));
    assert(read_addr_spec(s1) == Ok::<(CpuState, u16), EmuError>((s2, a)));
    let ra = wrap16(s.pc + 3);
    assert(s2.pc == ra);
    let s3 = with_pc(push_spec(s2, ra)->Ok_0, a);
    assert(next(s) == s3);
    assert(opcode(s3) == 0xC9);
    lemma_step(s3);
    lemma_exec_high(fetched(s3), 0xC9);
    lemma_high_ret(fetched(s3));
    assert(s3.mem[s3.sp + 1] == high_byte(ra));
    assert(s3.mem[s3.sp as int] == low_byte(ra));
}

/// `RST n` does what a call of `8 n` does from the instruction after it.
pub proof fn lemma_rst_is_call(s: CpuState, n: u8)
    requires
        valid(s),
        s.running,
        n < 8,
        opcode(s) == 0xC7 + 8 * n,
    ensures
        match call_spec(fetched(s), (8 * n) as u16) {
            Ok(s1) => steps_ok(s) && next(s) == s1,
            Err(e) => step_spec(s).1 == Err::<Event, EmuError>(e),
        },
{
    lemma_step(s);
    lemma_exec_high(fetched(s), opcode(s));
    lemma_high_rst(fetched(s), n);
}

/// A conditional jump (`0xC2 + 8 y`) moves PC past its address when the
/// condition fails, and to the address when it holds.
pub proof fn lemma_jump_when(s: CpuState, y: u8)
    requires
        valid(s),
        s.running,
        y < 8,
        opcode(s) == 0xC2 + 8 * y,
        s.pc + 3 <= 65536,
    ensures
        steps_ok(s),
        next(s).sp == s.sp,
        condition(s.flags, y) ==> next(s).pc == operand_addr(s),
        !condition(s.flags, y) ==> next(s).pc == wrap16(s.pc + 3),
{
    let s1 = fetched(s);
    lemma_step(s);
    lemma_exec_high(s1, opcode(s));
    lemma_high_jcc(s1, y);
    assert(read_addr_spec(s1) == Ok::<(CpuState, u16), EmuError>(
        (with_pc(s1, wrap16(s1.pc + 2)), operand_addr(s)),
    ));
}

/// A conditional call (`0xC4 + 8 y`) moves PC past its address when the
/// condition fails, and to the address when it holds.
pub proof fn lemma_call_when(s: CpuState, y: u8)
    requires
        valid(s),
        s.running,
        y < 8,
        opcode(s) == 0xC4 + 8 * y,
        s.pc + 3 <= 65536,
        s.sp >= 2,
    ensures
        steps_ok(s),
        condition(s.flags, y) ==> next(s).pc == operand_addr(s) && next(s).sp == s.sp - 2,
        !condition(s.flags, y) ==> next(s).pc == wrap16(s.pc + 3) && next(s).sp == s.sp,
{
    let s1 = fetched(s);
    lemma_step(s);
    lemma_exec_high(s1, opcode(s));
    lemma_high_ccc(s1, y);
    assert(read_addr_spec(s1) == Ok::<(CpuState, u16), EmuError>(
        (with_pc(s1, wrap16(s1.pc + 2)), operand_addr(s)),
    ));
}

/// After an arithmetic or logical instruction on a register or memory
/// (`0x80..0xB7`, CMP aside), Z, S and P describe the new accumulator.
pub proof fn lemma_result_flags(s: CpuState)
    requires
        valid(s),
        s.running,
        0x80 <= opcode(s) < 0xB8,
    ensures
        steps_ok(s),
        next(s).flags.zero == (next(s).regs.a == 0),
        next(s).flags.sign == (next(s).regs.a / 128 == 1),
        next(s).flags.parity == (ones(next(s).regs.a as nat) % 2 == 0),
{
    lemma_step(s);
    lemma_exec_alu(fetched(s), opcode(s));
}

/// The same holds of the immediate forms (`ADI` ... `ORI`, `0xC6 + 8 k`,
/// CPI aside).
pub proof fn lemma_immediate_result_flags(s: CpuState)
    requires
        valid(s),
        s.running,
        0xC0 <= opcode(s) < 0xF8,
        opcode(s) % 8 == 6,
    ensures
        steps_ok(s),
        next(s).flags.zero == (next(s).regs.a == 0),
        next(s).flags.sign == (next(s).regs.a / 128 == 1),
        next(s).flags.parity == (ones(next(s).regs.a as nat) % 2 == 0),
{
    lemma_step(s);
    lemma_exec_high(fetched(s), opcode(s));
    lemma_high_alu_imm(fetched(s), opcode(s));
}

/// `INR` and `DCR` on a register or memory: Z, S and P describe the new
/// value of the operand.
pub proof fn lemma_inr_dcr_result_flags(s: CpuState)
    requires
        valid(s),
        s.running,
        opcode(s) < 0x40,
        opcode(s) % 8 == 4 || opcode(s) % 8 == 5,
    ensures
        steps_ok(s),
        ({
            let v = operand(next(s), opcode(s) / 8 % 8);
            &&& next(s).flags.zero == (v == 0)
            &&& next(s).flags.sign == (v / 128 == 1)
            &&& next(s).flags.parity == (ones(v as nat) % 2 == 0)
        }),
{
    lemma_step(s);
    lemma_exec_low(fetched(s), opcode(s));
}

/// `ADD r`: CY is the carry out of bit 7, AC the carry out of bit 3.
pub proof fn lemma_add_flags(s: CpuState)
    requires
        valid(s),
        s.running,
        0x80 <= opcode(s) < 0x88,
    ensures
        steps_ok(s),
        ({
            let a = s.regs.a;
            let r = operand(s, opcode(s) % 8);
            &&& next(s).flags.carry == (a + r >= 256)
            &&& next(s).flags.aux == ((a & 0xF) + (r & 0xF) >= 16)
        }),
{
    lemma_step(s);
    lemma_exec_alu(fetched(s), opcode(s));
    lemma_low_nibble(s.regs.a);
    lemma_low_nibble(operand(s, opcode(s) % 8));
}

/// `SUB r`: CY is set when A is below the operand, AC when A's low nibble
/// is below the operand's.
pub proof fn lemma_sub_flags(s: CpuState)
    requires
        valid(s),
        s.running,
        0x90 <= opcode(s) < 0x98,
    ensures
        steps_ok(s),
        ({
            let a = s.regs.a;
            let r = operand(s, opcode(s) % 8);
            &&& next(s).flags.carry == (a < r)
            &&& next(s).flags.aux == ((a & 0xF) < (r & 0xF))
        }),
{
    lemma_step(s);
    lemma_exec_alu(fetched(s), opcode(s));
    lemma_low_nibble(s.regs.a);
    lemma_low_nibble(operand(s, opcode(s) % 8));
}

/// `XRA A` clears A, sets Z and P, and clears CY, AC and S, whatever the
/// state.
pub proof fn lemma_xra_a(s: CpuState)
    requires
        valid(s),
        s.running,
        opcode(s) == 0xAF,
    ensures
        steps_ok(s),
        next(s).regs.a == 0,
        next(s).flags == (Flags { sign: false, zero: true, aux: false, parity: true, carry: false }),
{
    lemma_step(s);
    lemma_exec_alu(fetched(s), opcode(s));
    let a = s.regs.a;
    assert(a ^ a == 0) by (bit_vector);
    assert(ones(0) == 0);
}

/// The logical instructions, on registers, memory or an immediate, clear CY.
pub proof fn lemma_logic_clears_carry(s: CpuState)
    requires
        valid(s),
        s.running,
        (0xA0 <= opcode(s) < 0xB8) || opcode(s) == 0xE6 || opcode(s) == 0xEE || opcode(s) == 0xF6,
    ensures
        steps_ok(s),
        !next(s).flags.carry,
{
    lemma_step(s);
    if opcode(s) < 0xB8 {
        lemma_exec_alu(fetched(s), opcode(s));
    } else {
        lemma_exec_high(fetched(s), opcode(s));
        lemma_high_alu_imm(fetched(s), opcode(s));
    }
}

/// The state after the opcode fetch.
pub open spec fn fetched(s: CpuState) -> CpuState {
    with_pc(s, wrap16(s.pc + 1))
}

proof fn lemma_step(s: CpuState)
    requires
        s.running,
    ensures
        step_spec(s) == settle(fetched(s), execute_spec(fetched(s), opcode(s))),
{
}

proof fn lemma_exec_high(s: CpuState, op: u8)
    requires
        op >= 0xC0,
    ensures
        execute_spec(s, op) == high_block_spec(s, op),
{
    reveal(execute_spec);
}

proof fn lemma_exec_alu(s: CpuState, op: u8)
    requires
        0x80 <= op < 0xC0,
    ensures
        execute_spec(s, op) == Ok::<(CpuState, Event), EmuError>(
            (alu_step(s, op / 8 % 8, operand(s, op % 8)), Event::Continue),
        ),
{
    reveal(execute_spec);
}

proof fn lemma_exec_low(s: CpuState, op: u8)
    requires
        op < 0x40,
    ensures
        execute_spec(s, op) == continued(low_block_spec(s, op)),
{
    reveal(execute_spec);
}

proof fn lemma_high_jmp(s: CpuState)
    ensures
        high_block_spec(s, 0xC3) == match read_addr_spec(s) {
            Ok((s1, a)) => Ok((with_pc(s1, a), Event::Continue)),
            Err(e) => Err(e),
        },
{
    reveal(high_block_spec);
}

proof fn lemma_high_call(s: CpuState)
    ensures
        high_block_spec(s, 0xCD) == continued(call_imm_spec(s)),
{
    reveal(high_block_spec);
}

proof fn lemma_high_ret(s: CpuState)
    ensures
        high_block_spec(s, 0xC9) == continued(ret_spec(s)),
{
    reveal(high_block_spec);
}

proof fn lemma_high_push_psw(s: CpuState)
    ensures
        high_block_spec(s, 0xF5) == continued(push_spec(s, psw(s))),
{
    reveal(high_block_spec);
}

proof fn lemma_high_pop_psw(s: CpuState)
    ensures
        high_block_spec(s, 0xF1) == match pop_spec(s) {
            Ok((s1, v)) => Ok((with_af(s1, high_byte(v), unpack_spec(low_byte(v))), Event::Continue)),
            Err(e) => Err(e),
        },
{
    reveal(high_block_spec);
}

proof fn lemma_high_rst(s: CpuState, n: u8)
    requires
        n < 8,
    ensures
        high_block_spec(s, (0xC7 + 8 * n) as u8) == continued(call_spec(s, (8 * n) as u16)),
{
    reveal(high_block_spec);
    assert((0xC7 + 8 * n) as u8 / 8 % 8 == n);
    assert((0xC7 + 8 * n) as u8 % 8 == 7);
}

proof fn lemma_high_jcc(s: CpuState, y: u8)
    requires
        y < 8,
    ensures
        high_block_spec(s, (0xC2 + 8 * y) as u8) == continued(
            jump_spec(s, cond_flag(y), y % 2 == 1),
        ),
{
    reveal(high_block_spec);
    assert((0xC2 + 8 * y) as u8 / 8 % 8 == y);
    assert((0xC2 + 8 * y) as u8 % 8 == 2);
}

proof fn lemma_high_ccc(s: CpuState, y: u8)
    requires
        y < 8,
    ensures
        high_block_spec(s, (0xC4 + 8 * y) as u8) == continued(
            call_when_spec(s, cond_flag(y), y % 2 == 1),
        ),
{
    reveal(high_block_spec);
    assert((0xC4 + 8 * y) as u8 / 8 % 8 == y);
    assert((0xC4 + 8 * y) as u8 % 8 == 4);
}

proof fn lemma_high_alu_imm(s: CpuState, op: u8)
    requires
        op >= 0xC0,
        op % 8 == 6,
    ensures
        high_block_spec(s, op) == Ok::<(CpuState, Event), EmuError>(
            (alu_step(read_byte_spec(s).0, op / 8 % 8, read_byte_spec(s).1), Event::Continue),
        ),
{
    reveal(high_block_spec);
}

proof fn lemma_low_nibble(v: u8)
    ensures
        v & 0xF == v % 16,
{
    assert(v & 0xF == v % 16) by (bit_vector);
}

} // verus!
