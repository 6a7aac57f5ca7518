//! The executable engine: registers, flags and 64 KiB of memory, and the
//! instructions, each proved to do what `semantics` says.
use vstd::prelude::*;
use crate::alu::{alu, dad, daa_spec, decimal_adjust, dcr, inr, rotate};
use crate::flags::{flag_of, unpack_spec, with_flag, Flag, Flags};
use crate::semantics::{
    call_imm_spec, call_spec, call_when_spec, cond_flag, execute_spec, high_block_spec,
    accumulator_spec, interrupt_spec, jump_spec, low_block_spec, pair_load_spec, transfer_spec, ret_spec, ret_when_spec, settle, step_spec, with_af,
};
use crate::state::{
    hl, operand, pair_of, pair_reg, pop_spec, push_spec, read_addr_spec, read_byte_spec, reg_of,
    sel_reg, valid, with_a, with_operand, with_pair, with_reg, word, wrap16, CpuState, EmuError, Event,
    Reg16, Reg8, Regs, MEM_SIZE,
};

verus! {

/// An 8080 processor with its memory.
pub struct Emulator {
    pc: u16,
    sp: u16,
    regs: Regs,
    flags: Flags,
    mem: Vec<u8>,
    inte: bool,
    running: bool,
}

impl View for Emulator {
    type V = CpuState;

    closed spec fn view(&self) -> CpuState {
        CpuState {
            pc: self.pc,
            sp: self.sp,
            regs: self.regs,
            flags: self.flags,
            mem: self.mem@,
            inte: self.inte,
            running: self.running,
        }
    }
}

/// The state of a freshly built machine: everything zero, INTE set, running.
pub open spec fn reset_state() -> CpuState {
    CpuState {
        pc: 0,
        sp: 0,
        regs: Regs { a: 0, b: 0, c: 0, d: 0, e: 0, h: 0, l: 0 },
        flags: Flags { sign: false, zero: false, aux: false, parity: false, carry: false },
        mem: Seq::new(MEM_SIZE as nat, |i: int| 0u8),
        inte: true,
        running: true,
    }
}

/// `post` and `r` are what `want` gives from `pre`: its state on success;
/// on failure `pre` unchanged and its error.
pub open spec fn applied(
    pre: CpuState,
    post: CpuState,
    r: Result<(), EmuError>,
    want: Result<CpuState, EmuError>,
) -> bool {
    match want {
        Ok(s) => post == s && r == Ok::<(), EmuError>(()),
        Err(e) => post == pre && r == Err::<(), EmuError>(e),
    }
}

/// Memory after `bytes` is written from `offset` on, addresses wrapping.
pub open spec fn load_spec(mem: Seq<u8>, bytes: Seq<u8>, offset: u16) -> Seq<u8> {
    Seq::new(
        MEM_SIZE as nat,
        |j: int|
            {
                let k = (j - offset) % 65536;
                if k < bytes.len() {
                    bytes[k]
                } else {
                    mem[j]
                }
            },
    )
}

/// An address `j` lies `i` bytes after `offset`, wrapping, exactly when it
/// is `offset + i` modulo 2^16.
proof fn lemma_wrapped_index(j: int, offset: int, i: int)
    requires
        0 <= j < 65536,
        0 <= offset < 65536,
        0 <= i < 65536,
    ensures
        ((j - offset) % 65536 == i) == (j == (offset + i) % 65536),
{
}

/// `Continue` for an instruction that asks nothing of the host.
fn continued(r: Result<(), EmuError>) -> (o: Result<Event, EmuError>)
    ensures
        match r {
            Ok(_) => o == Ok::<Event, EmuError>(Event::Continue),
            Err(e) => o == Err::<Event, EmuError>(e),
        },
{
    match r {
        Ok(()) => Ok(Event::Continue),
        Err(e) => Err(e),
    }
}

fn sel_to_reg(sel: u8) -> (r: Reg8)
    ensures
        r == sel_reg(sel),
{
    if sel == 0 {
        Reg8::B
    } else if sel == 1 {
        Reg8::C
    } else if sel == 2 {
        Reg8::D
    } else if sel == 3 {
        Reg8::E
    } else if sel == 4 {
        Reg8::H
    } else if sel == 5 {
        Reg8::L
    } else {
        Reg8::A
    }
}

fn pair_to_reg(p: u8) -> (r: Reg16)
    ensures
        r == pair_reg(p),
{
    if p == 0 {
        Reg16::BC
    } else if p == 1 {
        Reg16::DE
    } else if p == 2 {
        Reg16::HL
    } else {
        Reg16::SP
    }
}

fn cond_to_flag(y: u8) -> (r: Flag)
    ensures
        r == cond_flag(y),
{
    if y / 2 == 0 {
        Flag::Zero
    } else if y / 2 == 1 {
        Flag::Carry
    } else if y / 2 == 2 {
        Flag::Parity
    } else {
        Flag::Sign
    }
}

fn join(hi: u8, lo: u8) -> (r: u16)
    ensures
        r == word(hi, lo),
{
    hi as u16 * 256 + lo as u16
}

fn inc16(v: u16) -> (r: u16)
    ensures
        r == wrap16(v + 1),
{
    if v == 0xFFFF {
        0
    } else {
        v + 1
    }
}

fn dec16(v: u16) -> (r: u16)
    ensures
        r == wrap16(v - 1),
{
    if v == 0 {
        0xFFFF
    } else {
        v - 1
    }
}

impl Emulator {
    /// Memory covers the whole address space.
    pub open spec fn wf(&self) -> bool {
        valid(self@)
    }

    /// A machine with zeroed memory, registers and flags, PC = SP = 0,
    /// INTE set and running.
    pub fn new() -> (r: Emulator)
        ensures
            r.wf(),
            r@ == reset_state(),
    {
        let mut mem: Vec<u8> = Vec::new();
        let mut i: usize = 0;
        while i < MEM_SIZE
            invariant
                i <= MEM_SIZE,
                mem@ == Seq::new(i as nat, |j: int| 0u8),
            decreases MEM_SIZE - i,
        {
            mem.push(0);
            i = i + 1;
        }
        let r = Emulator {
            pc: 0,
            sp: 0,
            regs: Regs { a: 0, b: 0, c: 0, d: 0, e: 0, h: 0, l: 0 },
            flags: Flags::cleared(),
            mem,
            inte: true,
            running: true,
        };
        assert(r@ =~= reset_state());
        r
    }

    pub fn pc(&self) -> (r: u16)
        ensures
            r == self@.pc,
    {
        self.pc
    }

    pub fn sp(&self) -> (r: u16)
        ensures
            r == self@.sp,
    {
        self.sp
    }

    pub fn set_pc(&mut self, pc: u16)
        ensures
            final(self)@ == (CpuState { pc, ..old(self)@ }),
    {
        self.pc = pc;
    }

    pub fn set_sp(&mut self, sp: u16)
        ensures
            final(self)@ == (CpuState { sp, ..old(self)@ }),
    {
        self.sp = sp;
    }

    pub fn interrupts_enabled(&self) -> (r: bool)
        ensures
            r == self@.inte,
    {
        self.inte
    }

    /// False while halted.
    pub fn is_running(&self) -> (r: bool)
        ensures
            r == self@.running,
    {
        self.running
    }

    pub fn reg(&self, which: Reg8) -> (r: u8)
        ensures
            r == reg_of(self@.regs, which),
    {
        match which {
            Reg8::A => self.regs.a,
            Reg8::B => self.regs.b,
            Reg8::C => self.regs.c,
            Reg8::D => self.regs.d,
            Reg8::E => self.regs.e,
            Reg8::H => self.regs.h,
            Reg8::L => self.regs.l,
        }
    }

    pub fn set_reg(&mut self, which: Reg8, v: u8)
        ensures
            final(self)@ == (CpuState { regs: with_reg(old(self)@.regs, which, v), ..old(self)@ }),
    {
        match which {
            Reg8::A => self.regs.a = v,
            Reg8::B => self.regs.b = v,
            Reg8::C => self.regs.c = v,
            Reg8::D => self.regs.d = v,
            Reg8::E => self.regs.e = v,
            Reg8::H => self.regs.h = v,
            Reg8::L => self.regs.l = v,
        }
    }

    /// A register pair: the first register is the high byte.
    pub fn pair(&self, which: Reg16) -> (r: u16)
        ensures
            r == pair_of(self@, which),
    {
        match which {
            Reg16::BC => join(self.regs.b, self.regs.c),
            Reg16::DE => join(self.regs.d, self.regs.e),
            Reg16::HL => join(self.regs.h, self.regs.l),
            Reg16::SP => self.sp,
        }
    }

    /// Writes both halves of a register pair.
    pub fn set_pair(&mut self, which: Reg16, v: u16)
        ensures
            final(self)@ == with_pair(old(self)@, which, v),
    {
        let hi = (v / 256) as u8;
        let lo = (v % 256) as u8;
        match which {
            Reg16::BC => {
                self.regs.b = hi;
                self.regs.c = lo;
            },
            Reg16::DE => {
                self.regs.d = hi;
                self.regs.e = lo;
            },
            Reg16::HL => {
                self.regs.h = hi;
                self.regs.l = lo;
            },
            Reg16::SP => self.sp = v,
        }
    }

    pub fn get_flag(&self, which: Flag) -> (r: bool)
        ensures
            r == flag_of(self@.flags, which),
    {
        self.flags.get(which)
    }

    pub fn set_flag(&mut self, which: Flag, v: bool)
        ensures
            final(self)@ == (CpuState { flags: with_flag(old(self)@.flags, which, v), ..old(self)@ }),
    {
        self.flags.set(which, v);
    }

    pub fn flip_flag(&mut self, which: Flag)
        ensures
            final(self)@ == (CpuState {
                flags: with_flag(old(self)@.flags, which, !flag_of(old(self)@.flags, which)),
                ..old(self)@
            }),
    {
        let v = self.flags.get(which);
        self.flags.set(which, !v);
    }

    /// Sets all five flags from a flag byte; its bits 1, 3 and 5 are ignored.
    pub fn set_flags(&mut self, v: u8)
        ensures
            final(self)@ == (CpuState { flags: unpack_spec(v), ..old(self)@ }),
    {
        self.flags = Flags::unpack(v);
    }

    /// The flags, as a value.
    pub fn flags(&self) -> (r: Flags)
        ensures
            r == self@.flags,
    {
        self.flags
    }

    pub fn read_mem(&self, addr: u16) -> (r: u8)
        requires
            self.wf(),
        ensures
            r == self@.mem[addr as int],
    {
        self.mem[addr as usize]
    }

    pub fn write_mem(&mut self, addr: u16, v: u8)
        requires
            old(self).wf(),
        ensures
            final(self).wf(),
            final(self)@ == (CpuState { mem: old(self)@.mem.update(addr as int, v), ..old(self)@ }),
    {
        self.mem.set(addr as usize, v);
    }

    /// Writes `bytes` into memory from `offset` on; addresses wrap at the top.
    pub fn load(&mut self, bytes: &Vec<u8>, offset: u16)
        requires
            old(self).wf(),
            bytes@.len() <= MEM_SIZE,
        ensures
            final(self).wf(),
            final(self)@ == (CpuState {
                mem: load_spec(old(self)@.mem, bytes@, offset),
                ..old(self)@
            }),
    {
        let ghost start = self@.mem;
        let mut i: usize = 0;
        while i < bytes.len()
            invariant
                self.wf(),
                i <= bytes@.len() <= MEM_SIZE,
                self@ == (CpuState { mem: self@.mem, ..old(self)@ }),
                start == old(self)@.mem,
                forall|j: int|
                    0 <= j < MEM_SIZE ==> #[trigger] self@.mem[j] == {
                        let k = (j - offset) % 65536;
                        if k < i {
                            bytes@[k]
                        } else {
                            start[j]
                        }
                    },
            decreases bytes@.len() - i,
        {
            let at = ((offset as usize + i) % MEM_SIZE) as usize;
            self.mem.set(at, bytes[i]);
            assert forall|j: int| 0 <= j < MEM_SIZE implies #[trigger] self@.mem[j] == {
                let k = (j - offset) % 65536;
                if k < i + 1 {
                    bytes@[k]
                } else {
                    start[j]
                }
            } by {
                lemma_wrapped_index(j, offset as int, i as int);
            }
            i = i + 1;
        }
        assert(self@.mem =~= load_spec(start, bytes@, offset));
    }

    /// The immediate byte at PC; PC moves past it.
    pub fn read_byte(&mut self) -> (r: u8)
        requires
            old(self).wf(),
        ensures
            final(self).wf(),
            (final(self)@, r) == read_byte_spec(old(self)@),
    {
        let v = self.mem[self.pc as usize];
        self.pc = inc16(self.pc);
        v
    }

    /// The little-endian address at PC; PC moves past it. Refused, with no
    /// effect, where it would run past the top of memory.
    pub fn read_addr(&mut self) -> (r: Result<u16, EmuError>)
        requires
            old(self).wf(),
        ensures
            final(self).wf(),
            match read_addr_spec(old(self)@) {
                Ok((s, v)) => final(self)@ == s && r == Ok::<u16, EmuError>(v),
                Err(e) => final(self)@ == old(self)@ && r == Err::<u16, EmuError>(e),
            },
    {
        if self.pc as usize + 2 > MEM_SIZE {
            return Err(EmuError::FetchOutOfRange);
        }
        let lo = self.mem[self.pc as usize];
        let hi = self.mem[self.pc as usize + 1];
        self.pc = if self.pc == 0xFFFE {
            0
        } else {
            self.pc + 2
        };
        Ok(join(hi, lo))
    }

    /// Pushes `val`: high byte at SP-1, low byte at SP-2.
    pub fn push(&mut self, val: u16) -> (r: Result<(), EmuError>)
        requires
            old(self).wf(),
        ensures
            final(self).wf(),
            applied(old(self)@, final(self)@, r, push_spec(old(self)@, val)),
    {
        if self.sp < 2 {
            return Err(EmuError::StackOverflow);
        }
        self.sp = self.sp - 1;
        self.mem.set(self.sp as usize, (val / 256) as u8);
        self.sp = self.sp - 1;
        self.mem.set(self.sp as usize, (val % 256) as u8);
        Ok(())
    }

    /// Pushes a register pair.
    pub fn push_reg(&mut self, which: Reg16) -> (r: Result<(), EmuError>)
        requires
            old(self).wf(),
        ensures
            final(self).wf(),
            applied(old(self)@, final(self)@, r, push_spec(old(self)@, pair_of(old(self)@, which))),
    {
        let v = self.pair(which);
        self.push(v)
    }

    /// Pops a 16-bit value: low byte at SP, high byte at SP+1.
    pub fn pop(&mut self) -> (r: Result<u16, EmuError>)
        requires
            old(self).wf(),
        ensures
            final(self).wf(),
            match pop_spec(old(self)@) {
                Ok((s, v)) => final(self)@ == s && r == Ok::<u16, EmuError>(v),
                Err(e) => final(self)@ == old(self)@ && r == Err::<u16, EmuError>(e),
            },
    {
        if self.sp as usize + 2 > MEM_SIZE {
            return Err(EmuError::StackUnderflow);
        }
        let lo = self.mem[self.sp as usize];
        let hi = self.mem[self.sp as usize + 1];
        self.sp = if self.sp == 0xFFFE {
            0
        } else {
            self.sp + 2
        };
        Ok(join(hi, lo))
    }
    /// Jumps to the immediate address when `flag` has the value `want`;
    /// otherwise moves PC past the address.
    fn jump_when(&mut self, flag: Flag, want: bool) -> (r: Result<(), EmuError>)
        requires
            old(self).wf(),
        ensures
            final(self).wf(),
            applied(old(self)@, final(self)@, r, jump_spec(old(self)@, flag, want)),
    {
        if self.flags.get(flag) == want {
            let a = self.read_addr()?;
            self.pc = a;
        } else {
            self.pc = inc16(inc16(self.pc));
        }
        Ok(())
    }

    /// Jumps when `flag` is set.
    pub fn jmp_if(&mut self, flag: Flag) -> (r: Result<(), EmuError>)
        requires
            old(self).wf(),
        ensures
            final(self).wf(),
            applied(old(self)@, final(self)@, r, jump_spec(old(self)@, flag, true)),
    {
        self.jump_when(flag, true)
    }

    /// Jumps when `flag` is clear.
    pub fn jmp_not(&mut self, flag: Flag) -> (r: Result<(), EmuError>)
        requires
            old(self).wf(),
        ensures
            final(self).wf(),
            applied(old(self)@, final(self)@, r, jump_spec(old(self)@, flag, false)),
    {
        self.jump_when(flag, false)
    }

    /// Pushes PC and jumps to `adr`.
    pub fn call(&mut self, adr: u16) -> (r: Result<(), EmuError>)
        requires
            old(self).wf(),
        ensures
            final(self).wf(),
            applied(old(self)@, final(self)@, r, call_spec(old(self)@, adr)),
    {
        self.push(self.pc)?;
        self.pc = adr;
        Ok(())
    }

    /// `CALL` to the immediate address: the address after it is pushed.
    pub fn call_imm(&mut self) -> (r: Result<(), EmuError>)
        requires
            old(self).wf(),
        ensures
            final(self).wf(),
            applied(old(self)@, final(self)@, r, call_imm_spec(old(self)@)),
    {
        let start = self.pc;
        let adr = self.read_addr()?;
        match self.call(adr) {
            Ok(()) => Ok(()),
            Err(e) => {
                self.pc = start;
                Err(e)
            },
        }
    }

    fn call_when(&mut self, flag: Flag, want: bool) -> (r: Result<(), EmuError>)
        requires
            old(self).wf(),
        ensures
            final(self).wf(),
            applied(old(self)@, final(self)@, r, call_when_spec(old(self)@, flag, want)),
    {
        if self.flags.get(flag) == want {
            self.call_imm()
        } else {
            self.pc = inc16(inc16(self.pc));
            Ok(())
        }
    }

    /// Calls when `flag` is set.
    pub fn call_if(&mut self, flag: Flag) -> (r: Result<(), EmuError>)
        requires
            old(self).wf(),
        ensures
            final(self).wf(),
            applied(old(self)@, final(self)@, r, call_when_spec(old(self)@, flag, true)),
    {
        self.call_when(flag, true)
    }

    /// Calls when `flag` is clear.
    pub fn call_not(&mut self, flag: Flag) -> (r: Result<(), EmuError>)
        requires
            old(self).wf(),
        ensures
            final(self).wf(),
            applied(old(self)@, final(self)@, r, call_when_spec(old(self)@, flag, false)),
    {
        self.call_when(flag, false)
    }

    /// Pops the return address into PC.
    pub fn ret(&mut self) -> (r: Result<(), EmuError>)
        requires
            old(self).wf(),
        ensures
            final(self).wf(),
            applied(old(self)@, final(self)@, r, ret_spec(old(self)@)),
    {
        self.pc = self.pop()?;
        Ok(())
    }

    fn ret_when(&mut self, flag: Flag, want: bool) -> (r: Result<(), EmuError>)
        requires
            old(self).wf(),
        ensures
            final(self).wf(),
            applied(old(self)@, final(self)@, r, ret_when_spec(old(self)@, flag, want)),
    {
        if self.flags.get(flag) == want {
            self.ret()
        } else {
            Ok(())
        }
    }

    /// Returns when `flag` is set.
    pub fn ret_if(&mut self, flag: Flag) -> (r: Result<(), EmuError>)
        requires
            old(self).wf(),
        ensures
            final(self).wf(),
            applied(old(self)@, final(self)@, r, ret_when_spec(old(self)@, flag, true)),
    {
        self.ret_when(flag, true)
    }

    /// Returns when `flag` is clear.
    pub fn ret_not(&mut self, flag: Flag) -> (r: Result<(), EmuError>)
        requires
            old(self).wf(),
        ensures
            final(self).wf(),
            applied(old(self)@, final(self)@, r, ret_when_spec(old(self)@, flag, false)),
    {
        self.ret_when(flag, false)
    }
    /// HL, the address of the memory operand.
    fn hl_addr(&self) -> (r: u16)
        ensures
            r == hl(self@),
    {
        join(self.regs.h, self.regs.l)
    }

    /// The byte that operand selector `sel` names.
    fn load_operand(&self, sel: u8) -> (r: u8)
        requires
            self.wf(),
        ensures
            r == operand(self@, sel),
    {
        if sel == 6 {
            self.mem[self.hl_addr() as usize]
        } else {
            self.reg(sel_to_reg(sel))
        }
    }

    fn store_operand(&mut self, sel: u8, v: u8)
        requires
            old(self).wf(),
        ensures
            final(self).wf(),
            final(self)@ == with_operand(old(self)@, sel, v),
    {
        if sel == 6 {
            let at = self.hl_addr();
            self.mem.set(at as usize, v);
        } else {
            self.set_reg(sel_to_reg(sel), v);
        }
    }

    /// DAA: decimal-adjusts the accumulator.
    pub fn daa(&mut self) -> (r: Result<(), EmuError>)
        requires
            old(self).wf(),
        ensures
            final(self).wf(),
            r == Ok::<(), EmuError>(()),
            final(self)@ == with_af(
                old(self)@,
                daa_spec(old(self)@.regs.a, old(self)@.flags).0,
                daa_spec(old(self)@.regs.a, old(self)@.flags).1,
            ),
    {
        let (a, f) = decimal_adjust(self.regs.a, self.flags);
        self.regs.a = a;
        self.flags = f;
        Ok(())
    }

    /// `LXI` and `DAD`.
    fn pair_load(&mut self, p: u8, q: u8) -> (r: Result<(), EmuError>)
        requires
            old(self).wf(),
        ensures
            final(self).wf(),
            applied(old(self)@, final(self)@, r, pair_load_spec(old(self)@, p, q)),
    {
        if q == 0 {
            let v = self.read_addr()?;
            self.set_pair(pair_to_reg(p), v);
        } else {
            let (v, c) = dad(self.hl_addr(), self.pair(pair_to_reg(p)));
            self.set_pair(Reg16::HL, v);
            self.flags.carry = c;
        }
        Ok(())
    }

    /// Loads and stores of A and HL through memory.
    fn transfer(&mut self, p: u8, q: u8) -> (r: Result<(), EmuError>)
        requires
            old(self).wf(),
        ensures
            final(self).wf(),
            applied(old(self)@, final(self)@, r, transfer_spec(old(self)@, p, q)),
    {
        if p < 2 {
            let at = self.pair(pair_to_reg(p));
            if q == 0 {
                let a = self.regs.a;
                self.mem.set(at as usize, a);
            } else {
                self.regs.a = self.mem[at as usize];
            }
        } else {
            let at = self.read_addr()?;
            let next = inc16(at);
            if p == 2 && q == 0 {
                let l = self.regs.l;
                let h = self.regs.h;
                self.mem.set(at as usize, l);
                self.mem.set(next as usize, h);
            } else if p == 2 {
                let l = self.mem[at as usize];
                let h = self.mem[next as usize];
                self.regs.l = l;
                self.regs.h = h;
            } else if q == 0 {
                let a = self.regs.a;
                self.mem.set(at as usize, a);
            } else {
                self.regs.a = self.mem[at as usize];
            }
        }
        Ok(())
    }

    /// Rotates, `CMA`, `STC` and `CMC` (`DAA` has a method of its own).
    fn accumulator(&mut self, y: u8)
        requires
            y != 4,
        ensures
            final(self)@ == accumulator_spec(old(self)@, y),
    {
        if y < 4 {
            let (a, c) = rotate(y, self.regs.a, self.flags.carry);
            self.regs.a = a;
            self.flags.carry = c;
        } else if y == 5 {
            self.regs.a = 255 - self.regs.a;
        } else if y == 6 {
            self.flags.carry = true;
        } else {
            self.flags.carry = !self.flags.carry;
        }
    }

    /// Opcodes 0x00..0x3F.
    fn exec_low(&mut self, op: u8) -> (r: Result<(), EmuError>)
        requires
            old(self).wf(),
            op < 0x40,
        ensures
            final(self).wf(),
            applied(old(self)@, final(self)@, r, low_block_spec(old(self)@, op)),
    {
        let y = op / 8 % 8;
        let z = op % 8;
        let p = op / 16 % 4;
        let q = op / 8 % 2;
        if z == 0 {
            if op == 0 {
                Ok(())
            } else {
                Err(EmuError::Unimplemented(op))
            }
        } else if z == 1 {
            self.pair_load(p, q)
        } else if z == 2 {
            self.transfer(p, q)
        } else if z == 3 {
            let which = pair_to_reg(p);
            let v = self.pair(which);
            if q == 0 {
                self.set_pair(which, inc16(v));
            } else {
                self.set_pair(which, dec16(v));
            }
            Ok(())
        } else if z == 4 {
            let (v, f) = inr(self.load_operand(y), self.flags);
            self.store_operand(y, v);
            self.flags = f;
            Ok(())
        } else if z == 5 {
            let (v, f) = dcr(self.load_operand(y), self.flags);
            self.store_operand(y, v);
            self.flags = f;
            Ok(())
        } else if z == 6 {
            let v = self.read_byte();
            self.store_operand(y, v);
            Ok(())
        } else if y == 4 {
            self.daa()
        } else {
            self.accumulator(y);
            Ok(())
        }
    }

    /// Opcodes 0xC0..0xFF.
    fn exec_high(&mut self, op: u8) -> (r: Result<Event, EmuError>)
        requires
            old(self).wf(),
            op >= 0xC0,
        ensures
            final(self).wf(),
            (final(self)@, r) == settle(old(self)@, high_block_spec(old(self)@, op)),
    {
        proof {
            reveal(high_block_spec);
        }
        let y = op / 8 % 8;
        let z = op % 8;
        let p = op / 16 % 4;
        let q = op / 8 % 2;
        if z == 0 {
            continued(self.ret_when(cond_to_flag(y), y % 2 == 1))
        } else if z == 1 {
            if q == 0 {
                let v = self.pop()?;
                if p == 3 {
                    self.regs.a = (v / 256) as u8;
                    self.flags = Flags::unpack((v % 256) as u8);
                } else {
                    self.set_pair(pair_to_reg(p), v);
                }
                Ok(Event::Continue)
            } else if p == 0 {
                continued(self.ret())
            } else if p == 1 {
                Err(EmuError::Unimplemented(op))
            } else if p == 2 {
                self.pc = self.hl_addr();
                Ok(Event::Continue)
            } else {
                self.sp = self.hl_addr();
                Ok(Event::Continue)
            }
        } else if z == 2 {
            continued(self.jump_when(cond_to_flag(y), y % 2 == 1))
        } else if z == 3 {
            if y == 0 {
                self.pc = self.read_addr()?;
                Ok(Event::Continue)
            } else if y == 1 {
                Err(EmuError::Unimplemented(op))
            } else if y == 2 {
                let port = self.read_byte();
                Ok(Event::Output { port, value: self.regs.a })
            } else if y == 3 {
                let port = self.read_byte();
                Ok(Event::Input { port })
            } else if y == 4 {
                let next = inc16(self.sp);
                let l = self.mem[self.sp as usize];
                let h = self.mem[next as usize];
                let old_l = self.regs.l;
                let old_h = self.regs.h;
                self.mem.set(self.sp as usize, old_l);
                self.mem.set(next as usize, old_h);
                self.regs.l = l;
                self.regs.h = h;
                Ok(Event::Continue)
            } else if y == 5 {
                let d = self.regs.d;
                let e = self.regs.e;
                self.regs.d = self.regs.h;
                self.regs.e = self.regs.l;
                self.regs.h = d;
                self.regs.l = e;
                Ok(Event::Continue)
            } else {
                self.inte = y == 7;
                Ok(Event::Continue)
            }
        } else if z == 4 {
            continued(self.call_when(cond_to_flag(y), y % 2 == 1))
        } else if z == 5 {
            if q == 0 {
                let v = if p == 3 {
                    join(self.regs.a, self.flags.pack())
                } else {
                    self.pair(pair_to_reg(p))
                };
                continued(self.push(v))
            } else if p == 0 {
                continued(self.call_imm())
            } else {
                Err(EmuError::Unimplemented(op))
            }
        } else if z == 6 {
            let v = self.read_byte();
            let (a, f) = alu(y, self.regs.a, v, self.flags);
            self.regs.a = a;
            self.flags = f;
            Ok(Event::Continue)
        } else {
            continued(self.call((y * 8) as u16))
        }
    }

    /// Executes opcode `op`, already fetched.
    fn execute(&mut self, op: u8) -> (r: Result<Event, EmuError>)
        requires
            old(self).wf(),
        ensures
            final(self).wf(),
            (final(self)@, r) == settle(old(self)@, execute_spec(old(self)@, op)),
    {
        proof {
            reveal(execute_spec);
        }
        if op < 0x40 {
            continued(self.exec_low(op))
        } else if op < 0x80 {
            if op == 0x76 {
                self.running = false;
            } else {
                let v = self.load_operand(op % 8);
                self.store_operand(op / 8 % 8, v);
            }
            Ok(Event::Continue)
        } else if op < 0xC0 {
            let v = self.load_operand(op % 8);
            let (a, f) = alu(op / 8 % 8, self.regs.a, v, self.flags);
            self.regs.a = a;
            self.flags = f;
            Ok(Event::Continue)
        } else {
            self.exec_high(op)
        }
    }

    /// One step: nothing while halted; otherwise the instruction at PC.
    pub fn execute_next(&mut self) -> (r: Result<Event, EmuError>)
        requires
            old(self).wf(),
        ensures
            final(self).wf(),
            (final(self)@, r) == step_spec(old(self)@),
    {
        if !self.running {
            return Ok(Event::Idle);
        }
        let op = self.mem[self.pc as usize];
        self.pc = inc16(self.pc);
        self.execute(op)
    }

    /// Finishes an `IN`: A takes the byte that the device on the port gave,
    /// or 0xFF where no device is bound to it (`None`).
    pub fn complete_input(&mut self, read: Option<u8>)
        ensures
            final(self)@ == with_a(
                old(self)@,
                match read {
                    Some(v) => v,
                    None => 0xFF,
                },
            ),
    {
        self.regs.a = match read {
            Some(v) => v,
            None => 0xFF,
        };
    }

    /// Injects opcode `op` (nominally an RST) as an interrupt. Refused,
    /// with no effect, while INTE is clear; otherwise INTE is cleared, the
    /// processor runs again, and `op` is executed with PC as it stands.
    pub fn interrupt(&mut self, op: u8) -> (r: Result<Event, EmuError>)
        requires
            old(self).wf(),
        ensures
            final(self).wf(),
            (final(self)@, r) == interrupt_spec(old(self)@, op),
    {
        if !self.inte {
            return Err(EmuError::InterruptsDisabled);
        }
        self.inte = false;
        self.running = true;
        self.execute(op)
    }
}

} // verus!
