use emulator::{EmuError, Emulator, Event, Flag, Flags, Reg16, Reg8};

fn machine(program: &[u8]) -> Emulator {
    let mut e = Emulator::new();
    e.load(&program.to_vec(), 0);
    e
}

fn step(e: &mut Emulator) -> Event {
    e.execute_next().expect("step failed")
}

#[test]
fn push_pop_register_pairs() {
    // PUSH B; POP D
    let mut e = machine(&[0xC5, 0xD1]);
    e.set_sp(0x3FFF);
    e.set_pair(Reg16::BC, 0xABCD);
    step(&mut e);
    assert_eq!(e.sp(), 0x3FFD);
    assert_eq!(e.read_mem(0x3FFE), 0xAB);
    assert_eq!(e.read_mem(0x3FFD), 0xCD);
    step(&mut e);
    assert_eq!(e.pair(Reg16::DE), 0xABCD);
    assert_eq!(e.sp(), 0x3FFF);
}

#[test]
fn push_pop_at_the_edges_of_the_stack() {
    let mut e = Emulator::new();
    e.set_sp(2);
    e.push(0xBEEF).expect("push failed");
    assert_eq!(e.sp(), 0);
    assert_eq!(e.pop(), Ok(0xBEEF));
    assert_eq!(e.sp(), 2);

    e.set_sp(0xFFFE);
    assert_eq!(e.pop(), Ok(0));
    assert_eq!(e.sp(), 0);
}

#[test]
fn call_then_ret_instructions() {
    let mut e = machine(&[0xCD, 0x34, 0x12]);
    e.write_mem(0x1234, 0xC9);
    e.set_sp(0x3FFF);
    step(&mut e);
    assert_eq!(e.pc(), 0x1234);
    assert_eq!(e.sp(), 0x3FFD);
    assert_eq!(e.read_mem(0x3FFD), 0x03);
    assert_eq!(e.read_mem(0x3FFE), 0x00);
    step(&mut e);
    assert_eq!(e.pc(), 0x0003);
    assert_eq!(e.sp(), 0x3FFF);
}

#[test]
fn conditional_jumps_over_all_flags() {
    // (flag, jump-if-set opcode, jump-if-clear opcode)
    let table = [
        (Flag::Zero, 0xCA, 0xC2),
        (Flag::Carry, 0xDA, 0xD2),
        (Flag::Sign, 0xFA, 0xF2),
        (Flag::Parity, 0xEA, 0xE2),
    ];
    for (flag, when_set, when_clear) in table {
        let mut e = machine(&[when_set, 0x04, 0x00]);
        step(&mut e);
        assert_eq!(e.pc(), 3);
        e.set_pc(0);
        e.set_flag(flag, true);
        step(&mut e);
        assert_eq!(e.pc(), 4);

        let mut e = machine(&[when_clear, 0x04, 0x00]);
        e.set_flag(flag, true);
        step(&mut e);
        assert_eq!(e.pc(), 3);
        e.set_pc(0);
        e.set_flag(flag, false);
        step(&mut e);
        assert_eq!(e.pc(), 4);
    }
}

#[test]
fn conditional_call_and_return_instructions() {
    // CNZ 0x0010 with Z set falls through; with Z clear it calls.
    let mut e = machine(&[0xC4, 0x10, 0x00]);
    e.set_sp(0x100);
    e.set_flag(Flag::Zero, true);
    step(&mut e);
    assert_eq!(e.pc(), 3);
    assert_eq!(e.sp(), 0x100);
    e.set_pc(0);
    e.set_flag(Flag::Zero, false);
    step(&mut e);
    assert_eq!(e.pc(), 0x10);
    assert_eq!(e.sp(), 0xFE);
    // RC at 0x10: not taken with CY clear, taken with CY set.
    e.write_mem(0x10, 0xD8);
    step(&mut e);
    assert_eq!(e.pc(), 0x11);
    e.set_pc(0x10);
    e.set_flag(Flag::Carry, true);
    step(&mut e);
    assert_eq!(e.pc(), 3);
    assert_eq!(e.sp(), 0x100);
}

#[test]
fn jmp_sets_pc_and_keeps_sp() {
    let mut e = Emulator::new();
    e.load(&vec![0xC3, 0x45, 0x23], 0x100);
    e.set_pc(0x100);
    e.set_sp(0x1234);
    step(&mut e);
    assert_eq!(e.pc(), 0x2345);
    assert_eq!(e.sp(), 0x1234);
}

#[test]
fn rst_matches_call() {
    let mut a = Emulator::new();
    a.load(&vec![0xEF], 0x200);
    a.set_pc(0x200);
    a.set_sp(0x3000);
    step(&mut a);

    let mut b = Emulator::new();
    b.set_pc(0x201);
    b.set_sp(0x3000);
    b.call(0x28).expect("call failed");

    assert_eq!(a.pc(), 0x28);
    assert_eq!(a.pc(), b.pc());
    assert_eq!(a.sp(), b.sp());
    assert_eq!(a.read_mem(0x2FFF), b.read_mem(0x2FFF));
    assert_eq!(a.read_mem(0x2FFE), b.read_mem(0x2FFE));
    assert_eq!(a.read_mem(0x2FFE), 0x01);
    assert_eq!(a.read_mem(0x2FFF), 0x02);
}

#[test]
fn flag_byte_on_push_psw() {
    // PUSH PSW; POP PSW
    let mut e = machine(&[0xF5, 0xF1, 0xF5]);
    e.set_sp(0x100);
    e.set_reg(Reg8::A, 0x12);
    e.set_flags(0xFF);
    step(&mut e);
    assert_eq!(e.read_mem(0xFF), 0x12);
    assert_eq!(e.read_mem(0xFE), 0xD7);
    e.set_flags(0x00);
    e.set_reg(Reg8::A, 0);
    step(&mut e);
    assert_eq!(e.reg(Reg8::A), 0x12);
    assert_eq!(e.flags().pack(), 0xD7);
    assert_eq!(e.sp(), 0x100);

    e.set_flags(0x00);
    step(&mut e);
    assert_eq!(e.read_mem(0xFE), 0x02);
}

#[test]
fn flag_byte_ignores_fixed_bits() {
    let f = Flags::unpack(0x2A);
    assert_eq!(f, Flags::cleared());
    assert_eq!(f.pack(), 0x02);
    let g = Flags::unpack(0xFF);
    assert_eq!(g.pack(), 0xD7);
}

#[test]
fn add_flags() {
    // ADD B
    let mut e = machine(&[0x80, 0x80]);
    e.set_reg(Reg8::A, 0x8F);
    e.set_reg(Reg8::B, 0x71);
    step(&mut e);
    assert_eq!(e.reg(Reg8::A), 0x00);
    assert_eq!(e.flags(), Flags { sign: false, zero: true, aux: true, parity: true, carry: true });

    e.set_reg(Reg8::A, 0x3A);
    e.set_reg(Reg8::B, 0x45);
    step(&mut e);
    assert_eq!(e.reg(Reg8::A), 0x7F);
    assert_eq!(e.flags(), Flags { sign: false, zero: false, aux: false, parity: false, carry: false });
}

#[test]
fn adc_and_sbb_use_the_carry() {
    // ADC C; SBB C
    let mut e = machine(&[0x89, 0x99]);
    e.set_reg(Reg8::A, 0x10);
    e.set_reg(Reg8::C, 0x0F);
    e.set_flag(Flag::Carry, true);
    step(&mut e);
    assert_eq!(e.reg(Reg8::A), 0x20);
    assert!(e.get_flag(Flag::Aux));
    assert!(!e.get_flag(Flag::Carry));
    e.set_flag(Flag::Carry, true);
    step(&mut e);
    assert_eq!(e.reg(Reg8::A), 0x10);
    assert!(!e.get_flag(Flag::Carry));
}

#[test]
fn sub_flags() {
    // SUB B
    let mut e = machine(&[0x90, 0x90]);
    e.set_reg(Reg8::A, 0x10);
    e.set_reg(Reg8::B, 0x20);
    step(&mut e);
    assert_eq!(e.reg(Reg8::A), 0xF0);
    assert_eq!(e.flags(), Flags { sign: true, zero: false, aux: false, parity: true, carry: true });

    e.set_reg(Reg8::A, 0x20);
    e.set_reg(Reg8::B, 0x01);
    step(&mut e);
    assert_eq!(e.reg(Reg8::A), 0x1F);
    assert_eq!(e.flags(), Flags { sign: false, zero: false, aux: true, parity: false, carry: false });
}

#[test]
fn compare_keeps_a() {
    // CMP B; CPI 0x06
    let mut e = machine(&[0xB8, 0xFE, 0x06]);
    e.set_reg(Reg8::A, 0x05);
    e.set_reg(Reg8::B, 0x05);
    step(&mut e);
    assert_eq!(e.reg(Reg8::A), 0x05);
    assert!(e.get_flag(Flag::Zero));
    assert!(!e.get_flag(Flag::Carry));
    step(&mut e);
    assert_eq!(e.reg(Reg8::A), 0x05);
    assert!(e.get_flag(Flag::Carry));
    assert!(!e.get_flag(Flag::Zero));
    assert_eq!(e.pc(), 3);
}

#[test]
fn xra_a_clears_everything() {
    let mut e = machine(&[0xAF]);
    e.set_reg(Reg8::A, 0x5C);
    e.set_flags(0xFF);
    step(&mut e);
    assert_eq!(e.reg(Reg8::A), 0);
    assert_eq!(e.flags(), Flags { sign: false, zero: true, aux: false, parity: true, carry: false });
}

#[test]
fn logic_clears_carry() {
    // ANA B; ORI 0x0F; XRI 0xFF
    let mut e = machine(&[0xA0, 0xF6, 0x0F, 0xEE, 0xFF]);
    e.set_reg(Reg8::A, 0xF0);
    e.set_reg(Reg8::B, 0x3C);
    e.set_flag(Flag::Carry, true);
    step(&mut e);
    assert_eq!(e.reg(Reg8::A), 0x30);
    assert!(!e.get_flag(Flag::Carry));
    assert!(e.get_flag(Flag::Aux));
    e.set_flag(Flag::Carry, true);
    step(&mut e);
    assert_eq!(e.reg(Reg8::A), 0x3F);
    assert!(!e.get_flag(Flag::Carry));
    assert!(!e.get_flag(Flag::Aux));
    e.set_flag(Flag::Carry, true);
    step(&mut e);
    assert_eq!(e.reg(Reg8::A), 0xC0);
    assert!(!e.get_flag(Flag::Carry));
    assert!(e.get_flag(Flag::Sign));
    assert!(e.get_flag(Flag::Parity));
}

#[test]
fn inr_and_dcr_keep_carry() {
    // INR B; DCR C; DCR D
    let mut e = machine(&[0x04, 0x0D, 0x15]);
    e.set_reg(Reg8::B, 0x0F);
    e.set_reg(Reg8::C, 0x01);
    e.set_reg(Reg8::D, 0x10);
    e.set_flag(Flag::Carry, true);
    step(&mut e);
    assert_eq!(e.reg(Reg8::B), 0x10);
    assert_eq!(e.flags(), Flags { sign: false, zero: false, aux: true, parity: false, carry: true });
    step(&mut e);
    assert_eq!(e.reg(Reg8::C), 0x00);
    assert_eq!(e.flags(), Flags { sign: false, zero: true, aux: false, parity: true, carry: true });
    step(&mut e);
    assert_eq!(e.reg(Reg8::D), 0x0F);
    assert!(e.get_flag(Flag::Aux));
}

#[test]
fn memory_operand_through_hl() {
    // MVI M,0x7E; INR M; MOV A,M; MOV M,B
    let mut e = machine(&[0x36, 0x7E, 0x34, 0x7E, 0x70]);
    e.set_pair(Reg16::HL, 0x2000);
    e.set_reg(Reg8::B, 0x99);
    step(&mut e);
    assert_eq!(e.read_mem(0x2000), 0x7E);
    step(&mut e);
    assert_eq!(e.read_mem(0x2000), 0x7F);
    step(&mut e);
    assert_eq!(e.reg(Reg8::A), 0x7F);
    step(&mut e);
    assert_eq!(e.read_mem(0x2000), 0x99);
}

#[test]
fn immediate_loads_and_stores() {
    // LXI H,0x1234; SHLD 0x3000; LXI H,0; LHLD 0x3000; MVI A,0x55; STA 0x3002; LDA 0x3001
    let mut e = machine(&[
        0x21, 0x34, 0x12, 0x22, 0x00, 0x30, 0x21, 0x00, 0x00, 0x2A, 0x00, 0x30, 0x3E, 0x55, 0x32,
        0x02, 0x30, 0x3A, 0x01, 0x30,
    ]);
    for _ in 0..7 {
        step(&mut e);
    }
    assert_eq!(e.read_mem(0x3000), 0x34);
    assert_eq!(e.read_mem(0x3001), 0x12);
    assert_eq!(e.read_mem(0x3002), 0x55);
    assert_eq!(e.pair(Reg16::HL), 0x1234);
    assert_eq!(e.reg(Reg8::A), 0x12);
    assert_eq!(e.pc(), 20);
}

#[test]
fn stax_and_ldax() {
    // STAX B; LDAX D
    let mut e = machine(&[0x02, 0x1A]);
    e.set_pair(Reg16::BC, 0x4000);
    e.set_pair(Reg16::DE, 0x4001);
    e.write_mem(0x4001, 0x66);
    e.set_reg(Reg8::A, 0x77);
    step(&mut e);
    assert_eq!(e.read_mem(0x4000), 0x77);
    step(&mut e);
    assert_eq!(e.reg(Reg8::A), 0x66);
}

#[test]
fn pair_arithmetic() {
    // INX B; DCX D; DAD B; LXI SP,0x0010; INX SP
    let mut e = machine(&[0x03, 0x1B, 0x09, 0x31, 0x10, 0x00, 0x33]);
    e.set_pair(Reg16::BC, 0x0001);
    e.set_pair(Reg16::DE, 0x0000);
    e.set_pair(Reg16::HL, 0xFFFF);
    step(&mut e);
    assert_eq!(e.pair(Reg16::BC), 0x0002);
    step(&mut e);
    assert_eq!(e.pair(Reg16::DE), 0xFFFF);
    step(&mut e);
    assert_eq!(e.pair(Reg16::HL), 0x0001);
    assert!(e.get_flag(Flag::Carry));
    assert!(!e.get_flag(Flag::Zero));
    step(&mut e);
    step(&mut e);
    assert_eq!(e.sp(), 0x0011);
}

#[test]
fn rotates() {
    // RLC; RRC; RAL; RAR
    let mut e = machine(&[0x07, 0x0F, 0x17, 0x1F]);
    e.set_reg(Reg8::A, 0x85);
    step(&mut e);
    assert_eq!(e.reg(Reg8::A), 0x0B);
    assert!(e.get_flag(Flag::Carry));
    e.set_reg(Reg8::A, 0x01);
    e.set_flag(Flag::Carry, false);
    step(&mut e);
    assert_eq!(e.reg(Reg8::A), 0x80);
    assert!(e.get_flag(Flag::Carry));
    e.set_flag(Flag::Carry, false);
    step(&mut e);
    assert_eq!(e.reg(Reg8::A), 0x00);
    assert!(e.get_flag(Flag::Carry));
    e.set_reg(Reg8::A, 0x01);
    step(&mut e);
    assert_eq!(e.reg(Reg8::A), 0x80);
    assert!(e.get_flag(Flag::Carry));
}

#[test]
fn complement_and_carry_instructions() {
    // CMA; STC; CMC
    let mut e = machine(&[0x2F, 0x37, 0x3F]);
    e.set_reg(Reg8::A, 0x51);
    step(&mut e);
    assert_eq!(e.reg(Reg8::A), 0xAE);
    step(&mut e);
    assert!(e.get_flag(Flag::Carry));
    step(&mut e);
    assert!(!e.get_flag(Flag::Carry));
}

#[test]
fn exchanges_and_hl_moves() {
    // XCHG; XTHL; SPHL; PCHL
    let mut e = machine(&[0xEB, 0xE3, 0xF9, 0xE9]);
    e.set_pair(Reg16::HL, 0xABCD);
    e.set_pair(Reg16::DE, 0x1234);
    e.set_sp(0x2000);
    e.write_mem(0x2000, 0x78);
    e.write_mem(0x2001, 0x56);
    step(&mut e);
    assert_eq!(e.pair(Reg16::HL), 0x1234);
    assert_eq!(e.pair(Reg16::DE), 0xABCD);
    step(&mut e);
    assert_eq!(e.pair(Reg16::HL), 0x5678);
    assert_eq!(e.read_mem(0x2000), 0x34);
    assert_eq!(e.read_mem(0x2001), 0x12);
    step(&mut e);
    assert_eq!(e.sp(), 0x5678);
    step(&mut e);
    assert_eq!(e.pc(), 0x5678);
}

#[test]
fn port_instructions_ask_the_host() {
    // MVI A,0x42; OUT 7; IN 0x10
    let mut e = machine(&[0x3E, 0x42, 0xD3, 0x07, 0xDB, 0x10]);
    step(&mut e);
    assert_eq!(step(&mut e), Event::Output { port: 7, value: 0x42 });
    assert_eq!(e.pc(), 4);
    assert_eq!(step(&mut e), Event::Input { port: 0x10 });
    assert_eq!(e.pc(), 6);
}

#[test]
fn halt_then_interrupt() {
    // LXI SP,0x3FFF; EI; HLT
    let mut e = machine(&[0x31, 0xFF, 0x3F, 0xFB, 0x76]);
    step(&mut e);
    step(&mut e);
    assert!(e.interrupts_enabled());
    step(&mut e);
    assert!(!e.is_running());
    assert_eq!(e.pc(), 5);
    assert_eq!(step(&mut e), Event::Idle);
    assert_eq!(e.pc(), 5);

    assert_eq!(e.interrupt(0xC7), Ok(Event::Continue));
    assert_eq!(e.pc(), 0x0000);
    assert!(!e.interrupts_enabled());
    assert!(e.is_running());
    assert_eq!(e.read_mem(0x3FFD), 0x05);

    assert_eq!(e.interrupt(0x00), Err(EmuError::InterruptsDisabled));
    assert_eq!(e.pc(), 0x0000);
}

#[test]
fn di_blocks_interrupts() {
    let mut e = machine(&[0xF3]);
    assert!(e.interrupts_enabled());
    step(&mut e);
    assert!(!e.interrupts_enabled());
    assert_eq!(e.interrupt(0xFF), Err(EmuError::InterruptsDisabled));
    assert_eq!(e.pc(), 1);
}

#[test]
fn operand_past_the_top_of_memory() {
    let mut e = Emulator::new();
    e.load(&vec![0xC3], 0xFFFE);
    e.set_pc(0xFFFE);
    assert_eq!(e.execute_next(), Err(EmuError::FetchOutOfRange));
    assert_eq!(e.pc(), 0xFFFF);
    e.set_pc(0xFFFF);
    assert_eq!(e.read_addr(), Err(EmuError::FetchOutOfRange));
    assert_eq!(e.pc(), 0xFFFF);
}

#[test]
fn push_without_stack_space() {
    let mut e = machine(&[0xC5]);
    e.set_sp(1);
    assert_eq!(e.execute_next(), Err(EmuError::StackOverflow));
    assert_eq!(e.sp(), 1);
    assert_eq!(e.pc(), 1);
}

#[test]
fn call_without_stack_space_leaves_pc() {
    let mut e = Emulator::new();
    e.load(&vec![0x00, 0x34, 0x12], 0);
    e.set_sp(0);
    assert_eq!(e.call_imm(), Err(EmuError::StackOverflow));
    assert_eq!(e.pc(), 0);
}

#[test]
fn unimplemented_opcodes() {
    for op in [0x08u8, 0x10, 0xCB, 0xD9, 0xDD, 0xED, 0xFD] {
        let mut e = machine(&[op]);
        assert_eq!(e.execute_next(), Err(EmuError::Unimplemented(op)));
        assert_eq!(e.pc(), 1);
    }
}

#[test]
fn nop_only_moves_pc() {
    let mut e = machine(&[0x00]);
    assert_eq!(e.execute_next(), Ok(Event::Continue));
    assert_eq!(e.pc(), 1);
}

#[test]
fn load_wraps_at_the_top() {
    let mut e = Emulator::new();
    e.load(&vec![1, 2, 3], 0xFFFF);
    assert_eq!(e.read_mem(0xFFFF), 1);
    assert_eq!(e.read_mem(0x0000), 2);
    assert_eq!(e.read_mem(0x0001), 3);
    assert_eq!(e.read_mem(0x0002), 0);
}

#[test]
fn daa_without_adjustment() {
    let mut e = machine(&[0x27]);
    e.set_reg(Reg8::A, 0x45);
    step(&mut e);
    assert_eq!(e.reg(Reg8::A), 0x45);
    assert!(!e.get_flag(Flag::Carry));
    assert!(!e.get_flag(Flag::Aux));
}

#[test]
fn fresh_machine() {
    let e = Emulator::new();
    assert_eq!(e.pc(), 0);
    assert_eq!(e.sp(), 0);
    assert!(e.interrupts_enabled());
    assert!(e.is_running());
    assert_eq!(e.flags(), Flags::cleared());
    assert_eq!(e.reg(Reg8::A), 0);
    assert_eq!(e.read_mem(0x1234), 0);
}

#[test]
fn input_completion() {
    // IN 3; IN 4
    let mut e = machine(&[0xDB, 0x03, 0xDB, 0x04]);
    assert_eq!(step(&mut e), Event::Input { port: 3 });
    e.complete_input(Some(0x5A));
    assert_eq!(e.reg(Reg8::A), 0x5A);
    assert_eq!(step(&mut e), Event::Input { port: 4 });
    e.complete_input(None);
    assert_eq!(e.reg(Reg8::A), 0xFF);
}
