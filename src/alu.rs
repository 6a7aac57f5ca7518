//! The arithmetic and logic unit: 8-bit results and the flags they produce.
//! Every flag-setting instruction of the engine goes through these functions.
use vstd::prelude::*;
use crate::flags::{bit, even_parity, has_even_parity, with_szp, Flags};

verus! {

/// `a + b + cin`: the 8-bit result with all five flags.
pub open spec fn add_spec(a: u8, b: u8, cin: bool) -> (u8, Flags) {
    let sum = a as int + b as int + bit(cin);
    let r = (sum % 256) as u8;
    (
        r,
        Flags {
            sign: r >= 128,
            zero: r == 0,
            aux: a as int % 16 + b as int % 16 + bit(cin) >= 16,
            parity: even_parity(r),
            carry: sum >= 256,
        },
    )
}

/// `a - b - cin`: the 8-bit result; CY and AC are the borrows out of
/// bits 7 and 3.
pub open spec fn sub_spec(a: u8, b: u8, cin: bool) -> (u8, Flags) {
    let diff = a as int - b as int - bit(cin);
    let r = (diff % 256) as u8;
    (
        r,
        Flags {
            sign: r >= 128,
            zero: r == 0,
            aux: (a as int % 16) < b as int % 16 + bit(cin),
            parity: even_parity(r),
            carry: (a as int) < b as int + bit(cin),
        },
    )
}

/// Bit 3 of a byte.
pub open spec fn bit3(v: u8) -> bool {
    v as nat / 8 % 2 == 1
}

/// A logical result: CY clear, AC as given.
pub open spec fn logic_flags(r: u8, aux: bool) -> Flags {
    Flags { sign: r >= 128, zero: r == 0, aux, parity: even_parity(r), carry: false }
}

/// The accumulator and flags after ALU operation `k` (ADD, ADC, SUB, SBB,
/// ANA, XRA, ORA, CMP for `k` = 0..7) with operand `b`. CMP leaves `a`.
pub open spec fn alu_spec(k: u8, a: u8, b: u8, f: Flags) -> (u8, Flags) {
    if k == 0 {
        add_spec(a, b, false)
    } else if k == 1 {
        add_spec(a, b, f.carry)
    } else if k == 2 {
        sub_spec(a, b, false)
    } else if k == 3 {
        sub_spec(a, b, f.carry)
    } else if k == 4 {
        (a & b, logic_flags(a & b, bit3(a) || bit3(b)))
    } else if k == 5 {
        (a ^ b, logic_flags(a ^ b, false))
    } else if k == 6 {
        (a | b, logic_flags(a | b, false))
    } else {
        (a, sub_spec(a, b, false).1)
    }
}

/// INR: `v + 1` with S, Z, P and AC; CY is kept.
pub open spec fn inr_spec(v: u8, f: Flags) -> (u8, Flags) {
    let r = ((v as int + 1) % 256) as u8;
    (r, Flags { aux: v as int % 16 == 15, ..with_szp(f, r) })
}

/// DCR: `v - 1` with S, Z, P and AC (borrow out of bit 3); CY is kept.
pub open spec fn dcr_spec(v: u8, f: Flags) -> (u8, Flags) {
    let r = ((v as int - 1) % 256) as u8;
    (r, Flags { aux: v as int % 16 == 0, ..with_szp(f, r) })
}

/// The four rotates of the accumulator (RLC, RRC, RAL, RAR for `k` = 0..3):
/// the new accumulator and the new carry, which is the bit shifted out.
pub open spec fn rotate_spec(k: u8, a: u8, cy: bool) -> (u8, bool) {
    let hi = a as nat / 128;
    let lo = a as nat % 2;
    if k == 0 {
        (((a as nat * 2) % 256 + hi) as u8, hi == 1)
    } else if k == 1 {
        ((a as nat / 2 + lo * 128) as u8, lo == 1)
    } else if k == 2 {
        (((a as nat * 2) % 256 + bit(cy)) as u8, hi == 1)
    } else {
        ((a as nat / 2 + bit(cy) * 128) as u8, lo == 1)
    }
}

/// DAA. When the low nibble exceeds 9 or AC is set, 6 is added to the
/// accumulator; AC then tells whether the low nibble passed 0xF. When the
/// high nibble (after that) exceeds 9 or CY is set, 6 is added to it; CY then
/// tells whether it passed 0xF. S, Z and P come from the result.
pub open spec fn daa_spec(a: u8, f: Flags) -> (u8, Flags) {
    let low0 = a as nat % 16;
    let fix_low = low0 > 9 || f.aux;
    let acc = if fix_low { (a as nat + 6) % 256 } else { a as nat };
    let low = if fix_low { low0 + 6 } else { low0 };
    let high0 = acc / 16;
    let high = if high0 > 9 || f.carry { high0 + 6 } else { high0 };
    let r = ((high % 16) * 16 + low % 16) as u8;
    (r, Flags { aux: low > 15, carry: high > 15, ..with_szp(f, r) })
}

/// DAD: `hl + rp` modulo 2^16 and the carry out of bit 15.
pub open spec fn dad_spec(hl: u16, rp: u16) -> (u16, bool) {
    (((hl as int + rp as int) % 65536) as u16, hl as int + rp as int >= 65536)
}

pub fn add8(a: u8, b: u8, cin: bool) -> (r: (u8, Flags))
    ensures
        r == add_spec(a, b, cin),
{
    let c: u16 = if cin { 1 } else { 0 };
    let sum: u16 = a as u16 + b as u16 + c;
    let r: u8 = (sum % 256) as u8;
    let parity = has_even_parity(r);
    (
        r,
        Flags {
            sign: r >= 128,
            zero: r == 0,
            aux: a % 16 + b % 16 + c as u8 >= 16,
            parity,
            carry: sum >= 256,
        },
    )
}

pub fn sub8(a: u8, b: u8, cin: bool) -> (r: (u8, Flags))
    ensures
        r == sub_spec(a, b, cin),
{
    let c: u16 = if cin { 1 } else { 0 };
    let t: u16 = b as u16 + c;
    let r: u8 = if a as u16 >= t {
        (a as u16 - t) as u8
    } else {
        (a as u16 + 256 - t) as u8
    };
    assert(r == ((a as int - b as int - bit(cin)) % 256) as u8);
    let parity = has_even_parity(r);
    (
        r,
        Flags {
            sign: r >= 128,
            zero: r == 0,
            aux: ((a % 16) as u16) < (b % 16) as u16 + c,
            parity,
            carry: (a as u16) < b as u16 + c,
        },
    )
}

pub fn logic(r: u8, aux: bool) -> (f: Flags)
    ensures
        f == logic_flags(r, aux),
{
    let parity = has_even_parity(r);
    Flags { sign: r >= 128, zero: r == 0, aux, parity, carry: false }
}

pub fn alu(k: u8, a: u8, b: u8, f: Flags) -> (r: (u8, Flags))
    ensures
        r == alu_spec(k, a, b, f),
{
    if k == 0 {
        add8(a, b, false)
    } else if k == 1 {
        add8(a, b, f.carry)
    } else if k == 2 {
        sub8(a, b, false)
    } else if k == 3 {
        sub8(a, b, f.carry)
    } else if k == 4 {
        (a & b, logic(a & b, a / 8 % 2 == 1 || b / 8 % 2 == 1))
    } else if k == 5 {
        (a ^ b, logic(a ^ b, false))
    } else if k == 6 {
        (a | b, logic(a | b, false))
    } else {
        (a, sub8(a, b, false).1)
    }
}

/// `f` with sign, zero and parity taken from `v`.
pub fn szp(f: Flags, v: u8) -> (r: Flags)
    ensures
        r == with_szp(f, v),
{
    let parity = has_even_parity(v);
    Flags { sign: v >= 128, zero: v == 0, parity, ..f }
}

pub fn inr(v: u8, f: Flags) -> (r: (u8, Flags))
    ensures
        r == inr_spec(v, f),
{
    let r: u8 = if v == 255 { 0 } else { v + 1 };
    (r, Flags { aux: v % 16 == 15, ..szp(f, r) })
}

pub fn dcr(v: u8, f: Flags) -> (r: (u8, Flags))
    ensures
        r == dcr_spec(v, f),
{
    let r: u8 = if v == 0 { 255 } else { v - 1 };
    (r, Flags { aux: v % 16 == 0, ..szp(f, r) })
}

pub fn rotate(k: u8, a: u8, cy: bool) -> (r: (u8, bool))
    ensures
        r == rotate_spec(k, a, cy),
{
    let hi: u8 = a / 128;
    let lo: u8 = a % 2;
    let c: u8 = if cy { 1 } else { 0 };
    if k == 0 {
        (((a as u16 * 2) % 256) as u8 + hi, hi == 1)
    } else if k == 1 {
        (a / 2 + lo * 128, lo == 1)
    } else if k == 2 {
        (((a as u16 * 2) % 256) as u8 + c, hi == 1)
    } else {
        (a / 2 + c * 128, lo == 1)
    }
}

pub fn decimal_adjust(a: u8, f: Flags) -> (r: (u8, Flags))
    ensures
        r == daa_spec(a, f),
{
    let low0: u8 = a % 16;
    let fix_low = low0 > 9 || f.aux;
    let acc: u8 = if fix_low { ((a as u16 + 6) % 256) as u8 } else { a };
    let low: u8 = if fix_low { low0 + 6 } else { low0 };
    let high0: u8 = acc / 16;
    let high: u8 = if high0 > 9 || f.carry { high0 + 6 } else { high0 };
    let r: u8 = (high % 16) * 16 + low % 16;
    (r, Flags { aux: low > 15, carry: high > 15, ..szp(f, r) })
}

pub fn dad(hl: u16, rp: u16) -> (r: (u16, bool))
    ensures
        r == dad_spec(hl, rp),
{
    let sum: u32 = hl as u32 + rp as u32;
    ((sum % 65536) as u16, sum >= 65536)
}

} // verus!
