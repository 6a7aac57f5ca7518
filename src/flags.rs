//! The condition flags of the 8080 and the flag byte `F` they pack into.
use vstd::prelude::*;

verus! {

/// The five condition flags. Bits 1, 3 and 5 of the flag byte carry no
/// information, so they have no field here: they exist only in `pack_spec`.
#[derive(Clone, Copy, Debug, PartialEq, Eq, Structural)]
pub struct Flags {
    pub sign: bool,
    pub zero: bool,
    pub aux: bool,
    pub parity: bool,
    pub carry: bool,
}

/// A name for one of the five flags.
#[derive(Clone, Copy, Debug, PartialEq, Eq, Structural)]
pub enum Flag {
    Zero,
    Carry,
    Sign,
    Parity,
    Aux,
}

pub open spec fn bit(b: bool) -> nat {
    if b {
        1
    } else {
        0
    }
}

/// The value of a flag by name.
pub open spec fn flag_of(f: Flags, which: Flag) -> bool {
    match which {
        Flag::Zero => f.zero,
        Flag::Carry => f.carry,
        Flag::Sign => f.sign,
        Flag::Parity => f.parity,
        Flag::Aux => f.aux,
    }
}

/// `f` with one flag replaced.
pub open spec fn with_flag(f: Flags, which: Flag, v: bool) -> Flags {
    match which {
        Flag::Zero => Flags { zero: v, ..f },
        Flag::Carry => Flags { carry: v, ..f },
        Flag::Sign => Flags { sign: v, ..f },
        Flag::Parity => Flags { parity: v, ..f },
        Flag::Aux => Flags { aux: v, ..f },
    }
}

/// The flag byte: S in bit 7, Z in bit 6, AC in bit 4, P in bit 2, CY in
/// bit 0; bit 1 is always 1, bits 3 and 5 always 0.
pub open spec fn pack_spec(f: Flags) -> u8 {
    (128 * bit(f.sign) + 64 * bit(f.zero) + 16 * bit(f.aux) + 4 * bit(f.parity) + 2 + bit(
        f.carry,
    )) as u8
}

/// The flags that a flag byte holds; its bits 1, 3 and 5 are ignored.
pub open spec fn unpack_spec(v: u8) -> Flags {
    Flags {
        sign: v as nat / 128 % 2 == 1,
        zero: v as nat / 64 % 2 == 1,
        aux: v as nat / 16 % 2 == 1,
        parity: v as nat / 4 % 2 == 1,
        carry: v as nat % 2 == 1,
    }
}

/// The number of set bits of `n`.
pub open spec fn ones(n: nat) -> nat
    decreases n,
{
    if n == 0 {
        0
    } else {
        n % 2 + ones(n / 2)
    }
}

/// True when `v` has an even number of set bits.
pub open spec fn even_parity(v: u8) -> bool {
    ones(v as nat) % 2 == 0
}

/// `f` with sign, zero and parity taken from the result `v`.
pub open spec fn with_szp(f: Flags, v: u8) -> Flags {
    Flags { sign: v >= 128, zero: v == 0, parity: even_parity(v), ..f }
}

impl Flags {
    /// All five flags clear.
    pub fn cleared() -> (r: Flags)
        ensures
            r == (Flags { sign: false, zero: false, aux: false, parity: false, carry: false }),
    {
        Flags { sign: false, zero: false, aux: false, parity: false, carry: false }
    }

    pub fn get(&self, which: Flag) -> (r: bool)
        ensures
            r == flag_of(*self, which),
    {
        match which {
            Flag::Zero => self.zero,
            Flag::Carry => self.carry,
            Flag::Sign => self.sign,
            Flag::Parity => self.parity,
            Flag::Aux => self.aux,
        }
    }

    pub fn set(&mut self, which: Flag, v: bool)
        ensures
            *final(self) == with_flag(*old(self), which, v),
    {
        match which {
            Flag::Zero => self.zero = v,
            Flag::Carry => self.carry = v,
            Flag::Sign => self.sign = v,
            Flag::Parity => self.parity = v,
            Flag::Aux => self.aux = v,
        }
    }

    /// The flag byte, with its fixed bits applied.
    pub fn pack(&self) -> (r: u8)
        ensures
            r == pack_spec(*self),
    {
        let mut v: u8 = 2;
        if self.sign {
            v = v + 128;
        }
        if self.zero {
            v = v + 64;
        }
        if self.aux {
            v = v + 16;
        }
        if self.parity {
            v = v + 4;
        }
        if self.carry {
            v = v + 1;
        }
        v
    }

    /// The flags held in a flag byte.
    pub fn unpack(v: u8) -> (r: Flags)
        ensures
            r == unpack_spec(v),
    {
        Flags {
            sign: v / 128 % 2 == 1,
            zero: v / 64 % 2 == 1,
            aux: v / 16 % 2 == 1,
            parity: v / 4 % 2 == 1,
            carry: v % 2 == 1,
        }
    }
}

/// True when `v` has an even number of set bits.
pub fn has_even_parity(v: u8) -> (r: bool)
    ensures
        r == even_parity(v),
{
    let mut n: u8 = v;
    let mut odd = false;
    while n > 0
        invariant
            (bit(odd) + ones(n as nat)) % 2 == ones(v as nat) % 2,
        decreases n,
    {
        if n % 2 == 1 {
            odd = !odd;
        }
        n = n / 2;
    }
    !odd
}

} // verus!
