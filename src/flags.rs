use vstd::prelude::*;

verus! {

/// Mask of the Zero flag within F.
pub const ZERO_MASK: u8 = 0x80;

/// Mask of the Subtract flag within F.
pub const SUBTRACT_MASK: u8 = 0x40;

/// Mask of the Half-Carry flag within F.
pub const HALF_CARRY_MASK: u8 = 0x20;

/// Mask of the Carry flag within F.
pub const CARRY_MASK: u8 = 0x10;

/// One of the four condition flags.
#[derive(Clone, Copy, PartialEq, Eq, Structural, Debug)]
pub enum Flag {
    Zero,
    Subtract,
    HalfCarry,
    Carry,
}

/// The condition register F. It holds four flags in its high nibble; its low
/// nibble reads as zero whatever was written to it.
#[derive(Clone, Copy, PartialEq, Eq, Structural, Debug)]
pub struct Flags {
    pub zero: bool,
    pub subtract: bool,
    pub half_carry: bool,
    pub carry: bool,
}

pub open spec fn bit_if(b: bool, mask: u8) -> int {
    if b {
        mask as int
    } else {
        0
    }
}

proof fn lemma_high_nibble(b: u8)
    ensures
        (b & 0xF0) as int == bit_if(b & 0x80 != 0, 0x80) + bit_if(b & 0x40 != 0, 0x40) + bit_if(
            b & 0x20 != 0,
            0x20,
        ) + bit_if(b & 0x10 != 0, 0x10),
{
    let z = b & 0x80 != 0;
    let n = b & 0x40 != 0;
    let h = b & 0x20 != 0;
    let c = b & 0x10 != 0;
    let zv: u8 = if z { 0x80 } else { 0 };
    let nv: u8 = if n { 0x40 } else { 0 };
    let hv: u8 = if h { 0x20 } else { 0 };
    let cv: u8 = if c { 0x10 } else { 0 };
    assert(b & 0xF0 == zv | nv | hv | cv) by (bit_vector)
        requires
            z == (b & 0x80 != 0),
            n == (b & 0x40 != 0),
            h == (b & 0x20 != 0),
            c == (b & 0x10 != 0),
            zv == (if z { 0x80u8 } else { 0u8 }),
            nv == (if n { 0x40u8 } else { 0u8 }),
            hv == (if h { 0x20u8 } else { 0u8 }),
            cv == (if c { 0x10u8 } else { 0u8 }),
    ;
    assert(zv | nv | hv | cv == (zv + nv + hv + cv) as u8) by (bit_vector)
        requires
            zv == 0x80u8 || zv == 0,
            nv == 0x40u8 || nv == 0,
            hv == 0x20u8 || hv == 0,
            cv == 0x10u8 || cv == 0,
    ;
}

impl Flags {
    /// The byte that F reads as.
    pub open spec fn spec_bits(self) -> u8 {
        (bit_if(self.zero, ZERO_MASK) + bit_if(self.subtract, SUBTRACT_MASK) + bit_if(
            self.half_carry,
            HALF_CARRY_MASK,
        ) + bit_if(self.carry, CARRY_MASK)) as u8
    }

    pub open spec fn spec_test(self, flag: Flag) -> bool {
        match flag {
            Flag::Zero => self.zero,
            Flag::Subtract => self.subtract,
            Flag::HalfCarry => self.half_carry,
            Flag::Carry => self.carry,
        }
    }

    pub open spec fn spec_with(self, flag: Flag, value: bool) -> Flags {
        match flag {
            Flag::Zero => Flags { zero: value, ..self },
            Flag::Subtract => Flags { subtract: value, ..self },
            Flag::HalfCarry => Flags { half_carry: value, ..self },
            Flag::Carry => Flags { carry: value, ..self },
        }
    }

    /// The flags that F holds after the byte `bits` is written to it.
    pub open spec fn spec_from_bits(bits: u8) -> Flags {
        Flags {
            zero: bits & ZERO_MASK != 0,
            subtract: bits & SUBTRACT_MASK != 0,
            half_carry: bits & HALF_CARRY_MASK != 0,
            carry: bits & CARRY_MASK != 0,
        }
    }

    /// All four flags clear.
    pub fn empty() -> (r: Flags)
        ensures
            r.spec_bits() == 0,
            !r.zero && !r.subtract && !r.half_carry && !r.carry,
    {
        Flags { zero: false, subtract: false, half_carry: false, carry: false }
    }

    /// The four flags given explicitly.
    pub fn new(zero: bool, subtract: bool, half_carry: bool, carry: bool) -> (r: Flags)
        ensures
            r == (Flags { zero, subtract, half_carry, carry }),
    {
        Flags { zero, subtract, half_carry, carry }
    }

    /// Reads a byte into the flags, dropping its low nibble.
    pub fn from_bits_truncate(bits: u8) -> (r: Flags)
        ensures
            r == Flags::spec_from_bits(bits),
            r.spec_bits() == bits & 0xF0,
    {
        proof {
            lemma_high_nibble(bits);
        }
        Flags {
            zero: bits & ZERO_MASK != 0,
            subtract: bits & SUBTRACT_MASK != 0,
            half_carry: bits & HALF_CARRY_MASK != 0,
            carry: bits & CARRY_MASK != 0,
        }
    }

    /// The byte that F reads as; its low nibble is zero.
    pub fn bits(&self) -> (r: u8)
        ensures
            r == self.spec_bits(),
            r % 16 == 0,
    {
        let mut r: u8 = 0;
        if self.zero {
            r = r + ZERO_MASK;
        }
        if self.subtract {
            r = r + SUBTRACT_MASK;
        }
        if self.half_carry {
            r = r + HALF_CARRY_MASK;
        }
        if self.carry {
            r = r + CARRY_MASK;
        }
        r
    }

    pub fn test(&self, flag: Flag) -> (r: bool)
        ensures
            r == self.spec_test(flag),
    {
        match flag {
            Flag::Zero => self.zero,
            Flag::Subtract => self.subtract,
            Flag::HalfCarry => self.half_carry,
            Flag::Carry => self.carry,
        }
    }

    pub fn set(&mut self, flag: Flag)
        ensures
            *final(self) == old(self).spec_with(flag, true),
    {
        self.put(flag, true);
    }

    pub fn clear(&mut self, flag: Flag)
        ensures
            *final(self) == old(self).spec_with(flag, false),
    {
        self.put(flag, false);
    }

    /// Sets one flag to the given value.
    pub fn put(&mut self, flag: Flag, value: bool)
        ensures
            *final(self) == old(self).spec_with(flag, value),
    {
        match flag {
            Flag::Zero => self.zero = value,
            Flag::Subtract => self.subtract = value,
            Flag::HalfCarry => self.half_carry = value,
            Flag::Carry => self.carry = value,
        }
    }

    /// Sets all four flags at once.
    pub fn assign(&mut self, zero: bool, subtract: bool, half_carry: bool, carry: bool)
        ensures
            *final(self) == (Flags { zero, subtract, half_carry, carry }),
    {
        *self = Flags { zero, subtract, half_carry, carry };
    }
}

/// Whatever byte is written to F, it reads back with its low nibble clear and
/// its high nibble kept.
pub proof fn lemma_flags_low_nibble_clear(bits: u8)
    ensures
        Flags::spec_from_bits(bits).spec_bits() == bits & 0xF0,
        Flags::spec_from_bits(bits).spec_bits() % 16 == 0,
{
    lemma_high_nibble(bits);
}

} // verus!
