use vstd::prelude::*;

use crate::flags::Flags;

verus! {

/// An 8-bit register.
#[derive(Clone, Copy, PartialEq, Eq, Structural, Debug)]
pub enum Reg8 {
    A,
    F,
    B,
    C,
    D,
    E,
    H,
    L,
}

/// A 16-bit register: one of the four pairs, or the stack pointer.
#[derive(Clone, Copy, PartialEq, Eq, Structural, Debug)]
pub enum Reg16 {
    AF,
    BC,
    DE,
    HL,
    SP,
}

/// The word made of a high and a low byte.
pub open spec fn word(high: u8, low: u8) -> u16 {
    (high * 256 + low) as u16
}

pub open spec fn high_byte(w: u16) -> u8 {
    (w / 256) as u8
}

pub open spec fn low_byte(w: u16) -> u8 {
    (w % 256) as u8
}

/// Joins two bytes into a word, high byte first.
pub fn join_word(high: u8, low: u8) -> (r: u16)
    ensures
        r == word(high, low),
        r as int == high * 256 + low,
{
    high as u16 * 256 + low as u16
}

/// Splits a word into its high and low byte.
pub fn split_word(w: u16) -> (r: (u8, u8))
    ensures
        r.0 == high_byte(w),
        r.1 == low_byte(w),
        word(r.0, r.1) == w,
{
    ((w / 256) as u8, (w % 256) as u8)
}

/// The eight 8-bit registers and the two 16-bit pointers.
#[derive(Clone, Copy, PartialEq, Eq, Structural, Debug)]
pub struct RegisterFile {
    pub a: u8,
    pub f: Flags,
    pub b: u8,
    pub c: u8,
    pub d: u8,
    pub e: u8,
    pub h: u8,
    pub l: u8,
    pub sp: u16,
    pub pc: u16,
}

impl RegisterFile {
    pub open spec fn spec_read8(self, reg: Reg8) -> u8 {
        match reg {
            Reg8::A => self.a,
            Reg8::F => self.f.spec_bits(),
            Reg8::B => self.b,
            Reg8::C => self.c,
            Reg8::D => self.d,
            Reg8::E => self.e,
            Reg8::H => self.h,
            Reg8::L => self.l,
        }
    }

    pub open spec fn spec_write8(self, reg: Reg8, v: u8) -> RegisterFile {
        match reg {
            Reg8::A => RegisterFile { a: v, ..self },
            Reg8::F => RegisterFile { f: Flags::spec_from_bits(v), ..self },
            Reg8::B => RegisterFile { b: v, ..self },
            Reg8::C => RegisterFile { c: v, ..self },
            Reg8::D => RegisterFile { d: v, ..self },
            Reg8::E => RegisterFile { e: v, ..self },
            Reg8::H => RegisterFile { h: v, ..self },
            Reg8::L => RegisterFile { l: v, ..self },
        }
    }

    pub open spec fn spec_read16(self, reg: Reg16) -> u16 {
        match reg {
            Reg16::AF => word(self.a, self.f.spec_bits()),
            Reg16::BC => word(self.b, self.c),
            Reg16::DE => word(self.d, self.e),
            Reg16::HL => word(self.h, self.l),
            Reg16::SP => self.sp,
        }
    }

    pub open spec fn spec_write16(self, reg: Reg16, w: u16) -> RegisterFile {
        match reg {
            Reg16::AF => RegisterFile {
                a: high_byte(w),
                f: Flags::spec_from_bits(low_byte(w)),
                ..self
            },
            Reg16::BC => RegisterFile { b: high_byte(w), c: low_byte(w), ..self },
            Reg16::DE => RegisterFile { d: high_byte(w), e: low_byte(w), ..self },
            Reg16::HL => RegisterFile { h: high_byte(w), l: low_byte(w), ..self },
            Reg16::SP => RegisterFile { sp: w, ..self },
        }
    }

    pub open spec fn new_spec() -> RegisterFile {
        RegisterFile {
            a: 0,
            f: Flags { zero: false, subtract: false, half_carry: false, carry: false },
            b: 0,
            c: 0,
            d: 0,
            e: 0,
            h: 0,
            l: 0,
            sp: 0,
            pc: 0,
        }
    }

    /// All registers zero.
    pub fn new() -> (r: RegisterFile)
        ensures
            r == RegisterFile::new_spec(),
    {
        RegisterFile {
            a: 0,
            f: Flags::empty(),
            b: 0,
            c: 0,
            d: 0,
            e: 0,
            h: 0,
            l: 0,
            sp: 0,
            pc: 0,
        }
    }

    pub fn read8(&self, reg: Reg8) -> (r: u8)
        ensures
            r == self.spec_read8(reg),
    {
        match reg {
            Reg8::A => self.a,
            Reg8::F => self.f.bits(),
            Reg8::B => self.b,
            Reg8::C => self.c,
            Reg8::D => self.d,
            Reg8::E => self.e,
            Reg8::H => self.h,
            Reg8::L => self.l,
        }
    }

    /// Writes one register; a write to F keeps only its high nibble.
    pub fn write8(&mut self, reg: Reg8, v: u8)
        ensures
            *final(self) == old(self).spec_write8(reg, v),
    {
        match reg {
            Reg8::A => self.a = v,
            Reg8::F => self.f = Flags::from_bits_truncate(v),
            Reg8::B => self.b = v,
            Reg8::C => self.c = v,
            Reg8::D => self.d = v,
            Reg8::E => self.e = v,
            Reg8::H => self.h = v,
            Reg8::L => self.l = v,
        }
    }

    /// Reads a pair as high byte times 256 plus low byte, or SP.
    pub fn read16(&self, reg: Reg16) -> (r: u16)
        ensures
            r == self.spec_read16(reg),
    {
        match reg {
            Reg16::AF => join_word(self.a, self.f.bits()),
            Reg16::BC => join_word(self.b, self.c),
            Reg16::DE => join_word(self.d, self.e),
            Reg16::HL => join_word(self.h, self.l),
            Reg16::SP => self.sp,
        }
    }

    /// Writes both halves of a pair in one step, or SP.
    pub fn write16(&mut self, reg: Reg16, w: u16)
        ensures
            *final(self) == old(self).spec_write16(reg, w),
    {
        let (high, low) = split_word(w);
        match reg {
            Reg16::AF => {
                self.a = high;
                self.f = Flags::from_bits_truncate(low);
            },
            Reg16::BC => {
                self.b = high;
                self.c = low;
            },
            Reg16::DE => {
                self.d = high;
                self.e = low;
            },
            Reg16::HL => {
                self.h = high;
                self.l = low;
            },
            Reg16::SP => self.sp = w,
        }
    }
}

/// Whatever is written to F, directly or through AF, F reads back with its
/// low nibble zero.
pub proof fn lemma_f_low_nibble_zero(rf: RegisterFile, v: u8, w: u16)
    ensures
        rf.spec_write8(Reg8::F, v).spec_read8(Reg8::F) % 16 == 0,
        rf.spec_write16(Reg16::AF, w).spec_read8(Reg8::F) % 16 == 0,
        rf.spec_write16(Reg16::AF, w).spec_read16(Reg16::AF) % 16 == 0,
{
    crate::flags::lemma_flags_low_nibble_clear(v);
    crate::flags::lemma_flags_low_nibble_clear(low_byte(w));
    let f = rf.spec_write16(Reg16::AF, w).f.spec_bits();
    assert((high_byte(w) * 256 + f) % 16 == 0) by (nonlinear_arith)
        requires
            f % 16 == 0,
    ;
}

/// Writing a word to BC, DE, HL or SP and reading it back gives the word.
pub proof fn lemma_write16_read16(rf: RegisterFile, reg: Reg16, w: u16)
    requires
        reg != Reg16::AF,
    ensures
        rf.spec_write16(reg, w).spec_read16(reg) == w,
{
}

} // verus!
