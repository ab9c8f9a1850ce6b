use vstd::prelude::*;

use crate::cpu::{wrap16, SM83};
use crate::memory::MemoryMap;
use crate::registers::{Reg16, Reg8};

verus! {

/// Where an 8-bit operand lives.
#[derive(Clone, Copy, PartialEq, Eq, Structural, Debug)]
pub enum Operand8 {
    /// A register.
    Reg(Reg8),
    /// The byte that follows in the instruction stream.
    Imm,
    /// The memory cell that a register pair points at.
    Mem(Reg16),
    /// The cell that HL points at; HL moves up by one afterwards.
    MemHlInc,
    /// The cell that HL points at; HL moves down by one afterwards.
    MemHlDec,
    /// The cell at a 16-bit address that follows in the instruction stream.
    MemImm,
    /// The cell at 0xFF00 plus a byte that follows in the instruction stream.
    HighImm,
    /// The cell at 0xFF00 plus C.
    HighC,
}

pub open spec fn is_memory(op: Operand8) -> bool {
    !(op is Reg) && !(op is Imm)
}

/// The operand of the register field of an opcode: B, C, D, E, H, L, (HL), A.
pub open spec fn spec_r(i: u8) -> Operand8 {
    if i == 0 {
        Operand8::Reg(Reg8::B)
    } else if i == 1 {
        Operand8::Reg(Reg8::C)
    } else if i == 2 {
        Operand8::Reg(Reg8::D)
    } else if i == 3 {
        Operand8::Reg(Reg8::E)
    } else if i == 4 {
        Operand8::Reg(Reg8::H)
    } else if i == 5 {
        Operand8::Reg(Reg8::L)
    } else if i == 6 {
        Operand8::Mem(Reg16::HL)
    } else {
        Operand8::Reg(Reg8::A)
    }
}

pub fn r_operand(i: u8) -> (r: Operand8)
    requires
        i < 8,
    ensures
        r == spec_r(i),
{
    match i {
        0 => Operand8::Reg(Reg8::B),
        1 => Operand8::Reg(Reg8::C),
        2 => Operand8::Reg(Reg8::D),
        3 => Operand8::Reg(Reg8::E),
        4 => Operand8::Reg(Reg8::H),
        5 => Operand8::Reg(Reg8::L),
        6 => Operand8::Mem(Reg16::HL),
        _ => Operand8::Reg(Reg8::A),
    }
}

/// The address of a memory operand, and the core after whatever fetch or
/// step of HL that takes.
pub open spec fn spec_address(cpu: SM83, mem: Seq<u8>, op: Operand8) -> (SM83, u16) {
    let regs = cpu.registers;
    let hl = regs.spec_read16(Reg16::HL);
    match op {
        Operand8::Mem(rr) => (cpu, regs.spec_read16(rr)),
        Operand8::MemHlInc => (cpu.with_regs(regs.spec_write16(Reg16::HL, wrap16(hl + 1))), hl),
        Operand8::MemHlDec => (
            cpu.with_regs(regs.spec_write16(Reg16::HL, wrap16(hl + 0xFFFF))),
            hl,
        ),
        Operand8::MemImm => cpu.spec_fetch_word(mem),
        Operand8::HighImm => {
            let (c, n) = cpu.spec_fetch_byte(mem);
            (c, (0xFF00 + n) as u16)
        },
        Operand8::HighC => (cpu, (0xFF00 + regs.c) as u16),
        _ => (cpu, 0),
    }
}

/// Reading an operand: the core afterwards and the value.
pub open spec fn spec_read_operand(cpu: SM83, mem: Seq<u8>, op: Operand8) -> (SM83, u8) {
    match op {
        Operand8::Reg(r) => (cpu, cpu.registers.spec_read8(r)),
        Operand8::Imm => cpu.spec_fetch_byte(mem),
        _ => {
            let (c, a) = spec_address(cpu, mem, op);
            (c, mem[a as int])
        },
    }
}

/// Writing an operand: the core and the memory afterwards.
pub open spec fn spec_write_operand(cpu: SM83, mem: Seq<u8>, op: Operand8, v: u8) -> (
    SM83,
    Seq<u8>,
) {
    match op {
        Operand8::Reg(r) => (cpu.with_regs(cpu.registers.spec_write8(r, v)), mem),
        _ => {
            let (c, a) = spec_address(cpu, mem, op);
            (c, mem.update(a as int, v))
        },
    }
}

impl SM83 {
    /// Computes the address of a memory operand, fetching or stepping HL as
    /// the operand asks.
    pub fn operand_address(&mut self, mem: &MemoryMap, op: Operand8) -> (r: u16)
        requires
            mem.wf(),
            is_memory(op),
        ensures
            (*final(self), r) == spec_address(*old(self), mem@, op),
    {
        match op {
            Operand8::Mem(rr) => self.registers.read16(rr),
            Operand8::MemHlInc => {
                let hl = self.registers.read16(Reg16::HL);
                self.registers.write16(Reg16::HL, hl.wrapping_add(1));
                hl
            },
            Operand8::MemHlDec => {
                let hl = self.registers.read16(Reg16::HL);
                self.registers.write16(Reg16::HL, hl.wrapping_sub(1));
                hl
            },
            Operand8::MemImm => self.fetch_word(mem),
            Operand8::HighImm => {
                let n = self.fetch_byte(mem);
                0xFF00 + n as u16
            },
            Operand8::HighC => 0xFF00 + self.registers.c as u16,
            _ => 0,
        }
    }

    pub fn read_operand(&mut self, mem: &MemoryMap, op: Operand8) -> (r: u8)
        requires
            mem.wf(),
        ensures
            (*final(self), r) == spec_read_operand(*old(self), mem@, op),
    {
        match op {
            Operand8::Reg(r) => self.registers.read8(r),
            Operand8::Imm => self.fetch_byte(mem),
            _ => {
                let a = self.operand_address(mem, op);
                mem.read_byte_at(a)
            },
        }
    }

    /// Writes an operand; an immediate is no destination.
    pub fn write_operand(&mut self, mem: &mut MemoryMap, op: Operand8, v: u8)
        requires
            old(mem).wf(),
            !(op is Imm),
        ensures
            final(mem).wf(),
            (*final(self), final(mem)@) == spec_write_operand(*old(self), old(mem)@, op, v),
    {
        match op {
            Operand8::Reg(r) => self.registers.write8(r, v),
            _ => {
                let a = self.operand_address(mem, op);
                mem.write_byte_at(a, v);
            },
        }
    }
}

} // verus!
