use vstd::prelude::*;

use crate::flags::Flags;
use crate::memory::MemoryMap;
use crate::registers::{high_byte, join_word, low_byte, split_word, word, Reg16, RegisterFile};

verus! {

/// An address taken modulo 2^16.
pub open spec fn wrap16(x: int) -> u16 {
    (x % 0x10000) as u16
}

/// Whether the core fetches instructions.
#[derive(Clone, Copy, PartialEq, Eq, Structural, Debug)]
pub enum CpuState {
    Running,
    Halted,
    Stopped,
}

/// Why a step failed.
#[derive(Clone, Copy, PartialEq, Eq, Structural, Debug)]
pub enum StepError {
    /// The opcode at PC is one that the hardware leaves undefined.
    IllegalOpcode(u8),
}

/// A branch condition: a flag or its negation.
#[derive(Clone, Copy, PartialEq, Eq, Structural, Debug)]
pub enum Condition {
    NotZero,
    Zero,
    NotCarry,
    Carry,
}

pub open spec fn spec_condition(f: Flags, cc: Condition) -> bool {
    match cc {
        Condition::NotZero => !f.zero,
        Condition::Zero => f.zero,
        Condition::NotCarry => !f.carry,
        Condition::Carry => f.carry,
    }
}

/// The SM83 core: its registers, the interrupt-enable flag with the delay
/// that `ei` puts on it, and whether it is running, halted or stopped.
#[derive(Clone, Copy, PartialEq, Eq, Structural, Debug)]
pub struct SM83 {
    pub registers: RegisterFile,
    /// Interrupts are serviced.
    pub ime: bool,
    /// `ei` ran: interrupts are enabled once the next instruction completes.
    pub ime_pending: bool,
    pub state: CpuState,
}

impl SM83 {
    pub open spec fn with_regs(self, regs: RegisterFile) -> SM83 {
        SM83 { registers: regs, ..self }
    }

    pub open spec fn with_pc(self, pc: u16) -> SM83 {
        self.with_regs(RegisterFile { pc, ..self.registers })
    }

    pub open spec fn with_sp(self, sp: u16) -> SM83 {
        self.with_regs(RegisterFile { sp, ..self.registers })
    }

    /// The byte at PC is read and PC moves past it.
    pub open spec fn spec_fetch_byte(self, mem: Seq<u8>) -> (SM83, u8) {
        (self.with_pc(wrap16(self.registers.pc + 1)), mem[self.registers.pc as int])
    }

    /// The little-endian word at PC is read and PC moves past it.
    pub open spec fn spec_fetch_word(self, mem: Seq<u8>) -> (SM83, u16) {
        let pc = self.registers.pc;
        (
            self.with_pc(wrap16(pc + 2)),
            word(mem[wrap16(pc + 1) as int], mem[pc as int]),
        )
    }

    /// SP moves down by two; the high byte lands at the higher address.
    pub open spec fn spec_push(self, mem: Seq<u8>, v: u16) -> (SM83, Seq<u8>) {
        let sp = self.registers.sp;
        (
            self.with_sp(wrap16(sp - 2)),
            mem.update(wrap16(sp - 1) as int, high_byte(v)).update(wrap16(sp - 2) as int, low_byte(v)),
        )
    }

    /// The word at SP is read, low byte first, and SP moves up by two.
    pub open spec fn spec_pop(self, mem: Seq<u8>) -> (SM83, u16) {
        let sp = self.registers.sp;
        (self.with_sp(wrap16(sp + 2)), word(mem[wrap16(sp + 1) as int], mem[sp as int]))
    }

    /// The return address (PC as it stands) is pushed and PC set to the target.
    pub open spec fn spec_call(self, mem: Seq<u8>, target: u16) -> (SM83, Seq<u8>) {
        let (c, m) = self.spec_push(mem, self.registers.pc);
        (c.with_pc(target), m)
    }

    /// PC is popped from the stack.
    pub open spec fn spec_ret(self, mem: Seq<u8>) -> SM83 {
        let (c, v) = self.spec_pop(mem);
        c.with_pc(v)
    }

    /// A core with every register zero, interrupts disabled, running.
    pub fn new() -> (r: SM83)
        ensures
            r.registers == RegisterFile::new_spec(),
            !r.ime && !r.ime_pending,
            r.state == CpuState::Running,
    {
        SM83 {
            registers: RegisterFile::new(),
            ime: false,
            ime_pending: false,
            state: CpuState::Running,
        }
    }

    pub fn condition(&self, cc: Condition) -> (r: bool)
        ensures
            r == spec_condition(self.registers.f, cc),
    {
        match cc {
            Condition::NotZero => !self.registers.f.zero,
            Condition::Zero => self.registers.f.zero,
            Condition::NotCarry => !self.registers.f.carry,
            Condition::Carry => self.registers.f.carry,
        }
    }

    pub fn fetch_byte(&mut self, mem: &MemoryMap) -> (r: u8)
        requires
            mem.wf(),
        ensures
            (*final(self), r) == old(self).spec_fetch_byte(mem@),
    {
        let address = self.registers.pc;
        let byte = mem.read_byte_at(address);
        self.registers.pc = address.wrapping_add(1);
        byte
    }

    pub fn fetch_word(&mut self, mem: &MemoryMap) -> (r: u16)
        requires
            mem.wf(),
        ensures
            (*final(self), r) == old(self).spec_fetch_word(mem@),
    {
        let low = self.fetch_byte(mem);
        let high = self.fetch_byte(mem);
        join_word(high, low)
    }

    pub fn push16(&mut self, mem: &mut MemoryMap, v: u16)
        requires
            old(mem).wf(),
        ensures
            final(mem).wf(),
            (*final(self), final(mem)@) == old(self).spec_push(old(mem)@, v),
    {
        let (high, low) = split_word(v);
        let sp = self.registers.sp.wrapping_sub(1);
        mem.write_byte_at(sp, high);
        let sp = sp.wrapping_sub(1);
        mem.write_byte_at(sp, low);
        self.registers.sp = sp;
    }

    pub fn pop16(&mut self, mem: &MemoryMap) -> (r: u16)
        requires
            mem.wf(),
        ensures
            (*final(self), r) == old(self).spec_pop(mem@),
    {
        let sp = self.registers.sp;
        let low = mem.read_byte_at(sp);
        let sp = sp.wrapping_add(1);
        let high = mem.read_byte_at(sp);
        self.registers.sp = sp.wrapping_add(1);
        join_word(high, low)
    }

    /// Pushes a register pair.
    pub fn push(&mut self, mem: &mut MemoryMap, reg: Reg16)
        requires
            old(mem).wf(),
        ensures
            final(mem).wf(),
            (*final(self), final(mem)@) == old(self).spec_push(
                old(mem)@,
                old(self).registers.spec_read16(reg),
            ),
    {
        let v = self.registers.read16(reg);
        self.push16(mem, v);
    }

    /// Pops into a register pair.
    pub fn pop(&mut self, mem: &MemoryMap, reg: Reg16)
        requires
            mem.wf(),
        ensures
            ({
                let (c, v) = old(self).spec_pop(mem@);
                *final(self) == c.with_regs(c.registers.spec_write16(reg, v))
            }),
    {
        let v = self.pop16(mem);
        self.registers.write16(reg, v);
    }

    pub fn call(&mut self, mem: &mut MemoryMap, target: u16)
        requires
            old(mem).wf(),
        ensures
            final(mem).wf(),
            (*final(self), final(mem)@) == old(self).spec_call(old(mem)@, target),
    {
        let pc = self.registers.pc;
        self.push16(mem, pc);
        self.registers.pc = target;
    }

    pub fn ret(&mut self, mem: &MemoryMap)
        requires
            mem.wf(),
        ensures
            *final(self) == old(self).spec_ret(mem@),
    {
        let v = self.pop16(mem);
        self.registers.pc = v;
    }

    /// Moves PC by a signed offset, relative to where PC stands.
    pub fn jump_relative(&mut self, offset: i8)
        ensures
            *final(self) == old(self).with_pc(wrap16(old(self).registers.pc + offset)),
    {
        let pc = self.registers.pc as i32 + offset as i32 + 0x10000;
        self.registers.pc = (pc % 0x10000) as u16;
    }
}

impl Default for SM83 {
    fn default() -> (r: SM83)
        ensures
            r == (SM83 {
                registers: RegisterFile::new_spec(),
                ime: false,
                ime_pending: false,
                state: CpuState::Running,
            }),
    {
        SM83::new()
    }
}

} // verus!
