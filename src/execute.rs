use vstd::prelude::*;

use crate::alu::{
    add16, add8, add_sp, and8, bit, daa, dec8, inc8, or8, reset_bit, rl, rlc, rr, rrc, set_bit,
    sla, spec_add8, spec_and8, spec_or8, spec_rl, spec_rlc, spec_rr, spec_rrc,
    spec_sla, spec_sra, spec_srl, spec_sub8, spec_swap, spec_xor8, sra, srl, sub8, swap, xor8,
};
use crate::cpu::{wrap16, Condition, CpuState, StepError, SM83};
use crate::flags::Flags;
use crate::memory::MemoryMap;
use crate::operand::{r_operand, spec_read_operand, spec_write_operand, Operand8};
use crate::registers::{split_word, Reg16, RegisterFile};
use crate::semantics::{
    spec_b3_z0, spec_b3_z1, spec_b3_z2, spec_b3_z3, spec_b3_z45, spec_b3_z67, spec_block0,
    spec_block12, spec_cb, spec_instruction,
};

verus! {

/// The opcodes that the hardware leaves undefined.
pub open spec fn is_illegal(opcode: u8) -> bool {
    opcode == 0xD3 || opcode == 0xDB || opcode == 0xDD || opcode == 0xE3 || opcode == 0xE4
        || opcode == 0xEB || opcode == 0xEC || opcode == 0xED || opcode == 0xF4 || opcode == 0xFC
        || opcode == 0xFD
}

/// The eight ALU operations on A, by the y field of the opcode: add, adc,
/// sub, sbc, and, xor, or, cp. The result is the new A (A itself for cp) and
/// the flags.
pub open spec fn spec_alu(y: u8, a: u8, v: u8, f: Flags) -> (u8, Flags) {
    if y == 0 {
        spec_add8(a, v, false)
    } else if y == 1 {
        spec_add8(a, v, f.carry)
    } else if y == 2 {
        spec_sub8(a, v, false)
    } else if y == 3 {
        spec_sub8(a, v, f.carry)
    } else if y == 4 {
        spec_and8(a, v)
    } else if y == 5 {
        spec_xor8(a, v)
    } else if y == 6 {
        spec_or8(a, v)
    } else {
        (a, spec_sub8(a, v, false).1)
    }
}

/// The eight rotates and shifts of the 0xCB table, by the y field: rlc, rrc,
/// rl, rr, sla, sra, swap, srl.
pub open spec fn spec_rotate(y: u8, v: u8, f: Flags) -> (u8, Flags) {
    if y == 0 {
        spec_rlc(v)
    } else if y == 1 {
        spec_rrc(v)
    } else if y == 2 {
        spec_rl(v, f)
    } else if y == 3 {
        spec_rr(v, f)
    } else if y == 4 {
        spec_sla(v)
    } else if y == 5 {
        spec_sra(v)
    } else if y == 6 {
        spec_swap(v)
    } else {
        spec_srl(v)
    }
}

/// The condition of the y field of a conditional branch (y < 4).
pub open spec fn spec_cc(y: u8) -> Condition {
    if y == 0 {
        Condition::NotZero
    } else if y == 1 {
        Condition::Zero
    } else if y == 2 {
        Condition::NotCarry
    } else {
        Condition::Carry
    }
}

/// The pair of the p field of push and pop: BC, DE, HL, AF.
pub open spec fn spec_rp2(p: u8) -> Reg16 {
    if p == 0 {
        Reg16::BC
    } else if p == 1 {
        Reg16::DE
    } else if p == 2 {
        Reg16::HL
    } else {
        Reg16::AF
    }
}

/// The 16-bit register of the p field of 16-bit loads and arithmetic: BC,
/// DE, HL, SP.
pub open spec fn spec_rp(p: u8) -> Reg16 {
    if p == 0 {
        Reg16::BC
    } else if p == 1 {
        Reg16::DE
    } else if p == 2 {
        Reg16::HL
    } else {
        Reg16::SP
    }
}

/// A word moved up or down by one, modulo 2^16.
fn step16(v: u16, up: bool) -> (r: u16)
    ensures
        r == (if up {
            wrap16(v + 1)
        } else {
            wrap16(v + 0xFFFF)
        }),
{
    if up {
        v.wrapping_add(1)
    } else {
        v.wrapping_sub(1)
    }
}

fn cc(y: u8) -> (r: Condition)
    requires
        y < 4,
    ensures
        r == spec_cc(y),
{
    match y {
        0 => Condition::NotZero,
        1 => Condition::Zero,
        2 => Condition::NotCarry,
        _ => Condition::Carry,
    }
}

fn rp(p: u8) -> (r: Reg16)
    requires
        p < 4,
    ensures
        r == spec_rp(p),
{
    match p {
        0 => Reg16::BC,
        1 => Reg16::DE,
        2 => Reg16::HL,
        _ => Reg16::SP,
    }
}

fn rp2(p: u8) -> (r: Reg16)
    requires
        p < 4,
    ensures
        r == spec_rp2(p),
{
    match p {
        0 => Reg16::BC,
        1 => Reg16::DE,
        2 => Reg16::HL,
        _ => Reg16::AF,
    }
}

/// The effect on the core of an ALU operation on A.
pub open spec fn spec_alu_a(cpu: SM83, y: u8, v: u8) -> SM83 {
    let (a, f) = spec_alu(y, cpu.registers.a, v, cpu.registers.f);
    cpu.with_regs(RegisterFile { a, f, ..cpu.registers })
}

/// The effect of a relative jump taken or not: PC is already past the
/// offset byte `d`.
pub open spec fn spec_jr(cpu: SM83, d: u8, taken: bool) -> SM83 {
    if taken {
        cpu.with_pc(wrap16(cpu.registers.pc + (d as i8)))
    } else {
        cpu
    }
}

/// The core after an instruction has completed: an `ei` pending when the
/// instruction began takes effect now, unless that instruction was `di`.
pub open spec fn spec_complete_ei(pending: bool, opcode: u8, cpu: SM83) -> SM83 {
    if pending && opcode != 0xF3 {
        SM83 { ime: true, ime_pending: false, ..cpu }
    } else {
        cpu
    }
}

/// What executing `opcode` does to a core and its memory, with PC standing
/// past the opcode byte: an undefined opcode fails and changes nothing; any
/// other succeeds with exactly the state and cycles of `spec_instruction`,
/// after which an `ei` pending from the instruction before takes effect.
pub open spec fn executes(
    cpu: SM83,
    mem: Seq<u8>,
    opcode: u8,
    cpu2: SM83,
    mem2: Seq<u8>,
    r: Result<u8, StepError>,
) -> bool {
    if is_illegal(opcode) {
        cpu2 == cpu && mem2 == mem && r == Err::<u8, StepError>(StepError::IllegalOpcode(opcode))
    } else {
        let (c, m, cycles) = spec_instruction(cpu, mem, opcode);
        r is Ok && cpu2 == spec_complete_ei(cpu.ime_pending, opcode, c) && mem2 == m && r->Ok_0
            == cycles
    }
}

/// The core as a step finds it once it goes on fetching: running.
pub open spec fn spec_resume(cpu: SM83) -> SM83 {
    SM83 { state: CpuState::Running, ..cpu }
}

/// What one step does to a core and its memory, given the vector of a
/// pending interrupt, if any (see `SM83::step`).
pub open spec fn steps(
    cpu: SM83,
    mem: Seq<u8>,
    interrupt: Option<u16>,
    cpu2: SM83,
    mem2: Seq<u8>,
    r: Result<u8, StepError>,
) -> bool {
    let serviced = interrupt is Some && cpu.ime;
    let awake = cpu.state == CpuState::Running || interrupt is Some;
    let (c1, opcode) = spec_resume(cpu).spec_fetch_byte(mem);
    if serviced {
        let c = SM83 { ime: false, ime_pending: false, state: CpuState::Running, ..cpu };
        (cpu2, mem2) == c.spec_call(mem, interrupt->Some_0) && r == Ok::<u8, StepError>(5)
    } else if !awake {
        cpu2 == cpu && mem2 == mem && r == Ok::<u8, StepError>(1)
    } else if is_illegal(opcode) {
        cpu2 == cpu && mem2 == mem && r == Err::<u8, StepError>(StepError::IllegalOpcode(opcode))
    } else {
        executes(c1, mem, opcode, cpu2, mem2, r)
    }
}

/// Whether the opcode byte is one of the undefined ones.
pub fn is_illegal_opcode(opcode: u8) -> (r: bool)
    ensures
        r == is_illegal(opcode),
{
    opcode == 0xD3 || opcode == 0xDB || opcode == 0xDD || opcode == 0xE3 || opcode == 0xE4
        || opcode == 0xEB || opcode == 0xEC || opcode == 0xED || opcode == 0xF4 || opcode == 0xFC
        || opcode == 0xFD
}

impl SM83 {
    fn set_flags(&mut self, f: Flags)
        ensures
            *final(self) == old(self).with_regs(RegisterFile { f, ..old(self).registers }),
    {
        self.registers.f = f;
    }

    /// Applies one of the eight ALU operations to A and `v`.
    pub fn alu_a(&mut self, y: u8, v: u8)
        requires
            y < 8,
        ensures
            *final(self) == spec_alu_a(*old(self), y, v),
    {
        let a = self.registers.a;
        let f = self.registers.f;
        let (r, nf) = match y {
            0 => add8(a, v, false),
            1 => add8(a, v, f.carry),
            2 => sub8(a, v, false),
            3 => sub8(a, v, f.carry),
            4 => and8(a, v),
            5 => xor8(a, v),
            6 => or8(a, v),
            _ => {
                let (_, nf) = sub8(a, v, false);
                (a, nf)
            },
        };
        self.registers.a = r;
        self.registers.f = nf;
    }

    /// Reads one operand, applies the 0xCB rotate or shift that `y` selects,
    /// and writes the result back.
    fn rotate_operand(&mut self, mem: &mut MemoryMap, y: u8, op: Operand8)
        requires
            old(mem).wf(),
            y < 8,
            op == Operand8::Mem(Reg16::HL) || op is Reg,
        ensures
            final(mem).wf(),
            ({
                let (c1, v) = spec_read_operand(*old(self), old(mem)@, op);
                let (r, f) = spec_rotate(y, v, c1.registers.f);
                let (c2, m2) = spec_write_operand(c1, old(mem)@, op, r);
                (*final(self), final(mem)@) == (c2.with_regs(RegisterFile { f, ..c2.registers }), m2)
            }),
    {
        let v = self.read_operand(mem, op);
        let f = self.registers.f;
        let (r, nf) = match y {
            0 => rlc(v),
            1 => rrc(v),
            2 => rl(v, f),
            3 => rr(v, f),
            4 => sla(v),
            5 => sra(v),
            6 => swap(v),
            _ => srl(v),
        };
        self.write_operand(mem, op, r);
        self.set_flags(nf);
    }

    /// Executes an opcode of 0x00..0x3F: relative jumps, 16-bit loads and
    /// arithmetic, 8-bit increments and loads, and the accumulator rotates
    /// and adjustments.
    fn execute_block0(&mut self, mem: &mut MemoryMap, opcode: u8) -> (r: u8)
        requires
            old(mem).wf(),
            opcode < 64,
        ensures
            final(mem).wf(),
            (*final(self), final(mem)@, r) == spec_block0(*old(self), old(mem)@, opcode),
    {
        let z = opcode % 8;
        if z == 0 {
            self.execute_b0_misc(mem, opcode)
        } else if z == 1 {
            self.execute_b0_wide(mem, opcode)
        } else if z == 2 {
            self.execute_b0_indirect(mem, opcode)
        } else if z == 3 {
            self.execute_b0_step16(mem, opcode)
        } else if z < 6 {
            self.execute_b0_step8(mem, opcode)
        } else if z == 6 {
            self.execute_b0_load_imm(mem, opcode)
        } else {
            self.execute_b0_accumulator(mem, opcode)
        }
    }

    /// Opcodes 0x00..0x3F with z field 0: nop, `ld (nn),sp`, stop and the relative jumps.
    #[verifier::rlimit(20)]
    fn execute_b0_misc(&mut self, mem: &mut MemoryMap, opcode: u8) -> (r: u8)
        requires
            old(mem).wf(),
            opcode < 64,
            opcode % 8 == 0,
        ensures
            final(mem).wf(),
            (*final(self), final(mem)@, r) == spec_block0(*old(self), old(mem)@, opcode),
    {
        let y = (opcode / 8) % 8;
        if y == 0 {
            1
        } else if y == 1 {
            let address = self.fetch_word(mem);
            let (high, low) = split_word(self.registers.sp);
            mem.write_byte_at(address, low);
            mem.write_byte_at(address.wrapping_add(1), high);
            5
        } else if y == 2 {
            self.fetch_byte(mem);
            self.state = CpuState::Stopped;
            1
        } else {
            let d = self.fetch_byte(mem);
            let taken = y == 3 || self.condition(cc(y - 4));
            if taken {
                self.jump_relative(d as i8);
                3
            } else {
                2
            }
        }
    }

    /// Opcodes 0x00..0x3F with z field 1: 16-bit immediate loads and `add hl,rr`.
    fn execute_b0_wide(&mut self, mem: &mut MemoryMap, opcode: u8) -> (r: u8)
        requires
            old(mem).wf(),
            opcode < 64,
            opcode % 8 == 1,
        ensures
            final(mem).wf(),
            (*final(self), final(mem)@, r) == spec_block0(*old(self), old(mem)@, opcode),
    {
        let y = (opcode / 8) % 8;
        let p = y / 2;
        let q = y % 2;
        if q == 0 {
            let nn = self.fetch_word(mem);
            self.registers.write16(rp(p), nn);
            3
        } else {
            let hl = self.registers.read16(Reg16::HL);
            let v = self.registers.read16(rp(p));
            let (sum, f) = add16(hl, v, self.registers.f);
            self.registers.write16(Reg16::HL, sum);
            self.set_flags(f);
            2
        }
    }

    /// Opcodes 0x00..0x3F with z field 2: loads of A through (BC), (DE), (HL+), (HL-).
    fn execute_b0_indirect(&mut self, mem: &mut MemoryMap, opcode: u8) -> (r: u8)
        requires
            old(mem).wf(),
            opcode < 64,
            opcode % 8 == 2,
        ensures
            final(mem).wf(),
            (*final(self), final(mem)@, r) == spec_block0(*old(self), old(mem)@, opcode),
    {
        let y = (opcode / 8) % 8;
        let p = y / 2;
        let q = y % 2;
        let op = match p {
            0 => Operand8::Mem(Reg16::BC),
            1 => Operand8::Mem(Reg16::DE),
            2 => Operand8::MemHlInc,
            _ => Operand8::MemHlDec,
        };
        if q == 0 {
            let a = self.registers.a;
            self.write_operand(mem, op, a);
        } else {
            let v = self.read_operand(mem, op);
            self.registers.a = v;
        }
        2
    }

    /// Opcodes 0x00..0x3F with z field 3: 16-bit increments and decrements.
    fn execute_b0_step16(&mut self, mem: &mut MemoryMap, opcode: u8) -> (r: u8)
        requires
            old(mem).wf(),
            opcode < 64,
            opcode % 8 == 3,
        ensures
            final(mem).wf(),
            (*final(self), final(mem)@, r) == spec_block0(*old(self), old(mem)@, opcode),
    {
        let y = (opcode / 8) % 8;
        let reg = rp(y / 2);
        let v = self.registers.read16(reg);
        let w = step16(v, y % 2 == 0);
        proof {
            let c = *old(self);
            assert(spec_block0(c, old(mem)@, opcode) == (
                c.with_regs(c.registers.spec_write16(reg, w)),
                old(mem)@,
                2u8,
            ));
        }
        self.registers.write16(reg, w);
        2
    }

    /// Opcodes 0x00..0x3F with z field 4 or 5: 8-bit increments and decrements.
    fn execute_b0_step8(&mut self, mem: &mut MemoryMap, opcode: u8) -> (r: u8)
        requires
            old(mem).wf(),
            opcode < 64,
            opcode % 8 == 4 || opcode % 8 == 5,
        ensures
            final(mem).wf(),
            (*final(self), final(mem)@, r) == spec_block0(*old(self), old(mem)@, opcode),
    {
        let y = (opcode / 8) % 8;
        let z = opcode % 8;
        let op = r_operand(y);
        let v = self.read_operand(mem, op);
        let (r, f) = if z == 4 {
            inc8(v, self.registers.f)
        } else {
            dec8(v, self.registers.f)
        };
        self.write_operand(mem, op, r);
        self.set_flags(f);
        if y == 6 {
            3
        } else {
            1
        }
    }

    /// Opcodes 0x00..0x3F with z field 6: 8-bit immediate loads.
    fn execute_b0_load_imm(&mut self, mem: &mut MemoryMap, opcode: u8) -> (r: u8)
        requires
            old(mem).wf(),
            opcode < 64,
            opcode % 8 == 6,
        ensures
            final(mem).wf(),
            (*final(self), final(mem)@, r) == spec_block0(*old(self), old(mem)@, opcode),
    {
        let y = (opcode / 8) % 8;
        let n = self.fetch_byte(mem);
        self.write_operand(mem, r_operand(y), n);
        if y == 6 {
            3
        } else {
            2
        }
    }

    /// Opcodes 0x00..0x3F with z field 7: the accumulator rotates, daa, cpl, scf, ccf.
    fn execute_b0_accumulator(&mut self, mem: &mut MemoryMap, opcode: u8) -> (r: u8)
        requires
            old(mem).wf(),
            opcode < 64,
            opcode % 8 == 7,
        ensures
            final(mem).wf(),
            (*final(self), final(mem)@, r) == spec_block0(*old(self), old(mem)@, opcode),
    {
        let y = (opcode / 8) % 8;
        let a = self.registers.a;
        let f = self.registers.f;
        if y < 4 {
            let (r, nf) = match y {
                0 => rlc(a),
                1 => rrc(a),
                2 => rl(a, f),
                _ => rr(a, f),
            };
            self.registers.a = r;
            self.set_flags(Flags::new(false, false, false, nf.carry));
        } else if y == 4 {
            let (r, nf) = daa(a, f);
            self.registers.a = r;
            self.set_flags(nf);
        } else if y == 5 {
            self.registers.a = !a;
            self.set_flags(Flags::new(f.zero, true, true, f.carry));
        } else if y == 6 {
            self.set_flags(Flags::new(f.zero, false, false, true));
        } else {
            self.set_flags(Flags::new(f.zero, false, false, !f.carry));
        }
        1
    }

    /// Executes an opcode of 0x40..0xBF: register-to-register loads, HALT
    /// at 0x76, and the ALU operations on A.
    fn execute_block12(&mut self, mem: &mut MemoryMap, opcode: u8) -> (r: u8)
        requires
            old(mem).wf(),
            64 <= opcode < 192,
        ensures
            final(mem).wf(),
            (*final(self), final(mem)@, r) == spec_block12(*old(self), old(mem)@, opcode),
    {
        let y = (opcode / 8) % 8;
        let z = opcode % 8;
        let cycles: u8 = if z == 6 || (opcode < 128 && y == 6) {
            2
        } else {
            1
        };
        if opcode == 0x76 {
            self.state = CpuState::Halted;
            1
        } else if opcode < 128 {
            let v = self.read_operand(mem, r_operand(z));
            self.write_operand(mem, r_operand(y), v);
            cycles
        } else {
            let v = self.read_operand(mem, r_operand(z));
            self.alu_a(y, v);
            cycles
        }
    }

    /// Opcodes 0xC0..0xFF with z field 0: conditional returns, high-page
    /// loads and stack-pointer arithmetic.
    fn execute_b3_z0(&mut self, mem: &mut MemoryMap, opcode: u8) -> (r: u8)
        requires
            old(mem).wf(),
            opcode >= 192,
            opcode % 8 == 0,
        ensures
            final(mem).wf(),
            (*final(self), final(mem)@, r) == spec_b3_z0(*old(self), old(mem)@, ((opcode / 8) % 8) as u8),
    {
        let y = (opcode / 8) % 8;
        if y < 4 {
            if self.condition(cc(y)) {
                self.ret(mem);
                5
            } else {
                2
            }
        } else if y == 4 {
            let a = self.registers.a;
            self.write_operand(mem, Operand8::HighImm, a);
            3
        } else if y == 6 {
            let v = self.read_operand(mem, Operand8::HighImm);
            self.registers.a = v;
            3
        } else {
            let d = self.fetch_byte(mem);
            let (sum, f) = add_sp(self.registers.sp, d as i8);
            self.set_flags(f);
            if y == 5 {
                self.registers.sp = sum;
                4
            } else {
                self.registers.write16(Reg16::HL, sum);
                3
            }
        }
    }

    /// Opcodes 0xC0..0xFF with z field 1: pop, ret, reti, `jp hl`,
    /// `ld sp,hl`.
    fn execute_b3_z1(&mut self, mem: &mut MemoryMap, opcode: u8) -> (r: u8)
        requires
            old(mem).wf(),
            opcode >= 192,
            opcode % 8 == 1,
        ensures
            final(mem).wf(),
            (*final(self), final(mem)@, r) == spec_b3_z1(*old(self), old(mem)@, ((opcode / 8) % 8) as u8),
    {
        let y = (opcode / 8) % 8;
        let p = y / 2;
        if y % 2 == 0 {
            self.pop(mem, rp2(p));
            3
        } else if p == 0 {
            self.ret(mem);
            4
        } else if p == 1 {
            self.ret(mem);
            self.ime = true;
            4
        } else if p == 2 {
            self.registers.pc = self.registers.read16(Reg16::HL);
            1
        } else {
            self.registers.sp = self.registers.read16(Reg16::HL);
            2
        }
    }

    /// Opcodes 0xC0..0xFF with z field 2: conditional absolute jumps and
    /// loads of A through (C) or an immediate address.
    fn execute_b3_z2(&mut self, mem: &mut MemoryMap, opcode: u8) -> (r: u8)
        requires
            old(mem).wf(),
            opcode >= 192,
            opcode % 8 == 2,
        ensures
            final(mem).wf(),
            (*final(self), final(mem)@, r) == spec_b3_z2(*old(self), old(mem)@, ((opcode / 8) % 8) as u8),
    {
        let y = (opcode / 8) % 8;
        if y < 4 {
            let nn = self.fetch_word(mem);
            if self.condition(cc(y)) {
                self.registers.pc = nn;
                4
            } else {
                3
            }
        } else {
            let op = if y % 2 == 0 {
                Operand8::HighC
            } else {
                Operand8::MemImm
            };
            if y < 6 {
                let a = self.registers.a;
                self.write_operand(mem, op, a);
            } else {
                let v = self.read_operand(mem, op);
                self.registers.a = v;
            }
            if y % 2 == 0 {
                2
            } else {
                4
            }
        }
    }

    /// Opcodes 0xC0..0xFF with z field 3: `jp nn`, the 0xCB prefix, di, ei,
    /// and four undefined opcodes.
    fn execute_b3_z3(&mut self, mem: &mut MemoryMap, opcode: u8) -> (r: Result<u8, StepError>)
        requires
            old(mem).wf(),
            opcode >= 192,
            opcode % 8 == 3,
        ensures
            final(mem).wf(),
            r is Err <==> is_illegal(opcode),
            r is Err ==> *final(self) == *old(self) && final(mem)@ == old(mem)@ && r == Err::<
                u8,
                StepError,
            >(StepError::IllegalOpcode(opcode)),
            r is Ok ==> (*final(self), final(mem)@, r->Ok_0) == spec_b3_z3(
                *old(self),
                old(mem)@,
                opcode,
            ),
    {
        if opcode == 0xC3 {
            let nn = self.fetch_word(mem);
            self.registers.pc = nn;
            Ok(4)
        } else if opcode == 0xCB {
            let cb = self.fetch_byte(mem);
            Ok(self.execute_cb(mem, cb))
        } else if opcode == 0xF3 {
            self.ime = false;
            self.ime_pending = false;
            Ok(1)
        } else if opcode == 0xFB {
            self.ime_pending = true;
            Ok(1)
        } else {
            Err(StepError::IllegalOpcode(opcode))
        }
    }

    /// Opcodes 0xC0..0xFF with z field 4 or 5: calls, push, and undefined
    /// opcodes.
    fn execute_b3_z45(&mut self, mem: &mut MemoryMap, opcode: u8) -> (r: Result<u8, StepError>)
        requires
            old(mem).wf(),
            opcode >= 192,
            opcode % 8 == 4 || opcode % 8 == 5,
        ensures
            final(mem).wf(),
            r is Err <==> is_illegal(opcode),
            r is Err ==> *final(self) == *old(self) && final(mem)@ == old(mem)@ && r == Err::<
                u8,
                StepError,
            >(StepError::IllegalOpcode(opcode)),
            r is Ok ==> (*final(self), final(mem)@, r->Ok_0) == spec_b3_z45(
                *old(self),
                old(mem)@,
                opcode,
            ),
    {
        let y = (opcode / 8) % 8;
        if opcode % 8 == 4 {
            if y < 4 {
                let nn = self.fetch_word(mem);
                if self.condition(cc(y)) {
                    self.call(mem, nn);
                    Ok(6)
                } else {
                    Ok(3)
                }
            } else {
                Err(StepError::IllegalOpcode(opcode))
            }
        } else if y % 2 == 0 {
            self.push(mem, rp2(y / 2));
            Ok(4)
        } else if opcode == 0xCD {
            let nn = self.fetch_word(mem);
            self.call(mem, nn);
            Ok(6)
        } else {
            Err(StepError::IllegalOpcode(opcode))
        }
    }

    /// Opcodes 0xC0..0xFF with z field 6 or 7: ALU operations on an
    /// immediate byte, and restarts.
    fn execute_b3_z67(&mut self, mem: &mut MemoryMap, opcode: u8) -> (r: u8)
        requires
            old(mem).wf(),
            opcode >= 192,
            opcode % 8 == 6 || opcode % 8 == 7,
        ensures
            final(mem).wf(),
            (*final(self), final(mem)@, r) == spec_b3_z67(*old(self), old(mem)@, opcode),
    {
        let y = (opcode / 8) % 8;
        if opcode % 8 == 6 {
            let n = self.fetch_byte(mem);
            self.alu_a(y, n);
            2
        } else {
            self.call(mem, (y as u16) * 8);
            4
        }
    }

    /// Executes one opcode whose byte was already fetched (PC stands past
    /// it), and returns the machine cycles that the instruction takes. An
    /// undefined opcode is an error and changes nothing.
    pub fn decode_execute(&mut self, mem: &mut MemoryMap, opcode: u8) -> (r: Result<u8, StepError>)
        requires
            old(mem).wf(),
        ensures
            final(mem).wf(),
            executes(*old(self), old(mem)@, opcode, *final(self), final(mem)@, r),
    {
        let pending = self.ime_pending;
        let r = self.dispatch(mem, opcode);
        if pending && r.is_ok() && opcode != 0xF3 {
            self.ime = true;
            self.ime_pending = false;
        }
        r
    }

    /// Executes one opcode, as `decode_execute` does, but for what a pending
    /// `ei` does once the instruction completes.
    fn dispatch(&mut self, mem: &mut MemoryMap, opcode: u8) -> (r: Result<u8, StepError>)
        requires
            old(mem).wf(),
        ensures
            final(mem).wf(),
            is_illegal(opcode) ==> *final(self) == *old(self) && final(mem)@ == old(mem)@ && r
                == Err::<u8, StepError>(StepError::IllegalOpcode(opcode)),
            !is_illegal(opcode) ==> r is Ok && (*final(self), final(mem)@, r->Ok_0)
                == spec_instruction(*old(self), old(mem)@, opcode),
    {
        if opcode < 64 {
            Ok(self.execute_block0(mem, opcode))
        } else if opcode < 192 {
            Ok(self.execute_block12(mem, opcode))
        } else {
            let z = opcode % 8;
            if z == 0 {
                Ok(self.execute_b3_z0(mem, opcode))
            } else if z == 1 {
                Ok(self.execute_b3_z1(mem, opcode))
            } else if z == 2 {
                Ok(self.execute_b3_z2(mem, opcode))
            } else if z == 3 {
                self.execute_b3_z3(mem, opcode)
            } else if z < 6 {
                self.execute_b3_z45(mem, opcode)
            } else {
                Ok(self.execute_b3_z67(mem, opcode))
            }
        }
    }

    /// Fetches the opcode at PC and executes it. An undefined opcode is
    /// reported before anything changes: PC stays on it.
    pub fn fetch_decode_execute(&mut self, mem: &mut MemoryMap) -> (r: Result<u8, StepError>)
        requires
            old(mem).wf(),
        ensures
            final(mem).wf(),
            ({
                let (c1, opcode) = old(self).spec_fetch_byte(old(mem)@);
                if is_illegal(opcode) {
                    *final(self) == *old(self) && final(mem)@ == old(mem)@ && r == Err::<
                        u8,
                        StepError,
                    >(StepError::IllegalOpcode(opcode))
                } else {
                    executes(c1, old(mem)@, opcode, *final(self), final(mem)@, r)
                }
            }),
    {
        let opcode = mem.read_byte_at(self.registers.pc);
        if is_illegal_opcode(opcode) {
            return Err(StepError::IllegalOpcode(opcode));
        }
        self.fetch_byte(mem);
        self.decode_execute(mem, opcode)
    }

    /// One step of the core. `interrupt` is the vector of an interrupt that
    /// the interrupt controller has pending, if any.
    ///
    /// With interrupts enabled a pending one is serviced: PC is pushed,
    /// interrupts are disabled and PC jumps to the vector, in 5 cycles.
    /// Otherwise a pending interrupt wakes a halted or stopped core, and a
    /// core that is still halted or stopped idles for 1 cycle. A running core
    /// then executes one instruction, as `fetch_decode_execute` does: an `ei`
    /// takes effect once the instruction after it completes, so the earliest
    /// interrupt it lets in is serviced in the step after that.
    /// When halt is entered with interrupts disabled the hardware fails to
    /// advance PC once after waking; this core advances it as usual.
    pub fn step(&mut self, mem: &mut MemoryMap, interrupt: Option<u16>) -> (r: Result<u8, StepError>)
        requires
            old(mem).wf(),
        ensures
            final(mem).wf(),
            steps(*old(self), old(mem)@, interrupt, *final(self), final(mem)@, r),
    {
        if let Some(vector) = interrupt {
            if self.ime {
                self.ime = false;
                self.ime_pending = false;
                self.state = CpuState::Running;
                self.call(mem, vector);
                return Ok(5);
            }
        }
        if self.state != CpuState::Running && interrupt.is_none() {
            return Ok(1);
        }
        let opcode = mem.read_byte_at(self.registers.pc);
        if is_illegal_opcode(opcode) {
            return Err(StepError::IllegalOpcode(opcode));
        }
        self.state = CpuState::Running;
        self.fetch_decode_execute(mem)
    }

    /// Executes an opcode of the 0xCB table; returns the machine cycles of
    /// the whole two-byte instruction.
    pub fn execute_cb(&mut self, mem: &mut MemoryMap, cb: u8) -> (r: u8)
        requires
            old(mem).wf(),
        ensures
            final(mem).wf(),
            (*final(self), final(mem)@, r) == spec_cb(*old(self), old(mem)@, cb),
    {
        let x = cb / 64;
        let y = (cb / 8) % 8;
        let z = cb % 8;
        let op = r_operand(z);
        match x {
            0 => self.rotate_operand(mem, y, op),
            1 => {
                let v = self.read_operand(mem, op);
                let f = bit(v, y, self.registers.f);
                self.set_flags(f);
            },
            2 => {
                let v = self.read_operand(mem, op);
                self.write_operand(mem, op, reset_bit(v, y));
            },
            _ => {
                let v = self.read_operand(mem, op);
                self.write_operand(mem, op, set_bit(v, y));
            },
        }
        if z == 6 {
            if x == 1 {
                3
            } else {
                4
            }
        } else {
            2
        }
    }
}

} // verus!
