use vstd::prelude::*;

use crate::alu::{spec_add16, spec_add_sp, spec_bit, spec_daa, spec_dec8, spec_inc8, spec_rl, spec_rlc, spec_rr, spec_rrc};
use crate::cpu::{spec_condition, wrap16, CpuState, SM83};
use crate::execute::{spec_alu_a, spec_cc, spec_jr, spec_rotate, spec_rp, spec_rp2};
use crate::flags::Flags;
use crate::operand::{spec_r, spec_read_operand, spec_write_operand, Operand8};
use crate::registers::{high_byte, low_byte, Reg16, RegisterFile};

verus! {

/// The core with new flags.
pub open spec fn with_flags(cpu: SM83, f: Flags) -> SM83 {
    cpu.with_regs(RegisterFile { f, ..cpu.registers })
}

/// The core with a new A.
pub open spec fn with_a(cpu: SM83, a: u8) -> SM83 {
    cpu.with_regs(RegisterFile { a, ..cpu.registers })
}

/// An opcode of the 0xCB table, with PC past both bytes: the new core,
/// memory, and the cycles of the whole instruction.
pub open spec fn spec_cb(cpu: SM83, mem: Seq<u8>, cb: u8) -> (SM83, Seq<u8>, u8) {
    let x = cb / 64;
    let y = ((cb / 8) % 8) as u8;
    let op = spec_r(cb % 8);
    let cycles: u8 = if cb % 8 == 6 {
        if x == 1 {
            3
        } else {
            4
        }
    } else {
        2
    };
    let (c1, v) = spec_read_operand(cpu, mem, op);
    if x == 0 {
        let (r, f) = spec_rotate(y, v, c1.registers.f);
        let (c2, m2) = spec_write_operand(c1, mem, op, r);
        (with_flags(c2, f), m2, cycles)
    } else if x == 1 {
        (with_flags(c1, spec_bit(v, y, c1.registers.f)), mem, cycles)
    } else if x == 2 {
        let (c2, m2) = spec_write_operand(c1, mem, op, v & !(1u8 << y));
        (c2, m2, cycles)
    } else {
        let (c2, m2) = spec_write_operand(c1, mem, op, v | (1u8 << y));
        (c2, m2, cycles)
    }
}

/// The operand of `ld (rr),a` and `ld a,(rr)`: (BC), (DE), (HL+), (HL-).
pub open spec fn spec_indirect(p: u8) -> Operand8 {
    if p == 0 {
        Operand8::Mem(Reg16::BC)
    } else if p == 1 {
        Operand8::Mem(Reg16::DE)
    } else if p == 2 {
        Operand8::MemHlInc
    } else {
        Operand8::MemHlDec
    }
}

/// The accumulator operations of 0x07..0x3F with z field 7: rlca, rrca,
/// rla, rra (Zero cleared), daa, cpl, scf, ccf.
pub open spec fn spec_accumulator(y: u8, a: u8, f: Flags) -> (u8, Flags) {
    if y < 4 {
        let (r, nf) = if y == 0 {
            spec_rlc(a)
        } else if y == 1 {
            spec_rrc(a)
        } else if y == 2 {
            spec_rl(a, f)
        } else {
            spec_rr(a, f)
        };
        (r, Flags { zero: false, subtract: false, half_carry: false, carry: nf.carry })
    } else if y == 4 {
        spec_daa(a, f)
    } else if y == 5 {
        (!a, Flags { subtract: true, half_carry: true, ..f })
    } else if y == 6 {
        (a, Flags { subtract: false, half_carry: false, carry: true, ..f })
    } else {
        (a, Flags { subtract: false, half_carry: false, carry: !f.carry, ..f })
    }
}

/// An opcode of 0x00..0x3F, with PC past the opcode byte.
pub open spec fn spec_block0(cpu: SM83, mem: Seq<u8>, opcode: u8) -> (SM83, Seq<u8>, u8) {
    let y = ((opcode / 8) % 8) as u8;
    let z = opcode % 8;
    let p = (y / 2) as u8;
    let q = y % 2;
    let regs = cpu.registers;
    if z == 0 {
        if y == 0 {
            (cpu, mem, 1)
        } else if y == 1 {
            let (c1, a) = cpu.spec_fetch_word(mem);
            (
                c1,
                mem.update(a as int, low_byte(regs.sp)).update(
                    wrap16(a + 1) as int,
                    high_byte(regs.sp),
                ),
                5,
            )
        } else if y == 2 {
            let c1 = cpu.spec_fetch_byte(mem).0;
            (SM83 { state: CpuState::Stopped, ..c1 }, mem, 1)
        } else {
            let (c1, d) = cpu.spec_fetch_byte(mem);
            let taken = y == 3 || spec_condition(regs.f, spec_cc((y - 4) as u8));
            (spec_jr(c1, d, taken), mem, if taken { 3 } else { 2 })
        }
    } else if z == 1 {
        if q == 0 {
            let (c1, nn) = cpu.spec_fetch_word(mem);
            (c1.with_regs(c1.registers.spec_write16(spec_rp(p), nn)), mem, 3)
        } else {
            let (s, f) = spec_add16(
                regs.spec_read16(Reg16::HL),
                regs.spec_read16(spec_rp(p)),
                regs.f,
            );
            (with_flags(cpu.with_regs(regs.spec_write16(Reg16::HL, s)), f), mem, 2)
        }
    } else if z == 2 {
        let op = spec_indirect(p);
        if q == 0 {
            let (c2, m2) = spec_write_operand(cpu, mem, op, regs.a);
            (c2, m2, 2)
        } else {
            let (c1, v) = spec_read_operand(cpu, mem, op);
            (with_a(c1, v), mem, 2)
        }
    } else if z == 3 {
        let v = regs.spec_read16(spec_rp(p));
        let w = if q == 0 {
            wrap16(v + 1)
        } else {
            wrap16(v + 0xFFFF)
        };
        (cpu.with_regs(regs.spec_write16(spec_rp(p), w)), mem, 2)
    } else if z == 4 || z == 5 {
        let op = spec_r(y);
        let (c1, v) = spec_read_operand(cpu, mem, op);
        let (r, f) = if z == 4 {
            spec_inc8(v, c1.registers.f)
        } else {
            spec_dec8(v, c1.registers.f)
        };
        let (c2, m2) = spec_write_operand(c1, mem, op, r);
        (with_flags(c2, f), m2, if y == 6 { 3 } else { 1 })
    } else if z == 6 {
        let (c1, n) = cpu.spec_fetch_byte(mem);
        let (c2, m2) = spec_write_operand(c1, mem, spec_r(y), n);
        (c2, m2, if y == 6 { 3 } else { 2 })
    } else {
        let (a, f) = spec_accumulator(y, regs.a, regs.f);
        (with_flags(with_a(cpu, a), f), mem, 1)
    }
}

/// An opcode of 0x40..0xBF, with PC past the opcode byte: `ld r,r'`, halt,
/// and the ALU operations on A.
pub open spec fn spec_block12(cpu: SM83, mem: Seq<u8>, opcode: u8) -> (SM83, Seq<u8>, u8) {
    let y = ((opcode / 8) % 8) as u8;
    let z = opcode % 8;
    if opcode == 0x76 {
        (SM83 { state: CpuState::Halted, ..cpu }, mem, 1)
    } else if opcode < 128 {
        let (c1, v) = spec_read_operand(cpu, mem, spec_r(z));
        let (c2, m2) = spec_write_operand(c1, mem, spec_r(y), v);
        (c2, m2, if z == 6 || y == 6 { 2 } else { 1 })
    } else {
        let (c1, v) = spec_read_operand(cpu, mem, spec_r(z));
        (spec_alu_a(c1, y, v), mem, if z == 6 { 2 } else { 1 })
    }
}

/// Opcodes 0xC0..0xFF with z field 0: `ret cc`, `ldh (n),a`, `add sp,d`,
/// `ldh a,(n)`, `ld hl,sp+d`.
pub open spec fn spec_b3_z0(cpu: SM83, mem: Seq<u8>, y: u8) -> (SM83, Seq<u8>, u8) {
    let regs = cpu.registers;
    if y < 4 {
        if spec_condition(regs.f, spec_cc(y)) {
            (cpu.spec_ret(mem), mem, 5)
        } else {
            (cpu, mem, 2)
        }
    } else if y == 4 {
        let (c2, m2) = spec_write_operand(cpu, mem, Operand8::HighImm, regs.a);
        (c2, m2, 3)
    } else if y == 6 {
        let (c1, v) = spec_read_operand(cpu, mem, Operand8::HighImm);
        (with_a(c1, v), mem, 3)
    } else {
        let (c1, d) = cpu.spec_fetch_byte(mem);
        let (s, f) = spec_add_sp(regs.sp, d as i8);
        let c2 = with_flags(c1, f);
        if y == 5 {
            (c2.with_sp(s), mem, 4)
        } else {
            (c2.with_regs(c2.registers.spec_write16(Reg16::HL, s)), mem, 3)
        }
    }
}

/// Opcodes 0xC0..0xFF with z field 1: pop, ret, reti, `jp hl`, `ld sp,hl`.
pub open spec fn spec_b3_z1(cpu: SM83, mem: Seq<u8>, y: u8) -> (SM83, Seq<u8>, u8) {
    let p = (y / 2) as u8;
    let hl = cpu.registers.spec_read16(Reg16::HL);
    if y % 2 == 0 {
        let (c, v) = cpu.spec_pop(mem);
        (c.with_regs(c.registers.spec_write16(spec_rp2(p), v)), mem, 3)
    } else if p == 0 {
        (cpu.spec_ret(mem), mem, 4)
    } else if p == 1 {
        (SM83 { ime: true, ..cpu.spec_ret(mem) }, mem, 4)
    } else if p == 2 {
        (cpu.with_pc(hl), mem, 1)
    } else {
        (cpu.with_sp(hl), mem, 2)
    }
}

/// Opcodes 0xC0..0xFF with z field 2: `jp cc,nn`, `ld (c),a`, `ld (nn),a`,
/// `ld a,(c)`, `ld a,(nn)`.
pub open spec fn spec_b3_z2(cpu: SM83, mem: Seq<u8>, y: u8) -> (SM83, Seq<u8>, u8) {
    if y < 4 {
        let (c1, nn) = cpu.spec_fetch_word(mem);
        if spec_condition(cpu.registers.f, spec_cc(y)) {
            (c1.with_pc(nn), mem, 4)
        } else {
            (c1, mem, 3)
        }
    } else {
        let op = if y % 2 == 0 {
            Operand8::HighC
        } else {
            Operand8::MemImm
        };
        let cycles: u8 = if y % 2 == 0 {
            2
        } else {
            4
        };
        if y < 6 {
            let (c2, m2) = spec_write_operand(cpu, mem, op, cpu.registers.a);
            (c2, m2, cycles)
        } else {
            let (c1, v) = spec_read_operand(cpu, mem, op);
            (with_a(c1, v), mem, cycles)
        }
    }
}

/// Opcodes 0xC3, 0xCB, 0xF3, 0xFB: `jp nn`, the 0xCB table, di, ei.
pub open spec fn spec_b3_z3(cpu: SM83, mem: Seq<u8>, opcode: u8) -> (SM83, Seq<u8>, u8) {
    if opcode == 0xC3 {
        let (c1, nn) = cpu.spec_fetch_word(mem);
        (c1.with_pc(nn), mem, 4)
    } else if opcode == 0xCB {
        let (c1, cb) = cpu.spec_fetch_byte(mem);
        spec_cb(c1, mem, cb)
    } else if opcode == 0xF3 {
        (SM83 { ime: false, ime_pending: false, ..cpu }, mem, 1)
    } else {
        (SM83 { ime_pending: true, ..cpu }, mem, 1)
    }
}

/// Opcodes 0xC0..0xFF with z field 4 or 5: `call cc,nn`, push, `call nn`.
pub open spec fn spec_b3_z45(cpu: SM83, mem: Seq<u8>, opcode: u8) -> (SM83, Seq<u8>, u8) {
    let y = ((opcode / 8) % 8) as u8;
    if opcode % 8 == 4 {
        let (c1, nn) = cpu.spec_fetch_word(mem);
        if spec_condition(cpu.registers.f, spec_cc(y)) {
            let (c2, m2) = c1.spec_call(mem, nn);
            (c2, m2, 6)
        } else {
            (c1, mem, 3)
        }
    } else if y % 2 == 0 {
        let (c2, m2) = cpu.spec_push(mem, cpu.registers.spec_read16(spec_rp2((y / 2) as u8)));
        (c2, m2, 4)
    } else {
        let (c1, nn) = cpu.spec_fetch_word(mem);
        let (c2, m2) = c1.spec_call(mem, nn);
        (c2, m2, 6)
    }
}

/// Opcodes 0xC0..0xFF with z field 6 or 7: ALU operations with an
/// immediate byte, and `rst`.
pub open spec fn spec_b3_z67(cpu: SM83, mem: Seq<u8>, opcode: u8) -> (SM83, Seq<u8>, u8) {
    let y = ((opcode / 8) % 8) as u8;
    if opcode % 8 == 6 {
        let (c1, n) = cpu.spec_fetch_byte(mem);
        (spec_alu_a(c1, y, n), mem, 2)
    } else {
        let (c2, m2) = cpu.spec_call(mem, (y * 8) as u16);
        (c2, m2, 4)
    }
}

/// An opcode of 0xC0..0xFF that is not undefined, with PC past the opcode
/// byte.
pub open spec fn spec_block3(cpu: SM83, mem: Seq<u8>, opcode: u8) -> (SM83, Seq<u8>, u8) {
    let y = ((opcode / 8) % 8) as u8;
    let z = opcode % 8;
    if z == 0 {
        spec_b3_z0(cpu, mem, y)
    } else if z == 1 {
        spec_b3_z1(cpu, mem, y)
    } else if z == 2 {
        spec_b3_z2(cpu, mem, y)
    } else if z == 3 {
        spec_b3_z3(cpu, mem, opcode)
    } else if z < 6 {
        spec_b3_z45(cpu, mem, opcode)
    } else {
        spec_b3_z67(cpu, mem, opcode)
    }
}

/// What an opcode that is not undefined does, with PC past the opcode byte:
/// the new core, the new memory, and the machine cycles taken.
pub open spec fn spec_instruction(cpu: SM83, mem: Seq<u8>, opcode: u8) -> (SM83, Seq<u8>, u8) {
    if opcode < 64 {
        spec_block0(cpu, mem, opcode)
    } else if opcode < 192 {
        spec_block12(cpu, mem, opcode)
    } else {
        spec_block3(cpu, mem, opcode)
    }
}

} // verus!
