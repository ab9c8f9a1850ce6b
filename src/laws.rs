use vstd::prelude::*;

use crate::alu::{spec_add8, spec_bit};
use crate::cpu::{wrap16, StepError, SM83};
use crate::execute::{executes, is_illegal, spec_jr};
use crate::semantics::spec_instruction;
use crate::flags::Flags;
use crate::registers::Reg16;

verus! {

/// `add A,b` with A holding `a`: Zero exactly when `(a + b) mod 256` is 0,
/// Carry exactly when `a + b` exceeds 255, Half-Carry exactly when the low
/// nibbles sum past 0xF, and Subtract clear.
pub proof fn lemma_add_flags(a: u8, b: u8)
    ensures
        ({
            let (r, f) = spec_add8(a, b, false);
            &&& r as int == (a + b) % 256
            &&& f.zero == ((a + b) % 256 == 0)
            &&& f.carry == (a + b > 255)
            &&& f.half_carry == ((a & 0xF) + (b & 0xF) > 0xF)
            &&& !f.subtract
        }),
{
    assert(a & 0xF == a % 16) by (bit_vector);
    assert(b & 0xF == b % 16) by (bit_vector);
}

/// `add A,B` (0x80) run by the dispatcher leaves in A the sum modulo 256 and
/// sets the flags as `lemma_add_flags` states, in 1 cycle.
pub proof fn lemma_add_a_b_executes(
    cpu: SM83,
    mem: Seq<u8>,
    cpu2: SM83,
    mem2: Seq<u8>,
    r: Result<u8, StepError>,
)
    requires
        executes(cpu, mem, 0x80, cpu2, mem2, r),
    ensures
        ({
            let a = cpu.registers.a;
            let b = cpu.registers.b;
            let f = cpu2.registers.f;
            &&& cpu2.registers.a as int == (a + b) % 256
            &&& f.zero == ((a + b) % 256 == 0)
            &&& f.carry == (a + b > 255)
            &&& f.half_carry == ((a & 0xF) + (b & 0xF) > 0xF)
            &&& !f.subtract
        }),
        mem2 == mem,
        r == Ok::<u8, StepError>(1),
{
    lemma_add_flags(cpu.registers.a, cpu.registers.b);
}

/// `bit 7` of a byte: Zero exactly when the byte is below 0x80; Subtract
/// clear and Half-Carry set whatever the byte.
pub proof fn lemma_bit7(v: u8, f: Flags)
    ensures
        spec_bit(v, 7, f).zero == (v < 0x80),
        !spec_bit(v, 7, f).subtract,
        spec_bit(v, 7, f).half_carry,
        spec_bit(v, 7, f).carry == f.carry,
{
    assert(((v >> 7u8) & 1 == 1) == (v >= 0x80)) by (bit_vector);
}

/// `bit 7,A` (0xCB 0x7F) run by the dispatcher sets Zero exactly when A is
/// below 0x80, clears Subtract, sets Half-Carry, and takes 2 cycles.
pub proof fn lemma_bit7_a_executes(
    cpu: SM83,
    mem: Seq<u8>,
    cpu2: SM83,
    mem2: Seq<u8>,
    r: Result<u8, StepError>,
)
    requires
        mem.len() == 0x10000,
        mem[cpu.registers.pc as int] == 0xCB,
        mem[wrap16(cpu.registers.pc + 1) as int] == 0x7F,
        executes(cpu.spec_fetch_byte(mem).0, mem, 0xCB, cpu2, mem2, r),
    ensures
        cpu2.registers.f.zero == (cpu.registers.a < 0x80),
        !cpu2.registers.f.subtract,
        cpu2.registers.f.half_carry,
        cpu2.registers.a == cpu.registers.a,
        cpu2.registers.pc == wrap16(cpu.registers.pc + 2),
        mem2 == mem,
        r == Ok::<u8, StepError>(2),
{
    lemma_bit7(cpu.registers.a, cpu.registers.f);
}

/// `push BC` then `pop DE` leaves in DE what BC held, and SP where it was.
pub proof fn lemma_push_pop(
    cpu: SM83,
    mem: Seq<u8>,
    cpu1: SM83,
    mem1: Seq<u8>,
    r1: Result<u8, StepError>,
    cpu2: SM83,
    mem2: Seq<u8>,
    r2: Result<u8, StepError>,
)
    requires
        mem.len() == 0x10000,
        executes(cpu, mem, 0xC5, cpu1, mem1, r1),
        executes(cpu1, mem1, 0xD1, cpu2, mem2, r2),
    ensures
        cpu2.registers.spec_read16(Reg16::DE) == cpu.registers.spec_read16(Reg16::BC),
        cpu2.registers.sp == cpu.registers.sp,
        cpu2.registers.spec_read16(Reg16::BC) == cpu.registers.spec_read16(Reg16::BC),
        r1 == Ok::<u8, StepError>(4) && r2 == Ok::<u8, StepError>(3),
{
    let sp = cpu.registers.sp;
    assert(wrap16(sp - 2) as int != wrap16(sp - 1) as int);
    assert(wrap16(wrap16(sp - 2) + 1) == wrap16(sp - 1));
    assert(wrap16(wrap16(sp - 2) + 2) == sp);
}

/// A relative jump `jr NZ,d` always moves PC past its two bytes; when Zero
/// is set that is all, in 2 cycles; when it is clear PC moves on by the
/// signed offset, in 3 cycles.
pub proof fn lemma_jr_nz(
    cpu: SM83,
    mem: Seq<u8>,
    cpu2: SM83,
    mem2: Seq<u8>,
    r: Result<u8, StepError>,
)
    requires
        mem.len() == 0x10000,
        executes(cpu.spec_fetch_byte(mem).0, mem, 0x20, cpu2, mem2, r),
    ensures
        ({
            let pc = cpu.registers.pc;
            let d = mem[wrap16(pc + 1) as int];
            if cpu.registers.f.zero {
                cpu2.registers.pc == wrap16(pc + 2) && r == Ok::<u8, StepError>(2)
            } else {
                cpu2.registers.pc == wrap16(pc + 2 + (d as i8)) && r == Ok::<u8, StepError>(3)
            }
        }),
        cpu2.registers.sp == cpu.registers.sp,
        mem2 == mem,
{
    let pc = cpu.registers.pc;
    let c0 = cpu.spec_fetch_byte(mem).0;
    let (c1, d) = c0.spec_fetch_byte(mem);
    assert(d == mem[wrap16(pc + 1) as int]);
    let taken = !cpu.registers.f.zero;
    assert(spec_instruction(c0, mem, 0x20) == (spec_jr(c1, d, taken), mem, if taken {
        3u8
    } else {
        2u8
    }));
    lemma_wrap16_add(pc + 1, 1);
    lemma_wrap16_add(pc + 2, d as i8 as int);
}

/// Adding to an address already taken modulo 2^16 is adding to the
/// address.
pub proof fn lemma_wrap16_add(x: int, y: int)
    ensures
        wrap16(wrap16(x) + y) == wrap16(x + y),
{
    vstd::arithmetic::div_mod::lemma_add_mod_noop(x, y, 0x10000);
    vstd::arithmetic::div_mod::lemma_add_mod_noop(x % 0x10000, y, 0x10000);
    vstd::arithmetic::div_mod::lemma_mod_twice(x, 0x10000);
}

/// `call nn` followed by the `ret` found at `nn` brings PC back to the byte
/// after the call, and SP back where it was.
pub proof fn lemma_call_ret(
    cpu: SM83,
    mem: Seq<u8>,
    cpu1: SM83,
    mem1: Seq<u8>,
    r1: Result<u8, StepError>,
    cpu2: SM83,
    mem2: Seq<u8>,
    r2: Result<u8, StepError>,
)
    requires
        mem.len() == 0x10000,
        executes(cpu.spec_fetch_byte(mem).0, mem, 0xCD, cpu1, mem1, r1),
        cpu1.spec_fetch_byte(mem1).1 == 0xC9,
        executes(cpu1.spec_fetch_byte(mem1).0, mem1, 0xC9, cpu2, mem2, r2),
    ensures
        cpu1.registers.pc == cpu.spec_fetch_byte(mem).0.spec_fetch_word(mem).1,
        cpu2.registers.pc == wrap16(cpu.registers.pc + 3),
        cpu2.registers.sp == cpu.registers.sp,
        r1 == Ok::<u8, StepError>(6) && r2 == Ok::<u8, StepError>(4),
{
    let pc = cpu.registers.pc;
    let sp = cpu.registers.sp;
    let c0 = cpu.spec_fetch_byte(mem).0;
    let (c1a, nn) = c0.spec_fetch_word(mem);
    let ret = c1a.registers.pc;
    lemma_wrap16_add(pc + 1, 2);
    assert(ret == wrap16(pc + 3));
    let (cp, mp) = c1a.spec_push(mem, ret);
    assert(cpu1.registers == cp.with_pc(nn).registers && mem1 == mp);
    let sp1 = wrap16(sp - 2);
    assert(cpu1.registers.sp == sp1);
    lemma_wrap16_add(sp - 2, 1);
    lemma_wrap16_add(sp - 2, 2);
    assert(mem1[sp1 as int] == crate::registers::low_byte(ret));
    assert(mem1[wrap16(sp1 + 1) as int] == crate::registers::high_byte(ret));
    let c1b = cpu1.spec_fetch_byte(mem1).0;
    assert(cpu2.registers == c1b.spec_ret(mem1).registers);
}

/// `ei` enables interrupts once the instruction after it completes: right
/// after `ei` they are still disabled, and after any next instruction but
/// `di` they are enabled.
pub proof fn lemma_ei_delay(
    cpu: SM83,
    mem: Seq<u8>,
    cpu1: SM83,
    mem1: Seq<u8>,
    r1: Result<u8, StepError>,
    opcode: u8,
    cpu2: SM83,
    mem2: Seq<u8>,
    r2: Result<u8, StepError>,
)
    requires
        !cpu.ime,
        !cpu.ime_pending,
        executes(cpu, mem, 0xFB, cpu1, mem1, r1),
        opcode != 0xF3,
        !is_illegal(opcode),
        executes(cpu1.spec_fetch_byte(mem1).0, mem1, opcode, cpu2, mem2, r2),
    ensures
        !cpu1.ime,
        cpu2.ime,
        !cpu2.ime_pending,
{
}

/// An undefined opcode such as 0xED is reported as an error and changes
/// neither the core nor memory.
pub proof fn lemma_illegal_opcode(
    cpu: SM83,
    mem: Seq<u8>,
    cpu2: SM83,
    mem2: Seq<u8>,
    r: Result<u8, StepError>,
)
    requires
        executes(cpu, mem, 0xED, cpu2, mem2, r),
    ensures
        r == Err::<u8, StepError>(StepError::IllegalOpcode(0xED)),
        cpu2 == cpu,
        mem2 == mem,
{
}

} // verus!
