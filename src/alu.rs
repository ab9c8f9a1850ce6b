use vstd::prelude::*;

use crate::flags::Flags;

verus! {

pub open spec fn carry_value(c: bool) -> int {
    if c {
        1
    } else {
        0
    }
}

/// `a + b + carry` on bytes: Half-Carry out of bit 3, Carry out of bit 7.
pub open spec fn spec_add8(a: u8, b: u8, carry: bool) -> (u8, Flags) {
    let sum = a + b + carry_value(carry);
    let r = (sum % 256) as u8;
    (
        r,
        Flags {
            zero: r == 0,
            subtract: false,
            half_carry: a % 16 + b % 16 + carry_value(carry) > 15,
            carry: sum > 255,
        },
    )
}

/// `a - b - carry` on bytes: Half-Carry on a borrow from bit 4, Carry on a
/// borrow from beyond bit 7.
pub open spec fn spec_sub8(a: u8, b: u8, carry: bool) -> (u8, Flags) {
    let diff = a - b - carry_value(carry);
    let r = ((diff + 256) % 256) as u8;
    (
        r,
        Flags {
            zero: r == 0,
            subtract: true,
            half_carry: a % 16 - b % 16 - carry_value(carry) < 0,
            carry: diff < 0,
        },
    )
}

pub open spec fn spec_and8(a: u8, b: u8) -> (u8, Flags) {
    (a & b, Flags { zero: a & b == 0, subtract: false, half_carry: true, carry: false })
}

pub open spec fn spec_or8(a: u8, b: u8) -> (u8, Flags) {
    (a | b, Flags { zero: a | b == 0, subtract: false, half_carry: false, carry: false })
}

pub open spec fn spec_xor8(a: u8, b: u8) -> (u8, Flags) {
    (a ^ b, Flags { zero: a ^ b == 0, subtract: false, half_carry: false, carry: false })
}

/// Increment: Carry is left as it was.
pub open spec fn spec_inc8(v: u8, f: Flags) -> (u8, Flags) {
    let r = ((v + 1) % 256) as u8;
    (r, Flags { zero: r == 0, subtract: false, half_carry: v % 16 == 15, carry: f.carry })
}

/// Decrement: Carry is left as it was.
pub open spec fn spec_dec8(v: u8, f: Flags) -> (u8, Flags) {
    let r = ((v + 255) % 256) as u8;
    (r, Flags { zero: r == 0, subtract: true, half_carry: v % 16 == 0, carry: f.carry })
}

/// The result of a rotate or shift, with the bit that went out as Carry.
pub open spec fn shifted(r: int, carry: bool) -> (u8, Flags) {
    (
        r as u8,
        Flags { zero: r as u8 == 0, subtract: false, half_carry: false, carry },
    )
}

/// Rotate left, bit 7 into bit 0 and into Carry.
pub open spec fn spec_rlc(v: u8) -> (u8, Flags) {
    shifted((v * 2) % 256 + v / 128, v >= 128)
}

/// Rotate right, bit 0 into bit 7 and into Carry.
pub open spec fn spec_rrc(v: u8) -> (u8, Flags) {
    shifted(v / 2 + (v % 2) * 128, v % 2 == 1)
}

/// Rotate left through Carry.
pub open spec fn spec_rl(v: u8, f: Flags) -> (u8, Flags) {
    shifted((v * 2) % 256 + carry_value(f.carry), v >= 128)
}

/// Rotate right through Carry.
pub open spec fn spec_rr(v: u8, f: Flags) -> (u8, Flags) {
    shifted(v / 2 + carry_value(f.carry) * 128, v % 2 == 1)
}

/// Shift left, bit 0 cleared.
pub open spec fn spec_sla(v: u8) -> (u8, Flags) {
    shifted((v * 2) % 256, v >= 128)
}

/// Shift right, bit 7 kept.
pub open spec fn spec_sra(v: u8) -> (u8, Flags) {
    shifted(v / 2 + (v / 128) * 128, v % 2 == 1)
}

/// Shift right, bit 7 cleared.
pub open spec fn spec_srl(v: u8) -> (u8, Flags) {
    shifted(v as int / 2, v % 2 == 1)
}

/// Exchange of the two nibbles; only Zero can be set.
pub open spec fn spec_swap(v: u8) -> (u8, Flags) {
    shifted((v % 16) * 16 + v / 16, false)
}

/// Whether bit `n` of `v` is set.
pub open spec fn bit_of(v: u8, n: u8) -> bool {
    (v >> n) & 1 == 1
}

/// `bit n`: Zero when the bit is clear, Subtract cleared, Half-Carry set,
/// Carry kept.
pub open spec fn spec_bit(v: u8, n: u8, f: Flags) -> Flags {
    Flags { zero: !bit_of(v, n), subtract: false, half_carry: true, carry: f.carry }
}

/// Decimal adjustment of A after a BCD addition or subtraction.
pub open spec fn spec_daa(a: u8, f: Flags) -> (u8, Flags) {
    if !f.subtract {
        let high = f.carry || a > 0x99;
        let low = f.half_carry || a % 16 > 9;
        let r = ((a + (if high { 0x60int } else { 0 }) + (if low { 6int } else { 0 })) % 256) as u8;
        (r, Flags { zero: r == 0, subtract: false, half_carry: false, carry: high })
    } else {
        let r = ((a + 256 - (if f.carry { 0x60int } else { 0 }) - (if f.half_carry {
            6int
        } else {
            0
        })) % 256) as u8;
        (r, Flags { zero: r == 0, subtract: true, half_carry: false, carry: f.carry })
    }
}

/// `add HL, rr`: Half-Carry out of bit 11, Carry out of bit 15, Zero kept.
pub open spec fn spec_add16(a: u16, b: u16, f: Flags) -> (u16, Flags) {
    let sum = a + b;
    (
        (sum % 65536) as u16,
        Flags {
            zero: f.zero,
            subtract: false,
            half_carry: a % 4096 + b % 4096 > 4095,
            carry: sum > 65535,
        },
    )
}

/// `sp + e` for a signed byte `e`: Zero cleared, Half-Carry and Carry out of
/// bits 3 and 7 of the low byte.
pub open spec fn spec_add_sp(sp: u16, e: i8) -> (u16, Flags) {
    let u = (e as int + 256) % 256;
    (
        ((sp + e + 65536) % 65536) as u16,
        Flags {
            zero: false,
            subtract: false,
            half_carry: sp % 16 + u % 16 > 15,
            carry: sp % 256 + u > 255,
        },
    )
}

pub fn add8(a: u8, b: u8, carry: bool) -> (r: (u8, Flags))
    ensures
        r == spec_add8(a, b, carry),
{
    let c: u16 = if carry { 1 } else { 0 };
    let sum: u16 = a as u16 + b as u16 + c;
    let r = (sum % 256) as u8;
    (r, Flags::new(r == 0, false, (a % 16) as u16 + (b % 16) as u16 + c > 15, sum > 255))
}

pub fn sub8(a: u8, b: u8, carry: bool) -> (r: (u8, Flags))
    ensures
        r == spec_sub8(a, b, carry),
{
    let c: u16 = if carry { 1 } else { 0 };
    let r = ((a as u16 + 256 - b as u16 - c) % 256) as u8;
    let half = ((a % 16) as u16) < (b % 16) as u16 + c;
    let borrow = (a as u16) < b as u16 + c;
    (r, Flags::new(r == 0, true, half, borrow))
}

pub fn and8(a: u8, b: u8) -> (r: (u8, Flags))
    ensures
        r == spec_and8(a, b),
{
    let r = a & b;
    (r, Flags::new(r == 0, false, true, false))
}

pub fn or8(a: u8, b: u8) -> (r: (u8, Flags))
    ensures
        r == spec_or8(a, b),
{
    let r = a | b;
    (r, Flags::new(r == 0, false, false, false))
}

pub fn xor8(a: u8, b: u8) -> (r: (u8, Flags))
    ensures
        r == spec_xor8(a, b),
{
    let r = a ^ b;
    (r, Flags::new(r == 0, false, false, false))
}

pub fn inc8(v: u8, f: Flags) -> (r: (u8, Flags))
    ensures
        r == spec_inc8(v, f),
{
    let r = ((v as u16 + 1) % 256) as u8;
    (r, Flags::new(r == 0, false, v % 16 == 15, f.carry))
}

pub fn dec8(v: u8, f: Flags) -> (r: (u8, Flags))
    ensures
        r == spec_dec8(v, f),
{
    let r = ((v as u16 + 255) % 256) as u8;
    (r, Flags::new(r == 0, true, v % 16 == 0, f.carry))
}

fn shift_result(r: u16, carry: bool) -> (out: (u8, Flags))
    requires
        r < 256,
    ensures
        out == shifted(r as int, carry),
{
    let v = r as u8;
    (v, Flags::new(v == 0, false, false, carry))
}

pub fn rlc(v: u8) -> (r: (u8, Flags))
    ensures
        r == spec_rlc(v),
{
    shift_result((v as u16 * 2) % 256 + v as u16 / 128, v >= 128)
}

pub fn rrc(v: u8) -> (r: (u8, Flags))
    ensures
        r == spec_rrc(v),
{
    shift_result(v as u16 / 2 + (v as u16 % 2) * 128, v % 2 == 1)
}

pub fn rl(v: u8, f: Flags) -> (r: (u8, Flags))
    ensures
        r == spec_rl(v, f),
{
    let c: u16 = if f.carry { 1 } else { 0 };
    shift_result((v as u16 * 2) % 256 + c, v >= 128)
}

pub fn rr(v: u8, f: Flags) -> (r: (u8, Flags))
    ensures
        r == spec_rr(v, f),
{
    let c: u16 = if f.carry { 1 } else { 0 };
    shift_result(v as u16 / 2 + c * 128, v % 2 == 1)
}

pub fn sla(v: u8) -> (r: (u8, Flags))
    ensures
        r == spec_sla(v),
{
    shift_result((v as u16 * 2) % 256, v >= 128)
}

pub fn sra(v: u8) -> (r: (u8, Flags))
    ensures
        r == spec_sra(v),
{
    shift_result(v as u16 / 2 + (v as u16 / 128) * 128, v % 2 == 1)
}

pub fn srl(v: u8) -> (r: (u8, Flags))
    ensures
        r == spec_srl(v),
{
    shift_result(v as u16 / 2, v % 2 == 1)
}

pub fn swap(v: u8) -> (r: (u8, Flags))
    ensures
        r == spec_swap(v),
{
    shift_result((v as u16 % 16) * 16 + v as u16 / 16, false)
}

pub fn bit(v: u8, n: u8, f: Flags) -> (r: Flags)
    requires
        n < 8,
    ensures
        r == spec_bit(v, n, f),
{
    Flags::new((v >> n) & 1 != 1, false, true, f.carry)
}

/// `v` with bit `n` set.
pub fn set_bit(v: u8, n: u8) -> (r: u8)
    requires
        n < 8,
    ensures
        r == v | (1u8 << n),
{
    v | (1u8 << n)
}

/// `v` with bit `n` cleared.
pub fn reset_bit(v: u8, n: u8) -> (r: u8)
    requires
        n < 8,
    ensures
        r == v & !(1u8 << n),
{
    v & !(1u8 << n)
}

pub fn daa(a: u8, f: Flags) -> (r: (u8, Flags))
    ensures
        r == spec_daa(a, f),
{
    if !f.subtract {
        let high = f.carry || a > 0x99;
        let low = f.half_carry || a % 16 > 9;
        let mut v: u16 = a as u16;
        if high {
            v = v + 0x60;
        }
        if low {
            v = v + 6;
        }
        let r = (v % 256) as u8;
        (r, Flags::new(r == 0, false, false, high))
    } else {
        let mut v: u16 = a as u16 + 256;
        if f.carry {
            v = v - 0x60;
        }
        if f.half_carry {
            v = v - 6;
        }
        let r = (v % 256) as u8;
        (r, Flags::new(r == 0, true, false, f.carry))
    }
}

pub fn add16(a: u16, b: u16, f: Flags) -> (r: (u16, Flags))
    ensures
        r == spec_add16(a, b, f),
{
    let sum: u32 = a as u32 + b as u32;
    let half = (a % 4096) as u32 + (b % 4096) as u32 > 4095;
    ((sum % 65536) as u16, Flags::new(f.zero, false, half, sum > 65535))
}

pub fn add_sp(sp: u16, e: i8) -> (r: (u16, Flags))
    ensures
        r == spec_add_sp(sp, e),
{
    let u: u32 = ((e as i32 + 256) % 256) as u32;
    let s: i32 = sp as i32 + e as i32 + 65536;
    let sum = (s % 65536) as u16;
    let half = (sp % 16) as u32 + u % 16 > 15;
    let carry = (sp % 256) as u32 + u > 255;
    (sum, Flags::new(false, false, half, carry))
}

} // verus!
