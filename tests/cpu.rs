use sm83::alu;
use sm83::cpu::{CpuState, StepError, SM83};
use sm83::flags::{Flag, Flags};
use sm83::memory::MemoryMap;
use sm83::motherboard::Motherboard;
use sm83::registers::{Reg16, Reg8, RegisterFile};

fn board_with(at: u16, program: &[u8]) -> Motherboard {
    let mut mb = Motherboard::new();
    for (i, b) in program.iter().enumerate() {
        mb.memory_map.write_byte_at(at.wrapping_add(i as u16), *b);
    }
    mb.cpu.registers.pc = at;
    mb.cpu.registers.sp = 0xFFFE;
    mb
}

#[test]
fn we_can_instantiate_cpu() {
    let cpu = SM83::default();
    assert_eq!(cpu.registers.pc, 0);
    assert_eq!(cpu.state, CpuState::Running);
}

#[test]
fn f_low_nibble_always_reads_zero() {
    let mut rf = RegisterFile::new();
    for v in 0..=255u8 {
        rf.write8(Reg8::F, v);
        assert_eq!(rf.read8(Reg8::F), v & 0xF0);
        assert_eq!(rf.read8(Reg8::F) & 0x0F, 0);
        rf.write16(Reg16::AF, 0x1200 | v as u16);
        assert_eq!(rf.read16(Reg16::AF), 0x1200 | (v & 0xF0) as u16);
        assert_eq!(rf.read8(Reg8::A), 0x12);
        assert_eq!(rf.read8(Reg8::F) & 0x0F, 0);
    }
}

#[test]
fn pairs_round_trip() {
    let mut rf = RegisterFile::new();
    for reg in [Reg16::BC, Reg16::DE, Reg16::HL, Reg16::SP] {
        for x in (0..=0xFFFFu32).step_by(7).chain([0xFFFF, 0x1234, 0x00FF, 0xFF00]) {
            rf.write16(reg, x as u16);
            assert_eq!(rf.read16(reg), x as u16);
        }
    }
    rf.write16(Reg16::BC, 0xBEEF);
    assert_eq!(rf.read8(Reg8::B), 0xBE);
    assert_eq!(rf.read8(Reg8::C), 0xEF);
    rf.write16(Reg16::HL, 0x8001);
    assert_eq!(rf.h, 0x80);
    assert_eq!(rf.l, 0x01);
}

#[test]
fn add_flags_for_every_pair() {
    let mut mb = board_with(0, &[0x80]);
    for a in 0..=255u8 {
        for b in 0..=255u8 {
            mb.cpu.registers.pc = 0;
            mb.cpu.registers.a = a;
            mb.cpu.registers.b = b;
            assert_eq!(mb.step(None), Ok(1));
            let f = mb.cpu.registers.f;
            let sum = a as u16 + b as u16;
            assert_eq!(mb.cpu.registers.a, (sum % 256) as u8);
            assert_eq!(f.zero, sum % 256 == 0);
            assert_eq!(f.carry, sum > 255);
            assert_eq!(f.half_carry, (a & 0xF) + (b & 0xF) > 0xF);
            assert!(!f.subtract);
        }
    }
}

#[test]
fn push_bc_pop_de() {
    let mut mb = board_with(0x0100, &[0xC5, 0xD1]);
    mb.cpu.registers.write16(Reg16::BC, 0xBEEF);
    assert_eq!(mb.step(None), Ok(4));
    assert_eq!(mb.cpu.registers.sp, 0xFFFC);
    assert_eq!(mb.memory_map.read_byte_at(0xFFFD), 0xBE);
    assert_eq!(mb.memory_map.read_byte_at(0xFFFC), 0xEF);
    assert_eq!(mb.step(None), Ok(3));
    assert_eq!(mb.cpu.registers.read16(Reg16::DE), 0xBEEF);
    assert_eq!(mb.cpu.registers.sp, 0xFFFE);
    assert_eq!(mb.cpu.registers.pc, 0x0102);
}

#[test]
fn pop_af_masks_flags() {
    let mut mb = board_with(0x0100, &[0xC5, 0xF1]);
    mb.cpu.registers.write16(Reg16::BC, 0x12FF);
    mb.step(None).unwrap();
    mb.step(None).unwrap();
    assert_eq!(mb.cpu.registers.read16(Reg16::AF), 0x12F0);
}

#[test]
fn bit7_of_a() {
    for (a, zero) in [(0x80u8, false), (0x7F, true), (0xFF, false), (0x00, true)] {
        let mut mb = board_with(0x0100, &[0xCB, 0x7F]);
        mb.cpu.registers.a = a;
        mb.cpu.registers.f = Flags::new(!zero, true, false, true);
        assert_eq!(mb.step(None), Ok(2));
        let f = mb.cpu.registers.f;
        assert_eq!(f.zero, zero);
        assert!(!f.subtract);
        assert!(f.half_carry);
        assert!(f.carry);
        assert_eq!(mb.cpu.registers.a, a);
        assert_eq!(mb.cpu.registers.pc, 0x0102);
    }
}

#[test]
fn jr_nz_not_taken_and_taken() {
    let mut mb = board_with(0x0200, &[0x20, 0x05]);
    mb.cpu.registers.f.zero = true;
    assert_eq!(mb.step(None), Ok(2));
    assert_eq!(mb.cpu.registers.pc, 0x0202);

    let mut mb = board_with(0x0200, &[0x20, 0x05]);
    mb.cpu.registers.f.zero = false;
    assert_eq!(mb.step(None), Ok(3));
    assert_eq!(mb.cpu.registers.pc, 0x0207);

    let mut mb = board_with(0x0200, &[0x20, 0xFB]);
    assert_eq!(mb.step(None), Ok(3));
    assert_eq!(mb.cpu.registers.pc, 0x01FD);
}

#[test]
fn call_then_ret() {
    let mut mb = board_with(0x0100, &[0xCD, 0x50, 0x01]);
    mb.memory_map.write_byte_at(0x0150, 0xC9);
    assert_eq!(mb.step(None), Ok(6));
    assert_eq!(mb.cpu.registers.pc, 0x0150);
    assert_eq!(mb.cpu.registers.sp, 0xFFFC);
    assert_eq!(mb.memory_map.read_byte_at(0xFFFD), 0x01);
    assert_eq!(mb.memory_map.read_byte_at(0xFFFC), 0x03);
    assert_eq!(mb.step(None), Ok(4));
    assert_eq!(mb.cpu.registers.pc, 0x0103);
    assert_eq!(mb.cpu.registers.sp, 0xFFFE);
}

#[test]
fn illegal_opcode_changes_nothing() {
    let mut mb = board_with(0x0100, &[0xED]);
    mb.cpu.registers.a = 0x42;
    let before = mb.cpu;
    assert_eq!(mb.step(None), Err(StepError::IllegalOpcode(0xED)));
    assert_eq!(mb.cpu, before);
    assert_eq!(mb.memory_map.read_byte_at(0x0100), 0xED);
    assert_eq!(mb.memory_map.read_byte_at(0xFFFD), 0);
}

#[test]
fn only_the_undefined_opcodes_fail() {
    let illegal = [0xD3u8, 0xDB, 0xDD, 0xE3, 0xE4, 0xEB, 0xEC, 0xED, 0xF4, 0xFC, 0xFD];
    for op in 0..=255u8 {
        let mut cpu = SM83::new();
        let mut mem = MemoryMap::new();
        cpu.registers.sp = 0xFFFE;
        let r = cpu.decode_execute(&mut mem, op);
        if illegal.contains(&op) {
            assert_eq!(r, Err(StepError::IllegalOpcode(op)));
        } else {
            let cycles = r.unwrap();
            assert!((1..=6).contains(&cycles));
        }
    }
}

#[test]
fn alu_arithmetic() {
    assert_eq!(alu::sub8(0x3E, 0x3E, false), (0x00, Flags::new(true, true, false, false)));
    assert_eq!(alu::sub8(0x10, 0x01, false), (0x0F, Flags::new(false, true, true, false)));
    assert_eq!(alu::sub8(0x00, 0x01, false), (0xFF, Flags::new(false, true, true, true)));
    assert_eq!(alu::sub8(0x05, 0x04, true), (0x00, Flags::new(true, true, false, false)));
    assert_eq!(alu::add8(0xFF, 0x00, true), (0x00, Flags::new(true, false, true, true)));
    assert_eq!(alu::add8(0x0E, 0x01, true), (0x10, Flags::new(false, false, true, false)));
    assert_eq!(alu::and8(0xF0, 0x0F), (0x00, Flags::new(true, false, true, false)));
    assert_eq!(alu::or8(0xF0, 0x0F), (0xFF, Flags::new(false, false, false, false)));
    assert_eq!(alu::xor8(0xAA, 0xAA), (0x00, Flags::new(true, false, false, false)));
    let carry = Flags::new(false, false, false, true);
    assert_eq!(alu::inc8(0xFF, carry), (0x00, Flags::new(true, false, true, true)));
    assert_eq!(alu::inc8(0x0E, Flags::empty()), (0x0F, Flags::new(false, false, false, false)));
    assert_eq!(alu::dec8(0x10, carry), (0x0F, Flags::new(false, true, true, true)));
    assert_eq!(alu::dec8(0x01, Flags::empty()), (0x00, Flags::new(true, true, false, false)));
    assert_eq!(alu::dec8(0x00, Flags::empty()), (0xFF, Flags::new(false, true, true, false)));
}

#[test]
fn alu_rotates_and_shifts() {
    let none = Flags::empty();
    let carry = Flags::new(false, false, false, true);
    assert_eq!(alu::rlc(0x85), (0x0B, Flags::new(false, false, false, true)));
    assert_eq!(alu::rrc(0x01), (0x80, Flags::new(false, false, false, true)));
    assert_eq!(alu::rl(0x80, none), (0x00, Flags::new(true, false, false, true)));
    assert_eq!(alu::rl(0x11, carry), (0x23, Flags::new(false, false, false, false)));
    assert_eq!(alu::rr(0x01, carry), (0x80, Flags::new(false, false, false, true)));
    assert_eq!(alu::sla(0xFF), (0xFE, Flags::new(false, false, false, true)));
    assert_eq!(alu::sra(0x8A), (0xC5, Flags::new(false, false, false, false)));
    assert_eq!(alu::srl(0x01), (0x00, Flags::new(true, false, false, true)));
    assert_eq!(alu::swap(0xF0), (0x0F, Flags::new(false, false, false, false)));
    assert_eq!(alu::swap(0x00), (0x00, Flags::new(true, false, false, false)));
    assert_eq!(alu::set_bit(0x00, 3), 0x08);
    assert_eq!(alu::reset_bit(0xFF, 7), 0x7F);
    assert_eq!(alu::bit(0x08, 3, carry), Flags::new(false, false, true, true));
}

#[test]
fn accumulator_rotates_clear_zero() {
    let mut mb = board_with(0x0100, &[0x07]);
    mb.cpu.registers.a = 0x00;
    mb.cpu.registers.f.zero = true;
    assert_eq!(mb.step(None), Ok(1));
    assert_eq!(mb.cpu.registers.a, 0x00);
    assert!(!mb.cpu.registers.f.zero);
}

#[test]
fn daa_after_add_and_sub() {
    let mut mb = board_with(0x0100, &[0x3E, 0x45, 0xC6, 0x38, 0x27]);
    mb.step(None).unwrap();
    mb.step(None).unwrap();
    assert_eq!(mb.cpu.registers.a, 0x7D);
    mb.step(None).unwrap();
    assert_eq!(mb.cpu.registers.a, 0x83);
    assert!(!mb.cpu.registers.f.carry);

    let mut mb = board_with(0x0100, &[0x3E, 0x83, 0xD6, 0x38, 0x27]);
    mb.step(None).unwrap();
    mb.step(None).unwrap();
    mb.step(None).unwrap();
    assert_eq!(mb.cpu.registers.a, 0x45);
    assert!(mb.cpu.registers.f.subtract);

    assert_eq!(alu::daa(0x9A, Flags::empty()), (0x00, Flags::new(true, false, false, true)));
}

#[test]
fn sixteen_bit_arithmetic() {
    let mut mb = board_with(0x0100, &[0x09]);
    mb.cpu.registers.write16(Reg16::HL, 0x0FFF);
    mb.cpu.registers.write16(Reg16::BC, 0x0001);
    mb.cpu.registers.f.zero = true;
    assert_eq!(mb.step(None), Ok(2));
    assert_eq!(mb.cpu.registers.read16(Reg16::HL), 0x1000);
    assert_eq!(mb.cpu.registers.f, Flags::new(true, false, true, false));

    assert_eq!(alu::add16(0xFFFF, 0x0001, Flags::empty()), (0x0000, Flags::new(false, false, true, true)));
    assert_eq!(alu::add_sp(0xFFF8, 8), (0x0000, Flags::new(false, false, true, true)));
    assert_eq!(alu::add_sp(0x0000, -1), (0xFFFF, Flags::new(false, false, false, false)));
    assert_eq!(alu::add_sp(0x00FF, 1), (0x0100, Flags::new(false, false, true, true)));

    let mut mb = board_with(0x0100, &[0xE8, 0x08, 0xF8, 0xFE, 0x03, 0x0B]);
    mb.cpu.registers.sp = 0xFFF8;
    assert_eq!(mb.step(None), Ok(4));
    assert_eq!(mb.cpu.registers.sp, 0x0000);
    assert_eq!(mb.step(None), Ok(3));
    assert_eq!(mb.cpu.registers.read16(Reg16::HL), 0xFFFE);
    assert_eq!(mb.cpu.registers.sp, 0x0000);
    mb.cpu.registers.write16(Reg16::BC, 0xFFFF);
    assert_eq!(mb.step(None), Ok(2));
    assert_eq!(mb.cpu.registers.read16(Reg16::BC), 0x0000);
    assert_eq!(mb.step(None), Ok(2));
    assert_eq!(mb.cpu.registers.read16(Reg16::BC), 0xFFFF);
}

#[test]
fn loads_through_hl_and_high_page() {
    let mut mb = board_with(0x0100, &[0x22, 0x3A, 0xE0, 0x80, 0xF0, 0x81, 0x36, 0x99, 0x46]);
    mb.cpu.registers.write16(Reg16::HL, 0xC000);
    mb.cpu.registers.a = 0x5A;
    assert_eq!(mb.step(None), Ok(2));
    assert_eq!(mb.memory_map.read_byte_at(0xC000), 0x5A);
    assert_eq!(mb.cpu.registers.read16(Reg16::HL), 0xC001);
    mb.memory_map.write_byte_at(0xC001, 0x77);
    assert_eq!(mb.step(None), Ok(2));
    assert_eq!(mb.cpu.registers.a, 0x77);
    assert_eq!(mb.cpu.registers.read16(Reg16::HL), 0xC000);
    assert_eq!(mb.step(None), Ok(3));
    assert_eq!(mb.memory_map.read_byte_at(0xFF80), 0x77);
    mb.memory_map.write_byte_at(0xFF81, 0x33);
    assert_eq!(mb.step(None), Ok(3));
    assert_eq!(mb.cpu.registers.a, 0x33);
    assert_eq!(mb.step(None), Ok(3));
    assert_eq!(mb.memory_map.read_byte_at(0xC000), 0x99);
    assert_eq!(mb.step(None), Ok(2));
    assert_eq!(mb.cpu.registers.b, 0x99);
}

#[test]
fn absolute_loads_and_sp_store() {
    let mut mb = board_with(0x0100, &[0xEA, 0x00, 0xD0, 0xFA, 0x01, 0xD0, 0x08, 0x10, 0xD0]);
    mb.cpu.registers.a = 0xAB;
    assert_eq!(mb.step(None), Ok(4));
    assert_eq!(mb.memory_map.read_byte_at(0xD000), 0xAB);
    mb.memory_map.write_byte_at(0xD001, 0xCD);
    assert_eq!(mb.step(None), Ok(4));
    assert_eq!(mb.cpu.registers.a, 0xCD);
    mb.cpu.registers.sp = 0x1234;
    assert_eq!(mb.step(None), Ok(5));
    assert_eq!(mb.memory_map.read_byte_at(0xD010), 0x34);
    assert_eq!(mb.memory_map.read_byte_at(0xD011), 0x12);
}

#[test]
fn jumps_restarts_and_conditional_returns() {
    let mut mb = board_with(0x0100, &[0xC3, 0x00, 0x02]);
    assert_eq!(mb.step(None), Ok(4));
    assert_eq!(mb.cpu.registers.pc, 0x0200);

    let mut mb = board_with(0x0100, &[0xCA, 0x00, 0x02]);
    assert_eq!(mb.step(None), Ok(3));
    assert_eq!(mb.cpu.registers.pc, 0x0103);

    let mut mb = board_with(0x0100, &[0xFF]);
    assert_eq!(mb.step(None), Ok(4));
    assert_eq!(mb.cpu.registers.pc, 0x0038);
    assert_eq!(mb.cpu.registers.sp, 0xFFFC);

    let mut mb = board_with(0x0100, &[0xC0]);
    mb.cpu.registers.f.zero = true;
    assert_eq!(mb.step(None), Ok(2));
    assert_eq!(mb.cpu.registers.pc, 0x0101);

    let mut mb = board_with(0x0100, &[0xDC, 0x00, 0x03]);
    assert_eq!(mb.step(None), Ok(3));
    assert_eq!(mb.cpu.registers.sp, 0xFFFE);

    let mut mb = board_with(0x0100, &[0xE9]);
    mb.cpu.registers.write16(Reg16::HL, 0x4000);
    assert_eq!(mb.step(None), Ok(1));
    assert_eq!(mb.cpu.registers.pc, 0x4000);
}

#[test]
fn cb_prefixed_operations() {
    let mut mb = board_with(0x0100, &[0xCB, 0xC7, 0xCB, 0x87, 0xCB, 0x46, 0xCB, 0x06, 0xCB, 0x37]);
    mb.cpu.registers.a = 0x10;
    assert_eq!(mb.step(None), Ok(2));
    assert_eq!(mb.cpu.registers.a, 0x11);
    assert_eq!(mb.step(None), Ok(2));
    assert_eq!(mb.cpu.registers.a, 0x10);
    mb.cpu.registers.write16(Reg16::HL, 0xC000);
    mb.memory_map.write_byte_at(0xC000, 0x81);
    assert_eq!(mb.step(None), Ok(3));
    assert!(!mb.cpu.registers.f.zero);
    assert_eq!(mb.step(None), Ok(4));
    assert_eq!(mb.memory_map.read_byte_at(0xC000), 0x03);
    assert!(mb.cpu.registers.f.carry);
    assert_eq!(mb.step(None), Ok(2));
    assert_eq!(mb.cpu.registers.a, 0x01);
}

#[test]
fn cpl_scf_ccf() {
    let mut mb = board_with(0x0100, &[0x2F, 0x37, 0x3F]);
    mb.cpu.registers.a = 0x35;
    mb.step(None).unwrap();
    assert_eq!(mb.cpu.registers.a, 0xCA);
    assert!(mb.cpu.registers.f.subtract && mb.cpu.registers.f.half_carry);
    mb.step(None).unwrap();
    assert_eq!(mb.cpu.registers.f, Flags::new(false, false, false, true));
    mb.step(None).unwrap();
    assert_eq!(mb.cpu.registers.f, Flags::new(false, false, false, false));
}

#[test]
fn halt_waits_for_an_interrupt() {
    let mut mb = board_with(0x0100, &[0x76, 0x04]);
    assert_eq!(mb.step(None), Ok(1));
    assert_eq!(mb.cpu.state, CpuState::Halted);
    assert_eq!(mb.step(None), Ok(1));
    assert_eq!(mb.cpu.registers.pc, 0x0101);
    assert_eq!(mb.step(Some(0x0040)), Ok(1));
    assert_eq!(mb.cpu.state, CpuState::Running);
    assert_eq!(mb.cpu.registers.b, 1);
}

#[test]
fn stop_waits_for_an_interrupt() {
    let mut mb = board_with(0x0100, &[0x10, 0x00, 0x00]);
    assert_eq!(mb.step(None), Ok(1));
    assert_eq!(mb.cpu.state, CpuState::Stopped);
    assert_eq!(mb.cpu.registers.pc, 0x0102);
    assert_eq!(mb.step(None), Ok(1));
    assert_eq!(mb.cpu.state, CpuState::Stopped);
    assert_eq!(mb.step(Some(0x0048)), Ok(1));
    assert_eq!(mb.cpu.state, CpuState::Running);
}

#[test]
fn ei_takes_effect_after_the_next_instruction() {
    let mut mb = board_with(0x0100, &[0xFB, 0x00, 0x00]);
    assert_eq!(mb.step(Some(0x0050)), Ok(1));
    assert!(!mb.cpu.ime);
    assert_eq!(mb.step(Some(0x0050)), Ok(1));
    assert_eq!(mb.cpu.registers.pc, 0x0102);
    assert!(mb.cpu.ime);
    assert_eq!(mb.step(Some(0x0050)), Ok(5));
    assert_eq!(mb.cpu.registers.pc, 0x0050);
    assert!(!mb.cpu.ime);
    assert_eq!(mb.cpu.registers.sp, 0xFFFC);
    assert_eq!(mb.memory_map.read_byte_at(0xFFFD), 0x01);
    assert_eq!(mb.memory_map.read_byte_at(0xFFFC), 0x02);
}

#[test]
fn ei_then_di_never_enables() {
    let mut mb = board_with(0x0100, &[0xFB, 0xF3, 0x00]);
    mb.step(None).unwrap();
    mb.step(None).unwrap();
    assert!(!mb.cpu.ime);
    assert_eq!(mb.step(Some(0x0050)), Ok(1));
    assert_eq!(mb.cpu.registers.pc, 0x0103);
}

#[test]
fn reti_enables_interrupts() {
    let mut mb = board_with(0x0100, &[0xCD, 0x00, 0x02]);
    mb.memory_map.write_byte_at(0x0200, 0xD9);
    mb.step(None).unwrap();
    assert_eq!(mb.step(None), Ok(4));
    assert_eq!(mb.cpu.registers.pc, 0x0103);
    assert!(mb.cpu.ime);
}

#[test]
fn flags_operations() {
    let mut f = Flags::empty();
    assert_eq!(f.bits(), 0);
    f.set(Flag::Zero);
    f.set(Flag::Carry);
    assert!(f.test(Flag::Zero) && f.test(Flag::Carry));
    assert!(!f.test(Flag::Subtract) && !f.test(Flag::HalfCarry));
    assert_eq!(f.bits(), 0x90);
    f.clear(Flag::Zero);
    assert_eq!(f.bits(), 0x10);
    f.assign(false, true, true, false);
    assert_eq!(f.bits(), 0x60);
    assert_eq!(Flags::from_bits_truncate(0xFF).bits(), 0xF0);
    assert_eq!(Flags::from_bits_truncate(0x0F), Flags::empty());
}

#[test]
fn memory_covers_every_address() {
    let mut mem = MemoryMap::default();
    mem.write_byte_at(0xFFFF, 0x12);
    mem.write_byte_at(0x0000, 0x34);
    assert_eq!(mem.read_byte_at(0xFFFF), 0x12);
    assert_eq!(mem.read_byte_at(0x0000), 0x34);
    assert_eq!(mem.read_byte_at(0x8000), 0x00);
}

#[test]
fn fetch_word_is_little_endian() {
    let mut cpu = SM83::new();
    let mut mem = MemoryMap::new();
    mem.write_byte_at(0xFFFF, 0x34);
    mem.write_byte_at(0x0000, 0x12);
    cpu.registers.pc = 0xFFFF;
    assert_eq!(cpu.fetch_word(&mem), 0x1234);
    assert_eq!(cpu.registers.pc, 0x0001);
}

#[test]
fn stack_wraps_around_address_zero() {
    let mut mb = board_with(0x0100, &[0xC5, 0xC1]);
    mb.cpu.registers.sp = 0x0000;
    mb.cpu.registers.write16(Reg16::BC, 0xA1B2);
    assert_eq!(mb.step(None), Ok(4));
    assert_eq!(mb.cpu.registers.sp, 0xFFFE);
    assert_eq!(mb.memory_map.read_byte_at(0xFFFF), 0xA1);
    assert_eq!(mb.memory_map.read_byte_at(0xFFFE), 0xB2);
    mb.cpu.registers.write16(Reg16::BC, 0);
    assert_eq!(mb.step(None), Ok(3));
    assert_eq!(mb.cpu.registers.read16(Reg16::BC), 0xA1B2);
    assert_eq!(mb.cpu.registers.sp, 0x0000);
}

#[test]
fn interrupt_is_serviced_out_of_halt() {
    let mut mb = board_with(0x0100, &[0xFB, 0x76, 0x00]);
    mb.step(None).unwrap();
    assert_eq!(mb.step(None), Ok(1));
    assert_eq!(mb.cpu.state, CpuState::Halted);
    assert!(mb.cpu.ime);
    assert_eq!(mb.step(Some(0x0060)), Ok(5));
    assert_eq!(mb.cpu.state, CpuState::Running);
    assert_eq!(mb.cpu.registers.pc, 0x0060);
    assert!(!mb.cpu.ime);
    assert_eq!(mb.memory_map.read_byte_at(0xFFFC), 0x02);
}

#[test]
fn ei_takes_effect_through_fetch_decode_execute() {
    let mut cpu = SM83::new();
    let mut mem = MemoryMap::new();
    mem.write_byte_at(0x0000, 0xFB);
    mem.write_byte_at(0x0001, 0x00);
    mem.write_byte_at(0x0002, 0xFB);
    mem.write_byte_at(0x0003, 0xF3);
    assert_eq!(cpu.fetch_decode_execute(&mut mem), Ok(1));
    assert!(!cpu.ime);
    assert_eq!(cpu.fetch_decode_execute(&mut mem), Ok(1));
    assert!(cpu.ime);
    assert!(!cpu.ime_pending);
    cpu.ime = false;
    assert_eq!(cpu.fetch_decode_execute(&mut mem), Ok(1));
    assert_eq!(cpu.fetch_decode_execute(&mut mem), Ok(1));
    assert!(!cpu.ime);
    assert!(!cpu.ime_pending);
}
