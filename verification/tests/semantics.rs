//! Instruction semantics: arithmetic, shifts, status handling, branches,
//! stores, and the wrap-around behaviour of memory and stack.

use rewm::computer::Computer;
use rewm::cpu::{asl, lsr, rol, ror, CPUError, CPU};
use rewm::model::ShiftKind;

// Branches: the displacement is sign-extended two's complement, so a
// backward branch really goes backward.

#[test]
fn test_branch_backward() {
    let mut cpu = CPU::new();
    cpu.load(
        0x0400,
        vec![
            0xA2, 0x03, // $0400 LDX #$03
            0xCA, // $0402 DEX
            0xD0, 0xFD, // $0403 BNE -3 (back to $0402)
            0x00, // $0405 BRK
        ],
    );

    assert_eq!(cpu.run().unwrap_err(), CPUError::Break);
    assert_eq!(cpu.pc, 0x0405);
    assert_eq!(cpu.x, 0x00);
}

#[test]
fn test_branch_not_taken_falls_through() {
    let mut cpu = CPU::new();
    cpu.load(
        0x0400,
        vec![
            0xA2, 0x01, // $0400 LDX #$01 (Z clear)
            0xF0, 0x10, // $0402 BEQ +16, not taken
            0x00, // $0404 BRK
        ],
    );

    assert_eq!(cpu.run().unwrap_err(), CPUError::Break);
    assert_eq!(cpu.pc, 0x0404);
}

// ADC and SBC: binary arithmetic with carry, overflow, negative and zero.

#[test]
fn test_adc_carry_and_zero() {
    let mut cpu = CPU::new();
    cpu.a = 0xFF;
    cpu.adc(0x01);
    assert_eq!(cpu.a, 0x00);
    assert_eq!(cpu.c, true);
    assert_eq!(cpu.z, true);
    assert_eq!(cpu.n, false);
    assert_eq!(cpu.v, false);
}

#[test]
fn test_adc_signed_overflow() {
    let mut cpu = CPU::new();
    cpu.a = 0x7F;
    cpu.adc(0x01);
    assert_eq!(cpu.a, 0x80);
    assert_eq!(cpu.v, true);
    assert_eq!(cpu.n, true);
    assert_eq!(cpu.c, false);
    assert_eq!(cpu.z, false);
}

#[test]
fn test_adc_uses_carry_in() {
    let mut cpu = CPU::new();
    cpu.a = 0x01;
    cpu.c = true;
    cpu.adc(0x01);
    assert_eq!(cpu.a, 0x03);
    assert_eq!(cpu.c, false);
}

#[test]
fn test_sbc_basic() {
    let mut cpu = CPU::new();
    cpu.a = 0x40;
    cpu.c = true;
    cpu.sbc(0x10);
    assert_eq!(cpu.a, 0x30);
    assert_eq!(cpu.c, true);
    assert_eq!(cpu.n, false);
    assert_eq!(cpu.z, false);
}

#[test]
fn test_sbc_borrow_out() {
    let mut cpu = CPU::new();
    cpu.a = 0x10;
    cpu.c = true;
    cpu.sbc(0x20);
    assert_eq!(cpu.a, 0xF0);
    assert_eq!(cpu.c, false);
    assert_eq!(cpu.n, true);
}

#[test]
fn test_sbc_signed_overflow() {
    let mut cpu = CPU::new();
    cpu.a = 0x80;
    cpu.c = true;
    cpu.sbc(0x01);
    assert_eq!(cpu.a, 0x7F);
    assert_eq!(cpu.v, true);
    assert_eq!(cpu.c, true);
}

#[test]
fn test_adc_program() {
    let mut cpu = CPU::new();
    cpu.load(
        0x0400,
        vec![
            0xA9, 0x38, // $0400 LDA #$38
            0x69, 0x0A, // $0402 ADC #$0A
            0x00, // $0404 BRK
        ],
    );

    assert_eq!(cpu.run().unwrap_err(), CPUError::Break);
    assert_eq!(cpu.a, 0x42);
    assert_eq!(cpu.c, false);
}

// Shifts and rotates: one bit through the carry.

#[test]
fn test_asl_carry_out() {
    assert_eq!(asl(0x81, false), (0x02, true));
    assert_eq!(asl(0x01, true), (0x02, false));
}

#[test]
fn test_lsr_carry_out() {
    assert_eq!(lsr(0x01, false), (0x00, true));
    assert_eq!(lsr(0x80, true), (0x40, false));
}

#[test]
fn test_rol_carry_in_and_out() {
    assert_eq!(rol(0x80, true), (0x01, true));
    assert_eq!(rol(0x40, false), (0x80, false));
}

#[test]
fn test_ror_carry_in_and_out() {
    assert_eq!(ror(0x01, true), (0x80, true));
    assert_eq!(ror(0x02, false), (0x01, false));
}

#[test]
fn test_asl_accumulator_program() {
    let mut cpu = CPU::new();
    cpu.load(
        0x0400,
        vec![
            0xA9, 0x81, // $0400 LDA #$81
            0x0A, // $0402 ASL A
            0x00, // $0403 BRK
        ],
    );

    assert_eq!(cpu.run().unwrap_err(), CPUError::Break);
    assert_eq!(cpu.a, 0x02);
    assert_eq!(cpu.c, true);
    assert_eq!(cpu.n, false);
    assert_eq!(cpu.z, false);
}

#[test]
fn test_asl_memory_program() {
    let mut cpu = CPU::new();
    cpu.set_byte(0x10, 0xC0);
    cpu.load(
        0x0400,
        vec![
            0x06, 0x10, // $0400 ASL $10
            0x00, // $0402 BRK
        ],
    );

    assert_eq!(cpu.run().unwrap_err(), CPUError::Break);
    assert_eq!(cpu.get_byte(0x10), 0x80);
    assert_eq!(cpu.c, true);
    assert_eq!(cpu.n, true);
}

#[test]
fn test_ror_memory_carry_in() {
    let mut cpu = CPU::new();
    cpu.c = true;
    cpu.mem_mod_byte_zpg(0x20, ShiftKind::Ror);
    assert_eq!(cpu.get_byte(0x20), 0x80);
    assert_eq!(cpu.c, false);
    assert_eq!(cpu.n, true);
}

#[test]
fn test_mod_byte_lsr() {
    let mut cpu = CPU::new();
    cpu.set_byte(0x0300, 0x03);
    cpu.mod_byte(0x0300, ShiftKind::Lsr);
    assert_eq!(cpu.get_byte(0x0300), 0x01);
    assert_eq!(cpu.c, true);
    assert_eq!(cpu.z, false);
}

// Increments and decrements on memory wrap modulo 256 and never touch C.

#[test]
fn test_inc_memory_wraps() {
    let mut cpu = CPU::new();
    cpu.set_byte(0x10, 0xFF);
    cpu.load(
        0x0400,
        vec![
            0xE6, 0x10, // $0400 INC $10
            0x00, // $0402 BRK
        ],
    );

    assert_eq!(cpu.run().unwrap_err(), CPUError::Break);
    assert_eq!(cpu.get_byte(0x10), 0x00);
    assert_eq!(cpu.z, true);
    assert_eq!(cpu.n, false);
    assert_eq!(cpu.c, false);
}

#[test]
fn test_dec_memory_wraps() {
    let mut cpu = CPU::new();
    cpu.load(
        0x0400,
        vec![
            0xC6, 0x10, // $0400 DEC $10 (memory starts zeroed)
            0x00, // $0402 BRK
        ],
    );

    assert_eq!(cpu.run().unwrap_err(), CPUError::Break);
    assert_eq!(cpu.get_byte(0x10), 0xFF);
    assert_eq!(cpu.n, true);
    assert_eq!(cpu.z, false);
}

#[test]
fn test_inx_sets_zero_flag() {
    let mut cpu = CPU::new();
    cpu.load(
        0x0400,
        vec![
            0xA2, 0xFF, // $0400 LDX #$FF
            0xE8, // $0402 INX
            0x00, // $0403 BRK
        ],
    );

    assert_eq!(cpu.run().unwrap_err(), CPUError::Break);
    assert_eq!(cpu.x, 0x00);
    assert_eq!(cpu.z, true);
    assert_eq!(cpu.n, false);
}

#[test]
fn test_dex_sets_negative_flag() {
    let mut cpu = CPU::new();
    cpu.load(
        0x0400,
        vec![
            0xA2, 0x00, // $0400 LDX #$00
            0xCA, // $0402 DEX
            0x00, // $0403 BRK
        ],
    );

    assert_eq!(cpu.run().unwrap_err(), CPUError::Break);
    assert_eq!(cpu.x, 0xFF);
    assert_eq!(cpu.n, true);
    assert_eq!(cpu.z, false);
}

// The status byte: packing, unpacking, and the bits PHP forces.

#[test]
fn test_status_pack_unpack() {
    let mut cpu = CPU::new();
    cpu.set_status(0xC3);
    assert_eq!(cpu.n, true);
    assert_eq!(cpu.v, true);
    assert_eq!(cpu.b, false);
    assert_eq!(cpu.d, false);
    assert_eq!(cpu.i, false);
    assert_eq!(cpu.z, true);
    assert_eq!(cpu.c, true);
    assert_eq!(cpu.get_status(), 0xC3);
}

#[test]
fn test_php_forces_bits() {
    let mut cpu = CPU::new();
    cpu.n = true;
    cpu.c = true;
    cpu.load(
        0x0400,
        vec![
            0x08, // $0400 PHP
            0x00, // $0401 BRK
        ],
    );

    assert_eq!(cpu.run().unwrap_err(), CPUError::Break);
    assert_eq!(cpu.get_byte(0x01FF), 0xB1);
    assert_eq!(cpu.sp, 0xFE);
}

#[test]
fn test_plp_restores_flags() {
    let mut cpu = CPU::new();
    cpu.push_byte(0x03);
    cpu.load(
        0x0400,
        vec![
            0x28, // $0400 PLP
            0x00, // $0401 BRK
        ],
    );

    assert_eq!(cpu.run().unwrap_err(), CPUError::Break);
    assert_eq!(cpu.z, true);
    assert_eq!(cpu.c, true);
    assert_eq!(cpu.n, false);
    assert_eq!(cpu.sp, 0xFF);
}

#[test]
fn test_pha_pla_program() {
    let mut cpu = CPU::new();
    cpu.load(
        0x0400,
        vec![
            0xA9, 0x42, // $0400 LDA #$42
            0x48, // $0402 PHA
            0xA9, 0x00, // $0403 LDA #$00
            0x68, // $0405 PLA
            0x00, // $0406 BRK
        ],
    );

    assert_eq!(cpu.run().unwrap_err(), CPUError::Break);
    assert_eq!(cpu.a, 0x42);
    assert_eq!(cpu.sp, 0xFF);
    assert_eq!(cpu.z, false);
}

// Halting: illegal opcodes leave the program counter on the opcode.

#[test]
fn test_illegal_opcode_cpu() {
    let mut cpu = CPU::new();
    cpu.load(0x0400, vec![0x02]);
    assert_eq!(cpu.run().unwrap_err(), CPUError::IllegalOpcode);
    assert_eq!(cpu.pc, 0x0400);
}

#[test]
fn test_illegal_opcode_computer() {
    // STA zero-page is not in the smaller core's repertoire.
    let mut computer = Computer::new();
    computer.load(0x0400, vec![0x85, 0x10]);
    assert_eq!(computer.run().unwrap_err(), CPUError::IllegalOpcode);
    assert_eq!(computer.cpu.pc, 0x0400);
}

// Stores and transfers.

#[test]
fn test_sta_zpg_program() {
    let mut cpu = CPU::new();
    cpu.load(
        0x0400,
        vec![
            0xA9, 0x42, // $0400 LDA #$42
            0x85, 0x10, // $0402 STA $10
            0x00, // $0404 BRK
        ],
    );

    assert_eq!(cpu.run().unwrap_err(), CPUError::Break);
    assert_eq!(cpu.get_byte(0x10), 0x42);
}

#[test]
fn test_sta_indy() {
    let mut cpu = CPU::new();
    cpu.set_byte(0x10, 0x00);
    cpu.set_byte(0x11, 0x03); // pointer at $10 holds $0300
    cpu.y = 5;
    cpu.mem_set_byte_indy(0x10, 0x99);
    assert_eq!(cpu.get_byte(0x0305), 0x99);
}

#[test]
fn test_stx_zpgy() {
    let mut cpu = CPU::new();
    cpu.y = 0x20;
    cpu.x = 0x55;
    cpu.mem_set_byte_zpgy(0xF0, 0x55);
    assert_eq!(cpu.get_byte(0x10), 0x55);
}

#[test]
fn test_tax_transfer() {
    let mut cpu = CPU::new();
    cpu.load(
        0x0400,
        vec![
            0xA9, 0x80, // $0400 LDA #$80
            0xAA, // $0402 TAX
            0x00, // $0403 BRK
        ],
    );

    assert_eq!(cpu.run().unwrap_err(), CPUError::Break);
    assert_eq!(cpu.x, 0x80);
    assert_eq!(cpu.n, true);
}

#[test]
fn test_txs_no_flags() {
    let mut cpu = CPU::new();
    cpu.load(
        0x0400,
        vec![
            0xA2, 0x00, // $0400 LDX #$00 (sets Z)
            0x9A, // $0402 TXS
            0x00, // $0403 BRK
        ],
    );

    assert_eq!(cpu.run().unwrap_err(), CPUError::Break);
    assert_eq!(cpu.sp, 0x00);
    assert_eq!(cpu.z, true);
}

// Memory words and the top-of-memory wrap.

#[test]
fn test_get_word_wraps_at_top() {
    let mut cpu = CPU::new();
    cpu.set_byte(0xFFFF, 0x34);
    cpu.set_byte(0x0000, 0x12);
    assert_eq!(cpu.get_word(0xFFFF), 0x1234);
}

#[test]
fn test_set_word_wraps_at_top() {
    let mut cpu = CPU::new();
    cpu.set_word(0xFFFF, 0xABCD);
    assert_eq!(cpu.get_byte(0xFFFF), 0xCD);
    assert_eq!(cpu.get_byte(0x0000), 0xAB);
}

#[test]
fn test_computer_set_word() {
    let mut computer = Computer::new();
    computer.set_word(0x0200, 0x6502);
    assert_eq!(computer.get_byte(0x0200), 0x02);
    assert_eq!(computer.get_byte(0x0201), 0x65);
    assert_eq!(computer.get_word(0x0200), 0x6502);
}

#[test]
fn test_absx_wraps_across_top() {
    let mut cpu = CPU::new();
    cpu.set_byte(0x0001, 0x7E);
    cpu.x = 0x02;
    assert_eq!(cpu.mem_get_byte_absx(0xFFFF), 0x7E);
}

#[test]
fn test_full_memory_readable() {
    let mut cpu = CPU::new();
    cpu.set_byte(0x0800, 0x07);
    cpu.set_byte(0xFFFE, 0x09);
    assert_eq!(cpu.get_byte(0x0800), 0x07);
    assert_eq!(cpu.get_byte(0xFFFE), 0x09);
}

// The stack is a ring: the pointer wraps silently in both directions.

#[test]
fn test_stack_pointer_ring() {
    let mut cpu = CPU::new();
    cpu.sp = 0x00;
    cpu.push_byte(0x77);
    assert_eq!(cpu.sp, 0xFF);
    assert_eq!(cpu.get_byte(0x0100), 0x77);
    assert_eq!(cpu.pull_byte(), 0x77);
    assert_eq!(cpu.sp, 0x00);
}

// BIT and the logical operations.

#[test]
fn test_bit_flags() {
    let mut cpu = CPU::new();
    cpu.a = 0x01;
    cpu.bit(0xC0);
    assert_eq!(cpu.z, true);
    assert_eq!(cpu.n, true);
    assert_eq!(cpu.v, true);
}

#[test]
fn test_and_indy_program() {
    let mut cpu = CPU::new();
    cpu.set_byte(0x10, 0x00);
    cpu.set_byte(0x11, 0x03); // pointer at $10 holds $0300
    cpu.set_byte(0x0304, 0x0F);
    cpu.load(
        0x0400,
        vec![
            0xA0, 0x04, // $0400 LDY #$04
            0xA9, 0x3C, // $0402 LDA #$3C
            0x31, 0x10, // $0404 AND ($10),Y
            0x00, // $0406 BRK
        ],
    );

    assert_eq!(cpu.run().unwrap_err(), CPUError::Break);
    assert_eq!(cpu.a, 0x0C);
}

#[test]
fn test_ora_indy_computer() {
    let mut computer = Computer::new();
    computer.set_byte(0x10, 0x00);
    computer.set_byte(0x11, 0x03); // pointer at $10 holds $0300
    computer.set_byte(0x0302, 0xF0);
    computer.cpu.y = 0x02;
    computer.cpu.a = 0x0F;
    computer.load(
        0x0400,
        vec![
            0x11, 0x10, // $0400 ORA ($10),Y
            0x00, // $0402 BRK
        ],
    );

    assert_eq!(computer.run().unwrap_err(), CPUError::Break);
    assert_eq!(computer.cpu.a, 0xFF);
}

// The smaller core's LDA recomputes N and Z, like the full core's.

#[test]
fn test_computer_lda_updates_flags() {
    let mut computer = Computer::new();
    computer.load(
        0x0400,
        vec![
            0xA9, 0x00, // $0400 LDA #$00
            0x00, // $0402 BRK
        ],
    );

    assert_eq!(computer.run().unwrap_err(), CPUError::Break);
    assert_eq!(computer.cpu.a, 0x00);
    assert_eq!(computer.cpu.z, true);
    assert_eq!(computer.cpu.n, false);
}

// CPY and CPX reach the same comparison rules as CMP.

#[test]
fn test_cpx_cpy() {
    let mut cpu = CPU::new();
    cpu.x = 0x10;
    cpu.cpx(0x10);
    assert_eq!(cpu.z, true);
    assert_eq!(cpu.c, true);
    cpu.y = 0x01;
    cpu.cpy(0x02);
    assert_eq!(cpu.c, false);
    assert_eq!(cpu.n, true);
}
