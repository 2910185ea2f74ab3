//! The full core: comparisons, memory, stack, and whole-program runs.

use rewm::cpu::{CPUError, CPU};

// Operations tests

#[test]
fn test_cmp_eq() {
    let mut cpu = CPU::new();
    cpu.a = 0x42;
    cpu.cmp(0x42);
    assert_eq!(cpu.z, true);
    assert_eq!(cpu.c, true);
    assert_eq!(cpu.n, false);
}

#[test]
fn test_cmp_gt() {
    let mut cpu = CPU::new();
    cpu.a = 0x42;
    cpu.cmp(0x21);
    assert_eq!(cpu.z, false);
    assert_eq!(cpu.c, true);
    assert_eq!(cpu.n, false);
}

#[test]
fn test_cmp_gt_n() {
    let mut cpu = CPU::new();
    cpu.a = 0x84;
    cpu.cmp(0x01);
    assert_eq!(cpu.z, false);
    assert_eq!(cpu.c, true);
    assert_eq!(cpu.n, true);
}

#[test]
fn test_cmp_lt() {
    let mut cpu = CPU::new();
    cpu.a = 0x42;
    cpu.cmp(0x84);
    assert_eq!(cpu.z, false);
    assert_eq!(cpu.c, false);
    assert_eq!(cpu.n, true);
}

#[test]
fn test_cmp_lt_n() {
    let mut cpu = CPU::new();
    cpu.a = 0x01;
    cpu.cmp(0x84);
    assert_eq!(cpu.z, false);
    assert_eq!(cpu.c, false);
    assert_eq!(cpu.n, false);
}

// Memory tests

#[test]
fn cpu_test_mem_get_byte_zpg() {
    let mut cpu = CPU::new();
    cpu.set_byte(13, 42);
    assert_eq!(cpu.mem_get_byte_zpg(13), 42);
}

#[test]
fn cpu_test_mem_get_byte_zpgx() {
    let mut cpu = CPU::new();
    cpu.set_byte(13, 42);
    cpu.x = 8;
    assert_eq!(cpu.mem_get_byte_zpgx(5), 42);
}

#[test]
fn cpu_test_mem_get_byte_zpgx_wrapping() {
    let mut cpu = CPU::new();
    cpu.set_byte(0x10, 0x42);
    cpu.x = 0x20;
    assert_eq!(cpu.mem_get_byte_zpgx(0xf0), 0x42);
}

#[test]
fn cpu_test_mem_get_byte_zpgy() {
    let mut cpu = CPU::new();
    cpu.set_byte(13, 42);
    cpu.y = 8;
    assert_eq!(cpu.mem_get_byte_zpgy(5), 42);
}

#[test]
fn cpu_test_mem_get_byte_zpgy_wrapping() {
    let mut cpu = CPU::new();
    cpu.set_byte(0x10, 0x42);
    cpu.y = 0x20;
    assert_eq!(cpu.mem_get_byte_zpgy(0xf0), 0x42);
}

#[test]
fn cpu_test_mem_get_byte_indx() {
    let mut cpu = CPU::new();
    cpu.set_byte(0x0432, 0x42);
    cpu.set_byte(5, 0x32);
    cpu.set_byte(6, 0x04);
    cpu.x = 2;
    assert_eq!(cpu.mem_get_byte_indx(3), 0x42);
}

#[test]
fn cpu_test_mem_get_byte_indx_wrapping() {
    let mut cpu = CPU::new();
    cpu.set_byte(0x0432, 0x42);
    cpu.set_byte(0x20, 0x32);
    cpu.set_byte(0x21, 0x04);
    cpu.x = 0x30;
    assert_eq!(cpu.mem_get_byte_indx(0xf0), 0x42);
}

#[test]
fn cpu_test_mem_get_byte_indy() {
    let mut cpu = CPU::new();
    cpu.set_byte(0x0444, 0x42);
    cpu.set_byte(5, 0x00);
    cpu.set_byte(6, 0x04);
    cpu.y = 0x44;
    assert_eq!(cpu.mem_get_byte_indy(5), 0x42);
}

#[test]
fn cpu_test_mem_get_byte_indy_wrapping() {
    let mut cpu = CPU::new();
    cpu.set_byte(0x010, 0x42);
    cpu.set_byte(5, 0xf0);
    cpu.set_byte(6, 0xff);
    cpu.y = 0x20;
    assert_eq!(cpu.mem_get_byte_indy(5), 0x42);
}

// Whole-machine tests

#[test]
fn cpu_test_initialized() {
    let cpu = CPU::new();
    assert_eq!(cpu.a, 0x00);
    assert_eq!(cpu.x, 0x00);
    assert_eq!(cpu.y, 0x00);
    assert_eq!(cpu.sp, 0xff);
    assert_eq!(cpu.pc, 0x0400);
    assert_eq!(cpu.ram.len(), 64 * 1024);
}

#[test]
fn cpu_test_stack_bytes() {
    let mut cpu = CPU::new();
    assert_eq!(cpu.sp, 0xff);

    cpu.push_byte(0x42);
    assert_eq!(cpu.sp, 0xfe);
    assert_eq!(cpu.get_byte(0x01ff), 0x42);

    cpu.push_byte(0x21);
    assert_eq!(cpu.sp, 0xfd);
    assert_eq!(cpu.get_byte(0x01fe), 0x21);

    assert_eq!(cpu.pull_byte(), 0x21);
    assert_eq!(cpu.sp, 0xfe);

    assert_eq!(cpu.pull_byte(), 0x42);
    assert_eq!(cpu.sp, 0xff);
}

#[test]
fn cpu_test_stack_words() {
    let mut cpu = CPU::new();
    assert_eq!(cpu.sp, 0xff);

    cpu.push_word(0x1234);
    assert_eq!(cpu.sp, 0xfd);
    assert_eq!(cpu.get_byte(0x01ff), 0x12);
    assert_eq!(cpu.get_byte(0x01fe), 0x34);

    cpu.push_word(0x6502);
    assert_eq!(cpu.sp, 0xfb);
    assert_eq!(cpu.get_byte(0x01fd), 0x65);
    assert_eq!(cpu.get_byte(0x01fc), 0x02);

    assert_eq!(cpu.pull_word(), 0x6502);
    assert_eq!(cpu.pull_word(), 0x1234);
}

#[test]
fn cpu_test_breaks_without_program() {
    let mut cpu = CPU::new();
    assert_eq!(cpu.run().unwrap_err(), CPUError::Break);
    assert_eq!(cpu.pc, 0x0400);
}

#[test]
fn cpu_test_load_registers() {
    let program: Vec<u8> = vec![
        0xa9, 0x11, // $0400 LDA $11
        0xa2, 0x22, // $0402 LDX $22
        0xa0, 0x33, // $0404 LDY $33
        0x00, // $0406 BRK
    ];

    let mut cpu = CPU::new();
    cpu.load(0x0400, program);

    assert_eq!(cpu.run().unwrap_err(), CPUError::Break);

    assert_eq!(cpu.a, 0x11);
    assert_eq!(cpu.x, 0x22);
    assert_eq!(cpu.y, 0x33);
    assert_eq!(cpu.sp, 0xff);
    assert_eq!(cpu.pc, 0x0406);
}

#[test]
fn cpu_test_jmp_abs() {
    let mut cpu = CPU::new();
    cpu.load(
        0x0400,
        vec![
            0x4C, 0x05, 0x04, // $0400 JMP $0405
            0x00, // $0403 BRK
            0xEA, // $0404 NOP
            0xA9, 0x42, // $0405 LDA $42
            0x00, // $0407 BRK
        ],
    );

    assert_eq!(cpu.run().unwrap_err(), CPUError::Break);
    assert_eq!(cpu.pc, 0x0407);
    assert_eq!(cpu.a, 0x42);
}

#[test]
fn cpu_test_jmp_ind() {
    let mut cpu = CPU::new();
    cpu.load(
        0x0400,
        vec![
            0x6C, 0x08, 0x04, // $0400 JMP ($0408)
            0x00, // $0403 BRK
            0xEA, // $0404 NOP
            0xA9, 0x42, // $0405 LDA $42
            0x00, // $0407 BRK
            0x05, 0x04, // $0408
        ],
    );

    assert_eq!(cpu.run().unwrap_err(), CPUError::Break);
    assert_eq!(cpu.pc, 0x0407);
    assert_eq!(cpu.a, 0x42);
}

#[test]
fn cpu_test_jsr_rts() {
    let mut cpu = CPU::new();
    cpu.load(
        0x0400,
        vec![
            0x20, 0x05, 0x04, // $0400 JSR $0405
            0x00, // $0403 BRK
            0xEA, // $0404 NOP
            0xA9, 0x42, // $0405 LDA $42
            0x60, // $0407 RTS
        ],
    );

    assert_eq!(cpu.run().unwrap_err(), CPUError::Break);
    assert_eq!(cpu.pc, 0x0403);
    assert_eq!(cpu.a, 0x42);
    assert_eq!(cpu.sp, 0xff);
}

#[test]
fn test_inx_wrapping() {
    let mut cpu = CPU::new();
    cpu.load(
        0x0400,
        vec![
            0xA2, 0xFF, // $0400 LDX #$FF
            0xE8, // $0402 INX
            0x00, // $0403 BRK
        ],
    );

    assert_eq!(cpu.run().unwrap_err(), CPUError::Break);
    assert_eq!(cpu.pc, 0x0403);
    assert_eq!(cpu.x, 0x00);
}

#[test]
fn test_dex_wrapping() {
    let mut cpu = CPU::new();
    cpu.load(
        0x0400,
        vec![
            0xA2, 0x00, // $0400 LDX #$00
            0xCA, // $0402 DEX
            0x00, // $0403 BRK
        ],
    );

    assert_eq!(cpu.run().unwrap_err(), CPUError::Break);
    assert_eq!(cpu.pc, 0x0403);
    assert_eq!(cpu.x, 0xFF);
}

#[test]
fn test_beq() {
    let mut cpu = CPU::new();
    cpu.load(
        0x0400,
        vec![
            0xA2, 0x00, // $0400 LDX #$00
            0xF0, 0x01, // $0402 BEQ +1
            0x00, // $0404 BRK
            0x00, // $0405 BRK
        ],
    );

    assert_eq!(cpu.run().unwrap_err(), CPUError::Break);
    assert_eq!(cpu.pc, 0x0405);
}

#[test]
fn test_bne() {
    let mut cpu = CPU::new();
    cpu.load(
        0x0400,
        vec![
            0xA2, 0x00, // $0400 LDX #$00
            0xD0, 0x01, // $0402 BNE +1
            0x00, // $0404 BRK
            0x00, // $0405 BRK
        ],
    );

    assert_eq!(cpu.run().unwrap_err(), CPUError::Break);
    assert_eq!(cpu.pc, 0x0404);
}
