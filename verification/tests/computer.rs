//! The smaller core: memory, stack, and its opcode repertoire.

use rewm::computer::Computer;
use rewm::cpu::CPUError;

// Memory tests

#[test]
fn computer_test_mem_get_byte_zpg() {
    let mut computer = Computer::new();
    computer.set_byte(13, 42);
    assert_eq!(computer.mem_get_byte_zpg(13), 42);
}

#[test]
fn computer_test_mem_get_byte_zpgx() {
    let mut computer = Computer::new();
    computer.set_byte(13, 42);
    computer.cpu.x = 8;
    assert_eq!(computer.mem_get_byte_zpgx(5), 42);
}

#[test]
fn computer_test_mem_get_byte_zpgx_wrapping() {
    let mut computer = Computer::new();
    computer.set_byte(0x10, 0x42);
    computer.cpu.x = 0x20;
    assert_eq!(computer.mem_get_byte_zpgx(0xf0), 0x42);
}

#[test]
fn computer_test_mem_get_byte_zpgy() {
    let mut computer = Computer::new();
    computer.set_byte(13, 42);
    computer.cpu.y = 8;
    assert_eq!(computer.mem_get_byte_zpgy(5), 42);
}

#[test]
fn computer_test_mem_get_byte_zpgy_wrapping() {
    let mut computer = Computer::new();
    computer.set_byte(0x10, 0x42);
    computer.cpu.y = 0x20;
    assert_eq!(computer.mem_get_byte_zpgy(0xf0), 0x42);
}

#[test]
fn computer_test_mem_get_byte_indx() {
    let mut computer = Computer::new();
    computer.set_byte(0x0432, 0x42);
    computer.set_byte(5, 0x32);
    computer.set_byte(6, 0x04);
    computer.cpu.x = 2;
    assert_eq!(computer.mem_get_byte_indx(3), 0x42);
}

#[test]
fn computer_test_mem_get_byte_indx_wrapping() {
    let mut computer = Computer::new();
    computer.set_byte(0x0432, 0x42);
    computer.set_byte(0x20, 0x32);
    computer.set_byte(0x21, 0x04);
    computer.cpu.x = 0x30;
    assert_eq!(computer.mem_get_byte_indx(0xf0), 0x42);
}

#[test]
fn computer_test_mem_get_byte_indy() {
    let mut computer = Computer::new();
    computer.set_byte(0x0444, 0x42);
    computer.set_byte(5, 0x00);
    computer.set_byte(6, 0x04);
    computer.cpu.y = 0x44;
    assert_eq!(computer.mem_get_byte_indy(5), 0x42);
}

#[test]
fn computer_test_mem_get_byte_indy_wrapping() {
    let mut computer = Computer::new();
    computer.set_byte(0x010, 0x42);
    computer.set_byte(5, 0xf0);
    computer.set_byte(6, 0xff);
    computer.cpu.y = 0x20;
    assert_eq!(computer.mem_get_byte_indy(5), 0x42);
}

// Computer tests

#[test]
fn computer_test_initialized() {
    let computer = Computer::new();
    assert_eq!(computer.cpu.a, 0x00);
    assert_eq!(computer.cpu.x, 0x00);
    assert_eq!(computer.cpu.y, 0x00);
    assert_eq!(computer.cpu.sp, 0xff);
    assert_eq!(computer.cpu.pc, 0x0400);
    assert_eq!(computer.ram.len(), 64 * 1024);
}

#[test]
fn computer_test_stack_bytes() {
    let mut computer = Computer::new();
    assert_eq!(computer.cpu.sp, 0xff);

    computer.push_byte(0x42);
    assert_eq!(computer.cpu.sp, 0xfe);
    assert_eq!(computer.get_byte(0x01ff), 0x42);

    computer.push_byte(0x21);
    assert_eq!(computer.cpu.sp, 0xfd);
    assert_eq!(computer.get_byte(0x01fe), 0x21);

    assert_eq!(computer.pull_byte(), 0x21);
    assert_eq!(computer.cpu.sp, 0xfe);

    assert_eq!(computer.pull_byte(), 0x42);
    assert_eq!(computer.cpu.sp, 0xff);
}

#[test]
fn computer_test_stack_words() {
    let mut computer = Computer::new();
    assert_eq!(computer.cpu.sp, 0xff);

    computer.push_word(0x1234);
    assert_eq!(computer.cpu.sp, 0xfd);
    assert_eq!(computer.get_byte(0x01ff), 0x12);
    assert_eq!(computer.get_byte(0x01fe), 0x34);

    computer.push_word(0x6502);
    assert_eq!(computer.cpu.sp, 0xfb);
    assert_eq!(computer.get_byte(0x01fd), 0x65);
    assert_eq!(computer.get_byte(0x01fc), 0x02);

    assert_eq!(computer.pull_word(), 0x6502);
    assert_eq!(computer.pull_word(), 0x1234);
}

#[test]
fn computer_test_breaks_without_program() {
    let mut computer = Computer::new();
    assert_eq!(computer.run().unwrap_err(), CPUError::Break);
    assert_eq!(computer.cpu.pc, 0x0400);
}

#[test]
fn computer_test_load_registers() {
    let program: Vec<u8> = vec![
        0xa9, 0x11, // $0400 LDA $11
        0xa2, 0x22, // $0402 LDX $22
        0xa0, 0x33, // $0404 LDY $33
        0x00, // $0406 BRK
    ];

    let mut computer = Computer::new();
    computer.load(0x0400, program);

    assert_eq!(computer.run().unwrap_err(), CPUError::Break);

    assert_eq!(computer.cpu.a, 0x11);
    assert_eq!(computer.cpu.x, 0x22);
    assert_eq!(computer.cpu.y, 0x33);
    assert_eq!(computer.cpu.sp, 0xff);
    assert_eq!(computer.cpu.pc, 0x0406);
}

#[test]
fn computer_test_jmp_abs() {
    let mut computer = Computer::new();
    computer.load(
        0x0400,
        vec![
            0x4C, 0x05, 0x04, // $0400 JMP $0405
            0x00, // $0403 BRK
            0xEA, // $0404 NOP
            0xA9, 0x42, // $0405 LDA $42
            0x00, // $0407 BRK
        ],
    );

    assert_eq!(computer.run().unwrap_err(), CPUError::Break);
    assert_eq!(computer.cpu.pc, 0x0407);
    assert_eq!(computer.cpu.a, 0x42);
}

#[test]
fn computer_test_jmp_ind() {
    let mut computer = Computer::new();
    computer.load(
        0x0400,
        vec![
            0x6C, 0x08, 0x04, // $0400 JMP ($0408)
            0x00, // $0403 BRK
            0xEA, // $0404 NOP
            0xA9, 0x42, // $0405 LDA $42
            0x00, // $0407 BRK
            0x05, 0x04, // $0408
        ],
    );

    assert_eq!(computer.run().unwrap_err(), CPUError::Break);
    assert_eq!(computer.cpu.pc, 0x0407);
    assert_eq!(computer.cpu.a, 0x42);
}

#[test]
fn computer_test_jsr_rts() {
    let mut computer = Computer::new();
    computer.load(
        0x0400,
        vec![
            0x20, 0x05, 0x04, // $0400 JSR $0405
            0x00, // $0403 BRK
            0xEA, // $0404 NOP
            0xA9, 0x42, // $0405 LDA $42
            0x60, // $0407 RTS
        ],
    );

    assert_eq!(computer.run().unwrap_err(), CPUError::Break);
    assert_eq!(computer.cpu.pc, 0x0403);
    assert_eq!(computer.cpu.a, 0x42);
    assert_eq!(computer.cpu.sp, 0xff);
}
