//! Addressing-mode reads on the smaller core.

use rewm::computer::Computer;

#[test]
fn addressing_test_mem_get_byte_zpg() {
    let mut computer = Computer::new();
    computer.set_byte(13, 42);
    assert_eq!(computer.mem_get_byte_zpg(13), 42);
}

#[test]
fn addressing_test_mem_get_byte_zpgx() {
    let mut computer = Computer::new();
    computer.set_byte(13, 42);
    computer.cpu.x = 8;
    assert_eq!(computer.mem_get_byte_zpgx(5), 42);
}

#[test]
fn addressing_test_mem_get_byte_zpgx_wrapping() {
    let mut computer = Computer::new();
    computer.set_byte(0x10, 0x42);
    computer.cpu.x = 0x20;
    assert_eq!(computer.mem_get_byte_zpgx(0xf0), 0x42);
}

#[test]
fn addressing_test_mem_get_byte_zpgy() {
    let mut computer = Computer::new();
    computer.set_byte(13, 42);
    computer.cpu.y = 8;
    assert_eq!(computer.mem_get_byte_zpgy(5), 42);
}

#[test]
fn addressing_test_mem_get_byte_zpgy_wrapping() {
    let mut computer = Computer::new();
    computer.set_byte(0x10, 0x42);
    computer.cpu.y = 0x20;
    assert_eq!(computer.mem_get_byte_zpgy(0xf0), 0x42);
}

#[test]
fn addressing_test_mem_get_byte_indx() {
    let mut computer = Computer::new();
    computer.set_byte(0x0432, 0x42);
    computer.set_byte(5, 0x32);
    computer.set_byte(6, 0x04);
    computer.cpu.x = 2;
    assert_eq!(computer.mem_get_byte_indx(3), 0x42);
}

#[test]
fn addressing_test_mem_get_byte_indx_wrapping() {
    let mut computer = Computer::new();
    computer.set_byte(0x0432, 0x42);
    computer.set_byte(0x20, 0x32);
    computer.set_byte(0x21, 0x04);
    computer.cpu.x = 0x30;
    assert_eq!(computer.mem_get_byte_indx(0xf0), 0x42);
}

#[test]
fn addressing_test_mem_get_byte_indy() {
    let mut computer = Computer::new();
    computer.set_byte(0x0444, 0x42);
    computer.set_byte(5, 0x00);
    computer.set_byte(6, 0x04);
    computer.cpu.y = 0x44;
    assert_eq!(computer.mem_get_byte_indy(5), 0x42);
}

#[test]
fn addressing_test_mem_get_byte_indy_wrapping() {
    let mut computer = Computer::new();
    computer.set_byte(0x010, 0x42);
    computer.set_byte(5, 0xf0);
    computer.set_byte(6, 0xff);
    computer.cpu.y = 0x20;
    assert_eq!(computer.mem_get_byte_indy(5), 0x42);
}
