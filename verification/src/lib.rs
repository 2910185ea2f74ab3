//! An instruction-level emulator of the MOS 6502 8-bit microprocessor.
//!
//! The crate models the processor's visible architectural state (registers,
//! status flags, and a flat 64 KiB memory) and executes one instruction at a
//! time, reproducing the chip's modular-wrap address arithmetic, flag
//! semantics, and stack discipline bit for bit.  Every state transition is
//! specified against a mathematical model of the machine ([`model`]) and
//! proved to follow it.
//!
//! Two execution cores are provided: [`cpu::CPU`], which decodes the full
//! documented instruction set, and [`computer::Computer`], an earlier,
//! smaller core kept for its reduced opcode repertoire.

pub mod addressing;
pub mod computer;
pub mod cpu;
pub mod laws;
pub mod micro;
pub mod model;
