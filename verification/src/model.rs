//! The mathematical model of the processor.
//!
//! [`MachineState`] is the specification-level image of an execution core:
//! the program counter, stack pointer, the three 8-bit registers, the seven
//! status flags, and memory as a sequence of 65536 bytes.  The spec
//! functions in this module define, over that model, the addressing-mode
//! arithmetic, the ALU micro-operations, the stack discipline, and the
//! status-byte packing that both cores are proved to implement.

use vstd::prelude::*;

verus! {

/// The number of addressable memory locations.
pub const MEM_SIZE: usize = 0x10000;

/// The specification-level state of the processor: registers, flags, and
/// memory.  Memory is well formed when it holds exactly 65536 bytes.
#[verifier::ext_equal]
pub ghost struct MachineState {
    /// Program counter: address of the next instruction byte, wraps modulo 65536.
    pub pc: u16,
    /// Stack pointer: offset into the stack page $0100-$01FF, wraps modulo 256.
    pub sp: u8,
    /// Accumulator.
    pub a: u8,
    /// X index register.
    pub x: u8,
    /// Y index register.
    pub y: u8,
    /// Negative flag.
    pub n: bool,
    /// Overflow flag.
    pub v: bool,
    /// Break flag.
    pub b: bool,
    /// Decimal-mode flag (decimal arithmetic itself is out of scope).
    pub d: bool,
    /// Interrupt-disable flag.
    pub i: bool,
    /// Zero flag.
    pub z: bool,
    /// Carry flag.
    pub c: bool,
    /// The 65536 bytes of memory.
    pub mem: Seq<u8>,
}

impl MachineState {
    /// Memory spans the full 64 KiB address space.
    pub open spec fn mem_wf(self) -> bool {
        self.mem.len() == MEM_SIZE
    }

    /// The byte stored at `addr`.
    pub open spec fn byte_at(self, addr: u16) -> u8 {
        self.mem[addr as int]
    }

    /// The little-endian word at `addr`: low byte at `addr`, high byte at
    /// `addr + 1`, the second address wrapping modulo 65536.
    pub open spec fn word_at(self, addr: u16) -> u16 {
        (self.byte_at(addr) + 256 * self.byte_at(addr.wrapping_add(1))) as u16
    }

    /// The state with the byte at `addr` replaced by `val`.
    pub open spec fn with_byte(self, addr: u16, val: u8) -> MachineState {
        MachineState { mem: self.mem.update(addr as int, val), ..self }
    }

    /// The state with the little-endian word at `addr` replaced by `w`.
    pub open spec fn with_word(self, addr: u16, w: u16) -> MachineState {
        self.with_byte(addr, (w % 256) as u8).with_byte(addr.wrapping_add(1), (w / 256) as u8)
    }

    /// The state with the program counter set to `pc`.
    pub open spec fn with_pc(self, pc: u16) -> MachineState {
        MachineState { pc, ..self }
    }

    /// The state with the program counter advanced by `k` bytes, wrapping
    /// modulo 65536.
    pub open spec fn advanced(self, k: u16) -> MachineState {
        self.with_pc(self.pc.wrapping_add(k))
    }

    /// The state with the N and Z flags recomputed from `val`: N is bit 7 of
    /// `val`, Z records whether `val` is zero.
    pub open spec fn with_nz(self, val: u8) -> MachineState {
        MachineState { n: (val & 0x80) != 0, z: val == 0, ..self }
    }

    /// The seven flags packed into one byte: bit 7 = N, 6 = V, 4 = B, 3 = D,
    /// 2 = I, 1 = Z, 0 = C.  Bits 5 and 4 are not forced here; pushes by PHP
    /// set them explicitly.
    pub open spec fn status_byte(self) -> u8 {
        (if self.n { 0x80u8 } else { 0u8 }) | (if self.v { 0x40u8 } else { 0u8 })
            | (if self.b { 0x10u8 } else { 0u8 }) | (if self.d { 0x08u8 } else { 0u8 })
            | (if self.i { 0x04u8 } else { 0u8 }) | (if self.z { 0x02u8 } else { 0u8 })
            | (if self.c { 0x01u8 } else { 0u8 })
    }

    /// The state with all seven flags unpacked from the status byte `st`.
    pub open spec fn with_status(self, st: u8) -> MachineState {
        MachineState {
            n: (st & 0x80) != 0,
            v: (st & 0x40) != 0,
            b: (st & 0x10) != 0,
            d: (st & 0x08) != 0,
            i: (st & 0x04) != 0,
            z: (st & 0x02) != 0,
            c: (st & 0x01) != 0,
            ..self
        }
    }
}

// Addressing-mode resolution.  Each function turns an already-fetched raw
// operand (and the relevant index register) into the effective address the
// instruction reads or writes.  All additions wrap silently: modulo 256 for
// the zero-page forms, modulo 65536 for the absolute forms.

/// Zero-page: the operand byte is the address; the high byte is zero.
pub open spec fn ea_zpg(oper: u8) -> u16 {
    oper as u16
}

/// Zero-page indexed: operand plus index, added modulo 256, so the address
/// stays within page zero.
pub open spec fn ea_zpgi(oper: u8, idx: u8) -> u16 {
    oper.wrapping_add(idx) as u16
}

/// Absolute indexed: operand word plus index, added modulo 65536.
pub open spec fn ea_absi(oper: u16, idx: u8) -> u16 {
    oper.wrapping_add(idx as u16)
}

/// Indexed indirect: operand plus X modulo 256 names a zero-page pointer;
/// the word it holds is the effective address.
pub open spec fn ea_indx(s: MachineState, oper: u8, x: u8) -> u16 {
    s.word_at(ea_zpgi(oper, x))
}

/// Indirect indexed: the operand names a zero-page pointer holding a base
/// address; the effective address is base plus Y, added modulo 65536.
pub open spec fn ea_indy(s: MachineState, oper: u8, y: u8) -> u16 {
    s.word_at(oper as u16).wrapping_add(y as u16)
}

/// The target of a taken branch: the displacement byte is sign-extended
/// (two's complement) and added to the program counter modulo 65536.
pub open spec fn branch_target(pc: u16, off: u8) -> u16 {
    if off < 0x80 {
        pc.wrapping_add(off as u16)
    } else {
        pc.wrapping_add(off as u16).wrapping_sub(0x100)
    }
}

// The stack: a 256-byte ring at $0100-$01FF addressed by the stack pointer,
// descending on push, ascending on pull, wrapping silently.

/// The memory address the stack pointer `sp` designates.
pub open spec fn stack_addr(sp: u8) -> u16 {
    (0x0100 + sp) as u16
}

/// Push one byte: store at the current stack slot, then decrement the stack
/// pointer modulo 256.
pub open spec fn push_byte_spec(s: MachineState, val: u8) -> MachineState {
    MachineState { sp: s.sp.wrapping_sub(1), ..s.with_byte(stack_addr(s.sp), val) }
}

/// Pull one byte: increment the stack pointer modulo 256, then read the slot
/// it now designates.  Returns the new state and the byte.
pub open spec fn pull_byte_spec(s: MachineState) -> (MachineState, u8) {
    let sp2 = s.sp.wrapping_add(1);
    (MachineState { sp: sp2, ..s }, s.byte_at(stack_addr(sp2)))
}

/// Push a word: high byte first, then low byte.
pub open spec fn push_word_spec(s: MachineState, w: u16) -> MachineState {
    push_byte_spec(push_byte_spec(s, (w / 256) as u8), (w % 256) as u8)
}

/// Pull a word: low byte first, then high byte.  Returns the new state and
/// the word.
pub open spec fn pull_word_spec(s: MachineState) -> (MachineState, u16) {
    let (s1, lo) = pull_byte_spec(s);
    let (s2, hi) = pull_byte_spec(s1);
    (s2, (lo + 256 * hi) as u16)
}

// ALU micro-operations: each takes the pre-instruction state and the
// operand byte and yields the state with the target register and the flags
// recomputed.

/// AND: bitwise-and the operand into the accumulator; N and Z follow the result.
pub open spec fn and_spec(s: MachineState, m: u8) -> MachineState {
    MachineState { a: s.a & m, ..s }.with_nz(s.a & m)
}

/// EOR: bitwise-xor the operand into the accumulator; N and Z follow the result.
pub open spec fn eor_spec(s: MachineState, m: u8) -> MachineState {
    MachineState { a: s.a ^ m, ..s }.with_nz(s.a ^ m)
}

/// ORA: bitwise-or the operand into the accumulator; N and Z follow the result.
pub open spec fn ora_spec(s: MachineState, m: u8) -> MachineState {
    MachineState { a: s.a | m, ..s }.with_nz(s.a | m)
}

/// BIT: Z records whether `a & m` is zero, while N and V are copied from
/// bits 7 and 6 of the memory operand itself; the accumulator is untouched.
pub open spec fn bit_spec(s: MachineState, m: u8) -> MachineState {
    MachineState { n: (m & 0x80) != 0, v: (m & 0x40) != 0, z: (s.a & m) == 0, ..s }
}

/// CMP/CPX/CPY: compare `reg` with the operand through modular 8-bit
/// subtraction.  C records `reg >= m`, N is bit 7 of the discarded
/// difference, Z records equality.
pub open spec fn compare_spec(s: MachineState, reg: u8, m: u8) -> MachineState {
    let t = reg.wrapping_sub(m);
    MachineState { c: reg >= m, n: (t & 0x80) != 0, z: t == 0, ..s }
}

/// ADC (binary mode): accumulator plus operand plus carry-in.  C is the
/// unsigned carry out; V is set when both addends share a sign bit that
/// differs from the result's sign bit; N and Z follow the result.
pub open spec fn adc_spec(s: MachineState, m: u8) -> MachineState {
    let total = s.a + m + (if s.c { 1int } else { 0int });
    let r = (total % 256) as u8;
    MachineState {
        a: r,
        c: total > 255,
        v: (s.a & 0x80) == (m & 0x80) && (r & 0x80) != (s.a & 0x80),
        ..s
    }.with_nz(r)
}

/// SBC (binary mode): accumulator minus operand minus borrow (the inverted
/// carry).  C is set when no borrow out occurs; V is set when the operands'
/// sign bits differ and the result's sign bit differs from the
/// accumulator's; N and Z follow the result.
pub open spec fn sbc_spec(s: MachineState, m: u8) -> MachineState {
    let total = s.a - m - (if s.c { 0int } else { 1int });
    let r = (total % 256) as u8;
    MachineState {
        a: r,
        c: total >= 0,
        v: (s.a & 0x80) != (m & 0x80) && (r & 0x80) != (s.a & 0x80),
        ..s
    }.with_nz(r)
}

// Shifts and rotates: one-bit moves through the carry.  Each yields the
// shifted byte and the carry out; the rotates feed the carry in at the
// opposite end.

/// ASL: shift left; bit 7 leaves through the carry, bit 0 becomes zero.
pub open spec fn asl_spec(val: u8, carry: bool) -> (u8, bool) {
    (((2 * val) % 256) as u8, val >= 0x80)
}

/// LSR: shift right; bit 0 leaves through the carry, bit 7 becomes zero.
pub open spec fn lsr_spec(val: u8, carry: bool) -> (u8, bool) {
    (val / 2, val % 2 == 1)
}

/// ROL: rotate left; bit 7 leaves through the carry, the old carry enters
/// at bit 0.
pub open spec fn rol_spec(val: u8, carry: bool) -> (u8, bool) {
    (((2 * val) % 256 + if carry { 1int } else { 0int }) as u8, val >= 0x80)
}

/// ROR: rotate right; bit 0 leaves through the carry, the old carry enters
/// at bit 7.
pub open spec fn ror_spec(val: u8, carry: bool) -> (u8, bool) {
    ((val / 2 + if carry { 0x80int } else { 0int }) as u8, val % 2 == 1)
}

/// The closed set of one-bit read-modify-write transformations.
#[derive(Clone, Copy, Debug, PartialEq, Eq, Structural)]
pub enum ShiftKind {
    /// Arithmetic shift left.
    Asl,
    /// Logical shift right.
    Lsr,
    /// Rotate left through the carry.
    Rol,
    /// Rotate right through the carry.
    Ror,
}

/// Applies the selected transformation to `val` with carry-in `carry`,
/// yielding the new byte and the carry out.
pub open spec fn shift_spec(kind: ShiftKind, val: u8, carry: bool) -> (u8, bool) {
    match kind {
        ShiftKind::Asl => asl_spec(val, carry),
        ShiftKind::Lsr => lsr_spec(val, carry),
        ShiftKind::Rol => rol_spec(val, carry),
        ShiftKind::Ror => ror_spec(val, carry),
    }
}

/// Read-modify-write at `addr`: the byte is transformed with the carry as
/// input, written back, the carry receives the bit shifted out, and N and Z
/// follow the new byte.
pub open spec fn mod_byte_spec(s: MachineState, addr: u16, kind: ShiftKind) -> MachineState {
    let (r, cout) = shift_spec(kind, s.byte_at(addr), s.c);
    MachineState { c: cout, ..s.with_byte(addr, r) }.with_nz(r)
}

} // verus!
