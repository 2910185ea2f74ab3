//! The full execution core: fetch, decode, execute.
//!
//! [`CPU`] owns the register file and a flat 64 KiB memory.  [`CPU::step`]
//! executes exactly one instruction and is proved to follow
//! [`CPU::step_spec`], the specification-level transition function; the
//! decoder is a data-driven table from opcode byte to an [`Instr`] value.

use vstd::prelude::*;

use crate::model::{
    adc_spec, and_spec, asl_spec, bit_spec, branch_target, compare_spec, ea_absi, ea_indx,
    ea_indy, ea_zpg, ea_zpgi, eor_spec, lsr_spec, mod_byte_spec, ora_spec, pull_byte_spec,
    pull_word_spec, push_byte_spec, push_word_spec, rol_spec, ror_spec, sbc_spec, shift_spec,
    MachineState, ShiftKind, MEM_SIZE,
};

verus! {

/// The processor's visible state: program counter, stack pointer, the A, X
/// and Y registers, the seven status flags, and memory.
#[derive(Debug)]
pub struct CPU {
    /// Program counter.
    pub pc: u16,
    /// Stack pointer into the page $0100-$01FF.
    pub sp: u8,
    /// Accumulator.
    pub a: u8,
    /// X index register.
    pub x: u8,
    /// Y index register.
    pub y: u8,
    /// Negative flag.
    pub n: bool,
    /// Overflow flag.
    pub v: bool,
    /// Break flag.
    pub b: bool,
    /// Decimal-mode flag.
    pub d: bool,
    /// Interrupt-disable flag.
    pub i: bool,
    /// Zero flag.
    pub z: bool,
    /// Carry flag.
    pub c: bool,
    /// The 64 KiB of memory.
    pub ram: Vec<u8>,
}

/// The two conditions that halt the run loop.  Both leave the program
/// counter pointing at the opcode that raised them.
#[derive(Debug, PartialEq, Eq, Structural)]
pub enum CPUError {
    /// The program executed BRK.
    Break,
    /// The opcode has no assigned decoding rule.
    IllegalOpcode,
}

impl View for CPU {
    type V = MachineState;

    open spec fn view(&self) -> MachineState {
        MachineState {
            pc: self.pc,
            sp: self.sp,
            a: self.a,
            x: self.x,
            y: self.y,
            n: self.n,
            v: self.v,
            b: self.b,
            d: self.d,
            i: self.i,
            z: self.z,
            c: self.c,
            mem: self.ram@,
        }
    }
}

impl CPU {
    /// The memory vector spans the full address space.
    pub open spec fn wf(self) -> bool {
        self@.mem_wf()
    }

    /// Power-on state: `pc = 0x0400`, `sp = 0xFF`, registers zero, flags
    /// clear, memory zero-filled.
    pub fn new() -> (r: Self)
        ensures
            r.wf(),
            r@.pc == 0x0400,
            r@.sp == 0xff,
            r@.a == 0 && r@.x == 0 && r@.y == 0,
            !r@.n && !r@.v && !r@.b && !r@.d && !r@.i && !r@.z && !r@.c,
            forall|addr: u16| r@.byte_at(addr) == 0,
    {
        let ram: Vec<u8> = vec![0u8; MEM_SIZE];
        let cpu = CPU {
            pc: 0x0400,
            sp: 0xff,
            a: 0,
            x: 0,
            y: 0,
            n: false,
            v: false,
            b: false,
            d: false,
            i: false,
            z: false,
            c: false,
            ram,
        };
        proof {
            assert forall|addr: u16| cpu@.byte_at(addr) == 0 by {
                assert(vstd::pervasive::cloned(0u8, cpu@.mem[addr as int]));
            }
        }
        cpu
    }

    /// Returns the byte at `addr`; the full 64 KiB space is uniformly
    /// readable RAM.
    pub fn get_byte(&self, addr: u16) -> (r: u8)
        requires
            self.wf(),
        ensures
            r == self@.byte_at(addr),
    {
        self.ram[addr as usize]
    }

    /// Stores `val` at `addr`.
    pub fn set_byte(&mut self, addr: u16, val: u8)
        requires
            old(self).wf(),
        ensures
            final(self).wf(),
            final(self)@ == old(self)@.with_byte(addr, val),
    {
        self.ram[addr as usize] = val;
    }

    /// Returns the little-endian word at `addr`: low byte at `addr`, high
    /// byte at `addr + 1`, the second address wrapping modulo 65536.
    pub fn get_word(&self, addr: u16) -> (r: u16)
        requires
            self.wf(),
        ensures
            r == self@.word_at(addr),
    {
        self.get_byte(addr) as u16 + 256 * self.get_byte(addr.wrapping_add(1)) as u16
    }

    /// Stores `w` at `addr` little-endian: low byte at `addr`, high byte at
    /// `addr + 1`, the second address wrapping modulo 65536.
    pub fn set_word(&mut self, addr: u16, w: u16)
        requires
            old(self).wf(),
        ensures
            final(self).wf(),
            final(self)@ == old(self)@.with_word(addr, w),
    {
        self.set_byte(addr, (w % 256) as u8);
        self.set_byte(addr.wrapping_add(1), (w / 256) as u8);
    }

    /// Copies `program` into memory starting at `addr`.  The caller must not
    /// supply a sequence that would run past address 0xFFFF.
    pub fn load(&mut self, addr: u16, program: Vec<u8>)
        requires
            old(self).wf(),
            addr + program@.len() <= 0x10000,
        ensures
            final(self).wf(),
            final(self)@.pc == old(self)@.pc,
            final(self)@.sp == old(self)@.sp,
            final(self)@.a == old(self)@.a,
            final(self)@.x == old(self)@.x,
            final(self)@.y == old(self)@.y,
            final(self)@.n == old(self)@.n && final(self)@.v == old(self)@.v,
            final(self)@.b == old(self)@.b && final(self)@.d == old(self)@.d,
            final(self)@.i == old(self)@.i && final(self)@.z == old(self)@.z,
            final(self)@.c == old(self)@.c,
            forall|k: int|
                0 <= k < program@.len() ==> final(self)@.mem[addr + k] == program@[k],
            forall|j: int|
                0 <= j < 0x10000 && !(addr <= j < addr + program@.len())
                    ==> final(self)@.mem[j] == old(self)@.mem[j],
    {
        let mut idx: usize = 0;
        while idx < program.len()
            invariant
                self.wf(),
                addr + program@.len() <= 0x10000,
                idx <= program@.len(),
                self@.pc == old(self)@.pc,
                self@.sp == old(self)@.sp,
                self@.a == old(self)@.a,
                self@.x == old(self)@.x,
                self@.y == old(self)@.y,
                self@.n == old(self)@.n && self@.v == old(self)@.v,
                self@.b == old(self)@.b && self@.d == old(self)@.d,
                self@.i == old(self)@.i && self@.z == old(self)@.z,
                self@.c == old(self)@.c,
                forall|k: int| 0 <= k < idx ==> self@.mem[addr + k] == program@[k],
                forall|j: int|
                    0 <= j < 0x10000 && !(addr <= j < addr + program@.len())
                        ==> self@.mem[j] == old(self)@.mem[j],
            decreases program@.len() - idx,
        {
            let target: u16 = addr + idx as u16;
            self.set_byte(target, program[idx]);
            idx = idx + 1;
        }
    }

    /// The seven flags packed into one status byte: bit 7 = N, 6 = V,
    /// 4 = B, 3 = D, 2 = I, 1 = Z, 0 = C.
    pub fn get_status(&self) -> (st: u8)
        ensures
            st == self@.status_byte(),
    {
        (if self.n { 0x80u8 } else { 0u8 }) | (if self.v { 0x40u8 } else { 0u8 })
            | (if self.b { 0x10u8 } else { 0u8 }) | (if self.d { 0x08u8 } else { 0u8 })
            | (if self.i { 0x04u8 } else { 0u8 }) | (if self.z { 0x02u8 } else { 0u8 })
            | (if self.c { 0x01u8 } else { 0u8 })
    }

    /// Unpacks all seven flags from the status byte `st`.
    pub fn set_status(&mut self, st: u8)
        ensures
            final(self)@ == old(self)@.with_status(st),
    {
        self.n = (st & 0x80) != 0;
        self.v = (st & 0x40) != 0;
        self.b = (st & 0x10) != 0;
        self.d = (st & 0x08) != 0;
        self.i = (st & 0x04) != 0;
        self.z = (st & 0x02) != 0;
        self.c = (st & 0x01) != 0;
    }

    /// Fetches the byte at the program counter and advances it by one,
    /// wrapping modulo 65536.
    pub fn fetch_byte(&mut self) -> (v: u8)
        requires
            old(self).wf(),
        ensures
            final(self).wf(),
            v == old(self)@.byte_at(old(self)@.pc),
            final(self)@ == old(self)@.advanced(1),
    {
        let v = self.get_byte(self.pc);
        self.pc = self.pc.wrapping_add(1);
        v
    }

    /// Fetches the little-endian word at the program counter and advances it
    /// by two, wrapping modulo 65536.
    pub fn fetch_word(&mut self) -> (v: u16)
        requires
            old(self).wf(),
        ensures
            final(self).wf(),
            v == old(self)@.word_at(old(self)@.pc),
            final(self)@ == old(self)@.advanced(2),
    {
        let v = self.get_word(self.pc);
        self.pc = self.pc.wrapping_add(2);
        v
    }

    /// Pushes one byte onto the stack page and decrements the stack pointer,
    /// wrapping modulo 256.
    pub fn push_byte(&mut self, val: u8)
        requires
            old(self).wf(),
        ensures
            final(self).wf(),
            final(self)@ == push_byte_spec(old(self)@, val),
    {
        let addr: u16 = 0x0100 + self.sp as u16;
        self.set_byte(addr, val);
        self.sp = self.sp.wrapping_sub(1);
    }

    /// Increments the stack pointer, wrapping modulo 256, and pulls the byte
    /// it now designates.
    pub fn pull_byte(&mut self) -> (v: u8)
        requires
            old(self).wf(),
        ensures
            final(self).wf(),
            final(self)@ == pull_byte_spec(old(self)@).0,
            v == pull_byte_spec(old(self)@).1,
    {
        self.sp = self.sp.wrapping_add(1);
        self.get_byte(0x0100 + self.sp as u16)
    }

    /// Pushes a word: high byte first, then low byte.
    pub fn push_word(&mut self, w: u16)
        requires
            old(self).wf(),
        ensures
            final(self).wf(),
            final(self)@ == push_word_spec(old(self)@, w),
    {
        self.push_byte((w / 256) as u8);
        self.push_byte((w % 256) as u8);
    }

    /// Pulls a word: low byte first, then high byte.
    pub fn pull_word(&mut self) -> (v: u16)
        requires
            old(self).wf(),
        ensures
            final(self).wf(),
            final(self)@ == pull_word_spec(old(self)@).0,
            v == pull_word_spec(old(self)@).1,
    {
        let lo = self.pull_byte();
        let hi = self.pull_byte();
        lo as u16 + 256 * hi as u16
    }

    /// Recomputes the N and Z flags from `val`.
    pub fn update_nz(&mut self, val: u8)
        ensures
            final(self)@ == old(self)@.with_nz(val),
    {
        self.n = (val & 0x80) != 0;
        self.z = val == 0;
    }
}

// ALU micro-operations: each mutates the register file and recomputes the
// flags exactly as its specification-level counterpart in `model` states.

impl CPU {
    /// AND the operand into the accumulator; N and Z follow the result.
    pub fn and(&mut self, m: u8)
        ensures
            final(self)@ == and_spec(old(self)@, m),
    {
        let r = self.a & m;
        self.a = r;
        self.update_nz(r);
    }

    /// XOR the operand into the accumulator; N and Z follow the result.
    pub fn eor(&mut self, m: u8)
        ensures
            final(self)@ == eor_spec(old(self)@, m),
    {
        let r = self.a ^ m;
        self.a = r;
        self.update_nz(r);
    }

    /// OR the operand into the accumulator; N and Z follow the result.
    pub fn ora(&mut self, m: u8)
        ensures
            final(self)@ == ora_spec(old(self)@, m),
    {
        let r = self.a | m;
        self.a = r;
        self.update_nz(r);
    }

    /// Compare the accumulator with the operand: C = `a >= m`, N and Z from
    /// the discarded modular difference.
    pub fn cmp(&mut self, m: u8)
        ensures
            final(self)@ == compare_spec(old(self)@, old(self)@.a, m),
    {
        let t = self.a.wrapping_sub(m);
        self.c = self.a >= m;
        self.n = (t & 0x80) != 0;
        self.z = t == 0;
    }

    /// Compare the X register with the operand.
    pub fn cpx(&mut self, m: u8)
        ensures
            final(self)@ == compare_spec(old(self)@, old(self)@.x, m),
    {
        let t = self.x.wrapping_sub(m);
        self.c = self.x >= m;
        self.n = (t & 0x80) != 0;
        self.z = t == 0;
    }

    /// Compare the Y register with the operand.
    pub fn cpy(&mut self, m: u8)
        ensures
            final(self)@ == compare_spec(old(self)@, old(self)@.y, m),
    {
        let t = self.y.wrapping_sub(m);
        self.c = self.y >= m;
        self.n = (t & 0x80) != 0;
        self.z = t == 0;
    }

    /// BIT: Z from `a & m`; N and V copied from bits 7 and 6 of the memory
    /// operand itself.  The accumulator is unmodified.
    pub fn bit(&mut self, m: u8)
        ensures
            final(self)@ == bit_spec(old(self)@, m),
    {
        let t = self.a & m;
        self.n = (m & 0x80) != 0;
        self.v = (m & 0x40) != 0;
        self.z = t == 0;
    }

    /// ADC, binary mode: accumulator plus operand plus carry-in, with carry
    /// out in C and signed overflow in V.  The D flag is ignored.
    pub fn adc(&mut self, m: u8)
        ensures
            final(self)@ == adc_spec(old(self)@, m),
    {
        let cin: u16 = if self.c { 1 } else { 0 };
        let total: u16 = self.a as u16 + m as u16 + cin;
        let r: u8 = (total % 256) as u8;
        self.c = total > 255;
        self.v = (self.a & 0x80) == (m & 0x80) && (r & 0x80) != (self.a & 0x80);
        self.a = r;
        self.update_nz(r);
    }

    /// SBC, binary mode: accumulator minus operand minus borrow (inverted
    /// carry), with no-borrow in C and signed overflow in V.  The D flag is
    /// ignored.
    pub fn sbc(&mut self, m: u8)
        ensures
            final(self)@ == sbc_spec(old(self)@, m),
    {
        let borrow: u16 = if self.c { 0 } else { 1 };
        let total: u16 = 256 + self.a as u16 - m as u16 - borrow;
        let r: u8 = (total % 256) as u8;
        proof {
            let diff = old(self)@.a - m - (if old(self)@.c { 0int } else { 1int });
            vstd::arithmetic::div_mod::lemma_mod_add_multiples_vanish(diff, 256);
        }
        self.c = self.a as u16 >= m as u16 + borrow;
        self.v = (self.a & 0x80) != (m & 0x80) && (r & 0x80) != (self.a & 0x80);
        self.a = r;
        self.update_nz(r);
    }
}

// Shifts and rotates: the closed set of one-bit transformation functions,
// each taking a byte and the carry in and returning the shifted byte and
// the carry out.

/// ASL: shift left one bit; bit 7 leaves through the carry.
pub fn asl(val: u8, carry: bool) -> (r: (u8, bool))
    ensures
        r == asl_spec(val, carry),
{
    (((2 * val as u16) % 256) as u8, val >= 0x80)
}

/// LSR: shift right one bit; bit 0 leaves through the carry.
pub fn lsr(val: u8, carry: bool) -> (r: (u8, bool))
    ensures
        r == lsr_spec(val, carry),
{
    (val / 2, val % 2 == 1)
}

/// ROL: rotate left one bit through the carry.
pub fn rol(val: u8, carry: bool) -> (r: (u8, bool))
    ensures
        r == rol_spec(val, carry),
{
    (((2 * val as u16) % 256 + if carry { 1u16 } else { 0u16 }) as u8, val >= 0x80)
}

/// ROR: rotate right one bit through the carry.
pub fn ror(val: u8, carry: bool) -> (r: (u8, bool))
    ensures
        r == ror_spec(val, carry),
{
    (val / 2 + if carry { 0x80u8 } else { 0u8 }, val % 2 == 1)
}

// Addressing-mode accessors: each takes the already-fetched raw operand and
// reads or writes the byte at the effective address that the mode resolves
// to, with the modular wrap-around of the model's `ea_*` functions.

impl CPU {
    /// Read under zero-page addressing: the operand is the address.
    pub fn mem_get_byte_zpg(&self, addr: u8) -> (r: u8)
        requires
            self.wf(),
        ensures
            r == self@.byte_at(ea_zpg(addr)),
    {
        self.get_byte(addr as u16)
    }

    /// Read under zero-page,X addressing: operand plus X, modulo 256.
    pub fn mem_get_byte_zpgx(&self, addr: u8) -> (r: u8)
        requires
            self.wf(),
        ensures
            r == self@.byte_at(ea_zpgi(addr, self@.x)),
    {
        self.get_byte(addr.wrapping_add(self.x) as u16)
    }

    /// Read under zero-page,Y addressing: operand plus Y, modulo 256.
    pub fn mem_get_byte_zpgy(&self, addr: u8) -> (r: u8)
        requires
            self.wf(),
        ensures
            r == self@.byte_at(ea_zpgi(addr, self@.y)),
    {
        self.get_byte(addr.wrapping_add(self.y) as u16)
    }

    /// Read under absolute addressing: the operand word is the address.
    pub fn mem_get_byte_abs(&self, addr: u16) -> (r: u8)
        requires
            self.wf(),
        ensures
            r == self@.byte_at(addr),
    {
        self.get_byte(addr)
    }

    /// Read under absolute,X addressing: operand plus X, modulo 65536.
    pub fn mem_get_byte_absx(&self, addr: u16) -> (r: u8)
        requires
            self.wf(),
        ensures
            r == self@.byte_at(ea_absi(addr, self@.x)),
    {
        self.get_byte(addr.wrapping_add(self.x as u16))
    }

    /// Read under absolute,Y addressing: operand plus Y, modulo 65536.
    pub fn mem_get_byte_absy(&self, addr: u16) -> (r: u8)
        requires
            self.wf(),
        ensures
            r == self@.byte_at(ea_absi(addr, self@.y)),
    {
        self.get_byte(addr.wrapping_add(self.y as u16))
    }

    /// Read under indexed-indirect addressing: operand plus X modulo 256
    /// names a zero-page pointer to the effective address.
    pub fn mem_get_byte_indx(&self, addr: u8) -> (r: u8)
        requires
            self.wf(),
        ensures
            r == self@.byte_at(ea_indx(self@, addr, self@.x)),
    {
        self.get_byte(self.get_word(addr.wrapping_add(self.x) as u16))
    }

    /// Read under indirect-indexed addressing: the operand names a zero-page
    /// pointer to a base address; Y is added modulo 65536.
    pub fn mem_get_byte_indy(&self, addr: u8) -> (r: u8)
        requires
            self.wf(),
        ensures
            r == self@.byte_at(ea_indy(self@, addr, self@.y)),
    {
        self.get_byte(self.get_word(addr as u16).wrapping_add(self.y as u16))
    }

    /// Write under zero-page addressing.
    pub fn mem_set_byte_zpg(&mut self, addr: u8, val: u8)
        requires
            old(self).wf(),
        ensures
            final(self).wf(),
            final(self)@ == old(self)@.with_byte(ea_zpg(addr), val),
    {
        self.set_byte(addr as u16, val);
    }

    /// Write under zero-page,X addressing.
    pub fn mem_set_byte_zpgx(&mut self, addr: u8, val: u8)
        requires
            old(self).wf(),
        ensures
            final(self).wf(),
            final(self)@ == old(self)@.with_byte(ea_zpgi(addr, old(self)@.x), val),
    {
        self.set_byte(addr.wrapping_add(self.x) as u16, val);
    }

    /// Write under zero-page,Y addressing.
    pub fn mem_set_byte_zpgy(&mut self, addr: u8, val: u8)
        requires
            old(self).wf(),
        ensures
            final(self).wf(),
            final(self)@ == old(self)@.with_byte(ea_zpgi(addr, old(self)@.y), val),
    {
        self.set_byte(addr.wrapping_add(self.y) as u16, val);
    }

    /// Write under absolute addressing.
    pub fn mem_set_byte_abs(&mut self, addr: u16, val: u8)
        requires
            old(self).wf(),
        ensures
            final(self).wf(),
            final(self)@ == old(self)@.with_byte(addr, val),
    {
        self.set_byte(addr, val);
    }

    /// Write under absolute,X addressing.
    pub fn mem_set_byte_absx(&mut self, addr: u16, val: u8)
        requires
            old(self).wf(),
        ensures
            final(self).wf(),
            final(self)@ == old(self)@.with_byte(ea_absi(addr, old(self)@.x), val),
    {
        self.set_byte(addr.wrapping_add(self.x as u16), val);
    }

    /// Write under absolute,Y addressing.
    pub fn mem_set_byte_absy(&mut self, addr: u16, val: u8)
        requires
            old(self).wf(),
        ensures
            final(self).wf(),
            final(self)@ == old(self)@.with_byte(ea_absi(addr, old(self)@.y), val),
    {
        self.set_byte(addr.wrapping_add(self.y as u16), val);
    }

    /// Write under indexed-indirect addressing.
    pub fn mem_set_byte_indx(&mut self, addr: u8, val: u8)
        requires
            old(self).wf(),
        ensures
            final(self).wf(),
            final(self)@ == old(self)@.with_byte(ea_indx(old(self)@, addr, old(self)@.x), val),
    {
        let target = self.get_word(addr.wrapping_add(self.x) as u16);
        self.set_byte(target, val);
    }

    /// Write under indirect-indexed addressing.
    pub fn mem_set_byte_indy(&mut self, addr: u8, val: u8)
        requires
            old(self).wf(),
        ensures
            final(self).wf(),
            final(self)@ == old(self)@.with_byte(ea_indy(old(self)@, addr, old(self)@.y), val),
    {
        let target = self.get_word(addr as u16).wrapping_add(self.y as u16);
        self.set_byte(target, val);
    }

    /// Read-modify-write at `addr`: applies the selected shift or rotate
    /// with the carry as input, writes the result back, and updates C, N
    /// and Z.
    pub fn mod_byte(&mut self, addr: u16, kind: ShiftKind)
        requires
            old(self).wf(),
        ensures
            final(self).wf(),
            final(self)@ == mod_byte_spec(old(self)@, addr, kind),
    {
        let val = self.get_byte(addr);
        let (r, cout) = match kind {
            ShiftKind::Asl => asl(val, self.c),
            ShiftKind::Lsr => lsr(val, self.c),
            ShiftKind::Rol => rol(val, self.c),
            ShiftKind::Ror => ror(val, self.c),
        };
        self.set_byte(addr, r);
        self.c = cout;
        self.update_nz(r);
    }

    /// Read-modify-write under zero-page addressing.
    pub fn mem_mod_byte_zpg(&mut self, addr: u8, kind: ShiftKind)
        requires
            old(self).wf(),
        ensures
            final(self).wf(),
            final(self)@ == mod_byte_spec(old(self)@, ea_zpg(addr), kind),
    {
        self.mod_byte(addr as u16, kind);
    }

    /// Read-modify-write under zero-page,X addressing.
    pub fn mem_mod_byte_zpgx(&mut self, addr: u8, kind: ShiftKind)
        requires
            old(self).wf(),
        ensures
            final(self).wf(),
            final(self)@ == mod_byte_spec(old(self)@, ea_zpgi(addr, old(self)@.x), kind),
    {
        let target = addr.wrapping_add(self.x);
        self.mod_byte(target as u16, kind);
    }

    /// Read-modify-write under absolute addressing.
    pub fn mem_mod_byte_abs(&mut self, addr: u16, kind: ShiftKind)
        requires
            old(self).wf(),
        ensures
            final(self).wf(),
            final(self)@ == mod_byte_spec(old(self)@, addr, kind),
    {
        self.mod_byte(addr, kind);
    }

    /// Read-modify-write under absolute,X addressing.
    pub fn mem_mod_byte_absx(&mut self, addr: u16, kind: ShiftKind)
        requires
            old(self).wf(),
        ensures
            final(self).wf(),
            final(self)@ == mod_byte_spec(old(self)@, ea_absi(addr, old(self)@.x), kind),
    {
        let target = addr.wrapping_add(self.x as u16);
        self.mod_byte(target, kind);
    }
}

// The decoder: a data-driven table from opcode byte to instruction.  Each
// instruction pairs a micro-operation with an addressing mode; the executor
// then handles each small family of instructions uniformly.

/// The eight addressing modes, plus immediate operands.  For a uniform
/// resolver, an immediate operand is treated as "the effective address is
/// the program counter itself".
#[derive(Clone, Copy, Debug, PartialEq, Eq, Structural)]
pub enum AddrMode {
    /// Immediate: the operand byte itself is the value.
    Imm,
    /// Zero page.
    Zpg,
    /// Zero page indexed by X.
    Zpgx,
    /// Zero page indexed by Y.
    Zpgy,
    /// Absolute.
    Abs,
    /// Absolute indexed by X.
    Absx,
    /// Absolute indexed by Y.
    Absy,
    /// Indexed indirect: (operand + X) names a zero-page pointer.
    Indx,
    /// Indirect indexed: operand names a zero-page pointer, then Y is added.
    Indy,
}

/// The micro-operations that read one operand byte and update a register
/// and the flags.
#[derive(Clone, Copy, Debug, PartialEq, Eq, Structural)]
pub enum AluOp {
    /// Load accumulator.
    Lda,
    /// Load X.
    Ldx,
    /// Load Y.
    Ldy,
    /// Bitwise AND into the accumulator.
    And,
    /// Bitwise XOR into the accumulator.
    Eor,
    /// Bitwise OR into the accumulator.
    Ora,
    /// Add with carry.
    Adc,
    /// Subtract with borrow.
    Sbc,
    /// Compare with the accumulator.
    Cmp,
    /// Compare with X.
    Cpx,
    /// Compare with Y.
    Cpy,
    /// Bit test.
    Bit,
}

/// The register a store instruction writes to memory.
#[derive(Clone, Copy, Debug, PartialEq, Eq, Structural)]
pub enum StoreReg {
    /// STA: store the accumulator.
    Sta,
    /// STX: store X.
    Stx,
    /// STY: store Y.
    Sty,
}

/// The flag a branch instruction tests.
#[derive(Clone, Copy, Debug, PartialEq, Eq, Structural)]
pub enum FlagCond {
    /// The carry flag.
    Carry,
    /// The zero flag.
    Zero,
    /// The negative flag.
    Neg,
    /// The overflow flag.
    Ovf,
}

/// One decoded instruction: a micro-operation together with its addressing
/// mode where one applies.
#[derive(Clone, Copy, Debug, PartialEq, Eq, Structural)]
pub enum Instr {
    /// Fetch an operand byte under the mode and run the ALU operation.
    Read(AluOp, AddrMode),
    /// Store a register at the resolved address.
    Store(StoreReg, AddrMode),
    /// Shift or rotate the accumulator in place.
    ShiftAcc(ShiftKind),
    /// Shift or rotate a memory byte in place.
    ShiftMem(ShiftKind, AddrMode),
    /// Increment a memory byte modulo 256.
    IncMem(AddrMode),
    /// Decrement a memory byte modulo 256.
    DecMem(AddrMode),
    /// Increment X modulo 256.
    Inx,
    /// Increment Y modulo 256.
    Iny,
    /// Decrement X modulo 256.
    Dex,
    /// Decrement Y modulo 256.
    Dey,
    /// Transfer A to X.
    Tax,
    /// Transfer A to Y.
    Tay,
    /// Transfer the stack pointer to X.
    Tsx,
    /// Transfer X to A.
    Txa,
    /// Transfer X to the stack pointer (no flags).
    Txs,
    /// Transfer Y to A.
    Tya,
    /// Push the accumulator.
    Pha,
    /// Push the status byte with bits 5 and 4 forced set.
    Php,
    /// Pull the accumulator.
    Pla,
    /// Pull the status byte into the flags.
    Plp,
    /// Clear the carry flag.
    Clc,
    /// Clear the decimal flag.
    Cld,
    /// Clear the interrupt-disable flag.
    Cli,
    /// Clear the overflow flag.
    Clv,
    /// Set the carry flag.
    Sec,
    /// Set the decimal flag.
    Sed,
    /// Set the interrupt-disable flag.
    Sei,
    /// Jump to the operand address.
    JmpAbs,
    /// Jump through the pointer at the operand address.  The pointer's two
    /// bytes are read with full 16-bit increment (no page-wrap quirk).
    JmpInd,
    /// Call: push the return address, high byte first, then jump.
    Jsr,
    /// Return: pull the return address, low byte first.
    Rts,
    /// Branch by the sign-extended displacement when the flag has the given
    /// value.
    Branch(FlagCond, bool),
    /// Break: halt the run loop.
    Brk,
    /// Return from interrupt: interrupt servicing is out of scope, so this
    /// decodes but does nothing.
    Rti,
    /// No operation.
    Nop,
}

/// The decode table: which instruction, if any, an opcode byte names.
pub open spec fn spec_decode(op: u8) -> Option<Instr> {
    match op {
        // LDA
        0xA9u8 => Option::Some(Instr::Read(AluOp::Lda, AddrMode::Imm)),
        0xA5u8 => Option::Some(Instr::Read(AluOp::Lda, AddrMode::Zpg)),
        0xB5u8 => Option::Some(Instr::Read(AluOp::Lda, AddrMode::Zpgx)),
        0xADu8 => Option::Some(Instr::Read(AluOp::Lda, AddrMode::Abs)),
        0xBDu8 => Option::Some(Instr::Read(AluOp::Lda, AddrMode::Absx)),
        0xB9u8 => Option::Some(Instr::Read(AluOp::Lda, AddrMode::Absy)),
        0xA1u8 => Option::Some(Instr::Read(AluOp::Lda, AddrMode::Indx)),
        0xB1u8 => Option::Some(Instr::Read(AluOp::Lda, AddrMode::Indy)),
        // LDX
        0xA2u8 => Option::Some(Instr::Read(AluOp::Ldx, AddrMode::Imm)),
        0xA6u8 => Option::Some(Instr::Read(AluOp::Ldx, AddrMode::Zpg)),
        0xB6u8 => Option::Some(Instr::Read(AluOp::Ldx, AddrMode::Zpgy)),
        0xAEu8 => Option::Some(Instr::Read(AluOp::Ldx, AddrMode::Abs)),
        0xBEu8 => Option::Some(Instr::Read(AluOp::Ldx, AddrMode::Absy)),
        // LDY
        0xA0u8 => Option::Some(Instr::Read(AluOp::Ldy, AddrMode::Imm)),
        0xA4u8 => Option::Some(Instr::Read(AluOp::Ldy, AddrMode::Zpg)),
        0xB4u8 => Option::Some(Instr::Read(AluOp::Ldy, AddrMode::Zpgx)),
        0xACu8 => Option::Some(Instr::Read(AluOp::Ldy, AddrMode::Abs)),
        0xBCu8 => Option::Some(Instr::Read(AluOp::Ldy, AddrMode::Absx)),
        // STA
        0x85u8 => Option::Some(Instr::Store(StoreReg::Sta, AddrMode::Zpg)),
        0x95u8 => Option::Some(Instr::Store(StoreReg::Sta, AddrMode::Zpgx)),
        0x8Du8 => Option::Some(Instr::Store(StoreReg::Sta, AddrMode::Abs)),
        0x9Du8 => Option::Some(Instr::Store(StoreReg::Sta, AddrMode::Absx)),
        0x99u8 => Option::Some(Instr::Store(StoreReg::Sta, AddrMode::Absy)),
        0x81u8 => Option::Some(Instr::Store(StoreReg::Sta, AddrMode::Indx)),
        0x91u8 => Option::Some(Instr::Store(StoreReg::Sta, AddrMode::Indy)),
        // STX
        0x86u8 => Option::Some(Instr::Store(StoreReg::Stx, AddrMode::Zpg)),
        0x96u8 => Option::Some(Instr::Store(StoreReg::Stx, AddrMode::Zpgy)),
        0x8Eu8 => Option::Some(Instr::Store(StoreReg::Stx, AddrMode::Abs)),
        // STY
        0x84u8 => Option::Some(Instr::Store(StoreReg::Sty, AddrMode::Zpg)),
        0x94u8 => Option::Some(Instr::Store(StoreReg::Sty, AddrMode::Zpgx)),
        0x8Cu8 => Option::Some(Instr::Store(StoreReg::Sty, AddrMode::Abs)),
        // Register transfers
        0xAAu8 => Option::Some(Instr::Tax),
        0xA8u8 => Option::Some(Instr::Tay),
        0xBAu8 => Option::Some(Instr::Tsx),
        0x8Au8 => Option::Some(Instr::Txa),
        0x9Au8 => Option::Some(Instr::Txs),
        0x98u8 => Option::Some(Instr::Tya),
        // Stack
        0x48u8 => Option::Some(Instr::Pha),
        0x08u8 => Option::Some(Instr::Php),
        0x68u8 => Option::Some(Instr::Pla),
        0x28u8 => Option::Some(Instr::Plp),
        // Increments and decrements
        0xE6u8 => Option::Some(Instr::IncMem(AddrMode::Zpg)),
        0xF6u8 => Option::Some(Instr::IncMem(AddrMode::Zpgx)),
        0xEEu8 => Option::Some(Instr::IncMem(AddrMode::Abs)),
        0xFEu8 => Option::Some(Instr::IncMem(AddrMode::Absx)),
        0xE8u8 => Option::Some(Instr::Inx),
        0xC8u8 => Option::Some(Instr::Iny),
        0xC6u8 => Option::Some(Instr::DecMem(AddrMode::Zpg)),
        0xD6u8 => Option::Some(Instr::DecMem(AddrMode::Zpgx)),
        0xCEu8 => Option::Some(Instr::DecMem(AddrMode::Abs)),
        0xDEu8 => Option::Some(Instr::DecMem(AddrMode::Absx)),
        0xCAu8 => Option::Some(Instr::Dex),
        0x88u8 => Option::Some(Instr::Dey),
        // ADC
        0x69u8 => Option::Some(Instr::Read(AluOp::Adc, AddrMode::Imm)),
        0x65u8 => Option::Some(Instr::Read(AluOp::Adc, AddrMode::Zpg)),
        0x75u8 => Option::Some(Instr::Read(AluOp::Adc, AddrMode::Zpgx)),
        0x6Du8 => Option::Some(Instr::Read(AluOp::Adc, AddrMode::Abs)),
        0x7Du8 => Option::Some(Instr::Read(AluOp::Adc, AddrMode::Absx)),
        0x79u8 => Option::Some(Instr::Read(AluOp::Adc, AddrMode::Absy)),
        0x61u8 => Option::Some(Instr::Read(AluOp::Adc, AddrMode::Indx)),
        0x71u8 => Option::Some(Instr::Read(AluOp::Adc, AddrMode::Indy)),
        // SBC
        0xE9u8 => Option::Some(Instr::Read(AluOp::Sbc, AddrMode::Imm)),
        0xE5u8 => Option::Some(Instr::Read(AluOp::Sbc, AddrMode::Zpg)),
        0xF5u8 => Option::Some(Instr::Read(AluOp::Sbc, AddrMode::Zpgx)),
        0xEDu8 => Option::Some(Instr::Read(AluOp::Sbc, AddrMode::Abs)),
        0xFDu8 => Option::Some(Instr::Read(AluOp::Sbc, AddrMode::Absx)),
        0xF9u8 => Option::Some(Instr::Read(AluOp::Sbc, AddrMode::Absy)),
        0xE1u8 => Option::Some(Instr::Read(AluOp::Sbc, AddrMode::Indx)),
        0xF1u8 => Option::Some(Instr::Read(AluOp::Sbc, AddrMode::Indy)),
        // Jumps and subroutines
        0x4Cu8 => Option::Some(Instr::JmpAbs),
        0x6Cu8 => Option::Some(Instr::JmpInd),
        0x20u8 => Option::Some(Instr::Jsr),
        0x60u8 => Option::Some(Instr::Rts),
        // AND
        0x29u8 => Option::Some(Instr::Read(AluOp::And, AddrMode::Imm)),
        0x25u8 => Option::Some(Instr::Read(AluOp::And, AddrMode::Zpg)),
        0x35u8 => Option::Some(Instr::Read(AluOp::And, AddrMode::Zpgx)),
        0x2Du8 => Option::Some(Instr::Read(AluOp::And, AddrMode::Abs)),
        0x3Du8 => Option::Some(Instr::Read(AluOp::And, AddrMode::Absx)),
        0x39u8 => Option::Some(Instr::Read(AluOp::And, AddrMode::Absy)),
        0x21u8 => Option::Some(Instr::Read(AluOp::And, AddrMode::Indx)),
        0x31u8 => Option::Some(Instr::Read(AluOp::And, AddrMode::Indy)),
        // EOR
        0x49u8 => Option::Some(Instr::Read(AluOp::Eor, AddrMode::Imm)),
        0x45u8 => Option::Some(Instr::Read(AluOp::Eor, AddrMode::Zpg)),
        0x55u8 => Option::Some(Instr::Read(AluOp::Eor, AddrMode::Zpgx)),
        0x4Du8 => Option::Some(Instr::Read(AluOp::Eor, AddrMode::Abs)),
        0x5Du8 => Option::Some(Instr::Read(AluOp::Eor, AddrMode::Absx)),
        0x59u8 => Option::Some(Instr::Read(AluOp::Eor, AddrMode::Absy)),
        0x41u8 => Option::Some(Instr::Read(AluOp::Eor, AddrMode::Indx)),
        0x51u8 => Option::Some(Instr::Read(AluOp::Eor, AddrMode::Indy)),
        // ORA
        0x09u8 => Option::Some(Instr::Read(AluOp::Ora, AddrMode::Imm)),
        0x05u8 => Option::Some(Instr::Read(AluOp::Ora, AddrMode::Zpg)),
        0x15u8 => Option::Some(Instr::Read(AluOp::Ora, AddrMode::Zpgx)),
        0x0Du8 => Option::Some(Instr::Read(AluOp::Ora, AddrMode::Abs)),
        0x1Du8 => Option::Some(Instr::Read(AluOp::Ora, AddrMode::Absx)),
        0x19u8 => Option::Some(Instr::Read(AluOp::Ora, AddrMode::Absy)),
        0x01u8 => Option::Some(Instr::Read(AluOp::Ora, AddrMode::Indx)),
        0x11u8 => Option::Some(Instr::Read(AluOp::Ora, AddrMode::Indy)),
        // Shifts and rotates
        0x0Au8 => Option::Some(Instr::ShiftAcc(ShiftKind::Asl)),
        0x06u8 => Option::Some(Instr::ShiftMem(ShiftKind::Asl, AddrMode::Zpg)),
        0x16u8 => Option::Some(Instr::ShiftMem(ShiftKind::Asl, AddrMode::Zpgx)),
        0x0Eu8 => Option::Some(Instr::ShiftMem(ShiftKind::Asl, AddrMode::Abs)),
        0x1Eu8 => Option::Some(Instr::ShiftMem(ShiftKind::Asl, AddrMode::Absx)),
        0x4Au8 => Option::Some(Instr::ShiftAcc(ShiftKind::Lsr)),
        0x46u8 => Option::Some(Instr::ShiftMem(ShiftKind::Lsr, AddrMode::Zpg)),
        0x56u8 => Option::Some(Instr::ShiftMem(ShiftKind::Lsr, AddrMode::Zpgx)),
        0x4Eu8 => Option::Some(Instr::ShiftMem(ShiftKind::Lsr, AddrMode::Abs)),
        0x5Eu8 => Option::Some(Instr::ShiftMem(ShiftKind::Lsr, AddrMode::Absx)),
        0x2Au8 => Option::Some(Instr::ShiftAcc(ShiftKind::Rol)),
        0x26u8 => Option::Some(Instr::ShiftMem(ShiftKind::Rol, AddrMode::Zpg)),
        0x36u8 => Option::Some(Instr::ShiftMem(ShiftKind::Rol, AddrMode::Zpgx)),
        0x2Eu8 => Option::Some(Instr::ShiftMem(ShiftKind::Rol, AddrMode::Abs)),
        0x3Eu8 => Option::Some(Instr::ShiftMem(ShiftKind::Rol, AddrMode::Absx)),
        0x6Au8 => Option::Some(Instr::ShiftAcc(ShiftKind::Ror)),
        0x66u8 => Option::Some(Instr::ShiftMem(ShiftKind::Ror, AddrMode::Zpg)),
        0x76u8 => Option::Some(Instr::ShiftMem(ShiftKind::Ror, AddrMode::Zpgx)),
        0x6Eu8 => Option::Some(Instr::ShiftMem(ShiftKind::Ror, AddrMode::Abs)),
        0x7Eu8 => Option::Some(Instr::ShiftMem(ShiftKind::Ror, AddrMode::Absx)),
        // Flag instructions
        0x18u8 => Option::Some(Instr::Clc),
        0xD8u8 => Option::Some(Instr::Cld),
        0x58u8 => Option::Some(Instr::Cli),
        0xB8u8 => Option::Some(Instr::Clv),
        0x38u8 => Option::Some(Instr::Sec),
        0xF8u8 => Option::Some(Instr::Sed),
        0x78u8 => Option::Some(Instr::Sei),
        // CMP
        0xC9u8 => Option::Some(Instr::Read(AluOp::Cmp, AddrMode::Imm)),
        0xC5u8 => Option::Some(Instr::Read(AluOp::Cmp, AddrMode::Zpg)),
        0xD5u8 => Option::Some(Instr::Read(AluOp::Cmp, AddrMode::Zpgx)),
        0xCDu8 => Option::Some(Instr::Read(AluOp::Cmp, AddrMode::Abs)),
        0xDDu8 => Option::Some(Instr::Read(AluOp::Cmp, AddrMode::Absx)),
        0xD9u8 => Option::Some(Instr::Read(AluOp::Cmp, AddrMode::Absy)),
        0xC1u8 => Option::Some(Instr::Read(AluOp::Cmp, AddrMode::Indx)),
        0xD1u8 => Option::Some(Instr::Read(AluOp::Cmp, AddrMode::Indy)),
        // CPX
        0xE0u8 => Option::Some(Instr::Read(AluOp::Cpx, AddrMode::Imm)),
        0xE4u8 => Option::Some(Instr::Read(AluOp::Cpx, AddrMode::Zpg)),
        0xECu8 => Option::Some(Instr::Read(AluOp::Cpx, AddrMode::Abs)),
        // CPY
        0xC0u8 => Option::Some(Instr::Read(AluOp::Cpy, AddrMode::Imm)),
        0xC4u8 => Option::Some(Instr::Read(AluOp::Cpy, AddrMode::Zpg)),
        0xCCu8 => Option::Some(Instr::Read(AluOp::Cpy, AddrMode::Abs)),
        // Branches
        0x90u8 => Option::Some(Instr::Branch(FlagCond::Carry, false)),
        0xB0u8 => Option::Some(Instr::Branch(FlagCond::Carry, true)),
        0xF0u8 => Option::Some(Instr::Branch(FlagCond::Zero, true)),
        0x30u8 => Option::Some(Instr::Branch(FlagCond::Neg, true)),
        0xD0u8 => Option::Some(Instr::Branch(FlagCond::Zero, false)),
        0x10u8 => Option::Some(Instr::Branch(FlagCond::Neg, false)),
        0x50u8 => Option::Some(Instr::Branch(FlagCond::Ovf, false)),
        0x70u8 => Option::Some(Instr::Branch(FlagCond::Ovf, true)),
        // Interrupts and the rest
        0x00u8 => Option::Some(Instr::Brk),
        0x40u8 => Option::Some(Instr::Rti),
        0x24u8 => Option::Some(Instr::Read(AluOp::Bit, AddrMode::Zpg)),
        0x2Cu8 => Option::Some(Instr::Read(AluOp::Bit, AddrMode::Abs)),
        0xEAu8 => Option::Some(Instr::Nop),
        // Undocumented opcodes have no decoding rule.
        _ => Option::None,
    }
}

/// How many operand bytes the mode consumes from the instruction stream.
pub open spec fn operand_len(mode: AddrMode) -> u16 {
    match mode {
        AddrMode::Abs | AddrMode::Absx | AddrMode::Absy => 2,
        _ => 1,
    }
}

/// The effective address a mode resolves to, in the state `s` whose program
/// counter points at the instruction's operand bytes.
pub open spec fn ea_spec(s: MachineState, mode: AddrMode) -> u16 {
    match mode {
        AddrMode::Imm => s.pc,
        AddrMode::Zpg => ea_zpg(s.byte_at(s.pc)),
        AddrMode::Zpgx => ea_zpgi(s.byte_at(s.pc), s.x),
        AddrMode::Zpgy => ea_zpgi(s.byte_at(s.pc), s.y),
        AddrMode::Abs => s.word_at(s.pc),
        AddrMode::Absx => ea_absi(s.word_at(s.pc), s.x),
        AddrMode::Absy => ea_absi(s.word_at(s.pc), s.y),
        AddrMode::Indx => ea_indx(s, s.byte_at(s.pc), s.x),
        AddrMode::Indy => ea_indy(s, s.byte_at(s.pc), s.y),
    }
}

/// The register and flag updates of the operand-reading micro-operations.
pub open spec fn alu_spec(s: MachineState, op: AluOp, m: u8) -> MachineState {
    match op {
        AluOp::Lda => MachineState { a: m, ..s }.with_nz(m),
        AluOp::Ldx => MachineState { x: m, ..s }.with_nz(m),
        AluOp::Ldy => MachineState { y: m, ..s }.with_nz(m),
        AluOp::And => and_spec(s, m),
        AluOp::Eor => eor_spec(s, m),
        AluOp::Ora => ora_spec(s, m),
        AluOp::Adc => adc_spec(s, m),
        AluOp::Sbc => sbc_spec(s, m),
        AluOp::Cmp => compare_spec(s, s.a, m),
        AluOp::Cpx => compare_spec(s, s.x, m),
        AluOp::Cpy => compare_spec(s, s.y, m),
        AluOp::Bit => bit_spec(s, m),
    }
}

/// The value of the flag a branch tests.
pub open spec fn flag_value(s: MachineState, f: FlagCond) -> bool {
    match f {
        FlagCond::Carry => s.c,
        FlagCond::Zero => s.z,
        FlagCond::Neg => s.n,
        FlagCond::Ovf => s.v,
    }
}

/// The state transition of one decoded instruction, starting from the state
/// `s` whose program counter points just past the opcode byte.
pub open spec fn instr_spec(s: MachineState, instr: Instr) -> MachineState {
    match instr {
        Instr::Read(op, mode) => alu_spec(
            s.advanced(operand_len(mode)),
            op,
            s.byte_at(ea_spec(s, mode)),
        ),
        Instr::Store(sr, mode) => {
            let v = match sr {
                StoreReg::Sta => s.a,
                StoreReg::Stx => s.x,
                StoreReg::Sty => s.y,
            };
            s.advanced(operand_len(mode)).with_byte(ea_spec(s, mode), v)
        },
        Instr::ShiftAcc(kind) => {
            let (r, cout) = shift_spec(kind, s.a, s.c);
            MachineState { a: r, c: cout, ..s }.with_nz(r)
        },
        Instr::ShiftMem(kind, mode) => mod_byte_spec(
            s.advanced(operand_len(mode)),
            ea_spec(s, mode),
            kind,
        ),
        Instr::IncMem(mode) => {
            let ea = ea_spec(s, mode);
            let r = s.byte_at(ea).wrapping_add(1);
            s.advanced(operand_len(mode)).with_byte(ea, r).with_nz(r)
        },
        Instr::DecMem(mode) => {
            let ea = ea_spec(s, mode);
            let r = s.byte_at(ea).wrapping_sub(1);
            s.advanced(operand_len(mode)).with_byte(ea, r).with_nz(r)
        },
        Instr::Inx => MachineState { x: s.x.wrapping_add(1), ..s }.with_nz(s.x.wrapping_add(1)),
        Instr::Iny => MachineState { y: s.y.wrapping_add(1), ..s }.with_nz(s.y.wrapping_add(1)),
        Instr::Dex => MachineState { x: s.x.wrapping_sub(1), ..s }.with_nz(s.x.wrapping_sub(1)),
        Instr::Dey => MachineState { y: s.y.wrapping_sub(1), ..s }.with_nz(s.y.wrapping_sub(1)),
        Instr::Tax => MachineState { x: s.a, ..s }.with_nz(s.a),
        Instr::Tay => MachineState { y: s.a, ..s }.with_nz(s.a),
        Instr::Tsx => MachineState { x: s.sp, ..s }.with_nz(s.sp),
        Instr::Txa => MachineState { a: s.x, ..s }.with_nz(s.x),
        Instr::Txs => MachineState { sp: s.x, ..s },
        Instr::Tya => MachineState { a: s.y, ..s }.with_nz(s.y),
        Instr::Pha => push_byte_spec(s, s.a),
        Instr::Php => push_byte_spec(s, s.status_byte() | 0x30),
        Instr::Pla => {
            let (s1, v) = pull_byte_spec(s);
            MachineState { a: v, ..s1 }.with_nz(v)
        },
        Instr::Plp => {
            let (s1, v) = pull_byte_spec(s);
            s1.with_status(v)
        },
        Instr::Clc => MachineState { c: false, ..s },
        Instr::Cld => MachineState { d: false, ..s },
        Instr::Cli => MachineState { i: false, ..s },
        Instr::Clv => MachineState { v: false, ..s },
        Instr::Sec => MachineState { c: true, ..s },
        Instr::Sed => MachineState { d: true, ..s },
        Instr::Sei => MachineState { i: true, ..s },
        Instr::JmpAbs => s.with_pc(s.word_at(s.pc)),
        Instr::JmpInd => s.with_pc(s.word_at(s.word_at(s.pc))),
        Instr::Jsr => {
            let target = s.word_at(s.pc);
            let s2 = s.advanced(2);
            push_word_spec(s2, s2.pc).with_pc(target)
        },
        Instr::Rts => {
            let (s1, w) = pull_word_spec(s);
            s1.with_pc(w)
        },
        Instr::Branch(f, expected) => {
            let off = s.byte_at(s.pc);
            let s2 = s.advanced(1);
            if flag_value(s, f) == expected {
                s2.with_pc(branch_target(s2.pc, off))
            } else {
                s2
            }
        },
        // BRK is resolved by `step_spec` before this function applies.
        Instr::Brk => s,
        Instr::Rti => s,
        Instr::Nop => s,
    }
}

impl CPU {
    /// The transition of one whole fetch-decode-execute step: the new state
    /// and the step's outcome.  BRK and undecodable opcodes leave the state
    /// unchanged, with the program counter still at the opcode.
    pub open spec fn step_spec(s: MachineState) -> (MachineState, Result<(), CPUError>) {
        let op = s.byte_at(s.pc);
        match spec_decode(op) {
            Option::None => (s, Result::Err(CPUError::IllegalOpcode)),
            Option::Some(instr) => if instr is Brk {
                (s, Result::Err(CPUError::Break))
            } else {
                (instr_spec(s.advanced(1), instr), Result::Ok(()))
            },
        }
    }

    /// The state after `n` fetch-decode-execute steps.
    pub open spec fn run_steps(s: MachineState, n: nat) -> MachineState
        decreases n,
    {
        if n == 0 {
            s
        } else {
            CPU::step_spec(CPU::run_steps(s, (n - 1) as nat)).0
        }
    }

    /// The run loop halts at state `t` with condition `e` after `n`
    /// successful steps: every step before `n` succeeds, step `n` signals
    /// `e`, and `t` is the state that step leaves behind.
    pub open spec fn runs_until_halt(s: MachineState, n: nat, t: MachineState, e: CPUError) -> bool {
        &&& forall|k: nat|
            k < n ==> (CPU::step_spec(#[trigger] CPU::run_steps(s, k)).1 is Ok)
        &&& CPU::step_spec(CPU::run_steps(s, n)).1 == Result::<(), CPUError>::Err(e)
        &&& t == CPU::run_steps(s, (n + 1) as nat)
    }

    /// `n` consecutive steps from `s` all succeed and reach `t`.
    pub open spec fn runs_without_halt(s: MachineState, n: nat, t: MachineState) -> bool {
        &&& forall|k: nat|
            k < n ==> (CPU::step_spec(#[trigger] CPU::run_steps(s, k)).1 is Ok)
        &&& t == CPU::run_steps(s, n)
    }
}

// The executor.

impl CPU {
    /// Which opcode the byte decodes to, per the decode table.
    pub fn decode(op: u8) -> (r: Option<Instr>)
        ensures
            r == spec_decode(op),
    {
        match op {
            // LDA
            0xA9u8 => Option::Some(Instr::Read(AluOp::Lda, AddrMode::Imm)),
            0xA5u8 => Option::Some(Instr::Read(AluOp::Lda, AddrMode::Zpg)),
            0xB5u8 => Option::Some(Instr::Read(AluOp::Lda, AddrMode::Zpgx)),
            0xADu8 => Option::Some(Instr::Read(AluOp::Lda, AddrMode::Abs)),
            0xBDu8 => Option::Some(Instr::Read(AluOp::Lda, AddrMode::Absx)),
            0xB9u8 => Option::Some(Instr::Read(AluOp::Lda, AddrMode::Absy)),
            0xA1u8 => Option::Some(Instr::Read(AluOp::Lda, AddrMode::Indx)),
            0xB1u8 => Option::Some(Instr::Read(AluOp::Lda, AddrMode::Indy)),
            // LDX
            0xA2u8 => Option::Some(Instr::Read(AluOp::Ldx, AddrMode::Imm)),
            0xA6u8 => Option::Some(Instr::Read(AluOp::Ldx, AddrMode::Zpg)),
            0xB6u8 => Option::Some(Instr::Read(AluOp::Ldx, AddrMode::Zpgy)),
            0xAEu8 => Option::Some(Instr::Read(AluOp::Ldx, AddrMode::Abs)),
            0xBEu8 => Option::Some(Instr::Read(AluOp::Ldx, AddrMode::Absy)),
            // LDY
            0xA0u8 => Option::Some(Instr::Read(AluOp::Ldy, AddrMode::Imm)),
            0xA4u8 => Option::Some(Instr::Read(AluOp::Ldy, AddrMode::Zpg)),
            0xB4u8 => Option::Some(Instr::Read(AluOp::Ldy, AddrMode::Zpgx)),
            0xACu8 => Option::Some(Instr::Read(AluOp::Ldy, AddrMode::Abs)),
            0xBCu8 => Option::Some(Instr::Read(AluOp::Ldy, AddrMode::Absx)),
            // STA
            0x85u8 => Option::Some(Instr::Store(StoreReg::Sta, AddrMode::Zpg)),
            0x95u8 => Option::Some(Instr::Store(StoreReg::Sta, AddrMode::Zpgx)),
            0x8Du8 => Option::Some(Instr::Store(StoreReg::Sta, AddrMode::Abs)),
            0x9Du8 => Option::Some(Instr::Store(StoreReg::Sta, AddrMode::Absx)),
            0x99u8 => Option::Some(Instr::Store(StoreReg::Sta, AddrMode::Absy)),
            0x81u8 => Option::Some(Instr::Store(StoreReg::Sta, AddrMode::Indx)),
            0x91u8 => Option::Some(Instr::Store(StoreReg::Sta, AddrMode::Indy)),
            // STX
            0x86u8 => Option::Some(Instr::Store(StoreReg::Stx, AddrMode::Zpg)),
            0x96u8 => Option::Some(Instr::Store(StoreReg::Stx, AddrMode::Zpgy)),
            0x8Eu8 => Option::Some(Instr::Store(StoreReg::Stx, AddrMode::Abs)),
            // STY
            0x84u8 => Option::Some(Instr::Store(StoreReg::Sty, AddrMode::Zpg)),
            0x94u8 => Option::Some(Instr::Store(StoreReg::Sty, AddrMode::Zpgx)),
            0x8Cu8 => Option::Some(Instr::Store(StoreReg::Sty, AddrMode::Abs)),
            // Register transfers
            0xAAu8 => Option::Some(Instr::Tax),
            0xA8u8 => Option::Some(Instr::Tay),
            0xBAu8 => Option::Some(Instr::Tsx),
            0x8Au8 => Option::Some(Instr::Txa),
            0x9Au8 => Option::Some(Instr::Txs),
            0x98u8 => Option::Some(Instr::Tya),
            // Stack
            0x48u8 => Option::Some(Instr::Pha),
            0x08u8 => Option::Some(Instr::Php),
            0x68u8 => Option::Some(Instr::Pla),
            0x28u8 => Option::Some(Instr::Plp),
            // Increments and decrements
            0xE6u8 => Option::Some(Instr::IncMem(AddrMode::Zpg)),
            0xF6u8 => Option::Some(Instr::IncMem(AddrMode::Zpgx)),
            0xEEu8 => Option::Some(Instr::IncMem(AddrMode::Abs)),
            0xFEu8 => Option::Some(Instr::IncMem(AddrMode::Absx)),
            0xE8u8 => Option::Some(Instr::Inx),
            0xC8u8 => Option::Some(Instr::Iny),
            0xC6u8 => Option::Some(Instr::DecMem(AddrMode::Zpg)),
            0xD6u8 => Option::Some(Instr::DecMem(AddrMode::Zpgx)),
            0xCEu8 => Option::Some(Instr::DecMem(AddrMode::Abs)),
            0xDEu8 => Option::Some(Instr::DecMem(AddrMode::Absx)),
            0xCAu8 => Option::Some(Instr::Dex),
            0x88u8 => Option::Some(Instr::Dey),
            // ADC
            0x69u8 => Option::Some(Instr::Read(AluOp::Adc, AddrMode::Imm)),
            0x65u8 => Option::Some(Instr::Read(AluOp::Adc, AddrMode::Zpg)),
            0x75u8 => Option::Some(Instr::Read(AluOp::Adc, AddrMode::Zpgx)),
            0x6Du8 => Option::Some(Instr::Read(AluOp::Adc, AddrMode::Abs)),
            0x7Du8 => Option::Some(Instr::Read(AluOp::Adc, AddrMode::Absx)),
            0x79u8 => Option::Some(Instr::Read(AluOp::Adc, AddrMode::Absy)),
            0x61u8 => Option::Some(Instr::Read(AluOp::Adc, AddrMode::Indx)),
            0x71u8 => Option::Some(Instr::Read(AluOp::Adc, AddrMode::Indy)),
            // SBC
            0xE9u8 => Option::Some(Instr::Read(AluOp::Sbc, AddrMode::Imm)),
            0xE5u8 => Option::Some(Instr::Read(AluOp::Sbc, AddrMode::Zpg)),
            0xF5u8 => Option::Some(Instr::Read(AluOp::Sbc, AddrMode::Zpgx)),
            0xEDu8 => Option::Some(Instr::Read(AluOp::Sbc, AddrMode::Abs)),
            0xFDu8 => Option::Some(Instr::Read(AluOp::Sbc, AddrMode::Absx)),
            0xF9u8 => Option::Some(Instr::Read(AluOp::Sbc, AddrMode::Absy)),
            0xE1u8 => Option::Some(Instr::Read(AluOp::Sbc, AddrMode::Indx)),
            0xF1u8 => Option::Some(Instr::Read(AluOp::Sbc, AddrMode::Indy)),
            // Jumps and subroutines
            0x4Cu8 => Option::Some(Instr::JmpAbs),
            0x6Cu8 => Option::Some(Instr::JmpInd),
            0x20u8 => Option::Some(Instr::Jsr),
            0x60u8 => Option::Some(Instr::Rts),
            // AND
            0x29u8 => Option::Some(Instr::Read(AluOp::And, AddrMode::Imm)),
            0x25u8 => Option::Some(Instr::Read(AluOp::And, AddrMode::Zpg)),
            0x35u8 => Option::Some(Instr::Read(AluOp::And, AddrMode::Zpgx)),
            0x2Du8 => Option::Some(Instr::Read(AluOp::And, AddrMode::Abs)),
            0x3Du8 => Option::Some(Instr::Read(AluOp::And, AddrMode::Absx)),
            0x39u8 => Option::Some(Instr::Read(AluOp::And, AddrMode::Absy)),
            0x21u8 => Option::Some(Instr::Read(AluOp::And, AddrMode::Indx)),
            0x31u8 => Option::Some(Instr::Read(AluOp::And, AddrMode::Indy)),
            // EOR
            0x49u8 => Option::Some(Instr::Read(AluOp::Eor, AddrMode::Imm)),
            0x45u8 => Option::Some(Instr::Read(AluOp::Eor, AddrMode::Zpg)),
            0x55u8 => Option::Some(Instr::Read(AluOp::Eor, AddrMode::Zpgx)),
            0x4Du8 => Option::Some(Instr::Read(AluOp::Eor, AddrMode::Abs)),
            0x5Du8 => Option::Some(Instr::Read(AluOp::Eor, AddrMode::Absx)),
            0x59u8 => Option::Some(Instr::Read(AluOp::Eor, AddrMode::Absy)),
            0x41u8 => Option::Some(Instr::Read(AluOp::Eor, AddrMode::Indx)),
            0x51u8 => Option::Some(Instr::Read(AluOp::Eor, AddrMode::Indy)),
            // ORA
            0x09u8 => Option::Some(Instr::Read(AluOp::Ora, AddrMode::Imm)),
            0x05u8 => Option::Some(Instr::Read(AluOp::Ora, AddrMode::Zpg)),
            0x15u8 => Option::Some(Instr::Read(AluOp::Ora, AddrMode::Zpgx)),
            0x0Du8 => Option::Some(Instr::Read(AluOp::Ora, AddrMode::Abs)),
            0x1Du8 => Option::Some(Instr::Read(AluOp::Ora, AddrMode::Absx)),
            0x19u8 => Option::Some(Instr::Read(AluOp::Ora, AddrMode::Absy)),
            0x01u8 => Option::Some(Instr::Read(AluOp::Ora, AddrMode::Indx)),
            0x11u8 => Option::Some(Instr::Read(AluOp::Ora, AddrMode::Indy)),
            // Shifts and rotates
            0x0Au8 => Option::Some(Instr::ShiftAcc(ShiftKind::Asl)),
            0x06u8 => Option::Some(Instr::ShiftMem(ShiftKind::Asl, AddrMode::Zpg)),
            0x16u8 => Option::Some(Instr::ShiftMem(ShiftKind::Asl, AddrMode::Zpgx)),
            0x0Eu8 => Option::Some(Instr::ShiftMem(ShiftKind::Asl, AddrMode::Abs)),
            0x1Eu8 => Option::Some(Instr::ShiftMem(ShiftKind::Asl, AddrMode::Absx)),
            0x4Au8 => Option::Some(Instr::ShiftAcc(ShiftKind::Lsr)),
            0x46u8 => Option::Some(Instr::ShiftMem(ShiftKind::Lsr, AddrMode::Zpg)),
            0x56u8 => Option::Some(Instr::ShiftMem(ShiftKind::Lsr, AddrMode::Zpgx)),
            0x4Eu8 => Option::Some(Instr::ShiftMem(ShiftKind::Lsr, AddrMode::Abs)),
            0x5Eu8 => Option::Some(Instr::ShiftMem(ShiftKind::Lsr, AddrMode::Absx)),
            0x2Au8 => Option::Some(Instr::ShiftAcc(ShiftKind::Rol)),
            0x26u8 => Option::Some(Instr::ShiftMem(ShiftKind::Rol, AddrMode::Zpg)),
            0x36u8 => Option::Some(Instr::ShiftMem(ShiftKind::Rol, AddrMode::Zpgx)),
            0x2Eu8 => Option::Some(Instr::ShiftMem(ShiftKind::Rol, AddrMode::Abs)),
            0x3Eu8 => Option::Some(Instr::ShiftMem(ShiftKind::Rol, AddrMode::Absx)),
            0x6Au8 => Option::Some(Instr::ShiftAcc(ShiftKind::Ror)),
            0x66u8 => Option::Some(Instr::ShiftMem(ShiftKind::Ror, AddrMode::Zpg)),
            0x76u8 => Option::Some(Instr::ShiftMem(ShiftKind::Ror, AddrMode::Zpgx)),
            0x6Eu8 => Option::Some(Instr::ShiftMem(ShiftKind::Ror, AddrMode::Abs)),
            0x7Eu8 => Option::Some(Instr::ShiftMem(ShiftKind::Ror, AddrMode::Absx)),
            // Flag instructions
            0x18u8 => Option::Some(Instr::Clc),
            0xD8u8 => Option::Some(Instr::Cld),
            0x58u8 => Option::Some(Instr::Cli),
            0xB8u8 => Option::Some(Instr::Clv),
            0x38u8 => Option::Some(Instr::Sec),
            0xF8u8 => Option::Some(Instr::Sed),
            0x78u8 => Option::Some(Instr::Sei),
            // CMP
            0xC9u8 => Option::Some(Instr::Read(AluOp::Cmp, AddrMode::Imm)),
            0xC5u8 => Option::Some(Instr::Read(AluOp::Cmp, AddrMode::Zpg)),
            0xD5u8 => Option::Some(Instr::Read(AluOp::Cmp, AddrMode::Zpgx)),
            0xCDu8 => Option::Some(Instr::Read(AluOp::Cmp, AddrMode::Abs)),
            0xDDu8 => Option::Some(Instr::Read(AluOp::Cmp, AddrMode::Absx)),
            0xD9u8 => Option::Some(Instr::Read(AluOp::Cmp, AddrMode::Absy)),
            0xC1u8 => Option::Some(Instr::Read(AluOp::Cmp, AddrMode::Indx)),
            0xD1u8 => Option::Some(Instr::Read(AluOp::Cmp, AddrMode::Indy)),
            // CPX
            0xE0u8 => Option::Some(Instr::Read(AluOp::Cpx, AddrMode::Imm)),
            0xE4u8 => Option::Some(Instr::Read(AluOp::Cpx, AddrMode::Zpg)),
            0xECu8 => Option::Some(Instr::Read(AluOp::Cpx, AddrMode::Abs)),
            // CPY
            0xC0u8 => Option::Some(Instr::Read(AluOp::Cpy, AddrMode::Imm)),
            0xC4u8 => Option::Some(Instr::Read(AluOp::Cpy, AddrMode::Zpg)),
            0xCCu8 => Option::Some(Instr::Read(AluOp::Cpy, AddrMode::Abs)),
            // Branches
            0x90u8 => Option::Some(Instr::Branch(FlagCond::Carry, false)),
            0xB0u8 => Option::Some(Instr::Branch(FlagCond::Carry, true)),
            0xF0u8 => Option::Some(Instr::Branch(FlagCond::Zero, true)),
            0x30u8 => Option::Some(Instr::Branch(FlagCond::Neg, true)),
            0xD0u8 => Option::Some(Instr::Branch(FlagCond::Zero, false)),
            0x10u8 => Option::Some(Instr::Branch(FlagCond::Neg, false)),
            0x50u8 => Option::Some(Instr::Branch(FlagCond::Ovf, false)),
            0x70u8 => Option::Some(Instr::Branch(FlagCond::Ovf, true)),
            // Interrupts and the rest
            0x00u8 => Option::Some(Instr::Brk),
            0x40u8 => Option::Some(Instr::Rti),
            0x24u8 => Option::Some(Instr::Read(AluOp::Bit, AddrMode::Zpg)),
            0x2Cu8 => Option::Some(Instr::Read(AluOp::Bit, AddrMode::Abs)),
            0xEAu8 => Option::Some(Instr::Nop),
            _ => Option::None,
        }
    }

    /// Fetches the operand bytes the mode requires and resolves them to the
    /// effective address, leaving the program counter past the operand.
    fn resolve_ea(&mut self, mode: AddrMode) -> (ea: u16)
        requires
            old(self).wf(),
        ensures
            final(self).wf(),
            ea == ea_spec(old(self)@, mode),
            final(self)@ == old(self)@.advanced(operand_len(mode)),
    {
        match mode {
            AddrMode::Imm => {
                let p = self.pc;
                self.pc = self.pc.wrapping_add(1);
                p
            },
            AddrMode::Zpg => {
                let oper = self.fetch_byte();
                oper as u16
            },
            AddrMode::Zpgx => {
                let oper = self.fetch_byte();
                oper.wrapping_add(self.x) as u16
            },
            AddrMode::Zpgy => {
                let oper = self.fetch_byte();
                oper.wrapping_add(self.y) as u16
            },
            AddrMode::Abs => self.fetch_word(),
            AddrMode::Absx => {
                let oper = self.fetch_word();
                oper.wrapping_add(self.x as u16)
            },
            AddrMode::Absy => {
                let oper = self.fetch_word();
                oper.wrapping_add(self.y as u16)
            },
            AddrMode::Indx => {
                let oper = self.fetch_byte();
                self.get_word(oper.wrapping_add(self.x) as u16)
            },
            AddrMode::Indy => {
                let oper = self.fetch_byte();
                self.get_word(oper as u16).wrapping_add(self.y as u16)
            },
        }
    }

    /// Runs the operand-reading micro-operation on the operand byte `m`.
    fn alu(&mut self, op: AluOp, m: u8)
        ensures
            final(self)@ == alu_spec(old(self)@, op, m),
    {
        match op {
            AluOp::Lda => {
                self.a = m;
                self.update_nz(m);
            },
            AluOp::Ldx => {
                self.x = m;
                self.update_nz(m);
            },
            AluOp::Ldy => {
                self.y = m;
                self.update_nz(m);
            },
            AluOp::And => self.and(m),
            AluOp::Eor => self.eor(m),
            AluOp::Ora => self.ora(m),
            AluOp::Adc => self.adc(m),
            AluOp::Sbc => self.sbc(m),
            AluOp::Cmp => self.cmp(m),
            AluOp::Cpx => self.cpx(m),
            AluOp::Cpy => self.cpy(m),
            AluOp::Bit => self.bit(m),
        }
    }

    /// Applies one decoded instruction to the machine state.
    #[verifier::rlimit(60)]
    #[verifier::spinoff_prover]
    fn exec_instr(&mut self, instr: Instr)
        requires
            old(self).wf(),
        ensures
            final(self).wf(),
            final(self)@ == instr_spec(old(self)@, instr),
    {
        match instr {
            Instr::Read(op, mode) => {
                let ea = self.resolve_ea(mode);
                let m = self.get_byte(ea);
                self.alu(op, m);
            },
            Instr::Store(sr, mode) => {
                let v = match sr {
                    StoreReg::Sta => self.a,
                    StoreReg::Stx => self.x,
                    StoreReg::Sty => self.y,
                };
                let ea = self.resolve_ea(mode);
                self.set_byte(ea, v);
            },
            Instr::ShiftAcc(kind) => {
                let (r, cout) = match kind {
                    ShiftKind::Asl => asl(self.a, self.c),
                    ShiftKind::Lsr => lsr(self.a, self.c),
                    ShiftKind::Rol => rol(self.a, self.c),
                    ShiftKind::Ror => ror(self.a, self.c),
                };
                self.a = r;
                self.c = cout;
                self.update_nz(r);
            },
            Instr::ShiftMem(kind, mode) => {
                let ea = self.resolve_ea(mode);
                self.mod_byte(ea, kind);
            },
            Instr::IncMem(mode) => {
                let ea = self.resolve_ea(mode);
                let r = self.get_byte(ea).wrapping_add(1);
                self.set_byte(ea, r);
                self.update_nz(r);
            },
            Instr::DecMem(mode) => {
                let ea = self.resolve_ea(mode);
                let r = self.get_byte(ea).wrapping_sub(1);
                self.set_byte(ea, r);
                self.update_nz(r);
            },
            Instr::Inx => {
                let r = self.x.wrapping_add(1);
                self.x = r;
                self.update_nz(r);
            },
            Instr::Iny => {
                let r = self.y.wrapping_add(1);
                self.y = r;
                self.update_nz(r);
            },
            Instr::Dex => {
                let r = self.x.wrapping_sub(1);
                self.x = r;
                self.update_nz(r);
            },
            Instr::Dey => {
                let r = self.y.wrapping_sub(1);
                self.y = r;
                self.update_nz(r);
            },
            Instr::Tax => {
                let r = self.a;
                self.x = r;
                self.update_nz(r);
            },
            Instr::Tay => {
                let r = self.a;
                self.y = r;
                self.update_nz(r);
            },
            Instr::Tsx => {
                let r = self.sp;
                self.x = r;
                self.update_nz(r);
            },
            Instr::Txa => {
                let r = self.x;
                self.a = r;
                self.update_nz(r);
            },
            Instr::Txs => {
                self.sp = self.x;
            },
            Instr::Tya => {
                let r = self.y;
                self.a = r;
                self.update_nz(r);
            },
            Instr::Pha => {
                let v = self.a;
                self.push_byte(v);
            },
            Instr::Php => {
                let st = self.get_status() | 0x30;
                self.push_byte(st);
            },
            Instr::Pla => {
                let v = self.pull_byte();
                self.a = v;
                self.update_nz(v);
            },
            Instr::Plp => {
                let st = self.pull_byte();
                self.set_status(st);
            },
            Instr::Clc => {
                self.c = false;
            },
            Instr::Cld => {
                self.d = false;
            },
            Instr::Cli => {
                self.i = false;
            },
            Instr::Clv => {
                self.v = false;
            },
            Instr::Sec => {
                self.c = true;
            },
            Instr::Sed => {
                self.d = true;
            },
            Instr::Sei => {
                self.i = true;
            },
            Instr::JmpAbs => {
                let target = self.fetch_word();
                self.pc = target;
            },
            Instr::JmpInd => {
                let ptr = self.fetch_word();
                let target = self.get_word(ptr);
                self.pc = target;
            },
            Instr::Jsr => {
                let target = self.fetch_word();
                let ret = self.pc;
                self.push_word(ret);
                self.pc = target;
            },
            Instr::Rts => {
                let target = self.pull_word();
                self.pc = target;
            },
            Instr::Branch(f, expected) => {
                let off = self.fetch_byte();
                let flag = match f {
                    FlagCond::Carry => self.c,
                    FlagCond::Zero => self.z,
                    FlagCond::Neg => self.n,
                    FlagCond::Ovf => self.v,
                };
                if flag == expected {
                    if off < 0x80 {
                        self.pc = self.pc.wrapping_add(off as u16);
                    } else {
                        self.pc = self.pc.wrapping_add(off as u16).wrapping_sub(0x100);
                    }
                }
            },
            Instr::Brk => {},
            Instr::Rti => {},
            Instr::Nop => {},
        }
    }

    /// Executes exactly one instruction.  Returns `Ok` after a decoded,
    /// non-BRK instruction; `Err(Break)` on BRK and `Err(IllegalOpcode)` on
    /// an undecodable byte, in both cases rolling the program counter back
    /// to point at the opcode and changing nothing else.
    pub fn step(&mut self) -> (r: Result<(), CPUError>)
        requires
            old(self).wf(),
        ensures
            final(self).wf(),
            final(self)@ == CPU::step_spec(old(self)@).0,
            r == CPU::step_spec(old(self)@).1,
    {
        let opcode = self.fetch_byte();
        match CPU::decode(opcode) {
            Option::None => {
                self.pc = self.pc.wrapping_sub(1);
                proof {
                    assert(self@ =~= old(self)@);
                }
                Result::Err(CPUError::IllegalOpcode)
            },
            Option::Some(Instr::Brk) => {
                self.pc = self.pc.wrapping_sub(1);
                proof {
                    assert(self@ =~= old(self)@);
                }
                Result::Err(CPUError::Break)
            },
            Option::Some(instr) => {
                self.exec_instr(instr);
                Result::Ok(())
            },
        }
    }

    /// Repeatedly executes instructions until a halting condition occurs,
    /// and returns that condition.  A safety bound of `u64::MAX` steps keeps
    /// the loop finite: only a program that runs that long without ever
    /// halting sees `Ok`, with the state the last step left behind.
    pub fn run(&mut self) -> (r: Result<(), CPUError>)
        requires
            old(self).wf(),
        ensures
            final(self).wf(),
            r matches Err(e) ==> exists|n: nat|
                CPU::runs_until_halt(old(self)@, n, final(self)@, e),
            r is Ok ==> CPU::runs_without_halt(old(self)@, u64::MAX as nat, final(self)@),
    {
        let ghost mut n: nat = 0;
        let mut fuel: u64 = u64::MAX;
        while fuel > 0
            invariant
                self.wf(),
                n + fuel == u64::MAX,
                self@ == CPU::run_steps(old(self)@, n),
                forall|k: nat|
                    k < n ==> (CPU::step_spec(#[trigger] CPU::run_steps(old(self)@, k)).1 is Ok),
            decreases fuel,
        {
            let res = self.step();
            match res {
                Result::Ok(()) => {
                    proof {
                        n = n + 1;
                    }
                    fuel = fuel - 1;
                },
                Result::Err(e) => {
                    proof {
                        assert(CPU::runs_until_halt(old(self)@, n, self@, e));
                    }
                    return Result::Err(e);
                },
            }
        }
        Result::Ok(())
    }
}

} // verus!
