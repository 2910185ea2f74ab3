//! Micro-operations for the smaller core: the logical operations and the
//! bit test, each proved against its specification in [`crate::model`].

use vstd::prelude::*;

use crate::computer::Computer;
use crate::model::{and_spec, bit_spec, eor_spec, ora_spec};

verus! {

impl Computer {
    /// AND the operand into the accumulator; N and Z follow the result.
    pub fn and(&mut self, m: u8)
        ensures
            final(self).cpu.ram == old(self).cpu.ram,
            final(self).ram == old(self).ram,
            final(self)@ == and_spec(old(self)@, m),
    {
        let r = self.cpu.a & m;
        self.cpu.a = r;
        self.update_nz(r);
    }

    /// XOR the operand into the accumulator; N and Z follow the result.
    pub fn eor(&mut self, m: u8)
        ensures
            final(self).cpu.ram == old(self).cpu.ram,
            final(self).ram == old(self).ram,
            final(self)@ == eor_spec(old(self)@, m),
    {
        let r = self.cpu.a ^ m;
        self.cpu.a = r;
        self.update_nz(r);
    }

    /// OR the operand into the accumulator; N and Z follow the result.
    pub fn ora(&mut self, m: u8)
        ensures
            final(self).cpu.ram == old(self).cpu.ram,
            final(self).ram == old(self).ram,
            final(self)@ == ora_spec(old(self)@, m),
    {
        let r = self.cpu.a | m;
        self.cpu.a = r;
        self.update_nz(r);
    }

    /// BIT: Z from `a & m`; N and V copied from bits 7 and 6 of the memory
    /// operand itself.  The accumulator is unmodified.
    pub fn bit(&mut self, m: u8)
        ensures
            final(self).cpu.ram == old(self).cpu.ram,
            final(self).ram == old(self).ram,
            final(self)@ == bit_spec(old(self)@, m),
    {
        let t = self.cpu.a & m;
        self.cpu.n = (m & 0x80) != 0;
        self.cpu.v = (m & 0x40) != 0;
        self.cpu.z = t == 0;
    }
}

} // verus!
