//! Addressing-mode accessors for the smaller core.
//!
//! Each method takes the already-fetched raw operand and reads the byte at
//! the effective address its mode resolves to, with the same modular
//! wrap-around arithmetic the model's `ea_*` functions state: modulo 256
//! within page zero, modulo 65536 across the address space.

use vstd::prelude::*;

use crate::computer::Computer;
use crate::model::{ea_absi, ea_indx, ea_indy, ea_zpg, ea_zpgi};

verus! {

impl Computer {
    /// Read under zero-page addressing: the operand is the address.
    pub fn mem_get_byte_zpg(&self, addr: u8) -> (r: u8)
        requires
            self.wf(),
        ensures
            r == self@.byte_at(ea_zpg(addr)),
    {
        self.get_byte(addr as u16)
    }

    /// Read under zero-page,X addressing: operand plus X, modulo 256.
    pub fn mem_get_byte_zpgx(&self, addr: u8) -> (r: u8)
        requires
            self.wf(),
        ensures
            r == self@.byte_at(ea_zpgi(addr, self@.x)),
    {
        self.get_byte(addr.wrapping_add(self.cpu.x) as u16)
    }

    /// Read under zero-page,Y addressing: operand plus Y, modulo 256.
    pub fn mem_get_byte_zpgy(&self, addr: u8) -> (r: u8)
        requires
            self.wf(),
        ensures
            r == self@.byte_at(ea_zpgi(addr, self@.y)),
    {
        self.get_byte(addr.wrapping_add(self.cpu.y) as u16)
    }

    /// Read under absolute addressing: the operand word is the address.
    pub fn mem_get_byte_abs(&self, addr: u16) -> (r: u8)
        requires
            self.wf(),
        ensures
            r == self@.byte_at(addr),
    {
        self.get_byte(addr)
    }

    /// Read under absolute,X addressing: operand plus X, modulo 65536.
    pub fn mem_get_byte_absx(&self, addr: u16) -> (r: u8)
        requires
            self.wf(),
        ensures
            r == self@.byte_at(ea_absi(addr, self@.x)),
    {
        self.get_byte(addr.wrapping_add(self.cpu.x as u16))
    }

    /// Read under absolute,Y addressing: operand plus Y, modulo 65536.
    pub fn mem_get_byte_absy(&self, addr: u16) -> (r: u8)
        requires
            self.wf(),
        ensures
            r == self@.byte_at(ea_absi(addr, self@.y)),
    {
        self.get_byte(addr.wrapping_add(self.cpu.y as u16))
    }

    /// Read under indexed-indirect addressing: operand plus X modulo 256
    /// names a zero-page pointer to the effective address.
    pub fn mem_get_byte_indx(&self, addr: u8) -> (r: u8)
        requires
            self.wf(),
        ensures
            r == self@.byte_at(ea_indx(self@, addr, self@.x)),
    {
        self.get_byte(self.get_word(addr.wrapping_add(self.cpu.x) as u16))
    }

    /// Read under indirect-indexed addressing: the operand names a
    /// zero-page pointer to a base address; Y is added modulo 65536.
    pub fn mem_get_byte_indy(&self, addr: u8) -> (r: u8)
        requires
            self.wf(),
        ensures
            r == self@.byte_at(ea_indy(self@, addr, self@.y)),
    {
        self.get_byte(self.get_word(addr as u16).wrapping_add(self.cpu.y as u16))
    }
}

} // verus!
