//! The earlier, smaller execution core.
//!
//! [`Computer`] wraps a [`CPU`] register file together with its own 64 KiB
//! memory and decodes a reduced opcode repertoire: loads, the logical
//! operations, BIT, INX/INY, jumps and subroutine linkage, BRK and NOP.
//! Every opcode it shares with the full core has the same semantics.
//! [`Computer::step`] is proved to follow [`Computer::step_spec`].

use vstd::prelude::*;

use crate::cpu::{instr_spec, AddrMode, AluOp, CPUError, Instr, CPU};
use crate::model::{
    pull_byte_spec, pull_word_spec, push_byte_spec, push_word_spec, MachineState, MEM_SIZE,
};

verus! {

/// A register file together with the memory the core executes from.  The
/// inner [`CPU`]'s own memory is not used by this core; only its registers
/// and flags are.
#[derive(Debug)]
pub struct Computer {
    /// The register file (and the inner core's unused memory).
    pub cpu: CPU,
    /// The 64 KiB of memory this core fetches from, reads and writes.
    pub ram: Vec<u8>,
}

impl View for Computer {
    type V = MachineState;

    open spec fn view(&self) -> MachineState {
        MachineState {
            pc: self.cpu.pc,
            sp: self.cpu.sp,
            a: self.cpu.a,
            x: self.cpu.x,
            y: self.cpu.y,
            n: self.cpu.n,
            v: self.cpu.v,
            b: self.cpu.b,
            d: self.cpu.d,
            i: self.cpu.i,
            z: self.cpu.z,
            c: self.cpu.c,
            mem: self.ram@,
        }
    }
}

impl Computer {
    /// Both memories span the full address space.
    pub open spec fn wf(self) -> bool {
        self.ram@.len() == MEM_SIZE && self.cpu.wf()
    }

    /// Power-on state: `pc = 0x0400`, `sp = 0xFF`, registers zero, flags
    /// clear, memory zero-filled.
    pub fn new() -> (r: Self)
        ensures
            r.wf(),
            r@.pc == 0x0400,
            r@.sp == 0xff,
            r@.a == 0 && r@.x == 0 && r@.y == 0,
            !r@.n && !r@.v && !r@.b && !r@.d && !r@.i && !r@.z && !r@.c,
            forall|addr: u16| r@.byte_at(addr) == 0,
    {
        let ram: Vec<u8> = vec![0u8; MEM_SIZE];
        let computer = Computer { cpu: CPU::new(), ram };
        proof {
            assert forall|addr: u16| computer@.byte_at(addr) == 0 by {
                assert(vstd::pervasive::cloned(0u8, computer@.mem[addr as int]));
            }
        }
        computer
    }

    /// Copies `program` into memory starting at `addr`.  The caller must
    /// not supply a sequence that would run past address 0xFFFF.
    pub fn load(&mut self, addr: u16, program: Vec<u8>)
        requires
            old(self).wf(),
            addr + program@.len() <= 0x10000,
        ensures
            final(self).wf(),
            final(self).cpu == old(self).cpu,
            forall|k: int|
                0 <= k < program@.len() ==> final(self)@.mem[addr + k] == program@[k],
            forall|j: int|
                0 <= j < 0x10000 && !(addr <= j < addr + program@.len())
                    ==> final(self)@.mem[j] == old(self)@.mem[j],
    {
        let mut idx: usize = 0;
        while idx < program.len()
            invariant
                self.wf(),
                addr + program@.len() <= 0x10000,
                idx <= program@.len(),
                self.cpu == old(self).cpu,
                forall|k: int| 0 <= k < idx ==> self@.mem[addr + k] == program@[k],
                forall|j: int|
                    0 <= j < 0x10000 && !(addr <= j < addr + program@.len())
                        ==> self@.mem[j] == old(self)@.mem[j],
            decreases program@.len() - idx,
        {
            let target: usize = addr as usize + idx;
            self.ram[target] = program[idx];
            idx = idx + 1;
        }
    }

    /// Returns the byte at `addr`; the full 64 KiB space is uniformly
    /// readable RAM.
    pub fn get_byte(&self, addr: u16) -> (r: u8)
        requires
            self.wf(),
        ensures
            r == self@.byte_at(addr),
    {
        self.ram[addr as usize]
    }

    /// Stores `val` at `addr`.
    pub fn set_byte(&mut self, addr: u16, val: u8)
        requires
            old(self).wf(),
        ensures
            final(self).wf(),
            final(self).cpu == old(self).cpu,
            final(self)@ == old(self)@.with_byte(addr, val),
    {
        self.ram[addr as usize] = val;
    }

    /// Returns the little-endian word at `addr`: low byte at `addr`, high
    /// byte at `addr + 1`, the second address wrapping modulo 65536.
    pub fn get_word(&self, addr: u16) -> (r: u16)
        requires
            self.wf(),
        ensures
            r == self@.word_at(addr),
    {
        self.get_byte(addr) as u16 + 256 * self.get_byte(addr.wrapping_add(1)) as u16
    }

    /// Stores `w` at `addr` little-endian: low byte at `addr`, high byte at
    /// `addr + 1`, the second address wrapping modulo 65536.
    pub fn set_word(&mut self, addr: u16, w: u16)
        requires
            old(self).wf(),
        ensures
            final(self).wf(),
            final(self).cpu == old(self).cpu,
            final(self)@ == old(self)@.with_word(addr, w),
    {
        self.set_byte(addr, (w % 256) as u8);
        self.set_byte(addr.wrapping_add(1), (w / 256) as u8);
    }

    /// Fetches the byte at the program counter and advances it by one,
    /// wrapping modulo 65536.
    pub fn fetch_byte(&mut self) -> (v: u8)
        requires
            old(self).wf(),
        ensures
            final(self).wf(),
            final(self).cpu.ram == old(self).cpu.ram,
            v == old(self)@.byte_at(old(self)@.pc),
            final(self)@ == old(self)@.advanced(1),
    {
        let v = self.get_byte(self.cpu.pc);
        self.cpu.pc = self.cpu.pc.wrapping_add(1);
        v
    }

    /// Fetches the little-endian word at the program counter and advances
    /// it by two, wrapping modulo 65536.
    pub fn fetch_word(&mut self) -> (v: u16)
        requires
            old(self).wf(),
        ensures
            final(self).wf(),
            final(self).cpu.ram == old(self).cpu.ram,
            v == old(self)@.word_at(old(self)@.pc),
            final(self)@ == old(self)@.advanced(2),
    {
        let v = self.get_word(self.cpu.pc);
        self.cpu.pc = self.cpu.pc.wrapping_add(2);
        v
    }

    /// Pushes one byte onto the stack page and decrements the stack
    /// pointer, wrapping modulo 256.
    pub fn push_byte(&mut self, val: u8)
        requires
            old(self).wf(),
        ensures
            final(self).wf(),
            final(self).cpu.ram == old(self).cpu.ram,
            final(self)@ == push_byte_spec(old(self)@, val),
    {
        let addr: u16 = 0x0100 + self.cpu.sp as u16;
        self.set_byte(addr, val);
        self.cpu.sp = self.cpu.sp.wrapping_sub(1);
    }

    /// Increments the stack pointer, wrapping modulo 256, and pulls the
    /// byte it now designates.
    pub fn pull_byte(&mut self) -> (v: u8)
        requires
            old(self).wf(),
        ensures
            final(self).wf(),
            final(self).cpu.ram == old(self).cpu.ram,
            final(self)@ == pull_byte_spec(old(self)@).0,
            v == pull_byte_spec(old(self)@).1,
    {
        self.cpu.sp = self.cpu.sp.wrapping_add(1);
        self.get_byte(0x0100 + self.cpu.sp as u16)
    }

    /// Pushes a word: high byte first, then low byte.
    pub fn push_word(&mut self, w: u16)
        requires
            old(self).wf(),
        ensures
            final(self).wf(),
            final(self).cpu.ram == old(self).cpu.ram,
            final(self)@ == push_word_spec(old(self)@, w),
    {
        self.push_byte((w / 256) as u8);
        self.push_byte((w % 256) as u8);
    }

    /// Pulls a word: low byte first, then high byte.
    pub fn pull_word(&mut self) -> (v: u16)
        requires
            old(self).wf(),
        ensures
            final(self).wf(),
            final(self).cpu.ram == old(self).cpu.ram,
            final(self)@ == pull_word_spec(old(self)@).0,
            v == pull_word_spec(old(self)@).1,
    {
        let lo = self.pull_byte();
        let hi = self.pull_byte();
        lo as u16 + 256 * hi as u16
    }

    /// Recomputes the N and Z flags from `val`.
    pub fn update_nz(&mut self, val: u8)
        ensures
            final(self).cpu.ram == old(self).cpu.ram,
            final(self).ram == old(self).ram,
            final(self)@ == old(self)@.with_nz(val),
    {
        self.cpu.n = (val & 0x80) != 0;
        self.cpu.z = val == 0;
    }
}

impl Computer {
    /// The transition of one whole fetch-decode-execute step of this core:
    /// the new state and the step's outcome.  The opcodes this core does
    /// not decode signal `IllegalOpcode`; BRK signals `Break`; both leave
    /// the state unchanged, the program counter still at the opcode.  Every
    /// opcode shared with the full core has the same semantics.
    pub open spec fn step_spec(s: MachineState) -> (MachineState, Result<(), CPUError>) {
        let op = s.byte_at(s.pc);
        let s1 = s.advanced(1);
        match op {
            // Loads recompute N and Z from the loaded value.
            0xA9u8 => (instr_spec(s1, Instr::Read(AluOp::Lda, AddrMode::Imm)), Result::Ok(())),
            0xADu8 => (instr_spec(s1, Instr::Read(AluOp::Lda, AddrMode::Abs)), Result::Ok(())),
            0xA2u8 => (instr_spec(s1, Instr::Read(AluOp::Ldx, AddrMode::Imm)), Result::Ok(())),
            0xAEu8 => (instr_spec(s1, Instr::Read(AluOp::Ldx, AddrMode::Abs)), Result::Ok(())),
            0xA0u8 => (instr_spec(s1, Instr::Read(AluOp::Ldy, AddrMode::Imm)), Result::Ok(())),
            0xACu8 => (instr_spec(s1, Instr::Read(AluOp::Ldy, AddrMode::Abs)), Result::Ok(())),
            // Increments.
            0xE8u8 => (instr_spec(s1, Instr::Inx), Result::Ok(())),
            0xC8u8 => (instr_spec(s1, Instr::Iny), Result::Ok(())),
            // Jumps and subroutines.
            0x4Cu8 => (instr_spec(s1, Instr::JmpAbs), Result::Ok(())),
            0x6Cu8 => (instr_spec(s1, Instr::JmpInd), Result::Ok(())),
            0x20u8 => (instr_spec(s1, Instr::Jsr), Result::Ok(())),
            0x60u8 => (instr_spec(s1, Instr::Rts), Result::Ok(())),
            // AND
            0x29u8 => (instr_spec(s1, Instr::Read(AluOp::And, AddrMode::Imm)), Result::Ok(())),
            0x25u8 => (instr_spec(s1, Instr::Read(AluOp::And, AddrMode::Zpg)), Result::Ok(())),
            0x35u8 => (instr_spec(s1, Instr::Read(AluOp::And, AddrMode::Zpgx)), Result::Ok(())),
            0x2Du8 => (instr_spec(s1, Instr::Read(AluOp::And, AddrMode::Abs)), Result::Ok(())),
            0x3Du8 => (instr_spec(s1, Instr::Read(AluOp::And, AddrMode::Absx)), Result::Ok(())),
            0x39u8 => (instr_spec(s1, Instr::Read(AluOp::And, AddrMode::Absy)), Result::Ok(())),
            0x21u8 => (instr_spec(s1, Instr::Read(AluOp::And, AddrMode::Indx)), Result::Ok(())),
            0x31u8 => (instr_spec(s1, Instr::Read(AluOp::And, AddrMode::Indy)), Result::Ok(())),
            // EOR
            0x49u8 => (instr_spec(s1, Instr::Read(AluOp::Eor, AddrMode::Imm)), Result::Ok(())),
            0x45u8 => (instr_spec(s1, Instr::Read(AluOp::Eor, AddrMode::Zpg)), Result::Ok(())),
            0x55u8 => (instr_spec(s1, Instr::Read(AluOp::Eor, AddrMode::Zpgx)), Result::Ok(())),
            0x4Du8 => (instr_spec(s1, Instr::Read(AluOp::Eor, AddrMode::Abs)), Result::Ok(())),
            0x5Du8 => (instr_spec(s1, Instr::Read(AluOp::Eor, AddrMode::Absx)), Result::Ok(())),
            0x59u8 => (instr_spec(s1, Instr::Read(AluOp::Eor, AddrMode::Absy)), Result::Ok(())),
            0x41u8 => (instr_spec(s1, Instr::Read(AluOp::Eor, AddrMode::Indx)), Result::Ok(())),
            0x51u8 => (instr_spec(s1, Instr::Read(AluOp::Eor, AddrMode::Indy)), Result::Ok(())),
            // ORA
            0x09u8 => (instr_spec(s1, Instr::Read(AluOp::Ora, AddrMode::Imm)), Result::Ok(())),
            0x05u8 => (instr_spec(s1, Instr::Read(AluOp::Ora, AddrMode::Zpg)), Result::Ok(())),
            0x15u8 => (instr_spec(s1, Instr::Read(AluOp::Ora, AddrMode::Zpgx)), Result::Ok(())),
            0x0Du8 => (instr_spec(s1, Instr::Read(AluOp::Ora, AddrMode::Abs)), Result::Ok(())),
            0x1Du8 => (instr_spec(s1, Instr::Read(AluOp::Ora, AddrMode::Absx)), Result::Ok(())),
            0x19u8 => (instr_spec(s1, Instr::Read(AluOp::Ora, AddrMode::Absy)), Result::Ok(())),
            0x01u8 => (instr_spec(s1, Instr::Read(AluOp::Ora, AddrMode::Indx)), Result::Ok(())),
            0x11u8 => (instr_spec(s1, Instr::Read(AluOp::Ora, AddrMode::Indy)), Result::Ok(())),
            // BIT
            0x24u8 => (instr_spec(s1, Instr::Read(AluOp::Bit, AddrMode::Zpg)), Result::Ok(())),
            0x2Cu8 => (instr_spec(s1, Instr::Read(AluOp::Bit, AddrMode::Abs)), Result::Ok(())),
            // BRK halts; RTI decodes but does nothing; NOP does nothing.
            0x00u8 => (s, Result::Err(CPUError::Break)),
            0x40u8 => (s1, Result::Ok(())),
            0xEAu8 => (s1, Result::Ok(())),
            // Everything else has no decoding rule in this core.
            _ => (s, Result::Err(CPUError::IllegalOpcode)),
        }
    }

    /// The state after `n` fetch-decode-execute steps of this core.
    pub open spec fn run_steps(s: MachineState, n: nat) -> MachineState
        decreases n,
    {
        if n == 0 {
            s
        } else {
            Computer::step_spec(Computer::run_steps(s, (n - 1) as nat)).0
        }
    }

    /// The run loop halts at state `t` with condition `e` after `n`
    /// successful steps.
    pub open spec fn runs_until_halt(s: MachineState, n: nat, t: MachineState, e: CPUError) -> bool {
        &&& forall|k: nat|
            k < n ==> (Computer::step_spec(#[trigger] Computer::run_steps(s, k)).1 is Ok)
        &&& Computer::step_spec(Computer::run_steps(s, n)).1 == Result::<(), CPUError>::Err(e)
        &&& t == Computer::run_steps(s, (n + 1) as nat)
    }

    /// `n` consecutive steps from `s` all succeed and reach `t`.
    pub open spec fn runs_without_halt(s: MachineState, n: nat, t: MachineState) -> bool {
        &&& forall|k: nat|
            k < n ==> (Computer::step_spec(#[trigger] Computer::run_steps(s, k)).1 is Ok)
        &&& t == Computer::run_steps(s, n)
    }

    /// Executes exactly one instruction of this core's repertoire.
    #[verifier::rlimit(60)]
    #[verifier::spinoff_prover]
    pub fn step(&mut self) -> (r: Result<(), CPUError>)
        requires
            old(self).wf(),
        ensures
            final(self).wf(),
            final(self).cpu.ram == old(self).cpu.ram,
            final(self)@ == Computer::step_spec(old(self)@).0,
            r == Computer::step_spec(old(self)@).1,
    {
        let opcode = self.fetch_byte();
        match opcode {
            0xA9u8 => {
                let v = self.fetch_byte();
                self.cpu.a = v;
                self.update_nz(v);
            },
            0xADu8 => {
                let addr = self.fetch_word();
                let v = self.get_byte(addr);
                self.cpu.a = v;
                self.update_nz(v);
            },
            0xA2u8 => {
                let v = self.fetch_byte();
                self.cpu.x = v;
                self.update_nz(v);
            },
            0xAEu8 => {
                let addr = self.fetch_word();
                let v = self.get_byte(addr);
                self.cpu.x = v;
                self.update_nz(v);
            },
            0xA0u8 => {
                let v = self.fetch_byte();
                self.cpu.y = v;
                self.update_nz(v);
            },
            0xACu8 => {
                let addr = self.fetch_word();
                let v = self.get_byte(addr);
                self.cpu.y = v;
                self.update_nz(v);
            },
            0xE8u8 => {
                let v = self.cpu.x.wrapping_add(1);
                self.cpu.x = v;
                self.update_nz(v);
            },
            0xC8u8 => {
                let v = self.cpu.y.wrapping_add(1);
                self.cpu.y = v;
                self.update_nz(v);
            },
            0x4Cu8 => {
                let addr = self.fetch_word();
                self.cpu.pc = addr;
            },
            0x6Cu8 => {
                let addr = self.fetch_word();
                self.cpu.pc = self.get_word(addr);
            },
            0x20u8 => {
                let addr = self.fetch_word();
                let ret = self.cpu.pc;
                self.push_word(ret);
                self.cpu.pc = addr;
            },
            0x60u8 => {
                let addr = self.pull_word();
                self.cpu.pc = addr;
            },
            // AND
            0x29u8 => {
                let oper = self.fetch_byte();
                self.and(oper);
            },
            0x25u8 => {
                let oper = self.fetch_byte();
                let m = self.mem_get_byte_zpg(oper);
                self.and(m);
            },
            0x35u8 => {
                let oper = self.fetch_byte();
                let m = self.mem_get_byte_zpgx(oper);
                self.and(m);
            },
            0x2Du8 => {
                let oper = self.fetch_word();
                let m = self.mem_get_byte_abs(oper);
                self.and(m);
            },
            0x3Du8 => {
                let oper = self.fetch_word();
                let m = self.mem_get_byte_absx(oper);
                self.and(m);
            },
            0x39u8 => {
                let oper = self.fetch_word();
                let m = self.mem_get_byte_absy(oper);
                self.and(m);
            },
            0x21u8 => {
                let oper = self.fetch_byte();
                let m = self.mem_get_byte_indx(oper);
                self.and(m);
            },
            0x31u8 => {
                let oper = self.fetch_byte();
                let m = self.mem_get_byte_indy(oper);
                self.and(m);
            },
            // EOR
            0x49u8 => {
                let oper = self.fetch_byte();
                self.eor(oper);
            },
            0x45u8 => {
                let oper = self.fetch_byte();
                let m = self.mem_get_byte_zpg(oper);
                self.eor(m);
            },
            0x55u8 => {
                let oper = self.fetch_byte();
                let m = self.mem_get_byte_zpgx(oper);
                self.eor(m);
            },
            0x4Du8 => {
                let oper = self.fetch_word();
                let m = self.mem_get_byte_abs(oper);
                self.eor(m);
            },
            0x5Du8 => {
                let oper = self.fetch_word();
                let m = self.mem_get_byte_absx(oper);
                self.eor(m);
            },
            0x59u8 => {
                let oper = self.fetch_word();
                let m = self.mem_get_byte_absy(oper);
                self.eor(m);
            },
            0x41u8 => {
                let oper = self.fetch_byte();
                let m = self.mem_get_byte_indx(oper);
                self.eor(m);
            },
            0x51u8 => {
                let oper = self.fetch_byte();
                let m = self.mem_get_byte_indy(oper);
                self.eor(m);
            },
            // ORA
            0x09u8 => {
                let oper = self.fetch_byte();
                self.ora(oper);
            },
            0x05u8 => {
                let oper = self.fetch_byte();
                let m = self.mem_get_byte_zpg(oper);
                self.ora(m);
            },
            0x15u8 => {
                let oper = self.fetch_byte();
                let m = self.mem_get_byte_zpgx(oper);
                self.ora(m);
            },
            0x0Du8 => {
                let oper = self.fetch_word();
                let m = self.mem_get_byte_abs(oper);
                self.ora(m);
            },
            0x1Du8 => {
                let oper = self.fetch_word();
                let m = self.mem_get_byte_absx(oper);
                self.ora(m);
            },
            0x19u8 => {
                let oper = self.fetch_word();
                let m = self.mem_get_byte_absy(oper);
                self.ora(m);
            },
            0x01u8 => {
                let oper = self.fetch_byte();
                let m = self.mem_get_byte_indx(oper);
                self.ora(m);
            },
            0x11u8 => {
                let oper = self.fetch_byte();
                let m = self.mem_get_byte_indy(oper);
                self.ora(m);
            },
            // BIT
            0x24u8 => {
                let oper = self.fetch_byte();
                let m = self.mem_get_byte_zpg(oper);
                self.bit(m);
            },
            0x2Cu8 => {
                let oper = self.fetch_word();
                let m = self.mem_get_byte_abs(oper);
                self.bit(m);
            },
            0x00u8 => {
                // BRK: roll the program counter back onto the opcode.
                self.cpu.pc = self.cpu.pc.wrapping_sub(1);
                proof {
                    assert(self@ =~= old(self)@);
                }
                return Result::Err(CPUError::Break);
            },
            0x40u8 => {
                // RTI: interrupt servicing is out of scope; decoded, no effect.
            },
            0xEAu8 => {
                // NOP
            },
            _ => {
                self.cpu.pc = self.cpu.pc.wrapping_sub(1);
                proof {
                    assert(self@ =~= old(self)@);
                }
                return Result::Err(CPUError::IllegalOpcode);
            },
        }
        Result::Ok(())
    }

    /// Repeatedly executes instructions until a halting condition occurs,
    /// and returns that condition.  A safety bound of `u64::MAX` steps keeps
    /// the loop finite: only a program that runs that long without ever
    /// halting sees `Ok`, with the state the last step left behind.
    #[verifier::rlimit(60)]
    #[verifier::spinoff_prover]
    pub fn run(&mut self) -> (r: Result<(), CPUError>)
        requires
            old(self).wf(),
        ensures
            final(self).wf(),
            r matches Err(e) ==> exists|n: nat|
                Computer::runs_until_halt(old(self)@, n, final(self)@, e),
            r is Ok ==> Computer::runs_without_halt(old(self)@, u64::MAX as nat, final(self)@),
    {
        let ghost mut n: nat = 0;
        let mut fuel: u64 = u64::MAX;
        while fuel > 0
            invariant
                self.wf(),
                n + fuel == u64::MAX,
                self@ == Computer::run_steps(old(self)@, n),
                forall|k: nat|
                    k < n ==> (Computer::step_spec(
                        #[trigger] Computer::run_steps(old(self)@, k),
                    ).1 is Ok),
            decreases fuel,
        {
            let res = self.step();
            match res {
                Result::Ok(()) => {
                    proof {
                        n = n + 1;
                    }
                    fuel = fuel - 1;
                },
                Result::Err(e) => {
                    proof {
                        assert(Computer::runs_until_halt(old(self)@, n, self@, e));
                    }
                    return Result::Err(e);
                },
            }
        }
        Result::Ok(())
    }
}

} // verus!
