//! Laws of the core, stated over the model and proved once for all inputs:
//! the modular wrap of every addressing mode, the stack round trip, the
//! subroutine-linkage round trip, the indirect-jump reading rule, and the
//! halting behaviour of BRK and of undecodable opcodes.

use vstd::prelude::*;

use crate::cpu::{spec_decode, CPUError, CPU};
use crate::model::{
    ea_absi, ea_indx, ea_indy, ea_zpg, ea_zpgi, pull_word_spec, push_word_spec, MachineState,
};

verus! {

/// For `0 <= x < 512`, reducing modulo 256 either keeps `x` or subtracts
/// one full turn.
proof fn lemma_mod_one_turn_256(x: int)
    requires
        0 <= x < 512,
    ensures
        x % 256 == if x < 256 {
            x
        } else {
            x - 256
        },
{
    if x < 256 {
        vstd::arithmetic::div_mod::lemma_small_mod(x as nat, 256);
    } else {
        vstd::arithmetic::div_mod::lemma_mod_add_multiples_vanish(x - 256, 256);
        vstd::arithmetic::div_mod::lemma_small_mod((x - 256) as nat, 256);
    }
}

/// For `0 <= x < 131072`, reducing modulo 65536 either keeps `x` or
/// subtracts one full turn.
proof fn lemma_mod_one_turn_65536(x: int)
    requires
        0 <= x < 131072,
    ensures
        x % 65536 == if x < 65536 {
            x
        } else {
            x - 65536
        },
{
    if x < 65536 {
        vstd::arithmetic::div_mod::lemma_small_mod(x as nat, 65536);
    } else {
        vstd::arithmetic::div_mod::lemma_mod_add_multiples_vanish(x - 65536, 65536);
        vstd::arithmetic::div_mod::lemma_small_mod((x - 65536) as nat, 65536);
    }
}

/// Effective-address arithmetic wraps for every addressing mode: the
/// zero-page forms add modulo 256 and stay within page zero, and the
/// absolute and indirect forms add modulo 65536.
pub proof fn lemma_effective_address_wraps(s: MachineState, oper: u8, operw: u16, idx: u8)
    ensures
        ea_zpg(oper) == oper,
        ea_zpgi(oper, idx) == (oper + idx) % 256,
        ea_zpgi(oper, idx) < 0x100,
        ea_absi(operw, idx) == (operw + idx) % 0x10000,
        ea_indx(s, oper, idx) == s.word_at((((oper + idx) % 256) as u16)),
        ea_indy(s, oper, idx) == (s.word_at(oper as u16) + idx) % 0x10000,
{
    lemma_mod_one_turn_256(oper + idx);
    lemma_mod_one_turn_65536(operw + idx);
    lemma_mod_one_turn_65536(s.word_at(oper as u16) + idx);
}

/// Pushing a word and then pulling one returns the same word, and the
/// stack pointer nets back to its original value.
pub proof fn lemma_push_pull_word_round_trip(s: MachineState, w: u16)
    requires
        s.mem_wf(),
    ensures
        pull_word_spec(push_word_spec(s, w)).1 == w,
        pull_word_spec(push_word_spec(s, w)).0.sp == s.sp,
{
    vstd::arithmetic::div_mod::lemma_fundamental_div_mod(w as int, 256);
}

/// A JSR followed directly by an RTS at the subroutine's address returns:
/// after the RTS the program counter is the address immediately following
/// the three-byte JSR instruction, and the stack pointer is restored.
pub proof fn lemma_jsr_then_rts(s: MachineState)
    requires
        s.mem_wf(),
        s.byte_at(s.pc) == 0x20,
        CPU::step_spec(s).0.byte_at(CPU::step_spec(s).0.pc) == 0x60,
    ensures
        CPU::step_spec(s).1 is Ok,
        CPU::step_spec(CPU::step_spec(s).0).1 is Ok,
        CPU::step_spec(CPU::step_spec(s).0).0.pc == s.pc.wrapping_add(3),
        CPU::step_spec(CPU::step_spec(s).0).0.sp == s.sp,
{
    let ret = s.pc.wrapping_add(3);
    vstd::arithmetic::div_mod::lemma_fundamental_div_mod(ret as int, 256);
}

/// An indirect jump reads the two bytes at the pointer address as its
/// target, low byte first: the word at the operand address names a pointer,
/// and the word that pointer holds becomes the program counter.  Nothing
/// but the program counter changes.
pub proof fn lemma_jmp_indirect(s: MachineState)
    requires
        s.mem_wf(),
        s.byte_at(s.pc) == 0x6C,
    ensures
        CPU::step_spec(s).1 is Ok,
        CPU::step_spec(s).0.pc == s.word_at(s.word_at(s.pc.wrapping_add(1))),
        CPU::step_spec(s).0.pc == {
            let ptr = s.word_at(s.pc.wrapping_add(1));
            (s.byte_at(ptr) + 256 * s.byte_at(ptr.wrapping_add(1))) as u16
        },
        CPU::step_spec(s).0.mem == s.mem,
        CPU::step_spec(s).0.sp == s.sp,
        CPU::step_spec(s).0.a == s.a && CPU::step_spec(s).0.x == s.x && CPU::step_spec(s).0.y
            == s.y,
{
}

/// An opcode with no assigned decoding rule signals `IllegalOpcode` and
/// changes nothing: the program counter still points at that opcode.
pub proof fn lemma_illegal_opcode(s: MachineState)
    requires
        spec_decode(s.byte_at(s.pc)) is None,
    ensures
        CPU::step_spec(s).0 == s,
        CPU::step_spec(s).1 == Result::<(), CPUError>::Err(CPUError::IllegalOpcode),
{
}

/// BRK signals `Break` and changes nothing: the program counter is rolled
/// back to point at the BRK opcode itself.
pub proof fn lemma_break(s: MachineState)
    requires
        s.byte_at(s.pc) == 0x00,
    ensures
        CPU::step_spec(s).0 == s,
        CPU::step_spec(s).1 == Result::<(), CPUError>::Err(CPUError::Break),
{
}

} // verus!
