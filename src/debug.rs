use vstd::prelude::*;

use crate::cpu::add16;
use crate::decode::{decode, decode_spec, operand_length, operand_length_spec, Instruction};
use crate::mem::CPUMemory;

verus! {

/// One decoded instruction as a debugger shows it.
#[derive(Clone, Copy, Debug, PartialEq, Eq, Structural)]
pub struct Disassembly {
    pub instruction: Instruction,
    /// The operand byte or word (little-endian); 0 for one-byte instructions.
    pub operand: u16,
    /// Bytes from this instruction to the next.
    pub length: u16,
}

/// The operand of an instruction of `length` bytes at `addr`, read silently.
pub open spec fn operand_spec(mem: CPUMemory, addr: u16, length: u16) -> u16 {
    if length == 2 {
        mem.peek_spec(add16(addr as int, 1)) as u16
    } else if length == 3 {
        mem.peek16_spec(add16(addr as int, 1))
    } else {
        0
    }
}

/// Decodes the instruction at `addr` without side effects; `None` when the
/// opcode there is not an official one.
pub fn disassemble(addr: u16, mem: &CPUMemory) -> (r: Option<Disassembly>)
    requires
        mem.wf(),
    ensures
        match decode_spec(mem.peek_spec(addr)) {
            None => r is None,
            Some(i) => r == Some(
                Disassembly {
                    instruction: i,
                    operand: operand_spec(*mem, addr, operand_length_spec(i.mode)),
                    length: operand_length_spec(i.mode),
                },
            ),
        },
{
    let opcode: u8 = mem.observe(addr);
    match decode(opcode) {
        None => None,
        Some(instruction) => {
            let length: u16 = operand_length(instruction.mode);
            let next: u16 = addr.wrapping_add(1);
            let operand: u16 = if length == 2 {
                mem.observe(next) as u16
            } else if length == 3 {
                mem.observe_16(next)
            } else {
                0
            };
            Some(Disassembly { instruction, operand, length })
        },
    }
}

} // verus!
