//! The decoded-instruction value type and its opcode classification.

use vstd::prelude::*;

verus! {

/// The operation kind of a decoded instruction.
///
/// `BEQ` through `BGEU` are the conditional branches; `JAL` and `JALR` are the
/// unconditional control transfers; the rest are straight-line operations.
#[derive(Clone, Copy, Debug, PartialEq, Eq, Structural)]
pub enum Opcode {
    /// Integer addition.
    ADD,
    /// Integer subtraction.
    SUB,
    /// Word load from memory.
    LW,
    /// Word store to memory.
    SW,
    /// Environment call (syscall entry).
    ECALL,
    /// Branch if equal.
    BEQ,
    /// Branch if not equal.
    BNE,
    /// Branch if less than (signed).
    BLT,
    /// Branch if greater or equal (signed).
    BGE,
    /// Branch if less than (unsigned).
    BLTU,
    /// Branch if greater or equal (unsigned).
    BGEU,
    /// Jump and link.
    JAL,
    /// Jump and link register.
    JALR,
}

/// One decoded operation: an opcode plus its operand fields, with immediates
/// already extracted by the loader. Fixed-size, copied by value, compared by
/// value.
#[derive(Clone, Copy, Debug, PartialEq, Eq, Structural)]
pub struct Instruction {
    /// The operation kind.
    pub opcode: Opcode,
    /// First operand field (typically the destination register).
    pub op_a: u32,
    /// Second operand field; for `JAL`/`JALR` this carries the decoded
    /// pc-relative offset of the jump.
    pub op_b: u32,
    /// Third operand field; for conditional branches this carries the decoded
    /// pc-relative offset of the branch.
    pub op_c: u32,
}

impl Instruction {
    /// Build an instruction from its decoded fields.
    pub fn new(opcode: Opcode, op_a: u32, op_b: u32, op_c: u32) -> (r: Instruction)
        ensures
            r == (Instruction { opcode, op_a, op_b, op_c }),
    {
        Instruction { opcode, op_a, op_b, op_c }
    }
}

} // verus!
