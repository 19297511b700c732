//! The immutable compiled representation of a binary: the instruction
//! sequence, its addresses, and the initial memory image.

use std::collections::HashMap;
use vstd::prelude::*;

use crate::instruction::Instruction;

verus! {

broadcast use vstd::std_specs::hash::group_hash_axioms;

/// A program the execution core can run.
///
/// The instruction at address `pc_base + 4 * i` is `instructions[i]`; any
/// address outside `[pc_base, pc_base + 4 * instructions.len())` is out of
/// program bounds. Built once by the loader, read-only thereafter.
#[derive(Debug, Clone, Default)]
pub struct Program {
    /// The instructions of the program.
    pub instructions: Vec<Instruction>,
    /// The start address of the program.
    pub pc_start: u32,
    /// The base address of the program.
    pub pc_base: u32,
    /// The initial memory image, useful for global constants.
    pub memory_image: HashMap<u32, u32>,
}

impl Program {
    /// Internal consistency: the covered address range `[pc_base,
    /// pc_base + 4 * instructions.len())` lies within the 32-bit address
    /// space, and its length fits in a `u32`.
    pub open spec fn wf(&self) -> bool {
        &&& 4 * self.instructions@.len() <= 0xFFFF_FFFF
        &&& self.pc_base + 4 * self.instructions@.len() <= 0x1_0000_0000
    }

    /// Whether `pc` addresses an instruction of the program.
    pub open spec fn in_bounds(&self, pc: u32) -> bool {
        self.pc_base <= pc < self.pc_base + 4 * self.instructions@.len()
    }

    /// The index of the instruction addressed by `pc`.
    pub open spec fn index_of(&self, pc: u32) -> int {
        (pc - self.pc_base) / 4
    }

    /// The instruction addressed by `pc`.
    pub open spec fn instruction_at(&self, pc: u32) -> Instruction {
        self.instructions@[self.index_of(pc)]
    }

    /// Build a program from an instruction sequence and its metadata, with an
    /// empty memory image.
    pub fn new(instructions: Vec<Instruction>, pc_start: u32, pc_base: u32) -> (r: Program)
        requires
            4 * instructions@.len() <= 0xFFFF_FFFF,
            pc_base + 4 * instructions@.len() <= 0x1_0000_0000,
        ensures
            r.instructions == instructions,
            r.pc_start == pc_start,
            r.pc_base == pc_base,
            r.memory_image@ == Map::<u32, u32>::empty(),
            r.wf(),
    {
        Program { instructions, pc_start, pc_base, memory_image: HashMap::new() }
    }
}

} // verus!
