//! Execution core of a RISC-V virtual machine whose trace feeds a proof
//! generator: a speculative instruction-prefetch pipeline (saturating-counter
//! branch predictor plus a fixed-capacity circular buffer) and a syscall /
//! precompile dispatch mechanism with cycle-accurate cost accounting.

pub mod context;
pub mod instruction;
pub mod pipeline;
pub mod predictor;
pub mod program;
pub mod syscall;
pub mod types;

pub use context::{SyscallContext, SyscallEvent};
pub use instruction::{Instruction, Opcode};
pub use pipeline::{
    calculate_branch_target, calculate_jump_target, is_control_flow_instruction,
    InstructionPipeline,
};
pub use predictor::BranchPredictor;
pub use program::Program;
pub use syscall::{Capability, EdwardsAddAssignSyscall, ExecutionError, Syscall, SyscallRegistry};
pub use types::{Buffer, IdentityBuildHasher, IdentityHasher, RecursionProgramType};
