//! The polymorphic syscall / precompile capability contract and its
//! dispatcher.
//!
//! A capability is stateless: all mutable state lives in the
//! [`SyscallContext`]. Its effect — result value, memory writes, and the one
//! event record it appends — is a function of the context's memory and the
//! raw arguments alone, never of wall-clock time or randomness, so the event
//! log is replayable for proof construction. Register-file updates stay with
//! the surrounding executor, which may place the optional result value into a
//! result register.

use std::collections::HashMap;
use vstd::prelude::*;

use crate::context::{mem_words, SyscallContext, SyscallEvent};

verus! {

broadcast use vstd::std_specs::hash::group_hash_axioms;

/// Words per twisted-Edwards point: two 256-bit coordinates, eight 32-bit
/// words each.
pub const POINT_WORDS: usize = 16;

/// A terminal execution fault: the run must halt with a deterministic
/// diagnostic, and proof generation must not proceed.
#[derive(Clone, Copy, Debug, PartialEq, Eq, Structural)]
pub enum ExecutionError {
    /// The dispatched syscall code resolved to no registered capability: the
    /// binary is malformed or incompatible, and the diagnostic names the
    /// code.
    UnsupportedSyscall(u32),
}

/// The two-operation capability contract every precompile implements.
///
/// `execute` must leave the pc, the register file, and the cycle account
/// alone, mutate memory and the event log only as a function of the old
/// memory and the arguments, and append exactly one event; cycle accounting
/// is the dispatcher's job, driven by `num_extra_cycles`.
pub trait Syscall: Sized {
    /// The fixed extra-cycle cost this capability declares.
    spec fn spec_extra_cycles(&self) -> u32;

    /// The optional result value, as a function of memory and arguments.
    spec fn spec_result(&self, memory: Map<u32, u32>, code: u32, arg1: u32, arg2: u32) -> Option<
        u32,
    >;

    /// The memory after the call, as a function of memory and arguments.
    spec fn spec_memory(&self, memory: Map<u32, u32>, code: u32, arg1: u32, arg2: u32) -> Map<
        u32,
        u32,
    >;

    /// The one event record the call appends, as a function of memory and
    /// arguments.
    spec fn spec_event(&self, memory: Map<u32, u32>, code: u32, arg1: u32, arg2: u32) -> (
        u32,
        u32,
        u32,
        Seq<u32>,
        Seq<u32>,
    );

    /// The fixed additional cycle cost charged beyond the syscall
    /// instruction's single base cycle. Constant per capability, never
    /// data-dependent, so accounting stays deterministic and auditable.
    fn num_extra_cycles(&self) -> (cycles: u32)
        ensures
            cycles == self.spec_extra_cycles(),
    ;

    /// Perform the primitive operation against the execution context and
    /// append exactly one event record capturing its inputs and outputs.
    fn execute(&self, ctx: &mut SyscallContext, code: u32, arg1: u32, arg2: u32) -> (r: Option<
        u32,
    >)
        requires
            old(ctx).wf(),
        ensures
            final(ctx).wf(),
            r == self.spec_result(old(ctx).memory@, code, arg1, arg2),
            final(ctx).memory@ == self.spec_memory(old(ctx).memory@, code, arg1, arg2),
            final(ctx).events@.len() == old(ctx).events@.len() + 1,
            final(ctx).events@.drop_last() == old(ctx).events@,
            final(ctx).events@.last()@ == self.spec_event(old(ctx).memory@, code, arg1, arg2),
            final(ctx).pc == old(ctx).pc,
            final(ctx).registers@ == old(ctx).registers@,
            final(ctx).cycles == old(ctx).cycles,
    ;
}

/// Twisted-Edwards curve point addition as a precompile capability: it reads
/// the two operand points at the argument addresses and records them in one
/// event for the downstream proof backend, which performs the curve
/// arithmetic. Stateless; one instance serves a whole run.
#[derive(Clone, Copy, Debug)]
pub struct EdwardsAddAssignSyscall {
}

impl EdwardsAddAssignSyscall {
    /// Create a new instance of the capability.
    pub fn new() -> (r: EdwardsAddAssignSyscall)
        ensures
            r == (EdwardsAddAssignSyscall {  }),
    {
        EdwardsAddAssignSyscall {  }
    }

    /// Read the `POINT_WORDS` operand words at consecutive addresses from
    /// `base`.
    fn read_point(&self, ctx: &SyscallContext, base: u32) -> (words: Vec<u32>)
        ensures
            words@ == mem_words(ctx.memory@, base, POINT_WORDS as nat),
    {
        let mut words: Vec<u32> = Vec::new();
        let mut i: usize = 0;
        while i < POINT_WORDS
            invariant
                i <= POINT_WORDS,
                words@.len() == i,
                forall|j: int|
                    0 <= j < i ==> words@[j] == mem_words(ctx.memory@, base, POINT_WORDS as nat)[j],
            decreases POINT_WORDS - i,
        {
            let addr = base.wrapping_add((i as u32) * 4);
            words.push(ctx.mr(addr));
            i += 1;
        }
        proof {
            assert(words@ =~= mem_words(ctx.memory@, base, POINT_WORDS as nat));
        }
        words
    }
}

impl Syscall for EdwardsAddAssignSyscall {
    open spec fn spec_extra_cycles(&self) -> u32 {
        1
    }

    open spec fn spec_result(&self, memory: Map<u32, u32>, code: u32, arg1: u32, arg2: u32) -> Option<
        u32,
    > {
        None
    }

    open spec fn spec_memory(&self, memory: Map<u32, u32>, code: u32, arg1: u32, arg2: u32) -> Map<
        u32,
        u32,
    > {
        memory
    }

    open spec fn spec_event(&self, memory: Map<u32, u32>, code: u32, arg1: u32, arg2: u32) -> (
        u32,
        u32,
        u32,
        Seq<u32>,
        Seq<u32>,
    ) {
        (
            code,
            arg1,
            arg2,
            mem_words(memory, arg1, POINT_WORDS as nat),
            mem_words(memory, arg2, POINT_WORDS as nat),
        )
    }

    fn num_extra_cycles(&self) -> (cycles: u32) {
        1
    }

    fn execute(&self, ctx: &mut SyscallContext, code: u32, arg1: u32, arg2: u32) -> (r: Option<
        u32,
    >) {
        let input1 = self.read_point(ctx, arg1);
        let input2 = self.read_point(ctx, arg2);
        ctx.append_event(SyscallEvent { code, arg1, arg2, input1, input2 });
        None
    }
}

/// The registered capability implementations, dispatched by variant.
#[derive(Clone, Copy, Debug)]
pub enum Capability {
    /// Twisted-Edwards curve point addition.
    EdwardsAdd(EdwardsAddAssignSyscall),
}

impl Syscall for Capability {
    open spec fn spec_extra_cycles(&self) -> u32 {
        match self {
            Capability::EdwardsAdd(c) => c.spec_extra_cycles(),
        }
    }

    open spec fn spec_result(&self, memory: Map<u32, u32>, code: u32, arg1: u32, arg2: u32) -> Option<
        u32,
    > {
        match self {
            Capability::EdwardsAdd(c) => c.spec_result(memory, code, arg1, arg2),
        }
    }

    open spec fn spec_memory(&self, memory: Map<u32, u32>, code: u32, arg1: u32, arg2: u32) -> Map<
        u32,
        u32,
    > {
        match self {
            Capability::EdwardsAdd(c) => c.spec_memory(memory, code, arg1, arg2),
        }
    }

    open spec fn spec_event(&self, memory: Map<u32, u32>, code: u32, arg1: u32, arg2: u32) -> (
        u32,
        u32,
        u32,
        Seq<u32>,
        Seq<u32>,
    ) {
        match self {
            Capability::EdwardsAdd(c) => c.spec_event(memory, code, arg1, arg2),
        }
    }

    fn num_extra_cycles(&self) -> (cycles: u32) {
        match self {
            Capability::EdwardsAdd(c) => c.num_extra_cycles(),
        }
    }

    fn execute(&self, ctx: &mut SyscallContext, code: u32, arg1: u32, arg2: u32) -> (r: Option<
        u32,
    >) {
        match self {
            Capability::EdwardsAdd(c) => c.execute(ctx, code, arg1, arg2),
        }
    }
}

/// The code-to-capability dispatch table. New precompiles are added by
/// registering a code against a capability; the dispatcher's control flow
/// never changes.
pub struct SyscallRegistry {
    table: HashMap<u32, Capability>,
}

impl SyscallRegistry {
    /// The registered mapping from syscall code to capability.
    pub closed spec fn spec_table(&self) -> Map<u32, Capability> {
        self.table@
    }

    /// An empty registry.
    pub fn new() -> (r: SyscallRegistry)
        ensures
            r.spec_table() == Map::<u32, Capability>::empty(),
    {
        SyscallRegistry { table: HashMap::new() }
    }

    /// Register `capability` under `code`, replacing any earlier entry.
    pub fn register(&mut self, code: u32, capability: Capability)
        ensures
            final(self).spec_table() == old(self).spec_table().insert(code, capability),
    {
        self.table.insert(code, capability);
    }

    /// Resolve `code` and invoke the registered capability against `ctx`,
    /// charging one base cycle plus the capability's declared extra cycles.
    /// An unregistered code is a fatal fault: nothing is mutated and the
    /// diagnostic identifies the code.
    pub fn dispatch(&self, ctx: &mut SyscallContext, code: u32, arg1: u32, arg2: u32) -> (r:
        Result<Option<u32>, ExecutionError>)
        requires
            old(ctx).wf(),
            old(ctx).cycles + 0x1_0000_0000 <= u64::MAX,
        ensures
            final(ctx).wf(),
            r.is_ok() <==> self.spec_table().contains_key(code),
            !self.spec_table().contains_key(code) ==> r == Err::<Option<u32>, ExecutionError>(
                ExecutionError::UnsupportedSyscall(code),
            ) && *final(ctx) == *old(ctx),
            self.spec_table().contains_key(code) ==> ({
                let capability = self.spec_table()[code];
                &&& final(ctx).cycles == old(ctx).cycles + 1 + capability.spec_extra_cycles()
                &&& r == Ok::<Option<u32>, ExecutionError>(
                    capability.spec_result(old(ctx).memory@, code, arg1, arg2),
                )
                &&& final(ctx).memory@ == capability.spec_memory(old(ctx).memory@, code, arg1, arg2)
                &&& final(ctx).events@.len() == old(ctx).events@.len() + 1
                &&& final(ctx).events@.drop_last() == old(ctx).events@
                &&& final(ctx).events@.last()@ == capability.spec_event(
                    old(ctx).memory@,
                    code,
                    arg1,
                    arg2,
                )
                &&& final(ctx).pc == old(ctx).pc
                &&& final(ctx).registers@ == old(ctx).registers@
            }),
    {
        match self.table.get(&code) {
            None => Err(ExecutionError::UnsupportedSyscall(code)),
            Some(capability) => {
                let extra = capability.num_extra_cycles();
                ctx.cycles = ctx.cycles + 1 + (extra as u64);
                let r = capability.execute(ctx, code, arg1, arg2);
                Ok(r)
            },
        }
    }
}

/// Determinism of the capability contract: with identical memory and
/// identical arguments, a capability's result value, memory effect, and
/// emitted event record are identical — they are functions of that state
/// alone, so the event log is replayable.
pub proof fn lemma_execute_deterministic<S: Syscall>(
    capability: &S,
    memory1: Map<u32, u32>,
    memory2: Map<u32, u32>,
    code: u32,
    arg1: u32,
    arg2: u32,
)
    requires
        memory1 == memory2,
    ensures
        capability.spec_result(memory1, code, arg1, arg2) == capability.spec_result(
            memory2,
            code,
            arg1,
            arg2,
        ),
        capability.spec_memory(memory1, code, arg1, arg2) == capability.spec_memory(
            memory2,
            code,
            arg1,
            arg2,
        ),
        capability.spec_event(memory1, code, arg1, arg2) == capability.spec_event(
            memory2,
            code,
            arg1,
            arg2,
        ),
{
}

} // verus!
