//! The mutable execution state a syscall capability works against: program
//! counter, register file, addressable memory, an append-only event log, and
//! the cycle account.

use std::collections::HashMap;
use vstd::prelude::*;

verus! {

broadcast use vstd::std_specs::hash::group_hash_axioms;

/// A structured, deterministic record of one precompile invocation, appended
/// to the event log for downstream proof construction: the syscall code, the
/// two raw arguments (operand addresses), and the operand words read from
/// memory at call time.
#[derive(Clone, Debug, PartialEq, Eq)]
pub struct SyscallEvent {
    /// The syscall code that was dispatched.
    pub code: u32,
    /// The first raw argument (typically the first operand's address).
    pub arg1: u32,
    /// The second raw argument (typically the second operand's address).
    pub arg2: u32,
    /// The words of the first operand at call time.
    pub input1: Vec<u32>,
    /// The words of the second operand at call time.
    pub input2: Vec<u32>,
}

impl View for SyscallEvent {
    type V = (u32, u32, u32, Seq<u32>, Seq<u32>);

    open spec fn view(&self) -> (u32, u32, u32, Seq<u32>, Seq<u32>) {
        (self.code, self.arg1, self.arg2, self.input1@, self.input2@)
    }
}

/// The word stored at `addr`, an absent address reading as zero.
pub open spec fn mem_word(memory: Map<u32, u32>, addr: u32) -> u32 {
    if memory.contains_key(addr) {
        memory[addr]
    } else {
        0
    }
}

/// The `count` words at consecutive word addresses starting at `base`, in
/// 32-bit address arithmetic.
pub open spec fn mem_words(memory: Map<u32, u32>, base: u32, count: nat) -> Seq<u32> {
    Seq::new(count, |i: int| mem_word(memory, base.wrapping_add((4 * i) as u32)))
}

/// The execution state a syscall reads and mutates, owned by the surrounding
/// executor and passed by reference into dispatch.
pub struct SyscallContext {
    /// The program counter of the syscall instruction being retired.
    pub pc: u32,
    /// The register file (32 general-purpose registers).
    pub registers: Vec<u32>,
    /// Addressable memory, sparse, one 32-bit word per address.
    pub memory: HashMap<u32, u32>,
    /// The append-only log of precompile events.
    pub events: Vec<SyscallEvent>,
    /// Total cycles charged to the executing program so far.
    pub cycles: u64,
}

impl SyscallContext {
    /// The register file always holds exactly 32 registers.
    pub open spec fn wf(&self) -> bool {
        self.registers@.len() == 32
    }

    /// A fresh context at `pc` with zeroed registers, empty memory, an empty
    /// event log, and no cycles charged.
    pub fn new(pc: u32) -> (r: SyscallContext)
        ensures
            r.wf(),
            r.pc == pc,
            r.registers@ == Seq::<u32>::new(32, |i: int| 0u32),
            r.memory@ == Map::<u32, u32>::empty(),
            r.events@ == Seq::<SyscallEvent>::empty(),
            r.cycles == 0,
    {
        let mut registers: Vec<u32> = Vec::new();
        let mut i: usize = 0;
        while i < 32
            invariant
                i <= 32,
                registers@.len() == i,
                forall|j: int| 0 <= j < i ==> registers@[j] == 0u32,
            decreases 32 - i,
        {
            registers.push(0);
            i += 1;
        }
        proof {
            assert(registers@ =~= Seq::<u32>::new(32, |j: int| 0u32));
        }
        SyscallContext { pc, registers, memory: HashMap::new(), events: Vec::new(), cycles: 0 }
    }

    /// Read the memory word at `addr`; an address never written reads as
    /// zero.
    pub fn mr(&self, addr: u32) -> (word: u32)
        ensures
            word == mem_word(self.memory@, addr),
    {
        match self.memory.get(&addr) {
            Some(word) => *word,
            None => 0,
        }
    }

    /// Write `word` to the memory word at `addr`.
    pub fn mw(&mut self, addr: u32, word: u32)
        ensures
            final(self).memory@ == old(self).memory@.insert(addr, word),
            final(self).pc == old(self).pc,
            final(self).registers == old(self).registers,
            final(self).events == old(self).events,
            final(self).cycles == old(self).cycles,
    {
        self.memory.insert(addr, word);
    }

    /// Read register `reg`.
    pub fn rr(&self, reg: usize) -> (word: u32)
        requires
            self.wf(),
            reg < 32,
        ensures
            word == self.registers@[reg as int],
    {
        self.registers[reg]
    }

    /// Write `word` to register `reg`.
    pub fn rw(&mut self, reg: usize, word: u32)
        requires
            old(self).wf(),
            reg < 32,
        ensures
            final(self).wf(),
            final(self).registers@ == old(self).registers@.update(reg as int, word),
            final(self).pc == old(self).pc,
            final(self).memory == old(self).memory,
            final(self).events == old(self).events,
            final(self).cycles == old(self).cycles,
    {
        self.registers.set(reg, word);
    }

    /// Append one event record to the log.
    pub fn append_event(&mut self, event: SyscallEvent)
        ensures
            final(self).events@ == old(self).events@.push(event),
            final(self).pc == old(self).pc,
            final(self).registers == old(self).registers,
            final(self).memory == old(self).memory,
            final(self).cycles == old(self).cycles,
    {
        self.events.push(event);
    }
}

} // verus!
