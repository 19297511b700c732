//! Speculative instruction-prefetch pipeline: a fixed-capacity circular
//! buffer of decoded instructions, filled ahead of execution by walking the
//! program with branch-predictor guesses.

use vstd::prelude::*;

use crate::instruction::{Instruction, Opcode};
use crate::predictor::{predict_spec, update_spec, BranchPredictor};
use crate::program::Program;

verus! {

/// Whether `opcode` is a conditional branch.
pub open spec fn is_branch(opcode: Opcode) -> bool {
    matches!(
        opcode,
        Opcode::BEQ | Opcode::BGE | Opcode::BGEU | Opcode::BLT | Opcode::BLTU | Opcode::BNE,
    )
}

/// Whether `opcode` transfers control: a conditional branch or an
/// unconditional jump.
pub open spec fn is_control_flow(opcode: Opcode) -> bool {
    is_branch(opcode) || matches!(opcode, Opcode::JAL | Opcode::JALR)
}

/// Check if an instruction is a control flow instruction.
pub fn is_control_flow_instruction(opcode: Opcode) -> (r: bool)
    ensures
        r == is_control_flow(opcode),
{
    matches!(
        opcode,
        Opcode::BEQ
            | Opcode::BGE
            | Opcode::BGEU
            | Opcode::BLT
            | Opcode::BLTU
            | Opcode::BNE
            | Opcode::JAL
            | Opcode::JALR,
    )
}

/// The target of an unconditional jump: the pc plus the instruction's decoded
/// offset operand, in 32-bit address arithmetic.
pub open spec fn jump_target_spec(instruction: Instruction, pc: u32) -> u32 {
    pc.wrapping_add(instruction.op_b)
}

/// The target of a conditional branch, when taken: the pc plus the
/// instruction's decoded offset operand, in 32-bit address arithmetic.
pub open spec fn branch_target_spec(instruction: Instruction, pc: u32) -> u32 {
    pc.wrapping_add(instruction.op_c)
}

/// Helper function to calculate a jump target pc from the decoded offset
/// operand of a `JAL`/`JALR` instruction.
pub fn calculate_jump_target(instruction: Instruction, pc: u32) -> (target: u32)
    ensures
        target == jump_target_spec(instruction, pc),
{
    pc.wrapping_add(instruction.op_b)
}

/// Helper function to calculate a branch target pc from the decoded offset
/// operand of a conditional-branch instruction.
pub fn calculate_branch_target(instruction: Instruction, pc: u32) -> (target: u32)
    ensures
        target == branch_target_spec(instruction, pc),
{
    pc.wrapping_add(instruction.op_c)
}

/// The pc the speculative walk advances to after fetching `instruction` at
/// `pc`: the jump target for unconditional jumps, the branch target for
/// branches predicted taken, and the next instruction otherwise.
pub open spec fn next_pc_spec(predictor: Map<u32, u8>, instruction: Instruction, pc: u32) -> u32 {
    if matches!(instruction.opcode, Opcode::JAL | Opcode::JALR) {
        jump_target_spec(instruction, pc)
    } else if is_branch(instruction.opcode) {
        if predict_spec(predictor, pc) {
            branch_target_spec(instruction, pc)
        } else {
            pc.wrapping_add(4)
        }
    } else {
        pc.wrapping_add(4)
    }
}

/// The sequence of instructions a speculative walk fetches: starting at `pc`,
/// it stops when the walk has taken `fuel` steps, when only `room` slots were
/// free, or when the pc leaves program bounds; otherwise it fetches the
/// instruction at `pc` and advances along the predicted path.
pub open spec fn prefetch_walk(
    program: Program,
    predictor: Map<u32, u8>,
    pc: u32,
    fuel: nat,
    room: nat,
) -> Seq<Instruction>
    decreases fuel,
{
    if fuel == 0 || room == 0 {
        Seq::<Instruction>::empty()
    } else if !program.in_bounds(pc) {
        Seq::<Instruction>::empty()
    } else {
        let instruction = program.instruction_at(pc);
        seq![instruction] + prefetch_walk(
            program,
            predictor,
            next_pc_spec(predictor, instruction, pc),
            (fuel - 1) as nat,
            (room - 1) as nat,
        )
    }
}

/// One wrapped advance of a buffer index: how `push` steps `tail` and `pop`
/// steps `head`.
pub open spec fn advance_index(i: int) -> int {
    (i + 1) % 16
}

/// `n` successive wrapped advances of a buffer index.
pub open spec fn advance_index_n(i: int, n: nat) -> int
    decreases n,
{
    if n == 0 {
        i
    } else {
        advance_index(advance_index_n(i, (n - 1) as nat))
    }
}

/// Advancing a wrapped index by one: masking with 15 is reduction modulo the
/// 16-slot capacity.
proof fn lemma_advance_mask(x: usize)
    by (bit_vector)
    requires
        x < 16,
    ensures
        ((x + 1) as usize) & 15 == ((x + 1) as usize) % 16,
{
}

/// Fixed-size circular buffer for prefetched instructions, plus the branch
/// predictor that guides speculation.
pub struct InstructionPipeline {
    /// Slot storage; capacity is a power of 2 for efficient wrapping.
    buffer: Vec<Option<Instruction>>,
    /// Read position.
    head: usize,
    /// Write position.
    tail: usize,
    /// Current number of instructions in the buffer.
    size: usize,
    /// Maximum capacity (always 16).
    capacity: usize,
    /// Simple branch predictor.
    branch_predictor: BranchPredictor,
}

impl InstructionPipeline {
    /// The slot holding the `i`-th buffered instruction, counted from `head`
    /// with wraparound.
    closed spec fn slot(&self, i: int) -> Option<Instruction> {
        self.buffer@[(self.head + i) % 16]
    }

    /// Structural invariant: indices wrapped within the 16 slots, `tail`
    /// placed `size` slots past `head`, and every live slot occupied.
    pub closed spec fn wf(&self) -> bool {
        &&& self.buffer@.len() == 16
        &&& self.capacity == 16
        &&& self.head < 16
        &&& self.tail < 16
        &&& self.size <= 16
        &&& self.tail == (self.head + self.size) % 16
        &&& forall|i: int| 0 <= i < self.size ==> (#[trigger] self.slot(i)).is_some()
        &&& self.branch_predictor.wf()
    }

    /// The buffered instructions in pop order: the `size` live slots starting
    /// at `head`.
    pub closed spec fn contents(&self) -> Seq<Instruction> {
        Seq::new(self.size as nat, |i: int| self.slot(i).unwrap())
    }

    /// The branch predictor's counter table.
    pub closed spec fn predictor_view(&self) -> Map<u32, u8> {
        self.branch_predictor@
    }

    /// The read position.
    pub closed spec fn head_spec(&self) -> usize {
        self.head
    }

    /// The write position.
    pub closed spec fn tail_spec(&self) -> usize {
        self.tail
    }

    /// A fresh, empty pipeline with a cold predictor.
    pub fn new() -> (r: InstructionPipeline)
        ensures
            r.wf(),
            r.contents() == Seq::<Instruction>::empty(),
            r.predictor_view() == Map::<u32, u8>::empty(),
            r.head_spec() == 0,
            r.tail_spec() == 0,
    {
        let mut buffer: Vec<Option<Instruction>> = Vec::new();
        let mut i: usize = 0;
        while i < 16
            invariant
                i <= 16,
                buffer@.len() == i,
            decreases 16 - i,
        {
            buffer.push(None);
            i += 1;
        }
        let r = InstructionPipeline {
            buffer,
            head: 0,
            tail: 0,
            size: 0,
            capacity: 16,
            branch_predictor: BranchPredictor::new(),
        };
        proof {
            assert(r.contents() =~= Seq::<Instruction>::empty());
        }
        r
    }

    /// The number of buffered instructions.
    pub fn len(&self) -> (n: usize)
        ensures
            n == self.contents().len(),
    {
        self.size
    }

    /// The current read position, for observing wraparound.
    pub fn head_index(&self) -> (h: usize)
        ensures
            h == self.head_spec(),
    {
        self.head
    }

    /// The current write position, for observing wraparound.
    pub fn tail_index(&self) -> (t: usize)
        ensures
            t == self.tail_spec(),
    {
        self.tail
    }

    /// Store `instruction` at `tail` and advance it with wraparound; fails
    /// without mutating anything when the buffer is full.
    pub fn push(&mut self, instruction: Instruction) -> (ok: bool)
        requires
            old(self).wf(),
        ensures
            final(self).wf(),
            ok == (old(self).contents().len() < 16),
            !ok ==> *final(self) == *old(self),
            ok ==> final(self).contents() == old(self).contents().push(instruction),
            final(self).predictor_view() == old(self).predictor_view(),
            final(self).head_spec() == old(self).head_spec(),
            ok ==> final(self).tail_spec() == advance_index(old(self).tail_spec() as int),
    {
        if self.size == self.capacity {
            return false;  // Buffer full
        }
        self.buffer.set(self.tail, Some(instruction));
        proof {
            lemma_advance_mask(self.tail);
        }
        self.tail = (self.tail + 1) & (self.capacity - 1);  // Wrap using bitwise AND
        self.size = self.size + 1;
        proof {
            let o = *old(self);
            assert forall|i: int| 0 <= i < self.size implies (#[trigger] self.slot(i)).is_some()
                by {
                if i < o.size {
                    assert((o.head + i) % 16 != (o.head + o.size as int) % 16);
                    assert(o.slot(i).is_some());
                }
            }
            assert(self.contents() =~= o.contents().push(instruction)) by {
                assert forall|i: int| 0 <= i < self.size implies self.contents()[i] == o.contents(
                ).push(instruction)[i] by {
                    if i < o.size {
                        assert((o.head + i) % 16 != (o.head + o.size as int) % 16);
                        assert(o.slot(i).is_some());
                    }
                }
            }
        }
        true
    }

    /// Remove and return the instruction at `head`, advancing it with
    /// wraparound; returns nothing (and mutates nothing) when the buffer is
    /// empty.
    pub fn pop(&mut self) -> (r: Option<Instruction>)
        requires
            old(self).wf(),
        ensures
            final(self).wf(),
            old(self).contents().len() == 0 ==> r.is_none() && *final(self) == *old(self),
            old(self).contents().len() > 0 ==> {
                &&& r == Some(old(self).contents()[0])
                &&& final(self).contents() == old(self).contents().drop_first()
                &&& final(self).head_spec() == advance_index(old(self).head_spec() as int)
            },
            final(self).predictor_view() == old(self).predictor_view(),
            final(self).tail_spec() == old(self).tail_spec(),
    {
        if self.size == 0 {
            return None;  // Buffer empty
        }
        let instruction = self.buffer[self.head];
        self.buffer.set(self.head, None);
        proof {
            lemma_advance_mask(self.head);
        }
        self.head = (self.head + 1) & (self.capacity - 1);  // Wrap using bitwise AND
        self.size = self.size - 1;
        proof {
            let o = *old(self);
            assert(o.slot(0).is_some());
            assert(instruction == o.slot(0));
            assert forall|i: int| 0 <= i < self.size implies (#[trigger] self.slot(i)).is_some()
                by {
                assert((o.head + (i + 1)) % 16 != o.head as int % 16);
                assert(o.slot(i + 1).is_some());
            }
            assert(self.contents() =~= o.contents().drop_first()) by {
                assert forall|i: int| 0 <= i < self.size implies self.contents()[i] == o.contents(
                ).drop_first()[i] by {
                    assert((o.head + (i + 1)) % 16 != o.head as int % 16);
                    assert(o.slot(i + 1).is_some());
                }
            }
        }
        instruction
    }

    /// Whether the buffer holds no instructions.
    pub fn is_empty(&self) -> (r: bool)
        ensures
            r == (self.contents().len() == 0),
    {
        self.size == 0
    }

    /// Whether the buffer is at capacity.
    pub fn is_full(&self) -> (r: bool)
        requires
            self.wf(),
        ensures
            r == (self.contents().len() == 16),
    {
        self.size == self.capacity
    }

    /// Reset the indices; the stale slot contents become unreachable and need
    /// not be erased.
    pub fn clear(&mut self)
        requires
            old(self).wf(),
        ensures
            final(self).wf(),
            final(self).contents() == Seq::<Instruction>::empty(),
            final(self).predictor_view() == old(self).predictor_view(),
            final(self).head_spec() == 0,
            final(self).tail_spec() == 0,
    {
        self.head = 0;
        self.tail = 0;
        self.size = 0;
        proof {
            assert(self.contents() =~= Seq::<Instruction>::empty());
        }
    }

    /// Speculatively fill the buffer starting from `current_pc`, following
    /// predicted branch outcomes, until the buffer is full, the pc leaves
    /// program bounds, or a hard cap of 32 iterations is hit. Mispredictions
    /// cost only wasted slots: the predictor itself is read, never written.
    pub fn prefetch(&mut self, program: &Program, current_pc: u32)
        requires
            old(self).wf(),
            program.wf(),
        ensures
            final(self).wf(),
            final(self).contents() == old(self).contents() + prefetch_walk(
                *program,
                old(self).predictor_view(),
                current_pc,
                32,
                (16 - old(self).contents().len()) as nat,
            ),
            final(self).predictor_view() == old(self).predictor_view(),
            final(self).head_spec() == old(self).head_spec(),
    {
        let ghost base = self.contents();
        let ghost pred0 = self.predictor_view();
        let ghost head0 = self.head_spec();
        let ghost room0: nat = (16 - self.contents().len()) as nat;

        if self.is_full() {
            proof {
                assert(base + prefetch_walk(*program, pred0, current_pc, 32, 0) =~= base);
            }
            return ;
        }
        let mut pc = current_pc;

        // Try to fill the buffer, but limit iterations to avoid infinite loops
        let mut iterations: usize = 0;
        while !self.is_full() && iterations < 32
            invariant_except_break
                self.wf(),
                program.wf(),
                self.predictor_view() == pred0,
                self.head_spec() == head0,
                iterations <= 32,
                base + prefetch_walk(*program, pred0, current_pc, 32, room0) == self.contents()
                    + prefetch_walk(
                    *program,
                    pred0,
                    pc,
                    (32 - iterations) as nat,
                    (16 - self.contents().len()) as nat,
                ),
            ensures
                self.wf(),
                self.predictor_view() == pred0,
                self.head_spec() == head0,
                self.contents() == base + prefetch_walk(*program, pred0, current_pc, 32, room0),
            decreases 32 - iterations,
        {
            let ghost pc_at = pc;
            let ghost contents_at = self.contents();
            let ghost fuel_at: nat = (32 - iterations) as nat;
            let ghost room_at: nat = (16 - contents_at.len()) as nat;
            iterations += 1;

            let diff = pc.wrapping_sub(program.pc_base);

            // Check if we're still within program bounds
            if diff >= (program.instructions.len() * 4) as u32 {
                proof {
                    if pc >= program.pc_base {
                        assert(!program.in_bounds(pc));
                    }
                    assert(prefetch_walk(*program, pred0, pc, fuel_at, room_at)
                        =~= Seq::<Instruction>::empty());
                    assert(self.contents() + prefetch_walk(*program, pred0, pc, fuel_at, room_at)
                        =~= self.contents());
                }
                break ;
            }
            proof {
                if pc < program.pc_base {
                    assert(diff >= 4 * program.instructions@.len());
                }
                assert(program.in_bounds(pc));
            }
            let index = (diff / 4) as usize;
            let instruction = program.instructions[index];
            let _pushed = self.push(instruction);

            // Handle branches using prediction
            if is_control_flow_instruction(instruction.opcode) {
                if matches!(instruction.opcode, Opcode::JAL | Opcode::JALR) {
                    // For unconditional jumps, always take the jump
                    pc = calculate_jump_target(instruction, pc);
                } else {
                    // For conditional branches, use the predictor
                    let taken = self.branch_predictor.predict(pc);
                    if taken {
                        pc = calculate_branch_target(instruction, pc);
                    } else {
                        pc = pc.wrapping_add(4);
                    }
                }
            } else {
                // Regular instruction, move to next
                pc = pc.wrapping_add(4);
            }
            proof {
                assert(program.instruction_at(pc_at) == instruction);
                assert(pc == next_pc_spec(pred0, instruction, pc_at));
                assert(prefetch_walk(*program, pred0, pc_at, fuel_at, room_at) =~= seq![instruction]
                    + prefetch_walk(
                    *program,
                    pred0,
                    pc,
                    (fuel_at - 1) as nat,
                    (room_at - 1) as nat,
                ));
                assert(self.contents() + prefetch_walk(
                    *program,
                    pred0,
                    pc,
                    (fuel_at - 1) as nat,
                    (room_at - 1) as nat,
                ) =~= contents_at + prefetch_walk(*program, pred0, pc_at, fuel_at, room_at));
            }
        }
    }

    /// Report a retired conditional branch's real outcome to the predictor,
    /// closing the speculation feedback loop.
    pub fn update_branch_predictor(&mut self, pc: u32, taken: bool)
        requires
            old(self).wf(),
        ensures
            final(self).wf(),
            final(self).predictor_view() == update_spec(old(self).predictor_view(), pc, taken),
            final(self).contents() == old(self).contents(),
            final(self).head_spec() == old(self).head_spec(),
            final(self).tail_spec() == old(self).tail_spec(),
    {
        self.branch_predictor.update(pc, taken);
        proof {
            assert forall|i: int| 0 <= i < self.size implies (#[trigger] self.slot(i)).is_some()
                by {
                assert(old(self).slot(i).is_some());
            }
            assert(self.contents() =~= old(self).contents());
        }
    }
}

/// One buffer operation, for stating laws over whole runs of calls.
pub enum BufferOp {
    /// A `push` of the given instruction.
    Push(Instruction),
    /// A `pop`.
    Pop,
}

/// Whether an operation succeeds on a buffer holding `s`: a push needs a free
/// slot, a pop needs an instruction.
pub open spec fn op_succeeds(s: Seq<Instruction>, op: BufferOp) -> bool {
    match op {
        BufferOp::Push(instruction) => s.len() < 16,
        BufferOp::Pop => s.len() > 0,
    }
}

/// The contents after one operation, exactly as the contracts of `push` and
/// `pop` describe them: a failing operation changes nothing.
pub open spec fn apply_op(s: Seq<Instruction>, op: BufferOp) -> Seq<Instruction> {
    match op {
        BufferOp::Push(instruction) => if s.len() < 16 {
            s.push(instruction)
        } else {
            s
        },
        BufferOp::Pop => if s.len() > 0 {
            s.drop_first()
        } else {
            s
        },
    }
}

/// The contents after a whole run of operations.
pub open spec fn apply_ops(s: Seq<Instruction>, ops: Seq<BufferOp>) -> Seq<Instruction>
    decreases ops.len(),
{
    if ops.len() == 0 {
        s
    } else {
        apply_ops(apply_op(s, ops[0]), ops.drop_first())
    }
}

/// How many pushes of the run succeed.
pub open spec fn successful_pushes(s: Seq<Instruction>, ops: Seq<BufferOp>) -> int
    decreases ops.len(),
{
    if ops.len() == 0 {
        0
    } else {
        (if op_succeeds(s, ops[0]) && (ops[0] matches BufferOp::Push(_)) {
            1int
        } else {
            0int
        }) + successful_pushes(apply_op(s, ops[0]), ops.drop_first())
    }
}

/// How many pops of the run succeed.
pub open spec fn successful_pops(s: Seq<Instruction>, ops: Seq<BufferOp>) -> int
    decreases ops.len(),
{
    if ops.len() == 0 {
        0
    } else {
        (if op_succeeds(s, ops[0]) && (ops[0] matches BufferOp::Pop) {
            1int
        } else {
            0int
        }) + successful_pops(apply_op(s, ops[0]), ops.drop_first())
    }
}

/// Circular-buffer correctness over any run of calls: applying any sequence
/// of pushes and pops — with the per-call semantics that the contracts of
/// `push` and `pop` ensure — the occupancy afterward equals the starting
/// occupancy plus the net count of successful pushes minus successful pops,
/// and never leaves `[0, 16]`; a failing push or pop leaves the contents
/// unchanged.
pub proof fn lemma_buffer_occupancy(s: Seq<Instruction>, ops: Seq<BufferOp>)
    requires
        s.len() <= 16,
    ensures
        apply_ops(s, ops).len() == s.len() + successful_pushes(s, ops) - successful_pops(s, ops),
        apply_ops(s, ops).len() <= 16,
    decreases ops.len(),
{
    if ops.len() > 0 {
        lemma_buffer_occupancy(apply_op(s, ops[0]), ops.drop_first());
    }
}

/// Wrapped advances are addition modulo the 16-slot capacity.
proof fn lemma_advance_index_n_linear(i: int, n: nat)
    requires
        0 <= i < 16,
    ensures
        advance_index_n(i, n) == (i + n) % 16,
    decreases n,
{
    if n > 0 {
        lemma_advance_index_n_linear(i, (n - 1) as nat);
    }
}

/// Wraparound: sixteen wrapped advances — one full trip around the 16-slot
/// buffer — return an index to where it began. So after exactly 16 pushes,
/// which advance `tail` once each, followed by 16 pops, which advance `head`
/// once each, both indices stand where they started, and an emptied buffer is
/// indistinguishable from a freshly constructed one.
pub proof fn lemma_index_wraparound(i: int)
    requires
        0 <= i < 16,
    ensures
        advance_index_n(i, 16) == i,
{
    lemma_advance_index_n_linear(i, 16);
}

/// FIFO ordering over the contents model that `push` and `pop` maintain:
/// `push` appends at the back and `pop` takes the front, so instructions
/// pushed into an empty buffer leave in exactly the order they entered.
pub proof fn lemma_fifo_order(a: Instruction, b: Instruction, c: Instruction)
    ensures
        ({
            let s = Seq::<Instruction>::empty().push(a).push(b).push(c);
            &&& s[0] == a
            &&& s.drop_first()[0] == b
            &&& s.drop_first().drop_first()[0] == c
            &&& s.drop_first().drop_first().drop_first().len() == 0
        }),
{
}

/// The speculative walk is bounded: it fetches at most `fuel` instructions
/// (the iteration safety cap) and at most `room` (the free slots), whatever
/// the program and prediction outcomes.
pub proof fn lemma_prefetch_walk_bounded(
    program: Program,
    predictor: Map<u32, u8>,
    pc: u32,
    fuel: nat,
    room: nat,
)
    ensures
        prefetch_walk(program, predictor, pc, fuel, room).len() <= fuel,
        prefetch_walk(program, predictor, pc, fuel, room).len() <= room,
    decreases fuel,
{
    if fuel == 0 || room == 0 {
    } else if !program.in_bounds(pc) {
    } else {
        let instruction = program.instruction_at(pc);
        lemma_prefetch_walk_bounded(
            program,
            predictor,
            next_pc_spec(predictor, instruction, pc),
            (fuel - 1) as nat,
            (room - 1) as nat,
        );
    }
}

/// Bounds respect: every instruction the speculative walk fetches lies at an
/// in-bounds address of the program; the walk never fabricates a fetch from
/// outside `[pc_base, pc_base + 4 * len)`.
pub proof fn lemma_prefetch_walk_in_bounds(
    program: Program,
    predictor: Map<u32, u8>,
    pc: u32,
    fuel: nat,
    room: nat,
)
    ensures
        forall|i: int|
            0 <= i < prefetch_walk(program, predictor, pc, fuel, room).len() ==> exists|a: u32|
                program.in_bounds(a) && #[trigger] prefetch_walk(program, predictor, pc, fuel, room)[i]
                    == program.instruction_at(a),
    decreases fuel,
{
    if fuel == 0 || room == 0 {
    } else if !program.in_bounds(pc) {
    } else {
        let instruction = program.instruction_at(pc);
        let next = next_pc_spec(predictor, instruction, pc);
        lemma_prefetch_walk_in_bounds(program, predictor, next, (fuel - 1) as nat, (room - 1) as nat);
        let w = prefetch_walk(program, predictor, pc, fuel, room);
        let rest = prefetch_walk(program, predictor, next, (fuel - 1) as nat, (room - 1) as nat);
        assert forall|i: int| 0 <= i < w.len() implies exists|a: u32|
            program.in_bounds(a) && #[trigger] w[i] == program.instruction_at(a) by {
            if i == 0 {
                assert(program.in_bounds(pc) && w[0] == program.instruction_at(pc));
            } else {
                assert(w[i] == rest[i - 1]);
            }
        }
    }
}

/// Stopping at the program's end: from the last instruction of the program,
/// when that instruction is straight-line, the walk fetches exactly that one
/// instruction and stops, the next pc being out of program bounds.
pub proof fn lemma_prefetch_walk_stops_at_end(
    program: Program,
    predictor: Map<u32, u8>,
    pc: u32,
    fuel: nat,
    room: nat,
)
    requires
        program.wf(),
        program.in_bounds(pc),
        program.index_of(pc) == program.instructions@.len() - 1,
        !is_control_flow(program.instruction_at(pc).opcode),
        fuel >= 1,
        room >= 1,
    ensures
        prefetch_walk(program, predictor, pc, fuel, room) == seq![program.instruction_at(pc)],
{
    let instruction = program.instruction_at(pc);
    let next = next_pc_spec(predictor, instruction, pc);
    assert(next == pc.wrapping_add(4));
    assert(4 * program.instructions@.len() <= 0xFFFF_FFFC);
    assert(pc >= program.pc_base + 4 * (program.instructions@.len() - 1)) by {
        assert((pc - program.pc_base) / 4 == program.instructions@.len() - 1);
    }
    assert(!program.in_bounds(next));
    assert(prefetch_walk(program, predictor, next, (fuel - 1) as nat, (room - 1) as nat)
        =~= Seq::<Instruction>::empty());
    assert(prefetch_walk(program, predictor, pc, fuel, room) =~= seq![instruction]);
}

} // verus!
