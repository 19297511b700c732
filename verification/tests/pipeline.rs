use zkvm_core::{
    calculate_branch_target, calculate_jump_target, is_control_flow_instruction, Instruction,
    InstructionPipeline, Opcode, Program,
};

fn straight(op_a: u32) -> Instruction {
    Instruction::new(Opcode::ADD, op_a, 0, 0)
}

#[test]
fn classification_of_opcodes() {
    assert!(is_control_flow_instruction(Opcode::BEQ));
    assert!(is_control_flow_instruction(Opcode::BNE));
    assert!(is_control_flow_instruction(Opcode::BLT));
    assert!(is_control_flow_instruction(Opcode::BGE));
    assert!(is_control_flow_instruction(Opcode::BLTU));
    assert!(is_control_flow_instruction(Opcode::BGEU));
    assert!(is_control_flow_instruction(Opcode::JAL));
    assert!(is_control_flow_instruction(Opcode::JALR));
    assert!(!is_control_flow_instruction(Opcode::ADD));
    assert!(!is_control_flow_instruction(Opcode::SUB));
    assert!(!is_control_flow_instruction(Opcode::LW));
    assert!(!is_control_flow_instruction(Opcode::SW));
    assert!(!is_control_flow_instruction(Opcode::ECALL));
}

#[test]
fn target_computation_uses_decoded_offsets() {
    let jump = Instruction::new(Opcode::JAL, 1, 0x100, 0);
    assert_eq!(calculate_jump_target(jump, 0x1000), 0x1100);
    let branch = Instruction::new(Opcode::BEQ, 0, 0, 0xFFFF_FFF8);
    // A negative (two's-complement) offset walks backward.
    assert_eq!(calculate_branch_target(branch, 0x1000), 0x0FF8);
    // Address arithmetic wraps around the 32-bit space.
    assert_eq!(calculate_jump_target(jump, 0xFFFF_FF10), 0x10);
}

#[test]
fn size_tracks_successful_pushes_and_pops() {
    let mut p = InstructionPipeline::new();
    assert!(p.is_empty());
    assert_eq!(p.len(), 0);
    assert!(p.pop().is_none());
    assert_eq!(p.len(), 0);
    for i in 0..16 {
        assert!(p.push(straight(i)));
        assert_eq!(p.len(), (i + 1) as usize);
    }
    assert!(p.is_full());
    // A push on a full buffer fails and changes nothing.
    assert!(!p.push(straight(99)));
    assert_eq!(p.len(), 16);
    assert_eq!(p.pop(), Some(straight(0)));
    assert_eq!(p.len(), 15);
    // A pop after draining fails and changes nothing.
    for i in 1..16 {
        assert_eq!(p.pop(), Some(straight(i)));
    }
    assert!(p.pop().is_none());
    assert_eq!(p.len(), 0);
}

#[test]
fn fifo_order() {
    let mut p = InstructionPipeline::new();
    let i1 = straight(1);
    let i2 = straight(2);
    let i3 = straight(3);
    assert!(p.push(i1));
    assert!(p.push(i2));
    assert!(p.push(i3));
    assert_eq!(p.pop(), Some(i1));
    assert_eq!(p.pop(), Some(i2));
    assert_eq!(p.pop(), Some(i3));
    assert!(p.pop().is_none());
}

#[test]
fn wraparound_cycle() {
    let mut p = InstructionPipeline::new();
    for i in 0..16 {
        assert!(p.push(straight(i)));
    }
    for i in 0..16 {
        assert_eq!(p.pop(), Some(straight(i)));
    }
    // After exactly 16 pushes and 16 pops the indices are back at zero and
    // the buffer behaves like a fresh one.
    assert_eq!(p.head_index(), 0);
    assert_eq!(p.tail_index(), 0);
    assert!(p.is_empty());
    assert!(p.push(straight(40)));
    assert_eq!(p.head_index(), 0);
    assert_eq!(p.tail_index(), 1);
    assert_eq!(p.pop(), Some(straight(40)));
    assert!(p.is_empty());
}

#[test]
fn clear_resets_indices() {
    let mut p = InstructionPipeline::new();
    for i in 0..5 {
        assert!(p.push(straight(i)));
    }
    assert_eq!(p.pop(), Some(straight(0)));
    p.clear();
    assert!(p.is_empty());
    assert_eq!(p.head_index(), 0);
    assert_eq!(p.tail_index(), 0);
    assert!(p.pop().is_none());
}

#[test]
fn prefetch_straight_line_fills_buffer() {
    let instructions: Vec<Instruction> = (0..32).map(straight).collect();
    let program = Program::new(instructions, 0x1000, 0x1000);
    let mut p = InstructionPipeline::new();
    p.prefetch(&program, 0x1000);
    assert!(p.is_full());
    for i in 0..16 {
        assert_eq!(p.pop(), Some(straight(i)));
    }
}

#[test]
fn prefetch_respects_program_end() {
    let instructions: Vec<Instruction> = (0..8).map(straight).collect();
    let program = Program::new(instructions, 0x2000, 0x2000);
    // One instruction before the end: only that instruction can be fetched.
    let last_pc = 0x2000 + 4 * 7;
    let mut p = InstructionPipeline::new();
    p.prefetch(&program, last_pc);
    assert_eq!(p.len(), 1);
    assert_eq!(p.pop(), Some(straight(7)));
    // From past the end nothing is fetched at all.
    let mut q = InstructionPipeline::new();
    q.prefetch(&program, 0x2000 + 4 * 8);
    assert!(q.is_empty());
    // From below the base nothing is fetched either.
    let mut r = InstructionPipeline::new();
    r.prefetch(&program, 0x1FFC);
    assert!(r.is_empty());
}

#[test]
fn prefetch_terminates_on_tight_backward_branch() {
    // A branch whose taken target is itself, predicted taken after training:
    // the walk revisits one address forever, and only the buffer capacity
    // and the iteration cap bound the work.
    let loop_branch = Instruction::new(Opcode::BEQ, 0, 0, 0);
    let program = Program::new(vec![loop_branch], 0x3000, 0x3000);
    let mut p = InstructionPipeline::new();
    // Train the predictor to predict taken at the loop head.
    p.update_branch_predictor(0x3000, true);
    p.update_branch_predictor(0x3000, true);
    p.prefetch(&program, 0x3000);
    assert!(p.is_full());
    for _ in 0..16 {
        assert_eq!(p.pop(), Some(loop_branch));
    }
}

#[test]
fn prefetch_follows_predicted_control_flow() {
    // 0x4000: JAL with offset 8 jumps over the next instruction.
    let jump = Instruction::new(Opcode::JAL, 1, 8, 0);
    let skipped = straight(111);
    let landed = straight(222);
    let after = straight(333);
    let program = Program::new(vec![jump, skipped, landed, after], 0x4000, 0x4000);
    let mut p = InstructionPipeline::new();
    p.prefetch(&program, 0x4000);
    assert_eq!(p.pop(), Some(jump));
    assert_eq!(p.pop(), Some(landed));
    assert_eq!(p.pop(), Some(after));
    assert!(p.pop().is_none());
}

#[test]
fn prefetch_not_taken_branch_falls_through() {
    // A cold predictor predicts not-taken, so the branch falls through.
    let branch = Instruction::new(Opcode::BNE, 0, 0, 8);
    let next = straight(5);
    let program = Program::new(vec![branch, next], 0x5000, 0x5000);
    let mut p = InstructionPipeline::new();
    p.prefetch(&program, 0x5000);
    assert_eq!(p.len(), 2);
    assert_eq!(p.pop(), Some(branch));
    assert_eq!(p.pop(), Some(next));
}

#[test]
fn prefetch_on_full_buffer_is_a_no_op() {
    let program = Program::new(vec![straight(1)], 0x6000, 0x6000);
    let mut p = InstructionPipeline::new();
    for i in 0..16 {
        assert!(p.push(straight(i)));
    }
    p.prefetch(&program, 0x6000);
    assert!(p.is_full());
    assert_eq!(p.pop(), Some(straight(0)));
}
