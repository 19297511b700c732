use zkvm_core::{
    Capability, EdwardsAddAssignSyscall, ExecutionError, Syscall, SyscallContext, SyscallRegistry,
};

const ED_ADD_CODE: u32 = 0x01_01_01_6D;

fn registry_with_ed_add() -> SyscallRegistry {
    let mut registry = SyscallRegistry::new();
    registry.register(ED_ADD_CODE, Capability::EdwardsAdd(EdwardsAddAssignSyscall::new()));
    registry
}

fn context_with_points() -> SyscallContext {
    let mut ctx = SyscallContext::new(0x1000);
    for i in 0..16u32 {
        ctx.mw(0x100 + 4 * i, 0xA000 + i);
        ctx.mw(0x200 + 4 * i, 0xB000 + i);
    }
    ctx
}

#[test]
fn dispatch_charges_base_plus_declared_cycles() {
    let registry = registry_with_ed_add();
    let capability = EdwardsAddAssignSyscall::new();
    let k = capability.num_extra_cycles();
    assert_eq!(k, 1);
    let mut ctx = context_with_points();
    let before = ctx.cycles;
    let r = registry.dispatch(&mut ctx, ED_ADD_CODE, 0x100, 0x200);
    assert_eq!(r, Ok(None));
    assert_eq!(ctx.cycles, before + 1 + k as u64);
}

#[test]
fn execute_appends_one_event_with_operand_words() {
    let registry = registry_with_ed_add();
    let mut ctx = context_with_points();
    assert!(ctx.events.is_empty());
    let r = registry.dispatch(&mut ctx, ED_ADD_CODE, 0x100, 0x200);
    assert_eq!(r, Ok(None));
    assert_eq!(ctx.events.len(), 1);
    let event = &ctx.events[0];
    assert_eq!(event.code, ED_ADD_CODE);
    assert_eq!(event.arg1, 0x100);
    assert_eq!(event.arg2, 0x200);
    let expected1: Vec<u32> = (0..16u32).map(|i| 0xA000 + i).collect();
    let expected2: Vec<u32> = (0..16u32).map(|i| 0xB000 + i).collect();
    assert_eq!(event.input1, expected1);
    assert_eq!(event.input2, expected2);
}

#[test]
fn unread_memory_words_read_as_zero() {
    let registry = registry_with_ed_add();
    let mut ctx = SyscallContext::new(0);
    ctx.mw(0x300, 7);
    let r = registry.dispatch(&mut ctx, ED_ADD_CODE, 0x300, 0x400);
    assert_eq!(r, Ok(None));
    let event = &ctx.events[0];
    assert_eq!(event.input1[0], 7);
    assert!(event.input1[1..].iter().all(|w| *w == 0));
    assert!(event.input2.iter().all(|w| *w == 0));
}

#[test]
fn execute_is_deterministic() {
    let capability = EdwardsAddAssignSyscall::new();
    let mut ctx1 = context_with_points();
    let mut ctx2 = context_with_points();
    let r1 = capability.execute(&mut ctx1, ED_ADD_CODE, 0x100, 0x200);
    let r2 = capability.execute(&mut ctx2, ED_ADD_CODE, 0x100, 0x200);
    assert_eq!(r1, r2);
    assert_eq!(ctx1.events, ctx2.events);
    assert_eq!(ctx1.pc, ctx2.pc);
    assert_eq!(ctx1.registers, ctx2.registers);
    for i in 0..16u32 {
        assert_eq!(ctx1.mr(0x100 + 4 * i), ctx2.mr(0x100 + 4 * i));
        assert_eq!(ctx1.mr(0x200 + 4 * i), ctx2.mr(0x200 + 4 * i));
    }
    // Re-running against the already-mutated context appends an identical
    // second event.
    let r3 = capability.execute(&mut ctx1, ED_ADD_CODE, 0x100, 0x200);
    assert_eq!(r3, r1);
    assert_eq!(ctx1.events[0], ctx1.events[1]);
}

#[test]
fn unknown_syscall_code_is_a_fatal_diagnostic() {
    let registry = registry_with_ed_add();
    let mut ctx = context_with_points();
    let events_before = ctx.events.len();
    let cycles_before = ctx.cycles;
    let r = registry.dispatch(&mut ctx, 0xDEAD, 1, 2);
    assert_eq!(r, Err(ExecutionError::UnsupportedSyscall(0xDEAD)));
    // Nothing was mutated before the fault surfaced.
    assert_eq!(ctx.events.len(), events_before);
    assert_eq!(ctx.cycles, cycles_before);
    assert_eq!(ctx.pc, 0x1000);
    for i in 0..16u32 {
        assert_eq!(ctx.mr(0x100 + 4 * i), 0xA000 + i);
    }
}

#[test]
fn dispatch_on_empty_registry_fails() {
    let registry = SyscallRegistry::new();
    let mut ctx = SyscallContext::new(0);
    let r = registry.dispatch(&mut ctx, 5, 0, 0);
    assert_eq!(r, Err(ExecutionError::UnsupportedSyscall(5)));
}

#[test]
fn registering_the_same_code_twice_replaces_the_entry() {
    let mut registry = SyscallRegistry::new();
    registry.register(9, Capability::EdwardsAdd(EdwardsAddAssignSyscall::new()));
    registry.register(9, Capability::EdwardsAdd(EdwardsAddAssignSyscall::new()));
    let mut ctx = SyscallContext::new(0);
    let r = registry.dispatch(&mut ctx, 9, 0, 0);
    assert_eq!(r, Ok(None));
    assert_eq!(ctx.events.len(), 1);
}

#[test]
fn context_registers_and_memory() {
    let mut ctx = SyscallContext::new(0x42);
    assert_eq!(ctx.pc, 0x42);
    assert_eq!(ctx.registers.len(), 32);
    assert_eq!(ctx.rr(5), 0);
    ctx.rw(5, 77);
    assert_eq!(ctx.rr(5), 77);
    assert_eq!(ctx.mr(0x9999), 0);
    ctx.mw(0x9999, 123);
    assert_eq!(ctx.mr(0x9999), 123);
    assert_eq!(ctx.cycles, 0);
}
