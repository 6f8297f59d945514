use vihaco::cpu::{CPUMessage, CPU};
use vihaco::frame::Frame;
use vihaco::instruction::{FloatOp, RuntimeInstruction as I, StepOutcome};
use vihaco::state::CpuError;
use vihaco::word::{encode_function_ref, encode_i32, encode_i64, Word};

fn no_floats(_op: FloatOp, _a: Word, _b: Word) -> Word {
    0
}

fn execute(cpu: &mut CPU, instruction: I) -> Result<StepOutcome, CpuError> {
    cpu.execute(&instruction, CPUMessage::Empty, &no_floats)
}

fn call(cpu: &mut CPU, instruction: I, arity: u32, target: u32, locals: u32) {
    cpu.execute(
        &instruction,
        CPUMessage::FunctionInfo {
            arity,
            start_address: target,
            local_count: locals,
        },
        &no_floats,
    )
    .unwrap();
}

#[test]
fn entry_and_nested_calls_preserve_arguments_locals_and_caller_operands() {
    let mut cpu = CPU::default();
    cpu.stack_push(10);
    cpu.stack_push(20);
    cpu.enter_function(2, 0, 4, Some(0)).unwrap();
    assert_eq!(cpu.stack(), &[10, 20, 0, 0]);
    assert_eq!(cpu.operand_count(), 0);
    assert_eq!(cpu.get_frame().unwrap().operands_index(), 4);

    cpu.stack_push(99_u64);
    execute(&mut cpu, I::LoadU64(0)).unwrap();
    execute(&mut cpu, I::LoadU64(1)).unwrap();
    cpu.set_current_pc(7);
    call(&mut cpu, I::Call(2, 50), 2, 50, 5);
    assert_eq!(cpu.stack(), &[10, 20, 0, 0, 99, 10, 20, 0, 0, 0]);
    let frame = cpu.get_frame().unwrap();
    assert_eq!((frame.base, frame.local_count, frame.operands_index()), (5, 5, 10));
    assert_eq!(cpu.operand_count(), 0);
    assert_eq!(cpu.take_pending_pc(), Some(50));

    execute(&mut cpu, I::LoadU64(0)).unwrap();
    execute(&mut cpu, I::LoadU64(1)).unwrap();
    execute(&mut cpu, I::AddU64).unwrap();
    execute(&mut cpu, I::StoreU64(4)).unwrap();
    cpu.stack_push(123_u64);
    execute(&mut cpu, I::LoadU64(4)).unwrap();
    assert_eq!(execute(&mut cpu, I::Return(1)).unwrap(), StepOutcome::Continue);
    assert_eq!(cpu.stack(), &[10, 20, 0, 0, 99, 30]);
    assert_eq!(cpu.take_pending_pc(), Some(8));
    assert_eq!(cpu.get_frame().unwrap().function, Some(0));

    assert_eq!(execute(&mut cpu, I::Return(2)).unwrap(), StepOutcome::Return);
    assert_eq!(cpu.return_values(), &[99, 30]);
    assert!(cpu.get_frame().is_err());
}

#[test]
fn indirect_call_gets_metadata_from_message_without_stack_metadata_words() {
    let mut cpu = CPU::default();
    cpu.enter_function(0, 0, 1, Some(0)).unwrap();
    cpu.stack_push(41);
    cpu.stack_push(encode_function_ref(3));
    call(&mut cpu, I::IndirectCall, 1, 42, 3);
    assert_eq!(cpu.stack(), &[0, 41, 0, 0]);
    let frame = cpu.get_frame().unwrap();
    assert_eq!(frame.function, Some(3));
    assert_eq!(frame.base, 1);
    assert_eq!(frame.local_count, 3);
    assert_eq!(cpu.take_pending_pc(), Some(42));
    assert_eq!(cpu.operand_count(), 0);
}

#[test]
fn reserved_locals_cannot_be_used_as_operands() {
    let mut cpu = CPU::default();
    cpu.stack_push(12_u64);
    cpu.enter_function(1, 0, 3, Some(0)).unwrap();
    let original_frame = *cpu.get_frame().unwrap();
    for instruction in [
        I::Dup,
        I::AddU64,
        I::ConditionalBranch(1, 2),
        I::HeapAlloc(1),
        I::Return(1),
        I::StoreU64(0),
    ] {
        assert!(execute(&mut cpu, instruction).is_err());
        assert_eq!(cpu.stack(), &[12, 0, 0]);
        assert_eq!(*cpu.get_frame().unwrap(), original_frame);
    }
    assert!(cpu.stack_pop().is_err());
    assert!(cpu.stack_top().is_err());
    assert!(cpu.op_call(1, 10, 1).is_err());
    assert_eq!(cpu.stack(), &[12, 0, 0]);
}

#[test]
fn load_store_cannot_address_operands_or_grow_locals() {
    let mut cpu = CPU::default();
    cpu.enter_function(0, 0, 2, Some(0)).unwrap();
    cpu.stack_push(99_u64);
    for index in [2, 10, u32::MAX] {
        assert!(execute(&mut cpu, I::LoadU64(index)).is_err());
        assert!(execute(&mut cpu, I::StoreU64(index)).is_err());
        assert!(cpu.set_local(index as usize, 0).is_err());
        assert_eq!(cpu.stack(), &[0, 0, 99]);
    }
    execute(&mut cpu, I::StoreU64(1)).unwrap();
    assert_eq!(cpu.stack(), &[0, 99]);
}

#[test]
fn subsequent_invocations_zero_reused_local_slots() {
    let mut cpu = CPU::default();
    cpu.enter_function(0, 0, 0, Some(0)).unwrap();
    for _ in 0..2 {
        cpu.stack_push(7_u64);
        call(&mut cpu, I::Call(1, 10), 1, 10, 3);
        assert_eq!(cpu.stack(), &[7, 0, 0]);
        cpu.stack_push(42_u64);
        execute(&mut cpu, I::StoreU64(2)).unwrap();
        execute(&mut cpu, I::Return(0)).unwrap();
        assert!(cpu.stack().is_empty());
    }
}

#[test]
fn call_requires_metadata_and_does_not_validate_encoded_arity_against_message() {
    let mut cpu = CPU::default();
    cpu.stack_push(42_u64);
    assert!(execute(&mut cpu, I::Call(1, 5)).is_err());
    assert!(execute(&mut cpu, I::IndirectCall).is_err());
    assert_eq!(cpu.stack(), &[42]);
    call(&mut cpu, I::Call(1, 5), 99, 100, 2);
    assert_eq!(cpu.stack(), &[42, 0]);
    assert_eq!(cpu.take_pending_pc(), Some(5));
}

#[test]
fn execute_const_pushes_value() {
    let mut cpu = CPU::default();
    let outcome = execute(&mut cpu, I::ConstI64(encode_i64(7))).unwrap();
    assert_eq!(outcome, StepOutcome::Continue);
    assert_eq!(cpu.stack(), &vec![encode_i64(7)]);
}

#[test]
fn execute_branch_sets_pending_pc() {
    let mut cpu = CPU::default();
    let outcome = execute(&mut cpu, I::Branch(9)).unwrap();
    assert_eq!(outcome, StepOutcome::Continue);
    assert_eq!(cpu.take_pending_pc(), Some(9));
}

#[test]
fn execute_return_stores_terminal_values() {
    let mut cpu = CPU::default();
    cpu.push_frame(Frame {
        base: 0,
        local_count: 0,
        span: (0, 0, 0),
        function: None,
        ret_pc: 0,
    });
    cpu.stack_push(encode_i64(7));

    let outcome = execute(&mut cpu, I::Return(1)).unwrap();
    assert_eq!(outcome, StepOutcome::Return);
    assert_eq!(cpu.return_values(), &[encode_i64(7)]);
}

#[test]
fn execute_indirect_call_consumes_function_info() {
    let mut cpu = CPU::default();
    cpu.set_current_pc(10);
    cpu.push_frame(Frame {
        base: 0,
        local_count: 0,
        span: (0, 0, 0),
        function: None,
        ret_pc: 0,
    });
    cpu.stack_push(encode_function_ref(7));

    let outcome = cpu
        .execute(
            &I::IndirectCall,
            CPUMessage::FunctionInfo {
                arity: 0,
                start_address: 100,
                local_count: 0,
            },
            &no_floats,
        )
        .unwrap();
    assert_eq!(outcome, StepOutcome::Continue);
    assert_eq!(cpu.take_pending_pc(), Some(100));
    assert_eq!(cpu.get_frame().unwrap().ret_pc, 11);
}

#[test]
fn execute_print_consumes_message_and_stack_value() {
    let mut cpu = CPU::default();
    cpu.stack_push(encode_i64(42));

    let outcome = cpu
        .execute(&I::Print, CPUMessage::Print("hello".into()), &no_floats)
        .unwrap();
    assert_eq!(outcome, StepOutcome::Continue);
    assert!(cpu.stack().is_empty());
}

#[test]
fn execute_arithmetic_updates_stack() {
    let mut cpu = CPU::default();
    cpu.stack_push(encode_i32(i32::MAX));
    cpu.stack_push(encode_i32(1));

    let outcome = execute(&mut cpu, I::AddI32).unwrap();
    assert_eq!(outcome, StepOutcome::Continue);
    assert_eq!(cpu.stack_pop().unwrap(), encode_i32(i32::MIN));
}

#[test]
fn store_then_load_reads_back_the_stored_word() {
    let mut cpu = CPU::default();
    cpu.enter_function(0, 0, 3, None).unwrap();
    cpu.stack_push(77);
    execute(&mut cpu, I::StoreU64(2)).unwrap();
    execute(&mut cpu, I::LoadU64(2)).unwrap();
    assert_eq!(cpu.stack_pop().unwrap(), 77);
    assert_eq!(cpu.stack(), &[0, 0, 77]);
}

#[test]
fn refused_steps_leave_the_state_unchanged() {
    let mut cpu = CPU::default();
    cpu.enter_function(0, 0, 1, None).unwrap();
    cpu.stack_push(5);
    let before = cpu.stack().clone();
    assert_eq!(execute(&mut cpu, I::AddU64), Err(CpuError::StackUnderflow));
    assert_eq!(cpu.stack(), &before);
    assert!(cpu
        .execute(&I::Halt, CPUMessage::Print("x".into()), &no_floats)
        .is_err());
    assert_eq!(cpu.stack(), &before);
}

#[test]
fn integer_operations_follow_their_types() {
    let mut cpu = CPU::default();
    cpu.stack_push(7);
    cpu.stack_push(0);
    assert!(execute(&mut cpu, I::DivU64).is_err());
    let mut cpu = CPU::default();
    cpu.stack_push(encode_i64(-7));
    cpu.stack_push(encode_i64(2));
    execute(&mut cpu, I::DivI64).unwrap();
    assert_eq!(cpu.stack_pop().unwrap(), encode_i64(-3));
    cpu.stack_push(1);
    cpu.stack_push(65);
    execute(&mut cpu, I::ShlU64).unwrap();
    assert_eq!(cpu.stack_pop().unwrap(), 2);
    cpu.stack_push(1);
    cpu.stack_push(1);
    execute(&mut cpu, I::RorU32).unwrap();
    assert_eq!(cpu.stack_pop().unwrap(), 0x8000_0000);
    cpu.stack_push(3);
    cpu.stack_push(5);
    execute(&mut cpu, I::LtU64).unwrap();
    assert_eq!(cpu.stack_pop().unwrap(), 1);
}

#[test]
fn float_operations_use_the_kernel() {
    let mut cpu = CPU::default();
    cpu.stack_push(2.0f64.to_bits());
    cpu.stack_push(0.5f64.to_bits());
    let kernel = |op: FloatOp, a: Word, b: Word| -> Word {
        assert_eq!(op, FloatOp::AddF64);
        (f64::from_bits(a) + f64::from_bits(b)).to_bits()
    };
    cpu.execute(&I::AddF64, CPUMessage::Empty, &kernel).unwrap();
    assert_eq!(f64::from_bits(cpu.stack_pop().unwrap()), 2.5);
}

#[test]
fn heap_objects_round_trip_through_the_cpu() {
    let mut cpu = CPU::default();
    let id = cpu.push_heap_object(vec![1, 2, 3]);
    assert_eq!(cpu.heap_object(id).unwrap(), &[1, 2, 3]);
    cpu.dealloc_heap_object(id).unwrap();
    assert!(cpu.heap_object(id).is_err());
    assert!(cpu.dealloc_heap_object(id).is_err());
    let again = cpu.push_heap_object(vec![9]);
    assert_eq!(again, id);
}

#[test]
fn pending_pc_and_return_values_are_plain_registers() {
    let mut cpu = CPU::default();
    assert_eq!(cpu.take_pending_pc(), None);
    cpu.set_pending_pc(4);
    assert_eq!(cpu.take_pending_pc(), Some(4));
    assert_eq!(cpu.take_pending_pc(), None);
    cpu.set_pending_pc(5);
    cpu.clear_pending_pc();
    assert_eq!(cpu.take_pending_pc(), None);
    cpu.set_return_values(vec![1, 2]);
    assert_eq!(cpu.return_values(), &[1, 2]);
    cpu.reset();
    assert!(cpu.return_values().is_empty());
    assert!(cpu.stack_is_empty());
}

#[test]
fn a_fresh_cpu_hands_out_heap_ids_in_order_and_keeps_its_stack() {
    let mut cpu = CPU::default();
    cpu.stack_push(5);
    assert_eq!(cpu.push_heap_object(vec![1]), 0);
    assert_eq!(cpu.push_heap_object(vec![]), 1);
    assert_eq!(cpu.push_heap_object(vec![2, 3]), 2);
    assert_eq!(cpu.heap_object(2).unwrap(), &[2, 3]);
    assert_eq!(cpu.stack().as_slice(), &[5]);
    assert_eq!(cpu.take_pending_pc(), None);
}
