use vihaco::cpu::{CPUMessage, CPU};
use vihaco::instruction::{FloatOp, RuntimeInstruction};
use vihaco::surface::{required_local_count, DeviceInstruction, SurfaceInstruction as I};

fn no_float(_op: FloatOp, lhs: u64, _rhs: u64) -> u64 {
    lhs
}

#[test]
fn composite_routes_resolved_counts_to_only_the_executing_cpu() {
    // `fn @f(x: u64) { first::cpu.load_u64 3 second::cpu.store_u64 7 }`,
    // routed to the devices with codes 1 and 2.
    let load = I::LoadU64(3);
    let store = I::StoreU64(7);
    let first: [Option<DeviceInstruction<'_, I, 1>>; 2] = [Some(DeviceInstruction { instruction: &load }), None];
    let second: [Option<DeviceInstruction<'_, I, 2>>; 2] = [None, Some(DeviceInstruction { instruction: &store })];
    let arity = 1_u32;
    let first_count = required_local_count::<1>(arity, &first).unwrap();
    let second_count = required_local_count::<2>(arity, &second).unwrap();
    let start_address = 10;

    let mut first_cpu = CPU::default();
    let mut second_cpu = CPU::default();
    first_cpu.stack_push(42_u64);
    first_cpu
        .execute(
            &RuntimeInstruction::Call(arity, start_address),
            CPUMessage::FunctionInfo { arity, start_address, local_count: first_count },
            &no_float,
        )
        .unwrap();
    assert_eq!(first_cpu.stack().as_slice(), &[42, 0, 0, 0]);
    assert!(second_cpu.get_frame().is_err());
    assert!(second_cpu.stack().is_empty());

    second_cpu.stack_push(17_u64);
    second_cpu
        .execute(
            &RuntimeInstruction::Call(arity, start_address),
            CPUMessage::FunctionInfo { arity, start_address, local_count: second_count },
            &no_float,
        )
        .unwrap();
    assert_eq!(second_cpu.stack().as_slice(), &[17, 0, 0, 0, 0, 0, 0, 0]);
    assert_eq!(first_cpu.stack().as_slice(), &[42, 0, 0, 0]);
}

#[test]
fn composite_analysis_preserves_device_identity_and_ignores_other_instruction_sets() {
    let load = I::LoadU64(0);
    let store = I::StoreU64(7);
    let halt = I::Halt;
    let unreachable = I::LoadU64(4);
    let first: [Option<DeviceInstruction<'_, I, 1>>; 5] = [
        Some(DeviceInstruction { instruction: &load }),
        None,
        None,
        Some(DeviceInstruction { instruction: &halt }),
        Some(DeviceInstruction { instruction: &unreachable }),
    ];
    let second: [Option<DeviceInstruction<'_, I, 2>>; 5] =
        [None, Some(DeviceInstruction { instruction: &store }), None, None, None];
    let first = required_local_count::<1>(2, &first).unwrap();
    let second = required_local_count::<2>(2, &second).unwrap();
    assert_eq!((first, second), (5, 8));
    assert!(matches!(load, I::LoadU64(0)));
}

#[test]
fn all_typed_loads_and_stores_contribute_and_counts_include_parameters() {
    let instructions = [
        I::LoadI32(6),
        I::LoadI64(6),
        I::LoadU32(6),
        I::LoadU64(6),
        I::LoadF32(6),
        I::LoadF64(6),
        I::LoadBool(6),
        I::StoreI32(6),
        I::StoreI64(6),
        I::StoreU32(6),
        I::StoreU64(6),
        I::StoreF32(6),
        I::StoreF64(6),
        I::StoreBool(6),
    ];
    for instruction in &instructions {
        let count = required_local_count::<1>(2, &[Some(DeviceInstruction { instruction })]).unwrap();
        assert_eq!(count, 7);
        let count = required_local_count::<1>(10, &[Some(DeviceInstruction { instruction })]).unwrap();
        assert_eq!(count, 10);
    }
    let count = required_local_count::<1>(0, &[Some(DeviceInstruction { instruction: &I::LoadU64(0) })]).unwrap();
    assert_eq!(count, 1);
}

#[test]
fn absent_references_require_exactly_arity_and_overflow_is_an_error() {
    let halt = I::Halt;
    let count = required_local_count::<1>(2, &[Some(DeviceInstruction { instruction: &halt })]).unwrap();
    assert_eq!(count, 2);
    let empty = required_local_count::<1>(2, &[]).unwrap();
    assert_eq!(empty, 2);
    let huge = I::StoreU64(u32::MAX);
    assert!(required_local_count::<1>(0, &[Some(DeviceInstruction { instruction: &huge })]).is_err());
}
