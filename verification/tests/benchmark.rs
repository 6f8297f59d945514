use vihaco::benchmark::{ConstantBenchmark, Machine, COMPOSITE, CPU_ENUM, CPU_OPERATION};
use vihaco::cpu::CPUMessage;
use vihaco::fixture::{Fixture, FixtureInstruction};
use vihaco::instruction::{FloatOp, RuntimeInstruction, StepOutcome};

fn no_float(_op: FloatOp, lhs: u64, _rhs: u64) -> u64 {
    lhs
}

#[test]
fn isolated_const_routes_agree() {
    for value in [0_u64, 42, 65535] {
        for route in 0..3 {
            let mut machine = Fixture::prepared(0, 0);
            let outcome = match route {
                0 => machine.cpu.op_const(value).unwrap(),
                1 => machine
                    .cpu
                    .execute(&RuntimeInstruction::ConstU64(value), CPUMessage::Empty, &no_float)
                    .unwrap(),
                _ => machine
                    .dispatch(&FixtureInstruction::Cpu(RuntimeInstruction::ConstU64(value)), &no_float)
                    .unwrap(),
            };
            assert_eq!(outcome, StepOutcome::Continue);
            assert_eq!(*machine.cpu.stack_top().unwrap(), value);
            assert_eq!(machine.cpu.stack_len(), 5);
        }
    }
}

#[test]
fn constant_benchmark_routes_read_back_the_pushed_word() {
    let mut state = <Machine as ConstantBenchmark<CPU_OPERATION>>::prepare().unwrap();
    let instruction = <Machine as ConstantBenchmark<CPU_OPERATION>>::instruction(42);
    assert_eq!(<Machine as ConstantBenchmark<CPU_OPERATION>>::execute(&mut state, &instruction), Ok(42));
    assert_eq!(state.cpu.stack_len(), 5);
    assert_eq!(state.pc, 0);

    let mut state = <Machine as ConstantBenchmark<CPU_ENUM>>::prepare().unwrap();
    let instruction = <Machine as ConstantBenchmark<CPU_ENUM>>::instruction(u64::MAX);
    assert_eq!(instruction, RuntimeInstruction::ConstU64(u64::MAX));
    assert_eq!(<Machine as ConstantBenchmark<CPU_ENUM>>::execute(&mut state, &instruction), Ok(u64::MAX));
    assert_eq!(<Machine as ConstantBenchmark<CPU_ENUM>>::execute(&mut state, &instruction), Ok(u64::MAX));
    assert_eq!(state.cpu.stack_len(), 6);

    let mut state = <Machine as ConstantBenchmark<COMPOSITE>>::prepare().unwrap();
    let instruction = <Machine as ConstantBenchmark<COMPOSITE>>::instruction(7);
    assert_eq!(instruction, FixtureInstruction::Cpu(RuntimeInstruction::ConstU64(7)));
    assert_eq!(<Machine as ConstantBenchmark<COMPOSITE>>::execute(&mut state, &instruction), Ok(7));
    assert_eq!(state.cpu.stack_len(), 5);
}

#[test]
fn dispatch_refuses_what_the_cpu_cannot_take() {
    let mut machine = Fixture::prepared(0, 0);
    let call = FixtureInstruction::Cpu(RuntimeInstruction::Call(0, 3));
    assert!(machine.dispatch(&call, &no_float).is_err());
    assert_eq!(machine.cpu.stack_len(), 4);
}
