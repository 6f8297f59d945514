//! The constant-instruction benchmark: one constant instruction executed on
//! a prepared CPU, with the pushed word read back, by each dispatch route.
use vstd::prelude::*;
use crate::cpu::CPUMessage;
use crate::fixture::{Fixture, FixtureInstruction, RunError, invocation};
use crate::instruction::{FloatOp, Op, RuntimeInstruction};
use crate::state::{CpuError, CpuState, MessageKind};
use crate::word::Word;

verus! {

/// Route: call the CPU operation directly, without enum dispatch.
pub const CPU_OPERATION: u8 = 0;

/// Route: dispatch through the CPU instruction enum.
pub const CPU_ENUM: u8 = 1;

/// Route: dispatch through the composite machine and then the CPU.
pub const COMPOSITE: u8 = 2;

/// One constant instruction, without a program fetch/PC loop, by route
/// `ROUTE`.
pub trait ConstantBenchmark<const ROUTE: u8> {
    type State;
    type Instruction;

    /// Whether `prepare` succeeds.
    spec fn prepare_succeeds() -> bool;

    /// Whether `state` is one that `prepare` gives.
    spec fn fresh(state: &Self::State) -> bool;

    /// Whether `state` can execute an instruction.
    spec fn ready(state: &Self::State) -> bool;

    /// Whether the route executes `instruction`.
    spec fn accepts(instruction: &Self::Instruction) -> bool;

    /// The word that `instruction` pushes.
    spec fn pushes(instruction: &Self::Instruction) -> u64;

    /// Whether executing `instruction` on `before` succeeds.
    spec fn succeeds(before: &Self::State, instruction: &Self::Instruction) -> bool;

    /// Whether `after` is what executing `instruction` on `before` leaves.
    spec fn executed(before: &Self::State, instruction: &Self::Instruction, after: &Self::State) -> bool;

    /// A fresh state for the benchmark.
    fn prepare() -> (r: Result<Self::State, RunError>)
        ensures
            Self::prepare_succeeds() ==> r is Ok,
            r matches Ok(s) ==> Self::fresh(&s) && Self::ready(&s),
    ;

    /// The route's instruction that pushes `value`.
    fn instruction(value: u64) -> (i: Self::Instruction)
        ensures
            Self::pushes(&i) == value,
            Self::accepts(&i),
    ;

    /// Executes the instruction once, checks that execution continues, and
    /// reads the pushed value.
    fn execute(state: &mut Self::State, instruction: &Self::Instruction) -> (r: Result<u64, RunError>)
        requires
            Self::ready(old(state)),
            Self::accepts(instruction),
        ensures
            Self::succeeds(old(state), instruction) ==> r == Ok::<u64, RunError>(Self::pushes(instruction)),
            !Self::succeeds(old(state), instruction) ==> r is Err,
            Self::executed(old(state), instruction, final(state)),
            Self::ready(final(state)),
    ;
}

/// The benchmarked machine.
pub struct Machine;

/// The CPU state after `s` executed a constant instruction pushing `w`.
pub open spec fn after_constant(s: CpuState, w: Word) -> CpuState {
    s.step(Op::Const(w), MessageKind::Empty, 0).0
}

/// A fixture as the constant benchmark prepares it: one frame of four
/// zeroed locals at program counter 0.
pub open spec fn fresh_fixture(f: Fixture) -> bool {
    invocation(0, 0, 4, None) == Ok::<CpuState, CpuError>(f.cpu@) && f.pc == 0
}

/// The fixture after `before` executed a constant instruction pushing `w`:
/// the word is pushed and the program counter is unchanged.
pub open spec fn fixture_after(before: Fixture, w: Word, after: Fixture) -> bool {
    after.cpu@ == after_constant(before.cpu@, w) && after.pc == before.pc && after.cpu@.wf()
}

impl ConstantBenchmark<CPU_OPERATION> for Machine {
    type State = Fixture;
    type Instruction = u64;

    open spec fn prepare_succeeds() -> bool {
        true
    }

    open spec fn fresh(state: &Fixture) -> bool {
        fresh_fixture(*state)
    }

    open spec fn ready(state: &Fixture) -> bool {
        state.cpu@.wf()
    }

    open spec fn accepts(instruction: &u64) -> bool {
        true
    }

    open spec fn pushes(instruction: &u64) -> u64 {
        *instruction
    }

    open spec fn succeeds(before: &Fixture, instruction: &u64) -> bool {
        true
    }

    open spec fn executed(before: &Fixture, instruction: &u64, after: &Fixture) -> bool {
        fixture_after(*before, *instruction, *after)
    }

    fn prepare() -> (r: Result<Fixture, RunError>) {
        Ok(Fixture::prepared(0, 0))
    }

    fn instruction(value: u64) -> (i: u64) {
        value
    }

    fn execute(state: &mut Fixture, instruction: &u64) -> (r: Result<u64, RunError>) {
        let outcome = state.cpu.op_const(*instruction);
        match outcome {
            Ok(o) => state.constant_result(o),
            Err(e) => Err(RunError::Cpu(e)),
        }
    }
}

impl ConstantBenchmark<CPU_ENUM> for Machine {
    type State = Fixture;
    type Instruction = RuntimeInstruction;

    open spec fn prepare_succeeds() -> bool {
        true
    }

    open spec fn fresh(state: &Fixture) -> bool {
        fresh_fixture(*state)
    }

    open spec fn ready(state: &Fixture) -> bool {
        state.cpu@.wf()
    }

    open spec fn accepts(instruction: &RuntimeInstruction) -> bool {
        instruction.kind() is Const
    }

    open spec fn pushes(instruction: &RuntimeInstruction) -> u64 {
        instruction.kind()->Const_0
    }

    open spec fn succeeds(before: &Fixture, instruction: &RuntimeInstruction) -> bool {
        true
    }

    open spec fn executed(before: &Fixture, instruction: &RuntimeInstruction, after: &Fixture) -> bool {
        fixture_after(*before, instruction.kind()->Const_0, *after)
    }

    fn prepare() -> (r: Result<Fixture, RunError>) {
        Ok(Fixture::prepared(0, 0))
    }

    fn instruction(value: u64) -> (i: RuntimeInstruction) {
        RuntimeInstruction::ConstU64(value)
    }

    fn execute(state: &mut Fixture, instruction: &RuntimeInstruction) -> (r: Result<u64, RunError>) {
        // A constant instruction computes no floating-point value, so the
        // kernel is never called.
        let kernel = |_op: FloatOp, lhs: Word, _rhs: Word| -> (w: Word) { lhs };
        let outcome = state.cpu.execute(instruction, CPUMessage::Empty, &kernel);
        match outcome {
            Ok(o) => state.constant_result(o),
            Err(e) => Err(RunError::Cpu(e)),
        }
    }
}

impl ConstantBenchmark<COMPOSITE> for Machine {
    type State = Fixture;
    type Instruction = FixtureInstruction;

    open spec fn prepare_succeeds() -> bool {
        true
    }

    open spec fn fresh(state: &Fixture) -> bool {
        fresh_fixture(*state)
    }

    open spec fn ready(state: &Fixture) -> bool {
        state.cpu@.wf()
    }

    open spec fn accepts(instruction: &FixtureInstruction) -> bool {
        instruction->Cpu_0.kind() is Const
    }

    open spec fn pushes(instruction: &FixtureInstruction) -> u64 {
        instruction->Cpu_0.kind()->Const_0
    }

    open spec fn succeeds(before: &Fixture, instruction: &FixtureInstruction) -> bool {
        true
    }

    open spec fn executed(before: &Fixture, instruction: &FixtureInstruction, after: &Fixture) -> bool {
        fixture_after(*before, instruction->Cpu_0.kind()->Const_0, *after)
    }

    fn prepare() -> (r: Result<Fixture, RunError>) {
        Ok(Fixture::prepared(0, 0))
    }

    fn instruction(value: u64) -> (i: FixtureInstruction) {
        FixtureInstruction::Cpu(RuntimeInstruction::ConstU64(value))
    }

    fn execute(state: &mut Fixture, instruction: &FixtureInstruction) -> (r: Result<u64, RunError>) {
        // A constant instruction computes no floating-point value, so the
        // kernel is never called.
        let kernel = |_op: FloatOp, lhs: Word, _rhs: Word| -> (w: Word) { lhs };
        match state.dispatch(instruction, &kernel) {
            Ok(o) => state.constant_result(o),
            Err(e) => Err(e),
        }
    }
}

} // verus!
