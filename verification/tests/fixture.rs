use vihaco::fixture::{Fixture, RunError};
use vihaco::instruction::{FloatOp, StepOutcome};
use vihaco::resolve::{resolve_module, Module, ParsedFunction, ParsedModule, ParsedParameter};
use vihaco::state::CpuError;
use vihaco::surface::SurfaceType;
use vihaco::surface_syntax::parse_surface_instruction;
use vihaco::syntax::Ident;
use vihaco::word::Word;

fn no_floats(_op: FloatOp, _a: Word, _b: Word) -> Word {
    0
}

fn function(name: &str, params: &[&str], body: &[&str]) -> ParsedFunction {
    ParsedFunction {
        name: Ident(name.to_string()),
        params: params
            .iter()
            .map(|n| ParsedParameter { name: Ident(n.to_string()), ty: SurfaceType::U64 })
            .collect(),
        return_ty: Some(SurfaceType::U64),
        body: body.iter().map(|t| parse_surface_instruction(t).unwrap()).collect(),
    }
}

fn main_fn(body: &[&str]) -> ParsedFunction {
    function("main", &["iterations", "seed"], body)
}

fn module(functions: Vec<ParsedFunction>) -> Module {
    resolve_module(&ParsedModule { functions }, &[]).unwrap()
}

fn run(m: &Module, iterations: u64, seed: u64) -> Result<u64, RunError> {
    let mut fixture = Fixture::for_program(m, iterations, seed)?;
    for _ in 0..10_000 {
        if let Some(result) = fixture.step(m, &no_floats)? {
            return Ok(result);
        }
    }
    panic!("program did not finish");
}

fn double() -> ParsedFunction {
    function("double", &["value"], &["cpu.load_u64 0", "cpu.const_u64 2", "cpu.mul_u64", "cpu.ret 1"])
}

#[test]
fn returning_from_main_gives_the_result() {
    let m = module(vec![main_fn(&["cpu.load_u64 1", "cpu.const_u64 2", "cpu.mul_u64", "cpu.ret 1"])]);
    assert_eq!(run(&m, 3, 21), Ok(42));
}

#[test]
fn halting_leaves_the_result_above_the_locals() {
    let m = module(vec![main_fn(&["cpu.load_u64 0", "cpu.halt"])]);
    assert_eq!(run(&m, 3, 21), Ok(3));
    let m = module(vec![main_fn(&["cpu.halt"])]);
    assert_eq!(run(&m, 0, 0), Err(RunError::BadHalt));
}

#[test]
fn direct_calls_enter_the_callee_and_return() {
    let main = main_fn(&["cpu.br @entry", "cpu.const_u64 99", "cpu.label @entry", "cpu.load_u64 1", "cpu.call 1, double", "cpu.ret 1"]);
    let m = module(vec![double(), main]);
    assert_eq!(run(&m, 3, 21), Ok(42));
}

#[test]
fn indirect_calls_use_the_referenced_function() {
    let main = main_fn(&["cpu.load_u64 1", "cpu.const_fn_ref @double", "cpu.call_indirect", "cpu.ret 1"]);
    let m = module(vec![main, double()]);
    assert_eq!(run(&m, 3, 21), Ok(42));
}

#[test]
fn loops_branch_on_conditions() {
    // Sums 1..=iterations into local 2.
    let main = main_fn(&[
        "cpu.label @loop",
        "cpu.load_u64 0",
        "cpu.const_u64 0",
        "cpu.eq_u64",
        "cpu.cond_br @done, @body",
        "cpu.label @body",
        "cpu.load_u64 2",
        "cpu.load_u64 0",
        "cpu.add_u64",
        "cpu.store_u64 2",
        "cpu.load_u64 0",
        "cpu.const_u64 1",
        "cpu.sub_u64",
        "cpu.store_u64 0",
        "cpu.br @loop",
        "cpu.label @done",
        "cpu.load_u64 2",
        "cpu.ret 1",
    ]);
    let m = module(vec![main]);
    assert_eq!(run(&m, 10, 0), Ok(55));
}

#[test]
fn prepared_fixtures_push_constants_above_four_locals() {
    for value in [0_u64, 42, 65535] {
        let mut machine = Fixture::prepared(0, 0);
        let outcome = machine.cpu.op_const(value).unwrap();
        assert_eq!(outcome, StepOutcome::Continue);
        assert_eq!(*machine.cpu.stack_top().unwrap(), value);
        assert_eq!(machine.cpu.stack_len(), 5);
        assert_eq!(machine.constant_result(outcome), Ok(value));
    }
    let machine = Fixture::prepared(0, 0);
    assert_eq!(machine.constant_result(StepOutcome::Halt), Err(RunError::UnexpectedOutcome(StepOutcome::Halt)));
    assert_eq!(machine.constant_result(StepOutcome::Continue), Err(RunError::Cpu(CpuError::StackUnderflow)));
}

#[test]
fn runs_stop_on_errors() {
    let m = module(vec![main_fn(&["cpu.add_u64", "cpu.ret 1"])]);
    assert_eq!(run(&m, 1, 2), Err(RunError::Cpu(CpuError::StackUnderflow)));
    let m = module(vec![main_fn(&["cpu.const_fn_ref 0", "cpu.const_u64 7", "cpu.call_indirect"])]);
    assert_eq!(run(&m, 1, 2), Err(RunError::UnknownFunction(7)));
    let m = module(vec![main_fn(&["cpu.const_u64 3", "cpu.print"])]);
    assert_eq!(run(&m, 1, 2), Err(RunError::UnknownString(3)));
    let m = module(vec![main_fn(&["cpu.const_u64 1"])]);
    assert_eq!(run(&m, 1, 2), Err(RunError::PcOutsideProgram));
}
