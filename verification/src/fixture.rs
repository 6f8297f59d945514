//! Running a resolved module's `main` on one CPU: the invocation's set-up,
//! the message each instruction needs, and one fetch-execute-advance step.
use vstd::prelude::*;
use crate::cpu::{CPUMessage, CPU};
use crate::instruction::{FloatOp, RuntimeInstruction, StepOutcome};
use crate::resolve::{FunctionInfo, Module};
use crate::state::{CpuError, CpuState, MessageKind};
use crate::word::{Word, decode_function_ref, decode_string_id, decoded_u32};

verus! {

/// Why a run stopped with an error.
#[derive(Debug, Clone, Copy, PartialEq, Eq, Structural)]
pub enum RunError {
    /// The CPU refused an instruction.
    Cpu(CpuError),
    /// The module has no entry function.
    MissingMain,
    /// The program counter is past the end of the code.
    PcOutsideProgram,
    /// A call or function reference names no function of the module.
    UnknownFunction(u32),
    /// A string id names no string of the module.
    UnknownString(u32),
    /// A function's parameter count does not fit in `u32`.
    ValueTooLarge,
    /// A heap allocation found no free id.
    HeapFull,
    /// A call was made at the last address, so it has nowhere to return.
    PcOverflow,
    /// A halt did not leave exactly one result above `main`'s locals.
    BadHalt,
    /// The outermost return did not return exactly one result.
    BadReturn,
    /// A step ended in an outcome other than continue, halt or return.
    UnexpectedOutcome(StepOutcome),
}

/// The message with the metadata of function `f` for a call.
pub open spec fn info_message(f: FunctionInfo) -> Result<MessageKind, RunError> {
    if f.signature.params@.len() <= u32::MAX {
        Ok(MessageKind::FunctionInfo {
            arity: f.signature.params@.len() as u32,
            start_address: f.start_address,
            local_count: f.local_count,
        })
    } else {
        Err(RunError::ValueTooLarge)
    }
}

/// The first function of `fs` that starts at `address`.
pub open spec fn function_at(fs: Seq<FunctionInfo>, address: u32) -> Option<int>
    decreases fs.len(),
{
    if fs.len() == 0 {
        None
    } else {
        match function_at(fs.drop_last(), address) {
            Some(i) => Some(i),
            None => if fs.last().start_address == address {
                Some(fs.len() - 1)
            } else {
                None
            },
        }
    }
}

/// The message that instruction `i` needs in CPU state `s`: an indirect
/// call takes the metadata of the function referenced on the stack, a call
/// that of the function starting at its target, a print the string whose
/// id is on the stack; every other instruction takes none.
pub open spec fn message_for(m: Module, s: CpuState, i: RuntimeInstruction) -> Result<MessageKind, RunError> {
    match i {
        RuntimeInstruction::IndirectCall => if s.operand_count() < 1 {
            Err(RunError::Cpu(CpuError::StackUnderflow))
        } else {
            let id = decoded_u32(s.top());
            if id < m.functions@.len() {
                info_message(m.functions@[id as int])
            } else {
                Err(RunError::UnknownFunction(id))
            }
        },
        RuntimeInstruction::Call(_, target) => match function_at(m.functions@, target) {
            Some(k) => info_message(m.functions@[k]),
            None => Err(RunError::UnknownFunction(target)),
        },
        RuntimeInstruction::Print => if s.operand_count() < 1 {
            Err(RunError::Cpu(CpuError::StackUnderflow))
        } else {
            let id = decoded_u32(s.top());
            if id < m.strings@.len() {
                Ok(MessageKind::Print)
            } else {
                Err(RunError::UnknownString(id))
            }
        },
        _ => Ok(MessageKind::Empty),
    }
}

/// A halt is accepted when the current frame is `main`'s and exactly one
/// word lies above `main`'s locals; the result is that word, which must be
/// an operand of the frame.
pub open spec fn halt_result(m: Module, s: CpuState) -> Result<Option<u64>, RunError> {
    match m.main_function {
        Some(main) => if main < m.functions@.len() && s.frames.len() > 0
            && s.frames.last().function == Some(main as usize)
            && s.stack.len() == m.functions@[main as int].local_count + 1 {
            if s.operand_count() >= 1 {
                Ok(Some(s.top()))
            } else {
                Err(RunError::Cpu(CpuError::StackUnderflow))
            }
        } else {
            Err(RunError::BadHalt)
        },
        None => Err(RunError::BadHalt),
    }
}

/// One CPU and its program counter.
pub struct Fixture {
    pub cpu: CPU,
    pub pc: u32,
}

/// The fixture's composite instruction set: the CPU's instructions, routed
/// to the CPU device.
#[derive(Debug, Clone, PartialEq, Eq)]
pub enum FixtureInstruction {
    Cpu(RuntimeInstruction),
}

/// The result of routing an instruction to the CPU: the CPU's outcome, or
/// its error as a run error.
pub open spec fn routed(res: Result<StepOutcome, CpuError>) -> Result<StepOutcome, RunError> {
    match res {
        Ok(o) => Ok(o),
        Err(e) => Err(RunError::Cpu(e)),
    }
}

/// The CPU state of an invocation: `iterations` and `seed` become the first
/// two locals of one frame of `local_count` slots, the others zeroed.
pub open spec fn invocation(iterations: u64, seed: u64, local_count: u32, function: Option<usize>) -> Result<CpuState, CpuError> {
    CpuState::initial().pushed(iterations).pushed(seed).enter(2, local_count, function, 0)
}

/// What a step leaves after the CPU produced state `s1` and outcome `res`
/// at `pc`: the CPU state, the next program counter and the step's result.
/// Continuing moves to the pending PC, or else to the next instruction;
/// halting and returning give the run's single result.
pub open spec fn step_outcome(m: Module, s1: CpuState, res: Result<StepOutcome, CpuError>, pc: u32) -> (CpuState, u32, Result<Option<u64>, RunError>) {
    match res {
        Err(e) => (s1, pc, Err(RunError::Cpu(e))),
        Ok(StepOutcome::Halt) => (s1, pc, halt_result(m, s1)),
        Ok(StepOutcome::Return) => (
            s1,
            pc,
            if s1.return_values.len() == 1 {
                Ok(Some(s1.return_values[0]))
            } else {
                Err(RunError::BadReturn)
            },
        ),
        Ok(StepOutcome::Continue) => match s1.pending_pc {
            Some(t) => (s1.with_pending(None), t, Ok(None)),
            None => if pc < u32::MAX {
                (s1, (pc + 1) as u32, Ok(None))
            } else {
                (s1, pc, Err(RunError::PcOverflow))
            },
        },
        Ok(o) => (s1, pc, Err(RunError::UnexpectedOutcome(o))),
    }
}

/// The index of the first function of `fs` that starts at `address`.
fn find_function_at(fs: &Vec<FunctionInfo>, address: u32) -> (r: Option<usize>)
    ensures
        match r {
            Some(k) => function_at(fs@, address) == Some(k as int) && k < fs@.len(),
            None => function_at(fs@, address) is None,
        },
{
    let mut k: usize = 0;
    while k < fs.len()
        invariant
            0 <= k <= fs@.len(),
            function_at(fs@.take(k as int), address) is None,
        decreases fs@.len() - k,
    {
        assert(fs@.take(k + 1).drop_last() == fs@.take(k as int));
        if fs[k].start_address == address {
            proof {
                lemma_function_at_prefix(fs@, address, k + 1);
            }
            return Some(k);
        }
        k += 1;
    }
    assert(fs@.take(k as int) == fs@);
    None
}

/// Searching a prefix that already holds a match finds it in the whole.
proof fn lemma_function_at_prefix(fs: Seq<FunctionInfo>, address: u32, n: int)
    requires
        0 <= n <= fs.len(),
        function_at(fs.take(n), address) is Some,
    ensures
        function_at(fs, address) == function_at(fs.take(n), address),
    decreases fs.len() - n,
{
    if n < fs.len() {
        assert(fs.take(n + 1).drop_last() == fs.take(n));
        lemma_function_at_prefix(fs, address, n + 1);
    } else {
        assert(fs.take(n) == fs);
    }
}

/// The message with the metadata of `f` for a call.
fn function_message(f: &FunctionInfo) -> (r: Result<CPUMessage, RunError>)
    ensures
        match info_message(*f) {
            Ok(k) => r matches Ok(msg) && msg.kind() == k,
            Err(e) => r == Err::<CPUMessage, RunError>(e),
        },
{
    if f.signature.params.len() > u32::MAX as usize {
        return Err(RunError::ValueTooLarge);
    }
    Ok(CPUMessage::FunctionInfo {
        arity: f.signature.params.len() as u32,
        start_address: f.start_address,
        local_count: f.local_count,
    })
}

impl Fixture {
    /// A CPU with one frame whose four locals are `iterations`, `seed` and
    /// two zeros, at program counter 0.
    pub fn prepared(iterations: u64, seed: u64) -> (f: Fixture)
        ensures
            invocation(iterations, seed, 4, None) == Ok::<CpuState, CpuError>(f.cpu@),
            f.pc == 0,
            f.cpu@.wf(),
    {
        let mut cpu = CPU::new();
        cpu.stack_push(iterations);
        cpu.stack_push(seed);
        let entered = cpu.enter_function(2, 0, 4, None);
        assert(entered is Ok);
        Fixture { cpu, pc: 0 }
    }

    /// Prepares an invocation of the module's entry function with the
    /// workload's inputs, at the function's first instruction.
    pub fn for_program(m: &Module, iterations: u64, seed: u64) -> (r: Result<Fixture, RunError>)
        ensures
            match m.main_function {
                None => r == Err::<Fixture, RunError>(RunError::MissingMain),
                Some(main) => if main >= m.functions@.len() {
                    r == Err::<Fixture, RunError>(RunError::UnknownFunction(main))
                } else {
                    match invocation(iterations, seed, m.functions@[main as int].local_count, Some(main as usize)) {
                        Ok(s) => r matches Ok(f) && f.cpu@ == s && f.pc == m.functions@[main as int].start_address,
                        Err(e) => r == Err::<Fixture, RunError>(RunError::Cpu(e)),
                    }
                },
            },
            r matches Ok(f) ==> f.cpu@.wf(),
    {
        let main = match m.main_function {
            Some(main) => main,
            None => return Err(RunError::MissingMain),
        };
        if main as usize >= m.functions.len() {
            return Err(RunError::UnknownFunction(main));
        }
        let f = &m.functions[main as usize];
        let mut cpu = CPU::new();
        cpu.stack_push(iterations);
        cpu.stack_push(seed);
        match cpu.enter_function(2, 0, f.local_count, Some(main as usize)) {
            Ok(()) => Ok(Fixture { cpu, pc: f.start_address }),
            Err(e) => Err(RunError::Cpu(e)),
        }
    }

    /// The word a constant instruction pushed, when it continued.
    pub fn constant_result(&self, outcome: StepOutcome) -> (r: Result<u64, RunError>)
        requires
            self.cpu@.wf(),
        ensures
            outcome != StepOutcome::Continue ==> r == Err::<u64, RunError>(RunError::UnexpectedOutcome(outcome)),
            outcome == StepOutcome::Continue && self.cpu@.operand_count() >= 1 ==> r == Ok::<u64, RunError>(self.cpu@.top()),
            outcome == StepOutcome::Continue && self.cpu@.operand_count() < 1 ==> r == Err::<u64, RunError>(RunError::Cpu(CpuError::StackUnderflow)),
    {
        if outcome != StepOutcome::Continue {
            return Err(RunError::UnexpectedOutcome(outcome));
        }
        match self.cpu.stack_top() {
            Ok(w) => Ok(*w),
            Err(e) => Err(RunError::Cpu(e)),
        }
    }

    /// The message that instruction `i` needs now.
    pub fn message(&self, m: &Module, i: &RuntimeInstruction) -> (r: Result<CPUMessage, RunError>)
        requires
            self.cpu@.wf(),
        ensures
            match message_for(*m, self.cpu@, *i) {
                Ok(k) => r matches Ok(msg) && msg.kind() == k,
                Err(e) => r == Err::<CPUMessage, RunError>(e),
            },
    {
        match i {
            RuntimeInstruction::IndirectCall => {
                let top = match self.cpu.stack_top() {
                    Ok(w) => *w,
                    Err(e) => return Err(RunError::Cpu(e)),
                };
                let id = decode_function_ref(top);
                if id as usize >= m.functions.len() {
                    return Err(RunError::UnknownFunction(id));
                }
                function_message(&m.functions[id as usize])
            },
            RuntimeInstruction::Call(_, target) => match find_function_at(&m.functions, *target) {
                Some(k) => function_message(&m.functions[k]),
                None => Err(RunError::UnknownFunction(*target)),
            },
            RuntimeInstruction::Print => {
                let top = match self.cpu.stack_top() {
                    Ok(w) => *w,
                    Err(e) => return Err(RunError::Cpu(e)),
                };
                let id = decode_string_id(top);
                if id as usize >= m.strings.len() {
                    return Err(RunError::UnknownString(id));
                }
                Ok(CPUMessage::Print(m.strings[id as usize].clone()))
            },
            _ => Ok(CPUMessage::Empty),
        }
    }

    /// Completes a step whose execution gave `res` at `pc`.
    fn finish(&mut self, m: &Module, res: Result<StepOutcome, CpuError>, pc: u32) -> (r: Result<Option<u64>, RunError>)
        requires
            old(self).cpu@.wf(),
        ensures
            (final(self).cpu@, final(self).pc, r) == step_outcome(*m, old(self).cpu@, res, pc),
            final(self).cpu@.wf(),
    {
        match res {
            Err(e) => {
                self.pc = pc;
                Err(RunError::Cpu(e))
            },
            Ok(StepOutcome::Halt) => {
                self.pc = pc;
                let main = match m.main_function {
                    Some(main) => main,
                    None => return Err(RunError::BadHalt),
                };
                if main as usize >= m.functions.len() {
                    return Err(RunError::BadHalt);
                }
                let frame = match self.cpu.get_frame() {
                    Ok(frame) => *frame,
                    Err(_) => return Err(RunError::BadHalt),
                };
                let local_count = m.functions[main as usize].local_count;
                if frame.function != Some(main as usize) || self.cpu.stack_len() as u64 != local_count as u64 + 1 {
                    return Err(RunError::BadHalt);
                }
                match self.cpu.stack_top() {
                    Ok(w) => Ok(Some(*w)),
                    Err(e) => Err(RunError::Cpu(e)),
                }
            },
            Ok(StepOutcome::Return) => {
                self.pc = pc;
                let values = self.cpu.return_values();
                if values.len() == 1 {
                    Ok(Some(values[0]))
                } else {
                    Err(RunError::BadReturn)
                }
            },
            Ok(StepOutcome::Continue) => {
                match self.cpu.take_pending_pc() {
                    Some(t) => {
                        self.pc = t;
                        Ok(None)
                    },
                    None => {
                        if pc == u32::MAX {
                            self.pc = pc;
                            Err(RunError::PcOverflow)
                        } else {
                            self.pc = pc + 1;
                            Ok(None)
                        }
                    },
                }
            },
            Ok(o) => {
                self.pc = pc;
                Err(RunError::UnexpectedOutcome(o))
            },
        }
    }

    /// Routes one composite instruction to its device, with no message, as
    /// the isolated composite-dispatch measurement does.
    pub fn dispatch<F: Fn(FloatOp, Word, Word) -> Word>(&mut self, inst: &FixtureInstruction, float_kernel: &F) -> (r: Result<StepOutcome, RunError>)
        requires
            old(self).cpu@.wf(),
            forall|f: FloatOp, a: Word, b: Word| float_kernel.requires((f, a, b)),
        ensures
            final(self).cpu@.wf(),
            final(self).pc == old(self).pc,
            ({
                let s0 = old(self).cpu@;
                let i = inst->Cpu_0;
                if i.kind() is HeapAlloc && !s0.heap.can_alloc() {
                    r == Err::<StepOutcome, RunError>(RunError::HeapFull) && final(self).cpu@ == s0
                } else if (i.kind() is Call || i.kind() is IndirectCall) && s0.current_pc == u32::MAX {
                    r == Err::<StepOutcome, RunError>(RunError::PcOverflow) && final(self).cpu@ == s0
                } else {
                    exists|v: Word| {
                        &&& s0.uses_float_kernel(i.kind(), MessageKind::Empty) ==> float_kernel.ensures(s0.float_arguments(i.kind()), v)
                        &&& final(self).cpu@ == (#[trigger] s0.step(i.kind(), MessageKind::Empty, v)).0
                        &&& r == routed(s0.step(i.kind(), MessageKind::Empty, v).1)
                    }
                }
            }),
    {
        match inst {
            FixtureInstruction::Cpu(i) => {
                match i {
                    RuntimeInstruction::HeapAlloc(_) => {
                        if !self.cpu.heap_can_allocate() {
                            return Err(RunError::HeapFull);
                        }
                    },
                    RuntimeInstruction::Call(_, _) | RuntimeInstruction::IndirectCall => {
                        if self.cpu.current_pc() == u32::MAX {
                            return Err(RunError::PcOverflow);
                        }
                    },
                    _ => {},
                }
                match self.cpu.execute(i, CPUMessage::Empty, float_kernel) {
                    Ok(o) => Ok(o),
                    Err(e) => Err(RunError::Cpu(e)),
                }
            },
        }
    }

    /// Fetches the instruction at the program counter, builds its message,
    /// executes it and advances: `Some` result once `main` halts with its
    /// result on the stack or the outermost frame returns it.
    pub fn step<F: Fn(FloatOp, Word, Word) -> Word>(&mut self, m: &Module, float_kernel: &F) -> (r: Result<Option<u64>, RunError>)
        requires
            old(self).cpu@.wf(),
            forall|f: FloatOp, a: Word, b: Word| float_kernel.requires((f, a, b)),
        ensures
            final(self).cpu@.wf(),
            ({
                let pc = old(self).pc;
                let s0 = CpuState { current_pc: pc, ..old(self).cpu@ };
                if pc >= m.code@.len() {
                    r == Err::<Option<u64>, RunError>(RunError::PcOutsideProgram) && final(self).cpu@ == s0 && final(self).pc == pc
                } else {
                    let i = m.code@[pc as int];
                    match message_for(*m, s0, i) {
                        Err(e) => r == Err::<Option<u64>, RunError>(e) && final(self).cpu@ == s0 && final(self).pc == pc,
                        Ok(k) => if i.kind() is HeapAlloc && !s0.heap.can_alloc() {
                            r == Err::<Option<u64>, RunError>(RunError::HeapFull) && final(self).cpu@ == s0 && final(self).pc == pc
                        } else if (i.kind() is Call || i.kind() is IndirectCall) && pc == u32::MAX {
                            r == Err::<Option<u64>, RunError>(RunError::PcOverflow) && final(self).cpu@ == s0 && final(self).pc == pc
                        } else {
                            exists|v: Word| {
                                &&& s0.uses_float_kernel(i.kind(), k) ==> float_kernel.ensures(s0.float_arguments(i.kind()), v)
                                &&& (final(self).cpu@, final(self).pc, r) == step_outcome(
                                    *m,
                                    (#[trigger] s0.step(i.kind(), k, v)).0,
                                    s0.step(i.kind(), k, v).1,
                                    pc,
                                )
                            }
                        },
                    }
                }
            }),
    {
        let pc = self.pc;
        self.cpu.set_current_pc(pc);
        proof {
            assert(self.cpu@.wf());
        }
        if pc as usize >= m.code.len() {
            return Err(RunError::PcOutsideProgram);
        }
        let inst = &m.code[pc as usize];
        let message = match self.message(m, inst) {
            Ok(msg) => msg,
            Err(e) => return Err(e),
        };
        let ghost k = message.kind();
        match inst {
            RuntimeInstruction::HeapAlloc(_) => {
                if !self.cpu.heap_can_allocate() {
                    return Err(RunError::HeapFull);
                }
            },
            RuntimeInstruction::Call(_, _) | RuntimeInstruction::IndirectCall => {
                if pc == u32::MAX {
                    return Err(RunError::PcOverflow);
                }
            },
            _ => {},
        }
        let ghost s0 = self.cpu@;
        let res = self.cpu.execute(inst, message, float_kernel);
        let ghost v = choose|v: Word| {
            &&& s0.uses_float_kernel(inst.kind(), k) ==> float_kernel.ensures(s0.float_arguments(inst.kind()), v)
            &&& self.cpu@ == (#[trigger] s0.step(inst.kind(), k, v)).0
            &&& res == s0.step(inst.kind(), k, v).1
        };
        let r = self.finish(m, res, pc);
        proof {
            assert((self.cpu@, self.pc, r) == step_outcome(*m, s0.step(inst.kind(), k, v).0, s0.step(inst.kind(), k, v).1, pc));
        }
        r
    }
}

} // verus!
