//! The abstract state of the CPU and the meaning of each operation on it.
//!
//! `CpuState::step` is the CPU's transition function: from a state, an
//! operation and the message that accompanies it, to the next state and the
//! step's outcome or error. Some failing steps have already consumed operands
//! when they fail; `step` says exactly which.
use vstd::prelude::*;
use crate::arith::{int_neg, int_result};
use crate::frame::Frame;
use crate::heap::{HeapError, HeapView};
use crate::instruction::{FloatOp, IntOp, Op, StepOutcome};
use crate::word::{Word, decoded_i64, decoded_u32, encoded_bool, encoded_u32};

verus! {

/// Why the CPU refused a step.
#[derive(Debug, Clone, Copy, PartialEq, Eq, Structural)]
pub enum CpuError {
    /// The current frame holds fewer operands than the operation consumes.
    StackUnderflow,
    /// The operation needs a current frame and there is none.
    NoFrame,
    /// A load or store names a slot outside the current frame's locals.
    LocalOutOfBounds(u32),
    /// A return asks for more values than the frame holds operands.
    NotEnoughReturnValues,
    /// A call asks for more arguments than the frame holds operands.
    NotEnoughArguments,
    /// A call reserves fewer local slots than it passes arguments.
    LocalCountBelowArity,
    /// A call's frame would end past the largest stack index.
    FrameTooLarge,
    /// The message does not fit the instruction: calls take function
    /// metadata, `Print` takes its text, every other instruction takes none.
    UnexpectedMessage,
    /// A boolean operand is neither `0` nor `1`.
    InvalidBool(Word),
    /// Integer division by zero, or the overflowing signed quotient.
    DivisionFault,
    /// Integer remainder by zero, or of the overflowing signed quotient.
    RemainderFault,
    /// `GetItem` was given a negative index.
    NegativeHeapIndex(i64),
    /// `GetItem` was given an index that does not fit in `usize`.
    HeapIndexTooLarge(i64),
    /// `GetItem` was given an index past the end of the object.
    HeapIndexOutOfBounds(u64),
    /// The heap refused the request.
    Heap(HeapError),
}

/// The kind of message that accompanies an instruction, without its payload.
#[derive(Debug, Clone, Copy, PartialEq, Eq, Structural)]
pub enum MessageKind {
    Empty,
    FunctionInfo { arity: u32, start_address: u32, local_count: u32 },
    Print,
}

/// The abstract state of a CPU.
#[verifier::ext_equal]
pub struct CpuState {
    pub frames: Seq<Frame>,
    pub heap: HeapView,
    pub stack: Seq<Word>,
    pub span: (u32, u32, u32),
    pub pending_pc: Option<u32>,
    pub current_pc: u32,
    pub return_values: Seq<Word>,
}

/// Whether a message of kind `msg` may accompany operation `op`.
pub open spec fn message_fits(op: Op, msg: MessageKind) -> bool {
    match op {
        Op::Call(_, _) | Op::IndirectCall => msg is FunctionInfo,
        Op::Print => msg is Print,
        _ => msg is Empty,
    }
}

/// The value of a boolean operation on canonical booleans.
pub open spec fn bool_result(op: Op, lhs: bool, rhs: bool) -> bool {
    match op {
        Op::BoolAnd => lhs && rhs,
        Op::BoolOr => lhs || rhs,
        _ => lhs != rhs,
    }
}

/// `n` zero words.
pub open spec fn zeros(n: int) -> Seq<Word> {
    Seq::new(n as nat, |i: int| 0u64)
}

impl CpuState {
    /// The state of a freshly made CPU: no frames, an empty stack and heap.
    pub open spec fn initial() -> CpuState {
        CpuState {
            frames: Seq::empty(),
            heap: HeapView::empty(),
            stack: Seq::empty(),
            span: (0, 0, 0),
            pending_pc: None,
            current_pc: 0,
            return_values: Seq::empty(),
        }
    }

    /// Index of the first operand of the current frame (0 without a frame).
    pub open spec fn operands_start(self) -> int {
        if self.frames.len() == 0 {
            0
        } else {
            self.frames.last().operands_start()
        }
    }

    /// Number of operands the current frame holds above its locals.
    pub open spec fn operand_count(self) -> int {
        self.stack.len() - self.operands_start()
    }

    /// Frames nest in stack order, each frame's locals lie within the stack,
    /// and the heap is consistent.
    pub open spec fn wf(self) -> bool {
        &&& self.heap.wf()
        &&& self.operands_start() <= self.stack.len()
        &&& forall|i: int, j: int|
            0 <= i < j < self.frames.len() ==> #[trigger] self.frames[i].operands_start()
                <= #[trigger] self.frames[j].base
    }

    /// The top operand.
    pub open spec fn top(self) -> Word {
        self.stack.last()
    }

    /// The operand below the top.
    pub open spec fn second(self) -> Word {
        self.stack[self.stack.len() - 2]
    }

    /// The state with the top operand removed.
    pub open spec fn popped(self) -> CpuState {
        CpuState { stack: self.stack.drop_last(), ..self }
    }

    /// The state with `w` pushed.
    pub open spec fn pushed(self, w: Word) -> CpuState {
        CpuState { stack: self.stack.push(w), ..self }
    }

    /// The state with frame stack `frames`.
    pub open spec fn with_frames(self, frames: Seq<Frame>) -> CpuState {
        CpuState { frames, ..self }
    }

    /// The state with value stack `stack`.
    pub open spec fn with_stack(self, stack: Seq<Word>) -> CpuState {
        CpuState { stack, ..self }
    }

    /// The state with the pending PC set to `pc`.
    pub open spec fn with_pending(self, pc: Option<u32>) -> CpuState {
        CpuState { pending_pc: pc, ..self }
    }

    /// The state with local slot `index` of the current frame set to `w`.
    pub open spec fn with_local(self, index: u32, w: Word) -> CpuState {
        CpuState { stack: self.stack.update(self.frames.last().base + index, w), ..self }
    }

    /// Entering a function of `arity` arguments and `local_count` local
    /// slots: the top `arity` operands become the first locals of a new frame
    /// that returns to `ret_pc`, and the other locals are zeroed.
    pub open spec fn enter(
        self,
        arity: u32,
        local_count: u32,
        function: Option<usize>,
        ret_pc: u32,
    ) -> Result<CpuState, CpuError> {
        if self.operand_count() < arity {
            Err(CpuError::NotEnoughArguments)
        } else if local_count < arity {
            Err(CpuError::LocalCountBelowArity)
        } else if self.stack.len() - arity + local_count > usize::MAX {
            Err(CpuError::FrameTooLarge)
        } else {
            let base = self.stack.len() - arity;
            let frame = Frame {
                base: base as usize,
                local_count: local_count as usize,
                span: self.span,
                function,
                ret_pc,
            };
            Ok(
                CpuState {
                    stack: self.stack + zeros(local_count - arity),
                    frames: self.frames.push(frame),
                    ..self
                },
            )
        }
    }

    /// A call of a function of `arity` arguments and `local_count` local
    /// slots whose code starts at `target`: the function is entered with the
    /// next instruction as its return PC, and execution continues at `target`.
    pub open spec fn call(
        self,
        arity: u32,
        target: u32,
        local_count: u32,
        function: Option<usize>,
    ) -> (CpuState, Result<StepOutcome, CpuError>) {
        match self.enter(arity, local_count, function, (self.current_pc + 1) as u32) {
            Ok(s) => (s.with_pending(Some(target)), Ok(StepOutcome::Continue)),
            Err(e) => (self, Err(e)),
        }
    }

    /// A return of the top `count` operands from the current frame: the frame
    /// and everything it holds are replaced by those values. Returning from
    /// the outermost frame ends the run with them as the return values;
    /// otherwise execution continues at the frame's return PC.
    pub open spec fn ret(self, count: u32) -> (CpuState, Result<StepOutcome, CpuError>) {
        if self.frames.len() == 0 {
            (self, Err(CpuError::NoFrame))
        } else if self.operand_count() < count {
            (self, Err(CpuError::NotEnoughReturnValues))
        } else {
            let frame = self.frames.last();
            let values = self.stack.subrange(self.stack.len() - count, self.stack.len() as int);
            let next = CpuState {
                frames: self.frames.drop_last(),
                stack: self.stack.subrange(0, frame.base as int) + values,
                ..self
            };
            if next.frames.len() == 0 {
                (CpuState { return_values: values, ..next }, Ok(StepOutcome::Return))
            } else {
                (next.with_pending(Some(frame.ret_pc)), Ok(StepOutcome::Continue))
            }
        }
    }

    /// Reading a boolean operand: the top operand must be `0` or `1`.
    pub open spec fn pop_bool(self) -> (CpuState, Result<bool, CpuError>) {
        if self.operand_count() < 1 {
            (self, Err(CpuError::StackUnderflow))
        } else if self.top() > 1 {
            (self.popped(), Err(CpuError::InvalidBool(self.top())))
        } else {
            (self.popped(), Ok(self.top() == 1))
        }
    }

    /// `GetItem`: pops an index (read as `i64`) and then a heap reference, and
    /// pushes that element of the referenced object.
    pub open spec fn get_item(self) -> (CpuState, Result<StepOutcome, CpuError>) {
        if self.operand_count() < 1 {
            (self, Err(CpuError::StackUnderflow))
        } else {
            let index = decoded_i64(self.top());
            let s1 = self.popped();
            if index < 0 {
                (s1, Err(CpuError::NegativeHeapIndex(index)))
            } else if index > usize::MAX {
                (s1, Err(CpuError::HeapIndexTooLarge(index)))
            } else if s1.operand_count() < 1 {
                (s1, Err(CpuError::StackUnderflow))
            } else {
                let id = decoded_u32(s1.top());
                let s2 = s1.popped();
                match s2.heap.lookup(id) {
                    Err(e) => (s2, Err(CpuError::Heap(e))),
                    Ok(values) => if index >= values.len() {
                        (s2, Err(CpuError::HeapIndexOutOfBounds(index as u64)))
                    } else {
                        (s2.pushed(values[index as int]), Ok(StepOutcome::Continue))
                    },
                }
            }
        }
    }

    /// The operation `op` after the pending PC was cleared and the message
    /// was found to fit. `float_value` stands for the result of the
    /// floating-point operation, which the caller's kernel computes.
    pub open spec fn apply(self, op: Op, msg: MessageKind, float_value: Word) -> (
        CpuState,
        Result<StepOutcome, CpuError>,
    ) {
        let cont = Ok::<StepOutcome, CpuError>(StepOutcome::Continue);
        match op {
            Op::Nop => (self, cont),
            Op::SetSpan(a, b, c) => (CpuState { span: (a, b, c), ..self }, cont),
            Op::Breakpoint => (self, Ok(StepOutcome::Breakpoint)),
            Op::Branch(t) => (self.with_pending(Some(t)), cont),
            Op::CondBranch(t, f) => {
                let (s1, c) = self.pop_bool();
                match c {
                    Err(e) => (s1, Err(e)),
                    Ok(b) => (s1.with_pending(Some(if b { t } else { f })), cont),
                }
            },
            Op::Return(count) => self.ret(count),
            Op::IndirectCall => {
                if self.operand_count() < 1 {
                    (self, Err(CpuError::StackUnderflow))
                } else {
                    let f = decoded_u32(self.top());
                    match msg {
                        MessageKind::FunctionInfo { arity, start_address, local_count } => self.popped().call(
                            arity,
                            start_address,
                            local_count,
                            Some(f as usize),
                        ),
                        _ => (self, Err(CpuError::UnexpectedMessage)),
                    }
                }
            },
            Op::Call(arity, target) => match msg {
                MessageKind::FunctionInfo { local_count, .. } => self.call(
                    arity,
                    target,
                    local_count,
                    None,
                ),
                _ => (self, Err(CpuError::UnexpectedMessage)),
            },
            Op::Halt => (self, Ok(StepOutcome::Halt)),
            Op::Print => if self.operand_count() < 1 {
                (self, Err(CpuError::StackUnderflow))
            } else {
                (self.popped(), cont)
            },
            Op::Load(index) => if self.frames.len() == 0 {
                (self, Err(CpuError::NoFrame))
            } else if index >= self.frames.last().local_count {
                (self, Err(CpuError::LocalOutOfBounds(index)))
            } else {
                (self.pushed(self.stack[self.frames.last().base + index]), cont)
            },
            Op::Store(index) => if self.frames.len() == 0 {
                (self, Err(CpuError::NoFrame))
            } else if index >= self.frames.last().local_count {
                (self, Err(CpuError::LocalOutOfBounds(index)))
            } else if self.operand_count() < 1 {
                (self, Err(CpuError::StackUnderflow))
            } else {
                (self.popped().with_local(index, self.top()), cont)
            },
            Op::Dup => if self.operand_count() < 1 {
                (self, Err(CpuError::StackUnderflow))
            } else {
                (self.pushed(self.top()), cont)
            },
            Op::HeapAlloc(count) => if self.operand_count() < count {
                (self, Err(CpuError::StackUnderflow))
            } else {
                let split = self.stack.len() - count;
                let values = self.stack.subrange(split, self.stack.len() as int);
                let id = self.heap.next_id();
                (
                    CpuState {
                        stack: self.stack.subrange(0, split).push(encoded_u32(id)),
                        heap: self.heap.after_alloc(values),
                        ..self
                    },
                    cont,
                )
            },
            Op::GetItem => self.get_item(),
            Op::HeapDealloc => if self.operand_count() < 1 {
                (self, Err(CpuError::StackUnderflow))
            } else {
                let s1 = self.popped();
                match s1.heap.after_dealloc(decoded_u32(self.top())) {
                    Err(e) => (s1, Err(CpuError::Heap(e))),
                    Ok(h) => (CpuState { heap: h, ..s1 }, cont),
                }
            },
            Op::Const(w) => (self.pushed(w), cont),
            Op::Int(iop, kind) => if self.operand_count() < 2 {
                (self, Err(CpuError::StackUnderflow))
            } else {
                let s2 = self.popped().popped();
                match int_result(iop, kind, self.second(), self.top()) {
                    Some(w) => (s2.pushed(w), cont),
                    None => (
                        s2,
                        Err(if iop == IntOp::Rem { CpuError::RemainderFault } else { CpuError::DivisionFault }),
                    ),
                }
            },
            Op::IntNeg(kind) => if self.operand_count() < 1 {
                (self, Err(CpuError::StackUnderflow))
            } else {
                (self.popped().pushed(int_neg(kind, self.top())), cont)
            },
            Op::BoolNot => {
                let (s1, v) = self.pop_bool();
                match v {
                    Err(e) => (s1, Err(e)),
                    Ok(b) => (s1.pushed(encoded_bool(!b)), cont),
                }
            },
            Op::BoolAnd | Op::BoolOr | Op::BoolXor => {
                let (s1, rhs) = self.pop_bool();
                match rhs {
                    Err(e) => (s1, Err(e)),
                    Ok(r) => {
                        let (s2, lhs) = s1.pop_bool();
                        match lhs {
                            Err(e) => (s2, Err(e)),
                            Ok(l) => (s2.pushed(encoded_bool(bool_result(op, l, r))), cont),
                        }
                    },
                }
            },
            Op::FloatBinary(_) => if self.operand_count() < 2 {
                (self, Err(CpuError::StackUnderflow))
            } else {
                (self.popped().popped().pushed(float_value), cont)
            },
            Op::FloatUnary(_) => if self.operand_count() < 1 {
                (self, Err(CpuError::StackUnderflow))
            } else {
                (self.popped().pushed(float_value), cont)
            },
        }
    }

    /// One step of the CPU on operation `op` with a message of kind `msg`:
    /// the pending PC is cleared, a message that does not fit is refused, and
    /// otherwise the operation is applied.
    pub open spec fn step(self, op: Op, msg: MessageKind, float_value: Word) -> (
        CpuState,
        Result<StepOutcome, CpuError>,
    ) {
        let s = self.with_pending(None);
        if !message_fits(op, msg) {
            (s, Err(CpuError::UnexpectedMessage))
        } else {
            s.apply(op, msg, float_value)
        }
    }

    /// Whether the step computes a floating-point result with the kernel.
    pub open spec fn uses_float_kernel(self, op: Op, msg: MessageKind) -> bool {
        &&& message_fits(op, msg)
        &&& match op {
            Op::FloatBinary(_) => self.operand_count() >= 2,
            Op::FloatUnary(_) => self.operand_count() >= 1,
            _ => false,
        }
    }

    /// The arguments the kernel is called with: the operation, the deeper
    /// operand (or the only one) and the top operand (or `0`).
    pub open spec fn float_arguments(self, op: Op) -> (FloatOp, Word, Word) {
        match op {
            Op::FloatBinary(f) => (f, self.second(), self.top()),
            Op::FloatUnary(f) => (f, self.top(), 0),
            _ => (FloatOp::AddF32, 0, 0),
        }
    }
}

/// A pushed word is the top operand of the current frame, and popping it
/// gives back the state from before the push.
pub proof fn lemma_push_then_pop(s: CpuState, w: Word)
    requires
        s.wf(),
    ensures
        s.pushed(w).wf(),
        s.pushed(w).operand_count() == s.operand_count() + 1,
        s.pushed(w).top() == w,
        s.pushed(w).popped() == s,
{
    assert(s.pushed(w).stack.drop_last() == s.stack);
}

/// Entering a function keeps the CPU well formed.
pub proof fn lemma_enter_preserves_wf(
    s: CpuState,
    arity: u32,
    local_count: u32,
    function: Option<usize>,
    ret_pc: u32,
)
    requires
        s.wf(),
    ensures
        s.enter(arity, local_count, function, ret_pc) is Ok ==> s.enter(
            arity,
            local_count,
            function,
            ret_pc,
        )->Ok_0.wf(),
{
    if let Ok(t) = s.enter(arity, local_count, function, ret_pc) {
        let n = s.frames.len();
        let base = s.stack.len() - arity;
        assert forall|i: int, j: int|
            0 <= i < j < t.frames.len() implies #[trigger] t.frames[i].operands_start()
            <= #[trigger] t.frames[j].base by {
            if j == n {
                if i < n - 1 {
                    assert(s.frames[i].operands_start() <= s.frames[n - 1].base);
                }
                assert(s.frames[i] == t.frames[i]);
            } else {
                assert(s.frames[i] == t.frames[i]);
                assert(s.frames[j] == t.frames[j]);
            }
        }
        assert(t.operands_start() == base + local_count);
    }
}

/// Returning from a frame keeps the CPU well formed.
pub proof fn lemma_ret_preserves_wf(s: CpuState, count: u32)
    requires
        s.wf(),
    ensures
        s.ret(count).0.wf(),
{
    if s.frames.len() > 0 && s.operand_count() >= count {
        let t = s.ret(count).0;
        let n = s.frames.len();
        let frame = s.frames.last();
        assert(frame.base <= s.stack.len());
        assert forall|i: int, j: int|
            0 <= i < j < t.frames.len() implies #[trigger] t.frames[i].operands_start()
            <= #[trigger] t.frames[j].base by {
            assert(s.frames[i] == t.frames[i]);
            assert(s.frames[j] == t.frames[j]);
        }
        if t.frames.len() > 0 {
            assert(s.frames[n - 2].operands_start() <= s.frames[n - 1].base);
        }
    }
}

/// Every step keeps the CPU well formed: frames stay nested within the stack
/// and the heap stays consistent.
pub proof fn lemma_step_preserves_wf(s: CpuState, op: Op, msg: MessageKind, float_value: Word)
    requires
        s.wf(),
        op is HeapAlloc ==> s.heap.can_alloc(),
    ensures
        s.step(op, msg, float_value).0.wf(),
{
    let s0 = s.with_pending(None);
    assert(s0.wf());
    if message_fits(op, msg) {
        let t = s0.apply(op, msg, float_value).0;
        match op {
            Op::Return(count) => {
                lemma_ret_preserves_wf(s0, count);
            },
            Op::Call(arity, target) => {
                if let MessageKind::FunctionInfo { local_count, .. } = msg {
                    lemma_enter_preserves_wf(s0, arity, local_count, None, (s0.current_pc + 1) as u32);
                }
            },
            Op::IndirectCall => {
                if s0.operand_count() >= 1 {
                    let s1 = s0.popped();
                    assert(s1.wf());
                    if let MessageKind::FunctionInfo { arity, start_address, local_count } = msg {
                        lemma_enter_preserves_wf(
                            s1,
                            arity,
                            local_count,
                            Some(decoded_u32(s0.top()) as usize),
                            (s1.current_pc + 1) as u32,
                        );
                    }
                }
            },
            Op::HeapAlloc(count) => {
                if s0.operand_count() >= count {
                    let values = s0.stack.subrange(s0.stack.len() - count, s0.stack.len() as int);
                    crate::heap::lemma_alloc_preserves_wf(s0.heap, values);
                }
            },
            Op::HeapDealloc => {
                if s0.operand_count() >= 1 {
                    crate::heap::lemma_dealloc_preserves_wf(s0.heap, decoded_u32(s0.top()));
                }
            },
            Op::GetItem => {
                if s0.operand_count() >= 1 {
                    let s1 = s0.popped();
                    assert(s1.wf());
                    if s1.operand_count() >= 1 {
                        assert(s1.popped().wf());
                    }
                }
            },
            Op::BoolAnd | Op::BoolOr | Op::BoolXor => {
                if s0.operand_count() >= 1 {
                    let s1 = s0.popped();
                    assert(s1.wf());
                    if s1.operand_count() >= 1 {
                        assert(s1.popped().wf());
                    }
                }
            },
            Op::Store(index) => {
                if s0.frames.len() > 0 && index < s0.frames.last().local_count && s0.operand_count() >= 1 {
                    let s1 = s0.popped();
                    assert(s1.wf());
                    assert(s1.frames.last().base + index < s1.stack.len());
                    assert(s1.with_local(index, s0.top()).wf());
                }
            },
            _ => {},
        }
        assert(t.wf());
    }
}

/// No instruction changes the values below the current frame: whatever a
/// callee does, its caller's locals and operands survive.
pub proof fn lemma_step_preserves_caller_values(
    s: CpuState,
    op: Op,
    msg: MessageKind,
    float_value: Word,
)
    requires
        s.wf(),
        s.frames.len() > 0,
    ensures
        ({
            let base = s.frames.last().base as int;
            let t = s.step(op, msg, float_value).0;
            &&& base <= t.stack.len()
            &&& t.stack.subrange(0, base) == s.stack.subrange(0, base)
        }),
{
    let base = s.frames.last().base as int;
    let s0 = s.with_pending(None);
    let t = s.step(op, msg, float_value).0;
    assert(s.frames.last().operands_start() <= s.stack.len());
    if message_fits(op, msg) {
        match op {
            Op::Return(count) => {
                if s0.operand_count() >= count {
                    let values = s0.stack.subrange(s0.stack.len() - count, s0.stack.len() as int);
                    assert(t.stack.subrange(0, base) =~= s.stack.subrange(0, base));
                }
            },
            Op::Store(index) => {
                if index < s0.frames.last().local_count && s0.operand_count() >= 1 {
                    assert(t.stack.subrange(0, base) =~= s.stack.subrange(0, base));
                }
            },
            Op::HeapAlloc(count) => {
                if s0.operand_count() >= count {
                    assert(t.stack.subrange(0, base) =~= s.stack.subrange(0, base));
                }
            },
            Op::Call(arity, target) => {
                if let MessageKind::FunctionInfo { local_count, .. } = msg {
                    if s0.enter(arity, local_count, None, (s0.current_pc + 1) as u32) is Ok {
                        assert(t.stack.subrange(0, base) =~= s.stack.subrange(0, base));
                    }
                }
            },
            Op::IndirectCall => {
                if s0.operand_count() >= 1 {
                    let s1 = s0.popped();
                    if let MessageKind::FunctionInfo { arity, start_address, local_count } = msg {
                        if s1.enter(
                            arity,
                            local_count,
                            Some(decoded_u32(s0.top()) as usize),
                            (s1.current_pc + 1) as u32,
                        ) is Ok {
                            assert(t.stack.subrange(0, base) =~= s.stack.subrange(0, base));
                        }
                    }
                    assert(t.stack.subrange(0, base) =~= s.stack.subrange(0, base));
                }
            },
            _ => {
                assert(t.stack.subrange(0, base) =~= s.stack.subrange(0, base));
            },
        }
    }
    assert(t.stack.subrange(0, base) =~= s.stack.subrange(0, base));
}

/// A refused step only drops operands of the current frame: the frames, the
/// heap, the span and the return values stay as they were, and the stack
/// keeps a prefix of itself that still holds every frame's locals.
pub proof fn lemma_refused_step_only_drops_operands(
    s: CpuState,
    op: Op,
    msg: MessageKind,
    float_value: Word,
)
    requires
        s.wf(),
        s.step(op, msg, float_value).1 is Err,
    ensures
        ({
            let t = s.step(op, msg, float_value).0;
            &&& t.frames == s.frames
            &&& t.heap == s.heap
            &&& t.span == s.span
            &&& t.return_values == s.return_values
            &&& s.operands_start() <= t.stack.len() <= s.stack.len()
            &&& t.stack == s.stack.subrange(0, t.stack.len() as int)
        }),
{
    let t = s.step(op, msg, float_value).0;
    assert(t.stack =~= s.stack.subrange(0, t.stack.len() as int));
}

/// A refused step that fails before consuming anything leaves the machine as
/// it was, but for the cleared pending PC: a message that does not fit, a
/// missing frame, a local index out of range, too few values to return, and
/// a call whose frame cannot be made.
pub proof fn lemma_refused_step_unchanged(s: CpuState, op: Op, msg: MessageKind, float_value: Word)
    requires
        s.wf(),
        !(op is IndirectCall),
        s.step(op, msg, float_value).1 matches Err(e) && (e is UnexpectedMessage || e is NoFrame
            || e is LocalOutOfBounds || e is NotEnoughReturnValues || e is NotEnoughArguments
            || e is LocalCountBelowArity || e is FrameTooLarge),
    ensures
        s.step(op, msg, float_value).0 == s.with_pending(None),
{
}

/// A store followed by a load of the same local slot pushes the stored value
/// and leaves the local holding it.
pub proof fn lemma_store_then_load(s: CpuState, index: u32)
    requires
        s.wf(),
        s.frames.len() > 0,
        index < s.frames.last().local_count,
        s.operand_count() >= 1,
    ensures
        ({
            let (t, r1) = s.step(Op::Store(index), MessageKind::Empty, 0);
            let (u, r2) = t.step(Op::Load(index), MessageKind::Empty, 0);
            &&& r1 == Ok::<StepOutcome, CpuError>(StepOutcome::Continue)
            &&& r2 == Ok::<StepOutcome, CpuError>(StepOutcome::Continue)
            &&& u.stack.last() == s.top()
            &&& u.stack[s.frames.last().base + index] == s.top()
            &&& u.stack.len() == s.stack.len()
        }),
{
    assert(s.frames.last().operands_start() <= s.stack.len());
}

/// A successful call makes a frame whose first locals are the arguments, in
/// order, and whose other locals are zero, with no operands yet; the caller's
/// values below the arguments are untouched.
pub proof fn lemma_call_frame_layout(
    s: CpuState,
    arity: u32,
    target: u32,
    local_count: u32,
    function: Option<usize>,
)
    requires
        s.wf(),
        s.call(arity, target, local_count, function).1 is Ok,
    ensures
        ({
            let t = s.call(arity, target, local_count, function).0;
            let base = s.stack.len() - arity;
            &&& t.frames.len() == s.frames.len() + 1
            &&& t.frames.last().base == base
            &&& t.frames.last().local_count == local_count
            &&& t.frames.last().ret_pc == (s.current_pc + 1) as u32
            &&& t.operand_count() == 0
            &&& t.pending_pc == Some(target)
            &&& forall|k: int| 0 <= k < base ==> #[trigger] t.stack[k] == s.stack[k]
            &&& forall|k: int| 0 <= k < arity ==> #[trigger] t.stack[base + k] == s.stack[base + k]
            &&& forall|k: int| arity <= k < local_count ==> #[trigger] t.stack[base + k] == 0
        }),
{
    let t = s.call(arity, target, local_count, function).0;
    let base = s.stack.len() - arity;
    assert(t.frames.last().operands_start() == t.stack.len());
    assert(t.operand_count() == 0);
    assert forall|k: int| 0 <= k < base implies #[trigger] t.stack[k] == s.stack[k] by {}
    assert forall|k: int| 0 <= k < arity implies #[trigger] t.stack[base + k] == s.stack[base + k] by {}
    assert forall|k: int| arity <= k < local_count implies #[trigger] t.stack[base + k] == 0 by {
        assert(zeros(local_count - arity)[k - arity] == 0);
    }
}

/// Returning right after a call, with the callee's arguments still in place
/// and no values, goes back to the instruction after the call with the
/// caller's frames and the caller's stack without the arguments.
pub proof fn lemma_call_then_return(s: CpuState, arity: u32, target: u32, local_count: u32)
    requires
        s.wf(),
        s.call(arity, target, local_count, None).1 is Ok,
    ensures
        ({
            let c = s.call(arity, target, local_count, None).0;
            let (t, r) = c.step(Op::Return(0), MessageKind::Empty, 0);
            &&& r == Ok::<StepOutcome, CpuError>(StepOutcome::Continue) || (s.frames.len() == 0
                && r == Ok::<StepOutcome, CpuError>(StepOutcome::Return))
            &&& t.frames == s.frames
            &&& t.stack == s.stack.subrange(0, s.stack.len() - arity)
            &&& s.frames.len() > 0 ==> t.pending_pc == Some((s.current_pc + 1) as u32)
        }),
{
    let c = s.call(arity, target, local_count, None).0;
    let t = c.step(Op::Return(0), MessageKind::Empty, 0).0;
    lemma_enter_preserves_wf(s, arity, local_count, None, (s.current_pc + 1) as u32);
    assert(c.frames.drop_last() =~= s.frames);
    assert(t.stack =~= s.stack.subrange(0, s.stack.len() - arity));
}

} // verus!
