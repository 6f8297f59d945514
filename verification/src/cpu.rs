//! The word CPU: a value stack divided into call frames, an object heap, and
//! the execution of runtime instructions.
use vstd::prelude::*;
use crate::arith::{int_binary, int_negate};
use crate::frame::Frame;
use crate::heap::{Heap, HeapError};
use crate::instruction::{FloatOp, IntOp, Op, RuntimeInstruction, StepOutcome};
use crate::state::{CpuError, CpuState, MessageKind, bool_result, message_fits, zeros};
use crate::word::{Word, decode_heap_ref, decode_i64, decode_u32, encode_bool, encode_heap_ref};

verus! {

/// The message that accompanies an instruction.
#[derive(Debug, Clone, PartialEq, Eq)]
pub enum CPUMessage {
    /// No message.
    Empty,
    /// The metadata of the function a call enters. `Call` uses only
    /// `local_count`; `IndirectCall` uses all three.
    FunctionInfo { arity: u32, start_address: u32, local_count: u32 },
    /// The text a `Print` instruction prints.
    Print(String),
}

impl CPUMessage {
    /// The kind of this message.
    pub open spec fn kind(&self) -> MessageKind {
        match self {
            CPUMessage::Empty => MessageKind::Empty,
            CPUMessage::FunctionInfo { arity, start_address, local_count } => MessageKind::FunctionInfo {
                arity: *arity,
                start_address: *start_address,
                local_count: *local_count,
            },
            CPUMessage::Print(_) => MessageKind::Print,
        }
    }

    /// The kind of this message.
    pub fn message_kind(&self) -> (k: MessageKind)
        ensures
            k == self.kind(),
    {
        match self {
            CPUMessage::Empty => MessageKind::Empty,
            CPUMessage::FunctionInfo { arity, start_address, local_count } => MessageKind::FunctionInfo {
                arity: *arity,
                start_address: *start_address,
                local_count: *local_count,
            },
            CPUMessage::Print(_) => MessageKind::Print,
        }
    }
}

/// A stack CPU over 64-bit words.
///
/// The value stack holds, for each call frame, its local slots followed by
/// its operands; instructions consume and produce operands of the current
/// frame only.
#[derive(Debug)]
pub struct CPU {
    frames: Vec<Frame>,
    heap: Heap,
    stack: Vec<Word>,
    span: (u32, u32, u32),
    pending_pc: Option<u32>,
    current_pc: u32,
    return_values: Vec<Word>,
}

impl View for CPU {
    type V = CpuState;

    closed spec fn view(&self) -> CpuState {
        CpuState {
            frames: self.frames@,
            heap: self.heap@,
            stack: self.stack@,
            span: self.span,
            pending_pc: self.pending_pc,
            current_pc: self.current_pc,
            return_values: self.return_values@,
        }
    }
}

fn message_matches(op: Op, msg: MessageKind) -> (b: bool)
    ensures
        b == message_fits(op, msg),
{
    match op {
        Op::Call(_, _) | Op::IndirectCall => match msg {
            MessageKind::FunctionInfo { .. } => true,
            _ => false,
        },
        Op::Print => match msg {
            MessageKind::Print => true,
            _ => false,
        },
        _ => match msg {
            MessageKind::Empty => true,
            _ => false,
        },
    }
}

impl CPU {
    /// A CPU with no frames, an empty stack and an empty heap.
    pub fn new() -> (cpu: CPU)
        ensures
            cpu@ == CpuState::initial(),
            cpu@.wf(),
    {
        let cpu = CPU {
            frames: Vec::new(),
            heap: Heap::new(),
            stack: Vec::new(),
            span: (0, 0, 0),
            pending_pc: None,
            current_pc: 0,
            return_values: Vec::new(),
        };
        assert(cpu@ =~= CpuState::initial());
        cpu
    }

    /// Returns the CPU to its initial state.
    pub fn reset(&mut self)
        ensures
            final(self)@ == CpuState::initial(),
    {
        self.frames.clear();
        self.heap.clear();
        self.stack.clear();
        self.span = (0, 0, 0);
        self.pending_pc = None;
        self.current_pc = 0;
        self.return_values.clear();
        assert(self@ =~= CpuState::initial());
    }

    /// The whole value stack: every frame's locals and operands.
    pub fn stack(&self) -> (s: &Vec<Word>)
        ensures
            s@ == self@.stack,
    {
        &self.stack
    }

    /// Whether the value stack is empty.
    pub fn stack_is_empty(&self) -> (b: bool)
        ensures
            b == (self@.stack.len() == 0),
    {
        self.stack.len() == 0
    }

    /// The number of values on the stack.
    pub fn stack_len(&self) -> (n: usize)
        ensures
            n == self@.stack.len(),
    {
        self.stack.len()
    }

    /// The value at absolute stack position `pos`.
    pub fn stack_get(&self, pos: usize) -> (r: Result<&Word, CpuError>)
        ensures
            pos < self@.stack.len() ==> r is Ok && *r->Ok_0 == self@.stack[pos as int],
            pos >= self@.stack.len() ==> r == Err::<&Word, CpuError>(CpuError::StackUnderflow),
    {
        if pos < self.stack.len() {
            Ok(&self.stack[pos])
        } else {
            Err(CpuError::StackUnderflow)
        }
    }

    /// Index of the current frame's first operand (0 without a frame).
    pub fn operands_index(&self) -> (i: usize)
        requires
            self@.wf(),
        ensures
            i == self@.operands_start(),
    {
        let len = self.stack.len();
        if self.frames.len() == 0 {
            0
        } else {
            self.frames[self.frames.len() - 1].operands_index()
        }
    }

    /// The number of operands the current frame holds above its locals.
    pub fn operand_count(&self) -> (n: usize)
        requires
            self@.wf(),
        ensures
            n == self@.operand_count(),
    {
        self.stack.len() - self.operands_index()
    }

    /// Pushes an operand.
    pub fn stack_push(&mut self, value: Word)
        requires
            old(self)@.wf(),
        ensures
            final(self)@ == old(self)@.pushed(value),
            final(self)@.wf(),
    {
        self.stack.push(value);
        assert(self@ =~= old(self)@.pushed(value));
    }

    /// Pops the top operand of the current frame; locals are never popped.
    pub fn stack_pop(&mut self) -> (r: Result<Word, CpuError>)
        requires
            old(self)@.wf(),
        ensures
            old(self)@.operand_count() >= 1 ==> r == Ok::<Word, CpuError>(old(self)@.top())
                && final(self)@ == old(self)@.popped(),
            old(self)@.operand_count() < 1 ==> r == Err::<Word, CpuError>(CpuError::StackUnderflow)
                && final(self)@ == old(self)@,
            final(self)@.wf(),
    {
        if self.operand_count() < 1 {
            return Err(CpuError::StackUnderflow);
        }
        let v = self.stack.pop().unwrap();
        assert(self@ =~= old(self)@.popped());
        Ok(v)
    }

    /// The top operand of the current frame.
    pub fn stack_top(&self) -> (r: Result<&Word, CpuError>)
        requires
            self@.wf(),
        ensures
            self@.operand_count() >= 1 ==> r is Ok && *r->Ok_0 == self@.top(),
            self@.operand_count() < 1 ==> r == Err::<&Word, CpuError>(CpuError::StackUnderflow),
    {
        if self.operand_count() < 1 {
            return Err(CpuError::StackUnderflow);
        }
        Ok(&self.stack[self.stack.len() - 1])
    }

    /// The current frame.
    pub fn get_frame(&self) -> (r: Result<&Frame, CpuError>)
        ensures
            self@.frames.len() > 0 ==> r is Ok && *r->Ok_0 == self@.frames.last(),
            self@.frames.len() == 0 ==> r == Err::<&Frame, CpuError>(CpuError::NoFrame),
    {
        if self.frames.len() == 0 {
            return Err(CpuError::NoFrame);
        }
        Ok(&self.frames[self.frames.len() - 1])
    }

    /// Index of the current frame's first slot.
    pub fn frame_base(&self) -> (r: Result<usize, CpuError>)
        ensures
            self@.frames.len() > 0 ==> r == Ok::<usize, CpuError>(self@.frames.last().base),
            self@.frames.len() == 0 ==> r == Err::<usize, CpuError>(CpuError::NoFrame),
    {
        if self.frames.len() == 0 {
            return Err(CpuError::NoFrame);
        }
        Ok(self.frames[self.frames.len() - 1].base)
    }

    /// Pushes a frame whose slots lie among the current frame's operands.
    pub fn push_frame(&mut self, frame: Frame)
        requires
            old(self)@.wf(),
            old(self)@.operands_start() <= frame.base,
            frame.base + frame.local_count <= old(self)@.stack.len(),
        ensures
            final(self)@ == old(self)@.with_frames(old(self)@.frames.push(frame)),
            final(self)@.wf(),
    {
        let ghost s = self@;
        self.frames.push(frame);
        proof {
            let t = self@;
            assert(t =~= s.with_frames(s.frames.push(frame)));
            assert forall|i: int, j: int|
                0 <= i < j < t.frames.len() implies #[trigger] t.frames[i].operands_start()
                <= #[trigger] t.frames[j].base by {
                if j == s.frames.len() {
                    if i < s.frames.len() - 1 {
                        assert(s.frames[i].operands_start() <= s.frames[s.frames.len() - 1].base);
                    }
                }
            }
        }
    }

    /// Pops the current frame, leaving the stack as it is.
    pub fn pop_frame(&mut self) -> (r: Result<Frame, CpuError>)
        requires
            old(self)@.wf(),
        ensures
            old(self)@.frames.len() > 0 ==> r == Ok::<Frame, CpuError>(old(self)@.frames.last())
                && final(self)@ == old(self)@.with_frames(old(self)@.frames.drop_last()),
            old(self)@.frames.len() == 0 ==> r == Err::<Frame, CpuError>(CpuError::NoFrame)
                && final(self)@ == old(self)@,
            final(self)@.wf(),
    {
        let ghost s = self@;
        match self.frames.pop() {
            Some(frame) => {
                proof {
                    let t = self@;
                    assert(t =~= s.with_frames(s.frames.drop_last()));
                    let n = s.frames.len();
                    if n >= 2 {
                        assert(s.frames[n - 2].operands_start() <= s.frames[n - 1].base);
                    }
                    assert forall|i: int, j: int|
                        0 <= i < j < t.frames.len() implies #[trigger] t.frames[i].operands_start()
                        <= #[trigger] t.frames[j].base by {
                        assert(t.frames[i] == s.frames[i]);
                        assert(t.frames[j] == s.frames[j]);
                    }
                }
                Ok(frame)
            },
            None => Err(CpuError::NoFrame),
        }
    }

    /// Local slot `index` of the current frame.
    pub fn get_local(&self, index: usize) -> (r: Result<&Word, CpuError>)
        requires
            self@.wf(),
        ensures
            self@.frames.len() == 0 ==> r == Err::<&Word, CpuError>(CpuError::NoFrame),
            self@.frames.len() > 0 && index < self@.frames.last().local_count ==> r is Ok
                && *r->Ok_0 == self@.stack[self@.frames.last().base + index],
            self@.frames.len() > 0 && index >= self@.frames.last().local_count ==> r
                == Err::<&Word, CpuError>(CpuError::LocalOutOfBounds(index as u32)),
    {
        if self.frames.len() == 0 {
            return Err(CpuError::NoFrame);
        }
        let len = self.stack.len();
        let frame = &self.frames[self.frames.len() - 1];
        if index >= frame.local_count {
            return Err(CpuError::LocalOutOfBounds(index as u32));
        }
        Ok(&self.stack[frame.base + index])
    }

    /// Sets local slot `index` of the current frame to `value`.
    pub fn set_local(&mut self, index: usize, value: Word) -> (r: Result<(), CpuError>)
        requires
            old(self)@.wf(),
        ensures
            old(self)@.frames.len() == 0 ==> r == Err::<(), CpuError>(CpuError::NoFrame)
                && final(self)@ == old(self)@,
            old(self)@.frames.len() > 0 && index < old(self)@.frames.last().local_count ==> r is Ok
                && final(self)@ == old(self)@.with_stack(
                old(self)@.stack.update(old(self)@.frames.last().base + index, value),
            ),
            old(self)@.frames.len() > 0 && index >= old(self)@.frames.last().local_count ==> r
                == Err::<(), CpuError>(CpuError::LocalOutOfBounds(index as u32)) && final(self)@
                == old(self)@,
            final(self)@.wf(),
    {
        if self.frames.len() == 0 {
            return Err(CpuError::NoFrame);
        }
        let n = self.frames.len();
        let len = self.stack.len();
        if index >= self.frames[n - 1].local_count {
            return Err(CpuError::LocalOutOfBounds(index as u32));
        }
        let slot = self.frames[n - 1].base + index;
        self.stack.set(slot, value);
        assert(self@ =~= old(self)@.with_stack(
            old(self)@.stack.update(old(self)@.frames.last().base + index, value),
        ));
        Ok(())
    }

    /// Enters a function of `arity` arguments and `local_count` local slots:
    /// the top `arity` operands become the first locals of a new frame that
    /// returns to `ret_pc`, and the other locals are zeroed.
    pub fn enter_function(
        &mut self,
        arity: u32,
        ret_pc: u32,
        local_count: u32,
        function: Option<usize>,
    ) -> (r: Result<(), CpuError>)
        requires
            old(self)@.wf(),
        ensures
            match old(self)@.enter(arity, local_count, function, ret_pc) {
                Ok(s) => r is Ok && final(self)@ == s,
                Err(e) => r == Err::<(), CpuError>(e) && final(self)@ == old(self)@,
            },
            final(self)@.wf(),
    {
        let ghost s = self@;
        proof {
            crate::state::lemma_enter_preserves_wf(s, arity, local_count, function, ret_pc);
        }
        if self.operand_count() < arity as usize {
            return Err(CpuError::NotEnoughArguments);
        }
        if local_count < arity {
            return Err(CpuError::LocalCountBelowArity);
        }
        let base = self.stack.len() - arity as usize;
        if base > usize::MAX - local_count as usize {
            return Err(CpuError::FrameTooLarge);
        }
        let frame = Frame { base, local_count: local_count as usize, span: self.span, function, ret_pc };
        self.stack.resize(base + local_count as usize, 0);
        self.frames.push(frame);
        proof {
            let t = s.enter(arity, local_count, function, ret_pc)->Ok_0;
            assert(self@.stack =~= t.stack) by {
                assert forall|i: int| 0 <= i < t.stack.len() implies self@.stack[i] == t.stack[i] by {
                    if i >= s.stack.len() {
                        assert(zeros(local_count - arity)[i - s.stack.len()] == 0);
                    } else {
                        assert(self@.stack.subrange(0, s.stack.len() as int)[i] == s.stack[i]);
                    }
                }
            }
            assert(self@ =~= t);
        }
        Ok(())
    }

    fn pop_operand(&mut self) -> (v: Word)
        requires
            old(self)@.wf(),
            old(self)@.operand_count() >= 1,
        ensures
            v == old(self)@.top(),
            final(self)@ == old(self)@.popped(),
            final(self)@.wf(),
    {
        let v = self.stack.pop().unwrap();
        assert(self@ =~= old(self)@.popped());
        v
    }

    fn pop_bool(&mut self) -> (r: Result<bool, CpuError>)
        requires
            old(self)@.wf(),
        ensures
            final(self)@ == old(self)@.pop_bool().0,
            r == old(self)@.pop_bool().1,
            final(self)@.wf(),
    {
        if self.operand_count() < 1 {
            return Err(CpuError::StackUnderflow);
        }
        let v = self.pop_operand();
        if v > 1 {
            Err(CpuError::InvalidBool(v))
        } else {
            Ok(v == 1)
        }
    }

    fn exec_call(&mut self, arity: u32, target: u32, local_count: u32, function: Option<usize>) -> (r:
        Result<StepOutcome, CpuError>)
        requires
            old(self)@.wf(),
            old(self)@.current_pc < u32::MAX,
        ensures
            final(self)@ == old(self)@.call(arity, target, local_count, function).0,
            r == old(self)@.call(arity, target, local_count, function).1,
            final(self)@.wf(),
    {
        let ret_pc = self.current_pc + 1;
        match self.enter_function(arity, ret_pc, local_count, function) {
            Ok(()) => {
                self.pending_pc = Some(target);
                let ghost t = old(self)@.enter(arity, local_count, function, ret_pc)->Ok_0;
                assert(self@ =~= t.with_pending(Some(target)));
                Ok(StepOutcome::Continue)
            },
            Err(e) => Err(e),
        }
    }

    fn exec_ret(&mut self, count: u32) -> (r: Result<StepOutcome, CpuError>)
        requires
            old(self)@.wf(),
        ensures
            final(self)@ == old(self)@.ret(count).0,
            r == old(self)@.ret(count).1,
            final(self)@.wf(),
    {
        proof {
            crate::state::lemma_ret_preserves_wf(old(self)@, count);
        }
        if self.frames.len() == 0 {
            return Err(CpuError::NoFrame);
        }
        if self.operand_count() < count as usize {
            return Err(CpuError::NotEnoughReturnValues);
        }
        let ghost s = self@;
        let frame = self.frames.pop().unwrap();
        let top = self.stack.len() - count as usize;
        let values = self.stack.split_off(top);
        self.stack.truncate(frame.base);
        let mut i: usize = 0;
        while i < values.len()
            invariant
                0 <= i <= values.len(),
                values@ == s.stack.subrange(top as int, s.stack.len() as int),
                self.stack@ == s.stack.subrange(0, frame.base as int) + values@.subrange(0, i as int),
                self.frames@ == s.frames.drop_last(),
                self.heap@ == s.heap,
                self.span == s.span,
                self.pending_pc == s.pending_pc,
                self.current_pc == s.current_pc,
                self.return_values@ == s.return_values,
            decreases values.len() - i,
        {
            self.stack.push(values[i]);
            assert(values@.subrange(0, i + 1) == values@.subrange(0, i as int).push(values@[i as int]));
            i += 1;
        }
        assert(values@.subrange(0, values@.len() as int) == values@);
        if self.frames.len() == 0 {
            self.return_values = values;
            assert(self@ =~= s.ret(count).0);
            Ok(StepOutcome::Return)
        } else {
            self.pending_pc = Some(frame.ret_pc);
            assert(self@ =~= s.ret(count).0);
            Ok(StepOutcome::Continue)
        }
    }

    fn exec_get_item(&mut self) -> (r: Result<StepOutcome, CpuError>)
        requires
            old(self)@.wf(),
        ensures
            final(self)@ == old(self)@.get_item().0,
            r == old(self)@.get_item().1,
            final(self)@.wf(),
    {
        if self.operand_count() < 1 {
            return Err(CpuError::StackUnderflow);
        }
        let index = decode_i64(self.pop_operand());
        if index < 0 {
            return Err(CpuError::NegativeHeapIndex(index));
        }
        if (index as u64) > (usize::MAX as u64) {
            return Err(CpuError::HeapIndexTooLarge(index));
        }
        let position = index as usize;
        if self.operand_count() < 1 {
            return Err(CpuError::StackUnderflow);
        }
        let id = decode_heap_ref(self.pop_operand());
        let value = match self.heap.get(id) {
            Err(e) => {
                return Err(CpuError::Heap(e));
            },
            Ok(values) => {
                if position >= values.len() {
                    return Err(CpuError::HeapIndexOutOfBounds(index as u64));
                }
                values[position]
            },
        };
        self.stack_push(value);
        Ok(StepOutcome::Continue)
    }

    fn exec_heap_alloc(&mut self, count: u32) -> (r: Result<StepOutcome, CpuError>)
        requires
            old(self)@.wf(),
            old(self)@.heap.can_alloc(),
        ensures
            final(self)@ == old(self)@.apply(Op::HeapAlloc(count), MessageKind::Empty, 0).0,
            r == old(self)@.apply(Op::HeapAlloc(count), MessageKind::Empty, 0).1,
            final(self)@.wf(),
    {
        proof {
            crate::state::lemma_step_preserves_wf(
                old(self)@.with_pending(old(self)@.pending_pc),
                Op::HeapAlloc(count),
                MessageKind::Empty,
                0,
            );
        }
        if self.operand_count() < count as usize {
            return Err(CpuError::StackUnderflow);
        }
        let split = self.stack.len() - count as usize;
        let values = self.stack.split_off(split);
        let id = self.heap.allocate(values);
        self.stack.push(encode_heap_ref(id));
        assert(self@ =~= old(self)@.apply(Op::HeapAlloc(count), MessageKind::Empty, 0).0);
        Ok(StepOutcome::Continue)
    }

    fn apply_op<F: Fn(FloatOp, Word, Word) -> Word>(
        &mut self,
        op: Op,
        msg: MessageKind,
        float_kernel: &F,
    ) -> (res: (Result<StepOutcome, CpuError>, Ghost<Word>))
        requires
            old(self)@.wf(),
            message_fits(op, msg),
            forall|f: FloatOp, a: Word, b: Word| float_kernel.requires((f, a, b)),
            op is HeapAlloc ==> old(self)@.heap.can_alloc(),
            (op is Call || op is IndirectCall) ==> old(self)@.current_pc < u32::MAX,
        ensures
            final(self)@ == old(self)@.apply(op, msg, res.1@).0,
            res.0 == old(self)@.apply(op, msg, res.1@).1,
            old(self)@.uses_float_kernel(op, msg) ==> float_kernel.ensures(
                old(self)@.float_arguments(op),
                res.1@,
            ),
            final(self)@.wf(),
    {
        let ghost s = self@;
        let cont = Ok(StepOutcome::Continue);
        match op {
            Op::Nop => (cont, Ghost(0)),
            Op::SetSpan(a, b, c) => {
                self.span = (a, b, c);
                assert(self@ =~= s.apply(op, msg, 0).0);
                (cont, Ghost(0))
            },
            Op::Breakpoint => (Ok(StepOutcome::Breakpoint), Ghost(0)),
            Op::Branch(t) => {
                self.pending_pc = Some(t);
                assert(self@ =~= s.apply(op, msg, 0).0);
                (cont, Ghost(0))
            },
            Op::CondBranch(t, f) => {
                match self.pop_bool() {
                    Err(e) => (Err(e), Ghost(0)),
                    Ok(b) => {
                        self.pending_pc = Some(if b { t } else { f });
                        assert(self@ =~= s.apply(op, msg, 0).0);
                        (cont, Ghost(0))
                    },
                }
            },
            Op::Return(count) => (self.exec_ret(count), Ghost(0)),
            Op::IndirectCall => {
                if self.operand_count() < 1 {
                    return (Err(CpuError::StackUnderflow), Ghost(0));
                }
                match msg {
                    MessageKind::FunctionInfo { arity, start_address, local_count } => {
                        let f = decode_u32(self.pop_operand());
                        (self.exec_call(arity, start_address, local_count, Some(f as usize)), Ghost(0))
                    },
                    _ => (Err(CpuError::UnexpectedMessage), Ghost(0)),
                }
            },
            Op::Call(arity, target) => match msg {
                MessageKind::FunctionInfo { local_count, .. } => (
                    self.exec_call(arity, target, local_count, None),
                    Ghost(0),
                ),
                _ => (Err(CpuError::UnexpectedMessage), Ghost(0)),
            },
            Op::Halt => (Ok(StepOutcome::Halt), Ghost(0)),
            Op::Print => {
                if self.operand_count() < 1 {
                    return (Err(CpuError::StackUnderflow), Ghost(0));
                }
                self.pop_operand();
                (cont, Ghost(0))
            },
            Op::Load(index) => {
                let value = match self.get_local(index as usize) {
                    Err(e) => {
                        return (Err(e), Ghost(0));
                    },
                    Ok(v) => *v,
                };
                self.stack_push(value);
                (cont, Ghost(0))
            },
            Op::Store(index) => {
                if self.frames.len() == 0 {
                    return (Err(CpuError::NoFrame), Ghost(0));
                }
                if index as usize >= self.frames[self.frames.len() - 1].local_count {
                    return (Err(CpuError::LocalOutOfBounds(index)), Ghost(0));
                }
                if self.operand_count() < 1 {
                    return (Err(CpuError::StackUnderflow), Ghost(0));
                }
                let v = self.pop_operand();
                let _ = self.set_local(index as usize, v);
                assert(self@ =~= s.apply(op, msg, 0).0);
                (cont, Ghost(0))
            },
            Op::Dup => {
                if self.operand_count() < 1 {
                    return (Err(CpuError::StackUnderflow), Ghost(0));
                }
                let v = self.stack[self.stack.len() - 1];
                self.stack_push(v);
                (cont, Ghost(0))
            },
            Op::HeapAlloc(count) => (self.exec_heap_alloc(count), Ghost(0)),
            Op::GetItem => (self.exec_get_item(), Ghost(0)),
            Op::HeapDealloc => {
                if self.operand_count() < 1 {
                    return (Err(CpuError::StackUnderflow), Ghost(0));
                }
                let id = decode_heap_ref(self.pop_operand());
                proof {
                    crate::heap::lemma_dealloc_preserves_wf(self@.heap, id);
                }
                match self.heap.dealloc(id) {
                    Err(e) => (Err(CpuError::Heap(e)), Ghost(0)),
                    Ok(()) => {
                        assert(self@ =~= s.apply(op, msg, 0).0);
                        (cont, Ghost(0))
                    },
                }
            },
            Op::Const(w) => {
                self.stack_push(w);
                (cont, Ghost(0))
            },
            Op::Int(iop, kind) => {
                if self.operand_count() < 2 {
                    return (Err(CpuError::StackUnderflow), Ghost(0));
                }
                let rhs = self.pop_operand();
                let lhs = self.pop_operand();
                match int_binary(iop, kind, lhs, rhs) {
                    Some(w) => {
                        self.stack_push(w);
                        (cont, Ghost(0))
                    },
                    None => {
                        let e = if iop == IntOp::Rem {
                            CpuError::RemainderFault
                        } else {
                            CpuError::DivisionFault
                        };
                        (Err(e), Ghost(0))
                    },
                }
            },
            Op::IntNeg(kind) => {
                if self.operand_count() < 1 {
                    return (Err(CpuError::StackUnderflow), Ghost(0));
                }
                let v = self.pop_operand();
                self.stack_push(int_negate(kind, v));
                (cont, Ghost(0))
            },
            Op::BoolNot => match self.pop_bool() {
                Err(e) => (Err(e), Ghost(0)),
                Ok(b) => {
                    self.stack_push(encode_bool(!b));
                    (cont, Ghost(0))
                },
            },
            Op::BoolAnd | Op::BoolOr | Op::BoolXor => {
                let r = match self.pop_bool() {
                    Err(e) => {
                        return (Err(e), Ghost(0));
                    },
                    Ok(b) => b,
                };
                let l = match self.pop_bool() {
                    Err(e) => {
                        return (Err(e), Ghost(0));
                    },
                    Ok(b) => b,
                };
                let value = match op {
                    Op::BoolAnd => l && r,
                    Op::BoolOr => l || r,
                    _ => l != r,
                };
                assert(value == bool_result(op, l, r));
                self.stack_push(encode_bool(value));
                (cont, Ghost(0))
            },
            Op::FloatBinary(f) => {
                if self.operand_count() < 2 {
                    return (Err(CpuError::StackUnderflow), Ghost(0));
                }
                let rhs = self.pop_operand();
                let lhs = self.pop_operand();
                let value = float_kernel(f, lhs, rhs);
                self.stack_push(value);
                (cont, Ghost(value))
            },
            Op::FloatUnary(f) => {
                if self.operand_count() < 1 {
                    return (Err(CpuError::StackUnderflow), Ghost(0));
                }
                let v = self.pop_operand();
                let value = float_kernel(f, v, 0);
                self.stack_push(value);
                (cont, Ghost(value))
            },
        }
    }

    /// Executes one instruction with its message.
    ///
    /// Floating-point instructions get their result from `float_kernel`,
    /// which is called with the operation, the deeper operand (or the only
    /// one) and the top operand (or `0`), as IEEE-754 bit patterns in words.
    pub fn execute<F: Fn(FloatOp, Word, Word) -> Word>(
        &mut self,
        instruction: &RuntimeInstruction,
        message: CPUMessage,
        float_kernel: &F,
    ) -> (r: Result<StepOutcome, CpuError>)
        requires
            old(self)@.wf(),
            forall|f: FloatOp, a: Word, b: Word| float_kernel.requires((f, a, b)),
            instruction.kind() is HeapAlloc ==> old(self)@.heap.can_alloc(),
            (instruction.kind() is Call || instruction.kind() is IndirectCall) ==> old(
                self,
            )@.current_pc < u32::MAX,
        ensures
            final(self)@.wf(),
            exists|v: Word|
                {
                    &&& old(self)@.uses_float_kernel(instruction.kind(), message.kind())
                        ==> float_kernel.ensures(old(self)@.float_arguments(instruction.kind()), v)
                    &&& final(self)@ == (#[trigger] old(self)@.step(
                        instruction.kind(),
                        message.kind(),
                        v,
                    )).0
                    &&& r == old(self)@.step(instruction.kind(), message.kind(), v).1
                },
    {
        let ghost s = self@;
        self.pending_pc = None;
        let op = instruction.op();
        let msg = message.message_kind();
        proof {
            assert(self@ =~= s.with_pending(None));
        }
        if !message_matches(op, msg) {
            proof {
                assert(s.step(op, msg, 0).0 == self@);
            }
            return Err(CpuError::UnexpectedMessage);
        }
        let (r, Ghost(v)) = self.apply_op(op, msg, float_kernel);
        proof {
            crate::state::lemma_step_preserves_wf(s, op, msg, v);
            assert(s.with_pending(None).float_arguments(op) == s.float_arguments(op));
            assert(s.with_pending(None).uses_float_kernel(op, msg) == s.uses_float_kernel(op, msg));
            assert(self@ == s.step(op, msg, v).0);
        }
        r
    }

    /// Whether the heap can take another object.
    pub fn heap_can_allocate(&self) -> (b: bool)
        ensures
            b == self@.heap.can_alloc(),
    {
        self.heap.can_allocate()
    }

    /// Stores `values` as a new heap object and returns its id.
    pub fn push_heap_object(&mut self, values: Vec<Word>) -> (id: u32)
        requires
            old(self)@.wf(),
            old(self)@.heap.can_alloc(),
        ensures
            id == old(self)@.heap.next_id(),
            old(self)@.heap.free_list.len() == 0 ==> id == old(self)@.heap.slots.len(),
            final(self)@.heap.lookup(id) == Ok::<Seq<Word>, HeapError>(values@),
            final(self)@ == (CpuState { heap: old(self)@.heap.after_alloc(values@), ..old(self)@ }),
            final(self)@.wf(),
    {
        proof {
            crate::heap::lemma_alloc_preserves_wf(self@.heap, values@);
            crate::heap::lemma_alloc_then_get(self@.heap, values@);
        }
        let id = self.heap.allocate(values);
        assert(self@ =~= (CpuState { heap: old(self)@.heap.after_alloc(values@), ..old(self)@ }));
        id
    }

    /// The words of live heap object `id`.
    pub fn heap_object(&self, id: u32) -> (r: Result<&[Word], HeapError>)
        requires
            self@.wf(),
        ensures
            match self@.heap.lookup(id) {
                Ok(values) => r is Ok && r->Ok_0@ == values,
                Err(e) => r == Err::<&[Word], HeapError>(e),
            },
    {
        self.heap.get(id)
    }

    /// Deallocates heap object `id`.
    pub fn dealloc_heap_object(&mut self, id: u32) -> (r: Result<(), HeapError>)
        requires
            old(self)@.wf(),
        ensures
            match old(self)@.heap.after_dealloc(id) {
                Ok(h) => r is Ok && final(self)@ == (CpuState { heap: h, ..old(self)@ }),
                Err(e) => r == Err::<(), HeapError>(e) && final(self)@ == old(self)@,
            },
            final(self)@.wf(),
    {
        proof {
            crate::heap::lemma_dealloc_preserves_wf(self@.heap, id);
        }
        let r = self.heap.dealloc(id);
        proof {
            if r is Ok {
                assert(self@ =~= (CpuState { heap: old(self)@.heap.after_dealloc(id)->Ok_0, ..old(self)@ }));
            } else {
                assert(self@ =~= old(self)@);
            }
        }
        r
    }

    /// Takes the PC set by the last branch, call or return, if any.
    pub fn take_pending_pc(&mut self) -> (pc: Option<u32>)
        ensures
            pc == old(self)@.pending_pc,
            final(self)@ == old(self)@.with_pending(None),
    {
        let pc = self.pending_pc;
        self.pending_pc = None;
        assert(self@ =~= old(self)@.with_pending(None));
        pc
    }

    /// Sets the PC to continue at.
    pub fn set_pending_pc(&mut self, pc: u32)
        ensures
            final(self)@ == old(self)@.with_pending(Some(pc)),
    {
        self.pending_pc = Some(pc);
        assert(self@ =~= old(self)@.with_pending(Some(pc)));
    }

    /// Forgets the pending PC.
    pub fn clear_pending_pc(&mut self)
        ensures
            final(self)@ == old(self)@.with_pending(None),
    {
        self.pending_pc = None;
        assert(self@ =~= old(self)@.with_pending(None));
    }

    /// The PC of the instruction executing now.
    pub(crate) fn current_pc(&self) -> (pc: u32)
        ensures
            pc == self@.current_pc,
    {
        self.current_pc
    }

    /// Records the PC of the instruction about to execute; calls return to
    /// the instruction after it.
    pub fn set_current_pc(&mut self, pc: u32)
        ensures
            final(self)@ == (CpuState { current_pc: pc, ..old(self)@ }),
    {
        self.current_pc = pc;
        assert(self@ =~= (CpuState { current_pc: pc, ..old(self)@ }));
    }

    /// The values returned by the outermost frame.
    pub fn return_values(&self) -> (v: &[Word])
        ensures
            v@ == self@.return_values,
    {
        self.return_values.as_slice()
    }

    /// Replaces the return values.
    pub fn set_return_values(&mut self, values: Vec<Word>)
        ensures
            final(self)@ == (CpuState { return_values: values@, ..old(self)@ }),
    {
        self.return_values = values;
        assert(self@ =~= (CpuState { return_values: values@, ..old(self)@ }));
    }

    /// Calls the function at `target` with the top `arity` operands as
    /// arguments and `local_count` local slots, as a `Call` instruction does.
    pub fn op_call(&mut self, arity: u32, target: u32, local_count: u32) -> (r: Result<StepOutcome, CpuError>)
        requires
            old(self)@.wf(),
            old(self)@.current_pc < u32::MAX,
        ensures
            final(self)@ == old(self)@.step(
                Op::Call(arity, target),
                MessageKind::FunctionInfo { arity, start_address: target, local_count },
                0,
            ).0,
            r == old(self)@.step(
                Op::Call(arity, target),
                MessageKind::FunctionInfo { arity, start_address: target, local_count },
                0,
            ).1,
            final(self)@.wf(),
    {
        self.pending_pc = None;
        assert(self@ =~= old(self)@.with_pending(None));
        self.exec_call(arity, target, local_count, None)
    }

    /// Pushes a constant word, as a `Const` instruction does.
    pub fn op_const(&mut self, value: Word) -> (r: Result<StepOutcome, CpuError>)
        requires
            old(self)@.wf(),
        ensures
            final(self)@ == old(self)@.step(Op::Const(value), MessageKind::Empty, 0).0,
            r == old(self)@.step(Op::Const(value), MessageKind::Empty, 0).1,
            final(self)@.wf(),
    {
        self.pending_pc = None;
        self.stack.push(value);
        assert(self@ =~= old(self)@.step(Op::Const(value), MessageKind::Empty, 0).0);
        Ok(StepOutcome::Continue)
    }
}

impl Default for CPU {
    fn default() -> (cpu: CPU)
        ensures
            cpu@ == CpuState::initial(),
    {
        CPU::new()
    }
}

/// Components whose state can be returned to its initial value.
pub trait Reset {
    /// Resets the component state to its initial state.
    fn reset(&mut self);
}

impl Reset for CPU {
    fn reset(&mut self)
        ensures
            final(self)@ == CpuState::initial(),
    {
        CPU::reset(self)
    }
}

} // verus!
