//! Call frames of the word CPU.
use vstd::prelude::*;

verus! {

/// One activation record on the CPU's frame stack.
///
/// The frame owns the stack slots `base .. base + local_count` (its parameters
/// first, then its other locals); the operands it pushes live above them.
#[derive(Debug, Clone, Copy, PartialEq, Eq)]
pub struct Frame {
    /// Index of the frame's first slot on the value stack.
    pub base: usize,
    /// Number of reserved local slots, including parameters.
    pub local_count: usize,
    /// Source information (file, start, end).
    pub span: (u32, u32, u32),
    /// Function index in the function table, if the frame belongs to a
    /// function called by reference.
    pub function: Option<usize>,
    /// The PC to return to after this frame completes.
    pub ret_pc: u32,
}

impl Frame {
    /// Absolute index of the first operand, immediately after the locals.
    pub open spec fn operands_start(self) -> int {
        self.base + self.local_count
    }

    /// Absolute index of the first operand, immediately after the locals.
    pub fn operands_index(&self) -> (index: usize)
        requires
            self.base + self.local_count <= usize::MAX,
        ensures
            index == self.operands_start(),
    {
        self.base + self.local_count
    }
}

} // verus!
