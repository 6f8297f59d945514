//! The encoded width and opcode of instruction operands.
use vstd::prelude::*;

verus! {

/// A value that can stand in an encoded instruction: the number of bytes
/// it takes and the opcode it carries. Scalars carry opcode 0.
pub trait OpCode {
    fn width() -> u32;

    fn opcode(&self) -> u8;
}

/// An instruction: a sized value with an encoded width and an opcode.
/// Every such type is one.
pub trait Instruction: Sized + OpCode {}

impl<T: Sized + OpCode> Instruction for T {}

impl OpCode for i32 {
    fn width() -> (w: u32)
        ensures
            w == 4,
    {
        4
    }

    fn opcode(&self) -> (c: u8)
        ensures
            c == 0,
    {
        0
    }
}

impl OpCode for u32 {
    fn width() -> (w: u32)
        ensures
            w == 4,
    {
        4
    }

    fn opcode(&self) -> (c: u8)
        ensures
            c == 0,
    {
        0
    }
}

impl OpCode for u64 {
    fn width() -> (w: u32)
        ensures
            w == 8,
    {
        8
    }

    fn opcode(&self) -> (c: u8)
        ensures
            c == 0,
    {
        0
    }
}

impl OpCode for i64 {
    fn width() -> (w: u32)
        ensures
            w == 8,
    {
        8
    }

    fn opcode(&self) -> (c: u8)
        ensures
            c == 0,
    {
        0
    }
}

impl OpCode for bool {
    fn width() -> (w: u32)
        ensures
            w == 1,
    {
        1
    }

    fn opcode(&self) -> (c: u8)
        ensures
            c == 0,
    {
        0
    }
}

impl OpCode for () {
    fn width() -> (w: u32)
        ensures
            w == 0,
    {
        0
    }

    fn opcode(&self) -> (c: u8)
        ensures
            c == 0,
    {
        0
    }
}

} // verus!
