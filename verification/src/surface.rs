//! The textual (surface) form of CPU instructions, and the analysis of
//! function bodies written in it.
use vstd::prelude::*;
use crate::syntax::{BareToken, Ident, QuotedString};

verus! {

/// The value types of the textual syntax.
#[derive(Debug, Clone, Copy, PartialEq, Eq, Structural)]
pub enum SurfaceType {
    Undefined,
    String,
    Bool,
    I64,
    I32,
    U32,
    U64,
    F64,
    F32,
    FunctionRef,
    HeapRef,
}

/// A constant operand as written: a quoted string or a bare token whose
/// meaning a resolver decides.
#[derive(Debug, Clone, PartialEq, Eq)]
pub enum SurfaceValue {
    Quoted(QuotedString),
    Bare(BareToken),
}

/// A CPU instruction as written in source: branch targets and called
/// functions are names, constants are unresolved values.
#[derive(Debug, Clone, PartialEq, Eq)]
pub enum SurfaceInstruction {
    Span(u32, u32, u32),
    Label(Ident),
    FunctionStart,
    FunctionEnd,
    Breakpoint,
    Branch(Ident),
    ConditionalBranch(Ident, Ident),
    Return(u32),
    IndirectCall,
    Call(u32, Ident),
    Halt,
    Print,
    LoadI32(u32),
    LoadI64(u32),
    LoadU32(u32),
    LoadU64(u32),
    LoadF32(u32),
    LoadF64(u32),
    LoadBool(u32),
    StoreI32(u32),
    StoreI64(u32),
    StoreU32(u32),
    StoreU64(u32),
    StoreF32(u32),
    StoreF64(u32),
    StoreBool(u32),
    Dup,
    HeapAlloc(u32),
    GetItem,
    HeapDealloc,
    ConstI32(SurfaceValue),
    ConstI64(SurfaceValue),
    ConstU32(SurfaceValue),
    ConstU64(SurfaceValue),
    ConstF32(SurfaceValue),
    ConstF64(SurfaceValue),
    ConstBool(SurfaceValue),
    ConstString(SurfaceValue),
    ConstFunctionRef(SurfaceValue),
    ConstHeapRef(SurfaceValue),
    AddI32,
    AddF32,
    AddI64,
    AddU32,
    AddU64,
    AddF64,
    SubI32,
    SubI64,
    SubU32,
    SubU64,
    SubF32,
    SubF64,
    MulI32,
    MulI64,
    MulU32,
    MulU64,
    MulF32,
    MulF64,
    DivI32,
    DivI64,
    DivU32,
    DivU64,
    DivF32,
    DivF64,
    RemI32,
    RemI64,
    RemU32,
    RemU64,
    RemF32,
    RemF64,
    NegI32,
    NegI64,
    NegF32,
    NegF64,
    ShlI32,
    ShlI64,
    ShlU32,
    ShlU64,
    ShrI32,
    ShrI64,
    ShrU32,
    ShrU64,
    RolI32,
    RolI64,
    RolU32,
    RolU64,
    RorI32,
    RorI64,
    RorU32,
    RorU64,
    BitAndI32,
    BitAndI64,
    BitAndU32,
    BitAndU64,
    BitOrI32,
    BitOrI64,
    BitOrU32,
    BitOrU64,
    BitXorI32,
    BitXorI64,
    BitXorU32,
    BitXorU64,
    Not,
    And,
    Or,
    Xor,
    EqI32,
    EqI64,
    EqU32,
    EqU64,
    EqF32,
    EqF64,
    NeI32,
    NeI64,
    NeU32,
    NeU64,
    NeF32,
    NeF64,
    LtI32,
    LtI64,
    LtU32,
    LtU64,
    LtF32,
    LtF64,
    GtI32,
    GtI64,
    GtU32,
    GtU64,
    GtF32,
    GtF64,
    LeI32,
    LeI64,
    LeU32,
    LeU64,
    LeF32,
    LeF64,
    GeI32,
    GeI64,
    GeU32,
    GeU64,
    GeF32,
    GeF64,
}

impl SurfaceInstruction {
    /// The local slot a load or store instruction names.
    pub open spec fn local_index(&self) -> Option<u32> {
        match self {
            SurfaceInstruction::LoadI32(i) => Some(*i),
            SurfaceInstruction::LoadI64(i) => Some(*i),
            SurfaceInstruction::LoadU32(i) => Some(*i),
            SurfaceInstruction::LoadU64(i) => Some(*i),
            SurfaceInstruction::LoadF32(i) => Some(*i),
            SurfaceInstruction::LoadF64(i) => Some(*i),
            SurfaceInstruction::LoadBool(i) => Some(*i),
            SurfaceInstruction::StoreI32(i) => Some(*i),
            SurfaceInstruction::StoreI64(i) => Some(*i),
            SurfaceInstruction::StoreU32(i) => Some(*i),
            SurfaceInstruction::StoreU64(i) => Some(*i),
            SurfaceInstruction::StoreF32(i) => Some(*i),
            SurfaceInstruction::StoreF64(i) => Some(*i),
            SurfaceInstruction::StoreBool(i) => Some(*i),
            _ => None,
        }
    }

    /// The local slot a load or store instruction names.
    pub fn referenced_local(&self) -> (r: Option<u32>)
        ensures
            r == self.local_index(),
    {
        match self {
            SurfaceInstruction::LoadI32(i) => Some(*i),
            SurfaceInstruction::LoadI64(i) => Some(*i),
            SurfaceInstruction::LoadU32(i) => Some(*i),
            SurfaceInstruction::LoadU64(i) => Some(*i),
            SurfaceInstruction::LoadF32(i) => Some(*i),
            SurfaceInstruction::LoadF64(i) => Some(*i),
            SurfaceInstruction::LoadBool(i) => Some(*i),
            SurfaceInstruction::StoreI32(i) => Some(*i),
            SurfaceInstruction::StoreI64(i) => Some(*i),
            SurfaceInstruction::StoreU32(i) => Some(*i),
            SurfaceInstruction::StoreU64(i) => Some(*i),
            SurfaceInstruction::StoreF32(i) => Some(*i),
            SurfaceInstruction::StoreF64(i) => Some(*i),
            SurfaceInstruction::StoreBool(i) => Some(*i),
            _ => None,
        }
    }
}

/// A borrowed instruction routed to the device with code `DEVICE_CODE` in
/// its composite.
#[derive(Debug, Clone, Copy, PartialEq, Eq)]
pub struct DeviceInstruction<'a, I, const DEVICE_CODE: u8> {
    pub instruction: &'a I,
}

/// Why a local slot count cannot be computed.
#[derive(Debug, Clone, Copy, PartialEq, Eq, Structural)]
pub enum LocalCountError {
    /// A load or store names local `u32::MAX`, so the count would not fit.
    IndexTooLarge(u32),
}

/// The local slot index that entry `k` of a routed body references, if any.
pub open spec fn routed_index<'a, const D: u8>(
    body: Seq<Option<DeviceInstruction<'a, SurfaceInstruction, D>>>,
    k: int,
) -> Option<u32> {
    match body[k] {
        Some(d) => d.instruction.local_index(),
        None => None,
    }
}

/// The number of local slots a function body needs on one CPU device: its
/// `arity` parameters and every slot a load or store of that device names,
/// reachable or not. Entries routed to other devices are `None`.
pub fn required_local_count<'a, const DEVICE_CODE: u8>(
    arity: u32,
    instructions: &[Option<DeviceInstruction<'a, SurfaceInstruction, DEVICE_CODE>>],
) -> (r: Result<u32, LocalCountError>)
    ensures
        r is Err <==> exists|k: int|
            0 <= k < instructions@.len() && routed_index(instructions@, k) == Some(u32::MAX),
        r matches Ok(n) ==> {
            &&& arity <= n
            &&& forall|k: int|
                0 <= k < instructions@.len() && #[trigger] routed_index(instructions@, k) is Some
                    ==> routed_index(instructions@, k)->0 < n
            &&& n == arity || exists|k: int|
                0 <= k < instructions@.len() && routed_index(instructions@, k) == Some(
                    (n - 1) as u32,
                )
        },
{
    let mut count = arity;
    let mut k: usize = 0;
    while k < instructions.len()
        invariant
            0 <= k <= instructions@.len(),
            arity <= count,
            forall|j: int|
                0 <= j < k ==> routed_index(instructions@, j) != Some(u32::MAX),
            forall|j: int|
                0 <= j < k && #[trigger] routed_index(instructions@, j) is Some
                    ==> routed_index(instructions@, j)->0 < count,
            count == arity || exists|j: int|
                0 <= j < k && routed_index(instructions@, j) == Some((count - 1) as u32),
        decreases instructions@.len() - k,
    {
        let index = match &instructions[k] {
            Some(d) => d.instruction.referenced_local(),
            None => None,
        };
        assert(index == routed_index(instructions@, k as int));
        if let Some(i) = index {
            if i == u32::MAX {
                return Err(LocalCountError::IndexTooLarge(i));
            }
            if i + 1 > count {
                count = i + 1;
                assert(routed_index(instructions@, k as int) == Some((count - 1) as u32));
            }
        }
        k += 1;
    }
    Ok(count)
}

} // verus!
