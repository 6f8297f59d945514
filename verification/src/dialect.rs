//! The CPU's instruction set, one type per instruction.
//!
//! Each type carries the operands of its instruction in runtime form: local
//! indices, branch targets and call arities as `u32`, constants as words.
use vstd::prelude::*;
use crate::word::Word;

verus! {

#[derive(Debug, Clone, Copy, PartialEq, Eq)]
pub struct Span(pub u32, pub u32, pub u32);

#[derive(Debug, Clone, Copy, PartialEq, Eq)]
pub struct Label(pub u32);

#[derive(Debug, Clone, Copy, PartialEq, Eq)]
pub struct FunctionStart;

#[derive(Debug, Clone, Copy, PartialEq, Eq)]
pub struct FunctionEnd;

#[derive(Debug, Clone, Copy, PartialEq, Eq)]
pub struct Breakpoint;

#[derive(Debug, Clone, Copy, PartialEq, Eq)]
pub struct Branch(pub u32);

#[derive(Debug, Clone, Copy, PartialEq, Eq)]
pub struct ConditionalBranch(pub u32, pub u32);

#[derive(Debug, Clone, Copy, PartialEq, Eq)]
pub struct Return(pub u32);

#[derive(Debug, Clone, Copy, PartialEq, Eq)]
pub struct IndirectCall;

#[derive(Debug, Clone, Copy, PartialEq, Eq)]
pub struct Call(pub u32, pub u32);

#[derive(Debug, Clone, Copy, PartialEq, Eq)]
pub struct Halt;

#[derive(Debug, Clone, Copy, PartialEq, Eq)]
pub struct Print;

#[derive(Debug, Clone, Copy, PartialEq, Eq)]
pub struct LoadI32(pub u32);

#[derive(Debug, Clone, Copy, PartialEq, Eq)]
pub struct LoadI64(pub u32);

#[derive(Debug, Clone, Copy, PartialEq, Eq)]
pub struct LoadU32(pub u32);

#[derive(Debug, Clone, Copy, PartialEq, Eq)]
pub struct LoadU64(pub u32);

#[derive(Debug, Clone, Copy, PartialEq, Eq)]
pub struct LoadF32(pub u32);

#[derive(Debug, Clone, Copy, PartialEq, Eq)]
pub struct LoadF64(pub u32);

#[derive(Debug, Clone, Copy, PartialEq, Eq)]
pub struct LoadBool(pub u32);

#[derive(Debug, Clone, Copy, PartialEq, Eq)]
pub struct StoreI32(pub u32);

#[derive(Debug, Clone, Copy, PartialEq, Eq)]
pub struct StoreI64(pub u32);

#[derive(Debug, Clone, Copy, PartialEq, Eq)]
pub struct StoreU32(pub u32);

#[derive(Debug, Clone, Copy, PartialEq, Eq)]
pub struct StoreU64(pub u32);

#[derive(Debug, Clone, Copy, PartialEq, Eq)]
pub struct StoreF32(pub u32);

#[derive(Debug, Clone, Copy, PartialEq, Eq)]
pub struct StoreF64(pub u32);

#[derive(Debug, Clone, Copy, PartialEq, Eq)]
pub struct StoreBool(pub u32);

#[derive(Debug, Clone, Copy, PartialEq, Eq)]
pub struct Dup;

#[derive(Debug, Clone, Copy, PartialEq, Eq)]
pub struct HeapAlloc(pub u32);

#[derive(Debug, Clone, Copy, PartialEq, Eq)]
pub struct GetItem;

#[derive(Debug, Clone, Copy, PartialEq, Eq)]
pub struct HeapDealloc;

#[derive(Debug, Clone, Copy, PartialEq, Eq)]
pub struct ConstI32(pub Word);

#[derive(Debug, Clone, Copy, PartialEq, Eq)]
pub struct ConstI64(pub Word);

#[derive(Debug, Clone, Copy, PartialEq, Eq)]
pub struct ConstU32(pub Word);

#[derive(Debug, Clone, Copy, PartialEq, Eq)]
pub struct ConstU64(pub Word);

#[derive(Debug, Clone, Copy, PartialEq, Eq)]
pub struct ConstF32(pub Word);

#[derive(Debug, Clone, Copy, PartialEq, Eq)]
pub struct ConstF64(pub Word);

#[derive(Debug, Clone, Copy, PartialEq, Eq)]
pub struct ConstBool(pub Word);

#[derive(Debug, Clone, Copy, PartialEq, Eq)]
pub struct ConstString(pub Word);

#[derive(Debug, Clone, Copy, PartialEq, Eq)]
pub struct ConstFunctionRef(pub Word);

#[derive(Debug, Clone, Copy, PartialEq, Eq)]
pub struct ConstHeapRef(pub Word);

#[derive(Debug, Clone, Copy, PartialEq, Eq)]
pub struct AddI32;

#[derive(Debug, Clone, Copy, PartialEq, Eq)]
pub struct AddF32;

#[derive(Debug, Clone, Copy, PartialEq, Eq)]
pub struct AddI64;

#[derive(Debug, Clone, Copy, PartialEq, Eq)]
pub struct AddU32;

#[derive(Debug, Clone, Copy, PartialEq, Eq)]
pub struct AddU64;

#[derive(Debug, Clone, Copy, PartialEq, Eq)]
pub struct AddF64;

#[derive(Debug, Clone, Copy, PartialEq, Eq)]
pub struct SubI32;

#[derive(Debug, Clone, Copy, PartialEq, Eq)]
pub struct SubI64;

#[derive(Debug, Clone, Copy, PartialEq, Eq)]
pub struct SubU32;

#[derive(Debug, Clone, Copy, PartialEq, Eq)]
pub struct SubU64;

#[derive(Debug, Clone, Copy, PartialEq, Eq)]
pub struct SubF32;

#[derive(Debug, Clone, Copy, PartialEq, Eq)]
pub struct SubF64;

#[derive(Debug, Clone, Copy, PartialEq, Eq)]
pub struct MulI32;

#[derive(Debug, Clone, Copy, PartialEq, Eq)]
pub struct MulI64;

#[derive(Debug, Clone, Copy, PartialEq, Eq)]
pub struct MulU32;

#[derive(Debug, Clone, Copy, PartialEq, Eq)]
pub struct MulU64;

#[derive(Debug, Clone, Copy, PartialEq, Eq)]
pub struct MulF32;

#[derive(Debug, Clone, Copy, PartialEq, Eq)]
pub struct MulF64;

#[derive(Debug, Clone, Copy, PartialEq, Eq)]
pub struct DivI32;

#[derive(Debug, Clone, Copy, PartialEq, Eq)]
pub struct DivI64;

#[derive(Debug, Clone, Copy, PartialEq, Eq)]
pub struct DivU32;

#[derive(Debug, Clone, Copy, PartialEq, Eq)]
pub struct DivU64;

#[derive(Debug, Clone, Copy, PartialEq, Eq)]
pub struct DivF32;

#[derive(Debug, Clone, Copy, PartialEq, Eq)]
pub struct DivF64;

#[derive(Debug, Clone, Copy, PartialEq, Eq)]
pub struct RemI32;

#[derive(Debug, Clone, Copy, PartialEq, Eq)]
pub struct RemI64;

#[derive(Debug, Clone, Copy, PartialEq, Eq)]
pub struct RemU32;

#[derive(Debug, Clone, Copy, PartialEq, Eq)]
pub struct RemU64;

#[derive(Debug, Clone, Copy, PartialEq, Eq)]
pub struct RemF32;

#[derive(Debug, Clone, Copy, PartialEq, Eq)]
pub struct RemF64;

#[derive(Debug, Clone, Copy, PartialEq, Eq)]
pub struct NegI32;

#[derive(Debug, Clone, Copy, PartialEq, Eq)]
pub struct NegI64;

#[derive(Debug, Clone, Copy, PartialEq, Eq)]
pub struct NegF32;

#[derive(Debug, Clone, Copy, PartialEq, Eq)]
pub struct NegF64;

#[derive(Debug, Clone, Copy, PartialEq, Eq)]
pub struct ShlI32;

#[derive(Debug, Clone, Copy, PartialEq, Eq)]
pub struct ShlI64;

#[derive(Debug, Clone, Copy, PartialEq, Eq)]
pub struct ShlU32;

#[derive(Debug, Clone, Copy, PartialEq, Eq)]
pub struct ShlU64;

#[derive(Debug, Clone, Copy, PartialEq, Eq)]
pub struct ShrI32;

#[derive(Debug, Clone, Copy, PartialEq, Eq)]
pub struct ShrI64;

#[derive(Debug, Clone, Copy, PartialEq, Eq)]
pub struct ShrU32;

#[derive(Debug, Clone, Copy, PartialEq, Eq)]
pub struct ShrU64;

#[derive(Debug, Clone, Copy, PartialEq, Eq)]
pub struct RolI32;

#[derive(Debug, Clone, Copy, PartialEq, Eq)]
pub struct RolI64;

#[derive(Debug, Clone, Copy, PartialEq, Eq)]
pub struct RolU32;

#[derive(Debug, Clone, Copy, PartialEq, Eq)]
pub struct RolU64;

#[derive(Debug, Clone, Copy, PartialEq, Eq)]
pub struct RorI32;

#[derive(Debug, Clone, Copy, PartialEq, Eq)]
pub struct RorI64;

#[derive(Debug, Clone, Copy, PartialEq, Eq)]
pub struct RorU32;

#[derive(Debug, Clone, Copy, PartialEq, Eq)]
pub struct RorU64;

#[derive(Debug, Clone, Copy, PartialEq, Eq)]
pub struct BitAndI32;

#[derive(Debug, Clone, Copy, PartialEq, Eq)]
pub struct BitAndI64;

#[derive(Debug, Clone, Copy, PartialEq, Eq)]
pub struct BitAndU32;

#[derive(Debug, Clone, Copy, PartialEq, Eq)]
pub struct BitAndU64;

#[derive(Debug, Clone, Copy, PartialEq, Eq)]
pub struct BitOrI32;

#[derive(Debug, Clone, Copy, PartialEq, Eq)]
pub struct BitOrI64;

#[derive(Debug, Clone, Copy, PartialEq, Eq)]
pub struct BitOrU32;

#[derive(Debug, Clone, Copy, PartialEq, Eq)]
pub struct BitOrU64;

#[derive(Debug, Clone, Copy, PartialEq, Eq)]
pub struct BitXorI32;

#[derive(Debug, Clone, Copy, PartialEq, Eq)]
pub struct BitXorI64;

#[derive(Debug, Clone, Copy, PartialEq, Eq)]
pub struct BitXorU32;

#[derive(Debug, Clone, Copy, PartialEq, Eq)]
pub struct BitXorU64;

#[derive(Debug, Clone, Copy, PartialEq, Eq)]
pub struct Not;

#[derive(Debug, Clone, Copy, PartialEq, Eq)]
pub struct And;

#[derive(Debug, Clone, Copy, PartialEq, Eq)]
pub struct Or;

#[derive(Debug, Clone, Copy, PartialEq, Eq)]
pub struct Xor;

#[derive(Debug, Clone, Copy, PartialEq, Eq)]
pub struct EqI32;

#[derive(Debug, Clone, Copy, PartialEq, Eq)]
pub struct EqI64;

#[derive(Debug, Clone, Copy, PartialEq, Eq)]
pub struct EqU32;

#[derive(Debug, Clone, Copy, PartialEq, Eq)]
pub struct EqU64;

#[derive(Debug, Clone, Copy, PartialEq, Eq)]
pub struct EqF32;

#[derive(Debug, Clone, Copy, PartialEq, Eq)]
pub struct EqF64;

#[derive(Debug, Clone, Copy, PartialEq, Eq)]
pub struct NeI32;

#[derive(Debug, Clone, Copy, PartialEq, Eq)]
pub struct NeI64;

#[derive(Debug, Clone, Copy, PartialEq, Eq)]
pub struct NeU32;

#[derive(Debug, Clone, Copy, PartialEq, Eq)]
pub struct NeU64;

#[derive(Debug, Clone, Copy, PartialEq, Eq)]
pub struct NeF32;

#[derive(Debug, Clone, Copy, PartialEq, Eq)]
pub struct NeF64;

#[derive(Debug, Clone, Copy, PartialEq, Eq)]
pub struct LtI32;

#[derive(Debug, Clone, Copy, PartialEq, Eq)]
pub struct LtI64;

#[derive(Debug, Clone, Copy, PartialEq, Eq)]
pub struct LtU32;

#[derive(Debug, Clone, Copy, PartialEq, Eq)]
pub struct LtU64;

#[derive(Debug, Clone, Copy, PartialEq, Eq)]
pub struct LtF32;

#[derive(Debug, Clone, Copy, PartialEq, Eq)]
pub struct LtF64;

#[derive(Debug, Clone, Copy, PartialEq, Eq)]
pub struct GtI32;

#[derive(Debug, Clone, Copy, PartialEq, Eq)]
pub struct GtI64;

#[derive(Debug, Clone, Copy, PartialEq, Eq)]
pub struct GtU32;

#[derive(Debug, Clone, Copy, PartialEq, Eq)]
pub struct GtU64;

#[derive(Debug, Clone, Copy, PartialEq, Eq)]
pub struct GtF32;

#[derive(Debug, Clone, Copy, PartialEq, Eq)]
pub struct GtF64;

#[derive(Debug, Clone, Copy, PartialEq, Eq)]
pub struct LeI32;

#[derive(Debug, Clone, Copy, PartialEq, Eq)]
pub struct LeI64;

#[derive(Debug, Clone, Copy, PartialEq, Eq)]
pub struct LeU32;

#[derive(Debug, Clone, Copy, PartialEq, Eq)]
pub struct LeU64;

#[derive(Debug, Clone, Copy, PartialEq, Eq)]
pub struct LeF32;

#[derive(Debug, Clone, Copy, PartialEq, Eq)]
pub struct LeF64;

#[derive(Debug, Clone, Copy, PartialEq, Eq)]
pub struct GeI32;

#[derive(Debug, Clone, Copy, PartialEq, Eq)]
pub struct GeI64;

#[derive(Debug, Clone, Copy, PartialEq, Eq)]
pub struct GeU32;

#[derive(Debug, Clone, Copy, PartialEq, Eq)]
pub struct GeU64;

#[derive(Debug, Clone, Copy, PartialEq, Eq)]
pub struct GeF32;

#[derive(Debug, Clone, Copy, PartialEq, Eq)]
pub struct GeF64;

} // verus!
