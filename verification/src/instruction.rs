//! The CPU's runtime instruction enum and the compact operation each
//! instruction performs.
use vstd::prelude::*;
use crate::word::Word;
use crate::syntax::Ident;

verus! {

/// The outcome of one executed instruction.
#[derive(Debug, Clone, Copy, PartialEq, Eq, Structural)]
pub enum StepOutcome {
    /// Continue with the pending PC if one was set, else the next instruction.
    Continue,
    /// A breakpoint was reached.
    Breakpoint,
    /// The outermost frame returned; its values are the CPU's return values.
    Return,
    /// Continue at the given PC.
    JumpTo(u32),
    /// The program halted.
    Halt,
}

/// The integer operand widths and signedness of the typed instructions.
#[derive(Debug, Clone, Copy, PartialEq, Eq, Structural)]
pub enum IntKind {
    I32,
    I64,
    U32,
    U64,
}

/// The binary integer operations.
#[derive(Debug, Clone, Copy, PartialEq, Eq, Structural)]
pub enum IntOp {
    Add,
    Sub,
    Mul,
    Div,
    Rem,
    Shl,
    Shr,
    Rol,
    Ror,
    BitAnd,
    BitOr,
    BitXor,
    Eq,
    Ne,
    Lt,
    Gt,
    Le,
    Ge,
}

/// The floating-point operations; each names its operand width. `NegF32` and
/// `NegF64` take one operand, the others two.
#[derive(Debug, Clone, Copy, PartialEq, Eq, Structural)]
pub enum FloatOp {
    AddF32,
    AddF64,
    SubF32,
    SubF64,
    MulF32,
    MulF64,
    DivF32,
    DivF64,
    RemF32,
    RemF64,
    EqF32,
    EqF64,
    NeF32,
    NeF64,
    LtF32,
    LtF64,
    GtF32,
    GtF64,
    LeF32,
    LeF64,
    GeF32,
    GeF64,
    NegF32,
    NegF64,
}

/// What an instruction does to the machine, with its operands.
#[derive(Debug, Clone, Copy, PartialEq, Eq, Structural)]
pub enum Op {
    /// Labels and function markers do nothing.
    Nop,
    SetSpan(u32, u32, u32),
    Breakpoint,
    Branch(u32),
    CondBranch(u32, u32),
    Return(u32),
    IndirectCall,
    Call(u32, u32),
    Halt,
    Print,
    Load(u32),
    Store(u32),
    Dup,
    HeapAlloc(u32),
    GetItem,
    HeapDealloc,
    Const(Word),
    Int(IntOp, IntKind),
    IntNeg(IntKind),
    BoolNot,
    BoolAnd,
    BoolOr,
    BoolXor,
    FloatBinary(FloatOp),
    FloatUnary(FloatOp),
}

/// The CPU's executable instructions.
#[derive(Debug, Clone, PartialEq, Eq)]
pub enum RuntimeInstruction {
    Span(u32, u32, u32),
    Label(Ident),
    FunctionStart,
    FunctionEnd,
    Breakpoint,
    Branch(u32),
    ConditionalBranch(u32, u32),
    Return(u32),
    IndirectCall,
    Call(u32, u32),
    Halt,
    Print,
    LoadI32(u32),
    LoadI64(u32),
    LoadU32(u32),
    LoadU64(u32),
    LoadF32(u32),
    LoadF64(u32),
    LoadBool(u32),
    StoreI32(u32),
    StoreI64(u32),
    StoreU32(u32),
    StoreU64(u32),
    StoreF32(u32),
    StoreF64(u32),
    StoreBool(u32),
    Dup,
    HeapAlloc(u32),
    GetItem,
    HeapDealloc,
    ConstI32(Word),
    ConstI64(Word),
    ConstU32(Word),
    ConstU64(Word),
    ConstF32(Word),
    ConstF64(Word),
    ConstBool(Word),
    ConstString(Word),
    ConstFunctionRef(Word),
    ConstHeapRef(Word),
    AddI32,
    AddF32,
    AddI64,
    AddU32,
    AddU64,
    AddF64,
    SubI32,
    SubI64,
    SubU32,
    SubU64,
    SubF32,
    SubF64,
    MulI32,
    MulI64,
    MulU32,
    MulU64,
    MulF32,
    MulF64,
    DivI32,
    DivI64,
    DivU32,
    DivU64,
    DivF32,
    DivF64,
    RemI32,
    RemI64,
    RemU32,
    RemU64,
    RemF32,
    RemF64,
    NegI32,
    NegI64,
    NegF32,
    NegF64,
    ShlI32,
    ShlI64,
    ShlU32,
    ShlU64,
    ShrI32,
    ShrI64,
    ShrU32,
    ShrU64,
    RolI32,
    RolI64,
    RolU32,
    RolU64,
    RorI32,
    RorI64,
    RorU32,
    RorU64,
    BitAndI32,
    BitAndI64,
    BitAndU32,
    BitAndU64,
    BitOrI32,
    BitOrI64,
    BitOrU32,
    BitOrU64,
    BitXorI32,
    BitXorI64,
    BitXorU32,
    BitXorU64,
    Not,
    And,
    Or,
    Xor,
    EqI32,
    EqI64,
    EqU32,
    EqU64,
    EqF32,
    EqF64,
    NeI32,
    NeI64,
    NeU32,
    NeU64,
    NeF32,
    NeF64,
    LtI32,
    LtI64,
    LtU32,
    LtU64,
    LtF32,
    LtF64,
    GtI32,
    GtI64,
    GtU32,
    GtU64,
    GtF32,
    GtF64,
    LeI32,
    LeI64,
    LeU32,
    LeU64,
    LeF32,
    LeF64,
    GeI32,
    GeI64,
    GeU32,
    GeU64,
    GeF32,
    GeF64,
}

impl RuntimeInstruction {
    /// The operation this instruction performs.
    pub open spec fn kind(&self) -> Op {
        match self {
            RuntimeInstruction::Span(a, b, c) => Op::SetSpan(*a, *b, *c),
            RuntimeInstruction::Label(_) => Op::Nop,
            RuntimeInstruction::FunctionStart => Op::Nop,
            RuntimeInstruction::FunctionEnd => Op::Nop,
            RuntimeInstruction::Breakpoint => Op::Breakpoint,
            RuntimeInstruction::Branch(t) => Op::Branch(*t),
            RuntimeInstruction::ConditionalBranch(t, f) => Op::CondBranch(*t, *f),
            RuntimeInstruction::Return(k) => Op::Return(*k),
            RuntimeInstruction::IndirectCall => Op::IndirectCall,
            RuntimeInstruction::Call(a, t) => Op::Call(*a, *t),
            RuntimeInstruction::Halt => Op::Halt,
            RuntimeInstruction::Print => Op::Print,
            RuntimeInstruction::LoadI32(i) => Op::Load(*i),
            RuntimeInstruction::LoadI64(i) => Op::Load(*i),
            RuntimeInstruction::LoadU32(i) => Op::Load(*i),
            RuntimeInstruction::LoadU64(i) => Op::Load(*i),
            RuntimeInstruction::LoadF32(i) => Op::Load(*i),
            RuntimeInstruction::LoadF64(i) => Op::Load(*i),
            RuntimeInstruction::LoadBool(i) => Op::Load(*i),
            RuntimeInstruction::StoreI32(i) => Op::Store(*i),
            RuntimeInstruction::StoreI64(i) => Op::Store(*i),
            RuntimeInstruction::StoreU32(i) => Op::Store(*i),
            RuntimeInstruction::StoreU64(i) => Op::Store(*i),
            RuntimeInstruction::StoreF32(i) => Op::Store(*i),
            RuntimeInstruction::StoreF64(i) => Op::Store(*i),
            RuntimeInstruction::StoreBool(i) => Op::Store(*i),
            RuntimeInstruction::Dup => Op::Dup,
            RuntimeInstruction::HeapAlloc(k) => Op::HeapAlloc(*k),
            RuntimeInstruction::GetItem => Op::GetItem,
            RuntimeInstruction::HeapDealloc => Op::HeapDealloc,
            RuntimeInstruction::ConstI32(w) => Op::Const(*w),
            RuntimeInstruction::ConstI64(w) => Op::Const(*w),
            RuntimeInstruction::ConstU32(w) => Op::Const(*w),
            RuntimeInstruction::ConstU64(w) => Op::Const(*w),
            RuntimeInstruction::ConstF32(w) => Op::Const(*w),
            RuntimeInstruction::ConstF64(w) => Op::Const(*w),
            RuntimeInstruction::ConstBool(w) => Op::Const(*w),
            RuntimeInstruction::ConstString(w) => Op::Const(*w),
            RuntimeInstruction::ConstFunctionRef(w) => Op::Const(*w),
            RuntimeInstruction::ConstHeapRef(w) => Op::Const(*w),
            RuntimeInstruction::AddI32 => Op::Int(IntOp::Add, IntKind::I32),
            RuntimeInstruction::AddF32 => Op::FloatBinary(FloatOp::AddF32),
            RuntimeInstruction::AddI64 => Op::Int(IntOp::Add, IntKind::I64),
            RuntimeInstruction::AddU32 => Op::Int(IntOp::Add, IntKind::U32),
            RuntimeInstruction::AddU64 => Op::Int(IntOp::Add, IntKind::U64),
            RuntimeInstruction::AddF64 => Op::FloatBinary(FloatOp::AddF64),
            RuntimeInstruction::SubI32 => Op::Int(IntOp::Sub, IntKind::I32),
            RuntimeInstruction::SubI64 => Op::Int(IntOp::Sub, IntKind::I64),
            RuntimeInstruction::SubU32 => Op::Int(IntOp::Sub, IntKind::U32),
            RuntimeInstruction::SubU64 => Op::Int(IntOp::Sub, IntKind::U64),
            RuntimeInstruction::SubF32 => Op::FloatBinary(FloatOp::SubF32),
            RuntimeInstruction::SubF64 => Op::FloatBinary(FloatOp::SubF64),
            RuntimeInstruction::MulI32 => Op::Int(IntOp::Mul, IntKind::I32),
            RuntimeInstruction::MulI64 => Op::Int(IntOp::Mul, IntKind::I64),
            RuntimeInstruction::MulU32 => Op::Int(IntOp::Mul, IntKind::U32),
            RuntimeInstruction::MulU64 => Op::Int(IntOp::Mul, IntKind::U64),
            RuntimeInstruction::MulF32 => Op::FloatBinary(FloatOp::MulF32),
            RuntimeInstruction::MulF64 => Op::FloatBinary(FloatOp::MulF64),
            RuntimeInstruction::DivI32 => Op::Int(IntOp::Div, IntKind::I32),
            RuntimeInstruction::DivI64 => Op::Int(IntOp::Div, IntKind::I64),
            RuntimeInstruction::DivU32 => Op::Int(IntOp::Div, IntKind::U32),
            RuntimeInstruction::DivU64 => Op::Int(IntOp::Div, IntKind::U64),
            RuntimeInstruction::DivF32 => Op::FloatBinary(FloatOp::DivF32),
            RuntimeInstruction::DivF64 => Op::FloatBinary(FloatOp::DivF64),
            RuntimeInstruction::RemI32 => Op::Int(IntOp::Rem, IntKind::I32),
            RuntimeInstruction::RemI64 => Op::Int(IntOp::Rem, IntKind::I64),
            RuntimeInstruction::RemU32 => Op::Int(IntOp::Rem, IntKind::U32),
            RuntimeInstruction::RemU64 => Op::Int(IntOp::Rem, IntKind::U64),
            RuntimeInstruction::RemF32 => Op::FloatBinary(FloatOp::RemF32),
            RuntimeInstruction::RemF64 => Op::FloatBinary(FloatOp::RemF64),
            RuntimeInstruction::NegI32 => Op::IntNeg(IntKind::I32),
            RuntimeInstruction::NegI64 => Op::IntNeg(IntKind::I64),
            RuntimeInstruction::NegF32 => Op::FloatUnary(FloatOp::NegF32),
            RuntimeInstruction::NegF64 => Op::FloatUnary(FloatOp::NegF64),
            RuntimeInstruction::ShlI32 => Op::Int(IntOp::Shl, IntKind::I32),
            RuntimeInstruction::ShlI64 => Op::Int(IntOp::Shl, IntKind::I64),
            RuntimeInstruction::ShlU32 => Op::Int(IntOp::Shl, IntKind::U32),
            RuntimeInstruction::ShlU64 => Op::Int(IntOp::Shl, IntKind::U64),
            RuntimeInstruction::ShrI32 => Op::Int(IntOp::Shr, IntKind::I32),
            RuntimeInstruction::ShrI64 => Op::Int(IntOp::Shr, IntKind::I64),
            RuntimeInstruction::ShrU32 => Op::Int(IntOp::Shr, IntKind::U32),
            RuntimeInstruction::ShrU64 => Op::Int(IntOp::Shr, IntKind::U64),
            RuntimeInstruction::RolI32 => Op::Int(IntOp::Rol, IntKind::I32),
            RuntimeInstruction::RolI64 => Op::Int(IntOp::Rol, IntKind::I64),
            RuntimeInstruction::RolU32 => Op::Int(IntOp::Rol, IntKind::U32),
            RuntimeInstruction::RolU64 => Op::Int(IntOp::Rol, IntKind::U64),
            RuntimeInstruction::RorI32 => Op::Int(IntOp::Ror, IntKind::I32),
            RuntimeInstruction::RorI64 => Op::Int(IntOp::Ror, IntKind::I64),
            RuntimeInstruction::RorU32 => Op::Int(IntOp::Ror, IntKind::U32),
            RuntimeInstruction::RorU64 => Op::Int(IntOp::Ror, IntKind::U64),
            RuntimeInstruction::BitAndI32 => Op::Int(IntOp::BitAnd, IntKind::I32),
            RuntimeInstruction::BitAndI64 => Op::Int(IntOp::BitAnd, IntKind::I64),
            RuntimeInstruction::BitAndU32 => Op::Int(IntOp::BitAnd, IntKind::U32),
            RuntimeInstruction::BitAndU64 => Op::Int(IntOp::BitAnd, IntKind::U64),
            RuntimeInstruction::BitOrI32 => Op::Int(IntOp::BitOr, IntKind::I32),
            RuntimeInstruction::BitOrI64 => Op::Int(IntOp::BitOr, IntKind::I64),
            RuntimeInstruction::BitOrU32 => Op::Int(IntOp::BitOr, IntKind::U32),
            RuntimeInstruction::BitOrU64 => Op::Int(IntOp::BitOr, IntKind::U64),
            RuntimeInstruction::BitXorI32 => Op::Int(IntOp::BitXor, IntKind::I32),
            RuntimeInstruction::BitXorI64 => Op::Int(IntOp::BitXor, IntKind::I64),
            RuntimeInstruction::BitXorU32 => Op::Int(IntOp::BitXor, IntKind::U32),
            RuntimeInstruction::BitXorU64 => Op::Int(IntOp::BitXor, IntKind::U64),
            RuntimeInstruction::Not => Op::BoolNot,
            RuntimeInstruction::And => Op::BoolAnd,
            RuntimeInstruction::Or => Op::BoolOr,
            RuntimeInstruction::Xor => Op::BoolXor,
            RuntimeInstruction::EqI32 => Op::Int(IntOp::Eq, IntKind::I32),
            RuntimeInstruction::EqI64 => Op::Int(IntOp::Eq, IntKind::I64),
            RuntimeInstruction::EqU32 => Op::Int(IntOp::Eq, IntKind::U32),
            RuntimeInstruction::EqU64 => Op::Int(IntOp::Eq, IntKind::U64),
            RuntimeInstruction::EqF32 => Op::FloatBinary(FloatOp::EqF32),
            RuntimeInstruction::EqF64 => Op::FloatBinary(FloatOp::EqF64),
            RuntimeInstruction::NeI32 => Op::Int(IntOp::Ne, IntKind::I32),
            RuntimeInstruction::NeI64 => Op::Int(IntOp::Ne, IntKind::I64),
            RuntimeInstruction::NeU32 => Op::Int(IntOp::Ne, IntKind::U32),
            RuntimeInstruction::NeU64 => Op::Int(IntOp::Ne, IntKind::U64),
            RuntimeInstruction::NeF32 => Op::FloatBinary(FloatOp::NeF32),
            RuntimeInstruction::NeF64 => Op::FloatBinary(FloatOp::NeF64),
            RuntimeInstruction::LtI32 => Op::Int(IntOp::Lt, IntKind::I32),
            RuntimeInstruction::LtI64 => Op::Int(IntOp::Lt, IntKind::I64),
            RuntimeInstruction::LtU32 => Op::Int(IntOp::Lt, IntKind::U32),
            RuntimeInstruction::LtU64 => Op::Int(IntOp::Lt, IntKind::U64),
            RuntimeInstruction::LtF32 => Op::FloatBinary(FloatOp::LtF32),
            RuntimeInstruction::LtF64 => Op::FloatBinary(FloatOp::LtF64),
            RuntimeInstruction::GtI32 => Op::Int(IntOp::Gt, IntKind::I32),
            RuntimeInstruction::GtI64 => Op::Int(IntOp::Gt, IntKind::I64),
            RuntimeInstruction::GtU32 => Op::Int(IntOp::Gt, IntKind::U32),
            RuntimeInstruction::GtU64 => Op::Int(IntOp::Gt, IntKind::U64),
            RuntimeInstruction::GtF32 => Op::FloatBinary(FloatOp::GtF32),
            RuntimeInstruction::GtF64 => Op::FloatBinary(FloatOp::GtF64),
            RuntimeInstruction::LeI32 => Op::Int(IntOp::Le, IntKind::I32),
            RuntimeInstruction::LeI64 => Op::Int(IntOp::Le, IntKind::I64),
            RuntimeInstruction::LeU32 => Op::Int(IntOp::Le, IntKind::U32),
            RuntimeInstruction::LeU64 => Op::Int(IntOp::Le, IntKind::U64),
            RuntimeInstruction::LeF32 => Op::FloatBinary(FloatOp::LeF32),
            RuntimeInstruction::LeF64 => Op::FloatBinary(FloatOp::LeF64),
            RuntimeInstruction::GeI32 => Op::Int(IntOp::Ge, IntKind::I32),
            RuntimeInstruction::GeI64 => Op::Int(IntOp::Ge, IntKind::I64),
            RuntimeInstruction::GeU32 => Op::Int(IntOp::Ge, IntKind::U32),
            RuntimeInstruction::GeU64 => Op::Int(IntOp::Ge, IntKind::U64),
            RuntimeInstruction::GeF32 => Op::FloatBinary(FloatOp::GeF32),
            RuntimeInstruction::GeF64 => Op::FloatBinary(FloatOp::GeF64),
        }
    }

    /// The operation this instruction performs.
    pub fn op(&self) -> (o: Op)
        ensures
            o == self.kind(),
    {
        match self {
            RuntimeInstruction::Span(a, b, c) => Op::SetSpan(*a, *b, *c),
            RuntimeInstruction::Label(_) => Op::Nop,
            RuntimeInstruction::FunctionStart => Op::Nop,
            RuntimeInstruction::FunctionEnd => Op::Nop,
            RuntimeInstruction::Breakpoint => Op::Breakpoint,
            RuntimeInstruction::Branch(t) => Op::Branch(*t),
            RuntimeInstruction::ConditionalBranch(t, f) => Op::CondBranch(*t, *f),
            RuntimeInstruction::Return(k) => Op::Return(*k),
            RuntimeInstruction::IndirectCall => Op::IndirectCall,
            RuntimeInstruction::Call(a, t) => Op::Call(*a, *t),
            RuntimeInstruction::Halt => Op::Halt,
            RuntimeInstruction::Print => Op::Print,
            RuntimeInstruction::LoadI32(i) => Op::Load(*i),
            RuntimeInstruction::LoadI64(i) => Op::Load(*i),
            RuntimeInstruction::LoadU32(i) => Op::Load(*i),
            RuntimeInstruction::LoadU64(i) => Op::Load(*i),
            RuntimeInstruction::LoadF32(i) => Op::Load(*i),
            RuntimeInstruction::LoadF64(i) => Op::Load(*i),
            RuntimeInstruction::LoadBool(i) => Op::Load(*i),
            RuntimeInstruction::StoreI32(i) => Op::Store(*i),
            RuntimeInstruction::StoreI64(i) => Op::Store(*i),
            RuntimeInstruction::StoreU32(i) => Op::Store(*i),
            RuntimeInstruction::StoreU64(i) => Op::Store(*i),
            RuntimeInstruction::StoreF32(i) => Op::Store(*i),
            RuntimeInstruction::StoreF64(i) => Op::Store(*i),
            RuntimeInstruction::StoreBool(i) => Op::Store(*i),
            RuntimeInstruction::Dup => Op::Dup,
            RuntimeInstruction::HeapAlloc(k) => Op::HeapAlloc(*k),
            RuntimeInstruction::GetItem => Op::GetItem,
            RuntimeInstruction::HeapDealloc => Op::HeapDealloc,
            RuntimeInstruction::ConstI32(w) => Op::Const(*w),
            RuntimeInstruction::ConstI64(w) => Op::Const(*w),
            RuntimeInstruction::ConstU32(w) => Op::Const(*w),
            RuntimeInstruction::ConstU64(w) => Op::Const(*w),
            RuntimeInstruction::ConstF32(w) => Op::Const(*w),
            RuntimeInstruction::ConstF64(w) => Op::Const(*w),
            RuntimeInstruction::ConstBool(w) => Op::Const(*w),
            RuntimeInstruction::ConstString(w) => Op::Const(*w),
            RuntimeInstruction::ConstFunctionRef(w) => Op::Const(*w),
            RuntimeInstruction::ConstHeapRef(w) => Op::Const(*w),
            RuntimeInstruction::AddI32 => Op::Int(IntOp::Add, IntKind::I32),
            RuntimeInstruction::AddF32 => Op::FloatBinary(FloatOp::AddF32),
            RuntimeInstruction::AddI64 => Op::Int(IntOp::Add, IntKind::I64),
            RuntimeInstruction::AddU32 => Op::Int(IntOp::Add, IntKind::U32),
            RuntimeInstruction::AddU64 => Op::Int(IntOp::Add, IntKind::U64),
            RuntimeInstruction::AddF64 => Op::FloatBinary(FloatOp::AddF64),
            RuntimeInstruction::SubI32 => Op::Int(IntOp::Sub, IntKind::I32),
            RuntimeInstruction::SubI64 => Op::Int(IntOp::Sub, IntKind::I64),
            RuntimeInstruction::SubU32 => Op::Int(IntOp::Sub, IntKind::U32),
            RuntimeInstruction::SubU64 => Op::Int(IntOp::Sub, IntKind::U64),
            RuntimeInstruction::SubF32 => Op::FloatBinary(FloatOp::SubF32),
            RuntimeInstruction::SubF64 => Op::FloatBinary(FloatOp::SubF64),
            RuntimeInstruction::MulI32 => Op::Int(IntOp::Mul, IntKind::I32),
            RuntimeInstruction::MulI64 => Op::Int(IntOp::Mul, IntKind::I64),
            RuntimeInstruction::MulU32 => Op::Int(IntOp::Mul, IntKind::U32),
            RuntimeInstruction::MulU64 => Op::Int(IntOp::Mul, IntKind::U64),
            RuntimeInstruction::MulF32 => Op::FloatBinary(FloatOp::MulF32),
            RuntimeInstruction::MulF64 => Op::FloatBinary(FloatOp::MulF64),
            RuntimeInstruction::DivI32 => Op::Int(IntOp::Div, IntKind::I32),
            RuntimeInstruction::DivI64 => Op::Int(IntOp::Div, IntKind::I64),
            RuntimeInstruction::DivU32 => Op::Int(IntOp::Div, IntKind::U32),
            RuntimeInstruction::DivU64 => Op::Int(IntOp::Div, IntKind::U64),
            RuntimeInstruction::DivF32 => Op::FloatBinary(FloatOp::DivF32),
            RuntimeInstruction::DivF64 => Op::FloatBinary(FloatOp::DivF64),
            RuntimeInstruction::RemI32 => Op::Int(IntOp::Rem, IntKind::I32),
            RuntimeInstruction::RemI64 => Op::Int(IntOp::Rem, IntKind::I64),
            RuntimeInstruction::RemU32 => Op::Int(IntOp::Rem, IntKind::U32),
            RuntimeInstruction::RemU64 => Op::Int(IntOp::Rem, IntKind::U64),
            RuntimeInstruction::RemF32 => Op::FloatBinary(FloatOp::RemF32),
            RuntimeInstruction::RemF64 => Op::FloatBinary(FloatOp::RemF64),
            RuntimeInstruction::NegI32 => Op::IntNeg(IntKind::I32),
            RuntimeInstruction::NegI64 => Op::IntNeg(IntKind::I64),
            RuntimeInstruction::NegF32 => Op::FloatUnary(FloatOp::NegF32),
            RuntimeInstruction::NegF64 => Op::FloatUnary(FloatOp::NegF64),
            RuntimeInstruction::ShlI32 => Op::Int(IntOp::Shl, IntKind::I32),
            RuntimeInstruction::ShlI64 => Op::Int(IntOp::Shl, IntKind::I64),
            RuntimeInstruction::ShlU32 => Op::Int(IntOp::Shl, IntKind::U32),
            RuntimeInstruction::ShlU64 => Op::Int(IntOp::Shl, IntKind::U64),
            RuntimeInstruction::ShrI32 => Op::Int(IntOp::Shr, IntKind::I32),
            RuntimeInstruction::ShrI64 => Op::Int(IntOp::Shr, IntKind::I64),
            RuntimeInstruction::ShrU32 => Op::Int(IntOp::Shr, IntKind::U32),
            RuntimeInstruction::ShrU64 => Op::Int(IntOp::Shr, IntKind::U64),
            RuntimeInstruction::RolI32 => Op::Int(IntOp::Rol, IntKind::I32),
            RuntimeInstruction::RolI64 => Op::Int(IntOp::Rol, IntKind::I64),
            RuntimeInstruction::RolU32 => Op::Int(IntOp::Rol, IntKind::U32),
            RuntimeInstruction::RolU64 => Op::Int(IntOp::Rol, IntKind::U64),
            RuntimeInstruction::RorI32 => Op::Int(IntOp::Ror, IntKind::I32),
            RuntimeInstruction::RorI64 => Op::Int(IntOp::Ror, IntKind::I64),
            RuntimeInstruction::RorU32 => Op::Int(IntOp::Ror, IntKind::U32),
            RuntimeInstruction::RorU64 => Op::Int(IntOp::Ror, IntKind::U64),
            RuntimeInstruction::BitAndI32 => Op::Int(IntOp::BitAnd, IntKind::I32),
            RuntimeInstruction::BitAndI64 => Op::Int(IntOp::BitAnd, IntKind::I64),
            RuntimeInstruction::BitAndU32 => Op::Int(IntOp::BitAnd, IntKind::U32),
            RuntimeInstruction::BitAndU64 => Op::Int(IntOp::BitAnd, IntKind::U64),
            RuntimeInstruction::BitOrI32 => Op::Int(IntOp::BitOr, IntKind::I32),
            RuntimeInstruction::BitOrI64 => Op::Int(IntOp::BitOr, IntKind::I64),
            RuntimeInstruction::BitOrU32 => Op::Int(IntOp::BitOr, IntKind::U32),
            RuntimeInstruction::BitOrU64 => Op::Int(IntOp::BitOr, IntKind::U64),
            RuntimeInstruction::BitXorI32 => Op::Int(IntOp::BitXor, IntKind::I32),
            RuntimeInstruction::BitXorI64 => Op::Int(IntOp::BitXor, IntKind::I64),
            RuntimeInstruction::BitXorU32 => Op::Int(IntOp::BitXor, IntKind::U32),
            RuntimeInstruction::BitXorU64 => Op::Int(IntOp::BitXor, IntKind::U64),
            RuntimeInstruction::Not => Op::BoolNot,
            RuntimeInstruction::And => Op::BoolAnd,
            RuntimeInstruction::Or => Op::BoolOr,
            RuntimeInstruction::Xor => Op::BoolXor,
            RuntimeInstruction::EqI32 => Op::Int(IntOp::Eq, IntKind::I32),
            RuntimeInstruction::EqI64 => Op::Int(IntOp::Eq, IntKind::I64),
            RuntimeInstruction::EqU32 => Op::Int(IntOp::Eq, IntKind::U32),
            RuntimeInstruction::EqU64 => Op::Int(IntOp::Eq, IntKind::U64),
            RuntimeInstruction::EqF32 => Op::FloatBinary(FloatOp::EqF32),
            RuntimeInstruction::EqF64 => Op::FloatBinary(FloatOp::EqF64),
            RuntimeInstruction::NeI32 => Op::Int(IntOp::Ne, IntKind::I32),
            RuntimeInstruction::NeI64 => Op::Int(IntOp::Ne, IntKind::I64),
            RuntimeInstruction::NeU32 => Op::Int(IntOp::Ne, IntKind::U32),
            RuntimeInstruction::NeU64 => Op::Int(IntOp::Ne, IntKind::U64),
            RuntimeInstruction::NeF32 => Op::FloatBinary(FloatOp::NeF32),
            RuntimeInstruction::NeF64 => Op::FloatBinary(FloatOp::NeF64),
            RuntimeInstruction::LtI32 => Op::Int(IntOp::Lt, IntKind::I32),
            RuntimeInstruction::LtI64 => Op::Int(IntOp::Lt, IntKind::I64),
            RuntimeInstruction::LtU32 => Op::Int(IntOp::Lt, IntKind::U32),
            RuntimeInstruction::LtU64 => Op::Int(IntOp::Lt, IntKind::U64),
            RuntimeInstruction::LtF32 => Op::FloatBinary(FloatOp::LtF32),
            RuntimeInstruction::LtF64 => Op::FloatBinary(FloatOp::LtF64),
            RuntimeInstruction::GtI32 => Op::Int(IntOp::Gt, IntKind::I32),
            RuntimeInstruction::GtI64 => Op::Int(IntOp::Gt, IntKind::I64),
            RuntimeInstruction::GtU32 => Op::Int(IntOp::Gt, IntKind::U32),
            RuntimeInstruction::GtU64 => Op::Int(IntOp::Gt, IntKind::U64),
            RuntimeInstruction::GtF32 => Op::FloatBinary(FloatOp::GtF32),
            RuntimeInstruction::GtF64 => Op::FloatBinary(FloatOp::GtF64),
            RuntimeInstruction::LeI32 => Op::Int(IntOp::Le, IntKind::I32),
            RuntimeInstruction::LeI64 => Op::Int(IntOp::Le, IntKind::I64),
            RuntimeInstruction::LeU32 => Op::Int(IntOp::Le, IntKind::U32),
            RuntimeInstruction::LeU64 => Op::Int(IntOp::Le, IntKind::U64),
            RuntimeInstruction::LeF32 => Op::FloatBinary(FloatOp::LeF32),
            RuntimeInstruction::LeF64 => Op::FloatBinary(FloatOp::LeF64),
            RuntimeInstruction::GeI32 => Op::Int(IntOp::Ge, IntKind::I32),
            RuntimeInstruction::GeI64 => Op::Int(IntOp::Ge, IntKind::I64),
            RuntimeInstruction::GeU32 => Op::Int(IntOp::Ge, IntKind::U32),
            RuntimeInstruction::GeU64 => Op::Int(IntOp::Ge, IntKind::U64),
            RuntimeInstruction::GeF32 => Op::FloatBinary(FloatOp::GeF32),
            RuntimeInstruction::GeF64 => Op::FloatBinary(FloatOp::GeF64),
        }
    }
}

} // verus!
