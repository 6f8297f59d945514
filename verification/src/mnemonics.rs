//! The arithmetic mnemonics: each `<operation>_<type>` spelling reads as
//! the instruction that performs that operation on operands of that type.
use vstd::prelude::*;
use crate::instruction::{FloatOp, IntKind, IntOp, Op};
use crate::resolve::plain_lowering;
use crate::surface::SurfaceInstruction;
use crate::surface_syntax::unit_mnemonic;

verus! {

/// The name of an integer operation in its mnemonics.
pub open spec fn int_op_name(op: IntOp) -> Seq<char> {
    match op {
        IntOp::Add => seq!['a', 'd', 'd'],
        IntOp::Sub => seq!['s', 'u', 'b'],
        IntOp::Mul => seq!['m', 'u', 'l'],
        IntOp::Div => seq!['d', 'i', 'v'],
        IntOp::Rem => seq!['r', 'e', 'm'],
        IntOp::Shl => seq!['s', 'h', 'l'],
        IntOp::Shr => seq!['s', 'h', 'r'],
        IntOp::Rol => seq!['r', 'o', 'l'],
        IntOp::Ror => seq!['r', 'o', 'r'],
        IntOp::BitAnd => seq!['b', 'i', 't', 'a', 'n', 'd'],
        IntOp::BitOr => seq!['b', 'i', 't', 'o', 'r'],
        IntOp::BitXor => seq!['b', 'i', 't', 'x', 'o', 'r'],
        IntOp::Eq => seq!['e', 'q'],
        IntOp::Ne => seq!['n', 'e'],
        IntOp::Lt => seq!['l', 't'],
        IntOp::Gt => seq!['g', 't'],
        IntOp::Le => seq!['l', 'e'],
        IntOp::Ge => seq!['g', 'e'],
    }
}

/// The name of an integer operand type in its mnemonics.
pub open spec fn int_kind_name(kind: IntKind) -> Seq<char> {
    match kind {
        IntKind::I32 => seq!['i', '3', '2'],
        IntKind::I64 => seq!['i', '6', '4'],
        IntKind::U32 => seq!['u', '3', '2'],
        IntKind::U64 => seq!['u', '6', '4'],
    }
}

/// The mnemonic of integer operation `op` on operands of type `kind`: the
/// operation's name, `_`, and the type's name, such as `lt_i32`.
pub open spec fn int_mnemonic(op: IntOp, kind: IntKind) -> Seq<char> {
    int_op_name(op) + seq!['_'] + int_kind_name(kind)
}

/// The lengths of the mnemonics without operands.
proof fn lemma_unit_mnemonic_lengths()
    ensures
        "func_start"@.len() == 10,
        "func_end"@.len() == 8,
        "breakpoint"@.len() == 10,
        "call_indirect"@.len() == 13,
        "halt"@.len() == 4,
        "print"@.len() == 5,
        "dup"@.len() == 3,
        "get_item"@.len() == 8,
        "heap_dealloc"@.len() == 12,
        "add_i32"@.len() == 7,
        "add_f32"@.len() == 7,
        "add_i64"@.len() == 7,
        "add_u32"@.len() == 7,
        "add_u64"@.len() == 7,
        "add_f64"@.len() == 7,
        "sub_i32"@.len() == 7,
        "sub_i64"@.len() == 7,
        "sub_u32"@.len() == 7,
        "sub_u64"@.len() == 7,
        "sub_f32"@.len() == 7,
        "sub_f64"@.len() == 7,
        "mul_i32"@.len() == 7,
        "mul_i64"@.len() == 7,
        "mul_u32"@.len() == 7,
        "mul_u64"@.len() == 7,
        "mul_f32"@.len() == 7,
        "mul_f64"@.len() == 7,
        "div_i32"@.len() == 7,
        "div_i64"@.len() == 7,
        "div_u32"@.len() == 7,
        "div_u64"@.len() == 7,
        "div_f32"@.len() == 7,
        "div_f64"@.len() == 7,
        "rem_i32"@.len() == 7,
        "rem_i64"@.len() == 7,
        "rem_u32"@.len() == 7,
        "rem_u64"@.len() == 7,
        "rem_f32"@.len() == 7,
        "rem_f64"@.len() == 7,
        "neg_i32"@.len() == 7,
        "neg_i64"@.len() == 7,
        "neg_f32"@.len() == 7,
        "neg_f64"@.len() == 7,
        "shl_i32"@.len() == 7,
        "shl_i64"@.len() == 7,
        "shl_u32"@.len() == 7,
        "shl_u64"@.len() == 7,
        "shr_i32"@.len() == 7,
        "shr_i64"@.len() == 7,
        "shr_u32"@.len() == 7,
        "shr_u64"@.len() == 7,
        "rol_i32"@.len() == 7,
        "rol_i64"@.len() == 7,
        "rol_u32"@.len() == 7,
        "rol_u64"@.len() == 7,
        "ror_i32"@.len() == 7,
        "ror_i64"@.len() == 7,
        "ror_u32"@.len() == 7,
        "ror_u64"@.len() == 7,
        "bitand_i32"@.len() == 10,
        "bitand_i64"@.len() == 10,
        "bitand_u32"@.len() == 10,
        "bitand_u64"@.len() == 10,
        "bitor_i32"@.len() == 9,
        "bitor_i64"@.len() == 9,
        "bitor_u32"@.len() == 9,
        "bitor_u64"@.len() == 9,
        "bitxor_i32"@.len() == 10,
        "bitxor_i64"@.len() == 10,
        "bitxor_u32"@.len() == 10,
        "bitxor_u64"@.len() == 10,
        "not"@.len() == 3,
        "and"@.len() == 3,
        "or"@.len() == 2,
        "xor"@.len() == 3,
        "eq_i32"@.len() == 6,
        "eq_i64"@.len() == 6,
        "eq_u32"@.len() == 6,
        "eq_u64"@.len() == 6,
        "eq_f32"@.len() == 6,
        "eq_f64"@.len() == 6,
        "ne_i32"@.len() == 6,
        "ne_i64"@.len() == 6,
        "ne_u32"@.len() == 6,
        "ne_u64"@.len() == 6,
        "ne_f32"@.len() == 6,
        "ne_f64"@.len() == 6,
        "lt_i32"@.len() == 6,
        "lt_i64"@.len() == 6,
        "lt_u32"@.len() == 6,
        "lt_u64"@.len() == 6,
        "lt_f32"@.len() == 6,
        "lt_f64"@.len() == 6,
        "gt_i32"@.len() == 6,
        "gt_i64"@.len() == 6,
        "gt_u32"@.len() == 6,
        "gt_u64"@.len() == 6,
        "gt_f32"@.len() == 6,
        "gt_f64"@.len() == 6,
        "le_i32"@.len() == 6,
        "le_i64"@.len() == 6,
        "le_u32"@.len() == 6,
        "le_u64"@.len() == 6,
        "le_f32"@.len() == 6,
        "le_f64"@.len() == 6,
        "ge_i32"@.len() == 6,
        "ge_i64"@.len() == 6,
        "ge_u32"@.len() == 6,
        "ge_u64"@.len() == 6,
        "ge_f32"@.len() == 6,
        "ge_f64"@.len() == 6,
{
    reveal_strlit("func_start");
    reveal_strlit("func_end");
    reveal_strlit("breakpoint");
    reveal_strlit("call_indirect");
    reveal_strlit("halt");
    reveal_strlit("print");
    reveal_strlit("dup");
    reveal_strlit("get_item");
    reveal_strlit("heap_dealloc");
    reveal_strlit("add_i32");
    reveal_strlit("add_f32");
    reveal_strlit("add_i64");
    reveal_strlit("add_u32");
    reveal_strlit("add_u64");
    reveal_strlit("add_f64");
    reveal_strlit("sub_i32");
    reveal_strlit("sub_i64");
    reveal_strlit("sub_u32");
    reveal_strlit("sub_u64");
    reveal_strlit("sub_f32");
    reveal_strlit("sub_f64");
    reveal_strlit("mul_i32");
    reveal_strlit("mul_i64");
    reveal_strlit("mul_u32");
    reveal_strlit("mul_u64");
    reveal_strlit("mul_f32");
    reveal_strlit("mul_f64");
    reveal_strlit("div_i32");
    reveal_strlit("div_i64");
    reveal_strlit("div_u32");
    reveal_strlit("div_u64");
    reveal_strlit("div_f32");
    reveal_strlit("div_f64");
    reveal_strlit("rem_i32");
    reveal_strlit("rem_i64");
    reveal_strlit("rem_u32");
    reveal_strlit("rem_u64");
    reveal_strlit("rem_f32");
    reveal_strlit("rem_f64");
    reveal_strlit("neg_i32");
    reveal_strlit("neg_i64");
    reveal_strlit("neg_f32");
    reveal_strlit("neg_f64");
    reveal_strlit("shl_i32");
    reveal_strlit("shl_i64");
    reveal_strlit("shl_u32");
    reveal_strlit("shl_u64");
    reveal_strlit("shr_i32");
    reveal_strlit("shr_i64");
    reveal_strlit("shr_u32");
    reveal_strlit("shr_u64");
    reveal_strlit("rol_i32");
    reveal_strlit("rol_i64");
    reveal_strlit("rol_u32");
    reveal_strlit("rol_u64");
    reveal_strlit("ror_i32");
    reveal_strlit("ror_i64");
    reveal_strlit("ror_u32");
    reveal_strlit("ror_u64");
    reveal_strlit("bitand_i32");
    reveal_strlit("bitand_i64");
    reveal_strlit("bitand_u32");
    reveal_strlit("bitand_u64");
    reveal_strlit("bitor_i32");
    reveal_strlit("bitor_i64");
    reveal_strlit("bitor_u32");
    reveal_strlit("bitor_u64");
    reveal_strlit("bitxor_i32");
    reveal_strlit("bitxor_i64");
    reveal_strlit("bitxor_u32");
    reveal_strlit("bitxor_u64");
    reveal_strlit("not");
    reveal_strlit("and");
    reveal_strlit("or");
    reveal_strlit("xor");
    reveal_strlit("eq_i32");
    reveal_strlit("eq_i64");
    reveal_strlit("eq_u32");
    reveal_strlit("eq_u64");
    reveal_strlit("eq_f32");
    reveal_strlit("eq_f64");
    reveal_strlit("ne_i32");
    reveal_strlit("ne_i64");
    reveal_strlit("ne_u32");
    reveal_strlit("ne_u64");
    reveal_strlit("ne_f32");
    reveal_strlit("ne_f64");
    reveal_strlit("lt_i32");
    reveal_strlit("lt_i64");
    reveal_strlit("lt_u32");
    reveal_strlit("lt_u64");
    reveal_strlit("lt_f32");
    reveal_strlit("lt_f64");
    reveal_strlit("gt_i32");
    reveal_strlit("gt_i64");
    reveal_strlit("gt_u32");
    reveal_strlit("gt_u64");
    reveal_strlit("gt_f32");
    reveal_strlit("gt_f64");
    reveal_strlit("le_i32");
    reveal_strlit("le_i64");
    reveal_strlit("le_u32");
    reveal_strlit("le_u64");
    reveal_strlit("le_f32");
    reveal_strlit("le_f64");
    reveal_strlit("ge_i32");
    reveal_strlit("ge_i64");
    reveal_strlit("ge_u32");
    reveal_strlit("ge_u64");
    reveal_strlit("ge_f32");
    reveal_strlit("ge_f64");
}

/// `add_i32` reads as the instruction `AddI32`.
proof fn lemma_mnemonic_add_i32()
    ensures
        unit_mnemonic(int_mnemonic(IntOp::Add, IntKind::I32)) == Some(SurfaceInstruction::AddI32),
{
    lemma_unit_mnemonic_lengths();
    reveal_strlit("add_i32");
    assert(int_mnemonic(IntOp::Add, IntKind::I32) =~= "add_i32"@);
}

/// `add_i64` reads as the instruction `AddI64`.
proof fn lemma_mnemonic_add_i64()
    ensures
        unit_mnemonic(int_mnemonic(IntOp::Add, IntKind::I64)) == Some(SurfaceInstruction::AddI64),
{
    lemma_unit_mnemonic_lengths();
    reveal_strlit("add_i64");
    reveal_strlit("add_i32");
    assert("add_i64"@[5] != "add_i32"@[5]);
    reveal_strlit("add_f32");
    assert("add_i64"@[4] != "add_f32"@[4]);
    assert(int_mnemonic(IntOp::Add, IntKind::I64) =~= "add_i64"@);
}

/// `add_u32` reads as the instruction `AddU32`.
proof fn lemma_mnemonic_add_u32()
    ensures
        unit_mnemonic(int_mnemonic(IntOp::Add, IntKind::U32)) == Some(SurfaceInstruction::AddU32),
{
    lemma_unit_mnemonic_lengths();
    reveal_strlit("add_u32");
    reveal_strlit("add_i32");
    assert("add_u32"@[4] != "add_i32"@[4]);
    reveal_strlit("add_f32");
    assert("add_u32"@[4] != "add_f32"@[4]);
    reveal_strlit("add_i64");
    assert("add_u32"@[4] != "add_i64"@[4]);
    assert(int_mnemonic(IntOp::Add, IntKind::U32) =~= "add_u32"@);
}

/// `add_u64` reads as the instruction `AddU64`.
proof fn lemma_mnemonic_add_u64()
    ensures
        unit_mnemonic(int_mnemonic(IntOp::Add, IntKind::U64)) == Some(SurfaceInstruction::AddU64),
{
    lemma_unit_mnemonic_lengths();
    reveal_strlit("add_u64");
    reveal_strlit("add_i32");
    assert("add_u64"@[4] != "add_i32"@[4]);
    reveal_strlit("add_f32");
    assert("add_u64"@[4] != "add_f32"@[4]);
    reveal_strlit("add_i64");
    assert("add_u64"@[4] != "add_i64"@[4]);
    reveal_strlit("add_u32");
    assert("add_u64"@[5] != "add_u32"@[5]);
    assert(int_mnemonic(IntOp::Add, IntKind::U64) =~= "add_u64"@);
}

/// `sub_i32` reads as the instruction `SubI32`.
proof fn lemma_mnemonic_sub_i32()
    ensures
        unit_mnemonic(int_mnemonic(IntOp::Sub, IntKind::I32)) == Some(SurfaceInstruction::SubI32),
{
    lemma_unit_mnemonic_lengths();
    reveal_strlit("sub_i32");
    reveal_strlit("add_i32");
    assert("sub_i32"@[0] != "add_i32"@[0]);
    reveal_strlit("add_f32");
    assert("sub_i32"@[0] != "add_f32"@[0]);
    reveal_strlit("add_i64");
    assert("sub_i32"@[0] != "add_i64"@[0]);
    reveal_strlit("add_u32");
    assert("sub_i32"@[0] != "add_u32"@[0]);
    reveal_strlit("add_u64");
    assert("sub_i32"@[0] != "add_u64"@[0]);
    reveal_strlit("add_f64");
    assert("sub_i32"@[0] != "add_f64"@[0]);
    assert(int_mnemonic(IntOp::Sub, IntKind::I32) =~= "sub_i32"@);
}

/// `sub_i64` reads as the instruction `SubI64`.
proof fn lemma_mnemonic_sub_i64()
    ensures
        unit_mnemonic(int_mnemonic(IntOp::Sub, IntKind::I64)) == Some(SurfaceInstruction::SubI64),
{
    lemma_unit_mnemonic_lengths();
    reveal_strlit("sub_i64");
    reveal_strlit("add_i32");
    assert("sub_i64"@[0] != "add_i32"@[0]);
    reveal_strlit("add_f32");
    assert("sub_i64"@[0] != "add_f32"@[0]);
    reveal_strlit("add_i64");
    assert("sub_i64"@[0] != "add_i64"@[0]);
    reveal_strlit("add_u32");
    assert("sub_i64"@[0] != "add_u32"@[0]);
    reveal_strlit("add_u64");
    assert("sub_i64"@[0] != "add_u64"@[0]);
    reveal_strlit("add_f64");
    assert("sub_i64"@[0] != "add_f64"@[0]);
    reveal_strlit("sub_i32");
    assert("sub_i64"@[5] != "sub_i32"@[5]);
    assert(int_mnemonic(IntOp::Sub, IntKind::I64) =~= "sub_i64"@);
}

/// `sub_u32` reads as the instruction `SubU32`.
proof fn lemma_mnemonic_sub_u32()
    ensures
        unit_mnemonic(int_mnemonic(IntOp::Sub, IntKind::U32)) == Some(SurfaceInstruction::SubU32),
{
    lemma_unit_mnemonic_lengths();
    reveal_strlit("sub_u32");
    reveal_strlit("add_i32");
    assert("sub_u32"@[0] != "add_i32"@[0]);
    reveal_strlit("add_f32");
    assert("sub_u32"@[0] != "add_f32"@[0]);
    reveal_strlit("add_i64");
    assert("sub_u32"@[0] != "add_i64"@[0]);
    reveal_strlit("add_u32");
    assert("sub_u32"@[0] != "add_u32"@[0]);
    reveal_strlit("add_u64");
    assert("sub_u32"@[0] != "add_u64"@[0]);
    reveal_strlit("add_f64");
    assert("sub_u32"@[0] != "add_f64"@[0]);
    reveal_strlit("sub_i32");
    assert("sub_u32"@[4] != "sub_i32"@[4]);
    reveal_strlit("sub_i64");
    assert("sub_u32"@[4] != "sub_i64"@[4]);
    assert(int_mnemonic(IntOp::Sub, IntKind::U32) =~= "sub_u32"@);
}

/// `sub_u64` reads as the instruction `SubU64`.
proof fn lemma_mnemonic_sub_u64()
    ensures
        unit_mnemonic(int_mnemonic(IntOp::Sub, IntKind::U64)) == Some(SurfaceInstruction::SubU64),
{
    lemma_unit_mnemonic_lengths();
    reveal_strlit("sub_u64");
    reveal_strlit("add_i32");
    assert("sub_u64"@[0] != "add_i32"@[0]);
    reveal_strlit("add_f32");
    assert("sub_u64"@[0] != "add_f32"@[0]);
    reveal_strlit("add_i64");
    assert("sub_u64"@[0] != "add_i64"@[0]);
    reveal_strlit("add_u32");
    assert("sub_u64"@[0] != "add_u32"@[0]);
    reveal_strlit("add_u64");
    assert("sub_u64"@[0] != "add_u64"@[0]);
    reveal_strlit("add_f64");
    assert("sub_u64"@[0] != "add_f64"@[0]);
    reveal_strlit("sub_i32");
    assert("sub_u64"@[4] != "sub_i32"@[4]);
    reveal_strlit("sub_i64");
    assert("sub_u64"@[4] != "sub_i64"@[4]);
    reveal_strlit("sub_u32");
    assert("sub_u64"@[5] != "sub_u32"@[5]);
    assert(int_mnemonic(IntOp::Sub, IntKind::U64) =~= "sub_u64"@);
}

/// `mul_i32` reads as the instruction `MulI32`.
proof fn lemma_mnemonic_mul_i32()
    ensures
        unit_mnemonic(int_mnemonic(IntOp::Mul, IntKind::I32)) == Some(SurfaceInstruction::MulI32),
{
    lemma_unit_mnemonic_lengths();
    reveal_strlit("mul_i32");
    reveal_strlit("add_i32");
    assert("mul_i32"@[0] != "add_i32"@[0]);
    reveal_strlit("add_f32");
    assert("mul_i32"@[0] != "add_f32"@[0]);
    reveal_strlit("add_i64");
    assert("mul_i32"@[0] != "add_i64"@[0]);
    reveal_strlit("add_u32");
    assert("mul_i32"@[0] != "add_u32"@[0]);
    reveal_strlit("add_u64");
    assert("mul_i32"@[0] != "add_u64"@[0]);
    reveal_strlit("add_f64");
    assert("mul_i32"@[0] != "add_f64"@[0]);
    reveal_strlit("sub_i32");
    assert("mul_i32"@[0] != "sub_i32"@[0]);
    reveal_strlit("sub_i64");
    assert("mul_i32"@[0] != "sub_i64"@[0]);
    reveal_strlit("sub_u32");
    assert("mul_i32"@[0] != "sub_u32"@[0]);
    reveal_strlit("sub_u64");
    assert("mul_i32"@[0] != "sub_u64"@[0]);
    reveal_strlit("sub_f32");
    assert("mul_i32"@[0] != "sub_f32"@[0]);
    reveal_strlit("sub_f64");
    assert("mul_i32"@[0] != "sub_f64"@[0]);
    assert(int_mnemonic(IntOp::Mul, IntKind::I32) =~= "mul_i32"@);
}

/// `mul_i64` reads as the instruction `MulI64`.
proof fn lemma_mnemonic_mul_i64()
    ensures
        unit_mnemonic(int_mnemonic(IntOp::Mul, IntKind::I64)) == Some(SurfaceInstruction::MulI64),
{
    lemma_unit_mnemonic_lengths();
    reveal_strlit("mul_i64");
    reveal_strlit("add_i32");
    assert("mul_i64"@[0] != "add_i32"@[0]);
    reveal_strlit("add_f32");
    assert("mul_i64"@[0] != "add_f32"@[0]);
    reveal_strlit("add_i64");
    assert("mul_i64"@[0] != "add_i64"@[0]);
    reveal_strlit("add_u32");
    assert("mul_i64"@[0] != "add_u32"@[0]);
    reveal_strlit("add_u64");
    assert("mul_i64"@[0] != "add_u64"@[0]);
    reveal_strlit("add_f64");
    assert("mul_i64"@[0] != "add_f64"@[0]);
    reveal_strlit("sub_i32");
    assert("mul_i64"@[0] != "sub_i32"@[0]);
    reveal_strlit("sub_i64");
    assert("mul_i64"@[0] != "sub_i64"@[0]);
    reveal_strlit("sub_u32");
    assert("mul_i64"@[0] != "sub_u32"@[0]);
    reveal_strlit("sub_u64");
    assert("mul_i64"@[0] != "sub_u64"@[0]);
    reveal_strlit("sub_f32");
    assert("mul_i64"@[0] != "sub_f32"@[0]);
    reveal_strlit("sub_f64");
    assert("mul_i64"@[0] != "sub_f64"@[0]);
    reveal_strlit("mul_i32");
    assert("mul_i64"@[5] != "mul_i32"@[5]);
    assert(int_mnemonic(IntOp::Mul, IntKind::I64) =~= "mul_i64"@);
}

/// `mul_u32` reads as the instruction `MulU32`.
proof fn lemma_mnemonic_mul_u32()
    ensures
        unit_mnemonic(int_mnemonic(IntOp::Mul, IntKind::U32)) == Some(SurfaceInstruction::MulU32),
{
    lemma_unit_mnemonic_lengths();
    reveal_strlit("mul_u32");
    reveal_strlit("add_i32");
    assert("mul_u32"@[0] != "add_i32"@[0]);
    reveal_strlit("add_f32");
    assert("mul_u32"@[0] != "add_f32"@[0]);
    reveal_strlit("add_i64");
    assert("mul_u32"@[0] != "add_i64"@[0]);
    reveal_strlit("add_u32");
    assert("mul_u32"@[0] != "add_u32"@[0]);
    reveal_strlit("add_u64");
    assert("mul_u32"@[0] != "add_u64"@[0]);
    reveal_strlit("add_f64");
    assert("mul_u32"@[0] != "add_f64"@[0]);
    reveal_strlit("sub_i32");
    assert("mul_u32"@[0] != "sub_i32"@[0]);
    reveal_strlit("sub_i64");
    assert("mul_u32"@[0] != "sub_i64"@[0]);
    reveal_strlit("sub_u32");
    assert("mul_u32"@[0] != "sub_u32"@[0]);
    reveal_strlit("sub_u64");
    assert("mul_u32"@[0] != "sub_u64"@[0]);
    reveal_strlit("sub_f32");
    assert("mul_u32"@[0] != "sub_f32"@[0]);
    reveal_strlit("sub_f64");
    assert("mul_u32"@[0] != "sub_f64"@[0]);
    reveal_strlit("mul_i32");
    assert("mul_u32"@[4] != "mul_i32"@[4]);
    reveal_strlit("mul_i64");
    assert("mul_u32"@[4] != "mul_i64"@[4]);
    assert(int_mnemonic(IntOp::Mul, IntKind::U32) =~= "mul_u32"@);
}

/// `mul_u64` reads as the instruction `MulU64`.
proof fn lemma_mnemonic_mul_u64()
    ensures
        unit_mnemonic(int_mnemonic(IntOp::Mul, IntKind::U64)) == Some(SurfaceInstruction::MulU64),
{
    lemma_unit_mnemonic_lengths();
    reveal_strlit("mul_u64");
    reveal_strlit("add_i32");
    assert("mul_u64"@[0] != "add_i32"@[0]);
    reveal_strlit("add_f32");
    assert("mul_u64"@[0] != "add_f32"@[0]);
    reveal_strlit("add_i64");
    assert("mul_u64"@[0] != "add_i64"@[0]);
    reveal_strlit("add_u32");
    assert("mul_u64"@[0] != "add_u32"@[0]);
    reveal_strlit("add_u64");
    assert("mul_u64"@[0] != "add_u64"@[0]);
    reveal_strlit("add_f64");
    assert("mul_u64"@[0] != "add_f64"@[0]);
    reveal_strlit("sub_i32");
    assert("mul_u64"@[0] != "sub_i32"@[0]);
    reveal_strlit("sub_i64");
    assert("mul_u64"@[0] != "sub_i64"@[0]);
    reveal_strlit("sub_u32");
    assert("mul_u64"@[0] != "sub_u32"@[0]);
    reveal_strlit("sub_u64");
    assert("mul_u64"@[0] != "sub_u64"@[0]);
    reveal_strlit("sub_f32");
    assert("mul_u64"@[0] != "sub_f32"@[0]);
    reveal_strlit("sub_f64");
    assert("mul_u64"@[0] != "sub_f64"@[0]);
    reveal_strlit("mul_i32");
    assert("mul_u64"@[4] != "mul_i32"@[4]);
    reveal_strlit("mul_i64");
    assert("mul_u64"@[4] != "mul_i64"@[4]);
    reveal_strlit("mul_u32");
    assert("mul_u64"@[5] != "mul_u32"@[5]);
    assert(int_mnemonic(IntOp::Mul, IntKind::U64) =~= "mul_u64"@);
}

/// `div_i32` reads as the instruction `DivI32`.
proof fn lemma_mnemonic_div_i32()
    ensures
        unit_mnemonic(int_mnemonic(IntOp::Div, IntKind::I32)) == Some(SurfaceInstruction::DivI32),
{
    lemma_unit_mnemonic_lengths();
    reveal_strlit("div_i32");
    reveal_strlit("add_i32");
    assert("div_i32"@[0] != "add_i32"@[0]);
    reveal_strlit("add_f32");
    assert("div_i32"@[0] != "add_f32"@[0]);
    reveal_strlit("add_i64");
    assert("div_i32"@[0] != "add_i64"@[0]);
    reveal_strlit("add_u32");
    assert("div_i32"@[0] != "add_u32"@[0]);
    reveal_strlit("add_u64");
    assert("div_i32"@[0] != "add_u64"@[0]);
    reveal_strlit("add_f64");
    assert("div_i32"@[0] != "add_f64"@[0]);
    reveal_strlit("sub_i32");
    assert("div_i32"@[0] != "sub_i32"@[0]);
    reveal_strlit("sub_i64");
    assert("div_i32"@[0] != "sub_i64"@[0]);
    reveal_strlit("sub_u32");
    assert("div_i32"@[0] != "sub_u32"@[0]);
    reveal_strlit("sub_u64");
    assert("div_i32"@[0] != "sub_u64"@[0]);
    reveal_strlit("sub_f32");
    assert("div_i32"@[0] != "sub_f32"@[0]);
    reveal_strlit("sub_f64");
    assert("div_i32"@[0] != "sub_f64"@[0]);
    reveal_strlit("mul_i32");
    assert("div_i32"@[0] != "mul_i32"@[0]);
    reveal_strlit("mul_i64");
    assert("div_i32"@[0] != "mul_i64"@[0]);
    reveal_strlit("mul_u32");
    assert("div_i32"@[0] != "mul_u32"@[0]);
    reveal_strlit("mul_u64");
    assert("div_i32"@[0] != "mul_u64"@[0]);
    reveal_strlit("mul_f32");
    assert("div_i32"@[0] != "mul_f32"@[0]);
    reveal_strlit("mul_f64");
    assert("div_i32"@[0] != "mul_f64"@[0]);
    assert(int_mnemonic(IntOp::Div, IntKind::I32) =~= "div_i32"@);
}

/// `div_i64` reads as the instruction `DivI64`.
proof fn lemma_mnemonic_div_i64()
    ensures
        unit_mnemonic(int_mnemonic(IntOp::Div, IntKind::I64)) == Some(SurfaceInstruction::DivI64),
{
    lemma_unit_mnemonic_lengths();
    reveal_strlit("div_i64");
    reveal_strlit("add_i32");
    assert("div_i64"@[0] != "add_i32"@[0]);
    reveal_strlit("add_f32");
    assert("div_i64"@[0] != "add_f32"@[0]);
    reveal_strlit("add_i64");
    assert("div_i64"@[0] != "add_i64"@[0]);
    reveal_strlit("add_u32");
    assert("div_i64"@[0] != "add_u32"@[0]);
    reveal_strlit("add_u64");
    assert("div_i64"@[0] != "add_u64"@[0]);
    reveal_strlit("add_f64");
    assert("div_i64"@[0] != "add_f64"@[0]);
    reveal_strlit("sub_i32");
    assert("div_i64"@[0] != "sub_i32"@[0]);
    reveal_strlit("sub_i64");
    assert("div_i64"@[0] != "sub_i64"@[0]);
    reveal_strlit("sub_u32");
    assert("div_i64"@[0] != "sub_u32"@[0]);
    reveal_strlit("sub_u64");
    assert("div_i64"@[0] != "sub_u64"@[0]);
    reveal_strlit("sub_f32");
    assert("div_i64"@[0] != "sub_f32"@[0]);
    reveal_strlit("sub_f64");
    assert("div_i64"@[0] != "sub_f64"@[0]);
    reveal_strlit("mul_i32");
    assert("div_i64"@[0] != "mul_i32"@[0]);
    reveal_strlit("mul_i64");
    assert("div_i64"@[0] != "mul_i64"@[0]);
    reveal_strlit("mul_u32");
    assert("div_i64"@[0] != "mul_u32"@[0]);
    reveal_strlit("mul_u64");
    assert("div_i64"@[0] != "mul_u64"@[0]);
    reveal_strlit("mul_f32");
    assert("div_i64"@[0] != "mul_f32"@[0]);
    reveal_strlit("mul_f64");
    assert("div_i64"@[0] != "mul_f64"@[0]);
    reveal_strlit("div_i32");
    assert("div_i64"@[5] != "div_i32"@[5]);
    assert(int_mnemonic(IntOp::Div, IntKind::I64) =~= "div_i64"@);
}

/// `div_u32` reads as the instruction `DivU32`.
proof fn lemma_mnemonic_div_u32()
    ensures
        unit_mnemonic(int_mnemonic(IntOp::Div, IntKind::U32)) == Some(SurfaceInstruction::DivU32),
{
    lemma_unit_mnemonic_lengths();
    reveal_strlit("div_u32");
    reveal_strlit("add_i32");
    assert("div_u32"@[0] != "add_i32"@[0]);
    reveal_strlit("add_f32");
    assert("div_u32"@[0] != "add_f32"@[0]);
    reveal_strlit("add_i64");
    assert("div_u32"@[0] != "add_i64"@[0]);
    reveal_strlit("add_u32");
    assert("div_u32"@[0] != "add_u32"@[0]);
    reveal_strlit("add_u64");
    assert("div_u32"@[0] != "add_u64"@[0]);
    reveal_strlit("add_f64");
    assert("div_u32"@[0] != "add_f64"@[0]);
    reveal_strlit("sub_i32");
    assert("div_u32"@[0] != "sub_i32"@[0]);
    reveal_strlit("sub_i64");
    assert("div_u32"@[0] != "sub_i64"@[0]);
    reveal_strlit("sub_u32");
    assert("div_u32"@[0] != "sub_u32"@[0]);
    reveal_strlit("sub_u64");
    assert("div_u32"@[0] != "sub_u64"@[0]);
    reveal_strlit("sub_f32");
    assert("div_u32"@[0] != "sub_f32"@[0]);
    reveal_strlit("sub_f64");
    assert("div_u32"@[0] != "sub_f64"@[0]);
    reveal_strlit("mul_i32");
    assert("div_u32"@[0] != "mul_i32"@[0]);
    reveal_strlit("mul_i64");
    assert("div_u32"@[0] != "mul_i64"@[0]);
    reveal_strlit("mul_u32");
    assert("div_u32"@[0] != "mul_u32"@[0]);
    reveal_strlit("mul_u64");
    assert("div_u32"@[0] != "mul_u64"@[0]);
    reveal_strlit("mul_f32");
    assert("div_u32"@[0] != "mul_f32"@[0]);
    reveal_strlit("mul_f64");
    assert("div_u32"@[0] != "mul_f64"@[0]);
    reveal_strlit("div_i32");
    assert("div_u32"@[4] != "div_i32"@[4]);
    reveal_strlit("div_i64");
    assert("div_u32"@[4] != "div_i64"@[4]);
    assert(int_mnemonic(IntOp::Div, IntKind::U32) =~= "div_u32"@);
}

/// `div_u64` reads as the instruction `DivU64`.
proof fn lemma_mnemonic_div_u64()
    ensures
        unit_mnemonic(int_mnemonic(IntOp::Div, IntKind::U64)) == Some(SurfaceInstruction::DivU64),
{
    lemma_unit_mnemonic_lengths();
    reveal_strlit("div_u64");
    reveal_strlit("add_i32");
    assert("div_u64"@[0] != "add_i32"@[0]);
    reveal_strlit("add_f32");
    assert("div_u64"@[0] != "add_f32"@[0]);
    reveal_strlit("add_i64");
    assert("div_u64"@[0] != "add_i64"@[0]);
    reveal_strlit("add_u32");
    assert("div_u64"@[0] != "add_u32"@[0]);
    reveal_strlit("add_u64");
    assert("div_u64"@[0] != "add_u64"@[0]);
    reveal_strlit("add_f64");
    assert("div_u64"@[0] != "add_f64"@[0]);
    reveal_strlit("sub_i32");
    assert("div_u64"@[0] != "sub_i32"@[0]);
    reveal_strlit("sub_i64");
    assert("div_u64"@[0] != "sub_i64"@[0]);
    reveal_strlit("sub_u32");
    assert("div_u64"@[0] != "sub_u32"@[0]);
    reveal_strlit("sub_u64");
    assert("div_u64"@[0] != "sub_u64"@[0]);
    reveal_strlit("sub_f32");
    assert("div_u64"@[0] != "sub_f32"@[0]);
    reveal_strlit("sub_f64");
    assert("div_u64"@[0] != "sub_f64"@[0]);
    reveal_strlit("mul_i32");
    assert("div_u64"@[0] != "mul_i32"@[0]);
    reveal_strlit("mul_i64");
    assert("div_u64"@[0] != "mul_i64"@[0]);
    reveal_strlit("mul_u32");
    assert("div_u64"@[0] != "mul_u32"@[0]);
    reveal_strlit("mul_u64");
    assert("div_u64"@[0] != "mul_u64"@[0]);
    reveal_strlit("mul_f32");
    assert("div_u64"@[0] != "mul_f32"@[0]);
    reveal_strlit("mul_f64");
    assert("div_u64"@[0] != "mul_f64"@[0]);
    reveal_strlit("div_i32");
    assert("div_u64"@[4] != "div_i32"@[4]);
    reveal_strlit("div_i64");
    assert("div_u64"@[4] != "div_i64"@[4]);
    reveal_strlit("div_u32");
    assert("div_u64"@[5] != "div_u32"@[5]);
    assert(int_mnemonic(IntOp::Div, IntKind::U64) =~= "div_u64"@);
}

/// `rem_i32` reads as the instruction `RemI32`.
proof fn lemma_mnemonic_rem_i32()
    ensures
        unit_mnemonic(int_mnemonic(IntOp::Rem, IntKind::I32)) == Some(SurfaceInstruction::RemI32),
{
    lemma_unit_mnemonic_lengths();
    reveal_strlit("rem_i32");
    reveal_strlit("add_i32");
    assert("rem_i32"@[0] != "add_i32"@[0]);
    reveal_strlit("add_f32");
    assert("rem_i32"@[0] != "add_f32"@[0]);
    reveal_strlit("add_i64");
    assert("rem_i32"@[0] != "add_i64"@[0]);
    reveal_strlit("add_u32");
    assert("rem_i32"@[0] != "add_u32"@[0]);
    reveal_strlit("add_u64");
    assert("rem_i32"@[0] != "add_u64"@[0]);
    reveal_strlit("add_f64");
    assert("rem_i32"@[0] != "add_f64"@[0]);
    reveal_strlit("sub_i32");
    assert("rem_i32"@[0] != "sub_i32"@[0]);
    reveal_strlit("sub_i64");
    assert("rem_i32"@[0] != "sub_i64"@[0]);
    reveal_strlit("sub_u32");
    assert("rem_i32"@[0] != "sub_u32"@[0]);
    reveal_strlit("sub_u64");
    assert("rem_i32"@[0] != "sub_u64"@[0]);
    reveal_strlit("sub_f32");
    assert("rem_i32"@[0] != "sub_f32"@[0]);
    reveal_strlit("sub_f64");
    assert("rem_i32"@[0] != "sub_f64"@[0]);
    reveal_strlit("mul_i32");
    assert("rem_i32"@[0] != "mul_i32"@[0]);
    reveal_strlit("mul_i64");
    assert("rem_i32"@[0] != "mul_i64"@[0]);
    reveal_strlit("mul_u32");
    assert("rem_i32"@[0] != "mul_u32"@[0]);
    reveal_strlit("mul_u64");
    assert("rem_i32"@[0] != "mul_u64"@[0]);
    reveal_strlit("mul_f32");
    assert("rem_i32"@[0] != "mul_f32"@[0]);
    reveal_strlit("mul_f64");
    assert("rem_i32"@[0] != "mul_f64"@[0]);
    reveal_strlit("div_i32");
    assert("rem_i32"@[0] != "div_i32"@[0]);
    reveal_strlit("div_i64");
    assert("rem_i32"@[0] != "div_i64"@[0]);
    reveal_strlit("div_u32");
    assert("rem_i32"@[0] != "div_u32"@[0]);
    reveal_strlit("div_u64");
    assert("rem_i32"@[0] != "div_u64"@[0]);
    reveal_strlit("div_f32");
    assert("rem_i32"@[0] != "div_f32"@[0]);
    reveal_strlit("div_f64");
    assert("rem_i32"@[0] != "div_f64"@[0]);
    assert(int_mnemonic(IntOp::Rem, IntKind::I32) =~= "rem_i32"@);
}

/// `rem_i64` reads as the instruction `RemI64`.
proof fn lemma_mnemonic_rem_i64()
    ensures
        unit_mnemonic(int_mnemonic(IntOp::Rem, IntKind::I64)) == Some(SurfaceInstruction::RemI64),
{
    lemma_unit_mnemonic_lengths();
    reveal_strlit("rem_i64");
    reveal_strlit("add_i32");
    assert("rem_i64"@[0] != "add_i32"@[0]);
    reveal_strlit("add_f32");
    assert("rem_i64"@[0] != "add_f32"@[0]);
    reveal_strlit("add_i64");
    assert("rem_i64"@[0] != "add_i64"@[0]);
    reveal_strlit("add_u32");
    assert("rem_i64"@[0] != "add_u32"@[0]);
    reveal_strlit("add_u64");
    assert("rem_i64"@[0] != "add_u64"@[0]);
    reveal_strlit("add_f64");
    assert("rem_i64"@[0] != "add_f64"@[0]);
    reveal_strlit("sub_i32");
    assert("rem_i64"@[0] != "sub_i32"@[0]);
    reveal_strlit("sub_i64");
    assert("rem_i64"@[0] != "sub_i64"@[0]);
    reveal_strlit("sub_u32");
    assert("rem_i64"@[0] != "sub_u32"@[0]);
    reveal_strlit("sub_u64");
    assert("rem_i64"@[0] != "sub_u64"@[0]);
    reveal_strlit("sub_f32");
    assert("rem_i64"@[0] != "sub_f32"@[0]);
    reveal_strlit("sub_f64");
    assert("rem_i64"@[0] != "sub_f64"@[0]);
    reveal_strlit("mul_i32");
    assert("rem_i64"@[0] != "mul_i32"@[0]);
    reveal_strlit("mul_i64");
    assert("rem_i64"@[0] != "mul_i64"@[0]);
    reveal_strlit("mul_u32");
    assert("rem_i64"@[0] != "mul_u32"@[0]);
    reveal_strlit("mul_u64");
    assert("rem_i64"@[0] != "mul_u64"@[0]);
    reveal_strlit("mul_f32");
    assert("rem_i64"@[0] != "mul_f32"@[0]);
    reveal_strlit("mul_f64");
    assert("rem_i64"@[0] != "mul_f64"@[0]);
    reveal_strlit("div_i32");
    assert("rem_i64"@[0] != "div_i32"@[0]);
    reveal_strlit("div_i64");
    assert("rem_i64"@[0] != "div_i64"@[0]);
    reveal_strlit("div_u32");
    assert("rem_i64"@[0] != "div_u32"@[0]);
    reveal_strlit("div_u64");
    assert("rem_i64"@[0] != "div_u64"@[0]);
    reveal_strlit("div_f32");
    assert("rem_i64"@[0] != "div_f32"@[0]);
    reveal_strlit("div_f64");
    assert("rem_i64"@[0] != "div_f64"@[0]);
    reveal_strlit("rem_i32");
    assert("rem_i64"@[5] != "rem_i32"@[5]);
    assert(int_mnemonic(IntOp::Rem, IntKind::I64) =~= "rem_i64"@);
}

/// `rem_u32` reads as the instruction `RemU32`.
proof fn lemma_mnemonic_rem_u32()
    ensures
        unit_mnemonic(int_mnemonic(IntOp::Rem, IntKind::U32)) == Some(SurfaceInstruction::RemU32),
{
    lemma_unit_mnemonic_lengths();
    reveal_strlit("rem_u32");
    reveal_strlit("add_i32");
    assert("rem_u32"@[0] != "add_i32"@[0]);
    reveal_strlit("add_f32");
    assert("rem_u32"@[0] != "add_f32"@[0]);
    reveal_strlit("add_i64");
    assert("rem_u32"@[0] != "add_i64"@[0]);
    reveal_strlit("add_u32");
    assert("rem_u32"@[0] != "add_u32"@[0]);
    reveal_strlit("add_u64");
    assert("rem_u32"@[0] != "add_u64"@[0]);
    reveal_strlit("add_f64");
    assert("rem_u32"@[0] != "add_f64"@[0]);
    reveal_strlit("sub_i32");
    assert("rem_u32"@[0] != "sub_i32"@[0]);
    reveal_strlit("sub_i64");
    assert("rem_u32"@[0] != "sub_i64"@[0]);
    reveal_strlit("sub_u32");
    assert("rem_u32"@[0] != "sub_u32"@[0]);
    reveal_strlit("sub_u64");
    assert("rem_u32"@[0] != "sub_u64"@[0]);
    reveal_strlit("sub_f32");
    assert("rem_u32"@[0] != "sub_f32"@[0]);
    reveal_strlit("sub_f64");
    assert("rem_u32"@[0] != "sub_f64"@[0]);
    reveal_strlit("mul_i32");
    assert("rem_u32"@[0] != "mul_i32"@[0]);
    reveal_strlit("mul_i64");
    assert("rem_u32"@[0] != "mul_i64"@[0]);
    reveal_strlit("mul_u32");
    assert("rem_u32"@[0] != "mul_u32"@[0]);
    reveal_strlit("mul_u64");
    assert("rem_u32"@[0] != "mul_u64"@[0]);
    reveal_strlit("mul_f32");
    assert("rem_u32"@[0] != "mul_f32"@[0]);
    reveal_strlit("mul_f64");
    assert("rem_u32"@[0] != "mul_f64"@[0]);
    reveal_strlit("div_i32");
    assert("rem_u32"@[0] != "div_i32"@[0]);
    reveal_strlit("div_i64");
    assert("rem_u32"@[0] != "div_i64"@[0]);
    reveal_strlit("div_u32");
    assert("rem_u32"@[0] != "div_u32"@[0]);
    reveal_strlit("div_u64");
    assert("rem_u32"@[0] != "div_u64"@[0]);
    reveal_strlit("div_f32");
    assert("rem_u32"@[0] != "div_f32"@[0]);
    reveal_strlit("div_f64");
    assert("rem_u32"@[0] != "div_f64"@[0]);
    reveal_strlit("rem_i32");
    assert("rem_u32"@[4] != "rem_i32"@[4]);
    reveal_strlit("rem_i64");
    assert("rem_u32"@[4] != "rem_i64"@[4]);
    assert(int_mnemonic(IntOp::Rem, IntKind::U32) =~= "rem_u32"@);
}

/// `rem_u64` reads as the instruction `RemU64`.
proof fn lemma_mnemonic_rem_u64()
    ensures
        unit_mnemonic(int_mnemonic(IntOp::Rem, IntKind::U64)) == Some(SurfaceInstruction::RemU64),
{
    lemma_unit_mnemonic_lengths();
    reveal_strlit("rem_u64");
    reveal_strlit("add_i32");
    assert("rem_u64"@[0] != "add_i32"@[0]);
    reveal_strlit("add_f32");
    assert("rem_u64"@[0] != "add_f32"@[0]);
    reveal_strlit("add_i64");
    assert("rem_u64"@[0] != "add_i64"@[0]);
    reveal_strlit("add_u32");
    assert("rem_u64"@[0] != "add_u32"@[0]);
    reveal_strlit("add_u64");
    assert("rem_u64"@[0] != "add_u64"@[0]);
    reveal_strlit("add_f64");
    assert("rem_u64"@[0] != "add_f64"@[0]);
    reveal_strlit("sub_i32");
    assert("rem_u64"@[0] != "sub_i32"@[0]);
    reveal_strlit("sub_i64");
    assert("rem_u64"@[0] != "sub_i64"@[0]);
    reveal_strlit("sub_u32");
    assert("rem_u64"@[0] != "sub_u32"@[0]);
    reveal_strlit("sub_u64");
    assert("rem_u64"@[0] != "sub_u64"@[0]);
    reveal_strlit("sub_f32");
    assert("rem_u64"@[0] != "sub_f32"@[0]);
    reveal_strlit("sub_f64");
    assert("rem_u64"@[0] != "sub_f64"@[0]);
    reveal_strlit("mul_i32");
    assert("rem_u64"@[0] != "mul_i32"@[0]);
    reveal_strlit("mul_i64");
    assert("rem_u64"@[0] != "mul_i64"@[0]);
    reveal_strlit("mul_u32");
    assert("rem_u64"@[0] != "mul_u32"@[0]);
    reveal_strlit("mul_u64");
    assert("rem_u64"@[0] != "mul_u64"@[0]);
    reveal_strlit("mul_f32");
    assert("rem_u64"@[0] != "mul_f32"@[0]);
    reveal_strlit("mul_f64");
    assert("rem_u64"@[0] != "mul_f64"@[0]);
    reveal_strlit("div_i32");
    assert("rem_u64"@[0] != "div_i32"@[0]);
    reveal_strlit("div_i64");
    assert("rem_u64"@[0] != "div_i64"@[0]);
    reveal_strlit("div_u32");
    assert("rem_u64"@[0] != "div_u32"@[0]);
    reveal_strlit("div_u64");
    assert("rem_u64"@[0] != "div_u64"@[0]);
    reveal_strlit("div_f32");
    assert("rem_u64"@[0] != "div_f32"@[0]);
    reveal_strlit("div_f64");
    assert("rem_u64"@[0] != "div_f64"@[0]);
    reveal_strlit("rem_i32");
    assert("rem_u64"@[4] != "rem_i32"@[4]);
    reveal_strlit("rem_i64");
    assert("rem_u64"@[4] != "rem_i64"@[4]);
    reveal_strlit("rem_u32");
    assert("rem_u64"@[5] != "rem_u32"@[5]);
    assert(int_mnemonic(IntOp::Rem, IntKind::U64) =~= "rem_u64"@);
}

/// `shl_i32` reads as the instruction `ShlI32`.
proof fn lemma_mnemonic_shl_i32()
    ensures
        unit_mnemonic(int_mnemonic(IntOp::Shl, IntKind::I32)) == Some(SurfaceInstruction::ShlI32),
{
    lemma_unit_mnemonic_lengths();
    reveal_strlit("shl_i32");
    reveal_strlit("add_i32");
    assert("shl_i32"@[0] != "add_i32"@[0]);
    reveal_strlit("add_f32");
    assert("shl_i32"@[0] != "add_f32"@[0]);
    reveal_strlit("add_i64");
    assert("shl_i32"@[0] != "add_i64"@[0]);
    reveal_strlit("add_u32");
    assert("shl_i32"@[0] != "add_u32"@[0]);
    reveal_strlit("add_u64");
    assert("shl_i32"@[0] != "add_u64"@[0]);
    reveal_strlit("add_f64");
    assert("shl_i32"@[0] != "add_f64"@[0]);
    reveal_strlit("sub_i32");
    assert("shl_i32"@[1] != "sub_i32"@[1]);
    reveal_strlit("sub_i64");
    assert("shl_i32"@[1] != "sub_i64"@[1]);
    reveal_strlit("sub_u32");
    assert("shl_i32"@[1] != "sub_u32"@[1]);
    reveal_strlit("sub_u64");
    assert("shl_i32"@[1] != "sub_u64"@[1]);
    reveal_strlit("sub_f32");
    assert("shl_i32"@[1] != "sub_f32"@[1]);
    reveal_strlit("sub_f64");
    assert("shl_i32"@[1] != "sub_f64"@[1]);
    reveal_strlit("mul_i32");
    assert("shl_i32"@[0] != "mul_i32"@[0]);
    reveal_strlit("mul_i64");
    assert("shl_i32"@[0] != "mul_i64"@[0]);
    reveal_strlit("mul_u32");
    assert("shl_i32"@[0] != "mul_u32"@[0]);
    reveal_strlit("mul_u64");
    assert("shl_i32"@[0] != "mul_u64"@[0]);
    reveal_strlit("mul_f32");
    assert("shl_i32"@[0] != "mul_f32"@[0]);
    reveal_strlit("mul_f64");
    assert("shl_i32"@[0] != "mul_f64"@[0]);
    reveal_strlit("div_i32");
    assert("shl_i32"@[0] != "div_i32"@[0]);
    reveal_strlit("div_i64");
    assert("shl_i32"@[0] != "div_i64"@[0]);
    reveal_strlit("div_u32");
    assert("shl_i32"@[0] != "div_u32"@[0]);
    reveal_strlit("div_u64");
    assert("shl_i32"@[0] != "div_u64"@[0]);
    reveal_strlit("div_f32");
    assert("shl_i32"@[0] != "div_f32"@[0]);
    reveal_strlit("div_f64");
    assert("shl_i32"@[0] != "div_f64"@[0]);
    reveal_strlit("rem_i32");
    assert("shl_i32"@[0] != "rem_i32"@[0]);
    reveal_strlit("rem_i64");
    assert("shl_i32"@[0] != "rem_i64"@[0]);
    reveal_strlit("rem_u32");
    assert("shl_i32"@[0] != "rem_u32"@[0]);
    reveal_strlit("rem_u64");
    assert("shl_i32"@[0] != "rem_u64"@[0]);
    reveal_strlit("rem_f32");
    assert("shl_i32"@[0] != "rem_f32"@[0]);
    reveal_strlit("rem_f64");
    assert("shl_i32"@[0] != "rem_f64"@[0]);
    reveal_strlit("neg_i32");
    assert("shl_i32"@[0] != "neg_i32"@[0]);
    reveal_strlit("neg_i64");
    assert("shl_i32"@[0] != "neg_i64"@[0]);
    reveal_strlit("neg_f32");
    assert("shl_i32"@[0] != "neg_f32"@[0]);
    reveal_strlit("neg_f64");
    assert("shl_i32"@[0] != "neg_f64"@[0]);
    assert(int_mnemonic(IntOp::Shl, IntKind::I32) =~= "shl_i32"@);
}

/// `shl_i64` reads as the instruction `ShlI64`.
proof fn lemma_mnemonic_shl_i64()
    ensures
        unit_mnemonic(int_mnemonic(IntOp::Shl, IntKind::I64)) == Some(SurfaceInstruction::ShlI64),
{
    lemma_unit_mnemonic_lengths();
    reveal_strlit("shl_i64");
    reveal_strlit("add_i32");
    assert("shl_i64"@[0] != "add_i32"@[0]);
    reveal_strlit("add_f32");
    assert("shl_i64"@[0] != "add_f32"@[0]);
    reveal_strlit("add_i64");
    assert("shl_i64"@[0] != "add_i64"@[0]);
    reveal_strlit("add_u32");
    assert("shl_i64"@[0] != "add_u32"@[0]);
    reveal_strlit("add_u64");
    assert("shl_i64"@[0] != "add_u64"@[0]);
    reveal_strlit("add_f64");
    assert("shl_i64"@[0] != "add_f64"@[0]);
    reveal_strlit("sub_i32");
    assert("shl_i64"@[1] != "sub_i32"@[1]);
    reveal_strlit("sub_i64");
    assert("shl_i64"@[1] != "sub_i64"@[1]);
    reveal_strlit("sub_u32");
    assert("shl_i64"@[1] != "sub_u32"@[1]);
    reveal_strlit("sub_u64");
    assert("shl_i64"@[1] != "sub_u64"@[1]);
    reveal_strlit("sub_f32");
    assert("shl_i64"@[1] != "sub_f32"@[1]);
    reveal_strlit("sub_f64");
    assert("shl_i64"@[1] != "sub_f64"@[1]);
    reveal_strlit("mul_i32");
    assert("shl_i64"@[0] != "mul_i32"@[0]);
    reveal_strlit("mul_i64");
    assert("shl_i64"@[0] != "mul_i64"@[0]);
    reveal_strlit("mul_u32");
    assert("shl_i64"@[0] != "mul_u32"@[0]);
    reveal_strlit("mul_u64");
    assert("shl_i64"@[0] != "mul_u64"@[0]);
    reveal_strlit("mul_f32");
    assert("shl_i64"@[0] != "mul_f32"@[0]);
    reveal_strlit("mul_f64");
    assert("shl_i64"@[0] != "mul_f64"@[0]);
    reveal_strlit("div_i32");
    assert("shl_i64"@[0] != "div_i32"@[0]);
    reveal_strlit("div_i64");
    assert("shl_i64"@[0] != "div_i64"@[0]);
    reveal_strlit("div_u32");
    assert("shl_i64"@[0] != "div_u32"@[0]);
    reveal_strlit("div_u64");
    assert("shl_i64"@[0] != "div_u64"@[0]);
    reveal_strlit("div_f32");
    assert("shl_i64"@[0] != "div_f32"@[0]);
    reveal_strlit("div_f64");
    assert("shl_i64"@[0] != "div_f64"@[0]);
    reveal_strlit("rem_i32");
    assert("shl_i64"@[0] != "rem_i32"@[0]);
    reveal_strlit("rem_i64");
    assert("shl_i64"@[0] != "rem_i64"@[0]);
    reveal_strlit("rem_u32");
    assert("shl_i64"@[0] != "rem_u32"@[0]);
    reveal_strlit("rem_u64");
    assert("shl_i64"@[0] != "rem_u64"@[0]);
    reveal_strlit("rem_f32");
    assert("shl_i64"@[0] != "rem_f32"@[0]);
    reveal_strlit("rem_f64");
    assert("shl_i64"@[0] != "rem_f64"@[0]);
    reveal_strlit("neg_i32");
    assert("shl_i64"@[0] != "neg_i32"@[0]);
    reveal_strlit("neg_i64");
    assert("shl_i64"@[0] != "neg_i64"@[0]);
    reveal_strlit("neg_f32");
    assert("shl_i64"@[0] != "neg_f32"@[0]);
    reveal_strlit("neg_f64");
    assert("shl_i64"@[0] != "neg_f64"@[0]);
    reveal_strlit("shl_i32");
    assert("shl_i64"@[5] != "shl_i32"@[5]);
    assert(int_mnemonic(IntOp::Shl, IntKind::I64) =~= "shl_i64"@);
}

/// `shl_u32` reads as the instruction `ShlU32`.
proof fn lemma_mnemonic_shl_u32()
    ensures
        unit_mnemonic(int_mnemonic(IntOp::Shl, IntKind::U32)) == Some(SurfaceInstruction::ShlU32),
{
    lemma_unit_mnemonic_lengths();
    reveal_strlit("shl_u32");
    reveal_strlit("add_i32");
    assert("shl_u32"@[0] != "add_i32"@[0]);
    reveal_strlit("add_f32");
    assert("shl_u32"@[0] != "add_f32"@[0]);
    reveal_strlit("add_i64");
    assert("shl_u32"@[0] != "add_i64"@[0]);
    reveal_strlit("add_u32");
    assert("shl_u32"@[0] != "add_u32"@[0]);
    reveal_strlit("add_u64");
    assert("shl_u32"@[0] != "add_u64"@[0]);
    reveal_strlit("add_f64");
    assert("shl_u32"@[0] != "add_f64"@[0]);
    reveal_strlit("sub_i32");
    assert("shl_u32"@[1] != "sub_i32"@[1]);
    reveal_strlit("sub_i64");
    assert("shl_u32"@[1] != "sub_i64"@[1]);
    reveal_strlit("sub_u32");
    assert("shl_u32"@[1] != "sub_u32"@[1]);
    reveal_strlit("sub_u64");
    assert("shl_u32"@[1] != "sub_u64"@[1]);
    reveal_strlit("sub_f32");
    assert("shl_u32"@[1] != "sub_f32"@[1]);
    reveal_strlit("sub_f64");
    assert("shl_u32"@[1] != "sub_f64"@[1]);
    reveal_strlit("mul_i32");
    assert("shl_u32"@[0] != "mul_i32"@[0]);
    reveal_strlit("mul_i64");
    assert("shl_u32"@[0] != "mul_i64"@[0]);
    reveal_strlit("mul_u32");
    assert("shl_u32"@[0] != "mul_u32"@[0]);
    reveal_strlit("mul_u64");
    assert("shl_u32"@[0] != "mul_u64"@[0]);
    reveal_strlit("mul_f32");
    assert("shl_u32"@[0] != "mul_f32"@[0]);
    reveal_strlit("mul_f64");
    assert("shl_u32"@[0] != "mul_f64"@[0]);
    reveal_strlit("div_i32");
    assert("shl_u32"@[0] != "div_i32"@[0]);
    reveal_strlit("div_i64");
    assert("shl_u32"@[0] != "div_i64"@[0]);
    reveal_strlit("div_u32");
    assert("shl_u32"@[0] != "div_u32"@[0]);
    reveal_strlit("div_u64");
    assert("shl_u32"@[0] != "div_u64"@[0]);
    reveal_strlit("div_f32");
    assert("shl_u32"@[0] != "div_f32"@[0]);
    reveal_strlit("div_f64");
    assert("shl_u32"@[0] != "div_f64"@[0]);
    reveal_strlit("rem_i32");
    assert("shl_u32"@[0] != "rem_i32"@[0]);
    reveal_strlit("rem_i64");
    assert("shl_u32"@[0] != "rem_i64"@[0]);
    reveal_strlit("rem_u32");
    assert("shl_u32"@[0] != "rem_u32"@[0]);
    reveal_strlit("rem_u64");
    assert("shl_u32"@[0] != "rem_u64"@[0]);
    reveal_strlit("rem_f32");
    assert("shl_u32"@[0] != "rem_f32"@[0]);
    reveal_strlit("rem_f64");
    assert("shl_u32"@[0] != "rem_f64"@[0]);
    reveal_strlit("neg_i32");
    assert("shl_u32"@[0] != "neg_i32"@[0]);
    reveal_strlit("neg_i64");
    assert("shl_u32"@[0] != "neg_i64"@[0]);
    reveal_strlit("neg_f32");
    assert("shl_u32"@[0] != "neg_f32"@[0]);
    reveal_strlit("neg_f64");
    assert("shl_u32"@[0] != "neg_f64"@[0]);
    reveal_strlit("shl_i32");
    assert("shl_u32"@[4] != "shl_i32"@[4]);
    reveal_strlit("shl_i64");
    assert("shl_u32"@[4] != "shl_i64"@[4]);
    assert(int_mnemonic(IntOp::Shl, IntKind::U32) =~= "shl_u32"@);
}

/// `shl_u64` reads as the instruction `ShlU64`.
proof fn lemma_mnemonic_shl_u64()
    ensures
        unit_mnemonic(int_mnemonic(IntOp::Shl, IntKind::U64)) == Some(SurfaceInstruction::ShlU64),
{
    lemma_unit_mnemonic_lengths();
    reveal_strlit("shl_u64");
    reveal_strlit("add_i32");
    assert("shl_u64"@[0] != "add_i32"@[0]);
    reveal_strlit("add_f32");
    assert("shl_u64"@[0] != "add_f32"@[0]);
    reveal_strlit("add_i64");
    assert("shl_u64"@[0] != "add_i64"@[0]);
    reveal_strlit("add_u32");
    assert("shl_u64"@[0] != "add_u32"@[0]);
    reveal_strlit("add_u64");
    assert("shl_u64"@[0] != "add_u64"@[0]);
    reveal_strlit("add_f64");
    assert("shl_u64"@[0] != "add_f64"@[0]);
    reveal_strlit("sub_i32");
    assert("shl_u64"@[1] != "sub_i32"@[1]);
    reveal_strlit("sub_i64");
    assert("shl_u64"@[1] != "sub_i64"@[1]);
    reveal_strlit("sub_u32");
    assert("shl_u64"@[1] != "sub_u32"@[1]);
    reveal_strlit("sub_u64");
    assert("shl_u64"@[1] != "sub_u64"@[1]);
    reveal_strlit("sub_f32");
    assert("shl_u64"@[1] != "sub_f32"@[1]);
    reveal_strlit("sub_f64");
    assert("shl_u64"@[1] != "sub_f64"@[1]);
    reveal_strlit("mul_i32");
    assert("shl_u64"@[0] != "mul_i32"@[0]);
    reveal_strlit("mul_i64");
    assert("shl_u64"@[0] != "mul_i64"@[0]);
    reveal_strlit("mul_u32");
    assert("shl_u64"@[0] != "mul_u32"@[0]);
    reveal_strlit("mul_u64");
    assert("shl_u64"@[0] != "mul_u64"@[0]);
    reveal_strlit("mul_f32");
    assert("shl_u64"@[0] != "mul_f32"@[0]);
    reveal_strlit("mul_f64");
    assert("shl_u64"@[0] != "mul_f64"@[0]);
    reveal_strlit("div_i32");
    assert("shl_u64"@[0] != "div_i32"@[0]);
    reveal_strlit("div_i64");
    assert("shl_u64"@[0] != "div_i64"@[0]);
    reveal_strlit("div_u32");
    assert("shl_u64"@[0] != "div_u32"@[0]);
    reveal_strlit("div_u64");
    assert("shl_u64"@[0] != "div_u64"@[0]);
    reveal_strlit("div_f32");
    assert("shl_u64"@[0] != "div_f32"@[0]);
    reveal_strlit("div_f64");
    assert("shl_u64"@[0] != "div_f64"@[0]);
    reveal_strlit("rem_i32");
    assert("shl_u64"@[0] != "rem_i32"@[0]);
    reveal_strlit("rem_i64");
    assert("shl_u64"@[0] != "rem_i64"@[0]);
    reveal_strlit("rem_u32");
    assert("shl_u64"@[0] != "rem_u32"@[0]);
    reveal_strlit("rem_u64");
    assert("shl_u64"@[0] != "rem_u64"@[0]);
    reveal_strlit("rem_f32");
    assert("shl_u64"@[0] != "rem_f32"@[0]);
    reveal_strlit("rem_f64");
    assert("shl_u64"@[0] != "rem_f64"@[0]);
    reveal_strlit("neg_i32");
    assert("shl_u64"@[0] != "neg_i32"@[0]);
    reveal_strlit("neg_i64");
    assert("shl_u64"@[0] != "neg_i64"@[0]);
    reveal_strlit("neg_f32");
    assert("shl_u64"@[0] != "neg_f32"@[0]);
    reveal_strlit("neg_f64");
    assert("shl_u64"@[0] != "neg_f64"@[0]);
    reveal_strlit("shl_i32");
    assert("shl_u64"@[4] != "shl_i32"@[4]);
    reveal_strlit("shl_i64");
    assert("shl_u64"@[4] != "shl_i64"@[4]);
    reveal_strlit("shl_u32");
    assert("shl_u64"@[5] != "shl_u32"@[5]);
    assert(int_mnemonic(IntOp::Shl, IntKind::U64) =~= "shl_u64"@);
}

/// `shr_i32` reads as the instruction `ShrI32`.
proof fn lemma_mnemonic_shr_i32()
    ensures
        unit_mnemonic(int_mnemonic(IntOp::Shr, IntKind::I32)) == Some(SurfaceInstruction::ShrI32),
{
    lemma_unit_mnemonic_lengths();
    reveal_strlit("shr_i32");
    reveal_strlit("add_i32");
    assert("shr_i32"@[0] != "add_i32"@[0]);
    reveal_strlit("add_f32");
    assert("shr_i32"@[0] != "add_f32"@[0]);
    reveal_strlit("add_i64");
    assert("shr_i32"@[0] != "add_i64"@[0]);
    reveal_strlit("add_u32");
    assert("shr_i32"@[0] != "add_u32"@[0]);
    reveal_strlit("add_u64");
    assert("shr_i32"@[0] != "add_u64"@[0]);
    reveal_strlit("add_f64");
    assert("shr_i32"@[0] != "add_f64"@[0]);
    reveal_strlit("sub_i32");
    assert("shr_i32"@[1] != "sub_i32"@[1]);
    reveal_strlit("sub_i64");
    assert("shr_i32"@[1] != "sub_i64"@[1]);
    reveal_strlit("sub_u32");
    assert("shr_i32"@[1] != "sub_u32"@[1]);
    reveal_strlit("sub_u64");
    assert("shr_i32"@[1] != "sub_u64"@[1]);
    reveal_strlit("sub_f32");
    assert("shr_i32"@[1] != "sub_f32"@[1]);
    reveal_strlit("sub_f64");
    assert("shr_i32"@[1] != "sub_f64"@[1]);
    reveal_strlit("mul_i32");
    assert("shr_i32"@[0] != "mul_i32"@[0]);
    reveal_strlit("mul_i64");
    assert("shr_i32"@[0] != "mul_i64"@[0]);
    reveal_strlit("mul_u32");
    assert("shr_i32"@[0] != "mul_u32"@[0]);
    reveal_strlit("mul_u64");
    assert("shr_i32"@[0] != "mul_u64"@[0]);
    reveal_strlit("mul_f32");
    assert("shr_i32"@[0] != "mul_f32"@[0]);
    reveal_strlit("mul_f64");
    assert("shr_i32"@[0] != "mul_f64"@[0]);
    reveal_strlit("div_i32");
    assert("shr_i32"@[0] != "div_i32"@[0]);
    reveal_strlit("div_i64");
    assert("shr_i32"@[0] != "div_i64"@[0]);
    reveal_strlit("div_u32");
    assert("shr_i32"@[0] != "div_u32"@[0]);
    reveal_strlit("div_u64");
    assert("shr_i32"@[0] != "div_u64"@[0]);
    reveal_strlit("div_f32");
    assert("shr_i32"@[0] != "div_f32"@[0]);
    reveal_strlit("div_f64");
    assert("shr_i32"@[0] != "div_f64"@[0]);
    reveal_strlit("rem_i32");
    assert("shr_i32"@[0] != "rem_i32"@[0]);
    reveal_strlit("rem_i64");
    assert("shr_i32"@[0] != "rem_i64"@[0]);
    reveal_strlit("rem_u32");
    assert("shr_i32"@[0] != "rem_u32"@[0]);
    reveal_strlit("rem_u64");
    assert("shr_i32"@[0] != "rem_u64"@[0]);
    reveal_strlit("rem_f32");
    assert("shr_i32"@[0] != "rem_f32"@[0]);
    reveal_strlit("rem_f64");
    assert("shr_i32"@[0] != "rem_f64"@[0]);
    reveal_strlit("neg_i32");
    assert("shr_i32"@[0] != "neg_i32"@[0]);
    reveal_strlit("neg_i64");
    assert("shr_i32"@[0] != "neg_i64"@[0]);
    reveal_strlit("neg_f32");
    assert("shr_i32"@[0] != "neg_f32"@[0]);
    reveal_strlit("neg_f64");
    assert("shr_i32"@[0] != "neg_f64"@[0]);
    reveal_strlit("shl_i32");
    assert("shr_i32"@[2] != "shl_i32"@[2]);
    reveal_strlit("shl_i64");
    assert("shr_i32"@[2] != "shl_i64"@[2]);
    reveal_strlit("shl_u32");
    assert("shr_i32"@[2] != "shl_u32"@[2]);
    reveal_strlit("shl_u64");
    assert("shr_i32"@[2] != "shl_u64"@[2]);
    assert(int_mnemonic(IntOp::Shr, IntKind::I32) =~= "shr_i32"@);
}

/// `shr_i64` reads as the instruction `ShrI64`.
proof fn lemma_mnemonic_shr_i64()
    ensures
        unit_mnemonic(int_mnemonic(IntOp::Shr, IntKind::I64)) == Some(SurfaceInstruction::ShrI64),
{
    lemma_unit_mnemonic_lengths();
    reveal_strlit("shr_i64");
    reveal_strlit("add_i32");
    assert("shr_i64"@[0] != "add_i32"@[0]);
    reveal_strlit("add_f32");
    assert("shr_i64"@[0] != "add_f32"@[0]);
    reveal_strlit("add_i64");
    assert("shr_i64"@[0] != "add_i64"@[0]);
    reveal_strlit("add_u32");
    assert("shr_i64"@[0] != "add_u32"@[0]);
    reveal_strlit("add_u64");
    assert("shr_i64"@[0] != "add_u64"@[0]);
    reveal_strlit("add_f64");
    assert("shr_i64"@[0] != "add_f64"@[0]);
    reveal_strlit("sub_i32");
    assert("shr_i64"@[1] != "sub_i32"@[1]);
    reveal_strlit("sub_i64");
    assert("shr_i64"@[1] != "sub_i64"@[1]);
    reveal_strlit("sub_u32");
    assert("shr_i64"@[1] != "sub_u32"@[1]);
    reveal_strlit("sub_u64");
    assert("shr_i64"@[1] != "sub_u64"@[1]);
    reveal_strlit("sub_f32");
    assert("shr_i64"@[1] != "sub_f32"@[1]);
    reveal_strlit("sub_f64");
    assert("shr_i64"@[1] != "sub_f64"@[1]);
    reveal_strlit("mul_i32");
    assert("shr_i64"@[0] != "mul_i32"@[0]);
    reveal_strlit("mul_i64");
    assert("shr_i64"@[0] != "mul_i64"@[0]);
    reveal_strlit("mul_u32");
    assert("shr_i64"@[0] != "mul_u32"@[0]);
    reveal_strlit("mul_u64");
    assert("shr_i64"@[0] != "mul_u64"@[0]);
    reveal_strlit("mul_f32");
    assert("shr_i64"@[0] != "mul_f32"@[0]);
    reveal_strlit("mul_f64");
    assert("shr_i64"@[0] != "mul_f64"@[0]);
    reveal_strlit("div_i32");
    assert("shr_i64"@[0] != "div_i32"@[0]);
    reveal_strlit("div_i64");
    assert("shr_i64"@[0] != "div_i64"@[0]);
    reveal_strlit("div_u32");
    assert("shr_i64"@[0] != "div_u32"@[0]);
    reveal_strlit("div_u64");
    assert("shr_i64"@[0] != "div_u64"@[0]);
    reveal_strlit("div_f32");
    assert("shr_i64"@[0] != "div_f32"@[0]);
    reveal_strlit("div_f64");
    assert("shr_i64"@[0] != "div_f64"@[0]);
    reveal_strlit("rem_i32");
    assert("shr_i64"@[0] != "rem_i32"@[0]);
    reveal_strlit("rem_i64");
    assert("shr_i64"@[0] != "rem_i64"@[0]);
    reveal_strlit("rem_u32");
    assert("shr_i64"@[0] != "rem_u32"@[0]);
    reveal_strlit("rem_u64");
    assert("shr_i64"@[0] != "rem_u64"@[0]);
    reveal_strlit("rem_f32");
    assert("shr_i64"@[0] != "rem_f32"@[0]);
    reveal_strlit("rem_f64");
    assert("shr_i64"@[0] != "rem_f64"@[0]);
    reveal_strlit("neg_i32");
    assert("shr_i64"@[0] != "neg_i32"@[0]);
    reveal_strlit("neg_i64");
    assert("shr_i64"@[0] != "neg_i64"@[0]);
    reveal_strlit("neg_f32");
    assert("shr_i64"@[0] != "neg_f32"@[0]);
    reveal_strlit("neg_f64");
    assert("shr_i64"@[0] != "neg_f64"@[0]);
    reveal_strlit("shl_i32");
    assert("shr_i64"@[2] != "shl_i32"@[2]);
    reveal_strlit("shl_i64");
    assert("shr_i64"@[2] != "shl_i64"@[2]);
    reveal_strlit("shl_u32");
    assert("shr_i64"@[2] != "shl_u32"@[2]);
    reveal_strlit("shl_u64");
    assert("shr_i64"@[2] != "shl_u64"@[2]);
    reveal_strlit("shr_i32");
    assert("shr_i64"@[5] != "shr_i32"@[5]);
    assert(int_mnemonic(IntOp::Shr, IntKind::I64) =~= "shr_i64"@);
}

/// `shr_u32` reads as the instruction `ShrU32`.
proof fn lemma_mnemonic_shr_u32()
    ensures
        unit_mnemonic(int_mnemonic(IntOp::Shr, IntKind::U32)) == Some(SurfaceInstruction::ShrU32),
{
    lemma_unit_mnemonic_lengths();
    reveal_strlit("shr_u32");
    reveal_strlit("add_i32");
    assert("shr_u32"@[0] != "add_i32"@[0]);
    reveal_strlit("add_f32");
    assert("shr_u32"@[0] != "add_f32"@[0]);
    reveal_strlit("add_i64");
    assert("shr_u32"@[0] != "add_i64"@[0]);
    reveal_strlit("add_u32");
    assert("shr_u32"@[0] != "add_u32"@[0]);
    reveal_strlit("add_u64");
    assert("shr_u32"@[0] != "add_u64"@[0]);
    reveal_strlit("add_f64");
    assert("shr_u32"@[0] != "add_f64"@[0]);
    reveal_strlit("sub_i32");
    assert("shr_u32"@[1] != "sub_i32"@[1]);
    reveal_strlit("sub_i64");
    assert("shr_u32"@[1] != "sub_i64"@[1]);
    reveal_strlit("sub_u32");
    assert("shr_u32"@[1] != "sub_u32"@[1]);
    reveal_strlit("sub_u64");
    assert("shr_u32"@[1] != "sub_u64"@[1]);
    reveal_strlit("sub_f32");
    assert("shr_u32"@[1] != "sub_f32"@[1]);
    reveal_strlit("sub_f64");
    assert("shr_u32"@[1] != "sub_f64"@[1]);
    reveal_strlit("mul_i32");
    assert("shr_u32"@[0] != "mul_i32"@[0]);
    reveal_strlit("mul_i64");
    assert("shr_u32"@[0] != "mul_i64"@[0]);
    reveal_strlit("mul_u32");
    assert("shr_u32"@[0] != "mul_u32"@[0]);
    reveal_strlit("mul_u64");
    assert("shr_u32"@[0] != "mul_u64"@[0]);
    reveal_strlit("mul_f32");
    assert("shr_u32"@[0] != "mul_f32"@[0]);
    reveal_strlit("mul_f64");
    assert("shr_u32"@[0] != "mul_f64"@[0]);
    reveal_strlit("div_i32");
    assert("shr_u32"@[0] != "div_i32"@[0]);
    reveal_strlit("div_i64");
    assert("shr_u32"@[0] != "div_i64"@[0]);
    reveal_strlit("div_u32");
    assert("shr_u32"@[0] != "div_u32"@[0]);
    reveal_strlit("div_u64");
    assert("shr_u32"@[0] != "div_u64"@[0]);
    reveal_strlit("div_f32");
    assert("shr_u32"@[0] != "div_f32"@[0]);
    reveal_strlit("div_f64");
    assert("shr_u32"@[0] != "div_f64"@[0]);
    reveal_strlit("rem_i32");
    assert("shr_u32"@[0] != "rem_i32"@[0]);
    reveal_strlit("rem_i64");
    assert("shr_u32"@[0] != "rem_i64"@[0]);
    reveal_strlit("rem_u32");
    assert("shr_u32"@[0] != "rem_u32"@[0]);
    reveal_strlit("rem_u64");
    assert("shr_u32"@[0] != "rem_u64"@[0]);
    reveal_strlit("rem_f32");
    assert("shr_u32"@[0] != "rem_f32"@[0]);
    reveal_strlit("rem_f64");
    assert("shr_u32"@[0] != "rem_f64"@[0]);
    reveal_strlit("neg_i32");
    assert("shr_u32"@[0] != "neg_i32"@[0]);
    reveal_strlit("neg_i64");
    assert("shr_u32"@[0] != "neg_i64"@[0]);
    reveal_strlit("neg_f32");
    assert("shr_u32"@[0] != "neg_f32"@[0]);
    reveal_strlit("neg_f64");
    assert("shr_u32"@[0] != "neg_f64"@[0]);
    reveal_strlit("shl_i32");
    assert("shr_u32"@[2] != "shl_i32"@[2]);
    reveal_strlit("shl_i64");
    assert("shr_u32"@[2] != "shl_i64"@[2]);
    reveal_strlit("shl_u32");
    assert("shr_u32"@[2] != "shl_u32"@[2]);
    reveal_strlit("shl_u64");
    assert("shr_u32"@[2] != "shl_u64"@[2]);
    reveal_strlit("shr_i32");
    assert("shr_u32"@[4] != "shr_i32"@[4]);
    reveal_strlit("shr_i64");
    assert("shr_u32"@[4] != "shr_i64"@[4]);
    assert(int_mnemonic(IntOp::Shr, IntKind::U32) =~= "shr_u32"@);
}

/// `shr_u64` reads as the instruction `ShrU64`.
proof fn lemma_mnemonic_shr_u64()
    ensures
        unit_mnemonic(int_mnemonic(IntOp::Shr, IntKind::U64)) == Some(SurfaceInstruction::ShrU64),
{
    lemma_unit_mnemonic_lengths();
    reveal_strlit("shr_u64");
    reveal_strlit("add_i32");
    assert("shr_u64"@[0] != "add_i32"@[0]);
    reveal_strlit("add_f32");
    assert("shr_u64"@[0] != "add_f32"@[0]);
    reveal_strlit("add_i64");
    assert("shr_u64"@[0] != "add_i64"@[0]);
    reveal_strlit("add_u32");
    assert("shr_u64"@[0] != "add_u32"@[0]);
    reveal_strlit("add_u64");
    assert("shr_u64"@[0] != "add_u64"@[0]);
    reveal_strlit("add_f64");
    assert("shr_u64"@[0] != "add_f64"@[0]);
    reveal_strlit("sub_i32");
    assert("shr_u64"@[1] != "sub_i32"@[1]);
    reveal_strlit("sub_i64");
    assert("shr_u64"@[1] != "sub_i64"@[1]);
    reveal_strlit("sub_u32");
    assert("shr_u64"@[1] != "sub_u32"@[1]);
    reveal_strlit("sub_u64");
    assert("shr_u64"@[1] != "sub_u64"@[1]);
    reveal_strlit("sub_f32");
    assert("shr_u64"@[1] != "sub_f32"@[1]);
    reveal_strlit("sub_f64");
    assert("shr_u64"@[1] != "sub_f64"@[1]);
    reveal_strlit("mul_i32");
    assert("shr_u64"@[0] != "mul_i32"@[0]);
    reveal_strlit("mul_i64");
    assert("shr_u64"@[0] != "mul_i64"@[0]);
    reveal_strlit("mul_u32");
    assert("shr_u64"@[0] != "mul_u32"@[0]);
    reveal_strlit("mul_u64");
    assert("shr_u64"@[0] != "mul_u64"@[0]);
    reveal_strlit("mul_f32");
    assert("shr_u64"@[0] != "mul_f32"@[0]);
    reveal_strlit("mul_f64");
    assert("shr_u64"@[0] != "mul_f64"@[0]);
    reveal_strlit("div_i32");
    assert("shr_u64"@[0] != "div_i32"@[0]);
    reveal_strlit("div_i64");
    assert("shr_u64"@[0] != "div_i64"@[0]);
    reveal_strlit("div_u32");
    assert("shr_u64"@[0] != "div_u32"@[0]);
    reveal_strlit("div_u64");
    assert("shr_u64"@[0] != "div_u64"@[0]);
    reveal_strlit("div_f32");
    assert("shr_u64"@[0] != "div_f32"@[0]);
    reveal_strlit("div_f64");
    assert("shr_u64"@[0] != "div_f64"@[0]);
    reveal_strlit("rem_i32");
    assert("shr_u64"@[0] != "rem_i32"@[0]);
    reveal_strlit("rem_i64");
    assert("shr_u64"@[0] != "rem_i64"@[0]);
    reveal_strlit("rem_u32");
    assert("shr_u64"@[0] != "rem_u32"@[0]);
    reveal_strlit("rem_u64");
    assert("shr_u64"@[0] != "rem_u64"@[0]);
    reveal_strlit("rem_f32");
    assert("shr_u64"@[0] != "rem_f32"@[0]);
    reveal_strlit("rem_f64");
    assert("shr_u64"@[0] != "rem_f64"@[0]);
    reveal_strlit("neg_i32");
    assert("shr_u64"@[0] != "neg_i32"@[0]);
    reveal_strlit("neg_i64");
    assert("shr_u64"@[0] != "neg_i64"@[0]);
    reveal_strlit("neg_f32");
    assert("shr_u64"@[0] != "neg_f32"@[0]);
    reveal_strlit("neg_f64");
    assert("shr_u64"@[0] != "neg_f64"@[0]);
    reveal_strlit("shl_i32");
    assert("shr_u64"@[2] != "shl_i32"@[2]);
    reveal_strlit("shl_i64");
    assert("shr_u64"@[2] != "shl_i64"@[2]);
    reveal_strlit("shl_u32");
    assert("shr_u64"@[2] != "shl_u32"@[2]);
    reveal_strlit("shl_u64");
    assert("shr_u64"@[2] != "shl_u64"@[2]);
    reveal_strlit("shr_i32");
    assert("shr_u64"@[4] != "shr_i32"@[4]);
    reveal_strlit("shr_i64");
    assert("shr_u64"@[4] != "shr_i64"@[4]);
    reveal_strlit("shr_u32");
    assert("shr_u64"@[5] != "shr_u32"@[5]);
    assert(int_mnemonic(IntOp::Shr, IntKind::U64) =~= "shr_u64"@);
}

/// `rol_i32` reads as the instruction `RolI32`.
proof fn lemma_mnemonic_rol_i32()
    ensures
        unit_mnemonic(int_mnemonic(IntOp::Rol, IntKind::I32)) == Some(SurfaceInstruction::RolI32),
{
    lemma_unit_mnemonic_lengths();
    reveal_strlit("rol_i32");
    reveal_strlit("add_i32");
    assert("rol_i32"@[0] != "add_i32"@[0]);
    reveal_strlit("add_f32");
    assert("rol_i32"@[0] != "add_f32"@[0]);
    reveal_strlit("add_i64");
    assert("rol_i32"@[0] != "add_i64"@[0]);
    reveal_strlit("add_u32");
    assert("rol_i32"@[0] != "add_u32"@[0]);
    reveal_strlit("add_u64");
    assert("rol_i32"@[0] != "add_u64"@[0]);
    reveal_strlit("add_f64");
    assert("rol_i32"@[0] != "add_f64"@[0]);
    reveal_strlit("sub_i32");
    assert("rol_i32"@[0] != "sub_i32"@[0]);
    reveal_strlit("sub_i64");
    assert("rol_i32"@[0] != "sub_i64"@[0]);
    reveal_strlit("sub_u32");
    assert("rol_i32"@[0] != "sub_u32"@[0]);
    reveal_strlit("sub_u64");
    assert("rol_i32"@[0] != "sub_u64"@[0]);
    reveal_strlit("sub_f32");
    assert("rol_i32"@[0] != "sub_f32"@[0]);
    reveal_strlit("sub_f64");
    assert("rol_i32"@[0] != "sub_f64"@[0]);
    reveal_strlit("mul_i32");
    assert("rol_i32"@[0] != "mul_i32"@[0]);
    reveal_strlit("mul_i64");
    assert("rol_i32"@[0] != "mul_i64"@[0]);
    reveal_strlit("mul_u32");
    assert("rol_i32"@[0] != "mul_u32"@[0]);
    reveal_strlit("mul_u64");
    assert("rol_i32"@[0] != "mul_u64"@[0]);
    reveal_strlit("mul_f32");
    assert("rol_i32"@[0] != "mul_f32"@[0]);
    reveal_strlit("mul_f64");
    assert("rol_i32"@[0] != "mul_f64"@[0]);
    reveal_strlit("div_i32");
    assert("rol_i32"@[0] != "div_i32"@[0]);
    reveal_strlit("div_i64");
    assert("rol_i32"@[0] != "div_i64"@[0]);
    reveal_strlit("div_u32");
    assert("rol_i32"@[0] != "div_u32"@[0]);
    reveal_strlit("div_u64");
    assert("rol_i32"@[0] != "div_u64"@[0]);
    reveal_strlit("div_f32");
    assert("rol_i32"@[0] != "div_f32"@[0]);
    reveal_strlit("div_f64");
    assert("rol_i32"@[0] != "div_f64"@[0]);
    reveal_strlit("rem_i32");
    assert("rol_i32"@[1] != "rem_i32"@[1]);
    reveal_strlit("rem_i64");
    assert("rol_i32"@[1] != "rem_i64"@[1]);
    reveal_strlit("rem_u32");
    assert("rol_i32"@[1] != "rem_u32"@[1]);
    reveal_strlit("rem_u64");
    assert("rol_i32"@[1] != "rem_u64"@[1]);
    reveal_strlit("rem_f32");
    assert("rol_i32"@[1] != "rem_f32"@[1]);
    reveal_strlit("rem_f64");
    assert("rol_i32"@[1] != "rem_f64"@[1]);
    reveal_strlit("neg_i32");
    assert("rol_i32"@[0] != "neg_i32"@[0]);
    reveal_strlit("neg_i64");
    assert("rol_i32"@[0] != "neg_i64"@[0]);
    reveal_strlit("neg_f32");
    assert("rol_i32"@[0] != "neg_f32"@[0]);
    reveal_strlit("neg_f64");
    assert("rol_i32"@[0] != "neg_f64"@[0]);
    reveal_strlit("shl_i32");
    assert("rol_i32"@[0] != "shl_i32"@[0]);
    reveal_strlit("shl_i64");
    assert("rol_i32"@[0] != "shl_i64"@[0]);
    reveal_strlit("shl_u32");
    assert("rol_i32"@[0] != "shl_u32"@[0]);
    reveal_strlit("shl_u64");
    assert("rol_i32"@[0] != "shl_u64"@[0]);
    reveal_strlit("shr_i32");
    assert("rol_i32"@[0] != "shr_i32"@[0]);
    reveal_strlit("shr_i64");
    assert("rol_i32"@[0] != "shr_i64"@[0]);
    reveal_strlit("shr_u32");
    assert("rol_i32"@[0] != "shr_u32"@[0]);
    reveal_strlit("shr_u64");
    assert("rol_i32"@[0] != "shr_u64"@[0]);
    assert(int_mnemonic(IntOp::Rol, IntKind::I32) =~= "rol_i32"@);
}

/// `rol_i64` reads as the instruction `RolI64`.
proof fn lemma_mnemonic_rol_i64()
    ensures
        unit_mnemonic(int_mnemonic(IntOp::Rol, IntKind::I64)) == Some(SurfaceInstruction::RolI64),
{
    lemma_unit_mnemonic_lengths();
    reveal_strlit("rol_i64");
    reveal_strlit("add_i32");
    assert("rol_i64"@[0] != "add_i32"@[0]);
    reveal_strlit("add_f32");
    assert("rol_i64"@[0] != "add_f32"@[0]);
    reveal_strlit("add_i64");
    assert("rol_i64"@[0] != "add_i64"@[0]);
    reveal_strlit("add_u32");
    assert("rol_i64"@[0] != "add_u32"@[0]);
    reveal_strlit("add_u64");
    assert("rol_i64"@[0] != "add_u64"@[0]);
    reveal_strlit("add_f64");
    assert("rol_i64"@[0] != "add_f64"@[0]);
    reveal_strlit("sub_i32");
    assert("rol_i64"@[0] != "sub_i32"@[0]);
    reveal_strlit("sub_i64");
    assert("rol_i64"@[0] != "sub_i64"@[0]);
    reveal_strlit("sub_u32");
    assert("rol_i64"@[0] != "sub_u32"@[0]);
    reveal_strlit("sub_u64");
    assert("rol_i64"@[0] != "sub_u64"@[0]);
    reveal_strlit("sub_f32");
    assert("rol_i64"@[0] != "sub_f32"@[0]);
    reveal_strlit("sub_f64");
    assert("rol_i64"@[0] != "sub_f64"@[0]);
    reveal_strlit("mul_i32");
    assert("rol_i64"@[0] != "mul_i32"@[0]);
    reveal_strlit("mul_i64");
    assert("rol_i64"@[0] != "mul_i64"@[0]);
    reveal_strlit("mul_u32");
    assert("rol_i64"@[0] != "mul_u32"@[0]);
    reveal_strlit("mul_u64");
    assert("rol_i64"@[0] != "mul_u64"@[0]);
    reveal_strlit("mul_f32");
    assert("rol_i64"@[0] != "mul_f32"@[0]);
    reveal_strlit("mul_f64");
    assert("rol_i64"@[0] != "mul_f64"@[0]);
    reveal_strlit("div_i32");
    assert("rol_i64"@[0] != "div_i32"@[0]);
    reveal_strlit("div_i64");
    assert("rol_i64"@[0] != "div_i64"@[0]);
    reveal_strlit("div_u32");
    assert("rol_i64"@[0] != "div_u32"@[0]);
    reveal_strlit("div_u64");
    assert("rol_i64"@[0] != "div_u64"@[0]);
    reveal_strlit("div_f32");
    assert("rol_i64"@[0] != "div_f32"@[0]);
    reveal_strlit("div_f64");
    assert("rol_i64"@[0] != "div_f64"@[0]);
    reveal_strlit("rem_i32");
    assert("rol_i64"@[1] != "rem_i32"@[1]);
    reveal_strlit("rem_i64");
    assert("rol_i64"@[1] != "rem_i64"@[1]);
    reveal_strlit("rem_u32");
    assert("rol_i64"@[1] != "rem_u32"@[1]);
    reveal_strlit("rem_u64");
    assert("rol_i64"@[1] != "rem_u64"@[1]);
    reveal_strlit("rem_f32");
    assert("rol_i64"@[1] != "rem_f32"@[1]);
    reveal_strlit("rem_f64");
    assert("rol_i64"@[1] != "rem_f64"@[1]);
    reveal_strlit("neg_i32");
    assert("rol_i64"@[0] != "neg_i32"@[0]);
    reveal_strlit("neg_i64");
    assert("rol_i64"@[0] != "neg_i64"@[0]);
    reveal_strlit("neg_f32");
    assert("rol_i64"@[0] != "neg_f32"@[0]);
    reveal_strlit("neg_f64");
    assert("rol_i64"@[0] != "neg_f64"@[0]);
    reveal_strlit("shl_i32");
    assert("rol_i64"@[0] != "shl_i32"@[0]);
    reveal_strlit("shl_i64");
    assert("rol_i64"@[0] != "shl_i64"@[0]);
    reveal_strlit("shl_u32");
    assert("rol_i64"@[0] != "shl_u32"@[0]);
    reveal_strlit("shl_u64");
    assert("rol_i64"@[0] != "shl_u64"@[0]);
    reveal_strlit("shr_i32");
    assert("rol_i64"@[0] != "shr_i32"@[0]);
    reveal_strlit("shr_i64");
    assert("rol_i64"@[0] != "shr_i64"@[0]);
    reveal_strlit("shr_u32");
    assert("rol_i64"@[0] != "shr_u32"@[0]);
    reveal_strlit("shr_u64");
    assert("rol_i64"@[0] != "shr_u64"@[0]);
    reveal_strlit("rol_i32");
    assert("rol_i64"@[5] != "rol_i32"@[5]);
    assert(int_mnemonic(IntOp::Rol, IntKind::I64) =~= "rol_i64"@);
}

/// `rol_u32` reads as the instruction `RolU32`.
proof fn lemma_mnemonic_rol_u32()
    ensures
        unit_mnemonic(int_mnemonic(IntOp::Rol, IntKind::U32)) == Some(SurfaceInstruction::RolU32),
{
    lemma_unit_mnemonic_lengths();
    reveal_strlit("rol_u32");
    reveal_strlit("add_i32");
    assert("rol_u32"@[0] != "add_i32"@[0]);
    reveal_strlit("add_f32");
    assert("rol_u32"@[0] != "add_f32"@[0]);
    reveal_strlit("add_i64");
    assert("rol_u32"@[0] != "add_i64"@[0]);
    reveal_strlit("add_u32");
    assert("rol_u32"@[0] != "add_u32"@[0]);
    reveal_strlit("add_u64");
    assert("rol_u32"@[0] != "add_u64"@[0]);
    reveal_strlit("add_f64");
    assert("rol_u32"@[0] != "add_f64"@[0]);
    reveal_strlit("sub_i32");
    assert("rol_u32"@[0] != "sub_i32"@[0]);
    reveal_strlit("sub_i64");
    assert("rol_u32"@[0] != "sub_i64"@[0]);
    reveal_strlit("sub_u32");
    assert("rol_u32"@[0] != "sub_u32"@[0]);
    reveal_strlit("sub_u64");
    assert("rol_u32"@[0] != "sub_u64"@[0]);
    reveal_strlit("sub_f32");
    assert("rol_u32"@[0] != "sub_f32"@[0]);
    reveal_strlit("sub_f64");
    assert("rol_u32"@[0] != "sub_f64"@[0]);
    reveal_strlit("mul_i32");
    assert("rol_u32"@[0] != "mul_i32"@[0]);
    reveal_strlit("mul_i64");
    assert("rol_u32"@[0] != "mul_i64"@[0]);
    reveal_strlit("mul_u32");
    assert("rol_u32"@[0] != "mul_u32"@[0]);
    reveal_strlit("mul_u64");
    assert("rol_u32"@[0] != "mul_u64"@[0]);
    reveal_strlit("mul_f32");
    assert("rol_u32"@[0] != "mul_f32"@[0]);
    reveal_strlit("mul_f64");
    assert("rol_u32"@[0] != "mul_f64"@[0]);
    reveal_strlit("div_i32");
    assert("rol_u32"@[0] != "div_i32"@[0]);
    reveal_strlit("div_i64");
    assert("rol_u32"@[0] != "div_i64"@[0]);
    reveal_strlit("div_u32");
    assert("rol_u32"@[0] != "div_u32"@[0]);
    reveal_strlit("div_u64");
    assert("rol_u32"@[0] != "div_u64"@[0]);
    reveal_strlit("div_f32");
    assert("rol_u32"@[0] != "div_f32"@[0]);
    reveal_strlit("div_f64");
    assert("rol_u32"@[0] != "div_f64"@[0]);
    reveal_strlit("rem_i32");
    assert("rol_u32"@[1] != "rem_i32"@[1]);
    reveal_strlit("rem_i64");
    assert("rol_u32"@[1] != "rem_i64"@[1]);
    reveal_strlit("rem_u32");
    assert("rol_u32"@[1] != "rem_u32"@[1]);
    reveal_strlit("rem_u64");
    assert("rol_u32"@[1] != "rem_u64"@[1]);
    reveal_strlit("rem_f32");
    assert("rol_u32"@[1] != "rem_f32"@[1]);
    reveal_strlit("rem_f64");
    assert("rol_u32"@[1] != "rem_f64"@[1]);
    reveal_strlit("neg_i32");
    assert("rol_u32"@[0] != "neg_i32"@[0]);
    reveal_strlit("neg_i64");
    assert("rol_u32"@[0] != "neg_i64"@[0]);
    reveal_strlit("neg_f32");
    assert("rol_u32"@[0] != "neg_f32"@[0]);
    reveal_strlit("neg_f64");
    assert("rol_u32"@[0] != "neg_f64"@[0]);
    reveal_strlit("shl_i32");
    assert("rol_u32"@[0] != "shl_i32"@[0]);
    reveal_strlit("shl_i64");
    assert("rol_u32"@[0] != "shl_i64"@[0]);
    reveal_strlit("shl_u32");
    assert("rol_u32"@[0] != "shl_u32"@[0]);
    reveal_strlit("shl_u64");
    assert("rol_u32"@[0] != "shl_u64"@[0]);
    reveal_strlit("shr_i32");
    assert("rol_u32"@[0] != "shr_i32"@[0]);
    reveal_strlit("shr_i64");
    assert("rol_u32"@[0] != "shr_i64"@[0]);
    reveal_strlit("shr_u32");
    assert("rol_u32"@[0] != "shr_u32"@[0]);
    reveal_strlit("shr_u64");
    assert("rol_u32"@[0] != "shr_u64"@[0]);
    reveal_strlit("rol_i32");
    assert("rol_u32"@[4] != "rol_i32"@[4]);
    reveal_strlit("rol_i64");
    assert("rol_u32"@[4] != "rol_i64"@[4]);
    assert(int_mnemonic(IntOp::Rol, IntKind::U32) =~= "rol_u32"@);
}

/// `rol_u64` reads as the instruction `RolU64`.
proof fn lemma_mnemonic_rol_u64()
    ensures
        unit_mnemonic(int_mnemonic(IntOp::Rol, IntKind::U64)) == Some(SurfaceInstruction::RolU64),
{
    lemma_unit_mnemonic_lengths();
    reveal_strlit("rol_u64");
    reveal_strlit("add_i32");
    assert("rol_u64"@[0] != "add_i32"@[0]);
    reveal_strlit("add_f32");
    assert("rol_u64"@[0] != "add_f32"@[0]);
    reveal_strlit("add_i64");
    assert("rol_u64"@[0] != "add_i64"@[0]);
    reveal_strlit("add_u32");
    assert("rol_u64"@[0] != "add_u32"@[0]);
    reveal_strlit("add_u64");
    assert("rol_u64"@[0] != "add_u64"@[0]);
    reveal_strlit("add_f64");
    assert("rol_u64"@[0] != "add_f64"@[0]);
    reveal_strlit("sub_i32");
    assert("rol_u64"@[0] != "sub_i32"@[0]);
    reveal_strlit("sub_i64");
    assert("rol_u64"@[0] != "sub_i64"@[0]);
    reveal_strlit("sub_u32");
    assert("rol_u64"@[0] != "sub_u32"@[0]);
    reveal_strlit("sub_u64");
    assert("rol_u64"@[0] != "sub_u64"@[0]);
    reveal_strlit("sub_f32");
    assert("rol_u64"@[0] != "sub_f32"@[0]);
    reveal_strlit("sub_f64");
    assert("rol_u64"@[0] != "sub_f64"@[0]);
    reveal_strlit("mul_i32");
    assert("rol_u64"@[0] != "mul_i32"@[0]);
    reveal_strlit("mul_i64");
    assert("rol_u64"@[0] != "mul_i64"@[0]);
    reveal_strlit("mul_u32");
    assert("rol_u64"@[0] != "mul_u32"@[0]);
    reveal_strlit("mul_u64");
    assert("rol_u64"@[0] != "mul_u64"@[0]);
    reveal_strlit("mul_f32");
    assert("rol_u64"@[0] != "mul_f32"@[0]);
    reveal_strlit("mul_f64");
    assert("rol_u64"@[0] != "mul_f64"@[0]);
    reveal_strlit("div_i32");
    assert("rol_u64"@[0] != "div_i32"@[0]);
    reveal_strlit("div_i64");
    assert("rol_u64"@[0] != "div_i64"@[0]);
    reveal_strlit("div_u32");
    assert("rol_u64"@[0] != "div_u32"@[0]);
    reveal_strlit("div_u64");
    assert("rol_u64"@[0] != "div_u64"@[0]);
    reveal_strlit("div_f32");
    assert("rol_u64"@[0] != "div_f32"@[0]);
    reveal_strlit("div_f64");
    assert("rol_u64"@[0] != "div_f64"@[0]);
    reveal_strlit("rem_i32");
    assert("rol_u64"@[1] != "rem_i32"@[1]);
    reveal_strlit("rem_i64");
    assert("rol_u64"@[1] != "rem_i64"@[1]);
    reveal_strlit("rem_u32");
    assert("rol_u64"@[1] != "rem_u32"@[1]);
    reveal_strlit("rem_u64");
    assert("rol_u64"@[1] != "rem_u64"@[1]);
    reveal_strlit("rem_f32");
    assert("rol_u64"@[1] != "rem_f32"@[1]);
    reveal_strlit("rem_f64");
    assert("rol_u64"@[1] != "rem_f64"@[1]);
    reveal_strlit("neg_i32");
    assert("rol_u64"@[0] != "neg_i32"@[0]);
    reveal_strlit("neg_i64");
    assert("rol_u64"@[0] != "neg_i64"@[0]);
    reveal_strlit("neg_f32");
    assert("rol_u64"@[0] != "neg_f32"@[0]);
    reveal_strlit("neg_f64");
    assert("rol_u64"@[0] != "neg_f64"@[0]);
    reveal_strlit("shl_i32");
    assert("rol_u64"@[0] != "shl_i32"@[0]);
    reveal_strlit("shl_i64");
    assert("rol_u64"@[0] != "shl_i64"@[0]);
    reveal_strlit("shl_u32");
    assert("rol_u64"@[0] != "shl_u32"@[0]);
    reveal_strlit("shl_u64");
    assert("rol_u64"@[0] != "shl_u64"@[0]);
    reveal_strlit("shr_i32");
    assert("rol_u64"@[0] != "shr_i32"@[0]);
    reveal_strlit("shr_i64");
    assert("rol_u64"@[0] != "shr_i64"@[0]);
    reveal_strlit("shr_u32");
    assert("rol_u64"@[0] != "shr_u32"@[0]);
    reveal_strlit("shr_u64");
    assert("rol_u64"@[0] != "shr_u64"@[0]);
    reveal_strlit("rol_i32");
    assert("rol_u64"@[4] != "rol_i32"@[4]);
    reveal_strlit("rol_i64");
    assert("rol_u64"@[4] != "rol_i64"@[4]);
    reveal_strlit("rol_u32");
    assert("rol_u64"@[5] != "rol_u32"@[5]);
    assert(int_mnemonic(IntOp::Rol, IntKind::U64) =~= "rol_u64"@);
}

/// `ror_i32` reads as the instruction `RorI32`.
proof fn lemma_mnemonic_ror_i32()
    ensures
        unit_mnemonic(int_mnemonic(IntOp::Ror, IntKind::I32)) == Some(SurfaceInstruction::RorI32),
{
    lemma_unit_mnemonic_lengths();
    reveal_strlit("ror_i32");
    reveal_strlit("add_i32");
    assert("ror_i32"@[0] != "add_i32"@[0]);
    reveal_strlit("add_f32");
    assert("ror_i32"@[0] != "add_f32"@[0]);
    reveal_strlit("add_i64");
    assert("ror_i32"@[0] != "add_i64"@[0]);
    reveal_strlit("add_u32");
    assert("ror_i32"@[0] != "add_u32"@[0]);
    reveal_strlit("add_u64");
    assert("ror_i32"@[0] != "add_u64"@[0]);
    reveal_strlit("add_f64");
    assert("ror_i32"@[0] != "add_f64"@[0]);
    reveal_strlit("sub_i32");
    assert("ror_i32"@[0] != "sub_i32"@[0]);
    reveal_strlit("sub_i64");
    assert("ror_i32"@[0] != "sub_i64"@[0]);
    reveal_strlit("sub_u32");
    assert("ror_i32"@[0] != "sub_u32"@[0]);
    reveal_strlit("sub_u64");
    assert("ror_i32"@[0] != "sub_u64"@[0]);
    reveal_strlit("sub_f32");
    assert("ror_i32"@[0] != "sub_f32"@[0]);
    reveal_strlit("sub_f64");
    assert("ror_i32"@[0] != "sub_f64"@[0]);
    reveal_strlit("mul_i32");
    assert("ror_i32"@[0] != "mul_i32"@[0]);
    reveal_strlit("mul_i64");
    assert("ror_i32"@[0] != "mul_i64"@[0]);
    reveal_strlit("mul_u32");
    assert("ror_i32"@[0] != "mul_u32"@[0]);
    reveal_strlit("mul_u64");
    assert("ror_i32"@[0] != "mul_u64"@[0]);
    reveal_strlit("mul_f32");
    assert("ror_i32"@[0] != "mul_f32"@[0]);
    reveal_strlit("mul_f64");
    assert("ror_i32"@[0] != "mul_f64"@[0]);
    reveal_strlit("div_i32");
    assert("ror_i32"@[0] != "div_i32"@[0]);
    reveal_strlit("div_i64");
    assert("ror_i32"@[0] != "div_i64"@[0]);
    reveal_strlit("div_u32");
    assert("ror_i32"@[0] != "div_u32"@[0]);
    reveal_strlit("div_u64");
    assert("ror_i32"@[0] != "div_u64"@[0]);
    reveal_strlit("div_f32");
    assert("ror_i32"@[0] != "div_f32"@[0]);
    reveal_strlit("div_f64");
    assert("ror_i32"@[0] != "div_f64"@[0]);
    reveal_strlit("rem_i32");
    assert("ror_i32"@[1] != "rem_i32"@[1]);
    reveal_strlit("rem_i64");
    assert("ror_i32"@[1] != "rem_i64"@[1]);
    reveal_strlit("rem_u32");
    assert("ror_i32"@[1] != "rem_u32"@[1]);
    reveal_strlit("rem_u64");
    assert("ror_i32"@[1] != "rem_u64"@[1]);
    reveal_strlit("rem_f32");
    assert("ror_i32"@[1] != "rem_f32"@[1]);
    reveal_strlit("rem_f64");
    assert("ror_i32"@[1] != "rem_f64"@[1]);
    reveal_strlit("neg_i32");
    assert("ror_i32"@[0] != "neg_i32"@[0]);
    reveal_strlit("neg_i64");
    assert("ror_i32"@[0] != "neg_i64"@[0]);
    reveal_strlit("neg_f32");
    assert("ror_i32"@[0] != "neg_f32"@[0]);
    reveal_strlit("neg_f64");
    assert("ror_i32"@[0] != "neg_f64"@[0]);
    reveal_strlit("shl_i32");
    assert("ror_i32"@[0] != "shl_i32"@[0]);
    reveal_strlit("shl_i64");
    assert("ror_i32"@[0] != "shl_i64"@[0]);
    reveal_strlit("shl_u32");
    assert("ror_i32"@[0] != "shl_u32"@[0]);
    reveal_strlit("shl_u64");
    assert("ror_i32"@[0] != "shl_u64"@[0]);
    reveal_strlit("shr_i32");
    assert("ror_i32"@[0] != "shr_i32"@[0]);
    reveal_strlit("shr_i64");
    assert("ror_i32"@[0] != "shr_i64"@[0]);
    reveal_strlit("shr_u32");
    assert("ror_i32"@[0] != "shr_u32"@[0]);
    reveal_strlit("shr_u64");
    assert("ror_i32"@[0] != "shr_u64"@[0]);
    reveal_strlit("rol_i32");
    assert("ror_i32"@[2] != "rol_i32"@[2]);
    reveal_strlit("rol_i64");
    assert("ror_i32"@[2] != "rol_i64"@[2]);
    reveal_strlit("rol_u32");
    assert("ror_i32"@[2] != "rol_u32"@[2]);
    reveal_strlit("rol_u64");
    assert("ror_i32"@[2] != "rol_u64"@[2]);
    assert(int_mnemonic(IntOp::Ror, IntKind::I32) =~= "ror_i32"@);
}

/// `ror_i64` reads as the instruction `RorI64`.
proof fn lemma_mnemonic_ror_i64()
    ensures
        unit_mnemonic(int_mnemonic(IntOp::Ror, IntKind::I64)) == Some(SurfaceInstruction::RorI64),
{
    lemma_unit_mnemonic_lengths();
    reveal_strlit("ror_i64");
    reveal_strlit("add_i32");
    assert("ror_i64"@[0] != "add_i32"@[0]);
    reveal_strlit("add_f32");
    assert("ror_i64"@[0] != "add_f32"@[0]);
    reveal_strlit("add_i64");
    assert("ror_i64"@[0] != "add_i64"@[0]);
    reveal_strlit("add_u32");
    assert("ror_i64"@[0] != "add_u32"@[0]);
    reveal_strlit("add_u64");
    assert("ror_i64"@[0] != "add_u64"@[0]);
    reveal_strlit("add_f64");
    assert("ror_i64"@[0] != "add_f64"@[0]);
    reveal_strlit("sub_i32");
    assert("ror_i64"@[0] != "sub_i32"@[0]);
    reveal_strlit("sub_i64");
    assert("ror_i64"@[0] != "sub_i64"@[0]);
    reveal_strlit("sub_u32");
    assert("ror_i64"@[0] != "sub_u32"@[0]);
    reveal_strlit("sub_u64");
    assert("ror_i64"@[0] != "sub_u64"@[0]);
    reveal_strlit("sub_f32");
    assert("ror_i64"@[0] != "sub_f32"@[0]);
    reveal_strlit("sub_f64");
    assert("ror_i64"@[0] != "sub_f64"@[0]);
    reveal_strlit("mul_i32");
    assert("ror_i64"@[0] != "mul_i32"@[0]);
    reveal_strlit("mul_i64");
    assert("ror_i64"@[0] != "mul_i64"@[0]);
    reveal_strlit("mul_u32");
    assert("ror_i64"@[0] != "mul_u32"@[0]);
    reveal_strlit("mul_u64");
    assert("ror_i64"@[0] != "mul_u64"@[0]);
    reveal_strlit("mul_f32");
    assert("ror_i64"@[0] != "mul_f32"@[0]);
    reveal_strlit("mul_f64");
    assert("ror_i64"@[0] != "mul_f64"@[0]);
    reveal_strlit("div_i32");
    assert("ror_i64"@[0] != "div_i32"@[0]);
    reveal_strlit("div_i64");
    assert("ror_i64"@[0] != "div_i64"@[0]);
    reveal_strlit("div_u32");
    assert("ror_i64"@[0] != "div_u32"@[0]);
    reveal_strlit("div_u64");
    assert("ror_i64"@[0] != "div_u64"@[0]);
    reveal_strlit("div_f32");
    assert("ror_i64"@[0] != "div_f32"@[0]);
    reveal_strlit("div_f64");
    assert("ror_i64"@[0] != "div_f64"@[0]);
    reveal_strlit("rem_i32");
    assert("ror_i64"@[1] != "rem_i32"@[1]);
    reveal_strlit("rem_i64");
    assert("ror_i64"@[1] != "rem_i64"@[1]);
    reveal_strlit("rem_u32");
    assert("ror_i64"@[1] != "rem_u32"@[1]);
    reveal_strlit("rem_u64");
    assert("ror_i64"@[1] != "rem_u64"@[1]);
    reveal_strlit("rem_f32");
    assert("ror_i64"@[1] != "rem_f32"@[1]);
    reveal_strlit("rem_f64");
    assert("ror_i64"@[1] != "rem_f64"@[1]);
    reveal_strlit("neg_i32");
    assert("ror_i64"@[0] != "neg_i32"@[0]);
    reveal_strlit("neg_i64");
    assert("ror_i64"@[0] != "neg_i64"@[0]);
    reveal_strlit("neg_f32");
    assert("ror_i64"@[0] != "neg_f32"@[0]);
    reveal_strlit("neg_f64");
    assert("ror_i64"@[0] != "neg_f64"@[0]);
    reveal_strlit("shl_i32");
    assert("ror_i64"@[0] != "shl_i32"@[0]);
    reveal_strlit("shl_i64");
    assert("ror_i64"@[0] != "shl_i64"@[0]);
    reveal_strlit("shl_u32");
    assert("ror_i64"@[0] != "shl_u32"@[0]);
    reveal_strlit("shl_u64");
    assert("ror_i64"@[0] != "shl_u64"@[0]);
    reveal_strlit("shr_i32");
    assert("ror_i64"@[0] != "shr_i32"@[0]);
    reveal_strlit("shr_i64");
    assert("ror_i64"@[0] != "shr_i64"@[0]);
    reveal_strlit("shr_u32");
    assert("ror_i64"@[0] != "shr_u32"@[0]);
    reveal_strlit("shr_u64");
    assert("ror_i64"@[0] != "shr_u64"@[0]);
    reveal_strlit("rol_i32");
    assert("ror_i64"@[2] != "rol_i32"@[2]);
    reveal_strlit("rol_i64");
    assert("ror_i64"@[2] != "rol_i64"@[2]);
    reveal_strlit("rol_u32");
    assert("ror_i64"@[2] != "rol_u32"@[2]);
    reveal_strlit("rol_u64");
    assert("ror_i64"@[2] != "rol_u64"@[2]);
    reveal_strlit("ror_i32");
    assert("ror_i64"@[5] != "ror_i32"@[5]);
    assert(int_mnemonic(IntOp::Ror, IntKind::I64) =~= "ror_i64"@);
}

/// `ror_u32` reads as the instruction `RorU32`.
proof fn lemma_mnemonic_ror_u32()
    ensures
        unit_mnemonic(int_mnemonic(IntOp::Ror, IntKind::U32)) == Some(SurfaceInstruction::RorU32),
{
    lemma_unit_mnemonic_lengths();
    reveal_strlit("ror_u32");
    reveal_strlit("add_i32");
    assert("ror_u32"@[0] != "add_i32"@[0]);
    reveal_strlit("add_f32");
    assert("ror_u32"@[0] != "add_f32"@[0]);
    reveal_strlit("add_i64");
    assert("ror_u32"@[0] != "add_i64"@[0]);
    reveal_strlit("add_u32");
    assert("ror_u32"@[0] != "add_u32"@[0]);
    reveal_strlit("add_u64");
    assert("ror_u32"@[0] != "add_u64"@[0]);
    reveal_strlit("add_f64");
    assert("ror_u32"@[0] != "add_f64"@[0]);
    reveal_strlit("sub_i32");
    assert("ror_u32"@[0] != "sub_i32"@[0]);
    reveal_strlit("sub_i64");
    assert("ror_u32"@[0] != "sub_i64"@[0]);
    reveal_strlit("sub_u32");
    assert("ror_u32"@[0] != "sub_u32"@[0]);
    reveal_strlit("sub_u64");
    assert("ror_u32"@[0] != "sub_u64"@[0]);
    reveal_strlit("sub_f32");
    assert("ror_u32"@[0] != "sub_f32"@[0]);
    reveal_strlit("sub_f64");
    assert("ror_u32"@[0] != "sub_f64"@[0]);
    reveal_strlit("mul_i32");
    assert("ror_u32"@[0] != "mul_i32"@[0]);
    reveal_strlit("mul_i64");
    assert("ror_u32"@[0] != "mul_i64"@[0]);
    reveal_strlit("mul_u32");
    assert("ror_u32"@[0] != "mul_u32"@[0]);
    reveal_strlit("mul_u64");
    assert("ror_u32"@[0] != "mul_u64"@[0]);
    reveal_strlit("mul_f32");
    assert("ror_u32"@[0] != "mul_f32"@[0]);
    reveal_strlit("mul_f64");
    assert("ror_u32"@[0] != "mul_f64"@[0]);
    reveal_strlit("div_i32");
    assert("ror_u32"@[0] != "div_i32"@[0]);
    reveal_strlit("div_i64");
    assert("ror_u32"@[0] != "div_i64"@[0]);
    reveal_strlit("div_u32");
    assert("ror_u32"@[0] != "div_u32"@[0]);
    reveal_strlit("div_u64");
    assert("ror_u32"@[0] != "div_u64"@[0]);
    reveal_strlit("div_f32");
    assert("ror_u32"@[0] != "div_f32"@[0]);
    reveal_strlit("div_f64");
    assert("ror_u32"@[0] != "div_f64"@[0]);
    reveal_strlit("rem_i32");
    assert("ror_u32"@[1] != "rem_i32"@[1]);
    reveal_strlit("rem_i64");
    assert("ror_u32"@[1] != "rem_i64"@[1]);
    reveal_strlit("rem_u32");
    assert("ror_u32"@[1] != "rem_u32"@[1]);
    reveal_strlit("rem_u64");
    assert("ror_u32"@[1] != "rem_u64"@[1]);
    reveal_strlit("rem_f32");
    assert("ror_u32"@[1] != "rem_f32"@[1]);
    reveal_strlit("rem_f64");
    assert("ror_u32"@[1] != "rem_f64"@[1]);
    reveal_strlit("neg_i32");
    assert("ror_u32"@[0] != "neg_i32"@[0]);
    reveal_strlit("neg_i64");
    assert("ror_u32"@[0] != "neg_i64"@[0]);
    reveal_strlit("neg_f32");
    assert("ror_u32"@[0] != "neg_f32"@[0]);
    reveal_strlit("neg_f64");
    assert("ror_u32"@[0] != "neg_f64"@[0]);
    reveal_strlit("shl_i32");
    assert("ror_u32"@[0] != "shl_i32"@[0]);
    reveal_strlit("shl_i64");
    assert("ror_u32"@[0] != "shl_i64"@[0]);
    reveal_strlit("shl_u32");
    assert("ror_u32"@[0] != "shl_u32"@[0]);
    reveal_strlit("shl_u64");
    assert("ror_u32"@[0] != "shl_u64"@[0]);
    reveal_strlit("shr_i32");
    assert("ror_u32"@[0] != "shr_i32"@[0]);
    reveal_strlit("shr_i64");
    assert("ror_u32"@[0] != "shr_i64"@[0]);
    reveal_strlit("shr_u32");
    assert("ror_u32"@[0] != "shr_u32"@[0]);
    reveal_strlit("shr_u64");
    assert("ror_u32"@[0] != "shr_u64"@[0]);
    reveal_strlit("rol_i32");
    assert("ror_u32"@[2] != "rol_i32"@[2]);
    reveal_strlit("rol_i64");
    assert("ror_u32"@[2] != "rol_i64"@[2]);
    reveal_strlit("rol_u32");
    assert("ror_u32"@[2] != "rol_u32"@[2]);
    reveal_strlit("rol_u64");
    assert("ror_u32"@[2] != "rol_u64"@[2]);
    reveal_strlit("ror_i32");
    assert("ror_u32"@[4] != "ror_i32"@[4]);
    reveal_strlit("ror_i64");
    assert("ror_u32"@[4] != "ror_i64"@[4]);
    assert(int_mnemonic(IntOp::Ror, IntKind::U32) =~= "ror_u32"@);
}

/// `ror_u64` reads as the instruction `RorU64`.
proof fn lemma_mnemonic_ror_u64()
    ensures
        unit_mnemonic(int_mnemonic(IntOp::Ror, IntKind::U64)) == Some(SurfaceInstruction::RorU64),
{
    lemma_unit_mnemonic_lengths();
    reveal_strlit("ror_u64");
    reveal_strlit("add_i32");
    assert("ror_u64"@[0] != "add_i32"@[0]);
    reveal_strlit("add_f32");
    assert("ror_u64"@[0] != "add_f32"@[0]);
    reveal_strlit("add_i64");
    assert("ror_u64"@[0] != "add_i64"@[0]);
    reveal_strlit("add_u32");
    assert("ror_u64"@[0] != "add_u32"@[0]);
    reveal_strlit("add_u64");
    assert("ror_u64"@[0] != "add_u64"@[0]);
    reveal_strlit("add_f64");
    assert("ror_u64"@[0] != "add_f64"@[0]);
    reveal_strlit("sub_i32");
    assert("ror_u64"@[0] != "sub_i32"@[0]);
    reveal_strlit("sub_i64");
    assert("ror_u64"@[0] != "sub_i64"@[0]);
    reveal_strlit("sub_u32");
    assert("ror_u64"@[0] != "sub_u32"@[0]);
    reveal_strlit("sub_u64");
    assert("ror_u64"@[0] != "sub_u64"@[0]);
    reveal_strlit("sub_f32");
    assert("ror_u64"@[0] != "sub_f32"@[0]);
    reveal_strlit("sub_f64");
    assert("ror_u64"@[0] != "sub_f64"@[0]);
    reveal_strlit("mul_i32");
    assert("ror_u64"@[0] != "mul_i32"@[0]);
    reveal_strlit("mul_i64");
    assert("ror_u64"@[0] != "mul_i64"@[0]);
    reveal_strlit("mul_u32");
    assert("ror_u64"@[0] != "mul_u32"@[0]);
    reveal_strlit("mul_u64");
    assert("ror_u64"@[0] != "mul_u64"@[0]);
    reveal_strlit("mul_f32");
    assert("ror_u64"@[0] != "mul_f32"@[0]);
    reveal_strlit("mul_f64");
    assert("ror_u64"@[0] != "mul_f64"@[0]);
    reveal_strlit("div_i32");
    assert("ror_u64"@[0] != "div_i32"@[0]);
    reveal_strlit("div_i64");
    assert("ror_u64"@[0] != "div_i64"@[0]);
    reveal_strlit("div_u32");
    assert("ror_u64"@[0] != "div_u32"@[0]);
    reveal_strlit("div_u64");
    assert("ror_u64"@[0] != "div_u64"@[0]);
    reveal_strlit("div_f32");
    assert("ror_u64"@[0] != "div_f32"@[0]);
    reveal_strlit("div_f64");
    assert("ror_u64"@[0] != "div_f64"@[0]);
    reveal_strlit("rem_i32");
    assert("ror_u64"@[1] != "rem_i32"@[1]);
    reveal_strlit("rem_i64");
    assert("ror_u64"@[1] != "rem_i64"@[1]);
    reveal_strlit("rem_u32");
    assert("ror_u64"@[1] != "rem_u32"@[1]);
    reveal_strlit("rem_u64");
    assert("ror_u64"@[1] != "rem_u64"@[1]);
    reveal_strlit("rem_f32");
    assert("ror_u64"@[1] != "rem_f32"@[1]);
    reveal_strlit("rem_f64");
    assert("ror_u64"@[1] != "rem_f64"@[1]);
    reveal_strlit("neg_i32");
    assert("ror_u64"@[0] != "neg_i32"@[0]);
    reveal_strlit("neg_i64");
    assert("ror_u64"@[0] != "neg_i64"@[0]);
    reveal_strlit("neg_f32");
    assert("ror_u64"@[0] != "neg_f32"@[0]);
    reveal_strlit("neg_f64");
    assert("ror_u64"@[0] != "neg_f64"@[0]);
    reveal_strlit("shl_i32");
    assert("ror_u64"@[0] != "shl_i32"@[0]);
    reveal_strlit("shl_i64");
    assert("ror_u64"@[0] != "shl_i64"@[0]);
    reveal_strlit("shl_u32");
    assert("ror_u64"@[0] != "shl_u32"@[0]);
    reveal_strlit("shl_u64");
    assert("ror_u64"@[0] != "shl_u64"@[0]);
    reveal_strlit("shr_i32");
    assert("ror_u64"@[0] != "shr_i32"@[0]);
    reveal_strlit("shr_i64");
    assert("ror_u64"@[0] != "shr_i64"@[0]);
    reveal_strlit("shr_u32");
    assert("ror_u64"@[0] != "shr_u32"@[0]);
    reveal_strlit("shr_u64");
    assert("ror_u64"@[0] != "shr_u64"@[0]);
    reveal_strlit("rol_i32");
    assert("ror_u64"@[2] != "rol_i32"@[2]);
    reveal_strlit("rol_i64");
    assert("ror_u64"@[2] != "rol_i64"@[2]);
    reveal_strlit("rol_u32");
    assert("ror_u64"@[2] != "rol_u32"@[2]);
    reveal_strlit("rol_u64");
    assert("ror_u64"@[2] != "rol_u64"@[2]);
    reveal_strlit("ror_i32");
    assert("ror_u64"@[4] != "ror_i32"@[4]);
    reveal_strlit("ror_i64");
    assert("ror_u64"@[4] != "ror_i64"@[4]);
    reveal_strlit("ror_u32");
    assert("ror_u64"@[5] != "ror_u32"@[5]);
    assert(int_mnemonic(IntOp::Ror, IntKind::U64) =~= "ror_u64"@);
}

/// `bitand_i32` reads as the instruction `BitAndI32`.
proof fn lemma_mnemonic_bitand_i32()
    ensures
        unit_mnemonic(int_mnemonic(IntOp::BitAnd, IntKind::I32)) == Some(SurfaceInstruction::BitAndI32),
{
    lemma_unit_mnemonic_lengths();
    reveal_strlit("bitand_i32");
    reveal_strlit("func_start");
    assert("bitand_i32"@[0] != "func_start"@[0]);
    reveal_strlit("breakpoint");
    assert("bitand_i32"@[1] != "breakpoint"@[1]);
    assert(int_mnemonic(IntOp::BitAnd, IntKind::I32) =~= "bitand_i32"@);
}

/// `bitand_i64` reads as the instruction `BitAndI64`.
proof fn lemma_mnemonic_bitand_i64()
    ensures
        unit_mnemonic(int_mnemonic(IntOp::BitAnd, IntKind::I64)) == Some(SurfaceInstruction::BitAndI64),
{
    lemma_unit_mnemonic_lengths();
    reveal_strlit("bitand_i64");
    reveal_strlit("func_start");
    assert("bitand_i64"@[0] != "func_start"@[0]);
    reveal_strlit("breakpoint");
    assert("bitand_i64"@[1] != "breakpoint"@[1]);
    reveal_strlit("bitand_i32");
    assert("bitand_i64"@[8] != "bitand_i32"@[8]);
    assert(int_mnemonic(IntOp::BitAnd, IntKind::I64) =~= "bitand_i64"@);
}

/// `bitand_u32` reads as the instruction `BitAndU32`.
proof fn lemma_mnemonic_bitand_u32()
    ensures
        unit_mnemonic(int_mnemonic(IntOp::BitAnd, IntKind::U32)) == Some(SurfaceInstruction::BitAndU32),
{
    lemma_unit_mnemonic_lengths();
    reveal_strlit("bitand_u32");
    reveal_strlit("func_start");
    assert("bitand_u32"@[0] != "func_start"@[0]);
    reveal_strlit("breakpoint");
    assert("bitand_u32"@[1] != "breakpoint"@[1]);
    reveal_strlit("bitand_i32");
    assert("bitand_u32"@[7] != "bitand_i32"@[7]);
    reveal_strlit("bitand_i64");
    assert("bitand_u32"@[7] != "bitand_i64"@[7]);
    assert(int_mnemonic(IntOp::BitAnd, IntKind::U32) =~= "bitand_u32"@);
}

/// `bitand_u64` reads as the instruction `BitAndU64`.
proof fn lemma_mnemonic_bitand_u64()
    ensures
        unit_mnemonic(int_mnemonic(IntOp::BitAnd, IntKind::U64)) == Some(SurfaceInstruction::BitAndU64),
{
    lemma_unit_mnemonic_lengths();
    reveal_strlit("bitand_u64");
    reveal_strlit("func_start");
    assert("bitand_u64"@[0] != "func_start"@[0]);
    reveal_strlit("breakpoint");
    assert("bitand_u64"@[1] != "breakpoint"@[1]);
    reveal_strlit("bitand_i32");
    assert("bitand_u64"@[7] != "bitand_i32"@[7]);
    reveal_strlit("bitand_i64");
    assert("bitand_u64"@[7] != "bitand_i64"@[7]);
    reveal_strlit("bitand_u32");
    assert("bitand_u64"@[8] != "bitand_u32"@[8]);
    assert(int_mnemonic(IntOp::BitAnd, IntKind::U64) =~= "bitand_u64"@);
}

/// `bitor_i32` reads as the instruction `BitOrI32`.
proof fn lemma_mnemonic_bitor_i32()
    ensures
        unit_mnemonic(int_mnemonic(IntOp::BitOr, IntKind::I32)) == Some(SurfaceInstruction::BitOrI32),
{
    lemma_unit_mnemonic_lengths();
    reveal_strlit("bitor_i32");
    assert(int_mnemonic(IntOp::BitOr, IntKind::I32) =~= "bitor_i32"@);
}

/// `bitor_i64` reads as the instruction `BitOrI64`.
proof fn lemma_mnemonic_bitor_i64()
    ensures
        unit_mnemonic(int_mnemonic(IntOp::BitOr, IntKind::I64)) == Some(SurfaceInstruction::BitOrI64),
{
    lemma_unit_mnemonic_lengths();
    reveal_strlit("bitor_i64");
    reveal_strlit("bitor_i32");
    assert("bitor_i64"@[7] != "bitor_i32"@[7]);
    assert(int_mnemonic(IntOp::BitOr, IntKind::I64) =~= "bitor_i64"@);
}

/// `bitor_u32` reads as the instruction `BitOrU32`.
proof fn lemma_mnemonic_bitor_u32()
    ensures
        unit_mnemonic(int_mnemonic(IntOp::BitOr, IntKind::U32)) == Some(SurfaceInstruction::BitOrU32),
{
    lemma_unit_mnemonic_lengths();
    reveal_strlit("bitor_u32");
    reveal_strlit("bitor_i32");
    assert("bitor_u32"@[6] != "bitor_i32"@[6]);
    reveal_strlit("bitor_i64");
    assert("bitor_u32"@[6] != "bitor_i64"@[6]);
    assert(int_mnemonic(IntOp::BitOr, IntKind::U32) =~= "bitor_u32"@);
}

/// `bitor_u64` reads as the instruction `BitOrU64`.
proof fn lemma_mnemonic_bitor_u64()
    ensures
        unit_mnemonic(int_mnemonic(IntOp::BitOr, IntKind::U64)) == Some(SurfaceInstruction::BitOrU64),
{
    lemma_unit_mnemonic_lengths();
    reveal_strlit("bitor_u64");
    reveal_strlit("bitor_i32");
    assert("bitor_u64"@[6] != "bitor_i32"@[6]);
    reveal_strlit("bitor_i64");
    assert("bitor_u64"@[6] != "bitor_i64"@[6]);
    reveal_strlit("bitor_u32");
    assert("bitor_u64"@[7] != "bitor_u32"@[7]);
    assert(int_mnemonic(IntOp::BitOr, IntKind::U64) =~= "bitor_u64"@);
}

/// `bitxor_i32` reads as the instruction `BitXorI32`.
proof fn lemma_mnemonic_bitxor_i32()
    ensures
        unit_mnemonic(int_mnemonic(IntOp::BitXor, IntKind::I32)) == Some(SurfaceInstruction::BitXorI32),
{
    lemma_unit_mnemonic_lengths();
    reveal_strlit("bitxor_i32");
    reveal_strlit("func_start");
    assert("bitxor_i32"@[0] != "func_start"@[0]);
    reveal_strlit("breakpoint");
    assert("bitxor_i32"@[1] != "breakpoint"@[1]);
    reveal_strlit("bitand_i32");
    assert("bitxor_i32"@[3] != "bitand_i32"@[3]);
    reveal_strlit("bitand_i64");
    assert("bitxor_i32"@[3] != "bitand_i64"@[3]);
    reveal_strlit("bitand_u32");
    assert("bitxor_i32"@[3] != "bitand_u32"@[3]);
    reveal_strlit("bitand_u64");
    assert("bitxor_i32"@[3] != "bitand_u64"@[3]);
    assert(int_mnemonic(IntOp::BitXor, IntKind::I32) =~= "bitxor_i32"@);
}

/// `bitxor_i64` reads as the instruction `BitXorI64`.
proof fn lemma_mnemonic_bitxor_i64()
    ensures
        unit_mnemonic(int_mnemonic(IntOp::BitXor, IntKind::I64)) == Some(SurfaceInstruction::BitXorI64),
{
    lemma_unit_mnemonic_lengths();
    reveal_strlit("bitxor_i64");
    reveal_strlit("func_start");
    assert("bitxor_i64"@[0] != "func_start"@[0]);
    reveal_strlit("breakpoint");
    assert("bitxor_i64"@[1] != "breakpoint"@[1]);
    reveal_strlit("bitand_i32");
    assert("bitxor_i64"@[3] != "bitand_i32"@[3]);
    reveal_strlit("bitand_i64");
    assert("bitxor_i64"@[3] != "bitand_i64"@[3]);
    reveal_strlit("bitand_u32");
    assert("bitxor_i64"@[3] != "bitand_u32"@[3]);
    reveal_strlit("bitand_u64");
    assert("bitxor_i64"@[3] != "bitand_u64"@[3]);
    reveal_strlit("bitxor_i32");
    assert("bitxor_i64"@[8] != "bitxor_i32"@[8]);
    assert(int_mnemonic(IntOp::BitXor, IntKind::I64) =~= "bitxor_i64"@);
}

/// `bitxor_u32` reads as the instruction `BitXorU32`.
proof fn lemma_mnemonic_bitxor_u32()
    ensures
        unit_mnemonic(int_mnemonic(IntOp::BitXor, IntKind::U32)) == Some(SurfaceInstruction::BitXorU32),
{
    lemma_unit_mnemonic_lengths();
    reveal_strlit("bitxor_u32");
    reveal_strlit("func_start");
    assert("bitxor_u32"@[0] != "func_start"@[0]);
    reveal_strlit("breakpoint");
    assert("bitxor_u32"@[1] != "breakpoint"@[1]);
    reveal_strlit("bitand_i32");
    assert("bitxor_u32"@[3] != "bitand_i32"@[3]);
    reveal_strlit("bitand_i64");
    assert("bitxor_u32"@[3] != "bitand_i64"@[3]);
    reveal_strlit("bitand_u32");
    assert("bitxor_u32"@[3] != "bitand_u32"@[3]);
    reveal_strlit("bitand_u64");
    assert("bitxor_u32"@[3] != "bitand_u64"@[3]);
    reveal_strlit("bitxor_i32");
    assert("bitxor_u32"@[7] != "bitxor_i32"@[7]);
    reveal_strlit("bitxor_i64");
    assert("bitxor_u32"@[7] != "bitxor_i64"@[7]);
    assert(int_mnemonic(IntOp::BitXor, IntKind::U32) =~= "bitxor_u32"@);
}

/// `bitxor_u64` reads as the instruction `BitXorU64`.
proof fn lemma_mnemonic_bitxor_u64()
    ensures
        unit_mnemonic(int_mnemonic(IntOp::BitXor, IntKind::U64)) == Some(SurfaceInstruction::BitXorU64),
{
    lemma_unit_mnemonic_lengths();
    reveal_strlit("bitxor_u64");
    reveal_strlit("func_start");
    assert("bitxor_u64"@[0] != "func_start"@[0]);
    reveal_strlit("breakpoint");
    assert("bitxor_u64"@[1] != "breakpoint"@[1]);
    reveal_strlit("bitand_i32");
    assert("bitxor_u64"@[3] != "bitand_i32"@[3]);
    reveal_strlit("bitand_i64");
    assert("bitxor_u64"@[3] != "bitand_i64"@[3]);
    reveal_strlit("bitand_u32");
    assert("bitxor_u64"@[3] != "bitand_u32"@[3]);
    reveal_strlit("bitand_u64");
    assert("bitxor_u64"@[3] != "bitand_u64"@[3]);
    reveal_strlit("bitxor_i32");
    assert("bitxor_u64"@[7] != "bitxor_i32"@[7]);
    reveal_strlit("bitxor_i64");
    assert("bitxor_u64"@[7] != "bitxor_i64"@[7]);
    reveal_strlit("bitxor_u32");
    assert("bitxor_u64"@[8] != "bitxor_u32"@[8]);
    assert(int_mnemonic(IntOp::BitXor, IntKind::U64) =~= "bitxor_u64"@);
}

/// `eq_i32` reads as the instruction `EqI32`.
proof fn lemma_mnemonic_eq_i32()
    ensures
        unit_mnemonic(int_mnemonic(IntOp::Eq, IntKind::I32)) == Some(SurfaceInstruction::EqI32),
{
    lemma_unit_mnemonic_lengths();
    reveal_strlit("eq_i32");
    assert(int_mnemonic(IntOp::Eq, IntKind::I32) =~= "eq_i32"@);
}

/// `eq_i64` reads as the instruction `EqI64`.
proof fn lemma_mnemonic_eq_i64()
    ensures
        unit_mnemonic(int_mnemonic(IntOp::Eq, IntKind::I64)) == Some(SurfaceInstruction::EqI64),
{
    lemma_unit_mnemonic_lengths();
    reveal_strlit("eq_i64");
    reveal_strlit("eq_i32");
    assert("eq_i64"@[4] != "eq_i32"@[4]);
    assert(int_mnemonic(IntOp::Eq, IntKind::I64) =~= "eq_i64"@);
}

/// `eq_u32` reads as the instruction `EqU32`.
proof fn lemma_mnemonic_eq_u32()
    ensures
        unit_mnemonic(int_mnemonic(IntOp::Eq, IntKind::U32)) == Some(SurfaceInstruction::EqU32),
{
    lemma_unit_mnemonic_lengths();
    reveal_strlit("eq_u32");
    reveal_strlit("eq_i32");
    assert("eq_u32"@[3] != "eq_i32"@[3]);
    reveal_strlit("eq_i64");
    assert("eq_u32"@[3] != "eq_i64"@[3]);
    assert(int_mnemonic(IntOp::Eq, IntKind::U32) =~= "eq_u32"@);
}

/// `eq_u64` reads as the instruction `EqU64`.
proof fn lemma_mnemonic_eq_u64()
    ensures
        unit_mnemonic(int_mnemonic(IntOp::Eq, IntKind::U64)) == Some(SurfaceInstruction::EqU64),
{
    lemma_unit_mnemonic_lengths();
    reveal_strlit("eq_u64");
    reveal_strlit("eq_i32");
    assert("eq_u64"@[3] != "eq_i32"@[3]);
    reveal_strlit("eq_i64");
    assert("eq_u64"@[3] != "eq_i64"@[3]);
    reveal_strlit("eq_u32");
    assert("eq_u64"@[4] != "eq_u32"@[4]);
    assert(int_mnemonic(IntOp::Eq, IntKind::U64) =~= "eq_u64"@);
}

/// `ne_i32` reads as the instruction `NeI32`.
proof fn lemma_mnemonic_ne_i32()
    ensures
        unit_mnemonic(int_mnemonic(IntOp::Ne, IntKind::I32)) == Some(SurfaceInstruction::NeI32),
{
    lemma_unit_mnemonic_lengths();
    reveal_strlit("ne_i32");
    reveal_strlit("eq_i32");
    assert("ne_i32"@[0] != "eq_i32"@[0]);
    reveal_strlit("eq_i64");
    assert("ne_i32"@[0] != "eq_i64"@[0]);
    reveal_strlit("eq_u32");
    assert("ne_i32"@[0] != "eq_u32"@[0]);
    reveal_strlit("eq_u64");
    assert("ne_i32"@[0] != "eq_u64"@[0]);
    reveal_strlit("eq_f32");
    assert("ne_i32"@[0] != "eq_f32"@[0]);
    reveal_strlit("eq_f64");
    assert("ne_i32"@[0] != "eq_f64"@[0]);
    assert(int_mnemonic(IntOp::Ne, IntKind::I32) =~= "ne_i32"@);
}

/// `ne_i64` reads as the instruction `NeI64`.
proof fn lemma_mnemonic_ne_i64()
    ensures
        unit_mnemonic(int_mnemonic(IntOp::Ne, IntKind::I64)) == Some(SurfaceInstruction::NeI64),
{
    lemma_unit_mnemonic_lengths();
    reveal_strlit("ne_i64");
    reveal_strlit("eq_i32");
    assert("ne_i64"@[0] != "eq_i32"@[0]);
    reveal_strlit("eq_i64");
    assert("ne_i64"@[0] != "eq_i64"@[0]);
    reveal_strlit("eq_u32");
    assert("ne_i64"@[0] != "eq_u32"@[0]);
    reveal_strlit("eq_u64");
    assert("ne_i64"@[0] != "eq_u64"@[0]);
    reveal_strlit("eq_f32");
    assert("ne_i64"@[0] != "eq_f32"@[0]);
    reveal_strlit("eq_f64");
    assert("ne_i64"@[0] != "eq_f64"@[0]);
    reveal_strlit("ne_i32");
    assert("ne_i64"@[4] != "ne_i32"@[4]);
    assert(int_mnemonic(IntOp::Ne, IntKind::I64) =~= "ne_i64"@);
}

/// `ne_u32` reads as the instruction `NeU32`.
proof fn lemma_mnemonic_ne_u32()
    ensures
        unit_mnemonic(int_mnemonic(IntOp::Ne, IntKind::U32)) == Some(SurfaceInstruction::NeU32),
{
    lemma_unit_mnemonic_lengths();
    reveal_strlit("ne_u32");
    reveal_strlit("eq_i32");
    assert("ne_u32"@[0] != "eq_i32"@[0]);
    reveal_strlit("eq_i64");
    assert("ne_u32"@[0] != "eq_i64"@[0]);
    reveal_strlit("eq_u32");
    assert("ne_u32"@[0] != "eq_u32"@[0]);
    reveal_strlit("eq_u64");
    assert("ne_u32"@[0] != "eq_u64"@[0]);
    reveal_strlit("eq_f32");
    assert("ne_u32"@[0] != "eq_f32"@[0]);
    reveal_strlit("eq_f64");
    assert("ne_u32"@[0] != "eq_f64"@[0]);
    reveal_strlit("ne_i32");
    assert("ne_u32"@[3] != "ne_i32"@[3]);
    reveal_strlit("ne_i64");
    assert("ne_u32"@[3] != "ne_i64"@[3]);
    assert(int_mnemonic(IntOp::Ne, IntKind::U32) =~= "ne_u32"@);
}

/// `ne_u64` reads as the instruction `NeU64`.
proof fn lemma_mnemonic_ne_u64()
    ensures
        unit_mnemonic(int_mnemonic(IntOp::Ne, IntKind::U64)) == Some(SurfaceInstruction::NeU64),
{
    lemma_unit_mnemonic_lengths();
    reveal_strlit("ne_u64");
    reveal_strlit("eq_i32");
    assert("ne_u64"@[0] != "eq_i32"@[0]);
    reveal_strlit("eq_i64");
    assert("ne_u64"@[0] != "eq_i64"@[0]);
    reveal_strlit("eq_u32");
    assert("ne_u64"@[0] != "eq_u32"@[0]);
    reveal_strlit("eq_u64");
    assert("ne_u64"@[0] != "eq_u64"@[0]);
    reveal_strlit("eq_f32");
    assert("ne_u64"@[0] != "eq_f32"@[0]);
    reveal_strlit("eq_f64");
    assert("ne_u64"@[0] != "eq_f64"@[0]);
    reveal_strlit("ne_i32");
    assert("ne_u64"@[3] != "ne_i32"@[3]);
    reveal_strlit("ne_i64");
    assert("ne_u64"@[3] != "ne_i64"@[3]);
    reveal_strlit("ne_u32");
    assert("ne_u64"@[4] != "ne_u32"@[4]);
    assert(int_mnemonic(IntOp::Ne, IntKind::U64) =~= "ne_u64"@);
}

/// `lt_i32` reads as the instruction `LtI32`.
proof fn lemma_mnemonic_lt_i32()
    ensures
        unit_mnemonic(int_mnemonic(IntOp::Lt, IntKind::I32)) == Some(SurfaceInstruction::LtI32),
{
    lemma_unit_mnemonic_lengths();
    reveal_strlit("lt_i32");
    reveal_strlit("eq_i32");
    assert("lt_i32"@[0] != "eq_i32"@[0]);
    reveal_strlit("eq_i64");
    assert("lt_i32"@[0] != "eq_i64"@[0]);
    reveal_strlit("eq_u32");
    assert("lt_i32"@[0] != "eq_u32"@[0]);
    reveal_strlit("eq_u64");
    assert("lt_i32"@[0] != "eq_u64"@[0]);
    reveal_strlit("eq_f32");
    assert("lt_i32"@[0] != "eq_f32"@[0]);
    reveal_strlit("eq_f64");
    assert("lt_i32"@[0] != "eq_f64"@[0]);
    reveal_strlit("ne_i32");
    assert("lt_i32"@[0] != "ne_i32"@[0]);
    reveal_strlit("ne_i64");
    assert("lt_i32"@[0] != "ne_i64"@[0]);
    reveal_strlit("ne_u32");
    assert("lt_i32"@[0] != "ne_u32"@[0]);
    reveal_strlit("ne_u64");
    assert("lt_i32"@[0] != "ne_u64"@[0]);
    reveal_strlit("ne_f32");
    assert("lt_i32"@[0] != "ne_f32"@[0]);
    reveal_strlit("ne_f64");
    assert("lt_i32"@[0] != "ne_f64"@[0]);
    assert(int_mnemonic(IntOp::Lt, IntKind::I32) =~= "lt_i32"@);
}

/// `lt_i64` reads as the instruction `LtI64`.
proof fn lemma_mnemonic_lt_i64()
    ensures
        unit_mnemonic(int_mnemonic(IntOp::Lt, IntKind::I64)) == Some(SurfaceInstruction::LtI64),
{
    lemma_unit_mnemonic_lengths();
    reveal_strlit("lt_i64");
    reveal_strlit("eq_i32");
    assert("lt_i64"@[0] != "eq_i32"@[0]);
    reveal_strlit("eq_i64");
    assert("lt_i64"@[0] != "eq_i64"@[0]);
    reveal_strlit("eq_u32");
    assert("lt_i64"@[0] != "eq_u32"@[0]);
    reveal_strlit("eq_u64");
    assert("lt_i64"@[0] != "eq_u64"@[0]);
    reveal_strlit("eq_f32");
    assert("lt_i64"@[0] != "eq_f32"@[0]);
    reveal_strlit("eq_f64");
    assert("lt_i64"@[0] != "eq_f64"@[0]);
    reveal_strlit("ne_i32");
    assert("lt_i64"@[0] != "ne_i32"@[0]);
    reveal_strlit("ne_i64");
    assert("lt_i64"@[0] != "ne_i64"@[0]);
    reveal_strlit("ne_u32");
    assert("lt_i64"@[0] != "ne_u32"@[0]);
    reveal_strlit("ne_u64");
    assert("lt_i64"@[0] != "ne_u64"@[0]);
    reveal_strlit("ne_f32");
    assert("lt_i64"@[0] != "ne_f32"@[0]);
    reveal_strlit("ne_f64");
    assert("lt_i64"@[0] != "ne_f64"@[0]);
    reveal_strlit("lt_i32");
    assert("lt_i64"@[4] != "lt_i32"@[4]);
    assert(int_mnemonic(IntOp::Lt, IntKind::I64) =~= "lt_i64"@);
}

/// `lt_u32` reads as the instruction `LtU32`.
proof fn lemma_mnemonic_lt_u32()
    ensures
        unit_mnemonic(int_mnemonic(IntOp::Lt, IntKind::U32)) == Some(SurfaceInstruction::LtU32),
{
    lemma_unit_mnemonic_lengths();
    reveal_strlit("lt_u32");
    reveal_strlit("eq_i32");
    assert("lt_u32"@[0] != "eq_i32"@[0]);
    reveal_strlit("eq_i64");
    assert("lt_u32"@[0] != "eq_i64"@[0]);
    reveal_strlit("eq_u32");
    assert("lt_u32"@[0] != "eq_u32"@[0]);
    reveal_strlit("eq_u64");
    assert("lt_u32"@[0] != "eq_u64"@[0]);
    reveal_strlit("eq_f32");
    assert("lt_u32"@[0] != "eq_f32"@[0]);
    reveal_strlit("eq_f64");
    assert("lt_u32"@[0] != "eq_f64"@[0]);
    reveal_strlit("ne_i32");
    assert("lt_u32"@[0] != "ne_i32"@[0]);
    reveal_strlit("ne_i64");
    assert("lt_u32"@[0] != "ne_i64"@[0]);
    reveal_strlit("ne_u32");
    assert("lt_u32"@[0] != "ne_u32"@[0]);
    reveal_strlit("ne_u64");
    assert("lt_u32"@[0] != "ne_u64"@[0]);
    reveal_strlit("ne_f32");
    assert("lt_u32"@[0] != "ne_f32"@[0]);
    reveal_strlit("ne_f64");
    assert("lt_u32"@[0] != "ne_f64"@[0]);
    reveal_strlit("lt_i32");
    assert("lt_u32"@[3] != "lt_i32"@[3]);
    reveal_strlit("lt_i64");
    assert("lt_u32"@[3] != "lt_i64"@[3]);
    assert(int_mnemonic(IntOp::Lt, IntKind::U32) =~= "lt_u32"@);
}

/// `lt_u64` reads as the instruction `LtU64`.
proof fn lemma_mnemonic_lt_u64()
    ensures
        unit_mnemonic(int_mnemonic(IntOp::Lt, IntKind::U64)) == Some(SurfaceInstruction::LtU64),
{
    lemma_unit_mnemonic_lengths();
    reveal_strlit("lt_u64");
    reveal_strlit("eq_i32");
    assert("lt_u64"@[0] != "eq_i32"@[0]);
    reveal_strlit("eq_i64");
    assert("lt_u64"@[0] != "eq_i64"@[0]);
    reveal_strlit("eq_u32");
    assert("lt_u64"@[0] != "eq_u32"@[0]);
    reveal_strlit("eq_u64");
    assert("lt_u64"@[0] != "eq_u64"@[0]);
    reveal_strlit("eq_f32");
    assert("lt_u64"@[0] != "eq_f32"@[0]);
    reveal_strlit("eq_f64");
    assert("lt_u64"@[0] != "eq_f64"@[0]);
    reveal_strlit("ne_i32");
    assert("lt_u64"@[0] != "ne_i32"@[0]);
    reveal_strlit("ne_i64");
    assert("lt_u64"@[0] != "ne_i64"@[0]);
    reveal_strlit("ne_u32");
    assert("lt_u64"@[0] != "ne_u32"@[0]);
    reveal_strlit("ne_u64");
    assert("lt_u64"@[0] != "ne_u64"@[0]);
    reveal_strlit("ne_f32");
    assert("lt_u64"@[0] != "ne_f32"@[0]);
    reveal_strlit("ne_f64");
    assert("lt_u64"@[0] != "ne_f64"@[0]);
    reveal_strlit("lt_i32");
    assert("lt_u64"@[3] != "lt_i32"@[3]);
    reveal_strlit("lt_i64");
    assert("lt_u64"@[3] != "lt_i64"@[3]);
    reveal_strlit("lt_u32");
    assert("lt_u64"@[4] != "lt_u32"@[4]);
    assert(int_mnemonic(IntOp::Lt, IntKind::U64) =~= "lt_u64"@);
}

/// `gt_i32` reads as the instruction `GtI32`.
proof fn lemma_mnemonic_gt_i32()
    ensures
        unit_mnemonic(int_mnemonic(IntOp::Gt, IntKind::I32)) == Some(SurfaceInstruction::GtI32),
{
    lemma_unit_mnemonic_lengths();
    reveal_strlit("gt_i32");
    reveal_strlit("eq_i32");
    assert("gt_i32"@[0] != "eq_i32"@[0]);
    reveal_strlit("eq_i64");
    assert("gt_i32"@[0] != "eq_i64"@[0]);
    reveal_strlit("eq_u32");
    assert("gt_i32"@[0] != "eq_u32"@[0]);
    reveal_strlit("eq_u64");
    assert("gt_i32"@[0] != "eq_u64"@[0]);
    reveal_strlit("eq_f32");
    assert("gt_i32"@[0] != "eq_f32"@[0]);
    reveal_strlit("eq_f64");
    assert("gt_i32"@[0] != "eq_f64"@[0]);
    reveal_strlit("ne_i32");
    assert("gt_i32"@[0] != "ne_i32"@[0]);
    reveal_strlit("ne_i64");
    assert("gt_i32"@[0] != "ne_i64"@[0]);
    reveal_strlit("ne_u32");
    assert("gt_i32"@[0] != "ne_u32"@[0]);
    reveal_strlit("ne_u64");
    assert("gt_i32"@[0] != "ne_u64"@[0]);
    reveal_strlit("ne_f32");
    assert("gt_i32"@[0] != "ne_f32"@[0]);
    reveal_strlit("ne_f64");
    assert("gt_i32"@[0] != "ne_f64"@[0]);
    reveal_strlit("lt_i32");
    assert("gt_i32"@[0] != "lt_i32"@[0]);
    reveal_strlit("lt_i64");
    assert("gt_i32"@[0] != "lt_i64"@[0]);
    reveal_strlit("lt_u32");
    assert("gt_i32"@[0] != "lt_u32"@[0]);
    reveal_strlit("lt_u64");
    assert("gt_i32"@[0] != "lt_u64"@[0]);
    reveal_strlit("lt_f32");
    assert("gt_i32"@[0] != "lt_f32"@[0]);
    reveal_strlit("lt_f64");
    assert("gt_i32"@[0] != "lt_f64"@[0]);
    assert(int_mnemonic(IntOp::Gt, IntKind::I32) =~= "gt_i32"@);
}

/// `gt_i64` reads as the instruction `GtI64`.
proof fn lemma_mnemonic_gt_i64()
    ensures
        unit_mnemonic(int_mnemonic(IntOp::Gt, IntKind::I64)) == Some(SurfaceInstruction::GtI64),
{
    lemma_unit_mnemonic_lengths();
    reveal_strlit("gt_i64");
    reveal_strlit("eq_i32");
    assert("gt_i64"@[0] != "eq_i32"@[0]);
    reveal_strlit("eq_i64");
    assert("gt_i64"@[0] != "eq_i64"@[0]);
    reveal_strlit("eq_u32");
    assert("gt_i64"@[0] != "eq_u32"@[0]);
    reveal_strlit("eq_u64");
    assert("gt_i64"@[0] != "eq_u64"@[0]);
    reveal_strlit("eq_f32");
    assert("gt_i64"@[0] != "eq_f32"@[0]);
    reveal_strlit("eq_f64");
    assert("gt_i64"@[0] != "eq_f64"@[0]);
    reveal_strlit("ne_i32");
    assert("gt_i64"@[0] != "ne_i32"@[0]);
    reveal_strlit("ne_i64");
    assert("gt_i64"@[0] != "ne_i64"@[0]);
    reveal_strlit("ne_u32");
    assert("gt_i64"@[0] != "ne_u32"@[0]);
    reveal_strlit("ne_u64");
    assert("gt_i64"@[0] != "ne_u64"@[0]);
    reveal_strlit("ne_f32");
    assert("gt_i64"@[0] != "ne_f32"@[0]);
    reveal_strlit("ne_f64");
    assert("gt_i64"@[0] != "ne_f64"@[0]);
    reveal_strlit("lt_i32");
    assert("gt_i64"@[0] != "lt_i32"@[0]);
    reveal_strlit("lt_i64");
    assert("gt_i64"@[0] != "lt_i64"@[0]);
    reveal_strlit("lt_u32");
    assert("gt_i64"@[0] != "lt_u32"@[0]);
    reveal_strlit("lt_u64");
    assert("gt_i64"@[0] != "lt_u64"@[0]);
    reveal_strlit("lt_f32");
    assert("gt_i64"@[0] != "lt_f32"@[0]);
    reveal_strlit("lt_f64");
    assert("gt_i64"@[0] != "lt_f64"@[0]);
    reveal_strlit("gt_i32");
    assert("gt_i64"@[4] != "gt_i32"@[4]);
    assert(int_mnemonic(IntOp::Gt, IntKind::I64) =~= "gt_i64"@);
}

/// `gt_u32` reads as the instruction `GtU32`.
proof fn lemma_mnemonic_gt_u32()
    ensures
        unit_mnemonic(int_mnemonic(IntOp::Gt, IntKind::U32)) == Some(SurfaceInstruction::GtU32),
{
    lemma_unit_mnemonic_lengths();
    reveal_strlit("gt_u32");
    reveal_strlit("eq_i32");
    assert("gt_u32"@[0] != "eq_i32"@[0]);
    reveal_strlit("eq_i64");
    assert("gt_u32"@[0] != "eq_i64"@[0]);
    reveal_strlit("eq_u32");
    assert("gt_u32"@[0] != "eq_u32"@[0]);
    reveal_strlit("eq_u64");
    assert("gt_u32"@[0] != "eq_u64"@[0]);
    reveal_strlit("eq_f32");
    assert("gt_u32"@[0] != "eq_f32"@[0]);
    reveal_strlit("eq_f64");
    assert("gt_u32"@[0] != "eq_f64"@[0]);
    reveal_strlit("ne_i32");
    assert("gt_u32"@[0] != "ne_i32"@[0]);
    reveal_strlit("ne_i64");
    assert("gt_u32"@[0] != "ne_i64"@[0]);
    reveal_strlit("ne_u32");
    assert("gt_u32"@[0] != "ne_u32"@[0]);
    reveal_strlit("ne_u64");
    assert("gt_u32"@[0] != "ne_u64"@[0]);
    reveal_strlit("ne_f32");
    assert("gt_u32"@[0] != "ne_f32"@[0]);
    reveal_strlit("ne_f64");
    assert("gt_u32"@[0] != "ne_f64"@[0]);
    reveal_strlit("lt_i32");
    assert("gt_u32"@[0] != "lt_i32"@[0]);
    reveal_strlit("lt_i64");
    assert("gt_u32"@[0] != "lt_i64"@[0]);
    reveal_strlit("lt_u32");
    assert("gt_u32"@[0] != "lt_u32"@[0]);
    reveal_strlit("lt_u64");
    assert("gt_u32"@[0] != "lt_u64"@[0]);
    reveal_strlit("lt_f32");
    assert("gt_u32"@[0] != "lt_f32"@[0]);
    reveal_strlit("lt_f64");
    assert("gt_u32"@[0] != "lt_f64"@[0]);
    reveal_strlit("gt_i32");
    assert("gt_u32"@[3] != "gt_i32"@[3]);
    reveal_strlit("gt_i64");
    assert("gt_u32"@[3] != "gt_i64"@[3]);
    assert(int_mnemonic(IntOp::Gt, IntKind::U32) =~= "gt_u32"@);
}

/// `gt_u64` reads as the instruction `GtU64`.
proof fn lemma_mnemonic_gt_u64()
    ensures
        unit_mnemonic(int_mnemonic(IntOp::Gt, IntKind::U64)) == Some(SurfaceInstruction::GtU64),
{
    lemma_unit_mnemonic_lengths();
    reveal_strlit("gt_u64");
    reveal_strlit("eq_i32");
    assert("gt_u64"@[0] != "eq_i32"@[0]);
    reveal_strlit("eq_i64");
    assert("gt_u64"@[0] != "eq_i64"@[0]);
    reveal_strlit("eq_u32");
    assert("gt_u64"@[0] != "eq_u32"@[0]);
    reveal_strlit("eq_u64");
    assert("gt_u64"@[0] != "eq_u64"@[0]);
    reveal_strlit("eq_f32");
    assert("gt_u64"@[0] != "eq_f32"@[0]);
    reveal_strlit("eq_f64");
    assert("gt_u64"@[0] != "eq_f64"@[0]);
    reveal_strlit("ne_i32");
    assert("gt_u64"@[0] != "ne_i32"@[0]);
    reveal_strlit("ne_i64");
    assert("gt_u64"@[0] != "ne_i64"@[0]);
    reveal_strlit("ne_u32");
    assert("gt_u64"@[0] != "ne_u32"@[0]);
    reveal_strlit("ne_u64");
    assert("gt_u64"@[0] != "ne_u64"@[0]);
    reveal_strlit("ne_f32");
    assert("gt_u64"@[0] != "ne_f32"@[0]);
    reveal_strlit("ne_f64");
    assert("gt_u64"@[0] != "ne_f64"@[0]);
    reveal_strlit("lt_i32");
    assert("gt_u64"@[0] != "lt_i32"@[0]);
    reveal_strlit("lt_i64");
    assert("gt_u64"@[0] != "lt_i64"@[0]);
    reveal_strlit("lt_u32");
    assert("gt_u64"@[0] != "lt_u32"@[0]);
    reveal_strlit("lt_u64");
    assert("gt_u64"@[0] != "lt_u64"@[0]);
    reveal_strlit("lt_f32");
    assert("gt_u64"@[0] != "lt_f32"@[0]);
    reveal_strlit("lt_f64");
    assert("gt_u64"@[0] != "lt_f64"@[0]);
    reveal_strlit("gt_i32");
    assert("gt_u64"@[3] != "gt_i32"@[3]);
    reveal_strlit("gt_i64");
    assert("gt_u64"@[3] != "gt_i64"@[3]);
    reveal_strlit("gt_u32");
    assert("gt_u64"@[4] != "gt_u32"@[4]);
    assert(int_mnemonic(IntOp::Gt, IntKind::U64) =~= "gt_u64"@);
}

/// `le_i32` reads as the instruction `LeI32`.
proof fn lemma_mnemonic_le_i32()
    ensures
        unit_mnemonic(int_mnemonic(IntOp::Le, IntKind::I32)) == Some(SurfaceInstruction::LeI32),
{
    lemma_unit_mnemonic_lengths();
    reveal_strlit("le_i32");
    reveal_strlit("eq_i32");
    assert("le_i32"@[0] != "eq_i32"@[0]);
    reveal_strlit("eq_i64");
    assert("le_i32"@[0] != "eq_i64"@[0]);
    reveal_strlit("eq_u32");
    assert("le_i32"@[0] != "eq_u32"@[0]);
    reveal_strlit("eq_u64");
    assert("le_i32"@[0] != "eq_u64"@[0]);
    reveal_strlit("eq_f32");
    assert("le_i32"@[0] != "eq_f32"@[0]);
    reveal_strlit("eq_f64");
    assert("le_i32"@[0] != "eq_f64"@[0]);
    reveal_strlit("ne_i32");
    assert("le_i32"@[0] != "ne_i32"@[0]);
    reveal_strlit("ne_i64");
    assert("le_i32"@[0] != "ne_i64"@[0]);
    reveal_strlit("ne_u32");
    assert("le_i32"@[0] != "ne_u32"@[0]);
    reveal_strlit("ne_u64");
    assert("le_i32"@[0] != "ne_u64"@[0]);
    reveal_strlit("ne_f32");
    assert("le_i32"@[0] != "ne_f32"@[0]);
    reveal_strlit("ne_f64");
    assert("le_i32"@[0] != "ne_f64"@[0]);
    reveal_strlit("lt_i32");
    assert("le_i32"@[1] != "lt_i32"@[1]);
    reveal_strlit("lt_i64");
    assert("le_i32"@[1] != "lt_i64"@[1]);
    reveal_strlit("lt_u32");
    assert("le_i32"@[1] != "lt_u32"@[1]);
    reveal_strlit("lt_u64");
    assert("le_i32"@[1] != "lt_u64"@[1]);
    reveal_strlit("lt_f32");
    assert("le_i32"@[1] != "lt_f32"@[1]);
    reveal_strlit("lt_f64");
    assert("le_i32"@[1] != "lt_f64"@[1]);
    reveal_strlit("gt_i32");
    assert("le_i32"@[0] != "gt_i32"@[0]);
    reveal_strlit("gt_i64");
    assert("le_i32"@[0] != "gt_i64"@[0]);
    reveal_strlit("gt_u32");
    assert("le_i32"@[0] != "gt_u32"@[0]);
    reveal_strlit("gt_u64");
    assert("le_i32"@[0] != "gt_u64"@[0]);
    reveal_strlit("gt_f32");
    assert("le_i32"@[0] != "gt_f32"@[0]);
    reveal_strlit("gt_f64");
    assert("le_i32"@[0] != "gt_f64"@[0]);
    assert(int_mnemonic(IntOp::Le, IntKind::I32) =~= "le_i32"@);
}

/// `le_i64` reads as the instruction `LeI64`.
proof fn lemma_mnemonic_le_i64()
    ensures
        unit_mnemonic(int_mnemonic(IntOp::Le, IntKind::I64)) == Some(SurfaceInstruction::LeI64),
{
    lemma_unit_mnemonic_lengths();
    reveal_strlit("le_i64");
    reveal_strlit("eq_i32");
    assert("le_i64"@[0] != "eq_i32"@[0]);
    reveal_strlit("eq_i64");
    assert("le_i64"@[0] != "eq_i64"@[0]);
    reveal_strlit("eq_u32");
    assert("le_i64"@[0] != "eq_u32"@[0]);
    reveal_strlit("eq_u64");
    assert("le_i64"@[0] != "eq_u64"@[0]);
    reveal_strlit("eq_f32");
    assert("le_i64"@[0] != "eq_f32"@[0]);
    reveal_strlit("eq_f64");
    assert("le_i64"@[0] != "eq_f64"@[0]);
    reveal_strlit("ne_i32");
    assert("le_i64"@[0] != "ne_i32"@[0]);
    reveal_strlit("ne_i64");
    assert("le_i64"@[0] != "ne_i64"@[0]);
    reveal_strlit("ne_u32");
    assert("le_i64"@[0] != "ne_u32"@[0]);
    reveal_strlit("ne_u64");
    assert("le_i64"@[0] != "ne_u64"@[0]);
    reveal_strlit("ne_f32");
    assert("le_i64"@[0] != "ne_f32"@[0]);
    reveal_strlit("ne_f64");
    assert("le_i64"@[0] != "ne_f64"@[0]);
    reveal_strlit("lt_i32");
    assert("le_i64"@[1] != "lt_i32"@[1]);
    reveal_strlit("lt_i64");
    assert("le_i64"@[1] != "lt_i64"@[1]);
    reveal_strlit("lt_u32");
    assert("le_i64"@[1] != "lt_u32"@[1]);
    reveal_strlit("lt_u64");
    assert("le_i64"@[1] != "lt_u64"@[1]);
    reveal_strlit("lt_f32");
    assert("le_i64"@[1] != "lt_f32"@[1]);
    reveal_strlit("lt_f64");
    assert("le_i64"@[1] != "lt_f64"@[1]);
    reveal_strlit("gt_i32");
    assert("le_i64"@[0] != "gt_i32"@[0]);
    reveal_strlit("gt_i64");
    assert("le_i64"@[0] != "gt_i64"@[0]);
    reveal_strlit("gt_u32");
    assert("le_i64"@[0] != "gt_u32"@[0]);
    reveal_strlit("gt_u64");
    assert("le_i64"@[0] != "gt_u64"@[0]);
    reveal_strlit("gt_f32");
    assert("le_i64"@[0] != "gt_f32"@[0]);
    reveal_strlit("gt_f64");
    assert("le_i64"@[0] != "gt_f64"@[0]);
    reveal_strlit("le_i32");
    assert("le_i64"@[4] != "le_i32"@[4]);
    assert(int_mnemonic(IntOp::Le, IntKind::I64) =~= "le_i64"@);
}

/// `le_u32` reads as the instruction `LeU32`.
proof fn lemma_mnemonic_le_u32()
    ensures
        unit_mnemonic(int_mnemonic(IntOp::Le, IntKind::U32)) == Some(SurfaceInstruction::LeU32),
{
    lemma_unit_mnemonic_lengths();
    reveal_strlit("le_u32");
    reveal_strlit("eq_i32");
    assert("le_u32"@[0] != "eq_i32"@[0]);
    reveal_strlit("eq_i64");
    assert("le_u32"@[0] != "eq_i64"@[0]);
    reveal_strlit("eq_u32");
    assert("le_u32"@[0] != "eq_u32"@[0]);
    reveal_strlit("eq_u64");
    assert("le_u32"@[0] != "eq_u64"@[0]);
    reveal_strlit("eq_f32");
    assert("le_u32"@[0] != "eq_f32"@[0]);
    reveal_strlit("eq_f64");
    assert("le_u32"@[0] != "eq_f64"@[0]);
    reveal_strlit("ne_i32");
    assert("le_u32"@[0] != "ne_i32"@[0]);
    reveal_strlit("ne_i64");
    assert("le_u32"@[0] != "ne_i64"@[0]);
    reveal_strlit("ne_u32");
    assert("le_u32"@[0] != "ne_u32"@[0]);
    reveal_strlit("ne_u64");
    assert("le_u32"@[0] != "ne_u64"@[0]);
    reveal_strlit("ne_f32");
    assert("le_u32"@[0] != "ne_f32"@[0]);
    reveal_strlit("ne_f64");
    assert("le_u32"@[0] != "ne_f64"@[0]);
    reveal_strlit("lt_i32");
    assert("le_u32"@[1] != "lt_i32"@[1]);
    reveal_strlit("lt_i64");
    assert("le_u32"@[1] != "lt_i64"@[1]);
    reveal_strlit("lt_u32");
    assert("le_u32"@[1] != "lt_u32"@[1]);
    reveal_strlit("lt_u64");
    assert("le_u32"@[1] != "lt_u64"@[1]);
    reveal_strlit("lt_f32");
    assert("le_u32"@[1] != "lt_f32"@[1]);
    reveal_strlit("lt_f64");
    assert("le_u32"@[1] != "lt_f64"@[1]);
    reveal_strlit("gt_i32");
    assert("le_u32"@[0] != "gt_i32"@[0]);
    reveal_strlit("gt_i64");
    assert("le_u32"@[0] != "gt_i64"@[0]);
    reveal_strlit("gt_u32");
    assert("le_u32"@[0] != "gt_u32"@[0]);
    reveal_strlit("gt_u64");
    assert("le_u32"@[0] != "gt_u64"@[0]);
    reveal_strlit("gt_f32");
    assert("le_u32"@[0] != "gt_f32"@[0]);
    reveal_strlit("gt_f64");
    assert("le_u32"@[0] != "gt_f64"@[0]);
    reveal_strlit("le_i32");
    assert("le_u32"@[3] != "le_i32"@[3]);
    reveal_strlit("le_i64");
    assert("le_u32"@[3] != "le_i64"@[3]);
    assert(int_mnemonic(IntOp::Le, IntKind::U32) =~= "le_u32"@);
}

/// `le_u64` reads as the instruction `LeU64`.
proof fn lemma_mnemonic_le_u64()
    ensures
        unit_mnemonic(int_mnemonic(IntOp::Le, IntKind::U64)) == Some(SurfaceInstruction::LeU64),
{
    lemma_unit_mnemonic_lengths();
    reveal_strlit("le_u64");
    reveal_strlit("eq_i32");
    assert("le_u64"@[0] != "eq_i32"@[0]);
    reveal_strlit("eq_i64");
    assert("le_u64"@[0] != "eq_i64"@[0]);
    reveal_strlit("eq_u32");
    assert("le_u64"@[0] != "eq_u32"@[0]);
    reveal_strlit("eq_u64");
    assert("le_u64"@[0] != "eq_u64"@[0]);
    reveal_strlit("eq_f32");
    assert("le_u64"@[0] != "eq_f32"@[0]);
    reveal_strlit("eq_f64");
    assert("le_u64"@[0] != "eq_f64"@[0]);
    reveal_strlit("ne_i32");
    assert("le_u64"@[0] != "ne_i32"@[0]);
    reveal_strlit("ne_i64");
    assert("le_u64"@[0] != "ne_i64"@[0]);
    reveal_strlit("ne_u32");
    assert("le_u64"@[0] != "ne_u32"@[0]);
    reveal_strlit("ne_u64");
    assert("le_u64"@[0] != "ne_u64"@[0]);
    reveal_strlit("ne_f32");
    assert("le_u64"@[0] != "ne_f32"@[0]);
    reveal_strlit("ne_f64");
    assert("le_u64"@[0] != "ne_f64"@[0]);
    reveal_strlit("lt_i32");
    assert("le_u64"@[1] != "lt_i32"@[1]);
    reveal_strlit("lt_i64");
    assert("le_u64"@[1] != "lt_i64"@[1]);
    reveal_strlit("lt_u32");
    assert("le_u64"@[1] != "lt_u32"@[1]);
    reveal_strlit("lt_u64");
    assert("le_u64"@[1] != "lt_u64"@[1]);
    reveal_strlit("lt_f32");
    assert("le_u64"@[1] != "lt_f32"@[1]);
    reveal_strlit("lt_f64");
    assert("le_u64"@[1] != "lt_f64"@[1]);
    reveal_strlit("gt_i32");
    assert("le_u64"@[0] != "gt_i32"@[0]);
    reveal_strlit("gt_i64");
    assert("le_u64"@[0] != "gt_i64"@[0]);
    reveal_strlit("gt_u32");
    assert("le_u64"@[0] != "gt_u32"@[0]);
    reveal_strlit("gt_u64");
    assert("le_u64"@[0] != "gt_u64"@[0]);
    reveal_strlit("gt_f32");
    assert("le_u64"@[0] != "gt_f32"@[0]);
    reveal_strlit("gt_f64");
    assert("le_u64"@[0] != "gt_f64"@[0]);
    reveal_strlit("le_i32");
    assert("le_u64"@[3] != "le_i32"@[3]);
    reveal_strlit("le_i64");
    assert("le_u64"@[3] != "le_i64"@[3]);
    reveal_strlit("le_u32");
    assert("le_u64"@[4] != "le_u32"@[4]);
    assert(int_mnemonic(IntOp::Le, IntKind::U64) =~= "le_u64"@);
}

/// `ge_i32` reads as the instruction `GeI32`.
proof fn lemma_mnemonic_ge_i32()
    ensures
        unit_mnemonic(int_mnemonic(IntOp::Ge, IntKind::I32)) == Some(SurfaceInstruction::GeI32),
{
    lemma_unit_mnemonic_lengths();
    reveal_strlit("ge_i32");
    reveal_strlit("eq_i32");
    assert("ge_i32"@[0] != "eq_i32"@[0]);
    reveal_strlit("eq_i64");
    assert("ge_i32"@[0] != "eq_i64"@[0]);
    reveal_strlit("eq_u32");
    assert("ge_i32"@[0] != "eq_u32"@[0]);
    reveal_strlit("eq_u64");
    assert("ge_i32"@[0] != "eq_u64"@[0]);
    reveal_strlit("eq_f32");
    assert("ge_i32"@[0] != "eq_f32"@[0]);
    reveal_strlit("eq_f64");
    assert("ge_i32"@[0] != "eq_f64"@[0]);
    reveal_strlit("ne_i32");
    assert("ge_i32"@[0] != "ne_i32"@[0]);
    reveal_strlit("ne_i64");
    assert("ge_i32"@[0] != "ne_i64"@[0]);
    reveal_strlit("ne_u32");
    assert("ge_i32"@[0] != "ne_u32"@[0]);
    reveal_strlit("ne_u64");
    assert("ge_i32"@[0] != "ne_u64"@[0]);
    reveal_strlit("ne_f32");
    assert("ge_i32"@[0] != "ne_f32"@[0]);
    reveal_strlit("ne_f64");
    assert("ge_i32"@[0] != "ne_f64"@[0]);
    reveal_strlit("lt_i32");
    assert("ge_i32"@[0] != "lt_i32"@[0]);
    reveal_strlit("lt_i64");
    assert("ge_i32"@[0] != "lt_i64"@[0]);
    reveal_strlit("lt_u32");
    assert("ge_i32"@[0] != "lt_u32"@[0]);
    reveal_strlit("lt_u64");
    assert("ge_i32"@[0] != "lt_u64"@[0]);
    reveal_strlit("lt_f32");
    assert("ge_i32"@[0] != "lt_f32"@[0]);
    reveal_strlit("lt_f64");
    assert("ge_i32"@[0] != "lt_f64"@[0]);
    reveal_strlit("gt_i32");
    assert("ge_i32"@[1] != "gt_i32"@[1]);
    reveal_strlit("gt_i64");
    assert("ge_i32"@[1] != "gt_i64"@[1]);
    reveal_strlit("gt_u32");
    assert("ge_i32"@[1] != "gt_u32"@[1]);
    reveal_strlit("gt_u64");
    assert("ge_i32"@[1] != "gt_u64"@[1]);
    reveal_strlit("gt_f32");
    assert("ge_i32"@[1] != "gt_f32"@[1]);
    reveal_strlit("gt_f64");
    assert("ge_i32"@[1] != "gt_f64"@[1]);
    reveal_strlit("le_i32");
    assert("ge_i32"@[0] != "le_i32"@[0]);
    reveal_strlit("le_i64");
    assert("ge_i32"@[0] != "le_i64"@[0]);
    reveal_strlit("le_u32");
    assert("ge_i32"@[0] != "le_u32"@[0]);
    reveal_strlit("le_u64");
    assert("ge_i32"@[0] != "le_u64"@[0]);
    reveal_strlit("le_f32");
    assert("ge_i32"@[0] != "le_f32"@[0]);
    reveal_strlit("le_f64");
    assert("ge_i32"@[0] != "le_f64"@[0]);
    assert(int_mnemonic(IntOp::Ge, IntKind::I32) =~= "ge_i32"@);
}

/// `ge_i64` reads as the instruction `GeI64`.
proof fn lemma_mnemonic_ge_i64()
    ensures
        unit_mnemonic(int_mnemonic(IntOp::Ge, IntKind::I64)) == Some(SurfaceInstruction::GeI64),
{
    lemma_unit_mnemonic_lengths();
    reveal_strlit("ge_i64");
    reveal_strlit("eq_i32");
    assert("ge_i64"@[0] != "eq_i32"@[0]);
    reveal_strlit("eq_i64");
    assert("ge_i64"@[0] != "eq_i64"@[0]);
    reveal_strlit("eq_u32");
    assert("ge_i64"@[0] != "eq_u32"@[0]);
    reveal_strlit("eq_u64");
    assert("ge_i64"@[0] != "eq_u64"@[0]);
    reveal_strlit("eq_f32");
    assert("ge_i64"@[0] != "eq_f32"@[0]);
    reveal_strlit("eq_f64");
    assert("ge_i64"@[0] != "eq_f64"@[0]);
    reveal_strlit("ne_i32");
    assert("ge_i64"@[0] != "ne_i32"@[0]);
    reveal_strlit("ne_i64");
    assert("ge_i64"@[0] != "ne_i64"@[0]);
    reveal_strlit("ne_u32");
    assert("ge_i64"@[0] != "ne_u32"@[0]);
    reveal_strlit("ne_u64");
    assert("ge_i64"@[0] != "ne_u64"@[0]);
    reveal_strlit("ne_f32");
    assert("ge_i64"@[0] != "ne_f32"@[0]);
    reveal_strlit("ne_f64");
    assert("ge_i64"@[0] != "ne_f64"@[0]);
    reveal_strlit("lt_i32");
    assert("ge_i64"@[0] != "lt_i32"@[0]);
    reveal_strlit("lt_i64");
    assert("ge_i64"@[0] != "lt_i64"@[0]);
    reveal_strlit("lt_u32");
    assert("ge_i64"@[0] != "lt_u32"@[0]);
    reveal_strlit("lt_u64");
    assert("ge_i64"@[0] != "lt_u64"@[0]);
    reveal_strlit("lt_f32");
    assert("ge_i64"@[0] != "lt_f32"@[0]);
    reveal_strlit("lt_f64");
    assert("ge_i64"@[0] != "lt_f64"@[0]);
    reveal_strlit("gt_i32");
    assert("ge_i64"@[1] != "gt_i32"@[1]);
    reveal_strlit("gt_i64");
    assert("ge_i64"@[1] != "gt_i64"@[1]);
    reveal_strlit("gt_u32");
    assert("ge_i64"@[1] != "gt_u32"@[1]);
    reveal_strlit("gt_u64");
    assert("ge_i64"@[1] != "gt_u64"@[1]);
    reveal_strlit("gt_f32");
    assert("ge_i64"@[1] != "gt_f32"@[1]);
    reveal_strlit("gt_f64");
    assert("ge_i64"@[1] != "gt_f64"@[1]);
    reveal_strlit("le_i32");
    assert("ge_i64"@[0] != "le_i32"@[0]);
    reveal_strlit("le_i64");
    assert("ge_i64"@[0] != "le_i64"@[0]);
    reveal_strlit("le_u32");
    assert("ge_i64"@[0] != "le_u32"@[0]);
    reveal_strlit("le_u64");
    assert("ge_i64"@[0] != "le_u64"@[0]);
    reveal_strlit("le_f32");
    assert("ge_i64"@[0] != "le_f32"@[0]);
    reveal_strlit("le_f64");
    assert("ge_i64"@[0] != "le_f64"@[0]);
    reveal_strlit("ge_i32");
    assert("ge_i64"@[4] != "ge_i32"@[4]);
    assert(int_mnemonic(IntOp::Ge, IntKind::I64) =~= "ge_i64"@);
}

/// `ge_u32` reads as the instruction `GeU32`.
proof fn lemma_mnemonic_ge_u32()
    ensures
        unit_mnemonic(int_mnemonic(IntOp::Ge, IntKind::U32)) == Some(SurfaceInstruction::GeU32),
{
    lemma_unit_mnemonic_lengths();
    reveal_strlit("ge_u32");
    reveal_strlit("eq_i32");
    assert("ge_u32"@[0] != "eq_i32"@[0]);
    reveal_strlit("eq_i64");
    assert("ge_u32"@[0] != "eq_i64"@[0]);
    reveal_strlit("eq_u32");
    assert("ge_u32"@[0] != "eq_u32"@[0]);
    reveal_strlit("eq_u64");
    assert("ge_u32"@[0] != "eq_u64"@[0]);
    reveal_strlit("eq_f32");
    assert("ge_u32"@[0] != "eq_f32"@[0]);
    reveal_strlit("eq_f64");
    assert("ge_u32"@[0] != "eq_f64"@[0]);
    reveal_strlit("ne_i32");
    assert("ge_u32"@[0] != "ne_i32"@[0]);
    reveal_strlit("ne_i64");
    assert("ge_u32"@[0] != "ne_i64"@[0]);
    reveal_strlit("ne_u32");
    assert("ge_u32"@[0] != "ne_u32"@[0]);
    reveal_strlit("ne_u64");
    assert("ge_u32"@[0] != "ne_u64"@[0]);
    reveal_strlit("ne_f32");
    assert("ge_u32"@[0] != "ne_f32"@[0]);
    reveal_strlit("ne_f64");
    assert("ge_u32"@[0] != "ne_f64"@[0]);
    reveal_strlit("lt_i32");
    assert("ge_u32"@[0] != "lt_i32"@[0]);
    reveal_strlit("lt_i64");
    assert("ge_u32"@[0] != "lt_i64"@[0]);
    reveal_strlit("lt_u32");
    assert("ge_u32"@[0] != "lt_u32"@[0]);
    reveal_strlit("lt_u64");
    assert("ge_u32"@[0] != "lt_u64"@[0]);
    reveal_strlit("lt_f32");
    assert("ge_u32"@[0] != "lt_f32"@[0]);
    reveal_strlit("lt_f64");
    assert("ge_u32"@[0] != "lt_f64"@[0]);
    reveal_strlit("gt_i32");
    assert("ge_u32"@[1] != "gt_i32"@[1]);
    reveal_strlit("gt_i64");
    assert("ge_u32"@[1] != "gt_i64"@[1]);
    reveal_strlit("gt_u32");
    assert("ge_u32"@[1] != "gt_u32"@[1]);
    reveal_strlit("gt_u64");
    assert("ge_u32"@[1] != "gt_u64"@[1]);
    reveal_strlit("gt_f32");
    assert("ge_u32"@[1] != "gt_f32"@[1]);
    reveal_strlit("gt_f64");
    assert("ge_u32"@[1] != "gt_f64"@[1]);
    reveal_strlit("le_i32");
    assert("ge_u32"@[0] != "le_i32"@[0]);
    reveal_strlit("le_i64");
    assert("ge_u32"@[0] != "le_i64"@[0]);
    reveal_strlit("le_u32");
    assert("ge_u32"@[0] != "le_u32"@[0]);
    reveal_strlit("le_u64");
    assert("ge_u32"@[0] != "le_u64"@[0]);
    reveal_strlit("le_f32");
    assert("ge_u32"@[0] != "le_f32"@[0]);
    reveal_strlit("le_f64");
    assert("ge_u32"@[0] != "le_f64"@[0]);
    reveal_strlit("ge_i32");
    assert("ge_u32"@[3] != "ge_i32"@[3]);
    reveal_strlit("ge_i64");
    assert("ge_u32"@[3] != "ge_i64"@[3]);
    assert(int_mnemonic(IntOp::Ge, IntKind::U32) =~= "ge_u32"@);
}

/// `ge_u64` reads as the instruction `GeU64`.
proof fn lemma_mnemonic_ge_u64()
    ensures
        unit_mnemonic(int_mnemonic(IntOp::Ge, IntKind::U64)) == Some(SurfaceInstruction::GeU64),
{
    lemma_unit_mnemonic_lengths();
    reveal_strlit("ge_u64");
    reveal_strlit("eq_i32");
    assert("ge_u64"@[0] != "eq_i32"@[0]);
    reveal_strlit("eq_i64");
    assert("ge_u64"@[0] != "eq_i64"@[0]);
    reveal_strlit("eq_u32");
    assert("ge_u64"@[0] != "eq_u32"@[0]);
    reveal_strlit("eq_u64");
    assert("ge_u64"@[0] != "eq_u64"@[0]);
    reveal_strlit("eq_f32");
    assert("ge_u64"@[0] != "eq_f32"@[0]);
    reveal_strlit("eq_f64");
    assert("ge_u64"@[0] != "eq_f64"@[0]);
    reveal_strlit("ne_i32");
    assert("ge_u64"@[0] != "ne_i32"@[0]);
    reveal_strlit("ne_i64");
    assert("ge_u64"@[0] != "ne_i64"@[0]);
    reveal_strlit("ne_u32");
    assert("ge_u64"@[0] != "ne_u32"@[0]);
    reveal_strlit("ne_u64");
    assert("ge_u64"@[0] != "ne_u64"@[0]);
    reveal_strlit("ne_f32");
    assert("ge_u64"@[0] != "ne_f32"@[0]);
    reveal_strlit("ne_f64");
    assert("ge_u64"@[0] != "ne_f64"@[0]);
    reveal_strlit("lt_i32");
    assert("ge_u64"@[0] != "lt_i32"@[0]);
    reveal_strlit("lt_i64");
    assert("ge_u64"@[0] != "lt_i64"@[0]);
    reveal_strlit("lt_u32");
    assert("ge_u64"@[0] != "lt_u32"@[0]);
    reveal_strlit("lt_u64");
    assert("ge_u64"@[0] != "lt_u64"@[0]);
    reveal_strlit("lt_f32");
    assert("ge_u64"@[0] != "lt_f32"@[0]);
    reveal_strlit("lt_f64");
    assert("ge_u64"@[0] != "lt_f64"@[0]);
    reveal_strlit("gt_i32");
    assert("ge_u64"@[1] != "gt_i32"@[1]);
    reveal_strlit("gt_i64");
    assert("ge_u64"@[1] != "gt_i64"@[1]);
    reveal_strlit("gt_u32");
    assert("ge_u64"@[1] != "gt_u32"@[1]);
    reveal_strlit("gt_u64");
    assert("ge_u64"@[1] != "gt_u64"@[1]);
    reveal_strlit("gt_f32");
    assert("ge_u64"@[1] != "gt_f32"@[1]);
    reveal_strlit("gt_f64");
    assert("ge_u64"@[1] != "gt_f64"@[1]);
    reveal_strlit("le_i32");
    assert("ge_u64"@[0] != "le_i32"@[0]);
    reveal_strlit("le_i64");
    assert("ge_u64"@[0] != "le_i64"@[0]);
    reveal_strlit("le_u32");
    assert("ge_u64"@[0] != "le_u32"@[0]);
    reveal_strlit("le_u64");
    assert("ge_u64"@[0] != "le_u64"@[0]);
    reveal_strlit("le_f32");
    assert("ge_u64"@[0] != "le_f32"@[0]);
    reveal_strlit("le_f64");
    assert("ge_u64"@[0] != "le_f64"@[0]);
    reveal_strlit("ge_i32");
    assert("ge_u64"@[3] != "ge_i32"@[3]);
    reveal_strlit("ge_i64");
    assert("ge_u64"@[3] != "ge_i64"@[3]);
    reveal_strlit("ge_u32");
    assert("ge_u64"@[4] != "ge_u32"@[4]);
    assert(int_mnemonic(IntOp::Ge, IntKind::U64) =~= "ge_u64"@);
}

/// Every integer mnemonic `<operation>_<type>` reads as the instruction
/// that performs that operation on operands of that type: `lt_i32` compares
/// signed 32-bit integers, `shr_u64` shifts unsigned 64-bit integers, and so
/// on for every operation and type.
#[verifier::spinoff_prover]
#[verifier::rlimit(50)]
pub proof fn lemma_int_mnemonics(op: IntOp, kind: IntKind)
    ensures
        unit_mnemonic(int_mnemonic(op, kind)) matches Some(i)
            && plain_lowering(i).kind() == Op::Int(op, kind),
{
    match (op, kind) {
        (IntOp::Add, IntKind::I32) => lemma_mnemonic_add_i32(),
        (IntOp::Add, IntKind::I64) => lemma_mnemonic_add_i64(),
        (IntOp::Add, IntKind::U32) => lemma_mnemonic_add_u32(),
        (IntOp::Add, IntKind::U64) => lemma_mnemonic_add_u64(),
        (IntOp::Sub, IntKind::I32) => lemma_mnemonic_sub_i32(),
        (IntOp::Sub, IntKind::I64) => lemma_mnemonic_sub_i64(),
        (IntOp::Sub, IntKind::U32) => lemma_mnemonic_sub_u32(),
        (IntOp::Sub, IntKind::U64) => lemma_mnemonic_sub_u64(),
        (IntOp::Mul, IntKind::I32) => lemma_mnemonic_mul_i32(),
        (IntOp::Mul, IntKind::I64) => lemma_mnemonic_mul_i64(),
        (IntOp::Mul, IntKind::U32) => lemma_mnemonic_mul_u32(),
        (IntOp::Mul, IntKind::U64) => lemma_mnemonic_mul_u64(),
        (IntOp::Div, IntKind::I32) => lemma_mnemonic_div_i32(),
        (IntOp::Div, IntKind::I64) => lemma_mnemonic_div_i64(),
        (IntOp::Div, IntKind::U32) => lemma_mnemonic_div_u32(),
        (IntOp::Div, IntKind::U64) => lemma_mnemonic_div_u64(),
        (IntOp::Rem, IntKind::I32) => lemma_mnemonic_rem_i32(),
        (IntOp::Rem, IntKind::I64) => lemma_mnemonic_rem_i64(),
        (IntOp::Rem, IntKind::U32) => lemma_mnemonic_rem_u32(),
        (IntOp::Rem, IntKind::U64) => lemma_mnemonic_rem_u64(),
        (IntOp::Shl, IntKind::I32) => lemma_mnemonic_shl_i32(),
        (IntOp::Shl, IntKind::I64) => lemma_mnemonic_shl_i64(),
        (IntOp::Shl, IntKind::U32) => lemma_mnemonic_shl_u32(),
        (IntOp::Shl, IntKind::U64) => lemma_mnemonic_shl_u64(),
        (IntOp::Shr, IntKind::I32) => lemma_mnemonic_shr_i32(),
        (IntOp::Shr, IntKind::I64) => lemma_mnemonic_shr_i64(),
        (IntOp::Shr, IntKind::U32) => lemma_mnemonic_shr_u32(),
        (IntOp::Shr, IntKind::U64) => lemma_mnemonic_shr_u64(),
        (IntOp::Rol, IntKind::I32) => lemma_mnemonic_rol_i32(),
        (IntOp::Rol, IntKind::I64) => lemma_mnemonic_rol_i64(),
        (IntOp::Rol, IntKind::U32) => lemma_mnemonic_rol_u32(),
        (IntOp::Rol, IntKind::U64) => lemma_mnemonic_rol_u64(),
        (IntOp::Ror, IntKind::I32) => lemma_mnemonic_ror_i32(),
        (IntOp::Ror, IntKind::I64) => lemma_mnemonic_ror_i64(),
        (IntOp::Ror, IntKind::U32) => lemma_mnemonic_ror_u32(),
        (IntOp::Ror, IntKind::U64) => lemma_mnemonic_ror_u64(),
        (IntOp::BitAnd, IntKind::I32) => lemma_mnemonic_bitand_i32(),
        (IntOp::BitAnd, IntKind::I64) => lemma_mnemonic_bitand_i64(),
        (IntOp::BitAnd, IntKind::U32) => lemma_mnemonic_bitand_u32(),
        (IntOp::BitAnd, IntKind::U64) => lemma_mnemonic_bitand_u64(),
        (IntOp::BitOr, IntKind::I32) => lemma_mnemonic_bitor_i32(),
        (IntOp::BitOr, IntKind::I64) => lemma_mnemonic_bitor_i64(),
        (IntOp::BitOr, IntKind::U32) => lemma_mnemonic_bitor_u32(),
        (IntOp::BitOr, IntKind::U64) => lemma_mnemonic_bitor_u64(),
        (IntOp::BitXor, IntKind::I32) => lemma_mnemonic_bitxor_i32(),
        (IntOp::BitXor, IntKind::I64) => lemma_mnemonic_bitxor_i64(),
        (IntOp::BitXor, IntKind::U32) => lemma_mnemonic_bitxor_u32(),
        (IntOp::BitXor, IntKind::U64) => lemma_mnemonic_bitxor_u64(),
        (IntOp::Eq, IntKind::I32) => lemma_mnemonic_eq_i32(),
        (IntOp::Eq, IntKind::I64) => lemma_mnemonic_eq_i64(),
        (IntOp::Eq, IntKind::U32) => lemma_mnemonic_eq_u32(),
        (IntOp::Eq, IntKind::U64) => lemma_mnemonic_eq_u64(),
        (IntOp::Ne, IntKind::I32) => lemma_mnemonic_ne_i32(),
        (IntOp::Ne, IntKind::I64) => lemma_mnemonic_ne_i64(),
        (IntOp::Ne, IntKind::U32) => lemma_mnemonic_ne_u32(),
        (IntOp::Ne, IntKind::U64) => lemma_mnemonic_ne_u64(),
        (IntOp::Lt, IntKind::I32) => lemma_mnemonic_lt_i32(),
        (IntOp::Lt, IntKind::I64) => lemma_mnemonic_lt_i64(),
        (IntOp::Lt, IntKind::U32) => lemma_mnemonic_lt_u32(),
        (IntOp::Lt, IntKind::U64) => lemma_mnemonic_lt_u64(),
        (IntOp::Gt, IntKind::I32) => lemma_mnemonic_gt_i32(),
        (IntOp::Gt, IntKind::I64) => lemma_mnemonic_gt_i64(),
        (IntOp::Gt, IntKind::U32) => lemma_mnemonic_gt_u32(),
        (IntOp::Gt, IntKind::U64) => lemma_mnemonic_gt_u64(),
        (IntOp::Le, IntKind::I32) => lemma_mnemonic_le_i32(),
        (IntOp::Le, IntKind::I64) => lemma_mnemonic_le_i64(),
        (IntOp::Le, IntKind::U32) => lemma_mnemonic_le_u32(),
        (IntOp::Le, IntKind::U64) => lemma_mnemonic_le_u64(),
        (IntOp::Ge, IntKind::I32) => lemma_mnemonic_ge_i32(),
        (IntOp::Ge, IntKind::I64) => lemma_mnemonic_ge_i64(),
        (IntOp::Ge, IntKind::U32) => lemma_mnemonic_ge_u32(),
        (IntOp::Ge, IntKind::U64) => lemma_mnemonic_ge_u64(),
    }
}


/// The name of a floating-point operation in its mnemonics.
pub open spec fn float_op_name(op: FloatOp) -> Seq<char> {
    match op {
        FloatOp::AddF32 | FloatOp::AddF64 => seq!['a', 'd', 'd'],
        FloatOp::SubF32 | FloatOp::SubF64 => seq!['s', 'u', 'b'],
        FloatOp::MulF32 | FloatOp::MulF64 => seq!['m', 'u', 'l'],
        FloatOp::DivF32 | FloatOp::DivF64 => seq!['d', 'i', 'v'],
        FloatOp::RemF32 | FloatOp::RemF64 => seq!['r', 'e', 'm'],
        FloatOp::EqF32 | FloatOp::EqF64 => seq!['e', 'q'],
        FloatOp::NeF32 | FloatOp::NeF64 => seq!['n', 'e'],
        FloatOp::LtF32 | FloatOp::LtF64 => seq!['l', 't'],
        FloatOp::GtF32 | FloatOp::GtF64 => seq!['g', 't'],
        FloatOp::LeF32 | FloatOp::LeF64 => seq!['l', 'e'],
        FloatOp::GeF32 | FloatOp::GeF64 => seq!['g', 'e'],
        FloatOp::NegF32 | FloatOp::NegF64 => seq!['n', 'e', 'g'],
    }
}

/// The name of a floating-point operation's operand type in its mnemonics.
pub open spec fn float_kind_name(op: FloatOp) -> Seq<char> {
    match op {
        FloatOp::AddF32 | FloatOp::SubF32 | FloatOp::MulF32 | FloatOp::DivF32 | FloatOp::RemF32 | FloatOp::EqF32 | FloatOp::NeF32 | FloatOp::LtF32 | FloatOp::GtF32 | FloatOp::LeF32 | FloatOp::GeF32 | FloatOp::NegF32 => seq!['f', '3', '2'],
        _ => seq!['f', '6', '4'],
    }
}

/// The mnemonic of floating-point operation `op`: the operation's name, `_`,
/// and the operand type's name, such as `lt_f64`.
pub open spec fn float_mnemonic(op: FloatOp) -> Seq<char> {
    float_op_name(op) + seq!['_'] + float_kind_name(op)
}

/// What floating-point operation `op` does: negation takes one operand, the
/// others two.
pub open spec fn float_lowering(op: FloatOp) -> Op {
    if op is NegF32 || op is NegF64 {
        Op::FloatUnary(op)
    } else {
        Op::FloatBinary(op)
    }
}

/// The mnemonic of integer negation on operands of type `kind`, such as
/// `neg_i64`.
pub open spec fn neg_mnemonic(kind: IntKind) -> Seq<char> {
    seq!['n', 'e', 'g', '_'] + int_kind_name(kind)
}

/// `add_f32` reads as the instruction `AddF32`.
proof fn lemma_mnemonic_add_f32()
    ensures
        unit_mnemonic(float_mnemonic(FloatOp::AddF32)) == Some(SurfaceInstruction::AddF32),
{
    lemma_unit_mnemonic_lengths();
    reveal_strlit("add_f32");
    reveal_strlit("add_i32");
    assert("add_f32"@[4] != "add_i32"@[4]);
    assert(float_mnemonic(FloatOp::AddF32) =~= "add_f32"@);
}

/// `add_f64` reads as the instruction `AddF64`.
proof fn lemma_mnemonic_add_f64()
    ensures
        unit_mnemonic(float_mnemonic(FloatOp::AddF64)) == Some(SurfaceInstruction::AddF64),
{
    lemma_unit_mnemonic_lengths();
    reveal_strlit("add_f64");
    reveal_strlit("add_i32");
    assert("add_f64"@[4] != "add_i32"@[4]);
    reveal_strlit("add_f32");
    assert("add_f64"@[5] != "add_f32"@[5]);
    reveal_strlit("add_i64");
    assert("add_f64"@[4] != "add_i64"@[4]);
    reveal_strlit("add_u32");
    assert("add_f64"@[4] != "add_u32"@[4]);
    reveal_strlit("add_u64");
    assert("add_f64"@[4] != "add_u64"@[4]);
    assert(float_mnemonic(FloatOp::AddF64) =~= "add_f64"@);
}

/// `sub_f32` reads as the instruction `SubF32`.
proof fn lemma_mnemonic_sub_f32()
    ensures
        unit_mnemonic(float_mnemonic(FloatOp::SubF32)) == Some(SurfaceInstruction::SubF32),
{
    lemma_unit_mnemonic_lengths();
    reveal_strlit("sub_f32");
    reveal_strlit("add_i32");
    assert("sub_f32"@[0] != "add_i32"@[0]);
    reveal_strlit("add_f32");
    assert("sub_f32"@[0] != "add_f32"@[0]);
    reveal_strlit("add_i64");
    assert("sub_f32"@[0] != "add_i64"@[0]);
    reveal_strlit("add_u32");
    assert("sub_f32"@[0] != "add_u32"@[0]);
    reveal_strlit("add_u64");
    assert("sub_f32"@[0] != "add_u64"@[0]);
    reveal_strlit("add_f64");
    assert("sub_f32"@[0] != "add_f64"@[0]);
    reveal_strlit("sub_i32");
    assert("sub_f32"@[4] != "sub_i32"@[4]);
    reveal_strlit("sub_i64");
    assert("sub_f32"@[4] != "sub_i64"@[4]);
    reveal_strlit("sub_u32");
    assert("sub_f32"@[4] != "sub_u32"@[4]);
    reveal_strlit("sub_u64");
    assert("sub_f32"@[4] != "sub_u64"@[4]);
    assert(float_mnemonic(FloatOp::SubF32) =~= "sub_f32"@);
}

/// `sub_f64` reads as the instruction `SubF64`.
proof fn lemma_mnemonic_sub_f64()
    ensures
        unit_mnemonic(float_mnemonic(FloatOp::SubF64)) == Some(SurfaceInstruction::SubF64),
{
    lemma_unit_mnemonic_lengths();
    reveal_strlit("sub_f64");
    reveal_strlit("add_i32");
    assert("sub_f64"@[0] != "add_i32"@[0]);
    reveal_strlit("add_f32");
    assert("sub_f64"@[0] != "add_f32"@[0]);
    reveal_strlit("add_i64");
    assert("sub_f64"@[0] != "add_i64"@[0]);
    reveal_strlit("add_u32");
    assert("sub_f64"@[0] != "add_u32"@[0]);
    reveal_strlit("add_u64");
    assert("sub_f64"@[0] != "add_u64"@[0]);
    reveal_strlit("add_f64");
    assert("sub_f64"@[0] != "add_f64"@[0]);
    reveal_strlit("sub_i32");
    assert("sub_f64"@[4] != "sub_i32"@[4]);
    reveal_strlit("sub_i64");
    assert("sub_f64"@[4] != "sub_i64"@[4]);
    reveal_strlit("sub_u32");
    assert("sub_f64"@[4] != "sub_u32"@[4]);
    reveal_strlit("sub_u64");
    assert("sub_f64"@[4] != "sub_u64"@[4]);
    reveal_strlit("sub_f32");
    assert("sub_f64"@[5] != "sub_f32"@[5]);
    assert(float_mnemonic(FloatOp::SubF64) =~= "sub_f64"@);
}

/// `mul_f32` reads as the instruction `MulF32`.
proof fn lemma_mnemonic_mul_f32()
    ensures
        unit_mnemonic(float_mnemonic(FloatOp::MulF32)) == Some(SurfaceInstruction::MulF32),
{
    lemma_unit_mnemonic_lengths();
    reveal_strlit("mul_f32");
    reveal_strlit("add_i32");
    assert("mul_f32"@[0] != "add_i32"@[0]);
    reveal_strlit("add_f32");
    assert("mul_f32"@[0] != "add_f32"@[0]);
    reveal_strlit("add_i64");
    assert("mul_f32"@[0] != "add_i64"@[0]);
    reveal_strlit("add_u32");
    assert("mul_f32"@[0] != "add_u32"@[0]);
    reveal_strlit("add_u64");
    assert("mul_f32"@[0] != "add_u64"@[0]);
    reveal_strlit("add_f64");
    assert("mul_f32"@[0] != "add_f64"@[0]);
    reveal_strlit("sub_i32");
    assert("mul_f32"@[0] != "sub_i32"@[0]);
    reveal_strlit("sub_i64");
    assert("mul_f32"@[0] != "sub_i64"@[0]);
    reveal_strlit("sub_u32");
    assert("mul_f32"@[0] != "sub_u32"@[0]);
    reveal_strlit("sub_u64");
    assert("mul_f32"@[0] != "sub_u64"@[0]);
    reveal_strlit("sub_f32");
    assert("mul_f32"@[0] != "sub_f32"@[0]);
    reveal_strlit("sub_f64");
    assert("mul_f32"@[0] != "sub_f64"@[0]);
    reveal_strlit("mul_i32");
    assert("mul_f32"@[4] != "mul_i32"@[4]);
    reveal_strlit("mul_i64");
    assert("mul_f32"@[4] != "mul_i64"@[4]);
    reveal_strlit("mul_u32");
    assert("mul_f32"@[4] != "mul_u32"@[4]);
    reveal_strlit("mul_u64");
    assert("mul_f32"@[4] != "mul_u64"@[4]);
    assert(float_mnemonic(FloatOp::MulF32) =~= "mul_f32"@);
}

/// `mul_f64` reads as the instruction `MulF64`.
proof fn lemma_mnemonic_mul_f64()
    ensures
        unit_mnemonic(float_mnemonic(FloatOp::MulF64)) == Some(SurfaceInstruction::MulF64),
{
    lemma_unit_mnemonic_lengths();
    reveal_strlit("mul_f64");
    reveal_strlit("add_i32");
    assert("mul_f64"@[0] != "add_i32"@[0]);
    reveal_strlit("add_f32");
    assert("mul_f64"@[0] != "add_f32"@[0]);
    reveal_strlit("add_i64");
    assert("mul_f64"@[0] != "add_i64"@[0]);
    reveal_strlit("add_u32");
    assert("mul_f64"@[0] != "add_u32"@[0]);
    reveal_strlit("add_u64");
    assert("mul_f64"@[0] != "add_u64"@[0]);
    reveal_strlit("add_f64");
    assert("mul_f64"@[0] != "add_f64"@[0]);
    reveal_strlit("sub_i32");
    assert("mul_f64"@[0] != "sub_i32"@[0]);
    reveal_strlit("sub_i64");
    assert("mul_f64"@[0] != "sub_i64"@[0]);
    reveal_strlit("sub_u32");
    assert("mul_f64"@[0] != "sub_u32"@[0]);
    reveal_strlit("sub_u64");
    assert("mul_f64"@[0] != "sub_u64"@[0]);
    reveal_strlit("sub_f32");
    assert("mul_f64"@[0] != "sub_f32"@[0]);
    reveal_strlit("sub_f64");
    assert("mul_f64"@[0] != "sub_f64"@[0]);
    reveal_strlit("mul_i32");
    assert("mul_f64"@[4] != "mul_i32"@[4]);
    reveal_strlit("mul_i64");
    assert("mul_f64"@[4] != "mul_i64"@[4]);
    reveal_strlit("mul_u32");
    assert("mul_f64"@[4] != "mul_u32"@[4]);
    reveal_strlit("mul_u64");
    assert("mul_f64"@[4] != "mul_u64"@[4]);
    reveal_strlit("mul_f32");
    assert("mul_f64"@[5] != "mul_f32"@[5]);
    assert(float_mnemonic(FloatOp::MulF64) =~= "mul_f64"@);
}

/// `div_f32` reads as the instruction `DivF32`.
proof fn lemma_mnemonic_div_f32()
    ensures
        unit_mnemonic(float_mnemonic(FloatOp::DivF32)) == Some(SurfaceInstruction::DivF32),
{
    lemma_unit_mnemonic_lengths();
    reveal_strlit("div_f32");
    reveal_strlit("add_i32");
    assert("div_f32"@[0] != "add_i32"@[0]);
    reveal_strlit("add_f32");
    assert("div_f32"@[0] != "add_f32"@[0]);
    reveal_strlit("add_i64");
    assert("div_f32"@[0] != "add_i64"@[0]);
    reveal_strlit("add_u32");
    assert("div_f32"@[0] != "add_u32"@[0]);
    reveal_strlit("add_u64");
    assert("div_f32"@[0] != "add_u64"@[0]);
    reveal_strlit("add_f64");
    assert("div_f32"@[0] != "add_f64"@[0]);
    reveal_strlit("sub_i32");
    assert("div_f32"@[0] != "sub_i32"@[0]);
    reveal_strlit("sub_i64");
    assert("div_f32"@[0] != "sub_i64"@[0]);
    reveal_strlit("sub_u32");
    assert("div_f32"@[0] != "sub_u32"@[0]);
    reveal_strlit("sub_u64");
    assert("div_f32"@[0] != "sub_u64"@[0]);
    reveal_strlit("sub_f32");
    assert("div_f32"@[0] != "sub_f32"@[0]);
    reveal_strlit("sub_f64");
    assert("div_f32"@[0] != "sub_f64"@[0]);
    reveal_strlit("mul_i32");
    assert("div_f32"@[0] != "mul_i32"@[0]);
    reveal_strlit("mul_i64");
    assert("div_f32"@[0] != "mul_i64"@[0]);
    reveal_strlit("mul_u32");
    assert("div_f32"@[0] != "mul_u32"@[0]);
    reveal_strlit("mul_u64");
    assert("div_f32"@[0] != "mul_u64"@[0]);
    reveal_strlit("mul_f32");
    assert("div_f32"@[0] != "mul_f32"@[0]);
    reveal_strlit("mul_f64");
    assert("div_f32"@[0] != "mul_f64"@[0]);
    reveal_strlit("div_i32");
    assert("div_f32"@[4] != "div_i32"@[4]);
    reveal_strlit("div_i64");
    assert("div_f32"@[4] != "div_i64"@[4]);
    reveal_strlit("div_u32");
    assert("div_f32"@[4] != "div_u32"@[4]);
    reveal_strlit("div_u64");
    assert("div_f32"@[4] != "div_u64"@[4]);
    assert(float_mnemonic(FloatOp::DivF32) =~= "div_f32"@);
}

/// `div_f64` reads as the instruction `DivF64`.
proof fn lemma_mnemonic_div_f64()
    ensures
        unit_mnemonic(float_mnemonic(FloatOp::DivF64)) == Some(SurfaceInstruction::DivF64),
{
    lemma_unit_mnemonic_lengths();
    reveal_strlit("div_f64");
    reveal_strlit("add_i32");
    assert("div_f64"@[0] != "add_i32"@[0]);
    reveal_strlit("add_f32");
    assert("div_f64"@[0] != "add_f32"@[0]);
    reveal_strlit("add_i64");
    assert("div_f64"@[0] != "add_i64"@[0]);
    reveal_strlit("add_u32");
    assert("div_f64"@[0] != "add_u32"@[0]);
    reveal_strlit("add_u64");
    assert("div_f64"@[0] != "add_u64"@[0]);
    reveal_strlit("add_f64");
    assert("div_f64"@[0] != "add_f64"@[0]);
    reveal_strlit("sub_i32");
    assert("div_f64"@[0] != "sub_i32"@[0]);
    reveal_strlit("sub_i64");
    assert("div_f64"@[0] != "sub_i64"@[0]);
    reveal_strlit("sub_u32");
    assert("div_f64"@[0] != "sub_u32"@[0]);
    reveal_strlit("sub_u64");
    assert("div_f64"@[0] != "sub_u64"@[0]);
    reveal_strlit("sub_f32");
    assert("div_f64"@[0] != "sub_f32"@[0]);
    reveal_strlit("sub_f64");
    assert("div_f64"@[0] != "sub_f64"@[0]);
    reveal_strlit("mul_i32");
    assert("div_f64"@[0] != "mul_i32"@[0]);
    reveal_strlit("mul_i64");
    assert("div_f64"@[0] != "mul_i64"@[0]);
    reveal_strlit("mul_u32");
    assert("div_f64"@[0] != "mul_u32"@[0]);
    reveal_strlit("mul_u64");
    assert("div_f64"@[0] != "mul_u64"@[0]);
    reveal_strlit("mul_f32");
    assert("div_f64"@[0] != "mul_f32"@[0]);
    reveal_strlit("mul_f64");
    assert("div_f64"@[0] != "mul_f64"@[0]);
    reveal_strlit("div_i32");
    assert("div_f64"@[4] != "div_i32"@[4]);
    reveal_strlit("div_i64");
    assert("div_f64"@[4] != "div_i64"@[4]);
    reveal_strlit("div_u32");
    assert("div_f64"@[4] != "div_u32"@[4]);
    reveal_strlit("div_u64");
    assert("div_f64"@[4] != "div_u64"@[4]);
    reveal_strlit("div_f32");
    assert("div_f64"@[5] != "div_f32"@[5]);
    assert(float_mnemonic(FloatOp::DivF64) =~= "div_f64"@);
}

/// `rem_f32` reads as the instruction `RemF32`.
proof fn lemma_mnemonic_rem_f32()
    ensures
        unit_mnemonic(float_mnemonic(FloatOp::RemF32)) == Some(SurfaceInstruction::RemF32),
{
    lemma_unit_mnemonic_lengths();
    reveal_strlit("rem_f32");
    reveal_strlit("add_i32");
    assert("rem_f32"@[0] != "add_i32"@[0]);
    reveal_strlit("add_f32");
    assert("rem_f32"@[0] != "add_f32"@[0]);
    reveal_strlit("add_i64");
    assert("rem_f32"@[0] != "add_i64"@[0]);
    reveal_strlit("add_u32");
    assert("rem_f32"@[0] != "add_u32"@[0]);
    reveal_strlit("add_u64");
    assert("rem_f32"@[0] != "add_u64"@[0]);
    reveal_strlit("add_f64");
    assert("rem_f32"@[0] != "add_f64"@[0]);
    reveal_strlit("sub_i32");
    assert("rem_f32"@[0] != "sub_i32"@[0]);
    reveal_strlit("sub_i64");
    assert("rem_f32"@[0] != "sub_i64"@[0]);
    reveal_strlit("sub_u32");
    assert("rem_f32"@[0] != "sub_u32"@[0]);
    reveal_strlit("sub_u64");
    assert("rem_f32"@[0] != "sub_u64"@[0]);
    reveal_strlit("sub_f32");
    assert("rem_f32"@[0] != "sub_f32"@[0]);
    reveal_strlit("sub_f64");
    assert("rem_f32"@[0] != "sub_f64"@[0]);
    reveal_strlit("mul_i32");
    assert("rem_f32"@[0] != "mul_i32"@[0]);
    reveal_strlit("mul_i64");
    assert("rem_f32"@[0] != "mul_i64"@[0]);
    reveal_strlit("mul_u32");
    assert("rem_f32"@[0] != "mul_u32"@[0]);
    reveal_strlit("mul_u64");
    assert("rem_f32"@[0] != "mul_u64"@[0]);
    reveal_strlit("mul_f32");
    assert("rem_f32"@[0] != "mul_f32"@[0]);
    reveal_strlit("mul_f64");
    assert("rem_f32"@[0] != "mul_f64"@[0]);
    reveal_strlit("div_i32");
    assert("rem_f32"@[0] != "div_i32"@[0]);
    reveal_strlit("div_i64");
    assert("rem_f32"@[0] != "div_i64"@[0]);
    reveal_strlit("div_u32");
    assert("rem_f32"@[0] != "div_u32"@[0]);
    reveal_strlit("div_u64");
    assert("rem_f32"@[0] != "div_u64"@[0]);
    reveal_strlit("div_f32");
    assert("rem_f32"@[0] != "div_f32"@[0]);
    reveal_strlit("div_f64");
    assert("rem_f32"@[0] != "div_f64"@[0]);
    reveal_strlit("rem_i32");
    assert("rem_f32"@[4] != "rem_i32"@[4]);
    reveal_strlit("rem_i64");
    assert("rem_f32"@[4] != "rem_i64"@[4]);
    reveal_strlit("rem_u32");
    assert("rem_f32"@[4] != "rem_u32"@[4]);
    reveal_strlit("rem_u64");
    assert("rem_f32"@[4] != "rem_u64"@[4]);
    assert(float_mnemonic(FloatOp::RemF32) =~= "rem_f32"@);
}

/// `rem_f64` reads as the instruction `RemF64`.
proof fn lemma_mnemonic_rem_f64()
    ensures
        unit_mnemonic(float_mnemonic(FloatOp::RemF64)) == Some(SurfaceInstruction::RemF64),
{
    lemma_unit_mnemonic_lengths();
    reveal_strlit("rem_f64");
    reveal_strlit("add_i32");
    assert("rem_f64"@[0] != "add_i32"@[0]);
    reveal_strlit("add_f32");
    assert("rem_f64"@[0] != "add_f32"@[0]);
    reveal_strlit("add_i64");
    assert("rem_f64"@[0] != "add_i64"@[0]);
    reveal_strlit("add_u32");
    assert("rem_f64"@[0] != "add_u32"@[0]);
    reveal_strlit("add_u64");
    assert("rem_f64"@[0] != "add_u64"@[0]);
    reveal_strlit("add_f64");
    assert("rem_f64"@[0] != "add_f64"@[0]);
    reveal_strlit("sub_i32");
    assert("rem_f64"@[0] != "sub_i32"@[0]);
    reveal_strlit("sub_i64");
    assert("rem_f64"@[0] != "sub_i64"@[0]);
    reveal_strlit("sub_u32");
    assert("rem_f64"@[0] != "sub_u32"@[0]);
    reveal_strlit("sub_u64");
    assert("rem_f64"@[0] != "sub_u64"@[0]);
    reveal_strlit("sub_f32");
    assert("rem_f64"@[0] != "sub_f32"@[0]);
    reveal_strlit("sub_f64");
    assert("rem_f64"@[0] != "sub_f64"@[0]);
    reveal_strlit("mul_i32");
    assert("rem_f64"@[0] != "mul_i32"@[0]);
    reveal_strlit("mul_i64");
    assert("rem_f64"@[0] != "mul_i64"@[0]);
    reveal_strlit("mul_u32");
    assert("rem_f64"@[0] != "mul_u32"@[0]);
    reveal_strlit("mul_u64");
    assert("rem_f64"@[0] != "mul_u64"@[0]);
    reveal_strlit("mul_f32");
    assert("rem_f64"@[0] != "mul_f32"@[0]);
    reveal_strlit("mul_f64");
    assert("rem_f64"@[0] != "mul_f64"@[0]);
    reveal_strlit("div_i32");
    assert("rem_f64"@[0] != "div_i32"@[0]);
    reveal_strlit("div_i64");
    assert("rem_f64"@[0] != "div_i64"@[0]);
    reveal_strlit("div_u32");
    assert("rem_f64"@[0] != "div_u32"@[0]);
    reveal_strlit("div_u64");
    assert("rem_f64"@[0] != "div_u64"@[0]);
    reveal_strlit("div_f32");
    assert("rem_f64"@[0] != "div_f32"@[0]);
    reveal_strlit("div_f64");
    assert("rem_f64"@[0] != "div_f64"@[0]);
    reveal_strlit("rem_i32");
    assert("rem_f64"@[4] != "rem_i32"@[4]);
    reveal_strlit("rem_i64");
    assert("rem_f64"@[4] != "rem_i64"@[4]);
    reveal_strlit("rem_u32");
    assert("rem_f64"@[4] != "rem_u32"@[4]);
    reveal_strlit("rem_u64");
    assert("rem_f64"@[4] != "rem_u64"@[4]);
    reveal_strlit("rem_f32");
    assert("rem_f64"@[5] != "rem_f32"@[5]);
    assert(float_mnemonic(FloatOp::RemF64) =~= "rem_f64"@);
}

/// `eq_f32` reads as the instruction `EqF32`.
proof fn lemma_mnemonic_eq_f32()
    ensures
        unit_mnemonic(float_mnemonic(FloatOp::EqF32)) == Some(SurfaceInstruction::EqF32),
{
    lemma_unit_mnemonic_lengths();
    reveal_strlit("eq_f32");
    reveal_strlit("eq_i32");
    assert("eq_f32"@[3] != "eq_i32"@[3]);
    reveal_strlit("eq_i64");
    assert("eq_f32"@[3] != "eq_i64"@[3]);
    reveal_strlit("eq_u32");
    assert("eq_f32"@[3] != "eq_u32"@[3]);
    reveal_strlit("eq_u64");
    assert("eq_f32"@[3] != "eq_u64"@[3]);
    assert(float_mnemonic(FloatOp::EqF32) =~= "eq_f32"@);
}

/// `eq_f64` reads as the instruction `EqF64`.
proof fn lemma_mnemonic_eq_f64()
    ensures
        unit_mnemonic(float_mnemonic(FloatOp::EqF64)) == Some(SurfaceInstruction::EqF64),
{
    lemma_unit_mnemonic_lengths();
    reveal_strlit("eq_f64");
    reveal_strlit("eq_i32");
    assert("eq_f64"@[3] != "eq_i32"@[3]);
    reveal_strlit("eq_i64");
    assert("eq_f64"@[3] != "eq_i64"@[3]);
    reveal_strlit("eq_u32");
    assert("eq_f64"@[3] != "eq_u32"@[3]);
    reveal_strlit("eq_u64");
    assert("eq_f64"@[3] != "eq_u64"@[3]);
    reveal_strlit("eq_f32");
    assert("eq_f64"@[4] != "eq_f32"@[4]);
    assert(float_mnemonic(FloatOp::EqF64) =~= "eq_f64"@);
}

/// `ne_f32` reads as the instruction `NeF32`.
proof fn lemma_mnemonic_ne_f32()
    ensures
        unit_mnemonic(float_mnemonic(FloatOp::NeF32)) == Some(SurfaceInstruction::NeF32),
{
    lemma_unit_mnemonic_lengths();
    reveal_strlit("ne_f32");
    reveal_strlit("eq_i32");
    assert("ne_f32"@[0] != "eq_i32"@[0]);
    reveal_strlit("eq_i64");
    assert("ne_f32"@[0] != "eq_i64"@[0]);
    reveal_strlit("eq_u32");
    assert("ne_f32"@[0] != "eq_u32"@[0]);
    reveal_strlit("eq_u64");
    assert("ne_f32"@[0] != "eq_u64"@[0]);
    reveal_strlit("eq_f32");
    assert("ne_f32"@[0] != "eq_f32"@[0]);
    reveal_strlit("eq_f64");
    assert("ne_f32"@[0] != "eq_f64"@[0]);
    reveal_strlit("ne_i32");
    assert("ne_f32"@[3] != "ne_i32"@[3]);
    reveal_strlit("ne_i64");
    assert("ne_f32"@[3] != "ne_i64"@[3]);
    reveal_strlit("ne_u32");
    assert("ne_f32"@[3] != "ne_u32"@[3]);
    reveal_strlit("ne_u64");
    assert("ne_f32"@[3] != "ne_u64"@[3]);
    assert(float_mnemonic(FloatOp::NeF32) =~= "ne_f32"@);
}

/// `ne_f64` reads as the instruction `NeF64`.
proof fn lemma_mnemonic_ne_f64()
    ensures
        unit_mnemonic(float_mnemonic(FloatOp::NeF64)) == Some(SurfaceInstruction::NeF64),
{
    lemma_unit_mnemonic_lengths();
    reveal_strlit("ne_f64");
    reveal_strlit("eq_i32");
    assert("ne_f64"@[0] != "eq_i32"@[0]);
    reveal_strlit("eq_i64");
    assert("ne_f64"@[0] != "eq_i64"@[0]);
    reveal_strlit("eq_u32");
    assert("ne_f64"@[0] != "eq_u32"@[0]);
    reveal_strlit("eq_u64");
    assert("ne_f64"@[0] != "eq_u64"@[0]);
    reveal_strlit("eq_f32");
    assert("ne_f64"@[0] != "eq_f32"@[0]);
    reveal_strlit("eq_f64");
    assert("ne_f64"@[0] != "eq_f64"@[0]);
    reveal_strlit("ne_i32");
    assert("ne_f64"@[3] != "ne_i32"@[3]);
    reveal_strlit("ne_i64");
    assert("ne_f64"@[3] != "ne_i64"@[3]);
    reveal_strlit("ne_u32");
    assert("ne_f64"@[3] != "ne_u32"@[3]);
    reveal_strlit("ne_u64");
    assert("ne_f64"@[3] != "ne_u64"@[3]);
    reveal_strlit("ne_f32");
    assert("ne_f64"@[4] != "ne_f32"@[4]);
    assert(float_mnemonic(FloatOp::NeF64) =~= "ne_f64"@);
}

/// `lt_f32` reads as the instruction `LtF32`.
proof fn lemma_mnemonic_lt_f32()
    ensures
        unit_mnemonic(float_mnemonic(FloatOp::LtF32)) == Some(SurfaceInstruction::LtF32),
{
    lemma_unit_mnemonic_lengths();
    reveal_strlit("lt_f32");
    reveal_strlit("eq_i32");
    assert("lt_f32"@[0] != "eq_i32"@[0]);
    reveal_strlit("eq_i64");
    assert("lt_f32"@[0] != "eq_i64"@[0]);
    reveal_strlit("eq_u32");
    assert("lt_f32"@[0] != "eq_u32"@[0]);
    reveal_strlit("eq_u64");
    assert("lt_f32"@[0] != "eq_u64"@[0]);
    reveal_strlit("eq_f32");
    assert("lt_f32"@[0] != "eq_f32"@[0]);
    reveal_strlit("eq_f64");
    assert("lt_f32"@[0] != "eq_f64"@[0]);
    reveal_strlit("ne_i32");
    assert("lt_f32"@[0] != "ne_i32"@[0]);
    reveal_strlit("ne_i64");
    assert("lt_f32"@[0] != "ne_i64"@[0]);
    reveal_strlit("ne_u32");
    assert("lt_f32"@[0] != "ne_u32"@[0]);
    reveal_strlit("ne_u64");
    assert("lt_f32"@[0] != "ne_u64"@[0]);
    reveal_strlit("ne_f32");
    assert("lt_f32"@[0] != "ne_f32"@[0]);
    reveal_strlit("ne_f64");
    assert("lt_f32"@[0] != "ne_f64"@[0]);
    reveal_strlit("lt_i32");
    assert("lt_f32"@[3] != "lt_i32"@[3]);
    reveal_strlit("lt_i64");
    assert("lt_f32"@[3] != "lt_i64"@[3]);
    reveal_strlit("lt_u32");
    assert("lt_f32"@[3] != "lt_u32"@[3]);
    reveal_strlit("lt_u64");
    assert("lt_f32"@[3] != "lt_u64"@[3]);
    assert(float_mnemonic(FloatOp::LtF32) =~= "lt_f32"@);
}

/// `lt_f64` reads as the instruction `LtF64`.
proof fn lemma_mnemonic_lt_f64()
    ensures
        unit_mnemonic(float_mnemonic(FloatOp::LtF64)) == Some(SurfaceInstruction::LtF64),
{
    lemma_unit_mnemonic_lengths();
    reveal_strlit("lt_f64");
    reveal_strlit("eq_i32");
    assert("lt_f64"@[0] != "eq_i32"@[0]);
    reveal_strlit("eq_i64");
    assert("lt_f64"@[0] != "eq_i64"@[0]);
    reveal_strlit("eq_u32");
    assert("lt_f64"@[0] != "eq_u32"@[0]);
    reveal_strlit("eq_u64");
    assert("lt_f64"@[0] != "eq_u64"@[0]);
    reveal_strlit("eq_f32");
    assert("lt_f64"@[0] != "eq_f32"@[0]);
    reveal_strlit("eq_f64");
    assert("lt_f64"@[0] != "eq_f64"@[0]);
    reveal_strlit("ne_i32");
    assert("lt_f64"@[0] != "ne_i32"@[0]);
    reveal_strlit("ne_i64");
    assert("lt_f64"@[0] != "ne_i64"@[0]);
    reveal_strlit("ne_u32");
    assert("lt_f64"@[0] != "ne_u32"@[0]);
    reveal_strlit("ne_u64");
    assert("lt_f64"@[0] != "ne_u64"@[0]);
    reveal_strlit("ne_f32");
    assert("lt_f64"@[0] != "ne_f32"@[0]);
    reveal_strlit("ne_f64");
    assert("lt_f64"@[0] != "ne_f64"@[0]);
    reveal_strlit("lt_i32");
    assert("lt_f64"@[3] != "lt_i32"@[3]);
    reveal_strlit("lt_i64");
    assert("lt_f64"@[3] != "lt_i64"@[3]);
    reveal_strlit("lt_u32");
    assert("lt_f64"@[3] != "lt_u32"@[3]);
    reveal_strlit("lt_u64");
    assert("lt_f64"@[3] != "lt_u64"@[3]);
    reveal_strlit("lt_f32");
    assert("lt_f64"@[4] != "lt_f32"@[4]);
    assert(float_mnemonic(FloatOp::LtF64) =~= "lt_f64"@);
}

/// `gt_f32` reads as the instruction `GtF32`.
proof fn lemma_mnemonic_gt_f32()
    ensures
        unit_mnemonic(float_mnemonic(FloatOp::GtF32)) == Some(SurfaceInstruction::GtF32),
{
    lemma_unit_mnemonic_lengths();
    reveal_strlit("gt_f32");
    reveal_strlit("eq_i32");
    assert("gt_f32"@[0] != "eq_i32"@[0]);
    reveal_strlit("eq_i64");
    assert("gt_f32"@[0] != "eq_i64"@[0]);
    reveal_strlit("eq_u32");
    assert("gt_f32"@[0] != "eq_u32"@[0]);
    reveal_strlit("eq_u64");
    assert("gt_f32"@[0] != "eq_u64"@[0]);
    reveal_strlit("eq_f32");
    assert("gt_f32"@[0] != "eq_f32"@[0]);
    reveal_strlit("eq_f64");
    assert("gt_f32"@[0] != "eq_f64"@[0]);
    reveal_strlit("ne_i32");
    assert("gt_f32"@[0] != "ne_i32"@[0]);
    reveal_strlit("ne_i64");
    assert("gt_f32"@[0] != "ne_i64"@[0]);
    reveal_strlit("ne_u32");
    assert("gt_f32"@[0] != "ne_u32"@[0]);
    reveal_strlit("ne_u64");
    assert("gt_f32"@[0] != "ne_u64"@[0]);
    reveal_strlit("ne_f32");
    assert("gt_f32"@[0] != "ne_f32"@[0]);
    reveal_strlit("ne_f64");
    assert("gt_f32"@[0] != "ne_f64"@[0]);
    reveal_strlit("lt_i32");
    assert("gt_f32"@[0] != "lt_i32"@[0]);
    reveal_strlit("lt_i64");
    assert("gt_f32"@[0] != "lt_i64"@[0]);
    reveal_strlit("lt_u32");
    assert("gt_f32"@[0] != "lt_u32"@[0]);
    reveal_strlit("lt_u64");
    assert("gt_f32"@[0] != "lt_u64"@[0]);
    reveal_strlit("lt_f32");
    assert("gt_f32"@[0] != "lt_f32"@[0]);
    reveal_strlit("lt_f64");
    assert("gt_f32"@[0] != "lt_f64"@[0]);
    reveal_strlit("gt_i32");
    assert("gt_f32"@[3] != "gt_i32"@[3]);
    reveal_strlit("gt_i64");
    assert("gt_f32"@[3] != "gt_i64"@[3]);
    reveal_strlit("gt_u32");
    assert("gt_f32"@[3] != "gt_u32"@[3]);
    reveal_strlit("gt_u64");
    assert("gt_f32"@[3] != "gt_u64"@[3]);
    assert(float_mnemonic(FloatOp::GtF32) =~= "gt_f32"@);
}

/// `gt_f64` reads as the instruction `GtF64`.
proof fn lemma_mnemonic_gt_f64()
    ensures
        unit_mnemonic(float_mnemonic(FloatOp::GtF64)) == Some(SurfaceInstruction::GtF64),
{
    lemma_unit_mnemonic_lengths();
    reveal_strlit("gt_f64");
    reveal_strlit("eq_i32");
    assert("gt_f64"@[0] != "eq_i32"@[0]);
    reveal_strlit("eq_i64");
    assert("gt_f64"@[0] != "eq_i64"@[0]);
    reveal_strlit("eq_u32");
    assert("gt_f64"@[0] != "eq_u32"@[0]);
    reveal_strlit("eq_u64");
    assert("gt_f64"@[0] != "eq_u64"@[0]);
    reveal_strlit("eq_f32");
    assert("gt_f64"@[0] != "eq_f32"@[0]);
    reveal_strlit("eq_f64");
    assert("gt_f64"@[0] != "eq_f64"@[0]);
    reveal_strlit("ne_i32");
    assert("gt_f64"@[0] != "ne_i32"@[0]);
    reveal_strlit("ne_i64");
    assert("gt_f64"@[0] != "ne_i64"@[0]);
    reveal_strlit("ne_u32");
    assert("gt_f64"@[0] != "ne_u32"@[0]);
    reveal_strlit("ne_u64");
    assert("gt_f64"@[0] != "ne_u64"@[0]);
    reveal_strlit("ne_f32");
    assert("gt_f64"@[0] != "ne_f32"@[0]);
    reveal_strlit("ne_f64");
    assert("gt_f64"@[0] != "ne_f64"@[0]);
    reveal_strlit("lt_i32");
    assert("gt_f64"@[0] != "lt_i32"@[0]);
    reveal_strlit("lt_i64");
    assert("gt_f64"@[0] != "lt_i64"@[0]);
    reveal_strlit("lt_u32");
    assert("gt_f64"@[0] != "lt_u32"@[0]);
    reveal_strlit("lt_u64");
    assert("gt_f64"@[0] != "lt_u64"@[0]);
    reveal_strlit("lt_f32");
    assert("gt_f64"@[0] != "lt_f32"@[0]);
    reveal_strlit("lt_f64");
    assert("gt_f64"@[0] != "lt_f64"@[0]);
    reveal_strlit("gt_i32");
    assert("gt_f64"@[3] != "gt_i32"@[3]);
    reveal_strlit("gt_i64");
    assert("gt_f64"@[3] != "gt_i64"@[3]);
    reveal_strlit("gt_u32");
    assert("gt_f64"@[3] != "gt_u32"@[3]);
    reveal_strlit("gt_u64");
    assert("gt_f64"@[3] != "gt_u64"@[3]);
    reveal_strlit("gt_f32");
    assert("gt_f64"@[4] != "gt_f32"@[4]);
    assert(float_mnemonic(FloatOp::GtF64) =~= "gt_f64"@);
}

/// `le_f32` reads as the instruction `LeF32`.
proof fn lemma_mnemonic_le_f32()
    ensures
        unit_mnemonic(float_mnemonic(FloatOp::LeF32)) == Some(SurfaceInstruction::LeF32),
{
    lemma_unit_mnemonic_lengths();
    reveal_strlit("le_f32");
    reveal_strlit("eq_i32");
    assert("le_f32"@[0] != "eq_i32"@[0]);
    reveal_strlit("eq_i64");
    assert("le_f32"@[0] != "eq_i64"@[0]);
    reveal_strlit("eq_u32");
    assert("le_f32"@[0] != "eq_u32"@[0]);
    reveal_strlit("eq_u64");
    assert("le_f32"@[0] != "eq_u64"@[0]);
    reveal_strlit("eq_f32");
    assert("le_f32"@[0] != "eq_f32"@[0]);
    reveal_strlit("eq_f64");
    assert("le_f32"@[0] != "eq_f64"@[0]);
    reveal_strlit("ne_i32");
    assert("le_f32"@[0] != "ne_i32"@[0]);
    reveal_strlit("ne_i64");
    assert("le_f32"@[0] != "ne_i64"@[0]);
    reveal_strlit("ne_u32");
    assert("le_f32"@[0] != "ne_u32"@[0]);
    reveal_strlit("ne_u64");
    assert("le_f32"@[0] != "ne_u64"@[0]);
    reveal_strlit("ne_f32");
    assert("le_f32"@[0] != "ne_f32"@[0]);
    reveal_strlit("ne_f64");
    assert("le_f32"@[0] != "ne_f64"@[0]);
    reveal_strlit("lt_i32");
    assert("le_f32"@[1] != "lt_i32"@[1]);
    reveal_strlit("lt_i64");
    assert("le_f32"@[1] != "lt_i64"@[1]);
    reveal_strlit("lt_u32");
    assert("le_f32"@[1] != "lt_u32"@[1]);
    reveal_strlit("lt_u64");
    assert("le_f32"@[1] != "lt_u64"@[1]);
    reveal_strlit("lt_f32");
    assert("le_f32"@[1] != "lt_f32"@[1]);
    reveal_strlit("lt_f64");
    assert("le_f32"@[1] != "lt_f64"@[1]);
    reveal_strlit("gt_i32");
    assert("le_f32"@[0] != "gt_i32"@[0]);
    reveal_strlit("gt_i64");
    assert("le_f32"@[0] != "gt_i64"@[0]);
    reveal_strlit("gt_u32");
    assert("le_f32"@[0] != "gt_u32"@[0]);
    reveal_strlit("gt_u64");
    assert("le_f32"@[0] != "gt_u64"@[0]);
    reveal_strlit("gt_f32");
    assert("le_f32"@[0] != "gt_f32"@[0]);
    reveal_strlit("gt_f64");
    assert("le_f32"@[0] != "gt_f64"@[0]);
    reveal_strlit("le_i32");
    assert("le_f32"@[3] != "le_i32"@[3]);
    reveal_strlit("le_i64");
    assert("le_f32"@[3] != "le_i64"@[3]);
    reveal_strlit("le_u32");
    assert("le_f32"@[3] != "le_u32"@[3]);
    reveal_strlit("le_u64");
    assert("le_f32"@[3] != "le_u64"@[3]);
    assert(float_mnemonic(FloatOp::LeF32) =~= "le_f32"@);
}

/// `le_f64` reads as the instruction `LeF64`.
proof fn lemma_mnemonic_le_f64()
    ensures
        unit_mnemonic(float_mnemonic(FloatOp::LeF64)) == Some(SurfaceInstruction::LeF64),
{
    lemma_unit_mnemonic_lengths();
    reveal_strlit("le_f64");
    reveal_strlit("eq_i32");
    assert("le_f64"@[0] != "eq_i32"@[0]);
    reveal_strlit("eq_i64");
    assert("le_f64"@[0] != "eq_i64"@[0]);
    reveal_strlit("eq_u32");
    assert("le_f64"@[0] != "eq_u32"@[0]);
    reveal_strlit("eq_u64");
    assert("le_f64"@[0] != "eq_u64"@[0]);
    reveal_strlit("eq_f32");
    assert("le_f64"@[0] != "eq_f32"@[0]);
    reveal_strlit("eq_f64");
    assert("le_f64"@[0] != "eq_f64"@[0]);
    reveal_strlit("ne_i32");
    assert("le_f64"@[0] != "ne_i32"@[0]);
    reveal_strlit("ne_i64");
    assert("le_f64"@[0] != "ne_i64"@[0]);
    reveal_strlit("ne_u32");
    assert("le_f64"@[0] != "ne_u32"@[0]);
    reveal_strlit("ne_u64");
    assert("le_f64"@[0] != "ne_u64"@[0]);
    reveal_strlit("ne_f32");
    assert("le_f64"@[0] != "ne_f32"@[0]);
    reveal_strlit("ne_f64");
    assert("le_f64"@[0] != "ne_f64"@[0]);
    reveal_strlit("lt_i32");
    assert("le_f64"@[1] != "lt_i32"@[1]);
    reveal_strlit("lt_i64");
    assert("le_f64"@[1] != "lt_i64"@[1]);
    reveal_strlit("lt_u32");
    assert("le_f64"@[1] != "lt_u32"@[1]);
    reveal_strlit("lt_u64");
    assert("le_f64"@[1] != "lt_u64"@[1]);
    reveal_strlit("lt_f32");
    assert("le_f64"@[1] != "lt_f32"@[1]);
    reveal_strlit("lt_f64");
    assert("le_f64"@[1] != "lt_f64"@[1]);
    reveal_strlit("gt_i32");
    assert("le_f64"@[0] != "gt_i32"@[0]);
    reveal_strlit("gt_i64");
    assert("le_f64"@[0] != "gt_i64"@[0]);
    reveal_strlit("gt_u32");
    assert("le_f64"@[0] != "gt_u32"@[0]);
    reveal_strlit("gt_u64");
    assert("le_f64"@[0] != "gt_u64"@[0]);
    reveal_strlit("gt_f32");
    assert("le_f64"@[0] != "gt_f32"@[0]);
    reveal_strlit("gt_f64");
    assert("le_f64"@[0] != "gt_f64"@[0]);
    reveal_strlit("le_i32");
    assert("le_f64"@[3] != "le_i32"@[3]);
    reveal_strlit("le_i64");
    assert("le_f64"@[3] != "le_i64"@[3]);
    reveal_strlit("le_u32");
    assert("le_f64"@[3] != "le_u32"@[3]);
    reveal_strlit("le_u64");
    assert("le_f64"@[3] != "le_u64"@[3]);
    reveal_strlit("le_f32");
    assert("le_f64"@[4] != "le_f32"@[4]);
    assert(float_mnemonic(FloatOp::LeF64) =~= "le_f64"@);
}

/// `ge_f32` reads as the instruction `GeF32`.
proof fn lemma_mnemonic_ge_f32()
    ensures
        unit_mnemonic(float_mnemonic(FloatOp::GeF32)) == Some(SurfaceInstruction::GeF32),
{
    lemma_unit_mnemonic_lengths();
    reveal_strlit("ge_f32");
    reveal_strlit("eq_i32");
    assert("ge_f32"@[0] != "eq_i32"@[0]);
    reveal_strlit("eq_i64");
    assert("ge_f32"@[0] != "eq_i64"@[0]);
    reveal_strlit("eq_u32");
    assert("ge_f32"@[0] != "eq_u32"@[0]);
    reveal_strlit("eq_u64");
    assert("ge_f32"@[0] != "eq_u64"@[0]);
    reveal_strlit("eq_f32");
    assert("ge_f32"@[0] != "eq_f32"@[0]);
    reveal_strlit("eq_f64");
    assert("ge_f32"@[0] != "eq_f64"@[0]);
    reveal_strlit("ne_i32");
    assert("ge_f32"@[0] != "ne_i32"@[0]);
    reveal_strlit("ne_i64");
    assert("ge_f32"@[0] != "ne_i64"@[0]);
    reveal_strlit("ne_u32");
    assert("ge_f32"@[0] != "ne_u32"@[0]);
    reveal_strlit("ne_u64");
    assert("ge_f32"@[0] != "ne_u64"@[0]);
    reveal_strlit("ne_f32");
    assert("ge_f32"@[0] != "ne_f32"@[0]);
    reveal_strlit("ne_f64");
    assert("ge_f32"@[0] != "ne_f64"@[0]);
    reveal_strlit("lt_i32");
    assert("ge_f32"@[0] != "lt_i32"@[0]);
    reveal_strlit("lt_i64");
    assert("ge_f32"@[0] != "lt_i64"@[0]);
    reveal_strlit("lt_u32");
    assert("ge_f32"@[0] != "lt_u32"@[0]);
    reveal_strlit("lt_u64");
    assert("ge_f32"@[0] != "lt_u64"@[0]);
    reveal_strlit("lt_f32");
    assert("ge_f32"@[0] != "lt_f32"@[0]);
    reveal_strlit("lt_f64");
    assert("ge_f32"@[0] != "lt_f64"@[0]);
    reveal_strlit("gt_i32");
    assert("ge_f32"@[1] != "gt_i32"@[1]);
    reveal_strlit("gt_i64");
    assert("ge_f32"@[1] != "gt_i64"@[1]);
    reveal_strlit("gt_u32");
    assert("ge_f32"@[1] != "gt_u32"@[1]);
    reveal_strlit("gt_u64");
    assert("ge_f32"@[1] != "gt_u64"@[1]);
    reveal_strlit("gt_f32");
    assert("ge_f32"@[1] != "gt_f32"@[1]);
    reveal_strlit("gt_f64");
    assert("ge_f32"@[1] != "gt_f64"@[1]);
    reveal_strlit("le_i32");
    assert("ge_f32"@[0] != "le_i32"@[0]);
    reveal_strlit("le_i64");
    assert("ge_f32"@[0] != "le_i64"@[0]);
    reveal_strlit("le_u32");
    assert("ge_f32"@[0] != "le_u32"@[0]);
    reveal_strlit("le_u64");
    assert("ge_f32"@[0] != "le_u64"@[0]);
    reveal_strlit("le_f32");
    assert("ge_f32"@[0] != "le_f32"@[0]);
    reveal_strlit("le_f64");
    assert("ge_f32"@[0] != "le_f64"@[0]);
    reveal_strlit("ge_i32");
    assert("ge_f32"@[3] != "ge_i32"@[3]);
    reveal_strlit("ge_i64");
    assert("ge_f32"@[3] != "ge_i64"@[3]);
    reveal_strlit("ge_u32");
    assert("ge_f32"@[3] != "ge_u32"@[3]);
    reveal_strlit("ge_u64");
    assert("ge_f32"@[3] != "ge_u64"@[3]);
    assert(float_mnemonic(FloatOp::GeF32) =~= "ge_f32"@);
}

/// `ge_f64` reads as the instruction `GeF64`.
proof fn lemma_mnemonic_ge_f64()
    ensures
        unit_mnemonic(float_mnemonic(FloatOp::GeF64)) == Some(SurfaceInstruction::GeF64),
{
    lemma_unit_mnemonic_lengths();
    reveal_strlit("ge_f64");
    reveal_strlit("eq_i32");
    assert("ge_f64"@[0] != "eq_i32"@[0]);
    reveal_strlit("eq_i64");
    assert("ge_f64"@[0] != "eq_i64"@[0]);
    reveal_strlit("eq_u32");
    assert("ge_f64"@[0] != "eq_u32"@[0]);
    reveal_strlit("eq_u64");
    assert("ge_f64"@[0] != "eq_u64"@[0]);
    reveal_strlit("eq_f32");
    assert("ge_f64"@[0] != "eq_f32"@[0]);
    reveal_strlit("eq_f64");
    assert("ge_f64"@[0] != "eq_f64"@[0]);
    reveal_strlit("ne_i32");
    assert("ge_f64"@[0] != "ne_i32"@[0]);
    reveal_strlit("ne_i64");
    assert("ge_f64"@[0] != "ne_i64"@[0]);
    reveal_strlit("ne_u32");
    assert("ge_f64"@[0] != "ne_u32"@[0]);
    reveal_strlit("ne_u64");
    assert("ge_f64"@[0] != "ne_u64"@[0]);
    reveal_strlit("ne_f32");
    assert("ge_f64"@[0] != "ne_f32"@[0]);
    reveal_strlit("ne_f64");
    assert("ge_f64"@[0] != "ne_f64"@[0]);
    reveal_strlit("lt_i32");
    assert("ge_f64"@[0] != "lt_i32"@[0]);
    reveal_strlit("lt_i64");
    assert("ge_f64"@[0] != "lt_i64"@[0]);
    reveal_strlit("lt_u32");
    assert("ge_f64"@[0] != "lt_u32"@[0]);
    reveal_strlit("lt_u64");
    assert("ge_f64"@[0] != "lt_u64"@[0]);
    reveal_strlit("lt_f32");
    assert("ge_f64"@[0] != "lt_f32"@[0]);
    reveal_strlit("lt_f64");
    assert("ge_f64"@[0] != "lt_f64"@[0]);
    reveal_strlit("gt_i32");
    assert("ge_f64"@[1] != "gt_i32"@[1]);
    reveal_strlit("gt_i64");
    assert("ge_f64"@[1] != "gt_i64"@[1]);
    reveal_strlit("gt_u32");
    assert("ge_f64"@[1] != "gt_u32"@[1]);
    reveal_strlit("gt_u64");
    assert("ge_f64"@[1] != "gt_u64"@[1]);
    reveal_strlit("gt_f32");
    assert("ge_f64"@[1] != "gt_f32"@[1]);
    reveal_strlit("gt_f64");
    assert("ge_f64"@[1] != "gt_f64"@[1]);
    reveal_strlit("le_i32");
    assert("ge_f64"@[0] != "le_i32"@[0]);
    reveal_strlit("le_i64");
    assert("ge_f64"@[0] != "le_i64"@[0]);
    reveal_strlit("le_u32");
    assert("ge_f64"@[0] != "le_u32"@[0]);
    reveal_strlit("le_u64");
    assert("ge_f64"@[0] != "le_u64"@[0]);
    reveal_strlit("le_f32");
    assert("ge_f64"@[0] != "le_f32"@[0]);
    reveal_strlit("le_f64");
    assert("ge_f64"@[0] != "le_f64"@[0]);
    reveal_strlit("ge_i32");
    assert("ge_f64"@[3] != "ge_i32"@[3]);
    reveal_strlit("ge_i64");
    assert("ge_f64"@[3] != "ge_i64"@[3]);
    reveal_strlit("ge_u32");
    assert("ge_f64"@[3] != "ge_u32"@[3]);
    reveal_strlit("ge_u64");
    assert("ge_f64"@[3] != "ge_u64"@[3]);
    reveal_strlit("ge_f32");
    assert("ge_f64"@[4] != "ge_f32"@[4]);
    assert(float_mnemonic(FloatOp::GeF64) =~= "ge_f64"@);
}

/// `neg_f32` reads as the instruction `NegF32`.
proof fn lemma_mnemonic_neg_f32()
    ensures
        unit_mnemonic(float_mnemonic(FloatOp::NegF32)) == Some(SurfaceInstruction::NegF32),
{
    lemma_unit_mnemonic_lengths();
    reveal_strlit("neg_f32");
    reveal_strlit("add_i32");
    assert("neg_f32"@[0] != "add_i32"@[0]);
    reveal_strlit("add_f32");
    assert("neg_f32"@[0] != "add_f32"@[0]);
    reveal_strlit("add_i64");
    assert("neg_f32"@[0] != "add_i64"@[0]);
    reveal_strlit("add_u32");
    assert("neg_f32"@[0] != "add_u32"@[0]);
    reveal_strlit("add_u64");
    assert("neg_f32"@[0] != "add_u64"@[0]);
    reveal_strlit("add_f64");
    assert("neg_f32"@[0] != "add_f64"@[0]);
    reveal_strlit("sub_i32");
    assert("neg_f32"@[0] != "sub_i32"@[0]);
    reveal_strlit("sub_i64");
    assert("neg_f32"@[0] != "sub_i64"@[0]);
    reveal_strlit("sub_u32");
    assert("neg_f32"@[0] != "sub_u32"@[0]);
    reveal_strlit("sub_u64");
    assert("neg_f32"@[0] != "sub_u64"@[0]);
    reveal_strlit("sub_f32");
    assert("neg_f32"@[0] != "sub_f32"@[0]);
    reveal_strlit("sub_f64");
    assert("neg_f32"@[0] != "sub_f64"@[0]);
    reveal_strlit("mul_i32");
    assert("neg_f32"@[0] != "mul_i32"@[0]);
    reveal_strlit("mul_i64");
    assert("neg_f32"@[0] != "mul_i64"@[0]);
    reveal_strlit("mul_u32");
    assert("neg_f32"@[0] != "mul_u32"@[0]);
    reveal_strlit("mul_u64");
    assert("neg_f32"@[0] != "mul_u64"@[0]);
    reveal_strlit("mul_f32");
    assert("neg_f32"@[0] != "mul_f32"@[0]);
    reveal_strlit("mul_f64");
    assert("neg_f32"@[0] != "mul_f64"@[0]);
    reveal_strlit("div_i32");
    assert("neg_f32"@[0] != "div_i32"@[0]);
    reveal_strlit("div_i64");
    assert("neg_f32"@[0] != "div_i64"@[0]);
    reveal_strlit("div_u32");
    assert("neg_f32"@[0] != "div_u32"@[0]);
    reveal_strlit("div_u64");
    assert("neg_f32"@[0] != "div_u64"@[0]);
    reveal_strlit("div_f32");
    assert("neg_f32"@[0] != "div_f32"@[0]);
    reveal_strlit("div_f64");
    assert("neg_f32"@[0] != "div_f64"@[0]);
    reveal_strlit("rem_i32");
    assert("neg_f32"@[0] != "rem_i32"@[0]);
    reveal_strlit("rem_i64");
    assert("neg_f32"@[0] != "rem_i64"@[0]);
    reveal_strlit("rem_u32");
    assert("neg_f32"@[0] != "rem_u32"@[0]);
    reveal_strlit("rem_u64");
    assert("neg_f32"@[0] != "rem_u64"@[0]);
    reveal_strlit("rem_f32");
    assert("neg_f32"@[0] != "rem_f32"@[0]);
    reveal_strlit("rem_f64");
    assert("neg_f32"@[0] != "rem_f64"@[0]);
    reveal_strlit("neg_i32");
    assert("neg_f32"@[4] != "neg_i32"@[4]);
    reveal_strlit("neg_i64");
    assert("neg_f32"@[4] != "neg_i64"@[4]);
    assert(float_mnemonic(FloatOp::NegF32) =~= "neg_f32"@);
}

/// `neg_f64` reads as the instruction `NegF64`.
proof fn lemma_mnemonic_neg_f64()
    ensures
        unit_mnemonic(float_mnemonic(FloatOp::NegF64)) == Some(SurfaceInstruction::NegF64),
{
    lemma_unit_mnemonic_lengths();
    reveal_strlit("neg_f64");
    reveal_strlit("add_i32");
    assert("neg_f64"@[0] != "add_i32"@[0]);
    reveal_strlit("add_f32");
    assert("neg_f64"@[0] != "add_f32"@[0]);
    reveal_strlit("add_i64");
    assert("neg_f64"@[0] != "add_i64"@[0]);
    reveal_strlit("add_u32");
    assert("neg_f64"@[0] != "add_u32"@[0]);
    reveal_strlit("add_u64");
    assert("neg_f64"@[0] != "add_u64"@[0]);
    reveal_strlit("add_f64");
    assert("neg_f64"@[0] != "add_f64"@[0]);
    reveal_strlit("sub_i32");
    assert("neg_f64"@[0] != "sub_i32"@[0]);
    reveal_strlit("sub_i64");
    assert("neg_f64"@[0] != "sub_i64"@[0]);
    reveal_strlit("sub_u32");
    assert("neg_f64"@[0] != "sub_u32"@[0]);
    reveal_strlit("sub_u64");
    assert("neg_f64"@[0] != "sub_u64"@[0]);
    reveal_strlit("sub_f32");
    assert("neg_f64"@[0] != "sub_f32"@[0]);
    reveal_strlit("sub_f64");
    assert("neg_f64"@[0] != "sub_f64"@[0]);
    reveal_strlit("mul_i32");
    assert("neg_f64"@[0] != "mul_i32"@[0]);
    reveal_strlit("mul_i64");
    assert("neg_f64"@[0] != "mul_i64"@[0]);
    reveal_strlit("mul_u32");
    assert("neg_f64"@[0] != "mul_u32"@[0]);
    reveal_strlit("mul_u64");
    assert("neg_f64"@[0] != "mul_u64"@[0]);
    reveal_strlit("mul_f32");
    assert("neg_f64"@[0] != "mul_f32"@[0]);
    reveal_strlit("mul_f64");
    assert("neg_f64"@[0] != "mul_f64"@[0]);
    reveal_strlit("div_i32");
    assert("neg_f64"@[0] != "div_i32"@[0]);
    reveal_strlit("div_i64");
    assert("neg_f64"@[0] != "div_i64"@[0]);
    reveal_strlit("div_u32");
    assert("neg_f64"@[0] != "div_u32"@[0]);
    reveal_strlit("div_u64");
    assert("neg_f64"@[0] != "div_u64"@[0]);
    reveal_strlit("div_f32");
    assert("neg_f64"@[0] != "div_f32"@[0]);
    reveal_strlit("div_f64");
    assert("neg_f64"@[0] != "div_f64"@[0]);
    reveal_strlit("rem_i32");
    assert("neg_f64"@[0] != "rem_i32"@[0]);
    reveal_strlit("rem_i64");
    assert("neg_f64"@[0] != "rem_i64"@[0]);
    reveal_strlit("rem_u32");
    assert("neg_f64"@[0] != "rem_u32"@[0]);
    reveal_strlit("rem_u64");
    assert("neg_f64"@[0] != "rem_u64"@[0]);
    reveal_strlit("rem_f32");
    assert("neg_f64"@[0] != "rem_f32"@[0]);
    reveal_strlit("rem_f64");
    assert("neg_f64"@[0] != "rem_f64"@[0]);
    reveal_strlit("neg_i32");
    assert("neg_f64"@[4] != "neg_i32"@[4]);
    reveal_strlit("neg_i64");
    assert("neg_f64"@[4] != "neg_i64"@[4]);
    reveal_strlit("neg_f32");
    assert("neg_f64"@[5] != "neg_f32"@[5]);
    assert(float_mnemonic(FloatOp::NegF64) =~= "neg_f64"@);
}

/// `neg_i32` reads as the instruction `NegI32`.
proof fn lemma_mnemonic_neg_i32()
    ensures
        unit_mnemonic(neg_mnemonic(IntKind::I32)) == Some(SurfaceInstruction::NegI32),
{
    lemma_unit_mnemonic_lengths();
    reveal_strlit("neg_i32");
    reveal_strlit("add_i32");
    assert("neg_i32"@[0] != "add_i32"@[0]);
    reveal_strlit("add_f32");
    assert("neg_i32"@[0] != "add_f32"@[0]);
    reveal_strlit("add_i64");
    assert("neg_i32"@[0] != "add_i64"@[0]);
    reveal_strlit("add_u32");
    assert("neg_i32"@[0] != "add_u32"@[0]);
    reveal_strlit("add_u64");
    assert("neg_i32"@[0] != "add_u64"@[0]);
    reveal_strlit("add_f64");
    assert("neg_i32"@[0] != "add_f64"@[0]);
    reveal_strlit("sub_i32");
    assert("neg_i32"@[0] != "sub_i32"@[0]);
    reveal_strlit("sub_i64");
    assert("neg_i32"@[0] != "sub_i64"@[0]);
    reveal_strlit("sub_u32");
    assert("neg_i32"@[0] != "sub_u32"@[0]);
    reveal_strlit("sub_u64");
    assert("neg_i32"@[0] != "sub_u64"@[0]);
    reveal_strlit("sub_f32");
    assert("neg_i32"@[0] != "sub_f32"@[0]);
    reveal_strlit("sub_f64");
    assert("neg_i32"@[0] != "sub_f64"@[0]);
    reveal_strlit("mul_i32");
    assert("neg_i32"@[0] != "mul_i32"@[0]);
    reveal_strlit("mul_i64");
    assert("neg_i32"@[0] != "mul_i64"@[0]);
    reveal_strlit("mul_u32");
    assert("neg_i32"@[0] != "mul_u32"@[0]);
    reveal_strlit("mul_u64");
    assert("neg_i32"@[0] != "mul_u64"@[0]);
    reveal_strlit("mul_f32");
    assert("neg_i32"@[0] != "mul_f32"@[0]);
    reveal_strlit("mul_f64");
    assert("neg_i32"@[0] != "mul_f64"@[0]);
    reveal_strlit("div_i32");
    assert("neg_i32"@[0] != "div_i32"@[0]);
    reveal_strlit("div_i64");
    assert("neg_i32"@[0] != "div_i64"@[0]);
    reveal_strlit("div_u32");
    assert("neg_i32"@[0] != "div_u32"@[0]);
    reveal_strlit("div_u64");
    assert("neg_i32"@[0] != "div_u64"@[0]);
    reveal_strlit("div_f32");
    assert("neg_i32"@[0] != "div_f32"@[0]);
    reveal_strlit("div_f64");
    assert("neg_i32"@[0] != "div_f64"@[0]);
    reveal_strlit("rem_i32");
    assert("neg_i32"@[0] != "rem_i32"@[0]);
    reveal_strlit("rem_i64");
    assert("neg_i32"@[0] != "rem_i64"@[0]);
    reveal_strlit("rem_u32");
    assert("neg_i32"@[0] != "rem_u32"@[0]);
    reveal_strlit("rem_u64");
    assert("neg_i32"@[0] != "rem_u64"@[0]);
    reveal_strlit("rem_f32");
    assert("neg_i32"@[0] != "rem_f32"@[0]);
    reveal_strlit("rem_f64");
    assert("neg_i32"@[0] != "rem_f64"@[0]);
    assert(neg_mnemonic(IntKind::I32) =~= "neg_i32"@);
}

/// `neg_i64` reads as the instruction `NegI64`.
proof fn lemma_mnemonic_neg_i64()
    ensures
        unit_mnemonic(neg_mnemonic(IntKind::I64)) == Some(SurfaceInstruction::NegI64),
{
    lemma_unit_mnemonic_lengths();
    reveal_strlit("neg_i64");
    reveal_strlit("add_i32");
    assert("neg_i64"@[0] != "add_i32"@[0]);
    reveal_strlit("add_f32");
    assert("neg_i64"@[0] != "add_f32"@[0]);
    reveal_strlit("add_i64");
    assert("neg_i64"@[0] != "add_i64"@[0]);
    reveal_strlit("add_u32");
    assert("neg_i64"@[0] != "add_u32"@[0]);
    reveal_strlit("add_u64");
    assert("neg_i64"@[0] != "add_u64"@[0]);
    reveal_strlit("add_f64");
    assert("neg_i64"@[0] != "add_f64"@[0]);
    reveal_strlit("sub_i32");
    assert("neg_i64"@[0] != "sub_i32"@[0]);
    reveal_strlit("sub_i64");
    assert("neg_i64"@[0] != "sub_i64"@[0]);
    reveal_strlit("sub_u32");
    assert("neg_i64"@[0] != "sub_u32"@[0]);
    reveal_strlit("sub_u64");
    assert("neg_i64"@[0] != "sub_u64"@[0]);
    reveal_strlit("sub_f32");
    assert("neg_i64"@[0] != "sub_f32"@[0]);
    reveal_strlit("sub_f64");
    assert("neg_i64"@[0] != "sub_f64"@[0]);
    reveal_strlit("mul_i32");
    assert("neg_i64"@[0] != "mul_i32"@[0]);
    reveal_strlit("mul_i64");
    assert("neg_i64"@[0] != "mul_i64"@[0]);
    reveal_strlit("mul_u32");
    assert("neg_i64"@[0] != "mul_u32"@[0]);
    reveal_strlit("mul_u64");
    assert("neg_i64"@[0] != "mul_u64"@[0]);
    reveal_strlit("mul_f32");
    assert("neg_i64"@[0] != "mul_f32"@[0]);
    reveal_strlit("mul_f64");
    assert("neg_i64"@[0] != "mul_f64"@[0]);
    reveal_strlit("div_i32");
    assert("neg_i64"@[0] != "div_i32"@[0]);
    reveal_strlit("div_i64");
    assert("neg_i64"@[0] != "div_i64"@[0]);
    reveal_strlit("div_u32");
    assert("neg_i64"@[0] != "div_u32"@[0]);
    reveal_strlit("div_u64");
    assert("neg_i64"@[0] != "div_u64"@[0]);
    reveal_strlit("div_f32");
    assert("neg_i64"@[0] != "div_f32"@[0]);
    reveal_strlit("div_f64");
    assert("neg_i64"@[0] != "div_f64"@[0]);
    reveal_strlit("rem_i32");
    assert("neg_i64"@[0] != "rem_i32"@[0]);
    reveal_strlit("rem_i64");
    assert("neg_i64"@[0] != "rem_i64"@[0]);
    reveal_strlit("rem_u32");
    assert("neg_i64"@[0] != "rem_u32"@[0]);
    reveal_strlit("rem_u64");
    assert("neg_i64"@[0] != "rem_u64"@[0]);
    reveal_strlit("rem_f32");
    assert("neg_i64"@[0] != "rem_f32"@[0]);
    reveal_strlit("rem_f64");
    assert("neg_i64"@[0] != "rem_f64"@[0]);
    reveal_strlit("neg_i32");
    assert("neg_i64"@[5] != "neg_i32"@[5]);
    assert(neg_mnemonic(IntKind::I64) =~= "neg_i64"@);
}

/// Every floating-point mnemonic `<operation>_<type>` reads as the
/// instruction that performs that operation on operands of that type:
/// `lt_f64` compares 64-bit floats, `neg_f32` negates a 32-bit float, and so
/// on for every operation and type.
#[verifier::spinoff_prover]
#[verifier::rlimit(50)]
pub proof fn lemma_float_mnemonics(op: FloatOp)
    ensures
        unit_mnemonic(float_mnemonic(op)) matches Some(i) && plain_lowering(i).kind() == float_lowering(op),
{
    match op {
        FloatOp::AddF32 => lemma_mnemonic_add_f32(),
        FloatOp::AddF64 => lemma_mnemonic_add_f64(),
        FloatOp::SubF32 => lemma_mnemonic_sub_f32(),
        FloatOp::SubF64 => lemma_mnemonic_sub_f64(),
        FloatOp::MulF32 => lemma_mnemonic_mul_f32(),
        FloatOp::MulF64 => lemma_mnemonic_mul_f64(),
        FloatOp::DivF32 => lemma_mnemonic_div_f32(),
        FloatOp::DivF64 => lemma_mnemonic_div_f64(),
        FloatOp::RemF32 => lemma_mnemonic_rem_f32(),
        FloatOp::RemF64 => lemma_mnemonic_rem_f64(),
        FloatOp::EqF32 => lemma_mnemonic_eq_f32(),
        FloatOp::EqF64 => lemma_mnemonic_eq_f64(),
        FloatOp::NeF32 => lemma_mnemonic_ne_f32(),
        FloatOp::NeF64 => lemma_mnemonic_ne_f64(),
        FloatOp::LtF32 => lemma_mnemonic_lt_f32(),
        FloatOp::LtF64 => lemma_mnemonic_lt_f64(),
        FloatOp::GtF32 => lemma_mnemonic_gt_f32(),
        FloatOp::GtF64 => lemma_mnemonic_gt_f64(),
        FloatOp::LeF32 => lemma_mnemonic_le_f32(),
        FloatOp::LeF64 => lemma_mnemonic_le_f64(),
        FloatOp::GeF32 => lemma_mnemonic_ge_f32(),
        FloatOp::GeF64 => lemma_mnemonic_ge_f64(),
        FloatOp::NegF32 => lemma_mnemonic_neg_f32(),
        FloatOp::NegF64 => lemma_mnemonic_neg_f64(),
    }
}

/// `neg_i32` and `neg_i64` read as the instructions that negate a signed
/// integer of that type.
pub proof fn lemma_neg_mnemonics(kind: IntKind)
    requires
        kind is I32 || kind is I64,
    ensures
        unit_mnemonic(neg_mnemonic(kind)) matches Some(i) && plain_lowering(i).kind() == Op::IntNeg(kind),
{
    match kind {
        IntKind::I32 => lemma_mnemonic_neg_i32(),
        _ => lemma_mnemonic_neg_i64(),
    }
}

} // verus!
