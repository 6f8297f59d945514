//! The textual syntax of one CPU instruction: `cpu.` and a mnemonic, then
//! the instruction's operands.
//!
//! Operands follow the mnemonic after at least one white-space character.
//! Numbers are decimal integer literals; `@name` names a label; `,`
//! separates the two targets of `cond_br` and the arity and function of
//! `call`, with optional white space around it; a constant is a quoted
//! string literal or a bare token. Nothing may follow the last operand.
use vstd::prelude::*;
use crate::lexical::{
    all_digits, bare_char, bare_token_text, delimiter, digit_run_end, digits_value, ident,
    ident_text, int_literal, int_prefix_value, is_digit, is_white_space, parse_bare_token,
    parse_quoted_string, quoted_contents, white_space,
};
use crate::surface::{SurfaceInstruction, SurfaceType, SurfaceValue};
use crate::syntax::Ident;

verus! {

/// The first index at or after `i` that does not hold white space.
pub open spec fn skip_ws(s: Seq<char>, i: int) -> int
    decreases s.len() - i,
{
    if i < 0 || i >= s.len() || !is_white_space(s[i]) {
        i
    } else {
        skip_ws(s, i + 1)
    }
}

/// The first index at or after `i` that does not hold a bare-token character.
pub open spec fn token_end(s: Seq<char>, i: int) -> int
    decreases s.len() - i,
{
    if i < 0 || i >= s.len() || !bare_char(s[i]) {
        i
    } else {
        token_end(s, i + 1)
    }
}

/// The token that starts at index `q`.
pub open spec fn word_at(s: Seq<char>, q: int) -> Seq<char> {
    s.subrange(q, token_end(s, q))
}

/// After at least one white-space character at `p`, the index of the next
/// character that is not white space.
pub open spec fn after_gap(s: Seq<char>, p: int) -> Option<int> {
    if 0 <= p < s.len() && is_white_space(s[p]) {
        Some(skip_ws(s, p))
    } else {
        None
    }
}

/// After optional white space, a `,`, and optional white space from `p`,
/// the index of the next character.
pub open spec fn after_comma(s: Seq<char>, p: int) -> Option<int> {
    let q = skip_ws(s, p);
    if 0 <= q < s.len() && s[q] == ',' {
        Some(skip_ws(s, q + 1))
    } else {
        None
    }
}

/// How a token reads as a `u32` operand.
#[derive(Debug, Clone, Copy, PartialEq, Eq, Structural)]
pub enum NumberWord {
    /// An integer literal whose value fits in `u32`.
    Number(u32),
    /// Not an integer literal.
    NotNumber,
    /// The integer at the token's front is above `u32::MAX`.
    TooLarge,
}

/// How `w` reads as a `u32` operand. The integer at its front is read
/// first, whatever follows it, and must fit in `u32`; the token is a number
/// when it is that integer and nothing more.
pub open spec fn number_word(w: Seq<char>) -> NumberWord {
    if int_prefix_value(w) > u32::MAX {
        NumberWord::TooLarge
    } else if !int_literal(w) {
        NumberWord::NotNumber
    } else {
        NumberWord::Number(digits_value(w) as u32)
    }
}

/// The name of a label reference `@name`.
pub open spec fn label_name(w: Seq<char>) -> Option<Seq<char>> {
    if w.len() > 0 && w[0] == '@' && ident_text(w.drop_first()) {
        Some(w.drop_first())
    } else {
        None
    }
}

/// A constant operand by the text it stands for.
pub enum ValueView {
    Quoted(Seq<char>),
    Bare(Seq<char>),
}

/// The text a constant operand stands for.
pub open spec fn value_view(v: SurfaceValue) -> ValueView {
    match v {
        SurfaceValue::Quoted(q) => ValueView::Quoted(q.0@),
        SurfaceValue::Bare(b) => ValueView::Bare(b.0@),
    }
}

/// An instruction with its names and constants taken as text.
pub enum SurfaceForm {
    /// An instruction without names or constants.
    Plain(SurfaceInstruction),
    Label(Seq<char>),
    Branch(Seq<char>),
    ConditionalBranch(Seq<char>, Seq<char>),
    Call(u32, Seq<char>),
    /// A constant of the given type.
    Const(SurfaceType, ValueView),
}

/// The form of an instruction: its names and constants as text.
pub open spec fn form_of(i: SurfaceInstruction) -> SurfaceForm {
    match i {
        SurfaceInstruction::Label(x) => SurfaceForm::Label(x.0@),
        SurfaceInstruction::Branch(x) => SurfaceForm::Branch(x.0@),
        SurfaceInstruction::ConditionalBranch(x, y) => SurfaceForm::ConditionalBranch(x.0@, y.0@),
        SurfaceInstruction::Call(n, x) => SurfaceForm::Call(n, x.0@),
        SurfaceInstruction::ConstI32(v) => SurfaceForm::Const(SurfaceType::I32, value_view(v)),
        SurfaceInstruction::ConstI64(v) => SurfaceForm::Const(SurfaceType::I64, value_view(v)),
        SurfaceInstruction::ConstU32(v) => SurfaceForm::Const(SurfaceType::U32, value_view(v)),
        SurfaceInstruction::ConstU64(v) => SurfaceForm::Const(SurfaceType::U64, value_view(v)),
        SurfaceInstruction::ConstF32(v) => SurfaceForm::Const(SurfaceType::F32, value_view(v)),
        SurfaceInstruction::ConstF64(v) => SurfaceForm::Const(SurfaceType::F64, value_view(v)),
        SurfaceInstruction::ConstBool(v) => SurfaceForm::Const(SurfaceType::Bool, value_view(v)),
        SurfaceInstruction::ConstString(v) => SurfaceForm::Const(SurfaceType::String, value_view(v)),
        SurfaceInstruction::ConstFunctionRef(v) => SurfaceForm::Const(SurfaceType::FunctionRef, value_view(v)),
        SurfaceInstruction::ConstHeapRef(v) => SurfaceForm::Const(SurfaceType::HeapRef, value_view(v)),
        _ => SurfaceForm::Plain(i),
    }
}

/// The outcome of reading one instruction.
pub enum SurfaceParse {
    Parsed(SurfaceForm),
    /// The text is not an instruction.
    Rejected,
    /// The integer at the front of a `u32` operand is above `u32::MAX`.
    Oversized,
}

/// The instructions with operands of one `u32` each.
#[derive(Debug, Clone, Copy, PartialEq, Eq, Structural)]
pub enum IndexOp {
    Return,
    LoadI32,
    LoadI64,
    LoadU32,
    LoadU64,
    LoadF32,
    LoadF64,
    LoadBool,
    StoreI32,
    StoreI64,
    StoreU32,
    StoreU64,
    StoreF32,
    StoreF64,
    StoreBool,
    HeapAlloc,
}

/// The instruction of an index mnemonic with its operand.
pub open spec fn index_instruction(op: IndexOp, n: u32) -> SurfaceInstruction {
    match op {
        IndexOp::Return => SurfaceInstruction::Return(n),
        IndexOp::LoadI32 => SurfaceInstruction::LoadI32(n),
        IndexOp::LoadI64 => SurfaceInstruction::LoadI64(n),
        IndexOp::LoadU32 => SurfaceInstruction::LoadU32(n),
        IndexOp::LoadU64 => SurfaceInstruction::LoadU64(n),
        IndexOp::LoadF32 => SurfaceInstruction::LoadF32(n),
        IndexOp::LoadF64 => SurfaceInstruction::LoadF64(n),
        IndexOp::LoadBool => SurfaceInstruction::LoadBool(n),
        IndexOp::StoreI32 => SurfaceInstruction::StoreI32(n),
        IndexOp::StoreI64 => SurfaceInstruction::StoreI64(n),
        IndexOp::StoreU32 => SurfaceInstruction::StoreU32(n),
        IndexOp::StoreU64 => SurfaceInstruction::StoreU64(n),
        IndexOp::StoreF32 => SurfaceInstruction::StoreF32(n),
        IndexOp::StoreF64 => SurfaceInstruction::StoreF64(n),
        IndexOp::StoreBool => SurfaceInstruction::StoreBool(n),
        IndexOp::HeapAlloc => SurfaceInstruction::HeapAlloc(n),
    }
}

/// The instruction without operands that mnemonic `m` names.
pub open spec fn unit_mnemonic(m: Seq<char>) -> Option<SurfaceInstruction> {
    if m == "func_start"@ {
        Some(SurfaceInstruction::FunctionStart)
    } else if m == "func_end"@ {
        Some(SurfaceInstruction::FunctionEnd)
    } else if m == "breakpoint"@ {
        Some(SurfaceInstruction::Breakpoint)
    } else if m == "call_indirect"@ {
        Some(SurfaceInstruction::IndirectCall)
    } else if m == "halt"@ {
        Some(SurfaceInstruction::Halt)
    } else if m == "print"@ {
        Some(SurfaceInstruction::Print)
    } else if m == "dup"@ {
        Some(SurfaceInstruction::Dup)
    } else if m == "get_item"@ {
        Some(SurfaceInstruction::GetItem)
    } else if m == "heap_dealloc"@ {
        Some(SurfaceInstruction::HeapDealloc)
    } else if m == "add_i32"@ {
        Some(SurfaceInstruction::AddI32)
    } else if m == "add_f32"@ {
        Some(SurfaceInstruction::AddF32)
    } else if m == "add_i64"@ {
        Some(SurfaceInstruction::AddI64)
    } else if m == "add_u32"@ {
        Some(SurfaceInstruction::AddU32)
    } else if m == "add_u64"@ {
        Some(SurfaceInstruction::AddU64)
    } else if m == "add_f64"@ {
        Some(SurfaceInstruction::AddF64)
    } else if m == "sub_i32"@ {
        Some(SurfaceInstruction::SubI32)
    } else if m == "sub_i64"@ {
        Some(SurfaceInstruction::SubI64)
    } else if m == "sub_u32"@ {
        Some(SurfaceInstruction::SubU32)
    } else if m == "sub_u64"@ {
        Some(SurfaceInstruction::SubU64)
    } else if m == "sub_f32"@ {
        Some(SurfaceInstruction::SubF32)
    } else if m == "sub_f64"@ {
        Some(SurfaceInstruction::SubF64)
    } else if m == "mul_i32"@ {
        Some(SurfaceInstruction::MulI32)
    } else if m == "mul_i64"@ {
        Some(SurfaceInstruction::MulI64)
    } else if m == "mul_u32"@ {
        Some(SurfaceInstruction::MulU32)
    } else if m == "mul_u64"@ {
        Some(SurfaceInstruction::MulU64)
    } else if m == "mul_f32"@ {
        Some(SurfaceInstruction::MulF32)
    } else if m == "mul_f64"@ {
        Some(SurfaceInstruction::MulF64)
    } else if m == "div_i32"@ {
        Some(SurfaceInstruction::DivI32)
    } else if m == "div_i64"@ {
        Some(SurfaceInstruction::DivI64)
    } else if m == "div_u32"@ {
        Some(SurfaceInstruction::DivU32)
    } else if m == "div_u64"@ {
        Some(SurfaceInstruction::DivU64)
    } else if m == "div_f32"@ {
        Some(SurfaceInstruction::DivF32)
    } else if m == "div_f64"@ {
        Some(SurfaceInstruction::DivF64)
    } else if m == "rem_i32"@ {
        Some(SurfaceInstruction::RemI32)
    } else if m == "rem_i64"@ {
        Some(SurfaceInstruction::RemI64)
    } else if m == "rem_u32"@ {
        Some(SurfaceInstruction::RemU32)
    } else if m == "rem_u64"@ {
        Some(SurfaceInstruction::RemU64)
    } else if m == "rem_f32"@ {
        Some(SurfaceInstruction::RemF32)
    } else if m == "rem_f64"@ {
        Some(SurfaceInstruction::RemF64)
    } else if m == "neg_i32"@ {
        Some(SurfaceInstruction::NegI32)
    } else if m == "neg_i64"@ {
        Some(SurfaceInstruction::NegI64)
    } else if m == "neg_f32"@ {
        Some(SurfaceInstruction::NegF32)
    } else if m == "neg_f64"@ {
        Some(SurfaceInstruction::NegF64)
    } else if m == "shl_i32"@ {
        Some(SurfaceInstruction::ShlI32)
    } else if m == "shl_i64"@ {
        Some(SurfaceInstruction::ShlI64)
    } else if m == "shl_u32"@ {
        Some(SurfaceInstruction::ShlU32)
    } else if m == "shl_u64"@ {
        Some(SurfaceInstruction::ShlU64)
    } else if m == "shr_i32"@ {
        Some(SurfaceInstruction::ShrI32)
    } else if m == "shr_i64"@ {
        Some(SurfaceInstruction::ShrI64)
    } else if m == "shr_u32"@ {
        Some(SurfaceInstruction::ShrU32)
    } else if m == "shr_u64"@ {
        Some(SurfaceInstruction::ShrU64)
    } else if m == "rol_i32"@ {
        Some(SurfaceInstruction::RolI32)
    } else if m == "rol_i64"@ {
        Some(SurfaceInstruction::RolI64)
    } else if m == "rol_u32"@ {
        Some(SurfaceInstruction::RolU32)
    } else if m == "rol_u64"@ {
        Some(SurfaceInstruction::RolU64)
    } else if m == "ror_i32"@ {
        Some(SurfaceInstruction::RorI32)
    } else if m == "ror_i64"@ {
        Some(SurfaceInstruction::RorI64)
    } else if m == "ror_u32"@ {
        Some(SurfaceInstruction::RorU32)
    } else if m == "ror_u64"@ {
        Some(SurfaceInstruction::RorU64)
    } else if m == "bitand_i32"@ {
        Some(SurfaceInstruction::BitAndI32)
    } else if m == "bitand_i64"@ {
        Some(SurfaceInstruction::BitAndI64)
    } else if m == "bitand_u32"@ {
        Some(SurfaceInstruction::BitAndU32)
    } else if m == "bitand_u64"@ {
        Some(SurfaceInstruction::BitAndU64)
    } else if m == "bitor_i32"@ {
        Some(SurfaceInstruction::BitOrI32)
    } else if m == "bitor_i64"@ {
        Some(SurfaceInstruction::BitOrI64)
    } else if m == "bitor_u32"@ {
        Some(SurfaceInstruction::BitOrU32)
    } else if m == "bitor_u64"@ {
        Some(SurfaceInstruction::BitOrU64)
    } else if m == "bitxor_i32"@ {
        Some(SurfaceInstruction::BitXorI32)
    } else if m == "bitxor_i64"@ {
        Some(SurfaceInstruction::BitXorI64)
    } else if m == "bitxor_u32"@ {
        Some(SurfaceInstruction::BitXorU32)
    } else if m == "bitxor_u64"@ {
        Some(SurfaceInstruction::BitXorU64)
    } else if m == "not"@ {
        Some(SurfaceInstruction::Not)
    } else if m == "and"@ {
        Some(SurfaceInstruction::And)
    } else if m == "or"@ {
        Some(SurfaceInstruction::Or)
    } else if m == "xor"@ {
        Some(SurfaceInstruction::Xor)
    } else if m == "eq_i32"@ {
        Some(SurfaceInstruction::EqI32)
    } else if m == "eq_i64"@ {
        Some(SurfaceInstruction::EqI64)
    } else if m == "eq_u32"@ {
        Some(SurfaceInstruction::EqU32)
    } else if m == "eq_u64"@ {
        Some(SurfaceInstruction::EqU64)
    } else if m == "eq_f32"@ {
        Some(SurfaceInstruction::EqF32)
    } else if m == "eq_f64"@ {
        Some(SurfaceInstruction::EqF64)
    } else if m == "ne_i32"@ {
        Some(SurfaceInstruction::NeI32)
    } else if m == "ne_i64"@ {
        Some(SurfaceInstruction::NeI64)
    } else if m == "ne_u32"@ {
        Some(SurfaceInstruction::NeU32)
    } else if m == "ne_u64"@ {
        Some(SurfaceInstruction::NeU64)
    } else if m == "ne_f32"@ {
        Some(SurfaceInstruction::NeF32)
    } else if m == "ne_f64"@ {
        Some(SurfaceInstruction::NeF64)
    } else if m == "lt_i32"@ {
        Some(SurfaceInstruction::LtI32)
    } else if m == "lt_i64"@ {
        Some(SurfaceInstruction::LtI64)
    } else if m == "lt_u32"@ {
        Some(SurfaceInstruction::LtU32)
    } else if m == "lt_u64"@ {
        Some(SurfaceInstruction::LtU64)
    } else if m == "lt_f32"@ {
        Some(SurfaceInstruction::LtF32)
    } else if m == "lt_f64"@ {
        Some(SurfaceInstruction::LtF64)
    } else if m == "gt_i32"@ {
        Some(SurfaceInstruction::GtI32)
    } else if m == "gt_i64"@ {
        Some(SurfaceInstruction::GtI64)
    } else if m == "gt_u32"@ {
        Some(SurfaceInstruction::GtU32)
    } else if m == "gt_u64"@ {
        Some(SurfaceInstruction::GtU64)
    } else if m == "gt_f32"@ {
        Some(SurfaceInstruction::GtF32)
    } else if m == "gt_f64"@ {
        Some(SurfaceInstruction::GtF64)
    } else if m == "le_i32"@ {
        Some(SurfaceInstruction::LeI32)
    } else if m == "le_i64"@ {
        Some(SurfaceInstruction::LeI64)
    } else if m == "le_u32"@ {
        Some(SurfaceInstruction::LeU32)
    } else if m == "le_u64"@ {
        Some(SurfaceInstruction::LeU64)
    } else if m == "le_f32"@ {
        Some(SurfaceInstruction::LeF32)
    } else if m == "le_f64"@ {
        Some(SurfaceInstruction::LeF64)
    } else if m == "ge_i32"@ {
        Some(SurfaceInstruction::GeI32)
    } else if m == "ge_i64"@ {
        Some(SurfaceInstruction::GeI64)
    } else if m == "ge_u32"@ {
        Some(SurfaceInstruction::GeU32)
    } else if m == "ge_u64"@ {
        Some(SurfaceInstruction::GeU64)
    } else if m == "ge_f32"@ {
        Some(SurfaceInstruction::GeF32)
    } else if m == "ge_f64"@ {
        Some(SurfaceInstruction::GeF64)
    } else {
        None
    }
}

/// The index instruction that mnemonic `m` names.
pub open spec fn index_mnemonic(m: Seq<char>) -> Option<IndexOp> {
    if m == "ret"@ {
        Some(IndexOp::Return)
    } else if m == "load_i32"@ {
        Some(IndexOp::LoadI32)
    } else if m == "load_i64"@ {
        Some(IndexOp::LoadI64)
    } else if m == "load_u32"@ {
        Some(IndexOp::LoadU32)
    } else if m == "load_u64"@ {
        Some(IndexOp::LoadU64)
    } else if m == "load_f32"@ {
        Some(IndexOp::LoadF32)
    } else if m == "load_f64"@ {
        Some(IndexOp::LoadF64)
    } else if m == "load_bool"@ {
        Some(IndexOp::LoadBool)
    } else if m == "store_i32"@ {
        Some(IndexOp::StoreI32)
    } else if m == "store_i64"@ {
        Some(IndexOp::StoreI64)
    } else if m == "store_u32"@ {
        Some(IndexOp::StoreU32)
    } else if m == "store_u64"@ {
        Some(IndexOp::StoreU64)
    } else if m == "store_f32"@ {
        Some(IndexOp::StoreF32)
    } else if m == "store_f64"@ {
        Some(IndexOp::StoreF64)
    } else if m == "store_bool"@ {
        Some(IndexOp::StoreBool)
    } else if m == "heap_alloc"@ {
        Some(IndexOp::HeapAlloc)
    } else {
        None
    }
}

/// The type of the constant instruction that mnemonic `m` names.
pub open spec fn const_mnemonic(m: Seq<char>) -> Option<SurfaceType> {
    if m == "const_i32"@ {
        Some(SurfaceType::I32)
    } else if m == "const_i64"@ {
        Some(SurfaceType::I64)
    } else if m == "const_u32"@ {
        Some(SurfaceType::U32)
    } else if m == "const_u64"@ {
        Some(SurfaceType::U64)
    } else if m == "const_f32"@ {
        Some(SurfaceType::F32)
    } else if m == "const_f64"@ {
        Some(SurfaceType::F64)
    } else if m == "const_bool"@ {
        Some(SurfaceType::Bool)
    } else if m == "const_string"@ {
        Some(SurfaceType::String)
    } else if m == "const_fn_ref"@ {
        Some(SurfaceType::FunctionRef)
    } else if m == "const_heap_ref"@ {
        Some(SurfaceType::HeapRef)
    } else {
        None
    }
}

/// The operand of an index instruction, then the end of the text.
pub open spec fn index_form(s: Seq<char>, p: int, op: IndexOp) -> SurfaceParse {
    match after_gap(s, p) {
        None => SurfaceParse::Rejected,
        Some(q) => match number_word(word_at(s, q)) {
            NumberWord::NotNumber => SurfaceParse::Rejected,
            NumberWord::TooLarge => SurfaceParse::Oversized,
            NumberWord::Number(n) => if token_end(s, q) == s.len() {
                SurfaceParse::Parsed(SurfaceForm::Plain(index_instruction(op, n)))
            } else {
                SurfaceParse::Rejected
            },
        },
    }
}

/// The three operands of `span`, each after white space.
pub open spec fn span_form(s: Seq<char>, p: int) -> SurfaceParse {
    match after_gap(s, p) {
        None => SurfaceParse::Rejected,
        Some(q1) => match number_word(word_at(s, q1)) {
            NumberWord::NotNumber => SurfaceParse::Rejected,
            NumberWord::TooLarge => SurfaceParse::Oversized,
            NumberWord::Number(a) => match after_gap(s, token_end(s, q1)) {
                None => SurfaceParse::Rejected,
                Some(q2) => match number_word(word_at(s, q2)) {
                    NumberWord::NotNumber => SurfaceParse::Rejected,
                    NumberWord::TooLarge => SurfaceParse::Oversized,
                    NumberWord::Number(b) => match after_gap(s, token_end(s, q2)) {
                        None => SurfaceParse::Rejected,
                        Some(q3) => match number_word(word_at(s, q3)) {
                            NumberWord::NotNumber => SurfaceParse::Rejected,
                            NumberWord::TooLarge => SurfaceParse::Oversized,
                            NumberWord::Number(c) => if token_end(s, q3) == s.len() {
                                SurfaceParse::Parsed(
                                    SurfaceForm::Plain(SurfaceInstruction::Span(a, b, c)),
                                )
                            } else {
                                SurfaceParse::Rejected
                            },
                        },
                    },
                },
            },
        },
    }
}

/// One label reference after white space: the operand of `label` and `br`.
pub open spec fn label_form(s: Seq<char>, p: int, branch: bool) -> SurfaceParse {
    match after_gap(s, p) {
        None => SurfaceParse::Rejected,
        Some(q) => match label_name(word_at(s, q)) {
            None => SurfaceParse::Rejected,
            Some(x) => if token_end(s, q) == s.len() {
                SurfaceParse::Parsed(
                    if branch {
                        SurfaceForm::Branch(x)
                    } else {
                        SurfaceForm::Label(x)
                    },
                )
            } else {
                SurfaceParse::Rejected
            },
        },
    }
}

/// Two label references separated by a comma: the operands of `cond_br`.
pub open spec fn conditional_form(s: Seq<char>, p: int) -> SurfaceParse {
    match after_gap(s, p) {
        None => SurfaceParse::Rejected,
        Some(q1) => match label_name(word_at(s, q1)) {
            None => SurfaceParse::Rejected,
            Some(x) => match after_comma(s, token_end(s, q1)) {
                None => SurfaceParse::Rejected,
                Some(q2) => match label_name(word_at(s, q2)) {
                    None => SurfaceParse::Rejected,
                    Some(y) => if token_end(s, q2) == s.len() {
                        SurfaceParse::Parsed(SurfaceForm::ConditionalBranch(x, y))
                    } else {
                        SurfaceParse::Rejected
                    },
                },
            },
        },
    }
}

/// An arity, a comma and a function name: the operands of `call`.
pub open spec fn call_form(s: Seq<char>, p: int) -> SurfaceParse {
    match after_gap(s, p) {
        None => SurfaceParse::Rejected,
        Some(q1) => match number_word(word_at(s, q1)) {
            NumberWord::NotNumber => SurfaceParse::Rejected,
            NumberWord::TooLarge => SurfaceParse::Oversized,
            NumberWord::Number(n) => match after_comma(s, token_end(s, q1)) {
                None => SurfaceParse::Rejected,
                Some(q2) => if ident_text(word_at(s, q2)) && token_end(s, q2) == s.len() {
                    SurfaceParse::Parsed(SurfaceForm::Call(n, word_at(s, q2)))
                } else {
                    SurfaceParse::Rejected
                },
            },
        },
    }
}

/// A constant after white space: a quoted string literal reaching the end
/// of the text, or a bare token.
pub open spec fn const_form(s: Seq<char>, p: int, t: SurfaceType) -> SurfaceParse {
    match after_gap(s, p) {
        None => SurfaceParse::Rejected,
        Some(q) => if q < s.len() && s[q] == '"' {
            match quoted_contents(s.subrange(q, s.len() as int)) {
                Some(c) => SurfaceParse::Parsed(SurfaceForm::Const(t, ValueView::Quoted(c))),
                None => SurfaceParse::Rejected,
            }
        } else if bare_token_text(word_at(s, q)) && token_end(s, q) == s.len() {
            SurfaceParse::Parsed(SurfaceForm::Const(t, ValueView::Bare(word_at(s, q))))
        } else {
            SurfaceParse::Rejected
        },
    }
}

/// The mnemonic of an instruction text: the token after `cpu.`.
pub open spec fn mnemonic_end(s: Seq<char>) -> int {
    token_end(s, 4)
}

/// Reads `s` as one instruction.
pub open spec fn surface_parse(s: Seq<char>) -> SurfaceParse {
    if !(s.len() >= 4 && s.subrange(0, 4) == "cpu."@) {
        SurfaceParse::Rejected
    } else {
        let e = mnemonic_end(s);
        let m = s.subrange(4, e);
        if m == "span"@ {
            span_form(s, e)
        } else if m == "label"@ {
            label_form(s, e, false)
        } else if m == "br"@ {
            label_form(s, e, true)
        } else if m == "cond_br"@ {
            conditional_form(s, e)
        } else if m == "call"@ {
            call_form(s, e)
        } else {
            match unit_mnemonic(m) {
                Some(i) => if e == s.len() {
                    SurfaceParse::Parsed(SurfaceForm::Plain(i))
                } else {
                    SurfaceParse::Rejected
                },
                None => match index_mnemonic(m) {
                    Some(op) => index_form(s, e, op),
                    None => match const_mnemonic(m) {
                        Some(t) => const_form(s, e, t),
                        None => SurfaceParse::Rejected,
                    },
                },
            }
        }
    }
}

/// Whether `s` is exactly the text `lit`.
fn word_is(s: &str, lit: &str) -> (b: bool)
    ensures
        b == (s@ == lit@),
{
    let n = s.unicode_len();
    let m = lit.unicode_len();
    if n != m {
        return false;
    }
    let mut i: usize = 0;
    while i < n
        invariant
            n == s@.len(),
            m == lit@.len(),
            n == m,
            0 <= i <= n,
            forall|j: int| 0 <= j < i ==> s@[j] == lit@[j],
        decreases n - i,
    {
        if s.get_char(i) != lit.get_char(i) {
            return false;
        }
        i += 1;
    }
    assert(s@ == lit@);
    true
}

/// The index of the first non-white-space character at or after `i`.
fn skip_white(s: &str, i: usize) -> (r: usize)
    requires
        i <= s@.len(),
    ensures
        r == skip_ws(s@, i as int),
        i <= r <= s@.len(),
{
    let n = s.unicode_len();
    let mut k = i;
    while k < n && white_space(s.get_char(k))
        invariant
            n == s@.len(),
            i <= k <= n,
            skip_ws(s@, i as int) == skip_ws(s@, k as int),
        decreases n - k,
    {
        k += 1;
    }
    k
}

/// The index of the first character at or after `i` that ends a token.
fn scan_token(s: &str, i: usize) -> (r: usize)
    requires
        i <= s@.len(),
    ensures
        r == token_end(s@, i as int),
        i <= r <= s@.len(),
{
    let n = s.unicode_len();
    let mut k = i;
    while k < n && !delimiter(s.get_char(k))
        invariant
            n == s@.len(),
            i <= k <= n,
            token_end(s@, i as int) == token_end(s@, k as int),
        decreases n - k,
    {
        k += 1;
    }
    k
}

/// After at least one white-space character at `p`, the index of the next
/// character that is not white space.
fn gap(s: &str, p: usize) -> (r: Option<usize>)
    requires
        p <= s@.len(),
    ensures
        match r {
            Some(q) => after_gap(s@, p as int) == Some(q as int) && q <= s@.len(),
            None => after_gap(s@, p as int) is None,
        },
{
    if p < s.unicode_len() && white_space(s.get_char(p)) {
        Some(skip_white(s, p))
    } else {
        None
    }
}

/// After optional white space, a comma and optional white space from `p`,
/// the index of the next character.
fn comma(s: &str, p: usize) -> (r: Option<usize>)
    requires
        p <= s@.len(),
    ensures
        match r {
            Some(q) => after_comma(s@, p as int) == Some(q as int) && q <= s@.len(),
            None => after_comma(s@, p as int) is None,
        },
{
    let q = skip_white(s, p);
    if q < s.unicode_len() && s.get_char(q) == ',' {
        Some(skip_white(s, q + 1))
    } else {
        None
    }
}

/// How `w` reads as a `u32` operand.
fn number_of(w: &str) -> (r: NumberWord)
    ensures
        r == number_word(w@),
{
    let n = w.unicode_len();
    if n > 0 && w.get_char(0) == '0' {
        if n == 1 {
            proof {
                reveal_with_fuel(digits_value, 2);
                assert(w@.drop_last() == Seq::<char>::empty());
            }
            return NumberWord::Number(0);
        }
        assert(!int_literal(w@));
        return NumberWord::NotNumber;
    }
    let ghost e = digit_run_end(w@, 0);
    proof {
        lemma_digit_run_bounds(w@, 0);
    }
    let mut value: u64 = 0;
    let mut i: usize = 0;
    while i < n && '0' <= w.get_char(i) && w.get_char(i) <= '9'
        invariant
            n == w@.len(),
            0 <= i <= e <= n,
            e == digit_run_end(w@, 0),
            digit_run_end(w@, i as int) == e,
            n > 0 ==> w@[0] != '0',
            forall|j: int| 0 <= j < i ==> is_digit(#[trigger] w@[j]),
            value <= u32::MAX,
            value == digits_value(w@.subrange(0, i as int)),
        decreases n - i,
    {
        let c = w.get_char(i);
        let ghost p = w@.subrange(0, i as int);
        let ghost q = w@.subrange(0, i + 1);
        assert(q.drop_last() == p);
        assert(q.last() == c);
        proof {
            lemma_digit_run_bounds(w@, i as int);
            lemma_digit_run_bounds(w@, i + 1);
        }
        let next = value * 10 + (c as u64 - '0' as u64);
        assert(digits_value(q) == next);
        if next > u32::MAX as u64 {
            proof {
                assert(i + 1 <= e);
                assert(w@.subrange(0, e).subrange(0, i + 1) == q);
                crate::lexical::lemma_digits_prefix(w@.subrange(0, e), i + 1);
                assert(digits_value(w@.subrange(0, e)) >= next);
                assert(!(w@.len() > 0 && w@[0] == '0'));
                assert(int_prefix_value(w@) == digits_value(w@.subrange(0, e)));
            }
            return NumberWord::TooLarge;
        }
        value = next;
        i += 1;
    }
    assert(i == e);
    if i == n && n > 0 {
        assert(w@.subrange(0, n as int) == w@);
        assert(all_digits(w@));
        NumberWord::Number(value as u32)
    } else {
        if n > 0 {
            assert(!is_digit(w@[i as int]));
        }
        NumberWord::NotNumber
    }
}

/// A digit run from `i` ends at or after `i`, within the sequence, and
/// past `i` when `i` holds a digit.
proof fn lemma_digit_run_bounds(s: Seq<char>, i: int)
    requires
        0 <= i <= s.len(),
    ensures
        i <= digit_run_end(s, i) <= s.len(),
        i < s.len() && is_digit(s[i]) ==> digit_run_end(s, i) == digit_run_end(s, i + 1),
    decreases s.len() - i,
{
    if i < s.len() && is_digit(s[i]) {
        lemma_digit_run_bounds(s, i + 1);
    }
}

/// The label that `w`, written `@name`, refers to.
fn label_of(w: &str) -> (r: Option<Ident>)
    ensures
        match r {
            Some(x) => label_name(w@) == Some(x.0@),
            None => label_name(w@) is None,
        },
{
    let n = w.unicode_len();
    if n == 0 || w.get_char(0) != '@' {
        return None;
    }
    let rest = w.substring_char(1, n);
    assert(rest@ == w@.drop_first());
    match ident(rest) {
        Some(x) => Some(Ident(x)),
        None => None,
    }
}

/// Reads the operand of an index instruction from `p`.
fn read_index(s: &str, p: usize, op: IndexOp) -> (r: Option<SurfaceInstruction>)
    requires
        p <= s@.len(),
        index_form(s@, p as int, op) != SurfaceParse::Oversized,
    ensures
        match r {
            Some(i) => index_form(s@, p as int, op) == SurfaceParse::Parsed(form_of(i)),
            None => index_form(s@, p as int, op) == SurfaceParse::Rejected,
        },
{
    let q = match gap(s, p) {
        None => return None,
        Some(q) => q,
    };
    let e = scan_token(s, q);
    match number_of(s.substring_char(q, e)) {
        NumberWord::Number(n) => {
            if e == s.unicode_len() {
                let i = make_index(op, n);
                assert(form_of(i) == SurfaceForm::Plain(i));
                Some(i)
            } else {
                None
            }
        },
        _ => None,
    }
}

/// Reads the three operands of `span` from `p`.
fn read_span(s: &str, p: usize) -> (r: Option<SurfaceInstruction>)
    requires
        p <= s@.len(),
        span_form(s@, p as int) != SurfaceParse::Oversized,
    ensures
        match r {
            Some(i) => span_form(s@, p as int) == SurfaceParse::Parsed(form_of(i)),
            None => span_form(s@, p as int) == SurfaceParse::Rejected,
        },
{
    let q1 = match gap(s, p) {
        None => return None,
        Some(q) => q,
    };
    let e1 = scan_token(s, q1);
    let a = match number_of(s.substring_char(q1, e1)) {
        NumberWord::Number(n) => n,
        _ => return None,
    };
    let q2 = match gap(s, e1) {
        None => return None,
        Some(q) => q,
    };
    let e2 = scan_token(s, q2);
    let b = match number_of(s.substring_char(q2, e2)) {
        NumberWord::Number(n) => n,
        _ => return None,
    };
    let q3 = match gap(s, e2) {
        None => return None,
        Some(q) => q,
    };
    let e3 = scan_token(s, q3);
    let c = match number_of(s.substring_char(q3, e3)) {
        NumberWord::Number(n) => n,
        _ => return None,
    };
    if e3 == s.unicode_len() {
        Some(SurfaceInstruction::Span(a, b, c))
    } else {
        None
    }
}

/// Reads the label operand of `label` or `br` from `p`.
fn read_label(s: &str, p: usize, branch: bool) -> (r: Option<SurfaceInstruction>)
    requires
        p <= s@.len(),
    ensures
        match r {
            Some(i) => label_form(s@, p as int, branch) == SurfaceParse::Parsed(form_of(i)),
            None => label_form(s@, p as int, branch) == SurfaceParse::Rejected,
        },
{
    let q = match gap(s, p) {
        None => return None,
        Some(q) => q,
    };
    let e = scan_token(s, q);
    match label_of(s.substring_char(q, e)) {
        None => None,
        Some(x) => {
            if e == s.unicode_len() {
                if branch {
                    Some(SurfaceInstruction::Branch(x))
                } else {
                    Some(SurfaceInstruction::Label(x))
                }
            } else {
                None
            }
        },
    }
}

/// Reads the two targets of `cond_br` from `p`.
fn read_conditional(s: &str, p: usize) -> (r: Option<SurfaceInstruction>)
    requires
        p <= s@.len(),
    ensures
        match r {
            Some(i) => conditional_form(s@, p as int) == SurfaceParse::Parsed(form_of(i)),
            None => conditional_form(s@, p as int) == SurfaceParse::Rejected,
        },
{
    let q1 = match gap(s, p) {
        None => return None,
        Some(q) => q,
    };
    let e1 = scan_token(s, q1);
    let x = match label_of(s.substring_char(q1, e1)) {
        None => return None,
        Some(x) => x,
    };
    let q2 = match comma(s, e1) {
        None => return None,
        Some(q) => q,
    };
    let e2 = scan_token(s, q2);
    let y = match label_of(s.substring_char(q2, e2)) {
        None => return None,
        Some(y) => y,
    };
    if e2 == s.unicode_len() {
        Some(SurfaceInstruction::ConditionalBranch(x, y))
    } else {
        None
    }
}

/// Reads the arity and function name of `call` from `p`.
fn read_call(s: &str, p: usize) -> (r: Option<SurfaceInstruction>)
    requires
        p <= s@.len(),
        call_form(s@, p as int) != SurfaceParse::Oversized,
    ensures
        match r {
            Some(i) => call_form(s@, p as int) == SurfaceParse::Parsed(form_of(i)),
            None => call_form(s@, p as int) == SurfaceParse::Rejected,
        },
{
    let q1 = match gap(s, p) {
        None => return None,
        Some(q) => q,
    };
    let e1 = scan_token(s, q1);
    let n = match number_of(s.substring_char(q1, e1)) {
        NumberWord::Number(n) => n,
        _ => return None,
    };
    let q2 = match comma(s, e1) {
        None => return None,
        Some(q) => q,
    };
    let e2 = scan_token(s, q2);
    match ident(s.substring_char(q2, e2)) {
        None => None,
        Some(name) => {
            if e2 == s.unicode_len() {
                Some(SurfaceInstruction::Call(n, Ident(name)))
            } else {
                None
            }
        },
    }
}

/// Reads the constant operand of a constant instruction of type `t` from `p`.
fn read_const(s: &str, p: usize, t: SurfaceType) -> (r: Option<SurfaceInstruction>)
    requires
        p <= s@.len(),
        t != SurfaceType::Undefined,
    ensures
        match r {
            Some(i) => const_form(s@, p as int, t) == SurfaceParse::Parsed(form_of(i)),
            None => const_form(s@, p as int, t) == SurfaceParse::Rejected,
        },
{
    let q = match gap(s, p) {
        None => return None,
        Some(q) => q,
    };
    let n = s.unicode_len();
    if q < n && s.get_char(q) == '"' {
        match parse_quoted_string(s.substring_char(q, n)) {
            None => None,
            Some(text) => Some(make_const(t, SurfaceValue::Quoted(text))),
        }
    } else {
        let e = scan_token(s, q);
        match parse_bare_token(s.substring_char(q, e)) {
            None => None,
            Some(token) => {
                if e == n {
                    Some(make_const(t, SurfaceValue::Bare(token)))
                } else {
                    None
                }
            },
        }
    }
}

/// Reads one CPU instruction written as `cpu.` and a mnemonic followed by
/// its operands; `None` when the text is not an instruction.
pub fn parse_surface_instruction(text: &str) -> (r: Option<SurfaceInstruction>)
    requires
        surface_parse(text@) != SurfaceParse::Oversized,
    ensures
        match r {
            Some(i) => surface_parse(text@) == SurfaceParse::Parsed(form_of(i)),
            None => surface_parse(text@) == SurfaceParse::Rejected,
        },
{
    let n = text.unicode_len();
    if n < 4 || !word_is(text.substring_char(0, 4), "cpu.") {
        return None;
    }
    let e = scan_token(text, 4);
    let m = text.substring_char(4, e);
    if word_is(m, "span") {
        read_span(text, e)
    } else if word_is(m, "label") {
        read_label(text, e, false)
    } else if word_is(m, "br") {
        read_label(text, e, true)
    } else if word_is(m, "cond_br") {
        read_conditional(text, e)
    } else if word_is(m, "call") {
        read_call(text, e)
    } else {
        match unit_of(m) {
            Some(i) => {
                if e == n {
                    assert(form_of(i) == SurfaceForm::Plain(i));
                    Some(i)
                } else {
                    None
                }
            },
            None => match index_of(m) {
                Some(op) => read_index(text, e, op),
                None => match const_of(m) {
                    Some(t) => read_const(text, e, t),
                    None => None,
                },
            },
        }
    }
}

/// The instruction without operands that `m` names.
fn unit_of(m: &str) -> (r: Option<SurfaceInstruction>)
    ensures
        r == unit_mnemonic(m@),
{
    if word_is(m, "func_start") {
        Some(SurfaceInstruction::FunctionStart)
    } else if word_is(m, "func_end") {
        Some(SurfaceInstruction::FunctionEnd)
    } else if word_is(m, "breakpoint") {
        Some(SurfaceInstruction::Breakpoint)
    } else if word_is(m, "call_indirect") {
        Some(SurfaceInstruction::IndirectCall)
    } else if word_is(m, "halt") {
        Some(SurfaceInstruction::Halt)
    } else if word_is(m, "print") {
        Some(SurfaceInstruction::Print)
    } else if word_is(m, "dup") {
        Some(SurfaceInstruction::Dup)
    } else if word_is(m, "get_item") {
        Some(SurfaceInstruction::GetItem)
    } else if word_is(m, "heap_dealloc") {
        Some(SurfaceInstruction::HeapDealloc)
    } else if word_is(m, "add_i32") {
        Some(SurfaceInstruction::AddI32)
    } else if word_is(m, "add_f32") {
        Some(SurfaceInstruction::AddF32)
    } else if word_is(m, "add_i64") {
        Some(SurfaceInstruction::AddI64)
    } else if word_is(m, "add_u32") {
        Some(SurfaceInstruction::AddU32)
    } else if word_is(m, "add_u64") {
        Some(SurfaceInstruction::AddU64)
    } else if word_is(m, "add_f64") {
        Some(SurfaceInstruction::AddF64)
    } else if word_is(m, "sub_i32") {
        Some(SurfaceInstruction::SubI32)
    } else if word_is(m, "sub_i64") {
        Some(SurfaceInstruction::SubI64)
    } else if word_is(m, "sub_u32") {
        Some(SurfaceInstruction::SubU32)
    } else if word_is(m, "sub_u64") {
        Some(SurfaceInstruction::SubU64)
    } else if word_is(m, "sub_f32") {
        Some(SurfaceInstruction::SubF32)
    } else if word_is(m, "sub_f64") {
        Some(SurfaceInstruction::SubF64)
    } else if word_is(m, "mul_i32") {
        Some(SurfaceInstruction::MulI32)
    } else if word_is(m, "mul_i64") {
        Some(SurfaceInstruction::MulI64)
    } else if word_is(m, "mul_u32") {
        Some(SurfaceInstruction::MulU32)
    } else if word_is(m, "mul_u64") {
        Some(SurfaceInstruction::MulU64)
    } else if word_is(m, "mul_f32") {
        Some(SurfaceInstruction::MulF32)
    } else if word_is(m, "mul_f64") {
        Some(SurfaceInstruction::MulF64)
    } else if word_is(m, "div_i32") {
        Some(SurfaceInstruction::DivI32)
    } else if word_is(m, "div_i64") {
        Some(SurfaceInstruction::DivI64)
    } else if word_is(m, "div_u32") {
        Some(SurfaceInstruction::DivU32)
    } else if word_is(m, "div_u64") {
        Some(SurfaceInstruction::DivU64)
    } else if word_is(m, "div_f32") {
        Some(SurfaceInstruction::DivF32)
    } else if word_is(m, "div_f64") {
        Some(SurfaceInstruction::DivF64)
    } else if word_is(m, "rem_i32") {
        Some(SurfaceInstruction::RemI32)
    } else if word_is(m, "rem_i64") {
        Some(SurfaceInstruction::RemI64)
    } else if word_is(m, "rem_u32") {
        Some(SurfaceInstruction::RemU32)
    } else if word_is(m, "rem_u64") {
        Some(SurfaceInstruction::RemU64)
    } else if word_is(m, "rem_f32") {
        Some(SurfaceInstruction::RemF32)
    } else if word_is(m, "rem_f64") {
        Some(SurfaceInstruction::RemF64)
    } else if word_is(m, "neg_i32") {
        Some(SurfaceInstruction::NegI32)
    } else if word_is(m, "neg_i64") {
        Some(SurfaceInstruction::NegI64)
    } else if word_is(m, "neg_f32") {
        Some(SurfaceInstruction::NegF32)
    } else if word_is(m, "neg_f64") {
        Some(SurfaceInstruction::NegF64)
    } else if word_is(m, "shl_i32") {
        Some(SurfaceInstruction::ShlI32)
    } else if word_is(m, "shl_i64") {
        Some(SurfaceInstruction::ShlI64)
    } else if word_is(m, "shl_u32") {
        Some(SurfaceInstruction::ShlU32)
    } else if word_is(m, "shl_u64") {
        Some(SurfaceInstruction::ShlU64)
    } else if word_is(m, "shr_i32") {
        Some(SurfaceInstruction::ShrI32)
    } else if word_is(m, "shr_i64") {
        Some(SurfaceInstruction::ShrI64)
    } else if word_is(m, "shr_u32") {
        Some(SurfaceInstruction::ShrU32)
    } else if word_is(m, "shr_u64") {
        Some(SurfaceInstruction::ShrU64)
    } else if word_is(m, "rol_i32") {
        Some(SurfaceInstruction::RolI32)
    } else if word_is(m, "rol_i64") {
        Some(SurfaceInstruction::RolI64)
    } else if word_is(m, "rol_u32") {
        Some(SurfaceInstruction::RolU32)
    } else if word_is(m, "rol_u64") {
        Some(SurfaceInstruction::RolU64)
    } else if word_is(m, "ror_i32") {
        Some(SurfaceInstruction::RorI32)
    } else if word_is(m, "ror_i64") {
        Some(SurfaceInstruction::RorI64)
    } else if word_is(m, "ror_u32") {
        Some(SurfaceInstruction::RorU32)
    } else if word_is(m, "ror_u64") {
        Some(SurfaceInstruction::RorU64)
    } else if word_is(m, "bitand_i32") {
        Some(SurfaceInstruction::BitAndI32)
    } else if word_is(m, "bitand_i64") {
        Some(SurfaceInstruction::BitAndI64)
    } else if word_is(m, "bitand_u32") {
        Some(SurfaceInstruction::BitAndU32)
    } else if word_is(m, "bitand_u64") {
        Some(SurfaceInstruction::BitAndU64)
    } else if word_is(m, "bitor_i32") {
        Some(SurfaceInstruction::BitOrI32)
    } else if word_is(m, "bitor_i64") {
        Some(SurfaceInstruction::BitOrI64)
    } else if word_is(m, "bitor_u32") {
        Some(SurfaceInstruction::BitOrU32)
    } else if word_is(m, "bitor_u64") {
        Some(SurfaceInstruction::BitOrU64)
    } else if word_is(m, "bitxor_i32") {
        Some(SurfaceInstruction::BitXorI32)
    } else if word_is(m, "bitxor_i64") {
        Some(SurfaceInstruction::BitXorI64)
    } else if word_is(m, "bitxor_u32") {
        Some(SurfaceInstruction::BitXorU32)
    } else if word_is(m, "bitxor_u64") {
        Some(SurfaceInstruction::BitXorU64)
    } else if word_is(m, "not") {
        Some(SurfaceInstruction::Not)
    } else if word_is(m, "and") {
        Some(SurfaceInstruction::And)
    } else if word_is(m, "or") {
        Some(SurfaceInstruction::Or)
    } else if word_is(m, "xor") {
        Some(SurfaceInstruction::Xor)
    } else if word_is(m, "eq_i32") {
        Some(SurfaceInstruction::EqI32)
    } else if word_is(m, "eq_i64") {
        Some(SurfaceInstruction::EqI64)
    } else if word_is(m, "eq_u32") {
        Some(SurfaceInstruction::EqU32)
    } else if word_is(m, "eq_u64") {
        Some(SurfaceInstruction::EqU64)
    } else if word_is(m, "eq_f32") {
        Some(SurfaceInstruction::EqF32)
    } else if word_is(m, "eq_f64") {
        Some(SurfaceInstruction::EqF64)
    } else if word_is(m, "ne_i32") {
        Some(SurfaceInstruction::NeI32)
    } else if word_is(m, "ne_i64") {
        Some(SurfaceInstruction::NeI64)
    } else if word_is(m, "ne_u32") {
        Some(SurfaceInstruction::NeU32)
    } else if word_is(m, "ne_u64") {
        Some(SurfaceInstruction::NeU64)
    } else if word_is(m, "ne_f32") {
        Some(SurfaceInstruction::NeF32)
    } else if word_is(m, "ne_f64") {
        Some(SurfaceInstruction::NeF64)
    } else if word_is(m, "lt_i32") {
        Some(SurfaceInstruction::LtI32)
    } else if word_is(m, "lt_i64") {
        Some(SurfaceInstruction::LtI64)
    } else if word_is(m, "lt_u32") {
        Some(SurfaceInstruction::LtU32)
    } else if word_is(m, "lt_u64") {
        Some(SurfaceInstruction::LtU64)
    } else if word_is(m, "lt_f32") {
        Some(SurfaceInstruction::LtF32)
    } else if word_is(m, "lt_f64") {
        Some(SurfaceInstruction::LtF64)
    } else if word_is(m, "gt_i32") {
        Some(SurfaceInstruction::GtI32)
    } else if word_is(m, "gt_i64") {
        Some(SurfaceInstruction::GtI64)
    } else if word_is(m, "gt_u32") {
        Some(SurfaceInstruction::GtU32)
    } else if word_is(m, "gt_u64") {
        Some(SurfaceInstruction::GtU64)
    } else if word_is(m, "gt_f32") {
        Some(SurfaceInstruction::GtF32)
    } else if word_is(m, "gt_f64") {
        Some(SurfaceInstruction::GtF64)
    } else if word_is(m, "le_i32") {
        Some(SurfaceInstruction::LeI32)
    } else if word_is(m, "le_i64") {
        Some(SurfaceInstruction::LeI64)
    } else if word_is(m, "le_u32") {
        Some(SurfaceInstruction::LeU32)
    } else if word_is(m, "le_u64") {
        Some(SurfaceInstruction::LeU64)
    } else if word_is(m, "le_f32") {
        Some(SurfaceInstruction::LeF32)
    } else if word_is(m, "le_f64") {
        Some(SurfaceInstruction::LeF64)
    } else if word_is(m, "ge_i32") {
        Some(SurfaceInstruction::GeI32)
    } else if word_is(m, "ge_i64") {
        Some(SurfaceInstruction::GeI64)
    } else if word_is(m, "ge_u32") {
        Some(SurfaceInstruction::GeU32)
    } else if word_is(m, "ge_u64") {
        Some(SurfaceInstruction::GeU64)
    } else if word_is(m, "ge_f32") {
        Some(SurfaceInstruction::GeF32)
    } else if word_is(m, "ge_f64") {
        Some(SurfaceInstruction::GeF64)
    } else {
        None
    }
}

/// The index instruction that `m` names.
fn index_of(m: &str) -> (r: Option<IndexOp>)
    ensures
        r == index_mnemonic(m@),
{
    if word_is(m, "ret") {
        Some(IndexOp::Return)
    } else if word_is(m, "load_i32") {
        Some(IndexOp::LoadI32)
    } else if word_is(m, "load_i64") {
        Some(IndexOp::LoadI64)
    } else if word_is(m, "load_u32") {
        Some(IndexOp::LoadU32)
    } else if word_is(m, "load_u64") {
        Some(IndexOp::LoadU64)
    } else if word_is(m, "load_f32") {
        Some(IndexOp::LoadF32)
    } else if word_is(m, "load_f64") {
        Some(IndexOp::LoadF64)
    } else if word_is(m, "load_bool") {
        Some(IndexOp::LoadBool)
    } else if word_is(m, "store_i32") {
        Some(IndexOp::StoreI32)
    } else if word_is(m, "store_i64") {
        Some(IndexOp::StoreI64)
    } else if word_is(m, "store_u32") {
        Some(IndexOp::StoreU32)
    } else if word_is(m, "store_u64") {
        Some(IndexOp::StoreU64)
    } else if word_is(m, "store_f32") {
        Some(IndexOp::StoreF32)
    } else if word_is(m, "store_f64") {
        Some(IndexOp::StoreF64)
    } else if word_is(m, "store_bool") {
        Some(IndexOp::StoreBool)
    } else if word_is(m, "heap_alloc") {
        Some(IndexOp::HeapAlloc)
    } else {
        None
    }
}

/// The constant type that `m` names.
fn const_of(m: &str) -> (r: Option<SurfaceType>)
    ensures
        r == const_mnemonic(m@),
{
    if word_is(m, "const_i32") {
        Some(SurfaceType::I32)
    } else if word_is(m, "const_i64") {
        Some(SurfaceType::I64)
    } else if word_is(m, "const_u32") {
        Some(SurfaceType::U32)
    } else if word_is(m, "const_u64") {
        Some(SurfaceType::U64)
    } else if word_is(m, "const_f32") {
        Some(SurfaceType::F32)
    } else if word_is(m, "const_f64") {
        Some(SurfaceType::F64)
    } else if word_is(m, "const_bool") {
        Some(SurfaceType::Bool)
    } else if word_is(m, "const_string") {
        Some(SurfaceType::String)
    } else if word_is(m, "const_fn_ref") {
        Some(SurfaceType::FunctionRef)
    } else if word_is(m, "const_heap_ref") {
        Some(SurfaceType::HeapRef)
    } else {
        None
    }
}

/// Builds the index instruction `op` with operand `n`.
fn make_index(op: IndexOp, n: u32) -> (r: SurfaceInstruction)
    ensures
        r == index_instruction(op, n),
{
    match op {
        IndexOp::Return => SurfaceInstruction::Return(n),
        IndexOp::LoadI32 => SurfaceInstruction::LoadI32(n),
        IndexOp::LoadI64 => SurfaceInstruction::LoadI64(n),
        IndexOp::LoadU32 => SurfaceInstruction::LoadU32(n),
        IndexOp::LoadU64 => SurfaceInstruction::LoadU64(n),
        IndexOp::LoadF32 => SurfaceInstruction::LoadF32(n),
        IndexOp::LoadF64 => SurfaceInstruction::LoadF64(n),
        IndexOp::LoadBool => SurfaceInstruction::LoadBool(n),
        IndexOp::StoreI32 => SurfaceInstruction::StoreI32(n),
        IndexOp::StoreI64 => SurfaceInstruction::StoreI64(n),
        IndexOp::StoreU32 => SurfaceInstruction::StoreU32(n),
        IndexOp::StoreU64 => SurfaceInstruction::StoreU64(n),
        IndexOp::StoreF32 => SurfaceInstruction::StoreF32(n),
        IndexOp::StoreF64 => SurfaceInstruction::StoreF64(n),
        IndexOp::StoreBool => SurfaceInstruction::StoreBool(n),
        IndexOp::HeapAlloc => SurfaceInstruction::HeapAlloc(n),
    }
}

/// Builds the constant instruction of type `t` with value `v`.
fn make_const(t: SurfaceType, v: SurfaceValue) -> (r: SurfaceInstruction)
    requires
        t != SurfaceType::Undefined,
    ensures
        form_of(r) == SurfaceForm::Const(t, value_view(v)),
{
    match t {
        SurfaceType::I32 => SurfaceInstruction::ConstI32(v),
        SurfaceType::I64 => SurfaceInstruction::ConstI64(v),
        SurfaceType::U32 => SurfaceInstruction::ConstU32(v),
        SurfaceType::U64 => SurfaceInstruction::ConstU64(v),
        SurfaceType::F32 => SurfaceInstruction::ConstF32(v),
        SurfaceType::F64 => SurfaceInstruction::ConstF64(v),
        SurfaceType::Bool => SurfaceInstruction::ConstBool(v),
        SurfaceType::String => SurfaceInstruction::ConstString(v),
        SurfaceType::FunctionRef => SurfaceInstruction::ConstFunctionRef(v),
        SurfaceType::HeapRef => SurfaceInstruction::ConstHeapRef(v),
        SurfaceType::Undefined => SurfaceInstruction::Halt,
    }
}

/// The type that `s` names in the textual syntax.
pub open spec fn surface_type_name(s: Seq<char>) -> Option<SurfaceType> {
    if s == "undef"@ {
        Some(SurfaceType::Undefined)
    } else if s == "str"@ {
        Some(SurfaceType::String)
    } else if s == "bool"@ {
        Some(SurfaceType::Bool)
    } else if s == "i64"@ {
        Some(SurfaceType::I64)
    } else if s == "i32"@ {
        Some(SurfaceType::I32)
    } else if s == "u32"@ {
        Some(SurfaceType::U32)
    } else if s == "u64"@ {
        Some(SurfaceType::U64)
    } else if s == "f64"@ {
        Some(SurfaceType::F64)
    } else if s == "f32"@ {
        Some(SurfaceType::F32)
    } else if s == "fn_ref"@ {
        Some(SurfaceType::FunctionRef)
    } else if s == "heap_ref"@ {
        Some(SurfaceType::HeapRef)
    } else {
        None
    }
}

/// Reads a type name: `undef`, `str`, `bool`, `i64`, `i32`, `u32`, `u64`,
/// `f64`, `f32`, `fn_ref` or `heap_ref`.
pub fn parse_surface_type(text: &str) -> (r: Option<SurfaceType>)
    ensures
        r == surface_type_name(text@),
{
    if word_is(text, "undef") {
        Some(SurfaceType::Undefined)
    } else if word_is(text, "str") {
        Some(SurfaceType::String)
    } else if word_is(text, "bool") {
        Some(SurfaceType::Bool)
    } else if word_is(text, "i64") {
        Some(SurfaceType::I64)
    } else if word_is(text, "i32") {
        Some(SurfaceType::I32)
    } else if word_is(text, "u32") {
        Some(SurfaceType::U32)
    } else if word_is(text, "u64") {
        Some(SurfaceType::U64)
    } else if word_is(text, "f64") {
        Some(SurfaceType::F64)
    } else if word_is(text, "f32") {
        Some(SurfaceType::F32)
    } else if word_is(text, "fn_ref") {
        Some(SurfaceType::FunctionRef)
    } else if word_is(text, "heap_ref") {
        Some(SurfaceType::HeapRef)
    } else {
        None
    }
}

} // verus!
