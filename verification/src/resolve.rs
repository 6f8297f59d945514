//! Resolution of a parsed module into executable code for the CPU.
//!
//! A first pass gives every function its index and entry address, so that
//! calls may refer forward; a second pass scopes labels and locals to each
//! function and lowers its body, interning every name and string constant.
use vstd::prelude::*;
use crate::instruction::RuntimeInstruction;
use crate::lexical::{
    decimal_i32, decimal_i64, decimal_u32, decimal_u64, decimal_value, is_white_space, parse_bool, white_space,
};
use crate::surface::{SurfaceInstruction, SurfaceType, SurfaceValue};
use crate::syntax::{BareToken, Ident};
use crate::word::{
    Word, encode_bool, encode_function_ref, encode_heap_ref, encode_i32, encode_i64, encode_string_id,
    encode_u32, encode_u64, encoded_bool, encoded_i32, encoded_i64, encoded_u32, decoded_i32, decoded_i64,
};

verus! {

/// The value types of resolved signatures.
#[derive(Debug, Clone, Copy, PartialEq, Eq, Structural)]
pub enum Type {
    Undefined,
    String,
    Bool,
    I64,
    I32,
    U32,
    U64,
    F64,
    F32,
    FunctionRef,
    HeapRef,
}

/// Why a module could not be resolved.
#[derive(Debug, Clone, Copy, PartialEq, Eq, Structural)]
pub enum ResolveError {
    /// A count or an index does not fit in `u32`.
    ValueTooLarge,
    /// Two functions have the same name.
    DuplicateFunction,
    /// A function has no instructions.
    EmptyFunction,
    /// The functions' code does not fit in the `u32` address space.
    ProgramTooLarge,
    /// No function is named `main`.
    MissingMain,
    /// `main` does not take two `u64` values and return one `u64`.
    InvalidEntrySignature,
    /// A function defines the same label twice.
    DuplicateLabel,
    /// A load or store addresses local `u32::MAX`.
    LocalIndexTooLarge,
    /// A function uses more than 4096 locals.
    TooManyLocals,
    /// A function has two parameters with the same name.
    DuplicateParameter,
    /// A branch names a label that its function does not define.
    UnknownLabel,
    /// A call or a function reference names an unknown function.
    UnknownFunction,
    /// A call's arity differs from the callee's parameter count.
    ArityMismatch,
    /// A heap allocation asks for more than 65536 words.
    HeapAllocTooLarge,
    /// A quoted constant is not of string type.
    QuotedNonString,
    /// A constant has the undefined type.
    UndefinedConstant,
    /// A constant's text is not a value of its type.
    InvalidConstant,
    /// A numeric function reference is not the index of a function.
    FunctionRefOutOfBounds,
    /// A benchmark section's header holds more than white space.
    HeaderNotEmpty,
}

/// The resolved type of a surface type.
pub open spec fn runtime_type_spec(t: SurfaceType) -> Type {
    match t {
        SurfaceType::Undefined => Type::Undefined,
        SurfaceType::String => Type::String,
        SurfaceType::Bool => Type::Bool,
        SurfaceType::I32 => Type::I32,
        SurfaceType::I64 => Type::I64,
        SurfaceType::U32 => Type::U32,
        SurfaceType::U64 => Type::U64,
        SurfaceType::F32 => Type::F32,
        SurfaceType::F64 => Type::F64,
        SurfaceType::FunctionRef => Type::FunctionRef,
        SurfaceType::HeapRef => Type::HeapRef,
    }
}

/// The resolved type of a surface type.
pub fn runtime_type(t: SurfaceType) -> (r: Type)
    ensures
        r == runtime_type_spec(t),
{
    match t {
        SurfaceType::Undefined => Type::Undefined,
        SurfaceType::String => Type::String,
        SurfaceType::Bool => Type::Bool,
        SurfaceType::I32 => Type::I32,
        SurfaceType::I64 => Type::I64,
        SurfaceType::U32 => Type::U32,
        SurfaceType::U64 => Type::U64,
        SurfaceType::F32 => Type::F32,
        SurfaceType::F64 => Type::F64,
        SurfaceType::FunctionRef => Type::FunctionRef,
        SurfaceType::HeapRef => Type::HeapRef,
    }
}

/// The first index of `v` in `s`.
pub open spec fn first_index(s: Seq<Seq<char>>, v: Seq<char>) -> Option<int>
    decreases s.len(),
{
    if s.len() == 0 {
        None
    } else {
        match first_index(s.drop_last(), v) {
            Some(i) => Some(i),
            None => if s.last() == v {
                Some(s.len() - 1)
            } else {
                None
            },
        }
    }
}

/// Interning `v` into the table `strings`: the index of its first
/// occurrence, or a new last entry.
pub open spec fn intern_spec(strings: Seq<Seq<char>>, v: Seq<char>) -> (Seq<Seq<char>>, Result<u32, ResolveError>) {
    match first_index(strings, v) {
        Some(i) => (strings, if i <= u32::MAX { Ok(i as u32) } else { Err(ResolveError::ValueTooLarge) }),
        None => if strings.len() <= u32::MAX {
            (strings.push(v), Ok(strings.len() as u32))
        } else {
            (strings, Err(ResolveError::ValueTooLarge))
        },
    }
}

/// The views of a list of strings.
pub open spec fn texts(v: Seq<String>) -> Seq<Seq<char>> {
    v.map_values(|s: String| s@)
}

/// The string table of a module under resolution.
pub struct Resolver {
    strings: Vec<String>,
}

impl View for Resolver {
    type V = Seq<Seq<char>>;

    closed spec fn view(&self) -> Seq<Seq<char>> {
        texts(self.strings@)
    }
}

/// `first_index` finds the first occurrence.
proof fn lemma_first_index(s: Seq<Seq<char>>, v: Seq<char>, k: int)
    requires
        0 <= k <= s.len(),
        forall|j: int| 0 <= j < k ==> s[j] != v,
    ensures
        k < s.len() && s[k] == v ==> first_index(s, v) == Some(k),
        k == s.len() ==> first_index(s, v) is None,
    decreases s.len(),
{
    if s.len() > 0 {
        if k < s.len() {
            if s[k] == v {
                lemma_first_index(s.drop_last(), v, k);
            }
        } else {
            lemma_first_index(s.drop_last(), v, k - 1);
        }
    }
}

/// Interning keeps the table's earlier entries, the index it gives holds
/// the text, and interning the same text again gives the same index and
/// leaves the table as it is.
pub proof fn lemma_intern_stable(strings: Seq<Seq<char>>, v: Seq<char>)
    requires
        intern_spec(strings, v).1 is Ok,
    ensures
        ({
            let (t, r) = intern_spec(strings, v);
            let i = r->Ok_0;
            &&& t.subrange(0, strings.len() as int) == strings
            &&& 0 <= i < t.len() && t[i as int] == v
            &&& intern_spec(t, v) == (t, r)
        }),
{
    lemma_first_index_bound(strings, v);
    let t = intern_spec(strings, v).0;
    assert(t.subrange(0, strings.len() as int) == strings);
    if first_index(strings, v) is None {
        assert(t.drop_last() == strings);
    }
}

impl Resolver {
    /// A resolver with an empty string table.
    pub fn new() -> (r: Resolver)
        ensures
            r@ == Seq::<Seq<char>>::empty(),
    {
        let r = Resolver { strings: Vec::new() };
        assert(r@ == Seq::<Seq<char>>::empty());
        r
    }

    /// The interned strings, in the order of their indices.
    pub fn strings(&self) -> (s: &Vec<String>)
        ensures
            texts(s@) == self@,
    {
        &self.strings
    }

    /// Interns `value`: returns the index of its first occurrence in the
    /// table, appending it when it is new.
    pub fn intern(&mut self, value: &str) -> (r: Result<u32, ResolveError>)
        ensures
            (final(self)@, r) == intern_spec(old(self)@, value@),
    {
        let n = self.strings.len();
        let mut i: usize = 0;
        while i < n
            invariant
                n == self.strings@.len(),
                self@ == texts(self.strings@),
                0 <= i <= n,
                forall|j: int| 0 <= j < i ==> self@[j] != value@,
            decreases n - i,
        {
            if same_text(self.strings[i].as_str(), value) {
                proof {
                    assert(self@[i as int] == self.strings@[i as int]@);
                    lemma_first_index(self@, value@, i as int);
                }
                if i > u32::MAX as usize {
                    return Err(ResolveError::ValueTooLarge);
                }
                return Ok(i as u32);
            }
            assert(self@[i as int] == self.strings@[i as int]@);
            i += 1;
        }
        proof {
            lemma_first_index(self@, value@, n as int);
        }
        if n > u32::MAX as usize {
            return Err(ResolveError::ValueTooLarge);
        }
        self.strings.push(value.to_owned());
        assert(self@ == old(self)@.push(value@));
        Ok(n as u32)
    }
}

/// Whether `a` and `b` hold the same text.
pub fn same_text(a: &str, b: &str) -> (r: bool)
    ensures
        r == (a@ == b@),
{
    let n = a.unicode_len();
    if n != b.unicode_len() {
        return false;
    }
    let mut i: usize = 0;
    while i < n
        invariant
            n == a@.len(),
            n == b@.len(),
            0 <= i <= n,
            forall|j: int| 0 <= j < i ==> a@[j] == b@[j],
        decreases n - i,
    {
        if a.get_char(i) != b.get_char(i) {
            return false;
        }
        i += 1;
    }
    assert(a@ == b@);
    true
}

/// A parameter as written: its name and type.
#[derive(Debug, Clone)]
pub struct ParsedParameter {
    pub name: Ident,
    pub ty: SurfaceType,
}

/// A function as written: its name, parameters, optional return type and
/// instructions.
#[derive(Debug, Clone)]
pub struct ParsedFunction {
    pub name: Ident,
    pub params: Vec<ParsedParameter>,
    pub return_ty: Option<SurfaceType>,
    pub body: Vec<SurfaceInstruction>,
}

/// A module as written: its functions in order.
#[derive(Debug, Clone)]
pub struct ParsedModule {
    pub functions: Vec<ParsedFunction>,
}

/// The word of a float constant, computed by the caller from the constant's
/// text; resolution looks constants up here.
#[derive(Debug, Clone)]
pub struct FloatConstant {
    pub ty: SurfaceType,
    pub text: String,
    pub word: Word,
}

/// The names of functions, in order.
pub open spec fn fn_names(fs: Seq<ParsedFunction>) -> Seq<Seq<char>> {
    fs.map_values(|f: ParsedFunction| f.name.0@)
}

/// The address of the label named `name`.
pub open spec fn label_address(names: Seq<Seq<char>>, addresses: Seq<u32>, name: Seq<char>) -> Option<u32> {
    match first_index(names, name) {
        Some(i) => Some(addresses[i]),
        None => None,
    }
}

/// The word of the first float constant of type `t` written `text`.
pub open spec fn float_word(floats: Seq<FloatConstant>, t: SurfaceType, text: Seq<char>) -> Option<Word>
    decreases floats.len(),
{
    if floats.len() == 0 {
        None
    } else if floats[0].ty == t && floats[0].text@ == text {
        Some(floats[0].word)
    } else {
        float_word(floats.drop_first(), t, text)
    }
}

/// The text of a constant of type `t`: a quoted constant must be a string.
pub open spec fn constant_text(t: SurfaceType, v: SurfaceValue) -> Option<Seq<char>> {
    match v {
        SurfaceValue::Bare(b) => Some(b.0@),
        SurfaceValue::Quoted(q) => if t == SurfaceType::String {
            Some(q.0@)
        } else {
            None
        },
    }
}

/// The word of a function reference: `@name` names a function, anything
/// else must be a decimal `u32` index of one.
pub open spec fn function_ref_word(text: Seq<char>, names: Seq<Seq<char>>) -> Result<Word, ResolveError> {
    let index: Result<int, ResolveError> = if text.len() > 0 && text[0] == '@' {
        match first_index(names, text.drop_first()) {
            Some(i) => Ok(i),
            None => Err(ResolveError::UnknownFunction),
        }
    } else {
        match decimal_value(text, 0, u32::MAX as int) {
            Some(i) => Ok(i),
            None => Err(ResolveError::InvalidConstant),
        }
    };
    match index {
        Err(e) => Err(e),
        Ok(i) => if i < names.len() {
            Ok(encoded_u32(i as u32))
        } else {
            Err(ResolveError::FunctionRefOutOfBounds)
        },
    }
}

/// An integer constant's word, or `InvalidConstant`.
pub open spec fn integer_word(v: Option<int>, t: SurfaceType) -> Result<Word, ResolveError> {
    match v {
        None => Err(ResolveError::InvalidConstant),
        Some(x) => Ok(
            match t {
                SurfaceType::I32 => encoded_i32(x as i32),
                SurfaceType::I64 => encoded_i64(x as i64),
                SurfaceType::U64 => x as u64,
                _ => encoded_u32(x as u32),
            },
        ),
    }
}

/// The word of constant `v` of type `t`, in a module whose functions are
/// named `names`, with the string table after interning a string constant.
pub open spec fn value_spec(
    strings: Seq<Seq<char>>,
    t: SurfaceType,
    v: SurfaceValue,
    names: Seq<Seq<char>>,
    floats: Seq<FloatConstant>,
) -> (Seq<Seq<char>>, Result<Word, ResolveError>) {
    match constant_text(t, v) {
        None => (strings, Err(ResolveError::QuotedNonString)),
        Some(text) => match t {
            SurfaceType::Undefined => (strings, Err(ResolveError::UndefinedConstant)),
            SurfaceType::String => {
                let (s, r) = intern_spec(strings, text);
                (s, match r { Ok(i) => Ok(encoded_u32(i)), Err(e) => Err(e) })
            },
            SurfaceType::Bool => (
                strings,
                if text == seq!['t', 'r', 'u', 'e'] {
                    Ok(encoded_bool(true))
                } else if text == seq!['f', 'a', 'l', 's', 'e'] {
                    Ok(encoded_bool(false))
                } else {
                    Err(ResolveError::InvalidConstant)
                },
            ),
            SurfaceType::I32 => (strings, integer_word(decimal_value(text, i32::MIN as int, i32::MAX as int), t)),
            SurfaceType::I64 => (strings, integer_word(decimal_value(text, i64::MIN as int, i64::MAX as int), t)),
            SurfaceType::U32 => (strings, integer_word(decimal_value(text, 0, u32::MAX as int), t)),
            SurfaceType::U64 => (strings, integer_word(decimal_value(text, 0, u64::MAX as int), t)),
            SurfaceType::HeapRef => (strings, integer_word(decimal_value(text, 0, u32::MAX as int), t)),
            SurfaceType::FunctionRef => (strings, function_ref_word(text, names)),
            _ => (
                strings,
                match float_word(floats, t, text) {
                    Some(w) => Ok(w),
                    None => Err(ResolveError::InvalidConstant),
                },
            ),
        },
    }
}

/// The text of a decimal integer: a sign (none, `+` or `-`) followed by a
/// non-empty run of digits.
pub open spec fn signed_digits(text: Seq<char>, sign: Seq<char>, digits: Seq<char>) -> bool {
    &&& text == sign + digits
    &&& (sign == Seq::<char>::empty() || sign == seq!['+'] || sign == seq!['-'])
    &&& digits.len() > 0
    &&& crate::lexical::all_digits(digits)
}

/// The number that a sign and a run of digits write.
pub open spec fn signed_number(sign: Seq<char>, digits: Seq<char>) -> int {
    if sign == seq!['-'] {
        -crate::lexical::digits_value(digits)
    } else {
        crate::lexical::digits_value(digits) as int
    }
}

/// Reading a sign and a run of digits gives the sign and the digits' value.
proof fn lemma_decimal_parts_of(sign: Seq<char>, digits: Seq<char>)
    requires
        signed_digits(sign + digits, sign, digits),
    ensures
        crate::lexical::decimal_parts(sign + digits) == Some((sign == seq!['-'], crate::lexical::digits_value(digits))),
{
    let t = sign + digits;
    if sign.len() == 0 {
        assert(t =~= digits);
        assert(crate::lexical::is_digit(digits[0]));
    } else {
        assert(t.drop_first() =~= digits);
        assert(t[0] == sign[0]);
    }
}

/// An `i64` constant written as a decimal integer resolves to the word that
/// holds its number when the number lies anywhere in `i64::MIN..=i64::MAX`,
/// and is refused as an invalid constant otherwise; the string table is
/// untouched.
pub proof fn lemma_i64_constants(
    strings: Seq<Seq<char>>,
    b: BareToken,
    names: Seq<Seq<char>>,
    floats: Seq<FloatConstant>,
    sign: Seq<char>,
    digits: Seq<char>,
)
    requires
        signed_digits(b.0@, sign, digits),
    ensures
        ({
            let x = signed_number(sign, digits);
            value_spec(strings, SurfaceType::I64, SurfaceValue::Bare(b), names, floats) == (
                strings,
                if i64::MIN <= x <= i64::MAX {
                    Ok::<Word, ResolveError>(encoded_i64(x as i64))
                } else {
                    Err::<Word, ResolveError>(ResolveError::InvalidConstant)
                },
            )
        }),
        value_spec(strings, SurfaceType::I64, SurfaceValue::Bare(b), names, floats).1 matches Ok(w)
            ==> decoded_i64(w) as int == signed_number(sign, digits),
{
    lemma_decimal_parts_of(sign, digits);
    let x = signed_number(sign, digits);
    if i64::MIN <= x <= i64::MAX {
        crate::word::lemma_i64_round_trip(x as i64, encoded_i64(x as i64));
    }
}

/// An `i32` constant written as a decimal integer resolves to the word that
/// holds its number when the number lies in `i32::MIN..=i32::MAX`, and is
/// refused as an invalid constant otherwise.
pub proof fn lemma_i32_constants(
    strings: Seq<Seq<char>>,
    b: BareToken,
    names: Seq<Seq<char>>,
    floats: Seq<FloatConstant>,
    sign: Seq<char>,
    digits: Seq<char>,
)
    requires
        signed_digits(b.0@, sign, digits),
    ensures
        ({
            let x = signed_number(sign, digits);
            value_spec(strings, SurfaceType::I32, SurfaceValue::Bare(b), names, floats) == (
                strings,
                if i32::MIN <= x <= i32::MAX {
                    Ok::<Word, ResolveError>(encoded_i32(x as i32))
                } else {
                    Err::<Word, ResolveError>(ResolveError::InvalidConstant)
                },
            )
        }),
        value_spec(strings, SurfaceType::I32, SurfaceValue::Bare(b), names, floats).1 matches Ok(w)
            ==> decoded_i32(w) as int == signed_number(sign, digits),
{
    lemma_decimal_parts_of(sign, digits);
    let x = signed_number(sign, digits);
    if i32::MIN <= x <= i32::MAX {
        crate::word::lemma_i32_round_trip(x as i32);
    }
}

/// An unsigned constant (`u32`, `u64` or a heap reference) written as a
/// decimal integer resolves to the word that holds its number when the
/// number is not negative and fits the type, and is refused as an invalid
/// constant otherwise; a `-` sign is refused even on zero.
pub proof fn lemma_unsigned_constants(
    strings: Seq<Seq<char>>,
    t: SurfaceType,
    b: BareToken,
    names: Seq<Seq<char>>,
    floats: Seq<FloatConstant>,
    sign: Seq<char>,
    digits: Seq<char>,
)
    requires
        signed_digits(b.0@, sign, digits),
        t == SurfaceType::U32 || t == SurfaceType::U64 || t == SurfaceType::HeapRef,
    ensures
        ({
            let x = signed_number(sign, digits);
            let max: int = if t == SurfaceType::U64 { u64::MAX as int } else { u32::MAX as int };
            &&& (sign != seq!['-'] && x <= max) ==> value_spec(strings, t, SurfaceValue::Bare(b), names, floats) == (
                strings,
                Ok::<Word, ResolveError>(x as u64),
            )
            &&& !(sign != seq!['-'] && x <= max) ==> value_spec(strings, t, SurfaceValue::Bare(b), names, floats) == (
                strings,
                Err::<Word, ResolveError>(ResolveError::InvalidConstant),
            )
        }),
{
    lemma_decimal_parts_of(sign, digits);
}

/// The runtime form of an instruction that lowers without resolution: one
/// with no operands, or a load or store of a local.
pub open spec fn plain_lowering(i: SurfaceInstruction) -> RuntimeInstruction {
    match i {
        SurfaceInstruction::FunctionStart => RuntimeInstruction::FunctionStart,
        SurfaceInstruction::FunctionEnd => RuntimeInstruction::FunctionEnd,
        SurfaceInstruction::Breakpoint => RuntimeInstruction::Breakpoint,
        SurfaceInstruction::IndirectCall => RuntimeInstruction::IndirectCall,
        SurfaceInstruction::Halt => RuntimeInstruction::Halt,
        SurfaceInstruction::Print => RuntimeInstruction::Print,
        SurfaceInstruction::LoadI32(x) => RuntimeInstruction::LoadI32(x),
        SurfaceInstruction::LoadI64(x) => RuntimeInstruction::LoadI64(x),
        SurfaceInstruction::LoadU32(x) => RuntimeInstruction::LoadU32(x),
        SurfaceInstruction::LoadU64(x) => RuntimeInstruction::LoadU64(x),
        SurfaceInstruction::LoadF32(x) => RuntimeInstruction::LoadF32(x),
        SurfaceInstruction::LoadF64(x) => RuntimeInstruction::LoadF64(x),
        SurfaceInstruction::LoadBool(x) => RuntimeInstruction::LoadBool(x),
        SurfaceInstruction::StoreI32(x) => RuntimeInstruction::StoreI32(x),
        SurfaceInstruction::StoreI64(x) => RuntimeInstruction::StoreI64(x),
        SurfaceInstruction::StoreU32(x) => RuntimeInstruction::StoreU32(x),
        SurfaceInstruction::StoreU64(x) => RuntimeInstruction::StoreU64(x),
        SurfaceInstruction::StoreF32(x) => RuntimeInstruction::StoreF32(x),
        SurfaceInstruction::StoreF64(x) => RuntimeInstruction::StoreF64(x),
        SurfaceInstruction::StoreBool(x) => RuntimeInstruction::StoreBool(x),
        SurfaceInstruction::Dup => RuntimeInstruction::Dup,
        SurfaceInstruction::GetItem => RuntimeInstruction::GetItem,
        SurfaceInstruction::HeapDealloc => RuntimeInstruction::HeapDealloc,
        SurfaceInstruction::AddI32 => RuntimeInstruction::AddI32,
        SurfaceInstruction::AddF32 => RuntimeInstruction::AddF32,
        SurfaceInstruction::AddI64 => RuntimeInstruction::AddI64,
        SurfaceInstruction::AddU32 => RuntimeInstruction::AddU32,
        SurfaceInstruction::AddU64 => RuntimeInstruction::AddU64,
        SurfaceInstruction::AddF64 => RuntimeInstruction::AddF64,
        SurfaceInstruction::SubI32 => RuntimeInstruction::SubI32,
        SurfaceInstruction::SubI64 => RuntimeInstruction::SubI64,
        SurfaceInstruction::SubU32 => RuntimeInstruction::SubU32,
        SurfaceInstruction::SubU64 => RuntimeInstruction::SubU64,
        SurfaceInstruction::SubF32 => RuntimeInstruction::SubF32,
        SurfaceInstruction::SubF64 => RuntimeInstruction::SubF64,
        SurfaceInstruction::MulI32 => RuntimeInstruction::MulI32,
        SurfaceInstruction::MulI64 => RuntimeInstruction::MulI64,
        SurfaceInstruction::MulU32 => RuntimeInstruction::MulU32,
        SurfaceInstruction::MulU64 => RuntimeInstruction::MulU64,
        SurfaceInstruction::MulF32 => RuntimeInstruction::MulF32,
        SurfaceInstruction::MulF64 => RuntimeInstruction::MulF64,
        SurfaceInstruction::DivI32 => RuntimeInstruction::DivI32,
        SurfaceInstruction::DivI64 => RuntimeInstruction::DivI64,
        SurfaceInstruction::DivU32 => RuntimeInstruction::DivU32,
        SurfaceInstruction::DivU64 => RuntimeInstruction::DivU64,
        SurfaceInstruction::DivF32 => RuntimeInstruction::DivF32,
        SurfaceInstruction::DivF64 => RuntimeInstruction::DivF64,
        SurfaceInstruction::RemI32 => RuntimeInstruction::RemI32,
        SurfaceInstruction::RemI64 => RuntimeInstruction::RemI64,
        SurfaceInstruction::RemU32 => RuntimeInstruction::RemU32,
        SurfaceInstruction::RemU64 => RuntimeInstruction::RemU64,
        SurfaceInstruction::RemF32 => RuntimeInstruction::RemF32,
        SurfaceInstruction::RemF64 => RuntimeInstruction::RemF64,
        SurfaceInstruction::NegI32 => RuntimeInstruction::NegI32,
        SurfaceInstruction::NegI64 => RuntimeInstruction::NegI64,
        SurfaceInstruction::NegF32 => RuntimeInstruction::NegF32,
        SurfaceInstruction::NegF64 => RuntimeInstruction::NegF64,
        SurfaceInstruction::ShlI32 => RuntimeInstruction::ShlI32,
        SurfaceInstruction::ShlI64 => RuntimeInstruction::ShlI64,
        SurfaceInstruction::ShlU32 => RuntimeInstruction::ShlU32,
        SurfaceInstruction::ShlU64 => RuntimeInstruction::ShlU64,
        SurfaceInstruction::ShrI32 => RuntimeInstruction::ShrI32,
        SurfaceInstruction::ShrI64 => RuntimeInstruction::ShrI64,
        SurfaceInstruction::ShrU32 => RuntimeInstruction::ShrU32,
        SurfaceInstruction::ShrU64 => RuntimeInstruction::ShrU64,
        SurfaceInstruction::RolI32 => RuntimeInstruction::RolI32,
        SurfaceInstruction::RolI64 => RuntimeInstruction::RolI64,
        SurfaceInstruction::RolU32 => RuntimeInstruction::RolU32,
        SurfaceInstruction::RolU64 => RuntimeInstruction::RolU64,
        SurfaceInstruction::RorI32 => RuntimeInstruction::RorI32,
        SurfaceInstruction::RorI64 => RuntimeInstruction::RorI64,
        SurfaceInstruction::RorU32 => RuntimeInstruction::RorU32,
        SurfaceInstruction::RorU64 => RuntimeInstruction::RorU64,
        SurfaceInstruction::BitAndI32 => RuntimeInstruction::BitAndI32,
        SurfaceInstruction::BitAndI64 => RuntimeInstruction::BitAndI64,
        SurfaceInstruction::BitAndU32 => RuntimeInstruction::BitAndU32,
        SurfaceInstruction::BitAndU64 => RuntimeInstruction::BitAndU64,
        SurfaceInstruction::BitOrI32 => RuntimeInstruction::BitOrI32,
        SurfaceInstruction::BitOrI64 => RuntimeInstruction::BitOrI64,
        SurfaceInstruction::BitOrU32 => RuntimeInstruction::BitOrU32,
        SurfaceInstruction::BitOrU64 => RuntimeInstruction::BitOrU64,
        SurfaceInstruction::BitXorI32 => RuntimeInstruction::BitXorI32,
        SurfaceInstruction::BitXorI64 => RuntimeInstruction::BitXorI64,
        SurfaceInstruction::BitXorU32 => RuntimeInstruction::BitXorU32,
        SurfaceInstruction::BitXorU64 => RuntimeInstruction::BitXorU64,
        SurfaceInstruction::Not => RuntimeInstruction::Not,
        SurfaceInstruction::And => RuntimeInstruction::And,
        SurfaceInstruction::Or => RuntimeInstruction::Or,
        SurfaceInstruction::Xor => RuntimeInstruction::Xor,
        SurfaceInstruction::EqI32 => RuntimeInstruction::EqI32,
        SurfaceInstruction::EqI64 => RuntimeInstruction::EqI64,
        SurfaceInstruction::EqU32 => RuntimeInstruction::EqU32,
        SurfaceInstruction::EqU64 => RuntimeInstruction::EqU64,
        SurfaceInstruction::EqF32 => RuntimeInstruction::EqF32,
        SurfaceInstruction::EqF64 => RuntimeInstruction::EqF64,
        SurfaceInstruction::NeI32 => RuntimeInstruction::NeI32,
        SurfaceInstruction::NeI64 => RuntimeInstruction::NeI64,
        SurfaceInstruction::NeU32 => RuntimeInstruction::NeU32,
        SurfaceInstruction::NeU64 => RuntimeInstruction::NeU64,
        SurfaceInstruction::NeF32 => RuntimeInstruction::NeF32,
        SurfaceInstruction::NeF64 => RuntimeInstruction::NeF64,
        SurfaceInstruction::LtI32 => RuntimeInstruction::LtI32,
        SurfaceInstruction::LtI64 => RuntimeInstruction::LtI64,
        SurfaceInstruction::LtU32 => RuntimeInstruction::LtU32,
        SurfaceInstruction::LtU64 => RuntimeInstruction::LtU64,
        SurfaceInstruction::LtF32 => RuntimeInstruction::LtF32,
        SurfaceInstruction::LtF64 => RuntimeInstruction::LtF64,
        SurfaceInstruction::GtI32 => RuntimeInstruction::GtI32,
        SurfaceInstruction::GtI64 => RuntimeInstruction::GtI64,
        SurfaceInstruction::GtU32 => RuntimeInstruction::GtU32,
        SurfaceInstruction::GtU64 => RuntimeInstruction::GtU64,
        SurfaceInstruction::GtF32 => RuntimeInstruction::GtF32,
        SurfaceInstruction::GtF64 => RuntimeInstruction::GtF64,
        SurfaceInstruction::LeI32 => RuntimeInstruction::LeI32,
        SurfaceInstruction::LeI64 => RuntimeInstruction::LeI64,
        SurfaceInstruction::LeU32 => RuntimeInstruction::LeU32,
        SurfaceInstruction::LeU64 => RuntimeInstruction::LeU64,
        SurfaceInstruction::LeF32 => RuntimeInstruction::LeF32,
        SurfaceInstruction::LeF64 => RuntimeInstruction::LeF64,
        SurfaceInstruction::GeI32 => RuntimeInstruction::GeI32,
        SurfaceInstruction::GeI64 => RuntimeInstruction::GeI64,
        SurfaceInstruction::GeU32 => RuntimeInstruction::GeU32,
        SurfaceInstruction::GeU64 => RuntimeInstruction::GeU64,
        SurfaceInstruction::GeF32 => RuntimeInstruction::GeF32,
        SurfaceInstruction::GeF64 => RuntimeInstruction::GeF64,
        _ => RuntimeInstruction::Halt,
    }
}

/// Lowers one instruction of a function whose labels are `label_names` at
/// `label_addresses`, in a module with functions `fs` entered at `starts`.
/// Returns the string table after the constants are interned.
#[verifier::opaque]
pub open spec fn lower_spec(
    strings: Seq<Seq<char>>,
    i: SurfaceInstruction,
    label_names: Seq<Seq<char>>,
    label_addresses: Seq<u32>,
    fs: Seq<ParsedFunction>,
    starts: Seq<(u32, u32)>,
    floats: Seq<FloatConstant>,
) -> (Seq<Seq<char>>, Result<RuntimeInstruction, ResolveError>) {
    match i {
        SurfaceInstruction::Span(a, b, c) => (strings, Ok(RuntimeInstruction::Span(a, b, c))),
        SurfaceInstruction::Label(x) => (strings, Ok(RuntimeInstruction::Label(x))),
        SurfaceInstruction::HeapAlloc(k) => (
            strings,
            if k <= 65536 {
                Ok(RuntimeInstruction::HeapAlloc(k))
            } else {
                Err(ResolveError::HeapAllocTooLarge)
            },
        ),
        SurfaceInstruction::Return(k) => (strings, Ok(RuntimeInstruction::Return(k))),
        SurfaceInstruction::Branch(x) => (
            strings,
            match label_address(label_names, label_addresses, x.0@) {
                Some(a) => Ok(RuntimeInstruction::Branch(a)),
                None => Err(ResolveError::UnknownLabel),
            },
        ),
        SurfaceInstruction::ConditionalBranch(x, y) => (
            strings,
            match label_address(label_names, label_addresses, x.0@) {
                None => Err(ResolveError::UnknownLabel),
                Some(a) => match label_address(label_names, label_addresses, y.0@) {
                    None => Err(ResolveError::UnknownLabel),
                    Some(b) => Ok(RuntimeInstruction::ConditionalBranch(a, b)),
                },
            },
        ),
        SurfaceInstruction::Call(arity, x) => (
            strings,
            match first_index(fn_names(fs), x.0@) {
                None => Err(ResolveError::UnknownFunction),
                Some(k) => if arity == starts[k].1 {
                    Ok(RuntimeInstruction::Call(arity, starts[k].0))
                } else {
                    Err(ResolveError::ArityMismatch)
                },
            },
        ),
        SurfaceInstruction::ConstI32(v) => {
            let (s, r) = value_spec(strings, SurfaceType::I32, v, fn_names(fs), floats);
            (s, match r { Ok(word) => Ok(RuntimeInstruction::ConstI32(word)), Err(e) => Err(e) })
        },
        SurfaceInstruction::ConstI64(v) => {
            let (s, r) = value_spec(strings, SurfaceType::I64, v, fn_names(fs), floats);
            (s, match r { Ok(word) => Ok(RuntimeInstruction::ConstI64(word)), Err(e) => Err(e) })
        },
        SurfaceInstruction::ConstU32(v) => {
            let (s, r) = value_spec(strings, SurfaceType::U32, v, fn_names(fs), floats);
            (s, match r { Ok(word) => Ok(RuntimeInstruction::ConstU32(word)), Err(e) => Err(e) })
        },
        SurfaceInstruction::ConstU64(v) => {
            let (s, r) = value_spec(strings, SurfaceType::U64, v, fn_names(fs), floats);
            (s, match r { Ok(word) => Ok(RuntimeInstruction::ConstU64(word)), Err(e) => Err(e) })
        },
        SurfaceInstruction::ConstF32(v) => {
            let (s, r) = value_spec(strings, SurfaceType::F32, v, fn_names(fs), floats);
            (s, match r { Ok(word) => Ok(RuntimeInstruction::ConstF32(word)), Err(e) => Err(e) })
        },
        SurfaceInstruction::ConstF64(v) => {
            let (s, r) = value_spec(strings, SurfaceType::F64, v, fn_names(fs), floats);
            (s, match r { Ok(word) => Ok(RuntimeInstruction::ConstF64(word)), Err(e) => Err(e) })
        },
        SurfaceInstruction::ConstBool(v) => {
            let (s, r) = value_spec(strings, SurfaceType::Bool, v, fn_names(fs), floats);
            (s, match r { Ok(word) => Ok(RuntimeInstruction::ConstBool(word)), Err(e) => Err(e) })
        },
        SurfaceInstruction::ConstString(v) => {
            let (s, r) = value_spec(strings, SurfaceType::String, v, fn_names(fs), floats);
            (s, match r { Ok(word) => Ok(RuntimeInstruction::ConstString(word)), Err(e) => Err(e) })
        },
        SurfaceInstruction::ConstFunctionRef(v) => {
            let (s, r) = value_spec(strings, SurfaceType::FunctionRef, v, fn_names(fs), floats);
            (s, match r { Ok(word) => Ok(RuntimeInstruction::ConstFunctionRef(word)), Err(e) => Err(e) })
        },
        SurfaceInstruction::ConstHeapRef(v) => {
            let (s, r) = value_spec(strings, SurfaceType::HeapRef, v, fn_names(fs), floats);
            (s, match r { Ok(word) => Ok(RuntimeInstruction::ConstHeapRef(word)), Err(e) => Err(e) })
        },
        _ => (strings, Ok(plain_lowering(i))),
    }
}

/// The index of the first function named `name`.
fn find_function(fs: &Vec<ParsedFunction>, name: &str) -> (r: Option<usize>)
    ensures
        match r {
            Some(k) => first_index(fn_names(fs@), name@) == Some(k as int) && k < fs@.len(),
            None => first_index(fn_names(fs@), name@) is None,
        },
{
    let ghost names = fn_names(fs@);
    let mut k: usize = 0;
    while k < fs.len()
        invariant
            names == fn_names(fs@),
            names.len() == fs@.len(),
            0 <= k <= fs@.len(),
            forall|j: int| 0 <= j < k ==> names[j] != name@,
        decreases fs@.len() - k,
    {
        assert(names[k as int] == fs@[k as int].name.0@);
        if same_text(fs[k].name.as_str(), name) {
            proof {
                lemma_first_index(names, name@, k as int);
            }
            return Some(k);
        }
        k += 1;
    }
    proof {
        lemma_first_index(names, name@, k as int);
    }
    None
}

/// The address of the label named `name`.
fn find_label(names: &Vec<String>, addresses: &Vec<u32>, name: &str) -> (r: Option<u32>)
    requires
        names@.len() == addresses@.len(),
    ensures
        r == label_address(texts(names@), addresses@, name@),
{
    let ghost keys = texts(names@);
    let mut k: usize = 0;
    while k < names.len()
        invariant
            keys == texts(names@),
            keys.len() == names@.len(),
            names@.len() == addresses@.len(),
            0 <= k <= names@.len(),
            forall|j: int| 0 <= j < k ==> keys[j] != name@,
        decreases names@.len() - k,
    {
        assert(keys[k as int] == names@[k as int]@);
        if same_text(names[k].as_str(), name) {
            proof {
                lemma_first_index(keys, name@, k as int);
            }
            return Some(addresses[k]);
        }
        k += 1;
    }
    proof {
        lemma_first_index(keys, name@, k as int);
    }
    None
}

/// The word of the first float constant of type `t` written `text`.
fn find_float(floats: &[FloatConstant], t: SurfaceType, text: &str) -> (r: Option<Word>)
    ensures
        r == float_word(floats@, t, text@),
{
    let mut k: usize = 0;
    assert(floats@.subrange(0, floats@.len() as int) == floats@);
    while k < floats.len()
        invariant
            0 <= k <= floats@.len(),
            float_word(floats@, t, text@) == float_word(floats@.subrange(k as int, floats@.len() as int), t, text@),
        decreases floats@.len() - k,
    {
        let ghost rest = floats@.subrange(k as int, floats@.len() as int);
        assert(rest[0] == floats@[k as int]);
        assert(rest.drop_first() == floats@.subrange(k + 1, floats@.len() as int));
        if floats[k].ty == t && same_text(floats[k].text.as_str(), text) {
            return Some(floats[k].word);
        }
        k += 1;
    }
    None
}

/// The word of a function reference written `text`.
fn function_ref(fs: &Vec<ParsedFunction>, text: &str) -> (r: Result<Word, ResolveError>)
    requires
        fs@.len() <= u32::MAX + 1,
    ensures
        r == function_ref_word(text@, fn_names(fs@)),
{
    let n = text.unicode_len();
    let index: usize = if n > 0 && text.get_char(0) == '@' {
        let rest = text.substring_char(1, n);
        assert(rest@ == text@.drop_first());
        match find_function(fs, rest) {
            Some(k) => k,
            None => return Err(ResolveError::UnknownFunction),
        }
    } else {
        match decimal_u32(text) {
            Some(k) => k as usize,
            None => return Err(ResolveError::InvalidConstant),
        }
    };
    if index < fs.len() {
        Ok(encode_function_ref(index as u32))
    } else {
        Err(ResolveError::FunctionRefOutOfBounds)
    }
}

impl Resolver {
    /// The word of constant `v` of type `t`; string constants are interned.
    fn value(
        &mut self,
        t: SurfaceType,
        v: &SurfaceValue,
        fs: &Vec<ParsedFunction>,
        floats: &[FloatConstant],
    ) -> (r: Result<Word, ResolveError>)
        requires
            fs@.len() <= u32::MAX + 1,
        ensures
            (final(self)@, r) == value_spec(old(self)@, t, *v, fn_names(fs@), floats@),
    {
        let text: &str = match v {
            SurfaceValue::Bare(b) => b.as_str(),
            SurfaceValue::Quoted(q) => {
                if t != SurfaceType::String {
                    return Err(ResolveError::QuotedNonString);
                }
                q.as_str()
            },
        };
        match t {
            SurfaceType::Undefined => Err(ResolveError::UndefinedConstant),
            SurfaceType::String => match self.intern(text) {
                Ok(i) => Ok(encode_string_id(i)),
                Err(e) => Err(e),
            },
            SurfaceType::Bool => match parse_bool(text) {
                Some(b) => Ok(encode_bool(b)),
                None => Err(ResolveError::InvalidConstant),
            },
            SurfaceType::I32 => match decimal_i32(text) {
                Some(x) => Ok(encode_i32(x)),
                None => Err(ResolveError::InvalidConstant),
            },
            SurfaceType::I64 => match decimal_i64(text) {
                Some(x) => Ok(encode_i64(x)),
                None => Err(ResolveError::InvalidConstant),
            },
            SurfaceType::U32 => match decimal_u32(text) {
                Some(x) => Ok(encode_u32(x)),
                None => Err(ResolveError::InvalidConstant),
            },
            SurfaceType::U64 => match decimal_u64(text) {
                Some(x) => Ok(encode_u64(x)),
                None => Err(ResolveError::InvalidConstant),
            },
            SurfaceType::HeapRef => match decimal_u32(text) {
                Some(x) => Ok(encode_heap_ref(x)),
                None => Err(ResolveError::InvalidConstant),
            },
            SurfaceType::FunctionRef => function_ref(fs, text),
            _ => match find_float(floats, t, text) {
                Some(w) => Ok(w),
                None => Err(ResolveError::InvalidConstant),
            },
        }
    }

    /// Lowers one instruction of a function whose labels are `label_names`
    /// at `label_addresses`, in a module with functions `fs` entered at
    /// `starts`; string constants are interned.
    fn lower(
        &mut self,
        i: &SurfaceInstruction,
        label_names: &Vec<String>,
        label_addresses: &Vec<u32>,
        fs: &Vec<ParsedFunction>,
        starts: &Vec<(u32, u32)>,
        floats: &[FloatConstant],
    ) -> (r: Result<RuntimeInstruction, ResolveError>)
        requires
            label_names@.len() == label_addresses@.len(),
            starts@.len() == fs@.len(),
            fs@.len() <= u32::MAX + 1,
        ensures
            (final(self)@, r) == lower_spec(
                old(self)@,
                *i,
                texts(label_names@),
                label_addresses@,
                fs@,
                starts@,
                floats@,
            ),
    {
        proof {
            reveal(lower_spec);
        }
        match i {
            SurfaceInstruction::Span(a, b, c) => Ok(RuntimeInstruction::Span(*a, *b, *c)),
            SurfaceInstruction::Label(x) => Ok(RuntimeInstruction::Label(x.duplicate())),
            SurfaceInstruction::HeapAlloc(k) => {
                if *k <= 65536 {
                    Ok(RuntimeInstruction::HeapAlloc(*k))
                } else {
                    Err(ResolveError::HeapAllocTooLarge)
                }
            },
            SurfaceInstruction::Return(k) => Ok(RuntimeInstruction::Return(*k)),
            SurfaceInstruction::Branch(x) => match find_label(label_names, label_addresses, x.as_str()) {
                Some(a) => Ok(RuntimeInstruction::Branch(a)),
                None => Err(ResolveError::UnknownLabel),
            },
            SurfaceInstruction::ConditionalBranch(x, y) => {
                let a = match find_label(label_names, label_addresses, x.as_str()) {
                    Some(a) => a,
                    None => return Err(ResolveError::UnknownLabel),
                };
                match find_label(label_names, label_addresses, y.as_str()) {
                    Some(b) => Ok(RuntimeInstruction::ConditionalBranch(a, b)),
                    None => Err(ResolveError::UnknownLabel),
                }
            },
            SurfaceInstruction::Call(arity, x) => match find_function(fs, x.as_str()) {
                None => Err(ResolveError::UnknownFunction),
                Some(k) => {
                    if *arity == starts[k].1 {
                        Ok(RuntimeInstruction::Call(*arity, starts[k].0))
                    } else {
                        Err(ResolveError::ArityMismatch)
                    }
                },
            },
            SurfaceInstruction::ConstI32(v) => match self.value(SurfaceType::I32, v, fs, floats) {
                Ok(word) => Ok(RuntimeInstruction::ConstI32(word)),
                Err(e) => Err(e),
            },
            SurfaceInstruction::ConstI64(v) => match self.value(SurfaceType::I64, v, fs, floats) {
                Ok(word) => Ok(RuntimeInstruction::ConstI64(word)),
                Err(e) => Err(e),
            },
            SurfaceInstruction::ConstU32(v) => match self.value(SurfaceType::U32, v, fs, floats) {
                Ok(word) => Ok(RuntimeInstruction::ConstU32(word)),
                Err(e) => Err(e),
            },
            SurfaceInstruction::ConstU64(v) => match self.value(SurfaceType::U64, v, fs, floats) {
                Ok(word) => Ok(RuntimeInstruction::ConstU64(word)),
                Err(e) => Err(e),
            },
            SurfaceInstruction::ConstF32(v) => match self.value(SurfaceType::F32, v, fs, floats) {
                Ok(word) => Ok(RuntimeInstruction::ConstF32(word)),
                Err(e) => Err(e),
            },
            SurfaceInstruction::ConstF64(v) => match self.value(SurfaceType::F64, v, fs, floats) {
                Ok(word) => Ok(RuntimeInstruction::ConstF64(word)),
                Err(e) => Err(e),
            },
            SurfaceInstruction::ConstBool(v) => match self.value(SurfaceType::Bool, v, fs, floats) {
                Ok(word) => Ok(RuntimeInstruction::ConstBool(word)),
                Err(e) => Err(e),
            },
            SurfaceInstruction::ConstString(v) => match self.value(SurfaceType::String, v, fs, floats) {
                Ok(word) => Ok(RuntimeInstruction::ConstString(word)),
                Err(e) => Err(e),
            },
            SurfaceInstruction::ConstFunctionRef(v) => match self.value(SurfaceType::FunctionRef, v, fs, floats) {
                Ok(word) => Ok(RuntimeInstruction::ConstFunctionRef(word)),
                Err(e) => Err(e),
            },
            SurfaceInstruction::ConstHeapRef(v) => match self.value(SurfaceType::HeapRef, v, fs, floats) {
                Ok(word) => Ok(RuntimeInstruction::ConstHeapRef(word)),
                Err(e) => Err(e),
            },
            SurfaceInstruction::FunctionStart => Ok(RuntimeInstruction::FunctionStart),
            SurfaceInstruction::FunctionEnd => Ok(RuntimeInstruction::FunctionEnd),
            SurfaceInstruction::Breakpoint => Ok(RuntimeInstruction::Breakpoint),
            SurfaceInstruction::IndirectCall => Ok(RuntimeInstruction::IndirectCall),
            SurfaceInstruction::Halt => Ok(RuntimeInstruction::Halt),
            SurfaceInstruction::Print => Ok(RuntimeInstruction::Print),
            SurfaceInstruction::LoadI32(x) => Ok(RuntimeInstruction::LoadI32(*x)),
            SurfaceInstruction::LoadI64(x) => Ok(RuntimeInstruction::LoadI64(*x)),
            SurfaceInstruction::LoadU32(x) => Ok(RuntimeInstruction::LoadU32(*x)),
            SurfaceInstruction::LoadU64(x) => Ok(RuntimeInstruction::LoadU64(*x)),
            SurfaceInstruction::LoadF32(x) => Ok(RuntimeInstruction::LoadF32(*x)),
            SurfaceInstruction::LoadF64(x) => Ok(RuntimeInstruction::LoadF64(*x)),
            SurfaceInstruction::LoadBool(x) => Ok(RuntimeInstruction::LoadBool(*x)),
            SurfaceInstruction::StoreI32(x) => Ok(RuntimeInstruction::StoreI32(*x)),
            SurfaceInstruction::StoreI64(x) => Ok(RuntimeInstruction::StoreI64(*x)),
            SurfaceInstruction::StoreU32(x) => Ok(RuntimeInstruction::StoreU32(*x)),
            SurfaceInstruction::StoreU64(x) => Ok(RuntimeInstruction::StoreU64(*x)),
            SurfaceInstruction::StoreF32(x) => Ok(RuntimeInstruction::StoreF32(*x)),
            SurfaceInstruction::StoreF64(x) => Ok(RuntimeInstruction::StoreF64(*x)),
            SurfaceInstruction::StoreBool(x) => Ok(RuntimeInstruction::StoreBool(*x)),
            SurfaceInstruction::Dup => Ok(RuntimeInstruction::Dup),
            SurfaceInstruction::GetItem => Ok(RuntimeInstruction::GetItem),
            SurfaceInstruction::HeapDealloc => Ok(RuntimeInstruction::HeapDealloc),
            SurfaceInstruction::AddI32 => Ok(RuntimeInstruction::AddI32),
            SurfaceInstruction::AddF32 => Ok(RuntimeInstruction::AddF32),
            SurfaceInstruction::AddI64 => Ok(RuntimeInstruction::AddI64),
            SurfaceInstruction::AddU32 => Ok(RuntimeInstruction::AddU32),
            SurfaceInstruction::AddU64 => Ok(RuntimeInstruction::AddU64),
            SurfaceInstruction::AddF64 => Ok(RuntimeInstruction::AddF64),
            SurfaceInstruction::SubI32 => Ok(RuntimeInstruction::SubI32),
            SurfaceInstruction::SubI64 => Ok(RuntimeInstruction::SubI64),
            SurfaceInstruction::SubU32 => Ok(RuntimeInstruction::SubU32),
            SurfaceInstruction::SubU64 => Ok(RuntimeInstruction::SubU64),
            SurfaceInstruction::SubF32 => Ok(RuntimeInstruction::SubF32),
            SurfaceInstruction::SubF64 => Ok(RuntimeInstruction::SubF64),
            SurfaceInstruction::MulI32 => Ok(RuntimeInstruction::MulI32),
            SurfaceInstruction::MulI64 => Ok(RuntimeInstruction::MulI64),
            SurfaceInstruction::MulU32 => Ok(RuntimeInstruction::MulU32),
            SurfaceInstruction::MulU64 => Ok(RuntimeInstruction::MulU64),
            SurfaceInstruction::MulF32 => Ok(RuntimeInstruction::MulF32),
            SurfaceInstruction::MulF64 => Ok(RuntimeInstruction::MulF64),
            SurfaceInstruction::DivI32 => Ok(RuntimeInstruction::DivI32),
            SurfaceInstruction::DivI64 => Ok(RuntimeInstruction::DivI64),
            SurfaceInstruction::DivU32 => Ok(RuntimeInstruction::DivU32),
            SurfaceInstruction::DivU64 => Ok(RuntimeInstruction::DivU64),
            SurfaceInstruction::DivF32 => Ok(RuntimeInstruction::DivF32),
            SurfaceInstruction::DivF64 => Ok(RuntimeInstruction::DivF64),
            SurfaceInstruction::RemI32 => Ok(RuntimeInstruction::RemI32),
            SurfaceInstruction::RemI64 => Ok(RuntimeInstruction::RemI64),
            SurfaceInstruction::RemU32 => Ok(RuntimeInstruction::RemU32),
            SurfaceInstruction::RemU64 => Ok(RuntimeInstruction::RemU64),
            SurfaceInstruction::RemF32 => Ok(RuntimeInstruction::RemF32),
            SurfaceInstruction::RemF64 => Ok(RuntimeInstruction::RemF64),
            SurfaceInstruction::NegI32 => Ok(RuntimeInstruction::NegI32),
            SurfaceInstruction::NegI64 => Ok(RuntimeInstruction::NegI64),
            SurfaceInstruction::NegF32 => Ok(RuntimeInstruction::NegF32),
            SurfaceInstruction::NegF64 => Ok(RuntimeInstruction::NegF64),
            SurfaceInstruction::ShlI32 => Ok(RuntimeInstruction::ShlI32),
            SurfaceInstruction::ShlI64 => Ok(RuntimeInstruction::ShlI64),
            SurfaceInstruction::ShlU32 => Ok(RuntimeInstruction::ShlU32),
            SurfaceInstruction::ShlU64 => Ok(RuntimeInstruction::ShlU64),
            SurfaceInstruction::ShrI32 => Ok(RuntimeInstruction::ShrI32),
            SurfaceInstruction::ShrI64 => Ok(RuntimeInstruction::ShrI64),
            SurfaceInstruction::ShrU32 => Ok(RuntimeInstruction::ShrU32),
            SurfaceInstruction::ShrU64 => Ok(RuntimeInstruction::ShrU64),
            SurfaceInstruction::RolI32 => Ok(RuntimeInstruction::RolI32),
            SurfaceInstruction::RolI64 => Ok(RuntimeInstruction::RolI64),
            SurfaceInstruction::RolU32 => Ok(RuntimeInstruction::RolU32),
            SurfaceInstruction::RolU64 => Ok(RuntimeInstruction::RolU64),
            SurfaceInstruction::RorI32 => Ok(RuntimeInstruction::RorI32),
            SurfaceInstruction::RorI64 => Ok(RuntimeInstruction::RorI64),
            SurfaceInstruction::RorU32 => Ok(RuntimeInstruction::RorU32),
            SurfaceInstruction::RorU64 => Ok(RuntimeInstruction::RorU64),
            SurfaceInstruction::BitAndI32 => Ok(RuntimeInstruction::BitAndI32),
            SurfaceInstruction::BitAndI64 => Ok(RuntimeInstruction::BitAndI64),
            SurfaceInstruction::BitAndU32 => Ok(RuntimeInstruction::BitAndU32),
            SurfaceInstruction::BitAndU64 => Ok(RuntimeInstruction::BitAndU64),
            SurfaceInstruction::BitOrI32 => Ok(RuntimeInstruction::BitOrI32),
            SurfaceInstruction::BitOrI64 => Ok(RuntimeInstruction::BitOrI64),
            SurfaceInstruction::BitOrU32 => Ok(RuntimeInstruction::BitOrU32),
            SurfaceInstruction::BitOrU64 => Ok(RuntimeInstruction::BitOrU64),
            SurfaceInstruction::BitXorI32 => Ok(RuntimeInstruction::BitXorI32),
            SurfaceInstruction::BitXorI64 => Ok(RuntimeInstruction::BitXorI64),
            SurfaceInstruction::BitXorU32 => Ok(RuntimeInstruction::BitXorU32),
            SurfaceInstruction::BitXorU64 => Ok(RuntimeInstruction::BitXorU64),
            SurfaceInstruction::Not => Ok(RuntimeInstruction::Not),
            SurfaceInstruction::And => Ok(RuntimeInstruction::And),
            SurfaceInstruction::Or => Ok(RuntimeInstruction::Or),
            SurfaceInstruction::Xor => Ok(RuntimeInstruction::Xor),
            SurfaceInstruction::EqI32 => Ok(RuntimeInstruction::EqI32),
            SurfaceInstruction::EqI64 => Ok(RuntimeInstruction::EqI64),
            SurfaceInstruction::EqU32 => Ok(RuntimeInstruction::EqU32),
            SurfaceInstruction::EqU64 => Ok(RuntimeInstruction::EqU64),
            SurfaceInstruction::EqF32 => Ok(RuntimeInstruction::EqF32),
            SurfaceInstruction::EqF64 => Ok(RuntimeInstruction::EqF64),
            SurfaceInstruction::NeI32 => Ok(RuntimeInstruction::NeI32),
            SurfaceInstruction::NeI64 => Ok(RuntimeInstruction::NeI64),
            SurfaceInstruction::NeU32 => Ok(RuntimeInstruction::NeU32),
            SurfaceInstruction::NeU64 => Ok(RuntimeInstruction::NeU64),
            SurfaceInstruction::NeF32 => Ok(RuntimeInstruction::NeF32),
            SurfaceInstruction::NeF64 => Ok(RuntimeInstruction::NeF64),
            SurfaceInstruction::LtI32 => Ok(RuntimeInstruction::LtI32),
            SurfaceInstruction::LtI64 => Ok(RuntimeInstruction::LtI64),
            SurfaceInstruction::LtU32 => Ok(RuntimeInstruction::LtU32),
            SurfaceInstruction::LtU64 => Ok(RuntimeInstruction::LtU64),
            SurfaceInstruction::LtF32 => Ok(RuntimeInstruction::LtF32),
            SurfaceInstruction::LtF64 => Ok(RuntimeInstruction::LtF64),
            SurfaceInstruction::GtI32 => Ok(RuntimeInstruction::GtI32),
            SurfaceInstruction::GtI64 => Ok(RuntimeInstruction::GtI64),
            SurfaceInstruction::GtU32 => Ok(RuntimeInstruction::GtU32),
            SurfaceInstruction::GtU64 => Ok(RuntimeInstruction::GtU64),
            SurfaceInstruction::GtF32 => Ok(RuntimeInstruction::GtF32),
            SurfaceInstruction::GtF64 => Ok(RuntimeInstruction::GtF64),
            SurfaceInstruction::LeI32 => Ok(RuntimeInstruction::LeI32),
            SurfaceInstruction::LeI64 => Ok(RuntimeInstruction::LeI64),
            SurfaceInstruction::LeU32 => Ok(RuntimeInstruction::LeU32),
            SurfaceInstruction::LeU64 => Ok(RuntimeInstruction::LeU64),
            SurfaceInstruction::LeF32 => Ok(RuntimeInstruction::LeF32),
            SurfaceInstruction::LeF64 => Ok(RuntimeInstruction::LeF64),
            SurfaceInstruction::GeI32 => Ok(RuntimeInstruction::GeI32),
            SurfaceInstruction::GeI64 => Ok(RuntimeInstruction::GeI64),
            SurfaceInstruction::GeU32 => Ok(RuntimeInstruction::GeU32),
            SurfaceInstruction::GeU64 => Ok(RuntimeInstruction::GeU64),
            SurfaceInstruction::GeF32 => Ok(RuntimeInstruction::GeF32),
            SurfaceInstruction::GeF64 => Ok(RuntimeInstruction::GeF64),
        }
    }

}

/// A label of a resolved module: its address and interned name.
#[derive(Debug, Clone, Copy, PartialEq, Eq, Structural)]
pub struct LabelInfo {
    pub address: u32,
    pub name: u32,
}

/// A resolved parameter: its interned name and type.
#[derive(Debug, Clone, Copy, PartialEq, Eq, Structural)]
pub struct Parameter {
    pub name: u32,
    pub ty: Type,
}

/// A resolved signature.
#[derive(Debug, Clone)]
pub struct Signature {
    pub params: Vec<Parameter>,
    pub ret: Vec<Type>,
}

/// A resolved function: interned name, signature, number of local slots
/// and the addresses of its first instruction and one past its last.
#[derive(Debug, Clone)]
pub struct FunctionInfo {
    pub name: u32,
    pub signature: Signature,
    pub local_count: u32,
    pub start_address: u32,
    pub end_address: u32,
    pub file: u32,
}

/// A resolved module.
#[derive(Debug, Clone)]
pub struct Module {
    pub main_function: Option<u32>,
    pub code: Vec<RuntimeInstruction>,
    pub functions: Vec<FunctionInfo>,
    pub labels: Vec<LabelInfo>,
    pub strings: Vec<String>,
}

/// A resolved function with its lists taken as sequences.
pub struct FunctionView {
    pub name: u32,
    pub params: Seq<Parameter>,
    pub ret: Seq<Type>,
    pub local_count: u32,
    pub start_address: u32,
    pub end_address: u32,
    pub file: u32,
}

/// The view of a resolved function.
pub open spec fn function_view(f: FunctionInfo) -> FunctionView {
    FunctionView {
        name: f.name,
        params: f.signature.params@,
        ret: f.signature.ret@,
        local_count: f.local_count,
        start_address: f.start_address,
        end_address: f.end_address,
        file: f.file,
    }
}

/// A resolved module with its lists taken as sequences.
pub struct ModuleView {
    pub main_function: Option<u32>,
    pub code: Seq<RuntimeInstruction>,
    pub functions: Seq<FunctionView>,
    pub labels: Seq<LabelInfo>,
    pub strings: Seq<Seq<char>>,
}

/// The view of a resolved module.
pub open spec fn module_view(m: Module) -> ModuleView {
    ModuleView {
        main_function: m.main_function,
        code: m.code@,
        functions: m.functions@.map_values(|f: FunctionInfo| function_view(f)),
        labels: m.labels@,
        strings: texts(m.strings@),
    }
}

/// The address of function `i`'s first instruction: the number of
/// instructions of the functions before it.
pub open spec fn body_start(fs: Seq<ParsedFunction>, i: nat) -> int
    decreases i,
{
    if i == 0 {
        0
    } else {
        body_start(fs, (i - 1) as nat) + fs[i - 1].body@.len()
    }
}

/// The first-pass error of function `i`, given the functions before it.
pub open spec fn index_error_at(fs: Seq<ParsedFunction>, i: int) -> Option<ResolveError> {
    if i > u32::MAX {
        Some(ResolveError::ValueTooLarge)
    } else if exists|j: int| 0 <= j < i && #[trigger] fs[j].name.0@ == fs[i].name.0@ {
        Some(ResolveError::DuplicateFunction)
    } else if fs[i].body@.len() == 0 {
        Some(ResolveError::EmptyFunction)
    } else if fs[i].params@.len() > u32::MAX || fs[i].body@.len() > u32::MAX {
        Some(ResolveError::ValueTooLarge)
    } else if body_start(fs, (i + 1) as nat) > u32::MAX {
        Some(ResolveError::ProgramTooLarge)
    } else {
        None
    }
}

/// The first first-pass error among functions `k..`.
pub open spec fn index_error_from(fs: Seq<ParsedFunction>, k: int) -> Option<ResolveError>
    decreases fs.len() - k,
{
    if k < 0 || k >= fs.len() {
        None
    } else {
        match index_error_at(fs, k) {
            Some(e) => Some(e),
            None => index_error_from(fs, k + 1),
        }
    }
}

/// Each function's entry address and parameter count.
pub open spec fn entry_starts(fs: Seq<ParsedFunction>) -> Seq<(u32, u32)> {
    Seq::new(fs.len(), |i: int| (body_start(fs, i as nat) as u32, fs[i].params@.len() as u32))
}

/// The labels, locals and strings that a function's first pass has
/// gathered so far.
pub struct ScopeView {
    pub strings: Seq<Seq<char>>,
    pub labels: Seq<LabelInfo>,
    pub label_names: Seq<Seq<char>>,
    pub label_addresses: Seq<u32>,
    pub local_count: int,
}

/// A label's module-wide name: the function's name, `::`, the label's name.
pub open spec fn qualified(function: Seq<char>, label: Seq<char>) -> Seq<char> {
    function + seq![':', ':'] + label
}

/// The first pass over instruction `i` of function `name` at `address`: a
/// label is recorded and interned; a load or store raises the local count.
pub open spec fn scope_step(st: ScopeView, name: Seq<char>, i: SurfaceInstruction, address: int) -> Result<ScopeView, ResolveError> {
    let labelled: Result<ScopeView, ResolveError> = match i {
        SurfaceInstruction::Label(l) => if first_index(st.label_names, l.0@) is Some {
            Err(ResolveError::DuplicateLabel)
        } else {
            let (s, r) = intern_spec(st.strings, qualified(name, l.0@));
            match r {
                Err(e) => Err(e),
                Ok(k) => Ok(ScopeView {
                    strings: s,
                    labels: st.labels.push(LabelInfo { address: address as u32, name: k }),
                    label_names: st.label_names.push(l.0@),
                    label_addresses: st.label_addresses.push(address as u32),
                    local_count: st.local_count,
                }),
            }
        },
        _ => Ok(st),
    };
    match labelled {
        Err(e) => Err(e),
        Ok(st) => match i.local_index() {
            Some(x) => if x == u32::MAX {
                Err(ResolveError::LocalIndexTooLarge)
            } else {
                Ok(ScopeView {
                    local_count: if x + 1 > st.local_count { x + 1 } else { st.local_count },
                    ..st
                })
            },
            None => Ok(st),
        },
    }
}

/// The first pass over instructions `k..` of a body that starts at `start`.
pub open spec fn scope_from(st: ScopeView, name: Seq<char>, body: Seq<SurfaceInstruction>, start: int, k: int) -> Result<ScopeView, ResolveError>
    decreases body.len() - k,
{
    if k < 0 || k >= body.len() {
        Ok(st)
    } else {
        match scope_step(st, name, body[k], start + k) {
            Err(e) => Err(e),
            Ok(next) => scope_from(next, name, body, start, k + 1),
        }
    }
}

/// The first pass over function `f` at address `start`: its labels, its
/// local count (its parameters and every local that a load or store names,
/// at most 4096) and the strings interned on the way.
pub open spec fn function_scope_spec(strings: Seq<Seq<char>>, labels: Seq<LabelInfo>, f: ParsedFunction, start: int) -> Result<ScopeView, ResolveError> {
    let init = ScopeView {
        strings,
        labels,
        label_names: Seq::empty(),
        label_addresses: Seq::empty(),
        local_count: f.params@.len() as int,
    };
    match scope_from(init, f.name.0@, f.body@, start, 0) {
        Err(e) => Err(e),
        Ok(st) => if st.local_count > 4096 {
            Err(ResolveError::TooManyLocals)
        } else {
            Ok(st)
        },
    }
}

/// The parameters from `k` on, each checked against the earlier ones and
/// interned, appended to `out`.
pub open spec fn params_from(strings: Seq<Seq<char>>, out: Seq<Parameter>, ps: Seq<ParsedParameter>, k: int) -> Result<(Seq<Seq<char>>, Seq<Parameter>), ResolveError>
    decreases ps.len() - k,
{
    if k < 0 || k >= ps.len() {
        Ok((strings, out))
    } else if exists|j: int| 0 <= j < k && #[trigger] ps[j].name.0@ == ps[k].name.0@ {
        Err(ResolveError::DuplicateParameter)
    } else {
        let (s, r) = intern_spec(strings, ps[k].name.0@);
        match r {
            Err(e) => Err(e),
            Ok(n) => params_from(s, out.push(Parameter { name: n, ty: runtime_type_spec(ps[k].ty) }), ps, k + 1),
        }
    }
}

/// The resolved return types of an optional return type.
pub open spec fn return_types(t: Option<SurfaceType>) -> Seq<Type> {
    match t {
        Some(t) => seq![runtime_type_spec(t)],
        None => Seq::empty(),
    }
}

/// `main` takes two `u64` values and returns one.
pub open spec fn entry_signature(params: Seq<Parameter>, ret: Seq<Type>) -> bool {
    &&& params.len() == 2
    &&& params[0].ty == Type::U64
    &&& params[1].ty == Type::U64
    &&& ret == seq![Type::U64]
}

/// Lowering instructions `k..` of a body, appending to `code`.
pub open spec fn lower_from(
    strings: Seq<Seq<char>>,
    code: Seq<RuntimeInstruction>,
    body: Seq<SurfaceInstruction>,
    k: int,
    label_names: Seq<Seq<char>>,
    label_addresses: Seq<u32>,
    fs: Seq<ParsedFunction>,
    starts: Seq<(u32, u32)>,
    floats: Seq<FloatConstant>,
) -> Result<(Seq<Seq<char>>, Seq<RuntimeInstruction>), ResolveError>
    decreases body.len() - k,
{
    if k < 0 || k >= body.len() {
        Ok((strings, code))
    } else {
        let (s, r) = lower_spec(strings, body[k], label_names, label_addresses, fs, starts, floats);
        match r {
            Err(e) => Err(e),
            Ok(i) => lower_from(s, code.push(i), body, k + 1, label_names, label_addresses, fs, starts, floats),
        }
    }
}

/// The module under construction in the second pass.
pub struct ResolveState {
    pub strings: Seq<Seq<char>>,
    pub code: Seq<RuntimeInstruction>,
    pub functions: Seq<FunctionView>,
    pub labels: Seq<LabelInfo>,
}

/// The second pass over function `f`: scope its labels and locals, resolve
/// its signature (`main`'s must take two `u64` and return one, and `main`
/// keeps at least four locals), lower its body and record it.
#[verifier::opaque]
pub open spec fn resolve_function_spec(
    st: ResolveState,
    f: ParsedFunction,
    fs: Seq<ParsedFunction>,
    starts: Seq<(u32, u32)>,
    floats: Seq<FloatConstant>,
) -> Result<ResolveState, ResolveError> {
    let start = st.code.len() as int;
    if start > u32::MAX {
        Err(ResolveError::ValueTooLarge)
    } else {
        match function_scope_spec(st.strings, st.labels, f, start) {
            Err(e) => Err(e),
            Ok(sc) => match params_from(sc.strings, Seq::empty(), f.params@, 0) {
                Err(e) => Err(e),
                Ok((s2, params)) => {
                    let ret = return_types(f.return_ty);
                    let is_main = f.name.0@ == seq!['m', 'a', 'i', 'n'];
                    if is_main && !entry_signature(params, ret) {
                        Err(ResolveError::InvalidEntrySignature)
                    } else {
                        let local_count = if is_main && sc.local_count < 4 { 4 } else { sc.local_count };
                        match lower_from(s2, st.code, f.body@, 0, sc.label_names, sc.label_addresses, fs, starts, floats) {
                            Err(e) => Err(e),
                            Ok((s3, code)) => {
                                let (s4, r) = intern_spec(s3, f.name.0@);
                                match r {
                                    Err(e) => Err(e),
                                    Ok(name) => if code.len() > u32::MAX {
                                        Err(ResolveError::ValueTooLarge)
                                    } else {
                                        Ok(ResolveState {
                                            strings: s4,
                                            code,
                                            functions: st.functions.push(FunctionView {
                                                name,
                                                params,
                                                ret,
                                                local_count: local_count as u32,
                                                start_address: start as u32,
                                                end_address: code.len() as u32,
                                                file: 0,
                                            }),
                                            labels: sc.labels,
                                        })
                                    },
                                }
                            },
                        }
                    }
                },
            },
        }
    }
}

/// The second pass over functions `k..`.
pub open spec fn resolve_from(st: ResolveState, fs: Seq<ParsedFunction>, k: int, floats: Seq<FloatConstant>) -> Result<ResolveState, ResolveError>
    decreases fs.len() - k,
{
    if k < 0 || k >= fs.len() {
        Ok(st)
    } else {
        match resolve_function_spec(st, fs[k], fs, entry_starts(fs), floats) {
            Err(e) => Err(e),
            Ok(next) => resolve_from(next, fs, k + 1, floats),
        }
    }
}

/// The resolution of a module: the first pass's errors, then a function
/// named `main`, then the second pass over every function in order.
pub open spec fn resolve_module_spec(m: ParsedModule, floats: Seq<FloatConstant>) -> Result<ModuleView, ResolveError> {
    let fs = m.functions@;
    match index_error_from(fs, 0) {
        Some(e) => Err(e),
        None => match first_index(fn_names(fs), seq!['m', 'a', 'i', 'n']) {
            None => Err(ResolveError::MissingMain),
            Some(main) => {
                let init = ResolveState {
                    strings: Seq::empty(),
                    code: Seq::empty(),
                    functions: Seq::empty(),
                    labels: Seq::empty(),
                };
                match resolve_from(init, fs, 0, floats) {
                    Err(e) => Err(e),
                    Ok(st) => Ok(ModuleView {
                        main_function: Some(main as u32),
                        code: st.code,
                        functions: st.functions,
                        labels: st.labels,
                        strings: st.strings,
                    }),
                }
            },
        },
    }
}

/// Whether function `k` repeats the name of an earlier function.
fn repeats_function_name(fs: &Vec<ParsedFunction>, k: usize) -> (b: bool)
    requires
        k < fs@.len(),
    ensures
        b == exists|j: int| 0 <= j < k && #[trigger] fs@[j].name.0@ == fs@[k as int].name.0@,
{
    let mut j: usize = 0;
    while j < k
        invariant
            k < fs@.len(),
            0 <= j <= k,
            forall|i: int| 0 <= i < j ==> #[trigger] fs@[i].name.0@ != fs@[k as int].name.0@,
        decreases k - j,
    {
        if same_text(fs[j].name.as_str(), fs[k].name.as_str()) {
            return true;
        }
        j += 1;
    }
    false
}

/// The first pass: every function's entry address and parameter count, or
/// the first function that repeats a name, is empty or does not fit.
fn function_index(fs: &Vec<ParsedFunction>) -> (r: Result<Vec<(u32, u32)>, ResolveError>)
    ensures
        match r {
            Ok(starts) => index_error_from(fs@, 0) is None && starts@ == entry_starts(fs@),
            Err(e) => index_error_from(fs@, 0) == Some(e),
        },
{
    let mut starts: Vec<(u32, u32)> = Vec::new();
    let mut address: u32 = 0;
    let mut k: usize = 0;
    while k < fs.len()
        invariant
            0 <= k <= fs@.len(),
            index_error_from(fs@, 0) == index_error_from(fs@, k as int),
            address == body_start(fs@, k as nat),
            starts@.len() == k,
            forall|j: int| 0 <= j < k ==> #[trigger] starts@[j] == entry_starts(fs@)[j],
        decreases fs@.len() - k,
    {
        let f = &fs[k];
        if k > u32::MAX as usize {
            return Err(ResolveError::ValueTooLarge);
        }
        if repeats_function_name(fs, k) {
            return Err(ResolveError::DuplicateFunction);
        }
        if f.body.len() == 0 {
            return Err(ResolveError::EmptyFunction);
        }
        if f.params.len() > u32::MAX as usize || f.body.len() > u32::MAX as usize {
            return Err(ResolveError::ValueTooLarge);
        }
        if address as u64 + f.body.len() as u64 > u32::MAX as u64 {
            return Err(ResolveError::ProgramTooLarge);
        }
        assert(index_error_at(fs@, k as int) is None);
        starts.push((address, f.params.len() as u32));
        address = address + f.body.len() as u32;
        k += 1;
    }
    assert(starts@ == entry_starts(fs@));
    Ok(starts)
}

/// With no first-pass error, every function passes the first pass.
proof fn lemma_index_ok(fs: Seq<ParsedFunction>, k: int, i: int)
    requires
        0 <= k <= i < fs.len(),
        index_error_from(fs, k) is None,
    ensures
        index_error_at(fs, i) is None,
    decreases i - k,
{
    if k < i {
        lemma_index_ok(fs, k + 1, i);
    }
}

/// Lowering a body appends one instruction per instruction.
proof fn lemma_lower_length(
    strings: Seq<Seq<char>>,
    code: Seq<RuntimeInstruction>,
    body: Seq<SurfaceInstruction>,
    k: int,
    label_names: Seq<Seq<char>>,
    label_addresses: Seq<u32>,
    fs: Seq<ParsedFunction>,
    starts: Seq<(u32, u32)>,
    floats: Seq<FloatConstant>,
)
    requires
        0 <= k <= body.len(),
    ensures
        lower_from(strings, code, body, k, label_names, label_addresses, fs, starts, floats) matches Ok((s, c)) ==> c.len() == code.len() + body.len() - k,
    decreases body.len() - k,
{
    if k < body.len() {
        let (s, r) = lower_spec(strings, body[k], label_names, label_addresses, fs, starts, floats);
        if let Ok(i) = r {
            lemma_lower_length(s, code.push(i), body, k + 1, label_names, label_addresses, fs, starts, floats);
        }
    }
}

/// Whether parameter `k` of `f` repeats the name of an earlier parameter.
fn repeats_param_name(f: &ParsedFunction, k: usize) -> (b: bool)
    requires
        k < f.params@.len(),
    ensures
        b == exists|j: int| 0 <= j < k && #[trigger] f.params@[j].name.0@ == f.params@[k as int].name.0@,
{
    let mut j: usize = 0;
    while j < k
        invariant
            k < f.params@.len(),
            0 <= j <= k,
            forall|i: int| 0 <= i < j ==> #[trigger] f.params@[i].name.0@ != f.params@[k as int].name.0@,
        decreases k - j,
    {
        if same_text(f.params[j].name.as_str(), f.params[k].name.as_str()) {
            return true;
        }
        j += 1;
    }
    false
}

/// The labels and local count that the first pass over a function found.
struct Scope {
    label_names: Vec<String>,
    label_addresses: Vec<u32>,
    local_count: u32,
}

impl Resolver {
    /// The first pass over function `f` at address `start`: records and
    /// interns its labels (module-wide in `labels`) and counts its locals.
    fn function_scope(&mut self, f: &ParsedFunction, start: u32, labels: &mut Vec<LabelInfo>) -> (r: Result<Scope, ResolveError>)
        requires
            start + f.body@.len() <= u32::MAX,
            f.params@.len() <= u32::MAX,
        ensures
            match function_scope_spec(old(self)@, old(labels)@, *f, start as int) {
                Ok(sc) => r matches Ok(scope) && final(self)@ == sc.strings && final(labels)@ == sc.labels
                    && scope.label_names@.len() == scope.label_addresses@.len()
                    && texts(scope.label_names@) == sc.label_names && scope.label_addresses@ == sc.label_addresses
                    && scope.local_count == sc.local_count,
                Err(e) => r == Err::<Scope, ResolveError>(e),
            },
    {
        let ghost name = f.name.0@;
        let ghost body = f.body@;
        let ghost init = ScopeView {
            strings: self@,
            labels: labels@,
            label_names: Seq::empty(),
            label_addresses: Seq::empty(),
            local_count: f.params@.len() as int,
        };
        let mut label_names: Vec<String> = Vec::new();
        let mut label_addresses: Vec<u32> = Vec::new();
        let mut local_count: u32 = f.params.len() as u32;
        let mut k: usize = 0;
        assert(texts(label_names@) == Seq::<Seq<char>>::empty());
        while k < f.body.len()
            invariant
                0 <= k <= body.len(),
                body == f.body@,
                name == f.name.0@,
                init == (ScopeView {
                    strings: old(self)@,
                    labels: old(labels)@,
                    label_names: Seq::empty(),
                    label_addresses: Seq::empty(),
                    local_count: f.params@.len() as int,
                }),
                start + body.len() <= u32::MAX,
                label_names@.len() == label_addresses@.len(),
                scope_from(init, name, body, start as int, 0) == scope_from(
                    ScopeView {
                        strings: self@,
                        labels: labels@,
                        label_names: texts(label_names@),
                        label_addresses: label_addresses@,
                        local_count: local_count as int,
                    },
                    name,
                    body,
                    start as int,
                    k as int,
                ),
            decreases body.len() - k,
        {
            let ghost before = ScopeView {
                strings: self@,
                labels: labels@,
                label_names: texts(label_names@),
                label_addresses: label_addresses@,
                local_count: local_count as int,
            };
            let address = start + k as u32;
            let inst = &f.body[k];
            if let SurfaceInstruction::Label(l) = inst {
                assert(body[k as int] == SurfaceInstruction::Label(*l));
                if find_label(&label_names, &label_addresses, l.as_str()).is_some() {
                    assert(scope_step(before, name, body[k as int], start + k) == Err::<
                        ScopeView,
                        ResolveError,
                    >(ResolveError::DuplicateLabel));
                    assert(scope_from(before, name, body, start as int, k as int) == Err::<
                        ScopeView,
                        ResolveError,
                    >(ResolveError::DuplicateLabel));
                    assert(scope_from(init, name, body, start as int, 0) == Err::<
                        ScopeView,
                        ResolveError,
                    >(ResolveError::DuplicateLabel));
                    return Err(ResolveError::DuplicateLabel);
                }
                let mut qualified_name = f.name.0.clone();
                let sep = "::";
                proof {
                    reveal_strlit("::");
                }
                qualified_name.append(sep);
                qualified_name.append(l.as_str());
                assert(qualified_name@ == qualified(name, l.0@));
                let index = match self.intern(qualified_name.as_str()) {
                    Ok(index) => index,
                    Err(e) => {
                        assert(scope_step(before, name, body[k as int], start + k) == Err::<
                            ScopeView,
                            ResolveError,
                        >(e));
                        return Err(e);
                    },
                };
                labels.push(LabelInfo { address, name: index });
                let ghost old_names = label_names@;
                label_names.push(l.0.clone());
                label_addresses.push(address);
                assert(texts(label_names@) == texts(old_names).push(l.0@));
            }
            match inst.referenced_local() {
                Some(x) => {
                    if x == u32::MAX {
                        return Err(ResolveError::LocalIndexTooLarge);
                    }
                    if x + 1 > local_count {
                        local_count = x + 1;
                    }
                },
                None => {},
            }
            k += 1;
        }
        if local_count > 4096 {
            return Err(ResolveError::TooManyLocals);
        }
        Ok(Scope { label_names, label_addresses, local_count })
    }

    /// Resolves the parameters of `f`: names must differ, and each is
    /// interned.
    fn signature(&mut self, f: &ParsedFunction) -> (r: Result<Signature, ResolveError>)
        ensures
            match params_from(old(self)@, Seq::empty(), f.params@, 0) {
                Ok((s, ps)) => r matches Ok(sig) && final(self)@ == s && sig.params@ == ps
                    && sig.ret@ == return_types(f.return_ty),
                Err(e) => r == Err::<Signature, ResolveError>(e),
            },
    {
        let ghost ps = f.params@;
        let ghost start_strings = self@;
        let mut params: Vec<Parameter> = Vec::new();
        let mut k: usize = 0;
        while k < f.params.len()
            invariant
                0 <= k <= ps.len(),
                ps == f.params@,
                start_strings == old(self)@,
                params_from(start_strings, Seq::empty(), ps, 0) == params_from(self@, params@, ps, k as int),
            decreases ps.len() - k,
        {
            let p = &f.params[k];
            if repeats_param_name(f, k) {
                return Err(ResolveError::DuplicateParameter);
            }
            let ghost strings_before = self@;
            let ghost params_before = params@;
            assert(!exists|i: int| 0 <= i < k && #[trigger] ps[i].name.0@ == ps[k as int].name.0@);
            let name = match self.intern(p.name.as_str()) {
                Ok(n) => n,
                Err(e) => {
                    assert(params_from(strings_before, params_before, ps, k as int) == Err::<
                        (Seq<Seq<char>>, Seq<Parameter>),
                        ResolveError,
                    >(e));
                    return Err(e);
                },
            };
            params.push(Parameter { name, ty: runtime_type(p.ty) });
            k += 1;
        }
        let mut ret: Vec<Type> = Vec::new();
        if let Some(t) = f.return_ty {
            ret.push(runtime_type(t));
        }
        assert(ret@ == return_types(f.return_ty));
        Ok(Signature { params, ret })
    }
}

/// The views of resolved functions.
pub open spec fn function_views(v: Seq<FunctionInfo>) -> Seq<FunctionView> {
    v.map_values(|f: FunctionInfo| function_view(f))
}

impl Resolver {
    /// Lowers the body of `f` onto `code`.
    fn lower_body(
        &mut self,
        f: &ParsedFunction,
        code: &mut Vec<RuntimeInstruction>,
        label_names: &Vec<String>,
        label_addresses: &Vec<u32>,
        fs: &Vec<ParsedFunction>,
        starts: &Vec<(u32, u32)>,
        floats: &[FloatConstant],
    ) -> (r: Result<(), ResolveError>)
        requires
            label_names@.len() == label_addresses@.len(),
            starts@.len() == fs@.len(),
            fs@.len() <= u32::MAX + 1,
        ensures
            match lower_from(old(self)@, old(code)@, f.body@, 0, texts(label_names@), label_addresses@, fs@, starts@, floats@) {
                Ok((s, c)) => r is Ok && final(self)@ == s && final(code)@ == c,
                Err(e) => r == Err::<(), ResolveError>(e),
            },
    {
        let ghost body = f.body@;
        let ghost names = texts(label_names@);
        let mut k: usize = 0;
        while k < f.body.len()
            invariant
                0 <= k <= body.len(),
                body == f.body@,
                names == texts(label_names@),
                label_names@.len() == label_addresses@.len(),
                starts@.len() == fs@.len(),
                fs@.len() <= u32::MAX + 1,
                lower_from(old(self)@, old(code)@, body, 0, names, label_addresses@, fs@, starts@, floats@)
                    == lower_from(self@, code@, body, k as int, names, label_addresses@, fs@, starts@, floats@),
            decreases body.len() - k,
        {
            match self.lower(&f.body[k], label_names, label_addresses, fs, starts, floats) {
                Ok(i) => {
                    code.push(i);
                },
                Err(e) => {
                    return Err(e);
                },
            }
            k += 1;
        }
        Ok(())
    }

    /// The second pass over function `f`: scopes its labels and locals,
    /// resolves its signature, lowers its body onto `code` and records it in
    /// `functions`.
    fn resolve_function(
        &mut self,
        f: &ParsedFunction,
        fs: &Vec<ParsedFunction>,
        starts: &Vec<(u32, u32)>,
        floats: &[FloatConstant],
        code: &mut Vec<RuntimeInstruction>,
        functions: &mut Vec<FunctionInfo>,
        labels: &mut Vec<LabelInfo>,
    ) -> (r: Result<(), ResolveError>)
        requires
            starts@.len() == fs@.len(),
            fs@.len() <= u32::MAX + 1,
            old(code)@.len() + f.body@.len() <= u32::MAX,
            f.params@.len() <= u32::MAX,
        ensures
            match resolve_function_spec(
                ResolveState {
                    strings: old(self)@,
                    code: old(code)@,
                    functions: function_views(old(functions)@),
                    labels: old(labels)@,
                },
                *f,
                fs@,
                starts@,
                floats@,
            ) {
                Ok(st) => r is Ok && final(self)@ == st.strings && final(code)@ == st.code
                    && function_views(final(functions)@) == st.functions && final(labels)@ == st.labels
                    && final(code)@.len() == old(code)@.len() + f.body@.len(),
                Err(e) => r == Err::<(), ResolveError>(e),
            },
    {
        proof {
            reveal(resolve_function_spec);
        }
        let start = code.len() as u32;
        let scope = match self.function_scope(f, start, labels) {
            Ok(scope) => scope,
            Err(e) => return Err(e),
        };
        let signature = match self.signature(f) {
            Ok(signature) => signature,
            Err(e) => return Err(e),
        };
        proof {
            reveal_strlit("main");
        }
        let is_main = same_text(f.name.as_str(), "main");
        assert("main"@ =~= seq!['m', 'a', 'i', 'n']);
        let mut local_count = scope.local_count;
        if is_main {
            if !(signature.params.len() == 2 && signature.params[0].ty == Type::U64
                && signature.params[1].ty == Type::U64 && signature.ret.len() == 1
                && signature.ret[0] == Type::U64) {
                assert(!entry_signature(signature.params@, signature.ret@));
                return Err(ResolveError::InvalidEntrySignature);
            }
            assert(signature.ret@ == seq![Type::U64]);
            if local_count < 4 {
                local_count = 4;
            }
        }
        let ghost s2 = self@;
        let ghost code_before = code@;
        match self.lower_body(f, code, &scope.label_names, &scope.label_addresses, fs, starts, floats) {
            Ok(()) => {},
            Err(e) => return Err(e),
        }
        proof {
            lemma_lower_length(s2, code_before, f.body@, 0, texts(scope.label_names@), scope.label_addresses@, fs@, starts@, floats@);
        }
        let name = match self.intern(f.name.as_str()) {
            Ok(name) => name,
            Err(e) => return Err(e),
        };
        let end = code.len();
        let info = FunctionInfo { name, signature, local_count, start_address: start, end_address: end as u32, file: 0 };
        let ghost old_functions = functions@;
        functions.push(info);
        assert(function_views(functions@) == function_views(old_functions).push(function_view(info)));
        Ok(())
    }
}

/// Resolves a parsed module: assigns function indices and entry addresses,
/// checks for `main`, then scopes, lowers and records every function in
/// order. Float constants take their words from `floats`.
pub fn resolve_module(parsed: &ParsedModule, floats: &[FloatConstant]) -> (r: Result<Module, ResolveError>)
    ensures
        match resolve_module_spec(*parsed, floats@) {
            Ok(mv) => r matches Ok(m) && module_view(m) == mv,
            Err(e) => r == Err::<Module, ResolveError>(e),
        },
{
    let fs = &parsed.functions;
    let starts = match function_index(fs) {
        Ok(starts) => starts,
        Err(e) => return Err(e),
    };
    proof {
        reveal_strlit("main");
        assert("main"@ =~= seq!['m', 'a', 'i', 'n']);
        if fs@.len() > 0 {
            lemma_index_ok(fs@, 0, fs@.len() - 1);
        }
    }
    let main = match find_function(fs, "main") {
        Some(k) => k,
        None => return Err(ResolveError::MissingMain),
    };
    proof {
        lemma_index_ok(fs@, 0, main as int);
    }
    let mut resolver = Resolver::new();
    let mut code: Vec<RuntimeInstruction> = Vec::new();
    let mut functions: Vec<FunctionInfo> = Vec::new();
    let mut labels: Vec<LabelInfo> = Vec::new();
    let ghost init = ResolveState {
        strings: Seq::empty(),
        code: Seq::empty(),
        functions: Seq::empty(),
        labels: Seq::empty(),
    };
    assert(function_views(functions@) == Seq::<FunctionView>::empty());
    let mut k: usize = 0;
    while k < fs.len()
        invariant
            0 <= k <= fs@.len(),
            fs == &parsed.functions,
            fs@.len() <= u32::MAX + 1,
            main <= u32::MAX,
            first_index(fn_names(fs@), seq!['m', 'a', 'i', 'n']) == Some(main as int),
            init == (ResolveState {
                strings: Seq::empty(),
                code: Seq::empty(),
                functions: Seq::empty(),
                labels: Seq::empty(),
            }),
            index_error_from(fs@, 0) is None,
            starts@ == entry_starts(fs@),
            code@.len() == body_start(fs@, k as nat),
            resolve_from(init, fs@, 0, floats@) == resolve_from(
                ResolveState {
                    strings: resolver@,
                    code: code@,
                    functions: function_views(functions@),
                    labels: labels@,
                },
                fs@,
                k as int,
                floats@,
            ),
        decreases fs@.len() - k,
    {
        proof {
            lemma_index_ok(fs@, 0, k as int);
        }
        match resolver.resolve_function(&fs[k], fs, &starts, floats, &mut code, &mut functions, &mut labels) {
            Ok(()) => {},
            Err(e) => return Err(e),
        }
        k += 1;
    }
    let strings = resolver.strings;
    Ok(Module { main_function: Some(main as u32), code, functions, labels, strings })
}

/// Resolving one function appends its body to the code and one record,
/// which spans exactly that body, to the functions.
proof fn lemma_resolve_function_shape(
    st: ResolveState,
    f: ParsedFunction,
    fs: Seq<ParsedFunction>,
    starts: Seq<(u32, u32)>,
    floats: Seq<FloatConstant>,
)
    requires
        resolve_function_spec(st, f, fs, starts, floats) is Ok,
    ensures
        ({
            let next = resolve_function_spec(st, f, fs, starts, floats)->Ok_0;
            &&& next.code.len() == st.code.len() + f.body@.len()
            &&& next.functions.len() == st.functions.len() + 1
            &&& next.functions.drop_last() == st.functions
            &&& next.functions.last().start_address == st.code.len()
            &&& next.functions.last().end_address == next.code.len()
        }),
{
    reveal(resolve_function_spec);
    let start = st.code.len() as int;
    let sc = function_scope_spec(st.strings, st.labels, f, start)->Ok_0;
    let (s2, params) = params_from(sc.strings, Seq::empty(), f.params@, 0)->Ok_0;
    lemma_lower_length(s2, st.code, f.body@, 0, sc.label_names, sc.label_addresses, fs, starts, floats);
    let next = resolve_function_spec(st, f, fs, starts, floats)->Ok_0;
    assert(next.functions.drop_last() == st.functions);
}

/// The layout that the second pass keeps: after `k` functions, function `j`
/// spans its first-pass addresses.
pub open spec fn laid_out(st: ResolveState, fs: Seq<ParsedFunction>, k: int) -> bool {
    &&& st.code.len() == body_start(fs, k as nat)
    &&& st.functions.len() == k
    &&& forall|j: int| 0 <= j < k ==> {
        &&& (#[trigger] st.functions[j]).start_address == body_start(fs, j as nat)
        &&& st.functions[j].end_address == body_start(fs, (j + 1) as nat)
    }
}

/// The second pass keeps the layout to its end.
proof fn lemma_resolve_from_layout(st: ResolveState, fs: Seq<ParsedFunction>, k: int, floats: Seq<FloatConstant>)
    requires
        0 <= k <= fs.len(),
        index_error_from(fs, 0) is None,
        laid_out(st, fs, k),
        resolve_from(st, fs, k, floats) is Ok,
    ensures
        laid_out(resolve_from(st, fs, k, floats)->Ok_0, fs, fs.len() as int),
    decreases fs.len() - k,
{
    if k < fs.len() {
        lemma_index_ok(fs, 0, k);
        let next = resolve_function_spec(st, fs[k], fs, entry_starts(fs), floats)->Ok_0;
        lemma_resolve_function_shape(st, fs[k], fs, entry_starts(fs), floats);
        assert forall|j: int| 0 <= j < k + 1 implies {
            &&& (#[trigger] next.functions[j]).start_address == body_start(fs, j as nat)
            &&& next.functions[j].end_address == body_start(fs, (j + 1) as nat)
        } by {
            if j < k {
                assert(next.functions[j] == next.functions.drop_last()[j]);
            }
        }
        lemma_resolve_from_layout(next, fs, k + 1, floats);
    }
}

/// In a resolved module, function `i` occupies the code from its first-pass
/// entry address (the instructions of the functions before it) to the next
/// function's, the functions cover the code in order, and a call to
/// function `i` jumps to its entry address.
pub proof fn lemma_resolved_layout(m: ParsedModule, floats: Seq<FloatConstant>)
    requires
        resolve_module_spec(m, floats) is Ok,
    ensures
        ({
            let fs = m.functions@;
            let mv = resolve_module_spec(m, floats)->Ok_0;
            &&& mv.functions.len() == fs.len()
            &&& mv.code.len() == body_start(fs, fs.len())
            &&& forall|i: int| 0 <= i < fs.len() ==> {
                &&& (#[trigger] mv.functions[i]).start_address == body_start(fs, i as nat)
                &&& mv.functions[i].end_address == body_start(fs, (i + 1) as nat)
                &&& entry_starts(fs)[i].0 == mv.functions[i].start_address
            }
        }),
{
    let fs = m.functions@;
    let init = ResolveState {
        strings: Seq::empty(),
        code: Seq::empty(),
        functions: Seq::empty(),
        labels: Seq::empty(),
    };
    lemma_resolve_from_layout(init, fs, 0, floats);
    let st = resolve_from(init, fs, 0, floats)->Ok_0;
    assert forall|i: int| 0 <= i < fs.len() implies entry_starts(fs)[i].0 == (#[trigger] st.functions[i]).start_address by {
        lemma_index_ok(fs, 0, i);
        lemma_body_start_monotonic(fs, i, i + 1);
    }
}

/// Entry addresses grow with the function index.
proof fn lemma_body_start_monotonic(fs: Seq<ParsedFunction>, i: int, j: int)
    requires
        0 <= i <= j <= fs.len(),
    ensures
        body_start(fs, i as nat) <= body_start(fs, j as nat),
    decreases j - i,
{
    if i < j {
        lemma_body_start_monotonic(fs, i, j - 1);
    }
}

/// The branch targets of instruction `c` of `code` lie in `lo..hi`.
pub open spec fn targets_within(code: Seq<RuntimeInstruction>, c: int, lo: int, hi: int) -> bool {
    match code[c] {
        RuntimeInstruction::Branch(a) => lo <= a < hi,
        RuntimeInstruction::ConditionalBranch(a, b) => lo <= a < hi && lo <= b < hi,
        _ => true,
    }
}

/// The first pass records labels at addresses inside the function's body.
proof fn lemma_scope_addresses(st: ScopeView, name: Seq<char>, body: Seq<SurfaceInstruction>, start: int, k: int)
    requires
        0 <= k <= body.len(),
        0 <= start,
        start + body.len() <= u32::MAX,
        st.label_names.len() == st.label_addresses.len(),
        forall|j: int| 0 <= j < st.label_addresses.len() ==> start <= #[trigger] st.label_addresses[j] < start + body.len(),
        scope_from(st, name, body, start, k) is Ok,
    ensures
        ({
            let sc = scope_from(st, name, body, start, k)->Ok_0;
            &&& sc.label_names.len() == sc.label_addresses.len()
            &&& forall|j: int| 0 <= j < sc.label_addresses.len() ==> start <= #[trigger] sc.label_addresses[j] < start + body.len()
        }),
    decreases body.len() - k,
{
    if k < body.len() {
        let next = scope_step(st, name, body[k], start + k)->Ok_0;
        assert forall|j: int| 0 <= j < next.label_addresses.len() implies start <= #[trigger] next.label_addresses[j] < start + body.len() by {
            if j < st.label_addresses.len() {
                assert(next.label_addresses[j] == st.label_addresses[j]);
            }
        }
        lemma_scope_addresses(next, name, body, start, k + 1);
    }
}

/// Lowering keeps the code before it and resolves every branch of the body
/// to one of the function's label addresses.
proof fn lemma_lower_targets(
    strings: Seq<Seq<char>>,
    code: Seq<RuntimeInstruction>,
    body: Seq<SurfaceInstruction>,
    k: int,
    label_names: Seq<Seq<char>>,
    label_addresses: Seq<u32>,
    fs: Seq<ParsedFunction>,
    starts: Seq<(u32, u32)>,
    floats: Seq<FloatConstant>,
    lo: int,
    hi: int,
    base: int,
)
    requires
        0 <= k <= body.len(),
        0 <= base <= code.len(),
        label_names.len() == label_addresses.len(),
        forall|j: int| 0 <= j < label_addresses.len() ==> lo <= #[trigger] label_addresses[j] < hi,
        forall|t: int| base <= t < code.len() ==> #[trigger] targets_within(code, t, lo, hi),
        lower_from(strings, code, body, k, label_names, label_addresses, fs, starts, floats) is Ok,
    ensures
        ({
            let c = lower_from(strings, code, body, k, label_names, label_addresses, fs, starts, floats)->Ok_0.1;
            &&& c.subrange(0, code.len() as int) == code
            &&& forall|t: int| base <= t < c.len() ==> #[trigger] targets_within(c, t, lo, hi)
        }),
    decreases body.len() - k,
{
    if k < body.len() {
        let (s, r) = lower_spec(strings, body[k], label_names, label_addresses, fs, starts, floats);
        let i = r->Ok_0;
        let code2 = code.push(i);
        lemma_lowered_targets(strings, body[k], label_names, label_addresses, fs, starts, floats, lo, hi);
        assert(code2[code.len() as int] == i);
        assert(seq![i][0] == i);
        assert(targets_within(code2, code.len() as int, lo, hi));
        lemma_lower_length(s, code2, body, k + 1, label_names, label_addresses, fs, starts, floats);
        assert forall|t: int| base <= t < code2.len() implies targets_within(code2, t, lo, hi) by {
            if t < code.len() {
                assert(targets_within(code, t, lo, hi));
                assert(code2[t] == code[t]);
            }
        }
        lemma_lower_targets(s, code2, body, k + 1, label_names, label_addresses, fs, starts, floats, lo, hi, base);
        let c = lower_from(strings, code, body, k, label_names, label_addresses, fs, starts, floats)->Ok_0.1;
        assert(c.subrange(0, code2.len() as int) == code2);
        assert(c.subrange(0, code.len() as int) == code2.subrange(0, code.len() as int));
        assert(code2.subrange(0, code.len() as int) == code);
    } else {
        assert(code.subrange(0, code.len() as int) == code);
    }
}

/// A lowered instruction branches only to the function's label addresses.
#[verifier::spinoff_prover]
#[verifier::rlimit(50)]
proof fn lemma_lowered_targets(
    strings: Seq<Seq<char>>,
    i: SurfaceInstruction,
    label_names: Seq<Seq<char>>,
    label_addresses: Seq<u32>,
    fs: Seq<ParsedFunction>,
    starts: Seq<(u32, u32)>,
    floats: Seq<FloatConstant>,
    lo: int,
    hi: int,
)
    requires
        label_names.len() == label_addresses.len(),
        forall|j: int| 0 <= j < label_addresses.len() ==> lo <= #[trigger] label_addresses[j] < hi,
        lower_spec(strings, i, label_names, label_addresses, fs, starts, floats).1 is Ok,
    ensures
        targets_within(
            seq![lower_spec(strings, i, label_names, label_addresses, fs, starts, floats).1->Ok_0],
            0,
            lo,
            hi,
        ),
{
    reveal(lower_spec);
    let r = lower_spec(strings, i, label_names, label_addresses, fs, starts, floats).1->Ok_0;
    match i {
        SurfaceInstruction::Branch(x) => {
            lemma_first_index_bound(label_names, x.0@);
        },
        SurfaceInstruction::ConditionalBranch(x, y) => {
            lemma_first_index_bound(label_names, x.0@);
            lemma_first_index_bound(label_names, y.0@);
        },
        _ => {
            assert(!(r is Branch) && !(r is ConditionalBranch));
        },
    }
}

/// A found index lies within the searched sequence.
proof fn lemma_first_index_bound(s: Seq<Seq<char>>, v: Seq<char>)
    ensures
        first_index(s, v) matches Some(i) ==> 0 <= i < s.len() && s[i] == v,
    decreases s.len(),
{
    if s.len() > 0 {
        lemma_first_index_bound(s.drop_last(), v);
    }
}

/// Resolving one function leaves the earlier code as it was and resolves
/// every branch of the new code to an address inside the new code.
proof fn lemma_resolve_function_branches(
    st: ResolveState,
    f: ParsedFunction,
    fs: Seq<ParsedFunction>,
    starts: Seq<(u32, u32)>,
    floats: Seq<FloatConstant>,
)
    requires
        resolve_function_spec(st, f, fs, starts, floats) is Ok,
        st.code.len() + f.body@.len() <= u32::MAX,
    ensures
        ({
            let next = resolve_function_spec(st, f, fs, starts, floats)->Ok_0;
            &&& next.code.subrange(0, st.code.len() as int) == st.code
            &&& forall|t: int| st.code.len() <= t < next.code.len() ==> #[trigger] targets_within(
                next.code,
                t,
                st.code.len() as int,
                (st.code.len() + f.body@.len()) as int,
            )
        }),
{
    reveal(resolve_function_spec);
    let start = st.code.len() as int;
    let init = ScopeView {
        strings: st.strings,
        labels: st.labels,
        label_names: Seq::empty(),
        label_addresses: Seq::empty(),
        local_count: f.params@.len() as int,
    };
    lemma_scope_addresses(init, f.name.0@, f.body@, start, 0);
    let sc = function_scope_spec(st.strings, st.labels, f, start)->Ok_0;
    let (s2, params) = params_from(sc.strings, Seq::empty(), f.params@, 0)->Ok_0;
    lemma_lower_targets(
        s2,
        st.code,
        f.body@,
        0,
        sc.label_names,
        sc.label_addresses,
        fs,
        starts,
        floats,
        start,
        start + f.body@.len(),
        start,
    );
}

/// The branch targets of instruction `t` of `code` lie in function `j`.
pub open spec fn local_at(code: Seq<RuntimeInstruction>, fs: Seq<ParsedFunction>, j: int, t: int) -> bool {
    targets_within(code, t, body_start(fs, j as nat), body_start(fs, (j + 1) as nat))
}

/// After `k` functions, every branch targets the function that holds it.
pub open spec fn branches_local(st: ResolveState, fs: Seq<ParsedFunction>, k: int) -> bool {
    forall|j: int, t: int|
        0 <= j < k && body_start(fs, j as nat) <= t < body_start(fs, (j + 1) as nat) ==> #[trigger] local_at(st.code, fs, j, t)
}

/// The second pass keeps branches local to their functions.
proof fn lemma_resolve_from_branches(st: ResolveState, fs: Seq<ParsedFunction>, k: int, floats: Seq<FloatConstant>)
    requires
        0 <= k <= fs.len(),
        index_error_from(fs, 0) is None,
        laid_out(st, fs, k),
        branches_local(st, fs, k),
        resolve_from(st, fs, k, floats) is Ok,
    ensures
        branches_local(resolve_from(st, fs, k, floats)->Ok_0, fs, fs.len() as int),
    decreases fs.len() - k,
{
    if k < fs.len() {
        lemma_index_ok(fs, 0, k);
        let next = resolve_function_spec(st, fs[k], fs, entry_starts(fs), floats)->Ok_0;
        lemma_resolve_function_shape(st, fs[k], fs, entry_starts(fs), floats);
        lemma_resolve_function_branches(st, fs[k], fs, entry_starts(fs), floats);
        assert forall|j: int, t: int|
            0 <= j < k + 1 && body_start(fs, j as nat) <= t < body_start(fs, (j + 1) as nat) implies #[trigger] local_at(
            next.code,
            fs,
            j,
            t,
        ) by {
            if j < k {
                lemma_body_start_monotonic(fs, j + 1, k);
                lemma_body_start_monotonic(fs, 0, j);
                assert(0 <= t < st.code.len());
                assert(st.code.len() <= next.code.len());
                assert(next.code.subrange(0, st.code.len() as int) == st.code);
                assert(next.code[t] == st.code[t]);
                assert(local_at(st.code, fs, j, t));
            }
        }
        assert forall|j: int| 0 <= j < k + 1 implies {
            &&& (#[trigger] next.functions[j]).start_address == body_start(fs, j as nat)
            &&& next.functions[j].end_address == body_start(fs, (j + 1) as nat)
        } by {
            if j < k {
                assert(next.functions[j] == next.functions.drop_last()[j]);
            }
        }
        lemma_resolve_from_branches(next, fs, k + 1, floats);
    }
}

/// Labels are local to their function: in a resolved module, every branch
/// and conditional branch of function `i`'s code targets an address within
/// function `i`, even when several functions use the same label name.
pub proof fn lemma_branches_stay_in_function(m: ParsedModule, floats: Seq<FloatConstant>, i: int, t: int)
    requires
        resolve_module_spec(m, floats) is Ok,
        0 <= i < m.functions@.len(),
        resolve_module_spec(m, floats)->Ok_0.functions[i].start_address <= t,
        t < resolve_module_spec(m, floats)->Ok_0.functions[i].end_address,
    ensures
        targets_within(
            resolve_module_spec(m, floats)->Ok_0.code,
            t,
            resolve_module_spec(m, floats)->Ok_0.functions[i].start_address as int,
            resolve_module_spec(m, floats)->Ok_0.functions[i].end_address as int,
        ),
{
    let fs = m.functions@;
    let init = ResolveState {
        strings: Seq::empty(),
        code: Seq::empty(),
        functions: Seq::empty(),
        labels: Seq::empty(),
    };
    lemma_resolved_layout(m, floats);
    lemma_resolve_from_branches(init, fs, 0, floats);
    let st = resolve_from(init, fs, 0, floats)->Ok_0;
    assert(local_at(st.code, fs, i, t));
}

/// The header of a benchmark section, which must be empty.
#[derive(Debug, Clone, Copy, PartialEq, Eq)]
pub struct EmptyHeader;

impl EmptyHeader {
    /// Reads a section header: it may hold white space and nothing else.
    pub fn from_text(text: &str) -> (r: Result<EmptyHeader, ResolveError>)
        ensures
            r is Ok <==> forall|i: int| 0 <= i < text@.len() ==> is_white_space(#[trigger] text@[i]),
            r is Err ==> r == Err::<EmptyHeader, ResolveError>(ResolveError::HeaderNotEmpty),
    {
        let n = text.unicode_len();
        let mut i: usize = 0;
        while i < n
            invariant
                n == text@.len(),
                0 <= i <= n,
                forall|j: int| 0 <= j < i ==> is_white_space(#[trigger] text@[j]),
            decreases n - i,
        {
            if !white_space(text.get_char(i)) {
                return Err(ResolveError::HeaderNotEmpty);
            }
            i += 1;
        }
        Ok(EmptyHeader)
    }
}

} // verus!
