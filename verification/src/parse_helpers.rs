//! CPU-specific spellings used by hand-written instruction parsers.
use vstd::prelude::*;
use crate::resolve::{Type, same_text};

verus! {

/// The type named by a `.<typename>` suffix of the typed arithmetic and
/// comparison spellings, such as the `.i64` of `add.i64`.
pub open spec fn cpu_type_spec(text: Seq<char>) -> Option<Type> {
    if text == ".i64"@ {
        Some(Type::I64)
    } else if text == ".u64"@ {
        Some(Type::U64)
    } else if text == ".u32"@ {
        Some(Type::U32)
    } else if text == ".f64"@ {
        Some(Type::F64)
    } else if text == ".bool"@ {
        Some(Type::Bool)
    } else {
        None
    }
}

/// Reads a `.<typename>` suffix: `.i64`, `.u64`, `.u32`, `.f64` or `.bool`.
pub fn cpu_type(text: &str) -> (r: Option<Type>)
    ensures
        r == cpu_type_spec(text@),
{
    if same_text(text, ".i64") {
        Some(Type::I64)
    } else if same_text(text, ".u64") {
        Some(Type::U64)
    } else if same_text(text, ".u32") {
        Some(Type::U32)
    } else if same_text(text, ".f64") {
        Some(Type::F64)
    } else if same_text(text, ".bool") {
        Some(Type::Bool)
    } else {
        None
    }
}

} // verus!
