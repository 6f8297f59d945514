use vihaco::surface::{SurfaceInstruction, SurfaceType, SurfaceValue};
use vihaco::surface_syntax::{parse_surface_instruction, parse_surface_type};

fn parse(input: &str) -> SurfaceInstruction {
    parse_surface_instruction(input)
        .unwrap_or_else(|| panic!("parse({input:?}) failed"))
}

fn parse_type(input: &str) -> SurfaceType {
    parse_surface_type(input).unwrap_or_else(|| panic!("parse_type({input:?}) failed"))
}

#[test]
fn parses_unit_variants() {
    assert!(matches!(parse("cpu.halt"), SurfaceInstruction::Halt));
    assert!(matches!(parse("cpu.print"), SurfaceInstruction::Print));
    assert!(matches!(parse("cpu.dup"), SurfaceInstruction::Dup));
    assert!(matches!(parse("cpu.breakpoint"), SurfaceInstruction::Breakpoint));
    assert!(matches!(parse("cpu.label @loop"), SurfaceInstruction::Label(name) if name.as_str() == "loop"));
    assert!(matches!(parse("cpu.func_start"), SurfaceInstruction::FunctionStart));
    assert!(matches!(parse("cpu.func_end"), SurfaceInstruction::FunctionEnd));
    assert!(matches!(parse("cpu.get_item"), SurfaceInstruction::GetItem));
    assert!(matches!(parse("cpu.not"), SurfaceInstruction::Not));
    assert!(matches!(parse("cpu.and"), SurfaceInstruction::And));
    assert!(matches!(parse("cpu.or"), SurfaceInstruction::Or));
    assert!(matches!(parse("cpu.xor"), SurfaceInstruction::Xor));
    assert!(matches!(parse("cpu.call_indirect"), SurfaceInstruction::IndirectCall));
    assert!(matches!(parse("cpu.ret 0"), SurfaceInstruction::Return(0)));
}

#[test]
fn parses_explicit_typed_variants() {
    assert!(matches!(parse("cpu.add_i32"), SurfaceInstruction::AddI32));
    assert!(matches!(parse("cpu.add_f32"), SurfaceInstruction::AddF32));
    assert!(matches!(parse("cpu.load_i64 7"), SurfaceInstruction::LoadI64(7)));
    assert!(matches!(parse("cpu.const_i64 42"), SurfaceInstruction::ConstI64(_)));
}

#[test]
fn parses_surface_types() {
    for (input, expected) in [
        ("undef", SurfaceType::Undefined),
        ("str", SurfaceType::String),
        ("bool", SurfaceType::Bool),
        ("i64", SurfaceType::I64),
        ("u32", SurfaceType::U32),
        ("u64", SurfaceType::U64),
        ("f64", SurfaceType::F64),
        ("fn_ref", SurfaceType::FunctionRef),
        ("heap_ref", SurfaceType::HeapRef),
    ] {
        assert_eq!(parse_type(input), expected, "input {input:?}");
    }
}

#[test]
fn parses_heap_alloc() {
    assert!(matches!(parse("cpu.heap_alloc 5"), SurfaceInstruction::HeapAlloc(5)));
}

#[test]
fn parses_span() {
    assert!(matches!(parse("cpu.span 0 1 2"), SurfaceInstruction::Span(0, 1, 2)));
}

#[test]
fn parses_symbolic_control_flow() {
    assert!(matches!(parse("cpu.br @body"), SurfaceInstruction::Branch(target) if target.as_str() == "body"));
    assert!(matches!(
        parse("cpu.cond_br @then, @else"),
        SurfaceInstruction::ConditionalBranch(then_target, else_target)
            if then_target.as_str() == "then" && else_target.as_str() == "else"
    ));
    assert!(matches!(parse("cpu.call 2, main"), SurfaceInstruction::Call(2, target) if target.as_str() == "main"));
}

#[test]
fn rejects_malformed_quoted_value_instead_of_treating_it_as_bare() {
    assert!(parse_surface_instruction("cpu.const str, \"unterminated").is_none());
    assert!(parse_surface_instruction("cpu.const_string \"unterminated").is_none());
}

#[test]
fn parses_constants_as_bare_tokens_or_quoted_strings() {
    assert!(matches!(
        parse("cpu.const_string \"hello world\""),
        SurfaceInstruction::ConstString(SurfaceValue::Quoted(q)) if q.as_str() == "hello world"
    ));
    assert!(matches!(
        parse("cpu.const_fn_ref @main"),
        SurfaceInstruction::ConstFunctionRef(SurfaceValue::Bare(b)) if b.as_str() == "@main"
    ));
    assert!(matches!(
        parse("cpu.const_f64 -1.5e3"),
        SurfaceInstruction::ConstF64(SurfaceValue::Bare(b)) if b.as_str() == "-1.5e3"
    ));
    assert!(matches!(
        parse("cpu.const_bool true"),
        SurfaceInstruction::ConstBool(SurfaceValue::Bare(b)) if b.as_str() == "true"
    ));
}

#[test]
fn every_load_and_store_takes_an_index() {
    assert!(matches!(parse("cpu.store_bool 3"), SurfaceInstruction::StoreBool(3)));
    assert!(matches!(parse("cpu.load_f32 4294967295"), SurfaceInstruction::LoadF32(u32::MAX)));
    assert!(matches!(parse("cpu.rol_u64"), SurfaceInstruction::RolU64));
    assert!(matches!(parse("cpu.ge_f64"), SurfaceInstruction::GeF64));
}

#[test]
fn malformed_instructions_are_rejected() {
    for bad in [
        "",
        "cpu.",
        "halt",
        "gpu.halt",
        "cpu.halt 1",
        "cpu.halt ",
        " cpu.halt",
        "cpu.ret",
        "cpu.ret x",
        "cpu.ret 01",
        "cpu.ret 1 2",
        "cpu.span 1 2",
        "cpu.label loop",
        "cpu.label @",
        "cpu.br @a@b",
        "cpu.cond_br @a @b",
        "cpu.call 2 main",
        "cpu.call 2, @main",
        "cpu.add_i128",
        "cpu.const_i64",
        "cpu.ret,1",
    ] {
        assert!(parse_surface_instruction(bad).is_none(), "{bad:?}");
    }
}

#[test]
fn white_space_around_the_comma_is_optional() {
    assert!(matches!(
        parse("cpu.cond_br @a ,@b"),
        SurfaceInstruction::ConditionalBranch(a, b) if a.as_str() == "a" && b.as_str() == "b"
    ));
    assert!(matches!(parse("cpu.call 0 ,  f"), SurfaceInstruction::Call(0, f) if f.as_str() == "f"));
    assert!(matches!(parse("cpu.span  1\t2 3"), SurfaceInstruction::Span(1, 2, 3)));
}

#[test]
fn index_operands_are_whole_integer_literals() {
    assert!(parse_surface_instruction("cpu.ret 12x").is_none());
    assert!(parse_surface_instruction("cpu.ret 0999999999999").is_none());
    assert!(parse_surface_instruction("cpu.load_u64 007").is_none());
    assert_eq!(parse_surface_instruction("cpu.ret 4294967295"), Some(SurfaceInstruction::Return(u32::MAX)));
}
