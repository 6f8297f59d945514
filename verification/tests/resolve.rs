use vihaco::instruction::RuntimeInstruction as R;
use vihaco::resolve::{
    resolve_module, EmptyHeader, FloatConstant, ParsedFunction, ParsedModule, ParsedParameter, ResolveError,
    Resolver, Type,
};
use vihaco::surface::SurfaceType;
use vihaco::surface_syntax::parse_surface_instruction;
use vihaco::syntax::Ident;
use vihaco::word::{encode_function_ref, encode_i32, encode_string_id};

fn function(name: &str, params: &[(&str, SurfaceType)], ret: Option<SurfaceType>, body: &[&str]) -> ParsedFunction {
    ParsedFunction {
        name: Ident(name.to_string()),
        params: params
            .iter()
            .map(|(n, t)| ParsedParameter { name: Ident(n.to_string()), ty: *t })
            .collect(),
        return_ty: ret,
        body: body
            .iter()
            .map(|text| parse_surface_instruction(text).unwrap_or_else(|| panic!("{text}")))
            .collect(),
    }
}

fn main_fn(body: &[&str]) -> ParsedFunction {
    function(
        "main",
        &[("iterations", SurfaceType::U64), ("seed", SurfaceType::U64)],
        Some(SurfaceType::U64),
        body,
    )
}

fn module(functions: Vec<ParsedFunction>) -> ParsedModule {
    ParsedModule { functions }
}

fn resolve(functions: Vec<ParsedFunction>) -> Result<vihaco::resolve::Module, ResolveError> {
    resolve_module(&module(functions), &[])
}

#[test]
fn entry_point_and_function_local_labels_use_resolved_metadata() {
    let double = function(
        "double",
        &[("value", SurfaceType::U64)],
        Some(SurfaceType::U64),
        &["cpu.label @entry", "cpu.load_u64 0", "cpu.const_u64 2", "cpu.mul_u64", "cpu.ret 1"],
    );
    let main = main_fn(&[
        "cpu.br @entry",
        "cpu.const_u64 99",
        "cpu.label @entry",
        "cpu.load_u64 1",
        "cpu.call 1, double",
        "cpu.ret 1",
    ]);
    let m = resolve(vec![double, main]).unwrap();
    assert_eq!(m.main_function, Some(1));
    assert_eq!(m.labels.len(), 2);
    assert_eq!(m.functions[1].signature.params.len(), 2);
    assert_eq!(m.functions[0].start_address, 0);
    assert_eq!(m.functions[0].end_address, 5);
    assert_eq!(m.functions[1].start_address, 5);
    assert_eq!(m.functions[1].end_address, 11);
    assert_eq!(m.functions[1].local_count, 4);
    assert_eq!(m.functions[0].local_count, 1);
    assert!(matches!(m.code[5], R::Branch(7)));
    assert!(matches!(m.code[9], R::Call(1, 0)));
    assert_eq!(m.labels[0].address, 0);
    assert_eq!(m.labels[1].address, 7);
    assert_eq!(m.strings[m.labels[0].name as usize], "double::entry");
    assert_eq!(m.strings[m.labels[1].name as usize], "main::entry");
    assert_eq!(m.functions[1].signature.ret, vec![Type::U64]);
}

#[test]
fn forward_function_reference_resolves_to_an_index_not_an_address() {
    let main = main_fn(&["cpu.load_u64 1", "cpu.const_fn_ref @double", "cpu.call_indirect", "cpu.ret 1"]);
    let double = function(
        "double",
        &[("value", SurfaceType::U64)],
        Some(SurfaceType::U64),
        &["cpu.load_u64 0", "cpu.const_u64 2", "cpu.mul_u64", "cpu.ret 1"],
    );
    let m = resolve(vec![main, double]).unwrap();
    assert!(m.functions[1].start_address > 1);
    assert!(matches!(m.code[1], R::ConstFunctionRef(w) if w == encode_function_ref(1)));
}

#[test]
fn malformed_programs_fail_explicitly() {
    assert_eq!(resolve(vec![main_fn(&["cpu.br @missing"])]).unwrap_err(), ResolveError::UnknownLabel);
    assert_eq!(
        resolve(vec![main_fn(&["cpu.label @x", "cpu.label @x"])]).unwrap_err(),
        ResolveError::DuplicateLabel
    );
    assert_eq!(resolve(vec![main_fn(&["cpu.call 1, missing"])]).unwrap_err(), ResolveError::UnknownFunction);
    assert_eq!(resolve(vec![main_fn(&["cpu.const_u64 -1"])]).unwrap_err(), ResolveError::InvalidConstant);
    assert_eq!(resolve(vec![main_fn(&[])]).unwrap_err(), ResolveError::EmptyFunction);
    assert_eq!(
        resolve(vec![function("helper", &[], None, &["cpu.halt"])]).unwrap_err(),
        ResolveError::MissingMain
    );
    assert_eq!(
        resolve(vec![function("main", &[], None, &["cpu.halt"])]).unwrap_err(),
        ResolveError::InvalidEntrySignature
    );
}

#[test]
fn resolution_rejects_ambiguous_functions_and_cross_function_branches() {
    assert_eq!(
        resolve(vec![main_fn(&["cpu.halt"]), main_fn(&["cpu.halt"])]).unwrap_err(),
        ResolveError::DuplicateFunction
    );
    let helper = function("helper", &[], None, &["cpu.label @private", "cpu.ret 0"]);
    assert_eq!(resolve(vec![helper, main_fn(&["cpu.br @private"])]).unwrap_err(), ResolveError::UnknownLabel);
    let helper = function(
        "helper",
        &[("value", SurfaceType::U64)],
        Some(SurfaceType::U64),
        &["cpu.load_u64 0", "cpu.ret 1"],
    );
    assert_eq!(resolve(vec![helper, main_fn(&["cpu.call 0, helper"])]).unwrap_err(), ResolveError::ArityMismatch);
}

#[test]
fn loading_rejects_oversized_sources_and_allocations() {
    assert_eq!(resolve(vec![main_fn(&["cpu.load_u64 4096", "cpu.ret 1"])]).unwrap_err(), ResolveError::TooManyLocals);
    assert_eq!(
        resolve(vec![main_fn(&["cpu.store_u64 4294967295", "cpu.ret 1"])]).unwrap_err(),
        ResolveError::LocalIndexTooLarge
    );
    assert_eq!(
        resolve(vec![main_fn(&["cpu.heap_alloc 65537", "cpu.ret 1"])]).unwrap_err(),
        ResolveError::HeapAllocTooLarge
    );
    let m = resolve(vec![main_fn(&["cpu.load_u64 4095", "cpu.ret 1"])]).unwrap();
    assert_eq!(m.functions[0].local_count, 4096);
    assert!(resolve(vec![main_fn(&["cpu.heap_alloc 65536", "cpu.ret 1"])]).is_ok());
}

#[test]
fn constants_are_encoded_by_type() {
    let floats = [FloatConstant { ty: SurfaceType::F64, text: "2.5".to_string(), word: 2.5f64.to_bits() }];
    let main = main_fn(&[
        "cpu.const_string \"a;b\"",
        "cpu.const_string \"a;b\"",
        "cpu.const_i32 -7",
        "cpu.const_bool true",
        "cpu.const_f64 2.5",
        "cpu.const_heap_ref 3",
        "cpu.const_fn_ref 0",
        "cpu.ret 1",
    ]);
    let m = resolve_module(&module(vec![main]), &floats).unwrap();
    assert_eq!(m.strings.iter().filter(|s| *s == "a;b").count(), 1);
    let id = m.strings.iter().position(|s| s == "a;b").unwrap() as u32;
    assert!(matches!(m.code[0], R::ConstString(w) if w == encode_string_id(id)));
    assert!(matches!(m.code[1], R::ConstString(w) if w == encode_string_id(id)));
    assert!(matches!(m.code[2], R::ConstI32(w) if w == encode_i32(-7)));
    assert!(matches!(m.code[3], R::ConstBool(1)));
    assert!(matches!(m.code[4], R::ConstF64(w) if w == 2.5f64.to_bits()));
    assert!(matches!(m.code[5], R::ConstHeapRef(3)));
    assert!(matches!(m.code[6], R::ConstFunctionRef(0)));
}

#[test]
fn constant_errors_name_their_cause() {
    for (body, error) in [
        ("cpu.const_u32 4294967296", ResolveError::InvalidConstant),
        ("cpu.const_i64 \"7\"", ResolveError::QuotedNonString),
        ("cpu.const_fn_ref 5", ResolveError::FunctionRefOutOfBounds),
        ("cpu.const_fn_ref @nowhere", ResolveError::UnknownFunction),
        ("cpu.const_f32 1.5", ResolveError::InvalidConstant),
        ("cpu.const_bool yes", ResolveError::InvalidConstant),
    ] {
        assert_eq!(resolve(vec![main_fn(&[body, "cpu.ret 1"])]).unwrap_err(), error, "{body}");
    }
}

#[test]
fn duplicate_parameters_are_rejected() {
    let f = function("f", &[("x", SurfaceType::U64), ("x", SurfaceType::I32)], None, &["cpu.ret 0"]);
    assert_eq!(resolve(vec![f, main_fn(&["cpu.halt"])]).unwrap_err(), ResolveError::DuplicateParameter);
}

#[test]
fn interning_returns_the_first_index() {
    let mut r = Resolver::new();
    assert_eq!(r.intern("a"), Ok(0));
    assert_eq!(r.intern("b"), Ok(1));
    assert_eq!(r.intern("a"), Ok(0));
    assert_eq!(r.strings(), &vec!["a".to_string(), "b".to_string()]);
}

#[test]
fn empty_headers_hold_only_white_space() {
    assert!(EmptyHeader::from_text("").is_ok());
    assert!(EmptyHeader::from_text(" \n\t ").is_ok());
    assert!(matches!(EmptyHeader::from_text(" x "), Err(ResolveError::HeaderNotEmpty)));
}
