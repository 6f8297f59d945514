use vihaco::parse_helpers::cpu_type;
use vihaco::resolve::Type;

#[test]
fn cpu_type_suffixes_name_their_types() {
    assert_eq!(cpu_type(".i64"), Some(Type::I64));
    assert_eq!(cpu_type(".u64"), Some(Type::U64));
    assert_eq!(cpu_type(".u32"), Some(Type::U32));
    assert_eq!(cpu_type(".f64"), Some(Type::F64));
    assert_eq!(cpu_type(".bool"), Some(Type::Bool));
    assert_eq!(cpu_type("i64"), None);
    assert_eq!(cpu_type(".i32"), None);
    assert_eq!(cpu_type(".bool "), None);
    assert_eq!(cpu_type(""), None);
}
