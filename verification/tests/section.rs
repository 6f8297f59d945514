use vihaco::container::{checked_add, context_range, parse_file, ContainerError};
use vihaco::section::SectionPath;

fn u16le(v: u16) -> Vec<u8> {
    v.to_le_bytes().to_vec()
}
fn u32le(v: u32) -> Vec<u8> {
    v.to_le_bytes().to_vec()
}
fn u64le(v: u64) -> Vec<u8> {
    v.to_le_bytes().to_vec()
}

fn file_header(context: &[u8]) -> Vec<u8> {
    let mut b = b"VHBC".to_vec();
    b.extend(u16le(1));
    b.extend(u16le(0));
    b.extend(u64le(context.len() as u64));
    b.extend_from_slice(context);
    b
}

/// A section with the given header, bytecode and children (name index,
/// encoded child section); children follow the child table.
fn section(header: &[u8], bytecode: &[u8], children: &[(u32, Vec<u8>)]) -> Vec<u8> {
    let table_end = 8 + 8 + header.len() + 8 + bytecode.len() + 4 + 12 * children.len();
    let total = table_end + children.iter().map(|(_, c)| c.len()).sum::<usize>();
    let mut b = u64le(total as u64);
    b.extend(u64le(header.len() as u64));
    b.extend_from_slice(header);
    b.extend(u64le(bytecode.len() as u64));
    b.extend_from_slice(bytecode);
    b.extend(u32le(children.len() as u32));
    let mut offset = table_end;
    for (name, child) in children {
        b.extend(u32le(*name));
        b.extend(u64le(offset as u64));
        offset += child.len();
    }
    for (_, child) in children {
        b.extend_from_slice(child);
    }
    b
}

#[test]
fn section_paths_name_their_components() {
    let root = SectionPath::root();
    assert!(root.is_root());
    assert!(root.components().is_empty());
    assert_eq!(root.local_name(), None);
    let child = root.child("a".to_string()).child("b".to_string());
    assert!(!child.is_root());
    assert_eq!(child.components(), &["a".to_string(), "b".to_string()]);
    assert_eq!(child.local_name(), Some("b"));
}

#[test]
fn parses_a_root_section_without_children() {
    let mut bytes = file_header(&[7, 8, 9]);
    bytes.extend(section(b"hd", &[1, 2, 3], &[]));
    let names: Vec<String> = vec![];
    let file = parse_file(&bytes, &names).unwrap();
    assert_eq!(file.context, 16..19);
    assert_eq!(file.root.section, 19..52);
    assert_eq!(file.root.header, 35..37);
    assert_eq!(file.root.bytecode, 45..48);
    assert!(file.root.children.is_empty());
    assert!(file.root.path.is_root());
    assert_eq!(context_range(&bytes).unwrap(), 16..19);
}

#[test]
fn parses_nested_children_with_their_paths() {
    let leaf = section(b"", &[5], &[]);
    let mid = section(b"m", &[], &[(1, leaf)]);
    let mut bytes = file_header(&[]);
    bytes.extend(section(b"", &[9, 9], &[(0, mid)]));
    let names = vec!["cpu".to_string(), "inner".to_string()];
    let file = parse_file(&bytes, &names).unwrap();
    assert_eq!(file.root.children.len(), 1);
    let mid = &file.root.children[0];
    assert_eq!(mid.path.components(), &["cpu".to_string()]);
    assert_eq!(mid.children.len(), 1);
    let leaf = &mid.children[0];
    assert_eq!(leaf.path.components(), &["cpu".to_string(), "inner".to_string()]);
    assert_eq!(leaf.bytecode.len(), 1);
    assert_eq!(bytes[leaf.bytecode.start], 5);
    assert_eq!(leaf.section.end, mid.section.end);
}

#[test]
fn refuses_malformed_headers() {
    let names: Vec<String> = vec![];
    assert_eq!(parse_file(b"VHB", &names).unwrap_err(), ContainerError::TruncatedHeader);
    let mut bad = file_header(&[]);
    bad[0] = b'X';
    bad.extend(section(b"", &[], &[]));
    assert_eq!(parse_file(&bad, &names).unwrap_err(), ContainerError::BadMagic);
    let mut v2 = b"VHBC".to_vec();
    v2.extend(u16le(2));
    v2.extend(u16le(0));
    v2.extend(u64le(0));
    assert_eq!(parse_file(&v2, &names).unwrap_err(), ContainerError::UnsupportedVersion(2));
    let mut flagged = b"VHBC".to_vec();
    flagged.extend(u16le(1));
    flagged.extend(u16le(3));
    flagged.extend(u64le(0));
    assert_eq!(parse_file(&flagged, &names).unwrap_err(), ContainerError::UnsupportedFlags(3));
    let mut long_context = b"VHBC".to_vec();
    long_context.extend(u16le(1));
    long_context.extend(u16le(0));
    long_context.extend(u64le(100));
    assert_eq!(parse_file(&long_context, &names).unwrap_err(), ContainerError::ContextOutOfBounds);
}

#[test]
fn refuses_bad_children_and_trailing_bytes() {
    let mut trailing = file_header(&[]);
    trailing.extend(section(b"", &[], &[]));
    trailing.push(0);
    let names = vec!["a".to_string(), "a".to_string(), "x/y".to_string(), "".to_string()];
    assert_eq!(parse_file(&trailing, &names).unwrap_err(), ContainerError::LengthMismatch);

    let mut missing = file_header(&[]);
    missing.extend(section(b"", &[], &[(9, section(b"", &[], &[]))]));
    assert_eq!(parse_file(&missing, &names).unwrap_err(), ContainerError::MissingSectionName(9));

    let mut nonlocal = file_header(&[]);
    nonlocal.extend(section(b"", &[], &[(2, section(b"", &[], &[]))]));
    assert_eq!(parse_file(&nonlocal, &names).unwrap_err(), ContainerError::NonLocalChildName);

    let mut empty = file_header(&[]);
    empty.extend(section(b"", &[], &[(3, section(b"", &[], &[]))]));
    assert_eq!(parse_file(&empty, &names).unwrap_err(), ContainerError::EmptyChildName);

    let mut dup = file_header(&[]);
    dup.extend(section(
        b"",
        &[],
        &[(0, section(b"", &[], &[])), (1, section(b"", &[], &[]))],
    ));
    assert_eq!(parse_file(&dup, &names).unwrap_err(), ContainerError::DuplicateChild);
}

#[test]
fn checked_add_reports_overflow() {
    assert_eq!(checked_add(2, 3), Ok(5));
    assert_eq!(checked_add(usize::MAX, 1), Err(ContainerError::Overflow));
}

#[test]
fn section_paths_display_as_slash_joined_components() {
    let root = SectionPath::default();
    assert!(root.is_root());
    assert_eq!(root.display_text(), "<root>");
    assert_eq!(root.child("cpu".to_string()).display_text(), "cpu");
    let leaf = root.child("cpu".to_string()).child("inner".to_string());
    assert_eq!(leaf.display_text(), "cpu/inner");
}
