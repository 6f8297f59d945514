use vihaco::sst::{parse_file, SstError};

fn sst(functions: &str) -> String {
    format!(
        "sst v1\n.section(root):\n.header(root):\n.header(root).\n.text(root):\n{functions}\n.text(root).\n.section(root).\n"
    )
}

fn offset_after(text: &str, marker: &str) -> usize {
    text.find(marker).unwrap() + marker.len()
}

#[test]
fn parses_the_benchmark_layout() {
    let text = sst("fn @main() { cpu::cpu.halt }");
    let file = parse_file(&text).unwrap();
    let header_start = offset_after(&text, ".header(root):\n");
    let text_start = offset_after(&text, ".text(root):\n");
    let text_end = text.find(".text(root).").unwrap();
    assert_eq!(file.root.header, header_start..header_start);
    assert_eq!(file.root.bytecode, text_start..text_end);
    assert_eq!(&text[file.root.bytecode.clone()], "fn @main() { cpu::cpu.halt }\n");
    let section_start = text.find(".section(root):").unwrap();
    assert_eq!(file.root.section, section_start..text.len());
    assert_eq!(file.context, section_start..section_start);
    assert!(file.root.path.is_root());
    assert!(file.root.children.is_empty());
}

#[test]
fn reads_the_context_and_nested_sections() {
    let text = "\n  sst v1\n.global:\nctx line\n.global.\n.section(root):\n\t.section(cpu):\n.text(cpu):\nbody\n.text(cpu).\n.section(cpu).\n.section(root).\n\n";
    let file = parse_file(text).unwrap();
    assert_eq!(&text[file.context.clone()], "ctx line\n");
    assert_eq!(file.root.children.len(), 1);
    let cpu = &file.root.children[0];
    assert_eq!(cpu.path.components(), &["cpu".to_string()]);
    assert_eq!(&text[cpu.bytecode.clone()], "body\n");
    let end_marker = text.find(".section(cpu).").unwrap();
    assert_eq!(cpu.header, end_marker..end_marker);
}

#[test]
fn offsets_count_bytes_and_lines_may_end_with_crlf() {
    let text = "sst v1\r\n.section(root):\r\n.text(root):\r\n\u{e9}t\u{e9}\r\n.text(root).\r\n.section(root).";
    let file = parse_file(text).unwrap();
    assert_eq!(&text[file.root.bytecode.clone()], "\u{e9}t\u{e9}\r\n");
    assert_eq!(file.root.section.end, text.len());
}

#[test]
fn refuses_malformed_files() {
    let cases: Vec<(String, SstError)> = vec![
        ("".to_string(), SstError::ExpectedVersion),
        (".section(root):\n.section(root).\n".to_string(), SstError::ExpectedVersion),
        ("sst v2\n.section(root):\n.section(root).\n".to_string(), SstError::UnsupportedVersion(2)),
        ("sst v1\n".to_string(), SstError::ExpectedContextOrSection),
        ("sst v1\nbody\n".to_string(), SstError::ExpectedContextOrSection),
        ("sst v1\n.global:\nx\n".to_string(), SstError::UnterminatedContext),
        ("sst v1\n.global:\n.global.\n".to_string(), SstError::ExpectedRootSection),
        ("sst v1\n.global:\n.global.\nbody\n".to_string(), SstError::ExpectedSection),
        ("sst v1\n.section(main):\n.section(main).\n".to_string(), SstError::RootNotNamedRoot),
        ("sst v1\n.section(root):\n".to_string(), SstError::UnterminatedSection),
        ("sst v1\n.section(root):\n.section(other).\n".to_string(), SstError::MismatchedSectionEnd),
        ("sst v1\n.section(root):\n.text(other):\n.text(other).\n.section(root).\n".to_string(), SstError::MismatchedMarker),
        ("sst v1\n.section(root):\n.text(root):\n.text(other).\n.section(root).\n".to_string(), SstError::MismatchedMarker),
        ("sst v1\n.section(root):\n.header(root):\n.header(root).\n.header(root):\n.header(root).\n.section(root).\n".to_string(), SstError::DuplicateHeader),
        ("sst v1\n.section(root):\n.text(root):\n.text(root).\n.text(root):\n.text(root).\n.section(root).\n".to_string(), SstError::DuplicateBytecode),
        ("sst v1\n.section(root):\n.section(a):\n.section(a).\n.section(a):\n.section(a).\n.section(root).\n".to_string(), SstError::DuplicateChild),
        ("sst v1\n.section(root):\n.section(a/b):\n.section(a/b).\n.section(root).\n".to_string(), SstError::NonLocalChildName),
        ("sst v1\n.section(root):\n.text(root):\nbody\n".to_string(), SstError::UnterminatedBlock),
        ("sst v1\n.section(root):\nbody\n.section(root).\n".to_string(), SstError::UnexpectedContent),
        ("sst v1\n.section(root):\n.section(root).\nmore\n".to_string(), SstError::TrailingContent),
        ("sst v1\n.global: x\n".to_string(), SstError::InvalidLine),
        ("sst v1 \n".to_string(), SstError::InvalidLine),
        ("sst v01\n".to_string(), SstError::InvalidLine),
    ];
    for (text, error) in cases {
        assert_eq!(parse_file(&text).unwrap_err(), error, "{text:?}");
    }
}

#[test]
fn unmatched_marker_shapes_are_body_text() {
    let text = "sst v1\n.section(root):\n.text(root):\n.section(a b):\nsst v99999\n.text(root).\n.section(root).\n";
    let file = parse_file(text).unwrap();
    assert_eq!(&text[file.root.bytecode.clone()], ".section(a b):\nsst v99999\n");
}

#[test]
fn sections_nest_in_text_order() {
    let text = "sst v1\n.global:\nctx\n.global.\n.section(root):\n.header(root):\nh\n.header(root).\n.section(a):\n.text(a):\nx\n.text(a).\n.section(a).\n.section(b):\n.section(b).\n.text(root):\ny\n.text(root).\n.section(root).\n";
    let file = parse_file(text).unwrap();
    let root = &file.root;
    assert!(file.context.end <= root.section.start);
    assert_eq!(root.section.end, text.len());
    assert!(root.section.start <= root.header.start && root.header.end <= root.section.end);
    assert!(root.section.start <= root.bytecode.start && root.bytecode.end <= root.section.end);
    assert_eq!(root.children.len(), 2);
    let (a, b) = (&root.children[0], &root.children[1]);
    assert!(root.header.end <= a.section.start);
    assert!(a.section.end <= b.section.start);
    assert!(b.section.end <= root.bytecode.start);
    assert_eq!(b.path.components(), &["b".to_string()]);
    assert!(a.section.start <= a.bytecode.start && a.bytecode.end <= a.section.end);
    assert_eq!(&text[a.bytecode.clone()], "x\n");
}
