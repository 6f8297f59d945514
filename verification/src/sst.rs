//! The textual program container (SST): a version line, an optional
//! program context, and a tree of named sections with header and bytecode
//! blocks, one marker per line.
//!
//! ```text
//! sst v1
//! .global:
//! (context)
//! .global.
//! .section(root):
//! .header(root):
//! (header)
//! .header(root).
//! .text(root):
//! (bytecode)
//! .text(root).
//! .section(root).
//! ```
//!
//! Lines end at `\n`; a `\r` before it and tabs that open a line are not
//! part of its content, and spaces that open the content are skipped. A
//! line that starts like a marker must be exactly that marker; any other
//! non-empty line is body text, and an empty one is blank. Ranges are byte
//! offsets into the text: a block's range runs from the end of its opening
//! marker line to the start of its closing one.
use vstd::prelude::*;
use std::ops::Range;
use crate::container::FileView;
use crate::lexical::{digits_value, is_digit, is_white_space};
use crate::section::{NodeView, ParsedFile, SectionNode, SectionPath, lemma_nodes_match_push, node_matches, nodes_match};

verus! {

/// Why an SST text was refused.
#[derive(Debug, Clone, Copy, PartialEq, Eq, Structural)]
pub enum SstError {
    /// A line starts like a marker but is not one.
    InvalidLine,
    /// The first non-blank line is not `sst v` and a number.
    ExpectedVersion,
    /// The version is not 1.
    UnsupportedVersion(u16),
    /// The version line is not followed by `.global:` or a section.
    ExpectedContextOrSection,
    /// The context has no `.global.` line.
    UnterminatedContext,
    /// Nothing follows the context.
    ExpectedRootSection,
    /// A section was expected and another line was found.
    ExpectedSection,
    /// The outermost section is not named `root`.
    RootNotNamedRoot,
    /// A child section's name contains `/`.
    NonLocalChildName,
    /// A section has no closing marker.
    UnterminatedSection,
    /// A section is closed by the marker of another name.
    MismatchedSectionEnd,
    /// A header or bytecode marker names another section.
    MismatchedMarker,
    /// A section has two headers.
    DuplicateHeader,
    /// A section has two bytecode blocks.
    DuplicateBytecode,
    /// A section has two children of one name.
    DuplicateChild,
    /// A header or bytecode block has no closing marker.
    UnterminatedBlock,
    /// A section holds a line other than a marker or a blank line.
    UnexpectedContent,
    /// Lines other than blank ones follow the root section.
    TrailingContent,
}

/// What a line is. Names are given as character ranges of the text.
#[derive(Debug, Clone, Copy, PartialEq, Eq, Structural)]
pub enum LineKind {
    Version(u16),
    BeginContext,
    EndContext,
    BeginSection(usize, usize),
    EndSection(usize, usize),
    BeginHeader(usize, usize),
    EndHeader(usize, usize),
    BeginBytecode(usize, usize),
    EndBytecode(usize, usize),
    Body,
    Blank,
}

/// A line: its kind and the byte range it covers, line break included.
pub struct LineView {
    pub kind: LineKind,
    pub start: int,
    pub end: int,
}

/// The number of bytes of `c` in UTF-8.
pub open spec fn char_width(c: char) -> nat {
    if c as u32 <= 0x7f {
        1
    } else if c as u32 <= 0x7ff {
        2
    } else if c as u32 <= 0xffff {
        3
    } else {
        4
    }
}

/// The number of bytes of `s` in UTF-8.
pub open spec fn utf8_len(s: Seq<char>) -> nat
    decreases s.len(),
{
    if s.len() == 0 {
        0
    } else {
        char_width(s[0]) + utf8_len(s.drop_first())
    }
}

/// The byte offset of character `i` of `s`.
pub open spec fn byte_pos(s: Seq<char>, i: int) -> int {
    utf8_len(s.take(i)) as int
}

/// A character of a section name: not white space and not `:`, `.`, `(`
/// or `)`.
pub open spec fn name_char(c: char) -> bool {
    !is_white_space(c) && c != ':' && c != '.' && c != '(' && c != ')'
}

/// The first index in `i..b` whose character fails `keep`, or `b`.
pub open spec fn run_end(s: Seq<char>, i: int, b: int, keep: spec_fn(char) -> bool) -> int
    decreases b - i,
{
    if i < 0 || i >= b || !keep(s[i]) {
        i
    } else {
        run_end(s, i + 1, b, keep)
    }
}

/// `s` holds `lit` at index `k`, before `b`.
pub open spec fn has_at(s: Seq<char>, k: int, b: int, lit: Seq<char>) -> bool {
    0 <= k && k + lit.len() <= b && s.subrange(k, k + lit.len()) == lit
}

/// A version number at `p`: `0`, or digits without a leading zero whose
/// value fits in `u16`. The result is the number and the index after it.
pub open spec fn version_number(s: Seq<char>, p: int, b: int) -> Option<(u16, int)> {
    if 0 <= p < b && s[p] == '0' {
        Some((0u16, p + 1))
    } else if 0 <= p < b && is_digit(s[p]) {
        let e = run_end(s, p, b, |c: char| is_digit(c));
        let v = digits_value(s.subrange(p, e));
        if v <= u16::MAX {
            Some((v as u16, e))
        } else {
            None
        }
    } else {
        None
    }
}

/// `sst`, spaces or tabs, `v` and a version number at `t`.
pub open spec fn version_marker(s: Seq<char>, t: int, b: int) -> Option<(u16, int)> {
    if has_at(s, t, b, "sst"@) {
        let w = t + 3;
        let w2 = run_end(s, w, b, |c: char| c == ' ' || c == '\t');
        if w2 > w && w2 < b && s[w2] == 'v' {
            version_number(s, w2 + 1, b)
        } else {
            None
        }
    } else {
        None
    }
}

/// `open`, a name and `close` at `t`: the index after `close` and the
/// name's range.
pub open spec fn named_marker(s: Seq<char>, t: int, b: int, open: Seq<char>, close: Seq<char>) -> Option<(int, int, int)> {
    if has_at(s, t, b, open) {
        let n0 = t + open.len();
        let n1 = run_end(s, n0, b, |c: char| name_char(c));
        if n1 > n0 && has_at(s, n1, b, close) {
            Some((n1 + close.len(), n0, n1))
        } else {
            None
        }
    } else {
        None
    }
}

/// A marker that ends at `e` is the whole line only if the line ends there.
pub open spec fn whole(e: int, b: int, k: LineKind) -> Option<LineKind> {
    if e == b {
        Some(k)
    } else {
        None
    }
}

/// The kind of the line content `a..b`, or `None` for an invalid line.
/// Markers are tried in order; the first one that matches the start of the
/// content decides.
pub open spec fn classify(s: Seq<char>, a: int, b: int) -> Option<LineKind> {
    let t = run_end(s, a, b, |c: char| c == ' ');
    match version_marker(s, t, b) {
        Some((v, e)) => whole(e, b, LineKind::Version(v)),
        None => if has_at(s, t, b, ".global:"@) {
            whole(t + ".global:"@.len(), b, LineKind::BeginContext)
        } else if has_at(s, t, b, ".global."@) {
            whole(t + ".global."@.len(), b, LineKind::EndContext)
        } else {
            match named_marker(s, t, b, ".section("@, "):"@) {
                Some((e, x, y)) => whole(e, b, LineKind::BeginSection(x as usize, y as usize)),
                None => match named_marker(s, t, b, ".section("@, ")."@) {
                    Some((e, x, y)) => whole(e, b, LineKind::EndSection(x as usize, y as usize)),
                    None => match named_marker(s, t, b, ".header("@, "):"@) {
                        Some((e, x, y)) => whole(e, b, LineKind::BeginHeader(x as usize, y as usize)),
                        None => match named_marker(s, t, b, ".header("@, ")."@) {
                            Some((e, x, y)) => whole(e, b, LineKind::EndHeader(x as usize, y as usize)),
                            None => match named_marker(s, t, b, ".text("@, "):"@) {
                                Some((e, x, y)) => whole(e, b, LineKind::BeginBytecode(x as usize, y as usize)),
                                None => match named_marker(s, t, b, ".text("@, ")."@) {
                                    Some((e, x, y)) => whole(e, b, LineKind::EndBytecode(x as usize, y as usize)),
                                    None => if t < b {
                                        Some(LineKind::Body)
                                    } else {
                                        Some(LineKind::Blank)
                                    },
                                },
                            },
                        },
                    },
                },
            }
        },
    }
}

/// The first index at or after `i` that holds `\n`, or the length.
pub open spec fn newline_at(s: Seq<char>, i: int) -> int
    decreases s.len() - i,
{
    if i < 0 || i >= s.len() || s[i] == '\n' {
        i
    } else {
        newline_at(s, i + 1)
    }
}

/// The lines of `s` from character `i` on, or `None` if one is invalid.
pub open spec fn lines_from(s: Seq<char>, i: int) -> Option<Seq<LineView>>
    decreases s.len() - i,
{
    if i < 0 || i >= s.len() {
        Some(Seq::empty())
    } else {
        let e = newline_at(s, i);
        let full_end = if e < s.len() { e + 1 } else { s.len() as int };
        let content_end = if e < s.len() && e > i && s[e - 1] == '\r' { e - 1 } else { e };
        let a = run_end(s, i, content_end, |c: char| c == '\t');
        match classify(s, a, content_end) {
            None => None,
            Some(k) => if full_end > i {
                match lines_from(s, full_end) {
                    None => None,
                    Some(rest) => Some(
                        seq![LineView { kind: k, start: byte_pos(s, i), end: byte_pos(s, full_end) }]
                            + rest,
                    ),
                }
            } else {
                None
            },
        }
    }
}

/// The first non-blank line at or after `p`, or the number of lines.
pub open spec fn significant(lines: Seq<LineView>, p: int) -> int
    decreases lines.len() - p,
{
    if p < 0 || p >= lines.len() || lines[p].kind != LineKind::Blank {
        p
    } else {
        significant(lines, p + 1)
    }
}

/// The first line at or after `p` that closes the context.
pub open spec fn context_end(lines: Seq<LineView>, p: int) -> int
    decreases lines.len() - p,
{
    if p < 0 || p >= lines.len() || lines[p].kind == LineKind::EndContext {
        p
    } else {
        context_end(lines, p + 1)
    }
}

/// The first line at or after `p` that closes a header (or, when
/// `bytecode`, a bytecode block) of any name.
pub open spec fn block_end(lines: Seq<LineView>, p: int, bytecode: bool) -> int
    decreases lines.len() - p,
{
    if p < 0 || p >= lines.len() {
        p
    } else if (bytecode && lines[p].kind is EndBytecode) || (!bytecode && lines[p].kind is EndHeader) {
        p
    } else {
        block_end(lines, p + 1, bytecode)
    }
}

/// The name of a marker line.
pub open spec fn marker_name(s: Seq<char>, k: LineKind) -> Seq<char> {
    match k {
        LineKind::BeginSection(x, y) => s.subrange(x as int, y as int),
        LineKind::EndSection(x, y) => s.subrange(x as int, y as int),
        LineKind::BeginHeader(x, y) => s.subrange(x as int, y as int),
        LineKind::EndHeader(x, y) => s.subrange(x as int, y as int),
        LineKind::BeginBytecode(x, y) => s.subrange(x as int, y as int),
        LineKind::EndBytecode(x, y) => s.subrange(x as int, y as int),
        _ => Seq::empty(),
    }
}

/// What a section has gathered before its closing marker.
pub struct SectionParts {
    pub header: Option<(int, int)>,
    pub bytecode: Option<(int, int)>,
    pub children: Seq<NodeView>,
    pub child_names: Seq<Seq<char>>,
}

/// The section whose opening marker is line `p`, with the index of the line
/// after it. Its path extends `parent` by its name, unless it is the root.
pub open spec fn section_at(s: Seq<char>, lines: Seq<LineView>, p: int, parent: Seq<Seq<char>>, root: bool) -> Result<(NodeView, int), SstError>
    decreases lines.len() - p, 1int,
{
    if p < 0 || p >= lines.len() {
        Err(SstError::ExpectedSection)
    } else if !(lines[p].kind is BeginSection) {
        Err(SstError::ExpectedSection)
    } else {
        let name = marker_name(s, lines[p].kind);
        if root && name != "root"@ {
            Err(SstError::RootNotNamedRoot)
        } else if !root && name.contains('/') {
            Err(SstError::NonLocalChildName)
        } else {
            let path = if root { Seq::empty() } else { parent.push(name) };
            section_items(
                s,
                lines,
                p + 1,
                name,
                path,
                lines[p].start,
                SectionParts { header: None, bytecode: None, children: Seq::empty(), child_names: Seq::empty() },
            )
        }
    }
}

/// The rest of a section from line `q` on: headers, bytecode blocks and
/// children until the closing marker.
pub open spec fn section_items(
    s: Seq<char>,
    lines: Seq<LineView>,
    q: int,
    name: Seq<char>,
    path: Seq<Seq<char>>,
    start: int,
    parts: SectionParts,
) -> Result<(NodeView, int), SstError>
    decreases lines.len() - q, 2int,
{
    let r = significant(lines, q);
    if q < 0 || r < q || r >= lines.len() {
        Err(SstError::UnterminatedSection)
    } else {
        let line = lines[r];
        match line.kind {
            LineKind::EndSection(_, _) => if marker_name(s, line.kind) != name {
                Err(SstError::MismatchedSectionEnd)
            } else {
                let fallback = (line.start, line.start);
                Ok((
                    NodeView {
                        path,
                        section: (start, line.end),
                        header: match parts.header { Some(h) => h, None => fallback },
                        bytecode: match parts.bytecode { Some(b) => b, None => fallback },
                        children: parts.children,
                    },
                    r + 1,
                ))
            },
            LineKind::BeginHeader(_, _) => if marker_name(s, line.kind) != name {
                Err(SstError::MismatchedMarker)
            } else if parts.header is Some {
                Err(SstError::DuplicateHeader)
            } else {
                let k = block_end(lines, r + 1, false);
                if k < r + 1 || k >= lines.len() {
                    Err(SstError::UnterminatedBlock)
                } else if marker_name(s, lines[k].kind) != name {
                    Err(SstError::MismatchedMarker)
                } else {
                    section_items(s, lines, k + 1, name, path, start, SectionParts { header: Some((line.end, lines[k].start)), ..parts })
                }
            },
            LineKind::BeginBytecode(_, _) => if marker_name(s, line.kind) != name {
                Err(SstError::MismatchedMarker)
            } else if parts.bytecode is Some {
                Err(SstError::DuplicateBytecode)
            } else {
                let k = block_end(lines, r + 1, true);
                if k < r + 1 || k >= lines.len() {
                    Err(SstError::UnterminatedBlock)
                } else if marker_name(s, lines[k].kind) != name {
                    Err(SstError::MismatchedMarker)
                } else {
                    section_items(s, lines, k + 1, name, path, start, SectionParts { bytecode: Some((line.end, lines[k].start)), ..parts })
                }
            },
            LineKind::BeginSection(_, _) => {
                let child = marker_name(s, line.kind);
                if child.contains('/') {
                    Err(SstError::NonLocalChildName)
                } else if parts.child_names.contains(child) {
                    Err(SstError::DuplicateChild)
                } else {
                    match section_at(s, lines, r, path, false) {
                        Err(e) => Err(e),
                        Ok((node, after)) => if after > r && after <= lines.len() {
                            section_items(
                                s,
                                lines,
                                after,
                                name,
                                path,
                                start,
                                SectionParts {
                                    children: parts.children.push(node),
                                    child_names: parts.child_names.push(child),
                                    ..parts
                                },
                            )
                        } else {
                            Err(SstError::UnterminatedSection)
                        },
                    }
                }
            },
            _ => Err(SstError::UnexpectedContent),
        }
    }
}

/// The parsed layout of an SST text.
pub open spec fn parse_sst(s: Seq<char>) -> Result<FileView, SstError> {
    match lines_from(s, 0) {
        None => Err(SstError::InvalidLine),
        Some(lines) => {
            let p0 = significant(lines, 0);
            if p0 >= lines.len() {
                Err(SstError::ExpectedVersion)
            } else {
                match lines[p0].kind {
                    LineKind::Version(v) => if v != 1 {
                        Err(SstError::UnsupportedVersion(v))
                    } else {
                        let p1 = significant(lines, p0 + 1);
                        if p1 >= lines.len() {
                            Err(SstError::ExpectedContextOrSection)
                        } else {
                            let head: Result<((int, int), int), SstError> = match lines[p1].kind {
                                LineKind::BeginContext => {
                                    let q = context_end(lines, p1 + 1);
                                    if q >= lines.len() {
                                        Err(SstError::UnterminatedContext)
                                    } else {
                                        Ok(((lines[p1].end, lines[q].start), q + 1))
                                    }
                                },
                                LineKind::BeginSection(_, _) => Ok(((lines[p1].start, lines[p1].start), p1)),
                                _ => Err(SstError::ExpectedContextOrSection),
                            };
                            match head {
                                Err(e) => Err(e),
                                Ok((context, next)) => {
                                    let p2 = significant(lines, next);
                                    if p2 >= lines.len() {
                                        Err(SstError::ExpectedRootSection)
                                    } else {
                                        match section_at(s, lines, p2, Seq::empty(), true) {
                                            Err(e) => Err(e),
                                            Ok((root, after)) => if significant(lines, after) < lines.len() {
                                                Err(SstError::TrailingContent)
                                            } else {
                                                Ok(FileView { context, root })
                                            },
                                        }
                                    }
                                },
                            }
                        }
                    },
                    _ => Err(SstError::ExpectedVersion),
                }
            }
        },
    }
}

/// The UTF-8 length of a sequence is the sum over its parts.
proof fn lemma_utf8_len_append(a: Seq<char>, b: Seq<char>)
    ensures
        utf8_len(a + b) == utf8_len(a) + utf8_len(b),
    decreases a.len(),
{
    if a.len() > 0 {
        assert((a + b).drop_first() == a.drop_first() + b);
        lemma_utf8_len_append(a.drop_first(), b);
    } else {
        assert(a + b == b);
    }
}

/// `utf8_len` is the length of the UTF-8 encoding.
proof fn lemma_utf8_len_encoding(s: Seq<char>)
    ensures
        utf8_len(s) == vstd::utf8::encode_utf8(s).len(),
    decreases s.len(),
{
    if s.len() > 0 {
        vstd::utf8::char_is_scalar(s[0]);
        lemma_utf8_len_encoding(s.drop_first());
    }
}

/// Byte offsets grow by the width of each character.
proof fn lemma_byte_pos_step(s: Seq<char>, i: int)
    requires
        0 <= i < s.len(),
    ensures
        byte_pos(s, i + 1) == byte_pos(s, i) + char_width(s[i]),
{
    assert(s.take(i + 1) == s.take(i) + seq![s[i]]);
    lemma_utf8_len_append(s.take(i), seq![s[i]]);
    assert(seq![s[i]].drop_first() == Seq::<char>::empty());
    assert(utf8_len(Seq::<char>::empty()) == 0);
    assert(utf8_len(seq![s[i]]) == char_width(s[i]) + utf8_len(seq![s[i]].drop_first()));
}

/// Byte offsets stay within the encoding.
proof fn lemma_byte_pos_bound(s: Seq<char>, i: int)
    requires
        0 <= i <= s.len(),
    ensures
        0 <= byte_pos(s, i) <= vstd::utf8::encode_utf8(s).len(),
{
    assert(s == s.take(i) + s.skip(i));
    lemma_utf8_len_append(s.take(i), s.skip(i));
    lemma_utf8_len_encoding(s);
}

/// The characters of `text`.
fn chars_of(text: &str) -> (v: Vec<char>)
    ensures
        v@ == text@,
{
    let mut v: Vec<char> = Vec::new();
    for c in it: text.chars()
        invariant
            v@ == it.seq().take(it.index() as int),
    {
        v.push(c);
    }
    v
}

/// The number of bytes of `c` in UTF-8.
fn width(c: char) -> (w: usize)
    ensures
        w == char_width(c),
{
    let u = c as u32;
    if u <= 0x7f {
        1
    } else if u <= 0x7ff {
        2
    } else if u <= 0xffff {
        3
    } else {
        4
    }
}

/// Whether `s` holds `lit` at index `k`, before `b`.
fn has_text_at(s: &Vec<char>, k: usize, b: usize, lit: &str) -> (r: bool)
    requires
        b <= s@.len(),
    ensures
        r == has_at(s@, k as int, b as int, lit@),
{
    let n = lit.unicode_len();
    if k > b || n > b - k {
        return false;
    }
    let mut i: usize = 0;
    while i < n
        invariant
            n == lit@.len(),
            k + n <= b <= s@.len(),
            0 <= i <= n,
            forall|j: int| 0 <= j < i ==> s@[k + j] == lit@[j],
        decreases n - i,
    {
        if s[k + i] != lit.get_char(i) {
            assert(s@.subrange(k as int, k + n)[i as int] != lit@[i as int]);
            return false;
        }
        i += 1;
    }
    assert(s@.subrange(k as int, k + n) =~= lit@);
    true
}

/// The end of the run of spaces from `i` before `b`.
fn spaces_end(s: &Vec<char>, i: usize, b: usize) -> (r: usize)
    requires
        i <= b <= s@.len(),
    ensures
        r == run_end(s@, i as int, b as int, |c: char| c == ' '),
        i <= r <= b,
{
    let mut k = i;
    while k < b && s[k] == ' '
        invariant
            i <= k <= b <= s@.len(),
            run_end(s@, i as int, b as int, |c: char| c == ' ') == run_end(s@, k as int, b as int, |c: char| c == ' '),
        decreases b - k,
    {
        k += 1;
    }
    k
}

/// The end of the run of tabs from `i` before `b`.
fn tabs_end(s: &Vec<char>, i: usize, b: usize) -> (r: usize)
    requires
        i <= b <= s@.len(),
    ensures
        r == run_end(s@, i as int, b as int, |c: char| c == '\t'),
        i <= r <= b,
{
    let mut k = i;
    while k < b && s[k] == '\t'
        invariant
            i <= k <= b <= s@.len(),
            run_end(s@, i as int, b as int, |c: char| c == '\t') == run_end(s@, k as int, b as int, |c: char| c == '\t'),
        decreases b - k,
    {
        k += 1;
    }
    k
}

/// The end of the run of spaces and tabs from `i` before `b`.
fn blanks_end(s: &Vec<char>, i: usize, b: usize) -> (r: usize)
    requires
        i <= b <= s@.len(),
    ensures
        r == run_end(s@, i as int, b as int, |c: char| c == ' ' || c == '\t'),
        i <= r <= b,
{
    let mut k = i;
    while k < b && (s[k] == ' ' || s[k] == '\t')
        invariant
            i <= k <= b <= s@.len(),
            run_end(s@, i as int, b as int, |c: char| c == ' ' || c == '\t') == run_end(s@, k as int, b as int, |c: char| c == ' ' || c == '\t'),
        decreases b - k,
    {
        k += 1;
    }
    k
}

/// The end of the run of name characters from `i` before `b`.
fn name_end(s: &Vec<char>, i: usize, b: usize) -> (r: usize)
    requires
        i <= b <= s@.len(),
    ensures
        r == run_end(s@, i as int, b as int, |c: char| name_char(c)),
        i <= r <= b,
{
    let mut k = i;
    while k < b && !crate::lexical::white_space(s[k]) && s[k] != ':' && s[k] != '.' && s[k] != '(' && s[k] != ')'
        invariant
            i <= k <= b <= s@.len(),
            run_end(s@, i as int, b as int, |c: char| name_char(c)) == run_end(s@, k as int, b as int, |c: char| name_char(c)),
        decreases b - k,
    {
        k += 1;
    }
    k
}

/// The end of the run of digits from `i` before `b`.
fn digits_end(s: &Vec<char>, i: usize, b: usize) -> (r: usize)
    requires
        i <= b <= s@.len(),
    ensures
        r == run_end(s@, i as int, b as int, |c: char| is_digit(c)),
        i <= r <= b,
{
    let mut k = i;
    while k < b && '0' <= s[k] && s[k] <= '9'
        invariant
            i <= k <= b <= s@.len(),
            run_end(s@, i as int, b as int, |c: char| is_digit(c)) == run_end(s@, k as int, b as int, |c: char| is_digit(c)),
        decreases b - k,
    {
        k += 1;
    }
    k
}

/// Every character of a run satisfies its predicate, and the run stays in
/// bounds.
proof fn lemma_run_end(s: Seq<char>, i: int, b: int, keep: spec_fn(char) -> bool)
    requires
        0 <= i <= b <= s.len(),
    ensures
        i <= run_end(s, i, b, keep) <= b,
        forall|j: int| i <= j < run_end(s, i, b, keep) ==> keep(#[trigger] s[j]),
        run_end(s, i, b, keep) < b ==> !keep(s[run_end(s, i, b, keep)]),
    decreases b - i,
{
    if i < b && keep(s[i]) {
        lemma_run_end(s, i + 1, b, keep);
    }
}

/// Reads a version number at `p`.
fn version_number_at(s: &Vec<char>, p: usize, b: usize) -> (r: Option<(u16, usize)>)
    requires
        p <= b <= s@.len(),
    ensures
        match r {
            Some((v, e)) => version_number(s@, p as int, b as int) == Some((v, e as int)),
            None => version_number(s@, p as int, b as int) is None,
        },
{
    if p < b && s[p] == '0' {
        return Some((0, p + 1));
    }
    if !(p < b && '0' <= s[p] && s[p] <= '9') {
        return None;
    }
    let e = digits_end(s, p, b);
    proof {
        lemma_run_end(s@, p as int, b as int, |c: char| is_digit(c));
    }
    let ghost w = s@.subrange(p as int, e as int);
    let mut value: u64 = 0;
    let mut k: usize = p;
    while k < e
        invariant
            p <= k <= e <= b <= s@.len(),
            w == s@.subrange(p as int, e as int),
            e == run_end(s@, p as int, b as int, |c: char| is_digit(c)),
            p < b,
            s@[p as int] != '0',
            is_digit(s@[p as int]),
            forall|j: int| p <= j < e ==> is_digit(#[trigger] s@[j]),
            value <= 65535,
            value == digits_value(s@.subrange(p as int, k as int)),
        decreases e - k,
    {
        let c = s[k];
        assert(is_digit(s@[k as int]));
        let ghost q = s@.subrange(p as int, k + 1);
        assert(q.drop_last() == s@.subrange(p as int, k as int));
        assert(q.last() == c);
        let next = value * 10 + (c as u64 - '0' as u64);
        assert(digits_value(q) == next);
        if next > 65535 {
            assert(q == w.subrange(0, k + 1 - p));
            proof {
                crate::lexical::lemma_digits_prefix(w, k + 1 - p);
            }
            return None;
        }
        value = next;
        k += 1;
    }
    Some((value as u16, e))
}

/// Reads `sst`, spaces or tabs, `v` and a version number at `t`.
fn version_at(s: &Vec<char>, t: usize, b: usize) -> (r: Option<(u16, usize)>)
    requires
        t <= b <= s@.len(),
    ensures
        match r {
            Some((v, e)) => version_marker(s@, t as int, b as int) == Some((v, e as int)),
            None => version_marker(s@, t as int, b as int) is None,
        },
{
    proof {
        reveal_strlit("sst");
    }
    if !has_text_at(s, t, b, "sst") {
        return None;
    }
    let w = t + 3;
    let w2 = blanks_end(s, w, b);
    if w2 > w && w2 < b && s[w2] == 'v' {
        version_number_at(s, w2 + 1, b)
    } else {
        None
    }
}

/// Reads `open`, a name and `close` at `t`.
fn named_at(s: &Vec<char>, t: usize, b: usize, open: &str, close: &str) -> (r: Option<(usize, usize, usize)>)
    requires
        t <= b <= s@.len(),
    ensures
        match r {
            Some((e, x, y)) => named_marker(s@, t as int, b as int, open@, close@) == Some((e as int, x as int, y as int)) && e <= b && x <= y <= b,
            None => named_marker(s@, t as int, b as int, open@, close@) is None,
        },
{
    if !has_text_at(s, t, b, open) {
        return None;
    }
    let n0 = t + open.unicode_len();
    let n1 = name_end(s, n0, b);
    if n1 > n0 && has_text_at(s, n1, b, close) {
        Some((n1 + close.unicode_len(), n0, n1))
    } else {
        None
    }
}

/// The kind of the line content `a..b`, or `None` if the line is invalid.
fn classify_line(s: &Vec<char>, a: usize, b: usize) -> (r: Option<LineKind>)
    requires
        a <= b <= s@.len(),
    ensures
        r == classify(s@, a as int, b as int),
        r matches Some(k) ==> kind_within(k, b as int),
{
    let t = spaces_end(s, a, b);
    match version_at(s, t, b) {
        Some((v, e)) => {
            return if e == b { Some(LineKind::Version(v)) } else { None };
        },
        None => {},
    }
    if has_text_at(s, t, b, ".global:") {
        return if t + ".global:".unicode_len() == b { Some(LineKind::BeginContext) } else { None };
    }
    if has_text_at(s, t, b, ".global.") {
        return if t + ".global.".unicode_len() == b { Some(LineKind::EndContext) } else { None };
    }
    if let Some((e, x, y)) = named_at(s, t, b, ".section(", "):") {
        return if e == b { Some(LineKind::BeginSection(x, y)) } else { None };
    }
    if let Some((e, x, y)) = named_at(s, t, b, ".section(", ").") {
        return if e == b { Some(LineKind::EndSection(x, y)) } else { None };
    }
    if let Some((e, x, y)) = named_at(s, t, b, ".header(", "):") {
        return if e == b { Some(LineKind::BeginHeader(x, y)) } else { None };
    }
    if let Some((e, x, y)) = named_at(s, t, b, ".header(", ").") {
        return if e == b { Some(LineKind::EndHeader(x, y)) } else { None };
    }
    if let Some((e, x, y)) = named_at(s, t, b, ".text(", "):") {
        return if e == b { Some(LineKind::BeginBytecode(x, y)) } else { None };
    }
    if let Some((e, x, y)) = named_at(s, t, b, ".text(", ").") {
        return if e == b { Some(LineKind::EndBytecode(x, y)) } else { None };
    }
    if t < b {
        Some(LineKind::Body)
    } else {
        Some(LineKind::Blank)
    }
}

/// The name range of a marker lies within `0..n`.
pub open spec fn kind_within(k: LineKind, n: int) -> bool {
    match k {
        LineKind::BeginSection(x, y) => x <= y <= n,
        LineKind::EndSection(x, y) => x <= y <= n,
        LineKind::BeginHeader(x, y) => x <= y <= n,
        LineKind::EndHeader(x, y) => x <= y <= n,
        LineKind::BeginBytecode(x, y) => x <= y <= n,
        LineKind::EndBytecode(x, y) => x <= y <= n,
        _ => true,
    }
}

/// The name ranges of all lines lie within `0..n`.
pub open spec fn lines_within(ls: Seq<LineView>, n: int) -> bool {
    forall|i: int| 0 <= i < ls.len() ==> kind_within(#[trigger] ls[i].kind, n)
}

/// A line of the text: its kind, byte range and 1-based line number.
#[derive(Debug, Clone, Copy)]
struct SourceLine {
    kind: LineKind,
    start: usize,
    end: usize,
    number: usize,
}

/// The view of a line.
spec fn line_view(l: SourceLine) -> LineView {
    LineView { kind: l.kind, start: l.start as int, end: l.end as int }
}

/// The views of lines.
spec fn lines_view(v: Seq<SourceLine>) -> Seq<LineView> {
    v.map_values(|l: SourceLine| line_view(l))
}

/// The first index at or after `i` that holds `\n`, or the length.
fn newline_from(s: &Vec<char>, i: usize) -> (r: usize)
    requires
        i <= s@.len(),
    ensures
        r == newline_at(s@, i as int),
        i <= r <= s@.len(),
{
    let mut k = i;
    while k < s.len() && s[k] != '\n'
        invariant
            i <= k <= s@.len(),
            newline_at(s@, i as int) == newline_at(s@, k as int),
        decreases s@.len() - k,
    {
        k += 1;
    }
    k
}

/// Splits `s` into classified lines.
fn lex_lines(s: &Vec<char>) -> (r: Option<Vec<SourceLine>>)
    requires
        vstd::utf8::encode_utf8(s@).len() <= usize::MAX,
    ensures
        match lines_from(s@, 0) {
            Some(ls) => r matches Some(v) && lines_view(v@) == ls && lines_within(ls, s@.len() as int)
                && forall|k: int| 0 <= k < v@.len() ==> (#[trigger] v@[k]).number == k + 1,
            None => r is None,
        },
{
    let n = s.len();
    let mut lines: Vec<SourceLine> = Vec::new();
    let mut i: usize = 0;
    let mut pos: usize = 0;
    assert(s@.take(0) == Seq::<char>::empty());
    while i < n
        invariant
            n == s@.len(),
            0 <= i <= n,
            pos == byte_pos(s@, i as int),
            vstd::utf8::encode_utf8(s@).len() <= usize::MAX,
            lines_within(lines_view(lines@), n as int),
            lines@.len() <= i,
            forall|k: int| 0 <= k < lines@.len() ==> (#[trigger] lines@[k]).number == k + 1,
            lines_from(s@, 0) == (match lines_from(s@, i as int) {
                Some(rest) => Some(lines_view(lines@) + rest),
                None => None::<Seq<LineView>>,
            }),
        decreases n - i,
    {
        let e = newline_from(s, i);
        let full_end = if e < n { e + 1 } else { n };
        let content_end = if e < n && e > i && s[e - 1] == '\r' { e - 1 } else { e };
        let a = tabs_end(s, i, content_end);
        let kind = match classify_line(s, a, content_end) {
            Some(kind) => kind,
            None => return None,
        };
        let mut end_pos = pos;
        let mut k = i;
        while k < full_end
            invariant
                i <= k <= full_end <= n,
                n == s@.len(),
                end_pos == byte_pos(s@, k as int),
                vstd::utf8::encode_utf8(s@).len() <= usize::MAX,
            decreases full_end - k,
        {
            proof {
                lemma_byte_pos_step(s@, k as int);
                lemma_byte_pos_bound(s@, k + 1);
            }
            end_pos = end_pos + width(s[k]);
            k += 1;
        }
        let line = SourceLine { kind, start: pos, end: end_pos, number: lines.len() + 1 };
        let ghost before = lines@;
        lines.push(line);
        proof {
            assert(lines_view(lines@) == lines_view(before).push(line_view(line)));
            match lines_from(s@, full_end as int) {
                Some(rest) => {
                    assert(lines_view(before) + (seq![line_view(line)] + rest) == lines_view(lines@) + rest);
                },
                None => {},
            }
        }
        i = full_end;
        pos = end_pos;
    }
    assert(lines_view(lines@) + Seq::<LineView>::empty() == lines_view(lines@));
    Some(lines)
}

/// The first non-blank line at or after `p`.
fn next_significant(lines: &Vec<SourceLine>, p: usize) -> (r: usize)
    requires
        p <= lines@.len(),
    ensures
        r == significant(lines_view(lines@), p as int),
        p <= r <= lines@.len(),
{
    let mut k = p;
    while k < lines.len() && matches!(lines[k].kind, LineKind::Blank)
        invariant
            p <= k <= lines@.len(),
            significant(lines_view(lines@), p as int) == significant(lines_view(lines@), k as int),
        decreases lines@.len() - k,
    {
        assert(lines_view(lines@)[k as int].kind == LineKind::Blank);
        k += 1;
    }
    if k < lines.len() {
        assert(lines_view(lines@)[k as int].kind != LineKind::Blank);
    }
    k
}

/// The first line at or after `p` that closes the context.
fn find_context_end(lines: &Vec<SourceLine>, p: usize) -> (r: usize)
    requires
        p <= lines@.len(),
    ensures
        r == context_end(lines_view(lines@), p as int),
        p <= r <= lines@.len(),
{
    let mut k = p;
    while k < lines.len() && !matches!(lines[k].kind, LineKind::EndContext)
        invariant
            p <= k <= lines@.len(),
            context_end(lines_view(lines@), p as int) == context_end(lines_view(lines@), k as int),
        decreases lines@.len() - k,
    {
        assert(lines_view(lines@)[k as int].kind != LineKind::EndContext);
        k += 1;
    }
    if k < lines.len() {
        assert(lines_view(lines@)[k as int].kind == LineKind::EndContext);
    }
    k
}

/// The first line at or after `p` that closes a header, or a bytecode
/// block when `bytecode`.
fn find_block_end(lines: &Vec<SourceLine>, p: usize, bytecode: bool) -> (r: usize)
    requires
        p <= lines@.len(),
    ensures
        r == block_end(lines_view(lines@), p as int, bytecode),
        p <= r <= lines@.len(),
{
    let mut k = p;
    while k < lines.len() && !((bytecode && matches!(lines[k].kind, LineKind::EndBytecode(_, _)))
        || (!bytecode && matches!(lines[k].kind, LineKind::EndHeader(_, _))))
        invariant
            p <= k <= lines@.len(),
            block_end(lines_view(lines@), p as int, bytecode) == block_end(lines_view(lines@), k as int, bytecode),
        decreases lines@.len() - k,
    {
        assert(lines_view(lines@)[k as int].kind == lines@[k as int].kind);
        k += 1;
    }
    if k < lines.len() {
        assert(lines_view(lines@)[k as int].kind == lines@[k as int].kind);
    }
    k
}

/// The closing line that `block_end` finds has the right kind.
proof fn lemma_block_end(ls: Seq<LineView>, p: int, bytecode: bool)
    requires
        0 <= p <= ls.len(),
    ensures
        p <= block_end(ls, p, bytecode) <= ls.len(),
        block_end(ls, p, bytecode) < ls.len() ==> (if bytecode {
            ls[block_end(ls, p, bytecode)].kind is EndBytecode
        } else {
            ls[block_end(ls, p, bytecode)].kind is EndHeader
        }),
    decreases ls.len() - p,
{
    if p < ls.len() && !((bytecode && ls[p].kind is EndBytecode) || (!bytecode && ls[p].kind is EndHeader)) {
        lemma_block_end(ls, p + 1, bytecode);
    }
}

/// Whether the texts `a..b` and `x..y` of `s` are equal.
fn same_range_text(s: &Vec<char>, a: usize, b: usize, x: usize, y: usize) -> (r: bool)
    requires
        a <= b <= s@.len(),
        x <= y <= s@.len(),
    ensures
        r == (s@.subrange(a as int, b as int) == s@.subrange(x as int, y as int)),
{
    if b - a != y - x {
        assert(s@.subrange(a as int, b as int).len() != s@.subrange(x as int, y as int).len());
        return false;
    }
    let n = b - a;
    let ghost sa = s@.subrange(a as int, b as int);
    let ghost sx = s@.subrange(x as int, y as int);
    let mut i: usize = 0;
    while i < n
        invariant
            n == b - a,
            n == y - x,
            a <= b <= s@.len(),
            x <= y <= s@.len(),
            sa == s@.subrange(a as int, b as int),
            sx == s@.subrange(x as int, y as int),
            0 <= i <= n,
            forall|j: int| 0 <= j < i ==> #[trigger] sa[j] == sx[j],
        decreases n - i,
    {
        assert(sa[i as int] == s@[a + i]);
        assert(sx[i as int] == s@[x + i]);
        if s[a + i] != s[x + i] {
            return false;
        }
        i += 1;
    }
    assert(s@.subrange(a as int, b as int) =~= s@.subrange(x as int, y as int));
    true
}

/// Whether `x..y` of `s` holds a `/`.
fn range_has_slash(s: &Vec<char>, x: usize, y: usize) -> (r: bool)
    requires
        x <= y <= s@.len(),
    ensures
        r == s@.subrange(x as int, y as int).contains('/'),
{
    let mut i = x;
    while i < y
        invariant
            x <= i <= y <= s@.len(),
            forall|j: int| x <= j < i ==> s@[j] != '/',
        decreases y - i,
    {
        if s[i] == '/' {
            assert(s@.subrange(x as int, y as int)[i - x] == '/');
            return true;
        }
        i += 1;
    }
    assert forall|j: int| 0 <= j < y - x implies s@.subrange(x as int, y as int)[j] != '/' by {
        assert(s@.subrange(x as int, y as int)[j] == s@[x + j]);
    }
    false
}

/// The names of the given character ranges.
spec fn range_names(s: Seq<char>, v: Seq<(usize, usize)>) -> Seq<Seq<char>> {
    v.map_values(|r: (usize, usize)| s.subrange(r.0 as int, r.1 as int))
}

/// Whether one of the ranges `names` holds the text `x..y`.
fn has_range_name(s: &Vec<char>, names: &Vec<(usize, usize)>, x: usize, y: usize) -> (r: bool)
    requires
        x <= y <= s@.len(),
        forall|i: int| 0 <= i < names@.len() ==> (#[trigger] names@[i]).0 <= names@[i].1 <= s@.len(),
    ensures
        r == range_names(s@, names@).contains(s@.subrange(x as int, y as int)),
{
    let mut i: usize = 0;
    while i < names.len()
        invariant
            x <= y <= s@.len(),
            forall|k: int| 0 <= k < names@.len() ==> (#[trigger] names@[k]).0 <= names@[k].1 <= s@.len(),
            0 <= i <= names@.len(),
            forall|k: int| 0 <= k < i ==> range_names(s@, names@)[k] != s@.subrange(x as int, y as int),
        decreases names@.len() - i,
    {
        let (a, b) = names[i];
        assert(range_names(s@, names@)[i as int] == s@.subrange(a as int, b as int));
        if same_range_text(s, a, b, x, y) {
            return true;
        }
        i += 1;
    }
    false
}

/// An optional range as integers.
spec fn int_range(o: Option<(usize, usize)>) -> Option<(int, int)> {
    match o {
        Some((a, b)) => Some((a as int, b as int)),
        None => None,
    }
}

/// The section whose opening marker is line `p` of `lines`; `s` holds the
/// characters of `text`.
fn parse_section_at(
    text: &str,
    s: &Vec<char>,
    lines: &Vec<SourceLine>,
    p: usize,
    parent: &SectionPath,
    root: bool,
) -> (r: Result<(SectionNode, usize), SstError>)
    requires
        s@ == text@,
        lines_within(lines_view(lines@), s@.len() as int),
    ensures
        match section_at(s@, lines_view(lines@), p as int, parent@, root) {
            Ok((v, after)) => r matches Ok((n, a)) && node_matches(n, v) && a == after && a <= lines@.len(),
            Err(e) => r == Err::<(SectionNode, usize), SstError>(e),
        },
    decreases lines@.len() - p,
{
    let ghost ls = lines_view(lines@);
    if p >= lines.len() {
        return Err(SstError::ExpectedSection);
    }
    assert(ls[p as int].kind == lines@[p as int].kind);
    let (x, y) = match lines[p].kind {
        LineKind::BeginSection(x, y) => (x, y),
        _ => return Err(SstError::ExpectedSection),
    };
    assert(kind_within(ls[p as int].kind, s@.len() as int));
    let ghost name = s@.subrange(x as int, y as int);
    let name_text = text.substring_char(x, y);
    assert(name_text@ == name);
    if root {
        proof {
            reveal_strlit("root");
        }
        if !same_name_text(name_text, "root") {
            return Err(SstError::RootNotNamedRoot);
        }
    } else if range_has_slash(s, x, y) {
        return Err(SstError::NonLocalChildName);
    }
    let path = if root { SectionPath::root() } else { parent.child(name_text.to_owned()) };
    let start = lines[p].start;
    let mut header: Option<(usize, usize)> = None;
    let mut bytecode: Option<(usize, usize)> = None;
    let mut children: Vec<SectionNode> = Vec::new();
    let mut child_names: Vec<(usize, usize)> = Vec::new();
    let ghost mut parts = SectionParts {
        header: None,
        bytecode: None,
        children: Seq::empty(),
        child_names: Seq::empty(),
    };
    let mut q = p + 1;
    assert(nodes_match(children@, parts.children));
    assert(range_names(s@, child_names@) == parts.child_names);
    loop
        invariant
            s@ == text@,
            ls == lines_view(lines@),
            lines_within(ls, s@.len() as int),
            p < q <= lines@.len(),
            x <= y <= s@.len(),
            name == s@.subrange(x as int, y as int),
            start == ls[p as int].start,
            parts.header == int_range(header),
            parts.bytecode == int_range(bytecode),
            nodes_match(children@, parts.children),
            range_names(s@, child_names@) == parts.child_names,
            forall|i: int| 0 <= i < child_names@.len() ==> (#[trigger] child_names@[i]).0 <= child_names@[i].1 <= s@.len(),
            section_at(s@, ls, p as int, parent@, root) == section_items(s@, ls, q as int, name, path@, start as int, parts),
        decreases lines@.len() - q,
    {
        let r = next_significant(lines, q);
        if r >= lines.len() {
            return Err(SstError::UnterminatedSection);
        }
        let line = lines[r];
        assert(ls[r as int] == line_view(line));
        assert(kind_within(ls[r as int].kind, s@.len() as int));
        match line.kind {
            LineKind::EndSection(a, b) => {
                if !same_range_text(s, a, b, x, y) {
                    return Err(SstError::MismatchedSectionEnd);
                }
                let header_range = match header {
                    Some((h0, h1)) => Range { start: h0, end: h1 },
                    None => Range { start: line.start, end: line.start },
                };
                let bytecode_range = match bytecode {
                    Some((b0, b1)) => Range { start: b0, end: b1 },
                    None => Range { start: line.start, end: line.start },
                };
                let node = SectionNode {
                    path,
                    section: Range { start, end: line.end },
                    header: header_range,
                    bytecode: bytecode_range,
                    children,
                };
                return Ok((node, r + 1));
            },
            LineKind::BeginHeader(a, b) => {
                if !same_range_text(s, a, b, x, y) {
                    return Err(SstError::MismatchedMarker);
                }
                if header.is_some() {
                    return Err(SstError::DuplicateHeader);
                }
                let k = find_block_end(lines, r + 1, false);
                proof {
                    lemma_block_end(ls, r + 1, false);
                }
                if k >= lines.len() {
                    return Err(SstError::UnterminatedBlock);
                }
                let closing = lines[k];
                assert(ls[k as int] == line_view(closing));
                assert(kind_within(ls[k as int].kind, s@.len() as int));
                let (c, d) = match closing.kind {
                    LineKind::EndHeader(c, d) => (c, d),
                    _ => (x, y),
                };
                if !same_range_text(s, c, d, x, y) {
                    return Err(SstError::MismatchedMarker);
                }
                header = Some((line.end, closing.start));
                proof {
                    parts = SectionParts { header: Some((line.end as int, closing.start as int)), ..parts };
                }
                q = k + 1;
            },
            LineKind::BeginBytecode(a, b) => {
                if !same_range_text(s, a, b, x, y) {
                    return Err(SstError::MismatchedMarker);
                }
                if bytecode.is_some() {
                    return Err(SstError::DuplicateBytecode);
                }
                let k = find_block_end(lines, r + 1, true);
                proof {
                    lemma_block_end(ls, r + 1, true);
                }
                if k >= lines.len() {
                    return Err(SstError::UnterminatedBlock);
                }
                let closing = lines[k];
                assert(ls[k as int] == line_view(closing));
                assert(kind_within(ls[k as int].kind, s@.len() as int));
                let (c, d) = match closing.kind {
                    LineKind::EndBytecode(c, d) => (c, d),
                    _ => (x, y),
                };
                if !same_range_text(s, c, d, x, y) {
                    return Err(SstError::MismatchedMarker);
                }
                bytecode = Some((line.end, closing.start));
                proof {
                    parts = SectionParts { bytecode: Some((line.end as int, closing.start as int)), ..parts };
                }
                q = k + 1;
            },
            LineKind::BeginSection(a, b) => {
                if range_has_slash(s, a, b) {
                    return Err(SstError::NonLocalChildName);
                }
                if has_range_name(s, &child_names, a, b) {
                    return Err(SstError::DuplicateChild);
                }
                let (child, after) = match parse_section_at(text, s, lines, r, &path, false) {
                    Ok(found) => found,
                    Err(e) => return Err(e),
                };
                if !(after > r && after <= lines.len()) {
                    return Err(SstError::UnterminatedSection);
                }
                let ghost child_view = section_at(s@, ls, r as int, path@, false)->Ok_0.0;
                let ghost old_children = children@;
                let ghost old_names = child_names@;
                children.push(child);
                child_names.push((a, b));
                proof {
                    lemma_nodes_match_push(old_children, parts.children, child, child_view);
                    assert(range_names(s@, child_names@) == range_names(s@, old_names).push(s@.subrange(a as int, b as int)));
                    parts = SectionParts {
                        children: parts.children.push(child_view),
                        child_names: parts.child_names.push(s@.subrange(a as int, b as int)),
                        ..parts
                    };
                }
                q = after;
            },
            _ => {
                return Err(SstError::UnexpectedContent);
            },
        }
    }
}

/// Whether `a` holds the same text as `b`.
fn same_name_text(a: &str, b: &str) -> (r: bool)
    ensures
        r == (a@ == b@),
{
    let n = a.unicode_len();
    if n != b.unicode_len() {
        return false;
    }
    let mut i: usize = 0;
    while i < n
        invariant
            n == a@.len(),
            n == b@.len(),
            0 <= i <= n,
            forall|j: int| 0 <= j < i ==> a@[j] == b@[j],
        decreases n - i,
    {
        if a.get_char(i) != b.get_char(i) {
            return false;
        }
        i += 1;
    }
    assert(a@ == b@);
    true
}

/// Parses an SST text into its context range and section tree. Ranges are
/// byte offsets into `text`.
pub fn parse_file(text: &str) -> (r: Result<ParsedFile, SstError>)
    ensures
        match parse_sst(text@) {
            Ok(v) => r matches Ok(f) && crate::container::file_matches(f, v),
            Err(e) => r == Err::<ParsedFile, SstError>(e),
        },
{
    let s = chars_of(text);
    let byte_len = text.as_bytes().len();
    assert(byte_len == vstd::utf8::encode_utf8(s@).len());
    let lines = match lex_lines(&s) {
        Some(lines) => lines,
        None => return Err(SstError::InvalidLine),
    };
    let ghost ls = lines_view(lines@);
    let p0 = next_significant(&lines, 0);
    if p0 >= lines.len() {
        return Err(SstError::ExpectedVersion);
    }
    assert(ls[p0 as int] == line_view(lines@[p0 as int]));
    match lines[p0].kind {
        LineKind::Version(v) => {
            if v != 1 {
                return Err(SstError::UnsupportedVersion(v));
            }
        },
        _ => return Err(SstError::ExpectedVersion),
    }
    let p1 = next_significant(&lines, p0 + 1);
    if p1 >= lines.len() {
        return Err(SstError::ExpectedContextOrSection);
    }
    assert(ls[p1 as int] == line_view(lines@[p1 as int]));
    let (context, next) = match lines[p1].kind {
        LineKind::BeginContext => {
            let q = find_context_end(&lines, p1 + 1);
            if q >= lines.len() {
                return Err(SstError::UnterminatedContext);
            }
            assert(ls[q as int] == line_view(lines@[q as int]));
            (Range { start: lines[p1].end, end: lines[q].start }, q + 1)
        },
        LineKind::BeginSection(_, _) => (Range { start: lines[p1].start, end: lines[p1].start }, p1),
        _ => return Err(SstError::ExpectedContextOrSection),
    };
    let p2 = next_significant(&lines, next);
    if p2 >= lines.len() {
        return Err(SstError::ExpectedRootSection);
    }
    let root_parent = SectionPath::root();
    let (root, after) = match parse_section_at(text, &s, &lines, p2, &root_parent, true) {
        Ok(found) => found,
        Err(e) => return Err(e),
    };
    if next_significant(&lines, after) < lines.len() {
        return Err(SstError::TrailingContent);
    }
    Ok(ParsedFile { context, root })
}

/// Byte offsets grow strictly with the character index.
proof fn lemma_byte_pos_increasing(s: Seq<char>, i: int, j: int)
    requires
        0 <= i <= j <= s.len(),
    ensures
        byte_pos(s, i) + (j - i) <= byte_pos(s, j),
    decreases j - i,
{
    if i < j {
        lemma_byte_pos_increasing(s, i, j - 1);
        lemma_byte_pos_step(s, j - 1);
    }
}

/// The lines from character `i` cover the bytes from `i`'s offset to the
/// end of the text, each line non-empty and each starting where the one
/// before it ends.
proof fn lemma_lines_tile(s: Seq<char>, i: int)
    requires
        0 <= i <= s.len(),
        lines_from(s, i) is Some,
    ensures
        ({
            let ls = lines_from(s, i)->Some_0;
            &&& forall|k: int| 0 <= k < ls.len() ==> (#[trigger] ls[k]).start < ls[k].end
            &&& forall|k: int| 0 <= k < ls.len() - 1 ==> (#[trigger] ls[k]).end == ls[k + 1].start
            &&& ls.len() > 0 ==> ls[0].start == byte_pos(s, i)
            &&& ls.len() > 0 ==> ls[ls.len() - 1].end == byte_pos(s, s.len() as int)
        }),
    decreases s.len() - i,
{
    if i < s.len() {
        let e = newline_at(s, i);
        lemma_newline_at(s, i);
        let full_end = if e < s.len() { e + 1 } else { s.len() as int };
        lemma_lines_tile(s, full_end);
        lemma_byte_pos_increasing(s, i, full_end);
        let ls = lines_from(s, i)->Some_0;
        let rest = lines_from(s, full_end)->Some_0;
        assert(ls == seq![ls[0]] + rest);
        assert forall|k: int| 0 <= k < ls.len() implies (#[trigger] ls[k]).start < ls[k].end by {
            if k > 0 {
                assert(ls[k] == rest[k - 1]);
            }
        }
        assert forall|k: int| 0 <= k < ls.len() - 1 implies (#[trigger] ls[k]).end == ls[k + 1].start by {
            assert(ls[k + 1] == rest[k]);
            if k > 0 {
                assert(ls[k] == rest[k - 1]);
            }
        }
        if rest.len() > 0 {
            assert(ls[ls.len() - 1] == rest[rest.len() - 1]);
        }
    }
}

/// `newline_at` stays within the text.
proof fn lemma_newline_at(s: Seq<char>, i: int)
    requires
        0 <= i <= s.len(),
    ensures
        i <= newline_at(s, i) <= s.len(),
    decreases s.len() - i,
{
    if i < s.len() && s[i] != '\n' {
        lemma_newline_at(s, i + 1);
    }
}

/// Range `a` ends before range `b` starts, or `b` ends before `a` starts.
pub open spec fn apart(a: (int, int), b: (int, int)) -> bool {
    a.1 <= b.0 || b.1 <= a.0
}

/// Range `inner` lies within range `outer`.
pub open spec fn inside(inner: (int, int), outer: (int, int)) -> bool {
    outer.0 <= inner.0 <= inner.1 <= outer.1
}

/// One section's layout: its header, its bytecode and its children lie
/// within it, after its opening marker, and none of them overlaps another;
/// the children come in text order, and each child's path is the section's
/// path and one more name.
pub open spec fn section_nests(v: NodeView) -> bool {
    &&& v.section.0 <= v.section.1
    &&& inside(v.header, v.section)
    &&& inside(v.bytecode, v.section)
    &&& apart(v.header, v.bytecode)
    &&& forall|i: int| 0 <= i < v.children.len() ==> {
        &&& v.section.0 < (#[trigger] v.children[i]).section.0
        &&& inside(v.children[i].section, v.section)
        &&& apart(v.header, v.children[i].section)
        &&& apart(v.bytecode, v.children[i].section)
        &&& v.children[i].path.len() == v.path.len() + 1
        &&& v.children[i].path.subrange(0, v.path.len() as int) == v.path
    }
    &&& forall|i: int, j: int| 0 <= i < j < v.children.len() ==> (#[trigger] v.children[i]).section.1 <= (#[trigger] v.children[j]).section.0
}

/// Every section of the tree under `v` has the layout of `section_nests`.
pub open spec fn sections_nest(v: NodeView) -> bool
    decreases v,
{
    &&& section_nests(v)
    &&& forall|i: int| 0 <= i < v.children.len() ==> sections_nest(#[trigger] v.children[i])
}

/// Lines that tile the bytes up to `total`: each non-empty, each starting
/// where the one before it ends, the last ending at `total`.
pub open spec fn tiled(ls: Seq<LineView>, total: int) -> bool {
    &&& forall|k: int| 0 <= k < ls.len() ==> (#[trigger] ls[k]).start < ls[k].end
    &&& forall|k: int| 0 <= k < ls.len() - 1 ==> (#[trigger] ls[k]).end == ls[k + 1].start
    &&& ls.len() > 0 ==> ls[ls.len() - 1].end == total
}

/// The byte offset where line `q` starts, or `total` past the last line.
pub open spec fn line_pos(ls: Seq<LineView>, q: int, total: int) -> int {
    if 0 <= q < ls.len() {
        ls[q].start
    } else {
        total
    }
}

/// Line offsets grow with the line index, and a line ends where the next
/// one starts.
proof fn lemma_line_pos(ls: Seq<LineView>, total: int, a: int, b: int)
    requires
        tiled(ls, total),
        0 <= a <= b <= ls.len(),
    ensures
        line_pos(ls, a, total) + (b - a) <= line_pos(ls, b, total),
        a < ls.len() ==> ls[a].end == line_pos(ls, a + 1, total),
    decreases b - a,
{
    if a < ls.len() {
        assert(ls[a].end == line_pos(ls, a + 1, total));
    }
    if a < b {
        lemma_line_pos(ls, total, a, b - 1);
        assert(ls[b - 1].start < ls[b - 1].end);
        assert(ls[b - 1].end == line_pos(ls, b, total));
    }
}

/// `significant` finds a line at or after `p`, within the lines.
proof fn lemma_significant(ls: Seq<LineView>, p: int)
    requires
        0 <= p <= ls.len(),
    ensures
        p <= significant(ls, p) <= ls.len(),
    decreases ls.len() - p,
{
    if p < ls.len() && ls[p].kind == LineKind::Blank {
        lemma_significant(ls, p + 1);
    }
}

/// What a section has gathered so far lies within `lo..hi`, without
/// overlaps, its children in text order with their layouts and paths.
spec fn parts_fit(parts: SectionParts, path: Seq<Seq<char>>, lo: int, hi: int) -> bool {
    &&& (match parts.header {
        Some(h) => lo <= h.0 <= h.1 <= hi,
        None => true,
    })
    &&& (match parts.bytecode {
        Some(b) => lo <= b.0 <= b.1 <= hi,
        None => true,
    })
    &&& (match (parts.header, parts.bytecode) {
        (Some(h), Some(b)) => apart(h, b),
        _ => true,
    })
    &&& parts.child_names.len() == parts.children.len()
    &&& forall|i: int| 0 <= i < parts.children.len() ==> {
        &&& lo <= (#[trigger] parts.children[i]).section.0 <= parts.children[i].section.1 <= hi
        &&& sections_nest(parts.children[i])
        &&& parts.children[i].path == path.push(parts.child_names[i])
        &&& (parts.header matches Some(h) ==> apart(h, parts.children[i].section))
        &&& (parts.bytecode matches Some(b) ==> apart(b, parts.children[i].section))
    }
    &&& forall|i: int, j: int| 0 <= i < j < parts.children.len() ==> (#[trigger] parts.children[i]).section.1 <= (#[trigger] parts.children[j]).section.0
}

/// A section that has gathered nothing fits anywhere.
proof fn lemma_nothing_gathered_fits(path: Seq<Seq<char>>, lo: int, hi: int)
    ensures
        parts_fit(
            SectionParts { header: None, bytecode: None, children: Seq::empty(), child_names: Seq::empty() },
            path,
            lo,
            hi,
        ),
{
}

/// A section parsed from its opening line `p` spans from that line to the
/// end of its closing line, has the path its parent gives it, and nests.
proof fn lemma_section_at_layout(s: Seq<char>, ls: Seq<LineView>, p: int, parent: Seq<Seq<char>>, root: bool, total: int)
    requires
        tiled(ls, total),
        section_at(s, ls, p, parent, root) is Ok,
    ensures
        ({
            let (v, after) = section_at(s, ls, p, parent, root)->Ok_0;
            &&& 0 <= p < after <= ls.len()
            &&& v.section == (ls[p].start, line_pos(ls, after, total))
            &&& v.path == (if root { Seq::<Seq<char>>::empty() } else { parent.push(marker_name(s, ls[p].kind)) })
            &&& sections_nest(v)
        }),
    decreases ls.len() - p, 1int,
{
    let name = marker_name(s, ls[p].kind);
    let path = if root { Seq::<Seq<char>>::empty() } else { parent.push(name) };
    let parts = SectionParts { header: None, bytecode: None, children: Seq::empty(), child_names: Seq::empty() };
    lemma_line_pos(ls, total, p, p + 1);
    lemma_nothing_gathered_fits(path, ls[p].end, line_pos(ls, p + 1, total));
    lemma_section_items_layout(s, ls, p + 1, name, path, ls[p].start, parts, total, ls[p].end);
}

/// The rest of a section from line `q` on, given what it gathered so far
/// within `lo..` the start of line `q`, ends at the end of its closing line
/// and nests.
proof fn lemma_section_items_layout(
    s: Seq<char>,
    ls: Seq<LineView>,
    q: int,
    name: Seq<char>,
    path: Seq<Seq<char>>,
    start: int,
    parts: SectionParts,
    total: int,
    lo: int,
)
    requires
        tiled(ls, total),
        0 <= q <= ls.len(),
        start < lo <= line_pos(ls, q, total),
        parts_fit(parts, path, lo, line_pos(ls, q, total)),
        section_items(s, ls, q, name, path, start, parts) is Ok,
    ensures
        ({
            let (v, after) = section_items(s, ls, q, name, path, start, parts)->Ok_0;
            &&& q < after <= ls.len()
            &&& v.section == (start, line_pos(ls, after, total))
            &&& v.path == path
            &&& sections_nest(v)
        }),
    decreases ls.len() - q, 2int,
{
    let r = significant(ls, q);
    lemma_significant(ls, q);
    lemma_line_pos(ls, total, q, r);
    let line = ls[r];
    lemma_line_pos(ls, total, r, r + 1);
    match line.kind {
        LineKind::EndSection(_, _) => {
            let (v, after) = section_items(s, ls, q, name, path, start, parts)->Ok_0;
            assert(after == r + 1);
            assert forall|i: int| 0 <= i < v.children.len() implies
                v.children[i].path.subrange(0, v.path.len() as int) == v.path by {
                assert(v.children[i].path == path.push(parts.child_names[i]));
                assert(path.push(parts.child_names[i]).subrange(0, path.len() as int) == path);
            }
            assert(section_nests(v));
        },
        LineKind::BeginHeader(_, _) => {
            let k = block_end(ls, r + 1, false);
            lemma_block_end(ls, r + 1, false);
            lemma_line_pos(ls, total, r + 1, k);
            lemma_line_pos(ls, total, k, k + 1);
            let parts2 = SectionParts { header: Some((line.end, ls[k].start)), ..parts };
            assert(parts_fit(parts2, path, lo, line_pos(ls, k + 1, total)));
            lemma_section_items_layout(s, ls, k + 1, name, path, start, parts2, total, lo);
        },
        LineKind::BeginBytecode(_, _) => {
            let k = block_end(ls, r + 1, true);
            lemma_block_end(ls, r + 1, true);
            lemma_line_pos(ls, total, r + 1, k);
            lemma_line_pos(ls, total, k, k + 1);
            let parts2 = SectionParts { bytecode: Some((line.end, ls[k].start)), ..parts };
            assert(parts_fit(parts2, path, lo, line_pos(ls, k + 1, total)));
            lemma_section_items_layout(s, ls, k + 1, name, path, start, parts2, total, lo);
        },
        LineKind::BeginSection(_, _) => {
            let child = marker_name(s, line.kind);
            lemma_section_at_layout(s, ls, r, path, false, total);
            let (node, after) = section_at(s, ls, r, path, false)->Ok_0;
            lemma_line_pos(ls, total, r, after);
            let parts2 = SectionParts {
                children: parts.children.push(node),
                child_names: parts.child_names.push(child),
                ..parts
            };
            assert forall|i: int| 0 <= i < parts2.children.len() implies {
                &&& lo <= (#[trigger] parts2.children[i]).section.0 <= parts2.children[i].section.1 <= line_pos(ls, after, total)
                &&& sections_nest(parts2.children[i])
                &&& parts2.children[i].path == path.push(parts2.child_names[i])
                &&& (parts2.header matches Some(h) ==> apart(h, parts2.children[i].section))
                &&& (parts2.bytecode matches Some(b) ==> apart(b, parts2.children[i].section))
            } by {
                if i < parts.children.len() {
                    assert(parts2.children[i] == parts.children[i]);
                    assert(parts2.child_names[i] == parts.child_names[i]);
                }
            }
            assert forall|i: int, j: int| 0 <= i < j < parts2.children.len() implies (#[trigger] parts2.children[i]).section.1 <= (#[trigger] parts2.children[j]).section.0 by {
                assert(parts2.children[i] == parts.children[i]);
                if j < parts.children.len() {
                    assert(parts2.children[j] == parts.children[j]);
                }
            }
            assert(parts_fit(parts2, path, lo, line_pos(ls, after, total)));
            lemma_section_items_layout(s, ls, after, name, path, start, parts2, total, lo);
        },
        _ => {},
    }
}

/// `context_end` finds a line at or after `p`, within the lines.
proof fn lemma_context_end(ls: Seq<LineView>, p: int)
    requires
        0 <= p <= ls.len(),
    ensures
        p <= context_end(ls, p) <= ls.len(),
    decreases ls.len() - p,
{
    if p < ls.len() && ls[p].kind != LineKind::EndContext {
        lemma_context_end(ls, p + 1);
    }
}

/// In a parsed SST text the context comes before the root section, the
/// root section ends within the text and has the empty path, and every
/// section nests: its header, bytecode and children lie within it, apart
/// from one another, the children in text order.
pub proof fn lemma_sst_layout(s: Seq<char>)
    requires
        parse_sst(s) is Ok,
    ensures
        ({
            let f = parse_sst(s)->Ok_0;
            &&& 0 <= f.context.0 <= f.context.1 <= f.root.section.0
            &&& f.root.section.1 <= utf8_len(s)
            &&& f.root.path == Seq::<Seq<char>>::empty()
            &&& sections_nest(f.root)
        }),
{
    let ls = lines_from(s, 0)->Some_0;
    let total = byte_pos(s, s.len() as int);
    lemma_lines_tile(s, 0);
    assert(s.take(s.len() as int) == s);
    assert(tiled(ls, total));
    let p0 = significant(ls, 0);
    lemma_significant(ls, 0);
    let p1 = significant(ls, p0 + 1);
    lemma_significant(ls, p0 + 1);
    let f = parse_sst(s)->Ok_0;
    if ls[p1].kind is BeginContext {
        let q = context_end(ls, p1 + 1);
        lemma_context_end(ls, p1 + 1);
        let p2 = significant(ls, q + 1);
        lemma_significant(ls, q + 1);
        lemma_section_at_layout(s, ls, p2, Seq::empty(), true, total);
        let after = section_at(s, ls, p2, Seq::empty(), true)->Ok_0.1;
        lemma_line_pos(ls, total, 0, p1);
        lemma_line_pos(ls, total, p1, p1 + 1);
        lemma_line_pos(ls, total, p1 + 1, q);
        lemma_line_pos(ls, total, q, q + 1);
        lemma_line_pos(ls, total, q + 1, p2);
        lemma_line_pos(ls, total, after, ls.len() as int);
        assert(byte_pos(s, 0) == 0) by {
            assert(s.take(0) == Seq::<char>::empty());
        }
    } else {
        let p2 = significant(ls, p1);
        lemma_significant(ls, p1);
        lemma_section_at_layout(s, ls, p2, Seq::empty(), true, total);
        let after = section_at(s, ls, p2, Seq::empty(), true)->Ok_0.1;
        lemma_line_pos(ls, total, 0, p1);
        lemma_line_pos(ls, total, after, ls.len() as int);
        assert(byte_pos(s, 0) == 0) by {
            assert(s.take(0) == Seq::<char>::empty());
        }
    }
}

/// Whether a line of kind `k` opens a header block, or a bytecode block when
/// `bytecode`.
pub open spec fn opens_block(k: LineKind, bytecode: bool) -> bool {
    if bytecode {
        k is BeginBytecode
    } else {
        k is BeginHeader
    }
}

/// Whether a line of kind `k` closes a header block, or a bytecode block
/// when `bytecode`.
pub open spec fn closes_block(k: LineKind, bytecode: bool) -> bool {
    if bytecode {
        k is EndBytecode
    } else {
        k is EndHeader
    }
}

/// Range `r` is the header (or, when `bytecode`, the bytecode) block of the
/// section named `name`: it runs from the end of a line that opens such a
/// block of that section to the start of the first line after it that
/// closes one, the closing marker naming the same section; or, for a
/// section without that block, it is the empty range at the start of the
/// section's closing line.
pub open spec fn block_placed(s: Seq<char>, ls: Seq<LineView>, name: Seq<char>, r: (int, int), bytecode: bool) -> bool {
    ||| exists|j: int, k: int|
        #![trigger ls[j], ls[k]]
        {
            &&& 0 <= j < k < ls.len()
            &&& opens_block(ls[j].kind, bytecode)
            &&& closes_block(ls[k].kind, bytecode)
            &&& marker_name(s, ls[j].kind) == name
            &&& marker_name(s, ls[k].kind) == name
            &&& r == (ls[j].end, ls[k].start)
            &&& forall|m: int| j < m < k ==> !closes_block(#[trigger] ls[m].kind, bytecode)
        }
    ||| exists|c: int|
        {
            &&& 0 <= c < ls.len()
            &&& (#[trigger] ls[c]).kind is EndSection
            &&& marker_name(s, ls[c].kind) == name
            &&& r == (ls[c].start, ls[c].start)
        }
}

/// Every section of the tree under `v`, named `name`, has its header and
/// bytecode blocks where `block_placed` puts them; a child is named by the
/// last component of its path.
pub open spec fn blocks_placed(s: Seq<char>, ls: Seq<LineView>, v: NodeView, name: Seq<char>) -> bool
    decreases v,
{
    &&& block_placed(s, ls, name, v.header, false)
    &&& block_placed(s, ls, name, v.bytecode, true)
    &&& forall|i: int|
        0 <= i < v.children.len() ==> (#[trigger] v.children[i]).path.len() > 0 && blocks_placed(
            s,
            ls,
            v.children[i],
            v.children[i].path.last(),
        )
}

/// No line between `p` and `block_end(ls, p, bytecode)` closes such a block.
proof fn lemma_block_end_first(ls: Seq<LineView>, p: int, bytecode: bool)
    requires
        0 <= p <= ls.len(),
    ensures
        forall|m: int| p <= m < block_end(ls, p, bytecode) ==> !closes_block(#[trigger] ls[m].kind, bytecode),
    decreases ls.len() - p,
{
    if p < ls.len() && !((bytecode && ls[p].kind is EndBytecode) || (!bytecode && ls[p].kind is EndHeader)) {
        lemma_block_end_first(ls, p + 1, bytecode);
    }
}

/// What a section has gathered so far sits where `block_placed` and
/// `blocks_placed` say.
spec fn parts_placed(s: Seq<char>, ls: Seq<LineView>, name: Seq<char>, parts: SectionParts) -> bool {
    &&& (match parts.header {
        Some(h) => block_placed(s, ls, name, h, false),
        None => true,
    })
    &&& (match parts.bytecode {
        Some(b) => block_placed(s, ls, name, b, true),
        None => true,
    })
    &&& parts.child_names.len() == parts.children.len()
    &&& forall|i: int| 0 <= i < parts.children.len() ==> {
        &&& (#[trigger] parts.children[i]).path.len() > 0
        &&& parts.children[i].path.last() == parts.child_names[i]
        &&& blocks_placed(s, ls, parts.children[i], parts.child_names[i])
    }
}

/// The blocks of a section parsed from its opening line `p` are placed.
proof fn lemma_section_at_blocks(s: Seq<char>, ls: Seq<LineView>, p: int, parent: Seq<Seq<char>>, root: bool)
    requires
        section_at(s, ls, p, parent, root) is Ok,
    ensures
        blocks_placed(s, ls, section_at(s, ls, p, parent, root)->Ok_0.0, marker_name(s, ls[p].kind)),
        section_at(s, ls, p, parent, root)->Ok_0.0.path == (if root {
            Seq::<Seq<char>>::empty()
        } else {
            parent.push(marker_name(s, ls[p].kind))
        }),
    decreases ls.len() - p, 1int,
{
    let name = marker_name(s, ls[p].kind);
    let path = if root { Seq::<Seq<char>>::empty() } else { parent.push(name) };
    let parts = SectionParts { header: None, bytecode: None, children: Seq::empty(), child_names: Seq::empty() };
    assert(parts_placed(s, ls, name, parts));
    lemma_section_items_blocks(s, ls, p + 1, name, path, ls[p].start, parts);
}

/// The blocks of the rest of a section from line `q` on are placed, given
/// that what it gathered so far is.
proof fn lemma_section_items_blocks(
    s: Seq<char>,
    ls: Seq<LineView>,
    q: int,
    name: Seq<char>,
    path: Seq<Seq<char>>,
    start: int,
    parts: SectionParts,
)
    requires
        0 <= q <= ls.len(),
        parts_placed(s, ls, name, parts),
        section_items(s, ls, q, name, path, start, parts) is Ok,
    ensures
        blocks_placed(s, ls, section_items(s, ls, q, name, path, start, parts)->Ok_0.0, name),
        section_items(s, ls, q, name, path, start, parts)->Ok_0.0.path == path,
    decreases ls.len() - q, 2int,
{
    let r = significant(ls, q);
    lemma_significant(ls, q);
    let line = ls[r];
    match line.kind {
        LineKind::EndSection(_, _) => {
            let v = section_items(s, ls, q, name, path, start, parts)->Ok_0.0;
            if parts.header is None {
                assert(ls[r].kind is EndSection);
            }
            if parts.bytecode is None {
                assert(ls[r].kind is EndSection);
            }
            assert(v.children == parts.children);
        },
        LineKind::BeginHeader(_, _) => {
            let k = block_end(ls, r + 1, false);
            lemma_block_end(ls, r + 1, false);
            lemma_block_end_first(ls, r + 1, false);
            let parts2 = SectionParts { header: Some((line.end, ls[k].start)), ..parts };
            assert(opens_block(ls[r].kind, false) && closes_block(ls[k].kind, false));
            assert(parts_placed(s, ls, name, parts2));
            lemma_section_items_blocks(s, ls, k + 1, name, path, start, parts2);
        },
        LineKind::BeginBytecode(_, _) => {
            let k = block_end(ls, r + 1, true);
            lemma_block_end(ls, r + 1, true);
            lemma_block_end_first(ls, r + 1, true);
            let parts2 = SectionParts { bytecode: Some((line.end, ls[k].start)), ..parts };
            assert(opens_block(ls[r].kind, true) && closes_block(ls[k].kind, true));
            assert(parts_placed(s, ls, name, parts2));
            lemma_section_items_blocks(s, ls, k + 1, name, path, start, parts2);
        },
        LineKind::BeginSection(_, _) => {
            let child = marker_name(s, line.kind);
            lemma_section_at_blocks(s, ls, r, path, false);
            let (node, after) = section_at(s, ls, r, path, false)->Ok_0;
            assert(node.path == path.push(child));
            let parts2 = SectionParts {
                children: parts.children.push(node),
                child_names: parts.child_names.push(child),
                ..parts
            };
            assert forall|i: int| 0 <= i < parts2.children.len() implies {
                &&& (#[trigger] parts2.children[i]).path.len() > 0
                &&& parts2.children[i].path.last() == parts2.child_names[i]
                &&& blocks_placed(s, ls, parts2.children[i], parts2.child_names[i])
            } by {
                if i < parts.children.len() {
                    assert(parts2.children[i] == parts.children[i]);
                    assert(parts2.child_names[i] == parts.child_names[i]);
                }
            }
            assert(parts_placed(s, ls, name, parts2));
            lemma_section_items_blocks(s, ls, after, name, path, start, parts2);
        },
        _ => {},
    }
}

/// In a parsed SST text each section's header and bytecode blocks hold
/// exactly the lines between that block's markers: a block runs from the
/// end of its opening `.header(name):` (or `.text(name):`) line to the start
/// of the first closing `.header(name).` (or `.text(name).`) line after it,
/// both naming the section; a section without the block gets the empty
/// range at the start of its closing line.
pub proof fn lemma_sst_blocks(s: Seq<char>)
    requires
        parse_sst(s) is Ok,
    ensures
        blocks_placed(s, lines_from(s, 0)->Some_0, parse_sst(s)->Ok_0.root, "root"@),
{
    let ls = lines_from(s, 0)->Some_0;
    let p0 = significant(ls, 0);
    lemma_significant(ls, 0);
    let p1 = significant(ls, p0 + 1);
    lemma_significant(ls, p0 + 1);
    let p2 = if ls[p1].kind is BeginContext {
        let q = context_end(ls, p1 + 1);
        lemma_context_end(ls, p1 + 1);
        lemma_significant(ls, q + 1);
        significant(ls, q + 1)
    } else {
        lemma_significant(ls, p1);
        significant(ls, p1)
    };
    lemma_section_at_blocks(s, ls, p2, Seq::empty(), true);
}

} // verus!
