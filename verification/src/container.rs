//! The binary program container: a header, a program context, and a tree of
//! sections, each with a header, bytecode, and a table of child sections.
//!
//! All numbers are little-endian. The file starts with the magic `VHBC`, the
//! version (`u16`, 1), the flags (`u16`, 0) and the context length (`u64`);
//! the context follows, and the root section follows the context and ends
//! the file. A section is its length and its header length (`u64` each), the
//! header, the bytecode length (`u64`), the bytecode, the child count
//! (`u32`) and one entry per child: the child's name as an index into the
//! section-name table (`u32`) and its offset from the section start
//! (`u64`). Children lie inside their parent, after its child table, and
//! neither overlap each other nor the parent's bytecode and child table.
use vstd::prelude::*;
use std::ops::Range;
use byteorder::{ByteOrder, LittleEndian};
use crate::section::{
    NodeView, ParsedFile, SectionNode, SectionPath, lemma_nodes_match_push, node_matches, nodes_match,
    range_is,
};

verus! {

/// The magic number that opens a container: the bytes of `VHBC`.
pub open spec fn container_magic() -> Seq<u8> {
    seq![0x56u8, 0x48u8, 0x42u8, 0x43u8]
}

/// The container format version this parser reads.
pub const VERSION: u16 = 1;

/// The only flags value this parser reads.
pub const FLAGS: u16 = 0;

/// Why a container was refused.
#[derive(Debug, Clone, Copy, PartialEq, Eq, Structural)]
pub enum ContainerError {
    /// The file ends inside its fixed header.
    TruncatedHeader,
    /// The file does not start with `VHBC`.
    BadMagic,
    /// The version is not 1.
    UnsupportedVersion(u16),
    /// The flags are not 0.
    UnsupportedFlags(u16),
    /// A `u64` length or offset does not fit in `usize`.
    ValueTooLarge,
    /// A computed position does not fit in `usize`.
    Overflow,
    /// The program context extends past the end of the file.
    ContextOutOfBounds,
    /// A section starts too close to the end of the file for its frame.
    SectionFrameIncomplete,
    /// A section extends past the end of the file.
    SectionPastEnd,
    /// A section's header is longer than the section.
    HeaderLongerThanSection,
    /// A section has no room for its bytecode length.
    BytecodeHeaderIncomplete,
    /// A section's bytecode extends past the section.
    BytecodePastSection,
    /// A section has no room for its child count.
    ChildTableHeaderIncomplete,
    /// A section has no room for all its child entries.
    ChildTableIncomplete,
    /// A child entry names a section-name index with no name.
    MissingSectionName(u32),
    /// A child's name is empty.
    EmptyChildName,
    /// A child's name contains `/`.
    NonLocalChildName,
    /// Two children of one section share a name.
    DuplicateChild,
    /// A child starts before its parent's child table ends.
    ChildBeforeTableEnd,
    /// A child extends past its parent.
    ChildPastSectionEnd,
    /// A child overlaps its parent's data or an earlier sibling.
    ChildOverlaps,
    /// The root section does not end exactly at the end of the file.
    LengthMismatch,
}

/// The number whose little-endian bytes are `bytes`.
pub open spec fn le_value(bytes: Seq<u8>) -> nat
    decreases bytes.len(),
{
    if bytes.len() == 0 {
        0
    } else {
        bytes[0] as nat + 256 * le_value(bytes.drop_first())
    }
}

/// The little-endian number in the `width` bytes at `pos`.
pub open spec fn le_at(bytes: Seq<u8>, pos: int, width: int) -> nat {
    le_value(bytes.subrange(pos, pos + width))
}

/// `byteorder::LittleEndian::read_u16`: the first two bytes of `buf` as a
/// little-endian number.
#[verifier::external_body]
fn read_u16_le(buf: &[u8]) -> (v: u16)
    requires
        buf@.len() == 2,
    ensures
        v == le_value(buf@),
{
    LittleEndian::read_u16(buf)
}

/// `byteorder::LittleEndian::read_u32`: the first four bytes of `buf` as a
/// little-endian number.
#[verifier::external_body]
fn read_u32_le(buf: &[u8]) -> (v: u32)
    requires
        buf@.len() == 4,
    ensures
        v == le_value(buf@),
{
    LittleEndian::read_u32(buf)
}

/// `byteorder::LittleEndian::read_u64`: the first eight bytes of `buf` as a
/// little-endian number.
#[verifier::external_body]
fn read_u64_le(buf: &[u8]) -> (v: u64)
    requires
        buf@.len() == 8,
    ensures
        v == le_value(buf@),
{
    LittleEndian::read_u64(buf)
}

/// A child table entry with its name resolved.
pub struct EntryView {
    pub name: Seq<char>,
    pub offset: int,
}

/// The layout of a parsed container.
pub struct FileView {
    pub context: (int, int),
    pub root: NodeView,
}

/// Whether `name` can name a child: it is not empty and holds no `/`.
pub open spec fn valid_local_name(name: Seq<char>) -> bool {
    name.len() > 0 && !name.contains('/')
}

/// Whether two byte ranges share a byte.
pub open spec fn ranges_overlap(a: (int, int), b: (int, int)) -> bool {
    a.0 < b.1 && b.0 < a.1
}

/// The child entry at `pos`, after the entries `prev` of the same table.
pub open spec fn resolve_entry(
    bytes: Seq<u8>,
    names: Seq<Seq<char>>,
    prev: Seq<EntryView>,
    pos: int,
) -> Result<EntryView, ContainerError> {
    let id = le_at(bytes, pos, 4);
    let offset = le_at(bytes, pos + 4, 8);
    if offset > usize::MAX {
        Err(ContainerError::ValueTooLarge)
    } else if id >= names.len() {
        Err(ContainerError::MissingSectionName(id as u32))
    } else if names[id as int].len() == 0 {
        Err(ContainerError::EmptyChildName)
    } else if names[id as int].contains('/') {
        Err(ContainerError::NonLocalChildName)
    } else if exists|j: int| 0 <= j < prev.len() && prev[j].name == names[id as int] {
        Err(ContainerError::DuplicateChild)
    } else {
        Ok(EntryView { name: names[id as int], offset: offset as int })
    }
}

/// The first `n` entries of the child table whose entries start at `table`.
pub open spec fn resolve_entries(bytes: Seq<u8>, names: Seq<Seq<char>>, table: int, n: nat) -> Result<
    Seq<EntryView>,
    ContainerError,
>
    decreases n,
{
    if n == 0 {
        Ok(Seq::empty())
    } else {
        match resolve_entries(bytes, names, table, (n - 1) as nat) {
            Err(e) => Err(e),
            Ok(prev) => match resolve_entry(bytes, names, prev, table + 12 * (n - 1)) {
                Err(e) => Err(e),
                Ok(entry) => Ok(prev.push(entry)),
            },
        }
    }
}

/// `prefix` followed by the sections of `rest`, or the error of `rest`.
pub open spec fn prepend(prefix: Seq<NodeView>, rest: Result<Seq<NodeView>, ContainerError>) -> Result<
    Seq<NodeView>,
    ContainerError,
> {
    match rest {
        Ok(r) => Ok(prefix + r),
        Err(e) => Err(e),
    }
}

/// The section that starts at `start` and has path `path`.
pub open spec fn parse_section_at(
    bytes: Seq<u8>,
    names: Seq<Seq<char>>,
    start: int,
    path: Seq<Seq<char>>,
) -> Result<NodeView, ContainerError>
    decreases bytes.len() - start, 1int, 0int,
{
    let len = bytes.len();
    if start + 16 > usize::MAX {
        Err(ContainerError::Overflow)
    } else if start + 16 > len {
        Err(ContainerError::SectionFrameIncomplete)
    } else {
        let slen = le_at(bytes, start, 8);
        let hlen = le_at(bytes, start + 8, 8);
        let send = start + slen;
        let hstart = start + 16;
        let hend = hstart + hlen;
        let bstart = hend + 8;
        if slen > usize::MAX || hlen > usize::MAX {
            Err(ContainerError::ValueTooLarge)
        } else if send > usize::MAX {
            Err(ContainerError::Overflow)
        } else if send > len {
            Err(ContainerError::SectionPastEnd)
        } else if hlen > slen {
            Err(ContainerError::HeaderLongerThanSection)
        } else if hend > usize::MAX || bstart > usize::MAX {
            Err(ContainerError::Overflow)
        } else if bstart > send {
            Err(ContainerError::BytecodeHeaderIncomplete)
        } else {
            let blen = le_at(bytes, hend, 8);
            let bend = bstart + blen;
            if blen > usize::MAX {
                Err(ContainerError::ValueTooLarge)
            } else if bend > usize::MAX {
                Err(ContainerError::Overflow)
            } else if bend > send {
                Err(ContainerError::BytecodePastSection)
            } else if bend + 4 > usize::MAX {
                Err(ContainerError::Overflow)
            } else if bend + 4 > send {
                Err(ContainerError::ChildTableHeaderIncomplete)
            } else {
                let count = le_at(bytes, bend, 4);
                let table_end = bend + 4 + 12 * count;
                if 12 * count > usize::MAX || 4 + 12 * count > usize::MAX || table_end > usize::MAX {
                    Err(ContainerError::Overflow)
                } else if table_end > send {
                    Err(ContainerError::ChildTableIncomplete)
                } else {
                    match resolve_entries(bytes, names, bend + 4, count) {
                        Err(e) => Err(e),
                        Ok(entries) => match parse_children(
                            bytes,
                            names,
                            start,
                            send,
                            table_end,
                            path,
                            entries,
                            seq![(bstart, table_end)],
                        ) {
                            Err(e) => Err(e),
                            Ok(children) => Ok(
                                NodeView {
                                    path,
                                    section: (start, send),
                                    header: (hstart, hend),
                                    bytecode: (bstart, bend),
                                    children,
                                },
                            ),
                        },
                    }
                }
            }
        }
    }
}

/// The children `entries` of the section at `pstart .. pend` whose child
/// table ends at `table_end`, given the byte ranges already `claimed`.
pub open spec fn parse_children(
    bytes: Seq<u8>,
    names: Seq<Seq<char>>,
    pstart: int,
    pend: int,
    table_end: int,
    path: Seq<Seq<char>>,
    entries: Seq<EntryView>,
    claimed: Seq<(int, int)>,
) -> Result<Seq<NodeView>, ContainerError>
    decreases bytes.len() - pstart, 0int, entries.len(),
    when pstart < table_end && pend <= bytes.len()
{
    if entries.len() == 0 {
        Ok(Seq::empty())
    } else {
        let entry = entries[0];
        let cstart = pstart + entry.offset;
        if cstart > usize::MAX {
            Err(ContainerError::Overflow)
        } else if cstart < table_end {
            Err(ContainerError::ChildBeforeTableEnd)
        } else if cstart >= pend {
            Err(ContainerError::ChildPastSectionEnd)
        } else if cstart + 16 > usize::MAX {
            Err(ContainerError::Overflow)
        } else if cstart + 16 > pend {
            Err(ContainerError::ChildPastSectionEnd)
        } else {
            let clen = le_at(bytes, cstart, 8);
            let chlen = le_at(bytes, cstart + 8, 8);
            let cend = cstart + clen;
            if clen > usize::MAX || chlen > usize::MAX {
                Err(ContainerError::ValueTooLarge)
            } else if cend > usize::MAX {
                Err(ContainerError::Overflow)
            } else if cend > pend {
                Err(ContainerError::ChildPastSectionEnd)
            } else if exists|k: int|
                0 <= k < claimed.len() && ranges_overlap(claimed[k], (cstart, cend)) {
                Err(ContainerError::ChildOverlaps)
            } else {
                match parse_section_at(bytes, names, cstart, path.push(entry.name)) {
                    Err(e) => Err(e),
                    Ok(node) => prepend(
                        seq![node],
                        parse_children(
                            bytes,
                            names,
                            pstart,
                            pend,
                            table_end,
                            path,
                            entries.drop_first(),
                            claimed.push((cstart, cend)),
                        ),
                    ),
                }
            }
        }
    }
}

/// The byte range of the program context of the container `bytes`, or why
/// its fixed header is refused.
pub open spec fn parse_context(bytes: Seq<u8>) -> Result<(int, int), ContainerError> {
    let len = bytes.len();
    if len < 4 {
        Err(ContainerError::TruncatedHeader)
    } else if bytes.subrange(0, 4) != container_magic() {
        Err(ContainerError::BadMagic)
    } else if len < 6 {
        Err(ContainerError::TruncatedHeader)
    } else if le_at(bytes, 4, 2) != VERSION {
        Err(ContainerError::UnsupportedVersion(le_at(bytes, 4, 2) as u16))
    } else if len < 8 {
        Err(ContainerError::TruncatedHeader)
    } else if le_at(bytes, 6, 2) != FLAGS {
        Err(ContainerError::UnsupportedFlags(le_at(bytes, 6, 2) as u16))
    } else if len < 16 {
        Err(ContainerError::TruncatedHeader)
    } else {
        let context_len = le_at(bytes, 8, 8);
        if context_len > usize::MAX {
            Err(ContainerError::ValueTooLarge)
        } else if 16 + context_len > usize::MAX {
            Err(ContainerError::Overflow)
        } else if 16 + context_len > len {
            Err(ContainerError::ContextOutOfBounds)
        } else {
            Ok((16, (16 + context_len) as int))
        }
    }
}

/// The layout of the container `bytes`, with child names looked up in
/// `names` by index, or why it is refused: the root section follows the
/// program context and must end the file.
pub open spec fn parse_container(bytes: Seq<u8>, names: Seq<Seq<char>>) -> Result<FileView, ContainerError> {
    match parse_context(bytes) {
        Err(e) => Err(e),
        Ok(context) => match parse_section_at(bytes, names, context.1, Seq::empty()) {
            Err(e) => Err(e),
            Ok(root) => if root.section.1 != bytes.len() {
                Err(ContainerError::LengthMismatch)
            } else {
                Ok(FileView { context, root })
            },
        },
    }
}

/// Whether a parsed container has the layout `v`.
pub open spec fn file_matches(f: ParsedFile, v: FileView) -> bool {
    range_is(f.context, v.context) && node_matches(f.root, v.root)
}

/// Reads the `u64` at `pos` as a `usize`.
fn read_len(bytes: &[u8], pos: usize) -> (r: Result<usize, ContainerError>)
    requires
        pos + 8 <= bytes@.len(),
    ensures
        le_at(bytes@, pos as int, 8) > usize::MAX ==> r == Err::<usize, ContainerError>(
            ContainerError::ValueTooLarge,
        ),
        le_at(bytes@, pos as int, 8) <= usize::MAX ==> r == Ok::<usize, ContainerError>(
            le_at(bytes@, pos as int, 8) as usize,
        ),
{
    let _ = bytes.len();
    let v = read_u64_le(&bytes[pos..pos + 8]);
    if v > usize::MAX as u64 {
        Err(ContainerError::ValueTooLarge)
    } else {
        Ok(v as usize)
    }
}

/// Checks that `name` can name a child section.
fn validate_local_section_name(name: &str) -> (r: Result<(), ContainerError>)
    ensures
        name@.len() == 0 ==> r == Err::<(), ContainerError>(ContainerError::EmptyChildName),
        name@.len() > 0 && name@.contains('/') ==> r == Err::<(), ContainerError>(
            ContainerError::NonLocalChildName,
        ),
        valid_local_name(name@) ==> r is Ok,
{
    let n = name.unicode_len();
    if n == 0 {
        return Err(ContainerError::EmptyChildName);
    }
    let mut i: usize = 0;
    while i < n
        invariant
            n == name@.len(),
            0 <= i <= n,
            forall|j: int| 0 <= j < i ==> name@[j] != '/',
        decreases n - i,
    {
        if name.get_char(i) == '/' {
            return Err(ContainerError::NonLocalChildName);
        }
        i += 1;
    }
    Ok(())
}

struct Entry {
    name: String,
    offset: usize,
}

spec fn entries_view(entries: Seq<Entry>) -> Seq<EntryView> {
    entries.map_values(|e: Entry| EntryView { name: e.name@, offset: e.offset as int })
}

/// Once a prefix of a child table is refused, the whole table is refused
/// with the same error.
proof fn lemma_resolve_entries_err(bytes: Seq<u8>, names: Seq<Seq<char>>, table: int, n: nat, m: nat)
    requires
        n <= m,
        resolve_entries(bytes, names, table, n) is Err,
    ensures
        resolve_entries(bytes, names, table, m) == resolve_entries(bytes, names, table, n),
    decreases m - n,
{
    if n < m {
        lemma_resolve_entries_err(bytes, names, table, n, (m - 1) as nat);
    }
}

/// Reads and resolves the `count` entries of the child table at `table`.
fn read_child_section_table(bytes: &[u8], names: &[String], table: usize, count: usize) -> (r: Result<
    Vec<Entry>,
    ContainerError,
>)
    requires
        table + 12 * count <= bytes@.len(),
    ensures
        match resolve_entries(bytes@, names_view(names@), table as int, count as nat) {
            Ok(v) => r is Ok && entries_view(r->Ok_0@) == v,
            Err(e) => r == Err::<Vec<Entry>, ContainerError>(e),
        },
{
    let ghost nv = names_view(names@);
    let mut entries: Vec<Entry> = Vec::new();
    let blen = bytes.len();
    let mut k: usize = 0;
    assert(entries_view(entries@) =~= Seq::<EntryView>::empty());
    while k < count
        invariant
            0 <= k <= count,
            blen == bytes@.len(),
            table + 12 * count <= bytes@.len(),
            nv == names_view(names@),
            resolve_entries(bytes@, nv, table as int, k as nat) == Ok::<Seq<EntryView>, ContainerError>(
                entries_view(entries@),
            ),
        decreases count - k,
    {
        let pos = table + 12 * k;
        let ghost prev = entries_view(entries@);
        let ghost outcome = resolve_entry(bytes@, nv, prev, pos as int);
        proof {
            assert(resolve_entries(bytes@, nv, table as int, (k + 1) as nat) == match outcome {
                Err(e) => Err(e),
                Ok(entry) => Ok::<Seq<EntryView>, ContainerError>(prev.push(entry)),
            });
            if outcome is Err {
                lemma_resolve_entries_err(bytes@, nv, table as int, (k + 1) as nat, count as nat);
            }
        }
        let id = read_u32_le(&bytes[pos..pos + 4]);
        let offset = read_len(bytes, pos + 4)?;
        if id as usize >= names.len() {
            return Err(ContainerError::MissingSectionName(id));
        }
        let name = &names[id as usize];
        assert(nv[id as int] == name@);
        validate_local_section_name(name.as_str())?;
        let mut j: usize = 0;
        #[verifier::loop_isolation(false)]
        while j < entries.len()
            invariant
                0 <= j <= entries@.len(),
                prev == entries_view(entries@),
                forall|i: int| 0 <= i < j ==> prev[i].name != name@,
            decreases entries@.len() - j,
        {
            if entries[j].name == *name {
                assert(prev[j as int].name == nv[id as int]);
                return Err(ContainerError::DuplicateChild);
            }
            j += 1;
        }
        entries.push(Entry { name: name.clone(), offset });
        proof {
            assert(entries_view(entries@) =~= prev.push(
                EntryView { name: nv[id as int], offset: offset as int },
            ));
        }
        k += 1;
    }
    Ok(entries)
}

/// The names of a section-name table.
pub open spec fn names_view(names: Seq<String>) -> Seq<Seq<char>> {
    names.map_values(|n: String| n@)
}

spec fn claimed_view(claimed: Seq<(usize, usize)>) -> Seq<(int, int)> {
    claimed.map_values(|c: (usize, usize)| (c.0 as int, c.1 as int))
}

fn overlaps_claimed(claimed: &Vec<(usize, usize)>, start: usize, end: usize) -> (b: bool)
    ensures
        b == exists|k: int|
            0 <= k < claimed@.len() && ranges_overlap(
                claimed_view(claimed@)[k],
                (start as int, end as int),
            ),
{
    let mut k: usize = 0;
    while k < claimed.len()
        invariant
            0 <= k <= claimed@.len(),
            forall|j: int|
                0 <= j < k ==> !ranges_overlap(
                    claimed_view(claimed@)[j],
                    (start as int, end as int),
                ),
        decreases claimed@.len() - k,
    {
        let (a, b) = claimed[k];
        if a < end && start < b {
            assert(ranges_overlap(claimed_view(claimed@)[k as int], (start as int, end as int)));
            return true;
        }
        k += 1;
    }
    false
}

/// Parses the section that starts at `start` and has path `path`.
fn parse_section(bytes: &[u8], names: &[String], start: usize, path: SectionPath) -> (r: Result<
    SectionNode,
    ContainerError,
>)
    ensures
        match parse_section_at(bytes@, names_view(names@), start as int, path@) {
            Ok(v) => r is Ok && node_matches(r->Ok_0, v),
            Err(e) => r == Err::<SectionNode, ContainerError>(e),
        },
    decreases bytes@.len() - start,
{
    let ghost nv = names_view(names@);
    let len = bytes.len();
    if start > usize::MAX - 16 {
        return Err(ContainerError::Overflow);
    }
    if start + 16 > len {
        return Err(ContainerError::SectionFrameIncomplete);
    }
    let slen = read_len(bytes, start)?;
    let hlen = read_len(bytes, start + 8)?;
    if start > usize::MAX - slen {
        return Err(ContainerError::Overflow);
    }
    let send = start + slen;
    if send > len {
        return Err(ContainerError::SectionPastEnd);
    }
    if hlen > slen {
        return Err(ContainerError::HeaderLongerThanSection);
    }
    let hstart = start + 16;
    if hstart > usize::MAX - hlen {
        return Err(ContainerError::Overflow);
    }
    let hend = hstart + hlen;
    if hend > usize::MAX - 8 {
        return Err(ContainerError::Overflow);
    }
    let bstart = hend + 8;
    if bstart > send {
        return Err(ContainerError::BytecodeHeaderIncomplete);
    }
    let blen = read_len(bytes, hend)?;
    if bstart > usize::MAX - blen {
        return Err(ContainerError::Overflow);
    }
    let bend = bstart + blen;
    if bend > send {
        return Err(ContainerError::BytecodePastSection);
    }
    if bend > usize::MAX - 4 {
        return Err(ContainerError::Overflow);
    }
    if bend + 4 > send {
        return Err(ContainerError::ChildTableHeaderIncomplete);
    }
    let count = read_u32_le(&bytes[bend..bend + 4]) as usize;
    let total = match count.checked_mul(12) {
        Some(t) => t,
        None => {
            return Err(ContainerError::Overflow);
        },
    };
    if total > usize::MAX - 4 || bend + 4 > usize::MAX - total {
        return Err(ContainerError::Overflow);
    }
    let table_end = bend + 4 + total;
    if table_end > send {
        return Err(ContainerError::ChildTableIncomplete);
    }
    let entries = read_child_section_table(bytes, names, bend + 4, count)?;
    let ghost ev = entries_view(entries@);
    let mut claimed: Vec<(usize, usize)> = Vec::new();
    claimed.push((bstart, table_end));
    let mut children: Vec<SectionNode> = Vec::new();
    let ghost mut done: Seq<NodeView> = Seq::empty();
    let mut k: usize = 0;
    proof {
        assert(nodes_match(children@, done));
        assert(claimed_view(claimed@) =~= seq![(bstart as int, table_end as int)]);
        assert(ev.skip(0) =~= ev);
        assert(prepend(done, parse_children(bytes@, nv, start as int, send as int, table_end as int, path@, ev, seq![(bstart as int, table_end as int)])) =~= parse_children(bytes@, nv, start as int, send as int, table_end as int, path@, ev, seq![(bstart as int, table_end as int)]));
    }
    let ghost whole = parse_children(bytes@, nv, start as int, send as int, table_end as int, path@, ev, seq![(bstart as int, table_end as int)]);
    let ghost node_of = |children: Seq<NodeView>| NodeView {
        path: path@,
        section: (start as int, send as int),
        header: (hstart as int, hend as int),
        bytecode: (bstart as int, bend as int),
        children,
    };
    assert(parse_section_at(bytes@, nv, start as int, path@) == match whole {
        Err(e) => Err(e),
        Ok(children) => Ok::<NodeView, ContainerError>(node_of(children)),
    });
    while k < entries.len()
        invariant
            0 <= k <= entries@.len(),
            ev == entries_view(entries@),
            nv == names_view(names@),
            whole == parse_children(bytes@, nv, start as int, send as int, table_end as int, path@, ev, seq![(bstart as int, table_end as int)]),
            parse_section_at(bytes@, nv, start as int, path@) == match whole {
                Err(e) => Err(e),
                Ok(children) => Ok::<NodeView, ContainerError>(node_of(children)),
            },
            len == bytes@.len(),
            start < table_end <= send <= len,
            children@.len() == k,
            done.len() == k,
            nodes_match(children@, done),
            parse_children(bytes@, nv, start as int, send as int, table_end as int, path@, ev, seq![(bstart as int, table_end as int)])
                == prepend(done, parse_children(bytes@, nv, start as int, send as int, table_end as int, path@, ev.skip(k as int), claimed_view(claimed@))),
        decreases entries@.len() - k,
    {
        let ghost rest = ev.skip(k as int);
        let ghost cv = claimed_view(claimed@);
        assert(rest[0] == ev[k as int]);
        assert(rest.drop_first() =~= ev.skip(k + 1));
        let offset = entries[k].offset;
        if start > usize::MAX - offset {
            return Err(ContainerError::Overflow);
        }
        let cstart = start + offset;
        if cstart < table_end {
            return Err(ContainerError::ChildBeforeTableEnd);
        }
        if cstart >= send {
            return Err(ContainerError::ChildPastSectionEnd);
        }
        if cstart > usize::MAX - 16 {
            return Err(ContainerError::Overflow);
        }
        if cstart + 16 > send {
            return Err(ContainerError::ChildPastSectionEnd);
        }
        let clen = read_len(bytes, cstart)?;
        let _chlen = read_len(bytes, cstart + 8)?;
        if cstart > usize::MAX - clen {
            return Err(ContainerError::Overflow);
        }
        let cend = cstart + clen;
        if cend > send {
            return Err(ContainerError::ChildPastSectionEnd);
        }
        if overlaps_claimed(&claimed, cstart, cend) {
            return Err(ContainerError::ChildOverlaps);
        }
        claimed.push((cstart, cend));
        proof {
            assert(claimed_view(claimed@) =~= cv.push((cstart as int, cend as int)));
        }
        let child_path = path.child(entries[k].name.clone());
        let node = parse_section(bytes, names, cstart, child_path);
        let node = match node {
            Ok(n) => n,
            Err(e) => {
                return Err(e);
            },
        };
        let ghost nview = parse_section_at(bytes@, nv, cstart as int, path@.push(ev[k as int].name))->Ok_0;
        proof {
            let tail = parse_children(bytes@, nv, start as int, send as int, table_end as int, path@, ev.skip(k + 1), claimed_view(claimed@));
            match tail {
                Ok(r) => {
                    assert(done + (seq![nview] + r) =~= done.push(nview) + r);
                },
                Err(_) => {},
            }
            lemma_nodes_match_push(children@, done, node, nview);
            done = done.push(nview);
        }
        children.push(node);
        k += 1;
    }
    proof {
        assert(ev.skip(k as int) =~= Seq::<EntryView>::empty());
        assert(done + Seq::<NodeView>::empty() =~= done);
        assert(whole == Ok::<Seq<NodeView>, ContainerError>(done));
    }
    let node = SectionNode {
        path,
        section: Range { start, end: send },
        header: Range { start: hstart, end: hend },
        bytecode: Range { start: bstart, end: bend },
        children,
    };
    assert(node_matches(node, node_of(done)));
    Ok(node)
}

/// Adds two positions, refusing a sum that does not fit in `usize`.
pub fn checked_add(lhs: usize, rhs: usize) -> (r: Result<usize, ContainerError>)
    ensures
        lhs + rhs <= usize::MAX ==> r == Ok::<usize, ContainerError>((lhs + rhs) as usize),
        lhs + rhs > usize::MAX ==> r == Err::<usize, ContainerError>(ContainerError::Overflow),
{
    match lhs.checked_add(rhs) {
        Some(sum) => Ok(sum),
        None => Err(ContainerError::Overflow),
    }
}

/// Checks the fixed header of a container and returns the byte range of its
/// program context.
pub fn context_range(bytes: &[u8]) -> (r: Result<Range<usize>, ContainerError>)
    ensures
        match parse_context(bytes@) {
            Ok(c) => r is Ok && range_is(r->Ok_0, c),
            Err(e) => r == Err::<Range<usize>, ContainerError>(e),
        },
{
    let len = bytes.len();
    if len < 4 {
        return Err(ContainerError::TruncatedHeader);
    }
    if bytes[0] != 0x56 || bytes[1] != 0x48 || bytes[2] != 0x42 || bytes[3] != 0x43 {
        proof {
            if bytes@.subrange(0, 4) == container_magic() {
                assert(bytes@.subrange(0, 4)[1] == bytes@[1]);
            }
        }
        return Err(ContainerError::BadMagic);
    }
    assert(bytes@.subrange(0, 4) =~= container_magic());
    if len < 6 {
        return Err(ContainerError::TruncatedHeader);
    }
    let version = read_u16_le(&bytes[4..6]);
    if version != VERSION {
        return Err(ContainerError::UnsupportedVersion(version));
    }
    if len < 8 {
        return Err(ContainerError::TruncatedHeader);
    }
    let flags = read_u16_le(&bytes[6..8]);
    if flags != FLAGS {
        return Err(ContainerError::UnsupportedFlags(flags));
    }
    if len < 16 {
        return Err(ContainerError::TruncatedHeader);
    }
    let context_len = read_len(bytes, 8)?;
    let context_end = checked_add(16, context_len)?;
    if context_end > len {
        return Err(ContainerError::ContextOutOfBounds);
    }
    Ok(Range { start: 16, end: context_end })
}

/// Parses a binary program container, looking up child section names by
/// index in `section_names`.
pub fn parse_file(bytes: &[u8], section_names: &[String]) -> (r: Result<ParsedFile, ContainerError>)
    ensures
        match parse_container(bytes@, names_view(section_names@)) {
            Ok(v) => r is Ok && file_matches(r->Ok_0, v),
            Err(e) => r == Err::<ParsedFile, ContainerError>(e),
        },
{
    let context = context_range(bytes)?;
    let root = parse_section(bytes, section_names, context.end, SectionPath::root())?;
    if root.section.end != bytes.len() {
        return Err(ContainerError::LengthMismatch);
    }
    Ok(ParsedFile { context, root })
}

/// A parsed container's context follows the fixed header, its root section
/// follows the context and ends the file, and the root's path is empty.
pub proof fn lemma_file_layout(bytes: Seq<u8>, names: Seq<Seq<char>>)
    requires
        parse_container(bytes, names) is Ok,
    ensures
        ({
            let f = parse_container(bytes, names)->Ok_0;
            &&& f.context.0 == 16 <= f.context.1 == f.root.section.0
            &&& f.root.section.1 == bytes.len()
            &&& f.root.path == Seq::<Seq<char>>::empty()
        }),
{
    let c = parse_context(bytes)->Ok_0;
    lemma_section_layout(bytes, names, c.1, Seq::empty());
}

/// The start and end of the section parsed at `start`, as its frame says.
proof fn lemma_section_extent(bytes: Seq<u8>, names: Seq<Seq<char>>, start: int, path: Seq<Seq<char>>)
    requires
        parse_section_at(bytes, names, start, path) is Ok,
    ensures
        ({
            let v = parse_section_at(bytes, names, start, path)->Ok_0;
            &&& v.section == (start, start + le_at(bytes, start, 8))
            &&& start + 28 <= v.section.1 <= bytes.len()
        }),
{
}

/// The children parsed from a child table lie after the table and inside the
/// parent, and overlap neither each other nor the ranges already claimed.
proof fn lemma_children_layout(
    bytes: Seq<u8>,
    names: Seq<Seq<char>>,
    pstart: int,
    pend: int,
    table_end: int,
    path: Seq<Seq<char>>,
    entries: Seq<EntryView>,
    claimed: Seq<(int, int)>,
)
    requires
        pstart < table_end,
        pend <= bytes.len(),
        parse_children(bytes, names, pstart, pend, table_end, path, entries, claimed) is Ok,
    ensures
        ({
            let cs = parse_children(bytes, names, pstart, pend, table_end, path, entries, claimed)->Ok_0;
            &&& cs.len() == entries.len()
            &&& forall|i: int|
                0 <= i < cs.len() ==> table_end <= (#[trigger] cs[i]).section.0 < cs[i].section.1 <= pend
            &&& forall|i: int, k: int|
                0 <= i < cs.len() && 0 <= k < claimed.len() ==> !ranges_overlap(
                    #[trigger] claimed[k],
                    (#[trigger] cs[i]).section,
                )
            &&& forall|i: int, j: int|
                0 <= i < j < cs.len() ==> !ranges_overlap(
                    (#[trigger] cs[i]).section,
                    (#[trigger] cs[j]).section,
                )
        }),
    decreases entries.len(),
{
    if entries.len() > 0 {
        let entry = entries[0];
        let cstart = pstart + entry.offset;
        let cend = cstart + le_at(bytes, cstart, 8);
        let node = parse_section_at(bytes, names, cstart, path.push(entry.name))->Ok_0;
        lemma_section_extent(bytes, names, cstart, path.push(entry.name));
        let claimed2 = claimed.push((cstart, cend));
        lemma_children_layout(bytes, names, pstart, pend, table_end, path, entries.drop_first(), claimed2);
        let rest = parse_children(bytes, names, pstart, pend, table_end, path, entries.drop_first(), claimed2)->Ok_0;
        let cs = parse_children(bytes, names, pstart, pend, table_end, path, entries, claimed)->Ok_0;
        assert(cs == seq![node] + rest);
        assert forall|i: int, k: int|
            0 <= i < cs.len() && 0 <= k < claimed.len() implies !ranges_overlap(
                #[trigger] claimed[k],
                (#[trigger] cs[i]).section,
            ) by {
            if i > 0 {
                assert(cs[i] == rest[i - 1]);
                assert(claimed2[k] == claimed[k]);
            }
        }
        assert forall|i: int, j: int|
            0 <= i < j < cs.len() implies !ranges_overlap(
                (#[trigger] cs[i]).section,
                (#[trigger] cs[j]).section,
            ) by {
            assert(cs[j] == rest[j - 1]);
            if i > 0 {
                assert(cs[i] == rest[i - 1]);
            } else {
                assert(claimed2[claimed.len() as int] == (cstart, cend));
                assert(!ranges_overlap(claimed2[claimed.len() as int], rest[j - 1].section));
            }
        }
        assert forall|i: int|
            0 <= i < cs.len() implies table_end <= (#[trigger] cs[i]).section.0 < cs[i].section.1 <= pend by {
            if i > 0 {
                assert(cs[i] == rest[i - 1]);
            }
        }
    }
}

/// Every parsed section is laid out in order within the file: frame, header,
/// bytecode length, bytecode, child table; its children lie after the child
/// table and within the section, and neither overlap each other nor the
/// section's bytecode and child table.
pub proof fn lemma_section_layout(bytes: Seq<u8>, names: Seq<Seq<char>>, start: int, path: Seq<Seq<char>>)
    requires
        0 <= start,
        parse_section_at(bytes, names, start, path) is Ok,
    ensures
        ({
            let v = parse_section_at(bytes, names, start, path)->Ok_0;
            &&& v.path == path
            &&& 0 <= start == v.section.0
            &&& v.section.0 + 16 == v.header.0 <= v.header.1
            &&& v.header.1 + 8 == v.bytecode.0 <= v.bytecode.1
            &&& v.bytecode.1 + 4 <= v.section.1 <= bytes.len()
            &&& forall|i: int|
                0 <= i < v.children.len() ==> v.bytecode.1 + 4 <= (#[trigger] v.children[i]).section.0
                    < v.children[i].section.1 <= v.section.1
            &&& forall|i: int|
                0 <= i < v.children.len() ==> !ranges_overlap(
                    (v.bytecode.0, v.bytecode.1),
                    (#[trigger] v.children[i]).section,
                )
            &&& forall|i: int, j: int|
                0 <= i < j < v.children.len() ==> !ranges_overlap(
                    (#[trigger] v.children[i]).section,
                    (#[trigger] v.children[j]).section,
                )
        }),
{
    let v = parse_section_at(bytes, names, start, path)->Ok_0;
    let slen = le_at(bytes, start, 8);
    let hlen = le_at(bytes, start + 8, 8);
    let send = start + slen;
    let hend = start + 16 + hlen;
    let bstart = hend + 8;
    let blen = le_at(bytes, hend, 8);
    let bend = bstart + blen;
    let count = le_at(bytes, bend, 4);
    let table_end = bend + 4 + 12 * count;
    let entries = resolve_entries(bytes, names, bend + 4, count)->Ok_0;
    let claimed = seq![(bstart, table_end)];
    lemma_children_layout(bytes, names, start, send, table_end, path, entries, claimed);
    assert(v.children == parse_children(bytes, names, start, send, table_end, path, entries, claimed)->Ok_0);
    assert forall|i: int|
        0 <= i < v.children.len() implies !ranges_overlap(
            (v.bytecode.0, v.bytecode.1),
            (#[trigger] v.children[i]).section,
        ) by {
        assert(claimed[0] == (bstart, table_end));
        assert(!ranges_overlap(claimed[0], v.children[i].section));
    }
}

/// One binary section's layout: frame, header, bytecode length, bytecode
/// and child table in order; each child after the child table and within
/// the section, no two children overlapping; each child's path is the
/// section's path and a valid local name, no two children sharing a name.
pub open spec fn section_fits(v: NodeView) -> bool {
    &&& v.section.0 + 16 == v.header.0 <= v.header.1
    &&& v.header.1 + 8 == v.bytecode.0 <= v.bytecode.1
    &&& v.bytecode.1 + 4 + 12 * v.children.len() <= v.section.1
    &&& forall|i: int|
        0 <= i < v.children.len() ==> v.bytecode.1 + 4 + 12 * v.children.len() <= (
        #[trigger] v.children[i]).section.0 < v.children[i].section.1 <= v.section.1
    &&& forall|i: int, j: int|
        0 <= i < j < v.children.len() ==> !ranges_overlap(
            (#[trigger] v.children[i]).section,
            (#[trigger] v.children[j]).section,
        )
    &&& forall|i: int|
        0 <= i < v.children.len() ==> {
            &&& (#[trigger] v.children[i]).path.len() == v.path.len() + 1
            &&& v.children[i].path.drop_last() == v.path
            &&& valid_local_name(v.children[i].path.last())
        }
    &&& forall|i: int, j: int|
        0 <= i < j < v.children.len() ==> (#[trigger] v.children[i]).path.last() != (
        #[trigger] v.children[j]).path.last()
}

/// Every section of the tree under `v` has the layout of `section_fits`.
pub open spec fn tree_fits(v: NodeView) -> bool
    decreases v,
{
    &&& section_fits(v)
    &&& forall|i: int| 0 <= i < v.children.len() ==> tree_fits(#[trigger] v.children[i])
}

/// The resolved entries of a child table: one per entry, each with a valid
/// local name, no two with the same name.
proof fn lemma_resolve_entries(bytes: Seq<u8>, names: Seq<Seq<char>>, table: int, n: nat)
    requires
        resolve_entries(bytes, names, table, n) is Ok,
    ensures
        ({
            let es = resolve_entries(bytes, names, table, n)->Ok_0;
            &&& es.len() == n
            &&& forall|i: int| 0 <= i < es.len() ==> valid_local_name(#[trigger] es[i].name)
            &&& forall|i: int, j: int| 0 <= i < j < es.len() ==> (#[trigger] es[i]).name != (#[trigger] es[j]).name
        }),
    decreases n,
{
    if n > 0 {
        lemma_resolve_entries(bytes, names, table, (n - 1) as nat);
        let prev = resolve_entries(bytes, names, table, (n - 1) as nat)->Ok_0;
        let es = resolve_entries(bytes, names, table, n)->Ok_0;
        assert(es == prev.push(es[n - 1]));
        assert forall|i: int, j: int| 0 <= i < j < es.len() implies (#[trigger] es[i]).name != (#[trigger] es[j]).name by {
            assert(es[i] == prev[i]);
            if j < n - 1 {
                assert(es[j] == prev[j]);
            } else {
                assert(!(prev[i].name == es[j].name));
            }
        }
        assert forall|i: int| 0 <= i < es.len() implies valid_local_name(#[trigger] es[i].name) by {
            if i < n - 1 {
                assert(es[i] == prev[i]);
            }
        }
    }
}

/// Each parsed child is the section parsed at its entry's offset from the
/// parent, with the parent's path and the entry's name.
proof fn lemma_children_nodes(
    bytes: Seq<u8>,
    names: Seq<Seq<char>>,
    pstart: int,
    pend: int,
    table_end: int,
    path: Seq<Seq<char>>,
    entries: Seq<EntryView>,
    claimed: Seq<(int, int)>,
)
    requires
        pstart < table_end,
        pend <= bytes.len(),
        parse_children(bytes, names, pstart, pend, table_end, path, entries, claimed) is Ok,
    ensures
        ({
            let cs = parse_children(bytes, names, pstart, pend, table_end, path, entries, claimed)->Ok_0;
            &&& cs.len() == entries.len()
            &&& forall|i: int| 0 <= i < entries.len() ==> table_end <= pstart + (#[trigger] entries[i]).offset
            &&& forall|i: int| 0 <= i < cs.len() ==>
                parse_section_at(bytes, names, pstart + entries[i].offset, path.push(entries[i].name))
                    == Ok::<NodeView, ContainerError>(#[trigger] cs[i])
        }),
    decreases entries.len(),
{
    if entries.len() > 0 {
        let entry = entries[0];
        let cstart = pstart + entry.offset;
        let cend = cstart + le_at(bytes, cstart, 8);
        let claimed2 = claimed.push((cstart, cend));
        lemma_children_nodes(bytes, names, pstart, pend, table_end, path, entries.drop_first(), claimed2);
        let node = parse_section_at(bytes, names, cstart, path.push(entry.name))->Ok_0;
        let rest = parse_children(bytes, names, pstart, pend, table_end, path, entries.drop_first(), claimed2)->Ok_0;
        let cs = parse_children(bytes, names, pstart, pend, table_end, path, entries, claimed)->Ok_0;
        assert(cs == seq![node] + rest);
        assert(cs.len() == entries.len());
        assert(cs[0] == node);
        assert forall|i: int| 0 <= i < entries.len() implies table_end <= pstart + (#[trigger] entries[i]).offset by {
            if i > 0 {
                assert(entries[i] == entries.drop_first()[i - 1]);
            }
        }
        assert forall|i: int| 0 <= i < cs.len() implies
            parse_section_at(bytes, names, pstart + entries[i].offset, path.push(entries[i].name))
                == Ok::<NodeView, ContainerError>(#[trigger] cs[i]) by {
            if i > 0 {
                assert(cs[i] == rest[i - 1]);
                assert(entries[i] == entries.drop_first()[i - 1]);
            }
        }
    }
}

/// Every section of a section tree parsed at `start` has the layout of
/// `section_fits`.
proof fn lemma_tree_layout(bytes: Seq<u8>, names: Seq<Seq<char>>, start: int, path: Seq<Seq<char>>)
    requires
        0 <= start,
        parse_section_at(bytes, names, start, path) is Ok,
    ensures
        tree_fits(parse_section_at(bytes, names, start, path)->Ok_0),
    decreases bytes.len() - start,
{
    let v = parse_section_at(bytes, names, start, path)->Ok_0;
    lemma_section_layout(bytes, names, start, path);
    let slen = le_at(bytes, start, 8);
    let hlen = le_at(bytes, start + 8, 8);
    let send = start + slen;
    let hend = start + 16 + hlen;
    let bstart = hend + 8;
    let blen = le_at(bytes, hend, 8);
    let bend = bstart + blen;
    let count = le_at(bytes, bend, 4);
    let table_end = bend + 4 + 12 * count;
    let entries = resolve_entries(bytes, names, bend + 4, count)->Ok_0;
    let claimed = seq![(bstart, table_end)];
    lemma_resolve_entries(bytes, names, bend + 4, count);
    lemma_children_layout(bytes, names, start, send, table_end, path, entries, claimed);
    lemma_children_nodes(bytes, names, start, send, table_end, path, entries, claimed);
    let cs = parse_children(bytes, names, start, send, table_end, path, entries, claimed)->Ok_0;
    assert(v.children == cs);
    assert forall|i: int| 0 <= i < v.children.len() implies {
        &&& 0 <= start + entries[i].offset
        &&& parse_section_at(bytes, names, start + entries[i].offset, path.push(entries[i].name))
            == Ok::<NodeView, ContainerError>(v.children[i])
    } by {
        assert(cs[i] == v.children[i]);
        assert(table_end <= start + entries[i].offset);
    }
    assert forall|i: int| 0 <= i < v.children.len() implies {
        &&& (#[trigger] v.children[i]).path.len() == v.path.len() + 1
        &&& v.children[i].path.drop_last() == v.path
        &&& valid_local_name(v.children[i].path.last())
    } by {
        assert(cs[i] == v.children[i]);
        lemma_section_layout(bytes, names, start + entries[i].offset, path.push(entries[i].name));
        assert(path.push(entries[i].name).drop_last() == path);
        assert(valid_local_name(entries[i].name));
    }
    assert forall|i: int, j: int| 0 <= i < j < v.children.len() implies (#[trigger] v.children[i]).path.last() != (
        #[trigger] v.children[j]).path.last() by {
        assert(cs[i] == v.children[i]);
        assert(cs[j] == v.children[j]);
        lemma_section_layout(bytes, names, start + entries[i].offset, path.push(entries[i].name));
        lemma_section_layout(bytes, names, start + entries[j].offset, path.push(entries[j].name));
        assert(entries[i].name != entries[j].name);
    }
    assert(section_fits(v));
    assert forall|i: int| 0 <= i < v.children.len() implies tree_fits(#[trigger] v.children[i]) by {
        assert(cs[i] == v.children[i]);
        lemma_tree_layout(bytes, names, start + entries[i].offset, path.push(entries[i].name));
    }
}

/// In a parsed container every section of the tree, from the root down,
/// has the layout of `section_fits`: frame, header, bytecode and child
/// table in order; children after the child table, inside their parent and
/// apart from one another; each child named by a valid local name that no
/// sibling shares, its path its parent's path and that name.
pub proof fn lemma_container_tree(bytes: Seq<u8>, names: Seq<Seq<char>>)
    requires
        parse_container(bytes, names) is Ok,
    ensures
        tree_fits(parse_container(bytes, names)->Ok_0.root),
        parse_container(bytes, names)->Ok_0.root.path == Seq::<Seq<char>>::empty(),
{
    let c = parse_context(bytes)->Ok_0;
    lemma_tree_layout(bytes, names, c.1, Seq::empty());
    lemma_section_layout(bytes, names, c.1, Seq::empty());
}

} // verus!
