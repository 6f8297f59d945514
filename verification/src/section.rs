//! Sections of a program container: their paths and parsed layout.
use vstd::prelude::*;
use std::ops::Range;

verus! {

/// The fully resolved path of a parsed section; the root has no components.
#[derive(Debug, Clone, PartialEq, Eq)]
pub struct SectionPath {
    components: Vec<String>,
}

impl View for SectionPath {
    type V = Seq<Seq<char>>;

    closed spec fn view(&self) -> Seq<Seq<char>> {
        self.components@.map_values(|c: String| c@)
    }
}

impl SectionPath {
    /// The root path.
    pub fn root() -> (p: SectionPath)
        ensures
            p@ == Seq::<Seq<char>>::empty(),
    {
        let p = SectionPath { components: Vec::new() };
        assert(p@ =~= Seq::<Seq<char>>::empty());
        p
    }

    /// Whether this is the root path.
    pub fn is_root(&self) -> (b: bool)
        ensures
            b == (self@.len() == 0),
    {
        self.components.len() == 0
    }

    /// The components of the path, outermost first.
    pub fn components(&self) -> (c: &[String])
        ensures
            c@.map_values(|s: String| s@) == self@,
    {
        self.components.as_slice()
    }

    /// The last component, or `None` for the root.
    pub fn local_name(&self) -> (n: Option<&str>)
        ensures
            self@.len() == 0 ==> n is None,
            self@.len() > 0 ==> n is Some && n->0@ == self@.last(),
    {
        if self.components.len() == 0 {
            None
        } else {
            Some(self.components[self.components.len() - 1].as_str())
        }
    }

    /// The path as text: `<root>` for the root, else its components joined
    /// by `/`.
    pub fn display_text(&self) -> (t: String)
        ensures
            t@ == path_text(self@),
    {
        if self.components.len() == 0 {
            let t = String::from_str("<root>");
            proof {
                reveal_strlit("<root>");
            }
            return t;
        }
        let mut t = String::new();
        let mut i: usize = 0;
        while i < self.components.len()
            invariant
                0 <= i <= self.components@.len(),
                self.components@.len() > 0,
                t@ == joined_components(self@, i as int),
            decreases self.components@.len() - i,
        {
            if i != 0 {
                let sep = "/";
                proof {
                    reveal_strlit("/");
                }
                t.append(sep);
            }
            t.append(self.components[i].as_str());
            assert(self@[i as int] == self.components@[i as int]@);
            i += 1;
        }
        t
    }

    /// The path of the child `local_name` of this section.
    pub fn child(&self, local_name: String) -> (p: SectionPath)
        ensures
            p@ == self@.push(local_name@),
    {
        let mut components = self.components.clone();
        proof {
            assert(components@ =~= self.components@);
        }
        components.push(local_name);
        let p = SectionPath { components };
        assert(p@ =~= self@.push(local_name@));
        p
    }
}

/// The first `n` components joined by `/`.
pub open spec fn joined_components(p: Seq<Seq<char>>, n: int) -> Seq<char>
    decreases n,
{
    if n <= 0 {
        Seq::empty()
    } else if n == 1 {
        p[0]
    } else {
        joined_components(p, n - 1) + seq!['/'] + p[n - 1]
    }
}

/// A path as text: `<root>` for the root, else its components joined by `/`.
pub open spec fn path_text(p: Seq<Seq<char>>) -> Seq<char> {
    if p.len() == 0 {
        seq!['<', 'r', 'o', 'o', 't', '>']
    } else {
        joined_components(p, p.len() as int)
    }
}

impl Default for SectionPath {
    /// The root path.
    fn default() -> (p: SectionPath)
        ensures
            p@ == Seq::<Seq<char>>::empty(),
    {
        SectionPath::root()
    }
}

/// A parsed section: its path, the byte ranges of the whole section, its
/// header, and its bytecode, and its child sections in table order.
#[derive(Debug, PartialEq, Eq)]
pub struct SectionNode {
    pub path: SectionPath,
    pub section: Range<usize>,
    pub header: Range<usize>,
    pub bytecode: Range<usize>,
    pub children: Vec<SectionNode>,
}

/// A parsed program file: the byte range of its program context and its
/// root section.
#[derive(Debug, PartialEq, Eq)]
pub struct ParsedFile {
    pub context: Range<usize>,
    pub root: SectionNode,
}

/// The abstract layout of a section: byte ranges as `(start, end)` pairs.
pub struct NodeView {
    pub path: Seq<Seq<char>>,
    pub section: (int, int),
    pub header: (int, int),
    pub bytecode: (int, int),
    pub children: Seq<NodeView>,
}

/// Whether a range covers exactly `start .. end`.
pub open spec fn range_is(r: Range<usize>, v: (int, int)) -> bool {
    r.start == v.0 && r.end == v.1
}

/// Whether a parsed section has the layout `v`, down to its last descendant.
pub open spec fn node_matches(n: SectionNode, v: NodeView) -> bool
    decreases n,
{
    &&& n.path@ == v.path
    &&& range_is(n.section, v.section)
    &&& range_is(n.header, v.header)
    &&& range_is(n.bytecode, v.bytecode)
    &&& nodes_match(n.children@, v.children)
}

/// Whether parsed sections have the layouts `vs`, one for one.
pub open spec fn nodes_match(ns: Seq<SectionNode>, vs: Seq<NodeView>) -> bool
    decreases ns,
{
    &&& ns.len() == vs.len()
    &&& ns.len() > 0 ==> node_matches(ns[0], vs[0]) && nodes_match(ns.drop_first(), vs.drop_first())
}

/// Matching sections can be extended by one more matching section.
pub proof fn lemma_nodes_match_push(ns: Seq<SectionNode>, vs: Seq<NodeView>, n: SectionNode, v: NodeView)
    requires
        nodes_match(ns, vs),
        node_matches(n, v),
    ensures
        nodes_match(ns.push(n), vs.push(v)),
    decreases ns.len(),
{
    if ns.len() > 0 {
        lemma_nodes_match_push(ns.drop_first(), vs.drop_first(), n, v);
        assert(ns.push(n).drop_first() =~= ns.drop_first().push(n));
        assert(vs.push(v).drop_first() =~= vs.drop_first().push(v));
        assert(ns.push(n)[0] == ns[0]);
        assert(vs.push(v)[0] == vs[0]);
    } else {
        assert(ns.push(n).drop_first() =~= Seq::<SectionNode>::empty());
        assert(vs.push(v).drop_first() =~= Seq::<NodeView>::empty());
        assert(nodes_match(Seq::<SectionNode>::empty(), Seq::<NodeView>::empty()));
    }
}

} // verus!
