//! Filesystem paths below the workspace root, modelled as an opaque root
//! plus a sequence of single-segment components.
//!
//! Keeping the components explicit (instead of an opaque OS path) lets the
//! crate prove where a path points: two paths over the same root whose
//! component sequences diverge name disjoint subtrees, so operations on one
//! (say, purging every build directory) cannot touch the other (say, the
//! toolchain root).

use vstd::prelude::*;
use vstd::string::StrSliceExecFns;

verus! {

/// True for characters that may appear in a single path component: no
/// separators and no NUL, so a component can never name more than one level
/// of the directory tree.
pub open spec fn is_component_char(c: char) -> bool {
    c != '/' && c != '\\' && c != '\u{0}'
}

/// A valid path component: non-empty, made of component characters, and not
/// starting with `.` (which rules out `.`, `..` and hidden scratch entries).
pub open spec fn is_valid_component(s: Seq<char>) -> bool {
    &&& s.len() > 0
    &&& s[0] != '.'
    &&& forall|i: int| 0 <= i < s.len() ==> is_component_char(#[trigger] s[i])
}

/// Two component sequences diverge when some common index holds different
/// components; the subtrees they name below one root are then disjoint.
pub open spec fn components_diverge(a: Seq<Seq<char>>, b: Seq<Seq<char>>) -> bool {
    exists|i: int| 0 <= i < a.len() && i < b.len() && a[i] != b[i]
}

/// A path below a workspace root: the root as the caller supplied it, plus
/// the components appended beneath it.
#[derive(Debug, Clone)]
pub struct WsPath {
    root: String,
    rel: Vec<String>,
}

impl WsPath {
    /// The root portion, as character sequence.
    pub closed spec fn spec_root(&self) -> Seq<char> {
        self.root@
    }

    /// The components below the root, outermost first.
    pub closed spec fn spec_rel(&self) -> Seq<Seq<char>> {
        self.rel.deep_view()
    }

    /// Every component below the root is a valid single segment, so the
    /// path cannot escape the subtree of its root.
    pub open spec fn wf(&self) -> bool {
        forall|i: int| 0 <= i < self.spec_rel().len() ==> is_valid_component(
            #[trigger] self.spec_rel()[i],
        )
    }

    /// A path naming the root itself.
    pub fn new(root: &str) -> (r: WsPath)
        ensures
            r.spec_root() == root@,
            r.spec_rel() == Seq::<Seq<char>>::empty(),
            r.wf(),
    {
        let r = WsPath { root: root.to_owned(), rel: Vec::new() };
        proof {
            assert(r.spec_rel() =~= Seq::<Seq<char>>::empty());
        }
        r
    }

    /// The path one level further down, below component `name`.
    pub fn child(self, name: &str) -> (r: WsPath)
        requires
            is_valid_component(name@),
        ensures
            r.spec_root() == self.spec_root(),
            r.spec_rel() == self.spec_rel().push(name@),
            self.wf() ==> r.wf(),
    {
        let ghost before = self.rel.deep_view();
        let mut rel = self.rel;
        rel.push(name.to_owned());
        let r = WsPath { root: self.root, rel };
        proof {
            assert(r.spec_rel() =~= before.push(name@));
        }
        r
    }

    /// The number of components below the root.
    pub fn depth(&self) -> (n: usize)
        ensures
            n == self.spec_rel().len(),
    {
        self.rel.len()
    }

    /// The root portion, for handing to the platform's path routines.
    pub fn root_str(&self) -> (r: &str)
        ensures
            r@ == self.spec_root(),
    {
        self.root.as_str()
    }

    /// The component at position `i` below the root.
    pub fn component(&self, i: usize) -> (r: &str)
        requires
            i < self.spec_rel().len(),
        ensures
            r@ == self.spec_rel()[i as int],
    {
        self.rel[i].as_str()
    }
}

/// Exec counterpart of [`is_valid_component`].
pub fn valid_component(name: &str) -> (r: bool)
    ensures
        r == is_valid_component(name@),
{
    let len = name.unicode_len();
    if len == 0 {
        return false;
    }
    if name.get_char(0) == '.' {
        return false;
    }
    let mut i: usize = 0;
    while i < len
        invariant
            len == name@.len(),
            i <= len,
            name@.len() > 0,
            name@[0] != '.',
            forall|j: int| 0 <= j < i ==> is_component_char(#[trigger] name@[j]),
        decreases len - i,
    {
        let c = name.get_char(i);
        if c == '/' || c == '\\' || c == '\u{0}' {
            return false;
        }
        i = i + 1;
    }
    true
}

/// Paths over one root whose components diverge name disjoint subtrees:
/// neither is the other, neither lies below the other, and (components
/// being single segments) no filesystem entry lies below both.
pub open spec fn spec_disjoint_subtrees(a: WsPath, b: WsPath) -> bool {
    &&& a.spec_root() == b.spec_root()
    &&& components_diverge(a.spec_rel(), b.spec_rel())
}

/// Disjointness is inherited by everything beneath: paths extending two
/// diverging paths diverge at the same component, so work confined below
/// one subtree can never touch a file below the other.
pub proof fn lemma_divergence_extends(a: WsPath, b: WsPath, below_a: WsPath, below_b: WsPath)
    requires
        spec_disjoint_subtrees(a, b),
        below_a.spec_root() == a.spec_root(),
        below_b.spec_root() == b.spec_root(),
        a.spec_rel().is_prefix_of(below_a.spec_rel()),
        b.spec_rel().is_prefix_of(below_b.spec_rel()),
    ensures
        spec_disjoint_subtrees(below_a, below_b),
{
    let i = choose|i: int|
        0 <= i < a.spec_rel().len() && i < b.spec_rel().len() && a.spec_rel()[i]
            != b.spec_rel()[i];
    assert(below_a.spec_rel().subrange(0, a.spec_rel().len() as int)[i] == below_a.spec_rel()[i]);
    assert(below_b.spec_rel().subrange(0, b.spec_rel().len() as int)[i] == below_b.spec_rel()[i]);
    assert(below_a.spec_rel()[i] != below_b.spec_rel()[i]);
}

/// Diverging paths are never prefixes of one another: removing everything
/// below one of them leaves anything below the other untouched.
pub proof fn lemma_diverge_no_prefix(a: WsPath, b: WsPath)
    requires
        spec_disjoint_subtrees(a, b),
    ensures
        !a.spec_rel().is_prefix_of(b.spec_rel()),
        !b.spec_rel().is_prefix_of(a.spec_rel()),
        a.spec_rel() != b.spec_rel(),
{
    let i = choose|i: int|
        0 <= i < a.spec_rel().len() && i < b.spec_rel().len() && a.spec_rel()[i]
            != b.spec_rel()[i];
    if a.spec_rel().is_prefix_of(b.spec_rel()) {
        assert(b.spec_rel().subrange(0, a.spec_rel().len() as int)[i] == b.spec_rel()[i]);
    }
    if b.spec_rel().is_prefix_of(a.spec_rel()) {
        assert(a.spec_rel().subrange(0, b.spec_rel().len() as int)[i] == a.spec_rel()[i]);
    }
}

} // verus!
