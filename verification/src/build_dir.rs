//! Named, reusable build directories under `<root>/builds/`.
//!
//! A handle is cheap to make and does no filesystem work; the directory is
//! created lazily on first use. Distinct names occupy disjoint subtrees,
//! so builds under different names run concurrently without interfering;
//! two callers sharing one name must serialize externally.

use vstd::prelude::*;
use crate::paths::{is_valid_component, WsPath};
use crate::workspace::Workspace;

verus! {

/// A named directory for one build's working tree.
pub struct BuildDirectory {
    workspace: Workspace,
    name: String,
}

impl BuildDirectory {
    /// The directory's name under `builds/`.
    pub closed spec fn spec_name(&self) -> Seq<char> {
        self.name@
    }

    /// The workspace the directory belongs to.
    pub closed spec fn spec_workspace(&self) -> Workspace {
        self.workspace
    }

    /// The name is a valid single component, so the directory's path can
    /// never escape the builds subtree.
    pub open spec fn wf(&self) -> bool {
        is_valid_component(self.spec_name())
    }

    /// A handle for the build directory `name` of `workspace`; no
    /// filesystem work happens here.
    pub fn new(workspace: Workspace, name: &str) -> (r: BuildDirectory)
        requires
            is_valid_component(name@),
        ensures
            r.spec_name() == name@,
            r.spec_workspace() == workspace,
            r.wf(),
    {
        BuildDirectory { workspace, name: name.to_owned() }
    }

    /// The directory's name.
    pub fn name(&self) -> (r: &String)
        ensures
            r@ == self.spec_name(),
    {
        &self.name
    }

    /// Where the working tree lives: `<root>/builds/<name>`, always inside
    /// the workspace's builds subtree.
    pub fn build_path(&self) -> (r: WsPath)
        requires
            self.wf(),
        ensures
            r.spec_root() == self.spec_workspace().spec_root(),
            r.spec_rel() =~= seq!["builds"@, self.spec_name()],
            r.wf(),
    {
        let base = self.workspace.builds_dir();
        proof {
            lemma_builds_component();
        }
        base.child(self.name.as_str())
    }

    /// What a purge of this one directory removes: exactly its own
    /// subtree.
    pub fn purge_target(&self) -> (r: WsPath)
        requires
            self.wf(),
        ensures
            r.spec_root() == self.spec_workspace().spec_root(),
            r.spec_rel() =~= seq!["builds"@, self.spec_name()],
    {
        self.build_path()
    }
}

/// `builds` is a valid single component.
proof fn lemma_builds_component()
    ensures
        is_valid_component("builds"@),
{
    reveal_strlit("builds");
}

/// Build directories with distinct names occupy disjoint subtrees of one
/// workspace: commands working under the two paths touch no common
/// filesystem entry, so builds under distinct names run fully
/// concurrently.
pub proof fn lemma_distinct_build_dirs_disjoint(a: WsPath, b: WsPath, name_a: Seq<char>, name_b: Seq<char>)
    requires
        a.spec_root() == b.spec_root(),
        a.spec_rel() =~= seq!["builds"@, name_a],
        b.spec_rel() =~= seq!["builds"@, name_b],
        name_a != name_b,
    ensures
        crate::paths::spec_disjoint_subtrees(a, b),
        !a.spec_rel().is_prefix_of(b.spec_rel()),
        !b.spec_rel().is_prefix_of(a.spec_rel()),
{
    assert(a.spec_rel()[1] != b.spec_rel()[1]);
    crate::paths::lemma_diverge_no_prefix(a, b);
}

} // verus!
