//! Toolchains as filesystem-backed resources.
//!
//! The toolchain root directory is the single source of truth: nothing is
//! cached in memory, so several workspace instances over one root stay
//! consistent. Listing parses the entries of that directory; installing and
//! removing are planned here and delegated to the external installer, and
//! both are idempotent against what the directory already holds.

use vstd::prelude::*;
use crate::paths::is_valid_component;

verus! {

/// A named build toolchain under the workspace's toolchain root.
#[derive(Debug, Clone, PartialEq, Eq)]
pub enum Toolchain {
    /// A release-channel toolchain, installed as a plain directory.
    Dist { name: String },
    /// A custom toolchain, recorded as a link to a tree built elsewhere.
    Custom { name: String },
}

impl Toolchain {
    /// The toolchain's name.
    pub open spec fn spec_name(self) -> Seq<char> {
        match self {
            Toolchain::Dist { name } => name@,
            Toolchain::Custom { name } => name@,
        }
    }

    /// Whether this is a release-channel toolchain.
    pub open spec fn spec_is_dist(self) -> bool {
        match self {
            Toolchain::Dist { .. } => true,
            Toolchain::Custom { .. } => false,
        }
    }

    /// Toolchains are the same resource when kind and name agree.
    pub open spec fn spec_same(self, other: Toolchain) -> bool {
        self.spec_is_dist() == other.spec_is_dist() && self.spec_name() == other.spec_name()
    }

    /// The main toolchain every workspace keeps installed.
    pub fn main() -> (r: Toolchain)
        ensures
            r.spec_is_dist(),
            r.spec_name() == "stable"@,
    {
        Toolchain::Dist { name: "stable".to_owned() }
    }

    /// The toolchain's name.
    pub fn name(&self) -> (r: &String)
        ensures
            r@ == self.spec_name(),
    {
        match self {
            Toolchain::Dist { name } => name,
            Toolchain::Custom { name } => name,
        }
    }

    /// Whether this is a release-channel toolchain.
    pub fn is_dist(&self) -> (r: bool)
        ensures
            r == self.spec_is_dist(),
    {
        match self {
            Toolchain::Dist { .. } => true,
            Toolchain::Custom { .. } => false,
        }
    }

    /// Whether the two handles name the same toolchain resource.
    pub fn same_as(&self, other: &Toolchain) -> (r: bool)
        ensures
            r == self.spec_same(*other),
    {
        self.is_dist() == other.is_dist() && self.name().eq(other.name())
    }

    /// The argument that selects this toolchain on a `cargo` invocation.
    pub fn selector_arg(&self) -> (r: String)
        ensures
            r@ == "+"@ + self.spec_name(),
    {
        let mut s = <String as vstd::string::StringExecFns>::from_str("+");
        s.append(self.name().as_str());
        s
    }
}

/// What a scan of the toolchain root found for one directory entry.
#[derive(Debug, Clone, Copy, PartialEq, Eq, Structural)]
pub enum DirEntryKind {
    /// A plain directory.
    Directory,
    /// A symbolic link.
    Symlink,
    /// Anything else (a file, a socket, an unreadable entry).
    Other,
}

/// One entry of the toolchain root, as plain values: its name and what kind
/// of filesystem object it is.
#[derive(Debug, Clone, PartialEq, Eq)]
pub struct DirEntry {
    pub name: String,
    pub kind: DirEntryKind,
}

/// An entry is recognized as a toolchain when its name is a plain path
/// segment (non-empty, no separators, not hidden) and it is a directory
/// (a release-channel install) or a symlink (a custom toolchain). Every
/// other entry is silently skipped.
pub open spec fn spec_recognized(name: Seq<char>, kind: DirEntryKind) -> bool {
    is_valid_component(name) && kind != DirEntryKind::Other
}

/// The listing a toolchain root's entries produce: for each recognized
/// entry, in order, its name and whether it is a release-channel install.
pub open spec fn spec_listing(entries: Seq<DirEntry>) -> Seq<(Seq<char>, bool)>
    decreases entries.len(),
{
    if entries.len() == 0 {
        Seq::empty()
    } else {
        let done = spec_listing(entries.drop_last());
        let e = entries.last();
        if spec_recognized(e.name@, e.kind) {
            done.push((e.name@, e.kind == DirEntryKind::Directory))
        } else {
            done
        }
    }
}

/// Parse one entry of the toolchain root; `None` for unrecognized entries.
pub fn parse_entry(entry: &DirEntry) -> (r: Option<Toolchain>)
    ensures
        r is Some <==> spec_recognized(entry.name@, entry.kind),
        r matches Some(t) ==> t.spec_name() == entry.name@ && t.spec_is_dist() == (entry.kind
            == DirEntryKind::Directory),
{
    if crate::paths::valid_component(entry.name.as_str()) {
        match entry.kind {
            DirEntryKind::Directory => Some(Toolchain::Dist { name: entry.name.clone() }),
            DirEntryKind::Symlink => Some(Toolchain::Custom { name: entry.name.clone() }),
            DirEntryKind::Other => None,
        }
    } else {
        None
    }
}

/// All toolchains present under a toolchain root whose scan produced the
/// given entries, recognized entries parsed in order, unrecognized ones
/// skipped.
pub fn list_installed(entries: &Vec<DirEntry>) -> (r: Vec<Toolchain>)
    ensures
        r@.len() == spec_listing(entries@).len(),
        forall|i: int| 0 <= i < r@.len() ==> (#[trigger] r@[i]).spec_name() == spec_listing(
            entries@,
        )[i].0 && r@[i].spec_is_dist() == spec_listing(entries@)[i].1,
{
    let mut out: Vec<Toolchain> = Vec::new();
    let mut idx: usize = 0;
    while idx < entries.len()
        invariant
            idx <= entries@.len(),
            out@.len() == spec_listing(entries@.subrange(0, idx as int)).len(),
            forall|i: int| 0 <= i < out@.len() ==> (#[trigger] out@[i]).spec_name()
                == spec_listing(entries@.subrange(0, idx as int))[i].0
                && out@[i].spec_is_dist() == spec_listing(entries@.subrange(0, idx as int))[i].1,
        decreases entries@.len() - idx,
    {
        let ghost pre = entries@.subrange(0, idx as int);
        let ghost cur = entries@.subrange(0, idx as int + 1);
        proof {
            assert(cur.drop_last() =~= pre);
            assert(cur.last() == entries@[idx as int]);
        }
        match parse_entry(&entries[idx]) {
            Some(t) => out.push(t),
            None => (),
        }
        idx = idx + 1;
    }
    proof {
        assert(entries@.subrange(0, entries@.len() as int) =~= entries@);
    }
    out
}

/// Whether some toolchain in `installed` names the same resource as `t`.
pub open spec fn spec_contains(installed: Seq<Toolchain>, t: Toolchain) -> bool {
    exists|i: int| 0 <= i < installed.len() && (#[trigger] installed[i]).spec_same(t)
}

/// Exec counterpart of [`spec_contains`].
pub fn contains_toolchain(installed: &Vec<Toolchain>, t: &Toolchain) -> (r: bool)
    ensures
        r == spec_contains(installed@, *t),
{
    let mut idx: usize = 0;
    while idx < installed.len()
        invariant
            idx <= installed@.len(),
            forall|i: int| 0 <= i < idx ==> !(#[trigger] installed@[i]).spec_same(*t),
        decreases installed@.len() - idx,
    {
        if installed[idx].same_as(t) {
            return true;
        }
        idx = idx + 1;
    }
    false
}

/// The toolchains an installer must still install: those of `required` not
/// already present in `installed`, in order.
pub open spec fn spec_install_plan(installed: Seq<Toolchain>, required: Seq<Toolchain>) -> Seq<
    Toolchain,
>
    decreases required.len(),
{
    if required.len() == 0 {
        Seq::empty()
    } else {
        let done = spec_install_plan(installed, required.drop_last());
        if spec_contains(installed, required.last()) {
            done
        } else {
            done.push(required.last())
        }
    }
}

/// Plan an installation against what the toolchain root already holds.
/// Installing an already-present toolchain is a no-op, not an error, so the
/// plan holds exactly the required toolchains that are absent.
pub fn install_plan(installed: &Vec<Toolchain>, required: &Vec<Toolchain>) -> (r: Vec<Toolchain>)
    ensures
        r@.len() == spec_install_plan(installed@, required@).len(),
        forall|i: int| 0 <= i < r@.len() ==> (#[trigger] r@[i]).spec_same(
            spec_install_plan(installed@, required@)[i],
        ),
{
    let mut out: Vec<Toolchain> = Vec::new();
    let mut idx: usize = 0;
    while idx < required.len()
        invariant
            idx <= required@.len(),
            out@.len() == spec_install_plan(installed@, required@.subrange(0, idx as int)).len(),
            forall|i: int| 0 <= i < out@.len() ==> (#[trigger] out@[i]).spec_same(
                spec_install_plan(installed@, required@.subrange(0, idx as int))[i],
            ),
        decreases required@.len() - idx,
    {
        let ghost pre = required@.subrange(0, idx as int);
        let ghost cur = required@.subrange(0, idx as int + 1);
        proof {
            assert(cur.drop_last() =~= pre);
            assert(cur.last() == required@[idx as int]);
        }
        if !contains_toolchain(installed, &required[idx]) {
            out.push(required[idx].clone_full());
        }
        idx = idx + 1;
    }
    proof {
        assert(required@.subrange(0, required@.len() as int) =~= required@);
    }
    out
}

/// Uninstalling is idempotent the same way: removing an absent toolchain is
/// a no-op, so the single planned removal exists exactly when the toolchain
/// is present.
pub fn uninstall_needed(installed: &Vec<Toolchain>, target: &Toolchain) -> (r: bool)
    ensures
        r == spec_contains(installed@, *target),
{
    contains_toolchain(installed, target)
}

impl Toolchain {
    /// A copy naming the same toolchain.
    pub fn clone_full(&self) -> (r: Toolchain)
        ensures
            r.spec_same(*self),
            r.spec_is_dist() == self.spec_is_dist(),
            r.spec_name() == self.spec_name(),
    {
        match self {
            Toolchain::Dist { name } => Toolchain::Dist { name: name.clone() },
            Toolchain::Custom { name } => Toolchain::Custom { name: name.clone() },
        }
    }
}

/// Everything the first initializer installed stays installed, so a second
/// serialized initialization over the same root plans no installation work
/// at all: of N initializations racing on one workspace (serialized by the
/// init lock), exactly the first performs the install work.
pub proof fn lemma_reinit_installs_nothing(installed: Seq<Toolchain>, required: Seq<Toolchain>)
    requires
        forall|i: int| 0 <= i < required.len() ==> spec_contains(
            installed,
            #[trigger] required[i],
        ),
    ensures
        spec_install_plan(installed, required) =~= Seq::<Toolchain>::empty(),
    decreases required.len(),
{
    if required.len() > 0 {
        assert(spec_contains(installed, required[required.len() - 1]));
        lemma_reinit_installs_nothing(installed, required.drop_last());
    }
}

/// After the first initializer runs its plan, every required toolchain is
/// present: what was already installed is kept, and the plan adds the rest.
pub proof fn lemma_first_init_completes(installed: Seq<Toolchain>, required: Seq<Toolchain>)
    ensures
        forall|i: int| 0 <= i < required.len() ==> spec_contains(
            installed + spec_install_plan(installed, required),
            #[trigger] required[i],
        ),
    decreases required.len(),
{
    let plan = spec_install_plan(installed, required);
    if required.len() > 0 {
        let prefix = required.drop_last();
        let subplan = spec_install_plan(installed, prefix);
        lemma_first_init_completes(installed, prefix);
        lemma_install_plan_prefix(installed, required);
        assert forall|i: int| 0 <= i < required.len() implies spec_contains(
            installed + plan,
            #[trigger] required[i],
        ) by {
            if i < required.len() - 1 {
                assert(required.drop_last()[i] == required[i]);
                assert(spec_contains(installed + subplan, required[i]));
                let j = choose|j: int|
                    0 <= j < (installed + subplan).len() && (#[trigger] (installed + subplan)[j])
                        .spec_same(required[i]);
                assert((installed + plan)[j].spec_same(required[i]));
            } else {
                if spec_contains(installed, required.last()) {
                    let j = choose|j: int|
                        0 <= j < installed.len() && (#[trigger] installed[j]).spec_same(
                            required.last(),
                        );
                    assert((installed + plan)[j].spec_same(required[i]));
                } else {
                    assert(plan == subplan.push(required.last()));
                    let j = installed.len() + plan.len() - 1;
                    assert((installed + plan)[j] == required.last());
                    assert((installed + plan)[j].spec_same(required[i]));
                }
            }
        }
    }
}

/// Initialization work happens exactly once per root: the first serialized
/// initializer's plan leaves every required toolchain present, and against
/// that state the next initializer (and so each later one) plans nothing.
pub proof fn lemma_exactly_one_initializer_works(
    installed: Seq<Toolchain>,
    required: Seq<Toolchain>,
)
    ensures
        spec_install_plan(installed + spec_install_plan(installed, required), required)
            =~= Seq::<Toolchain>::empty(),
{
    lemma_first_init_completes(installed, required);
    lemma_reinit_installs_nothing(installed + spec_install_plan(installed, required), required);
}

/// The plan for a longer requirement list extends the plan for its prefix.
proof fn lemma_install_plan_prefix(installed: Seq<Toolchain>, required: Seq<Toolchain>)
    requires
        required.len() > 0,
    ensures
        spec_install_plan(installed, required.drop_last()).is_prefix_of(
            spec_install_plan(installed, required),
        ),
{
    let sub = spec_install_plan(installed, required.drop_last());
    let whole = spec_install_plan(installed, required);
    if spec_contains(installed, required.last()) {
        assert(whole == sub);
        assert(sub.is_prefix_of(whole));
    } else {
        assert(whole == sub.push(required.last()));
        assert(sub =~= whole.subrange(0, sub.len() as int));
    }
}

} // verus!
