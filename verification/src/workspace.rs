//! The workspace: a shared root directory plus immutable configuration,
//! assembled once by [`WorkspaceBuilder`] and then shared (reference
//! counted) by every derived handle. Only the filesystem beneath the root
//! ever mutates.
//!
//! One-time initialization is the caller's outer loop: create the root,
//! take the lock file, assemble the workspace, then run the planned setup
//! steps of [`Workspace::init_steps`] while still holding the lock, so
//! racing initializers of one root serialize instead of corrupting shared
//! state.

use vstd::prelude::*;
use std::sync::Arc;
use crate::build_dir::BuildDirectory;
use crate::cmd::{Command, ImageSource, SandboxImage};
use crate::errors::{Error, InitFailure};
use crate::paths::{is_valid_component, WsPath};
use crate::toolchain::{DirEntry, Toolchain};

verus! {

/// The image tag sandboxed commands default to when the builder sets none:
/// a public image holding the dependencies most build workloads need.
pub open spec fn spec_default_image_tag() -> Seq<char> {
    "rustops/crates-build-env"@
}

/// Exec counterpart of [`spec_default_image_tag`].
pub fn default_sandbox_image_tag() -> (r: &'static str)
    ensures
        r@ == spec_default_image_tag(),
{
    "rustops/crates-build-env"
}

/// Accumulates configuration for a [`Workspace`].
pub struct WorkspaceBuilder {
    root: String,
    user_agent: String,
    sandbox_image: Option<SandboxImage>,
    command_timeout: Option<u64>,
    command_no_output_timeout: Option<u64>,
    fast_init: bool,
}

impl WorkspaceBuilder {
    /// The workspace root path the builder was given.
    pub closed spec fn spec_root(&self) -> Seq<char> {
        self.root@
    }

    /// The user agent sent on every network request.
    pub closed spec fn spec_user_agent(&self) -> Seq<char> {
        self.user_agent@
    }

    /// The sandbox image override, when one was set.
    pub closed spec fn spec_sandbox_image(&self) -> Option<SandboxImage> {
        self.sandbox_image
    }

    /// The default hard timeout for commands, in milliseconds.
    pub closed spec fn spec_command_timeout(&self) -> Option<u64> {
        self.command_timeout
    }

    /// The default no-output timeout for commands, in milliseconds.
    pub closed spec fn spec_command_no_output_timeout(&self) -> Option<u64> {
        self.command_no_output_timeout
    }

    /// Whether initialization prefers speed over later runtime performance.
    pub closed spec fn spec_fast_init(&self) -> bool {
        self.fast_init
    }

    /// A builder for the workspace rooted at `path`. `user_agent` is sent
    /// on all network requests. The defaults: no sandbox-image override, a
    /// fifteen-minute hard timeout, no no-output timeout, regular
    /// initialization.
    pub fn new(path: &str, user_agent: &str) -> (r: WorkspaceBuilder)
        ensures
            r.spec_root() == path@,
            r.spec_user_agent() == user_agent@,
            r.spec_sandbox_image() is None,
            r.spec_command_timeout() == Some(crate::DEFAULT_COMMAND_TIMEOUT_MS),
            r.spec_command_no_output_timeout() is None,
            !r.spec_fast_init(),
    {
        WorkspaceBuilder {
            root: path.to_owned(),
            user_agent: user_agent.to_owned(),
            sandbox_image: None,
            command_timeout: Some(crate::DEFAULT_COMMAND_TIMEOUT_MS),
            command_no_output_timeout: None,
            fast_init: false,
        }
    }

    /// Override the image used for sandboxes.
    pub fn sandbox_image(self, image: SandboxImage) -> (r: WorkspaceBuilder)
        ensures
            r.spec_sandbox_image() == Some(image),
            r.spec_root() == self.spec_root(),
            r.spec_user_agent() == self.spec_user_agent(),
            r.spec_command_timeout() == self.spec_command_timeout(),
            r.spec_command_no_output_timeout() == self.spec_command_no_output_timeout(),
            r.spec_fast_init() == self.spec_fast_init(),
    {
        WorkspaceBuilder { sandbox_image: Some(image), ..self }
    }

    /// Set the default hard timeout of commands, in milliseconds; `None`
    /// disables it.
    pub fn command_timeout(self, timeout: Option<u64>) -> (r: WorkspaceBuilder)
        ensures
            r.spec_command_timeout() == timeout,
            r.spec_root() == self.spec_root(),
            r.spec_user_agent() == self.spec_user_agent(),
            r.spec_sandbox_image() == self.spec_sandbox_image(),
            r.spec_command_no_output_timeout() == self.spec_command_no_output_timeout(),
            r.spec_fast_init() == self.spec_fast_init(),
    {
        WorkspaceBuilder { command_timeout: timeout, ..self }
    }

    /// Set the default no-output timeout of commands, in milliseconds;
    /// `None` disables it.
    pub fn command_no_output_timeout(self, timeout: Option<u64>) -> (r: WorkspaceBuilder)
        ensures
            r.spec_command_no_output_timeout() == timeout,
            r.spec_root() == self.spec_root(),
            r.spec_user_agent() == self.spec_user_agent(),
            r.spec_sandbox_image() == self.spec_sandbox_image(),
            r.spec_command_timeout() == self.spec_command_timeout(),
            r.spec_fast_init() == self.spec_fast_init(),
    {
        WorkspaceBuilder { command_no_output_timeout: timeout, ..self }
    }

    /// Enable or disable fast initialization, which trades install speed
    /// for later runtime speed (helper tools built unoptimized).
    pub fn fast_init(self, enable: bool) -> (r: WorkspaceBuilder)
        ensures
            r.spec_fast_init() == enable,
            r.spec_root() == self.spec_root(),
            r.spec_user_agent() == self.spec_user_agent(),
            r.spec_sandbox_image() == self.spec_sandbox_image(),
            r.spec_command_timeout() == self.spec_command_timeout(),
            r.spec_command_no_output_timeout() == self.spec_command_no_output_timeout(),
    {
        WorkspaceBuilder { fast_init: enable, ..self }
    }

    /// The lock file guarding one-time initialization, directly under the
    /// root.
    pub fn lock_path(&self) -> (r: WsPath)
        ensures
            r.spec_root() == self.spec_root(),
            r.spec_rel() =~= seq!["lock"@],
            r.wf(),
    {
        proof {
            lemma_literal_components();
        }
        WsPath::new(self.root.as_str()).child("lock")
    }

    /// The root path, for the caller creating the directory tree.
    pub fn root_str(&self) -> (r: &str)
        ensures
            r@ == self.spec_root(),
    {
        self.root.as_str()
    }

    /// Whether fast initialization was requested.
    pub fn is_fast_init(&self) -> (r: bool)
        ensures
            r == self.spec_fast_init(),
    {
        self.fast_init
    }

    /// Assemble the workspace value: resolve the image override or fall
    /// back to the default remote tag, build the shared network client,
    /// and freeze the configuration. Pure besides the client construction;
    /// fails exactly when that construction does, and always when the user
    /// agent cannot be a header value.
    pub fn init(self) -> (r: Result<Workspace, Error>)
        ensures
            !crate::net::is_valid_header_value(self.spec_user_agent()) ==> r is Err,
            r matches Err(e) ==> e matches Error::Init { step: InitFailure::HttpClient },
            r matches Ok(ws) ==> spec_configured(self, ws),
    {
        let ua = self.user_agent.clone();
        match crate::net::build_http_client(ua.as_str()) {
            Ok(http) => Ok(self.with_http(http)),
            Err(e) => Err(e),
        }
    }

    /// The pure tail of assembly: given the already-built network client,
    /// the workspace it configures. Every configured value carries over;
    /// with no image override the image is the unresolved default remote
    /// tag.
    pub fn with_http(self, http: reqwest::blocking::Client) -> (ws: Workspace)
        ensures
            spec_configured(self, ws),
    {
        let sandbox_image = match self.sandbox_image {
            Some(image) => image,
            None => {
                proof {
                    lemma_default_tag_valid();
                }
                match SandboxImage::remote(default_sandbox_image_tag()) {
                    Ok(image) => image,
                    Err(_) => vstd::pervasive::unreached(),
                }
            },
        };
        Workspace {
            inner: Arc::new(
                WorkspaceInner {
                    http,
                    root: self.root,
                    user_agent: self.user_agent,
                    sandbox_image,
                    command_timeout: self.command_timeout,
                    command_no_output_timeout: self.command_no_output_timeout,
                },
            ),
        }
    }
}

/// The workspace configuration `ws` must carry for builder `b`.
pub open spec fn spec_configured(b: WorkspaceBuilder, ws: Workspace) -> bool {
    &&& ws.spec_root() == b.spec_root()
    &&& ws.spec_user_agent() == b.spec_user_agent()
    &&& ws.spec_default_command_timeout() == b.spec_command_timeout()
    &&& ws.spec_default_command_no_output_timeout() == b.spec_command_no_output_timeout()
    &&& match b.spec_sandbox_image() {
        Some(image) => ws.spec_sandbox_image() == image,
        None => {
            &&& (ws.spec_sandbox_image().spec_source() matches ImageSource::Remote { tag } && tag@
                == spec_default_image_tag())
            &&& !ws.spec_sandbox_image().spec_resolved()
        },
    }
}

struct WorkspaceInner {
    http: reqwest::blocking::Client,
    root: String,
    user_agent: String,
    sandbox_image: SandboxImage,
    command_timeout: Option<u64>,
    command_no_output_timeout: Option<u64>,
}

/// A shared handle to one workspace: the root path, the immutable
/// configuration and the shared network client. Cheap to share; lives as
/// long as its longest-held handle.
pub struct Workspace {
    inner: Arc<WorkspaceInner>,
}

/// Share the reference-counted workspace configuration.
///
/// Relies on std's `Arc::clone`: the clone is a second handle to the very
/// same inner value.
#[verifier::external_body]
fn share_inner(inner: &Arc<WorkspaceInner>) -> (r: Arc<WorkspaceInner>)
    ensures
        r == *inner,
{
    Arc::clone(inner)
}

impl Workspace {
    /// The root path.
    pub closed spec fn spec_root(&self) -> Seq<char> {
        self.inner.root@
    }

    /// The user agent sent on every network request.
    pub closed spec fn spec_user_agent(&self) -> Seq<char> {
        self.inner.user_agent@
    }

    /// The image sandboxed commands run in.
    pub closed spec fn spec_sandbox_image(&self) -> SandboxImage {
        self.inner.sandbox_image
    }

    /// The default hard timeout of commands, in milliseconds.
    pub closed spec fn spec_default_command_timeout(&self) -> Option<u64> {
        self.inner.command_timeout
    }

    /// The default no-output timeout of commands, in milliseconds.
    pub closed spec fn spec_default_command_no_output_timeout(&self) -> Option<u64> {
        self.inner.command_no_output_timeout
    }

    /// A second handle to the same workspace.
    pub fn clone_handle(&self) -> (r: Workspace)
        ensures
            r == *self,
    {
        Workspace { inner: share_inner(&self.inner) }
    }

    /// Open a named build directory inside the workspace: cheap handle
    /// construction, no filesystem work.
    pub fn build_dir(&self, name: &str) -> (r: BuildDirectory)
        requires
            is_valid_component(name@),
        ensures
            r.spec_name() == name@,
            r.spec_workspace() == *self,
            r.wf(),
    {
        BuildDirectory::new(self.clone_handle(), name)
    }

    /// The shared network client.
    pub fn http_client(&self) -> &reqwest::blocking::Client {
        &self.inner.http
    }

    /// The root path, for the platform's path routines.
    pub fn root_str(&self) -> (r: &str)
        ensures
            r@ == self.spec_root(),
    {
        self.inner.root.as_str()
    }

    /// The image sandboxed commands run in.
    pub fn sandbox_image(&self) -> (r: &SandboxImage)
        ensures
            *r == self.spec_sandbox_image(),
    {
        &self.inner.sandbox_image
    }

    /// The default hard timeout of commands, in milliseconds.
    pub fn default_command_timeout(&self) -> (r: Option<u64>)
        ensures
            r == self.spec_default_command_timeout(),
    {
        self.inner.command_timeout
    }

    /// The default no-output timeout of commands, in milliseconds.
    pub fn default_command_no_output_timeout(&self) -> (r: Option<u64>)
        ensures
            r == self.spec_default_command_no_output_timeout(),
    {
        self.inner.command_no_output_timeout
    }

    /// The directory holding the local cargo state.
    pub fn cargo_home(&self) -> (r: WsPath)
        ensures
            r.spec_root() == self.spec_root(),
            r.spec_rel() =~= seq!["cargo-home"@],
            r.wf(),
    {
        proof {
            lemma_literal_components();
        }
        WsPath::new(self.inner.root.as_str()).child("cargo-home")
    }

    /// The toolchain root: the directory whose entries are the installed
    /// toolchains.
    pub fn rustup_home(&self) -> (r: WsPath)
        ensures
            r.spec_root() == self.spec_root(),
            r.spec_rel() =~= seq!["rustup-home"@],
            r.wf(),
    {
        proof {
            lemma_literal_components();
        }
        WsPath::new(self.inner.root.as_str()).child("rustup-home")
    }

    /// The cache directory primed during initialization.
    pub fn cache_dir(&self) -> (r: WsPath)
        ensures
            r.spec_root() == self.spec_root(),
            r.spec_rel() =~= seq!["cache"@],
            r.wf(),
    {
        proof {
            lemma_literal_components();
        }
        WsPath::new(self.inner.root.as_str()).child("cache")
    }

    /// The directory all build directories live under; bulk purge removes
    /// exactly this subtree.
    pub fn builds_dir(&self) -> (r: WsPath)
        ensures
            r.spec_root() == self.spec_root(),
            r.spec_rel() =~= seq!["builds"@],
            r.wf(),
    {
        proof {
            lemma_literal_components();
        }
        WsPath::new(self.inner.root.as_str()).child("builds")
    }

    /// The toolchains present under the toolchain root whose scan produced
    /// `entries`: recognized entries parsed in order, unrecognized ones
    /// silently skipped.
    pub fn installed_toolchains(&self, entries: &Vec<DirEntry>) -> (r: Vec<Toolchain>)
        ensures
            r@.len() == crate::toolchain::spec_listing(entries@).len(),
            forall|i: int| 0 <= i < r@.len() ==> (#[trigger] r@[i]).spec_name()
                == crate::toolchain::spec_listing(entries@)[i].0 && r@[i].spec_is_dist()
                == crate::toolchain::spec_listing(entries@)[i].1,
    {
        crate::toolchain::list_installed(entries)
    }

    /// The best-effort command that primes the local registry cache: a
    /// no-op install on the main toolchain, with the no-output timeout
    /// disabled since registry work is legitimately silent.
    pub fn registry_prime_command(&self) -> (r: Command)
        ensures
            spec_prime_command(*self, r),
    {
        let selector = Toolchain::main().selector_arg();
        let c = Command::new(self, "cargo").arg(selector.as_str()).arg("install").arg(
            "lazy_static",
        ).no_output_timeout(None);
        proof {
            assert(c.spec_args() =~= seq!["+"@ + "stable"@, "install"@, "lazy_static"@]);
        }
        c
    }

    /// The one-time setup performed under the init lock, as a plan: first
    /// install the helper tools (optimized unless fast initialization was
    /// chosen), then prime the registry cache. The priming step is best
    /// effort: its failure is swallowed, never surfaced.
    pub fn init_steps(&self, fast_init: bool) -> (r: Vec<PlannedStep>)
        ensures
            r@.len() == 2,
            r@[0].action matches InitAction::InstallHelpers { optimized } && optimized
                == !fast_init,
            !r@[0].ignore_failure,
            r@[1].action matches InitAction::PrimeRegistry { command } && spec_prime_command(
                *self,
                command,
            ),
            r@[1].ignore_failure,
    {
        let mut steps: Vec<PlannedStep> = Vec::new();
        steps.push(
            PlannedStep {
                action: InitAction::InstallHelpers { optimized: !fast_init },
                ignore_failure: false,
            },
        );
        steps.push(
            PlannedStep {
                action: InitAction::PrimeRegistry { command: self.registry_prime_command() },
                ignore_failure: true,
            },
        );
        steps
    }
}

/// What the registry-priming command must be for workspace `ws`.
pub open spec fn spec_prime_command(ws: Workspace, c: Command) -> bool {
    &&& c.spec_program() == "cargo"@
    &&& c.spec_args() =~= seq!["+"@ + "stable"@, "install"@, "lazy_static"@]
    &&& c.spec_no_output_timeout() is None
    &&& c.spec_timeout() == ws.spec_default_command_timeout()
    &&& !c.spec_sandboxed()
}

/// One step of the one-time setup.
pub enum InitAction {
    /// Install the helper tools the workspace needs, optimized or not.
    InstallHelpers { optimized: bool },
    /// Run the registry-priming command.
    PrimeRegistry { command: Command },
}

/// A planned setup step, and whether its failure is swallowed.
pub struct PlannedStep {
    pub action: InitAction,
    pub ignore_failure: bool,
}

/// The fixed directory names directly under the root are valid single
/// components.
proof fn lemma_literal_components()
    ensures
        is_valid_component("lock"@),
        is_valid_component("cargo-home"@),
        is_valid_component("rustup-home"@),
        is_valid_component("cache"@),
        is_valid_component("builds"@),
{
    reveal_strlit("lock");
    reveal_strlit("cargo-home");
    reveal_strlit("rustup-home");
    reveal_strlit("cache");
    reveal_strlit("builds");
}

/// The default image tag is well formed, so falling back to it never
/// fails.
proof fn lemma_default_tag_valid()
    ensures
        crate::cmd::is_valid_image_tag(spec_default_image_tag()),
{
    reveal_strlit("rustops/crates-build-env");
}

/// Bulk purge of the build directories removes the `builds` subtree only,
/// and the toolchain listing is a function of the toolchain root's entries
/// alone; the two subtrees are disjoint, so a purge leaves listing results
/// unchanged.
pub proof fn lemma_purge_preserves_toolchains(builds: WsPath, toolchain_root: WsPath)
    requires
        builds.spec_root() == toolchain_root.spec_root(),
        builds.spec_rel() =~= seq!["builds"@],
        toolchain_root.spec_rel() =~= seq!["rustup-home"@],
    ensures
        crate::paths::spec_disjoint_subtrees(builds, toolchain_root),
        !builds.spec_rel().is_prefix_of(toolchain_root.spec_rel()),
        !toolchain_root.spec_rel().is_prefix_of(builds.spec_rel()),
{
    reveal_strlit("builds");
    reveal_strlit("rustup-home");
    assert("builds"@.len() == 6);
    assert("rustup-home"@.len() == 11);
    assert(builds.spec_rel()[0] != toolchain_root.spec_rel()[0]);
    crate::paths::lemma_diverge_no_prefix(builds, toolchain_root);
}

} // verus!
