//! Commands and the dual-timeout execution policy.
//!
//! A [`Command`] is a stateless value: program, arguments, environment,
//! working directory, sandbox toggle and two optional timeouts, the
//! defaults inherited from the workspace it was made for. Running it is
//! outside work (a process or a container); the decisions that govern the
//! run live here and are verified:
//!
//! * [`ExecState`] tracks when the run started and when output last
//!   arrived; a watcher calls [`ExecState::note_output`] on every line of
//!   either stream.
//! * A supervisor polls [`check_deadlines`]: the hard timeout is an
//!   absolute wall-clock bound from the start, the no-output timeout a
//!   rolling bound from the last line; whichever fires first names the
//!   error, and firing means the process must be terminated, not merely
//!   dropped.
//! * [`classify_termination`] turns how the run ended into the reported
//!   result: the timeout kind that fired, a non-zero exit carrying its
//!   captured output (distinct from a spawn failure), or the output on
//!   success.

use vstd::prelude::*;
use crate::errors::Error;
use crate::paths::WsPath;
use crate::workspace::Workspace;

verus! {

/// Captured output of one finished command, split by stream, one entry per
/// line. Interleaving between the two streams carries no ordering
/// guarantee.
#[derive(Debug, Clone, PartialEq, Eq)]
pub struct ProcessOutput {
    pub stdout: Vec<String>,
    pub stderr: Vec<String>,
}

impl ProcessOutput {
    /// Output with no lines captured yet.
    pub fn empty() -> (r: ProcessOutput)
        ensures
            r.stdout@.len() == 0,
            r.stderr@.len() == 0,
    {
        ProcessOutput { stdout: Vec::new(), stderr: Vec::new() }
    }
}

/// True for characters allowed in a container image tag.
pub open spec fn is_image_tag_char(c: char) -> bool {
    ('a' <= c && c <= 'z') || ('A' <= c && c <= 'Z') || ('0' <= c && c <= '9') || c == '/' || c
        == ':' || c == '.' || c == '-' || c == '_' || c == '@'
}

/// A usable image reference: non-empty and made of tag characters only.
pub open spec fn is_valid_image_tag(s: Seq<char>) -> bool {
    s.len() > 0 && forall|i: int| 0 <= i < s.len() ==> is_image_tag_char(#[trigger] s[i])
}

/// Where a sandbox image comes from.
#[derive(Debug, Clone, PartialEq, Eq)]
pub enum ImageSource {
    /// A tag to pull from a remote registry.
    Remote { tag: String },
    /// A tag expected to exist in the local image store already.
    Local { tag: String },
    /// An image to build from the given build specification.
    Build { spec_source: String },
}

/// What the container runtime must do before the image is usable.
#[derive(Debug, Clone, PartialEq, Eq)]
pub enum ResolutionAction {
    /// Pull the tag from the registry.
    Pull { tag: String },
    /// Check that the tag is present locally.
    CheckPresent { tag: String },
    /// Run the image build.
    RunBuild { spec_source: String },
}

/// A reference to the container image sandboxed commands run in: an
/// identifier plus its resolution state. Resolution (pull, presence check
/// or build) happens once — eagerly at workspace initialization or lazily
/// on first sandboxed use — and the image is immutable afterwards.
#[derive(Debug, Clone, PartialEq, Eq)]
pub struct SandboxImage {
    source: ImageSource,
    resolved: bool,
}

impl SandboxImage {
    /// The image's origin.
    pub closed spec fn spec_source(&self) -> ImageSource {
        self.source
    }

    /// Whether resolution already happened.
    pub closed spec fn spec_resolved(&self) -> bool {
        self.resolved
    }

    /// The tag or build specification the source carries.
    pub open spec fn spec_identifier(&self) -> Seq<char> {
        match self.spec_source() {
            ImageSource::Remote { tag } => tag@,
            ImageSource::Local { tag } => tag@,
            ImageSource::Build { spec_source } => spec_source@,
        }
    }

    /// Register a remote image by tag, without pulling it; fails exactly on
    /// a malformed tag.
    pub fn remote(tag: &str) -> (r: Result<SandboxImage, Error>)
        ensures
            r is Ok <==> is_valid_image_tag(tag@),
            r matches Ok(img) ==> (img.spec_source() matches ImageSource::Remote { tag: t } && t@
                == tag@ && !img.spec_resolved()),
            r matches Err(e) ==> e is Sandbox,
    {
        if valid_image_tag(tag) {
            Ok(SandboxImage { source: ImageSource::Remote { tag: tag.to_owned() }, resolved: false })
        } else {
            Err(Error::Sandbox)
        }
    }

    /// Register an image already present in the local store; fails exactly
    /// on a malformed tag.
    pub fn local(tag: &str) -> (r: Result<SandboxImage, Error>)
        ensures
            r is Ok <==> is_valid_image_tag(tag@),
            r matches Ok(img) ==> (img.spec_source() matches ImageSource::Local { tag: t } && t@
                == tag@ && !img.spec_resolved()),
            r matches Err(e) ==> e is Sandbox,
    {
        if valid_image_tag(tag) {
            Ok(SandboxImage { source: ImageSource::Local { tag: tag.to_owned() }, resolved: false })
        } else {
            Err(Error::Sandbox)
        }
    }

    /// Register an image to be built from the given build specification;
    /// fails exactly on an empty specification.
    pub fn build(spec_source: &str) -> (r: Result<SandboxImage, Error>)
        ensures
            r is Ok <==> spec_source@.len() > 0,
            r matches Ok(img) ==> (img.spec_source() matches ImageSource::Build { spec_source: s }
                && s@ == spec_source@ && !img.spec_resolved()),
            r matches Err(e) ==> e is Sandbox,
    {
        if spec_source.unicode_len() > 0 {
            Ok(
                SandboxImage {
                    source: ImageSource::Build { spec_source: spec_source.to_owned() },
                    resolved: false,
                },
            )
        } else {
            Err(Error::Sandbox)
        }
    }

    /// What the container runtime still has to do for this image: nothing
    /// once resolved, else the action its source calls for.
    pub fn resolution_action(&self) -> (r: Option<ResolutionAction>)
        ensures
            self.spec_resolved() ==> r is None,
            !self.spec_resolved() ==> match r {
                Some(a) => match self.spec_source() {
                    ImageSource::Remote { tag } => a matches ResolutionAction::Pull { tag: t } && t@
                        == tag@,
                    ImageSource::Local { tag } => a matches ResolutionAction::CheckPresent {
                        tag: t,
                    } && t@ == tag@,
                    ImageSource::Build { spec_source } => a matches ResolutionAction::RunBuild {
                        spec_source: s,
                    } && s@ == spec_source@,
                },
                None => false,
            },
    {
        if self.resolved {
            None
        } else {
            match &self.source {
                ImageSource::Remote { tag } => Some(ResolutionAction::Pull { tag: tag.clone() }),
                ImageSource::Local { tag } => Some(
                    ResolutionAction::CheckPresent { tag: tag.clone() },
                ),
                ImageSource::Build { spec_source } => Some(
                    ResolutionAction::RunBuild { spec_source: spec_source.clone() },
                ),
            }
        }
    }

    /// Record that resolution succeeded; the source never changes.
    pub fn mark_resolved(&mut self)
        ensures
            final(self).spec_resolved(),
            final(self).spec_source() == old(self).spec_source(),
    {
        self.resolved = true;
    }
}

/// Exec counterpart of [`is_valid_image_tag`].
pub fn valid_image_tag(tag: &str) -> (r: bool)
    ensures
        r == is_valid_image_tag(tag@),
{
    let len = tag.unicode_len();
    if len == 0 {
        return false;
    }
    let mut i: usize = 0;
    while i < len
        invariant
            len == tag@.len(),
            i <= len,
            forall|j: int| 0 <= j < i ==> is_image_tag_char(#[trigger] tag@[j]),
        decreases len - i,
    {
        let c = tag.get_char(i);
        let ok = ('a' <= c && c <= 'z') || ('A' <= c && c <= 'Z') || ('0' <= c && c <= '9') || c
            == '/' || c == ':' || c == '.' || c == '-' || c == '_' || c == '@';
        if !ok {
            return false;
        }
        i = i + 1;
    }
    true
}

/// One environment override a command carries.
#[derive(Debug, Clone, PartialEq, Eq)]
pub struct EnvVar {
    pub key: String,
    pub value: String,
}

/// One execution unit: a program with arguments, environment overrides, an
/// optional working directory, a sandbox toggle and the two timeouts.
/// Stateless: running it yields output and a status, never a change to the
/// command itself.
#[derive(Debug)]
pub struct Command {
    program: String,
    args: Vec<String>,
    env: Vec<EnvVar>,
    cd: Option<WsPath>,
    sandboxed: bool,
    timeout: Option<u64>,
    no_output_timeout: Option<u64>,
}

impl Command {
    /// The program to run.
    pub closed spec fn spec_program(&self) -> Seq<char> {
        self.program@
    }

    /// The ordered argument list.
    pub closed spec fn spec_args(&self) -> Seq<Seq<char>> {
        self.args.deep_view()
    }

    /// The environment overrides, as key/value character sequences.
    pub closed spec fn spec_env(&self) -> Seq<(Seq<char>, Seq<char>)> {
        Seq::new(self.env@.len(), |i: int| (self.env@[i].key@, self.env@[i].value@))
    }

    /// The working directory, when one was set.
    pub closed spec fn spec_cd(&self) -> Option<WsPath> {
        self.cd
    }

    /// Whether the command runs inside the sandbox container.
    pub closed spec fn spec_sandboxed(&self) -> bool {
        self.sandboxed
    }

    /// The hard wall-clock timeout in milliseconds; `None` disables it.
    pub closed spec fn spec_timeout(&self) -> Option<u64> {
        self.timeout
    }

    /// The no-output timeout in milliseconds; `None` disables it.
    pub closed spec fn spec_no_output_timeout(&self) -> Option<u64> {
        self.no_output_timeout
    }

    /// A command for `program`, run on the host, with no arguments or
    /// overrides yet and both timeouts inherited from the workspace.
    pub fn new(workspace: &Workspace, program: &str) -> (r: Command)
        ensures
            r.spec_program() == program@,
            r.spec_args() == Seq::<Seq<char>>::empty(),
            r.spec_env() == Seq::<(Seq<char>, Seq<char>)>::empty(),
            r.spec_cd() is None,
            !r.spec_sandboxed(),
            r.spec_timeout() == workspace.spec_default_command_timeout(),
            r.spec_no_output_timeout() == workspace.spec_default_command_no_output_timeout(),
    {
        let r = Command {
            program: program.to_owned(),
            args: Vec::new(),
            env: Vec::new(),
            cd: None,
            sandboxed: false,
            timeout: workspace.default_command_timeout(),
            no_output_timeout: workspace.default_command_no_output_timeout(),
        };
        proof {
            assert(r.spec_args() =~= Seq::<Seq<char>>::empty());
            assert(r.spec_env() =~= Seq::<(Seq<char>, Seq<char>)>::empty());
        }
        r
    }

    /// Append arguments, keeping the ones already set and their order.
    pub fn args(self, new_args: &[&str]) -> (r: Command)
        ensures
            r.spec_args() == self.spec_args() + new_args@.map_values(|a: &str| a@),
            r.spec_program() == self.spec_program(),
            r.spec_env() == self.spec_env(),
            r.spec_cd() == self.spec_cd(),
            r.spec_sandboxed() == self.spec_sandboxed(),
            r.spec_timeout() == self.spec_timeout(),
            r.spec_no_output_timeout() == self.spec_no_output_timeout(),
    {
        let ghost before = self.args.deep_view();
        let mut args = self.args;
        let mut i: usize = 0;
        while i < new_args.len()
            invariant
                i <= new_args@.len(),
                args.deep_view() =~= before + new_args@.subrange(0, i as int).map_values(
                    |a: &str| a@,
                ),
            decreases new_args@.len() - i,
        {
            let ghost pre = args.deep_view();
            args.push(new_args[i].to_owned());
            proof {
                assert(args.deep_view() =~= pre.push(new_args@[i as int]@));
                assert(new_args@.subrange(0, i as int + 1).map_values(|a: &str| a@) =~= new_args@
                    .subrange(0, i as int).map_values(|a: &str| a@).push(new_args@[i as int]@));
            }
            i = i + 1;
        }
        proof {
            assert(new_args@.subrange(0, new_args@.len() as int) =~= new_args@);
        }
        let r = Command { args, ..self };
        proof {
            assert(r.spec_env() =~= self.spec_env());
        }
        r
    }

    /// Append one argument, keeping the ones already set and their order.
    pub fn arg(self, new_arg: &str) -> (r: Command)
        ensures
            r.spec_args() == self.spec_args().push(new_arg@),
            r.spec_program() == self.spec_program(),
            r.spec_env() == self.spec_env(),
            r.spec_cd() == self.spec_cd(),
            r.spec_sandboxed() == self.spec_sandboxed(),
            r.spec_timeout() == self.spec_timeout(),
            r.spec_no_output_timeout() == self.spec_no_output_timeout(),
    {
        let ghost before = self.args.deep_view();
        let mut args = self.args;
        args.push(new_arg.to_owned());
        let r = Command { args, ..self };
        proof {
            assert(r.spec_args() =~= before.push(new_arg@));
            assert(r.spec_env() =~= self.spec_env());
        }
        r
    }

    /// Add one environment override, keeping the ones already set.
    pub fn env(self, key: &str, value: &str) -> (r: Command)
        ensures
            r.spec_env() == self.spec_env().push((key@, value@)),
            r.spec_program() == self.spec_program(),
            r.spec_args() == self.spec_args(),
            r.spec_cd() == self.spec_cd(),
            r.spec_sandboxed() == self.spec_sandboxed(),
            r.spec_timeout() == self.spec_timeout(),
            r.spec_no_output_timeout() == self.spec_no_output_timeout(),
    {
        let mut env = self.env;
        env.push(EnvVar { key: key.to_owned(), value: value.to_owned() });
        let r = Command { env, ..self };
        proof {
            assert(r.spec_env() =~= self.spec_env().push((key@, value@)));
        }
        r
    }

    /// Set the working directory.
    pub fn cd(self, path: WsPath) -> (r: Command)
        ensures
            r.spec_cd() matches Some(p) && p.spec_root() == path.spec_root() && p.spec_rel()
                == path.spec_rel(),
            r.spec_program() == self.spec_program(),
            r.spec_args() == self.spec_args(),
            r.spec_env() == self.spec_env(),
            r.spec_sandboxed() == self.spec_sandboxed(),
            r.spec_timeout() == self.spec_timeout(),
            r.spec_no_output_timeout() == self.spec_no_output_timeout(),
    {
        Command { cd: Some(path), ..self }
    }

    /// Choose between host execution and the sandbox container.
    pub fn sandboxed(self, enable: bool) -> (r: Command)
        ensures
            r.spec_sandboxed() == enable,
            r.spec_program() == self.spec_program(),
            r.spec_args() == self.spec_args(),
            r.spec_env() == self.spec_env(),
            r.spec_cd() == self.spec_cd(),
            r.spec_timeout() == self.spec_timeout(),
            r.spec_no_output_timeout() == self.spec_no_output_timeout(),
    {
        Command { sandboxed: enable, ..self }
    }

    /// Override the hard timeout; `None` disables it.
    pub fn timeout(self, timeout: Option<u64>) -> (r: Command)
        ensures
            r.spec_timeout() == timeout,
            r.spec_program() == self.spec_program(),
            r.spec_args() == self.spec_args(),
            r.spec_env() == self.spec_env(),
            r.spec_cd() == self.spec_cd(),
            r.spec_sandboxed() == self.spec_sandboxed(),
            r.spec_no_output_timeout() == self.spec_no_output_timeout(),
    {
        Command { timeout, ..self }
    }

    /// Override the no-output timeout; `None` disables it.
    pub fn no_output_timeout(self, no_output_timeout: Option<u64>) -> (r: Command)
        ensures
            r.spec_no_output_timeout() == no_output_timeout,
            r.spec_program() == self.spec_program(),
            r.spec_args() == self.spec_args(),
            r.spec_env() == self.spec_env(),
            r.spec_cd() == self.spec_cd(),
            r.spec_sandboxed() == self.spec_sandboxed(),
            r.spec_timeout() == self.spec_timeout(),
    {
        Command { no_output_timeout, ..self }
    }

    /// The program, for the runner.
    pub fn program(&self) -> (r: &String)
        ensures
            r@ == self.spec_program(),
    {
        &self.program
    }

    /// The arguments, for the runner.
    pub fn arg_list(&self) -> (r: &Vec<String>)
        ensures
            r.deep_view() == self.spec_args(),
    {
        &self.args
    }

    /// The environment overrides, for the runner.
    pub fn env_list(&self) -> (r: &Vec<EnvVar>)
        ensures
            r@.len() == self.spec_env().len(),
            forall|i: int| 0 <= i < r@.len() ==> (#[trigger] r@[i]).key@ == self.spec_env()[i].0
                && r@[i].value@ == self.spec_env()[i].1,
    {
        &self.env
    }

    /// The working directory, for the runner.
    pub fn cd_path(&self) -> (r: &Option<WsPath>)
        ensures
            r == self.spec_cd(),
    {
        &self.cd
    }

    /// Whether to run sandboxed, for the runner.
    pub fn is_sandboxed(&self) -> (r: bool)
        ensures
            r == self.spec_sandboxed(),
    {
        self.sandboxed
    }

    /// The effective hard timeout, for the supervisor.
    pub fn hard_timeout(&self) -> (r: Option<u64>)
        ensures
            r == self.spec_timeout(),
    {
        self.timeout
    }

    /// The effective no-output timeout, for the supervisor.
    pub fn idle_timeout(&self) -> (r: Option<u64>)
        ensures
            r == self.spec_no_output_timeout(),
    {
        self.no_output_timeout
    }
}

/// Which of the two clocks fired.
#[derive(Debug, Clone, Copy, PartialEq, Eq, Structural)]
pub enum TimeoutKind {
    /// The absolute wall-clock bound from the start of the run.
    Hard,
    /// The rolling bound from the last line of output.
    NoOutput,
}

/// The activity clock of one running command, in the supervisor's
/// monotonic milliseconds.
#[derive(Debug, Clone, Copy, PartialEq, Eq, Structural)]
pub struct ExecState {
    /// When the run started.
    pub started_at: u64,
    /// When output last arrived; the start counts as activity.
    pub last_output_at: u64,
}

impl ExecState {
    /// The clock for a run starting now.
    pub fn start(now: u64) -> (r: ExecState)
        ensures
            r.started_at == now,
            r.last_output_at == now,
    {
        ExecState { started_at: now, last_output_at: now }
    }

    /// Record a line of output from either stream: both streams refresh the
    /// same rolling deadline, and the start time never moves.
    pub fn note_output(&mut self, now: u64)
        requires
            now >= old(self).last_output_at,
        ensures
            final(self).started_at == old(self).started_at,
            final(self).last_output_at == now,
    {
        self.last_output_at = now;
    }
}

/// The hard clock has fired: a hard timeout is set and the run is at least
/// that old.
pub open spec fn spec_hard_expired(timeout: Option<u64>, st: ExecState, now: u64) -> bool {
    timeout matches Some(t) && now - st.started_at >= t
}

/// The idle clock has fired: a no-output timeout is set and no output
/// arrived for at least that long.
pub open spec fn spec_idle_expired(no_output_timeout: Option<u64>, st: ExecState, now: u64) -> bool {
    no_output_timeout matches Some(t) && now - st.last_output_at >= t
}

/// What the supervisor must do at time `now`: nothing while neither clock
/// has fired, else terminate with the kind that fired — the hard clock
/// named first when both have.
pub open spec fn spec_verdict(
    timeout: Option<u64>,
    no_output_timeout: Option<u64>,
    st: ExecState,
    now: u64,
) -> Option<TimeoutKind> {
    if spec_hard_expired(timeout, st, now) {
        Some(TimeoutKind::Hard)
    } else if spec_idle_expired(no_output_timeout, st, now) {
        Some(TimeoutKind::NoOutput)
    } else {
        None
    }
}

/// Race the two deadlines against the activity clock. `Some` obliges the
/// caller to force-terminate the process or container; `None` means both
/// clocks still have time left (or are disabled) and the run goes on.
pub fn check_deadlines(
    timeout: Option<u64>,
    no_output_timeout: Option<u64>,
    st: &ExecState,
    now: u64,
) -> (r: Option<TimeoutKind>)
    requires
        now >= st.started_at,
        now >= st.last_output_at,
    ensures
        r == spec_verdict(timeout, no_output_timeout, *st, now),
{
    let hard_fired = match timeout {
        Some(t) => now - st.started_at >= t,
        None => false,
    };
    if hard_fired {
        return Some(TimeoutKind::Hard);
    }
    let idle_fired = match no_output_timeout {
        Some(t) => now - st.last_output_at >= t,
        None => false,
    };
    if idle_fired {
        Some(TimeoutKind::NoOutput)
    } else {
        None
    }
}

/// Turn how a run ended into the reported result: a fired clock names its
/// timeout error whatever the process did; otherwise a clean exit hands
/// back the captured output and an unsuccessful exit reports it as a
/// distinct error that carries the output for diagnostics.
pub fn classify_termination(killed_by: Option<TimeoutKind>, exit_success: bool, output: ProcessOutput) -> (r:
    Result<ProcessOutput, Error>)
    ensures
        killed_by == Some(TimeoutKind::Hard) ==> (r matches Err(e) && e is CommandTimeout),
        killed_by == Some(TimeoutKind::NoOutput) ==> (r matches Err(e)
            && e is CommandNoOutputTimeout),
        killed_by is None && exit_success ==> (r matches Ok(out) && out == output),
        killed_by is None && !exit_success ==> (r matches Err(e) && e matches Error::CommandExit {
            output: out,
        } && out == output),
{
    match killed_by {
        Some(TimeoutKind::Hard) => Err(Error::CommandTimeout),
        Some(TimeoutKind::NoOutput) => Err(Error::CommandNoOutputTimeout),
        None => {
            if exit_success {
                Ok(output)
            } else {
                Err(Error::CommandExit { output })
            }
        },
    }
}

/// A run with hard timeout `t` never outlives it: at any poll at least `t`
/// after the start the supervisor's verdict is the hard timeout — whatever
/// the no-output clock says — so the target is terminated and the caller
/// gets `CommandTimeout` within `t` plus one poll interval; and the verdict
/// never fires early.
pub proof fn lemma_hard_timeout_fires(
    t: u64,
    no_output_timeout: Option<u64>,
    st: ExecState,
    now: u64,
)
    ensures
        now - st.started_at >= t ==> spec_verdict(Some(t), no_output_timeout, st, now) == Some(
            TimeoutKind::Hard,
        ),
        now - st.started_at < t && !spec_idle_expired(no_output_timeout, st, now) ==> spec_verdict(
            Some(t),
            no_output_timeout,
            st,
            now,
        ) is None,
{
}

/// A chatty target never trips the no-output clock: while every line is at
/// most half the no-output window after the previous one, and the hard
/// clock still has time, the verdict stays `None` for the whole run —
/// however long it is.
pub proof fn lemma_chatty_run_completes(
    timeout: Option<u64>,
    no_output_window: u64,
    st: ExecState,
    now: u64,
)
    requires
        no_output_window > 0,
        now - st.last_output_at <= no_output_window / 2,
        !spec_hard_expired(timeout, st, now),
    ensures
        spec_verdict(timeout, Some(no_output_window), st, now) is None,
{
}

/// A chatty run as a trace: lines arrive at the given instants, the first
/// within half the no-output window `w` of the start, each next one within
/// half the window of the one before — however many lines and however long
/// the run.
pub open spec fn spec_chatty_trace(outputs: Seq<u64>, start: u64, w: u64) -> bool {
    &&& outputs.len() > 0
    &&& start <= outputs[0]
    &&& outputs[0] - start <= w / 2
    &&& forall|i: int| 0 <= i < outputs.len() - 1 ==> #[trigger] outputs[i] <= outputs[i + 1]
        && outputs[i + 1] - outputs[i] <= w / 2
}

/// The latest activity the watcher has recorded by instant `now`: the last
/// line at or before `now`, or the start of the run when no line arrived
/// yet.
pub open spec fn spec_latest_activity(outputs: Seq<u64>, start: u64, now: u64) -> u64
    decreases outputs.len(),
{
    if outputs.len() == 0 {
        start
    } else if outputs.last() <= now {
        outputs.last()
    } else {
        spec_latest_activity(outputs.drop_last(), start, now)
    }
}

/// Over the whole of a chatty run — a line every half window, for any
/// number of windows — the rolling clock never reaches the window: at
/// every instant of the run the latest recorded activity is less than `w`
/// old, so while the hard clock also has time left the supervisor's
/// verdict is `None` and the run completes.
pub proof fn lemma_chatty_trace_never_idle(
    outputs: Seq<u64>,
    start: u64,
    w: u64,
    hard: Option<u64>,
    now: u64,
)
    requires
        w > 0,
        spec_chatty_trace(outputs, start, w),
        start <= now,
        now <= outputs.last(),
        !spec_hard_expired(
            hard,
            ExecState { started_at: start, last_output_at: start },
            now,
        ),
    ensures
        now - spec_latest_activity(outputs, start, now) < w,
        spec_verdict(
            hard,
            Some(w),
            ExecState {
                started_at: start,
                last_output_at: spec_latest_activity(outputs, start, now),
            },
            now,
        ) is None,
    decreases outputs.len(),
{
    if outputs.last() <= now {
        assert(now == outputs.last());
    } else if outputs.len() == 1 {
        let rest = outputs.drop_last();
        assert(rest.len() == 0);
        assert(spec_latest_activity(outputs, start, now) == spec_latest_activity(
            rest,
            start,
            now,
        ));
        assert(spec_latest_activity(rest, start, now) == start);
        assert(now - start < outputs[0] - start <= w / 2);
    } else {
        let rest = outputs.drop_last();
        assert(rest.len() == outputs.len() - 1);
        assert(rest.last() == outputs[outputs.len() - 2]);
        assert(outputs[outputs.len() - 2] <= outputs[outputs.len() - 1] && outputs[outputs.len()
            - 1] - outputs[outputs.len() - 2] <= w / 2);
        if rest.last() <= now {
            assert(spec_latest_activity(outputs, start, now) == spec_latest_activity(
                rest,
                start,
                now,
            ));
            assert(spec_latest_activity(rest, start, now) == rest.last());
            assert(now - rest.last() < outputs.last() - rest.last() <= w / 2);
        } else {
            assert(spec_chatty_trace(rest, start, w));
            lemma_chatty_trace_never_idle(rest, start, w, hard, now);
            assert(spec_latest_activity(outputs, start, now) == spec_latest_activity(
                rest,
                start,
                now,
            ));
        }
    }
}

/// A target that goes silent is caught by the rolling clock alone: once no
/// output has arrived for the whole window, the verdict is the no-output
/// timeout even though a larger hard timeout is still pending, so the
/// caller gets `CommandNoOutputTimeout` within the window plus one poll
/// interval.
pub proof fn lemma_silent_target_times_out(
    timeout: Option<u64>,
    no_output_window: u64,
    st: ExecState,
    now: u64,
)
    requires
        now - st.last_output_at >= no_output_window,
        !spec_hard_expired(timeout, st, now),
    ensures
        spec_verdict(timeout, Some(no_output_window), st, now) == Some(TimeoutKind::NoOutput),
{
}

} // verus!
