//! Launch-method resolution: mapping a chosen launch method to the concrete
//! process it starts, with the pre-spawn checks on the resolved executable.
//!
//! Resolution is pure string work — joining a fixed, method-specific relative
//! path onto the install root and laying out the argument tokens — and is
//! stated exactly. The filesystem is consulted only through two observation
//! functions whose answers nothing can predict; the decision taken on those
//! answers is itself a verified function, so every outcome of a resolution is
//! pinned to some pair of observations.

use vstd::prelude::*;

use crate::args::CommonArgs;
use crate::args::LinuxArgs;
use crate::args::token_views;
use crate::install::BeamNGInstall;

verus! {

/// The binary started for a Steam launch when no override is supplied.
pub open spec fn default_steam_exec() -> Seq<char> {
    "steam"@
}

/// The URI handed to Steam to start the game, fixed by the game's Steam
/// application id.
pub open spec fn steam_run_uri() -> Seq<char> {
    "steam://rungameid/284160"@
}

/// The Windows game binary, relative to the install root.
pub open spec fn windows_exec_rel() -> Seq<char> {
    "Bin64/BeamNG.x64.exe"@
}

/// The native Linux game binary, relative to the install root.
pub open spec fn linux_exec_rel() -> Seq<char> {
    "BinLinux/BeamNG.x64"@
}

/// The Windows launcher binary, relative to the install root.
pub open spec fn windows_launcher_rel() -> Seq<char> {
    "BeamNG.drive.exe"@
}

/// The compatibility runtime's own launcher binary, relative to the runtime
/// root.
pub open spec fn gptk_wine_rel() -> Seq<char> {
    "Contents/Resources/wine/bin/wine"@
}

/// A relative path joined onto a root with the path separator.
pub open spec fn joined(root: Seq<char>, rel: Seq<char>) -> Seq<char> {
    root + "/"@ + rel
}

/// The chosen way of starting the game: each variant carries exactly the
/// data its path needs, so no invalid combination is representable.
#[derive(Debug)]
pub enum ExecMethod {
    /// Delegate to the Steam client, optionally through an overridden Steam
    /// binary. No install path is resolved or checked.
    Steam { steam_path: Option<String> },
    /// Run the Windows game binary under the install root, through the
    /// command shell, with the built option tokens.
    Windows { install: BeamNGInstall, args: CommonArgs },
    /// Open the Windows launcher under the install root, through the command
    /// shell; the launcher collects options itself.
    WindowsIndirect { install: BeamNGInstall },
    /// Run the native Linux binary under the install root directly, with the
    /// built option tokens.
    Linux { install: BeamNGInstall, args: LinuxArgs },
    /// Run the Windows game binary through the compatibility runtime rooted
    /// at `gptk_path`, with the built option tokens.
    MacGPTK { install: BeamNGInstall, args: CommonArgs, gptk_path: String },
    /// Open the Windows launcher through the compatibility runtime rooted at
    /// `gptk_path`.
    MacGPTKIndirect { install: BeamNGInstall, gptk_path: String },
}

/// Why a launch failed before or at the process start.
#[derive(Debug)]
pub enum ExecError {
    /// The resolved executable path does not exist; carries that path.
    FileNotFound(String),
    /// The resolved executable path exists but is a directory; carries that
    /// path.
    DirectoryAtExecutable(String),
    /// The operating system refused or failed to start the process; carries
    /// the OS's description of the failure.
    ProcessFailed(String),
}

/// The mathematical value of an [`ExecError`].
pub enum ExecErrorView {
    FileNotFound(Seq<char>),
    DirectoryAtExecutable(Seq<char>),
    ProcessFailed(Seq<char>),
}

impl View for ExecError {
    type V = ExecErrorView;

    open spec fn view(&self) -> ExecErrorView {
        match self {
            ExecError::FileNotFound(p) => ExecErrorView::FileNotFound(p@),
            ExecError::DirectoryAtExecutable(p) => ExecErrorView::DirectoryAtExecutable(p@),
            ExecError::ProcessFailed(m) => ExecErrorView::ProcessFailed(m@),
        }
    }
}

/// The process a launch method starts: the program to invoke and the
/// argument tokens handed to it, in order. Recomputed on every launch
/// attempt, never persisted.
#[derive(Debug)]
pub struct LaunchPlan {
    /// The program the operating system is asked to start.
    pub program: String,
    /// The argument tokens, in the exact order they are passed.
    pub args: Vec<String>,
}

/// The mathematical value of a [`LaunchPlan`].
#[verifier::ext_equal]
pub struct LaunchPlanView {
    pub program: Seq<char>,
    pub args: Seq<Seq<char>>,
}

impl View for LaunchPlan {
    type V = LaunchPlanView;

    open spec fn view(&self) -> LaunchPlanView {
        LaunchPlanView { program: self.program@, args: token_views(self.args@) }
    }
}

impl ExecMethod {
    /// Whether this method resolves an executable under the install root and
    /// is therefore subject to the pre-spawn existence and kind checks. A
    /// Steam launch is not: finding the Steam client is the operating
    /// system's business, not the install's.
    pub open spec fn checks_install(self) -> bool {
        !(self is Steam)
    }

    /// The absolute executable path this method resolves under its install
    /// root. The compatibility-runtime methods reuse the Windows binaries.
    pub open spec fn exec_path(self) -> Seq<char>
        recommends
            self.checks_install(),
    {
        match self {
            ExecMethod::Steam { .. } => Seq::empty(),
            ExecMethod::Windows { install, .. } => joined(install@, windows_exec_rel()),
            ExecMethod::WindowsIndirect { install } => joined(install@, windows_launcher_rel()),
            ExecMethod::Linux { install, .. } => joined(install@, linux_exec_rel()),
            ExecMethod::MacGPTK { install, .. } => joined(install@, windows_exec_rel()),
            ExecMethod::MacGPTKIndirect { install, .. } => joined(
                install@,
                windows_launcher_rel(),
            ),
        }
    }

    /// The process this method starts when the pre-spawn checks pass: the
    /// program and the exact argument tokens, in order.
    pub open spec fn plan(self) -> LaunchPlanView {
        match self {
            ExecMethod::Steam { steam_path } => LaunchPlanView {
                program: match steam_path {
                    Some(p) => p@,
                    None => default_steam_exec(),
                },
                args: seq![steam_run_uri()],
            },
            ExecMethod::Windows { install: _, args } => LaunchPlanView {
                program: "cmd.exe"@,
                args: seq!["/C"@, self.exec_path()] + args.tokens(),
            },
            ExecMethod::WindowsIndirect { install: _ } => LaunchPlanView {
                program: "cmd.exe"@,
                args: seq!["/C"@, self.exec_path()],
            },
            ExecMethod::Linux { install: _, args } => LaunchPlanView {
                program: self.exec_path(),
                args: args.tokens(),
            },
            ExecMethod::MacGPTK { install: _, args, gptk_path } => LaunchPlanView {
                program: joined(gptk_path@, gptk_wine_rel()),
                args: seq![self.exec_path()] + args.tokens(),
            },
            ExecMethod::MacGPTKIndirect { install: _, gptk_path } => LaunchPlanView {
                program: joined(gptk_path@, gptk_wine_rel()),
                args: seq![self.exec_path()],
            },
        }
    }
}

/// The outcome of the pre-spawn checks on an executable path, given the two
/// filesystem observations about it: a missing path is rejected first, then
/// a directory; any other observation passes the path through.
pub open spec fn check_spec(path: Seq<char>, path_exists: bool, path_is_dir: bool) -> Result<
    Seq<char>,
    ExecErrorView,
> {
    if !path_exists {
        Err(ExecErrorView::FileNotFound(path))
    } else if path_is_dir {
        Err(ExecErrorView::DirectoryAtExecutable(path))
    } else {
        Ok(path)
    }
}

/// The pre-spawn outcome of a launch method, given the filesystem
/// observations about its resolved executable path: either the plan to
/// start, or the error the checks raise. A method that resolves no install
/// path is never checked and always yields its plan.
pub open spec fn resolution_spec(
    m: ExecMethod,
    path_exists: bool,
    path_is_dir: bool,
) -> Result<LaunchPlanView, ExecErrorView> {
    if m.checks_install() {
        match check_spec(m.exec_path(), path_exists, path_is_dir) {
            Ok(_) => Ok(m.plan()),
            Err(e) => Err(e),
        }
    } else {
        Ok(m.plan())
    }
}

/// The mathematical value of a resolution result.
pub open spec fn resolve_view(r: Result<LaunchPlan, ExecError>) -> Result<
    LaunchPlanView,
    ExecErrorView,
> {
    match r {
        Ok(p) => Ok(p@),
        Err(e) => Err(e@),
    }
}

/// The mathematical value of a checked-path result.
pub open spec fn checked_view(r: Result<String, ExecError>) -> Result<Seq<char>, ExecErrorView> {
    match r {
        Ok(p) => Ok(p@),
        Err(e) => Err(e@),
    }
}

/// Join a relative path fragment onto a root with the path separator.
pub fn join_path(root: &String, rel: &str) -> (r: String)
    ensures
        r@ == joined(root@, rel@),
{
    let mut s = root.clone();
    s.append("/");
    s.append(rel);
    proof {
        assert(s@ =~= joined(root@, rel@));
    }
    s
}

/// Relies on std::path::Path::exists: true iff the path currently names
/// something on disk. The answer depends on the filesystem at the moment of
/// the call, so nothing is promised of it.
#[verifier::external_body]
fn fs_exists(path: &String) -> bool {
    std::path::Path::new(path.as_str()).exists()
}

/// Relies on std::path::Path::is_dir: true iff the path currently names an
/// existing directory. The answer depends on the filesystem at the moment of
/// the call, so nothing is promised of it.
#[verifier::external_body]
fn fs_is_dir(path: &String) -> bool {
    std::path::Path::new(path.as_str()).is_dir()
}

/// Decide the pre-spawn checks for an executable path from the two
/// filesystem observations about it. This is the whole decision: for every
/// pair of observations the result is [`check_spec`], exactly.
pub fn check_executable(path: String, path_exists: bool, path_is_dir: bool) -> (r: Result<
    String,
    ExecError,
>)
    ensures
        checked_view(r) == check_spec(path@, path_exists, path_is_dir),
{
    if !path_exists {
        Err(ExecError::FileNotFound(path))
    } else if path_is_dir {
        Err(ExecError::DirectoryAtExecutable(path))
    } else {
        Ok(path)
    }
}

/// Observe the filesystem at `path` and apply the pre-spawn checks to what
/// was seen: the result is [`check_spec`] of the path and some pair of
/// observations.
fn checked_path(path: String) -> (r: Result<String, ExecError>)
    ensures
        exists|path_exists: bool, path_is_dir: bool|
            checked_view(r) == check_spec(path@, path_exists, path_is_dir),
{
    let ghost pv = path@;
    let path_exists = fs_exists(&path);
    let path_is_dir = fs_is_dir(&path);
    let ghost (ge, gd) = (path_exists, path_is_dir);
    let r = check_executable(path, path_exists, path_is_dir);
    proof {
        assert(checked_view(r) == check_spec(pv, ge, gd));
    }
    r
}

/// From a pre-spawn success on the method's resolved path, reach the
/// existential resolution postcondition.
proof fn reach_resolution_ok(m: ExecMethod, r: Result<LaunchPlan, ExecError>, c: Result<
    String,
    ExecError,
>)
    requires
        m.checks_install(),
        r matches Ok(plan) && plan@ == m.plan(),
        c is Ok,
        exists|path_exists: bool, path_is_dir: bool|
            checked_view(c) == check_spec(m.exec_path(), path_exists, path_is_dir),
    ensures
        exists|path_exists: bool, path_is_dir: bool|
            resolve_view(r) == resolution_spec(m, path_exists, path_is_dir),
{
    let (pe, pd) = choose|pe: bool, pd: bool|
        checked_view(c) == check_spec(m.exec_path(), pe, pd);
    assert(check_spec(m.exec_path(), pe, pd) is Ok);
    assert(resolve_view(r) == resolution_spec(m, pe, pd));
}

/// From a pre-spawn failure on the method's resolved path, reach the
/// existential resolution postcondition and name the error.
proof fn reach_resolution_err(m: ExecMethod, c: Result<String, ExecError>, e: ExecError)
    requires
        m.checks_install(),
        c == Err::<String, ExecError>(e),
        exists|path_exists: bool, path_is_dir: bool|
            checked_view(c) == check_spec(m.exec_path(), path_exists, path_is_dir),
    ensures
        exists|path_exists: bool, path_is_dir: bool|
            resolve_view(Err::<LaunchPlan, ExecError>(e)) == resolution_spec(
                m,
                path_exists,
                path_is_dir,
            ),
        (e matches ExecError::FileNotFound(p) && p@ == m.exec_path()) || (e
            matches ExecError::DirectoryAtExecutable(p) && p@ == m.exec_path()),
{
    let (pe, pd) = choose|pe: bool, pd: bool|
        checked_view(c) == check_spec(m.exec_path(), pe, pd);
    assert(checked_view(c) == check_spec(m.exec_path(), pe, pd));
    assert(resolve_view(Err::<LaunchPlan, ExecError>(e)) == resolution_spec(m, pe, pd));
}

/// Build a plan whose arguments are `argv` followed by every token of
/// `tokens`, in order.
fn append_tokens(program: String, argv: Vec<String>, tokens: Vec<String>) -> (r: LaunchPlan)
    ensures
        r@.program == program@,
        r@.args == token_views(argv@) + token_views(tokens@),
{
    let mut argv = argv;
    let ghost orig_argv = argv@;
    let n = tokens.len();
    let mut i: usize = 0;
    while i < n
        invariant
            i <= n,
            n == tokens@.len(),
            argv@ == orig_argv + tokens@.subrange(0, i as int),
        decreases n - i,
    {
        let t = tokens[i].clone();
        argv.push(t);
        proof {
            assert(argv@ =~= orig_argv + tokens@.subrange(0, i as int + 1));
        }
        i = i + 1;
    }
    proof {
        assert(tokens@.subrange(0, n as int) =~= tokens@);
    }
    let r = LaunchPlan { program, args: argv };
    proof {
        assert(token_views(r.args@) =~~= token_views(orig_argv) + token_views(tokens@));
    }
    r
}

/// Resolve a launch method to the process it starts, applying the pre-spawn
/// checks to the resolved executable path. The result is exactly the
/// method's pre-spawn outcome under some pair of filesystem observations: on
/// success the plan is the method's, and on failure the error is a missing
/// or wrong-kind executable carrying the resolved path — never a process
/// failure, which can only arise at the later spawn. A Steam method resolves
/// no install path and always succeeds here.
pub fn resolve(method: ExecMethod) -> (r: Result<LaunchPlan, ExecError>)
    ensures
        exists|path_exists: bool, path_is_dir: bool|
            resolve_view(r) == resolution_spec(method, path_exists, path_is_dir),
        r matches Ok(plan) ==> plan@ == method.plan(),
        r matches Err(e) ==> method.checks_install(),
        r matches Err(e) ==> (e matches ExecError::FileNotFound(p) && p@ == method.exec_path())
            || (e matches ExecError::DirectoryAtExecutable(p) && p@ == method.exec_path()),
{
    let ghost m = method;
    match method {
        ExecMethod::Steam { steam_path } => {
            let program = match steam_path {
                Some(p) => p,
                None => String::from_str("steam"),
            };
            let mut args: Vec<String> = Vec::new();
            args.push(String::from_str("steam://rungameid/284160"));
            let plan = LaunchPlan { program, args };
            proof {
                assert(plan@ =~~= m.plan());
                assert(resolve_view(Ok::<LaunchPlan, ExecError>(plan)) == resolution_spec(
                    m,
                    true,
                    false,
                ));
            }
            Ok(plan)
        },
        ExecMethod::Windows { install, args } => {
            let exec_path = join_path(install.path(), "Bin64/BeamNG.x64.exe");
            let checked = checked_path(exec_path);
            let ghost gc = checked;
            match checked {
                Ok(exec_path) => {
                    let tokens = args.to_args();
                    let mut argv: Vec<String> = Vec::new();
                    argv.push(String::from_str("/C"));
                    argv.push(exec_path);
                    let plan = append_tokens(String::from_str("cmd.exe"), argv, tokens);
                    proof {
                        assert(plan@ =~~= m.plan());
                        reach_resolution_ok(m, Ok(plan), gc);
                    }
                    Ok(plan)
                },
                Err(e) => {
                    proof {
                        reach_resolution_err(m, gc, e);
                    }
                    Err(e)
                },
            }
        },
        ExecMethod::WindowsIndirect { install } => {
            let exec_path = join_path(install.path(), "BeamNG.drive.exe");
            let checked = checked_path(exec_path);
            let ghost gc = checked;
            match checked {
                Ok(exec_path) => {
                    let mut argv: Vec<String> = Vec::new();
                    argv.push(String::from_str("/C"));
                    argv.push(exec_path);
                    let plan = LaunchPlan { program: String::from_str("cmd.exe"), args: argv };
                    proof {
                        assert(plan@ =~~= m.plan());
                        reach_resolution_ok(m, Ok(plan), gc);
                    }
                    Ok(plan)
                },
                Err(e) => {
                    proof {
                        reach_resolution_err(m, gc, e);
                    }
                    Err(e)
                },
            }
        },
        ExecMethod::Linux { install, args } => {
            let exec_path = join_path(install.path(), "BinLinux/BeamNG.x64");
            let checked = checked_path(exec_path);
            let ghost gc = checked;
            match checked {
                Ok(exec_path) => {
                    let tokens = args.to_args();
                    let plan = LaunchPlan { program: exec_path, args: tokens };
                    proof {
                        assert(plan@ =~~= m.plan());
                        reach_resolution_ok(m, Ok(plan), gc);
                    }
                    Ok(plan)
                },
                Err(e) => {
                    proof {
                        reach_resolution_err(m, gc, e);
                    }
                    Err(e)
                },
            }
        },
        ExecMethod::MacGPTK { install, args, gptk_path } => {
            let exec_path = join_path(install.path(), "Bin64/BeamNG.x64.exe");
            let checked = checked_path(exec_path);
            let ghost gc = checked;
            match checked {
                Ok(exec_path) => {
                    let program = join_path(&gptk_path, "Contents/Resources/wine/bin/wine");
                    let tokens = args.to_args();
                    let mut argv: Vec<String> = Vec::new();
                    argv.push(exec_path);
                    let plan = append_tokens(program, argv, tokens);
                    proof {
                        assert(plan@ =~~= m.plan());
                        reach_resolution_ok(m, Ok(plan), gc);
                    }
                    Ok(plan)
                },
                Err(e) => {
                    proof {
                        reach_resolution_err(m, gc, e);
                    }
                    Err(e)
                },
            }
        },
        ExecMethod::MacGPTKIndirect { install, gptk_path } => {
            let exec_path = join_path(install.path(), "BeamNG.drive.exe");
            let checked = checked_path(exec_path);
            let ghost gc = checked;
            match checked {
                Ok(exec_path) => {
                    let program = join_path(&gptk_path, "Contents/Resources/wine/bin/wine");
                    let mut argv: Vec<String> = Vec::new();
                    argv.push(exec_path);
                    let plan = LaunchPlan { program, args: argv };
                    proof {
                        assert(plan@ =~~= m.plan());
                        reach_resolution_ok(m, Ok(plan), gc);
                    }
                    Ok(plan)
                },
                Err(e) => {
                    proof {
                        reach_resolution_err(m, gc, e);
                    }
                    Err(e)
                },
            }
        },
    }
}

/// Interpret the operating system's answer to a started process: success
/// means only that the spawn was accepted and the child ran to some exit
/// status; a refusal becomes a process failure carrying the OS's
/// description. No other error can arise at this stage.
pub fn spawn_outcome(spawn: Result<(), String>) -> (r: Result<(), ExecError>)
    ensures
        spawn is Ok ==> r is Ok,
        spawn matches Err(msg) ==> r matches Err(e) && e@ == ExecErrorView::ProcessFailed(msg@),
{
    match spawn {
        Ok(()) => Ok(()),
        Err(msg) => Err(ExecError::ProcessFailed(msg)),
    }
}

/// Resolution is deterministic: with the launch method and the filesystem
/// observations fixed, the pre-spawn outcome — plan or error — is fixed.
/// Two launch attempts on identical, unchanged inputs over an unchanged
/// filesystem can differ only in what the operating system later makes of
/// the spawn itself.
pub proof fn lemma_resolution_deterministic(
    m1: ExecMethod,
    m2: ExecMethod,
    path_exists1: bool,
    path_exists2: bool,
    path_is_dir1: bool,
    path_is_dir2: bool,
)
    requires
        m1 == m2,
        path_exists1 == path_exists2,
        path_is_dir1 == path_is_dir2,
    ensures
        resolution_spec(m1, path_exists1, path_is_dir1) == resolution_spec(
            m2,
            path_exists2,
            path_is_dir2,
        ),
{
}

/// A Steam launch starts the default Steam binary with the game's run URI
/// as its only argument, and no install path is resolved or checked on the
/// way.
pub proof fn lemma_steam_plan_default(steam_path: Option<String>)
    requires
        steam_path is None,
    ensures
        (ExecMethod::Steam { steam_path }).plan() == (LaunchPlanView {
            program: default_steam_exec(),
            args: seq![steam_run_uri()],
        }),
        !(ExecMethod::Steam { steam_path }).checks_install(),
{
}

/// A compatibility-runtime direct launch starts the runtime's launcher under
/// the supplied runtime root, handing it the resolved Windows game binary
/// under the install root as its first argument, followed by the built
/// option tokens.
pub proof fn lemma_mac_direct_plan(install: BeamNGInstall, args: CommonArgs, gptk_path: String)
    ensures
        ({
            let m = ExecMethod::MacGPTK { install, args, gptk_path };
            m.plan().program == joined(gptk_path@, gptk_wine_rel()) && m.plan().args == seq![
                joined(install@, windows_exec_rel()),
            ] + args.tokens() && m.exec_path() == joined(install@, windows_exec_rel())
        }),
{
}

} // verus!
