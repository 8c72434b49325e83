//! The bridge as a whole: the steps of one call, the check of an
//! installation and the diagnostics offered to the user.
//!
//! One call alternates between work that only the caller can do
//! (probing a candidate, running a process) and decisions. The decisions
//! are made here, from the present state to the next action.

use crate::error::{BridgeError, ErrorView};
use crate::executor::{
    backend_dir_of, encoding_env, encoding_variables, env_view, env_views, execution_plan,
    lemma_backend_dir_of_bundled, parent_dir, path_list_separator, plan_execution, EnvVar,
    EnvView, ExecutionPlan, PlanView, ProcessOutcome,
};
use crate::output::{
    extract_with_diagnostics, structured_conclusion, structured_diagnostics, ParsedPayload,
};
use crate::request::{argv_of, build, OperationRequest, RequestView};
use crate::resolver::{
    action_of, backend_root, backend_root_of, candidate_list, handle_of, is_bundled,
    priority_list, resolution, ActionView, HandleView, InterpreterHandle, OriginKind, OsFamily,
    ProbeOutcome, ProbeRequest, ProbeView, Resolver, ResolverAction, ResolverView,
};
use crate::text::{
    chars_of, char_rows, join_text, lines_of, nat_digits, push_all, split_lines, string_from_chars,
    texts, trim, trimmed, u64_text,
};
use vstd::prelude::*;

verus! {

/// What is known of an installation.
#[derive(Debug, Clone, PartialEq, Eq)]
pub struct PythonInfo {
    pub version: String,
    pub executable: String,
    pub has_backend: bool,
}

/// Facts for troubleshooting paths.
#[derive(Debug, Clone, PartialEq, Eq)]
pub struct DebugInfo {
    pub current_dir: String,
    pub backend_dir: String,
    pub backend_dir_exists: bool,
    pub venv_python_path: String,
    pub venv_python_exists: bool,
    pub found_python_path: Option<String>,
}

/// The next thing to do in a call.
#[derive(Debug, Clone, PartialEq, Eq)]
pub enum BridgeAction {
    /// Probe this candidate and report the outcome to the resolver.
    Probe(ProbeRequest),
    /// Run this plan once and conclude from the outcome.
    Run(ExecutionPlan),
    /// The call failed; nothing is built or run.
    Fail(BridgeError),
}

/// Mathematical content of a [`BridgeAction`].
pub enum BridgeActionView {
    Probe(ProbeView),
    Run(PlanView),
    Fail(ErrorView),
}

impl View for BridgeAction {
    type V = BridgeActionView;

    open spec fn view(&self) -> BridgeActionView {
        match self {
            BridgeAction::Probe(p) => BridgeActionView::Probe(p@),
            BridgeAction::Run(plan) => BridgeActionView::Run(plan@),
            BridgeAction::Fail(e) => BridgeActionView::Fail(e@),
        }
    }
}

/// The next action of a call: while the resolver has candidates to
/// examine, the probe it asks for; once it has chosen a handle, the run
/// of the request's argument vector through that handle; when no
/// candidate verified, the failure `InterpreterNotFound`.
pub open spec fn bridge_action(
    resolver: ResolverView,
    request: RequestView,
    ambient_path: Seq<char>,
    family: OsFamily,
) -> BridgeActionView {
    match action_of(resolver) {
        ActionView::Probe(probe) => BridgeActionView::Probe(probe),
        ActionView::Resolved(handle) => BridgeActionView::Run(
            execution_plan(handle, argv_of(request), ambient_path, family),
        ),
        ActionView::NotFound => BridgeActionView::Fail(ErrorView::InterpreterNotFound),
    }
}

/// Decides the next action of a call. The argument vector is built only
/// once an interpreter has been resolved. `ambient_path` is the caller's
/// executable search path and `family` the operating system family that
/// the call takes place on.
pub fn execute_python_command(
    resolver: &Resolver,
    request: &OperationRequest,
    ambient_path: &str,
    family: OsFamily,
) -> (action: BridgeAction)
    ensures
        action@ == bridge_action(resolver@, request@, ambient_path@, family),
{
    match resolver.action() {
        ResolverAction::Probe(probe) => BridgeAction::Probe(probe),
        ResolverAction::Resolved(handle) => {
            let argv = build(request);
            BridgeAction::Run(plan_execution(&handle, &argv, ambient_path, family))
        },
        ResolverAction::NotFound => BridgeAction::Fail(BridgeError::InterpreterNotFound),
    }
}

/// When no candidate verifies, a call fails with `InterpreterNotFound`
/// and asks for no run: a resolver past its last candidate gives `Fail`.
pub proof fn lemma_not_found_runs_nothing(
    resolver: ResolverView,
    request: RequestView,
    ambient_path: Seq<char>,
    family: OsFamily,
)
    requires
        resolver.cursor >= resolver.candidates.len(),
    ensures
        bridge_action(resolver, request, ambient_path, family) == BridgeActionView::Fail(
            ErrorView::InterpreterNotFound,
        ),
{
}

/// A bundled runtime that the resolver offers for a backend root runs
/// the backend in that root, with the module search path set to it and
/// with the runtime's directory of executables first in the search path.
pub proof fn lemma_bundled_run_stays_in_backend_root(
    backend_dir: Seq<char>,
    family: OsFamily,
    which: int,
    argv: Seq<Seq<char>>,
    ambient_path: Seq<char>,
)
    requires
        which == 0 || which == 1,
    ensures
        ({
            let handle = handle_of(priority_list(backend_dir, family)[which]);
            let plan = execution_plan(handle, argv, ambient_path, family);
            let executables = if handle.origin == OriginKind::BundledWindows {
                backend_dir + "/venv/Scripts"@
            } else {
                backend_dir + "/venv/bin"@
            };
            &&& is_bundled(handle.origin)
            &&& plan.working_dir == Some(backend_dir)
            &&& plan.env[0] == env_view("VIRTUAL_ENV"@, backend_dir + "/venv"@)
            &&& plan.env[1] == env_view(
                "PATH"@,
                executables + path_list_separator(family) + ambient_path,
            )
            &&& plan.env[4] == env_view("PYTHONPATH"@, backend_dir)
        }),
{
    lemma_backend_dir_of_bundled(backend_dir);
}

/// Concludes a call whose output is expected to hold a structured
/// payload: the value of the first line that decodes, a parse failure
/// with the whole output, or the failure of the run. With it come, for
/// the caller's diagnostics, the lines that looked like JSON, were tried
/// and did not decode.
pub fn execute_python_json_command(outcome: ProcessOutcome) -> (r: (
    Result<serde_json::Value, BridgeError>,
    Vec<String>,
))
    ensures
        match outcome {
            ProcessOutcome::LaunchFailed { reason } => {
                &&& r.0 matches Err(e) && e@ == (ErrorView::ProcessLaunchFailure {
                    reason: reason@,
                })
                &&& r.1@.len() == 0
            },
            ProcessOutcome::Exited { exit_code, stdout, stderr } => {
                &&& match structured_conclusion(exit_code, stdout@, stderr@) {
                    Ok(value) => r.0 == Ok::<serde_json::Value, BridgeError>(value),
                    Err(error) => r.0 matches Err(e) && e@ == error,
                }
                &&& texts(r.1@) == structured_diagnostics(exit_code, stdout@)
            },
        },
{
    match outcome {
        ProcessOutcome::LaunchFailed { reason } => (
            Err(BridgeError::ProcessLaunchFailure { reason }),
            Vec::new(),
        ),
        ProcessOutcome::Exited { exit_code, stdout, stderr } => {
            match exit_code {
                Some(0) => {
                    let (payload, passed_over) = extract_with_diagnostics(stdout.as_str());
                    match payload {
                        ParsedPayload::Structured(value) => (Ok(value), passed_over),
                        _ => (Err(BridgeError::OutputParseFailure { raw: stdout }), passed_over),
                    }
                },
                _ => {
                    let nothing: Vec<String> = Vec::new();
                    assert(texts(nothing@) == Seq::<Seq<char>>::empty());
                    (Err(BridgeError::ProcessExecutionFailure { exit_code, stderr }), nothing)
                },
            }
        },
    }
}

/// The interpreter that a resolution chooses below the working
/// directory `current_dir`, from the outcome that each candidate's probe
/// would have: the path or name of the first candidate, in priority
/// order, that verifies.
pub fn get_python_path(current_dir: &str, family: OsFamily, outcomes: &Vec<ProbeOutcome>) -> (r:
    Result<String, BridgeError>)
    ensures
        match resolution(priority_list(backend_root_of(current_dir@), family), outcomes@) {
            Some(handle) => r matches Ok(path) && path@ == handle.path,
            None => r matches Err(e) && e == BridgeError::InterpreterNotFound,
        },
{
    let backend_dir = backend_root(current_dir);
    let candidates = candidate_list(backend_dir.as_str(), family);
    match Resolver::resolve(&candidates, outcomes) {
        Ok(handle) => Ok(handle.path),
        Err(e) => Err(e),
    }
}

/// The plan that checks whether the backend is available to `handle`.
///
/// With a bundled runtime the backend's own command line is asked for
/// its help text, in the backend root derived from the interpreter's
/// path. Otherwise the interpreter is asked to import the command-line
/// library that the backend is built on.
pub open spec fn backend_check_plan(handle: HandleView) -> PlanView {
    if is_bundled(handle.origin) {
        PlanView {
            program: handle.path,
            args: seq!["-m"@, "src.cli"@, "--help"@],
            working_dir: Some(backend_dir_of(handle.path)),
            env: encoding_env(),
        }
    } else {
        PlanView {
            program: handle.path,
            args: seq!["-c"@, "import typer; print('Backend available')"@],
            working_dir: None,
            env: encoding_env(),
        }
    }
}

/// Plans the check of the backend behind `handle`.
pub fn plan_backend_check(handle: &InterpreterHandle) -> (plan: ExecutionPlan)
    ensures
        plan@ == backend_check_plan(handle@),
{
    match handle.origin {
        OriginKind::SystemNamed => {
            let args = vec!["-c".to_owned(), "import typer; print('Backend available')".to_owned()];
            assert(texts(args@) == seq!["-c"@, "import typer; print('Backend available')"@]);
            ExecutionPlan {
                program: handle.path.clone(),
                args,
                working_dir: None,
                env: encoding_variables(),
            }
        },
        _ => {
            let scripts_dir = parent_dir(handle.path.as_str());
            let runtime_dir = parent_dir(scripts_dir.as_str());
            let backend_dir = parent_dir(runtime_dir.as_str());
            let args = vec!["-m".to_owned(), "src.cli".to_owned(), "--help".to_owned()];
            assert(texts(args@) == seq!["-m"@, "src.cli"@, "--help"@]);
            ExecutionPlan {
                program: handle.path.clone(),
                args,
                working_dir: Some(backend_dir),
                env: encoding_variables(),
            }
        },
    }
}

/// Puts together what is known of an installation: the version as the
/// interpreter printed it, trimmed; the interpreter; and whether the
/// backend check ended with success.
pub fn installation_info(
    handle: &InterpreterHandle,
    version_output: &str,
    backend_check_succeeded: bool,
) -> (info: PythonInfo)
    ensures
        info.version@ == trimmed(version_output@),
        info.executable@ == handle.path@,
        info.has_backend == backend_check_succeeded,
{
    PythonInfo {
        version: trim(version_output),
        executable: handle.path.clone(),
        has_backend: backend_check_succeeded,
    }
}

/// Concludes the check of an installation whose interpreter verified:
/// what is known of it when the backend check ended with success, the
/// failure `BackendUnavailable` when it did not.
pub fn check_python_installation(
    handle: &InterpreterHandle,
    version_output: &str,
    backend_check_succeeded: bool,
) -> (r: Result<PythonInfo, BridgeError>)
    ensures
        backend_check_succeeded ==> (r matches Ok(info) && {
            &&& info.version@ == trimmed(version_output@)
            &&& info.executable@ == handle.path@
            &&& info.has_backend
        }),
        !backend_check_succeeded ==> (r matches Err(e) && e == BridgeError::BackendUnavailable),
{
    if backend_check_succeeded {
        Ok(installation_info(handle, version_output, true))
    } else {
        Err(BridgeError::BackendUnavailable)
    }
}

/// The bundled interpreter in its Windows layout below a working
/// directory.
pub open spec fn windows_bundled_path(current_dir: Seq<char>) -> Seq<char> {
    backend_root_of(current_dir) + "/venv/Scripts/python.exe"@
}

/// Collects the facts for troubleshooting paths.
pub fn debug_python_paths(
    current_dir: &str,
    backend_dir_exists: bool,
    venv_python_exists: bool,
    found_python_path: Option<String>,
) -> (info: DebugInfo)
    ensures
        info.current_dir@ == current_dir@,
        info.backend_dir@ == backend_root_of(current_dir@),
        info.backend_dir_exists == backend_dir_exists,
        info.venv_python_path@ == windows_bundled_path(current_dir@),
        info.venv_python_exists == venv_python_exists,
        info.found_python_path == found_python_path,
{
    let backend_dir = backend_root(current_dir);
    let venv_python_path = join_text(backend_dir.as_str(), "/venv/Scripts/python.exe");
    DebugInfo {
        current_dir: current_dir.to_owned(),
        backend_dir,
        backend_dir_exists,
        venv_python_path,
        venv_python_exists,
        found_python_path,
    }
}

/// The plan of the trial run: the bundled interpreter lists the
/// projects, in the backend root, with the caller's environment.
pub open spec fn trial_plan(current_dir: Seq<char>) -> PlanView {
    PlanView {
        program: windows_bundled_path(current_dir),
        args: seq!["-m"@, "src.cli"@, "project"@, "list"@],
        working_dir: Some(backend_root_of(current_dir)),
        env: Seq::empty(),
    }
}

/// Plans the trial run below `current_dir`.
pub fn plan_trial(current_dir: &str) -> (plan: ExecutionPlan)
    ensures
        plan@ == trial_plan(current_dir@),
{
    let backend_dir = backend_root(current_dir);
    let program = join_text(backend_dir.as_str(), "/venv/Scripts/python.exe");
    let args = vec!["-m".to_owned(), "src.cli".to_owned(), "project".to_owned(), "list".to_owned()];
    assert(texts(args@) == seq!["-m"@, "src.cli"@, "project"@, "list"@]);
    let env: Vec<EnvVar> = Vec::new();
    assert(env_views(env@) == Seq::<EnvView>::empty());
    ExecutionPlan { program, args, working_dir: Some(backend_dir), env }
}

/// `true` or `false`.
pub open spec fn bool_text(b: bool) -> Seq<char> {
    if b {
        "true"@
    } else {
        "false"@
    }
}

/// The first lines of a text, at most three, joined with ` | `.
pub open spec fn sample_of(lines: Seq<Seq<char>>) -> Seq<char> {
    if lines.len() == 0 {
        Seq::empty()
    } else if lines.len() == 1 {
        lines[0]
    } else if lines.len() == 2 {
        lines[0] + " | "@ + lines[1]
    } else {
        lines[0] + " | "@ + lines[1] + " | "@ + lines[2]
    }
}

/// The part of the report that every trial has: the directories and
/// whether they exist.
pub open spec fn report_head(
    current_dir: Seq<char>,
    backend_dir_exists: bool,
    venv_python_exists: bool,
) -> Seq<char> {
    "Current dir: "@ + current_dir + "\n"@ + "Backend dir: "@ + backend_root_of(current_dir)
        + "\n"@ + "Backend exists: "@ + bool_text(backend_dir_exists) + "\n"@ + "Venv python: "@
        + windows_bundled_path(current_dir) + "\n"@ + "Venv exists: "@ + bool_text(
        venv_python_exists,
    ) + "\n"@
}

/// The part of the report that tells how the trial run went.
pub open spec fn report_of_run(
    exit_code: Option<i32>,
    stdout: Seq<char>,
    stderr: Seq<char>,
) -> Seq<char> {
    let sample = if stdout.len() > 0 {
        "Sample output: "@ + sample_of(lines_of(stdout)) + "\n"@
    } else {
        Seq::<char>::empty()
    };
    "Command success: "@ + bool_text(exit_code == Some(0i32)) + "\n"@ + "Stdout: "@ + nat_digits(
        lines_of(stdout).len(),
    ) + "\n"@ + "Stderr: "@ + stderr + "\n"@ + sample
}

/// The report of a trial: the directories, then how the run went. The
/// interpreter is run only where it exists.
pub open spec fn trial_report(
    current_dir: Seq<char>,
    backend_dir_exists: bool,
    venv_python_exists: bool,
    outcome: Option<ProcessOutcome>,
) -> Seq<char> {
    report_head(current_dir, backend_dir_exists, venv_python_exists) + (if !venv_python_exists {
        "Venv python not found\n"@
    } else {
        match outcome {
            Some(ProcessOutcome::Exited { exit_code, stdout, stderr }) => report_of_run(
                exit_code,
                stdout@,
                stderr@,
            ),
            Some(ProcessOutcome::LaunchFailed { reason }) => "Command failed: "@ + reason@ + "\n"@,
            None => Seq::<char>::empty(),
        }
    })
}

/// Appends the characters of `text`.
fn put(out: &mut Vec<char>, text: &str)
    ensures
        final(out)@ == old(out)@ + text@,
{
    let chars = chars_of(text);
    push_all(out, &chars);
}

/// Appends `true` or `false`.
fn put_bool(out: &mut Vec<char>, b: bool)
    ensures
        final(out)@ == old(out)@ + bool_text(b),
{
    if b {
        put(out, "true");
    } else {
        put(out, "false");
    }
}

/// Appends the sample of the first lines.
fn put_sample(out: &mut Vec<char>, rows: &Vec<Vec<char>>)
    ensures
        final(out)@ == old(out)@ + sample_of(char_rows(rows@)),
{
    let ghost lines = char_rows(rows@);
    if rows.len() > 0 {
        assert(lines[0] == rows@[0]@);
        push_all(out, &rows[0]);
    }
    if rows.len() > 1 {
        assert(lines[1] == rows@[1]@);
        put(out, " | ");
        push_all(out, &rows[1]);
    }
    if rows.len() > 2 {
        assert(lines[2] == rows@[2]@);
        put(out, " | ");
        push_all(out, &rows[2]);
    }
    assert(out@ == old(out)@ + sample_of(lines));
}

/// Writes the report of a trial run of the bundled interpreter.
/// `outcome` is how the run ended, where the interpreter exists.
pub fn test_python_execution(
    current_dir: &str,
    backend_dir_exists: bool,
    venv_python_exists: bool,
    outcome: &Option<ProcessOutcome>,
) -> (report: String)
    ensures
        report@ == trial_report(current_dir@, backend_dir_exists, venv_python_exists, *outcome),
{
    let backend_dir = backend_root(current_dir);
    let venv_python = join_text(backend_dir.as_str(), "/venv/Scripts/python.exe");
    let mut out: Vec<char> = Vec::new();
    put(&mut out, "Current dir: ");
    put(&mut out, current_dir);
    put(&mut out, "\n");
    put(&mut out, "Backend dir: ");
    put(&mut out, backend_dir.as_str());
    put(&mut out, "\n");
    put(&mut out, "Backend exists: ");
    put_bool(&mut out, backend_dir_exists);
    put(&mut out, "\n");
    put(&mut out, "Venv python: ");
    put(&mut out, venv_python.as_str());
    put(&mut out, "\n");
    put(&mut out, "Venv exists: ");
    put_bool(&mut out, venv_python_exists);
    put(&mut out, "\n");
    assert(out@ == report_head(current_dir@, backend_dir_exists, venv_python_exists));
    let ghost head = out@;
    if !venv_python_exists {
        put(&mut out, "Venv python not found\n");
    } else {
        match outcome {
            Some(ProcessOutcome::Exited { exit_code, stdout, stderr }) => {
                let succeeded: bool = match exit_code {
                    Some(0) => true,
                    _ => false,
                };
                let chars = chars_of(stdout.as_str());
                let rows = split_lines(&chars);
                let count = u64_text(rows.len() as u64);
                assert(char_rows(rows@).len() == rows.len());
                let mut tail: Vec<char> = Vec::new();
                put(&mut tail, "Command success: ");
                put_bool(&mut tail, succeeded);
                put(&mut tail, "\n");
                put(&mut tail, "Stdout: ");
                put(&mut tail, count.as_str());
                put(&mut tail, "\n");
                put(&mut tail, "Stderr: ");
                put(&mut tail, stderr.as_str());
                put(&mut tail, "\n");
                if chars.len() > 0 {
                    put(&mut tail, "Sample output: ");
                    put_sample(&mut tail, &rows);
                    put(&mut tail, "\n");
                }
                assert(tail@ == report_of_run(*exit_code, stdout@, stderr@));
                push_all(&mut out, &tail);
            },
            Some(ProcessOutcome::LaunchFailed { reason }) => {
                let mut tail: Vec<char> = Vec::new();
                put(&mut tail, "Command failed: ");
                put(&mut tail, reason.as_str());
                put(&mut tail, "\n");
                assert(tail@ == "Command failed: "@ + reason@ + "\n"@);
                push_all(&mut out, &tail);
            },
            None => {
                assert(out@ == head + Seq::<char>::empty());
            },
        }
    }
    string_from_chars(&out)
}

} // verus!
