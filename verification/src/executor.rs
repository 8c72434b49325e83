//! The process executor's decisions: where the backend runs, with which
//! arguments and environment, and how the end of a run is classified.
//!
//! Spawning the process and draining its output is the caller's work; it
//! runs an [`ExecutionPlan`] once and reports a [`ProcessOutcome`].

use crate::error::{BridgeError, ErrorView};
use crate::request::push_tokens;
use crate::resolver::{is_bundled, HandleView, InterpreterHandle, OriginKind, OsFamily};
use crate::text::{chars_of, join_text, copy_range, string_from_chars, texts};
use vstd::prelude::*;

verus! {

/// One environment variable to set for a run.
#[derive(Debug, Clone, PartialEq, Eq)]
pub struct EnvVar {
    pub name: String,
    pub value: String,
}

/// Everything needed to spawn a process once.
#[derive(Debug, Clone, PartialEq, Eq)]
pub struct ExecutionPlan {
    /// The executable.
    pub program: String,
    /// The arguments after the executable.
    pub args: Vec<String>,
    /// The working directory; `None` keeps the caller's.
    pub working_dir: Option<String>,
    /// Variables set on top of the caller's environment, in order.
    pub env: Vec<EnvVar>,
}

/// Mathematical content of an [`EnvVar`].
pub struct EnvView {
    pub name: Seq<char>,
    pub value: Seq<char>,
}

/// Mathematical content of an [`ExecutionPlan`].
pub struct PlanView {
    pub program: Seq<char>,
    pub args: Seq<Seq<char>>,
    pub working_dir: Option<Seq<char>>,
    pub env: Seq<EnvView>,
}

impl View for EnvVar {
    type V = EnvView;

    open spec fn view(&self) -> EnvView {
        EnvView { name: self.name@, value: self.value@ }
    }
}

/// The views of a sequence of variables, in order.
pub open spec fn env_views(env: Seq<EnvVar>) -> Seq<EnvView> {
    env.map_values(|v: EnvVar| v@)
}

impl View for ExecutionPlan {
    type V = PlanView;

    open spec fn view(&self) -> PlanView {
        PlanView {
            program: self.program@,
            args: texts(self.args@),
            working_dir: match self.working_dir {
                Some(d) => Some(d@),
                None => None,
            },
            env: env_views(self.env@),
        }
    }
}

/// How a run ended, as the caller saw it.
#[derive(Debug, Clone, PartialEq, Eq)]
pub enum ProcessOutcome {
    /// The operating system failed to spawn the process.
    LaunchFailed { reason: String },
    /// The process ran to its end. `exit_code` is `None` when the process
    /// ended without an exit code.
    Exited { exit_code: Option<i32>, stdout: String, stderr: String },
}

/// The classified end of a run.
#[derive(Debug, Clone, PartialEq, Eq)]
pub enum ExecutionResult {
    /// Exit code 0, with the raw standard output.
    Success { stdout: String },
    /// Anything else, with the exit code and the raw standard error.
    Failure { exit_code: Option<i32>, stderr: String },
}

/// Mathematical content of an [`ExecutionResult`].
pub enum ResultView {
    Success { stdout: Seq<char> },
    Failure { exit_code: Option<i32>, stderr: Seq<char> },
}

impl View for ExecutionResult {
    type V = ResultView;

    open spec fn view(&self) -> ResultView {
        match self {
            ExecutionResult::Success { stdout } => ResultView::Success { stdout: stdout@ },
            ExecutionResult::Failure { exit_code, stderr } => ResultView::Failure {
                exit_code: *exit_code,
                stderr: stderr@,
            },
        }
    }
}

/// True for the characters that separate the components of a path.
pub open spec fn is_separator(c: char) -> bool {
    c == '/' || c == '\\'
}

/// Index of the last separator in `path`, or -1 when there is none.
pub open spec fn last_separator(path: Seq<char>) -> int
    decreases path.len(),
{
    if path.len() == 0 {
        -1
    } else if is_separator(path.last()) {
        path.len() - 1
    } else {
        last_separator(path.drop_last())
    }
}

/// The directory one level up: `path` without its last component and the
/// separator before it; `.` when `path` has a single component.
pub open spec fn parent_of(path: Seq<char>) -> Seq<char> {
    let cut = last_separator(path);
    if 0 <= cut <= path.len() {
        path.subrange(0, cut)
    } else {
        "."@
    }
}

/// The directory that holds a bundled interpreter.
pub open spec fn scripts_dir_of(interpreter: Seq<char>) -> Seq<char> {
    parent_of(interpreter)
}

/// The bundled runtime's own directory: two levels up from the
/// interpreter.
pub open spec fn runtime_dir_of(interpreter: Seq<char>) -> Seq<char> {
    parent_of(parent_of(interpreter))
}

/// The backend root: three levels up from a bundled interpreter.
pub open spec fn backend_dir_of(interpreter: Seq<char>) -> Seq<char> {
    parent_of(parent_of(parent_of(interpreter)))
}

/// A variable with its value.
pub open spec fn env_view(name: Seq<char>, value: Seq<char>) -> EnvView {
    EnvView { name, value }
}

/// The variables that force UTF-8 text encoding.
pub open spec fn encoding_env() -> Seq<EnvView> {
    seq![env_view("PYTHONIOENCODING"@, "utf-8"@), env_view("PYTHONUTF8"@, "1"@)]
}

/// What separates the entries of an executable search path: `;` on
/// Windows, `:` on Unix.
pub open spec fn path_list_separator(family: OsFamily) -> Seq<char> {
    match family {
        OsFamily::Windows => ";"@,
        OsFamily::Unix => ":"@,
    }
}

/// The caller's search path with `dir` put first.
pub open spec fn search_path_with(
    dir: Seq<char>,
    ambient_path: Seq<char>,
    family: OsFamily,
) -> Seq<char> {
    dir + path_list_separator(family) + ambient_path
}

/// The variables for a run inside a bundled runtime: the runtime marker,
/// the search path with the runtime's directory of executables put
/// first, the encoding variables and the module search path.
pub open spec fn bundled_env(
    interpreter: Seq<char>,
    ambient_path: Seq<char>,
    family: OsFamily,
) -> Seq<EnvView> {
    seq![
        env_view("VIRTUAL_ENV"@, runtime_dir_of(interpreter)),
        env_view("PATH"@, search_path_with(scripts_dir_of(interpreter), ambient_path, family)),
        env_view("PYTHONIOENCODING"@, "utf-8"@),
        env_view("PYTHONUTF8"@, "1"@),
        env_view("PYTHONPATH"@, backend_dir_of(interpreter)),
    ]
}

/// The arguments of a backend run: the module-entry flags, then the
/// operation's argument vector.
pub open spec fn backend_args(argv: Seq<Seq<char>>) -> Seq<Seq<char>> {
    seq!["-m"@, "src.cli"@] + argv
}

/// The plan for running the backend with `argv` through `handle`.
///
/// With a bundled runtime the backend runs in the backend root derived
/// from the interpreter's path, with the bundled environment. Otherwise
/// it runs in the fallback directory relative to the caller's working
/// directory, with the encoding variables only. `family` is the
/// operating system family that the run takes place on.
pub open spec fn execution_plan(
    handle: HandleView,
    argv: Seq<Seq<char>>,
    ambient_path: Seq<char>,
    family: OsFamily,
) -> PlanView {
    if is_bundled(handle.origin) {
        PlanView {
            program: handle.path,
            args: backend_args(argv),
            working_dir: Some(backend_dir_of(handle.path)),
            env: bundled_env(handle.path, ambient_path, family),
        }
    } else {
        PlanView {
            program: handle.path,
            args: backend_args(argv),
            working_dir: Some("../../backend"@),
            env: encoding_env(),
        }
    }
}

/// The plan for the version query that verifies a candidate.
pub open spec fn probe_plan(path: Seq<char>) -> PlanView {
    PlanView { program: path, args: seq!["--version"@], working_dir: None, env: encoding_env() }
}

/// The classification of a run that ended: exit code 0 is success and
/// carries the standard output, anything else is failure and carries the
/// standard error. What the streams hold plays no part.
pub open spec fn classification(
    exit_code: Option<i32>,
    stdout: Seq<char>,
    stderr: Seq<char>,
) -> ResultView {
    if exit_code == Some(0i32) {
        ResultView::Success { stdout }
    } else {
        ResultView::Failure { exit_code, stderr }
    }
}

/// What the caller of an operation receives for an outcome: the raw
/// standard output of a successful run, or the failure.
pub open spec fn conclusion(
    exit_code: Option<i32>,
    stdout: Seq<char>,
    stderr: Seq<char>,
) -> Result<Seq<char>, ErrorView> {
    match classification(exit_code, stdout, stderr) {
        ResultView::Success { stdout } => Ok(stdout),
        ResultView::Failure { exit_code, stderr } => Err(
            ErrorView::ProcessExecutionFailure { exit_code, stderr },
        ),
    }
}

/// Tells whether a character separates path components.
pub fn separator(c: char) -> (b: bool)
    ensures
        b == is_separator(c),
{
    c == '/' || c == '\\'
}

/// The directory one level up from `path`.
pub fn parent_dir(path: &str) -> (parent: String)
    ensures
        parent@ == parent_of(path@),
{
    let chars = chars_of(path);
    let ghost s = chars@;
    let mut i: usize = chars.len();
    assert(s.subrange(0, i as int) == s);
    while i > 0 && !separator(chars[i - 1])
        invariant
            i <= chars.len(),
            s == chars@,
            last_separator(s) == last_separator(s.subrange(0, i as int)),
        decreases i,
    {
        assert(s.subrange(0, i as int).drop_last() == s.subrange(0, i - 1));
        i -= 1;
    }
    if i == 0 {
        ".".to_owned()
    } else {
        let kept = copy_range(&chars, 0, i - 1);
        string_from_chars(&kept)
    }
}

/// Joining a directory and a name with `/` and going one level up gives
/// the directory back, when the name holds no separator.
pub proof fn lemma_parent_of_child(dir: Seq<char>, name: Seq<char>)
    requires
        forall|i: int| 0 <= i < name.len() ==> !is_separator(name[i]),
    ensures
        parent_of(dir + seq!['/'] + name) == dir,
    decreases name.len(),
{
    let path = dir + seq!['/'] + name;
    if name.len() == 0 {
        assert(path.last() == '/');
        assert(path.subrange(0, path.len() - 1) == dir);
    } else {
        let shorter = name.drop_last();
        assert(path.last() == name.last());
        assert(path.drop_last() == dir + seq!['/'] + shorter);
        lemma_parent_of_child(dir, shorter);
        let cut = last_separator(path);
        assert(cut == last_separator(dir + seq!['/'] + shorter));
        assert(cut == dir.len()) by {
            lemma_last_separator_of_child(dir, shorter);
        }
        assert(path.subrange(0, cut) == dir);
    }
}

/// The last separator of a directory joined with a name that holds no
/// separator is the joining `/`.
pub proof fn lemma_last_separator_of_child(dir: Seq<char>, name: Seq<char>)
    requires
        forall|i: int| 0 <= i < name.len() ==> !is_separator(name[i]),
    ensures
        last_separator(dir + seq!['/'] + name) == dir.len(),
    decreases name.len(),
{
    let path = dir + seq!['/'] + name;
    if name.len() == 0 {
        assert(path.last() == '/');
    } else {
        let shorter = name.drop_last();
        assert(path.last() == name.last());
        assert(path.drop_last() == dir + seq!['/'] + shorter);
        lemma_last_separator_of_child(dir, shorter);
    }
}

/// The backend root derived from a bundled interpreter's path is the
/// root that the path was made from, for both layouts.
pub proof fn lemma_backend_dir_of_bundled(backend_dir: Seq<char>)
    ensures
        backend_dir_of(backend_dir + "/venv/Scripts/python.exe"@) == backend_dir,
        runtime_dir_of(backend_dir + "/venv/Scripts/python.exe"@) == backend_dir + "/venv"@,
        scripts_dir_of(backend_dir + "/venv/Scripts/python.exe"@) == backend_dir
            + "/venv/Scripts"@,
        backend_dir_of(backend_dir + "/venv/bin/python"@) == backend_dir,
        runtime_dir_of(backend_dir + "/venv/bin/python"@) == backend_dir + "/venv"@,
        scripts_dir_of(backend_dir + "/venv/bin/python"@) == backend_dir + "/venv/bin"@,
{
    reveal_strlit("/venv/Scripts/python.exe");
    reveal_strlit("/venv/bin/python");
    reveal_strlit("/venv/Scripts");
    reveal_strlit("/venv/bin");
    reveal_strlit("/venv");
    let venv = seq!['v', 'e', 'n', 'v'];
    let scripts = seq!['S', 'c', 'r', 'i', 'p', 't', 's'];
    let bin = seq!['b', 'i', 'n'];
    let exe = seq!['p', 'y', 't', 'h', 'o', 'n', '.', 'e', 'x', 'e'];
    let python = seq!['p', 'y', 't', 'h', 'o', 'n'];
    let runtime = backend_dir + seq!['/'] + venv;
    assert(runtime == backend_dir + "/venv"@);
    lemma_parent_of_child(backend_dir, venv);

    let windows_scripts = runtime + seq!['/'] + scripts;
    assert(windows_scripts == backend_dir + "/venv/Scripts"@);
    lemma_parent_of_child(runtime, scripts);
    let windows = windows_scripts + seq!['/'] + exe;
    assert(windows == backend_dir + "/venv/Scripts/python.exe"@);
    lemma_parent_of_child(windows_scripts, exe);

    let unix_bin = runtime + seq!['/'] + bin;
    assert(unix_bin == backend_dir + "/venv/bin"@);
    lemma_parent_of_child(runtime, bin);
    let unix = unix_bin + seq!['/'] + python;
    assert(unix == backend_dir + "/venv/bin/python"@);
    lemma_parent_of_child(unix_bin, python);
}

/// A variable with its value.
pub fn env_var(name: &str, value: String) -> (var: EnvVar)
    ensures
        var@ == env_view(name@, value@),
{
    EnvVar { name: name.to_owned(), value }
}

/// The arguments of a backend run with `argv`.
pub fn backend_arguments(argv: &Vec<String>) -> (args: Vec<String>)
    ensures
        texts(args@) == backend_args(texts(argv@)),
{
    let mut args: Vec<String> = vec!["-m".to_owned(), "src.cli".to_owned()];
    assert(texts(args@) == seq!["-m"@, "src.cli"@]);
    push_tokens(&mut args, argv);
    args
}

/// The variables that force UTF-8 text encoding.
pub fn encoding_variables() -> (env: Vec<EnvVar>)
    ensures
        env_views(env@) == encoding_env(),
{
    let env = vec![
        env_var("PYTHONIOENCODING", "utf-8".to_owned()),
        env_var("PYTHONUTF8", "1".to_owned()),
    ];
    assert(env_views(env@) == encoding_env());
    env
}

/// The caller's search path with `dir` put first.
pub fn prepend_to_search_path(dir: &str, ambient_path: &str, family: OsFamily) -> (path: String)
    ensures
        path@ == search_path_with(dir@, ambient_path@, family),
{
    let head = match family {
        OsFamily::Windows => join_text(dir, ";"),
        OsFamily::Unix => join_text(dir, ":"),
    };
    join_text(head.as_str(), ambient_path)
}

/// Plans the run of the backend with `argv` through `handle`.
/// `ambient_path` is the caller's executable search path and `family`
/// the operating system family that the run takes place on.
pub fn plan_execution(
    handle: &InterpreterHandle,
    argv: &Vec<String>,
    ambient_path: &str,
    family: OsFamily,
) -> (plan: ExecutionPlan)
    ensures
        plan@ == execution_plan(handle@, texts(argv@), ambient_path@, family),
{
    let args = backend_arguments(argv);
    match handle.origin {
        OriginKind::SystemNamed => ExecutionPlan {
            program: handle.path.clone(),
            args,
            working_dir: Some("../../backend".to_owned()),
            env: encoding_variables(),
        },
        _ => {
            let scripts_dir = parent_dir(handle.path.as_str());
            let runtime_dir = parent_dir(scripts_dir.as_str());
            let backend_dir = parent_dir(runtime_dir.as_str());
            let search_path = prepend_to_search_path(scripts_dir.as_str(), ambient_path, family);
            let env = vec![
                env_var("VIRTUAL_ENV", runtime_dir),
                env_var("PATH", search_path),
                env_var("PYTHONIOENCODING", "utf-8".to_owned()),
                env_var("PYTHONUTF8", "1".to_owned()),
                env_var("PYTHONPATH", backend_dir.clone()),
            ];
            assert(env_views(env@) == bundled_env(handle.path@, ambient_path@, family));
            ExecutionPlan {
                program: handle.path.clone(),
                args,
                working_dir: Some(backend_dir),
                env,
            }
        },
    }
}

/// Plans the version query that verifies the candidate at `path`.
pub fn plan_probe(path: &str) -> (plan: ExecutionPlan)
    ensures
        plan@ == probe_plan(path@),
{
    let args = vec!["--version".to_owned()];
    assert(texts(args@) == seq!["--version"@]);
    ExecutionPlan {
        program: path.to_owned(),
        args,
        working_dir: None,
        env: encoding_variables(),
    }
}

/// Classifies a run that ended. Only exit code 0 is success.
pub fn classify(exit_code: Option<i32>, stdout: String, stderr: String) -> (result:
    ExecutionResult)
    ensures
        result@ == classification(exit_code, stdout@, stderr@),
        exit_code != Some(0i32) ==> result is Failure,
{
    match exit_code {
        Some(0) => ExecutionResult::Success { stdout },
        _ => ExecutionResult::Failure { exit_code, stderr },
    }
}

/// What the caller of an operation receives: the raw standard output of
/// a run that ended with exit code 0; a launch failure with the reason
/// given by the operating system; an execution failure with the exit
/// code and the raw standard error otherwise.
pub fn conclude(outcome: ProcessOutcome) -> (r: Result<String, BridgeError>)
    ensures
        match outcome {
            ProcessOutcome::LaunchFailed { reason } => r matches Err(e) && e@
                == (ErrorView::ProcessLaunchFailure { reason: reason@ }),
            ProcessOutcome::Exited { exit_code, stdout, stderr } => match conclusion(
                exit_code,
                stdout@,
                stderr@,
            ) {
                Ok(text) => r matches Ok(out) && out@ == text,
                Err(error) => r matches Err(e) && e@ == error,
            },
        },
{
    match outcome {
        ProcessOutcome::LaunchFailed { reason } => Err(BridgeError::ProcessLaunchFailure { reason }),
        ProcessOutcome::Exited { exit_code, stdout, stderr } => {
            match classify(exit_code, stdout, stderr) {
                ExecutionResult::Success { stdout } => Ok(stdout),
                ExecutionResult::Failure { exit_code, stderr } => Err(
                    BridgeError::ProcessExecutionFailure { exit_code, stderr },
                ),
            }
        },
    }
}

} // verus!
