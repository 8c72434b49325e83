use real_estate_tracker::error::BridgeError;
use real_estate_tracker::executor::{EnvVar, ExecutionPlan, ProcessOutcome};
use real_estate_tracker::python::{
    check_python_installation, debug_python_paths, installation_info, plan_backend_check,
    plan_trial, test_python_execution as trial_report, DebugInfo, PythonInfo,
};
use real_estate_tracker::resolver::{InterpreterHandle, OriginKind};

fn words(tokens: &[&str]) -> Vec<String> {
    tokens.iter().map(|t| t.to_string()).collect()
}

fn utf8() -> Vec<EnvVar> {
    vec![
        EnvVar { name: "PYTHONIOENCODING".to_string(), value: "utf-8".to_string() },
        EnvVar { name: "PYTHONUTF8".to_string(), value: "1".to_string() },
    ]
}

#[test]
fn test_python_info() {
    let handle = InterpreterHandle {
        path: "/b/venv/bin/python".to_string(),
        origin: OriginKind::BundledUnix,
    };
    if let Ok(info) = check_python_installation(&handle, "Python 3.11.4\n", true) {
        println!("Python info: {:?}", info);
    }
    assert_eq!(
        check_python_installation(&handle, "Python 3.11.4\n", true),
        Ok(PythonInfo {
            version: "Python 3.11.4".to_string(),
            executable: "/b/venv/bin/python".to_string(),
            has_backend: true,
        })
    );
}

#[test]
fn installation_without_backend_is_unavailable() {
    let handle = InterpreterHandle { path: "py".to_string(), origin: OriginKind::SystemNamed };
    assert_eq!(
        check_python_installation(&handle, "Python 3.9.1", false),
        Err(BridgeError::BackendUnavailable)
    );
    assert_eq!(
        BridgeError::BackendUnavailable.message(),
        "Backend is not available to the Python interpreter"
    );
    let info = installation_info(&handle, " \n", false);
    assert_eq!(info.version, "");
    assert_eq!(info.executable, "py");
    assert!(!info.has_backend);
}

#[test]
fn backend_check_depends_on_the_origin() {
    let bundled = InterpreterHandle {
        path: "/b/venv/Scripts/python.exe".to_string(),
        origin: OriginKind::BundledWindows,
    };
    assert_eq!(
        plan_backend_check(&bundled),
        ExecutionPlan {
            program: "/b/venv/Scripts/python.exe".to_string(),
            args: words(&["-m", "src.cli", "--help"]),
            working_dir: Some("/b".to_string()),
            env: utf8(),
        }
    );
    let system = InterpreterHandle { path: "python".to_string(), origin: OriginKind::SystemNamed };
    assert_eq!(
        plan_backend_check(&system),
        ExecutionPlan {
            program: "python".to_string(),
            args: words(&["-c", "import typer; print('Backend available')"]),
            working_dir: None,
            env: utf8(),
        }
    );
}

#[test]
fn debug_info_lists_the_paths() {
    let info = debug_python_paths("/w/desktop/src-tauri", true, false, Some("python3".to_string()));
    assert_eq!(
        info,
        DebugInfo {
            current_dir: "/w/desktop/src-tauri".to_string(),
            backend_dir: "/w/desktop/src-tauri/../../backend".to_string(),
            backend_dir_exists: true,
            venv_python_path: "/w/desktop/src-tauri/../../backend/venv/Scripts/python.exe".to_string(),
            venv_python_exists: false,
            found_python_path: Some("python3".to_string()),
        }
    );
}

#[test]
fn trial_plan_lists_projects_with_the_bundled_interpreter() {
    assert_eq!(
        plan_trial("/w"),
        ExecutionPlan {
            program: "/w/../../backend/venv/Scripts/python.exe".to_string(),
            args: words(&["-m", "src.cli", "project", "list"]),
            working_dir: Some("/w/../../backend".to_string()),
            env: vec![],
        }
    );
}

#[test]
fn trial_report_without_interpreter() {
    let report = trial_report("/w", false, false, &None);
    assert_eq!(
        report,
        "Current dir: /w\nBackend dir: /w/../../backend\nBackend exists: false\n\
         Venv python: /w/../../backend/venv/Scripts/python.exe\nVenv exists: false\n\
         Venv python not found\n"
    );
}

#[test]
fn trial_report_of_a_run() {
    let outcome = Some(ProcessOutcome::Exited {
        exit_code: Some(0),
        stdout: "one\r\ntwo\nthree\nfour\n".to_string(),
        stderr: "warn".to_string(),
    });
    let report = trial_report("/w", true, true, &outcome);
    assert_eq!(
        report,
        "Current dir: /w\nBackend dir: /w/../../backend\nBackend exists: true\n\
         Venv python: /w/../../backend/venv/Scripts/python.exe\nVenv exists: true\n\
         Command success: true\nStdout: 4\nStderr: warn\nSample output: one | two | three\n"
    );
}

#[test]
fn trial_report_of_a_failed_or_silent_run() {
    let silent = Some(ProcessOutcome::Exited {
        exit_code: Some(1),
        stdout: String::new(),
        stderr: "no module".to_string(),
    });
    assert!(trial_report("/w", true, true, &silent)
        .ends_with("Venv exists: true\nCommand success: false\nStdout: 0\nStderr: no module\n"));
    let blank_line = Some(ProcessOutcome::Exited {
        exit_code: None,
        stdout: "\n".to_string(),
        stderr: String::new(),
    });
    assert!(trial_report("/w", true, true, &blank_line)
        .ends_with("Command success: false\nStdout: 1\nStderr: \nSample output: \n"));
    let two = Some(ProcessOutcome::Exited {
        exit_code: Some(0),
        stdout: "a\nb".to_string(),
        stderr: String::new(),
    });
    assert!(trial_report("/w", true, true, &two).ends_with("Stdout: 2\nStderr: \nSample output: a | b\n"));
    let failed = Some(ProcessOutcome::LaunchFailed { reason: "denied".to_string() });
    assert!(trial_report("/w", true, true, &failed).ends_with("Venv exists: true\nCommand failed: denied\n"));
    assert!(trial_report("/w", true, true, &None).ends_with("Venv exists: true\n"));
}
