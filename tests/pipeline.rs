use wavu::pipeline::{
    new_tasks, summarize, Action, ExtractError, Task, TaskError, TaskOutcome, TaskState,
    TransferError,
};
use wavu::runtimes::{resolve, Runtime};

const NETWORK: TaskError = TaskError::Transfer(TransferError::Network);

/// Drives a task through the results that its phases report, as a worker does.
fn drive(t: &mut Task, results: &[Result<(), TaskError>]) -> Vec<Action> {
    let mut seen = vec![t.action()];
    for r in results {
        if t.action() == Action::Done {
            break;
        }
        seen.push(t.complete(*r));
    }
    seen
}

#[test]
fn task_downloads_then_installs() {
    let mut t = Task::new(Runtime::Wasmer);
    assert_eq!(t.action(), Action::Download);
    assert_eq!(t.complete(Ok(())), Action::Install);
    assert_eq!(t.state, TaskState::Installing);
    assert_eq!(t.complete(Ok(())), Action::Done);
    assert_eq!(t.outcome(), Some(TaskOutcome { runtime: Runtime::Wasmer, result: Ok(()) }));
}

#[test]
fn failed_download_skips_install() {
    let mut t = Task::new(Runtime::Wasmtime);
    let actions = drive(&mut t, &[Err(NETWORK), Ok(()), Ok(())]);
    assert_eq!(actions, vec![Action::Download, Action::Done]);
    assert!(!actions.contains(&Action::Install));
    assert_eq!(t.state, TaskState::Finished(Err(NETWORK)));
}

#[test]
fn failed_install_is_the_outcome() {
    let mut t = Task::new(Runtime::Wazero);
    let corrupt = TaskError::Extract(ExtractError::Corrupt);
    assert_eq!(drive(&mut t, &[Ok(()), Err(corrupt)]), vec![
        Action::Download,
        Action::Install,
        Action::Done
    ]);
    assert_eq!(t.outcome(), Some(TaskOutcome { runtime: Runtime::Wazero, result: Err(corrupt) }));
}

#[test]
fn finished_task_ignores_later_results() {
    let mut t = Task::new(Runtime::Wasm3);
    t.complete(Err(TaskError::Filesystem));
    assert_eq!(t.complete(Ok(())), Action::Done);
    assert_eq!(t.state, TaskState::Finished(Err(TaskError::Filesystem)));
}

#[test]
fn unfinished_task_has_no_outcome() {
    let mut t = Task::new(Runtime::Wasm3);
    assert_eq!(t.outcome(), None);
    t.complete(Ok(()));
    assert_eq!(t.outcome(), None);
}

#[test]
fn one_outcome_per_requested_name() {
    let names: Vec<String> =
        ["wazero", "wasm3", "spidermonkey"].iter().map(|s| s.to_string()).collect();
    let runtimes = resolve(&names).unwrap();
    let mut tasks = new_tasks(&runtimes);
    assert_eq!(tasks.len(), 3);
    for t in tasks.iter_mut() {
        drive(t, &[Ok(()), Ok(())]);
    }
    let report = summarize(&tasks).unwrap();
    let got: Vec<&str> = report.outcomes.iter().map(|o| o.runtime.name()).collect();
    assert_eq!(got, vec!["wazero", "wasm3", "spidermonkey"]);
    assert!(report.all_ok());
}

#[test]
fn no_report_while_a_task_runs() {
    let runtimes = vec![Runtime::Wasmer, Runtime::Wasm3];
    let mut tasks = new_tasks(&runtimes);
    drive(&mut tasks[0], &[Ok(()), Ok(())]);
    assert_eq!(summarize(&tasks), None);
}

#[test]
fn empty_run_reports_nothing() {
    let report = summarize(&Vec::new()).unwrap();
    assert!(report.outcomes.is_empty());
    assert!(report.all_ok());
    assert!(report.lines().is_empty());
}

#[test]
fn sibling_failure_leaves_other_runtime_installed() {
    let runtimes = resolve(&vec!["wasmer".to_string(), "wasmtime".to_string()]).unwrap();
    let mut tasks = new_tasks(&runtimes);
    drive(&mut tasks[0], &[Ok(()), Ok(())]);
    drive(&mut tasks[1], &[Err(NETWORK)]);
    let report = summarize(&tasks).unwrap();
    assert_eq!(report.lines(), vec!["wasmer: Ok".to_string(), "wasmtime: Err(Network)".to_string()]);
    assert!(!report.all_ok());
    assert_eq!(tasks[0].state, TaskState::Finished(Ok(())));
}

#[test]
fn report_lines_name_each_error() {
    let cases = [
        (TaskError::Transfer(TransferError::Network), "wasm3: Err(Network)"),
        (TaskError::Transfer(TransferError::Io), "wasm3: Err(Io)"),
        (TaskError::Extract(ExtractError::Corrupt), "wasm3: Err(Corrupt)"),
        (TaskError::Extract(ExtractError::Io), "wasm3: Err(Io)"),
        (TaskError::Filesystem, "wasm3: Err(Filesystem)"),
    ];
    for (e, line) in cases {
        assert_eq!(TaskOutcome { runtime: Runtime::Wasm3, result: Err(e) }.line(), line);
    }
}

#[test]
fn status_follows_the_task() {
    let mut t = Task::new(Runtime::Spidermonkey);
    assert_eq!(t.status(), "Downloading spidermonkey");
    t.complete(Ok(()));
    assert_eq!(t.status(), "Installing spidermonkey");
    t.complete(Ok(()));
    assert_eq!(t.status(), "Installed spidermonkey");
    let mut f = Task::new(Runtime::Wasmer);
    f.complete(Err(NETWORK));
    assert_eq!(f.status(), "Failed wasmer");
}
