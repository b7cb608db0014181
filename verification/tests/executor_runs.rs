//! Scenario tests that drive whole invocations through the session state
//! machine, feeding it the events a host would report.

use codeflow::outcome::ErrorKind;
use codeflow::outcome::ExecError;
use codeflow::outcome::ExecutionRequest;
use codeflow::outcome::ExecutionResult;
use codeflow::outcome::classify;
use codeflow::session::Action;
use codeflow::session::Event;
use codeflow::session::RunSession;
use codeflow::slot::ResultSlot;

fn start_run(source: &str, lang: &str, id: &str, timeout_ms: u64) -> (RunSession, Action) {
    let req = ExecutionRequest::new(String::from(source), String::from(lang));
    match RunSession::start(req, String::from(id), timeout_ms) {
        Ok(sa) => sa,
        Err(e) => panic!("start rejected a recognized language: {:?}", e),
    }
}

fn completed(exit_zero: bool, stdout: &[u8], stderr: &[u8], duration_ms: u64) -> Event {
    Event::Completed {
        exit_zero,
        stdout: stdout.to_vec(),
        stderr: stderr.to_vec(),
        duration_ms,
    }
}

/// Runs the compiled-language pipeline up to the point where the produced
/// binary has just been spawned, returning the session and the names of the
/// source file and binary.
fn rust_run_until_binary(source: &str, id: &str) -> (RunSession, String, String) {
    let (mut session, action) = start_run(source, "rust", id, 1000);
    let src_path = match action {
        Action::WriteFile { path, contents } => {
            assert_eq!(contents, source);
            path
        }
        other => panic!("expected a write action first, got {:?}", other),
    };
    let action = session.on_event(Event::Wrote);
    let bin_path = match action {
        Action::Spawn {
            program,
            args,
            timeout_ms,
        } => {
            assert_eq!(program, "rustc");
            assert_eq!(timeout_ms, 1000);
            assert_eq!(args.len(), 3);
            assert_eq!(args[0], src_path);
            assert_eq!(args[1], "-o");
            args[2].clone()
        }
        other => panic!("expected the compiler spawn, got {:?}", other),
    };
    let action = session.on_event(completed(true, b"", b"", 40));
    match action {
        Action::Spawn {
            program,
            args,
            timeout_ms,
        } => {
            assert_eq!(program, bin_path);
            assert!(args.is_empty());
            assert_eq!(timeout_ms, 1000);
        }
        other => panic!("expected the binary spawn, got {:?}", other),
    }
    (session, src_path, bin_path)
}

/// Feeds the two removal confirmations of the compiled pipeline and checks
/// that exactly the two created files are removed, binary first.
fn drain_cleanup(session: &mut RunSession, first: Action, src_path: &str, bin_path: &str) {
    match first {
        Action::RemoveFile { ref path } => assert_eq!(path, bin_path),
        ref other => panic!("expected removal of the binary, got {:?}", other),
    }
    let action = session.on_event(Event::Removed { ok: true });
    match action {
        Action::RemoveFile { ref path } => assert_eq!(path, src_path),
        ref other => panic!("expected removal of the source file, got {:?}", other),
    }
    let action = session.on_event(Event::Removed { ok: true });
    assert!(matches!(action, Action::Finish));
}

fn finish(session: RunSession) -> Result<ExecutionResult, ExecError> {
    assert!(session.pending_files.is_empty());
    assert!(session.removing.is_none());
    session.into_outcome()
}

#[test]
fn python_success_prints_hi() {
    let (mut session, action) = start_run("print(\"hi\")", "python", "r1", 1000);
    match action {
        Action::Spawn {
            program,
            args,
            timeout_ms,
        } => {
            assert_eq!(program, "python3");
            assert_eq!(args, vec![String::from("-c"), String::from("print(\"hi\")")]);
            assert_eq!(timeout_ms, 1000);
        }
        other => panic!("expected the interpreter spawn, got {:?}", other),
    }
    let action = session.on_event(completed(true, b"hi\n", b"", 12));
    assert!(matches!(action, Action::Finish));
    let res = finish(session).expect("a completed run yields a result");
    assert!(res.success);
    assert_eq!(res.stdout, "hi\n");
    assert_eq!(res.stderr, "");
    assert_eq!(res.duration_ms, 12);
}

#[test]
fn rust_success_prints_hi() {
    let (mut session, src_path, bin_path) = rust_run_until_binary("fn main() {}", "r2");
    let action = session.on_event(completed(true, b"hi\n", b"", 3));
    drain_cleanup(&mut session, action, &src_path, &bin_path);
    assert!(session.cleanup_failures.is_empty());
    let res = finish(session).expect("a completed run yields a result");
    assert!(res.success);
    assert_eq!(res.stdout, "hi\n");
    assert_eq!(res.stderr, "");
}

#[test]
fn python_nonzero_exit_keeps_stderr() {
    let (mut session, _) = start_run("import sys; sys.exit(3)", "python", "r3", 1000);
    let action = session.on_event(completed(false, b"partial\n", b"Traceback: boom\n", 7));
    assert!(matches!(action, Action::Finish));
    let res = finish(session).expect("a run that exited non-zero still yields a result");
    assert!(!res.success);
    assert!(!res.stderr.is_empty());
    assert_eq!(res.stderr, "Traceback: boom\n");
    assert_eq!(res.stdout, "partial\n");
    assert_eq!(classify(&Ok(res)), Some(ErrorKind::RuntimeFailure));
}

#[test]
fn rust_nonzero_exit_keeps_stderr() {
    let (mut session, src_path, bin_path) = rust_run_until_binary("fn main() { panic!() }", "r4");
    let action = session.on_event(completed(false, b"", b"panicked\n", 2));
    drain_cleanup(&mut session, action, &src_path, &bin_path);
    let res = finish(session).expect("a run that exited non-zero still yields a result");
    assert!(!res.success);
    assert_eq!(res.stderr, "panicked\n");
}

#[test]
fn unsupported_language_spawns_nothing() {
    let req = ExecutionRequest::new(String::from("puts 1"), String::from("ruby"));
    let r = RunSession::start(req, String::from("r5"), 1000);
    match r {
        Err(ExecError::UnsupportedLanguage) => {}
        Err(other) => panic!("wrong error: {:?}", other),
        Ok(_) => panic!("an unrecognized tag must be rejected before any action"),
    }
}

#[test]
fn empty_source_is_accepted() {
    let (mut session, action) = start_run("", "python", "r6", 1000);
    match action {
        Action::Spawn { args, .. } => assert_eq!(args[1], ""),
        other => panic!("expected the interpreter spawn, got {:?}", other),
    }
    let action = session.on_event(completed(true, b"", b"", 1));
    assert!(matches!(action, Action::Finish));
    let res = finish(session).expect("an empty program still completes");
    assert!(res.success);
    assert_eq!(res.stdout, "");
}

#[test]
fn compile_failure_never_runs_binary() {
    let (mut session, action) = start_run("fn main( {", "rust", "r7", 1000);
    let src_path = match action {
        Action::WriteFile { path, .. } => path,
        other => panic!("expected a write action first, got {:?}", other),
    };
    let action = session.on_event(Event::Wrote);
    assert!(matches!(action, Action::Spawn { .. }));
    let action = session.on_event(completed(false, b"", b"error: expected parameter\n", 30));
    // The next action removes the source file: the binary is never spawned.
    match action {
        Action::RemoveFile { ref path } => assert_eq!(path, &src_path),
        ref other => panic!("after a compile failure nothing may be spawned, got {:?}", other),
    }
    let action = session.on_event(Event::Removed { ok: true });
    assert!(matches!(action, Action::Finish));
    match finish(session) {
        Err(ExecError::CompileFailure { diagnostics }) => {
            assert_eq!(diagnostics, "error: expected parameter\n");
        }
        other => panic!("expected the compile failure, got {:?}", other),
    }
}

#[test]
fn timeout_reported_for_interpreter() {
    let (mut session, _) = start_run("import time; time.sleep(60)", "python", "r8", 50);
    let action = session.on_event(Event::TimedOut);
    assert!(matches!(action, Action::Finish));
    match finish(session) {
        Err(ExecError::Timeout) => {}
        other => panic!("expected the timeout, got {:?}", other),
    }
}

#[test]
fn timeout_reported_for_binary_with_cleanup() {
    let (mut session, src_path, bin_path) = rust_run_until_binary("fn main() { loop {} }", "r9");
    let action = session.on_event(Event::TimedOut);
    drain_cleanup(&mut session, action, &src_path, &bin_path);
    match finish(session) {
        Err(ExecError::Timeout) => {}
        other => panic!("expected the timeout, got {:?}", other),
    }
}

#[test]
fn spawn_failure_reported() {
    let (mut session, _) = start_run("print(1)", "python", "r10", 1000);
    let action = session.on_event(Event::SpawnFailed {
        message: String::from("no such file"),
    });
    assert!(matches!(action, Action::Finish));
    match finish(session) {
        Err(ExecError::SpawnFailure { message }) => assert_eq!(message, "no such file"),
        other => panic!("expected the spawn failure, got {:?}", other),
    }
}

#[test]
fn write_failure_reported() {
    let (mut session, action) = start_run("fn main() {}", "rust", "r11", 1000);
    assert!(matches!(action, Action::WriteFile { .. }));
    let action = session.on_event(Event::WriteFailed {
        message: String::from("disk full"),
    });
    assert!(matches!(action, Action::Finish));
    match finish(session) {
        Err(ExecError::WriteFailure { message }) => assert_eq!(message, "disk full"),
        other => panic!("expected the write failure, got {:?}", other),
    }
}

#[test]
fn invalid_stream_is_a_decode_failure() {
    let (mut session, _) = start_run("print(1)", "python", "r12", 1000);
    let action = session.on_event(completed(true, &[0xff, 0xfe], b"", 2));
    assert!(matches!(action, Action::Finish));
    match finish(session) {
        Err(ExecError::DecodeFailure) => {}
        other => panic!("expected the decode failure, got {:?}", other),
    }
}

#[test]
fn failed_removal_is_observed_not_escalated() {
    let (mut session, src_path, bin_path) = rust_run_until_binary("fn main() {}", "r13");
    let action = session.on_event(completed(true, b"ok\n", b"", 1));
    match action {
        Action::RemoveFile { ref path } => assert_eq!(path, &bin_path),
        ref other => panic!("expected removal of the binary, got {:?}", other),
    }
    let action = session.on_event(Event::Removed { ok: false });
    match action {
        Action::RemoveFile { ref path } => assert_eq!(path, &src_path),
        ref other => panic!("expected removal of the source file, got {:?}", other),
    }
    let action = session.on_event(Event::Removed { ok: true });
    assert!(matches!(action, Action::Finish));
    assert_eq!(session.cleanup_observation(), Some(ErrorKind::CleanupFailure));
    assert_eq!(session.cleanup_failures, vec![bin_path]);
    let res = finish(session).expect("a failed removal never changes the outcome");
    assert!(res.success);
    assert_eq!(res.stdout, "ok\n");
}

#[test]
fn concurrent_runs_use_disjoint_files_and_own_results() {
    let (mut first, first_src, first_bin) = rust_run_until_binary("fn main() { one() }", "alpha");
    let (mut second, second_src, second_bin) =
        rust_run_until_binary("fn main() { two() }", "beta");
    assert_ne!(first_src, second_src);
    assert_ne!(first_bin, second_bin);
    assert_ne!(first_src, second_bin);
    assert_ne!(first_bin, second_src);

    // Interleave the two runs' remaining events.
    let a1 = first.on_event(completed(true, b"one\n", b"", 1));
    let a2 = second.on_event(completed(true, b"two\n", b"", 1));
    drain_cleanup(&mut first, a1, &first_src, &first_bin);
    drain_cleanup(&mut second, a2, &second_src, &second_bin);

    let mut slot = ResultSlot::new();
    let first_outcome = finish(first).expect("the first run completed");
    let second_outcome = finish(second).expect("the second run completed");
    assert_eq!(first_outcome.stdout, "one\n");
    assert_eq!(second_outcome.stdout, "two\n");

    slot.publish(String::from("alpha"), Ok(first_outcome));
    slot.publish(String::from("beta"), Ok(second_outcome));
    // The slot policy is replace: the last published run wins, and the
    // result it hands out is tagged with that run's identifier.
    let (id, outcome) = slot.take().expect("a result was published");
    assert_eq!(id, "beta");
    assert_eq!(outcome.expect("the second run succeeded").stdout, "two\n");
    assert!(slot.take().is_none());
}

#[test]
fn classify_covers_the_taxonomy() {
    let ok = ExecutionResult {
        stdout: String::from("hi\n"),
        stderr: String::new(),
        duration_ms: 1,
        success: true,
    };
    assert_eq!(classify(&Ok(ok)), None);
    let failed = ExecutionResult {
        stdout: String::new(),
        stderr: String::from("boom"),
        duration_ms: 1,
        success: false,
    };
    assert_eq!(classify(&Ok(failed)), Some(ErrorKind::RuntimeFailure));
    assert_eq!(
        classify(&Err(ExecError::UnsupportedLanguage)),
        Some(ErrorKind::UnsupportedLanguage)
    );
    assert_eq!(
        classify(&Err(ExecError::SpawnFailure {
            message: String::from("gone")
        })),
        Some(ErrorKind::SpawnFailure)
    );
    assert_eq!(
        classify(&Err(ExecError::WriteFailure {
            message: String::from("full")
        })),
        Some(ErrorKind::WriteFailure)
    );
    assert_eq!(
        classify(&Err(ExecError::CompileFailure {
            diagnostics: String::from("bad")
        })),
        Some(ErrorKind::CompileFailure)
    );
    assert_eq!(classify(&Err(ExecError::DecodeFailure)), Some(ErrorKind::DecodeFailure));
    assert_eq!(classify(&Err(ExecError::Timeout)), Some(ErrorKind::Timeout));
}
