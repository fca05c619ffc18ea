use cmake_ls::cli::{exit_for, Exit};
use cmake_ls::cmake::process::{
    failure_details, ignore_finished_process, signal_process_group, CaptureFailure, CaptureRead,
    CaptureStep, CmakeRun, ExitState, GroupSignal, OutputStream, RunAction, RunEvent,
};
use cmake_ls::error::{Error, IoErrorKind, IoFailure};

fn failure(kind: IoErrorKind, message: &str) -> IoFailure {
    IoFailure { kind, message: message.to_string() }
}

/// A run whose CMake process has just been started.
fn started_run() -> CmakeRun {
    let (run, action) = CmakeRun::new("build".to_string());
    assert_eq!(format!("{action:?}"), "CreateCapture(Stdout)");
    let (run, action) = run.step(RunEvent::CaptureCreated(Ok(())));
    assert_eq!(format!("{action:?}"), "CreateCapture(Stderr)");
    let (run, action) = run.step(RunEvent::CaptureCreated(Ok(())));
    assert!(matches!(action, RunAction::Spawn));
    let (run, action) = run.step(RunEvent::Spawned(Ok(())));
    assert!(matches!(action, RunAction::CheckOutput));
    run
}

/// Run one poll cycle in which CMake is still running.
fn still_running(run: CmakeRun, count: usize, now: u64) -> (CmakeRun, RunAction) {
    let (run, action) = run.step(RunEvent::OutputChecked(Ok(())));
    assert!(matches!(action, RunAction::PollChild));
    let (run, action) = run.step(RunEvent::ChildPolled(Ok(None)));
    assert!(matches!(action, RunAction::ObserveInterrupts));
    run.step(RunEvent::InterruptsObserved { count, now })
}

fn finished(action: RunAction) -> Result<(), Error> {
    match action {
        RunAction::Finished(result) => result,
        other => panic!("unexpected action {other:?}"),
    }
}

#[test]
fn a_successful_run_finishes() {
    let run = started_run();
    let (run, action) = still_running(run, 0, 0);
    assert!(matches!(action, RunAction::Sleep(20)));
    let (run, action) = run.step(RunEvent::Slept);
    assert!(matches!(action, RunAction::CheckOutput));
    let (run, _) = run.step(RunEvent::OutputChecked(Ok(())));
    let (_, action) = run.step(RunEvent::ChildPolled(Ok(Some(ExitState {
        success: true,
        description: "exit status: 0".to_string(),
    }))));
    assert!(finished(action).is_ok());
}

#[test]
fn reports_cmake_regeneration_failures() {
    let run = started_run();
    let (run, _) = run.step(RunEvent::OutputChecked(Ok(())));
    let (run, action) = run.step(RunEvent::ChildPolled(Ok(Some(ExitState {
        success: false,
        description: "exit status: 1".to_string(),
    }))));
    assert!(matches!(action, RunAction::ReadCapture(OutputStream::Stdout)));
    let (run, action) = run.step(RunEvent::CaptureRead(CaptureRead::Text(
        "-- Configuring incomplete, errors occurred!\n".to_string(),
    )));
    assert!(matches!(action, RunAction::ReadCapture(OutputStream::Stderr)));
    let (_, action) = run.step(RunEvent::CaptureRead(CaptureRead::Text(
        "CMake Error at CMakeLists.txt:1 (not_a_cmake_command):\n  Unknown CMake command \"not_a_cmake_command\".\n\n".to_string(),
    )));
    let error = finished(action).unwrap_err();
    let stderr = error.message();

    assert!(stderr.contains("CMake configuration failed"));
    assert!(stderr.contains("not_a_cmake_command"));
    assert_eq!(exit_for(&Err(error), 0), Exit::Failure);
}

#[test]
fn failure_details_trim_and_skip_blank_streams() {
    assert_eq!(
        failure_details("out  \n\n", " \t\n"),
        "\nCMake stdout:\nout"
    );
    assert_eq!(failure_details("", "  err\u{3000}"), "\nCMake stderr:\n  err");
    assert_eq!(failure_details("a\u{a0}", "b\n"), "\nCMake stdout:\na\nCMake stderr:\nb");
    assert_eq!(failure_details("\u{2028}", "\u{85}"), "");
}

#[test]
fn reports_start_failures() {
    let (run, _) = CmakeRun::new("/tmp/p/build".to_string());
    let (run, _) = run.step(RunEvent::CaptureCreated(Ok(())));
    let (run, _) = run.step(RunEvent::CaptureCreated(Ok(())));
    let (_, action) = run.step(RunEvent::Spawned(Err(failure(
        IoErrorKind::NotFound,
        "No such file or directory (os error 2)",
    ))));
    assert_eq!(
        finished(action).unwrap_err().message(),
        "failed to run `cmake` for `/tmp/p/build`: No such file or directory (os error 2)"
    );
}

#[test]
fn capture_failures_name_the_stream() {
    let (run, _) = CmakeRun::new("b".to_string());
    let (_, action) = run.step(RunEvent::CaptureCreated(Err(CaptureFailure::Create(failure(
        IoErrorKind::Other,
        "No space left on device (os error 28)",
    )))));
    assert_eq!(
        finished(action).unwrap_err().message(),
        "failed to create CMake stdout capture `b`: No space left on device (os error 28)"
    );
    let (run, _) = CmakeRun::new("b".to_string());
    let (run, _) = run.step(RunEvent::CaptureCreated(Ok(())));
    let (_, action) = run.step(RunEvent::CaptureCreated(Err(CaptureFailure::Clone(failure(
        IoErrorKind::Other,
        "Too many open files (os error 24)",
    )))));
    assert_eq!(
        finished(action).unwrap_err().message(),
        "failed to clone CMake stderr capture `b`: Too many open files (os error 24)"
    );
    assert_eq!(OutputStream::Stdout.rewind_action(), "rewind CMake stdout capture");
    assert_eq!(OutputStream::Stderr.read_action(), "read CMake stderr capture");
}

#[test]
fn capture_read_failures_end_the_run() {
    let run = started_run();
    let (run, _) = run.step(RunEvent::OutputChecked(Ok(())));
    let (run, _) = run.step(RunEvent::ChildPolled(Ok(Some(ExitState {
        success: false,
        description: "exit status: 1".to_string(),
    }))));
    let (_, action) = run.step(RunEvent::CaptureRead(CaptureRead::Failed {
        step: CaptureStep::Rewind,
        source: failure(IoErrorKind::Other, "Illegal seek (os error 29)"),
    }));
    assert_eq!(
        finished(action).unwrap_err().message(),
        "failed to rewind CMake stdout capture `build`: Illegal seek (os error 29)"
    );
}

#[test]
fn downstream_pipe_closure_interrupts_active_cmake() {
    let run = started_run();
    let (run, action) = still_running(run, 0, 0);
    assert!(matches!(action, RunAction::Sleep(_)));
    let (run, _) = run.step(RunEvent::Slept);
    let closed = Error::write_stdout(failure(IoErrorKind::BrokenPipe, "standard output consumer exited"));
    let (run, action) = run.step(RunEvent::OutputChecked(Err(closed)));
    assert!(matches!(action, RunAction::Cleanup));
    let (_, action) = run.step(RunEvent::CleanedUp);
    let result = finished(action);

    assert!(result.as_ref().unwrap_err().is_broken_pipe());
    assert_eq!(exit_for(&result, 0), Exit::Success);
}

#[test]
fn ctrl_c_interrupts_an_active_cmake_process_group() {
    let run = started_run();
    let (run, action) = still_running(run, 1, 100);
    assert!(matches!(action, RunAction::Signal(GroupSignal::Interrupt)));
    let (run, action) = run.step(RunEvent::Signalled { result: Ok(()), now: 110 });
    assert!(matches!(action, RunAction::Sleep(_)));
    assert_eq!(run.interrupt_deadline, Some(2110));
    let (run, _) = run.step(RunEvent::Slept);
    let (run, _) = run.step(RunEvent::OutputChecked(Ok(())));
    let (run, action) = run.step(RunEvent::ChildPolled(Ok(Some(ExitState {
        success: false,
        description: "signal: 2 (SIGINT)".to_string(),
    }))));
    assert!(matches!(action, RunAction::Cleanup));
    let (_, action) = run.step(RunEvent::CleanedUp);
    let result = finished(action);

    assert!(matches!(result, Err(Error::Interrupted)));
    assert_eq!(exit_for(&result, 1).code(), 130);
}

#[test]
fn ctrl_c_cleans_up_descendants_that_keep_output_open() {
    let run = started_run();
    let (run, action) = still_running(run, 1, 0);
    assert!(matches!(action, RunAction::Signal(GroupSignal::Interrupt)));
    let (mut run, _) = run.step(RunEvent::Signalled { result: Ok(()), now: 0 });
    // The group ignores the interrupt: it is killed once the grace period is over, and only once.
    let mut kills = 0;
    for now in [500, 1999, 2000, 2500, 3000] {
        let (next, _) = run.step(RunEvent::Slept);
        let (next, action) = still_running(next, 1, now);
        run = match action {
            RunAction::Signal(GroupSignal::Kill) => {
                kills += 1;
                assert!(now >= 2000);
                next.step(RunEvent::Signalled { result: Ok(()), now }).0
            }
            RunAction::Sleep(_) => next,
            other => panic!("unexpected action {other:?}"),
        };
    }
    assert_eq!(kills, 1);
    assert!(run.force_killed);
    let (run, _) = run.step(RunEvent::Slept);
    let (run, _) = run.step(RunEvent::OutputChecked(Ok(())));
    let (run, action) = run.step(RunEvent::ChildPolled(Ok(Some(ExitState {
        success: false,
        description: "signal: 9 (SIGKILL)".to_string(),
    }))));
    assert!(matches!(action, RunAction::Cleanup));
    let result = finished(run.step(RunEvent::CleanedUp).1);

    assert!(matches!(result, Err(Error::Interrupted)));
    assert_eq!(exit_for(&result, 1).code(), 130);
}

#[test]
fn a_second_ctrl_c_kills_at_once() {
    let run = started_run();
    let (run, _) = still_running(run, 1, 0);
    let (run, _) = run.step(RunEvent::Signalled { result: Ok(()), now: 0 });
    let (run, _) = run.step(RunEvent::Slept);
    let (_, action) = still_running(run, 2, 10);
    assert!(matches!(action, RunAction::Signal(GroupSignal::Kill)));
}

#[test]
fn signal_failures_are_reported_after_cleanup() {
    let run = started_run();
    let (run, _) = still_running(run, 1, 0);
    let (run, action) = run.step(RunEvent::Signalled {
        result: Err(failure(IoErrorKind::PermissionDenied, "Operation not permitted (os error 1)")),
        now: 0,
    });
    assert!(matches!(action, RunAction::Cleanup));
    assert_eq!(
        finished(run.step(RunEvent::CleanedUp).1).unwrap_err().message(),
        "failed to interrupt CMake process group `build`: Operation not permitted (os error 1)"
    );
}

#[test]
fn poll_failures_are_reported_after_cleanup() {
    let run = started_run();
    let (run, _) = run.step(RunEvent::OutputChecked(Ok(())));
    let (run, action) = run.step(RunEvent::ChildPolled(Err(failure(IoErrorKind::Other, "boom"))));
    assert!(matches!(action, RunAction::Cleanup));
    assert_eq!(
        finished(run.step(RunEvent::CleanedUp).1).unwrap_err().message(),
        "failed to poll CMake process `build`: boom"
    );
}

#[test]
fn the_deadline_saturates() {
    let run = started_run();
    let (run, _) = still_running(run, 1, 0);
    let (run, _) = run.step(RunEvent::Signalled { result: Ok(()), now: u64::MAX - 5 });
    assert_eq!(run.interrupt_deadline, Some(u64::MAX));
}

#[test]
fn finished_processes_need_no_kill() {
    assert!(ignore_finished_process(failure(IoErrorKind::InvalidInput, "x")).is_ok());
    assert!(ignore_finished_process(failure(IoErrorKind::NotFound, "x")).is_ok());
    let other = ignore_finished_process(failure(IoErrorKind::PermissionDenied, "denied")).unwrap_err();
    assert_eq!(other.message, "denied");
}

#[test]
fn signalling_a_vanished_group_succeeds() {
    // No process group with this identifier exists, so the signal is not needed.
    assert!(signal_process_group(0x7fff_fff0, GroupSignal::Interrupt).is_ok());
}

#[test]
fn an_interrupt_is_forwarded_once_and_success_after_it_is_an_interruption() {
    let run = started_run();
    let (run, action) = still_running(run, 1, 0);
    assert!(matches!(action, RunAction::Signal(GroupSignal::Interrupt)));
    let (mut run, _) = run.step(RunEvent::Signalled { result: Ok(()), now: 0 });
    for now in [10, 20, 30] {
        let (next, _) = run.step(RunEvent::Slept);
        let (next, action) = still_running(next, 1, now);
        assert!(matches!(action, RunAction::Sleep(20)));
        run = next;
    }
    let (run, _) = run.step(RunEvent::Slept);
    let (run, _) = run.step(RunEvent::OutputChecked(Ok(())));
    let (run, action) = run.step(RunEvent::ChildPolled(Ok(Some(ExitState {
        success: true,
        description: "exit status: 0".to_string(),
    }))));
    assert!(matches!(action, RunAction::Cleanup));
    assert!(matches!(finished(run.step(RunEvent::CleanedUp).1), Err(Error::Interrupted)));
}
