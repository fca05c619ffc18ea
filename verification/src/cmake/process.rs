//! Running CMake on a build tree: output capture, waiting, and cancellation of its process group.

use vstd::prelude::*;
use vstd::string::StringExecFns;

use crate::error::{Error, ErrorView, IoErrorKind, IoFailure, IoFailureView};
use crate::text::{blank, is_blank, trim_end, trim_end_spec};

verus! {

/// How often the running CMake process is polled, in milliseconds.
pub const POLL_INTERVAL_MS: u64 = 20;

/// How long CMake may take to stop after an interrupt before it is killed, in milliseconds.
pub const INTERRUPT_GRACE_PERIOD_MS: u64 = 2000;

/// A captured output stream of CMake.
#[derive(Debug, Clone, Copy, PartialEq, Eq, Structural)]
pub enum OutputStream {
    Stdout,
    Stderr,
}

impl OutputStream {
    pub open spec fn spec_create_action(self) -> Seq<char> {
        match self {
            OutputStream::Stdout => "create CMake stdout capture"@,
            OutputStream::Stderr => "create CMake stderr capture"@,
        }
    }

    pub open spec fn spec_clone_action(self) -> Seq<char> {
        match self {
            OutputStream::Stdout => "clone CMake stdout capture"@,
            OutputStream::Stderr => "clone CMake stderr capture"@,
        }
    }

    pub open spec fn spec_rewind_action(self) -> Seq<char> {
        match self {
            OutputStream::Stdout => "rewind CMake stdout capture"@,
            OutputStream::Stderr => "rewind CMake stderr capture"@,
        }
    }

    pub open spec fn spec_read_action(self) -> Seq<char> {
        match self {
            OutputStream::Stdout => "read CMake stdout capture"@,
            OutputStream::Stderr => "read CMake stderr capture"@,
        }
    }

    /// What failed when the capture file could not be created.
    pub fn create_action(self) -> (result: &'static str)
        ensures
            result@ == self.spec_create_action(),
    {
        match self {
            OutputStream::Stdout => "create CMake stdout capture",
            OutputStream::Stderr => "create CMake stderr capture",
        }
    }

    /// What failed when the capture file could not be duplicated for the child.
    pub fn clone_action(self) -> (result: &'static str)
        ensures
            result@ == self.spec_clone_action(),
    {
        match self {
            OutputStream::Stdout => "clone CMake stdout capture",
            OutputStream::Stderr => "clone CMake stderr capture",
        }
    }

    /// What failed when the capture file could not be rewound.
    pub fn rewind_action(self) -> (result: &'static str)
        ensures
            result@ == self.spec_rewind_action(),
    {
        match self {
            OutputStream::Stdout => "rewind CMake stdout capture",
            OutputStream::Stderr => "rewind CMake stderr capture",
        }
    }

    /// What failed when the capture file could not be read.
    pub fn read_action(self) -> (result: &'static str)
        ensures
            result@ == self.spec_read_action(),
    {
        match self {
            OutputStream::Stdout => "read CMake stdout capture",
            OutputStream::Stderr => "read CMake stderr capture",
        }
    }
}

/// The captured output of one stream, formatted for an error message: a heading and the text
/// without trailing white space, or nothing when the stream holds only white space.
pub open spec fn captured_section(heading: Seq<char>, text: Seq<char>) -> Seq<char> {
    if is_blank(text) {
        Seq::empty()
    } else {
        heading + trim_end_spec(text)
    }
}

/// The captured output of a failed CMake run, formatted for an error message.
pub open spec fn failure_details_spec(stdout: Seq<char>, stderr: Seq<char>) -> Seq<char> {
    captured_section("\nCMake stdout:\n"@, stdout) + captured_section("\nCMake stderr:\n"@, stderr)
}

/// Format the captured output of a failed CMake run.
pub fn failure_details(stdout: &str, stderr: &str) -> (result: String)
    ensures
        result@ == failure_details_spec(stdout@, stderr@),
{
    let mut details = String::new();
    if !blank(stdout) {
        details.append("\nCMake stdout:\n");
        details.append(trim_end(stdout).as_str());
    }
    if !blank(stderr) {
        details.append("\nCMake stderr:\n");
        details.append(trim_end(stderr).as_str());
    }
    assert(details@ =~= failure_details_spec(stdout@, stderr@));
    details
}

/// How a CMake process ended.
#[derive(Debug)]
pub struct ExitState {
    pub success: bool,
    /// The status as the platform describes it, such as `exit status: 1`.
    pub description: String,
}

/// A signal for the CMake process group.
#[derive(Debug, Clone, Copy, PartialEq, Eq, Structural)]
pub enum GroupSignal {
    /// Ask the group to stop, as Ctrl+C does.
    Interrupt,
    /// Stop the group at once.
    Kill,
}

/// What became of a signal sent to a process group.
#[derive(Debug)]
pub enum SignalOutcome {
    Delivered,
    /// No process of the group is left.
    NoSuchGroup,
    Failed(IoFailure),
}

/// What `killpg` answered: success, no such process group, or another error by its number.
enum GroupSignalReply {
    Delivered,
    NoSuchGroup,
    Failed(i32),
}

/// Send a signal to a process group.
///
/// Calls `nix::sys::signal::killpg` with `SIGINT` or `SIGKILL`, and tells apart its success, the
/// error `ESRCH` (no such process group) and any other error, which it hands back by its number.
/// What happens depends on the processes of the system, so nothing is stated of the outcome.
#[verifier::external_body]
fn send_group_signal(process_group: i32, signal: GroupSignal) -> (result: GroupSignalReply) {
    let signal = match signal {
        GroupSignal::Interrupt => nix::sys::signal::Signal::SIGINT,
        GroupSignal::Kill => nix::sys::signal::Signal::SIGKILL,
    };
    match nix::sys::signal::killpg(nix::unistd::Pid::from_raw(process_group), signal) {
        Ok(()) => GroupSignalReply::Delivered,
        Err(nix::errno::Errno::ESRCH) => GroupSignalReply::NoSuchGroup,
        Err(error) => GroupSignalReply::Failed(error as i32),
    }
}

/// The description of the operating-system error numbered `code`.
///
/// Calls `std::io::Error::from_raw_os_error`, as nix does to turn an `Errno` into an I/O error,
/// and hands back its kind, told apart among the kinds the library knows, and its message. Both
/// come from the platform's error tables, so nothing is stated of them.
#[verifier::external_body]
fn os_error(code: i32) -> (result: IoFailure) {
    let error = std::io::Error::from_raw_os_error(code);
    let kind = match error.kind() {
        std::io::ErrorKind::NotFound => IoErrorKind::NotFound,
        std::io::ErrorKind::PermissionDenied => IoErrorKind::PermissionDenied,
        std::io::ErrorKind::BrokenPipe => IoErrorKind::BrokenPipe,
        std::io::ErrorKind::Interrupted => IoErrorKind::Interrupted,
        std::io::ErrorKind::InvalidInput => IoErrorKind::InvalidInput,
        _ => IoErrorKind::Other,
    };
    IoFailure { kind, message: error.to_string() }
}

/// A group that is already gone needs no signal: only a real failure is an error.
pub fn signal_result(outcome: SignalOutcome) -> (result: Result<(), IoFailure>)
    ensures
        match outcome {
            SignalOutcome::Delivered => result is Ok,
            SignalOutcome::NoSuchGroup => result is Ok,
            SignalOutcome::Failed(failure) => result == Err::<(), IoFailure>(failure),
        },
{
    match outcome {
        SignalOutcome::Delivered => Ok(()),
        SignalOutcome::NoSuchGroup => Ok(()),
        SignalOutcome::Failed(failure) => Err(failure),
    }
}

/// Signal the process group led by the CMake process `pid`.
pub fn signal_process_group(pid: u32, signal: GroupSignal) -> (result: Result<(), IoFailure>)
    requires
        pid <= i32::MAX,
{
    let outcome = match send_group_signal(pid as i32, signal) {
        GroupSignalReply::Delivered => SignalOutcome::Delivered,
        GroupSignalReply::NoSuchGroup => SignalOutcome::NoSuchGroup,
        GroupSignalReply::Failed(code) => SignalOutcome::Failed(os_error(code)),
    };
    signal_result(outcome)
}

/// Whether a failure to kill a process only means that it had already finished.
pub fn ignore_finished_process(failure: IoFailure) -> (result: Result<(), IoFailure>)
    ensures
        failure.kind == IoErrorKind::InvalidInput || failure.kind == IoErrorKind::NotFound
            ==> result is Ok,
        !(failure.kind == IoErrorKind::InvalidInput || failure.kind == IoErrorKind::NotFound)
            ==> result == Err::<(), IoFailure>(failure),
{
    if failure.kind == IoErrorKind::InvalidInput || failure.kind == IoErrorKind::NotFound {
        Ok(())
    } else {
        Err(failure)
    }
}

/// Why a capture file for CMake's output could not be set up.
#[derive(Debug)]
pub enum CaptureFailure {
    /// The temporary file could not be created.
    Create(IoFailure),
    /// The file could not be duplicated for the child process.
    Clone(IoFailure),
}

/// The step of reading back a capture file.
#[derive(Debug, Clone, Copy, PartialEq, Eq, Structural)]
pub enum CaptureStep {
    Rewind,
    Read,
}

/// What reading back a capture file gave.
#[derive(Debug)]
pub enum CaptureRead {
    /// The captured bytes, decoded as UTF-8 with invalid sequences replaced.
    Text(String),
    /// A file operation failed.
    Failed { step: CaptureStep, source: IoFailure },
    /// Reading stopped at a cancellation checkpoint.
    Stopped(Error),
}

/// Where a CMake run stands.
#[derive(Debug)]
pub enum RunPhase {
    CreatingCapture(OutputStream),
    Starting,
    CheckingOutput,
    PollingChild,
    ObservingInterrupts,
    Signalling(GroupSignal),
    Sleeping,
    /// The run failed; the process group is being stopped and reaped before reporting `error`.
    CleaningUp { error: Error },
    ReadingStdout { status: ExitState },
    ReadingStderr { status: ExitState, stdout: String },
    Finished,
}

/// What the runner of a CMake run must do next.
#[derive(Debug)]
pub enum RunAction {
    /// Create a temporary file to capture the stream, and a duplicate of it for the child.
    CreateCapture(OutputStream),
    /// Start `cmake <build dir>` in a process group of its own, with its output captured.
    Spawn,
    /// Check whether the standard output consumer has exited.
    CheckOutput,
    /// Check, without blocking, whether CMake has exited.
    PollChild,
    /// Report the number of interrupts received and the current time.
    ObserveInterrupts,
    /// Signal the CMake process group.
    Signal(GroupSignal),
    /// Sleep for the given number of milliseconds.
    Sleep(u64),
    /// Kill the CMake process group and wait for CMake, ignoring failures.
    Cleanup,
    /// Rewind the capture file of the stream and read it back, checking for cancellation
    /// before each chunk.
    ReadCapture(OutputStream),
    /// The run is over.
    Finished(Result<(), Error>),
}

/// What the runner observed after an action.
#[derive(Debug)]
pub enum RunEvent {
    CaptureCreated(Result<(), CaptureFailure>),
    Spawned(Result<(), IoFailure>),
    OutputChecked(Result<(), Error>),
    ChildPolled(Result<Option<ExitState>, IoFailure>),
    /// `now` is a monotonic time in milliseconds.
    InterruptsObserved { count: usize, now: u64 },
    /// `now` is a monotonic time in milliseconds, read after the signal was sent.
    Signalled { result: Result<(), IoFailure>, now: u64 },
    Slept,
    CleanedUp,
    CaptureRead(CaptureRead),
}

/// A run of CMake that reconfigures a build tree, as a state machine: each event that the runner
/// observes gives the next action.
#[derive(Debug)]
pub struct CmakeRun {
    pub build_dir: String,
    pub phase: RunPhase,
    /// When an interrupt has been forwarded to CMake: the time after which it is killed.
    pub interrupt_deadline: Option<u64>,
    /// Whether the process group has been killed.
    pub force_killed: bool,
}

/// The time after which CMake is killed, for an interrupt forwarded at `now`: the grace period
/// later, or the last representable time.
pub open spec fn grace_deadline(now: u64) -> u64 {
    if now <= u64::MAX - INTERRUPT_GRACE_PERIOD_MS {
        (now + INTERRUPT_GRACE_PERIOD_MS) as u64
    } else {
        u64::MAX
    }
}

/// The error for a failed file operation on a build tree.
pub open spec fn io_error(action: Seq<char>, path: Seq<char>, failure: IoFailure) -> ErrorView {
    ErrorView::Io { action, path, source: failure@ }
}

/// The view of a finished run's result.
pub open spec fn finished_with(action: RunAction, expected: Result<(), ErrorView>) -> bool {
    action matches RunAction::Finished(r) && match (r, expected) {
        (Ok(()), Ok(())) => true,
        (Err(e), Err(x)) => e@ == x,
        _ => false,
    }
}

impl CmakeRun {
    /// The run's invariant: a kill comes only after an interrupt was forwarded, and nothing is
    /// signalled before CMake has started.
    pub open spec fn wf(self) -> bool {
        &&& self.force_killed ==> self.interrupt_deadline is Some
        &&& self.phase == RunPhase::Signalling(GroupSignal::Kill) ==> self.interrupt_deadline is Some
        &&& self.phase == RunPhase::Signalling(GroupSignal::Interrupt) ==> self.interrupt_deadline is None
        &&& (self.phase is CreatingCapture || self.phase is Starting) ==> (
        self.interrupt_deadline is None && !self.force_killed)
        &&& (self.phase is ReadingStdout || self.phase is ReadingStderr)
            ==> self.interrupt_deadline is None
    }

    /// Whether `event` answers the action that led to the current phase.
    pub open spec fn expects(self, event: RunEvent) -> bool {
        match (self.phase, event) {
            (RunPhase::CreatingCapture(_), RunEvent::CaptureCreated(_)) => true,
            (RunPhase::Starting, RunEvent::Spawned(_)) => true,
            (RunPhase::CheckingOutput, RunEvent::OutputChecked(_)) => true,
            (RunPhase::PollingChild, RunEvent::ChildPolled(_)) => true,
            (RunPhase::ObservingInterrupts, RunEvent::InterruptsObserved { .. }) => true,
            (RunPhase::Signalling(_), RunEvent::Signalled { .. }) => true,
            (RunPhase::Sleeping, RunEvent::Slept) => true,
            (RunPhase::CleaningUp { .. }, RunEvent::CleanedUp) => true,
            (RunPhase::ReadingStdout { .. }, RunEvent::CaptureRead(_)) => true,
            (RunPhase::ReadingStderr { .. }, RunEvent::CaptureRead(_)) => true,
            _ => false,
        }
    }

    /// Start a run for the build tree at `build_dir`: the first action creates the stdout capture.
    pub fn new(build_dir: String) -> (result: (Self, RunAction))
        ensures
            result.0.build_dir == build_dir,
            result.0.phase == RunPhase::CreatingCapture(OutputStream::Stdout),
            result.0.interrupt_deadline is None,
            !result.0.force_killed,
            result.1 == RunAction::CreateCapture(OutputStream::Stdout),
    {
        (
            CmakeRun {
                build_dir,
                phase: RunPhase::CreatingCapture(OutputStream::Stdout),
                interrupt_deadline: None,
                force_killed: false,
            },
            RunAction::CreateCapture(OutputStream::Stdout),
        )
    }

    /// What one step of the run does: the next state and action for an observed event.
    pub open spec fn transition(self, event: RunEvent, result: (Self, RunAction)) -> bool {
        &&& result.0.wf()
        &&& result.0.build_dir == self.build_dir
        // An interrupt is forwarded once, and a killed group stays killed.
        &&& self.interrupt_deadline is Some ==> result.0.interrupt_deadline
            == self.interrupt_deadline
        &&& self.force_killed ==> result.0.force_killed
        // Setting up the captures.
        &&& self.phase == RunPhase::CreatingCapture(OutputStream::Stdout) ==> match event {
            RunEvent::CaptureCreated(Ok(())) => result.1 == RunAction::CreateCapture(
                OutputStream::Stderr,
            ) && result.0.phase == RunPhase::CreatingCapture(OutputStream::Stderr),
            RunEvent::CaptureCreated(Err(CaptureFailure::Create(f))) => finished_with(
                result.1,
                Err(io_error(OutputStream::Stdout.spec_create_action(), self.build_dir@, f)),
            ),
            RunEvent::CaptureCreated(Err(CaptureFailure::Clone(f))) => finished_with(
                result.1,
                Err(io_error(OutputStream::Stdout.spec_clone_action(), self.build_dir@, f)),
            ),
            _ => true,
        }
        &&& self.phase == RunPhase::CreatingCapture(OutputStream::Stderr) ==> match event {
            RunEvent::CaptureCreated(Ok(())) => result.1 == RunAction::Spawn
                && result.0.phase == RunPhase::Starting,
            RunEvent::CaptureCreated(Err(CaptureFailure::Create(f))) => finished_with(
                result.1,
                Err(io_error(OutputStream::Stderr.spec_create_action(), self.build_dir@, f)),
            ),
            RunEvent::CaptureCreated(Err(CaptureFailure::Clone(f))) => finished_with(
                result.1,
                Err(io_error(OutputStream::Stderr.spec_clone_action(), self.build_dir@, f)),
            ),
            _ => true,
        }
        // Starting CMake.
        &&& self.phase == RunPhase::Starting ==> match event {
            RunEvent::Spawned(Ok(())) => result.1 == RunAction::CheckOutput
                && result.0.phase == RunPhase::CheckingOutput
                && result.0.interrupt_deadline is None && !result.0.force_killed,
            RunEvent::Spawned(Err(f)) => finished_with(
                result.1,
                Err(ErrorView::StartCmake { path: self.build_dir@, source: f@ }),
            ),
            _ => true,
        }
        // Waiting for CMake to exit.
        &&& self.phase == RunPhase::CheckingOutput ==> match event {
            RunEvent::OutputChecked(Ok(())) => result.1 == RunAction::PollChild
                && result.0.phase == RunPhase::PollingChild,
            RunEvent::OutputChecked(Err(e)) => result.1 == RunAction::Cleanup
                && result.0.phase == (RunPhase::CleaningUp { error: e }),
            _ => true,
        }
        // CMake stopped after an interrupt: the run was interrupted.
        &&& self.phase == RunPhase::PollingChild ==> match event {
            RunEvent::ChildPolled(Err(f)) => result.1 == RunAction::Cleanup
                && (result.0.phase matches RunPhase::CleaningUp { error }
                && error@ == io_error("poll CMake process"@, self.build_dir@, f)),
            RunEvent::ChildPolled(Ok(None)) => result.1 == RunAction::ObserveInterrupts
                && result.0.phase == RunPhase::ObservingInterrupts,
            RunEvent::ChildPolled(Ok(Some(status))) => if self.interrupt_deadline is Some {
                result.1 == RunAction::Cleanup && result.0.phase == (RunPhase::CleaningUp {
                    error: Error::Interrupted,
                })
            } else if status.success {
                finished_with(result.1, Ok(()))
            } else {
                result.1 == RunAction::ReadCapture(OutputStream::Stdout) && result.0.phase
                    == (RunPhase::ReadingStdout { status })
            },
            _ => true,
        }
        // The first interrupt is forwarded to CMake.
        // A second interrupt, or the end of the grace period, kills the group.
        &&& self.phase == RunPhase::ObservingInterrupts ==> match event {
            RunEvent::InterruptsObserved { count, now } => if count > 0
                && self.interrupt_deadline is None {
                result.1 == RunAction::Signal(GroupSignal::Interrupt) && result.0.phase
                    == RunPhase::Signalling(GroupSignal::Interrupt)
            } else if !self.force_killed && (self.interrupt_deadline matches Some(deadline)
                && (count > 1 || now >= deadline)) {
                result.1 == RunAction::Signal(GroupSignal::Kill) && result.0.phase
                    == RunPhase::Signalling(GroupSignal::Kill)
            } else {
                result.1 == RunAction::Sleep(POLL_INTERVAL_MS) && result.0.phase
                    == RunPhase::Sleeping
            },
            _ => true,
        }
        &&& self.phase == RunPhase::Signalling(GroupSignal::Interrupt) ==> match event {
            RunEvent::Signalled { result: Ok(()), now } => result.1 == RunAction::Sleep(
                POLL_INTERVAL_MS,
            ) && result.0.phase == RunPhase::Sleeping && result.0.interrupt_deadline == Some(
                grace_deadline(now),
            ) && result.0.force_killed == self.force_killed,
            RunEvent::Signalled { result: Err(f), .. } => result.1 == RunAction::Cleanup
                && (result.0.phase matches RunPhase::CleaningUp { error } && error@
                == io_error("interrupt CMake process group"@, self.build_dir@, f)),
            _ => true,
        }
        &&& self.phase == RunPhase::Signalling(GroupSignal::Kill) ==> match event {
            RunEvent::Signalled { result: Ok(()), .. } => result.1 == RunAction::Sleep(
                POLL_INTERVAL_MS,
            ) && result.0.phase == RunPhase::Sleeping && result.0.force_killed
                && result.0.interrupt_deadline == self.interrupt_deadline,
            RunEvent::Signalled { result: Err(f), .. } => result.1 == RunAction::Cleanup
                && (result.0.phase matches RunPhase::CleaningUp { error } && error@
                == io_error("terminate CMake process group"@, self.build_dir@, f)),
            _ => true,
        }
        &&& self.phase == RunPhase::Sleeping ==> result.1 == RunAction::CheckOutput
            && result.0.phase == RunPhase::CheckingOutput
        // Every failure while waiting stops and reaps the process group first.
        &&& self.phase matches RunPhase::CleaningUp { error } ==> result.1 == RunAction::Finished(
            Err(error),
        )
        // Reading back the output of a failed run.
        &&& self.phase matches RunPhase::ReadingStdout { status } ==> match event {
            RunEvent::CaptureRead(CaptureRead::Text(text)) => result.1
                == RunAction::ReadCapture(OutputStream::Stderr) && result.0.phase == (
            RunPhase::ReadingStderr { status, stdout: text }),
            RunEvent::CaptureRead(CaptureRead::Failed { step: CaptureStep::Rewind, source }) =>
                finished_with(
                result.1,
                Err(io_error(OutputStream::Stdout.spec_rewind_action(), self.build_dir@, source)),
            ),
            RunEvent::CaptureRead(CaptureRead::Failed { step: CaptureStep::Read, source }) =>
                finished_with(
                result.1,
                Err(io_error(OutputStream::Stdout.spec_read_action(), self.build_dir@, source)),
            ),
            RunEvent::CaptureRead(CaptureRead::Stopped(e)) => result.1 == RunAction::Finished(
                Err(e),
            ),
            _ => true,
        }
        &&& self.phase matches RunPhase::ReadingStderr { status, stdout } ==> match event {
            RunEvent::CaptureRead(CaptureRead::Text(text)) => finished_with(
                result.1,
                Err(
                    ErrorView::CmakeFailed {
                        path: self.build_dir@,
                        status: status.description@,
                        output: failure_details_spec(stdout@, text@),
                    },
                ),
            ),
            RunEvent::CaptureRead(CaptureRead::Failed { step: CaptureStep::Rewind, source }) =>
                finished_with(
                result.1,
                Err(io_error(OutputStream::Stderr.spec_rewind_action(), self.build_dir@, source)),
            ),
            RunEvent::CaptureRead(CaptureRead::Failed { step: CaptureStep::Read, source }) =>
                finished_with(
                result.1,
                Err(io_error(OutputStream::Stderr.spec_read_action(), self.build_dir@, source)),
            ),
            RunEvent::CaptureRead(CaptureRead::Stopped(e)) => result.1 == RunAction::Finished(
                Err(e),
            ),
            _ => true,
        }
        // A kill is only requested once, and only after an interrupt was forwarded.
        &&& result.1 == RunAction::Signal(GroupSignal::Kill) ==> self.interrupt_deadline is Some
            && !self.force_killed
        &&& result.1 is Finished ==> result.0.phase is Finished
        // Cleanup and signals are asked for exactly when the run enters those phases.
        &&& (result.1 == RunAction::Cleanup) == (result.0.phase is CleaningUp)
        &&& result.1 matches RunAction::Signal(s) ==> result.0.phase == RunPhase::Signalling(s)
        &&& result.0.phase matches RunPhase::Signalling(s) ==> result.1 == RunAction::Signal(s)
        // The deadline is set only when an interrupt was delivered, and the group counts as
        // killed only once a kill was delivered.
        &&& result.0.interrupt_deadline != self.interrupt_deadline ==> (self.phase
            == RunPhase::Signalling(GroupSignal::Interrupt) && event matches RunEvent::Signalled {
            result: Ok(()),
            ..
        })
        &&& result.0.force_killed != self.force_killed ==> (self.phase == RunPhase::Signalling(
            GroupSignal::Kill,
        ) && event matches RunEvent::Signalled { result: Ok(()), .. })
    }

    /// Advance the run by one observed event.
    pub fn step(self, event: RunEvent) -> (result: (Self, RunAction))
        requires
            self.wf(),
            self.expects(event),
        ensures
            self.transition(event, result),
    {
        let CmakeRun { build_dir, phase, interrupt_deadline, force_killed } = self;
        match (phase, event) {
            (RunPhase::CreatingCapture(stream), RunEvent::CaptureCreated(created)) => {
                match created {
                    Ok(()) => match stream {
                        OutputStream::Stdout => (
                            CmakeRun {
                                build_dir,
                                phase: RunPhase::CreatingCapture(OutputStream::Stderr),
                                interrupt_deadline,
                                force_killed,
                            },
                            RunAction::CreateCapture(OutputStream::Stderr),
                        ),
                        OutputStream::Stderr => (
                            CmakeRun { build_dir, phase: RunPhase::Starting, interrupt_deadline, force_killed },
                            RunAction::Spawn,
                        ),
                    },
                    Err(CaptureFailure::Create(f)) => {
                        let error = Error::io(stream.create_action(), build_dir.clone(), f);
                        (
                            CmakeRun { build_dir, phase: RunPhase::Finished, interrupt_deadline, force_killed },
                            RunAction::Finished(Err(error)),
                        )
                    },
                    Err(CaptureFailure::Clone(f)) => {
                        let error = Error::io(stream.clone_action(), build_dir.clone(), f);
                        (
                            CmakeRun { build_dir, phase: RunPhase::Finished, interrupt_deadline, force_killed },
                            RunAction::Finished(Err(error)),
                        )
                    },
                }
            },
            (RunPhase::Starting, RunEvent::Spawned(spawned)) => match spawned {
                Ok(()) => (
                    CmakeRun {
                        build_dir,
                        phase: RunPhase::CheckingOutput,
                        interrupt_deadline,
                        force_killed,
                    },
                    RunAction::CheckOutput,
                ),
                Err(f) => {
                    let error = Error::StartCmake { path: build_dir.clone(), source: f };
                    (
                        CmakeRun { build_dir, phase: RunPhase::Finished, interrupt_deadline, force_killed },
                        RunAction::Finished(Err(error)),
                    )
                },
            },
            (RunPhase::CheckingOutput, RunEvent::OutputChecked(checked)) => match checked {
                Ok(()) => (
                    CmakeRun { build_dir, phase: RunPhase::PollingChild, interrupt_deadline, force_killed },
                    RunAction::PollChild,
                ),
                Err(error) => (
                    CmakeRun {
                        build_dir,
                        phase: RunPhase::CleaningUp { error },
                        interrupt_deadline,
                        force_killed,
                    },
                    RunAction::Cleanup,
                ),
            },
            (RunPhase::PollingChild, RunEvent::ChildPolled(polled)) => match polled {
                Err(f) => {
                    let error = Error::io("poll CMake process", build_dir.clone(), f);
                    (
                        CmakeRun {
                            build_dir,
                            phase: RunPhase::CleaningUp { error },
                            interrupt_deadline,
                            force_killed,
                        },
                        RunAction::Cleanup,
                    )
                },
                Ok(None) => (
                    CmakeRun {
                        build_dir,
                        phase: RunPhase::ObservingInterrupts,
                        interrupt_deadline,
                        force_killed,
                    },
                    RunAction::ObserveInterrupts,
                ),
                Ok(Some(status)) => {
                    if interrupt_deadline.is_some() {
                        (
                            CmakeRun {
                                build_dir,
                                phase: RunPhase::CleaningUp { error: Error::Interrupted },
                                interrupt_deadline,
                                force_killed,
                            },
                            RunAction::Cleanup,
                        )
                    } else if status.success {
                        (
                            CmakeRun { build_dir, phase: RunPhase::Finished, interrupt_deadline, force_killed },
                            RunAction::Finished(Ok(())),
                        )
                    } else {
                        (
                            CmakeRun {
                                build_dir,
                                phase: RunPhase::ReadingStdout { status },
                                interrupt_deadline,
                                force_killed,
                            },
                            RunAction::ReadCapture(OutputStream::Stdout),
                        )
                    }
                },
            },
            (RunPhase::ObservingInterrupts, RunEvent::InterruptsObserved { count, now }) => {
                let signal = if count > 0 && interrupt_deadline.is_none() {
                    Some(GroupSignal::Interrupt)
                } else {
                    match interrupt_deadline {
                        Some(deadline) => if !force_killed && (count > 1 || now >= deadline) {
                            Some(GroupSignal::Kill)
                        } else {
                            None
                        },
                        None => None,
                    }
                };
                match signal {
                    Some(signal) => (
                        CmakeRun {
                            build_dir,
                            phase: RunPhase::Signalling(signal),
                            interrupt_deadline,
                            force_killed,
                        },
                        RunAction::Signal(signal),
                    ),
                    None => (
                        CmakeRun { build_dir, phase: RunPhase::Sleeping, interrupt_deadline, force_killed },
                        RunAction::Sleep(POLL_INTERVAL_MS),
                    ),
                }
            },
            (RunPhase::Signalling(signal), RunEvent::Signalled { result, now }) => match result {
                Ok(()) => match signal {
                    GroupSignal::Interrupt => {
                        let deadline = if now <= u64::MAX - INTERRUPT_GRACE_PERIOD_MS {
                            now + INTERRUPT_GRACE_PERIOD_MS
                        } else {
                            u64::MAX
                        };
                        (
                            CmakeRun {
                                build_dir,
                                phase: RunPhase::Sleeping,
                                interrupt_deadline: Some(deadline),
                                force_killed,
                            },
                            RunAction::Sleep(POLL_INTERVAL_MS),
                        )
                    },
                    GroupSignal::Kill => (
                        CmakeRun {
                            build_dir,
                            phase: RunPhase::Sleeping,
                            interrupt_deadline,
                            force_killed: true,
                        },
                        RunAction::Sleep(POLL_INTERVAL_MS),
                    ),
                },
                Err(f) => {
                    let action = match signal {
                        GroupSignal::Interrupt => "interrupt CMake process group",
                        GroupSignal::Kill => "terminate CMake process group",
                    };
                    let error = Error::io(action, build_dir.clone(), f);
                    (
                        CmakeRun {
                            build_dir,
                            phase: RunPhase::CleaningUp { error },
                            interrupt_deadline,
                            force_killed,
                        },
                        RunAction::Cleanup,
                    )
                },
            },
            (RunPhase::Sleeping, RunEvent::Slept) => (
                CmakeRun { build_dir, phase: RunPhase::CheckingOutput, interrupt_deadline, force_killed },
                RunAction::CheckOutput,
            ),
            (RunPhase::CleaningUp { error }, RunEvent::CleanedUp) => (
                CmakeRun { build_dir, phase: RunPhase::Finished, interrupt_deadline, force_killed },
                RunAction::Finished(Err(error)),
            ),
            (RunPhase::ReadingStdout { status }, RunEvent::CaptureRead(read)) => match read {
                CaptureRead::Text(text) => (
                    CmakeRun {
                        build_dir,
                        phase: RunPhase::ReadingStderr { status, stdout: text },
                        interrupt_deadline,
                        force_killed,
                    },
                    RunAction::ReadCapture(OutputStream::Stderr),
                ),
                CaptureRead::Failed { step, source } => {
                    let action = match step {
                        CaptureStep::Rewind => OutputStream::Stdout.rewind_action(),
                        CaptureStep::Read => OutputStream::Stdout.read_action(),
                    };
                    let error = Error::io(action, build_dir.clone(), source);
                    (
                        CmakeRun { build_dir, phase: RunPhase::Finished, interrupt_deadline, force_killed },
                        RunAction::Finished(Err(error)),
                    )
                },
                CaptureRead::Stopped(error) => (
                    CmakeRun { build_dir, phase: RunPhase::Finished, interrupt_deadline, force_killed },
                    RunAction::Finished(Err(error)),
                ),
            },
            (RunPhase::ReadingStderr { status, stdout }, RunEvent::CaptureRead(read)) => match read {
                CaptureRead::Text(text) => {
                    let output = failure_details(stdout.as_str(), text.as_str());
                    let error = Error::CmakeFailed {
                        path: build_dir.clone(),
                        status: status.description,
                        output,
                    };
                    (
                        CmakeRun { build_dir, phase: RunPhase::Finished, interrupt_deadline, force_killed },
                        RunAction::Finished(Err(error)),
                    )
                },
                CaptureRead::Failed { step, source } => {
                    let action = match step {
                        CaptureStep::Rewind => OutputStream::Stderr.rewind_action(),
                        CaptureStep::Read => OutputStream::Stderr.read_action(),
                    };
                    let error = Error::io(action, build_dir.clone(), source);
                    (
                        CmakeRun { build_dir, phase: RunPhase::Finished, interrupt_deadline, force_killed },
                        RunAction::Finished(Err(error)),
                    )
                },
                CaptureRead::Stopped(error) => (
                    CmakeRun { build_dir, phase: RunPhase::Finished, interrupt_deadline, force_killed },
                    RunAction::Finished(Err(error)),
                ),
            },
            _ => vstd::pervasive::unreached(),
        }
    }
}

/// A sequence of steps of a run from `start`: each step answers the action before it.
pub open spec fn run_trace(start: CmakeRun, events: Seq<RunEvent>, steps: Seq<(CmakeRun, RunAction)>) -> bool {
    &&& events.len() == steps.len()
    &&& forall|i: int|
        0 <= i < steps.len() ==> {
            let before = if i == 0 {
                start
            } else {
                steps[i - 1].0
            };
            before.expects(#[trigger] events[i]) && before.transition(events[i], steps[i])
        }
}

/// After a kill was asked for, the run is either killed, failing, or over.
spec fn killed_or_ending(run: CmakeRun) -> bool {
    run.force_killed || run.phase is CleaningUp || run.phase is Finished
}

proof fn lemma_no_kill_after(
    start: CmakeRun,
    events: Seq<RunEvent>,
    steps: Seq<(CmakeRun, RunAction)>,
    i: int,
    m: int,
)
    requires
        start.wf(),
        run_trace(start, events, steps),
        0 <= i < m < steps.len(),
        steps[i].1 == RunAction::Signal(GroupSignal::Kill),
    ensures
        killed_or_ending(steps[m].0),
        steps[m].1 != RunAction::Signal(GroupSignal::Kill),
    decreases m - i,
{
    let before = steps[m - 1].0;
    assert(before.expects(events[m]) && before.transition(events[m], steps[m]));
    if m == i + 1 {
        let b = if i == 0 {
            start
        } else {
            steps[i - 1].0
        };
        assert(b.expects(events[i]) && b.transition(events[i], steps[i]));
        assert(before.phase == RunPhase::Signalling(GroupSignal::Kill));
    } else {
        lemma_no_kill_after(start, events, steps, i, m - 1);
    }
}

/// A run kills the CMake process group at most once.
pub proof fn lemma_killed_at_most_once(
    start: CmakeRun,
    events: Seq<RunEvent>,
    steps: Seq<(CmakeRun, RunAction)>,
)
    requires
        start.wf(),
        run_trace(start, events, steps),
    ensures
        forall|i: int, j: int|
            0 <= i < j < steps.len() && steps[i].1 == RunAction::Signal(GroupSignal::Kill)
                ==> steps[j].1 != RunAction::Signal(GroupSignal::Kill),
{
    assert forall|i: int, j: int|
        0 <= i < j < steps.len() && steps[i].1 == RunAction::Signal(GroupSignal::Kill) implies steps[j].1
        != RunAction::Signal(GroupSignal::Kill) by {
        lemma_no_kill_after(start, events, steps, i, j);
    }
}

/// After an interrupt was forwarded, the run is either waiting out the grace period, failing, or
/// over.
spec fn interrupted_or_ending(run: CmakeRun) -> bool {
    run.interrupt_deadline is Some || run.phase is CleaningUp || run.phase is Finished
}

proof fn lemma_no_interrupt_after(
    start: CmakeRun,
    events: Seq<RunEvent>,
    steps: Seq<(CmakeRun, RunAction)>,
    i: int,
    m: int,
)
    requires
        start.wf(),
        run_trace(start, events, steps),
        0 <= i < m < steps.len(),
        steps[i].1 == RunAction::Signal(GroupSignal::Interrupt),
    ensures
        interrupted_or_ending(steps[m].0),
        steps[m].1 != RunAction::Signal(GroupSignal::Interrupt),
        !(steps[m].1 matches RunAction::Finished(Ok(_))),
    decreases m - i,
{
    let before = steps[m - 1].0;
    assert(before.expects(events[m]) && before.transition(events[m], steps[m]));
    if m == i + 1 {
        let b = if i == 0 {
            start
        } else {
            steps[i - 1].0
        };
        assert(b.expects(events[i]) && b.transition(events[i], steps[i]));
        assert(before.phase == RunPhase::Signalling(GroupSignal::Interrupt));
    } else {
        lemma_no_interrupt_after(start, events, steps, i, m - 1);
    }
}

/// A run forwards an interrupt to the CMake process group at most once, and once it has, the run
/// never ends in success, even when CMake then exits successfully.
pub proof fn lemma_interrupt_forwarded_at_most_once(
    start: CmakeRun,
    events: Seq<RunEvent>,
    steps: Seq<(CmakeRun, RunAction)>,
)
    requires
        start.wf(),
        run_trace(start, events, steps),
    ensures
        forall|i: int, j: int|
            0 <= i < j < steps.len() && steps[i].1 == RunAction::Signal(GroupSignal::Interrupt)
                ==> steps[j].1 != RunAction::Signal(GroupSignal::Interrupt),
        forall|i: int, j: int|
            #![trigger steps[i], steps[j]]
            0 <= i < j < steps.len() && steps[i].1 == RunAction::Signal(GroupSignal::Interrupt)
                ==> !(steps[j].1 matches RunAction::Finished(Ok(_))),
{
    assert forall|i: int, j: int|
        #![trigger steps[i], steps[j]]
        0 <= i < j < steps.len() && steps[i].1 == RunAction::Signal(GroupSignal::Interrupt) implies steps[j].1
        != RunAction::Signal(GroupSignal::Interrupt) && !(steps[j].1 matches RunAction::Finished(
        Ok(_),
    )) by {
        lemma_no_interrupt_after(start, events, steps, i, j);
    }
}

/// Whether `run` is a run as [`CmakeRun::new`] starts it.
pub open spec fn is_fresh_run(run: CmakeRun) -> bool {
    &&& run.phase == RunPhase::CreatingCapture(OutputStream::Stdout)
    &&& run.interrupt_deadline is None
    &&& !run.force_killed
}

/// The state of a run before step `i`.
pub open spec fn run_before(start: CmakeRun, steps: Seq<(CmakeRun, RunAction)>, i: int) -> CmakeRun {
    if i == 0 {
        start
    } else {
        steps[i - 1].0
    }
}

proof fn lemma_deadline_origin(
    start: CmakeRun,
    events: Seq<RunEvent>,
    steps: Seq<(CmakeRun, RunAction)>,
    m: int,
)
    requires
        is_fresh_run(start),
        run_trace(start, events, steps),
        0 <= m < steps.len(),
    ensures
        steps[m].0.interrupt_deadline matches Some(d) ==> exists|k: int|
            #![trigger events[k]]
            0 < k <= m && steps[k - 1].1 == RunAction::Signal(GroupSignal::Interrupt) && (
            events[k] matches RunEvent::Signalled { result: Ok(()), now } && d == grace_deadline(
                now,
            )),
    decreases m,
{
    let before = run_before(start, steps, m);
    assert(before.expects(events[m]) && before.transition(events[m], steps[m]));
    if m > 0 {
        lemma_deadline_origin(start, events, steps, m - 1);
        let b = run_before(start, steps, m - 1);
        assert(b.expects(events[m - 1]) && b.transition(events[m - 1], steps[m - 1]));
    }
}

/// What a run does about Ctrl+C, over the whole run: the first interrupt seen while CMake runs is
/// forwarded to its process group; a kill comes only after that; once an interrupt was
/// forwarded, CMake's exit makes the run an interrupted one, and the run ends only after the
/// process group was stopped and reaped, with the error that the cleanup was for.
pub proof fn lemma_interrupt_law(
    start: CmakeRun,
    events: Seq<RunEvent>,
    steps: Seq<(CmakeRun, RunAction)>,
)
    requires
        is_fresh_run(start),
        run_trace(start, events, steps),
    ensures
        forall|j: int|
            0 <= j < steps.len() && #[trigger] steps[j].1 == RunAction::Signal(GroupSignal::Kill)
                ==> exists|i: int|
                0 <= i < j && #[trigger] steps[i].1 == RunAction::Signal(GroupSignal::Interrupt),
        forall|j: int|
            0 <= j < steps.len() && (#[trigger] events[j] matches RunEvent::InterruptsObserved {
                count,
                ..
            } && count > 0) && (forall|i: int|
                0 <= i < j ==> steps[i].1 != RunAction::Signal(GroupSignal::Interrupt)) ==> steps[j].1
                == RunAction::Signal(GroupSignal::Interrupt),
        forall|i: int, m: int|
            #![trigger steps[i], events[m]]
            0 <= i < m < steps.len() && steps[i].1 == RunAction::Signal(GroupSignal::Interrupt)
                && (events[m] matches RunEvent::ChildPolled(Ok(Some(_)))) ==> steps[m].1
                == RunAction::Cleanup && steps[m].0.phase == (RunPhase::CleaningUp {
                error: Error::Interrupted,
            }),
        forall|i: int, m: int|
            #![trigger steps[i], steps[m]]
            0 <= i < m < steps.len() && steps[i].1 == RunAction::Signal(GroupSignal::Interrupt)
                && steps[m].1 is Finished ==> i < m - 1 && steps[m - 1].1 == RunAction::Cleanup && (
            steps[m - 1].0.phase matches RunPhase::CleaningUp { error } && steps[m].1
                == RunAction::Finished(Err(error))),
{
    assert forall|j: int|
        0 <= j < steps.len() && #[trigger] steps[j].1 == RunAction::Signal(GroupSignal::Kill) implies exists|
        i: int,
    | 0 <= i < j && #[trigger] steps[i].1 == RunAction::Signal(GroupSignal::Interrupt) by {
        let before = run_before(start, steps, j);
        assert(before.expects(events[j]) && before.transition(events[j], steps[j]));
        lemma_deadline_origin(start, events, steps, j - 1);
        let k = choose|k: int|
            #![trigger events[k]]
            0 < k <= j - 1 && steps[k - 1].1 == RunAction::Signal(GroupSignal::Interrupt) && (
            events[k] matches RunEvent::Signalled { result: Ok(()), now } && before.interrupt_deadline
                == Some(grace_deadline(now)));
        assert(steps[k - 1].1 == RunAction::Signal(GroupSignal::Interrupt));
    }
    assert forall|j: int|
        0 <= j < steps.len() && (#[trigger] events[j] matches RunEvent::InterruptsObserved {
            count,
            ..
        } && count > 0) && (forall|i: int|
            0 <= i < j ==> steps[i].1 != RunAction::Signal(GroupSignal::Interrupt)) implies steps[j].1
        == RunAction::Signal(GroupSignal::Interrupt) by {
        let before = run_before(start, steps, j);
        assert(before.expects(events[j]) && before.transition(events[j], steps[j]));
        if j > 0 {
            lemma_deadline_origin(start, events, steps, j - 1);
            if before.interrupt_deadline is Some {
                let k = choose|k: int|
                    #![trigger events[k]]
                    0 < k <= j - 1 && steps[k - 1].1 == RunAction::Signal(GroupSignal::Interrupt)
                        && (events[k] matches RunEvent::Signalled { result: Ok(()), now }
                        && before.interrupt_deadline == Some(grace_deadline(now)));
                assert(steps[k - 1].1 == RunAction::Signal(GroupSignal::Interrupt));
            }
        }
    }
    assert forall|i: int, m: int|
        #![trigger steps[i], events[m]]
        0 <= i < m < steps.len() && steps[i].1 == RunAction::Signal(GroupSignal::Interrupt)
            && (events[m] matches RunEvent::ChildPolled(Ok(Some(_)))) implies steps[m].1
        == RunAction::Cleanup && steps[m].0.phase == (RunPhase::CleaningUp {
        error: Error::Interrupted,
    }) by {
        let before = steps[m - 1].0;
        assert(before.expects(events[m]) && before.transition(events[m], steps[m]));
        let b = run_before(start, steps, i);
        assert(b.expects(events[i]) && b.transition(events[i], steps[i]));
        if m - 1 > i {
            lemma_no_interrupt_after(start, events, steps, i, m - 1);
        }
    }
    assert forall|i: int, m: int|
        #![trigger steps[i], steps[m]]
        0 <= i < m < steps.len() && steps[i].1 == RunAction::Signal(GroupSignal::Interrupt)
            && steps[m].1 is Finished implies i < m - 1 && steps[m - 1].1 == RunAction::Cleanup && (
        steps[m - 1].0.phase matches RunPhase::CleaningUp { error } && steps[m].1
            == RunAction::Finished(Err(error))) by {
        let before = steps[m - 1].0;
        assert(before.expects(events[m]) && before.transition(events[m], steps[m]));
        let b = run_before(start, steps, i);
        assert(b.expects(events[i]) && b.transition(events[i], steps[i]));
        if m - 1 > i {
            lemma_no_interrupt_after(start, events, steps, i, m - 1);
            let b2 = steps[m - 2].0;
            assert(b2.expects(events[m - 1]) && b2.transition(events[m - 1], steps[m - 1]));
        }
    }
}

/// When a run kills CMake, over the whole run: the grace deadline lies the grace period after the
/// time at which the interrupt was delivered; a kill is asked for only at an observation at or
/// after that deadline, or of a second interrupt; and every such observation asks for the kill
/// until it was delivered, so the kill comes at the first of them.
pub proof fn lemma_kill_deadline_law(
    start: CmakeRun,
    events: Seq<RunEvent>,
    steps: Seq<(CmakeRun, RunAction)>,
)
    requires
        is_fresh_run(start),
        run_trace(start, events, steps),
    ensures
        forall|m: int|
            0 <= m < steps.len() && #[trigger] steps[m].0.interrupt_deadline is Some
                ==> exists|k: int|
                #![trigger events[k]]
                0 < k <= m && steps[k - 1].1 == RunAction::Signal(GroupSignal::Interrupt) && (
                events[k] matches RunEvent::Signalled { result: Ok(()), now }
                    && steps[m].0.interrupt_deadline == Some(grace_deadline(now))),
        forall|j: int|
            0 <= j < steps.len() && #[trigger] steps[j].1 == RunAction::Signal(GroupSignal::Kill)
                ==> (events[j] matches RunEvent::InterruptsObserved { count, now } && (run_before(
                start,
                steps,
                j,
            ).interrupt_deadline matches Some(d) && (count > 1 || now >= d))),
        forall|j: int|
            0 <= j < steps.len() && (#[trigger] events[j] matches RunEvent::InterruptsObserved {
                count,
                now,
            } && run_before(start, steps, j).interrupt_deadline matches Some(d) && !run_before(
                start,
                steps,
                j,
            ).force_killed && (count > 1 || now >= d)) ==> steps[j].1 == RunAction::Signal(
                GroupSignal::Kill,
            ),
{
    assert forall|m: int|
        0 <= m < steps.len() && #[trigger] steps[m].0.interrupt_deadline is Some implies exists|
        k: int,
    |
        #![trigger events[k]]
        0 < k <= m && steps[k - 1].1 == RunAction::Signal(GroupSignal::Interrupt) && (
        events[k] matches RunEvent::Signalled { result: Ok(()), now }
            && steps[m].0.interrupt_deadline == Some(grace_deadline(now))) by {
        lemma_deadline_origin(start, events, steps, m);
    }
    assert forall|j: int|
        0 <= j < steps.len() && #[trigger] steps[j].1 == RunAction::Signal(GroupSignal::Kill) implies (
        events[j] matches RunEvent::InterruptsObserved { count, now } && (run_before(
            start,
            steps,
            j,
        ).interrupt_deadline matches Some(d) && (count > 1 || now >= d))) by {
        let before = run_before(start, steps, j);
        assert(before.expects(events[j]) && before.transition(events[j], steps[j]));
    }
    assert forall|j: int|
        0 <= j < steps.len() && (#[trigger] events[j] matches RunEvent::InterruptsObserved {
            count,
            now,
        } && run_before(start, steps, j).interrupt_deadline matches Some(d) && !run_before(
            start,
            steps,
            j,
        ).force_killed && (count > 1 || now >= d)) implies steps[j].1 == RunAction::Signal(
        GroupSignal::Kill,
    ) by {
        let before = run_before(start, steps, j);
        assert(before.expects(events[j]) && before.transition(events[j], steps[j]));
    }
}

} // verus!
