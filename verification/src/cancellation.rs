//! Cooperative cancellation for signals and closed output pipelines.

use std::sync::atomic::{AtomicUsize, Ordering};
use std::sync::Arc;

use vstd::prelude::*;
use vstd::string::StringExecFns;

use crate::error::{Error, ErrorView, IoErrorKind, IoFailure, IoFailureView};

verus! {

/// What a zero-timeout poll of standard output for writability reported.
#[derive(Debug)]
pub enum OutputProbe {
    /// The poll returned and reported events for standard output.
    Events { error: bool, hangup: bool, invalid: bool },
    /// The poll returned without events for standard output.
    NoEvents,
    /// The poll was interrupted by a signal.
    Interrupted,
    /// The poll failed.
    Failed(IoFailure),
}

/// The error for a standard output whose consumer has exited.
pub open spec fn consumer_exited() -> ErrorView {
    ErrorView::WriteStdout(
        IoFailureView { kind: IoErrorKind::BrokenPipe, message: "standard output consumer exited"@ },
    )
}

/// What a poll of standard output means for the operation: whether its consumer has gone away.
pub open spec fn output_outcome(probe: OutputProbe) -> Result<(), ErrorView> {
    match probe {
        OutputProbe::Events { error, hangup, invalid } => if error || hangup || invalid {
            Err(consumer_exited())
        } else {
            Ok(())
        },
        OutputProbe::NoEvents => Ok(()),
        OutputProbe::Interrupted => Ok(()),
        OutputProbe::Failed(failure) => Err(ErrorView::WriteStdout(failure@)),
    }
}

/// The view of a result without a value.
pub open spec fn unit_view(result: Result<(), Error>) -> Result<(), ErrorView> {
    match result {
        Ok(()) => Ok(()),
        Err(e) => Err(e@),
    }
}

/// Stop the current operation if the standard output consumer has exited.
pub fn check_output(probe: OutputProbe) -> (result: Result<(), Error>)
    ensures
        unit_view(result) == output_outcome(probe),
{
    match probe {
        OutputProbe::Events { error, hangup, invalid } => {
            if error || hangup || invalid {
                Err(
                    Error::write_stdout(
                        IoFailure {
                            kind: IoErrorKind::BrokenPipe,
                            message: String::from_str("standard output consumer exited"),
                        },
                    ),
                )
            } else {
                Ok(())
            }
        },
        OutputProbe::NoEvents => Ok(()),
        OutputProbe::Interrupted => Ok(()),
        OutputProbe::Failed(failure) => Err(Error::write_stdout(failure)),
    }
}

/// The outcome of a checkpoint: interrupts stop the operation first, when they count, and a
/// closed standard output stops it otherwise.
pub open spec fn checkpoint_spec(
    include_interrupts: bool,
    interrupt_count: usize,
    probe: OutputProbe,
) -> Result<(), ErrorView> {
    if include_interrupts && interrupt_count > 0 {
        Err(ErrorView::Interrupted)
    } else {
        output_outcome(probe)
    }
}

/// Decide a checkpoint from the number of interrupts received and the state of standard output.
pub fn checkpoint_outcome(include_interrupts: bool, interrupt_count: usize, probe: OutputProbe) -> (result: Result<(), Error>)
    ensures
        unit_view(result) == checkpoint_spec(include_interrupts, interrupt_count, probe),
{
    if include_interrupts && interrupt_count > 0 {
        return Err(Error::Interrupted);
    }
    check_output(probe)
}

/// Shared cancellation state for one command invocation.
#[derive(Clone)]
pub struct Cancellation {
    interrupt_count: Arc<AtomicUsize>,
}

/// Install a process-wide Ctrl+C handler that records each interrupt in `state`.
///
/// Calls `ctrlc::set_handler` with a handler that calls `record_interrupt`, and hands back the
/// text of its error. Whether installation succeeds depends on the process (a handler may already
/// be registered, or the system may refuse), so nothing is stated of the result.
#[verifier::external_body]
fn set_interrupt_handler(state: Cancellation) -> (result: Result<(), String>) {
    ctrlc::set_handler(move || state.record_interrupt()).map_err(|error| error.to_string())
}

impl Cancellation {
    /// Create shared state with no interrupts recorded.
    pub fn new() -> (result: Self) {
        Cancellation { interrupt_count: Arc::new(AtomicUsize::new(0)) }
    }

    /// Create shared state and install the process-wide Ctrl+C handler.
    pub fn install() -> (result: Result<Self, Error>)
        ensures
            result is Err ==> (result matches Err(e) && e is InstallInterruptHandler),
    {
        let cancellation = Self::new();
        let handler_state = cancellation.clone();
        match set_interrupt_handler(handler_state) {
            Ok(()) => Ok(cancellation),
            Err(message) => Err(Error::InstallInterruptHandler(message)),
        }
    }

    /// Return the number of interrupts received by this process.
    ///
    /// The count is shared with the interrupt handler and changes under it, so no value is
    /// promised.
    pub fn interrupt_count(&self) -> (result: usize) {
        self.interrupt_count.load(Ordering::SeqCst)
    }

    /// Record one interrupt.
    pub fn record_interrupt(&self) {
        self.interrupt_count.fetch_add(1, Ordering::SeqCst);
    }

    /// Stop the current operation if cancellation has been requested: an interrupt has been
    /// received or the standard output consumer has exited.
    pub fn checkpoint(&self, probe: OutputProbe) -> (result: Result<(), Error>)
        ensures
            exists|count: usize| unit_view(result) == checkpoint_spec(true, count, probe),
    {
        self.checkpoint_impl(true, probe)
    }

    /// Stop the current operation if the standard output consumer has exited; interrupts are
    /// left to the caller.
    pub fn checkpoint_output(&self, probe: OutputProbe) -> (result: Result<(), Error>)
        ensures
            unit_view(result) == output_outcome(probe),
    {
        self.checkpoint_impl(false, probe)
    }

    fn checkpoint_impl(&self, include_interrupts: bool, probe: OutputProbe) -> (result: Result<
        (),
        Error,
    >)
        ensures
            exists|count: usize|
                unit_view(result) == checkpoint_spec(include_interrupts, count, probe),
    {
        let count = self.interrupt_count();
        checkpoint_outcome(include_interrupts, count, probe)
    }
}

impl Default for Cancellation {
    fn default() -> (result: Self) {
        Self::new()
    }
}

} // verus!
