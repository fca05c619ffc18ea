//! Reading the latest File API reply: the decisions of each read, as state machines that a
//! runner drives with the file operations they ask for.

use vstd::prelude::*;
use vstd::string::StringExecFns;

use crate::cmake::file_api::{
    codemodel_targets, input_path_spec, input_paths, is_current, latest_index, latest_index_spec,
    locate_object, locate_spec, names_a_target, reply_is_current, strictly_sorted, texts,
    validate_version, version_problem, CmakeFiles, Codemodel, Configuration, ReplyIndex,
    ReplyObject,
};
use crate::error::{Error, ErrorView, IoErrorKind, IoFailure};

verus! {

/// Why a JSON reply could not be decoded.
#[derive(Debug)]
pub struct JsonFailure {
    /// The kind of the I/O error that stopped decoding, if an I/O error did.
    pub io_kind: Option<IoErrorKind>,
    pub message: String,
}

/// What reading a JSON reply file gave.
#[derive(Debug)]
pub enum ReplyRead<T> {
    Parsed(T),
    /// The file could not be opened.
    Unreadable(IoFailure),
    /// The file could not be decoded; `interrupt_count` is the number of interrupts received
    /// when decoding stopped.
    Malformed { failure: JsonFailure, interrupt_count: usize },
}

/// The error for a reply that could not be read or decoded.
pub open spec fn reply_read_error<T>(path: Seq<char>, read: ReplyRead<T>) -> ErrorView {
    match read {
        ReplyRead::Malformed { failure, interrupt_count } => if failure.io_kind == Some(
            IoErrorKind::Interrupted,
        ) && interrupt_count > 0 {
            ErrorView::Interrupted
        } else {
            ErrorView::Json { path, message: failure.message@ }
        },
        ReplyRead::Unreadable(f) => ErrorView::Io {
            action: "read File API reply"@,
            path,
            source: f@,
        },
        ReplyRead::Parsed(_) => ErrorView::Interrupted,
    }
}

/// The value of a reply file, or the error for one that could not be read or decoded: decoding
/// that an interrupt stopped is an interruption.
pub fn reply_value<T>(path: &str, read: ReplyRead<T>) -> (result: Result<T, Error>)
    ensures
        read matches ReplyRead::Parsed(v) ==> result == Ok::<T, Error>(v),
        !(read is Parsed) ==> (result matches Err(e) && e@ == reply_read_error(path@, read)),
{
    match read {
        ReplyRead::Parsed(value) => Ok(value),
        ReplyRead::Unreadable(f) => Err(Error::io("read File API reply", String::from_str(path), f)),
        ReplyRead::Malformed { failure, interrupt_count } => {
            if failure.io_kind == Some(IoErrorKind::Interrupted) && interrupt_count > 0 {
                Err(Error::Interrupted)
            } else {
                Err(Error::Json { path: String::from_str(path), message: failure.message })
            }
        },
    }
}

/// Why the reply directory could not be listed.
#[derive(Debug)]
pub enum ListingFailure {
    /// The directory could not be opened.
    Open(IoFailure),
    /// An entry could not be read.
    Entry(IoFailure),
    /// Listing stopped at a cancellation checkpoint.
    Stopped(Error),
}

/// The error for a listing failure of `reply_dir`.
pub open spec fn listing_error(reply_dir: Seq<char>, failure: ListingFailure) -> ErrorView {
    match failure {
        ListingFailure::Open(f) => ErrorView::Io {
            action: "read File API reply directory"@,
            path: reply_dir,
            source: f@,
        },
        ListingFailure::Entry(f) => ErrorView::Io {
            action: "read File API reply entry"@,
            path: reply_dir,
            source: f@,
        },
        ListingFailure::Stopped(e) => e@,
    }
}

/// The error for a listing failure of `reply_dir`.
pub fn listing_failure_error(reply_dir: &str, failure: ListingFailure) -> (result: Error)
    ensures
        result@ == listing_error(reply_dir@, failure),
{
    match failure {
        ListingFailure::Open(f) => Error::io("read File API reply directory", String::from_str(reply_dir), f),
        ListingFailure::Entry(f) => Error::io("read File API reply entry", String::from_str(reply_dir), f),
        ListingFailure::Stopped(e) => e,
    }
}

/// How many times the reply is read before a missing file is reported: CMake may replace reply
/// files while they are read.
pub const MAX_READ_ATTEMPTS: usize = 3;

/// A codemodel without configurations names no target.
proof fn lemma_no_names(configurations: Seq<Configuration>, names: Seq<String>)
    requires
        configurations.len() == 0,
        forall|n: Seq<char>| texts(names).contains(n) <==> names_a_target(configurations, n),
    ensures
        names.len() == 0,
{
    if names.len() > 0 {
        let first = texts(names)[0];
        assert(texts(names).contains(first));
        assert(!names_a_target(configurations, first));
    }
}

/// Where a read of the latest reply stands.
#[derive(Debug)]
pub enum ReaderPhase {
    Listing,
    ReadingIndex { index_path: String },
    ReadingCodemodel { path: String },
    /// The targets of a codemodel with at least one configuration are known; as reading the
    /// configurations checks for cancellation, a checkpoint comes before they are reported.
    Checking { names: Vec<String> },
    /// A reply file went missing with `error`; the read starts again once other threads ran.
    Yielding { error: Error },
    Finished,
}

/// What the runner of a reply read must do next.
#[derive(Debug)]
pub enum ReaderAction {
    /// List the entry names of the reply directory, checking for cancellation before each entry.
    ListReplies,
    /// Read and decode the reply index at the path.
    ReadIndex(String),
    /// Read and decode the codemodel reply at the path.
    ReadCodemodel(String),
    /// Check for cancellation.
    Checkpoint,
    /// Give other threads a chance to run, before the reply is read again.
    Yield,
    /// The read is over.
    Finished(Result<Vec<String>, Error>),
}

/// What the runner of a reply read observed.
#[derive(Debug)]
pub enum ReaderEvent {
    Listed(Result<Vec<Option<String>>, ListingFailure>),
    IndexRead(ReplyRead<ReplyIndex>),
    CodemodelRead(ReplyRead<Codemodel>),
    Checkpointed(Result<(), Error>),
    Yielded,
}

/// A read of the target names from the latest File API reply, as a state machine.
#[derive(Debug)]
pub struct TargetReader {
    pub reply_dir: String,
    /// The number of earlier attempts that failed on a missing file.
    pub attempt: usize,
    pub phase: ReaderPhase,
}

/// Whether `error` ends a read after `attempt` earlier attempts, rather than starting another.
pub open spec fn ends_read(error: ErrorView, attempt: usize) -> bool {
    !(error matches ErrorView::Io { source, .. } && source.kind == IoErrorKind::NotFound
        && attempt + 1 < MAX_READ_ATTEMPTS)
}

impl TargetReader {
    pub open spec fn wf(self) -> bool {
        &&& self.attempt < MAX_READ_ATTEMPTS
        &&& self.phase matches ReaderPhase::Checking { names } ==> strictly_sorted(texts(names@))
    }

    pub open spec fn expects(self, event: ReaderEvent) -> bool {
        match (self.phase, event) {
            (ReaderPhase::Listing, ReaderEvent::Listed(_)) => true,
            (ReaderPhase::ReadingIndex { .. }, ReaderEvent::IndexRead(_)) => true,
            (ReaderPhase::ReadingCodemodel { .. }, ReaderEvent::CodemodelRead(_)) => true,
            (ReaderPhase::Checking { .. }, ReaderEvent::Checkpointed(_)) => true,
            (ReaderPhase::Yielding { .. }, ReaderEvent::Yielded) => true,
            _ => false,
        }
    }

    /// How the read goes on after `error`: another attempt when a reply file went missing and
    /// attempts are left, otherwise the end of the read with `error`.
    pub open spec fn after_failure(self, error: ErrorView, result: (Self, ReaderAction)) -> bool {
        if ends_read(error, self.attempt) {
            result.1 matches ReaderAction::Finished(Err(e)) && e@ == error && result.0.phase
                is Finished
        } else {
            result.1 == ReaderAction::Yield && (result.0.phase matches ReaderPhase::Yielding {
                error: e,
            } && e@ == error) && result.0.attempt == self.attempt + 1
        }
    }

    /// Start reading the latest reply in `reply_dir`.
    pub fn new(reply_dir: String) -> (result: (Self, ReaderAction))
        ensures
            result.0.wf(),
            result.0.reply_dir == reply_dir,
            result.0.attempt == 0,
            result.0.phase is Listing,
            result.1 == ReaderAction::ListReplies,
    {
        (TargetReader { reply_dir, attempt: 0, phase: ReaderPhase::Listing }, ReaderAction::ListReplies)
    }

    fn fail(reply_dir: String, attempt: usize, error: Error) -> (result: (Self, ReaderAction))
        requires
            attempt < MAX_READ_ATTEMPTS,
        ensures
            result.0.wf(),
            result.0.reply_dir == reply_dir,
            (TargetReader { reply_dir, attempt, phase: ReaderPhase::Listing }).after_failure(
                error@,
                result,
            ),
            result.1 == ReaderAction::Yield ==> result.0.attempt == attempt + 1,
            result.1 != ReaderAction::Yield ==> result.0.attempt == attempt,
    {
        if error.is_not_found() && attempt + 1 < MAX_READ_ATTEMPTS {
            (
                TargetReader { reply_dir, attempt: attempt + 1, phase: ReaderPhase::Yielding { error } },
                ReaderAction::Yield,
            )
        } else {
            (
                TargetReader { reply_dir, attempt, phase: ReaderPhase::Finished },
                ReaderAction::Finished(Err(error)),
            )
        }
    }

    /// What one step of the read does: the next state and action for an observed event.
    pub open spec fn transition(self, event: ReaderEvent, result: (Self, ReaderAction)) -> bool {
        &&& result.0.wf()
        &&& result.0.reply_dir == self.reply_dir
        // Only a new attempt counts as one.
        &&& result.1 == ReaderAction::Yield ==> result.0.attempt == self.attempt + 1
        &&& result.1 != ReaderAction::Yield ==> result.0.attempt == self.attempt
        &&& self.phase is Listing ==> match event {
            ReaderEvent::Listed(Ok(names)) => match latest_index_spec(self.reply_dir@, names@) {
                Ok(p) => result.1 matches ReaderAction::ReadIndex(path) && path@ == p
                    && result.0.phase == (ReaderPhase::ReadingIndex { index_path: path })
                    && result.0.attempt == self.attempt,
                Err(e) => self.after_failure(e, result),
            },
            ReaderEvent::Listed(Err(f)) => self.after_failure(
                listing_error(self.reply_dir@, f),
                result,
            ),
            _ => true,
        }
        &&& self.phase matches ReaderPhase::ReadingIndex { index_path } ==> match event {
            ReaderEvent::IndexRead(ReplyRead::Parsed(index)) => match locate_spec(
                index,
                index_path@,
                self.reply_dir@,
                ReplyObject::Codemodel,
            ) {
                Ok(p) => result.1 matches ReaderAction::ReadCodemodel(path) && path@ == p
                    && result.0.phase == (ReaderPhase::ReadingCodemodel { path })
                    && result.0.attempt == self.attempt,
                Err(e) => self.after_failure(e, result),
            },
            ReaderEvent::IndexRead(read) => self.after_failure(
                reply_read_error(index_path@, read),
                result,
            ),
            _ => true,
        }
        &&& self.phase matches ReaderPhase::ReadingCodemodel { path } ==> match event {
            ReaderEvent::CodemodelRead(ReplyRead::Parsed(codemodel)) => match version_problem(
                codemodel.kind@,
                codemodel.version,
                ReplyObject::Codemodel.spec_kind(),
                ReplyObject::Codemodel.spec_major(),
            ) {
                Some(reason) => self.after_failure(
                    ErrorView::FileApi { path: path@, reason },
                    result,
                ),
                // A codemodel without configurations has no targets, and reading it checks
                // nothing.
                None => if codemodel.configurations@.len() == 0 {
                    result.1 matches ReaderAction::Finished(Ok(names)) && names@.len() == 0
                        && result.0.phase is Finished && result.0.attempt == self.attempt
                } else {
                    result.1 == ReaderAction::Checkpoint && (result.0.phase matches
                        ReaderPhase::Checking { names } && forall|n: Seq<char>|
                        texts(names@).contains(n) <==> names_a_target(
                            codemodel.configurations@,
                            n,
                        ))
                },
            },
            ReaderEvent::CodemodelRead(read) => self.after_failure(
                reply_read_error(path@, read),
                result,
            ),
            _ => true,
        }
        &&& self.phase matches ReaderPhase::Checking { names } ==> match event {
            ReaderEvent::Checkpointed(Ok(())) => result.1 == ReaderAction::Finished(
                Ok(names),
            ),
            ReaderEvent::Checkpointed(Err(e)) => self.after_failure(e@, result),
            _ => true,
        }
        &&& self.phase is Yielding ==> result.1 == ReaderAction::ListReplies && result.0.phase
            is Listing && result.0.attempt == self.attempt
        &&& result.1 matches ReaderAction::Finished(Ok(names)) ==> strictly_sorted(
            texts(names@),
        )
    }

    /// Advance the read by one observed event.
    pub fn step(self, event: ReaderEvent) -> (result: (Self, ReaderAction))
        requires
            self.wf(),
            self.expects(event),
        ensures
            self.transition(event, result),
    {
        let TargetReader { reply_dir, attempt, phase } = self;
        match (phase, event) {
            (ReaderPhase::Listing, ReaderEvent::Listed(listed)) => match listed {
                Ok(names) => match latest_index(reply_dir.as_str(), &names) {
                    Ok(index_path) => (
                        TargetReader {
                            reply_dir,
                            attempt,
                            phase: ReaderPhase::ReadingIndex { index_path: index_path.clone() },
                        },
                        ReaderAction::ReadIndex(index_path),
                    ),
                    Err(error) => Self::fail(reply_dir, attempt, error),
                },
                Err(failure) => {
                    let error = listing_failure_error(reply_dir.as_str(), failure);
                    Self::fail(reply_dir, attempt, error)
                },
            },
            (ReaderPhase::ReadingIndex { index_path }, ReaderEvent::IndexRead(read)) => {
                match reply_value(index_path.as_str(), read) {
                    Ok(index) => match locate_object(
                        &index,
                        index_path.as_str(),
                        reply_dir.as_str(),
                        ReplyObject::Codemodel,
                    ) {
                        Ok(path) => (
                            TargetReader {
                                reply_dir,
                                attempt,
                                phase: ReaderPhase::ReadingCodemodel { path: path.clone() },
                            },
                            ReaderAction::ReadCodemodel(path),
                        ),
                        Err(error) => Self::fail(reply_dir, attempt, error),
                    },
                    Err(error) => Self::fail(reply_dir, attempt, error),
                }
            },
            (ReaderPhase::ReadingCodemodel { path }, ReaderEvent::CodemodelRead(read)) => {
                match reply_value(path.as_str(), read) {
                    Ok(codemodel) => match codemodel_targets(&codemodel, path.as_str()) {
                        Ok(names) => if codemodel.configurations.len() == 0 {
                            proof {
                                lemma_no_names(codemodel.configurations@, names@);
                            }
                            (
                                TargetReader { reply_dir, attempt, phase: ReaderPhase::Finished },
                                ReaderAction::Finished(Ok(names)),
                            )
                        } else {
                            (
                                TargetReader { reply_dir, attempt, phase: ReaderPhase::Checking { names } },
                                ReaderAction::Checkpoint,
                            )
                        },
                        Err(error) => Self::fail(reply_dir, attempt, error),
                    },
                    Err(error) => Self::fail(reply_dir, attempt, error),
                }
            },
            (ReaderPhase::Checking { names }, ReaderEvent::Checkpointed(checked)) => match checked {
                Ok(()) => (
                    TargetReader { reply_dir, attempt, phase: ReaderPhase::Finished },
                    ReaderAction::Finished(Ok(names)),
                ),
                Err(error) => Self::fail(reply_dir, attempt, error),
            },
            (ReaderPhase::Yielding { .. }, ReaderEvent::Yielded) => (
                TargetReader { reply_dir, attempt, phase: ReaderPhase::Listing },
                ReaderAction::ListReplies,
            ),
            _ => vstd::pervasive::unreached(),
        }
    }
}

/// A sequence of steps of a read from `start`: each step answers the action before it.
pub open spec fn read_trace(
    start: TargetReader,
    events: Seq<ReaderEvent>,
    steps: Seq<(TargetReader, ReaderAction)>,
) -> bool {
    &&& events.len() == steps.len()
    &&& forall|i: int|
        0 <= i < steps.len() ==> {
            let before = if i == 0 {
                start
            } else {
                steps[i - 1].0
            };
            before.expects(#[trigger] events[i]) && before.transition(events[i], steps[i])
        }
}

/// The number of retries among the first `n` steps of a read.
pub open spec fn retries(steps: Seq<(TargetReader, ReaderAction)>, n: int) -> nat
    decreases n,
{
    if n <= 0 {
        0
    } else {
        retries(steps, n - 1) + if steps[n - 1].1 == ReaderAction::Yield {
            1nat
        } else {
            0nat
        }
    }
}

/// The state of a read before step `i`.
pub open spec fn reader_before(
    start: TargetReader,
    steps: Seq<(TargetReader, ReaderAction)>,
    i: int,
) -> TargetReader {
    if i == 0 {
        start
    } else {
        steps[i - 1].0
    }
}

proof fn lemma_attempt_counts_retries(
    start: TargetReader,
    events: Seq<ReaderEvent>,
    steps: Seq<(TargetReader, ReaderAction)>,
    i: int,
)
    requires
        read_trace(start, events, steps),
        0 <= i < steps.len(),
    ensures
        steps[i].0.attempt == start.attempt + retries(steps, i + 1),
    decreases i,
{
    let before = reader_before(start, steps, i);
    assert(before.expects(events[i]) && before.transition(events[i], steps[i]));
    assert(retries(steps, 0) == 0);
    if i > 0 {
        lemma_attempt_counts_retries(start, events, steps, i - 1);
    }
}

/// The retry rule of a read over a whole run: the read is started again only after a reply file
/// went missing, and then from the listing of the reply directory; it is attempted at most
/// `MAX_READ_ATTEMPTS` times in all; and a missing file ends the read only once every attempt
/// has been used. Any other failure ends the read at once, with that failure.
pub proof fn lemma_read_retry_law(
    start: TargetReader,
    events: Seq<ReaderEvent>,
    steps: Seq<(TargetReader, ReaderAction)>,
)
    requires
        start.wf(),
        read_trace(start, events, steps),
    ensures
        forall|i: int|
            0 <= i < steps.len() ==> #[trigger] steps[i].0.attempt == start.attempt + retries(
                steps,
                i + 1,
            ) && start.attempt + retries(steps, i + 1) < MAX_READ_ATTEMPTS,
        forall|i: int|
            0 <= i < steps.len() && #[trigger] steps[i].1 == ReaderAction::Yield ==> (
            steps[i].0.phase matches ReaderPhase::Yielding { error } && error.is_not_found_spec()),
        forall|i: int|
            0 <= i < steps.len() - 1 && #[trigger] steps[i].1 == ReaderAction::Yield ==> (steps[i
                + 1].1 == ReaderAction::ListReplies && steps[i + 1].0.phase is Listing),
        forall|i: int|
            0 <= i < steps.len() && (#[trigger] steps[i].1 matches ReaderAction::Finished(Err(e))
                && e.is_not_found_spec()) ==> start.attempt + retries(steps, i + 1)
                == MAX_READ_ATTEMPTS - 1,
{
    assert forall|i: int| 0 <= i < steps.len() implies #[trigger] steps[i].0.attempt
        == start.attempt + retries(steps, i + 1) && start.attempt + retries(steps, i + 1)
        < MAX_READ_ATTEMPTS by {
        let before = reader_before(start, steps, i);
        assert(before.expects(events[i]) && before.transition(events[i], steps[i]));
        lemma_attempt_counts_retries(start, events, steps, i);
    }
    assert forall|i: int|
        0 <= i < steps.len() && #[trigger] steps[i].1 == ReaderAction::Yield implies (
        steps[i].0.phase matches ReaderPhase::Yielding { error } && error.is_not_found_spec()) by {
        let before = reader_before(start, steps, i);
        assert(before.expects(events[i]) && before.transition(events[i], steps[i]));
    }
    assert forall|i: int|
        0 <= i < steps.len() - 1 && #[trigger] steps[i].1 == ReaderAction::Yield implies (steps[i
            + 1].1 == ReaderAction::ListReplies && steps[i + 1].0.phase is Listing) by {
        let before = reader_before(start, steps, i);
        assert(before.expects(events[i]) && before.transition(events[i], steps[i]));
        assert(steps[i].0.expects(events[i + 1]) && steps[i].0.transition(events[i + 1], steps[i + 1]));
    }
    assert forall|i: int|
        0 <= i < steps.len() && (#[trigger] steps[i].1 matches ReaderAction::Finished(Err(e))
            && e.is_not_found_spec()) implies start.attempt + retries(steps, i + 1)
        == MAX_READ_ATTEMPTS - 1 by {
        let before = reader_before(start, steps, i);
        assert(before.expects(events[i]) && before.transition(events[i], steps[i]));
        lemma_attempt_counts_retries(start, events, steps, i);
        if i > 0 {
            lemma_attempt_counts_retries(start, events, steps, i - 1);
        }
        assert(retries(steps, 0) == 0);
    }
}

/// Where a check for a current reply stands.
#[derive(Debug)]
pub enum FreshPhase {
    Listing,
    ReadingIndex { index_path: String },
    ReadingCmakeFiles { index_path: String, codemodel_path: String, path: String },
    InspectingTimes { codemodel_path: String, inputs: usize },
    ReadingCodemodel { path: String },
    Checking { names: Vec<String> },
    Finished,
}

/// What the runner of a check for a current reply must do next.
#[derive(Debug)]
pub enum FreshAction {
    /// List the entry names of the reply directory, checking for cancellation before each entry.
    ListReplies,
    /// Read and decode the reply index at the path.
    ReadIndex(String),
    /// Read and decode the `cmakeFiles` reply at the path.
    ReadCmakeFiles(String),
    /// Read the modification times of the reply index and of the input files.
    InspectTimes { index: String, inputs: Vec<String> },
    /// Read and decode the codemodel reply at the path.
    ReadCodemodel(String),
    /// Check for cancellation.
    Checkpoint,
    /// The check is over: the targets of a current reply, `None` for a reply that is not
    /// current, or why the reply could not be used.
    Finished(Result<Option<Vec<String>>, Error>),
}

/// What the runner of a check for a current reply observed.
#[derive(Debug)]
pub enum FreshEvent {
    Listed(Result<Vec<Option<String>>, ListingFailure>),
    IndexRead(ReplyRead<ReplyIndex>),
    CmakeFilesRead(ReplyRead<CmakeFiles>),
    /// The modification times, in nanoseconds since the Unix epoch, in the order asked for.
    TimesInspected { index: Result<i128, IoFailure>, inputs: Vec<Result<i128, IoFailure>> },
    CodemodelRead(ReplyRead<Codemodel>),
    Checkpointed(Result<(), Error>),
}

/// A check whether the latest File API reply is current, so that its targets can be listed
/// without running CMake, as a state machine.
#[derive(Debug)]
pub struct FreshReader {
    pub reply_dir: String,
    pub phase: FreshPhase,
}

/// The end of a check with an error.
pub open spec fn fresh_failed(action: FreshAction, error: ErrorView) -> bool {
    action matches FreshAction::Finished(Err(e)) && e@ == error
}

impl FreshReader {
    pub open spec fn wf(self) -> bool {
        self.phase matches FreshPhase::Checking { names } ==> strictly_sorted(texts(names@))
    }

    pub open spec fn expects(self, event: FreshEvent) -> bool {
        match (self.phase, event) {
            (FreshPhase::Listing, FreshEvent::Listed(_)) => true,
            (FreshPhase::ReadingIndex { .. }, FreshEvent::IndexRead(_)) => true,
            (FreshPhase::ReadingCmakeFiles { .. }, FreshEvent::CmakeFilesRead(_)) => true,
            (FreshPhase::InspectingTimes { inputs, .. }, FreshEvent::TimesInspected {
                inputs: times,
                ..
            }) => times@.len() == inputs,
            (FreshPhase::ReadingCodemodel { .. }, FreshEvent::CodemodelRead(_)) => true,
            (FreshPhase::Checking { .. }, FreshEvent::Checkpointed(_)) => true,
            _ => false,
        }
    }

    /// Start checking the latest reply in `reply_dir`.
    pub fn new(reply_dir: String) -> (result: (Self, FreshAction))
        ensures
            result.0.wf(),
            result.0.reply_dir == reply_dir,
            result.0.phase is Listing,
            result.1 == FreshAction::ListReplies,
    {
        (FreshReader { reply_dir, phase: FreshPhase::Listing }, FreshAction::ListReplies)
    }

    fn fail(reply_dir: String, error: Error) -> (result: (Self, FreshAction))
        ensures
            result.0.wf(),
            result.0.reply_dir == reply_dir,
            result.0.phase is Finished,
            fresh_failed(result.1, error@),
    {
        (FreshReader { reply_dir, phase: FreshPhase::Finished }, FreshAction::Finished(Err(error)))
    }

    /// What one step of the check does: the next state and action for an observed event.
    pub open spec fn transition(self, event: FreshEvent, result: (Self, FreshAction)) -> bool {
        &&& result.0.wf()
        &&& result.0.reply_dir == self.reply_dir
        &&& self.phase is Listing ==> match event {
            FreshEvent::Listed(Ok(names)) => match latest_index_spec(self.reply_dir@, names@) {
                Ok(p) => result.1 matches FreshAction::ReadIndex(path) && path@ == p
                    && result.0.phase == (FreshPhase::ReadingIndex { index_path: path }),
                Err(e) => fresh_failed(result.1, e),
            },
            FreshEvent::Listed(Err(f)) => fresh_failed(
                result.1,
                listing_error(self.reply_dir@, f),
            ),
            _ => true,
        }
        // The reply is used only if it answers both queries.
        &&& self.phase matches FreshPhase::ReadingIndex { index_path } ==> match event {
            FreshEvent::IndexRead(ReplyRead::Parsed(index)) => match (
                locate_spec(index, index_path@, self.reply_dir@, ReplyObject::Codemodel),
                locate_spec(index, index_path@, self.reply_dir@, ReplyObject::CmakeFiles),
            ) {
                (Ok(codemodel), Ok(cmake_files)) => result.1 matches FreshAction::ReadCmakeFiles(
                    path,
                ) && path@ == cmake_files && (result.0.phase matches FreshPhase::ReadingCmakeFiles {
                    index_path: ip,
                    codemodel_path,
                    path: p,
                } && ip == index_path && codemodel_path@ == codemodel && p == path),
                (Err(e), _) => fresh_failed(result.1, e),
                (Ok(_), Err(e)) => fresh_failed(result.1, e),
            },
            FreshEvent::IndexRead(read) => fresh_failed(
                result.1,
                reply_read_error(index_path@, read),
            ),
            _ => true,
        }
        // Projects with `CONFIGURE_DEPENDS` globs are regenerated conservatively.
        &&& self.phase matches FreshPhase::ReadingCmakeFiles { index_path, codemodel_path, path }
            ==> match event {
            FreshEvent::CmakeFilesRead(ReplyRead::Parsed(files)) => match version_problem(
                files.kind@,
                files.version,
                ReplyObject::CmakeFiles.spec_kind(),
                ReplyObject::CmakeFiles.spec_major(),
            ) {
                Some(reason) => fresh_failed(
                    result.1,
                    ErrorView::FileApi { path: path@, reason },
                ),
                None => if files.globs_dependent > 0 {
                    result.1 == FreshAction::Finished(Ok(None))
                } else {
                    result.1 matches FreshAction::InspectTimes { index, inputs } && index
                        == index_path && inputs@.len() == files.inputs@.len() && (forall|i: int|
                        0 <= i < inputs@.len() ==> #[trigger] inputs@[i]@ == input_path_spec(
                            files.source_dir@,
                            files.inputs@[i].path@,
                        )) && result.0.phase == (FreshPhase::InspectingTimes {
                        codemodel_path,
                        inputs: inputs@.len() as usize,
                    })
                },
            },
            FreshEvent::CmakeFilesRead(read) => fresh_failed(
                result.1,
                reply_read_error(path@, read),
            ),
            _ => true,
        }
        &&& self.phase matches FreshPhase::InspectingTimes { codemodel_path, .. } ==> match event {
            FreshEvent::TimesInspected { index, inputs } => if is_current(0, index, inputs@) {
                result.1 == FreshAction::ReadCodemodel(codemodel_path) && result.0.phase == (
                FreshPhase::ReadingCodemodel { path: codemodel_path })
            } else {
                result.1 == FreshAction::Finished(Ok(None))
            },
            _ => true,
        }
        &&& self.phase matches FreshPhase::ReadingCodemodel { path } ==> match event {
            FreshEvent::CodemodelRead(ReplyRead::Parsed(codemodel)) => match version_problem(
                codemodel.kind@,
                codemodel.version,
                ReplyObject::Codemodel.spec_kind(),
                ReplyObject::Codemodel.spec_major(),
            ) {
                Some(reason) => fresh_failed(
                    result.1,
                    ErrorView::FileApi { path: path@, reason },
                ),
                // A codemodel without configurations has no targets, and reading it checks
                // nothing.
                None => if codemodel.configurations@.len() == 0 {
                    result.1 matches FreshAction::Finished(Ok(Some(names))) && names@.len() == 0
                } else {
                    result.1 == FreshAction::Checkpoint && (result.0.phase matches
                        FreshPhase::Checking { names } && forall|n: Seq<char>|
                        texts(names@).contains(n) <==> names_a_target(
                            codemodel.configurations@,
                            n,
                        ))
                },
            },
            FreshEvent::CodemodelRead(read) => fresh_failed(
                result.1,
                reply_read_error(path@, read),
            ),
            _ => true,
        }
        &&& self.phase matches FreshPhase::Checking { names } ==> match event {
            FreshEvent::Checkpointed(Ok(())) => result.1 == FreshAction::Finished(
                Ok(Some(names)),
            ),
            FreshEvent::Checkpointed(Err(e)) => fresh_failed(result.1, e@),
            _ => true,
        }
        &&& result.1 is Finished ==> result.0.phase is Finished
        &&& result.1 matches FreshAction::Finished(Ok(Some(names))) ==> strictly_sorted(
            texts(names@),
        )
    }

    /// Advance the check by one observed event.
    pub fn step(self, event: FreshEvent) -> (result: (Self, FreshAction))
        requires
            self.wf(),
            self.expects(event),
        ensures
            self.transition(event, result),
    {
        let FreshReader { reply_dir, phase } = self;
        match (phase, event) {
            (FreshPhase::Listing, FreshEvent::Listed(listed)) => match listed {
                Ok(names) => match latest_index(reply_dir.as_str(), &names) {
                    Ok(index_path) => (
                        FreshReader {
                            reply_dir,
                            phase: FreshPhase::ReadingIndex { index_path: index_path.clone() },
                        },
                        FreshAction::ReadIndex(index_path),
                    ),
                    Err(error) => Self::fail(reply_dir, error),
                },
                Err(failure) => {
                    let error = listing_failure_error(reply_dir.as_str(), failure);
                    Self::fail(reply_dir, error)
                },
            },
            (FreshPhase::ReadingIndex { index_path }, FreshEvent::IndexRead(read)) => {
                let index = match reply_value(index_path.as_str(), read) {
                    Ok(index) => index,
                    Err(error) => return Self::fail(reply_dir, error),
                };
                let codemodel_path = match locate_object(
                    &index,
                    index_path.as_str(),
                    reply_dir.as_str(),
                    ReplyObject::Codemodel,
                ) {
                    Ok(path) => path,
                    Err(error) => return Self::fail(reply_dir, error),
                };
                let path = match locate_object(
                    &index,
                    index_path.as_str(),
                    reply_dir.as_str(),
                    ReplyObject::CmakeFiles,
                ) {
                    Ok(path) => path,
                    Err(error) => return Self::fail(reply_dir, error),
                };
                (
                    FreshReader {
                        reply_dir,
                        phase: FreshPhase::ReadingCmakeFiles {
                            index_path,
                            codemodel_path,
                            path: path.clone(),
                        },
                    },
                    FreshAction::ReadCmakeFiles(path),
                )
            },
            (
                FreshPhase::ReadingCmakeFiles { index_path, codemodel_path, path },
                FreshEvent::CmakeFilesRead(read),
            ) => {
                let files = match reply_value(path.as_str(), read) {
                    Ok(files) => files,
                    Err(error) => return Self::fail(reply_dir, error),
                };
                match validate_version(
                    path.as_str(),
                    files.kind.as_str(),
                    &files.version,
                    ReplyObject::CmakeFiles.kind(),
                    ReplyObject::CmakeFiles.major(),
                ) {
                    Ok(()) => {},
                    Err(error) => return Self::fail(reply_dir, error),
                }
                if files.globs_dependent > 0 {
                    return (
                        FreshReader { reply_dir, phase: FreshPhase::Finished },
                        FreshAction::Finished(Ok(None)),
                    );
                }
                let inputs = input_paths(&files);
                let count = inputs.len();
                (
                    FreshReader {
                        reply_dir,
                        phase: FreshPhase::InspectingTimes { codemodel_path, inputs: count },
                    },
                    FreshAction::InspectTimes { index: index_path, inputs },
                )
            },
            (
                FreshPhase::InspectingTimes { codemodel_path, .. },
                FreshEvent::TimesInspected { index, inputs },
            ) => {
                if reply_is_current(0, &index, &inputs) {
                    (
                        FreshReader {
                            reply_dir,
                            phase: FreshPhase::ReadingCodemodel { path: codemodel_path.clone() },
                        },
                        FreshAction::ReadCodemodel(codemodel_path),
                    )
                } else {
                    (
                        FreshReader { reply_dir, phase: FreshPhase::Finished },
                        FreshAction::Finished(Ok(None)),
                    )
                }
            },
            (FreshPhase::ReadingCodemodel { path }, FreshEvent::CodemodelRead(read)) => {
                match reply_value(path.as_str(), read) {
                    Ok(codemodel) => match codemodel_targets(&codemodel, path.as_str()) {
                        Ok(names) => if codemodel.configurations.len() == 0 {
                            proof {
                                lemma_no_names(codemodel.configurations@, names@);
                            }
                            (
                                FreshReader { reply_dir, phase: FreshPhase::Finished },
                                FreshAction::Finished(Ok(Some(names))),
                            )
                        } else {
                            (
                                FreshReader { reply_dir, phase: FreshPhase::Checking { names } },
                                FreshAction::Checkpoint,
                            )
                        },
                        Err(error) => Self::fail(reply_dir, error),
                    },
                    Err(error) => Self::fail(reply_dir, error),
                }
            },
            (FreshPhase::Checking { names }, FreshEvent::Checkpointed(checked)) => match checked {
                Ok(()) => (
                    FreshReader { reply_dir, phase: FreshPhase::Finished },
                    FreshAction::Finished(Ok(Some(names))),
                ),
                Err(error) => Self::fail(reply_dir, error),
            },
            _ => vstd::pervasive::unreached(),
        }
    }
}

} // verus!
