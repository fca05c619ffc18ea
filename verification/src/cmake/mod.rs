//! Operations on a configured CMake build tree.

pub mod file_api;
pub mod process;
pub mod reader;

use vstd::prelude::*;
use vstd::string::StringExecFns;

use crate::error::{Error, ErrorView, IoErrorKind, IoFailure};
use crate::cmake::file_api::{strictly_sorted, texts};
use crate::cmake::process::{CmakeRun, OutputStream, RunAction, RunEvent, RunPhase};
use crate::cmake::reader::{
    FreshAction, FreshEvent, FreshReader, ReaderAction, ReaderEvent, TargetReader,
};
use crate::text::{join_path, join_spec};

verus! {

/// The file that marks a configured build tree.
pub open spec fn cache_file() -> Seq<char> {
    "CMakeCache.txt"@
}

/// The directory, relative to the build tree, of this client's File API queries.
pub open spec fn query_directory() -> Seq<char> {
    ".cmake/api/v1/query/client-cmake-ls"@
}

/// The directory, relative to the build tree, of File API replies.
pub open spec fn reply_directory() -> Seq<char> {
    ".cmake/api/v1/reply"@
}

/// The query files of this client, in the order they are created.
pub open spec fn query_file(i: int) -> Seq<char> {
    if i == 0 {
        "cmakeFiles-v1"@
    } else {
        "codemodel-v2"@
    }
}

/// The number of query files.
pub const QUERY_FILE_COUNT: usize = 2;

fn query_file_name(i: usize) -> (result: &'static str)
    ensures
        result@ == query_file(i as int),
{
    if i == 0 {
        "cmakeFiles-v1"
    } else {
        "codemodel-v2"
    }
}

/// What a filesystem entry is.
#[derive(Debug, Clone, Copy, PartialEq, Eq, Structural)]
pub enum FileKind {
    Directory,
    File,
    Other,
}

/// A handle to a CMake build tree.
#[derive(Debug)]
pub struct BuildTree {
    pub build_dir: String,
}

impl BuildTree {
    /// Create a handle for the build tree at `build_dir`.
    pub fn new(build_dir: String) -> (result: Self)
        ensures
            result.build_dir == build_dir,
    {
        BuildTree { build_dir }
    }

    /// The path of the CMake cache of the build tree.
    pub fn cache_path(&self) -> (result: String)
        ensures
            result@ == join_spec(self.build_dir@, cache_file()),
    {
        join_path(self.build_dir.as_str(), "CMakeCache.txt")
    }

    /// The directory of this client's File API queries.
    pub fn query_dir(&self) -> (result: String)
        ensures
            result@ == join_spec(self.build_dir@, query_directory()),
    {
        join_path(self.build_dir.as_str(), ".cmake/api/v1/query/client-cmake-ls")
    }

    /// The path of query file `i`.
    pub fn query_path(&self, i: usize) -> (result: String)
        requires
            i < QUERY_FILE_COUNT,
        ensures
            result@ == join_spec(join_spec(self.build_dir@, query_directory()), query_file(i as int)),
    {
        let dir = self.query_dir();
        join_path(dir.as_str(), query_file_name(i))
    }

    /// The directory of File API replies.
    pub fn reply_dir(&self) -> (result: String)
        ensures
            result@ == join_spec(self.build_dir@, reply_directory()),
    {
        join_path(self.build_dir.as_str(), ".cmake/api/v1/reply")
    }

    /// Query the build tree for its sorted, unique buildable target names: the first action of
    /// the query, which [`TargetsQuery::step`] continues. With `refresh`, CMake always
    /// regenerates the build tree; otherwise a current reply is reused.
    pub fn targets(&self, refresh: bool) -> (result: (TargetsQuery, QueryAction))
        ensures
            result.0.wf(),
            result.0.build_dir == self.build_dir,
            result.0.refresh == refresh,
            result.0.phase is InspectingBuildDir,
            result.1 == QueryAction::Inspect(self.build_dir),
    {
        (
            TargetsQuery {
                build_dir: self.build_dir.clone(),
                refresh,
                phase: QueryPhase::InspectingBuildDir,
            },
            QueryAction::Inspect(self.build_dir.clone()),
        )
    }
}

/// Where a query for the targets of a build tree stands.
#[derive(Debug)]
pub enum QueryPhase {
    InspectingBuildDir,
    InspectingCache,
    CreatingQueryDirectory,
    /// Creating query file `i`.
    CreatingQueryFile(usize),
    Checkpointing,
    /// Checking whether the latest reply is current.
    ReadingFresh(FreshReader),
    /// Running CMake on the build tree.
    Configuring(CmakeRun),
    /// Reading the targets of the latest reply.
    ReadingTargets(TargetReader),
    Finished,
}

/// What the runner of a query for targets must do next.
#[derive(Debug)]
pub enum QueryAction {
    /// Read what the filesystem entry at the path is, following symbolic links.
    Inspect(String),
    /// Create the directory at the path and its missing parents.
    CreateDirectory(String),
    /// Open the file at the path for writing, creating it if it is missing and keeping its
    /// contents.
    CreateFile(String),
    /// Check for cancellation.
    Checkpoint,
    /// An action of the check for a current reply.
    Fresh(FreshAction),
    /// An action of the CMake run.
    Run(RunAction),
    /// An action of the read of the latest reply.
    Reader(ReaderAction),
    /// The query is over.
    Finished(Result<Vec<String>, Error>),
}

/// What the runner of a query for targets observed.
#[derive(Debug)]
pub enum QueryEvent {
    Inspected(Result<FileKind, IoFailure>),
    Created(Result<(), IoFailure>),
    Checkpointed(Result<(), Error>),
    Fresh(FreshEvent),
    Run(RunEvent),
    Reader(ReaderEvent),
}

/// A query for the buildable targets of a build tree, as a state machine.
#[derive(Debug)]
pub struct TargetsQuery {
    pub build_dir: String,
    pub refresh: bool,
    pub phase: QueryPhase,
}

/// The end of a query with an error.
pub open spec fn query_failed(action: QueryAction, error: ErrorView) -> bool {
    action matches QueryAction::Finished(Err(e)) && e@ == error
}

impl TargetsQuery {
    pub open spec fn wf(self) -> bool {
        &&& self.phase matches QueryPhase::CreatingQueryFile(i) ==> i < QUERY_FILE_COUNT
        &&& self.phase matches QueryPhase::ReadingFresh(reader) ==> reader.wf() && !self.refresh
        &&& self.phase matches QueryPhase::Configuring(run) ==> run.wf()
        &&& self.phase matches QueryPhase::ReadingTargets(reader) ==> reader.wf()
    }

    pub open spec fn expects(self, event: QueryEvent) -> bool {
        match (self.phase, event) {
            (QueryPhase::InspectingBuildDir, QueryEvent::Inspected(_)) => true,
            (QueryPhase::InspectingCache, QueryEvent::Inspected(_)) => true,
            (QueryPhase::CreatingQueryDirectory, QueryEvent::Created(_)) => true,
            (QueryPhase::CreatingQueryFile(_), QueryEvent::Created(_)) => true,
            (QueryPhase::Checkpointing, QueryEvent::Checkpointed(_)) => true,
            (QueryPhase::ReadingFresh(reader), QueryEvent::Fresh(e)) => reader.expects(e),
            (QueryPhase::Configuring(run), QueryEvent::Run(e)) => run.expects(e),
            (QueryPhase::ReadingTargets(reader), QueryEvent::Reader(e)) => reader.expects(e),
            _ => false,
        }
    }

    /// The query runs CMake on its build tree, from the start.
    pub open spec fn starts_run(self, result: (Self, QueryAction)) -> bool {
        &&& result.1 == QueryAction::Run(RunAction::CreateCapture(OutputStream::Stdout))
        &&& result.0.phase matches QueryPhase::Configuring(run) && run.build_dir == self.build_dir
            && run.phase == RunPhase::CreatingCapture(OutputStream::Stdout)
            && run.interrupt_deadline is None && !run.force_killed
    }

    /// The query reads the targets of the latest reply, from the start.
    pub open spec fn starts_reading(self, result: (Self, QueryAction)) -> bool {
        &&& result.1 == QueryAction::Reader(ReaderAction::ListReplies)
        &&& result.0.phase matches QueryPhase::ReadingTargets(reader) && reader.reply_dir@
            == join_spec(self.build_dir@, reply_directory()) && reader.attempt == 0
            && reader.phase is Listing
    }

    /// The query checks whether the latest reply is current, from the start.
    pub open spec fn starts_fresh_check(self, result: (Self, QueryAction)) -> bool {
        &&& result.1 == QueryAction::Fresh(FreshAction::ListReplies)
        &&& result.0.phase matches QueryPhase::ReadingFresh(reader) && reader.reply_dir@
            == join_spec(self.build_dir@, reply_directory()) && reader.phase is Listing
    }

    /// What one step of the query does: the next state and action for an observed event.
    pub open spec fn transition(self, event: QueryEvent, result: (Self, QueryAction)) -> bool {
        &&& result.0.wf()
        &&& result.0.build_dir == self.build_dir
        &&& result.0.refresh == self.refresh
        // Validating the build tree.
        &&& self.phase is InspectingBuildDir ==> match event {
            QueryEvent::Inspected(Ok(FileKind::Directory)) => (result.1 matches QueryAction::Inspect(
                path,
            ) && path@ == join_spec(self.build_dir@, cache_file()))
                && result.0.phase is InspectingCache,
            QueryEvent::Inspected(Ok(_)) => query_failed(
                result.1,
                ErrorView::InvalidBuildDirectory {
                    path: self.build_dir@,
                    reason: "path is not a directory"@,
                },
            ),
            QueryEvent::Inspected(Err(f)) => query_failed(
                result.1,
                ErrorView::Io {
                    action: "inspect build directory"@,
                    path: self.build_dir@,
                    source: f@,
                },
            ),
            _ => true,
        }
        &&& self.phase is InspectingCache ==> match event {
            QueryEvent::Inspected(Ok(FileKind::File)) => (result.1 matches QueryAction::CreateDirectory(
                path,
            ) && path@ == join_spec(self.build_dir@, query_directory()))
                && result.0.phase is CreatingQueryDirectory,
            QueryEvent::Inspected(Ok(_)) => query_failed(
                result.1,
                ErrorView::InvalidBuildDirectory {
                    path: self.build_dir@,
                    reason: "CMakeCache.txt is not a regular file"@,
                },
            ),
            QueryEvent::Inspected(Err(f)) => if f.kind == IoErrorKind::NotFound {
                query_failed(
                    result.1,
                    ErrorView::InvalidBuildDirectory {
                        path: self.build_dir@,
                        reason: "CMakeCache.txt is missing; configure the build tree first"@,
                    },
                )
            } else {
                query_failed(
                    result.1,
                    ErrorView::Io {
                        action: "inspect CMake cache"@,
                        path: join_spec(self.build_dir@, cache_file()),
                        source: f@,
                    },
                )
            },
            _ => true,
        }
        // Installing the client's queries.
        &&& self.phase is CreatingQueryDirectory ==> match event {
            QueryEvent::Created(Ok(())) => (result.1 matches QueryAction::CreateFile(path)
                && path@ == join_spec(join_spec(self.build_dir@, query_directory()), query_file(0)))
                && result.0.phase == QueryPhase::CreatingQueryFile(0),
            QueryEvent::Created(Err(f)) => query_failed(
                result.1,
                ErrorView::Io {
                    action: "create File API query directory"@,
                    path: join_spec(self.build_dir@, query_directory()),
                    source: f@,
                },
            ),
            _ => true,
        }
        &&& self.phase matches QueryPhase::CreatingQueryFile(i) ==> match event {
            QueryEvent::Created(Ok(())) => if i + 1 < QUERY_FILE_COUNT {
                (result.1 matches QueryAction::CreateFile(path) && path@ == join_spec(
                    join_spec(self.build_dir@, query_directory()),
                    query_file(i + 1),
                )) && result.0.phase == QueryPhase::CreatingQueryFile((i + 1) as usize)
            } else {
                result.1 == QueryAction::Checkpoint && result.0.phase is Checkpointing
            },
            QueryEvent::Created(Err(f)) => query_failed(
                result.1,
                ErrorView::Io {
                    action: "write File API query"@,
                    path: join_spec(join_spec(self.build_dir@, query_directory()), query_file(i as int)),
                    source: f@,
                },
            ),
            _ => true,
        }
        // Choosing between a current reply and a regeneration.
        &&& self.phase is Checkpointing ==> match event {
            QueryEvent::Checkpointed(Ok(())) => if self.refresh {
                self.starts_run(result)
            } else {
                self.starts_fresh_check(result)
            },
            QueryEvent::Checkpointed(Err(e)) => result.1 == QueryAction::Finished(Err(e)),
            _ => true,
        }
        &&& self.phase matches QueryPhase::ReadingFresh(reader) ==> match event {
            QueryEvent::Fresh(e) => exists|next: (FreshReader, FreshAction)|
                #[trigger] reader.transition(e, next) && match next.1 {
                    // A current reply is reused without running CMake.
                    FreshAction::Finished(Ok(Some(names))) => result.1 == QueryAction::Finished(
                        Ok(names),
                    ),
                    // An interruption ends the query.
                    FreshAction::Finished(Err(Error::Interrupted)) => result.1
                        == QueryAction::Finished(Err(Error::Interrupted)),
                    // Any other outcome regenerates the build tree.
                    FreshAction::Finished(_) => self.starts_run(result),
                    _ => result.1 == QueryAction::Fresh(next.1) && result.0.phase
                        == QueryPhase::ReadingFresh(next.0),
                },
            _ => true,
        }
        &&& self.phase matches QueryPhase::Configuring(run) ==> match event {
            QueryEvent::Run(e) => exists|next: (CmakeRun, RunAction)|
                #[trigger] run.transition(e, next) && match next.1 {
                    RunAction::Finished(Ok(())) => self.starts_reading(result),
                    RunAction::Finished(Err(x)) => result.1 == QueryAction::Finished(Err(x)),
                    _ => result.1 == QueryAction::Run(next.1) && result.0.phase
                        == QueryPhase::Configuring(next.0),
                },
            _ => true,
        }
        &&& self.phase matches QueryPhase::ReadingTargets(reader) ==> match event {
            QueryEvent::Reader(e) => exists|next: (TargetReader, ReaderAction)|
                #[trigger] reader.transition(e, next) && match next.1 {
                    ReaderAction::Finished(r) => result.1 == QueryAction::Finished(r),
                    _ => result.1 == QueryAction::Reader(next.1) && result.0.phase
                        == QueryPhase::ReadingTargets(next.0),
                },
            _ => true,
        }
        // With `refresh`, a reply is never reused.
        &&& self.refresh ==> !(result.1 is Fresh)
        // The targets are sorted, each listed once.
        &&& result.1 matches QueryAction::Finished(Ok(names)) ==> strictly_sorted(texts(names@))
        &&& result.1 is Finished ==> result.0.phase is Finished
    }

    fn finish(build_dir: String, refresh: bool, result: Result<Vec<String>, Error>) -> (next: (
        Self,
        QueryAction,
    ))
        ensures
            next.0.wf(),
            next.0.build_dir == build_dir,
            next.0.refresh == refresh,
            next.0.phase is Finished,
            next.1 == QueryAction::Finished(result),
    {
        (TargetsQuery { build_dir, refresh, phase: QueryPhase::Finished }, QueryAction::Finished(result))
    }

    fn start_run(build_dir: String, refresh: bool) -> (next: (Self, QueryAction))
        ensures
            next.0.build_dir == build_dir,
            next.0.refresh == refresh,
            next.0.wf(),
            (TargetsQuery { build_dir, refresh, phase: QueryPhase::Checkpointing }).starts_run(next),
    {
        let (run, action) = CmakeRun::new(build_dir.clone());
        (TargetsQuery { build_dir, refresh, phase: QueryPhase::Configuring(run) }, QueryAction::Run(action))
    }

    /// Advance the query by one observed event.
    pub fn step(self, event: QueryEvent) -> (result: (Self, QueryAction))
        requires
            self.wf(),
            self.expects(event),
        ensures
            self.transition(event, result),
    {
        let TargetsQuery { build_dir, refresh, phase } = self;
        let tree = BuildTree { build_dir };
        match (phase, event) {
            (QueryPhase::InspectingBuildDir, QueryEvent::Inspected(inspected)) => match inspected {
                Ok(FileKind::Directory) => {
                    let cache = tree.cache_path();
                    (
                        TargetsQuery {
                            build_dir: tree.build_dir,
                            refresh,
                            phase: QueryPhase::InspectingCache,
                        },
                        QueryAction::Inspect(cache),
                    )
                },
                Ok(_) => {
                    let error = Error::InvalidBuildDirectory {
                        path: tree.build_dir.clone(),
                        reason: String::from_str("path is not a directory"),
                    };
                    Self::finish(tree.build_dir, refresh, Err(error))
                },
                Err(f) => {
                    let error = Error::io("inspect build directory", tree.build_dir.clone(), f);
                    Self::finish(tree.build_dir, refresh, Err(error))
                },
            },
            (QueryPhase::InspectingCache, QueryEvent::Inspected(inspected)) => match inspected {
                Ok(FileKind::File) => {
                    let dir = tree.query_dir();
                    (
                        TargetsQuery {
                            build_dir: tree.build_dir,
                            refresh,
                            phase: QueryPhase::CreatingQueryDirectory,
                        },
                        QueryAction::CreateDirectory(dir),
                    )
                },
                Ok(_) => {
                    let error = Error::InvalidBuildDirectory {
                        path: tree.build_dir.clone(),
                        reason: String::from_str("CMakeCache.txt is not a regular file"),
                    };
                    Self::finish(tree.build_dir, refresh, Err(error))
                },
                Err(f) => {
                    let error = if f.kind == IoErrorKind::NotFound {
                        Error::InvalidBuildDirectory {
                            path: tree.build_dir.clone(),
                            reason: String::from_str(
                                "CMakeCache.txt is missing; configure the build tree first",
                            ),
                        }
                    } else {
                        Error::io("inspect CMake cache", tree.cache_path(), f)
                    };
                    Self::finish(tree.build_dir, refresh, Err(error))
                },
            },
            (QueryPhase::CreatingQueryDirectory, QueryEvent::Created(created)) => match created {
                Ok(()) => {
                    let path = tree.query_path(0);
                    (
                        TargetsQuery {
                            build_dir: tree.build_dir,
                            refresh,
                            phase: QueryPhase::CreatingQueryFile(0),
                        },
                        QueryAction::CreateFile(path),
                    )
                },
                Err(f) => {
                    let error = Error::io("create File API query directory", tree.query_dir(), f);
                    Self::finish(tree.build_dir, refresh, Err(error))
                },
            },
            (QueryPhase::CreatingQueryFile(i), QueryEvent::Created(created)) => match created {
                Ok(()) => {
                    if i + 1 < QUERY_FILE_COUNT {
                        let path = tree.query_path(i + 1);
                        (
                            TargetsQuery {
                                build_dir: tree.build_dir,
                                refresh,
                                phase: QueryPhase::CreatingQueryFile(i + 1),
                            },
                            QueryAction::CreateFile(path),
                        )
                    } else {
                        (
                            TargetsQuery {
                                build_dir: tree.build_dir,
                                refresh,
                                phase: QueryPhase::Checkpointing,
                            },
                            QueryAction::Checkpoint,
                        )
                    }
                },
                Err(f) => {
                    let error = Error::io("write File API query", tree.query_path(i), f);
                    Self::finish(tree.build_dir, refresh, Err(error))
                },
            },
            (QueryPhase::Checkpointing, QueryEvent::Checkpointed(checked)) => match checked {
                Ok(()) => {
                    if refresh {
                        Self::start_run(tree.build_dir, refresh)
                    } else {
                        let (reader, action) = FreshReader::new(tree.reply_dir());
                        (
                            TargetsQuery {
                                build_dir: tree.build_dir,
                                refresh,
                                phase: QueryPhase::ReadingFresh(reader),
                            },
                            QueryAction::Fresh(action),
                        )
                    }
                },
                Err(error) => Self::finish(tree.build_dir, refresh, Err(error)),
            },
            (QueryPhase::ReadingFresh(reader), QueryEvent::Fresh(e)) => {
                let next = reader.step(e);
                let (reader, action) = next;
                match action {
                    FreshAction::Finished(Ok(Some(names))) => Self::finish(
                        tree.build_dir,
                        refresh,
                        Ok(names),
                    ),
                    FreshAction::Finished(Err(Error::Interrupted)) => Self::finish(
                        tree.build_dir,
                        refresh,
                        Err(Error::Interrupted),
                    ),
                    FreshAction::Finished(_) => Self::start_run(tree.build_dir, refresh),
                    action => (
                        TargetsQuery {
                            build_dir: tree.build_dir,
                            refresh,
                            phase: QueryPhase::ReadingFresh(reader),
                        },
                        QueryAction::Fresh(action),
                    ),
                }
            },
            (QueryPhase::Configuring(run), QueryEvent::Run(e)) => {
                let next = run.step(e);
                let (run, action) = next;
                match action {
                    RunAction::Finished(Ok(())) => {
                        let (reader, action) = TargetReader::new(tree.reply_dir());
                        (
                            TargetsQuery {
                                build_dir: tree.build_dir,
                                refresh,
                                phase: QueryPhase::ReadingTargets(reader),
                            },
                            QueryAction::Reader(action),
                        )
                    },
                    RunAction::Finished(Err(error)) => Self::finish(
                        tree.build_dir,
                        refresh,
                        Err(error),
                    ),
                    action => (
                        TargetsQuery {
                            build_dir: tree.build_dir,
                            refresh,
                            phase: QueryPhase::Configuring(run),
                        },
                        QueryAction::Run(action),
                    ),
                }
            },
            (QueryPhase::ReadingTargets(reader), QueryEvent::Reader(e)) => {
                let next = reader.step(e);
                let (reader, action) = next;
                match action {
                    ReaderAction::Finished(result) => Self::finish(tree.build_dir, refresh, result),
                    action => (
                        TargetsQuery {
                            build_dir: tree.build_dir,
                            refresh,
                            phase: QueryPhase::ReadingTargets(reader),
                        },
                        QueryAction::Reader(action),
                    ),
                }
            },
            _ => vstd::pervasive::unreached(),
        }
    }
}

} // verus!
