use cmake_ls::cmake::file_api::{ClientQueries, CmakeFiles, CmakeInput, Codemodel, Configuration, QueryResponse, ReplyIndex, ReplyQueries, ReplyReference, Target, Version};
use cmake_ls::cmake::process::{ExitState, RunAction, RunEvent};
use cmake_ls::cmake::reader::{
    FreshAction, FreshEvent, FreshReader, JsonFailure, ReaderAction, ReaderEvent, ReplyRead,
};
use cmake_ls::cmake::{BuildTree, FileKind, QueryAction, QueryEvent};
use cmake_ls::error::{Error, IoErrorKind, IoFailure};

fn reference(kind: &str, major: u64, json_file: &str) -> QueryResponse {
    QueryResponse::Reference(ReplyReference {
        kind: kind.to_string(),
        version: Version { major, minor: 0 },
        json_file: json_file.to_string(),
    })
}

fn full_index() -> ReplyIndex {
    ReplyIndex {
        reply: ReplyQueries {
            client: Some(ClientQueries {
                codemodel: Some(reference("codemodel", 2, "codemodel-v2-a.json")),
                cmake_files: Some(reference("cmakeFiles", 1, "cmakeFiles-v1-b.json")),
            }),
        },
    }
}

fn cmake_files(globs: usize) -> CmakeFiles {
    CmakeFiles {
        kind: "cmakeFiles".to_string(),
        version: Version { major: 1, minor: 1 },
        source_dir: "/src".to_string(),
        inputs: vec![CmakeInput { path: "CMakeLists.txt".to_string() }],
        globs_dependent: globs,
    }
}

fn codemodel() -> Codemodel {
    Codemodel {
        kind: "codemodel".to_string(),
        version: Version { major: 2, minor: 3 },
        configurations: vec![Configuration {
            targets: vec![Target { name: "core".to_string() }, Target { name: "app".to_string() }],
        }],
    }
}

/// The build tree that a scripted query sees.
struct World {
    /// Modification time of the project's input file; the reply index was written at time 100.
    input_time: i128,
    /// `CONFIGURE_DEPENDS` globs that the build system checks.
    globs: usize,
    /// Whether the reply index answers the `cmakeFiles-v1` query.
    answers_cmake_files: bool,
    /// Whether decoding the reply index is stopped by an interrupt.
    interrupted: bool,
    /// Whether CMake can be started.
    cmake_on_path: bool,
}

impl World {
    fn current() -> Self {
        World { input_time: 90, globs: 0, answers_cmake_files: true, interrupted: false, cmake_on_path: true }
    }

    fn index(&self) -> ReplyRead<ReplyIndex> {
        if self.interrupted {
            return ReplyRead::Malformed {
                failure: JsonFailure { io_kind: Some(IoErrorKind::Interrupted), message: "operation interrupted".to_string() },
                interrupt_count: 1,
            };
        }
        let mut index = full_index();
        if !self.answers_cmake_files {
            if let Some(client) = index.reply.client.as_mut() {
                client.cmake_files = None;
            }
        }
        ReplyRead::Parsed(index)
    }
}

/// Run a whole query against a scripted build tree; return what was done and the result.
fn run_query(refresh: bool, world: &World) -> (Vec<String>, Result<Vec<String>, Error>) {
    let (mut query, mut action) = BuildTree::new("b".to_string()).targets(refresh);
    let mut log = Vec::new();
    loop {
        let event = match action {
            QueryAction::Inspect(path) => {
                log.push(format!("inspect {path}"));
                QueryEvent::Inspected(Ok(if path == "b" { FileKind::Directory } else { FileKind::File }))
            }
            QueryAction::CreateDirectory(_) | QueryAction::CreateFile(_) => QueryEvent::Created(Ok(())),
            QueryAction::Checkpoint => QueryEvent::Checkpointed(Ok(())),
            QueryAction::Fresh(action) => {
                log.push("fresh".to_string());
                QueryEvent::Fresh(match action {
                    FreshAction::ListReplies => FreshEvent::Listed(Ok(vec![Some("index-1.json".to_string())])),
                    FreshAction::ReadIndex(path) => {
                        assert_eq!(path, "b/.cmake/api/v1/reply/index-1.json");
                        FreshEvent::IndexRead(world.index())
                    }
                    FreshAction::ReadCmakeFiles(path) => {
                        assert_eq!(path, "b/.cmake/api/v1/reply/cmakeFiles-v1-b.json");
                        FreshEvent::CmakeFilesRead(ReplyRead::Parsed(cmake_files(world.globs)))
                    }
                    FreshAction::InspectTimes { index, inputs } => {
                        assert_eq!(index, "b/.cmake/api/v1/reply/index-1.json");
                        assert_eq!(inputs, ["/src/CMakeLists.txt"]);
                        FreshEvent::TimesInspected { index: Ok(100), inputs: vec![Ok(world.input_time)] }
                    }
                    FreshAction::ReadCodemodel(path) => {
                        assert_eq!(path, "b/.cmake/api/v1/reply/codemodel-v2-a.json");
                        FreshEvent::CodemodelRead(ReplyRead::Parsed(codemodel()))
                    }
                    FreshAction::Checkpoint => FreshEvent::Checkpointed(Ok(())),
                    FreshAction::Finished(_) => panic!("the query ends a check itself"),
                })
            }
            QueryAction::Run(action) => QueryEvent::Run(match action {
                RunAction::CreateCapture(_) => RunEvent::CaptureCreated(Ok(())),
                RunAction::Spawn => {
                    log.push("spawn".to_string());
                    if world.cmake_on_path {
                        RunEvent::Spawned(Ok(()))
                    } else {
                        RunEvent::Spawned(Err(IoFailure {
                            kind: IoErrorKind::NotFound,
                            message: "No such file or directory (os error 2)".to_string(),
                        }))
                    }
                }
                RunAction::CheckOutput => RunEvent::OutputChecked(Ok(())),
                RunAction::PollChild => RunEvent::ChildPolled(Ok(Some(ExitState {
                    success: true,
                    description: "exit status: 0".to_string(),
                }))),
                other => panic!("unexpected run action {other:?}"),
            }),
            QueryAction::Reader(action) => {
                log.push("read".to_string());
                QueryEvent::Reader(match action {
                    ReaderAction::ListReplies => ReaderEvent::Listed(Ok(vec![Some("index-1.json".to_string())])),
                    ReaderAction::ReadIndex(_) => ReaderEvent::IndexRead(ReplyRead::Parsed(full_index())),
                    ReaderAction::ReadCodemodel(_) => ReaderEvent::CodemodelRead(ReplyRead::Parsed(regenerated())),
                    ReaderAction::Checkpoint => ReaderEvent::Checkpointed(Ok(())),
                    other => panic!("unexpected read action {other:?}"),
                })
            }
            QueryAction::Finished(result) => return (log, result),
        };
        let (next, next_action) = query.step(event);
        query = next;
        action = next_action;
    }
}

fn regenerated() -> Codemodel {
    Codemodel {
        kind: "codemodel".to_string(),
        version: Version { major: 2, minor: 3 },
        configurations: vec![Configuration {
            targets: vec![Target { name: "regenerated".to_string() }],
        }],
    }
}

#[test]
fn reuses_a_current_file_api_reply_without_running_cmake() {
    let (log, result) = run_query(false, &World::current());

    assert_eq!(result.unwrap(), ["app", "core"]);
    assert!(!log.contains(&"spawn".to_string()));
}

#[test]
fn regenerates_when_an_input_is_newer() {
    let world = World { input_time: 101, ..World::current() };
    let (log, result) = run_query(false, &world);
    assert!(log.contains(&"spawn".to_string()));
    assert_eq!(log.last().unwrap(), "read");
    assert_eq!(result.unwrap(), ["regenerated"]);
}

#[test]
fn regenerates_projects_with_configure_depends_globs() {
    let world = World { globs: 2, ..World::current() };
    let (log, result) = run_query(false, &world);
    assert!(log.contains(&"spawn".to_string()));
    assert_eq!(result.unwrap(), ["regenerated"]);
}

#[test]
fn regenerates_when_the_reply_cannot_be_used() {
    let world = World { answers_cmake_files: false, ..World::current() };
    let (log, result) = run_query(false, &world);
    assert!(log.contains(&"spawn".to_string()));
    assert_eq!(result.unwrap(), ["regenerated"]);
}

#[test]
fn an_interrupted_fresh_read_ends_the_query() {
    let world = World { interrupted: true, ..World::current() };
    let (log, result) = run_query(false, &world);
    assert!(!log.contains(&"spawn".to_string()));
    assert!(matches!(result, Err(Error::Interrupted)));
}

#[test]
fn refresh_never_reuses_a_reply() {
    let (log, result) = run_query(true, &World::current());
    assert!(!log.contains(&"fresh".to_string()));
    assert_eq!(&log[..3], ["inspect b", "inspect b/CMakeCache.txt", "spawn"]);
    assert_eq!(result.unwrap(), ["regenerated"]);
}

#[test]
fn refresh_regenerates_even_when_the_file_api_reply_is_current() {
    assert!(run_query(false, &World { cmake_on_path: false, ..World::current() }).1.is_ok());

    let (log, result) = run_query(true, &World { cmake_on_path: false, ..World::current() });

    assert!(log.contains(&"spawn".to_string()));
    let error = result.unwrap_err();
    assert!(error.message().contains("failed to run `cmake`"));
    assert_eq!(error.message(), "failed to run `cmake` for `b`: No such file or directory (os error 2)");
}

#[test]
fn rejects_an_unconfigured_directory_without_creating_a_query() {
    let (query, action) = BuildTree::new("/tmp/unconfigured".to_string()).targets(false);
    assert!(matches!(&action, QueryAction::Inspect(path) if path == "/tmp/unconfigured"));
    let (query, action) = query.step(QueryEvent::Inspected(Ok(FileKind::Directory)));
    assert!(matches!(&action, QueryAction::Inspect(path) if path == "/tmp/unconfigured/CMakeCache.txt"));
    let (_, action) = query.step(QueryEvent::Inspected(Err(IoFailure {
        kind: IoErrorKind::NotFound,
        message: "No such file or directory (os error 2)".to_string(),
    })));

    let error = match action {
        QueryAction::Finished(Err(error)) => error,
        other => panic!("unexpected action {other:?}"),
    };
    assert!(error
        .message()
        .contains("CMakeCache.txt is missing; configure the build tree first"));
}

#[test]
fn rejects_files_and_unreadable_caches() {
    let (query, _) = BuildTree::new("f".to_string()).targets(false);
    match query.step(QueryEvent::Inspected(Ok(FileKind::File))).1 {
        QueryAction::Finished(Err(error)) => assert_eq!(
            error.message(),
            "invalid CMake build directory `f`: path is not a directory"
        ),
        other => panic!("unexpected action {other:?}"),
    }
    let (query, _) = BuildTree::new("d".to_string()).targets(false);
    let (query, _) = query.step(QueryEvent::Inspected(Ok(FileKind::Directory)));
    match query.step(QueryEvent::Inspected(Err(IoFailure {
        kind: IoErrorKind::PermissionDenied,
        message: "Permission denied (os error 13)".to_string(),
    })))
    .1
    {
        QueryAction::Finished(Err(error)) => assert_eq!(
            error.message(),
            "failed to inspect CMake cache `d/CMakeCache.txt`: Permission denied (os error 13)"
        ),
        other => panic!("unexpected action {other:?}"),
    }
    let (query, _) = BuildTree::new("d".to_string()).targets(false);
    let (query, _) = query.step(QueryEvent::Inspected(Ok(FileKind::Directory)));
    match query.step(QueryEvent::Inspected(Ok(FileKind::Directory))).1 {
        QueryAction::Finished(Err(error)) => assert_eq!(
            error.message(),
            "invalid CMake build directory `d`: CMakeCache.txt is not a regular file"
        ),
        other => panic!("unexpected action {other:?}"),
    }
}

#[test]
fn query_creation_failures_name_the_path() {
    let (query, _) = BuildTree::new("d".to_string()).targets(false);
    let (query, _) = query.step(QueryEvent::Inspected(Ok(FileKind::Directory)));
    let (query, action) = query.step(QueryEvent::Inspected(Ok(FileKind::File)));
    assert!(matches!(&action, QueryAction::CreateDirectory(p) if p == "d/.cmake/api/v1/query/client-cmake-ls"));
    let (query, action) = query.step(QueryEvent::Created(Ok(())));
    assert!(matches!(&action, QueryAction::CreateFile(p) if p == "d/.cmake/api/v1/query/client-cmake-ls/cmakeFiles-v1"));
    let (_, action) = query.step(QueryEvent::Created(Err(IoFailure {
        kind: IoErrorKind::PermissionDenied,
        message: "Permission denied (os error 13)".to_string(),
    })));
    match action {
        QueryAction::Finished(Err(error)) => assert_eq!(
            error.message(),
            "failed to write File API query `d/.cmake/api/v1/query/client-cmake-ls/cmakeFiles-v1`: Permission denied (os error 13)"
        ),
        other => panic!("unexpected action {other:?}"),
    }
    let tree = BuildTree::new("d".to_string());
    assert_eq!(tree.reply_dir(), "d/.cmake/api/v1/reply");
    assert_eq!(tree.query_path(1), "d/.cmake/api/v1/query/client-cmake-ls/codemodel-v2");
}

#[test]
fn fresh_reads_need_both_queries_answered() {
    let (reader, _) = FreshReader::new("r".to_string());
    let (reader, _) = reader.step(FreshEvent::Listed(Ok(vec![Some("index-1.json".to_string())])));
    let mut index = full_index();
    if let Some(client) = index.reply.client.as_mut() {
        client.cmake_files = None;
    }
    match reader.step(FreshEvent::IndexRead(ReplyRead::Parsed(index))).1 {
        FreshAction::Finished(Err(error)) => assert_eq!(
            error.message(),
            "invalid CMake File API response in `r/index-1.json`: reply does not contain `cmakeFiles-v1`"
        ),
        other => panic!("unexpected action {other:?}"),
    }
}
