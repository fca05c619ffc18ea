use cmake_ls::cancellation::Cancellation;
use cmake_ls::cmake::file_api::{codemodel_targets, insert_sorted, latest_index, resolve_reference, select_latest_index, validate_version, ClientQueries, CmakeFiles, CmakeInput, Codemodel, Configuration, QueryError, QueryResponse, ReplyIndex, ReplyQueries, ReplyReference, Target, Version, reply_is_current, input_paths};
use cmake_ls::cmake::reader::{JsonFailure, ReaderAction, ReaderEvent, ReplyRead, TargetReader, ListingFailure};
use cmake_ls::error::{Error, IoErrorKind, IoFailure};

fn codemodel(configurations: &[&[&str]]) -> Codemodel {
    Codemodel {
        kind: "codemodel".to_string(),
        version: Version { major: 2, minor: 9 },
        configurations: configurations
            .iter()
            .map(|targets| Configuration {
                targets: targets.iter().map(|name| Target { name: name.to_string() }).collect(),
            })
            .collect(),
    }
}

fn reference(json_file: &str) -> QueryResponse {
    QueryResponse::Reference(ReplyReference {
        kind: "codemodel".to_string(),
        version: Version { major: 2, minor: 9 },
        json_file: json_file.to_string(),
    })
}

fn index_with(codemodel: Option<QueryResponse>) -> ReplyIndex {
    ReplyIndex {
        reply: ReplyQueries {
            client: Some(ClientQueries { codemodel, cmake_files: None }),
        },
    }
}

fn not_found() -> IoFailure {
    IoFailure { kind: IoErrorKind::NotFound, message: "No such file or directory (os error 2)".to_string() }
}

/// Drive a reply read with the given codemodel and return its outcome.
fn read_targets_from(model: Codemodel) -> Result<Vec<String>, Error> {
    let (reader, action) = TargetReader::new("build/.cmake/api/v1/reply".to_string());
    assert!(matches!(action, ReaderAction::ListReplies));
    let (reader, action) =
        reader.step(ReaderEvent::Listed(Ok(vec![Some("index-test.json".to_string())])));
    match &action {
        ReaderAction::ReadIndex(path) => {
            assert_eq!(path, "build/.cmake/api/v1/reply/index-test.json")
        }
        other => panic!("unexpected action {other:?}"),
    }
    let (reader, action) = reader.step(ReaderEvent::IndexRead(ReplyRead::Parsed(index_with(
        Some(reference("codemodel-test.json")),
    ))));
    match &action {
        ReaderAction::ReadCodemodel(path) => {
            assert_eq!(path, "build/.cmake/api/v1/reply/codemodel-test.json")
        }
        other => panic!("unexpected action {other:?}"),
    }
    let (reader, action) = reader.step(ReaderEvent::CodemodelRead(ReplyRead::Parsed(model)));
    match action {
        ReaderAction::Checkpoint => {}
        ReaderAction::Finished(result) => return result,
        other => panic!("unexpected action {other:?}"),
    }
    match reader.step(ReaderEvent::Checkpointed(Ok(()))).1 {
        ReaderAction::Finished(result) => result,
        other => panic!("unexpected action {other:?}"),
    }
}

#[test]
fn accepts_codemodel_v2() {
    let result = validate_version(
        "codemodel.json",
        "codemodel",
        &Version { major: 2, minor: 9 },
        "codemodel",
        2,
    );

    assert!(result.is_ok());
}

#[test]
fn rejects_other_object_kinds() {
    let result = validate_version(
        "cache.json",
        "cache",
        &Version { major: 2, minor: 0 },
        "codemodel",
        2,
    );

    assert!(result.is_err());
}

#[test]
fn rejects_other_codemodel_versions() {
    let result = validate_version(
        "codemodel.json",
        "codemodel",
        &Version { major: 3, minor: 0 },
        "codemodel",
        2,
    );

    assert!(result.is_err());
}

#[test]
fn version_errors_name_what_was_found() {
    let kind = validate_version("cache.json", "cache", &Version { major: 2, minor: 0 }, "codemodel", 2)
        .unwrap_err();
    assert_eq!(
        kind.message(),
        "invalid CMake File API response in `cache.json`: expected object kind `codemodel`, found `cache`"
    );
    let version =
        validate_version("c.json", "codemodel", &Version { major: 30, minor: 107 }, "codemodel", 2)
            .unwrap_err();
    assert_eq!(
        version.message(),
        "invalid CMake File API response in `c.json`: expected codemodel major version 2, found 30.107"
    );
}

#[test]
fn confines_references_to_the_reply_directory() {
    let reply_dir = "/tmp/reply";

    assert!(resolve_reference(reply_dir, "codemodel.json").is_ok());
    assert!(resolve_reference(reply_dir, "nested/codemodel.json").is_ok());
    assert!(resolve_reference(reply_dir, "../codemodel.json").is_err());
    assert!(resolve_reference(reply_dir, "/tmp/codemodel.json").is_err());
    assert!(resolve_reference(reply_dir, "").is_err());
}

#[test]
fn resolves_references_below_the_reply_directory() {
    assert_eq!(
        resolve_reference("/tmp/reply", "nested/codemodel.json").unwrap(),
        "/tmp/reply/nested/codemodel.json"
    );
    assert_eq!(resolve_reference("/tmp/reply/", "a.json").unwrap(), "/tmp/reply/a.json");
    assert_eq!(resolve_reference("/tmp/reply", "a/./b.json").unwrap(), "/tmp/reply/a/./b.json");
    assert!(resolve_reference("/tmp/reply", "./a.json").is_err());
    assert!(resolve_reference("/tmp/reply", "a/../b.json").is_err());
    assert!(resolve_reference("/tmp/reply", "a/..").is_err());
    assert!(resolve_reference("/tmp/reply", "..a/b.json").is_ok());
    let error = resolve_reference("/tmp/reply", "../x").unwrap_err();
    assert_eq!(
        error.message(),
        "invalid CMake File API response in `/tmp/reply`: reply contains an unsafe JSON file reference `../x`"
    );
}

#[test]
fn picks_the_greatest_index_name() {
    let names = vec![
        Some("codemodel-v2-1.json".to_string()),
        Some("index-2024.json".to_string()),
        None,
        Some("index-2025.json".to_string()),
        Some("index-2025.txt".to_string()),
        Some("index.json".to_string()),
    ];
    assert_eq!(select_latest_index(&names), Some(3));
    assert_eq!(
        latest_index("r", &names).unwrap(),
        "r/index-2025.json"
    );
    let none = vec![Some("index.json".to_string()), None];
    assert_eq!(select_latest_index(&none), None);
    assert_eq!(
        latest_index("r", &none).unwrap_err().message(),
        "invalid CMake File API response in `r`: no reply index was produced; CMake 3.14 or newer is required"
    );
}

#[test]
fn orders_names_by_bytes() {
    let mut names = Vec::new();
    for name in ["b", "B", "é", "a", "b", "ab", ""] {
        insert_sorted(&mut names, name.to_string());
    }
    assert_eq!(names, ["", "B", "a", "ab", "b", "é"]);
}

#[test]
fn reads_sorts_and_deduplicates_targets_across_configurations() {
    let targets =
        read_targets_from(codemodel(&[&["zeta", "alpha"], &["alpha", "middle"]])).expect("read target names");
    let names: Vec<_> = targets.into_iter().collect();

    assert_eq!(names, ["alpha", "middle", "zeta"]);
}

#[test]
fn accepts_an_empty_target_list() {
    let targets = read_targets_from(codemodel(&[&[]])).expect("read target names");

    assert!(targets.is_empty());
}

#[test]
fn rejects_a_codemodel_of_another_version() {
    let mut model = codemodel(&[&["app"]]);
    model.version = Version { major: 1, minor: 0 };
    let error = read_targets_from(model).expect_err("reject version");
    assert!(error.message().contains("expected codemodel major version 2, found 1.0"));
}

#[test]
fn rejects_a_missing_client_response() {
    let (reader, _) = TargetReader::new("b/.cmake/api/v1/reply".to_string());
    let (reader, _) = reader.step(ReaderEvent::Listed(Ok(vec![Some("index-test.json".to_string())])));
    let (_, action) = reader.step(ReaderEvent::IndexRead(ReplyRead::Parsed(ReplyIndex {
        reply: ReplyQueries { client: None },
    })));

    let error = match action {
        ReaderAction::Finished(Err(error)) => error,
        other => panic!("unexpected action {other:?}"),
    };

    assert!(error.message().contains("client-cmake-ls"));
}

#[test]
fn reports_missing_and_rejected_codemodel_queries() {
    let (reader, _) = TargetReader::new("r".to_string());
    let (reader, _) = reader.step(ReaderEvent::Listed(Ok(vec![Some("index-a.json".to_string())])));
    let (_, action) = reader.step(ReaderEvent::IndexRead(ReplyRead::Parsed(index_with(None))));
    match action {
        ReaderAction::Finished(Err(error)) => assert_eq!(
            error.message(),
            "invalid CMake File API response in `r/index-a.json`: reply does not contain `codemodel-v2`"
        ),
        other => panic!("unexpected action {other:?}"),
    }
    let (reader, _) = TargetReader::new("r".to_string());
    let (reader, _) = reader.step(ReaderEvent::Listed(Ok(vec![Some("index-a.json".to_string())])));
    let (_, action) = reader.step(ReaderEvent::IndexRead(ReplyRead::Parsed(index_with(Some(
        QueryResponse::Error(QueryError { error: "unknown query".to_string() }),
    )))));
    match action {
        ReaderAction::Finished(Err(error)) => assert_eq!(
            error.message(),
            "invalid CMake File API response in `r/index-a.json`: CMake rejected the codemodel query: unknown query"
        ),
        other => panic!("unexpected action {other:?}"),
    }
}

#[test]
fn reports_malformed_json() {
    let (reader, _) = TargetReader::new("b/.cmake/api/v1/reply".to_string());
    let (reader, _) = reader.step(ReaderEvent::Listed(Ok(vec![Some("index-test.json".to_string())])));
    let (_, action) = reader.step(ReaderEvent::IndexRead(ReplyRead::Malformed {
        failure: JsonFailure {
            io_kind: None,
            message: "key must be a string at line 1 column 2".to_string(),
        },
        interrupt_count: 0,
    }));

    let error = match action {
        ReaderAction::Finished(Err(error)) => error,
        other => panic!("unexpected action {other:?}"),
    };

    assert!(error.message().contains("failed to parse"));
}

#[test]
fn interrupted_decoding_is_an_interruption() {
    let (reader, _) = TargetReader::new("r".to_string());
    let (reader, _) = reader.step(ReaderEvent::Listed(Ok(vec![Some("index-test.json".to_string())])));
    let (_, action) = reader.step(ReaderEvent::IndexRead(ReplyRead::Malformed {
        failure: JsonFailure {
            io_kind: Some(IoErrorKind::Interrupted),
            message: "operation interrupted".to_string(),
        },
        interrupt_count: 1,
    }));
    assert!(matches!(action, ReaderAction::Finished(Err(Error::Interrupted))));
}

#[test]
fn retries_a_vanished_reply_twice() {
    let (mut reader, _) = TargetReader::new("r".to_string());
    for attempt in 0..3 {
        let (next, action) = reader.step(ReaderEvent::Listed(Ok(vec![Some("index-x.json".to_string())])));
        let (next, action) = match action {
            ReaderAction::ReadIndex(_) => next.step(ReaderEvent::IndexRead(ReplyRead::Unreadable(not_found()))),
            other => panic!("unexpected action {other:?}"),
        };
        if attempt < 2 {
            assert!(matches!(action, ReaderAction::Yield));
            let (next, action) = next.step(ReaderEvent::Yielded);
            assert!(matches!(action, ReaderAction::ListReplies));
            reader = next;
        } else {
            match action {
                ReaderAction::Finished(Err(error)) => {
                    assert!(error.is_not_found());
                    assert_eq!(
                        error.message(),
                        "failed to read File API reply `r/index-x.json`: No such file or directory (os error 2)"
                    );
                }
                other => panic!("unexpected action {other:?}"),
            }
            return;
        }
    }
}

#[test]
fn does_not_retry_other_failures() {
    let (reader, _) = TargetReader::new("r".to_string());
    let (_, action) = reader.step(ReaderEvent::Listed(Err(ListingFailure::Open(IoFailure {
        kind: IoErrorKind::PermissionDenied,
        message: "Permission denied (os error 13)".to_string(),
    }))));
    match action {
        ReaderAction::Finished(Err(error)) => assert_eq!(
            error.message(),
            "failed to read File API reply directory `r`: Permission denied (os error 13)"
        ),
        other => panic!("unexpected action {other:?}"),
    }
}

#[test]
fn codemodel_targets_checks_the_kind() {
    let mut model = codemodel(&[&["a"]]);
    model.kind = "cache".to_string();
    assert!(codemodel_targets(&model, "c.json").is_err());
    let model = codemodel(&[&["b", "a"], &["c"]]);
    assert_eq!(codemodel_targets(&model, "c.json").unwrap(), ["a", "b", "c"]);
}

#[test]
fn current_replies_have_no_newer_inputs() {
    let ok = |t: i128| -> Result<i128, IoFailure> { Ok(t) };
    assert!(reply_is_current(0, &ok(10), &vec![ok(5), ok(10)]));
    assert!(!reply_is_current(0, &ok(10), &vec![ok(5), ok(11)]));
    assert!(!reply_is_current(1, &ok(10), &vec![ok(5)]));
    assert!(!reply_is_current(0, &ok(10), &vec![Err(not_found())]));
    assert!(!reply_is_current(0, &Err(not_found()), &vec![]));
    assert!(reply_is_current(0, &ok(-3), &vec![ok(-4)]));
}

#[test]
fn input_paths_are_relative_to_the_source_directory() {
    let files = CmakeFiles {
        kind: "cmakeFiles".to_string(),
        version: Version { major: 1, minor: 0 },
        source_dir: "/src/project".to_string(),
        inputs: vec![
            CmakeInput { path: "CMakeLists.txt".to_string() },
            CmakeInput { path: "/usr/share/cmake/Modules/CMakeCInformation.cmake".to_string() },
        ],
        globs_dependent: 0,
    };
    assert_eq!(
        input_paths(&files),
        ["/src/project/CMakeLists.txt", "/usr/share/cmake/Modules/CMakeCInformation.cmake"]
    );
}

#[test]
fn cancellation_checkpoints_reach_the_reader() {
    let cancellation = Cancellation::default();
    let (reader, _) = TargetReader::new("r".to_string());
    let (reader, _) = reader.step(ReaderEvent::Listed(Ok(vec![Some("index-test.json".to_string())])));
    let (reader, _) = reader.step(ReaderEvent::IndexRead(ReplyRead::Parsed(index_with(Some(reference("c.json"))))));
    let (reader, action) = reader.step(ReaderEvent::CodemodelRead(ReplyRead::Parsed(codemodel(&[&["x"]]))));
    assert!(matches!(action, ReaderAction::Checkpoint));
    cancellation.record_interrupt();
    let checked = cancellation.checkpoint(cmake_ls::cancellation::OutputProbe::NoEvents);
    let (_, action) = reader.step(ReaderEvent::Checkpointed(checked));
    assert!(matches!(action, ReaderAction::Finished(Err(Error::Interrupted))));
}

#[test]
fn a_codemodel_without_configurations_is_read_without_a_checkpoint() {
    let (reader, _) = TargetReader::new("r".to_string());
    let (reader, _) = reader.step(ReaderEvent::Listed(Ok(vec![Some("index-test.json".to_string())])));
    let (reader, _) = reader.step(ReaderEvent::IndexRead(ReplyRead::Parsed(index_with(Some(reference("c.json"))))));
    let (_, action) = reader.step(ReaderEvent::CodemodelRead(ReplyRead::Parsed(codemodel(&[]))));
    match action {
        ReaderAction::Finished(Ok(names)) => assert!(names.is_empty()),
        other => panic!("unexpected action {other:?}"),
    }

    let (reader, _) = TargetReader::new("r".to_string());
    let (reader, _) = reader.step(ReaderEvent::Listed(Ok(vec![Some("index-test.json".to_string())])));
    let (reader, _) = reader.step(ReaderEvent::IndexRead(ReplyRead::Parsed(index_with(Some(reference("c.json"))))));
    let (_, action) = reader.step(ReaderEvent::CodemodelRead(ReplyRead::Parsed(codemodel(&[&[]]))));
    assert!(matches!(action, ReaderAction::Checkpoint));
}
