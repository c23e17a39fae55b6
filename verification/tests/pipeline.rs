use libmanager::artifacts::{FileCopy, ToolchainConfig};
use libmanager::pipeline::{
    Action, Event, Pipeline, PipelineError, Progress, Stage, ToolchainResult,
};
use libmanager::request::{ArgumentFault, CompileRequest};

fn words(list: &[&str]) -> Vec<String> {
    list.iter().map(|w| w.to_string()).collect()
}

fn exited(succeeded: bool, stderr: &[u8]) -> Event {
    Event::Exited { result: ToolchainResult { succeeded, captured_stderr: stderr.to_vec() } }
}

fn listed(list: &[&str]) -> Event {
    Event::Listed { entries: words(list) }
}

fn failed(reason: &str) -> Event {
    Event::Failed { reason: reason.to_string() }
}

fn going(progress: Progress) -> (Pipeline, Action) {
    match progress {
        Progress::Next { pipeline, action } => (pipeline, action),
        other => panic!("the build ended: {:?}", other),
    }
}

fn stopped(progress: Progress) -> PipelineError {
    match progress {
        Progress::Aborted { error } => error,
        other => panic!("the build did not stop: {:?}", other),
    }
}

/// Feeds `events` to a build of `mathlib` and returns the pipeline that
/// waits for the next one, with the last action asked for.
fn mathlib_after(events: Vec<Event>) -> (Pipeline, Action) {
    let (mut pipeline, mut action) =
        going(Pipeline::begin(ToolchainConfig::default(), &words(&["compile", "mathlib"])));
    for event in events {
        let next = going(pipeline.step(event));
        pipeline = next.0;
        action = next.1;
    }
    (pipeline, action)
}

#[test]
fn begin_asks_for_the_source_listing() {
    let (pipeline, action) = mathlib_after(vec![]);
    assert_eq!(pipeline.stage(), Stage::Listing);
    assert_eq!(action, Action::ListDirectory { path: "mathlib".to_string() });
}

#[test]
fn open_asks_for_the_source_listing() {
    let request = CompileRequest {
        source_directory: "vendor/zlib".to_string(),
        extra_include_paths: words(&["/p"]),
    };
    let (pipeline, action) = going(Pipeline::open(ToolchainConfig::default(), request));
    assert_eq!(pipeline.stage(), Stage::Listing);
    assert_eq!(action, Action::ListDirectory { path: "vendor/zlib".to_string() });
}

#[test]
fn mathlib_build_takes_every_step() {
    let (pipeline, action) = mathlib_after(vec![]);
    assert_eq!(action, Action::ListDirectory { path: "mathlib".to_string() });

    let (pipeline, action) = going(pipeline.step(listed(&["add.c", "sub.c", "mathlib.h"])));
    assert_eq!(pipeline.stage(), Stage::Compiling);
    assert_eq!(
        action,
        Action::RunProcess {
            program: "gcc".to_string(),
            arguments: words(&["-c", "mathlib/add.c", "mathlib/sub.c"]),
        }
    );

    let (pipeline, action) = going(pipeline.step(exited(true, b"")));
    assert_eq!(pipeline.stage(), Stage::Archiving);
    assert_eq!(
        action,
        Action::RunProcess {
            program: "ar".to_string(),
            arguments: words(&["cr", "mathlib.a", "add.o", "sub.o"]),
        }
    );

    let (pipeline, action) = going(pipeline.step(exited(true, b"")));
    assert_eq!(pipeline.stage(), Stage::Sweeping);
    assert_eq!(action, Action::ListDirectory { path: ".".to_string() });

    let (pipeline, action) =
        going(pipeline.step(listed(&["add.o", "mathlib", "sub.o", "mathlib.a", "lib"])));
    assert_eq!(pipeline.stage(), Stage::Removing);
    assert_eq!(action, Action::RemoveFiles { paths: words(&["add.o", "sub.o"]) });

    let (pipeline, action) = going(pipeline.step(Event::Completed));
    assert_eq!(pipeline.stage(), Stage::Relocating);
    assert_eq!(
        action,
        Action::MoveFile { from: "mathlib.a".to_string(), to: "lib/mathlib.a".to_string() }
    );

    let (pipeline, action) = going(pipeline.step(Event::Completed));
    assert_eq!(pipeline.stage(), Stage::Preparing);
    assert_eq!(action, Action::EnsureDirectory { path: "include/mathlib".to_string() });

    let (pipeline, action) = going(pipeline.step(Event::Completed));
    assert_eq!(pipeline.stage(), Stage::Copying);
    assert_eq!(
        action,
        Action::CopyFiles {
            copies: vec![FileCopy {
                from: "mathlib/mathlib.h".to_string(),
                to: "include/mathlib/mathlib.h".to_string(),
            }],
        }
    );

    assert_eq!(pipeline.step(Event::Completed), Progress::Finished);
}

#[test]
fn build_with_search_paths_and_other_tools() {
    let config = ToolchainConfig {
        compiler: "clang".to_string(),
        archiver: "llvm-ar".to_string(),
        library_directory: "out".to_string(),
        include_root: "pub".to_string(),
    };
    let (pipeline, action) =
        going(Pipeline::begin(config, &words(&["c", "-hb", "ssl/3", "net.d"])));
    assert_eq!(action, Action::ListDirectory { path: "net.d".to_string() });
    let (pipeline, action) = going(pipeline.step(listed(&["tcp.c", "tcp.h", "notes.txt"])));
    assert_eq!(
        action,
        Action::RunProcess {
            program: "clang".to_string(),
            arguments: words(&["-c", "net.d/tcp.c", "-I", "/opt/homebrew/Cellar/ssl/3"]),
        }
    );
    let (pipeline, action) = going(pipeline.step(exited(true, b"warning")));
    assert_eq!(
        action,
        Action::RunProcess {
            program: "llvm-ar".to_string(),
            arguments: words(&["cr", "net.a", "tcp.o"]),
        }
    );
    let (pipeline, _) = going(pipeline.step(exited(true, b"")));
    let (pipeline, action) = going(pipeline.step(listed(&[])));
    assert_eq!(action, Action::RemoveFiles { paths: vec![] });
    let (pipeline, action) = going(pipeline.step(Event::Completed));
    assert_eq!(action, Action::MoveFile { from: "net.a".to_string(), to: "out/net.a".to_string() });
    let (pipeline, action) = going(pipeline.step(Event::Completed));
    assert_eq!(action, Action::EnsureDirectory { path: "pub/net.d".to_string() });
    let (_, action) = going(pipeline.step(Event::Completed));
    assert_eq!(
        action,
        Action::CopyFiles {
            copies: vec![FileCopy {
                from: "net.d/tcp.h".to_string(),
                to: "pub/net.d/tcp.h".to_string()
            }],
        }
    );
}

/// Feeds `events` to a build of `directory`, every one of which must
/// let the build go on, and returns the actions asked for.
fn actions_for(directory: &str, events: Vec<Event>) -> Vec<Action> {
    let (mut pipeline, action) =
        going(Pipeline::begin(ToolchainConfig::default(), &words(&["compile", directory])));
    let mut actions = vec![action];
    for event in events {
        let next = going(pipeline.step(event));
        pipeline = next.0;
        actions.push(next.1);
    }
    actions
}

fn full_success(entries: &[&str]) -> Vec<Event> {
    vec![
        listed(entries),
        exited(true, b""),
        exited(true, b""),
        listed(&[]),
        Event::Completed,
        Event::Completed,
        Event::Completed,
    ]
}

#[test]
fn directory_given_as_a_path_builds_into_the_layout() {
    for directory in ["./m", "m/", "/abs/m", "vendor/m"] {
        let actions = actions_for(directory, full_success(&["foo.bar.c", "m.h"]));
        let under = |name: &str| {
            std::path::Path::new(directory).join(name).to_str().unwrap().to_string()
        };
        assert_eq!(actions[0], Action::ListDirectory { path: directory.to_string() });
        assert_eq!(
            actions[1],
            Action::RunProcess {
                program: "gcc".to_string(),
                arguments: vec!["-c".to_string(), under("foo.bar.c")],
            }
        );
        assert_eq!(
            actions[2],
            Action::RunProcess {
                program: "ar".to_string(),
                arguments: words(&["cr", "m.a", "foo.bar.o"]),
            }
        );
        assert_eq!(
            actions[5],
            Action::MoveFile { from: "m.a".to_string(), to: "lib/m.a".to_string() }
        );
        assert_eq!(actions[6], Action::EnsureDirectory { path: "include/m".to_string() });
        assert_eq!(
            actions[7],
            Action::CopyFiles {
                copies: vec![FileCopy { from: under("m.h"), to: "include/m/m.h".to_string() }],
            }
        );
    }
}

#[test]
fn source_with_two_dots_keeps_its_inner_name() {
    let actions = actions_for("d", full_success(&["foo.bar.c", "crc.tab.c"]));
    assert_eq!(
        actions[2],
        Action::RunProcess {
            program: "ar".to_string(),
            arguments: words(&["cr", "d.a", "foo.bar.o", "crc.tab.o"]),
        }
    );
}

#[test]
fn directory_without_sources_still_runs_both_tools() {
    let (_, action) = mathlib_after(vec![listed(&["mathlib.h", "README"])]);
    assert_eq!(
        action,
        Action::RunProcess { program: "gcc".to_string(), arguments: words(&["-c"]) }
    );
    let (_, action) = mathlib_after(vec![listed(&["mathlib.h", "README"]), exited(true, b"")]);
    assert_eq!(
        action,
        Action::RunProcess { program: "ar".to_string(), arguments: words(&["cr", "mathlib.a"]) }
    );
}

#[test]
fn second_directory_stops_before_any_action() {
    let progress = Pipeline::begin(ToolchainConfig::default(), &words(&["compile", "dirA", "dirB"]));
    assert_eq!(
        progress,
        Progress::Aborted {
            error: PipelineError::InvalidArguments {
                fault: ArgumentFault::DuplicateDirectory {
                    first: "dirA".to_string(),
                    second: "dirB".to_string(),
                },
            },
        }
    );
}

#[test]
fn missing_directory_stops_before_any_action() {
    let error = stopped(Pipeline::begin(ToolchainConfig::default(), &words(&["compile"])));
    assert_eq!(error, PipelineError::InvalidArguments { fault: ArgumentFault::MissingDirectory });
}

#[test]
fn unreadable_source_directory_stops_the_build() {
    let (pipeline, _) = mathlib_after(vec![]);
    assert_eq!(
        stopped(pipeline.step(failed("No such file or directory"))),
        PipelineError::DirectoryUnreadable {
            path: "mathlib".to_string(),
            reason: "No such file or directory".to_string(),
        }
    );
}

#[test]
fn answer_of_another_kind_counts_as_failure() {
    let (pipeline, _) = mathlib_after(vec![]);
    assert_eq!(
        stopped(pipeline.step(Event::Completed)),
        PipelineError::DirectoryUnreadable { path: "mathlib".to_string(), reason: String::new() }
    );
    let (pipeline, _) = mathlib_after(vec![listed(&["a.c"])]);
    assert_eq!(
        stopped(pipeline.step(listed(&["a.o"]))),
        PipelineError::ToolchainSpawnFailure { program: "gcc".to_string(), reason: String::new() }
    );
}

#[test]
fn failed_compile_stops_with_the_compilers_words() {
    let (pipeline, _) = mathlib_after(vec![listed(&["add.c", "sub.c", "mathlib.h"])]);
    assert_eq!(
        stopped(pipeline.step(exited(false, b"add.c:1: error: expected ';'\n"))),
        PipelineError::ToolchainExecutionFailure {
            program: "gcc".to_string(),
            stderr: b"add.c:1: error: expected ';'\n".to_vec(),
        }
    );
}

#[test]
fn compiler_that_cannot_start_stops_the_build() {
    let (pipeline, _) = mathlib_after(vec![listed(&["add.c"])]);
    assert_eq!(
        stopped(pipeline.step(failed("gcc: not found"))),
        PipelineError::ToolchainSpawnFailure {
            program: "gcc".to_string(),
            reason: "gcc: not found".to_string(),
        }
    );
}

#[test]
fn failed_archive_stops_with_the_archivers_words() {
    let (pipeline, _) = mathlib_after(vec![listed(&["add.c"]), exited(true, b"")]);
    assert_eq!(
        stopped(pipeline.step(exited(false, b"ar: add.o: No such file\n"))),
        PipelineError::ToolchainExecutionFailure {
            program: "ar".to_string(),
            stderr: b"ar: add.o: No such file\n".to_vec(),
        }
    );
}

#[test]
fn archiver_that_cannot_start_stops_the_build() {
    let (pipeline, _) = mathlib_after(vec![listed(&["add.c"]), exited(true, b"")]);
    assert_eq!(
        stopped(pipeline.step(failed("ar: not found"))),
        PipelineError::ToolchainSpawnFailure {
            program: "ar".to_string(),
            reason: "ar: not found".to_string(),
        }
    );
}

#[test]
fn unreadable_working_directory_stops_the_build() {
    let (pipeline, _) = mathlib_after(vec![listed(&["add.c"]), exited(true, b""), exited(true, b"")]);
    assert_eq!(
        stopped(pipeline.step(failed("Permission denied"))),
        PipelineError::DirectoryUnreadable {
            path: ".".to_string(),
            reason: "Permission denied".to_string(),
        }
    );
}

#[test]
fn cleanup_takes_only_object_files() {
    let (_, action) = mathlib_after(vec![
        listed(&["add.c"]),
        exited(true, b""),
        exited(true, b""),
        listed(&["add.o", "add.obj", "o", ".o", "mathlib.a", "old.o", "x.o.bak"]),
    ]);
    assert_eq!(action, Action::RemoveFiles { paths: words(&["add.o", ".o", "old.o"]) });
}

#[test]
fn failed_removal_does_not_stop_the_build() {
    let (pipeline, _) = mathlib_after(vec![
        listed(&["add.c"]),
        exited(true, b""),
        exited(true, b""),
        listed(&["add.o"]),
    ]);
    let (pipeline, action) = going(pipeline.step(failed("add.o: busy")));
    assert_eq!(pipeline.stage(), Stage::Relocating);
    assert_eq!(
        action,
        Action::MoveFile { from: "mathlib.a".to_string(), to: "lib/mathlib.a".to_string() }
    );
}

#[test]
fn failed_move_stops_the_build() {
    let (pipeline, _) = mathlib_after(vec![
        listed(&["add.c"]),
        exited(true, b""),
        exited(true, b""),
        listed(&[]),
        Event::Completed,
    ]);
    assert_eq!(
        stopped(pipeline.step(failed("lib: No such file or directory"))),
        PipelineError::ArtifactPlacementFailure {
            path: "lib/mathlib.a".to_string(),
            reason: "lib: No such file or directory".to_string(),
        }
    );
}

#[test]
fn failed_directory_creation_stops_the_build() {
    let (pipeline, _) = mathlib_after(vec![
        listed(&["add.c"]),
        exited(true, b""),
        exited(true, b""),
        listed(&[]),
        Event::Completed,
        Event::Completed,
    ]);
    assert_eq!(
        stopped(pipeline.step(failed("read-only file system"))),
        PipelineError::ArtifactPlacementFailure {
            path: "include/mathlib".to_string(),
            reason: "read-only file system".to_string(),
        }
    );
}

#[test]
fn failed_header_copy_does_not_stop_the_build() {
    let (pipeline, _) = mathlib_after(vec![
        listed(&["add.c", "mathlib.h"]),
        exited(true, b""),
        exited(true, b""),
        listed(&[]),
        Event::Completed,
        Event::Completed,
        Event::Completed,
    ]);
    assert_eq!(pipeline.stage(), Stage::Copying);
    assert_eq!(pipeline.step(failed("cp: cannot create")), Progress::Finished);
}

#[test]
fn build_without_headers_copies_nothing() {
    let (_, action) = mathlib_after(vec![
        listed(&["add.c"]),
        exited(true, b""),
        exited(true, b""),
        listed(&["add.o"]),
        Event::Completed,
        Event::Completed,
        Event::Completed,
    ]);
    assert_eq!(action, Action::CopyFiles { copies: vec![] });
}

#[test]
fn one_copy_for_each_header() {
    let (_, action) = mathlib_after(vec![
        listed(&["a.h", "add.c", "b.h", "c.h", "d.txt"]),
        exited(true, b""),
        exited(true, b""),
        listed(&[]),
        Event::Completed,
        Event::Completed,
        Event::Completed,
    ]);
    match action {
        Action::CopyFiles { copies } => {
            assert_eq!(copies.len(), 3);
            assert_eq!(copies[0].from, "mathlib/a.h");
            assert_eq!(copies[0].to, "include/mathlib/a.h");
            assert_eq!(copies[2].from, "mathlib/c.h");
            assert_eq!(copies[2].to, "include/mathlib/c.h");
        },
        other => panic!("unexpected action {:?}", other),
    }
}

#[test]
fn only_a_header_copy_failure_is_not_fatal() {
    let text = |s: &str| s.to_string();
    assert!(PipelineError::InvalidArguments { fault: ArgumentFault::MissingCommand }.is_fatal());
    assert!(PipelineError::DirectoryUnreadable { path: text("d"), reason: text("r") }.is_fatal());
    assert!(PipelineError::ToolchainSpawnFailure { program: text("gcc"), reason: text("r") }
        .is_fatal());
    assert!(PipelineError::ToolchainExecutionFailure { program: text("gcc"), stderr: vec![] }
        .is_fatal());
    assert!(PipelineError::ArtifactPlacementFailure { path: text("lib/x.a"), reason: text("r") }
        .is_fatal());
    assert!(!PipelineError::HeaderCopyFailure { header: text("d/x.h"), reason: text("r") }
        .is_fatal());
}
