//! Whole runs of a build: the actions that a sequence of reports leads
//! to, and what holds of them.

use vstd::prelude::*;
use crate::artifacts::{
    archive_destination, archive_line, archive_name, compile_line, header_copies, planned,
    search_flags, ConfigView, CopyView,
};
use crate::names::{base_name, ends_with, joined, last_segment, with_extension};
use crate::pipeline::{
    advance, opened, reason_given, started, working_directory, ActionView, ErrorView, EventView,
    PipelineView, ProgressView, Stage,
};
use crate::request::{
    is_compile_command, is_directory_token, law_second_directory_refused, parsed,
};
use crate::sources::{discovered, ending_with, lemma_ending_with_exact};

verus! {

/// A run: the actions asked for, in order, and where the build stands
/// after the last report.
pub struct RunView {
    pub actions: Seq<ActionView>,
    pub end: ProgressView,
}

/// The run that `events` lead to from `progress`. Each event answers the
/// action that is pending; events that come after the build has ended are
/// not looked at.
pub open spec fn continued(progress: ProgressView, events: Seq<EventView>) -> RunView
    decreases events.len(),
{
    match progress {
        ProgressView::Next { pipeline, action } => if events.len() == 0 {
            RunView { actions: seq![action], end: progress }
        } else {
            let rest = continued(advance(pipeline, events[0]), events.drop_first());
            RunView { actions: seq![action] + rest.actions, end: rest.end }
        },
        _ => RunView { actions: Seq::empty(), end: progress },
    }
}

/// The run of a build begun from a command line.
pub open spec fn run(config: ConfigView, tokens: Seq<Seq<char>>, events: Seq<EventView>) -> RunView {
    continued(started(config, tokens), events)
}

/// A command line that is turned down leads to no action at all: the
/// build ends at once with the fault.
pub proof fn law_refused_command_line_asks_nothing(
    config: ConfigView,
    tokens: Seq<Seq<char>>,
    events: Seq<EventView>,
)
    requires
        parsed(tokens) is Err,
    ensures
        run(config, tokens, events).actions == Seq::<ActionView>::empty(),
        run(config, tokens, events).end == (ProgressView::Aborted {
            error: ErrorView::InvalidArguments { fault: parsed(tokens)->Err_0 },
        }),
{
}

/// A second source directory on the command line of the compile command
/// ends the build before anything is listed, run, moved or copied.
pub proof fn law_second_directory_asks_nothing(
    config: ConfigView,
    tokens: Seq<Seq<char>>,
    i: int,
    j: int,
    events: Seq<EventView>,
)
    requires
        tokens.len() > 0,
        is_compile_command(tokens[0]),
        is_directory_token(tokens, i),
        is_directory_token(tokens, j),
        i < j,
    ensures
        run(config, tokens, events).actions == Seq::<ActionView>::empty(),
        run(config, tokens, events).end matches ProgressView::Aborted {
            error: ErrorView::InvalidArguments { fault },
        } && fault is DuplicateDirectory,
{
    law_second_directory_refused(tokens, i, j);
}

/// When the source directory cannot be listed, the listing is the only
/// action of the run: no program is started.
pub proof fn law_unreadable_directory_runs_nothing(
    config: ConfigView,
    tokens: Seq<Seq<char>>,
    events: Seq<EventView>,
)
    requires
        parsed(tokens) is Ok,
        events.len() > 0,
        !(events[0] is Listed),
    ensures
        run(config, tokens, events).actions == seq![
            ActionView::ListDirectory { path: parsed(tokens)->Ok_0.source_directory },
        ],
        run(config, tokens, events).end == (ProgressView::Aborted {
            error: ErrorView::DirectoryUnreadable {
                path: parsed(tokens)->Ok_0.source_directory,
                reason: reason_given(events[0]),
            },
        }),
{
    let request = parsed(tokens)->Ok_0;
    let first = opened(config, request);
    let second = advance(first->pipeline, events[0]);
    assert(continued(second, events.drop_first()).actions == Seq::<ActionView>::empty());
}

/// When the compiler does not report success, the run holds the listing
/// and the compiler's run and nothing else: the archiver is not started
/// and no file is removed, moved or copied. A compiler that ran and
/// failed ends the build with what it wrote to its error stream.
pub proof fn law_failed_compile_ends_run(
    config: ConfigView,
    tokens: Seq<Seq<char>>,
    events: Seq<EventView>,
)
    requires
        parsed(tokens) is Ok,
        events.len() > 1,
        events[0] is Listed,
        !(events[1] matches EventView::Exited { result } && result.succeeded),
    ensures
        run(config, tokens, events).actions == seq![
            ActionView::ListDirectory { path: parsed(tokens)->Ok_0.source_directory },
            ActionView::RunProcess {
                program: config.compiler,
                arguments: compile_line(
                    parsed(tokens)->Ok_0,
                    discovered(parsed(tokens)->Ok_0.source_directory, events[0]->entries),
                ),
            },
        ],
        run(config, tokens, events).end is Aborted,
        events[1] matches EventView::Exited { result } ==> run(config, tokens, events).end == (
        ProgressView::Aborted {
            error: ErrorView::ToolchainExecutionFailure {
                program: config.compiler,
                stderr: result.captured_stderr,
            },
        }),
        !(events[1] is Exited) ==> run(config, tokens, events).end == (ProgressView::Aborted {
            error: ErrorView::ToolchainSpawnFailure {
                program: config.compiler,
                reason: reason_given(events[1]),
            },
        }),
{
    let request = parsed(tokens)->Ok_0;
    let first = opened(config, request);
    let second = advance(first->pipeline, events[0]);
    let third = advance(second->pipeline, events[1]);
    let after_first = events.drop_first();
    let after_second = after_first.drop_first();
    assert(continued(third, after_second).actions == Seq::<ActionView>::empty());
    assert(continued(second, after_first).actions =~= seq![second->action]);
}

/// Whether `events` report the success of every step of a build: the two
/// listings, the two programs, the move of the archive and the making of
/// the headers' directory. What is reported of the removals and of the
/// copies does not matter.
pub open spec fn reports_success(events: Seq<EventView>) -> bool {
    &&& events.len() >= 8
    &&& events[0] is Listed
    &&& events[1] matches EventView::Exited { result } && result.succeeded
    &&& events[2] matches EventView::Exited { result } && result.succeeded
    &&& events[3] is Listed
    &&& events[5] is Completed
    &&& events[6] is Completed
}

/// The actions of a build in which every step succeeds, for the entries
/// `entries` of the source directory and `leftovers` of the working
/// directory.
pub open spec fn full_course(
    config: ConfigView,
    tokens: Seq<Seq<char>>,
    entries: Seq<Seq<char>>,
    leftovers: Seq<Seq<char>>,
) -> Seq<ActionView> {
    let request = parsed(tokens)->Ok_0;
    let sources = discovered(request.source_directory, entries);
    let plan = planned(config, request, sources);
    seq![
        ActionView::ListDirectory { path: request.source_directory },
        ActionView::RunProcess {
            program: config.compiler,
            arguments: compile_line(request, sources),
        },
        ActionView::RunProcess { program: config.archiver, arguments: archive_line(plan) },
        ActionView::ListDirectory { path: working_directory() },
        ActionView::RemoveFiles { paths: ending_with(leftovers, ".o"@) },
        ActionView::MoveFile {
            from: plan.archive_file_name,
            to: archive_destination(config, plan),
        },
        ActionView::EnsureDirectory { path: plan.include_destination_dir },
        ActionView::CopyFiles {
            copies: header_copies(plan.include_destination_dir, sources.header_files),
        },
    ]
}

/// A build in which every step succeeds takes the full course and
/// finishes: one compiler run, one archiver run, the removal of the
/// object files, one move of the archive into the library directory under
/// the source directory's own name with `.a`, and one copy for each `.h`
/// entry of the source directory, to its file name in the directory of
/// that name below the include root.
pub proof fn law_successful_run(config: ConfigView, tokens: Seq<Seq<char>>, events: Seq<EventView>)
    requires
        parsed(tokens) is Ok,
        reports_success(events),
    ensures
        run(config, tokens, events).end == ProgressView::Finished,
        run(config, tokens, events).actions == full_course(
            config,
            tokens,
            events[0]->entries,
            events[3]->entries,
        ),
        run(config, tokens, events).actions[5]->MoveFile_to == joined(
            config.library_directory,
            with_extension(base_name(parsed(tokens)->Ok_0.source_directory), ".a"@),
        ),
        run(config, tokens, events).actions[6]->EnsureDirectory_path == joined(
            config.include_root,
            base_name(parsed(tokens)->Ok_0.source_directory),
        ),
        run(config, tokens, events).actions[7]->copies.len() == ending_with(
            events[0]->entries,
            ".h"@,
        ).len(),
        forall|k: int|
            0 <= k < ending_with(events[0]->entries, ".h"@).len() ==> (
            #[trigger] run(config, tokens, events).actions[7]->copies[k]) == (CopyView {
                from: joined(
                    parsed(tokens)->Ok_0.source_directory,
                    ending_with(events[0]->entries, ".h"@)[k],
                ),
                to: joined(
                    joined(config.include_root, base_name(parsed(tokens)->Ok_0.source_directory)),
                    last_segment(
                        joined(
                            parsed(tokens)->Ok_0.source_directory,
                            ending_with(events[0]->entries, ".h"@)[k],
                        ),
                    ),
                ),
            }),
{
    let request = parsed(tokens)->Ok_0;
    let p0 = opened(config, request);
    let p1 = advance(p0->pipeline, events[0]);
    let p2 = advance(p1->pipeline, events[1]);
    let p3 = advance(p2->pipeline, events[2]);
    let p4 = advance(p3->pipeline, events[3]);
    let p5 = advance(p4->pipeline, events[4]);
    let p6 = advance(p5->pipeline, events[5]);
    let p7 = advance(p6->pipeline, events[6]);
    let p8 = advance(p7->pipeline, events[7]);
    let e1 = events.drop_first();
    let e2 = e1.drop_first();
    let e3 = e2.drop_first();
    let e4 = e3.drop_first();
    let e5 = e4.drop_first();
    let e6 = e5.drop_first();
    let e7 = e6.drop_first();
    let e8 = e7.drop_first();
    assert(continued(p8, e8).actions == Seq::<ActionView>::empty());
    assert(continued(p7, e7).actions =~= seq![p7->action]);
    assert(continued(p6, e6).actions =~= seq![p6->action, p7->action]);
    assert(continued(p5, e5).actions =~= seq![p5->action, p6->action, p7->action]);
    assert(continued(p4, e4).actions =~= seq![p4->action, p5->action, p6->action, p7->action]);
    assert(continued(p3, e3).actions =~= seq![
        p3->action,
        p4->action,
        p5->action,
        p6->action,
        p7->action,
    ]);
    assert(continued(p2, e2).actions =~= seq![
        p2->action,
        p3->action,
        p4->action,
        p5->action,
        p6->action,
        p7->action,
    ]);
    assert(continued(p1, e1).actions =~= seq![
        p1->action,
        p2->action,
        p3->action,
        p4->action,
        p5->action,
        p6->action,
        p7->action,
    ]);
}

/// The removal after a build names every entry of the working directory
/// that ends in `.o` and no other file, and the build goes on to move the
/// archive whatever is reported of the removal.
pub proof fn law_cleanup_takes_object_files(
    state: PipelineView,
    leftovers: Seq<Seq<char>>,
    report: EventView,
)
    requires
        state.stage == Stage::Sweeping,
    ensures
        advance(state, EventView::Listed { entries: leftovers }) matches ProgressView::Next {
            pipeline,
            action: ActionView::RemoveFiles { paths },
        } && {
            &&& forall|i: int|
                0 <= i < leftovers.len() && ends_with(leftovers[i], ".o"@) ==> paths.contains(
                    #[trigger] leftovers[i],
                )
            &&& forall|i: int|
                0 <= i < paths.len() ==> ends_with(#[trigger] paths[i], ".o"@)
                    && leftovers.contains(paths[i])
            &&& advance(pipeline, report) matches ProgressView::Next {
                action: ActionView::MoveFile { .. },
                ..
            }
        },
{
    lemma_ending_with_exact(leftovers, ".o"@);
}

/// Where no entry of the source directory ends in `.c`, the compiler is
/// run with no source, and the archiver with the archive's name and no
/// object file.
pub proof fn law_no_sources(
    config: ConfigView,
    tokens: Seq<Seq<char>>,
    entries: Seq<Seq<char>>,
    compiled: EventView,
)
    requires
        parsed(tokens) is Ok,
        forall|i: int| 0 <= i < entries.len() ==> !ends_with(#[trigger] entries[i], ".c"@),
        compiled matches EventView::Exited { result } && result.succeeded,
    ensures
        run(config, tokens, seq![EventView::Listed { entries }, compiled]).actions == seq![
            ActionView::ListDirectory { path: parsed(tokens)->Ok_0.source_directory },
            ActionView::RunProcess {
                program: config.compiler,
                arguments: seq!["-c"@] + search_flags(parsed(tokens)->Ok_0.extra_include_paths),
            },
            ActionView::RunProcess {
                program: config.archiver,
                arguments: seq!["cr"@, archive_name(parsed(tokens)->Ok_0.source_directory)],
            },
        ],
{
    let request = parsed(tokens)->Ok_0;
    let events = seq![EventView::Listed { entries }, compiled];
    let picked = ending_with(entries, ".c"@);
    assert(picked.len() == 0) by {
        lemma_ending_with_exact(entries, ".c"@);
        if picked.len() > 0 {
            assert(entries.contains(picked[0]));
        }
    }
    let p0 = opened(config, request);
    let p1 = advance(p0->pipeline, events[0]);
    let p2 = advance(p1->pipeline, events[1]);
    let e1 = events.drop_first();
    let e2 = e1.drop_first();
    assert(continued(p2, e2).actions =~= seq![p2->action]);
    assert(continued(p1, e1).actions =~= seq![p1->action, p2->action]);
}

} // verus!
