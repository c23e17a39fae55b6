//! The build as a sequence of steps that someone else carries out.
//!
//! A pipeline names the next action; its caller performs it and reports
//! what happened; the pipeline answers with the action after that, or
//! ends. It runs forward only: nothing is retried and nothing undone.

use vstd::prelude::*;
use vstd::string::*;
use crate::artifacts::{
    archive_arguments, archive_destination, archive_line, compile_arguments, compile_line,
    header_copies, plan_header_copies, planned, ArtifactPlan, ConfigView, CopyView, FileCopy,
    ToolchainConfig,
};
use crate::names::join_path;
use crate::request::{parse_arguments, parsed, ArgumentFault, CompileRequest, FaultView, RequestView};
use crate::sources::{discover, discovered, ending_with, select_by_suffix, SourceSet, SourcesView};

verus! {

/// How a run of the compiler or the archiver ended.
#[derive(Debug, PartialEq, Eq)]
pub struct ToolchainResult {
    /// Whether the program reported success.
    pub succeeded: bool,
    /// What the program wrote to its error stream.
    pub captured_stderr: Vec<u8>,
}

/// A `ToolchainResult` as plain values.
pub struct ResultView {
    pub succeeded: bool,
    pub captured_stderr: Seq<u8>,
}

impl View for ToolchainResult {
    type V = ResultView;

    open spec fn view(&self) -> ResultView {
        ResultView { succeeded: self.succeeded, captured_stderr: self.captured_stderr@ }
    }
}

/// Why a build stopped, or what went wrong beside it.
#[derive(Debug, PartialEq, Eq)]
pub enum PipelineError {
    /// The command line was turned down.
    InvalidArguments { fault: ArgumentFault },
    /// A directory could not be listed.
    DirectoryUnreadable { path: String, reason: String },
    /// A program could not be started.
    ToolchainSpawnFailure { program: String, reason: String },
    /// A program ran and reported failure; `stderr` is what it wrote to
    /// its error stream.
    ToolchainExecutionFailure { program: String, stderr: Vec<u8> },
    /// The archive could not be moved, or the directory for the headers
    /// could not be made.
    ArtifactPlacementFailure { path: String, reason: String },
    /// One header could not be copied. The build goes on without it.
    HeaderCopyFailure { header: String, reason: String },
}

/// A `PipelineError` as plain values.
pub enum ErrorView {
    InvalidArguments { fault: FaultView },
    DirectoryUnreadable { path: Seq<char>, reason: Seq<char> },
    ToolchainSpawnFailure { program: Seq<char>, reason: Seq<char> },
    ToolchainExecutionFailure { program: Seq<char>, stderr: Seq<u8> },
    ArtifactPlacementFailure { path: Seq<char>, reason: Seq<char> },
    HeaderCopyFailure { header: Seq<char>, reason: Seq<char> },
}

impl View for PipelineError {
    type V = ErrorView;

    open spec fn view(&self) -> ErrorView {
        match self {
            PipelineError::InvalidArguments { fault } => ErrorView::InvalidArguments {
                fault: fault@,
            },
            PipelineError::DirectoryUnreadable { path, reason } => ErrorView::DirectoryUnreadable {
                path: path@,
                reason: reason@,
            },
            PipelineError::ToolchainSpawnFailure {
                program,
                reason,
            } => ErrorView::ToolchainSpawnFailure { program: program@, reason: reason@ },
            PipelineError::ToolchainExecutionFailure {
                program,
                stderr,
            } => ErrorView::ToolchainExecutionFailure { program: program@, stderr: stderr@ },
            PipelineError::ArtifactPlacementFailure {
                path,
                reason,
            } => ErrorView::ArtifactPlacementFailure { path: path@, reason: reason@ },
            PipelineError::HeaderCopyFailure { header, reason } => ErrorView::HeaderCopyFailure {
                header: header@,
                reason: reason@,
            },
        }
    }
}

impl PipelineError {
    /// Whether this error ends the build. Only a header that could not be
    /// copied does not.
    pub fn is_fatal(&self) -> (fatal: bool)
        ensures
            fatal == !(self@ is HeaderCopyFailure),
    {
        match self {
            PipelineError::HeaderCopyFailure { .. } => false,
            _ => true,
        }
    }
}

/// What the caller reports back after carrying out an action.
#[derive(Debug, PartialEq, Eq)]
pub enum Event {
    /// A directory was listed: the names of its entries, in the order in
    /// which the system gave them.
    Listed { entries: Vec<String> },
    /// A program was started and has ended.
    Exited { result: ToolchainResult },
    /// A step on the file system was carried out.
    Completed,
    /// The action could not be carried out.
    Failed { reason: String },
}

/// An `Event` as plain values.
pub enum EventView {
    Listed { entries: Seq<Seq<char>> },
    Exited { result: ResultView },
    Completed,
    Failed { reason: Seq<char> },
}

impl View for Event {
    type V = EventView;

    open spec fn view(&self) -> EventView {
        match self {
            Event::Listed { entries } => EventView::Listed { entries: entries.deep_view() },
            Event::Exited { result } => EventView::Exited { result: result@ },
            Event::Completed => EventView::Completed,
            Event::Failed { reason } => EventView::Failed { reason: reason@ },
        }
    }
}

/// What the caller is asked to do next.
#[derive(Debug, PartialEq, Eq)]
pub enum Action {
    /// List the entries of a directory, without going into its
    /// subdirectories. Answered by `Listed`.
    ListDirectory { path: String },
    /// Run a program, wait for it and keep what it writes to its error
    /// stream. Answered by `Exited`.
    RunProcess { program: String, arguments: Vec<String> },
    /// Remove each of these files, going on when one cannot be removed.
    RemoveFiles { paths: Vec<String> },
    /// Move a file. Answered by `Completed`.
    MoveFile { from: String, to: String },
    /// Make a directory, with the directories above it, unless it is
    /// there. Answered by `Completed`.
    EnsureDirectory { path: String },
    /// Make each of these copies, going on when one cannot be made.
    CopyFiles { copies: Vec<FileCopy> },
}

/// An `Action` as plain values.
pub enum ActionView {
    ListDirectory { path: Seq<char> },
    RunProcess { program: Seq<char>, arguments: Seq<Seq<char>> },
    RemoveFiles { paths: Seq<Seq<char>> },
    MoveFile { from: Seq<char>, to: Seq<char> },
    EnsureDirectory { path: Seq<char> },
    CopyFiles { copies: Seq<CopyView> },
}

impl View for Action {
    type V = ActionView;

    open spec fn view(&self) -> ActionView {
        match self {
            Action::ListDirectory { path } => ActionView::ListDirectory { path: path@ },
            Action::RunProcess { program, arguments } => ActionView::RunProcess {
                program: program@,
                arguments: arguments.deep_view(),
            },
            Action::RemoveFiles { paths } => ActionView::RemoveFiles { paths: paths.deep_view() },
            Action::MoveFile { from, to } => ActionView::MoveFile { from: from@, to: to@ },
            Action::EnsureDirectory { path } => ActionView::EnsureDirectory { path: path@ },
            Action::CopyFiles { copies } => ActionView::CopyFiles { copies: copies.deep_view() },
        }
    }
}

/// The action whose answer a pipeline is waiting for.
#[derive(Debug, Clone, Copy, PartialEq, Eq, Structural)]
pub enum Stage {
    /// The source directory is being listed.
    Listing,
    /// The compiler is running.
    Compiling,
    /// The archiver is running.
    Archiving,
    /// The working directory is being listed.
    Sweeping,
    /// The object files are being removed.
    Removing,
    /// The archive is being moved.
    Relocating,
    /// The directory for the headers is being made.
    Preparing,
    /// The headers are being copied.
    Copying,
}

/// A build under way.
#[derive(Debug, PartialEq, Eq)]
pub struct Pipeline {
    stage: Stage,
    config: ToolchainConfig,
    request: CompileRequest,
    sources: SourceSet,
}

/// A `Pipeline` as plain values. Before the source directory has been
/// listed, `sources` is empty.
pub struct PipelineView {
    pub stage: Stage,
    pub config: ConfigView,
    pub request: RequestView,
    pub sources: SourcesView,
}

impl View for Pipeline {
    type V = PipelineView;

    closed spec fn view(&self) -> PipelineView {
        PipelineView {
            stage: self.stage,
            config: self.config@,
            request: self.request@,
            sources: self.sources@,
        }
    }
}

/// Where a build stands after a step.
#[derive(Debug, PartialEq, Eq)]
pub enum Progress {
    /// The build goes on with `action`.
    Next { pipeline: Pipeline, action: Action },
    /// Every step was carried out.
    Finished,
    /// The build stopped; no further step is taken.
    Aborted { error: PipelineError },
}

/// A `Progress` as plain values.
pub enum ProgressView {
    Next { pipeline: PipelineView, action: ActionView },
    Finished,
    Aborted { error: ErrorView },
}

impl View for Progress {
    type V = ProgressView;

    open spec fn view(&self) -> ProgressView {
        match self {
            Progress::Next { pipeline, action } => ProgressView::Next {
                pipeline: pipeline@,
                action: action@,
            },
            Progress::Finished => ProgressView::Finished,
            Progress::Aborted { error } => ProgressView::Aborted { error: error@ },
        }
    }
}

/// The directory in which the tools leave their output.
pub open spec fn working_directory() -> Seq<char> {
    "."@
}

/// The reason that a report of failure gives; empty for any other event.
pub open spec fn reason_given(event: EventView) -> Seq<char> {
    match event {
        EventView::Failed { reason } => reason,
        _ => Seq::empty(),
    }
}

/// A build at its first step, which lists the source directory.
pub open spec fn opened(config: ConfigView, request: RequestView) -> ProgressView {
    ProgressView::Next {
        pipeline: PipelineView {
            stage: Stage::Listing,
            config,
            request,
            sources: SourcesView { compilable_files: Seq::empty(), header_files: Seq::empty() },
        },
        action: ActionView::ListDirectory { path: request.source_directory },
    }
}

/// A build begun from a command line: turned down where the command line
/// is, else at its first step.
pub open spec fn started(config: ConfigView, tokens: Seq<Seq<char>>) -> ProgressView {
    match parsed(tokens) {
        Ok(request) => opened(config, request),
        Err(fault) => ProgressView::Aborted { error: ErrorView::InvalidArguments { fault } },
    }
}

/// The step that follows `event`. Each stage has one event that counts as
/// the success of its action; any other event counts as its failure. The
/// two stages whose action is attempted file by file go on whatever is
/// reported.
pub open spec fn advance(state: PipelineView, event: EventView) -> ProgressView {
    let plan = planned(state.config, state.request, state.sources);
    match state.stage {
        Stage::Listing => match event {
            EventView::Listed { entries } => {
                let sources = discovered(state.request.source_directory, entries);
                ProgressView::Next {
                    pipeline: PipelineView { stage: Stage::Compiling, sources, ..state },
                    action: ActionView::RunProcess {
                        program: state.config.compiler,
                        arguments: compile_line(state.request, sources),
                    },
                }
            },
            _ => ProgressView::Aborted {
                error: ErrorView::DirectoryUnreadable {
                    path: state.request.source_directory,
                    reason: reason_given(event),
                },
            },
        },
        Stage::Compiling => match event {
            EventView::Exited { result } => if result.succeeded {
                ProgressView::Next {
                    pipeline: PipelineView { stage: Stage::Archiving, ..state },
                    action: ActionView::RunProcess {
                        program: state.config.archiver,
                        arguments: archive_line(plan),
                    },
                }
            } else {
                ProgressView::Aborted {
                    error: ErrorView::ToolchainExecutionFailure {
                        program: state.config.compiler,
                        stderr: result.captured_stderr,
                    },
                }
            },
            _ => ProgressView::Aborted {
                error: ErrorView::ToolchainSpawnFailure {
                    program: state.config.compiler,
                    reason: reason_given(event),
                },
            },
        },
        Stage::Archiving => match event {
            EventView::Exited { result } => if result.succeeded {
                ProgressView::Next {
                    pipeline: PipelineView { stage: Stage::Sweeping, ..state },
                    action: ActionView::ListDirectory { path: working_directory() },
                }
            } else {
                ProgressView::Aborted {
                    error: ErrorView::ToolchainExecutionFailure {
                        program: state.config.archiver,
                        stderr: result.captured_stderr,
                    },
                }
            },
            _ => ProgressView::Aborted {
                error: ErrorView::ToolchainSpawnFailure {
                    program: state.config.archiver,
                    reason: reason_given(event),
                },
            },
        },
        Stage::Sweeping => match event {
            EventView::Listed { entries } => ProgressView::Next {
                pipeline: PipelineView { stage: Stage::Removing, ..state },
                action: ActionView::RemoveFiles { paths: ending_with(entries, ".o"@) },
            },
            _ => ProgressView::Aborted {
                error: ErrorView::DirectoryUnreadable {
                    path: working_directory(),
                    reason: reason_given(event),
                },
            },
        },
        Stage::Removing => ProgressView::Next {
            pipeline: PipelineView { stage: Stage::Relocating, ..state },
            action: ActionView::MoveFile {
                from: plan.archive_file_name,
                to: archive_destination(state.config, plan),
            },
        },
        Stage::Relocating => match event {
            EventView::Completed => ProgressView::Next {
                pipeline: PipelineView { stage: Stage::Preparing, ..state },
                action: ActionView::EnsureDirectory { path: plan.include_destination_dir },
            },
            _ => ProgressView::Aborted {
                error: ErrorView::ArtifactPlacementFailure {
                    path: archive_destination(state.config, plan),
                    reason: reason_given(event),
                },
            },
        },
        Stage::Preparing => match event {
            EventView::Completed => ProgressView::Next {
                pipeline: PipelineView { stage: Stage::Copying, ..state },
                action: ActionView::CopyFiles {
                    copies: header_copies(plan.include_destination_dir, state.sources.header_files),
                },
            },
            _ => ProgressView::Aborted {
                error: ErrorView::ArtifactPlacementFailure {
                    path: plan.include_destination_dir,
                    reason: reason_given(event),
                },
            },
        },
        Stage::Copying => ProgressView::Finished,
    }
}

/// The reason that `event` gives for a failure.
fn reason_of(event: Event) -> (reason: String)
    ensures
        reason@ == reason_given(event@),
{
    match event {
        Event::Failed { reason } => reason,
        _ => String::new(),
    }
}

impl Pipeline {
    /// Starts a build of `request`.
    pub fn open(config: ToolchainConfig, request: CompileRequest) -> (progress: Progress)
        ensures
            progress@ == opened(config@, request@),
    {
        let path = request.source_directory.clone();
        let sources = SourceSet { compilable_files: Vec::new(), header_files: Vec::new() };
        assert(sources@.compilable_files =~= Seq::empty());
        assert(sources@.header_files =~= Seq::empty());
        Progress::Next {
            pipeline: Pipeline { stage: Stage::Listing, config, request, sources },
            action: Action::ListDirectory { path },
        }
    }

    /// Starts a build from a command line, without the program's own name
    /// in front. Nothing is asked of the caller where the command line is
    /// turned down.
    pub fn begin(config: ToolchainConfig, tokens: &Vec<String>) -> (progress: Progress)
        ensures
            progress@ == started(config@, tokens.deep_view()),
    {
        match parse_arguments(tokens) {
            Ok(request) => Pipeline::open(config, request),
            Err(fault) => Progress::Aborted { error: PipelineError::InvalidArguments { fault } },
        }
    }

    /// The action whose answer the pipeline is waiting for.
    pub fn stage(&self) -> (stage: Stage)
        ensures
            stage == self@.stage,
    {
        self.stage
    }

    /// Takes the answer to the pending action and says how the build
    /// goes on.
    pub fn step(self, event: Event) -> (progress: Progress)
        ensures
            progress@ == advance(self@, event@),
    {
        let Pipeline { stage, config, request, sources } = self;
        match stage {
            Stage::Listing => match event {
                Event::Listed { entries } => {
                    let sources = discover(request.source_directory.as_str(), &entries);
                    let program = config.compiler.clone();
                    let arguments = compile_arguments(&request, &sources);
                    Progress::Next {
                        pipeline: Pipeline { stage: Stage::Compiling, config, request, sources },
                        action: Action::RunProcess { program, arguments },
                    }
                },
                other => Progress::Aborted {
                    error: PipelineError::DirectoryUnreadable {
                        path: request.source_directory,
                        reason: reason_of(other),
                    },
                },
            },
            Stage::Compiling => match event {
                Event::Exited { result } => {
                    if result.succeeded {
                        let plan = ArtifactPlan::derive(&config, &request, &sources);
                        let program = config.archiver.clone();
                        let arguments = archive_arguments(&plan);
                        Progress::Next {
                            pipeline: Pipeline { stage: Stage::Archiving, config, request, sources },
                            action: Action::RunProcess { program, arguments },
                        }
                    } else {
                        Progress::Aborted {
                            error: PipelineError::ToolchainExecutionFailure {
                                program: config.compiler,
                                stderr: result.captured_stderr,
                            },
                        }
                    }
                },
                other => Progress::Aborted {
                    error: PipelineError::ToolchainSpawnFailure {
                        program: config.compiler,
                        reason: reason_of(other),
                    },
                },
            },
            Stage::Archiving => match event {
                Event::Exited { result } => {
                    if result.succeeded {
                        Progress::Next {
                            pipeline: Pipeline { stage: Stage::Sweeping, config, request, sources },
                            action: Action::ListDirectory { path: String::from_str(".") },
                        }
                    } else {
                        Progress::Aborted {
                            error: PipelineError::ToolchainExecutionFailure {
                                program: config.archiver,
                                stderr: result.captured_stderr,
                            },
                        }
                    }
                },
                other => Progress::Aborted {
                    error: PipelineError::ToolchainSpawnFailure {
                        program: config.archiver,
                        reason: reason_of(other),
                    },
                },
            },
            Stage::Sweeping => match event {
                Event::Listed { entries } => {
                    let paths = select_by_suffix(&entries, ".o");
                    Progress::Next {
                        pipeline: Pipeline { stage: Stage::Removing, config, request, sources },
                        action: Action::RemoveFiles { paths },
                    }
                },
                other => Progress::Aborted {
                    error: PipelineError::DirectoryUnreadable {
                        path: String::from_str("."),
                        reason: reason_of(other),
                    },
                },
            },
            Stage::Removing => {
                let plan = ArtifactPlan::derive(&config, &request, &sources);
                let to = join_path(config.library_directory.as_str(), plan.archive_file_name.as_str());
                Progress::Next {
                    pipeline: Pipeline { stage: Stage::Relocating, config, request, sources },
                    action: Action::MoveFile { from: plan.archive_file_name, to },
                }
            },
            Stage::Relocating => {
                let plan = ArtifactPlan::derive(&config, &request, &sources);
                match event {
                    Event::Completed => Progress::Next {
                        pipeline: Pipeline { stage: Stage::Preparing, config, request, sources },
                        action: Action::EnsureDirectory { path: plan.include_destination_dir },
                    },
                    other => Progress::Aborted {
                        error: PipelineError::ArtifactPlacementFailure {
                            path: join_path(
                                config.library_directory.as_str(),
                                plan.archive_file_name.as_str(),
                            ),
                            reason: reason_of(other),
                        },
                    },
                }
            },
            Stage::Preparing => match event {
                Event::Completed => {
                    let plan = ArtifactPlan::derive(&config, &request, &sources);
                    let copies = plan_header_copies(&plan, &sources);
                    Progress::Next {
                        pipeline: Pipeline { stage: Stage::Copying, config, request, sources },
                        action: Action::CopyFiles { copies },
                    }
                },
                other => {
                    let plan = ArtifactPlan::derive(&config, &request, &sources);
                    Progress::Aborted {
                        error: PipelineError::ArtifactPlacementFailure {
                            path: plan.include_destination_dir,
                            reason: reason_of(other),
                        },
                    }
                },
            },
            Stage::Copying => Progress::Finished,
        }
    }
}

} // verus!
