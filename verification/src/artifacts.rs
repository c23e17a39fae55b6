//! What a build produces and where it goes: tool command lines, the
//! archive, the object files, the published headers.

use vstd::prelude::*;
use vstd::string::*;
use crate::names::{
    base_name, directory_name, filename_with_extension, join_path, joined, last_segment,
    law_extension_replaced, law_last_segment_of_joined, law_stem_without_dot, path_file_name,
    with_extension,
};
use crate::request::{CompileRequest, RequestView};
use crate::sources::{SourceSet, SourcesView};

verus! {

/// The tools to run and the directories to fill.
#[derive(Debug, PartialEq, Eq)]
pub struct ToolchainConfig {
    /// The program that turns sources into object files.
    pub compiler: String,
    /// The program that bundles object files into an archive.
    pub archiver: String,
    /// The directory that receives the archive.
    pub library_directory: String,
    /// The directory below which headers are published.
    pub include_root: String,
}

/// A `ToolchainConfig` as plain text.
pub struct ConfigView {
    pub compiler: Seq<char>,
    pub archiver: Seq<char>,
    pub library_directory: Seq<char>,
    pub include_root: Seq<char>,
}

impl View for ToolchainConfig {
    type V = ConfigView;

    open spec fn view(&self) -> ConfigView {
        ConfigView {
            compiler: self.compiler@,
            archiver: self.archiver@,
            library_directory: self.library_directory@,
            include_root: self.include_root@,
        }
    }
}

/// The tools found on the search path and the layout of a project:
/// `gcc`, `ar`, `lib` and `include`.
pub open spec fn conventional() -> ConfigView {
    ConfigView {
        compiler: "gcc"@,
        archiver: "ar"@,
        library_directory: "lib"@,
        include_root: "include"@,
    }
}

impl Default for ToolchainConfig {
    fn default() -> (config: ToolchainConfig)
        ensures
            config@ == conventional(),
    {
        ToolchainConfig {
            compiler: String::from_str("gcc"),
            archiver: String::from_str("ar"),
            library_directory: String::from_str("lib"),
            include_root: String::from_str("include"),
        }
    }
}

/// The names that a build gives to what it makes.
#[derive(Debug, PartialEq, Eq)]
pub struct ArtifactPlan {
    /// The archive, as the archiver leaves it in the working directory.
    pub archive_file_name: String,
    /// The object file that the compiler leaves for each source, in the
    /// order of the sources.
    pub object_file_names: Vec<String>,
    /// The directory that receives the headers.
    pub include_destination_dir: String,
}

/// An `ArtifactPlan` as plain text.
pub struct PlanView {
    pub archive_file_name: Seq<char>,
    pub object_file_names: Seq<Seq<char>>,
    pub include_destination_dir: Seq<char>,
}

impl View for ArtifactPlan {
    type V = PlanView;

    open spec fn view(&self) -> PlanView {
        PlanView {
            archive_file_name: self.archive_file_name@,
            object_file_names: self.object_file_names.deep_view(),
            include_destination_dir: self.include_destination_dir@,
        }
    }
}

/// The object file of a source: the source's file name with `.o` in
/// place of its extension, as the compiler names it.
pub open spec fn object_name(source: Seq<char>) -> Seq<char> {
    with_extension(last_segment(source), ".o"@)
}

/// The object file of each source, in order.
pub open spec fn object_names(sources: Seq<Seq<char>>) -> Seq<Seq<char>> {
    sources.map_values(|source: Seq<char>| object_name(source))
}

/// The archive of a source directory: the directory's own name, without
/// the path that leads to it, with `.a` in place of its extension.
pub open spec fn archive_name(source_directory: Seq<char>) -> Seq<char> {
    with_extension(base_name(source_directory), ".a"@)
}

/// The plan of a build: the archive is named after the source directory,
/// and the headers go to the directory of its name below the include
/// root, wherever the source directory itself lies.
pub open spec fn planned(config: ConfigView, request: RequestView, sources: SourcesView) -> PlanView {
    PlanView {
        archive_file_name: archive_name(request.source_directory),
        object_file_names: object_names(sources.compilable_files),
        include_destination_dir: joined(config.include_root, base_name(request.source_directory)),
    }
}

/// A source whose file name is `front` followed by `.c` gets the object
/// file `front` followed by `.o`, whatever dots `front` holds and
/// whatever directory the source lies in.
pub proof fn law_object_named_after_source(source: Seq<char>, front: Seq<char>)
    requires
        last_segment(source) == front + ".c"@,
    ensures
        object_name(source) == front + ".o"@,
{
    reveal_strlit(".c");
    reveal_strlit(".o");
    assert(".c"@ =~= seq!['.'] + seq!['c']);
    assert(front + ".c"@ =~= front + seq!['.'] + seq!['c']);
    assert(".o"@[0] == '.');
    law_extension_replaced(front, seq!['c'], ".o"@);
}

/// A source directory whose own name holds no `.` gives the archive of
/// that name followed by `.a`, however the path to it is written.
pub proof fn law_archive_named_after_directory(source_directory: Seq<char>)
    requires
        !base_name(source_directory).contains('.'),
    ensures
        archive_name(source_directory) == base_name(source_directory) + ".a"@,
{
    reveal_strlit(".a");
    assert(".a"@[0] == '.');
    law_stem_without_dot(base_name(source_directory));
}

impl ArtifactPlan {
    /// Names the artifacts of a build of `sources` for `request`.
    pub fn derive(config: &ToolchainConfig, request: &CompileRequest, sources: &SourceSet) -> (plan:
        ArtifactPlan)
        ensures
            plan@ == planned(config@, request@, sources@),
    {
        let ghost files = sources.compilable_files.deep_view();
        let mut objects: Vec<String> = Vec::new();
        let mut i: usize = 0;
        while i < sources.compilable_files.len()
            invariant
                files == sources.compilable_files.deep_view(),
                i <= sources.compilable_files.len(),
                objects.len() == i,
                forall|k: int| 0 <= k < i ==> #[trigger] objects[k]@ == object_name(files[k]),
            decreases sources.compilable_files.len() - i,
        {
            let file_name = path_file_name(sources.compilable_files[i].as_str());
            objects.push(filename_with_extension(file_name.as_str(), ".o"));
            i += 1;
        }
        assert(objects.deep_view() =~= object_names(files));
        let directory = directory_name(request.source_directory.as_str());
        ArtifactPlan {
            archive_file_name: filename_with_extension(directory.as_str(), ".a"),
            object_file_names: objects,
            include_destination_dir: join_path(config.include_root.as_str(), directory.as_str()),
        }
    }
}

/// The compiler's search-path arguments: `-I` before each path.
pub open spec fn search_flags(paths: Seq<Seq<char>>) -> Seq<Seq<char>> {
    Seq::new(
        2 * paths.len(),
        |i: int|
            if i % 2 == 0 {
                "-I"@
            } else {
                paths[i / 2]
            },
    )
}

/// The compiler's arguments: `-c`, the sources, the search-path arguments.
pub open spec fn compile_line(request: RequestView, sources: SourcesView) -> Seq<Seq<char>> {
    seq!["-c"@] + sources.compilable_files + search_flags(request.extra_include_paths)
}

/// The archiver's arguments: `cr`, the archive, the object files.
pub open spec fn archive_line(plan: PlanView) -> Seq<Seq<char>> {
    seq!["cr"@, plan.archive_file_name] + plan.object_file_names
}

/// A copy of each text of `texts`, in order.
fn copy_texts(texts: &Vec<String>) -> (copy: Vec<String>)
    ensures
        copy.deep_view() == texts.deep_view(),
{
    let mut copy: Vec<String> = Vec::new();
    let mut i: usize = 0;
    while i < texts.len()
        invariant
            i <= texts.len(),
            copy.len() == i,
            forall|k: int| 0 <= k < i ==> #[trigger] copy[k]@ == texts[k]@,
        decreases texts.len() - i,
    {
        copy.push(texts[i].clone());
        i += 1;
    }
    copy
}

/// The arguments with which the compiler is run.
pub fn compile_arguments(request: &CompileRequest, sources: &SourceSet) -> (arguments: Vec<String>)
    ensures
        arguments.deep_view() == compile_line(request@, sources@),
{
    let ghost paths = request.extra_include_paths.deep_view();
    let mut arguments: Vec<String> = Vec::new();
    arguments.push(String::from_str("-c"));
    let mut files_copy = copy_texts(&sources.compilable_files);
    arguments.append(&mut files_copy);
    let ghost head = arguments.deep_view();
    let mut i: usize = 0;
    while i < request.extra_include_paths.len()
        invariant
            paths == request.extra_include_paths.deep_view(),
            i <= request.extra_include_paths.len(),
            arguments.len() == head.len() + 2 * i,
            forall|k: int| 0 <= k < head.len() ==> #[trigger] arguments[k]@ == head[k],
            forall|k: int|
                0 <= k < 2 * i ==> #[trigger] arguments[head.len() + k]@ == search_flags(paths)[k],
        decreases request.extra_include_paths.len() - i,
    {
        arguments.push(String::from_str("-I"));
        arguments.push(request.extra_include_paths[i].clone());
        i += 1;
    }
    let ghost line = head + search_flags(paths);
    assert forall|j: int| 0 <= j < line.len() implies arguments.deep_view()[j] == line[j] by {
        if j >= head.len() {
            assert(arguments[head.len() + (j - head.len())]@ == search_flags(paths)[j - head.len()]);
        }
    }
    assert(arguments.deep_view() =~= line);
    arguments
}

/// The arguments with which the archiver is run.
pub fn archive_arguments(plan: &ArtifactPlan) -> (arguments: Vec<String>)
    ensures
        arguments.deep_view() == archive_line(plan@),
{
    let mut arguments: Vec<String> = Vec::new();
    arguments.push(String::from_str("cr"));
    arguments.push(plan.archive_file_name.clone());
    let mut objects = copy_texts(&plan.object_file_names);
    arguments.append(&mut objects);
    arguments
}

/// One file to copy.
#[derive(Debug, PartialEq, Eq)]
pub struct FileCopy {
    pub from: String,
    pub to: String,
}

/// A `FileCopy` as plain text.
pub struct CopyView {
    pub from: Seq<char>,
    pub to: Seq<char>,
}

impl DeepView for FileCopy {
    type V = CopyView;

    open spec fn deep_view(&self) -> CopyView {
        CopyView { from: self.from@, to: self.to@ }
    }
}

/// How a header is published: under its own file name in `destination`.
pub open spec fn header_copy(destination: Seq<char>, header: Seq<char>) -> CopyView {
    CopyView { from: header, to: joined(destination, last_segment(header)) }
}

/// The copy that publishes each header, in order.
pub open spec fn header_copies(destination: Seq<char>, headers: Seq<Seq<char>>) -> Seq<CopyView> {
    headers.map_values(|header: Seq<char>| header_copy(destination, header))
}

/// The copies that publish the headers of `sources` in the directory
/// that `plan` names for them.
pub fn plan_header_copies(plan: &ArtifactPlan, sources: &SourceSet) -> (copies: Vec<FileCopy>)
    ensures
        copies.deep_view() == header_copies(plan@.include_destination_dir, sources@.header_files),
{
    let ghost headers = sources.header_files.deep_view();
    let mut copies: Vec<FileCopy> = Vec::new();
    let mut i: usize = 0;
    while i < sources.header_files.len()
        invariant
            headers == sources.header_files.deep_view(),
            i <= sources.header_files.len(),
            copies.len() == i,
            forall|k: int|
                0 <= k < i ==> #[trigger] copies[k].deep_view() == header_copy(
                    plan@.include_destination_dir,
                    headers[k],
                ),
        decreases sources.header_files.len() - i,
    {
        let header: &String = &sources.header_files[i];
        let file_name = path_file_name(header.as_str());
        copies.push(
            FileCopy {
                from: header.clone(),
                to: join_path(plan.include_destination_dir.as_str(), file_name.as_str()),
            },
        );
        i += 1;
    }
    copies
}

/// The header that a directory lists under a name without `/` is
/// published under that name in `destination`.
pub proof fn law_header_published_under_its_name(
    destination: Seq<char>,
    directory: Seq<char>,
    entry: Seq<char>,
)
    requires
        !entry.contains('/'),
    ensures
        header_copy(destination, joined(directory, entry)) == (CopyView {
            from: joined(directory, entry),
            to: joined(destination, entry),
        }),
{
    law_last_segment_of_joined(directory, entry);
}

/// Where the archive ends up: under its own name in the library directory.
pub open spec fn archive_destination(config: ConfigView, plan: PlanView) -> Seq<char> {
    joined(config.library_directory, plan.archive_file_name)
}

} // verus!
