//! The command line: from tokens to a compile request.

use vstd::prelude::*;
use vstd::string::*;
use crate::names::{join_path, joined, same_text};

verus! {

/// What the `compile` command was asked to do.
#[derive(Debug, PartialEq, Eq)]
pub struct CompileRequest {
    /// The directory whose sources are compiled, as it was written.
    pub source_directory: String,
    /// Directories added to the compiler's search path, in the order given.
    pub extra_include_paths: Vec<String>,
}

/// A `CompileRequest` as plain text.
pub struct RequestView {
    pub source_directory: Seq<char>,
    pub extra_include_paths: Seq<Seq<char>>,
}

impl View for CompileRequest {
    type V = RequestView;

    open spec fn view(&self) -> RequestView {
        RequestView {
            source_directory: self.source_directory@,
            extra_include_paths: self.extra_include_paths.deep_view(),
        }
    }
}

/// Why a command line was turned down.
#[derive(Debug, PartialEq, Eq)]
pub enum ArgumentFault {
    /// There was no token at all.
    MissingCommand,
    /// The first token names no command.
    UnknownCommand { command: String },
    /// A flag that takes a value was the last token.
    MissingFlagValue { command: String, flag: String },
    /// A second source directory was given.
    DuplicateDirectory { first: String, second: String },
    /// No source directory was given.
    MissingDirectory,
}

/// An `ArgumentFault` as plain text.
pub enum FaultView {
    MissingCommand,
    UnknownCommand { command: Seq<char> },
    MissingFlagValue { command: Seq<char>, flag: Seq<char> },
    DuplicateDirectory { first: Seq<char>, second: Seq<char> },
    MissingDirectory,
}

impl View for ArgumentFault {
    type V = FaultView;

    open spec fn view(&self) -> FaultView {
        match self {
            ArgumentFault::MissingCommand => FaultView::MissingCommand,
            ArgumentFault::UnknownCommand { command } => FaultView::UnknownCommand {
                command: command@,
            },
            ArgumentFault::MissingFlagValue { command, flag } => FaultView::MissingFlagValue {
                command: command@,
                flag: flag@,
            },
            ArgumentFault::DuplicateDirectory { first, second } => FaultView::DuplicateDirectory {
                first: first@,
                second: second@,
            },
            ArgumentFault::MissingDirectory => FaultView::MissingDirectory,
        }
    }
}

/// What the user is told of a fault.
pub open spec fn fault_message(fault: FaultView) -> Seq<char> {
    match fault {
        FaultView::MissingCommand => "Usage: `libmanger [command] ...args`"@,
        FaultView::UnknownCommand { command } => "`"@ + command + "` is not a valid a command."@,
        FaultView::MissingFlagValue { command, flag } => "Usage: libmanager "@ + command + " "@
            + flag + " <relative package path> ..."@,
        FaultView::DuplicateDirectory { first, second } => "[ERROR] Either "@ + second
            + " incorrect arg or "@ + first,
        FaultView::MissingDirectory => "[ERROR] Provide a directory to compile to a library."@,
    }
}

impl ArgumentFault {
    /// The fault in words, for the user.
    pub fn message(&self) -> (text: String)
        ensures
            text@ == fault_message(self@),
    {
        match self {
            ArgumentFault::MissingCommand => String::from_str(
                "Usage: `libmanger [command] ...args`",
            ),
            ArgumentFault::UnknownCommand { command } => {
                let mut text = String::from_str("`");
                text.append(command.as_str());
                text.append("` is not a valid a command.");
                text
            },
            ArgumentFault::MissingFlagValue { command, flag } => {
                let mut text = String::from_str("Usage: libmanager ");
                text.append(command.as_str());
                text.append(" ");
                text.append(flag.as_str());
                text.append(" <relative package path> ...");
                text
            },
            ArgumentFault::DuplicateDirectory { first, second } => {
                let mut text = String::from_str("[ERROR] Either ");
                text.append(second.as_str());
                text.append(" incorrect arg or ");
                text.append(first.as_str());
                text
            },
            ArgumentFault::MissingDirectory => String::from_str(
                "[ERROR] Provide a directory to compile to a library.",
            ),
        }
    }
}

/// The view of a parse result.
pub open spec fn outcome_view(r: Result<CompileRequest, ArgumentFault>) -> Result<
    RequestView,
    FaultView,
> {
    match r {
        Ok(request) => Ok(request@),
        Err(fault) => Err(fault@),
    }
}

/// Where packages installed by Homebrew live.
pub open spec fn cellar() -> Seq<char> {
    "/opt/homebrew/Cellar"@
}

/// Whether the token selects the compile command.
pub open spec fn is_compile_command(token: Seq<char>) -> bool {
    token == "compile"@ || token == "c"@
}

/// Whether the token is the flag that names a Homebrew package.
pub open spec fn is_package_flag(token: Seq<char>) -> bool {
    token == "--homebrew"@ || token == "-hb"@
}

/// The scan of `tokens` from position `at` on, with the source directory
/// and the search paths found before it. A package flag takes the token
/// after it, whatever that is; any other token is the source directory,
/// and a second one ends the scan.
pub open spec fn scan(
    tokens: Seq<Seq<char>>,
    at: int,
    directory: Option<Seq<char>>,
    paths: Seq<Seq<char>>,
) -> Result<RequestView, FaultView>
    decreases tokens.len() - at,
{
    if at < 0 || at >= tokens.len() {
        match directory {
            Some(d) => Ok(RequestView { source_directory: d, extra_include_paths: paths }),
            None => Err(FaultView::MissingDirectory),
        }
    } else if is_package_flag(tokens[at]) {
        if at + 1 >= tokens.len() {
            Err(FaultView::MissingFlagValue { command: tokens[0], flag: tokens[at] })
        } else {
            scan(tokens, at + 2, directory, paths.push(joined(cellar(), tokens[at + 1])))
        }
    } else {
        match directory {
            None => scan(tokens, at + 1, Some(tokens[at]), paths),
            Some(d) => Err(FaultView::DuplicateDirectory { first: d, second: tokens[at] }),
        }
    }
}

/// What a command line means: the first token is the command, the rest
/// are scanned from left to right.
pub open spec fn parsed(tokens: Seq<Seq<char>>) -> Result<RequestView, FaultView> {
    if tokens.len() == 0 {
        Err(FaultView::MissingCommand)
    } else if !is_compile_command(tokens[0]) {
        Err(FaultView::UnknownCommand { command: tokens[0] })
    } else {
        scan(tokens, 1, None, Seq::empty())
    }
}

/// Reads a command line, without the program's own name in front.
pub fn parse_arguments(tokens: &Vec<String>) -> (outcome: Result<CompileRequest, ArgumentFault>)
    ensures
        outcome_view(outcome) == parsed(tokens.deep_view()),
{
    let ghost texts = tokens.deep_view();
    let n: usize = tokens.len();
    if n == 0 {
        return Err(ArgumentFault::MissingCommand);
    }
    let command: &str = tokens[0].as_str();
    if !same_text(command, "compile") && !same_text(command, "c") {
        return Err(ArgumentFault::UnknownCommand { command: tokens[0].clone() });
    }
    let mut directory: Option<String> = None;
    let mut paths: Vec<String> = Vec::new();
    let mut at: usize = 1;
    assert(paths.deep_view() =~= Seq::<Seq<char>>::empty());
    while at < n
        invariant
            texts == tokens.deep_view(),
            n == tokens.len(),
            1 <= at <= n,
            parsed(texts) == scan(
                texts,
                at as int,
                match directory {
                    Some(d) => Some(d@),
                    None => None,
                },
                paths.deep_view(),
            ),
        decreases n - at,
    {
        let token: &str = tokens[at].as_str();
        if same_text(token, "--homebrew") || same_text(token, "-hb") {
            if at + 1 >= n {
                return Err(
                    ArgumentFault::MissingFlagValue {
                        command: tokens[0].clone(),
                        flag: tokens[at].clone(),
                    },
                );
            }
            let path = join_path("/opt/homebrew/Cellar", tokens[at + 1].as_str());
            let ghost before = paths.deep_view();
            paths.push(path);
            assert(paths.deep_view() =~= before.push(joined(cellar(), texts[at + 1])));
            at += 2;
        } else {
            match directory {
                Some(first) => {
                    return Err(
                        ArgumentFault::DuplicateDirectory { first, second: tokens[at].clone() },
                    );
                },
                None => {
                    directory = Some(tokens[at].clone());
                    at += 1;
                },
            }
        }
    }
    match directory {
        Some(source_directory) => Ok(
            CompileRequest { source_directory, extra_include_paths: paths },
        ),
        None => Err(ArgumentFault::MissingDirectory),
    }
}

/// Whether the token at `at` is the value of the package flag before it.
/// The command itself stands at position 0 and is no flag.
pub open spec fn is_flag_value(tokens: Seq<Seq<char>>, at: int) -> bool
    decreases at,
{
    if at <= 1 {
        false
    } else {
        is_package_flag(tokens[at - 1]) && !is_flag_value(tokens, at - 1)
    }
}

/// Whether the token at `at` names a source directory: it follows the
/// command, is no package flag and is not the value of one.
pub open spec fn is_directory_token(tokens: Seq<Seq<char>>, at: int) -> bool {
    1 <= at < tokens.len() && !is_package_flag(tokens[at]) && !is_flag_value(tokens, at)
}

/// Whether a parse result is the refusal of a second source directory.
pub open spec fn is_duplicate_refusal(outcome: Result<RequestView, FaultView>) -> bool {
    outcome is Err && outcome->Err_0 is DuplicateDirectory
}

proof fn lemma_scan_meets_second_directory(
    tokens: Seq<Seq<char>>,
    at: int,
    directory: Option<Seq<char>>,
    paths: Seq<Seq<char>>,
    i: int,
    j: int,
)
    requires
        1 <= at,
        !is_flag_value(tokens, at),
        is_directory_token(tokens, j),
        at <= j,
        directory is None ==> at <= i < j && is_directory_token(tokens, i),
    ensures
        is_duplicate_refusal(scan(tokens, at, directory, paths)),
    decreases tokens.len() - at,
{
    if is_package_flag(tokens[at]) {
        assert(is_flag_value(tokens, at + 1));
        lemma_scan_meets_second_directory(
            tokens,
            at + 2,
            directory,
            paths.push(joined(cellar(), tokens[at + 1])),
            i,
            j,
        );
    } else if directory is None {
        lemma_scan_meets_second_directory(tokens, at + 1, Some(tokens[at]), paths, i, j);
    }
}

/// A command line for the compile command that names two source
/// directories is turned down, and the fault is the second directory.
pub proof fn law_second_directory_refused(tokens: Seq<Seq<char>>, i: int, j: int)
    requires
        tokens.len() > 0,
        is_compile_command(tokens[0]),
        is_directory_token(tokens, i),
        is_directory_token(tokens, j),
        i < j,
    ensures
        is_duplicate_refusal(parsed(tokens)),
{
    lemma_scan_meets_second_directory(tokens, 1, None, Seq::empty(), i, j);
}

proof fn lemma_scan_accepts(
    tokens: Seq<Seq<char>>,
    at: int,
    directory: Option<Seq<char>>,
    paths: Seq<Seq<char>>,
)
    requires
        1 <= at <= tokens.len(),
        !is_flag_value(tokens, at),
        scan(tokens, at, directory, paths) is Ok,
    ensures
        directory is Some ==> scan(tokens, at, directory, paths)->Ok_0.source_directory
            == directory->Some_0 && forall|k: int| at <= k ==> !is_directory_token(tokens, k),
        directory is None ==> exists|d: int|
            at <= d && #[trigger] is_directory_token(tokens, d) && scan(
                tokens,
                at,
                directory,
                paths,
            )->Ok_0.source_directory == tokens[d] && forall|k: int|
                at <= k && k != d ==> !is_directory_token(tokens, k),
    decreases tokens.len() - at,
{
    if at < tokens.len() {
        if is_package_flag(tokens[at]) {
            assert(is_flag_value(tokens, at + 1));
            lemma_scan_accepts(
                tokens,
                at + 2,
                directory,
                paths.push(joined(cellar(), tokens[at + 1])),
            );
        } else {
            assert(is_directory_token(tokens, at));
            lemma_scan_accepts(tokens, at + 1, Some(tokens[at]), paths);
        }
    }
}

/// A command line that is accepted names exactly one source directory,
/// and that one is the request's.
pub proof fn law_accepted_names_one_directory(tokens: Seq<Seq<char>>)
    requires
        parsed(tokens) is Ok,
    ensures
        exists|d: int|
            #[trigger] is_directory_token(tokens, d) && parsed(tokens)->Ok_0.source_directory
                == tokens[d] && forall|k: int| k != d ==> !is_directory_token(tokens, k),
{
    lemma_scan_accepts(tokens, 1, None, Seq::empty());
}

} // verus!
