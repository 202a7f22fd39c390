use vstd::prelude::*;

use crate::json::{items_view, lemma_items_view, Json, JsonView};
use crate::paths::{adjoin, path_has_prefix, path_join, path_starts_with};
use crate::text::{
    begins_with_slash, contains_double_dot, decimal, decimal_string, has_double_dot, join_range,
    join_with, same_text, split_lines, starts_with_slash, string_views, text_lines,
};

verus! {

/// The tools of an agent: reading files and prompts, listing directories and asking git,
/// all confined to a worktree and a directory of prompts.
pub struct ToolBox {
    worktree_path: String,
    prompts_dir: String,
}

/// The git subcommands the tools run.
#[derive(Debug, Clone, Copy, PartialEq, Eq, Structural)]
pub enum GitCommand {
    Blame,
    Diff,
    Show,
}

impl GitCommand {
    /// The name of the subcommand on git's command line.
    pub open spec fn spec_word(self) -> Seq<char> {
        match self {
            GitCommand::Blame => "blame"@,
            GitCommand::Diff => "diff"@,
            GitCommand::Show => "show"@,
        }
    }

    /// The name of the subcommand on git's command line.
    pub fn word(&self) -> (w: &'static str)
        ensures
            w@ == self.spec_word(),
    {
        match self {
            GitCommand::Blame => "blame",
            GitCommand::Diff => "diff",
            GitCommand::Show => "show",
        }
    }
}

/// Why a tool call was refused or failed.
#[derive(Debug)]
pub enum ToolError {
    /// No tool has this name.
    UnknownTool(String),
    /// The arguments lack this member, or it has the wrong type.
    MissingArgument(String),
    /// The path climbs with ".." or begins at the root.
    InvalidPath(String),
    /// The joined path does not lie under the base directory.
    PathTraversal(String),
    /// The git command ended in failure, with this error output.
    CommandFailed { command: GitCommand, stderr: String },
}

/// The mathematical form of a `ToolError`.
pub enum ToolErrorView {
    UnknownTool(Seq<char>),
    MissingArgument(Seq<char>),
    InvalidPath(Seq<char>),
    PathTraversal(Seq<char>),
    CommandFailed { command: GitCommand, stderr: Seq<char> },
}

impl View for ToolError {
    type V = ToolErrorView;

    open spec fn view(&self) -> ToolErrorView {
        match self {
            ToolError::UnknownTool(s) => ToolErrorView::UnknownTool(s@),
            ToolError::MissingArgument(s) => ToolErrorView::MissingArgument(s@),
            ToolError::InvalidPath(s) => ToolErrorView::InvalidPath(s@),
            ToolError::PathTraversal(s) => ToolErrorView::PathTraversal(s@),
            ToolError::CommandFailed { command, stderr } => ToolErrorView::CommandFailed {
                command: *command,
                stderr: stderr@,
            },
        }
    }
}

/// The work that a tool call asks for, decided before any file or process is touched.
#[derive(Debug)]
pub enum ToolRequest {
    /// Read this file and show the lines from `start_line` to `end_line` (1-based).
    ReadFile { path: String, start_line: Option<usize>, end_line: Option<usize> },
    /// Run `program` (git) with these arguments in this directory.
    RunGit { program: String, command: GitCommand, dir: String, args: Vec<String> },
    /// List the entries of this directory.
    ListDir { path: String },
    /// Read this prompt file whole.
    ReadPrompt { path: String },
}

/// The mathematical form of a `ToolRequest`.
pub enum ToolRequestView {
    ReadFile { path: Seq<char>, start_line: Option<usize>, end_line: Option<usize> },
    RunGit { program: Seq<char>, command: GitCommand, dir: Seq<char>, args: Seq<Seq<char>> },
    ListDir { path: Seq<char> },
    ReadPrompt { path: Seq<char> },
}

impl View for ToolRequest {
    type V = ToolRequestView;

    open spec fn view(&self) -> ToolRequestView {
        match self {
            ToolRequest::ReadFile { path, start_line, end_line } => ToolRequestView::ReadFile {
                path: path@,
                start_line: *start_line,
                end_line: *end_line,
            },
            ToolRequest::RunGit { program, command, dir, args } => ToolRequestView::RunGit {
                program: program@,
                command: *command,
                dir: dir@,
                args: string_views(args@),
            },
            ToolRequest::ListDir { path } => ToolRequestView::ListDir { path: path@ },
            ToolRequest::ReadPrompt { path } => ToolRequestView::ReadPrompt { path: path@ },
        }
    }
}

/// The mathematical form of a result that holds a string or a tool error.
pub open spec fn path_result_view(r: Result<String, ToolError>) -> Result<Seq<char>, ToolErrorView> {
    match r {
        Ok(s) => Ok(s@),
        Err(e) => Err(e@),
    }
}

/// The mathematical form of the result of a call.
pub open spec fn request_result_view(r: Result<ToolRequest, ToolError>) -> Result<
    ToolRequestView,
    ToolErrorView,
> {
    match r {
        Ok(q) => Ok(q@),
        Err(e) => Err(e@),
    }
}

/// The path that `relative` names under `base`, or why it is refused: a relative path that
/// climbs with ".." or begins at the root is invalid, and a joined path that does not lie
/// under `base` is a traversal.
pub open spec fn checked_path(relative: Seq<char>, base: Seq<char>) -> Result<
    Seq<char>,
    ToolErrorView,
> {
    if has_double_dot(relative) || begins_with_slash(relative) {
        Err(ToolErrorView::InvalidPath(relative))
    } else if !path_starts_with(adjoin(base, relative), base) {
        Err(ToolErrorView::PathTraversal(adjoin(base, relative)))
    } else {
        Ok(adjoin(base, relative))
    }
}

/// A line number argument: a non-negative integer, taken as a `usize`.
pub open spec fn line_argument(v: JsonView) -> Option<usize> {
    match v.as_u64() {
        Some(n) => Some(n as usize),
        None => None,
    }
}

/// The arguments of `git blame` for a file, with a line range where both ends are given.
pub open spec fn blame_arguments(path: Seq<char>, start: Option<u64>, end: Option<u64>) -> Seq<
    Seq<char>,
> {
    let range = match (start, end) {
        (Some(s), Some(e)) => seq!["-L"@ + decimal(s as nat) + ","@ + decimal(e as nat)],
        _ => Seq::empty(),
    };
    seq!["blame"@] + range + seq!["--"@, path]
}

/// The strings among some JSON values, in order; the other values are left out.
pub open spec fn strings_among(items: Seq<JsonView>) -> Seq<Seq<char>>
    decreases items.len(),
{
    if items.len() == 0 {
        Seq::empty()
    } else {
        let before = strings_among(items.drop_last());
        match items.last().as_str() {
            Some(s) => before.push(s),
            None => before,
        }
    }
}

/// What a call of the tool `name` with `args` asks for, for a tool box with this worktree
/// and this prompt directory.
pub open spec fn planned_call(
    worktree: Seq<char>,
    prompts: Seq<char>,
    name: Seq<char>,
    args: JsonView,
) -> Result<ToolRequestView, ToolErrorView> {
    if name == "read_file"@ {
        match args.get("path"@).as_str() {
            None => Err(ToolErrorView::MissingArgument("path"@)),
            Some(p) => match checked_path(p, worktree) {
                Ok(full) => Ok(
                    ToolRequestView::ReadFile {
                        path: full,
                        start_line: line_argument(args.get("start_line"@)),
                        end_line: line_argument(args.get("end_line"@)),
                    },
                ),
                Err(e) => Err(e),
            },
        }
    } else if name == "git_blame"@ {
        match args.get("path"@).as_str() {
            None => Err(ToolErrorView::MissingArgument("path"@)),
            Some(p) => Ok(
                ToolRequestView::RunGit {
                    program: "git"@,
                    command: GitCommand::Blame,
                    dir: worktree,
                    args: blame_arguments(
                        p,
                        args.get("start_line"@).as_u64(),
                        args.get("end_line"@).as_u64(),
                    ),
                },
            ),
        }
    } else if name == "git_diff"@ {
        match args.get("args"@).as_array() {
            None => Err(ToolErrorView::MissingArgument("args"@)),
            Some(items) => Ok(
                ToolRequestView::RunGit {
                    program: "git"@,
                    command: GitCommand::Diff,
                    dir: worktree,
                    args: seq!["diff"@] + strings_among(items),
                },
            ),
        }
    } else if name == "git_show"@ {
        match args.get("object"@).as_str() {
            None => Err(ToolErrorView::MissingArgument("object"@)),
            Some(o) => Ok(
                ToolRequestView::RunGit {
                    program: "git"@,
                    command: GitCommand::Show,
                    dir: worktree,
                    args: seq!["show"@, o],
                },
            ),
        }
    } else if name == "list_dir"@ {
        match args.get("path"@).as_str() {
            None => Err(ToolErrorView::MissingArgument("path"@)),
            Some(p) => match checked_path(p, worktree) {
                Ok(full) => Ok(ToolRequestView::ListDir { path: full }),
                Err(e) => Err(e),
            },
        }
    } else if name == "read_prompt"@ {
        match args.get("name"@).as_str() {
            None => Err(ToolErrorView::MissingArgument("name"@)),
            Some(p) => match checked_path(p, prompts) {
                Ok(full) => Ok(ToolRequestView::ReadPrompt { path: full }),
                Err(e) => Err(e),
            },
        }
    } else {
        Err(ToolErrorView::UnknownTool(name))
    }
}

fn missing(what: &str) -> (e: ToolError)
    ensures
        e@ == ToolErrorView::MissingArgument(what@),
{
    ToolError::MissingArgument(String::from_str(what))
}

fn line_number(v: Option<&Json>) -> (n: Option<usize>)
    ensures
        n == line_argument(
            match v {
                Some(j) => j@,
                None => JsonView::Null,
            },
        ),
{
    match v {
        Some(j) => match j.as_u64() {
            Some(k) => Some(k as usize),
            None => None,
        },
        None => None,
    }
}

fn str_argument<'a>(args: &'a Json, key: &str) -> (s: Option<&'a str>)
    ensures
        match s {
            Some(t) => args@.get(key@).as_str() == Some(t@),
            None => args@.get(key@).as_str() is None,
        },
{
    match args.get(key) {
        Some(v) => v.as_str(),
        None => None,
    }
}

fn u64_argument(args: &Json, key: &str) -> (n: Option<u64>)
    ensures
        n == args@.get(key@).as_u64(),
{
    match args.get(key) {
        Some(v) => v.as_u64(),
        None => None,
    }
}

fn blame_args(path: &str, start: Option<u64>, end: Option<u64>) -> (args: Vec<String>)
    ensures
        string_views(args@) == blame_arguments(path@, start, end),
{
    let mut args: Vec<String> = Vec::new();
    args.push(String::from_str("blame"));
    match (start, end) {
        (Some(s), Some(e)) => {
            let mut range = String::from_str("-L");
            range.append(decimal_string(s).as_str());
            range.append(",");
            range.append(decimal_string(e).as_str());
            args.push(range);
        },
        _ => {},
    }
    args.push(String::from_str("--"));
    args.push(String::from_str(path));
    assert(string_views(args@) =~= blame_arguments(path@, start, end));
    args
}

fn diff_args(items: &Vec<Json>) -> (args: Vec<String>)
    ensures
        string_views(args@) == seq!["diff"@] + strings_among(items_view(items@)),
{
    let mut args: Vec<String> = Vec::new();
    args.push(String::from_str("diff"));
    let ghost views = items_view(items@);
    proof {
        lemma_items_view(items@);
    }
    let mut i: usize = 0;
    assert(views.subrange(0, 0) =~= Seq::<JsonView>::empty());
    while i < items.len()
        invariant
            i <= items@.len(),
            views == items_view(items@),
            views.len() == items@.len(),
            forall|j: int| 0 <= j < items@.len() ==> #[trigger] views[j] == items@[j]@,
            string_views(args@) == seq!["diff"@] + strings_among(views.subrange(0, i as int)),
        decreases items.len() - i,
    {
        let ghost before = args@;
        assert(views.subrange(0, i + 1).drop_last() =~= views.subrange(0, i as int));
        assert(views.subrange(0, i + 1).last() == items@[i as int]@);
        match items[i].as_str() {
            Some(s) => {
                args.push(String::from_str(s));
                assert(string_views(args@) =~= string_views(before).push(s@));
            },
            None => {},
        }
        i = i + 1;
    }
    assert(views.subrange(0, items@.len() as int) =~= views);
    args
}

impl ToolBox {
    /// The worktree that file tools and git work in.
    pub closed spec fn worktree(&self) -> Seq<char> {
        self.worktree_path@
    }

    /// The directory that prompts are read from.
    pub closed spec fn prompts(&self) -> Seq<char> {
        self.prompts_dir@
    }

    /// A tool box for this worktree and this directory of prompts.
    pub fn new(worktree_path: String, prompts_dir: String) -> (tools: Self)
        ensures
            tools.worktree() == worktree_path@,
            tools.prompts() == prompts_dir@,
    {
        ToolBox { worktree_path, prompts_dir }
    }

    /// The path that `relative` names under `base`: refused where it holds ".." or begins
    /// with "/", and where the joined path does not lie under `base`.
    pub fn validate_path(&self, relative: &str, base: &str) -> (checked: Result<String, ToolError>)
        ensures
            path_result_view(checked) == checked_path(relative@, base@),
            !has_double_dot(relative@) && !begins_with_slash(relative@) ==> path_result_view(
                checked,
            ) == Ok::<Seq<char>, ToolErrorView>(adjoin(base@, relative@)),
            !has_double_dot(relative@) && !begins_with_slash(relative@) ==> checked is Ok,
            !(checked is Err && checked->Err_0 is PathTraversal),
    {
        if contains_double_dot(relative) || starts_with_slash(relative) {
            return Err(ToolError::InvalidPath(String::from_str(relative)));
        }
        let full_path = path_join(base, relative);
        assert(full_path@ == adjoin(base@, relative@));
        if !path_has_prefix(full_path.as_str(), base) {
            return Err(ToolError::PathTraversal(full_path));
        }
        Ok(full_path)
    }

    /// Decides what a call of the tool `name` with `args` asks for: the file or directory to
    /// read, or the git command to run. Unknown names, missing arguments and paths that
    /// leave their directory are refused.
    pub fn call(&self, name: &str, args: &Json) -> (request: Result<ToolRequest, ToolError>)
        ensures
            request_result_view(request) == planned_call(
                self.worktree(),
                self.prompts(),
                name@,
                args@,
            ),
            !(request is Err && request->Err_0 is PathTraversal),
    {
        if same_text(name, "read_file") {
            let path_str = match str_argument(args, "path") {
                Some(p) => p,
                None => return Err(missing("path")),
            };
            let start_line = line_number(args.get("start_line"));
            let end_line = line_number(args.get("end_line"));
            let path = match self.validate_path(path_str, self.worktree_path.as_str()) {
                Ok(p) => p,
                Err(e) => return Err(e),
            };
            Ok(ToolRequest::ReadFile { path, start_line, end_line })
        } else if same_text(name, "git_blame") {
            let path_str = match str_argument(args, "path") {
                Some(p) => p,
                None => return Err(missing("path")),
            };
            let start_line = u64_argument(args, "start_line");
            let end_line = u64_argument(args, "end_line");
            Ok(
                ToolRequest::RunGit {
                    program: String::from_str("git"),
                    command: GitCommand::Blame,
                    dir: self.worktree_path.clone(),
                    args: blame_args(path_str, start_line, end_line),
                },
            )
        } else if same_text(name, "git_diff") {
            let items = match args.get("args") {
                Some(v) => v.as_array(),
                None => None,
            };
            match items {
                Some(items) => Ok(
                    ToolRequest::RunGit {
                        program: String::from_str("git"),
                        command: GitCommand::Diff,
                        dir: self.worktree_path.clone(),
                        args: diff_args(items),
                    },
                ),
                None => Err(missing("args")),
            }
        } else if same_text(name, "git_show") {
            let object = match str_argument(args, "object") {
                Some(o) => o,
                None => return Err(missing("object")),
            };
            let mut git_args: Vec<String> = Vec::new();
            git_args.push(String::from_str("show"));
            git_args.push(String::from_str(object));
            assert(string_views(git_args@) =~= seq!["show"@, object@]);
            Ok(
                ToolRequest::RunGit {
                    program: String::from_str("git"),
                    command: GitCommand::Show,
                    dir: self.worktree_path.clone(),
                    args: git_args,
                },
            )
        } else if same_text(name, "list_dir") {
            let path_str = match str_argument(args, "path") {
                Some(p) => p,
                None => return Err(missing("path")),
            };
            let path = match self.validate_path(path_str, self.worktree_path.as_str()) {
                Ok(p) => p,
                Err(e) => return Err(e),
            };
            Ok(ToolRequest::ListDir { path })
        } else if same_text(name, "read_prompt") {
            let prompt = match str_argument(args, "name") {
                Some(p) => p,
                None => return Err(missing("name")),
            };
            let path = match self.validate_path(prompt, self.prompts_dir.as_str()) {
                Ok(p) => p,
                Err(e) => return Err(e),
            };
            Ok(ToolRequest::ReadPrompt { path })
        } else {
            Err(ToolError::UnknownTool(String::from_str(name)))
        }
    }
}

} // verus!

verus! {

/// The index of the first line shown: the 1-based `start_line` made 0-based, with 0 and no
/// value both meaning the first line.
pub open spec fn window_start(start_line: Option<usize>) -> int {
    match start_line {
        Some(s) => if s >= 1 { s - 1 } else { 0 },
        None => 0,
    }
}

/// The index just past the last line shown: `end_line`, but never past the end of the file.
pub open spec fn window_end(total: int, end_line: Option<usize>) -> int {
    match end_line {
        Some(e) => if e <= total { e as int } else { total },
        None => total,
    }
}

/// Whether the window of lines is backwards while it starts inside the file; slicing the lines
/// then panics.
pub open spec fn window_is_backwards(total: int, start_line: Option<usize>, end_line: Option<usize>) -> bool {
    window_start(start_line) < total && window_end(total, end_line) < window_start(start_line)
}

/// The lines of a file that a read shows.
#[derive(Debug)]
pub struct FileSlice {
    /// The lines shown, joined with "\n".
    pub content: String,
    /// How many lines are shown.
    pub lines_read: usize,
    /// How many lines the file has.
    pub total_lines: usize,
    /// The first (1-based) and last line shown, where any is shown.
    pub shown: Option<(usize, usize)>,
}

/// The 0-based first line and the end of the window of lines that a read of a file of
/// `total` lines shows.
pub fn line_window(total: usize, start_line: Option<usize>, end_line: Option<usize>) -> (window: (usize, usize))
    ensures
        window.0 == window_start(start_line),
        window.1 == window_end(total as int, end_line),
{
    let start: usize = match start_line {
        Some(s) => if s >= 1 { s - 1 } else { 0 },
        None => 0,
    };
    let end: usize = match end_line {
        Some(e) => if e <= total { e } else { total },
        None => total,
    };
    (start, end)
}

/// Whether a read of `content` with this range would be a backwards window that starts
/// inside the text, the case in which slicing the lines panics.
pub fn read_window_is_backwards(content: &str, start_line: Option<usize>, end_line: Option<usize>) -> (backwards: bool)
    ensures
        backwards == window_is_backwards(text_lines(content@).len() as int, start_line, end_line),
{
    let lines = split_lines(content);
    let total = lines.len();
    proof {
        assert(string_views(lines@).len() == lines@.len());
    }
    let (start, end) = line_window(total, start_line, end_line);
    start < total && end < start
}

/// The lines of `content` from `start_line` to `end_line` (1-based, both optional), joined
/// with "\n", with their count and the number of lines in the text. A window that starts past
/// the last line shows nothing.
pub fn read_file_slice(content: &str, start_line: Option<usize>, end_line: Option<usize>) -> (slice: FileSlice)
    requires
        !window_is_backwards(text_lines(content@).len() as int, start_line, end_line),
    ensures
        ({
            let lines = text_lines(content@);
            let total = lines.len() as int;
            let start = window_start(start_line);
            let end = window_end(total, end_line);
            &&& slice.total_lines == total
            &&& start >= total ==> {
                &&& slice.content@ == Seq::<char>::empty()
                &&& slice.lines_read == 0
                &&& slice.shown is None
            }
            &&& start < total ==> {
                &&& slice.content@ == join_with(lines.subrange(start, end), seq!['\n'])
                &&& slice.lines_read == end - start
                &&& slice.shown == Some(((start + 1) as usize, end as usize))
            }
        }),
{
    let lines = split_lines(content);
    let total_lines = lines.len();
    let (start, end) = line_window(total_lines, start_line, end_line);
    if start >= total_lines {
        return FileSlice { content: String::new(), lines_read: 0, total_lines, shown: None };
    }
    proof {
        reveal_strlit("\n");
        assert("\n"@ =~= seq!['\n']);
    }
    let joined = join_range(&lines, start, end, "\n");
    FileSlice { content: joined, lines_read: end - start, total_lines, shown: Some((start + 1, end)) }
}

/// The output of a git command: what it wrote when it succeeded, and its error output as a
/// failure of that command when it did not.
pub fn command_output(command: GitCommand, succeeded: bool, stdout: String, stderr: String) -> (output: Result<String, ToolError>)
    ensures
        (match output {
            Ok(s) => succeeded && s@ == stdout@,
            Err(e) => !succeeded && e@ == (ToolErrorView::CommandFailed {
                command,
                stderr: stderr@,
            }),
        }),
{
    if !succeeded {
        return Err(ToolError::CommandFailed { command, stderr });
    }
    Ok(stdout)
}

/// What a directory entry is, as a listing reports it.
#[derive(Debug, Clone, Copy, PartialEq, Eq, Structural)]
pub enum EntryKind {
    Dir,
    File,
}

impl EntryKind {
    /// A directory is a "dir"; anything else is a "file".
    pub fn of(is_dir: bool) -> (kind: EntryKind)
        ensures
            kind == (if is_dir { EntryKind::Dir } else { EntryKind::File }),
    {
        if is_dir {
            EntryKind::Dir
        } else {
            EntryKind::File
        }
    }

    /// The word that a listing writes for this kind.
    pub open spec fn spec_label(self) -> Seq<char> {
        match self {
            EntryKind::Dir => "dir"@,
            EntryKind::File => "file"@,
        }
    }

    /// The word that a listing writes for this kind.
    pub fn label(&self) -> (word: &'static str)
        ensures
            word@ == self.spec_label(),
    {
        match self {
            EntryKind::Dir => "dir",
            EntryKind::File => "file",
        }
    }
}

} // verus!

verus! {

/// A path that a call reads from names a relative path under the worktree (or, for prompts,
/// under the prompt directory) that neither climbs with ".." nor begins at the root, and the
/// joined path lies under that directory.
pub proof fn called_paths_stay_inside(
    worktree: Seq<char>,
    prompts: Seq<char>,
    name: Seq<char>,
    args: JsonView,
)
    ensures
        match planned_call(worktree, prompts, name, args) {
            Ok(ToolRequestView::ReadFile { path, .. }) | Ok(ToolRequestView::ListDir { path }) => {
                &&& path_starts_with(path, worktree)
                &&& exists|relative: Seq<char>|
                    !has_double_dot(relative) && !begins_with_slash(relative) && path
                        == #[trigger] adjoin(worktree, relative)
            },
            Ok(ToolRequestView::ReadPrompt { path }) => {
                &&& path_starts_with(path, prompts)
                &&& exists|relative: Seq<char>|
                    !has_double_dot(relative) && !begins_with_slash(relative) && path
                        == #[trigger] adjoin(prompts, relative)
            },
            _ => true,
        },
{
    let key = if name == "read_prompt"@ { "name"@ } else { "path"@ };
    let relative = args.get(key).as_str();
    if relative is Some {
        let r = relative->0;
        assert(adjoin(worktree, r) == adjoin(worktree, r));
        assert(adjoin(prompts, r) == adjoin(prompts, r));
    }
}

/// A relative path that climbs with ".." or begins at the root is refused, whatever the base.
pub proof fn climbing_paths_are_refused(relative: Seq<char>, base: Seq<char>)
    requires
        has_double_dot(relative) || begins_with_slash(relative),
    ensures
        checked_path(relative, base) == Err::<Seq<char>, ToolErrorView>(
            ToolErrorView::InvalidPath(relative),
        ),
{
}

} // verus!

verus! {

/// A read without a range shows every line of the file; any window shows lines of the file
/// only, and a window that starts inside the file and is not backwards shows
/// `end - start` lines, numbered from `start + 1` to `end`.
pub proof fn line_window_lies_in_file(total: int, start_line: Option<usize>, end_line: Option<usize>)
    requires
        total >= 0,
    ensures
        window_start(None) == 0,
        window_end(total, None) == total,
        !window_is_backwards(total, None, None),
        0 <= window_start(start_line),
        0 <= window_end(total, end_line) <= total,
        window_start(start_line) < total && !window_is_backwards(total, start_line, end_line)
            ==> window_start(start_line) <= window_end(total, end_line),
{
}

} // verus!

verus! {

/// The string arguments of `git_diff` are kept as `filter_map(as_str)` keeps them: every
/// string, in order, and nothing else.
pub proof fn strings_among_keeps_every_string_in_order(items: Seq<JsonView>)
    ensures
        strings_among(items) == items.filter_map(|v: JsonView| v.as_str()),
    decreases items.len(),
{
    if items.len() > 0 {
        strings_among_keeps_every_string_in_order(items.drop_last());
        match items.last().as_str() {
            Some(s) => {
                assert(strings_among(items.drop_last()).push(s) =~= strings_among(
                    items.drop_last(),
                ) + seq![s]);
            },
            None => {},
        }
    }
}

/// A call of `git_diff` whose "args" member is an array runs `git diff` in the worktree with
/// every string of that array, in order, after "diff".
pub proof fn git_diff_passes_every_string_argument(
    worktree: Seq<char>,
    prompts: Seq<char>,
    args: JsonView,
    items: Seq<JsonView>,
)
    requires
        args.get("args"@) == JsonView::Array(items),
    ensures
        planned_call(worktree, prompts, "git_diff"@, args) == Ok::<ToolRequestView, ToolErrorView>(
            ToolRequestView::RunGit {
                program: "git"@,
                command: GitCommand::Diff,
                dir: worktree,
                args: seq!["diff"@] + items.filter_map(|v: JsonView| v.as_str()),
            },
        ),
{
    reveal_strlit("git_diff");
    reveal_strlit("read_file");
    reveal_strlit("git_blame");
    assert("git_diff"@ != "read_file"@) by {
        assert("git_diff"@.len() != "read_file"@.len());
    }
    assert("git_diff"@ != "git_blame"@) by {
        assert("git_diff"@.len() != "git_blame"@.len());
    }
    strings_among_keeps_every_string_in_order(items);
}

/// A read from 1-based line `s` shows line `s` first (index `s - 1`), a start of 0 or none
/// means the first line, and the window ends at 1-based line `e` or at the end of the text,
/// whichever comes first.
pub proof fn line_window_counts_from_one(total: int, s: usize, e: usize)
    requires
        total >= 0,
    ensures
        s >= 1 ==> window_start(Some(s)) == s - 1,
        window_start(Some(0)) == 0,
        window_start(None) == 0,
        e <= total ==> window_end(total, Some(e)) == e,
        e > total ==> window_end(total, Some(e)) == total,
        window_end(total, None) == total,
        1 <= s <= total && s <= e ==> window_end(total, Some(e)) - window_start(Some(s)) == (if e
            <= total {
            e as int
        } else {
            total
        }) - s + 1,
{
}

} // verus!
