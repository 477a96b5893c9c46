//! The history/diff provider: for each of the three operations — list the
//! commits touching a file, fetch the file's content as of a revision, fetch
//! the zero-context diff between two revisions — a request builder says
//! exactly which subprocess invocation to run, and an interpreter says
//! exactly what the captured outcome means.
//!
//! The shell around the library runs a [`GitRequest`], reports what happened
//! as a [`ToolOutcome`], and hands it back; every failure becomes a typed
//! [`GitError`] instead of aborting the caller.

use vstd::prelude::*;
use crate::paths::{base_name, base_name_of, parent_dir, parent_of};
use crate::text::{lemma_split_lines_count, newline_count, reverse_strings, split_lines,
    split_newlines};

verus! {

/// One subprocess invocation: the program, its arguments in order, and the
/// directory to run it in.
pub struct GitRequest {
    pub program: String,
    pub args: Vec<String>,
    pub cwd: String,
}

/// What the shell observed when it ran a request: the process could not be
/// started at all, or it finished with an exit status and captured standard
/// output (`None` when the captured bytes were not valid UTF-8 text).
pub enum ToolOutcome {
    LaunchFailed,
    Finished { exit_ok: bool, stdout: Option<String> },
}

/// Why an operation failed: the tool could not be started, it started but
/// exited abnormally, or its output was not valid UTF-8 text.
#[derive(Clone, Copy, Debug, PartialEq, Eq)]
pub enum GitError {
    ProcessLaunchFailure,
    ProcessExecutionFailure,
    EncodingFailure,
}

/// The text an outcome carries, or the error it classifies as: a launch
/// failure, an abnormal exit, and undecodable output are each their own
/// error, and only a clean exit with decodable output yields text.
pub open spec fn outcome_text(o: ToolOutcome) -> Result<Seq<char>, GitError> {
    match o {
        ToolOutcome::LaunchFailed => Err(GitError::ProcessLaunchFailure),
        ToolOutcome::Finished { exit_ok, stdout } => {
            if !exit_ok {
                Err(GitError::ProcessExecutionFailure)
            } else {
                match stdout {
                    Option::None => Err(GitError::EncodingFailure),
                    Option::Some(text) => Ok(text@),
                }
            }
        },
    }
}

/// The invocation that lists the history of `file_path`: the tool's log
/// facility, abbreviated identifiers only, scoped to the file, run in the
/// file's parent directory.
pub fn commit_list_request(file_path: &str) -> (req: GitRequest)
    ensures
        req.program@ == "git"@,
        req.args.deep_view() == seq![
            "--no-pager"@,
            "log"@,
            "--pretty=format:%h"@,
            "--"@,
            file_path@,
        ],
        req.cwd@ == parent_of(file_path@),
{
    let mut args: Vec<String> = Vec::new();
    args.push(String::from_str("--no-pager"));
    args.push(String::from_str("log"));
    args.push(String::from_str("--pretty=format:%h"));
    args.push(String::from_str("--"));
    args.push(String::from_str(file_path));
    let req = GitRequest { program: String::from_str("git"), args, cwd: parent_dir(file_path) };
    proof {
        assert(req.args.deep_view() =~= seq![
            "--no-pager"@,
            "log"@,
            "--pretty=format:%h"@,
            "--"@,
            file_path@,
        ]);
    }
    req
}

/// The invocation that prints the content of `file_path` as of `version`:
/// the tool's show facility on `<version>:./<base name>`, run in the file's
/// parent directory.
pub fn snapshot_request(file_path: &str, version: &str) -> (req: GitRequest)
    ensures
        req.program@ == "git"@,
        req.args.deep_view() == seq![
            "--no-pager"@,
            "show"@,
            version@ + ":./"@ + base_name_of(file_path@),
        ],
        req.cwd@ == parent_of(file_path@),
{
    let mut target = String::from_str(version);
    target.append(":./");
    let name = base_name(file_path);
    target.append(name.as_str());
    let mut args: Vec<String> = Vec::new();
    args.push(String::from_str("--no-pager"));
    args.push(String::from_str("show"));
    args.push(target);
    let req = GitRequest { program: String::from_str("git"), args, cwd: parent_dir(file_path) };
    proof {
        assert(req.args.deep_view() =~= seq![
            "--no-pager"@,
            "show"@,
            version@ + ":./"@ + base_name_of(file_path@),
        ]);
    }
    req
}

/// The invocation that prints the zero-context unified diff of `file_path`
/// between `before` and `after`: the tool's diff facility with context
/// suppressed, scoped to the file's base name, run in the file's parent
/// directory.  `before` is the base and `after` the target, in whichever
/// chronological direction the caller chose.
pub fn diff_request(file_path: &str, before: &str, after: &str) -> (req: GitRequest)
    ensures
        req.program@ == "git"@,
        req.args.deep_view() == seq![
            "--no-pager"@,
            "diff"@,
            "-U0"@,
            before@,
            after@,
            "--"@,
            base_name_of(file_path@),
        ],
        req.cwd@ == parent_of(file_path@),
{
    let mut args: Vec<String> = Vec::new();
    args.push(String::from_str("--no-pager"));
    args.push(String::from_str("diff"));
    args.push(String::from_str("-U0"));
    args.push(String::from_str(before));
    args.push(String::from_str(after));
    args.push(String::from_str("--"));
    args.push(base_name(file_path));
    let req = GitRequest { program: String::from_str("git"), args, cwd: parent_dir(file_path) };
    proof {
        assert(req.args.deep_view() =~= seq![
            "--no-pager"@,
            "diff"@,
            "-U0"@,
            before@,
            after@,
            "--"@,
            base_name_of(file_path@),
        ]);
    }
    req
}

/// The commit list carried by the outcome of a [`commit_list_request`]: the
/// log output split at newlines and reversed, so the result is oldest-first.
/// A file with no history makes the tool print nothing, and the empty text
/// splits into one empty identifier: the sentinel for "no commits" is the
/// one-element list holding the empty string, never the empty list.
pub fn get_commit_list(outcome: ToolOutcome) -> (r: Result<Vec<String>, GitError>)
    ensures
        outcome_text(outcome) matches Ok(text) ==> r matches Ok(commits)
            && commits.deep_view() == split_lines(text).reverse(),
        outcome_text(outcome) matches Err(e) ==> r == Err::<Vec<String>, GitError>(e),
{
    match outcome {
        ToolOutcome::LaunchFailed => Err(GitError::ProcessLaunchFailure),
        ToolOutcome::Finished { exit_ok, stdout } => {
            if !exit_ok {
                Err(GitError::ProcessExecutionFailure)
            } else {
                match stdout {
                    Option::None => Err(GitError::EncodingFailure),
                    Option::Some(text) => {
                        let newest_first = split_newlines(text.as_str());
                        Ok(reverse_strings(&newest_first))
                    },
                }
            }
        },
    }
}

/// The snapshot carried by the outcome of a [`snapshot_request`]: the raw
/// text the tool printed, exactly as captured, with no trimming.
pub fn get_file_at_version(outcome: ToolOutcome) -> (r: Result<String, GitError>)
    ensures
        outcome_text(outcome) matches Ok(text) ==> r matches Ok(content) && content@ == text,
        outcome_text(outcome) matches Err(e) ==> r == Err::<String, GitError>(e),
{
    match outcome {
        ToolOutcome::LaunchFailed => Err(GitError::ProcessLaunchFailure),
        ToolOutcome::Finished { exit_ok, stdout } => {
            if !exit_ok {
                Err(GitError::ProcessExecutionFailure)
            } else {
                match stdout {
                    Option::None => Err(GitError::EncodingFailure),
                    Option::Some(text) => Ok(text),
                }
            }
        },
    }
}

/// The diff carried by the outcome of a [`diff_request`]: the raw unified
/// diff text the tool printed, exactly as captured, unmodified.
pub fn get_diff(outcome: ToolOutcome) -> (r: Result<String, GitError>)
    ensures
        outcome_text(outcome) matches Ok(text) ==> r matches Ok(diff) && diff@ == text,
        outcome_text(outcome) matches Err(e) ==> r == Err::<String, GitError>(e),
{
    match outcome {
        ToolOutcome::LaunchFailed => Err(GitError::ProcessLaunchFailure),
        ToolOutcome::Finished { exit_ok, stdout } => {
            if !exit_ok {
                Err(GitError::ProcessExecutionFailure)
            } else {
                match stdout {
                    Option::None => Err(GitError::EncodingFailure),
                    Option::Some(text) => Ok(text),
                }
            }
        },
    }
}

/// A history of `n + 1` commits prints `n` newlines, and the list handed
/// back holds exactly one identifier per log line: reversing the tool's
/// newest-first output never adds or drops an entry.
pub proof fn lemma_commit_count(text: Seq<char>)
    ensures
        split_lines(text).reverse().len() == newline_count(text) + 1,
{
    lemma_split_lines_count(text);
}

/// A file with no history makes the tool print nothing, and the empty text
/// yields the one-entry sentinel holding the empty identifier — never the
/// empty list.
pub proof fn lemma_empty_history_sentinel()
    ensures
        split_lines(Seq::<char>::empty()).reverse() == seq![Seq::<char>::empty()],
{
    assert(split_lines(Seq::<char>::empty()) =~= seq![Seq::<char>::empty()]);
    assert(seq![Seq::<char>::empty()].reverse() =~= seq![Seq::<char>::empty()]);
}

/// What an opened file shows: the path and its commit list, oldest-first.
#[derive(Debug)]
pub struct FileInfo {
    pub file_path: String,
    pub commit_list: Vec<String>,
}

/// Everything the viewer needs when a file is opened, from the outcome of
/// that file's [`commit_list_request`].  On any failure the file must not be
/// presented as opened, so the error is handed back instead.
pub fn open_file_info(file_path: String, log_outcome: ToolOutcome) -> (r: Result<
    FileInfo,
    GitError,
>)
    ensures
        outcome_text(log_outcome) matches Ok(text) ==> r matches Ok(info)
            && info.file_path@ == file_path@
            && info.commit_list.deep_view() == split_lines(text).reverse(),
        outcome_text(log_outcome) matches Err(e) ==> r == Err::<FileInfo, GitError>(e),
{
    match get_commit_list(log_outcome) {
        Ok(commit_list) => Ok(FileInfo { file_path, commit_list }),
        Err(e) => Err(e),
    }
}

} // verus!
