// A fixture walk-through of the three operations on a file `a.txt` committed
// three times with contents "1", "2", "3", using the texts the tool prints
// for that history, plus a harness-side applier for zero-context unified
// diffs to check that a diff carries one snapshot to the other.

use git_diff_stepper::provider::{
    commit_list_request, diff_request, get_commit_list, get_diff, get_file_at_version,
    snapshot_request, ToolOutcome,
};

fn ok_output(text: &str) -> ToolOutcome {
    ToolOutcome::Finished { exit_ok: true, stdout: Some(text.to_string()) }
}

/// Apply a zero-context unified diff to `base`, line by line: copy unchanged
/// lines up to each hunk, drop the hunk's `-` lines, emit its `+` lines.
fn apply_unified_diff(base: &str, diff: &str) -> String {
    let base_lines: Vec<&str> = base.lines().collect();
    let mut out: Vec<String> = Vec::new();
    let mut next: usize = 0;
    let mut in_hunks = false;
    for line in diff.lines() {
        if line.starts_with("@@") {
            in_hunks = true;
            let old_range = line.split_whitespace().nth(1).unwrap();
            let mut parts = old_range[1..].split(',');
            let start: usize = parts.next().unwrap().parse().unwrap();
            let count: usize = parts.next().map(|c| c.parse().unwrap()).unwrap_or(1);
            let hunk_start = if count == 0 { start } else { start - 1 };
            while next < hunk_start {
                out.push(base_lines[next].to_string());
                next += 1;
            }
        } else if !in_hunks {
            continue;
        } else if line.starts_with('-') {
            next += 1;
        } else if line.starts_with('+') {
            out.push(line[1..].to_string());
        }
    }
    while next < base_lines.len() {
        out.push(base_lines[next].to_string());
        next += 1;
    }
    let mut result = out.join("\n");
    if !out.is_empty() {
        result.push('\n');
    }
    result
}

const DIFF_H1_H3: &str = "diff --git a/a.txt b/a.txt\n\
    index d00491f..00750ed 100644\n\
    --- a/a.txt\n\
    +++ b/a.txt\n\
    @@ -1 +1 @@\n\
    -1\n\
    +3\n";

#[test]
fn three_commits_end_to_end() {
    // Open the file: the log facility prints the three hashes newest first,
    // and the list handed to the viewer is oldest first.
    let log_req = commit_list_request("fixture/a.txt");
    assert_eq!(log_req.cwd, "fixture");
    let commits = get_commit_list(ok_output("h3\nh2\nh1")).unwrap();
    assert_eq!(commits, vec!["h1".to_string(), "h2".to_string(), "h3".to_string()]);

    // Step to the first commit: the show facility prints the content "1".
    let show_req = snapshot_request("fixture/a.txt", &commits[0]);
    assert_eq!(show_req.args, vec!["--no-pager", "show", "h1:./a.txt"]);
    let snapshot = get_file_at_version(ok_output("1\n")).unwrap();
    assert_eq!(snapshot, "1\n");

    // Diff the first commit against the last: removal of "1", addition of
    // "3", zero context lines, handed back exactly as printed.
    let diff_req = diff_request("fixture/a.txt", &commits[0], &commits[2]);
    assert_eq!(diff_req.args, vec!["--no-pager", "diff", "-U0", "h1", "h3", "--", "a.txt"]);
    let diff = get_diff(ok_output(DIFF_H1_H3)).unwrap();
    assert_eq!(diff, DIFF_H1_H3);
}

#[test]
fn diff_applied_to_base_yields_target() {
    // The diff from h1 to h3 carries the snapshot at h1 to the snapshot at
    // h3 under the harness's diff-application semantics.
    let at_h1 = "1\n";
    let at_h3 = "3\n";
    assert_eq!(apply_unified_diff(at_h1, DIFF_H1_H3), at_h3);
}

#[test]
fn diff_application_handles_interior_change() {
    let before = "alpha\nbeta\ngamma\n";
    let after = "alpha\nBETA\ngamma\n";
    let diff = "--- a/f\n+++ b/f\n@@ -2 +2 @@\n-beta\n+BETA\n";
    assert_eq!(apply_unified_diff(before, diff), after);
}

#[test]
fn diff_application_handles_insertion() {
    let before = "alpha\nbeta\n";
    let after = "alpha\nnew\nbeta\n";
    let diff = "--- a/f\n+++ b/f\n@@ -1,0 +2 @@\n+new\n";
    assert_eq!(apply_unified_diff(before, diff), after);
}

#[test]
fn empty_diff_changes_nothing() {
    // Diffing a revision against itself prints nothing, and applying the
    // empty diff gives the snapshot back unchanged.
    let diff = get_diff(ok_output("")).unwrap();
    assert_eq!(apply_unified_diff("1\n", &diff), "1\n");
}
