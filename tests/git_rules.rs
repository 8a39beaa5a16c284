use gitko::components::{CommitDiffWindow, DiffWindow, InputWindow, LogWindow, PromptWindow};
use gitko::detail::DetailedCommitWindow;
use gitko::diff::color_diff_line;
use gitko::git::{
    add_file, branch, check_ignore, checkout_branch, checkout_file, commit, create_branch,
    current_branch, delete_branch, diff_commit, diff_file, head_branch, is_file_modified,
    is_ignored, is_in_worktree, last_commit, last_commit_hash, last_origin_commit,
    last_origin_commit_hash, log, origin_head_branch, output_lines, parse_file_state,
    parse_status, push, reset, show, split_lines, status, unstage_file, FileState, GitCommand,
};
use gitko::log::{graph_line_hash, map_line, parse_commit_hash};
use gitko::status::{
    filter_entries, section_of_line, status_lines, untracked_paths, EntryKind, MainWindow, Section,
    StatusReport,
};
use gitko::style::{Line, Style};

fn args(c: &GitCommand) -> Vec<&str> {
    c.args.iter().map(|s| s.as_str()).collect()
}

fn strings(v: &[&str]) -> Vec<String> {
    v.iter().map(|s| s.to_string()).collect()
}

#[test]
fn added_line_is_green_on_black() {
    let l = color_diff_line("+added");
    assert_eq!(l.parts.len(), 1);
    assert_eq!(l.parts[0].value, "+added");
    assert_eq!(l.parts[0].styles, vec![Style::Painted((0, 255, 0), (0, 0, 0))]);
}

#[test]
fn hunk_header_is_cyan_on_black() {
    let l = color_diff_line("@@ -1,2 +1,2 @@");
    assert_eq!(l.parts.len(), 1);
    assert_eq!(l.parts[0].styles, vec![Style::Painted((0, 255, 255), (0, 0, 0))]);
}

#[test]
fn removed_line_is_red_and_file_headers_are_plain() {
    let l = color_diff_line("-gone");
    assert_eq!(l.parts[0].styles, vec![Style::Painted((255, 0, 0), (0, 0, 0))]);
    assert_eq!(color_diff_line("+++ b/file").parts[0].styles, vec![Style::Plain]);
    assert_eq!(color_diff_line("--- a/file").parts[0].styles, vec![Style::Plain]);
    assert_eq!(color_diff_line(" context").parts[0].styles, vec![Style::Plain]);
    assert_eq!(color_diff_line("").parts[0].styles, vec![Style::Plain]);
    assert_eq!(color_diff_line("++").parts[0].styles, vec![Style::Painted((0, 255, 0), (0, 0, 0))]);
}

#[test]
fn file_states_from_status_lines() {
    assert_eq!(parse_file_state(" M src/a.rs"), FileState::Modified);
    assert_eq!(parse_file_state("MM src/a.rs"), FileState::Modified);
    assert_eq!(parse_file_state("A  new.rs"), FileState::Modified);
    assert_eq!(parse_file_state("M  staged.rs"), FileState::Staged);
    assert_eq!(parse_file_state(" D gone.rs"), FileState::Deleted);
    assert_eq!(parse_file_state("D  gone.rs"), FileState::Deleted);
    assert_eq!(parse_file_state("?? new/"), FileState::Untracked);
    assert_eq!(parse_file_state("R  a -> b"), FileState::Unknown);
    assert_eq!(parse_file_state("X  what"), FileState::Unknown);
    assert_eq!(parse_file_state("MMx"), FileState::Unknown);
    assert_eq!(parse_file_state("M"), FileState::Unknown);
    assert_eq!(parse_file_state(""), FileState::Unknown);
}

#[test]
fn status_letters_and_predicates() {
    assert_eq!(parse_status("AM x"), ('A', 'M'));
    assert!(is_in_worktree("M  a"));
    assert!(!is_in_worktree(" M a"));
    assert!(!is_in_worktree("?? a"));
    assert!(!is_in_worktree("M"));
    assert!(is_file_modified(" M a"));
    assert!(is_file_modified("?? a"));
    assert!(is_file_modified(" D a"));
    assert!(is_file_modified(" T a"));
    assert!(!is_file_modified("A  a"));
    assert!(!is_file_modified("D  a"));
    assert!(!is_file_modified(""));
}

#[test]
fn command_arguments() {
    assert_eq!(args(&status()), vec!["status", "-s"]);
    assert_eq!(args(&current_branch()), vec!["rev-parse", "--abbrev-ref", "HEAD"]);
    assert_eq!(args(&last_origin_commit_hash("main")), vec!["rev-parse", "origin/main"]);
    assert_eq!(args(&last_commit_hash("main")), vec!["rev-parse", "main"]);
    assert_eq!(
        args(&last_origin_commit("dev")),
        vec!["log", "-1", "--oneline", "--no-decorate", "origin/dev"]
    );
    assert_eq!(args(&last_commit()), vec!["log", "-1", "--oneline", "--no-decorate"]);
    assert_eq!(args(&origin_head_branch("x")), vec!["show", "-s", "--pretty=%d", "origin/x"]);
    assert_eq!(args(&head_branch()), vec!["show", "-s", "--pretty=%d", "HEAD"]);
    assert_eq!(args(&check_ignore("a/b")), vec!["check-ignore", "a/b"]);
    assert_eq!(args(&diff_file("a.rs")), vec!["--no-pager", "diff", "a.rs"]);
    assert_eq!(args(&diff_commit("abc1234")), vec!["--no-pager", "diff", "abc1234^!"]);
    assert_eq!(args(&add_file("a.rs")), vec!["add", "a.rs"]);
    assert_eq!(args(&unstage_file("a.rs")), vec!["reset", "a.rs"]);
    assert_eq!(args(&branch()), vec!["--no-pager", "branch"]);
    assert_eq!(args(&checkout_branch("dev")), vec!["checkout", "dev"]);
    assert_eq!(args(&checkout_file("f.rs")), vec!["checkout", "f.rs"]);
    assert_eq!(args(&delete_branch("old")), vec!["branch", "-D", "old"]);
    assert_eq!(args(&create_branch("new")), vec!["branch", "new"]);
    assert_eq!(args(&reset("abc1234", "--hard")), vec!["reset", "--hard", "abc1234"]);
    assert_eq!(args(&show("abc1234")), vec!["--no-pager", "show", "abc1234"]);
    assert!(!status().interactive);
}

#[test]
fn push_and_commit_arguments() {
    assert_eq!(args(&push(None, "main")), vec!["push", "origin", "main"]);
    assert_eq!(
        args(&push(Some(strings(&["--force-with-lease"])), "main")),
        vec!["push", "--force-with-lease", "origin", "main"]
    );
    let c = commit(Some(strings(&["--amend"])));
    assert_eq!(args(&c), vec!["commit", "--amend"]);
    assert!(c.interactive);
    assert_eq!(args(&commit(None)), vec!["commit"]);
}

#[test]
fn log_arguments_with_count() {
    let base = vec!["--no-pager", "log", "--graph", "--oneline", "--decorate", "--remotes", "--branches"];
    assert_eq!(args(&log(None)), base);
    let mut with = base.clone();
    with.push("--max-count=15");
    assert_eq!(args(&log(Some(15))), with);
    assert_eq!(args(&log(Some(0))).last(), Some(&"--max-count=0"));
    assert_eq!(args(&log(Some(4294967295))).last(), Some(&"--max-count=4294967295"));
}

#[test]
fn output_is_split_into_lines() {
    assert_eq!(output_lines("a\nb\n", "err"), strings(&["a", "b", ""]));
    assert_eq!(output_lines("", "fatal: x"), strings(&["fatal: x"]));
    assert_eq!(output_lines("", ""), Vec::<String>::new());
    assert_eq!(split_lines("one"), strings(&["one"]));
    assert_eq!(split_lines("\n\n"), strings(&["", "", ""]));
}

#[test]
fn ignored_when_git_prints_anything() {
    assert!(is_ignored(&strings(&["target"])));
    assert!(!is_ignored(&vec![]));
}

#[test]
fn commit_hash_of_a_graph_line() {
    assert_eq!(parse_commit_hash("* a1b2c3d (HEAD) msg"), Some("a1b2c3d".to_string()));
    assert_eq!(parse_commit_hash("| *   ffeeddc Merge"), Some("ffeeddc".to_string()));
    assert_eq!(parse_commit_hash("|/"), None);
    assert_eq!(parse_commit_hash("* abc"), None);
    assert_eq!(parse_commit_hash("*   "), None);
}

#[test]
fn graph_line_is_painted_at_the_hash() {
    let l = map_line("| * a1b2c3d msg");
    assert_eq!(l.parts.len(), 3);
    assert_eq!(l.parts[0].value, "| * ");
    assert_eq!(l.parts[1].value, "a1b2c3d");
    assert_eq!(l.parts[1].styles, vec![Style::Painted((255, 255, 0), (0, 0, 0))]);
    assert_eq!(l.parts[2].value, " msg");
    let plain = map_line("|\\");
    assert_eq!(plain.parts.len(), 1);
    assert_eq!(plain.value(), "|\\");
}

#[test]
fn hash_after_trimming_the_graph() {
    assert_eq!(graph_line_hash("| * a1b2c3d msg"), Some("a1b2c3d".to_string()));
    assert_eq!(graph_line_hash("* |\\"), None);
    assert_eq!(graph_line_hash("* abc"), None);
    assert_eq!(graph_line_hash(""), None);
}

#[test]
fn sections_found_by_title() {
    assert_eq!(section_of_line("Untracked (modified) files: (2)"), Some(Section::UntrackedModified));
    assert_eq!(section_of_line("Untracked files: (1)"), Some(Section::Untracked));
    assert_eq!(section_of_line("Modified files: (0)"), Some(Section::Modified));
    assert_eq!(section_of_line("Staged files: (3)"), Some(Section::Staged));
    assert_eq!(section_of_line("Deleted files:"), Some(Section::Deleted));
    assert_eq!(section_of_line(" M src/lib.rs"), None);
}

#[test]
fn select_line_toggles_sections() {
    let mut m = MainWindow::new();
    assert_eq!(m.select_line("Modified files: (1)"), Some(Section::Modified));
    assert_eq!(m.expanded_sections, vec![Section::Modified]);
    assert_eq!(m.select_line("?? x"), None);
    assert_eq!(m.expanded_sections, vec![Section::Modified]);
    m.select_line("Deleted files:");
    m.select_line("Modified files: (1)");
    assert_eq!(m.expanded_sections, vec![Section::Deleted]);
}

#[test]
fn entries_filtered_by_kind() {
    let e = strings(&[" D a", " M b", "MM c", "M  d", "A  e", "D  f", "?? g", "AM h"]);
    assert_eq!(filter_entries(EntryKind::Deleted, &e), strings(&[" D a"]));
    assert_eq!(filter_entries(EntryKind::Unstaged, &e), strings(&[" M b", "MM c"]));
    assert_eq!(filter_entries(EntryKind::Staged, &e), strings(&["MM c", "M  d", "A  e", "D  f", "AM h"]));
    assert_eq!(untracked_paths(&e, false), strings(&["g"]));
    assert_eq!(untracked_paths(&e, true), strings(&["h"]));
}

fn texts(lines: &[Line]) -> Vec<String> {
    lines.iter().map(|l| l.value()).collect()
}

#[test]
fn status_view_layout() {
    let report = StatusReport {
        head_branch: " (HEAD -> main)".to_string(),
        last_commit: "abc1234 msg".to_string(),
        origin: Some((" (origin/main)".to_string(), "def5678 old".to_string())),
        untracked: strings(&["new.rs"]),
        untracked_modified: vec![],
        entries: strings(&[" M b.rs", "M  c.rs", " D d.rs"]),
    };
    let folded = status_lines(&report, &vec![]);
    assert_eq!(
        texts(&folded),
        strings(&[
            "Head: (HEAD -> main) abc1234 msg",
            "Origin  (origin/main) def5678 old",
            "",
            "Untracked files: (1)",
            "",
            "Deleted files:",
            "",
            "Modified files: (1)",
            "",
            "Staged files: (1)",
            "M  c.rs",
        ])
    );
    assert_eq!(folded[0].parts[0].styles, vec![Style::Bold, Style::Underlined]);
    assert_eq!(folded[0].parts[1].styles, vec![Style::Painted((0, 255, 255), (0, 0, 0))]);
    assert_eq!(folded[1].parts[1].styles, vec![Style::Painted((255, 0, 0), (0, 0, 0))]);
    let open = status_lines(&report, &vec![Section::Untracked, Section::Modified, Section::Deleted]);
    assert_eq!(
        texts(&open),
        strings(&[
            "Head: (HEAD -> main) abc1234 msg",
            "Origin  (origin/main) def5678 old",
            "",
            "Untracked files: (1)",
            "?? new.rs",
            "",
            "Deleted files:",
            " D d.rs",
            "",
            "Modified files: (1)",
            " M b.rs",
            "",
            "",
            "Staged files: (1)",
            "M  c.rs",
        ])
    );
}

#[test]
fn clean_status_view() {
    let report = StatusReport {
        head_branch: "h".to_string(),
        last_commit: "c".to_string(),
        origin: None,
        untracked: vec![],
        untracked_modified: vec![],
        entries: vec![],
    };
    let m = MainWindow::new();
    assert_eq!(texts(&m.status_view(&report)), strings(&["Head:h c", "", "Modified files: (0)", ""]));
}

#[test]
fn component_constructors() {
    assert_eq!(InputWindow::new().text, "");
    assert_eq!(LogWindow::new().term, "");
    let c = CommitDiffWindow::new("abc1234");
    assert_eq!(c.commit_hash, "abc1234");
    let d = DiffWindow::new("src/a.rs", FileState::Untracked);
    assert_eq!(d.path, "src/a.rs");
    assert_eq!(d.file_state, FileState::Untracked);
    let p = PromptWindow::new("sure? y/n", 1, 2);
    assert_eq!(p.message, "sure? y/n");
    assert_eq!((p.on_yes, p.on_no), (1, 2));
    let dc = DetailedCommitWindow::new("abc");
    assert_eq!(dc.commit_hash, "abc");
    assert!(dc.file_changes.is_empty());
}

#[test]
fn options_open_with_two_dashes() {
    assert!(gitko::git::is_option("--hard"));
    assert!(!gitko::git::is_option("-x"));
    assert!(!gitko::git::is_option("Git reset modes:"));
    assert!(!gitko::git::is_option(""));
}

#[test]
fn commit_details_grouped_by_file() {
    let show = strings(&[
        "commit abc",
        "Author: me",
        "",
        "    message",
        "diff --git a/src/x.rs b/src/x.rs",
        "--- a/src/x.rs",
        "+++ b/src/x.rs",
        "+new",
        "diff --git a/y b/y",
        "--- a/y",
        "-old",
    ]);
    let mut d = DetailedCommitWindow::new("abc");
    let lines = d.refresh(&show);
    assert_eq!(d.commit_details, strings(&["commit abc", "Author: me", "", "    message"]));
    assert_eq!(d.file_changes.len(), 2);
    assert_eq!(d.file_changes[0].0, "src/x.rs");
    assert_eq!(d.file_changes[0].1, strings(&["--- a/src/x.rs", "+++ b/src/x.rs", "+new", "diff --git a/y b/y"]));
    assert_eq!(d.file_changes[1].0, "y");
    assert_eq!(d.file_changes[1].1, strings(&["--- a/y", "-old"]));
    let texts: Vec<String> = lines.iter().map(|l| l.value()).collect();
    assert_eq!(
        texts,
        strings(&[
            "commit abc",
            "Author: me",
            "",
            "    message",
            "src/x.rs",
            "--- a/src/x.rs",
            "+++ b/src/x.rs",
            "+new",
            "diff --git a/y b/y",
            "",
            "y",
            "--- a/y",
            "-old",
            "",
        ])
    );
    assert_eq!(lines[4].parts[0].styles, vec![Style::Bold, Style::Underlined]);
    assert_eq!(lines[7].parts[0].styles, vec![Style::Painted((0, 255, 0), (0, 0, 0))]);

    d.toggle_file(&"src/x.rs".to_string());
    let folded: Vec<String> = d.refresh(&show).iter().map(|l| l.value()).collect();
    assert_eq!(folded[4..], strings(&["src/x.rs", "y", "--- a/y", "-old", ""])[..]);
    d.fold_all();
    let all_folded: Vec<String> = d.refresh(&show).iter().map(|l| l.value()).collect();
    assert_eq!(all_folded[4..], strings(&["src/x.rs", "y"])[..]);
}

#[test]
fn header_paths_drop_the_side_prefix() {
    assert_eq!(gitko::detail::parse_header_path("--- a/src/x.rs"), "src/x.rs");
    assert_eq!(gitko::detail::parse_header_path("--- /dev/null"), "dev/null");
    assert_eq!(gitko::detail::parse_header_path("----"), "");
}
