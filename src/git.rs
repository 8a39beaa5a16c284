use vstd::prelude::*;
use crate::text::{chars_of, push_char};

verus! {

/// The state of a path in the short form of `git status`.
#[derive(Clone, Copy, Debug, PartialEq, Eq, Structural)]
pub enum FileState {
    Invalid,
    Unknown,
    Modified,
    Deleted,
    Added,
    Staged,
    Untracked,
}

/// The two status letters of a short status line: the index column and the
/// work-tree column.
pub open spec fn status_letters(line: Seq<char>) -> (char, char) {
    (line[0], line[1])
}

/// A short status line is at least the two letters and the space after them.
pub open spec fn is_status_line(line: Seq<char>) -> bool {
    line.len() >= 3
}

/// The two status letters of `line`.
pub fn parse_status(line: &str) -> (r: (char, char))
    requires
        is_status_line(line@),
    ensures
        r == status_letters(line@),
{
    (line.get_char(0), line.get_char(1))
}

/// The path has a change in the index: its first letter is neither a space
/// nor a question mark.
pub open spec fn in_worktree_spec(line: Seq<char>) -> bool {
    is_status_line(line) && line[0] != ' ' && line[0] != '?'
}

/// Whether the status line reports a change in the index; a line too short to
/// be a status line reports none.
pub fn is_in_worktree(line: &str) -> (r: bool)
    ensures
        r == in_worktree_spec(line@),
{
    if line.unicode_len() < 3 {
        return false;
    }
    let (first, _) = parse_status(line);
    first != ' ' && first != '?'
}

/// The path has a change that staging would record.
pub open spec fn modified_spec(line: Seq<char>) -> bool {
    is_status_line(line) && {
        let (first, second) = status_letters(line);
        first == 'M' || second == 'M' || first == '?' || second == 'D' || second == 'T' || second
            == 'R' || second == 'C'
    }
}

/// Whether the status line reports a change that staging would record; a
/// line too short to be a status line reports none.
pub fn is_file_modified(line: &str) -> (r: bool)
    ensures
        r == modified_spec(line@),
{
    if line.unicode_len() < 3 {
        return false;
    }
    let (first, second) = parse_status(line);
    first == 'M' || second == 'M' || first == '?' || second == 'D' || second == 'T' || second
        == 'R' || second == 'C'
}

/// The letters that may open a short status line.
pub open spec fn is_status_start(c: char) -> bool {
    c == ' ' || c == 'M' || c == 'T' || c == 'A' || c == 'D' || c == 'R' || c == 'C' || c == '?'
}

/// The state a short status line reports.
pub open spec fn file_state_spec(line: Seq<char>) -> FileState {
    if !is_status_line(line) || !is_status_start(line[0]) || line[2] != ' ' {
        FileState::Unknown
    } else {
        let (first, second) = status_letters(line);
        if second == 'M' || first == 'A' {
            FileState::Modified
        } else if first == 'M' {
            FileState::Staged
        } else if first == 'D' || second == 'D' {
            FileState::Deleted
        } else if first == '?' && second == '?' {
            FileState::Untracked
        } else {
            FileState::Unknown
        }
    }
}

/// The state a short status line reports.
pub fn parse_file_state(line: &str) -> (r: FileState)
    ensures
        r == file_state_spec(line@),
{
    if line.unicode_len() < 3 {
        return FileState::Unknown;
    }
    let first = line.get_char(0);
    let third = line.get_char(2);
    let allowed = first == ' ' || first == 'M' || first == 'T' || first == 'A' || first == 'D'
        || first == 'R' || first == 'C' || first == '?';
    if !allowed || third != ' ' {
        return FileState::Unknown;
    }
    let (first, second) = parse_status(line);
    if second == 'M' || first == 'A' {
        FileState::Modified
    } else if first == 'M' {
        FileState::Staged
    } else if first == 'D' || second == 'D' {
        FileState::Deleted
    } else if first == '?' && second == '?' {
        FileState::Untracked
    } else {
        FileState::Unknown
    }
}

/// `t` is a command-line option: it opens with two dashes.
pub open spec fn is_option_spec(t: Seq<char>) -> bool {
    t.len() >= 2 && t[0] == '-' && t[1] == '-'
}

/// Whether `t` is a command-line option, such as a reset mode.
pub fn is_option(t: &str) -> (r: bool)
    ensures
        r == is_option_spec(t@),
{
    t.unicode_len() >= 2 && t.get_char(0) == '-' && t.get_char(1) == '-'
}

/// The views of a list of strings.
pub open spec fn args_view(v: Seq<String>) -> Seq<Seq<char>> {
    v.map_values(|s: String| s@)
}

/// An invocation of git: its arguments, and whether it runs attached to the
/// terminal (so that git can open an editor) rather than with its output
/// captured.
pub struct GitCommand {
    pub args: Vec<String>,
    pub interactive: bool,
}

impl GitCommand {
    /// The arguments, as texts.
    pub open spec fn args_spec(&self) -> Seq<Seq<char>> {
        args_view(self.args@)
    }
}

/// Appends the argument `arg`.
fn push_arg(args: &mut Vec<String>, arg: &str)
    ensures
        args_view(final(args)@) == args_view(old(args)@).push(arg@),
{
    args.push(String::from_str(arg));
    assert(args_view(args@) =~= args_view(old(args)@).push(arg@));
}

/// A captured invocation with the given arguments.
fn captured(a: &str, b: &str, c: &str, d: &str, n: usize) -> (r: GitCommand)
    requires
        n <= 4,
    ensures
        r.args_spec() == seq![a@, b@, c@, d@].take(n as int),
        !r.interactive,
{
    let mut args: Vec<String> = Vec::new();
    if n >= 1 {
        push_arg(&mut args, a);
    }
    if n >= 2 {
        push_arg(&mut args, b);
    }
    if n >= 3 {
        push_arg(&mut args, c);
    }
    if n >= 4 {
        push_arg(&mut args, d);
    }
    assert(args_view(args@) =~= seq![a@, b@, c@, d@].take(n as int));
    GitCommand { args, interactive: false }
}

/// `origin/` followed by `branch`.
pub open spec fn origin_ref(branch: Seq<char>) -> Seq<char> {
    seq!['o', 'r', 'i', 'g', 'i', 'n', '/'] + branch
}

/// The remote-tracking name of `branch`.
pub fn origin_of(branch: &str) -> (r: String)
    ensures
        r@ == origin_ref(branch@),
{
    let mut r = String::new();
    push_char(&mut r, 'o');
    push_char(&mut r, 'r');
    push_char(&mut r, 'i');
    push_char(&mut r, 'g');
    push_char(&mut r, 'i');
    push_char(&mut r, 'n');
    push_char(&mut r, '/');
    r.append(branch);
    assert(r@ =~= origin_ref(branch@));
    r
}

/// The short status of the work tree: `status -s`.
pub fn status() -> (r: GitCommand)
    ensures
        r.args_spec() == seq!["status"@, "-s"@],
        !r.interactive,
{
    let r = captured("status", "-s", "", "", 2);
    assert(seq!["status"@, "-s"@, ""@, ""@].take(2) =~= seq!["status"@, "-s"@]);
    r
}

/// The name of the checked-out branch: `rev-parse --abbrev-ref HEAD`.
pub fn current_branch() -> (r: GitCommand)
    ensures
        r.args_spec() == seq!["rev-parse"@, "--abbrev-ref"@, "HEAD"@],
        !r.interactive,
{
    let r = captured("rev-parse", "--abbrev-ref", "HEAD", "", 3);
    assert(seq!["rev-parse"@, "--abbrev-ref"@, "HEAD"@, ""@].take(3) =~= seq![
        "rev-parse"@,
        "--abbrev-ref"@,
        "HEAD"@,
    ]);
    r
}

/// The hash of the last commit of `branch` on the remote:
/// `rev-parse origin/<branch>`.
pub fn last_origin_commit_hash(branch: &str) -> (r: GitCommand)
    ensures
        r.args_spec() == seq!["rev-parse"@, origin_ref(branch@)],
        !r.interactive,
{
    let origin = origin_of(branch);
    let r = captured("rev-parse", origin.as_str(), "", "", 2);
    assert(seq!["rev-parse"@, origin@, ""@, ""@].take(2) =~= seq!["rev-parse"@, origin@]);
    r
}

/// The hash of the last commit of `branch`: `rev-parse <branch>`.
pub fn last_commit_hash(branch: &str) -> (r: GitCommand)
    ensures
        r.args_spec() == seq!["rev-parse"@, branch@],
        !r.interactive,
{
    let r = captured("rev-parse", branch, "", "", 2);
    assert(seq!["rev-parse"@, branch@, ""@, ""@].take(2) =~= seq!["rev-parse"@, branch@]);
    r
}

/// The last commit of `branch` on the remote, on one line:
/// `log -1 --oneline --no-decorate origin/<branch>`.
pub fn last_origin_commit(branch: &str) -> (r: GitCommand)
    ensures
        r.args_spec() == seq!["log"@, "-1"@, "--oneline"@, "--no-decorate"@, origin_ref(branch@)],
        !r.interactive,
{
    let origin = origin_of(branch);
    let mut r = last_commit();
    push_arg(&mut r.args, origin.as_str());
    r
}

/// The last commit, on one line: `log -1 --oneline --no-decorate`.
pub fn last_commit() -> (r: GitCommand)
    ensures
        r.args_spec() == seq!["log"@, "-1"@, "--oneline"@, "--no-decorate"@],
        !r.interactive,
{
    let r = captured("log", "-1", "--oneline", "--no-decorate", 4);
    assert(seq!["log"@, "-1"@, "--oneline"@, "--no-decorate"@].take(4) =~= seq![
        "log"@,
        "-1"@,
        "--oneline"@,
        "--no-decorate"@,
    ]);
    r
}

/// The decorations of the last commit of `branch` on the remote:
/// `show -s --pretty=%d origin/<branch>`.
pub fn origin_head_branch(branch: &str) -> (r: GitCommand)
    ensures
        r.args_spec() == seq!["show"@, "-s"@, "--pretty=%d"@, origin_ref(branch@)],
        !r.interactive,
{
    let origin = origin_of(branch);
    let r = captured("show", "-s", "--pretty=%d", origin.as_str(), 4);
    assert(seq!["show"@, "-s"@, "--pretty=%d"@, origin@].take(4) =~= seq![
        "show"@,
        "-s"@,
        "--pretty=%d"@,
        origin@,
    ]);
    r
}

/// The decorations of the checked-out commit: `show -s --pretty=%d HEAD`.
pub fn head_branch() -> (r: GitCommand)
    ensures
        r.args_spec() == seq!["show"@, "-s"@, "--pretty=%d"@, "HEAD"@],
        !r.interactive,
{
    let r = captured("show", "-s", "--pretty=%d", "HEAD", 4);
    assert(seq!["show"@, "-s"@, "--pretty=%d"@, "HEAD"@].take(4) =~= seq![
        "show"@,
        "-s"@,
        "--pretty=%d"@,
        "HEAD"@,
    ]);
    r
}

/// Whether git ignores `path`: `check-ignore <path>`.
pub fn check_ignore(path: &str) -> (r: GitCommand)
    ensures
        r.args_spec() == seq!["check-ignore"@, path@],
        !r.interactive,
{
    let r = captured("check-ignore", path, "", "", 2);
    assert(seq!["check-ignore"@, path@, ""@, ""@].take(2) =~= seq!["check-ignore"@, path@]);
    r
}

/// Reads the output of `check_ignore`: the path is ignored exactly when git
/// printed anything.
pub fn is_ignored(output: &Vec<String>) -> (r: bool)
    ensures
        r == (output@.len() > 0),
{
    output.len() > 0
}

/// The changes of `path` in the work tree: `--no-pager diff <path>`.
pub fn diff_file(path: &str) -> (r: GitCommand)
    ensures
        r.args_spec() == seq!["--no-pager"@, "diff"@, path@],
        !r.interactive,
{
    let r = captured("--no-pager", "diff", path, "", 3);
    assert(seq!["--no-pager"@, "diff"@, path@, ""@].take(3) =~= seq![
        "--no-pager"@,
        "diff"@,
        path@,
    ]);
    r
}

/// `hash` followed by `^!`: the commit alone, without its ancestors.
pub open spec fn commit_only(hash: Seq<char>) -> Seq<char> {
    hash + seq!['^', '!']
}

/// The changes of one commit: `--no-pager diff <hash>^!`.
pub fn diff_commit(commit_hash: &str) -> (r: GitCommand)
    ensures
        r.args_spec() == seq!["--no-pager"@, "diff"@, commit_only(commit_hash@)],
        !r.interactive,
{
    let mut range = String::from_str(commit_hash);
    push_char(&mut range, '^');
    push_char(&mut range, '!');
    assert(range@ =~= commit_only(commit_hash@));
    diff_file(range.as_str())
}

/// Stages `path`: `add <path>`.
pub fn add_file(path: &str) -> (r: GitCommand)
    ensures
        r.args_spec() == seq!["add"@, path@],
        !r.interactive,
{
    let r = captured("add", path, "", "", 2);
    assert(seq!["add"@, path@, ""@, ""@].take(2) =~= seq!["add"@, path@]);
    r
}

/// Unstages `path`: `reset <path>`.
pub fn unstage_file(path: &str) -> (r: GitCommand)
    ensures
        r.args_spec() == seq!["reset"@, path@],
        !r.interactive,
{
    let r = captured("reset", path, "", "", 2);
    assert(seq!["reset"@, path@, ""@, ""@].take(2) =~= seq!["reset"@, path@]);
    r
}

/// Appends each of `extra` to `args`.
fn push_all(args: &mut Vec<String>, extra: &Vec<String>)
    ensures
        args_view(final(args)@) == args_view(old(args)@) + args_view(extra@),
{
    let mut i: usize = 0;
    while i < extra.len()
        invariant
            i <= extra@.len(),
            args_view(args@) == args_view(old(args)@) + args_view(extra@).take(i as int),
        decreases extra.len() - i,
    {
        push_arg(args, extra[i].as_str());
        assert(args_view(extra@).take(i + 1) =~= args_view(extra@).take(i as int).push(
            extra@[i as int]@,
        ));
        i = i + 1;
    }
    assert(args_view(extra@).take(extra@.len() as int) =~= args_view(extra@));
}

/// The arguments given, or none.
pub open spec fn extra_args(extra: Option<Vec<String>>) -> Seq<Seq<char>> {
    match extra {
        Some(v) => args_view(v@),
        None => Seq::empty(),
    }
}

/// Pushes `branch` to the remote, with the extra arguments first:
/// `push [<extra>...] origin <branch>`.
pub fn push(push_args: Option<Vec<String>>, branch: &str) -> (r: GitCommand)
    ensures
        r.args_spec() == seq!["push"@] + extra_args(push_args) + seq!["origin"@, branch@],
        !r.interactive,
{
    let mut r = captured("push", "", "", "", 1);
    assert(seq!["push"@, ""@, ""@, ""@].take(1) =~= seq!["push"@]);
    match &push_args {
        Some(extra) => push_all(&mut r.args, extra),
        None => {},
    }
    push_arg(&mut r.args, "origin");
    push_arg(&mut r.args, branch);
    assert(r.args_spec() =~= seq!["push"@] + extra_args(push_args) + seq!["origin"@, branch@]);
    r
}

/// Records a commit, attached to the terminal so that git can ask for the
/// message: `commit [<extra>...]`.
pub fn commit(commit_args: Option<Vec<String>>) -> (r: GitCommand)
    ensures
        r.args_spec() == seq!["commit"@] + extra_args(commit_args),
        r.interactive,
{
    let mut r = captured("commit", "", "", "", 1);
    assert(seq!["commit"@, ""@, ""@, ""@].take(1) =~= seq!["commit"@]);
    match &commit_args {
        Some(extra) => push_all(&mut r.args, extra),
        None => {},
    }
    r.interactive = true;
    assert(r.args_spec() =~= seq!["commit"@] + extra_args(commit_args));
    r
}

/// The local branches: `--no-pager branch`.
pub fn branch() -> (r: GitCommand)
    ensures
        r.args_spec() == seq!["--no-pager"@, "branch"@],
        !r.interactive,
{
    let r = captured("--no-pager", "branch", "", "", 2);
    assert(seq!["--no-pager"@, "branch"@, ""@, ""@].take(2) =~= seq!["--no-pager"@, "branch"@]);
    r
}

/// Checks out a branch: `checkout <name>`.
pub fn checkout_branch(branch_name: &str) -> (r: GitCommand)
    ensures
        r.args_spec() == seq!["checkout"@, branch_name@],
        !r.interactive,
{
    let r = captured("checkout", branch_name, "", "", 2);
    assert(seq!["checkout"@, branch_name@, ""@, ""@].take(2) =~= seq!["checkout"@, branch_name@]);
    r
}

/// Discards the work-tree changes of a file: `checkout <path>`.
pub fn checkout_file(file_path: &str) -> (r: GitCommand)
    ensures
        r.args_spec() == seq!["checkout"@, file_path@],
        !r.interactive,
{
    checkout_branch(file_path)
}

/// Deletes a branch: `branch -D <name>`.
pub fn delete_branch(branch_name: &str) -> (r: GitCommand)
    ensures
        r.args_spec() == seq!["branch"@, "-D"@, branch_name@],
        !r.interactive,
{
    let r = captured("branch", "-D", branch_name, "", 3);
    assert(seq!["branch"@, "-D"@, branch_name@, ""@].take(3) =~= seq![
        "branch"@,
        "-D"@,
        branch_name@,
    ]);
    r
}

/// Creates a branch at the checked-out commit: `branch <name>`.
pub fn create_branch(branch_name: &str) -> (r: GitCommand)
    ensures
        r.args_spec() == seq!["branch"@, branch_name@],
        !r.interactive,
{
    let r = captured("branch", branch_name, "", "", 2);
    assert(seq!["branch"@, branch_name@, ""@, ""@].take(2) =~= seq!["branch"@, branch_name@]);
    r
}

/// Resets the checked-out branch to a commit: `reset <mode> <hash>`.
pub fn reset(commit_hash: &str, mode: &str) -> (r: GitCommand)
    ensures
        r.args_spec() == seq!["reset"@, mode@, commit_hash@],
        !r.interactive,
{
    let r = captured("reset", mode, commit_hash, "", 3);
    assert(seq!["reset"@, mode@, commit_hash@, ""@].take(3) =~= seq![
        "reset"@,
        mode@,
        commit_hash@,
    ]);
    r
}

/// A commit with its changes: `--no-pager show <hash>`.
pub fn show(commit_hash: &str) -> (r: GitCommand)
    ensures
        r.args_spec() == seq!["--no-pager"@, "show"@, commit_hash@],
        !r.interactive,
{
    let r = captured("--no-pager", "show", commit_hash, "", 3);
    assert(seq!["--no-pager"@, "show"@, commit_hash@, ""@].take(3) =~= seq![
        "--no-pager"@,
        "show"@,
        commit_hash@,
    ]);
    r
}

/// The character of the decimal digit `d`.
pub open spec fn digit_char(d: nat) -> char {
    ((48 + d) as u8) as char
}

/// The decimal digits of `n`, most significant first.
pub open spec fn decimal(n: nat) -> Seq<char>
    decreases n,
{
    if n < 10 {
        seq![digit_char(n)]
    } else {
        decimal(n / 10).push(digit_char(n % 10))
    }
}

/// Appends the decimal digits of `n` to `s`.
pub fn push_decimal(s: &mut String, n: u64)
    ensures
        final(s)@ == old(s)@ + decimal(n as nat),
    decreases n,
{
    if n >= 10 {
        push_decimal(s, n / 10);
    }
    let d: u8 = (n % 10) as u8;
    push_char(s, (48u8 + d) as char);
    assert(s@ =~= old(s)@ + decimal(n as nat));
}

/// The commit graph of all branches, local and remote, one line per commit,
/// at most `max_count` commits when given:
/// `--no-pager log --graph --oneline --decorate --remotes --branches
/// [--max-count=<n>]`.
pub fn log(max_count: Option<u32>) -> (r: GitCommand)
    ensures
        r.args_spec() == seq![
            "--no-pager"@,
            "log"@,
            "--graph"@,
            "--oneline"@,
            "--decorate"@,
            "--remotes"@,
            "--branches"@,
        ] + match max_count {
            Some(n) => seq!["--max-count="@ + decimal(n as nat)],
            None => Seq::empty(),
        },
        !r.interactive,
{
    let mut args: Vec<String> = Vec::new();
    push_arg(&mut args, "--no-pager");
    push_arg(&mut args, "log");
    push_arg(&mut args, "--graph");
    push_arg(&mut args, "--oneline");
    push_arg(&mut args, "--decorate");
    push_arg(&mut args, "--remotes");
    push_arg(&mut args, "--branches");
    let ghost base = args_view(args@);
    match max_count {
        Some(n) => {
            let mut arg = String::from_str("--max-count=");
            push_decimal(&mut arg, n as u64);
            args.push(arg);
            assert(args_view(args@) =~= base.push(arg@));
        },
        None => {},
    }
    let r = GitCommand { args, interactive: false };
    assert(r.args_spec() =~= seq![
        "--no-pager"@,
        "log"@,
        "--graph"@,
        "--oneline"@,
        "--decorate"@,
        "--remotes"@,
        "--branches"@,
    ] + match max_count {
        Some(n) => seq!["--max-count="@ + decimal(n as nat)],
        None => Seq::empty(),
    });
    r
}

/// The pieces joined with a line feed between each two.
pub open spec fn join_lines(pieces: Seq<Seq<char>>) -> Seq<char>
    decreases pieces.len(),
{
    if pieces.len() == 0 {
        Seq::empty()
    } else if pieces.len() == 1 {
        pieces[0]
    } else {
        join_lines(pieces.drop_last()) + seq!['\n'] + pieces.last()
    }
}

/// `pieces` is `text` cut at each line feed: joined again they give the text,
/// and none holds a line feed.
pub open spec fn splits_into(text: Seq<char>, pieces: Seq<Seq<char>>) -> bool {
    &&& pieces.len() >= 1
    &&& join_lines(pieces) == text
    &&& forall|i: int| 0 <= i < pieces.len() ==> !(#[trigger] pieces[i]).contains('\n')
}

/// The lines of a command's output: what it wrote to standard output, or to
/// standard error when standard output is empty, cut at each line feed; no
/// lines when both are empty.
pub open spec fn output_lines_ok(stdout: Seq<char>, stderr: Seq<char>, r: Seq<Seq<char>>) -> bool {
    let chosen = if stdout.len() == 0 {
        stderr
    } else {
        stdout
    };
    if chosen.len() == 0 {
        r.len() == 0
    } else {
        splits_into(chosen, r)
    }
}

/// `text` cut at each line feed.
pub fn split_lines(text: &str) -> (r: Vec<String>)
    ensures
        splits_into(text@, args_view(r@)),
{
    let chars = chars_of(text);
    let mut pieces: Vec<String> = Vec::new();
    let mut current = String::new();
    let mut i: usize = 0;
    while i < chars.len()
        invariant
            i <= chars@.len(),
            chars@ == text@,
            join_lines(args_view(pieces@).push(current@)) == text@.take(i as int),
            forall|j: int| 0 <= j < pieces@.len() ==> !(#[trigger] args_view(pieces@)[j]).contains('\n'),
            !current@.contains('\n'),
        decreases chars.len() - i,
    {
        let c = chars[i];
        let ghost before = args_view(pieces@);
        let ghost cur = current@;
        assert(text@.take(i + 1) =~= text@.take(i as int).push(c));
        if c == '\n' {
            pieces.push(current);
            current = String::new();
            let ghost after = args_view(pieces@).push(current@);
            assert(args_view(pieces@) =~= before.push(cur));
            assert(after.drop_last() =~= before.push(cur));
            assert(after.last() =~= Seq::<char>::empty());
            assert(join_lines(after) =~= join_lines(before.push(cur)) + seq!['\n']);
            assert forall|j: int| 0 <= j < pieces@.len() implies !(#[trigger] args_view(pieces@)[j]).contains('\n') by {
                if j < before.len() {
                    assert(args_view(pieces@)[j] == before[j]);
                }
            }
            assert(!current@.contains('\n')) by {
                assert(current@ =~= Seq::<char>::empty());
            }
        } else {
            push_char(&mut current, c);
            let ghost after = before.push(current@);
            assert(after.drop_last() =~= before);
            assert(before.push(cur).drop_last() =~= before);
            proof {
                if before.len() == 0 {
                    assert(join_lines(after) == current@);
                    assert(join_lines(before.push(cur)) == cur);
                }
            }
            assert(join_lines(after) =~= join_lines(before.push(cur)).push(c));
            assert(!current@.contains('\n')) by {
                assert forall|k: int| 0 <= k < current@.len() implies current@[k] != '\n' by {
                    if k < cur.len() {
                        assert(current@[k] == cur[k]);
                        assert(cur.contains(cur[k]));
                    }
                }
            }
        }
        i = i + 1;
    }
    let ghost before = args_view(pieces@);
    let ghost cur = current@;
    pieces.push(current);
    assert(args_view(pieces@) =~= before.push(cur));
    assert(text@.take(chars@.len() as int) =~= text@);
    assert forall|j: int| 0 <= j < pieces@.len() implies !(#[trigger] args_view(pieces@)[j]).contains('\n') by {
        if j < before.len() {
            assert(args_view(pieces@)[j] == before[j]);
        }
    }
    pieces
}

/// The lines of a command's output, as `output_lines_ok` says.
pub fn output_lines(stdout: &str, stderr: &str) -> (r: Vec<String>)
    ensures
        output_lines_ok(stdout@, stderr@, args_view(r@)),
{
    let chosen = if stdout.unicode_len() == 0 {
        stderr
    } else {
        stdout
    };
    if chosen.unicode_len() == 0 {
        let r: Vec<String> = Vec::new();
        assert(args_view(r@) =~= Seq::<Seq<char>>::empty());
        r
    } else {
        split_lines(chosen)
    }
}

} // verus!
