use vstd::prelude::*;
use crate::diff::{color_diff_line, colored_line};
use crate::git::args_view;
use crate::layout::line_views;
use crate::status::{heading_part, plain_row, blank_row, plain_rows};
use crate::style::{Line, Part, PartView, Style, single_style};
use crate::text::chars_of;

verus! {

/// `t` is a file header of a diff: it opens with `---`.
pub open spec fn is_file_header(t: Seq<char>) -> bool {
    t.len() >= 3 && t[0] == '-' && t[1] == '-' && t[2] == '-'
}

/// `t` without every leading `--- `.
pub open spec fn strip_header(t: Seq<char>) -> Seq<char>
    decreases t.len(),
{
    if t.len() >= 4 && t[0] == '-' && t[1] == '-' && t[2] == '-' && t[3] == ' ' {
        strip_header(t.skip(4))
    } else {
        t
    }
}

/// The index of the first `/` of `t` at `i` or after.
pub open spec fn first_slash_from(t: Seq<char>, i: int) -> Option<int>
    decreases t.len() - i,
{
    if i < 0 || i >= t.len() {
        None
    } else if t[i] == '/' {
        Some(i)
    } else {
        first_slash_from(t, i + 1)
    }
}

/// The path a file header names: what follows the first `/` once the
/// leading `--- ` is stripped (the `a/` or `b/` prefix of git is dropped);
/// the empty path when there is no `/`.
pub open spec fn header_path(t: Seq<char>) -> Seq<char> {
    let s = strip_header(t);
    match first_slash_from(s, 0) {
        Some(i) => s.skip(i + 1),
        None => Seq::empty(),
    }
}

/// Changes grouped by file: each path with the lines recorded under it.
pub type FileChanges = Seq<(Seq<char>, Seq<Seq<char>>)>;

/// The index of the entry for `path`, if any.
pub open spec fn path_index(files: FileChanges, path: Seq<char>, i: int) -> Option<int>
    decreases files.len() - i,
{
    if i < 0 || i >= files.len() {
        None
    } else if files[i].0 == path {
        Some(i)
    } else {
        path_index(files, path, i + 1)
    }
}

/// `files` with the entry for `path` emptied, or added empty at the end.
pub open spec fn restart(files: FileChanges, path: Seq<char>) -> FileChanges {
    match path_index(files, path, 0) {
        Some(i) => files.update(i, (path, Seq::empty())),
        None => files.push((path, Seq::empty())),
    }
}

/// `files` with `line` recorded under `path`.
pub open spec fn record(files: FileChanges, path: Seq<char>, line: Seq<char>) -> FileChanges {
    match path_index(files, path, 0) {
        Some(i) => files.update(i, (path, files[i].1.push(line))),
        None => files,
    }
}

/// The lines of a commit grouped by file, with the file in effect after
/// them. A file header starts (or restarts) the entry of its path and makes
/// it the file in effect; every line from the first header on, headers
/// included, is recorded under the file in effect.
pub open spec fn group(lines: Seq<Seq<char>>) -> (FileChanges, Option<Seq<char>>)
    decreases lines.len(),
{
    if lines.len() == 0 {
        (Seq::empty(), None)
    } else {
        let prev = group(lines.drop_last());
        let l = lines.last();
        let (files, current) = if is_file_header(l) {
            (restart(prev.0, header_path(l)), Some(header_path(l)))
        } else {
            prev
        };
        match current {
            Some(p) => (record(files, p, l), current),
            None => (files, current),
        }
    }
}

/// The views of grouped changes.
pub open spec fn changes_view(v: Seq<(String, Vec<String>)>) -> FileChanges {
    v.map_values(|e: (String, Vec<String>)| (e.0@, args_view(e.1@)))
}

/// Whether `t` is a file header.
fn file_header(t: &str) -> (r: bool)
    ensures
        r == is_file_header(t@),
{
    t.unicode_len() >= 3 && t.get_char(0) == '-' && t.get_char(1) == '-' && t.get_char(2) == '-'
}

/// The path a file header names, as `header_path` says.
pub fn parse_header_path(t: &str) -> (r: String)
    ensures
        r@ == header_path(t@),
{
    let c = chars_of(t);
    let n = c.len();
    let mut start: usize = 0;
    assert(t@.skip(0) =~= t@);
    while n - start >= 4 && c[start] == '-' && c[start + 1] == '-' && c[start + 2] == '-' && c[start
        + 3] == ' '
        invariant
            start <= n,
            n == c@.len(),
            c@ == t@,
            strip_header(t@) == strip_header(t@.skip(start as int)),
        decreases n - start,
    {
        assert(t@.skip(start as int).skip(4) =~= t@.skip(start + 4));
        start = start + 4;
    }
    let ghost s = t@.skip(start as int);
    let mut i: usize = start;
    while i < n && c[i] != '/'
        invariant
            start <= i <= n,
            n == c@.len(),
            c@ == t@,
            s == t@.skip(start as int),
            first_slash_from(s, 0) == first_slash_from(s, i - start),
        decreases n - i,
    {
        i = i + 1;
    }
    if i == n {
        let r = String::new();
        assert(r@ =~= header_path(t@));
        return r;
    }
    assert(first_slash_from(s, i - start) == Some(i - start));
    let r = String::from_str(t.substring_char(i + 1, n));
    assert(r@ =~= s.skip(i - start + 1));
    r
}

/// The index of the entry for `path`, as `path_index` finds it from the
/// start.
fn find_path(files: &Vec<(String, Vec<String>)>, path: &String) -> (r: Option<usize>)
    ensures
        match r {
            Some(i) => path_index(changes_view(files@), path@, 0) == Some(i as int) && i < files@.len(),
            None => path_index(changes_view(files@), path@, 0) is None,
        },
{
    let ghost v = changes_view(files@);
    let mut i: usize = 0;
    while i < files.len()
        invariant
            i <= files@.len(),
            v == changes_view(files@),
            path_index(v, path@, 0) == path_index(v, path@, i as int),
        decreases files.len() - i,
    {
        assert(v[i as int].0 == files@[i as int].0@);
        if files[i].0 == *path {
            return Some(i);
        }
        i = i + 1;
    }
    None
}

/// A copy of a list of strings.
fn copy_strings(v: &Vec<String>) -> (r: Vec<String>)
    ensures
        args_view(r@) == args_view(v@),
{
    let mut r: Vec<String> = Vec::new();
    let mut i: usize = 0;
    while i < v.len()
        invariant
            i <= v@.len(),
            args_view(r@) == args_view(v@).take(i as int),
        decreases v.len() - i,
    {
        let ghost before = args_view(r@);
        r.push(String::from_str(v[i].as_str()));
        assert(args_view(r@) =~= before.push(v@[i as int]@));
        assert(args_view(v@).take(i + 1) =~= args_view(v@).take(i as int).push(v@[i as int]@));
        i = i + 1;
    }
    assert(args_view(v@).take(v@.len() as int) =~= args_view(v@));
    r
}

/// The lines of a commit grouped by file, as `group` says.
pub fn group_changes(lines: &Vec<String>) -> (r: Vec<(String, Vec<String>)>)
    ensures
        changes_view(r@) == group(args_view(lines@)).0,
{
    let ghost all = args_view(lines@);
    let mut files: Vec<(String, Vec<String>)> = Vec::new();
    let mut current: Option<String> = None;
    let mut i: usize = 0;
    assert(all.take(0) =~= Seq::<Seq<char>>::empty());
    assert(changes_view(files@) =~= Seq::<(Seq<char>, Seq<Seq<char>>)>::empty());
    while i < lines.len()
        invariant
            i <= lines@.len(),
            all == args_view(lines@),
            changes_view(files@) == group(all.take(i as int)).0,
            match current {
                Some(p) => group(all.take(i as int)).1 == Some(p@),
                None => group(all.take(i as int)).1 is None,
            },
        decreases lines.len() - i,
    {
        let line = lines[i].as_str();
        let ghost prefix = all.take(i + 1);
        assert(prefix.drop_last() =~= all.take(i as int));
        assert(prefix.last() == line@);
        if file_header(line) {
            let path = parse_header_path(line);
            let ghost before = changes_view(files@);
            let empty: Vec<String> = Vec::new();
            assert(args_view(empty@) =~= Seq::<Seq<char>>::empty());
            let entry = (String::from_str(path.as_str()), empty);
            match find_path(&files, &path) {
                Some(k) => {
                    files.set(k, entry);
                    assert(changes_view(files@) =~= before.update(k as int, (path@, Seq::empty())));
                },
                None => {
                    files.push(entry);
                    assert(changes_view(files@) =~= before.push((path@, Seq::empty())));
                },
            }
            current = Some(path);
        }
        match &current {
            Some(p) => {
                let ghost before = changes_view(files@);
                match find_path(&files, p) {
                    Some(k) => {
                        let mut entry_lines = copy_strings(&files[k].1);
                        let ghost old_lines = args_view(entry_lines@);
                        entry_lines.push(String::from_str(line));
                        assert(args_view(entry_lines@) =~= old_lines.push(line@));
                        assert(old_lines == before[k as int].1);
                        files.set(k, (String::from_str(p.as_str()), entry_lines));
                        assert(changes_view(files@) =~= before.update(
                            k as int,
                            (p@, before[k as int].1.push(line@)),
                        ));
                    },
                    None => {},
                }
            },
            None => {},
        }
        i = i + 1;
    }
    assert(all.take(lines@.len() as int) =~= all);
    files
}

/// `t` opens a file's diff: it starts with `diff`.
pub open spec fn is_diff_start(t: Seq<char>) -> bool {
    t.len() >= 4 && t[0] == 'd' && t[1] == 'i' && t[2] == 'f' && t[3] == 'f'
}

/// The index of the first line at `i` or after that opens a file's diff.
pub open spec fn first_diff_from(lines: Seq<Seq<char>>, i: int) -> Option<int>
    decreases lines.len() - i,
{
    if i < 0 || i >= lines.len() {
        None
    } else if is_diff_start(lines[i]) {
        Some(i)
    } else {
        first_diff_from(lines, i + 1)
    }
}

/// The fold flag of `path`: the first one recorded for it, if any.
pub open spec fn flag_of(flags: Seq<(Seq<char>, bool)>, path: Seq<char>) -> Option<bool>
    decreases flags.len(),
{
    if flags.len() == 0 {
        None
    } else if flags[0].0 == path {
        Some(flags[0].1)
    } else {
        flag_of(flags.drop_first(), path)
    }
}

/// The fold flags as views.
pub open spec fn flags_view(v: Seq<(String, bool)>) -> Seq<(Seq<char>, bool)> {
    v.map_values(|e: (String, bool)| (e.0@, e.1))
}

/// The colored lines of a file's changes.
pub open spec fn colored_rows(changes: Seq<Seq<char>>) -> Seq<Seq<PartView>> {
    changes.map_values(|t: Seq<char>| colored_line(t))
}

/// The lines for the files: each path as a heading, followed, when its
/// flag says shown, by its changes colored and a blank line.
pub open spec fn files_rows(files: FileChanges, flags: Seq<(Seq<char>, bool)>) -> Seq<Seq<PartView>>
    decreases files.len(),
{
    if files.len() == 0 {
        Seq::empty()
    } else {
        let f = files.last();
        files_rows(files.drop_last(), flags) + seq![seq![heading_part(f.0)]] + if flag_of(flags, f.0)
            == Some(true) {
            colored_rows(f.1) + seq![blank_row()]
        } else {
            Seq::empty()
        }
    }
}

/// `files` has an entry for `q`.
pub open spec fn has_path(files: FileChanges, q: Seq<char>) -> bool {
    exists|i: int| 0 <= i < files.len() && #[trigger] files[i].0 == q
}

/// The detail view of a commit from the lines of `git show`: the
/// description (the lines before the first file's diff, when there is one),
/// then the files as `files_rows` says.
pub open spec fn detail_view(details: Seq<Seq<char>>, flags: Seq<(Seq<char>, bool)>) -> Seq<
    Seq<PartView>,
> {
    let description = match first_diff_from(details, 0) {
        Some(e) => plain_rows(details.take(e)),
        None => Seq::empty(),
    };
    description + files_rows(group(details).0, flags)
}

/// One commit in detail: its description and its changes file by file, each
/// shown or folded.
pub struct DetailedCommitWindow {
    pub commit_hash: String,
    pub commit_details: Vec<String>,
    pub file_changes: Vec<(String, Vec<String>)>,
    pub expanded_changes: Vec<(String, bool)>,
}

/// The index of the first line opening a file's diff, by scanning.
fn find_diff_start(lines: &Vec<String>) -> (r: Option<usize>)
    ensures
        match r {
            Some(i) => first_diff_from(args_view(lines@), 0) == Some(i as int) && i < lines@.len(),
            None => first_diff_from(args_view(lines@), 0) is None,
        },
{
    let ghost all = args_view(lines@);
    let mut i: usize = 0;
    while i < lines.len()
        invariant
            i <= lines@.len(),
            all == args_view(lines@),
            first_diff_from(all, 0) == first_diff_from(all, i as int),
        decreases lines.len() - i,
    {
        let t = lines[i].as_str();
        assert(all[i as int] == t@);
        if t.unicode_len() >= 4 && t.get_char(0) == 'd' && t.get_char(1) == 'i' && t.get_char(2) == 'f'
            && t.get_char(3) == 'f' {
            return Some(i);
        }
        i = i + 1;
    }
    None
}

/// The fold flag of `path`, by scanning.
fn find_flag(flags: &Vec<(String, bool)>, path: &String) -> (r: Option<usize>)
    ensures
        match r {
            Some(i) => i < flags@.len() && flags@[i as int].0@ == path@ && flag_of(flags_view(flags@), path@)
                == Some(flags@[i as int].1) && forall|j: int| 0 <= j < i ==> flags@[j].0@ != path@,
            None => flag_of(flags_view(flags@), path@) is None,
        },
{
    let ghost v = flags_view(flags@);
    let mut i: usize = 0;
    assert(v.skip(0) =~= v);
    while i < flags.len()
        invariant
            i <= flags@.len(),
            v == flags_view(flags@),
            flag_of(v, path@) == flag_of(v.skip(i as int), path@),
            forall|j: int| 0 <= j < i ==> flags@[j].0@ != path@,
        decreases flags.len() - i,
    {
        assert(v.skip(i as int)[0] == (flags@[i as int].0@, flags@[i as int].1));
        assert(v.skip(i as int).drop_first() =~= v.skip(i + 1));
        if flags[i].0 == *path {
            return Some(i);
        }
        i = i + 1;
    }
    assert(v.skip(i as int) =~= Seq::<(Seq<char>, bool)>::empty());
    None
}

/// Setting the flag at the first entry for a path changes the flag of that
/// path and of no other.
proof fn lemma_flag_update(flags: Seq<(Seq<char>, bool)>, i: int, path: Seq<char>, b: bool, q: Seq<char>)
    requires
        0 <= i < flags.len(),
        flags[i].0 == path,
        forall|j: int| 0 <= j < i ==> flags[j].0 != path,
    ensures
        flag_of(flags.update(i, (path, b)), q) == if q == path {
            Some(b)
        } else {
            flag_of(flags, q)
        },
    decreases i,
{
    let updated = flags.update(i, (path, b));
    if i > 0 {
        assert(updated.drop_first() =~= flags.drop_first().update(i - 1, (path, b)));
        assert(flags[0].0 != path);
        assert(updated[0] == flags[0]);
        assert forall|j: int| 0 <= j < i - 1 implies flags.drop_first()[j].0 != path by {
            assert(flags[j + 1].0 != path);
        }
        lemma_flag_update(flags.drop_first(), i - 1, path, b, q);
    } else {
        assert(updated.drop_first() =~= flags.drop_first());
        assert(updated[0] == (path, b));
    }
}

/// Adding a flag at the end changes the flag only of a path that had none.
proof fn lemma_flag_push(flags: Seq<(Seq<char>, bool)>, path: Seq<char>, b: bool, q: Seq<char>)
    ensures
        flag_of(flags.push((path, b)), q) == if flag_of(flags, q) is None && q == path {
            Some(b)
        } else {
            flag_of(flags, q)
        },
    decreases flags.len(),
{
    let pushed = flags.push((path, b));
    if flags.len() > 0 {
        assert(pushed.drop_first() =~= flags.drop_first().push((path, b)));
        assert(pushed[0] == flags[0]);
        lemma_flag_push(flags.drop_first(), path, b, q);
    } else {
        assert(pushed.drop_first() =~= Seq::<(Seq<char>, bool)>::empty());
        assert(pushed[0] == (path, b));
        assert(flag_of(Seq::<(Seq<char>, bool)>::empty(), q) is None);
    }
}

/// The lines of one file: its heading, and when shown its colored changes
/// and a blank line.
fn file_lines(path: &String, changes: &Vec<String>, shown: bool) -> (r: Vec<Line>)
    ensures
        line_views(r@) == seq![seq![heading_part(path@)]] + if shown {
            colored_rows(args_view(changes@)) + seq![blank_row()]
        } else {
            Seq::empty()
        },
{
    let mut styles = single_style(Style::Bold);
    styles.push(Style::Underlined);
    assert(styles@ =~= seq![Style::Bold, Style::Underlined]);
    let mut out: Vec<Line> = Vec::new();
    out.push(Line::single(Part::new(path.as_str(), Some(styles))));
    let ghost head = line_views(out@);
    assert(head =~= seq![seq![heading_part(path@)]]);
    if shown {
        let mut i: usize = 0;
        while i < changes.len()
            invariant
                i <= changes@.len(),
                line_views(out@) == head + colored_rows(args_view(changes@).take(i as int)),
            decreases changes.len() - i,
        {
            let ghost before = line_views(out@);
            let l = color_diff_line(changes[i].as_str());
            out.push(l);
            assert(line_views(out@) =~= before.push(l@));
            assert(colored_rows(args_view(changes@).take(i + 1)) =~= colored_rows(args_view(changes@).take(i as int)).push(colored_line(changes@[i as int]@)));
            i = i + 1;
        }
        assert(args_view(changes@).take(changes@.len() as int) =~= args_view(changes@));
        let ghost before = line_views(out@);
        let blank = Line::empty();
        out.push(blank);
        assert(line_views(out@) =~= before.push(blank@));
        assert(blank@ == blank_row());
    } else {
        assert(line_views(out@) =~= head + Seq::<Seq<PartView>>::empty());
    }
    out
}

impl DetailedCommitWindow {
    /// The detail view of `commit_hash`, with nothing read yet.
    pub fn new(commit_hash: &str) -> (r: DetailedCommitWindow)
        ensures
            r.commit_hash@ == commit_hash@,
            r.commit_details@.len() == 0,
            r.file_changes@.len() == 0,
            r.expanded_changes@.len() == 0,
    {
        DetailedCommitWindow {
            commit_hash: String::from_str(commit_hash),
            commit_details: Vec::new(),
            file_changes: Vec::new(),
            expanded_changes: Vec::new(),
        }
    }

    /// Shows or folds the changes of `path`, if the commit has it.
    pub fn toggle_file(&mut self, path: &String)
        ensures
            forall|q: Seq<char>|
                #[trigger] flag_of(flags_view(final(self).expanded_changes@), q) == match flag_of(
                    flags_view(old(self).expanded_changes@),
                    q,
                ) {
                    Some(b) => if q == path@ {
                        Some(!b)
                    } else {
                        Some(b)
                    },
                    None => None,
                },
            final(self).file_changes@ == old(self).file_changes@,
            final(self).commit_details@ == old(self).commit_details@,
    {
        match find_flag(&self.expanded_changes, path) {
            Some(i) => {
                let ghost before = flags_view(self.expanded_changes@);
                let b = self.expanded_changes[i].1;
                self.expanded_changes.set(i, (String::from_str(path.as_str()), !b));
                assert(flags_view(self.expanded_changes@) =~= before.update(i as int, (path@, !b)));
                assert forall|q: Seq<char>| #[trigger] flag_of(flags_view(self.expanded_changes@), q)
                    == match flag_of(before, q) {
                    Some(c) => if q == path@ {
                        Some(!c)
                    } else {
                        Some(c)
                    },
                    None => None,
                } by {
                    lemma_flag_update(before, i as int, path@, !b, q);
                }
            },
            None => {},
        }
    }

    /// Folds the changes of every file.
    pub fn fold_all(&mut self)
        ensures
            forall|q: Seq<char>|
                #[trigger] flag_of(flags_view(final(self).expanded_changes@), q) == match flag_of(
                    flags_view(old(self).expanded_changes@),
                    q,
                ) {
                    Some(_) => Some(false),
                    None => None,
                },
            final(self).file_changes@ == old(self).file_changes@,
            final(self).commit_details@ == old(self).commit_details@,
    {
        let ghost start = flags_view(self.expanded_changes@);
        let mut i: usize = 0;
        while i < self.expanded_changes.len()
            invariant
                i <= self.expanded_changes@.len(),
                self.expanded_changes@.len() == start.len(),
                self.file_changes@ == old(self).file_changes@,
                self.commit_details@ == old(self).commit_details@,
                start == flags_view(old(self).expanded_changes@),
                forall|j: int| 0 <= j < i ==> #[trigger] flags_view(self.expanded_changes@)[j] == (start[j].0, false),
                forall|j: int| i <= j < start.len() ==> #[trigger] flags_view(self.expanded_changes@)[j] == start[j],
            decreases self.expanded_changes.len() - i,
        {
            let ghost before = flags_view(self.expanded_changes@);
            assert(before[i as int] == start[i as int]);
            let path = String::from_str(self.expanded_changes[i].0.as_str());
            self.expanded_changes.set(i, (path, false));
            assert(flags_view(self.expanded_changes@) =~= before.update(i as int, (start[i as int].0, false)));
            i = i + 1;
        }
        assert forall|q: Seq<char>| #[trigger] flag_of(flags_view(self.expanded_changes@), q) == match flag_of(
            start,
            q,
        ) {
            Some(_) => Some(false),
            None => None,
        } by {
            lemma_flags_all_false(flags_view(self.expanded_changes@), start, q);
        }
    }
}

/// Two flag lists with the same paths, the first all false, give every
/// path the flag false exactly where the second gives it one.
proof fn lemma_flags_all_false(a: Seq<(Seq<char>, bool)>, b: Seq<(Seq<char>, bool)>, q: Seq<char>)
    requires
        a.len() == b.len(),
        forall|j: int| 0 <= j < a.len() ==> #[trigger] a[j] == (b[j].0, false),
    ensures
        flag_of(a, q) == match flag_of(b, q) {
            Some(_) => Some(false),
            None => None,
        },
    decreases a.len(),
{
    if a.len() > 0 {
        assert(a[0] == (b[0].0, false));
        assert forall|j: int| 0 <= j < a.drop_first().len() implies #[trigger] a.drop_first()[j]
            == (b.drop_first()[j].0, false) by {
            assert(a[j + 1] == (b[j + 1].0, false));
        }
        lemma_flags_all_false(a.drop_first(), b.drop_first(), q);
    }
}

impl DetailedCommitWindow {
    /// Every file of `files` without a fold flag gets one, showing it.
    fn flag_new_files(&mut self, files: &Vec<(String, Vec<String>)>)
        ensures
            forall|q: Seq<char>|
                #[trigger] flag_of(flags_view(final(self).expanded_changes@), q) == match flag_of(
                    flags_view(old(self).expanded_changes@),
                    q,
                ) {
                    Some(b) => Some(b),
                    None => if has_path(changes_view(files@), q) {
                        Some(true)
                    } else {
                        None
                    },
                },
            final(self).file_changes@ == old(self).file_changes@,
            final(self).commit_details@ == old(self).commit_details@,
    {
        let ghost start = flags_view(self.expanded_changes@);
        let ghost fv = changes_view(files@);
        let mut i: usize = 0;
        while i < files.len()
            invariant
                i <= files@.len(),
                fv == changes_view(files@),
                start == flags_view(old(self).expanded_changes@),
                self.file_changes@ == old(self).file_changes@,
                self.commit_details@ == old(self).commit_details@,
                forall|q: Seq<char>|
                    #[trigger] flag_of(flags_view(self.expanded_changes@), q) == match flag_of(start, q) {
                        Some(b) => Some(b),
                        None => if has_path(fv.take(i as int), q) {
                            Some(true)
                        } else {
                            None
                        },
                    },
            decreases files.len() - i,
        {
            let path = &files[i].0;
            assert(fv[i as int].0 == path@);
            let ghost before = flags_view(self.expanded_changes@);
            match find_flag(&self.expanded_changes, path) {
                Some(_) => {},
                None => {
                    self.expanded_changes.push((String::from_str(path.as_str()), true));
                    assert(flags_view(self.expanded_changes@) =~= before.push((path@, true)));
                },
            }
            assert forall|q: Seq<char>| #[trigger] flag_of(flags_view(self.expanded_changes@), q)
                == match flag_of(start, q) {
                Some(b) => Some(b),
                None => if has_path(fv.take(i + 1), q) {
                    Some(true)
                } else {
                    None
                },
            } by {
                lemma_flag_push(before, path@, true, q);
                assert(fv.take(i + 1) =~= fv.take(i as int).push(fv[i as int]));
                if has_path(fv.take(i + 1), q) && q != path@ {
                    let j = choose|j: int| 0 <= j < i + 1 && #[trigger] fv.take(i + 1)[j].0 == q;
                    assert(fv.take(i as int)[j].0 == q);
                }
                if has_path(fv.take(i as int), q) {
                    let j = choose|j: int| 0 <= j < i && #[trigger] fv.take(i as int)[j].0 == q;
                    assert(fv.take(i + 1)[j].0 == q);
                }
                if q == path@ {
                    assert(fv.take(i + 1)[i as int].0 == q);
                }
            }
            i = i + 1;
        }
        assert(fv.take(files@.len() as int) =~= fv);
    }

    /// Reads the lines of `git show` for the commit: groups the changes by
    /// file, shows every file not seen before, keeps the description, and
    /// returns the lines to display, as `detail_view` says.
    pub fn refresh(&mut self, details: &Vec<String>) -> (r: Vec<Line>)
        ensures
            changes_view(final(self).file_changes@) == group(args_view(details@)).0,
            forall|q: Seq<char>|
                #[trigger] flag_of(flags_view(final(self).expanded_changes@), q) == match flag_of(
                    flags_view(old(self).expanded_changes@),
                    q,
                ) {
                    Some(b) => Some(b),
                    None => if has_path(group(args_view(details@)).0, q) {
                        Some(true)
                    } else {
                        None
                    },
                },
            line_views(r@) == detail_view(args_view(details@), flags_view(final(self).expanded_changes@)),
            match first_diff_from(args_view(details@), 0) {
                Some(e) => args_view(final(self).commit_details@) == args_view(details@).take(e),
                None => final(self).commit_details@ == old(self).commit_details@,
            },
    {
        let files = group_changes(details);
        self.flag_new_files(&files);
        self.file_changes = files;

        let mut out: Vec<Line> = Vec::new();
        let ghost all = args_view(details@);
        match find_diff_start(details) {
            Some(end) => {
                let mut description: Vec<String> = Vec::new();
                let mut i: usize = 0;
                while i < end
                    invariant
                        i <= end < details@.len(),
                        all == args_view(details@),
                        args_view(description@) == all.take(i as int),
                        line_views(out@) == plain_rows(all.take(i as int)),
                    decreases end - i,
                {
                    let ghost d = args_view(description@);
                    let ghost o = line_views(out@);
                    description.push(String::from_str(details[i].as_str()));
                    let l = Line::plain(details[i].as_str());
                    out.push(l);
                    assert(all.take(i + 1) =~= all.take(i as int).push(all[i as int]));
                    assert(args_view(description@) =~= d.push(all[i as int]));
                    assert(line_views(out@) =~= o.push(l@));
                    assert(plain_rows(all.take(i + 1)) =~= plain_rows(all.take(i as int)).push(plain_row(all[i as int])));
                    i = i + 1;
                }
                self.commit_details = description;
            },
            None => {
                assert(line_views(out@) =~= Seq::<Seq<PartView>>::empty());
            },
        }

        let ghost head = line_views(out@);
        let ghost fv = changes_view(self.file_changes@);
        let ghost flags = flags_view(self.expanded_changes@);
        let mut k: usize = 0;
        assert(fv.take(0) =~= Seq::<(Seq<char>, Seq<Seq<char>>)>::empty());
        assert(head + files_rows(fv.take(0), flags) =~= head);
        while k < self.file_changes.len()
            invariant
                k <= self.file_changes@.len(),
                fv == changes_view(self.file_changes@),
                flags == flags_view(self.expanded_changes@),
                line_views(out@) == head + files_rows(fv.take(k as int), flags),
            decreases self.file_changes.len() - k,
        {
            let path = &self.file_changes[k].0;
            let shown = match find_flag(&self.expanded_changes, path) {
                Some(j) => self.expanded_changes[j].1,
                None => false,
            };
            let ghost o = line_views(out@);
            let more = file_lines(path, &self.file_changes[k].1, shown);
            let ghost m = line_views(more@);
            let mut more = more;
            out.append(&mut more);
            assert(line_views(out@) =~= o + m);
            assert(fv.take(k + 1).drop_last() =~= fv.take(k as int));
            assert(fv.take(k + 1).last() == fv[k as int]);
            assert(fv[k as int] == (path@, args_view(self.file_changes@[k as int].1@)));
            assert(line_views(out@) =~= head + files_rows(fv.take(k + 1), flags));
            k = k + 1;
        }
        assert(fv.take(self.file_changes@.len() as int) =~= fv);
        out
    }
}

} // verus!
