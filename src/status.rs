use vstd::prelude::*;
use crate::git::{args_view, decimal, push_decimal};
use crate::layout::line_views;
use crate::style::{Line, Part, PartView, Rgb, Style};
use crate::text::{contains, contains_spec, push_char};

verus! {

/// A foldable section of the status view.
#[derive(Clone, Copy, Debug, PartialEq, Eq, Structural)]
pub enum Section {
    UntrackedModified,
    Untracked,
    Modified,
    Staged,
    Deleted,
}

/// The title of a section, as its heading shows it.
pub open spec fn section_title(s: Section) -> Seq<char> {
    match s {
        Section::UntrackedModified => "Untracked (modified) files"@,
        Section::Untracked => "Untracked files"@,
        Section::Modified => "Modified files"@,
        Section::Staged => "Staged files"@,
        Section::Deleted => "Deleted files"@,
    }
}

impl Section {
    /// The title of the section.
    pub fn title(&self) -> (r: &'static str)
        ensures
            r@ == section_title(*self),
    {
        match self {
            Section::UntrackedModified => "Untracked (modified) files",
            Section::Untracked => "Untracked files",
            Section::Modified => "Modified files",
            Section::Staged => "Staged files",
            Section::Deleted => "Deleted files",
        }
    }
}

/// The sections in the order a line is matched against their titles.
pub open spec fn section_order() -> Seq<Section> {
    seq![
        Section::UntrackedModified,
        Section::Untracked,
        Section::Modified,
        Section::Staged,
        Section::Deleted,
    ]
}

/// The first section, in `section_order` from index `i`, whose title the
/// line holds.
pub open spec fn section_from(line: Seq<char>, i: int) -> Option<Section>
    decreases 5 - i,
{
    if i < 0 || i >= 5 {
        None
    } else if contains_spec(line, section_title(section_order()[i])) {
        Some(section_order()[i])
    } else {
        section_from(line, i + 1)
    }
}

/// The section whose heading `line` is, as `section_from` finds it.
pub fn section_of_line(line: &str) -> (r: Option<Section>)
    ensures
        r == section_from(line@, 0),
{
    let order = [
        Section::UntrackedModified,
        Section::Untracked,
        Section::Modified,
        Section::Staged,
        Section::Deleted,
    ];
    assert(order@ =~= section_order());
    let mut i: usize = 0;
    while i < 5
        invariant
            i <= 5,
            order@ == section_order(),
            section_from(line@, 0) == section_from(line@, i as int),
        decreases 5 - i,
    {
        let s = order[i];
        if contains(line, s.title()) {
            return Some(s);
        }
        i = i + 1;
    }
    None
}

/// The kind of a short status entry, by its two status letters.
#[derive(Clone, Copy, Debug, PartialEq, Eq, Structural)]
pub enum EntryKind {
    /// Deleted in the work tree: ` D`.
    Deleted,
    /// Modified in the work tree: ` M` or `MM`.
    Unstaged,
    /// Changed in the index: `M`, `A` or `D` first.
    Staged,
}

/// The entry `t` is of kind `k`.
pub open spec fn entry_is(k: EntryKind, t: Seq<char>) -> bool {
    match k {
        EntryKind::Deleted => t.len() >= 2 && t[0] == ' ' && t[1] == 'D',
        EntryKind::Unstaged => t.len() >= 2 && (t[0] == ' ' || t[0] == 'M') && t[1] == 'M',
        EntryKind::Staged => t.len() >= 1 && (t[0] == 'M' || t[0] == 'A' || t[0] == 'D'),
    }
}

/// The entries of kind `k`, in order.
pub open spec fn entries_of(k: EntryKind, entries: Seq<Seq<char>>) -> Seq<Seq<char>> {
    entries.filter(|t: Seq<char>| entry_is(k, t))
}

/// Whether the entry `t` is of kind `k`.
pub fn is_entry(k: EntryKind, t: &str) -> (r: bool)
    ensures
        r == entry_is(k, t@),
{
    let n = t.unicode_len();
    match k {
        EntryKind::Deleted => n >= 2 && t.get_char(0) == ' ' && t.get_char(1) == 'D',
        EntryKind::Unstaged => n >= 2 && (t.get_char(0) == ' ' || t.get_char(0) == 'M')
            && t.get_char(1) == 'M',
        EntryKind::Staged => n >= 1 && (t.get_char(0) == 'M' || t.get_char(0) == 'A' || t.get_char(0)
            == 'D'),
    }
}

/// The entries of kind `k`, in order.
pub fn filter_entries(k: EntryKind, entries: &Vec<String>) -> (r: Vec<String>)
    ensures
        args_view(r@) == entries_of(k, args_view(entries@)),
{
    let ghost f = |t: Seq<char>| entry_is(k, t);
    let ghost all = args_view(entries@);
    let mut r: Vec<String> = Vec::new();
    let mut i: usize = 0;
    proof {
        reveal(Seq::filter);
        assert(all.take(0) =~= Seq::<Seq<char>>::empty());
        assert(args_view(r@) =~= all.take(0).filter(f));
    }
    while i < entries.len()
        invariant
            i <= entries@.len(),
            all == args_view(entries@),
            f == (|t: Seq<char>| entry_is(k, t)),
            args_view(r@) == all.take(i as int).filter(f),
        decreases entries.len() - i,
    {
        let ghost before = args_view(r@);
        proof {
            reveal(Seq::filter);
            assert(all.take(i + 1).drop_last() =~= all.take(i as int));
            assert(all.take(i + 1).last() == entries@[i as int]@);
        }
        if is_entry(k, entries[i].as_str()) {
            r.push(String::from_str(entries[i].as_str()));
            assert(args_view(r@) =~= before.push(entries@[i as int]@));
        }
        i = i + 1;
    }
    assert(all.take(entries@.len() as int) =~= all);
    r
}

/// The entry `t` names an untracked path: it opens with `??` or `AM`.
pub open spec fn is_untracked_entry(t: Seq<char>) -> bool {
    t.len() >= 3 && ((t[0] == '?' && t[1] == '?') || (t[0] == 'A' && t[1] == 'M'))
}

/// Whether the entry names an untracked path, as `is_untracked_entry` says.
pub fn untracked_entry(t: &str) -> (r: bool)
    ensures
        r == is_untracked_entry(t@),
{
    let n = t.unicode_len();
    n >= 3 && ((t.get_char(0) == '?' && t.get_char(1) == '?') || (t.get_char(0) == 'A' && t.get_char(
        1,
    ) == 'M'))
}

/// The path of an entry: what follows its two letters and the space.
pub fn entry_path(t: &str) -> (r: String)
    requires
        t@.len() >= 3,
    ensures
        r@ == t@.skip(3),
{
    let n = t.unicode_len();
    let r = String::from_str(t.substring_char(3, n));
    assert(t@.subrange(3, n as int) =~= t@.skip(3));
    r
}

/// Bold and underlined.
pub open spec fn heading_styles() -> Seq<Style> {
    seq![Style::Bold, Style::Underlined]
}

/// A part holding `t` with the heading styles.
pub open spec fn heading_part(t: Seq<char>) -> PartView {
    PartView { text: t, styles: heading_styles() }
}

/// A part holding `t` plain.
pub open spec fn plain_part(t: Seq<char>) -> PartView {
    PartView { text: t, styles: seq![Style::Plain] }
}

/// A line of one plain part holding `t`.
pub open spec fn plain_row(t: Seq<char>) -> Seq<PartView> {
    seq![plain_part(t)]
}

/// A line of one plain, empty part.
pub open spec fn blank_row() -> Seq<PartView> {
    plain_row(Seq::empty())
}

/// A line for each text, each one plain part.
pub open spec fn plain_rows(ts: Seq<Seq<char>>) -> Seq<Seq<PartView>> {
    ts.map_values(|t: Seq<char>| plain_row(t))
}

/// A line for each untracked path: `?? ` and the path, plain.
pub open spec fn untracked_rows(paths: Seq<Seq<char>>) -> Seq<Seq<PartView>> {
    paths.map_values(|p: Seq<char>| plain_row(seq!['?', '?', ' '] + p))
}

/// The heading text of a section holding `n` entries: `<title>: (<n>)`.
pub open spec fn count_text(title: Seq<char>, n: nat) -> Seq<char> {
    title + seq![':', ' ', '('] + decimal(n) + seq![')']
}

/// Cyan on black.
pub open spec fn branch_colors() -> (Rgb, Rgb) {
    ((0, 255, 255), (0, 0, 0))
}

/// Red on black.
pub open spec fn origin_colors() -> (Rgb, Rgb) {
    ((255, 0, 0), (0, 0, 0))
}

/// A summary line: a heading, the branch painted, and the commit.
pub open spec fn summary_row(label: Seq<char>, branch: Seq<char>, colors: (Rgb, Rgb), commit: Seq<
    char,
>) -> Seq<PartView> {
    seq![
        heading_part(label),
        PartView { text: branch, styles: seq![Style::Painted(colors.0, colors.1)] },
        plain_part(seq![' ']),
        plain_part(commit),
    ]
}

/// What the status view is made from: the checked-out branch and its last
/// commit, the remote branch and its last commit when it differs, the
/// untracked files (plain and modified) and the short status entries.
pub struct StatusReport {
    pub head_branch: String,
    pub last_commit: String,
    pub origin: Option<(String, String)>,
    pub untracked: Vec<String>,
    pub untracked_modified: Vec<String>,
    pub entries: Vec<String>,
}

/// A section of untracked paths: when there are any, its heading with their
/// number, the paths if the section is expanded, and a blank line.
pub open spec fn untracked_section(title: Seq<char>, paths: Seq<Seq<char>>, expanded: bool) -> Seq<
    Seq<PartView>,
> {
    if paths.len() == 0 {
        Seq::empty()
    } else {
        seq![seq![heading_part(count_text(title, paths.len()))]] + (if expanded {
            untracked_rows(paths)
        } else {
            Seq::empty()
        }) + seq![blank_row()]
    }
}

/// The summary at the top: the head line, the remote line when the remote
/// differs, and a blank line.
pub open spec fn summary_rows(
    head_branch: Seq<char>,
    last_commit: Seq<char>,
    origin: Option<(Seq<char>, Seq<char>)>,
) -> Seq<Seq<PartView>> {
    seq![summary_row("Head:"@, head_branch, branch_colors(), last_commit)] + match origin {
        Some(o) => seq![summary_row("Origin "@, o.0, origin_colors(), o.1)],
        None => Seq::empty(),
    } + seq![blank_row()]
}

/// The deleted section: when there are deleted entries, its heading, the
/// entries if expanded, and a blank line.
pub open spec fn deleted_section(deleted: Seq<Seq<char>>, expanded: bool) -> Seq<Seq<PartView>> {
    if deleted.len() == 0 {
        Seq::empty()
    } else {
        seq![seq![heading_part("Deleted files:"@)]] + (if expanded {
            plain_rows(deleted)
        } else {
            Seq::empty()
        }) + seq![blank_row()]
    }
}

/// The modified section: its heading with their number always; the entries
/// and a blank line when there are any and it is expanded; then a blank line.
pub open spec fn modified_section(unstaged: Seq<Seq<char>>, expanded: bool) -> Seq<Seq<PartView>> {
    seq![seq![heading_part(count_text(section_title(Section::Modified), unstaged.len()))]] + (
    if unstaged.len() > 0 && expanded {
        plain_rows(unstaged) + seq![blank_row()]
    } else {
        Seq::empty()
    }) + seq![blank_row()]
}

/// The staged section: when there are staged entries, its heading with
/// their number and the entries.
pub open spec fn staged_section(staged: Seq<Seq<char>>) -> Seq<Seq<PartView>> {
    if staged.len() == 0 {
        Seq::empty()
    } else {
        seq![seq![heading_part(count_text(section_title(Section::Staged), staged.len()))]]
            + plain_rows(staged)
    }
}

/// The status view, line by line: the summary; the untracked and
/// untracked-modified sections; the deleted, modified and staged sections.
pub open spec fn status_view(
    head_branch: Seq<char>,
    last_commit: Seq<char>,
    origin: Option<(Seq<char>, Seq<char>)>,
    untracked: Seq<Seq<char>>,
    untracked_modified: Seq<Seq<char>>,
    entries: Seq<Seq<char>>,
    expanded: Seq<Section>,
) -> Seq<Seq<PartView>> {
    summary_rows(head_branch, last_commit, origin) + untracked_section(
        section_title(Section::Untracked),
        untracked,
        expanded.contains(Section::Untracked),
    ) + untracked_section(
        section_title(Section::UntrackedModified),
        untracked_modified,
        expanded.contains(Section::UntrackedModified),
    ) + deleted_section(entries_of(EntryKind::Deleted, entries), expanded.contains(Section::Deleted))
        + modified_section(
        entries_of(EntryKind::Unstaged, entries),
        expanded.contains(Section::Modified),
    ) + staged_section(entries_of(EntryKind::Staged, entries))
}

/// Bold and underlined, as a style list.
fn heading_style_list() -> (r: Vec<Style>)
    ensures
        r@ == heading_styles(),
{
    let mut r: Vec<Style> = Vec::new();
    r.push(Style::Bold);
    r.push(Style::Underlined);
    assert(r@ =~= heading_styles());
    r
}

/// A heading part holding `t`.
fn heading(t: &str) -> (r: Part)
    ensures
        r@ == heading_part(t@),
{
    Part::new(t, Some(heading_style_list()))
}

/// A summary line, as `summary_row` says.
fn summary_line(label: &str, branch: &str, colors: (Rgb, Rgb), commit: &str) -> (r: Line)
    ensures
        r@ == summary_row(label@, branch@, colors, commit@),
{
    let mut parts: Vec<Part> = Vec::new();
    parts.push(heading(label));
    parts.push(Part::painted(branch, colors.0, colors.1));
    let mut space = String::new();
    push_char(&mut space, ' ');
    assert(space@ =~= seq![' ']);
    parts.push(Part::plain(space.as_str()));
    parts.push(Part::plain(commit));
    let r = Line::new(parts);
    assert(r@ =~= summary_row(label@, branch@, colors, commit@));
    r
}

/// A line of one heading part holding `t`.
fn heading_line(t: &str) -> (r: Line)
    ensures
        r@ == seq![heading_part(t@)],
{
    Line::single(Part::new(t, Some(heading_style_list())))
}

/// The heading line of a section holding `n` entries.
fn count_line(title: &str, n: usize) -> (r: Line)
    ensures
        r@ == seq![heading_part(count_text(title@, n as nat))],
{
    let mut t = String::from_str(title);
    t.append(": (");
    push_decimal(&mut t, n as u64);
    t.append(")");
    proof {
        reveal_strlit(": (");
        reveal_strlit(")");
    }
    assert(t@ =~= count_text(title@, n as nat));
    heading_line(t.as_str())
}

/// Appends `more` to `out`.
fn append_rows(out: &mut Vec<Line>, more: Vec<Line>)
    ensures
        line_views(final(out)@) == line_views(old(out)@) + line_views(more@),
{
    let ghost added = more@;
    let mut more = more;
    out.append(&mut more);
    assert(line_views(out@) =~= line_views(old(out)@) + line_views(added));
}

/// Appends one line to `out`.
fn push_row(out: &mut Vec<Line>, line: Line)
    ensures
        line_views(final(out)@) == line_views(old(out)@).push(line@),
{
    out.push(line);
    assert(line_views(out@) =~= line_views(old(out)@).push(line@));
}

/// A plain line for each text.
fn plain_lines(ts: &Vec<String>) -> (r: Vec<Line>)
    ensures
        line_views(r@) == plain_rows(args_view(ts@)),
{
    let mut r: Vec<Line> = Vec::new();
    let mut i: usize = 0;
    while i < ts.len()
        invariant
            i <= ts@.len(),
            line_views(r@) == plain_rows(args_view(ts@).take(i as int)),
        decreases ts.len() - i,
    {
        let ghost before = line_views(r@);
        push_row(&mut r, Line::plain(ts[i].as_str()));
        assert(plain_rows(args_view(ts@).take(i + 1)) =~= before.push(plain_row(ts@[i as int]@)));
        i = i + 1;
    }
    assert(args_view(ts@).take(ts@.len() as int) =~= args_view(ts@));
    r
}

/// A `?? <path>` line for each path.
fn untracked_lines(paths: &Vec<String>) -> (r: Vec<Line>)
    ensures
        line_views(r@) == untracked_rows(args_view(paths@)),
{
    let mut r: Vec<Line> = Vec::new();
    let mut i: usize = 0;
    while i < paths.len()
        invariant
            i <= paths@.len(),
            line_views(r@) == untracked_rows(args_view(paths@).take(i as int)),
        decreases paths.len() - i,
    {
        let ghost before = line_views(r@);
        let mut t = String::from_str("?? ");
        proof {
            reveal_strlit("?? ");
        }
        t.append(paths[i].as_str());
        assert(t@ =~= seq!['?', '?', ' '] + paths@[i as int]@);
        push_row(&mut r, Line::plain(t.as_str()));
        assert(untracked_rows(args_view(paths@).take(i + 1)) =~= before.push(
            plain_row(seq!['?', '?', ' '] + paths@[i as int]@),
        ));
        i = i + 1;
    }
    assert(args_view(paths@).take(paths@.len() as int) =~= args_view(paths@));
    r
}

/// Whether `s` is among `expanded`.
pub fn is_expanded(expanded: &Vec<Section>, s: Section) -> (r: bool)
    ensures
        r == expanded@.contains(s),
{
    let mut i: usize = 0;
    while i < expanded.len()
        invariant
            i <= expanded@.len(),
            forall|j: int| 0 <= j < i ==> expanded@[j] != s,
        decreases expanded.len() - i,
    {
        if expanded[i] == s {
            return true;
        }
        i = i + 1;
    }
    false
}

/// The lines of an untracked section, as `untracked_section` says.
fn untracked_section_lines(title: &str, paths: &Vec<String>, expanded: bool) -> (r: Vec<Line>)
    ensures
        line_views(r@) == untracked_section(title@, args_view(paths@), expanded),
{
    let mut out: Vec<Line> = Vec::new();
    if paths.len() == 0 {
        assert(line_views(out@) =~= Seq::<Seq<PartView>>::empty());
        return out;
    }
    push_row(&mut out, count_line(title, paths.len()));
    let ghost head = line_views(out@);
    if expanded {
        append_rows(&mut out, untracked_lines(paths));
    } else {
        assert(line_views(out@) =~= head + Seq::<Seq<PartView>>::empty());
    }
    push_row(&mut out, Line::empty());
    assert(line_views(out@) =~= untracked_section(title@, args_view(paths@), expanded));
    out
}

/// The summary lines, as `summary_rows` says.
fn summary_lines(report: &StatusReport) -> (r: Vec<Line>)
    ensures
        line_views(r@) == summary_rows(
            report.head_branch@,
            report.last_commit@,
            match report.origin {
                Some(o) => Some((o.0@, o.1@)),
                None => None,
            },
        ),
{
    let mut out: Vec<Line> = Vec::new();
    push_row(
        &mut out,
        summary_line("Head:", report.head_branch.as_str(), ((0, 255, 255), (0, 0, 0)), report.last_commit.as_str()),
    );
    let ghost first = line_views(out@);
    match &report.origin {
        Some(o) => {
            push_row(&mut out, summary_line("Origin ", o.0.as_str(), ((255, 0, 0), (0, 0, 0)), o.1.as_str()));
        },
        None => {
            assert(line_views(out@) =~= first + Seq::<Seq<PartView>>::empty());
        },
    }
    push_row(&mut out, Line::empty());
    out
}

/// The lines of the deleted section, as `deleted_section` says.
fn deleted_lines(deleted: &Vec<String>, expanded: bool) -> (r: Vec<Line>)
    ensures
        line_views(r@) == deleted_section(args_view(deleted@), expanded),
{
    let mut out: Vec<Line> = Vec::new();
    if deleted.len() == 0 {
        assert(line_views(out@) =~= Seq::<Seq<PartView>>::empty());
        return out;
    }
    push_row(&mut out, heading_line("Deleted files:"));
    let ghost head = line_views(out@);
    if expanded {
        append_rows(&mut out, plain_lines(deleted));
    } else {
        assert(line_views(out@) =~= head + Seq::<Seq<PartView>>::empty());
    }
    push_row(&mut out, Line::empty());
    out
}

/// The lines of the modified section, as `modified_section` says.
fn modified_lines(unstaged: &Vec<String>, expanded: bool) -> (r: Vec<Line>)
    ensures
        line_views(r@) == modified_section(args_view(unstaged@), expanded),
{
    let mut out: Vec<Line> = Vec::new();
    push_row(&mut out, count_line(Section::Modified.title(), unstaged.len()));
    let ghost head = line_views(out@);
    if unstaged.len() > 0 && expanded {
        append_rows(&mut out, plain_lines(unstaged));
        push_row(&mut out, Line::empty());
        assert(line_views(out@) =~= head + (plain_rows(args_view(unstaged@)) + seq![blank_row()]));
    } else {
        assert(line_views(out@) =~= head + Seq::<Seq<PartView>>::empty());
    }
    push_row(&mut out, Line::empty());
    out
}

/// The lines of the staged section, as `staged_section` says.
fn staged_lines(staged: &Vec<String>) -> (r: Vec<Line>)
    ensures
        line_views(r@) == staged_section(args_view(staged@)),
{
    let mut out: Vec<Line> = Vec::new();
    if staged.len() == 0 {
        assert(line_views(out@) =~= Seq::<Seq<PartView>>::empty());
        return out;
    }
    push_row(&mut out, count_line(Section::Staged.title(), staged.len()));
    append_rows(&mut out, plain_lines(staged));
    out
}

/// The lines of the status view of `report` with the sections in
/// `expanded` unfolded, as `status_view` says.
pub fn status_lines(report: &StatusReport, expanded: &Vec<Section>) -> (r: Vec<Line>)
    ensures
        line_views(r@) == status_view(
            report.head_branch@,
            report.last_commit@,
            match report.origin {
                Some(o) => Some((o.0@, o.1@)),
                None => None,
            },
            args_view(report.untracked@),
            args_view(report.untracked_modified@),
            args_view(report.entries@),
            expanded@,
        ),
{
    let deleted = filter_entries(EntryKind::Deleted, &report.entries);
    let unstaged = filter_entries(EntryKind::Unstaged, &report.entries);
    let staged = filter_entries(EntryKind::Staged, &report.entries);
    let mut out = summary_lines(report);
    append_rows(
        &mut out,
        untracked_section_lines(
            Section::Untracked.title(),
            &report.untracked,
            is_expanded(expanded, Section::Untracked),
        ),
    );
    append_rows(
        &mut out,
        untracked_section_lines(
            Section::UntrackedModified.title(),
            &report.untracked_modified,
            is_expanded(expanded, Section::UntrackedModified),
        ),
    );
    append_rows(&mut out, deleted_lines(&deleted, is_expanded(expanded, Section::Deleted)));
    append_rows(&mut out, modified_lines(&unstaged, is_expanded(expanded, Section::Modified)));
    append_rows(&mut out, staged_lines(&staged));
    out
}

/// The entry `t` names an untracked path with no change in the index (`??`),
/// or, when `modified`, one added and then modified (`AM`).
pub open spec fn is_untracked_of(t: Seq<char>, modified: bool) -> bool {
    is_untracked_entry(t) && (t[1] == 'M') == modified
}

/// The paths of the untracked entries of the given kind, in order.
pub open spec fn untracked_paths_spec(entries: Seq<Seq<char>>, modified: bool) -> Seq<Seq<char>> {
    entries.filter(|t: Seq<char>| is_untracked_of(t, modified)).map_values(|t: Seq<char>| t.skip(3))
}

/// The paths of the untracked entries of the given kind, in order.
pub fn untracked_paths(entries: &Vec<String>, modified: bool) -> (r: Vec<String>)
    ensures
        args_view(r@) == untracked_paths_spec(args_view(entries@), modified),
{
    let ghost f = |t: Seq<char>| is_untracked_of(t, modified);
    let ghost all = args_view(entries@);
    let mut r: Vec<String> = Vec::new();
    let mut i: usize = 0;
    proof {
        reveal(Seq::filter);
        assert(all.take(0) =~= Seq::<Seq<char>>::empty());
        assert(args_view(r@) =~= all.take(0).filter(f).map_values(|t: Seq<char>| t.skip(3)));
    }
    while i < entries.len()
        invariant
            i <= entries@.len(),
            all == args_view(entries@),
            f == (|t: Seq<char>| is_untracked_of(t, modified)),
            args_view(r@) == all.take(i as int).filter(f).map_values(|t: Seq<char>| t.skip(3)),
        decreases entries.len() - i,
    {
        let ghost before = all.take(i as int).filter(f);
        proof {
            reveal(Seq::filter);
            assert(all.take(i + 1).drop_last() =~= all.take(i as int));
            assert(all.take(i + 1).last() == entries@[i as int]@);
        }
        let e = entries[i].as_str();
        if untracked_entry(e) && (e.get_char(1) == 'M') == modified {
            let ghost old_r = args_view(r@);
            r.push(entry_path(e));
            assert(args_view(r@) =~= old_r.push(entries@[i as int]@.skip(3)));
            assert(all.take(i + 1).filter(f) == before.push(entries@[i as int]@));
            assert(before.push(entries@[i as int]@).map_values(|t: Seq<char>| t.skip(3))
                =~= before.map_values(|t: Seq<char>| t.skip(3)).push(entries@[i as int]@.skip(3)));
        }
        i = i + 1;
    }
    assert(all.take(entries@.len() as int) =~= all);
    r
}

/// A sequence with `x` pushed holds `t` exactly when `t` is `x` or the
/// sequence held it.
pub proof fn lemma_push_contains<A>(s: Seq<A>, x: A, t: A)
    ensures
        s.push(x).contains(t) == (t == x || s.contains(t)),
{
    if s.contains(t) {
        let j = choose|j: int| #![trigger s[j]] 0 <= j < s.len() && s[j] == t;
        assert(s.push(x)[j] == t);
    }
    if t == x {
        assert(s.push(x)[s.len() as int] == x);
    }
    if s.push(x).contains(t) && t != x {
        let j = choose|j: int| #![trigger s.push(x)[j]] 0 <= j < s.len() + 1 && s.push(x)[j] == t;
        assert(s[j] == t);
    }
}

/// The main status screen: its search term and the sections unfolded.
pub struct MainWindow {
    pub term: String,
    pub expanded_sections: Vec<Section>,
}

impl MainWindow {
    /// A status screen with no search term and every section folded.
    pub fn new() -> (r: MainWindow)
        ensures
            r.term@ == Seq::<char>::empty(),
            r.expanded_sections@ == Seq::<Section>::empty(),
    {
        MainWindow { term: String::new(), expanded_sections: Vec::new() }
    }

    /// Folds `section` if it is unfolded, unfolds it otherwise.
    pub fn toggle_section(&mut self, section: Section)
        ensures
            final(self).term == old(self).term,
            forall|s: Section|
                #[trigger] final(self).expanded_sections@.contains(s) == if s == section {
                    !old(self).expanded_sections@.contains(s)
                } else {
                    old(self).expanded_sections@.contains(s)
                },
    {
        if is_expanded(&self.expanded_sections, section) {
            let ghost old_list = self.expanded_sections@;
            let mut kept: Vec<Section> = Vec::new();
            let mut i: usize = 0;
            while i < self.expanded_sections.len()
                invariant
                    i <= self.expanded_sections@.len(),
                    self.expanded_sections@ == old_list,
                    forall|s: Section|
                        #[trigger] kept@.contains(s) == (s != section && old_list.take(i as int).contains(s)),
                decreases self.expanded_sections.len() - i,
            {
                let s = self.expanded_sections[i];
                let ghost before = kept@;
                assert(old_list.take(i + 1) =~= old_list.take(i as int).push(s));
                if s != section {
                    kept.push(s);
                }
                assert forall|t: Section| #[trigger] kept@.contains(t) == (t != section
                    && old_list.take(i + 1).contains(t)) by {
                    lemma_push_contains(old_list.take(i as int), s, t);
                    if s != section {
                        lemma_push_contains(before, s, t);
                    }
                }
                i = i + 1;
            }
            assert(old_list.take(old_list.len() as int) =~= old_list);
            self.expanded_sections = kept;
        } else {
            let ghost before = self.expanded_sections@;
            self.expanded_sections.push(section);
            assert forall|s: Section| #[trigger] self.expanded_sections@.contains(s) == if s
                == section {
                !before.contains(s)
            } else {
                before.contains(s)
            } by {
                lemma_push_contains(before, section, s);
            }
        }
    }

    /// Enter on a line of the status view: a section heading folds or
    /// unfolds that section, as `section_from` finds it. Returns the section,
    /// or none when the line is no heading.
    pub fn select_line(&mut self, line: &str) -> (r: Option<Section>)
        ensures
            r == section_from(line@, 0),
            final(self).term == old(self).term,
            forall|s: Section|
                #[trigger] final(self).expanded_sections@.contains(s) == if r == Some(s) {
                    !old(self).expanded_sections@.contains(s)
                } else {
                    old(self).expanded_sections@.contains(s)
                },
    {
        let r = section_of_line(line);
        match r {
            Some(s) => self.toggle_section(s),
            None => {},
        }
        r
    }

    /// The status view of `report` with this screen's sections unfolded.
    pub fn status_view(&self, report: &StatusReport) -> (r: Vec<Line>)
        ensures
            line_views(r@) == status_view(
                report.head_branch@,
                report.last_commit@,
                match report.origin {
                    Some(o) => Some((o.0@, o.1@)),
                    None => None,
                },
                args_view(report.untracked@),
                args_view(report.untracked_modified@),
                args_view(report.entries@),
                self.expanded_sections@,
            ),
    {
        status_lines(report, &self.expanded_sections)
    }
}

} // verus!
