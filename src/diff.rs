use vstd::prelude::*;
use crate::style::{Line, Part, PartView, Rgb, Style};

verus! {

/// Green on black.
pub open spec fn added_colors() -> (Rgb, Rgb) {
    ((0, 255, 0), (0, 0, 0))
}

/// Red on black.
pub open spec fn removed_colors() -> (Rgb, Rgb) {
    ((255, 0, 0), (0, 0, 0))
}

/// Cyan on black.
pub open spec fn hunk_colors() -> (Rgb, Rgb) {
    ((0, 255, 255), (0, 0, 0))
}

/// `t` opens with `c` but not with three of it (a file header).
pub open spec fn opens_with_single(t: Seq<char>, c: char) -> bool {
    t.len() >= 1 && t[0] == c && !(t.len() >= 3 && t[1] == c && t[2] == c)
}

/// The colours a diff line is painted in: added lines green, removed lines
/// red, hunk headers cyan, all on black; other lines are not painted.
pub open spec fn diff_colors(t: Seq<char>) -> Option<(Rgb, Rgb)> {
    if opens_with_single(t, '+') {
        Some(added_colors())
    } else if opens_with_single(t, '-') {
        Some(removed_colors())
    } else if t.len() >= 2 && t[0] == '@' && t[1] == '@' {
        Some(hunk_colors())
    } else {
        None
    }
}

/// The styled line for a line of diff output: one part holding the whole
/// text, painted as `diff_colors` says, or plain.
pub open spec fn colored_line(t: Seq<char>) -> Seq<PartView> {
    match diff_colors(t) {
        Some(c) => seq![PartView { text: t, styles: seq![Style::Painted(c.0, c.1)] }],
        None => seq![PartView { text: t, styles: seq![Style::Plain] }],
    }
}

/// Whether `t` opens with `c` but not with three of it.
fn opens_with_single_char(line: &str, n: usize, c: char) -> (r: bool)
    requires
        n == line@.len(),
    ensures
        r == opens_with_single(line@, c),
{
    if n < 1 || line.get_char(0) != c {
        return false;
    }
    !(n >= 3 && line.get_char(1) == c && line.get_char(2) == c)
}

/// Colours a line of diff output as `colored_line` says.
pub fn color_diff_line(line: &str) -> (r: Line)
    ensures
        r@ == colored_line(line@),
{
    let n = line.unicode_len();
    if opens_with_single_char(line, n, '+') {
        Line::single(Part::painted(line, (0, 255, 0), (0, 0, 0)))
    } else if opens_with_single_char(line, n, '-') {
        Line::single(Part::painted(line, (255, 0, 0), (0, 0, 0)))
    } else if n >= 2 && line.get_char(0) == '@' && line.get_char(1) == '@' {
        Line::single(Part::painted(line, (0, 255, 255), (0, 0, 0)))
    } else {
        Line::plain(line)
    }
}

} // verus!
