use vstd::prelude::*;
use crate::style::{Line, Part, PartView, Rgb, Style};
use crate::text::chars_of;

verus! {

/// The number of characters of an abbreviated commit hash.
pub const HASH_LEN: usize = 7;

/// Yellow on black.
pub open spec fn hash_colors() -> (Rgb, Rgb) {
    ((255, 255, 0), (0, 0, 0))
}

/// The index of the first `*` in `t` at `i` or after.
pub open spec fn first_star_from(t: Seq<char>, i: int) -> Option<int>
    decreases t.len() - i,
{
    if i < 0 || i >= t.len() {
        None
    } else if t[i] == '*' {
        Some(i)
    } else {
        first_star_from(t, i + 1)
    }
}

/// The index of the first character other than a space in `t` at `i` or
/// after.
pub open spec fn first_non_space_from(t: Seq<char>, i: int) -> Option<int>
    decreases t.len() - i,
{
    if i < 0 || i >= t.len() {
        None
    } else if t[i] != ' ' {
        Some(i)
    } else {
        first_non_space_from(t, i + 1)
    }
}

/// Where the hash of a line of the commit graph begins: at the first
/// character after the first `*` that is not a space, provided a whole hash
/// fits from there.
pub open spec fn hash_start(t: Seq<char>) -> Option<int> {
    match first_star_from(t, 0) {
        Some(s) => match first_non_space_from(t, s + 1) {
            Some(h) => if h + HASH_LEN <= t.len() {
                Some(h)
            } else {
                None
            },
            None => None,
        },
        None => None,
    }
}

/// The index of the first `*` at `from` or after, by scanning.
fn find_star(t: &Vec<char>, from: usize) -> (r: Option<usize>)
    ensures
        match r {
            Some(i) => first_star_from(t@, from as int) == Some(i as int) && from <= i < t@.len(),
            None => first_star_from(t@, from as int) is None,
        },
{
    let mut i: usize = from;
    while i < t.len()
        invariant
            from <= i,
            first_star_from(t@, from as int) == first_star_from(t@, i as int),
        decreases t.len() - i,
    {
        if t[i] == '*' {
            return Some(i);
        }
        i = i + 1;
    }
    None
}

/// The index of the first character other than a space at `from` or after,
/// by scanning.
fn find_non_space(t: &Vec<char>, from: usize) -> (r: Option<usize>)
    ensures
        match r {
            Some(i) => first_non_space_from(t@, from as int) == Some(i as int) && from <= i < t@.len(),
            None => first_non_space_from(t@, from as int) is None,
        },
{
    let mut i: usize = from;
    while i < t.len()
        invariant
            from <= i,
            first_non_space_from(t@, from as int) == first_non_space_from(t@, i as int),
        decreases t.len() - i,
    {
        if t[i] != ' ' {
            return Some(i);
        }
        i = i + 1;
    }
    None
}

/// Where the hash of a line of the commit graph begins, as `hash_start` says.
fn find_hash(line: &str) -> (r: Option<usize>)
    ensures
        match r {
            Some(h) => hash_start(line@) == Some(h as int) && h + HASH_LEN <= line@.len(),
            None => hash_start(line@) is None,
        },
{
    let t = chars_of(line);
    match find_star(&t, 0) {
        Some(s) => {
            if s + 1 > t.len() {
                return None;
            }
            match find_non_space(&t, s + 1) {
                Some(h) => {
                    if HASH_LEN <= t.len() - h {
                        Some(h)
                    } else {
                        None
                    }
                },
                None => None,
            }
        },
        None => None,
    }
}

/// The abbreviated commit hash of a line of the commit graph, as
/// `hash_start` locates it.
pub fn parse_commit_hash(line: &str) -> (r: Option<String>)
    ensures
        match hash_start(line@) {
            Some(h) => r is Some && r->0@ == line@.subrange(h, h + HASH_LEN),
            None => r is None,
        },
{
    let len = line.unicode_len();
    match find_hash(line) {
        Some(h) => {
            assert(h + HASH_LEN <= len);
            Some(String::from_str(line.substring_char(h, h + HASH_LEN)))
        },
        None => None,
    }
}

/// The styled line for a line of the commit graph: the text before the
/// hash plain, the hash painted yellow on black, the rest plain; a line with
/// no hash is one plain part.
pub open spec fn log_line(t: Seq<char>) -> Seq<PartView> {
    match hash_start(t) {
        Some(h) => seq![
            PartView { text: t.subrange(0, h), styles: seq![Style::Plain] },
            PartView {
                text: t.subrange(h, h + HASH_LEN),
                styles: seq![Style::Painted(hash_colors().0, hash_colors().1)],
            },
            PartView { text: t.subrange(h + HASH_LEN, t.len() as int), styles: seq![Style::Plain] },
        ],
        None => seq![PartView { text: t, styles: seq![Style::Plain] }],
    }
}

/// Styles a line of the commit graph as `log_line` says.
pub fn map_line(line: &str) -> (r: Line)
    ensures
        r@ == log_line(line@),
{
    match find_hash(line) {
        Some(h) => {
            let n = line.unicode_len();
            let mut parts: Vec<Part> = Vec::new();
            parts.push(Part::plain(line.substring_char(0, h)));
            parts.push(Part::painted(line.substring_char(h, h + HASH_LEN), (255, 255, 0), (0, 0, 0)));
            parts.push(Part::plain(line.substring_char(h + HASH_LEN, n)));
            let r = Line::new(parts);
            assert(r@ =~= log_line(line@));
            r
        },
        None => Line::plain(line),
    }
}

/// The characters the commit graph draws around the hashes.
pub open spec fn is_graph_char(c: char) -> bool {
    c == '|' || c == '\\' || c == '*' || c == ' '
}

/// The index of the first character of `t` at `i` or after that is not part
/// of the graph drawing.
pub open spec fn first_text_from(t: Seq<char>, i: int) -> Option<int>
    decreases t.len() - i,
{
    if i < 0 || i >= t.len() {
        None
    } else if !is_graph_char(t[i]) {
        Some(i)
    } else {
        first_text_from(t, i + 1)
    }
}

/// The index of the last character of `t` before `i` that is not part of
/// the graph drawing.
pub open spec fn last_text_before(t: Seq<char>, i: int) -> Option<int>
    decreases i,
{
    if i <= 0 || i > t.len() {
        None
    } else if !is_graph_char(t[i - 1]) {
        Some(i - 1)
    } else {
        last_text_before(t, i - 1)
    }
}

/// The hash a line of the commit graph begins with once the graph drawing
/// around it is trimmed: its first seven characters, when that many are left.
pub open spec fn graph_hash_spec(t: Seq<char>) -> Option<Seq<char>> {
    match (first_text_from(t, 0), last_text_before(t, t.len() as int)) {
        (Some(a), Some(b)) => if b + 1 - a >= HASH_LEN {
            Some(t.subrange(a, a + HASH_LEN))
        } else {
            None
        },
        _ => None,
    }
}

/// The hash a line of the commit graph begins with, as `graph_hash_spec`
/// says.
pub fn graph_line_hash(line: &str) -> (r: Option<String>)
    ensures
        match graph_hash_spec(line@) {
            Some(h) => r is Some && r->0@ == h,
            None => r is None,
        },
{
    let t = chars_of(line);
    let n = t.len();
    let mut a: usize = 0;
    while a < n && (t[a] == '|' || t[a] == '\\' || t[a] == '*' || t[a] == ' ')
        invariant
            a <= n,
            n == t@.len(),
            first_text_from(t@, 0) == first_text_from(t@, a as int),
        decreases n - a,
    {
        a = a + 1;
    }
    if a == n {
        return None;
    }
    let ghost ta = t@[a as int];
    assert(!is_graph_char(ta));
    let mut b: usize = n;
    while b > 0 && (t[b - 1] == '|' || t[b - 1] == '\\' || t[b - 1] == '*' || t[b - 1] == ' ')
        invariant
            a < b <= n,
            ta == t@[a as int],
            !is_graph_char(ta),
            n == t@.len(),
            last_text_before(t@, n as int) == last_text_before(t@, b as int),
        decreases b,
    {
        b = b - 1;
    }
    assert(first_text_from(t@, a as int) == Some(a as int));
    assert(b > 0 ==> last_text_before(t@, b as int) == Some(b - 1));
    if b == 0 {
        return None;
    }
    if b - a >= HASH_LEN {
        Some(String::from_str(line.substring_char(a, a + HASH_LEN)))
    } else {
        None
    }
}

} // verus!
