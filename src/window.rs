use vstd::prelude::*;
use crate::geometry::{Position, ScreenSize};
use crate::layout::{Row, frame_row_ok, line_views, lemma_wrap_fitting_lines, row_at, wrap_spec};
use crate::style::parts_len;
use crate::screen::{Screen, clamp_move, normalized, text_at};
use crate::style::{Line, PartView, copy_lines, parts_text};
use crate::text::{contains, contains_spec, insert_char, remove_char};
use crate::keys::{KEY_SPACE, KEY_TILDE, KEY_DEL, KEY_DELETE, KEY_ESC, KEY_LEFT, KEY_LF, KEY_RIGHT, is_printable, printable_char};
use crate::style::Style;

verus! {

/// What a window stands for: its whole buffer, the index of the first
/// visible line, the cursor relative to the viewport, the viewport's size and
/// whether the cursor is shown.
pub struct WindowView {
    pub lines: Seq<Seq<PartView>>,
    pub start: int,
    pub cursor: Position,
    pub height: int,
    pub width: int,
    pub shown: bool,
}

/// A window state that the operations keep: a viewport of at least one row
/// and column, a buffer of at least one line, a first visible line inside the
/// buffer or just past its end, the cursor's row inside the viewport, and the
/// cursor on a line of the buffer or on the row just past its end.
pub open spec fn valid(v: WindowView) -> bool {
    &&& v.height >= 1
    &&& v.width >= 1
    &&& v.lines.len() >= 1
    &&& 0 <= v.start <= v.lines.len()
    &&& 0 <= v.cursor.y < v.height
    &&& cursor_index(v) <= v.lines.len()
    &&& 0 <= v.cursor.x
    &&& v.height <= i32::MAX
    &&& v.width <= i32::MAX
}

/// The index into the buffer of the line under the cursor.
pub open spec fn cursor_index(v: WindowView) -> int {
    v.start + v.cursor.y
}

/// The lines the viewport shows: from the first visible line, as many as fit
/// and exist; an empty slice becomes one blank line.
pub open spec fn visible(lines: Seq<Seq<PartView>>, start: int, height: int) -> Seq<Seq<PartView>> {
    let end = if start + height < lines.len() {
        start + height
    } else {
        lines.len() as int
    };
    normalized(lines.subrange(start, end))
}

/// The window with its cursor moved to `target`, clamped into the viewport,
/// and how far the requested row lay beyond it.
pub open spec fn with_cursor(v: WindowView, target: Position) -> (int, WindowView) {
    let m = clamp_move(target, v.height, v.width);
    (m.0, WindowView { cursor: m.1, ..v })
}

/// `row`, or `limit` if that is less.
pub open spec fn row_within(row: i32, limit: int) -> i32 {
    if row <= limit {
        row
    } else {
        limit as i32
    }
}

/// The window scrolled down by `delta` lines, unless that would move the
/// first visible line beyond the row just past the buffer. The cursor's row
/// comes up as far as needed to stay on a line or on the row just past the
/// end.
pub open spec fn screen_down(v: WindowView, delta: int) -> WindowView {
    if v.start + delta > v.lines.len() {
        v
    } else {
        WindowView {
            start: v.start + delta,
            cursor: Position {
                x: v.cursor.x,
                y: row_within(v.cursor.y, v.lines.len() - (v.start + delta)),
            },
            ..v
        }
    }
}

/// The window scrolled up by `delta` lines, unless that would move the first
/// visible line above the buffer.
pub open spec fn screen_up(v: WindowView, delta: int) -> WindowView {
    if v.start - delta < 0 {
        v
    } else {
        WindowView { start: v.start - delta, ..v }
    }
}

/// One step of the cursor down: the cursor moves one row down within the
/// viewport; at the bottom row the viewport scrolls by the overflow instead,
/// provided the scrolled viewport still ends within the buffer. A cursor on
/// the row just past the end of the buffer stays there.
pub open spec fn step_down(v: WindowView) -> WindowView {
    if cursor_index(v) >= v.lines.len() {
        v
    } else {
        let m = with_cursor(v, Position { x: v.cursor.x, y: (v.cursor.y + 1) as i32 });
        let delta = m.0;
        let w = m.1;
        if delta > 0 && w.start + delta + w.height <= w.lines.len() {
            screen_down(w, delta)
        } else {
            w
        }
    }
}

/// One step of the cursor up: the cursor moves one row up within the
/// viewport; at the top row the viewport scrolls up instead, provided it does
/// not pass the start of the buffer.
pub open spec fn step_up(v: WindowView) -> WindowView {
    let m = with_cursor(v, Position { x: v.cursor.x, y: (v.cursor.y - 1) as i32 });
    let delta = m.0;
    let w = m.1;
    if delta < 0 && w.start + delta >= 0 {
        screen_up(w, -delta)
    } else {
        w
    }
}

/// `n` steps of the cursor down.
pub open spec fn steps_down(v: WindowView, n: nat) -> WindowView
    decreases n,
{
    if n == 0 {
        v
    } else {
        step_down(steps_down(v, (n - 1) as nat))
    }
}

/// `n` steps of the cursor up.
pub open spec fn steps_up(v: WindowView, n: nat) -> WindowView
    decreases n,
{
    if n == 0 {
        v
    } else {
        step_up(steps_up(v, (n - 1) as nat))
    }
}

/// Steps the cursor from the line under it towards line `target` of the
/// buffer, one step per line of distance.
pub open spec fn seek(v: WindowView, target: int) -> WindowView {
    let current = cursor_index(v);
    if target < current {
        steps_up(v, (current - target) as nat)
    } else {
        steps_down(v, (target - current) as nat)
    }
}

/// A cursor step keeps a window state valid and its buffer, size and
/// cursor visibility.
pub proof fn lemma_step_down_valid(v: WindowView)
    requires
        valid(v),
    ensures
        valid(step_down(v)),
        step_down(v).lines == v.lines,
        step_down(v).height == v.height,
        step_down(v).width == v.width,
        step_down(v).shown == v.shown,
{
}

/// A cursor step keeps a window state valid and its buffer, size and
/// cursor visibility.
pub proof fn lemma_step_up_valid(v: WindowView)
    requires
        valid(v),
    ensures
        valid(step_up(v)),
        step_up(v).lines == v.lines,
        step_up(v).height == v.height,
        step_up(v).width == v.width,
        step_up(v).shown == v.shown,
{
}

/// Line `line` holds `term` in its plain text.
pub open spec fn line_matches(line: Seq<PartView>, term: Seq<char>) -> bool {
    contains_spec(parts_text(line), term)
}

/// The first line at index `i` or after that holds `term`.
pub open spec fn first_match_from(lines: Seq<Seq<PartView>>, term: Seq<char>, i: int) -> Option<int>
    decreases lines.len() - i,
{
    if i < 0 || i >= lines.len() {
        None
    } else if line_matches(lines[i], term) {
        Some(i)
    } else {
        first_match_from(lines, term, i + 1)
    }
}

/// The last line before index `i` that holds `term`.
pub open spec fn last_match_before(lines: Seq<Seq<PartView>>, term: Seq<char>, i: int) -> Option<int>
    decreases i,
{
    if i <= 0 {
        None
    } else if i - 1 < lines.len() && line_matches(lines[i - 1], term) {
        Some(i - 1)
    } else {
        last_match_before(lines, term, i - 1)
    }
}

/// The search forwards: the cursor goes to the first line after it that
/// holds `term`; with no such line, or an empty term, nothing changes.
pub open spec fn search_next(v: WindowView, term: Seq<char>) -> WindowView {
    if term.len() == 0 {
        v
    } else {
        match first_match_from(v.lines, term, cursor_index(v) + 1) {
            Some(j) => seek(v, j),
            None => v,
        }
    }
}

/// The search backwards: the cursor goes to the last line before it that
/// holds `term`; with no such line, or an empty term, nothing changes.
pub open spec fn search_prev(v: WindowView, term: Seq<char>) -> WindowView {
    if term.len() == 0 {
        v
    } else {
        match last_match_before(v.lines, term, cursor_index(v)) {
            Some(j) => seek(v, j),
            None => v,
        }
    }
}

/// `n` steps down keep a window state valid, with its buffer and size.
pub proof fn lemma_steps_down_valid(v: WindowView, n: nat)
    requires
        valid(v),
    ensures
        valid(steps_down(v, n)),
        steps_down(v, n).lines == v.lines,
        steps_down(v, n).height == v.height,
        steps_down(v, n).width == v.width,
        steps_down(v, n).shown == v.shown,
    decreases n,
{
    if n > 0 {
        lemma_steps_down_valid(v, (n - 1) as nat);
        lemma_step_down_valid(steps_down(v, (n - 1) as nat));
    }
}

/// `n` steps up keep a window state valid, with its buffer and size.
pub proof fn lemma_steps_up_valid(v: WindowView, n: nat)
    requires
        valid(v),
    ensures
        valid(steps_up(v, n)),
        steps_up(v, n).lines == v.lines,
        steps_up(v, n).height == v.height,
        steps_up(v, n).width == v.width,
        steps_up(v, n).shown == v.shown,
    decreases n,
{
    if n > 0 {
        lemma_steps_up_valid(v, (n - 1) as nat);
        lemma_step_up_valid(steps_up(v, (n - 1) as nat));
    }
}

/// While the line under the cursor is not the last, a step down moves the
/// cursor to the next line of the buffer.
pub proof fn lemma_step_down_advances(v: WindowView)
    requires
        valid(v),
        cursor_index(v) + 1 < v.lines.len(),
    ensures
        cursor_index(step_down(v)) == cursor_index(v) + 1,
{
}

/// Above the first line of the buffer, a step up moves the cursor to the
/// line before.
pub proof fn lemma_step_up_retreats(v: WindowView)
    requires
        valid(v),
        cursor_index(v) > 0,
    ensures
        cursor_index(step_up(v)) == cursor_index(v) - 1,
{
}

/// `n` steps down move the cursor `n` lines down the buffer, as long as
/// they stay within it.
pub proof fn lemma_steps_down_reach(v: WindowView, n: nat)
    requires
        valid(v),
        cursor_index(v) + n < v.lines.len(),
    ensures
        cursor_index(steps_down(v, n)) == cursor_index(v) + n,
    decreases n,
{
    if n > 0 {
        let m = (n - 1) as nat;
        lemma_steps_down_reach(v, m);
        lemma_steps_down_valid(v, m);
        lemma_step_down_advances(steps_down(v, m));
    }
}

/// `n` steps up move the cursor `n` lines up the buffer, as long as they
/// stay within it.
pub proof fn lemma_steps_up_reach(v: WindowView, n: nat)
    requires
        valid(v),
        n <= cursor_index(v),
    ensures
        cursor_index(steps_up(v, n)) == cursor_index(v) - n,
    decreases n,
{
    if n > 0 {
        let m = (n - 1) as nat;
        lemma_steps_up_reach(v, m);
        lemma_steps_up_valid(v, m);
        lemma_step_up_retreats(steps_up(v, m));
    }
}

/// Seeking a line of the buffer puts the cursor on that line.
pub proof fn lemma_seek_reaches(v: WindowView, target: int)
    requires
        valid(v),
        0 <= target < v.lines.len(),
    ensures
        valid(seek(v, target)),
        seek(v, target).lines == v.lines,
        cursor_index(seek(v, target)) == target,
{
    let current = cursor_index(v);
    if target < current {
        lemma_steps_up_valid(v, (current - target) as nat);
        lemma_steps_up_reach(v, (current - target) as nat);
    } else {
        lemma_steps_down_valid(v, (target - current) as nat);
        lemma_steps_down_reach(v, (target - current) as nat);
    }
}

/// The first match from `i` holds the term, lies in the buffer at or after
/// `i`, and no line between `i` and it holds the term.
pub proof fn lemma_first_match(lines: Seq<Seq<PartView>>, term: Seq<char>, i: int)
    ensures
        match first_match_from(lines, term, i) {
            Some(j) => {
                &&& 0 <= i <= j < lines.len()
                &&& line_matches(lines[j], term)
                &&& forall|k: int| i <= k < j ==> !line_matches(#[trigger] lines[k], term)
            },
            None => i >= 0 ==> forall|k: int| i <= k < lines.len() ==> !line_matches(#[trigger] lines[k], term),
        },
    decreases lines.len() - i,
{
    if i >= 0 && i < lines.len() && !line_matches(lines[i], term) {
        lemma_first_match(lines, term, i + 1);
    }
}

/// The last match before `i` holds the term and lies in the buffer before
/// `i`.
pub proof fn lemma_last_match(lines: Seq<Seq<PartView>>, term: Seq<char>, i: int)
    ensures
        match last_match_before(lines, term, i) {
            Some(k) => 0 <= k < i && k < lines.len() && line_matches(lines[k], term),
            None => true,
        },
    decreases i,
{
    if i > 0 && !(i - 1 < lines.len() && line_matches(lines[i - 1], term)) {
        lemma_last_match(lines, term, i - 1);
    }
}

/// Past the end of the buffer, the last match before an index is the last
/// match of the whole buffer.
pub proof fn lemma_last_match_past_end(lines: Seq<Seq<PartView>>, term: Seq<char>, i: int)
    requires
        i >= lines.len(),
    ensures
        last_match_before(lines, term, i) == last_match_before(lines, term, lines.len() as int),
    decreases i,
{
    if i > lines.len() {
        lemma_last_match_past_end(lines, term, i - 1);
    }
}

/// Lines that do not hold the term do not change the last match before
/// them.
pub proof fn lemma_last_match_skip(lines: Seq<Seq<PartView>>, term: Seq<char>, i: int, j: int)
    requires
        0 <= i <= j <= lines.len(),
        forall|k: int| i <= k < j ==> !line_matches(#[trigger] lines[k], term),
    ensures
        last_match_before(lines, term, j) == last_match_before(lines, term, i),
    decreases j - i,
{
    if i < j {
        assert(!line_matches(lines[j - 1], term));
        lemma_last_match_skip(lines, term, i, j - 1);
    }
}

/// Searching forwards and then backwards from the line reached: where the
/// forward search finds a line, the backward one brings the cursor to the
/// last line at or before the starting one that holds the term, or, when
/// there is none, leaves it where the forward search put it.
pub proof fn lemma_search_symmetry(v: WindowView, term: Seq<char>)
    requires
        valid(v),
        term.len() > 0,
        first_match_from(v.lines, term, cursor_index(v) + 1) is Some,
    ensures
        cursor_index(search_prev(search_next(v, term), term)) == match last_match_before(
            v.lines,
            term,
            cursor_index(v) + 1,
        ) {
            Some(k) => k,
            None => cursor_index(search_next(v, term)),
        },
        line_matches(v.lines[cursor_index(v)], term) ==> cursor_index(
            search_prev(search_next(v, term), term),
        ) == cursor_index(v),
{
    let p = cursor_index(v);
    let j = first_match_from(v.lines, term, p + 1)->0;
    lemma_first_match(v.lines, term, p + 1);
    lemma_seek_reaches(v, j);
    let w = search_next(v, term);
    assert(w == seek(v, j));
    lemma_last_match_skip(v.lines, term, p + 1, j);
    lemma_last_match(v.lines, term, j);
    match last_match_before(v.lines, term, j) {
        Some(k) => {
            lemma_seek_reaches(w, k);
        },
        None => {},
    }
}

/// After the buffer is replaced by an empty list, the line under the cursor
/// reads as the empty text, wherever the cursor stands.
pub proof fn lemma_empty_buffer_cursor_line(v: WindowView)
    requires
        valid(v),
        v.lines == normalized(Seq::<Seq<PartView>>::empty()),
    ensures
        text_at(v.lines, cursor_index(v)) == Seq::<char>::empty(),
{
    let blank = v.lines[0];
    assert(blank.drop_last() =~= Seq::<PartView>::empty());
    assert(parts_text(blank.drop_last()) == Seq::<char>::empty());
    assert(parts_text(blank) =~= Seq::<char>::empty());
}

/// Moving the cursor down `N - 1` times from the top of a buffer of `N`
/// lines, in a viewport of fewer than `N` rows, scrolls the viewport to the
/// last screenful, leaves the cursor on the bottom row, and puts it on the
/// last line of the buffer.
pub proof fn lemma_scroll_to_end(v: WindowView)
    requires
        valid(v),
        v.height < v.lines.len(),
        v.start == 0,
        v.cursor.y == 0,
    ensures
        steps_down(v, (v.lines.len() - 1) as nat).start == v.lines.len() - v.height,
        steps_down(v, (v.lines.len() - 1) as nat).cursor.y == v.height - 1,
        cursor_index(steps_down(v, (v.lines.len() - 1) as nat)) == v.lines.len() - 1,
{
    lemma_scroll_phase_one(v, (v.height - 1) as nat);
    lemma_scroll_phase_two(v, (v.lines.len() - v.height) as nat);
}

/// When every line fits in the width, the row that the frame highlights
/// after those `N - 1` moves shows the last line of the buffer.
pub proof fn lemma_scroll_to_end_highlight(v: WindowView)
    requires
        valid(v),
        v.height < v.lines.len(),
        v.start == 0,
        v.cursor.y == 0,
        forall|i: int| 0 <= i < v.lines.len() ==> parts_len(#[trigger] v.lines[i]) <= v.width,
    ensures
        ({
            let w = steps_down(v, (v.lines.len() - 1) as nat);
            row_at(wrap_spec(visible(w.lines, w.start, w.height), w.width), w.cursor.y as int)
                == v.lines[v.lines.len() - 1]
        }),
{
    let n = v.lines.len() as int;
    let w = steps_down(v, (n - 1) as nat);
    lemma_scroll_to_end(v);
    lemma_steps_down_valid(v, (n - 1) as nat);
    let shown = visible(w.lines, w.start, w.height);
    assert(shown == v.lines.subrange(n - v.height, n));
    assert forall|i: int| 0 <= i < shown.len() implies parts_len(#[trigger] shown[i]) <= w.width by {
        assert(shown[i] == v.lines[n - v.height + i]);
    }
    lemma_wrap_fitting_lines(shown, w.width);
}

/// The first `k` steps down from the top, while the cursor is still inside
/// the viewport, only move the cursor.
proof fn lemma_scroll_phase_one(v: WindowView, k: nat)
    requires
        valid(v),
        v.start == 0,
        v.cursor.y == 0,
        v.height < v.lines.len(),
        k <= v.height - 1,
    ensures
        steps_down(v, k).start == 0,
        steps_down(v, k).cursor.y == k,
    decreases k,
{
    if k > 0 {
        lemma_scroll_phase_one(v, (k - 1) as nat);
        lemma_steps_down_valid(v, (k - 1) as nat);
    }
}

/// After the cursor reaches the bottom row, each further step down scrolls
/// the viewport by one line until it shows the end of the buffer.
proof fn lemma_scroll_phase_two(v: WindowView, k: nat)
    requires
        valid(v),
        v.height < v.lines.len(),
        v.start == 0,
        v.cursor.y == 0,
        k <= v.lines.len() - v.height,
    ensures
        steps_down(v, (v.height - 1 + k) as nat).start == k,
        steps_down(v, (v.height - 1 + k) as nat).cursor.y == v.height - 1,
    decreases k,
{
    if k == 0 {
        lemma_scroll_phase_one(v, (v.height - 1) as nat);
    } else {
        lemma_scroll_phase_two(v, (k - 1) as nat);
        lemma_steps_down_valid(v, (v.height - 1 + k - 1) as nat);
        assert((v.height - 1 + k) as nat - 1 == (v.height - 1 + k - 1) as nat);
    }
}

/// The keys that end text entry: Enter and Escape.
pub open spec fn ends_entry(key: i32) -> bool {
    key == KEY_LF || key == KEY_ESC
}

/// The column the insertion point stands at in a text of `len` characters.
pub open spec fn entry_point(col: int, len: int) -> int {
    if col < len {
        col
    } else {
        len
    }
}

/// The text after `key` is pressed with the cursor at column `col` of
/// `text`, when the key rewrites it: a printable character is inserted at
/// the cursor (or at the end, if the cursor is past it), Backspace deletes
/// the character before the cursor and Delete the one under it.
pub open spec fn edit_text(text: Seq<char>, col: int, key: i32) -> Option<Seq<char>> {
    let at = entry_point(col, text.len() as int);
    if is_printable(key) && at < i32::MAX {
        Some(text.take(at) + seq![printable_char(key)] + text.skip(at))
    } else if key == KEY_DEL && 0 < col <= text.len() {
        Some(text.remove(col - 1))
    } else if key == KEY_DELETE && 0 <= col < text.len() {
        Some(text.remove(col))
    } else {
        None
    }
}

/// The cursor's column after `key` is pressed with it at column `col` of
/// `text`: one past an inserted character, one back after Backspace or
/// arrow left, one on after arrow right while that stays within one past
/// the end of the text; otherwise where it was.
pub open spec fn edit_col(text: Seq<char>, col: int, key: i32) -> int {
    let at = entry_point(col, text.len() as int);
    if is_printable(key) && at < i32::MAX {
        at + 1
    } else if key == KEY_DEL && 0 < col <= text.len() {
        col - 1
    } else if key == KEY_LEFT && col > 0 {
        col - 1
    } else if key == KEY_RIGHT && col + 1 <= text.len() && col < i32::MAX {
        col + 1
    } else {
        col
    }
}

/// The line a rewritten entry becomes: one plain part.
pub open spec fn entry_line(text: Seq<char>) -> Seq<PartView> {
    seq![PartView { text: text, styles: seq![Style::Plain] }]
}

/// The window after `key` is pressed in text entry: the line under the
/// cursor is edited as `edit_text` and `edit_col` say; Enter, Escape, or a
/// cursor past the end of the buffer change nothing.
pub open spec fn edit_window(v: WindowView, key: i32) -> WindowView {
    let p = cursor_index(v);
    if ends_entry(key) || p >= v.lines.len() {
        v
    } else {
        let text = parts_text(v.lines[p]);
        let col = v.cursor.x as int;
        let lines = match edit_text(text, col, key) {
            Some(t) => v.lines.update(p, entry_line(t)),
            None => v.lines,
        };
        WindowView {
            lines: lines,
            cursor: Position { x: edit_col(text, col, key) as i32, y: v.cursor.y },
            ..v
        }
    }
}

/// A viewport over a buffer of lines, with a cursor, that a terminal screen
/// shows. The screen always holds the lines in view.
pub struct Window {
    lines: Vec<Line>,
    screen_start: usize,
    screen: Screen,
}

impl View for Window {
    type V = WindowView;

    closed spec fn view(&self) -> WindowView {
        WindowView {
            lines: line_views(self.lines@),
            start: self.screen_start as int,
            cursor: self.screen.cursor_view(),
            height: self.screen.height_view(),
            width: self.screen.width_view(),
            shown: self.screen.shown_view(),
        }
    }
}

impl Window {
    /// The screen holds exactly the lines in view.
    pub closed spec fn synced(&self) -> bool {
        &&& self.screen.wf()
        &&& self.screen.lines_view() == visible(self@.lines, self@.start, self@.height)
    }

    /// The window is in a state that its operations keep.
    pub open spec fn wf(&self) -> bool {
        valid(self@) && self.synced()
    }

    /// Hands the lines in view to the screen.
    fn sync(&mut self)
        requires
            valid(old(self)@),
            old(self).screen.wf(),
        ensures
            final(self).wf(),
            final(self)@ == old(self)@,
    {
        let len = self.lines.len();
        let start = self.screen_start;
        let height = self.screen.height() as usize;
        let end = if height < len - start {
            start + height
        } else {
            len
        };
        let mut shown: Vec<Line> = Vec::new();
        let mut i: usize = start;
        while i < end
            invariant
                start <= i <= end <= len,
                len == self.lines@.len(),
                shown@.len() == i - start,
                forall|j: int| 0 <= j < i - start ==> #[trigger] shown@[j]@ == self.lines@[start + j]@,
            decreases end - i,
        {
            shown.push(self.lines[i].duplicate());
            i = i + 1;
        }
        assert(line_views(shown@) =~= line_views(self.lines@).subrange(start as int, end as int));
        self.screen.set_data(shown);
    }

    /// A window of the given size over one blank line, scrolled to the top,
    /// with the cursor at the origin and shown.
    pub fn new(size: ScreenSize) -> (r: Window)
        requires
            size.lines >= 1,
            size.cols >= 1,
        ensures
            r.wf(),
            r@.lines == normalized(Seq::empty()),
            r@.start == 0,
            r@.cursor == (Position { x: 0, y: 0 }),
            r@.height == size.lines,
            r@.width == size.cols,
            r@.shown,
    {
        let mut lines: Vec<Line> = Vec::new();
        lines.push(Line::empty());
        let mut w = Window { lines, screen_start: 0, screen: Screen::new(size) };
        assert(w@.lines =~= normalized(Seq::empty()));
        w.sync();
        w
    }

    /// Replaces the whole buffer; an empty list becomes one blank line. When
    /// the buffer no longer reaches the first visible line, its last line
    /// becomes the first visible one; when it no longer reaches the cursor,
    /// the cursor comes up to the row just past its end.
    pub fn set_lines(&mut self, lines: Vec<Line>)
        requires
            old(self).wf(),
        ensures
            final(self).wf(),
            final(self)@.lines == normalized(line_views(lines@)),
            final(self)@.start == if old(self)@.start < normalized(line_views(lines@)).len() {
                old(self)@.start
            } else {
                normalized(line_views(lines@)).len() - 1
            },
            final(self)@.cursor == (Position {
                x: old(self)@.cursor.x,
                y: row_within(old(self)@.cursor.y, final(self)@.lines.len() - final(self)@.start),
            }),
            final(self)@.height == old(self)@.height,
            final(self)@.width == old(self)@.width,
            final(self)@.shown == old(self)@.shown,
    {
        if lines.len() == 0 {
            let mut blank: Vec<Line> = Vec::new();
            blank.push(Line::empty());
            self.lines = blank;
            assert(line_views(self.lines@) =~= normalized(line_views(lines@)));
        } else {
            self.lines = lines;
        }
        if self.screen_start >= self.lines.len() {
            self.screen_start = self.lines.len() - 1;
        }
        self.keep_cursor_in_buffer();
        self.sync();
    }

    /// Brings the cursor's row up to the row just past the end of the buffer
    /// when it lies below it.
    fn keep_cursor_in_buffer(&mut self)
        requires
            old(self).screen.wf(),
            old(self).screen_start <= old(self).lines@.len(),
        ensures
            final(self).screen.wf(),
            final(self)@ == (WindowView {
                cursor: Position {
                    x: old(self)@.cursor.x,
                    y: row_within(old(self)@.cursor.y, old(self)@.lines.len() - old(self)@.start),
                },
                ..old(self)@
            }),
    {
        let limit = self.lines.len() - self.screen_start;
        let row = self.screen.cursor_position().y;
        if row as usize > limit {
            self.screen.set_row(limit as i32);
        }
    }

    /// A copy of the whole buffer.
    pub fn lines(&self) -> (r: Vec<Line>)
        ensures
            line_views(r@) == self@.lines,
    {
        let r = copy_lines(&self.lines);
        assert(line_views(r@) =~= self@.lines);
        r
    }

    /// The plain text of every line of the buffer, in order.
    pub fn data(&self) -> (r: Vec<String>)
        ensures
            r@.len() == self@.lines.len(),
            forall|i: int| 0 <= i < r@.len() ==> #[trigger] r@[i]@ == parts_text(self@.lines[i]),
    {
        let mut r: Vec<String> = Vec::new();
        let mut i: usize = 0;
        while i < self.lines.len()
            invariant
                i <= self.lines.len(),
                r@.len() == i,
                forall|j: int| 0 <= j < i ==> #[trigger] r@[j]@ == parts_text(self@.lines[j]),
            decreases self.lines.len() - i,
        {
            r.push(self.lines[i].value());
            i = i + 1;
        }
        r
    }

    /// The rows the screen draws: the lines in view wrapped at the width,
    /// cut or padded to the height, the cursor's row highlighted over the
    /// full width while the cursor is shown.
    pub fn queue_update(&self) -> (r: Vec<Row>)
        requires
            self.wf(),
        ensures
            r@.len() == self@.height,
            forall|i: int|
                0 <= i < self@.height ==> frame_row_ok(
                    #[trigger] r@[i],
                    visible(self@.lines, self@.start, self@.height),
                    i,
                    self@.width as nat,
                    self@.cursor.y as int,
                    self@.shown,
                ),
    {
        self.screen.queue_update()
    }

    /// Gives the viewport a new size; the cursor is clamped into it.
    pub fn resize(&mut self, new_size: ScreenSize)
        requires
            old(self).wf(),
            new_size.lines >= 1,
            new_size.cols >= 1,
        ensures
            final(self).wf(),
            final(self)@ == (WindowView {
                cursor: clamp_move(old(self)@.cursor, new_size.lines as int, new_size.cols as int).1,
                height: new_size.lines as int,
                width: new_size.cols as int,
                ..old(self)@
            }),
    {
        self.screen.resize(new_size);
        self.sync();
    }

    /// Shows or hides the cursor and its highlighted row.
    pub fn show_cursor(&mut self, show: bool)
        requires
            old(self).wf(),
        ensures
            final(self).wf(),
            final(self)@ == (WindowView { shown: show, ..old(self)@ }),
    {
        self.screen.show_cursor(show);
    }

    /// The plain text of the line under the cursor, or the empty string
    /// when the cursor's row is past the end of the buffer.
    pub fn get_cursor_line(&self) -> (r: String)
        requires
            self.wf(),
        ensures
            r@ == text_at(self@.lines, cursor_index(self@)),
    {
        let r = self.screen.get_cursor_line();
        let ghost v = self@;
        let ghost end = if v.start + v.height < v.lines.len() {
            v.start + v.height
        } else {
            v.lines.len() as int
        };
        proof {
            if v.start < v.lines.len() {
                assert(v.lines.subrange(v.start, end).len() >= 1);
            } else {
                let blank = normalized(Seq::<Seq<PartView>>::empty())[0];
                assert(blank.drop_last() =~= Seq::<PartView>::empty());
                assert(parts_text(blank.drop_last()) == Seq::<char>::empty());
                assert(parts_text(blank) =~= Seq::<char>::empty());
                assert(v.lines.subrange(v.start, end) =~= Seq::<Seq<PartView>>::empty());
            }
        }
        r
    }

    /// The number of rows of the viewport.
    pub fn height(&self) -> (r: i32)
        requires
            self.wf(),
        ensures
            r == self@.height,
    {
        self.screen.height()
    }

    /// The number of columns of the viewport.
    pub fn width(&self) -> (r: i32)
        requires
            self.wf(),
        ensures
            r == self@.width,
    {
        self.screen.width()
    }

    /// The cursor's position in the viewport.
    pub fn cursor_position(&self) -> (r: Position)
        requires
            self.wf(),
        ensures
            r == self@.cursor,
    {
        self.screen.cursor_position()
    }

    /// The index of the first visible line.
    pub fn screen_start(&self) -> (r: usize)
        ensures
            r == self@.start,
    {
        self.screen_start
    }

    /// Scrolls down by `delta` lines, unless the first visible line would
    /// go beyond the row just past the end of the buffer; the cursor's row
    /// comes up as far as needed to stay on a line or just past the end.
    pub fn move_screen_down(&mut self, delta: usize)
        requires
            old(self).wf(),
        ensures
            final(self).wf(),
            final(self)@ == screen_down(old(self)@, delta as int),
    {
        if delta > self.lines.len() - self.screen_start {
            return;
        }
        self.screen_start = self.screen_start + delta;
        self.keep_cursor_in_buffer();
        self.sync();
    }

    /// Scrolls up by `delta` lines, unless the first visible line would pass
    /// the start of the buffer.
    pub fn move_screen_up(&mut self, delta: usize)
        requires
            old(self).wf(),
        ensures
            final(self).wf(),
            final(self)@ == screen_up(old(self)@, delta as int),
    {
        if delta > self.screen_start {
            return;
        }
        self.screen_start = self.screen_start - delta;
        self.sync();
    }

    /// Moves the cursor one row down, scrolling at the bottom of the
    /// viewport while the buffer goes on.
    pub fn move_cursor_down(&mut self)
        requires
            old(self).wf(),
        ensures
            final(self).wf(),
            final(self)@ == step_down(old(self)@),
    {
        let cursor = self.screen.cursor_position();
        if cursor.y as usize >= self.lines.len() - self.screen_start {
            return;
        }
        let (delta, _) = self.screen.move_cursor(Position { x: cursor.x, y: cursor.y + 1 });
        proof {
            assert(self.synced());
        }
        if delta > 0 {
            let d = delta as usize;
            let len = self.lines.len();
            let height = self.screen.height() as usize;
            if d <= len - self.screen_start && height <= len - self.screen_start - d {
                self.move_screen_down(d);
            }
        }
    }

    /// Moves the cursor one row up, scrolling at the top of the viewport
    /// while lines lie above it.
    pub fn move_cursor_up(&mut self)
        requires
            old(self).wf(),
        ensures
            final(self).wf(),
            final(self)@ == step_up(old(self)@),
    {
        let cursor = self.screen.cursor_position();
        let (delta, _) = self.screen.move_cursor(Position { x: cursor.x, y: cursor.y - 1 });
        proof {
            assert(self.synced());
        }
        if delta < 0 {
            let d = (0 - delta) as usize;
            if d <= self.screen_start {
                self.move_screen_up(d);
            }
        }
    }
    /// Steps the cursor, one line at a time, from the line under it to line
    /// `target` of the buffer, scrolling as the steps require.
    pub fn set_cursor(&mut self, target: usize)
        requires
            old(self).wf(),
        ensures
            final(self).wf(),
            final(self)@ == seek(old(self)@, target as int),
            final(self)@.lines == old(self)@.lines,
            final(self)@.height == old(self)@.height,
            final(self)@.width == old(self)@.width,
            final(self)@.shown == old(self)@.shown,
    {
        let ghost v0 = self@;
        let current: u128 = self.screen_start as u128 + self.screen.cursor_position().y as u128;
        let t: u128 = target as u128;
        if t < current {
            let diff: u128 = current - t;
            let mut k: u128 = 0;
            while k < diff
                invariant
                    k <= diff,
                    self.wf(),
                    self@ == steps_up(v0, k as nat),
                decreases diff - k,
            {
                self.move_cursor_up();
                k = k + 1;
            }
            proof {
                lemma_steps_up_valid(v0, diff as nat);
            }
        } else {
            let diff: u128 = t - current;
            let mut k: u128 = 0;
            while k < diff
                invariant
                    k <= diff,
                    self.wf(),
                    self@ == steps_down(v0, k as nat),
                decreases diff - k,
            {
                self.move_cursor_down();
                k = k + 1;
            }
            proof {
                lemma_steps_down_valid(v0, diff as nat);
            }
        }
    }

    /// Moves the cursor to the first line after it that holds `term`; with
    /// no such line, or an empty term, nothing changes.
    pub fn move_next(&mut self, term: &str)
        requires
            old(self).wf(),
        ensures
            final(self).wf(),
            final(self)@ == search_next(old(self)@, term@),
    {
        if term.unicode_len() == 0 {
            return;
        }
        let ghost v = self@;
        let len = self.lines.len();
        let row = self.screen.cursor_position().y as usize;
        if row >= len - self.screen_start {
            return;
        }
        let start = self.screen_start + row + 1;
        let mut i: usize = start;
        while i < len
            invariant
                start <= i,
                len == self.lines@.len(),
                self@ == v,
                v == old(self)@,
                self.wf(),
                term@.len() > 0,
                start == cursor_index(v) + 1,
                first_match_from(v.lines, term@, start as int) == first_match_from(
                    v.lines,
                    term@,
                    i as int,
                ),
            decreases len - i,
        {
            assert(v.lines[i as int] == self.lines@[i as int]@);
            let text = self.lines[i].value();
            if contains(text.as_str(), term) {
                self.set_cursor(i);
                return;
            }
            i = i + 1;
        }
    }

    /// Moves the cursor to the last line before it that holds `term`; with
    /// no such line, or an empty term, nothing changes.
    pub fn move_prev(&mut self, term: &str)
        requires
            old(self).wf(),
        ensures
            final(self).wf(),
            final(self)@ == search_prev(old(self)@, term@),
    {
        if term.unicode_len() == 0 {
            return;
        }
        let ghost v = self@;
        let len = self.lines.len();
        let row = self.screen.cursor_position().y as usize;
        let mut i: usize = if row >= len - self.screen_start {
            proof {
                lemma_last_match_past_end(v.lines, term@, cursor_index(v));
            }
            len
        } else {
            self.screen_start + row
        };
        while i > 0
            invariant
                i <= len,
                len == self.lines@.len(),
                self@ == v,
                v == old(self)@,
                self.wf(),
                term@.len() > 0,
                last_match_before(v.lines, term@, cursor_index(v)) == last_match_before(
                    v.lines,
                    term@,
                    i as int,
                ),
            decreases i,
        {
            assert(v.lines[i - 1] == self.lines@[i - 1]@);
            let text = self.lines[i - 1].value();
            if contains(text.as_str(), term) {
                self.set_cursor(i - 1);
                return;
            }
            i = i - 1;
        }
    }
    /// Text entry: handles one key on the line under the cursor as
    /// `edit_window` says. Returns whether entry goes on, which it does for
    /// every key but Enter and Escape.
    pub fn edit(&mut self, key: i32) -> (r: bool)
        requires
            old(self).wf(),
        ensures
            final(self).wf(),
            final(self)@ == edit_window(old(self)@, key),
            r == !ends_entry(key),
    {
        if key == KEY_LF || key == KEY_ESC {
            return false;
        }
        let ghost v = self@;
        let len = self.lines.len();
        let row = self.screen.cursor_position().y as usize;
        if row >= len - self.screen_start {
            return true;
        }
        let p = self.screen_start + row;
        let col = self.screen.cursor_position().x;
        let text = self.lines[p].value();
        let n = text.as_str().unicode_len();
        let at: usize = if (col as usize) < n {
            col as usize
        } else {
            n
        };
        let mut new_col: i32 = col;
        let mut rewritten: Option<String> = None;
        if KEY_SPACE <= key && key <= KEY_TILDE && at < i32::MAX as usize {
            let c = (key as u8) as char;
            rewritten = Some(insert_char(text.as_str(), at, c));
            new_col = (at + 1) as i32;
        } else if key == KEY_DEL && col > 0 && (col as usize) <= n {
            rewritten = Some(remove_char(text.as_str(), (col - 1) as usize));
            new_col = col - 1;
        } else if key == KEY_DELETE && (col as usize) < n {
            rewritten = Some(remove_char(text.as_str(), col as usize));
        } else if key == KEY_LEFT && col > 0 {
            new_col = col - 1;
        } else if key == KEY_RIGHT && (col as usize) + 1 <= n && col < i32::MAX {
            new_col = col + 1;
        }
        assert(v.lines[p as int] == self.lines@[p as int]@);
        match rewritten {
            Some(t) => {
                let ghost old_lines = self.lines@;
                let line = Line::plain(t.as_str());
                self.lines.set(p, line);
                assert(line_views(self.lines@) =~= v.lines.update(p as int, entry_line(t@)));
            },
            None => {},
        }
        self.screen.set_column(new_col);
        self.sync();
        true
    }
}

} // verus!
