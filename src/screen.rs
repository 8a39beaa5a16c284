use vstd::prelude::*;
use crate::geometry::{Position, ScreenSize};
use crate::layout::{Row, frame, frame_row_ok, line_views};
use crate::num::{clamp, clamp_spec};
use crate::style::{Line, PartView, Style, parts_text};

verus! {

/// The empty line that stands in for an empty buffer.
pub open spec fn blank_line() -> Seq<PartView> {
    seq![PartView { text: Seq::empty(), styles: seq![Style::Plain] }]
}

/// A buffer as it is assigned to a screen: an empty one becomes one blank line.
pub open spec fn normalized(lines: Seq<Seq<PartView>>) -> Seq<Seq<PartView>> {
    if lines.len() == 0 {
        seq![blank_line()]
    } else {
        lines
    }
}

/// The text of the line at `row` of `lines`, or the empty text when no line
/// backs that row.
pub open spec fn text_at(lines: Seq<Seq<PartView>>, row: int) -> Seq<char> {
    if 0 <= row < lines.len() {
        parts_text(lines[row])
    } else {
        Seq::empty()
    }
}

/// What `move_cursor` does with a requested position on a screen of the
/// given size: the position clamped into the screen, and how far the
/// requested row lay beyond the clamped one.
pub open spec fn clamp_move(target: Position, height: int, width: int) -> (int, Position) {
    let y = clamp_spec(target.y as int, 0, height - 1);
    let x = clamp_spec(target.x as int, 0, width - 1);
    (target.y - y, Position { x: x as i32, y: y as i32 })
}

/// The state a terminal backend keeps for one screen region, apart from the
/// terminal itself: the lines assigned to it, its size, the cursor and
/// whether the cursor is shown. The backend draws what `queue_update`
/// returns.
pub struct Screen {
    lines: Vec<Line>,
    height: i32,
    width: i32,
    cursor_position: Position,
    cursor_shown: bool,
}

impl Screen {
    /// The lines assigned to the screen.
    pub closed spec fn lines_view(&self) -> Seq<Seq<PartView>> {
        line_views(self.lines@)
    }

    pub closed spec fn height_view(&self) -> int {
        self.height as int
    }

    pub closed spec fn width_view(&self) -> int {
        self.width as int
    }

    pub closed spec fn cursor_view(&self) -> Position {
        self.cursor_position
    }

    pub closed spec fn shown_view(&self) -> bool {
        self.cursor_shown
    }

    /// The screen has at least one row, one column and one assigned line, and
    /// the cursor's row lies on the screen.
    pub open spec fn wf(&self) -> bool {
        &&& self.height_view() >= 1
        &&& self.width_view() >= 1
        &&& self.lines_view().len() >= 1
        &&& 0 <= self.cursor_view().y < self.height_view()
    }

    /// A screen of the given size holding one blank line, the cursor at the
    /// origin and shown.
    pub fn new(size: ScreenSize) -> (r: Screen)
        requires
            size.lines >= 1,
            size.cols >= 1,
        ensures
            r.wf(),
            r.lines_view() == seq![blank_line()],
            r.height_view() == size.lines,
            r.width_view() == size.cols,
            r.cursor_view() == (Position { x: 0, y: 0 }),
            r.shown_view(),
    {
        let mut lines: Vec<Line> = Vec::new();
        lines.push(Line::empty());
        let r = Screen {
            lines,
            height: size.lines,
            width: size.cols,
            cursor_position: Position { x: 0, y: 0 },
            cursor_shown: true,
        };
        assert(r.lines_view() =~= seq![blank_line()]);
        r
    }

    /// Assigns the lines to draw; an empty list becomes one blank line.
    pub fn set_data(&mut self, lines: Vec<Line>)
        requires
            old(self).wf(),
        ensures
            final(self).wf(),
            final(self).lines_view() == normalized(line_views(lines@)),
            final(self).height_view() == old(self).height_view(),
            final(self).width_view() == old(self).width_view(),
            final(self).cursor_view() == old(self).cursor_view(),
            final(self).shown_view() == old(self).shown_view(),
    {
        if lines.len() == 0 {
            let mut blank: Vec<Line> = Vec::new();
            blank.push(Line::empty());
            self.lines = blank;
            assert(self.lines_view() =~= seq![blank_line()]);
        } else {
            self.lines = lines;
        }
    }

    /// The number of rows.
    pub fn height(&self) -> (r: i32)
        ensures
            r == self.height_view(),
    {
        self.height
    }

    /// The number of columns.
    pub fn width(&self) -> (r: i32)
        ensures
            r == self.width_view(),
    {
        self.width
    }

    /// Gives the screen a new size; the cursor is clamped into it.
    pub fn resize(&mut self, new_size: ScreenSize)
        requires
            old(self).wf(),
            new_size.lines >= 1,
            new_size.cols >= 1,
        ensures
            final(self).wf(),
            final(self).lines_view() == old(self).lines_view(),
            final(self).height_view() == new_size.lines,
            final(self).width_view() == new_size.cols,
            final(self).cursor_view() == clamp_move(
                old(self).cursor_view(),
                new_size.lines as int,
                new_size.cols as int,
            ).1,
            final(self).shown_view() == old(self).shown_view(),
    {
        self.height = new_size.lines;
        self.width = new_size.cols;
        let target = self.cursor_position;
        let _ = self.move_cursor(target);
    }

    /// The cursor's position.
    pub fn cursor_position(&self) -> (r: Position)
        ensures
            r == self.cursor_view(),
    {
        self.cursor_position
    }

    /// Puts the cursor on row `row`, in the same column.
    pub fn set_row(&mut self, row: i32)
        requires
            old(self).wf(),
            0 <= row < old(self).height_view(),
        ensures
            final(self).wf(),
            final(self).cursor_view() == (Position { x: old(self).cursor_view().x, y: row }),
            final(self).lines_view() == old(self).lines_view(),
            final(self).height_view() == old(self).height_view(),
            final(self).width_view() == old(self).width_view(),
            final(self).shown_view() == old(self).shown_view(),
    {
        self.cursor_position = Position { x: self.cursor_position.x, y: row };
    }

    /// Puts the cursor in column `col` of its row; a text being entered may
    /// run past the last column.
    pub fn set_column(&mut self, col: i32)
        requires
            old(self).wf(),
            col >= 0,
        ensures
            final(self).wf(),
            final(self).cursor_view() == (Position { x: col, y: old(self).cursor_view().y }),
            final(self).lines_view() == old(self).lines_view(),
            final(self).height_view() == old(self).height_view(),
            final(self).width_view() == old(self).width_view(),
            final(self).shown_view() == old(self).shown_view(),
    {
        self.cursor_position = Position { x: col, y: self.cursor_position.y };
    }

    /// Shows or hides the cursor; doing it twice is the same as once.
    pub fn show_cursor(&mut self, show: bool)
        requires
            old(self).wf(),
        ensures
            final(self).wf(),
            final(self).shown_view() == show,
            final(self).lines_view() == old(self).lines_view(),
            final(self).height_view() == old(self).height_view(),
            final(self).width_view() == old(self).width_view(),
            final(self).cursor_view() == old(self).cursor_view(),
    {
        self.cursor_shown = show;
    }

    /// The plain text of the line at the cursor's row, or the empty string
    /// when no line backs that row.
    pub fn get_cursor_line(&self) -> (r: String)
        requires
            self.wf(),
        ensures
            r@ == text_at(self.lines_view(), self.cursor_view().y as int),
    {
        let index = self.cursor_position.y as usize;
        if index >= self.lines.len() {
            let r = String::new();
            assert(r@ =~= Seq::<char>::empty());
            return r;
        }
        self.lines[index].value()
    }

    /// Moves the cursor to `target` clamped into the screen. Returns how far
    /// the requested row lay beyond the screen (negative above it, positive
    /// below it, zero inside) and the position reached.
    pub fn move_cursor(&mut self, target: Position) -> (r: (i32, Position))
        requires
            old(self).height_view() >= 1,
            old(self).width_view() >= 1,
        ensures
            r.0 as int == clamp_move(target, old(self).height_view(), old(self).width_view()).0,
            r.1 == clamp_move(target, old(self).height_view(), old(self).width_view()).1,
            final(self).cursor_view() == r.1,
            0 <= r.1.y < old(self).height_view(),
            0 <= r.1.x < old(self).width_view(),
            final(self).lines_view() == old(self).lines_view(),
            final(self).height_view() == old(self).height_view(),
            final(self).width_view() == old(self).width_view(),
            final(self).shown_view() == old(self).shown_view(),
    {
        let y = clamp(target.y, 0, self.height - 1);
        let x = clamp(target.x, 0, self.width - 1);
        let delta = target.y - y;
        self.cursor_position = Position { x, y };
        (delta, self.cursor_position)
    }

    /// Places the cursor at `target` clamped into the screen.
    pub fn set_cursor(&mut self, target: Position)
        requires
            old(self).wf(),
        ensures
            final(self).wf(),
            final(self).cursor_view() == clamp_move(
                target,
                old(self).height_view(),
                old(self).width_view(),
            ).1,
            final(self).lines_view() == old(self).lines_view(),
            final(self).height_view() == old(self).height_view(),
            final(self).width_view() == old(self).width_view(),
            final(self).shown_view() == old(self).shown_view(),
    {
        let _ = self.move_cursor(target);
    }

    /// The rows to draw: the assigned lines wrapped at the screen's width,
    /// cut or padded to its height, with the cursor's row highlighted over
    /// the full width while the cursor is shown.
    pub fn queue_update(&self) -> (r: Vec<Row>)
        requires
            self.wf(),
        ensures
            r@.len() == self.height_view(),
            forall|i: int|
                0 <= i < self.height_view() ==> frame_row_ok(
                    #[trigger] r@[i],
                    self.lines_view(),
                    i,
                    self.width_view() as nat,
                    self.cursor_view().y as int,
                    self.shown_view(),
                ),
    {
        frame(&self.lines, self.height as usize, self.width as usize, self.cursor_position.y, self.cursor_shown)
    }
}

} // verus!
