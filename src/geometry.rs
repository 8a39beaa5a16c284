use vstd::prelude::*;

verus! {

/// Viewport-relative coordinates: `x` is the column, `y` the row.
#[derive(Clone, Copy, Debug, Default, PartialEq, Eq, Structural)]
pub struct Position {
    pub x: i32,
    pub y: i32,
}

impl Position {
    /// Moves the position `by` columns to the left.
    pub fn move_left(&mut self, by: i32)
        requires
            i32::MIN <= old(self).x - by <= i32::MAX,
        ensures
            *final(self) == (Position { x: (old(self).x - by) as i32, y: old(self).y }),
    {
        self.x = self.x - by;
    }

    /// Moves the position `by` columns to the right.
    pub fn move_right(&mut self, by: i32)
        requires
            i32::MIN <= old(self).x + by <= i32::MAX,
        ensures
            *final(self) == (Position { x: (old(self).x + by) as i32, y: old(self).y }),
    {
        self.x = self.x + by;
    }

    /// Adds `by` to the row.
    pub fn move_up(&mut self, by: i32)
        requires
            i32::MIN <= old(self).y + by <= i32::MAX,
        ensures
            *final(self) == (Position { x: old(self).x, y: (old(self).y + by) as i32 }),
    {
        self.y = self.y + by;
    }

    /// Subtracts `by` from the row.
    pub fn move_down(&mut self, by: i32)
        requires
            i32::MIN <= old(self).y - by <= i32::MAX,
        ensures
            *final(self) == (Position { x: old(self).x, y: (old(self).y - by) as i32 }),
    {
        self.y = self.y - by;
    }

    /// The position `by` columns to the left.
    pub fn left(&self, by: i32) -> (r: Position)
        requires
            i32::MIN <= self.x - by <= i32::MAX,
        ensures
            r == (Position { x: (self.x - by) as i32, y: self.y }),
    {
        Position { x: self.x - by, y: self.y }
    }

    /// The position `by` columns to the right.
    pub fn right(&self, by: i32) -> (r: Position)
        requires
            i32::MIN <= self.x + by <= i32::MAX,
        ensures
            r == (Position { x: (self.x + by) as i32, y: self.y }),
    {
        Position { x: self.x + by, y: self.y }
    }

    /// The position with `by` added to the row.
    pub fn up(&self, by: i32) -> (r: Position)
        requires
            i32::MIN <= self.y + by <= i32::MAX,
        ensures
            r == (Position { x: self.x, y: (self.y + by) as i32 }),
    {
        Position { x: self.x, y: self.y + by }
    }

    /// The position with `by` subtracted from the row.
    pub fn down(&self, by: i32) -> (r: Position)
        requires
            i32::MIN <= self.y - by <= i32::MAX,
        ensures
            r == (Position { x: self.x, y: (self.y - by) as i32 }),
    {
        Position { x: self.x, y: self.y - by }
    }
}

/// Dimensions of a terminal region, in rows (`lines`) and columns (`cols`).
/// A dimension of zero asks for all that is available.
#[derive(Clone, Copy, Debug, PartialEq, Eq, Structural)]
pub struct ScreenSize {
    pub lines: i32,
    pub cols: i32,
}

/// One requested dimension resolved against what is available: a request of
/// zero or less takes all of it.
pub open spec fn resolve_dim(requested: i32, available: i32) -> i32 {
    if requested <= 0 {
        available
    } else {
        requested
    }
}

impl ScreenSize {
    /// The sentinel that requests the whole available area.
    pub fn max() -> (r: ScreenSize)
        ensures
            r == (ScreenSize { lines: 0, cols: 0 }),
    {
        ScreenSize { lines: 0, cols: 0 }
    }

    /// Whether this is the request for the whole available area.
    pub fn is_max(&self) -> (r: bool)
        ensures
            r == (self.lines == 0 && self.cols == 0),
    {
        self.lines == 0 && self.cols == 0
    }

    /// The size actually granted for this request, given the area available:
    /// each dimension of zero takes what is available, any other stays.
    pub fn resolve(&self, available: ScreenSize) -> (r: ScreenSize)
        ensures
            r.lines == resolve_dim(self.lines, available.lines),
            r.cols == resolve_dim(self.cols, available.cols),
    {
        ScreenSize {
            lines: if self.lines <= 0 { available.lines } else { self.lines },
            cols: if self.cols <= 0 { available.cols } else { self.cols },
        }
    }
}

} // verus!
