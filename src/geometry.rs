use vstd::prelude::*;

verus! {

/// Largest coordinate or size a point or rectangle is clamped to.
pub const MAX_COORD: i32 = 1073741823;

/// Smallest coordinate a point or rectangle is clamped to.
pub const MIN_COORD: i32 = -1073741824;

/// A coordinate brought into `[MIN_COORD, MAX_COORD]`.
pub open spec fn clamp_position(v: int) -> int {
    if v > MAX_COORD {
        MAX_COORD as int
    } else if v < MIN_COORD {
        MIN_COORD as int
    } else {
        v
    }
}

/// A size brought into `[1, MAX_COORD]`: rectangles are never empty.
pub open spec fn clamp_size(v: int) -> int {
    if v == 0 {
        1
    } else if v > MAX_COORD {
        MAX_COORD as int
    } else {
        v
    }
}

fn clamp_position_exec(v: i32) -> (r: i32)
    ensures
        r == clamp_position(v as int),
{
    if v > MAX_COORD {
        MAX_COORD
    } else if v < MIN_COORD {
        MIN_COORD
    } else {
        v
    }
}

fn clamp_size_exec(v: u32) -> (r: u32)
    ensures
        r == clamp_size(v as int),
{
    if v == 0 {
        1
    } else if v > MAX_COORD as u32 {
        MAX_COORD as u32
    } else {
        v
    }
}

/// A point with integer coordinates.
#[derive(Clone, Copy, Debug, PartialEq, Eq, Structural)]
pub struct Point {
    pub x: i32,
    pub y: i32,
}

impl Point {
    /// A point at `(x, y)`, each coordinate clamped into the coordinate range.
    pub fn new(x: i32, y: i32) -> (r: Point)
        ensures
            r.x == clamp_position(x as int),
            r.y == clamp_position(y as int),
    {
        Point { x: clamp_position_exec(x), y: clamp_position_exec(y) }
    }

    /// The point shifted by `(dx, dy)`; each sum is clamped into the
    /// coordinate range, also where it would leave `i32`.
    pub fn offset(self, dx: i32, dy: i32) -> (r: Point)
        ensures
            r.x == clamp_position(self.x + dx),
            r.y == clamp_position(self.y + dy),
    {
        let x: i32 = match self.x.checked_add(dx) {
            Some(v) => v,
            None => if dx < 0 {
                MIN_COORD
            } else {
                MAX_COORD
            },
        };
        let y: i32 = match self.y.checked_add(dy) {
            Some(v) => v,
            None => if dy < 0 {
                MIN_COORD
            } else {
                MAX_COORD
            },
        };
        Point::new(x, y)
    }
}

/// An axis-aligned rectangle: top-left corner and size.
#[derive(Clone, Copy, Debug, PartialEq, Eq, Structural)]
pub struct Rect {
    pub x: i32,
    pub y: i32,
    pub width: u32,
    pub height: u32,
}

impl Rect {
    /// The corner lies in the coordinate range and the size in `[1, MAX_COORD]`.
    pub open spec fn wf(&self) -> bool {
        &&& MIN_COORD <= self.x <= MAX_COORD
        &&& MIN_COORD <= self.y <= MAX_COORD
        &&& 1 <= self.width <= MAX_COORD
        &&& 1 <= self.height <= MAX_COORD
    }

    /// A rectangle with its corner and size clamped.
    pub fn new(x: i32, y: i32, width: u32, height: u32) -> (r: Rect)
        ensures
            r.wf(),
            r.x == clamp_position(x as int),
            r.y == clamp_position(y as int),
            r.width == clamp_size(width as int),
            r.height == clamp_size(height as int),
    {
        Rect {
            x: clamp_position_exec(x),
            y: clamp_position_exec(y),
            width: clamp_size_exec(width),
            height: clamp_size_exec(height),
        }
    }

    /// A rectangle of the given (clamped) size centred on `center`; where the
    /// size is odd the corner lies half a unit towards the origin's side.
    pub fn from_center(center: Point, width: u32, height: u32) -> (r: Rect)
        ensures
            r.wf(),
            r.width == clamp_size(width as int),
            r.height == clamp_size(height as int),
            r.x == clamp_position(clamp_position(center.x as int) - r.width / 2),
            r.y == clamp_position(clamp_position(center.y as int) - r.height / 2),
    {
        let w: u32 = clamp_size_exec(width);
        let h: u32 = clamp_size_exec(height);
        let cx: i32 = clamp_position_exec(center.x);
        let cy: i32 = clamp_position_exec(center.y);
        Rect {
            x: clamp_position_exec(cx - (w / 2) as i32),
            y: clamp_position_exec(cy - (h / 2) as i32),
            width: w,
            height: h,
        }
    }
}

} // verus!
