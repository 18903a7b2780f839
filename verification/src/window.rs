//! The viewport and the twelve-by-twelve grid laid over it.

use vstd::prelude::*;

verus! {

/// Number of grid slices along each axis of the viewport.
pub const GRID: i32 = 12;

/// A position on the viewport, in whole pixels.
#[derive(Clone, Copy, Debug, PartialEq, Eq, Structural)]
pub struct Point {
    pub x: i32,
    pub y: i32,
}

/// Quotient of `a` by a positive `d`, rounded toward zero.
pub open spec fn quot(a: int, d: int) -> int
    recommends
        d > 0,
{
    if a >= 0 {
        a / d
    } else {
        -((-a) / d)
    }
}

/// Width or height of one grid slice of a viewport that is `extent` pixels
/// wide or high.
pub open spec fn slice_of(extent: int) -> int {
    quot(extent, GRID as int)
}

/// Number of steps into which the court's height is cut for its dividing
/// line.
pub const CENTER_STEPS: i32 = 24;

/// Number of dashes in the line that divides the court.
pub const CENTER_MARKS: usize = 23;

/// Height of the `i`-th dash, counted from zero, of the line that divides a
/// court of the given height: the height is cut into `CENTER_STEPS` steps,
/// rounded toward zero, and a dash sits on every step from the second to the
/// last.
pub open spec fn center_mark(height: int, i: int) -> int {
    quot(height, CENTER_STEPS as int) * (i + 2)
}

/// The drawable area together with the grid derived from it.
///
/// The slices and the centre are functions of `width` and `height`; `wf`
/// says so, and every value that this module hands out satisfies it.
#[derive(Clone, Copy, Debug, PartialEq, Eq, Structural)]
pub struct Window {
    pub width: i32,
    pub width_slice: i32,
    pub height: i32,
    pub height_slice: i32,
    pub center: Point,
}

impl Window {
    /// The grid agrees with the size it was derived from.
    pub open spec fn wf(&self) -> bool {
        &&& self.width_slice == slice_of(self.width as int)
        &&& self.height_slice == slice_of(self.height as int)
        &&& self.center.x == self.width_slice * 6
        &&& self.center.y == self.height_slice * 6
    }

    /// The window of the given size, as a specification value.
    pub open spec fn of_size(width: i32, height: i32) -> Window {
        Window {
            width,
            width_slice: slice_of(width as int) as i32,
            height,
            height_slice: slice_of(height as int) as i32,
            center: Point {
                x: (slice_of(width as int) * 6) as i32,
                y: (slice_of(height as int) * 6) as i32,
            },
        }
    }

    /// Derives the grid for a viewport of the given size.
    pub fn new(width: i32, height: i32) -> (w: Window)
        ensures
            w == Window::of_size(width, height),
            w.wf(),
            w.width == width,
            w.height == height,
            width >= 0 ==> w.width_slice == width / GRID,
            height >= 0 ==> w.height_slice == height / GRID,
    {
        let width_slice: i32 = width / GRID;
        let height_slice: i32 = height / GRID;
        Window {
            width,
            width_slice,
            height,
            height_slice,
            center: Point { x: width_slice * 6, y: height_slice * 6 },
        }
    }

    /// Heights of the dashes of the court's dividing line, from top to
    /// bottom.
    pub fn center_line_marks(&self) -> (marks: Vec<i32>)
        ensures
            marks@.len() == CENTER_MARKS,
            forall|i: int|
                0 <= i < CENTER_MARKS ==> #[trigger] marks@[i] == center_mark(
                    self.height as int,
                    i,
                ),
    {
        let step: i32 = self.height / CENTER_STEPS;
        let mut marks: Vec<i32> = Vec::new();
        let mut num: i32 = 2;
        while num <= CENTER_STEPS
            invariant
                2 <= num <= CENTER_STEPS + 1,
                step == quot(self.height as int, CENTER_STEPS as int),
                marks@.len() == num - 2,
                forall|i: int| 0 <= i < marks@.len() ==> marks@[i] == step * (i + 2),
            decreases CENTER_STEPS + 1 - num,
        {
            assert(i32::MIN <= step * num <= i32::MAX) by (nonlinear_arith)
                requires
                    -89478485 <= step <= 89478485,
                    2 <= num <= 24,
            ;
            marks.push(step * num);
            num = num + 1;
        }
        marks
    }
}

} // verus!
