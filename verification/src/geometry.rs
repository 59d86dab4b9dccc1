//! Points, sizes and rectangles in whole logical pixels.

use vstd::prelude::*;

verus! {

/// A position; `y` grows downwards.
#[derive(Clone, Copy, Debug, PartialEq, Eq, Structural)]
pub struct Point {
    pub x: i32,
    pub y: i32,
}

/// An extent in both directions.
#[derive(Clone, Copy, Debug, PartialEq, Eq, Structural)]
pub struct Size {
    pub width: u32,
    pub height: u32,
}

/// A rectangle: where its top left corner is, and how far it extends.
#[derive(Clone, Copy, Debug, PartialEq, Eq, Structural)]
pub struct Bounds {
    pub origin: Point,
    pub size: Size,
}

/// The coordinate nearest to `v` that a point can hold.
pub open spec fn nearest_coordinate(v: int) -> int {
    if v < i32::MIN {
        i32::MIN as int
    } else if v > i32::MAX {
        i32::MAX as int
    } else {
        v
    }
}

/// Where something `extent` long starts so that its middle is the middle
/// of what starts at `start` and is `within` long. Halves are rounded down.
pub open spec fn centered_start(start: int, within: int, extent: int) -> int {
    nearest_coordinate(start + within / 2 - extent / 2)
}

fn centered_coordinate(start: i32, within: u32, extent: u32) -> (res: i32)
    ensures
        res == centered_start(start as int, within as int, extent as int),
{
    let v: i64 = start as i64 + (within / 2) as i64 - (extent / 2) as i64;
    if v < i32::MIN as i64 {
        i32::MIN
    } else if v > i32::MAX as i64 {
        i32::MAX
    } else {
        v as i32
    }
}

impl Bounds {
    /// A rectangle of the given size in the middle of `display`; at the
    /// origin where there is no display to go by.
    pub open spec fn spec_centered(display: Option<Bounds>, size: Size) -> Bounds {
        match display {
            Some(display) => Bounds {
                origin: Point {
                    x: centered_start(
                        display.origin.x as int,
                        display.size.width as int,
                        size.width as int,
                    ) as i32,
                    y: centered_start(
                        display.origin.y as int,
                        display.size.height as int,
                        size.height as int,
                    ) as i32,
                },
                size,
            },
            None => Bounds { origin: Point { x: 0, y: 0 }, size },
        }
    }

    /// A rectangle of the given size in the middle of `display`; at the
    /// origin where there is no display to go by.
    pub fn centered(display: Option<Bounds>, size: Size) -> (res: Bounds)
        ensures
            res == Bounds::spec_centered(display, size),
    {
        match display {
            Some(display) => Bounds {
                origin: Point {
                    x: centered_coordinate(display.origin.x, display.size.width, size.width),
                    y: centered_coordinate(display.origin.y, display.size.height, size.height),
                },
                size,
            },
            None => Bounds { origin: Point { x: 0, y: 0 }, size },
        }
    }
}

/// A rectangle that fits into the display lies within it once centered,
/// with the same margin on both sides but for one pixel of rounding.
pub proof fn lemma_centered_within(display: Bounds, size: Size)
    requires
        size.width <= display.size.width,
        size.height <= display.size.height,
        display.origin.x + display.size.width <= i32::MAX,
        display.origin.y + display.size.height <= i32::MAX,
    ensures
        Bounds::spec_centered(Some(display), size).size == size,
        display.origin.x <= Bounds::spec_centered(Some(display), size).origin.x,
        Bounds::spec_centered(Some(display), size).origin.x + size.width <= display.origin.x
            + display.size.width,
        display.origin.y <= Bounds::spec_centered(Some(display), size).origin.y,
        Bounds::spec_centered(Some(display), size).origin.y + size.height <= display.origin.y
            + display.size.height,
        ({
            let left = Bounds::spec_centered(Some(display), size).origin.x - display.origin.x;
            let right = display.size.width - size.width - left;
            -1 <= left - right <= 1
        }),
        ({
            let top = Bounds::spec_centered(Some(display), size).origin.y - display.origin.y;
            let bottom = display.size.height - size.height - top;
            -1 <= top - bottom <= 1
        }),
{
}

} // verus!
