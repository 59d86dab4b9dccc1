//! The options with which the workspace window is opened.

use crate::geometry::{Bounds, Point, Size};
use vstd::prelude::*;

verus! {

/// The width of the window when it opens.
pub const DEFAULT_WIDTH: u32 = 1600;

/// The height of the window when it opens.
pub const DEFAULT_HEIGHT: u32 = 1200;

/// The width below which the window cannot be resized.
pub const MIN_WIDTH: u32 = 640;

/// The height below which the window cannot be resized.
pub const MIN_HEIGHT: u32 = 480;

/// How far the window controls stand from the top left corner, in both
/// directions, on platforms that place them there.
pub const TRAFFIC_LIGHT_INSET: i32 = 9;

/// How the title bar of the window is drawn.
#[derive(Debug)]
pub struct TitlebarOptions {
    /// The title that the platform draws, if it is to draw one.
    pub title: Option<String>,
    /// Whether the content of the window extends under the title bar.
    pub appears_transparent: bool,
    /// Where the window controls stand, on platforms that place them in
    /// the top left corner.
    pub traffic_light_position: Option<Point>,
}

/// The kind of a window.
#[derive(Clone, Copy, Debug, PartialEq, Eq, Structural)]
pub enum WindowKind {
    Normal,
    PopUp,
}

/// What a window is opened with.
#[derive(Debug)]
pub struct WindowOptions {
    pub window_bounds: Option<Bounds>,
    pub titlebar: Option<TitlebarOptions>,
    pub window_min_size: Option<Size>,
    pub kind: WindowKind,
}

impl WindowOptions {
    /// The options of the workspace window on `display`.
    pub open spec fn spec_for_workspace(display: Option<Bounds>) -> WindowOptions {
        WindowOptions {
            window_bounds: Some(
                Bounds::spec_centered(display, Size { width: 1600, height: 1200 }),
            ),
            titlebar: Some(
                TitlebarOptions {
                    title: None,
                    appears_transparent: true,
                    traffic_light_position: Some(Point { x: 9, y: 9 }),
                },
            ),
            window_min_size: Some(Size { width: 640, height: 480 }),
            kind: WindowKind::Normal,
        }
    }

    /// The options of the workspace window: an ordinary window of the
    /// default size in the middle of `display`, the primary display, that
    /// cannot be made smaller than the minimum size; its title bar is
    /// transparent and has no title of the platform's.
    pub fn for_workspace(display: Option<Bounds>) -> (res: WindowOptions)
        ensures
            res == WindowOptions::spec_for_workspace(display),
    {
        WindowOptions {
            window_bounds: Some(
                Bounds::centered(display, Size { width: DEFAULT_WIDTH, height: DEFAULT_HEIGHT }),
            ),
            titlebar: Some(
                TitlebarOptions {
                    title: None,
                    appears_transparent: true,
                    traffic_light_position: Some(
                        Point { x: TRAFFIC_LIGHT_INSET, y: TRAFFIC_LIGHT_INSET },
                    ),
                },
            ),
            window_min_size: Some(Size { width: MIN_WIDTH, height: MIN_HEIGHT }),
            kind: WindowKind::Normal,
        }
    }
}

} // verus!
