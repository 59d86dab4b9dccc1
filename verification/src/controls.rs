//! The controls around the dock area: the title bar and the colour
//! picker, and the actions that they send.

use crate::color::Color;
use vstd::prelude::*;

verus! {

/// The actions that the workspace names.
#[derive(Clone, Copy, Debug, PartialEq, Eq, Structural)]
pub enum Action {
    /// Kept for callers from outside; nothing is done on it.
    Open,
    /// Closes the window; the close control of the title bar sends it.
    CloseWindow,
}

/// The platform on which the window is drawn.
#[derive(Clone, Copy, Debug, PartialEq, Eq, Structural)]
pub enum Platform {
    Mac,
    Linux,
    Windows,
}

/// What a click on the title bar asks of the window.
#[derive(Clone, Copy, Debug, PartialEq, Eq, Structural)]
pub enum WindowCommand {
    Zoom,
}

/// The title bar of the window.
#[derive(Clone, Copy, Debug)]
pub struct TitleBar {
    pub id: &'static str,
    /// The text on its left side.
    pub title: &'static str,
    /// The action that its close control sends.
    pub close: Action,
    /// Whether a double click on it zooms the window.
    pub zoom_on_double_click: bool,
}

/// How large a control is drawn.
#[derive(Clone, Copy, Debug, PartialEq, Eq, Structural)]
pub enum ControlSize {
    XSmall,
    Small,
    Medium,
    Large,
}

/// The corner of a control at which its popup is anchored.
#[derive(Clone, Copy, Debug, PartialEq, Eq, Structural)]
pub enum AnchorCorner {
    TopLeft,
    TopRight,
    BottomLeft,
    BottomRight,
}

/// The colour picker with which the primary colour of the theme is chosen.
#[derive(Clone, Copy, Debug)]
pub struct ColorPicker {
    pub id: &'static str,
    pub label: &'static str,
    pub size: ControlSize,
    pub anchor: AnchorCorner,
    /// The colour that it shows.
    pub value: Option<Color>,
}

impl TitleBar {
    /// What a click on the title bar asks of the window: the second click
    /// of a double click zooms it, where double clicks do.
    pub fn on_click(&self, click_count: usize) -> (res: Option<WindowCommand>)
        ensures
            res == if self.zoom_on_double_click && click_count == 2 {
                Some(WindowCommand::Zoom)
            } else {
                None
            },
    {
        if self.zoom_on_double_click && click_count == 2 {
            Some(WindowCommand::Zoom)
        } else {
            None
        }
    }
}

} // verus!
