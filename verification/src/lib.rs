//! A headless model of a docking workspace window: a theme whose accent
//! colours are derived together, a tree of stack and tab panels, overlay
//! slots with a fixed stacking order, and the options and steps by which
//! the window is opened.

pub mod color;
pub mod controls;
pub mod dock;
pub mod frame;
pub mod geometry;
pub mod launch;
pub mod overlay;
pub mod process;
pub mod theme;
pub mod window;
pub mod workspace;
