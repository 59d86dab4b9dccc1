//! The panel tree of a dock area: stacks that arrange children along an
//! axis, and tab containers that show one content item at a time.

pub mod area;
pub mod laws;
pub mod layout;
pub mod model;
pub mod structure;
