//! The window body as a pile of layers, from the title bar at the bottom
//! of the pile to the notifications on top.

use crate::color::Color;
use crate::dock::model::ContentId;
use crate::overlay::{Overlay, Root};
use vstd::prelude::*;

verus! {

/// How far below the top edge the notifications stand, in rems.
pub const NOTIFICATION_TOP: u32 = 2;

/// One layer of the window body.
#[derive(Clone, Copy, Debug, PartialEq, Eq, Structural)]
pub enum Layer {
    TitleBar,
    /// The dock area, which fills what the title bar leaves.
    DockArea,
    Drawer(ContentId),
    Modal(ContentId),
    /// The notifications, at a fixed distance from the top edge.
    Notification(Option<ContentId>),
}

/// Where a layer stands in the window body.
#[derive(Clone, Copy, Debug, PartialEq, Eq, Structural)]
pub enum Placement {
    /// At the top of the column, as high as its content.
    Top,
    /// Below, filling what is left of the column.
    Fill,
    /// Over the column.
    Over,
    /// Over everything, `top` rems below the top edge.
    Anchored { top: u32 },
}

impl Layer {
    /// Where this layer stands.
    pub open spec fn spec_placement(self) -> Placement {
        match self {
            Layer::TitleBar => Placement::Top,
            Layer::DockArea => Placement::Fill,
            Layer::Drawer(_) => Placement::Over,
            Layer::Modal(_) => Placement::Over,
            Layer::Notification(_) => Placement::Anchored { top: 2 },
        }
    }

    /// Where this layer stands.
    pub fn placement(&self) -> (res: Placement)
        ensures
            res == self.spec_placement(),
    {
        match self {
            Layer::TitleBar => Placement::Top,
            Layer::DockArea => Placement::Fill,
            Layer::Drawer(_) => Placement::Over,
            Layer::Modal(_) => Placement::Over,
            Layer::Notification(_) => Placement::Anchored { top: NOTIFICATION_TOP },
        }
    }
}

/// The window body as it is drawn: its colours, and its layers from the
/// first drawn to the last, which lies on top.
#[derive(Debug)]
pub struct Frame {
    pub background: Color,
    pub foreground: Color,
    pub layers: Vec<Layer>,
}

/// The layers of the window body for the overlay slots `root`: title bar
/// and dock area, then the modal if there is one, else the drawer if there
/// is one, then the notifications.
pub open spec fn layers_of(root: Root) -> Seq<Layer> {
    seq![Layer::TitleBar, Layer::DockArea] + match root.exclusive() {
        Overlay::Modal(modal) => seq![Layer::Modal(modal)],
        Overlay::Drawer(drawer) => seq![Layer::Drawer(drawer)],
        Overlay::Nothing => Seq::empty(),
    } + seq![Layer::Notification(root.notification)]
}

/// The notifications are drawn last, above everything else, whatever the
/// overlay slots hold; the title bar and the dock area come first.
pub proof fn lemma_notification_on_top(root: Root)
    ensures
        3 <= layers_of(root).len() <= 4,
        layers_of(root)[0] == Layer::TitleBar,
        layers_of(root)[1] == Layer::DockArea,
        layers_of(root).last() == Layer::Notification(root.notification),
        forall|i: int|
            0 <= i < layers_of(root).len() - 1 ==> !(#[trigger] layers_of(root)[i] is Notification),
        forall|i: int|
            0 <= i < layers_of(root).len() && (layers_of(root)[i] is Modal || layers_of(
                root,
            )[i] is Drawer) ==> i == 2 && i < layers_of(root).len() - 1,
{
}

/// A modal takes the place of the drawer among the layers, and the drawer
/// does not show beside it; when the modal is cleared the layers are those
/// from before it came, with the same drawer.
pub proof fn lemma_modal_replaces_drawer(root: Root, modal: ContentId)
    requires
        root.active_modal is None,
    ensures
        layers_of(root.with_modal(modal))[2] == Layer::Modal(modal),
        forall|i: int|
            0 <= i < layers_of(root.with_modal(modal)).len() ==> !(#[trigger] layers_of(
                root.with_modal(modal),
            )[i] is Drawer),
        root.active_drawer is Some ==> layers_of(root)[2] == Layer::Drawer(
            root.active_drawer->0,
        ),
        layers_of(root.with_modal(modal).without_modal()) == layers_of(root),
{
}

} // verus!
