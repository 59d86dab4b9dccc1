//! The overlay slots of the application root: a modal, a drawer and a
//! notification, each set or empty. The modal has precedence over the
//! drawer; the notification goes with either.

use crate::dock::model::ContentId;
use vstd::prelude::*;

verus! {

/// The overlay that has the focus to itself, if any.
#[derive(Clone, Copy, Debug, PartialEq, Eq, Structural)]
pub enum Overlay {
    Nothing,
    Modal(ContentId),
    Drawer(ContentId),
}

/// The overlay slots. A slot holds the handle of what builds its content.
#[derive(Clone, Copy, Debug, PartialEq, Eq, Structural)]
pub struct Root {
    pub active_modal: Option<ContentId>,
    pub active_drawer: Option<ContentId>,
    pub notification: Option<ContentId>,
}

impl Root {
    /// The root with `content` in the modal slot, in place of what was there.
    pub open spec fn with_modal(self, content: ContentId) -> Root {
        Root { active_modal: Some(content), ..self }
    }

    /// The root with the modal slot empty.
    pub open spec fn without_modal(self) -> Root {
        Root { active_modal: None, ..self }
    }

    /// The root with `content` in the drawer slot, in place of what was there.
    pub open spec fn with_drawer(self, content: ContentId) -> Root {
        Root { active_drawer: Some(content), ..self }
    }

    /// The root with the drawer slot empty.
    pub open spec fn without_drawer(self) -> Root {
        Root { active_drawer: None, ..self }
    }

    /// The overlay that is shown with the focus to itself: the modal if
    /// there is one, else the drawer if there is one.
    pub open spec fn exclusive(self) -> Overlay {
        match self.active_modal {
            Some(modal) => Overlay::Modal(modal),
            None => match self.active_drawer {
                Some(drawer) => Overlay::Drawer(drawer),
                None => Overlay::Nothing,
            },
        }
    }

    /// A root with all slots empty.
    pub fn new() -> (res: Root)
        ensures
            res == (Root { active_modal: None, active_drawer: None, notification: None }),
    {
        Root { active_modal: None, active_drawer: None, notification: None }
    }

    /// Puts `content` into the modal slot. There is one such slot: a modal
    /// that was active is replaced. The drawer slot is not touched.
    pub fn open_modal(&mut self, content: ContentId)
        ensures
            *final(self) == old(self).with_modal(content),
    {
        self.active_modal = Some(content);
    }

    /// Empties the modal slot. The drawer slot is not touched.
    pub fn close_modal(&mut self)
        ensures
            *final(self) == old(self).without_modal(),
    {
        self.active_modal = None;
    }

    /// Puts `content` into the drawer slot.
    pub fn open_drawer(&mut self, content: ContentId)
        ensures
            *final(self) == old(self).with_drawer(content),
    {
        self.active_drawer = Some(content);
    }

    /// Empties the drawer slot.
    pub fn close_drawer(&mut self)
        ensures
            *final(self) == old(self).without_drawer(),
    {
        self.active_drawer = None;
    }

    /// Sets or empties the notification slot.
    pub fn set_notification(&mut self, content: Option<ContentId>)
        ensures
            *final(self) == (Root { notification: content, ..*old(self) }),
    {
        self.notification = content;
    }

    /// The overlay that is shown with the focus to itself.
    pub fn exclusive_overlay(&self) -> (res: Overlay)
        ensures
            res == self.exclusive(),
    {
        match self.active_modal {
            Some(modal) => Overlay::Modal(modal),
            None => match self.active_drawer {
                Some(drawer) => Overlay::Drawer(drawer),
                None => Overlay::Nothing,
            },
        }
    }
}

/// A modal hides the drawer and leaves it set: while the modal is active
/// it is the overlay shown, and once it is cleared the overlay shown is
/// what it was before the modal came.
pub proof fn lemma_modal_hides_drawer(root: Root, modal: ContentId)
    requires
        root.active_modal is None,
    ensures
        root.with_modal(modal).exclusive() == Overlay::Modal(modal),
        root.with_modal(modal).active_drawer == root.active_drawer,
        root.with_modal(modal).without_modal() == root,
        root.with_modal(modal).without_modal().exclusive() == root.exclusive(),
{
}

/// Whatever modal comes and goes, and whatever was in the modal slot
/// before, the drawer that shows once the slot is empty is the one that
/// was set.
pub proof fn lemma_drawer_returns(root: Root, modal: ContentId)
    ensures
        root.with_modal(modal).without_modal().exclusive() == match root.active_drawer {
            Some(drawer) => Overlay::Drawer(drawer),
            None => Overlay::Nothing,
        },
        root.with_modal(modal).without_modal().notification == root.notification,
{
}

} // verus!
