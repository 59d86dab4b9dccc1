//! The mathematical model of a dock area, and the operations on it that
//! the executable dock area implements.

use vstd::prelude::*;

verus! {

/// The direction along which a stack lays out its children.
#[derive(Clone, Copy, Debug, PartialEq, Eq, Structural)]
pub enum Axis {
    Horizontal,
    Vertical,
}

/// The handle of a panel: its slot in the dock area that created it.
#[derive(Clone, Copy, Debug, PartialEq, Eq, Structural)]
pub struct PanelId(pub usize);

/// The handle of a piece of content that the embedding application renders.
#[derive(Clone, Copy, Debug, PartialEq, Eq, Structural)]
pub struct ContentId(pub u64);

/// One child of a stack: the panel, and its fixed extent along the stack's
/// axis if it has one. A child without one takes a share of what is left.
#[derive(Clone, Copy, Debug, PartialEq, Eq, Structural)]
pub struct StackChild {
    pub panel: PanelId,
    pub size: Option<u32>,
}

/// What kind of panel to create.
#[derive(Clone, Copy, Debug, PartialEq, Eq, Structural)]
pub enum PanelKind {
    /// A stack with the given axis and no children.
    Stack(Axis),
    /// A tab container without items; with `Some(axis)` it owns a nested,
    /// empty stack of that axis.
    Tabs(Option<Axis>),
}

/// Why an operation on a dock area was refused.
#[derive(Clone, Copy, Debug, PartialEq, Eq, Structural)]
pub enum DockError {
    /// The handle names no panel of this dock area.
    UnknownPanel,
    /// The panel is not a stack.
    NotAStack,
    /// The panel is not a tab container.
    NotATabPanel,
    /// The root stack cannot be removed.
    RootPanel,
    /// The panel has no parent to be detached from.
    Detached,
    /// The tab container has no item at that index.
    NoSuchItem,
}

/// The model of a content item of a tab container.
#[verifier::ext_equal]
pub struct TabItemModel {
    pub title: Seq<char>,
    pub description: Seq<char>,
    pub content: ContentId,
    pub closeable: bool,
}

/// The model of what a panel holds.
#[verifier::ext_equal]
pub enum PanelBodyModel {
    Stack { axis: Axis, children: Seq<StackChild> },
    Tabs { items: Seq<TabItemModel>, active: int, stack: Option<PanelId> },
}

/// The model of a panel: its parent, the identifier of the dock area that
/// its back-reference names (which owns nothing), and what it holds.
#[verifier::ext_equal]
pub struct PanelModel {
    pub parent: Option<PanelId>,
    pub dock_area: Option<Seq<char>>,
    pub body: PanelBodyModel,
}

/// The model of a dock area: its identifier and its panels by handle.
/// Slot 0 is the root stack. A panel stays in its slot when it is detached.
#[verifier::ext_equal]
pub struct DockModel {
    pub id: Seq<char>,
    pub panels: Seq<PanelModel>,
}

/// The handle of the root stack.
pub open spec fn root_id() -> PanelId {
    PanelId(0)
}

/// Whether some child of `children` is the panel `child`.
pub open spec fn has_child(children: Seq<StackChild>, child: PanelId) -> bool {
    exists|k: int| 0 <= k < children.len() && (#[trigger] children[k]).panel == child
}

/// The position of `child` among `children`.
pub open spec fn child_position(children: Seq<StackChild>, child: PanelId) -> int {
    choose|k: int| 0 <= k < children.len() && (#[trigger] children[k]).panel == child
}

/// `children` without the panel `child`, the others in their order.
pub open spec fn without_child(children: Seq<StackChild>, child: PanelId) -> Seq<StackChild> {
    if has_child(children, child) {
        children.remove(child_position(children, child))
    } else {
        children
    }
}

/// No panel occurs twice among `children`.
pub open spec fn distinct_children(children: Seq<StackChild>) -> bool {
    forall|j: int, k: int|
        0 <= j < k < children.len() ==> (#[trigger] children[j]).panel != (
        #[trigger] children[k]).panel
}

impl PanelModel {
    /// Whether this panel is a stack.
    pub open spec fn is_stack(self) -> bool {
        self.body is Stack
    }

    /// Whether this panel is a tab container.
    pub open spec fn is_tabs(self) -> bool {
        self.body is Tabs
    }

    /// The children of a stack; a tab container has none.
    pub open spec fn children(self) -> Seq<StackChild> {
        match self.body {
            PanelBodyModel::Stack { children, .. } => children,
            PanelBodyModel::Tabs { .. } => Seq::empty(),
        }
    }

    /// The axis of a stack.
    pub open spec fn axis(self) -> Option<Axis> {
        match self.body {
            PanelBodyModel::Stack { axis, .. } => Some(axis),
            PanelBodyModel::Tabs { .. } => None,
        }
    }

    /// The content items of a tab container; a stack has none.
    pub open spec fn items(self) -> Seq<TabItemModel> {
        match self.body {
            PanelBodyModel::Stack { .. } => Seq::empty(),
            PanelBodyModel::Tabs { items, .. } => items,
        }
    }

    /// The index of the active item of a tab container.
    pub open spec fn active(self) -> int {
        match self.body {
            PanelBodyModel::Stack { .. } => 0,
            PanelBodyModel::Tabs { active, .. } => active,
        }
    }

    /// The nested stack of a tab container, if it has one.
    pub open spec fn nested_stack(self) -> Option<PanelId> {
        match self.body {
            PanelBodyModel::Stack { .. } => None,
            PanelBodyModel::Tabs { stack, .. } => stack,
        }
    }

    /// Whether this panel holds `child`: as a child of a stack, or as the
    /// nested stack of a tab container.
    pub open spec fn lists(self, child: PanelId) -> bool {
        match self.body {
            PanelBodyModel::Stack { children, .. } => has_child(children, child),
            PanelBodyModel::Tabs { stack, .. } => stack == Some(child),
        }
    }

    /// This panel with `child` taken out of what it holds.
    pub open spec fn without(self, child: PanelId) -> PanelModel {
        match self.body {
            PanelBodyModel::Stack { axis, children } => PanelModel {
                body: PanelBodyModel::Stack { axis, children: without_child(children, child) },
                ..self
            },
            PanelBodyModel::Tabs { items, active, stack } => PanelModel {
                body: PanelBodyModel::Tabs {
                    items,
                    active,
                    stack: if stack == Some(child) {
                        None
                    } else {
                        stack
                    },
                },
                ..self
            },
        }
    }

    /// This stack with one more child at the end.
    pub open spec fn with_child(self, child: StackChild) -> PanelModel {
        match self.body {
            PanelBodyModel::Stack { axis, children } => PanelModel {
                body: PanelBodyModel::Stack { axis, children: children.push(child) },
                ..self
            },
            PanelBodyModel::Tabs { .. } => self,
        }
    }

    /// This tab container with one more item at the end. The active index
    /// stays where it is, so that the first item inserted is the active one.
    pub open spec fn with_item(self, item: TabItemModel) -> PanelModel {
        match self.body {
            PanelBodyModel::Stack { .. } => self,
            PanelBodyModel::Tabs { items, active, stack } => PanelModel {
                body: PanelBodyModel::Tabs { items: items.push(item), active, stack },
                ..self
            },
        }
    }

    /// This tab container with another active index.
    pub open spec fn with_active(self, index: int) -> PanelModel {
        match self.body {
            PanelBodyModel::Stack { .. } => self,
            PanelBodyModel::Tabs { items, active, stack } => PanelModel {
                body: PanelBodyModel::Tabs { items, active: index, stack },
                ..self
            },
        }
    }

    /// This tab container without the item at `index`. The item that was
    /// active stays active; if it is the one that goes, the item that
    /// follows it becomes active, or the last one if none follows.
    pub open spec fn without_item(self, index: int) -> PanelModel {
        match self.body {
            PanelBodyModel::Stack { .. } => self,
            PanelBodyModel::Tabs { items, active, stack } => PanelModel {
                body: PanelBodyModel::Tabs {
                    items: items.remove(index),
                    active: active_without(active, index, items.len() - 1),
                    stack,
                },
                ..self
            },
        }
    }

    /// A stack that emptied and has a parent to be detached from.
    pub open spec fn is_collapsed(self) -> bool {
        self.body is Stack && self.children().len() == 0 && self.parent is Some
    }
}

/// The active index of a tab container that had `active` as its active
/// index, after the item at `index` went and `left` items are left.
pub open spec fn active_without(active: int, index: int, left: int) -> int {
    if index < active {
        active - 1
    } else if active < left {
        active
    } else if left > 0 {
        left - 1
    } else {
        0
    }
}

/// The panel that `kind` describes, as a child of `parent`.
pub open spec fn fresh_panel(
    kind: PanelKind,
    parent: PanelId,
    dock_area: Seq<char>,
    nested: PanelId,
) -> PanelModel {
    PanelModel {
        parent: Some(parent),
        dock_area: Some(dock_area),
        body: match kind {
            PanelKind::Stack(axis) => PanelBodyModel::Stack { axis, children: Seq::empty() },
            PanelKind::Tabs(stack) => PanelBodyModel::Tabs {
                items: Seq::empty(),
                active: 0,
                stack: match stack {
                    Some(_) => Some(nested),
                    None => None,
                },
            },
        },
    }
}

/// The structure that every dock area keeps, for the panel in slot `i`:
/// a parent was created before its child and holds it, a stack holds each
/// child once, and the active index of a tab container names an item.
pub open spec fn panel_wf(panels: Seq<PanelModel>, i: int) -> bool {
    let panel = panels[i];
    &&& match panel.parent {
        Some(p) => p.0 < i && panels[p.0 as int].lists(PanelId(i as usize)),
        None => true,
    }
    &&& match panel.body {
        PanelBodyModel::Stack { children, .. } => {
            &&& distinct_children(children)
            &&& forall|k: int|
                0 <= k < children.len() ==> {
                    let c = (#[trigger] children[k]).panel;
                    i < c.0 < panels.len() && panels[c.0 as int].parent == Some(
                        PanelId(i as usize),
                    )
                }
        },
        PanelBodyModel::Tabs { items, active, stack } => {
            &&& 0 <= active
            &&& active < items.len() || (active == 0 && items.len() == 0)
            &&& match stack {
                Some(s) => i < s.0 < panels.len() && panels[s.0 as int].parent == Some(
                    PanelId(i as usize),
                ) && panels[s.0 as int].is_stack(),
                None => true,
            }
        },
    }
}

/// The panels after `child` was detached from its parent `parent`.
pub open spec fn unlink(panels: Seq<PanelModel>, child: PanelId, parent: PanelId) -> Seq<
    PanelModel,
> {
    panels.update(child.0 as int, PanelModel { parent: None, ..panels[child.0 as int] }).update(
        parent.0 as int,
        panels[parent.0 as int].without(child),
    )
}

/// The panels after `id` was detached from its parent and, as long as that
/// left a stack with a parent empty, that stack from its own parent in turn.
pub open spec fn detach(panels: Seq<PanelModel>, id: PanelId) -> Seq<PanelModel>
    decreases id.0,
{
    if id.0 < panels.len() {
        match panels[id.0 as int].parent {
            Some(parent) => {
                let next = unlink(panels, id, parent);
                if parent.0 < id.0 && next[parent.0 as int].is_collapsed() {
                    detach(next, parent)
                } else {
                    next
                }
            },
            None => panels,
        }
    } else {
        panels
    }
}

impl DockModel {
    /// A dock area that holds only its root stack.
    pub open spec fn empty(id: Seq<char>, axis: Axis) -> DockModel {
        DockModel {
            id,
            panels: seq![
                PanelModel {
                    parent: None,
                    dock_area: None,
                    body: PanelBodyModel::Stack { axis, children: Seq::empty() },
                },
            ],
        }
    }

    /// The structure that every dock area keeps.
    pub open spec fn wf(self) -> bool {
        &&& 1 <= self.panels.len() <= usize::MAX
        &&& self.panels[0].is_stack()
        &&& self.panels[0].parent is None
        &&& forall|i: int| 0 <= i < self.panels.len() ==> #[trigger] panel_wf(self.panels, i)
    }

    /// Whether `id` names a panel of this dock area.
    pub open spec fn contains(self, id: PanelId) -> bool {
        id.0 < self.panels.len()
    }

    /// The panel that `id` names.
    pub open spec fn panel(self, id: PanelId) -> PanelModel {
        self.panels[id.0 as int]
    }

    /// Whether `id` names a stack of this dock area.
    pub open spec fn is_stack(self, id: PanelId) -> bool {
        self.contains(id) && self.panel(id).is_stack()
    }

    /// Whether `id` names a tab container of this dock area.
    pub open spec fn is_tabs(self, id: PanelId) -> bool {
        self.contains(id) && self.panel(id).is_tabs()
    }

    /// Whether the panel is the root or hangs, parent by parent, from the root.
    pub open spec fn is_attached(self, id: PanelId) -> bool
        decreases id.0,
    {
        if !self.contains(id) {
            false
        } else if id.0 == 0 {
            true
        } else {
            match self.panel(id).parent {
                Some(p) => p.0 < id.0 && self.is_attached(p),
                None => false,
            }
        }
    }

    /// Whether `above` is the parent of `id`, or the parent of that, and so
    /// on upwards.
    pub open spec fn is_ancestor(self, above: PanelId, id: PanelId) -> bool
        decreases id.0,
    {
        if !self.contains(id) {
            false
        } else {
            match self.panel(id).parent {
                Some(p) => p.0 < id.0 && (p == above || self.is_ancestor(above, p)),
                None => false,
            }
        }
    }

    /// The handle that the next panel created gets.
    pub open spec fn next_id(self) -> PanelId {
        PanelId(self.panels.len() as usize)
    }

    /// The handle of the nested stack of the next tab container created.
    pub open spec fn nested_id(self) -> PanelId {
        PanelId((self.panels.len() + 1) as usize)
    }

    /// How many panels come into being when a panel that `kind` describes
    /// is created: the panel, and the nested stack of a tab container.
    pub open spec fn created_by(kind: PanelKind) -> int {
        match kind {
            PanelKind::Tabs(Some(_)) => 2,
            _ => 1,
        }
    }

    /// Why no panel can be added to `target`, if so.
    pub open spec fn add_panel_error(self, target: PanelId) -> Option<DockError> {
        if !self.contains(target) {
            Some(DockError::UnknownPanel)
        } else if !self.panel(target).is_stack() {
            Some(DockError::NotAStack)
        } else {
            None
        }
    }

    /// The dock area after a panel that `kind` describes was created as the
    /// last child of the stack `target`. The new panel has the handle
    /// `next_id()`, its nested stack, if it has one, `nested_id()`.
    pub open spec fn add_panel(
        self,
        kind: PanelKind,
        target: PanelId,
        size: Option<u32>,
        dock_area: Seq<char>,
    ) -> DockModel {
        let id = self.next_id();
        let linked = self.panels.update(
            target.0 as int,
            self.panel(target).with_child(StackChild { panel: id, size }),
        ).push(fresh_panel(kind, target, dock_area, self.nested_id()));
        DockModel {
            panels: match kind {
                PanelKind::Tabs(Some(axis)) => linked.push(
                    fresh_panel(PanelKind::Stack(axis), id, dock_area, id),
                ),
                _ => linked,
            },
            ..self
        }
    }

    /// Why the panel `id` cannot be removed, if so.
    pub open spec fn remove_panel_error(self, id: PanelId) -> Option<DockError> {
        if !self.contains(id) {
            Some(DockError::UnknownPanel)
        } else if id.0 == 0 {
            Some(DockError::RootPanel)
        } else if self.panel(id).parent is None {
            Some(DockError::Detached)
        } else {
            None
        }
    }

    /// The dock area after the panel `id` was removed: detached from its
    /// parent, and every stack that this emptied detached in turn.
    pub open spec fn remove_panel(self, id: PanelId) -> DockModel {
        DockModel { panels: detach(self.panels, id), ..self }
    }

    /// Why `tabs` cannot be used as a tab container, if so.
    pub open spec fn tabs_error(self, tabs: PanelId) -> Option<DockError> {
        if !self.contains(tabs) {
            Some(DockError::UnknownPanel)
        } else if !self.panel(tabs).is_tabs() {
            Some(DockError::NotATabPanel)
        } else {
            None
        }
    }

    /// Why the tab container `tabs` cannot switch to the item at `index`, if so.
    pub open spec fn set_active_error(self, tabs: PanelId, index: int) -> Option<DockError> {
        if self.tabs_error(tabs) is Some {
            self.tabs_error(tabs)
        } else if !(0 <= index < self.panel(tabs).items().len()) {
            Some(DockError::NoSuchItem)
        } else {
            None
        }
    }

    /// Whether the back-reference of the panel `id` names this dock area.
    /// One that names another, or none, is dead here.
    pub open spec fn refers_here(self, id: PanelId) -> bool {
        self.contains(id) && self.panel(id).dock_area == Some(self.id)
    }

    /// Whether the item at `index` of `from` can move to `to`: both are
    /// tab containers of this dock area, not the same one, with a
    /// back-reference to it that is alive, and the item is there.
    pub open spec fn can_move_tab(self, from: PanelId, index: int, to: PanelId) -> bool {
        &&& self.is_tabs(from)
        &&& self.is_tabs(to)
        &&& from != to
        &&& 0 <= index < self.panel(from).items().len()
        &&& self.refers_here(from)
        &&& self.refers_here(to)
    }

    /// The dock area after the item at `index` of the tab container `from`
    /// moved behind the items of the tab container `to`.
    pub open spec fn move_tab(self, from: PanelId, index: int, to: PanelId) -> DockModel {
        DockModel {
            panels: self.panels.update(from.0 as int, self.panel(from).without_item(index)).update(
                to.0 as int,
                self.panel(to).with_item(self.panel(from).items()[index]),
            ),
            ..self
        }
    }

    /// The dock area after `item` was added to the tab container `tabs`.
    pub open spec fn add_tab(self, tabs: PanelId, item: TabItemModel) -> DockModel {
        DockModel {
            panels: self.panels.update(tabs.0 as int, self.panel(tabs).with_item(item)),
            ..self
        }
    }

    /// The dock area after the tab container `tabs` switched to the item at `index`.
    pub open spec fn set_active(self, tabs: PanelId, index: int) -> DockModel {
        DockModel {
            panels: self.panels.update(tabs.0 as int, self.panel(tabs).with_active(index)),
            ..self
        }
    }
}

} // verus!
