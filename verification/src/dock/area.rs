//! The executable dock area.

use super::model::{
    detach, has_child, panel_wf, root_id, unlink, Axis, ContentId, DockError, DockModel, PanelBodyModel,
    PanelId, PanelModel, PanelKind, StackChild, TabItemModel,
};
use super::laws::lemma_remove_detaches;
use super::structure::{
    lemma_add_panel_wf, lemma_add_tab_wf, lemma_child_position, lemma_empty_wf,
    lemma_move_tab_wf, lemma_set_active_wf, lemma_unlink_wf,
};
use vstd::prelude::*;

verus! {

/// A content item of a tab container.
#[derive(Debug)]
pub struct TabItem {
    pub title: String,
    pub description: String,
    pub content: ContentId,
    pub closeable: bool,
}

impl View for TabItem {
    type V = TabItemModel;

    open spec fn view(&self) -> TabItemModel {
        TabItemModel {
            title: self.title@,
            description: self.description@,
            content: self.content,
            closeable: self.closeable,
        }
    }
}

/// A back-reference to a dock area. It names the dock area by its
/// identifier and owns nothing: the dock area may be gone while it stays.
#[derive(Debug)]
pub struct WeakDockArea {
    id: String,
}

impl View for WeakDockArea {
    type V = Seq<char>;

    closed spec fn view(&self) -> Seq<char> {
        self.id@
    }
}

impl WeakDockArea {
    /// A back-reference to the dock area with the identifier `id`, whether
    /// there is one or not.
    pub fn new(id: &str) -> (res: WeakDockArea)
        ensures
            res@ == id@,
    {
        WeakDockArea { id: id.to_owned() }
    }

    /// A second back-reference to the same dock area.
    pub fn duplicate(&self) -> (res: WeakDockArea)
        ensures
            res@ == self@,
    {
        WeakDockArea { id: self.id.clone() }
    }

    /// The identifier of the dock area that this back-reference names.
    pub fn id(&self) -> (res: &str)
        ensures
            res@ == self@,
    {
        self.id.as_str()
    }
}

enum PanelBody {
    Stack { axis: Axis, children: Vec<StackChild> },
    Tabs { items: Vec<TabItem>, active: usize, stack: Option<PanelId> },
}

struct Panel {
    parent: Option<PanelId>,
    dock_area: Option<WeakDockArea>,
    body: PanelBody,
}

impl View for PanelBody {
    type V = PanelBodyModel;

    closed spec fn view(&self) -> PanelBodyModel {
        match self {
            PanelBody::Stack { axis, children } => PanelBodyModel::Stack {
                axis: *axis,
                children: children@,
            },
            PanelBody::Tabs { items, active, stack } => PanelBodyModel::Tabs {
                items: items@.map_values(|item: TabItem| item@),
                active: *active as int,
                stack: *stack,
            },
        }
    }
}

impl View for Panel {
    type V = PanelModel;

    closed spec fn view(&self) -> PanelModel {
        PanelModel {
            parent: self.parent,
            dock_area: match self.dock_area {
                Some(weak) => Some(weak@),
                None => None,
            },
            body: self.body@,
        }
    }
}

spec fn panels_view(panels: Seq<Panel>) -> Seq<PanelModel> {
    panels.map_values(|panel: Panel| panel@)
}

impl Panel {
    /// The parent, if this panel is a stack that holds nothing and has one.
    fn collapsed_into(&self) -> (res: Option<PanelId>)
        ensures
            res is Some <==> self@.is_collapsed(),
            res is Some ==> res == self@.parent,
    {
        match &self.body {
            PanelBody::Stack { children, .. } => {
                if children.len() == 0 {
                    self.parent
                } else {
                    None
                }
            },
            PanelBody::Tabs { .. } => None,
        }
    }

    fn is_stack(&self) -> (res: bool)
        ensures
            res == self@.is_stack(),
    {
        match self.body {
            PanelBody::Stack { .. } => true,
            PanelBody::Tabs { .. } => false,
        }
    }
}

fn push_child(panels: &mut Vec<Panel>, stack: usize, child: StackChild)
    requires
        stack < old(panels).len(),
        old(panels)[stack as int]@.is_stack(),
    ensures
        final(panels).len() == old(panels).len(),
        panels_view(final(panels)@) == panels_view(old(panels)@).update(
            stack as int,
            old(panels)[stack as int]@.with_child(child),
        ),
{
    let panel = &mut panels[stack];
    match &mut panel.body {
        PanelBody::Stack { children, .. } => {
            children.push(child);
        },
        PanelBody::Tabs { .. } => {},
    }
}

fn position_of(children: &Vec<StackChild>, child: PanelId) -> (res: Option<usize>)
    ensures
        match res {
            Some(at) => at < children.len() && children[at as int].panel == child,
            None => !has_child(children@, child),
        },
{
    let mut at: usize = 0;
    while at < children.len()
        invariant
            at <= children.len(),
            forall|k: int| 0 <= k < at ==> (#[trigger] children[k]).panel != child,
        decreases children.len() - at,
    {
        if children[at].panel.0 == child.0 {
            return Some(at);
        }
        at = at + 1;
    }
    None
}

/// The root of a window's panel tree. It owns every panel; a panel is
/// named by the handle that it got when it was created.
pub struct DockArea {
    id: String,
    panels: Vec<Panel>,
}

impl View for DockArea {
    type V = DockModel;

    closed spec fn view(&self) -> DockModel {
        DockModel { id: self.id@, panels: panels_view(self.panels@) }
    }
}

impl DockArea {
    /// The structure that every dock area keeps.
    pub open spec fn wf(&self) -> bool {
        self@.wf()
    }

    /// A dock area with the identifier `id` that holds only its root
    /// stack, laid out along `axis`.
    pub fn new(id: &str, axis: Axis) -> (res: DockArea)
        ensures
            res.wf(),
            res@ == DockModel::empty(id@, axis),
    {
        let mut panels: Vec<Panel> = Vec::new();
        panels.push(
            Panel { parent: None, dock_area: None, body: PanelBody::Stack { axis, children: Vec::new() } },
        );
        let res = DockArea { id: id.to_owned(), panels };
        proof {
            lemma_empty_wf(id@, axis);
        }
        res
    }

    /// The identifier of this dock area.
    pub fn id(&self) -> (res: &str)
        ensures
            res@ == self@.id,
    {
        self.id.as_str()
    }

    /// The handle of the root stack.
    pub fn root(&self) -> (res: PanelId)
        ensures
            res == root_id(),
    {
        PanelId(0)
    }

    /// A back-reference to this dock area.
    pub fn downgrade(&self) -> (res: WeakDockArea)
        ensures
            res@ == self@.id,
    {
        WeakDockArea { id: self.id.clone() }
    }

    /// Creates the panel that `panel` describes as the last child of the
    /// stack `target`, with the fixed extent `size` if there is one, and
    /// with `dock_area` as its back-reference. Returns the new panel's
    /// handle; the nested stack of a tab container gets the handle after it.
    pub fn add_panel(
        &mut self,
        panel: PanelKind,
        target: PanelId,
        size: Option<u32>,
        dock_area: WeakDockArea,
    ) -> (res: Result<PanelId, DockError>)
        requires
            old(self).wf(),
        ensures
            final(self).wf(),
            match res {
                Ok(id) => {
                    &&& old(self)@.add_panel_error(target) is None
                    &&& id == old(self)@.next_id()
                    &&& final(self)@ == old(self)@.add_panel(panel, target, size, dock_area@)
                    &&& final(self)@.panels.len() == old(self)@.panels.len()
                        + DockModel::created_by(panel)
                },
                Err(e) => {
                    &&& old(self)@.add_panel_error(target) == Some(e)
                    &&& final(self)@ == old(self)@
                },
            },
    {
        if target.0 >= self.panels.len() {
            return Err(DockError::UnknownPanel);
        }
        if !self.panels[target.0].is_stack() {
            return Err(DockError::NotAStack);
        }
        let id = PanelId(self.panels.len());
        push_child(&mut self.panels, target.0, StackChild { panel: id, size });
        match panel {
            PanelKind::Stack(axis) => {
                self.panels.push(
                    Panel {
                        parent: Some(target),
                        dock_area: Some(dock_area),
                        body: PanelBody::Stack { axis, children: Vec::new() },
                    },
                );
            },
            PanelKind::Tabs(nested) => {
                let nested_ref = dock_area.duplicate();
                self.panels.push(
                    Panel {
                        parent: Some(target),
                        dock_area: Some(dock_area),
                        body: PanelBody::Tabs { items: Vec::new(), active: 0, stack: None },
                    },
                );
                match nested {
                    Some(axis) => {
                        // The nested stack takes the slot after its tab container.
                        let below = PanelId(self.panels.len());
                        match &mut self.panels[id.0].body {
                            PanelBody::Tabs { stack, .. } => {
                                *stack = Some(below);
                            },
                            PanelBody::Stack { .. } => {},
                        }
                        self.panels.push(
                            Panel {
                                parent: Some(id),
                                dock_area: Some(nested_ref),
                                body: PanelBody::Stack { axis, children: Vec::new() },
                            },
                        );
                    },
                    None => {},
                }
            },
        }
        proof {
            let before = old(self)@;
            let after = before.add_panel(panel, target, size, dock_area@);
            assert(self.panels.len() == self.panels@.len());
            lemma_add_panel_wf(before, panel, target, size, dock_area@);
            assert(self@.panels =~~= after.panels);
        }
        Ok(id)
    }

    /// Detaches `child` from `parent`, which holds it.
    fn unlink(&mut self, child: PanelId, parent: PanelId)
        requires
            old(self).wf(),
            old(self)@.contains(child),
            old(self)@.panel(child).parent == Some(parent),
        ensures
            final(self).wf(),
            final(self)@ == (DockModel {
                panels: unlink(old(self)@.panels, child, parent),
                ..old(self)@
            }),
    {
        proof {
            lemma_unlink_wf(self@, child, parent);
        }
        self.panels[child.0].parent = None;
        let at = match &self.panels[parent.0].body {
            PanelBody::Stack { children, .. } => position_of(children, child),
            PanelBody::Tabs { .. } => None,
        };
        let holder = &mut self.panels[parent.0];
        match &mut holder.body {
            PanelBody::Stack { children, .. } => {
                match at {
                    Some(at) => {
                        proof {
                            assert(panel_wf(old(self)@.panels, parent.0 as int));
                            lemma_child_position(children@, child, at as int);
                        }
                        children.remove(at);
                    },
                    None => {},
                }
            },
            PanelBody::Tabs { stack, .. } => {
                *stack = None;
            },
        }
        assert(self@.panels =~~= unlink(old(self)@.panels, child, parent));
    }

    /// Removes the panel `id`: detaches it from its parent and, where that
    /// leaves a stack other than the root empty, detaches that stack from
    /// its own parent, and so on upwards. What hung below a detached panel
    /// leaves the tree with it.
    pub fn remove_panel(&mut self, id: PanelId) -> (res: Result<(), DockError>)
        requires
            old(self).wf(),
        ensures
            final(self).wf(),
            match res {
                Ok(()) => {
                    &&& old(self)@.remove_panel_error(id) is None
                    &&& final(self)@ == old(self)@.remove_panel(id)
                    &&& final(self)@.panels.len() == old(self)@.panels.len()
                    &&& final(self)@.panel(id).parent is None
                },
                Err(e) => {
                    &&& old(self)@.remove_panel_error(id) == Some(e)
                    &&& final(self)@ == old(self)@
                },
            },
    {
        if id.0 >= self.panels.len() {
            return Err(DockError::UnknownPanel);
        }
        if id.0 == 0 {
            return Err(DockError::RootPanel);
        }
        let mut parent = match self.panels[id.0].parent {
            Some(parent) => parent,
            None => {
                return Err(DockError::Detached);
            },
        };
        proof {
            lemma_remove_detaches(self@, id, parent);
        }
        let mut current = id;
        let mut done = false;
        while !done
            invariant
                self.wf(),
                self@.id == old(self)@.id,
                !done ==> self@.contains(current) && self@.panel(current).parent == Some(parent)
                    && detach(self@.panels, current) == detach(old(self)@.panels, id),
                done ==> self@.panels == detach(old(self)@.panels, id),
            decreases
                    (if done {
                        0
                    } else {
                        current.0 + 1
                    }),
        {
            proof {
                lemma_unlink_wf(self@, current, parent);
            }
            self.unlink(current, parent);
            match self.panels[parent.0].collapsed_into() {
                Some(above) => {
                    current = parent;
                    parent = above;
                },
                None => {
                    done = true;
                },
            }
        }
        Ok(())
    }

    /// Adds `item` after the items of the tab container `tabs` and returns
    /// its index. The active index stays where it is, so the first item
    /// inserted is the active one until another is chosen.
    pub fn add_tab(&mut self, tabs: PanelId, item: TabItem) -> (res: Result<usize, DockError>)
        requires
            old(self).wf(),
        ensures
            final(self).wf(),
            match res {
                Ok(index) => {
                    &&& old(self)@.tabs_error(tabs) is None
                    &&& index == old(self)@.panel(tabs).items().len()
                    &&& final(self)@ == old(self)@.add_tab(tabs, item@)
                },
                Err(e) => {
                    &&& old(self)@.tabs_error(tabs) == Some(e)
                    &&& final(self)@ == old(self)@
                },
            },
    {
        if tabs.0 >= self.panels.len() {
            return Err(DockError::UnknownPanel);
        }
        if self.panels[tabs.0].is_stack() {
            return Err(DockError::NotATabPanel);
        }
        let ghost added = item@;
        let mut index: usize = 0;
        let panel = &mut self.panels[tabs.0];
        match &mut panel.body {
            PanelBody::Stack { .. } => {},
            PanelBody::Tabs { items, .. } => {
                index = items.len();
                items.push(item);
            },
        }
        proof {
            lemma_add_tab_wf(old(self)@, tabs, added);
            assert(self@.panels =~~= old(self)@.add_tab(tabs, added).panels);
        }
        Ok(index)
    }

    /// Makes the item at `index` the active one of the tab container
    /// `tabs`. Nothing else changes.
    pub fn set_active(&mut self, tabs: PanelId, index: usize) -> (res: Result<(), DockError>)
        requires
            old(self).wf(),
        ensures
            final(self).wf(),
            match res {
                Ok(()) => {
                    &&& old(self)@.set_active_error(tabs, index as int) is None
                    &&& final(self)@ == old(self)@.set_active(tabs, index as int)
                },
                Err(e) => {
                    &&& old(self)@.set_active_error(tabs, index as int) == Some(e)
                    &&& final(self)@ == old(self)@
                },
            },
    {
        if tabs.0 >= self.panels.len() {
            return Err(DockError::UnknownPanel);
        }
        if self.panels[tabs.0].is_stack() {
            return Err(DockError::NotATabPanel);
        }
        if index >= self.tab_count(tabs) {
            return Err(DockError::NoSuchItem);
        }
        let panel = &mut self.panels[tabs.0];
        match &mut panel.body {
            PanelBody::Stack { .. } => {},
            PanelBody::Tabs { active, .. } => {
                *active = index;
            },
        }
        proof {
            lemma_set_active_wf(old(self)@, tabs, index as int);
            assert(self@.panels =~~= old(self)@.set_active(tabs, index as int).panels);
        }
        Ok(())
    }

    /// Whether the back-reference of the panel `id` names this dock area.
    pub fn refers_here(&self, id: PanelId) -> (res: bool)
        ensures
            res == self@.refers_here(id),
    {
        if id.0 < self.panels.len() {
            match &self.panels[id.0].dock_area {
                Some(weak) => weak.id == self.id,
                None => false,
            }
        } else {
            false
        }
    }

    /// Moves the item at `index` of the tab container `from` behind the
    /// items of the tab container `to`, and returns whether it did. Both
    /// must hold a back-reference to this dock area that is alive: with a
    /// dead one nothing happens.
    pub fn move_tab(&mut self, from: PanelId, index: usize, to: PanelId) -> (moved: bool)
        requires
            old(self).wf(),
        ensures
            final(self).wf(),
            moved == old(self)@.can_move_tab(from, index as int, to),
            final(self)@ == if moved {
                old(self)@.move_tab(from, index as int, to)
            } else {
                old(self)@
            },
    {
        if !self.is_tabs(from) || !self.is_tabs(to) || from.0 == to.0 {
            return false;
        }
        if index >= self.tab_count(from) || !self.refers_here(from) || !self.refers_here(to) {
            return false;
        }
        let mut taken: Option<TabItem> = None;
        let source = &mut self.panels[from.0];
        match &mut source.body {
            PanelBody::Stack { .. } => {},
            PanelBody::Tabs { items, active, .. } => {
                taken = Some(items.remove(index));
                if index < *active {
                    *active = *active - 1;
                } else if *active >= items.len() {
                    *active = if items.len() > 0 {
                        items.len() - 1
                    } else {
                        0
                    };
                }
            },
        }
        match taken {
            Some(item) => {
                let target = &mut self.panels[to.0];
                match &mut target.body {
                    PanelBody::Stack { .. } => {},
                    PanelBody::Tabs { items, .. } => {
                        items.push(item);
                    },
                }
            },
            None => {},
        }
        proof {
            lemma_move_tab_wf(old(self)@, from, index as int, to);
            assert(self@.panels =~~= old(self)@.move_tab(from, index as int, to).panels);
        }
        true
    }

    /// The number of panels that this dock area has created, detached ones
    /// included: the handles below it name a panel.
    pub fn len(&self) -> (res: usize)
        ensures
            res == self@.panels.len(),
    {
        self.panels.len()
    }

    /// Whether `id` names a stack.
    pub fn is_stack(&self, id: PanelId) -> (res: bool)
        ensures
            res == self@.is_stack(id),
    {
        id.0 < self.panels.len() && self.panels[id.0].is_stack()
    }

    /// Whether `id` names a tab container.
    pub fn is_tabs(&self, id: PanelId) -> (res: bool)
        ensures
            res == self@.is_tabs(id),
    {
        id.0 < self.panels.len() && !self.panels[id.0].is_stack()
    }

    /// The parent of the panel `id`; none for the root, for a detached
    /// panel and for a handle that names no panel.
    pub fn parent(&self, id: PanelId) -> (res: Option<PanelId>)
        ensures
            res == if self@.contains(id) {
                self@.panel(id).parent
            } else {
                None
            },
    {
        if id.0 < self.panels.len() {
            self.panels[id.0].parent
        } else {
            None
        }
    }

    /// The axis of the stack `id`; none if `id` names no stack.
    pub fn axis(&self, id: PanelId) -> (res: Option<Axis>)
        ensures
            res == if self@.contains(id) {
                self@.panel(id).axis()
            } else {
                None
            },
    {
        if id.0 < self.panels.len() {
            match &self.panels[id.0].body {
                PanelBody::Stack { axis, .. } => Some(*axis),
                PanelBody::Tabs { .. } => None,
            }
        } else {
            None
        }
    }

    /// The children of the stack `id` in the order of their insertion, in
    /// which they are laid out; none if `id` names no stack.
    pub fn children(&self, id: PanelId) -> (res: Vec<StackChild>)
        ensures
            res@ == if self@.contains(id) {
                self@.panel(id).children()
            } else {
                Seq::empty()
            },
    {
        let mut res: Vec<StackChild> = Vec::new();
        if id.0 < self.panels.len() {
            match &self.panels[id.0].body {
                PanelBody::Stack { children, .. } => {
                    let mut k: usize = 0;
                    while k < children.len()
                        invariant
                            k <= children.len(),
                            res@ == children@.take(k as int),
                        decreases children.len() - k,
                    {
                        res.push(children[k]);
                        k = k + 1;
                    }
                },
                PanelBody::Tabs { .. } => {},
            }
        }
        res
    }

    /// The number of items of the tab container `id`; 0 if `id` names none.
    pub fn tab_count(&self, id: PanelId) -> (res: usize)
        ensures
            res == if self@.contains(id) {
                self@.panel(id).items().len()
            } else {
                0
            },
    {
        if id.0 < self.panels.len() {
            match &self.panels[id.0].body {
                PanelBody::Stack { .. } => 0,
                PanelBody::Tabs { items, .. } => items.len(),
            }
        } else {
            0
        }
    }

    /// The item at `index` of the tab container `id`.
    pub fn tab(&self, id: PanelId, index: usize) -> (res: Option<&TabItem>)
        ensures
            match res {
                Some(item) => self@.contains(id) && index < self@.panel(id).items().len()
                    && item@ == self@.panel(id).items()[index as int],
                None => !self@.contains(id) || index >= self@.panel(id).items().len(),
            },
    {
        if id.0 < self.panels.len() {
            match &self.panels[id.0].body {
                PanelBody::Stack { .. } => None,
                PanelBody::Tabs { items, .. } => {
                    if index < items.len() {
                        Some(&items[index])
                    } else {
                        None
                    }
                },
            }
        } else {
            None
        }
    }

    /// The index of the active item of the tab container `id`; none if
    /// `id` names no tab container or the tab container has no item.
    pub fn active_tab(&self, id: PanelId) -> (res: Option<usize>)
        requires
            self.wf(),
        ensures
            res == if self@.is_tabs(id) && self@.panel(id).items().len() > 0 {
                Some(self@.panel(id).active() as usize)
            } else {
                None
            },
            res is Some ==> res->0 < self@.panel(id).items().len(),
    {
        if id.0 < self.panels.len() {
            proof {
                assert(panel_wf(self@.panels, id.0 as int));
            }
            match &self.panels[id.0].body {
                PanelBody::Stack { .. } => None,
                PanelBody::Tabs { items, active, .. } => {
                    if items.len() > 0 {
                        Some(*active)
                    } else {
                        None
                    }
                },
            }
        } else {
            None
        }
    }

    /// The nested stack of the tab container `id`, if it has one.
    pub fn nested_stack(&self, id: PanelId) -> (res: Option<PanelId>)
        ensures
            res == if self@.contains(id) {
                self@.panel(id).nested_stack()
            } else {
                None
            },
    {
        if id.0 < self.panels.len() {
            match &self.panels[id.0].body {
                PanelBody::Stack { .. } => None,
                PanelBody::Tabs { stack, .. } => *stack,
            }
        } else {
            None
        }
    }

    /// The back-reference that the panel `id` holds, if it holds one.
    pub fn back_reference(&self, id: PanelId) -> (res: Option<&WeakDockArea>)
        ensures
            match res {
                Some(weak) => self@.contains(id) && self@.panel(id).dock_area == Some(weak@),
                None => !self@.contains(id) || self@.panel(id).dock_area is None,
            },
    {
        if id.0 < self.panels.len() {
            match &self.panels[id.0].dock_area {
                Some(weak) => Some(weak),
                None => None,
            }
        } else {
            None
        }
    }

    /// Whether the panel `id` is part of the tree: the root, or a panel
    /// that hangs from it parent by parent.
    pub fn is_attached(&self, id: PanelId) -> (res: bool)
        requires
            self.wf(),
        ensures
            res == self@.is_attached(id),
    {
        if id.0 >= self.panels.len() {
            return false;
        }
        let mut current = id;
        while current.0 != 0
            invariant
                self.wf(),
                self@.contains(current),
                self@.is_attached(id) == self@.is_attached(current),
            decreases current.0,
        {
            proof {
                assert(panel_wf(self@.panels, current.0 as int));
            }
            match self.panels[current.0].parent {
                Some(parent) => {
                    current = parent;
                },
                None => {
                    return false;
                },
            }
        }
        true
    }
}

} // verus!
