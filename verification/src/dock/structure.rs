//! Proofs that the operations on a dock area keep its structure.

use super::model::{
    child_position, distinct_children, has_child, panel_wf, unlink, without_child, Axis,
    DockModel, PanelBodyModel, PanelId, PanelKind, StackChild, TabItemModel,
};
use vstd::prelude::*;

verus! {

/// A dock area that holds only its root stack keeps the structure.
pub proof fn lemma_empty_wf(id: Seq<char>, axis: Axis)
    ensures
        DockModel::empty(id, axis).wf(),
{
}

/// Adding a panel to a stack keeps the structure. The new panel is the
/// last child of the stack, behind those that were there.
pub proof fn lemma_add_panel_wf(
    m: DockModel,
    kind: PanelKind,
    target: PanelId,
    size: Option<u32>,
    dock_area: Seq<char>,
)
    requires
        m.wf(),
        m.is_stack(target),
        m.panels.len() + DockModel::created_by(kind) <= usize::MAX,
    ensures
        m.add_panel(kind, target, size, dock_area).wf(),
        m.add_panel(kind, target, size, dock_area).panels.len() == m.panels.len()
            + DockModel::created_by(kind),
        m.add_panel(kind, target, size, dock_area).panel(target).children() == m.panel(
            target,
        ).children().push(StackChild { panel: m.next_id(), size }),
        m.add_panel(kind, target, size, dock_area).panel(m.next_id()).parent == Some(target),
{
    let after = m.add_panel(kind, target, size, dock_area);
    let old_children = m.panel(target).children();
    let new_children = after.panel(target).children();
    assert(has_child(new_children, m.next_id())) by {
        assert(new_children[old_children.len() as int].panel == m.next_id());
    }
    assert forall|i: int| 0 <= i < after.panels.len() implies #[trigger] panel_wf(
        after.panels,
        i,
    ) by {
        if i < m.panels.len() {
            assert(panel_wf(m.panels, i));
            if m.panels[i].parent == Some(target) {
                let k = child_position(old_children, PanelId(i as usize));
                assert(new_children[k].panel == PanelId(i as usize));
            }
        }
    }
}

/// What is left of the children of a stack when one of them is taken out:
/// the others, each once and in their order.
pub proof fn lemma_without_child(children: Seq<StackChild>, child: PanelId)
    requires
        distinct_children(children),
        has_child(children, child),
    ensures
        0 <= child_position(children, child) < children.len(),
        children[child_position(children, child)].panel == child,
        without_child(children, child).len() == children.len() - 1,
        distinct_children(without_child(children, child)),
        !has_child(without_child(children, child), child),
        forall|k: int|
            0 <= k < without_child(children, child).len() ==> #[trigger] without_child(
                children,
                child,
            )[k] == children[if k < child_position(children, child) {
                k
            } else {
                k + 1
            }],
        forall|other: PanelId|
            other != child && has_child(children, other) ==> #[trigger] has_child(
                without_child(children, child),
                other,
            ),
{
    let pos = child_position(children, child);
    let rest = without_child(children, child);
    assert forall|other: PanelId| other != child && has_child(children, other) implies #[trigger] has_child(
        rest,
        other,
    ) by {
        let j = child_position(children, other);
        let k = if j < pos {
            j
        } else {
            j - 1
        };
        assert(rest[k] == children[j]);
    }
}

/// The position of a child is where it stands.
pub proof fn lemma_child_position(children: Seq<StackChild>, child: PanelId, at: int)
    requires
        distinct_children(children),
        0 <= at < children.len(),
        children[at].panel == child,
    ensures
        has_child(children, child),
        child_position(children, child) == at,
{
}

/// Detaching one panel from its parent keeps the structure.
pub proof fn lemma_unlink_wf(m: DockModel, child: PanelId, parent: PanelId)
    requires
        m.wf(),
        m.contains(child),
        m.panel(child).parent == Some(parent),
    ensures
        parent.0 < child.0,
        m.panel(parent).lists(child),
        (DockModel { panels: unlink(m.panels, child, parent), ..m }).wf(),
        unlink(m.panels, child, parent).len() == m.panels.len(),
{
    let after = unlink(m.panels, child, parent);
    assert(panel_wf(m.panels, child.0 as int));
    assert(panel_wf(m.panels, parent.0 as int));
    match m.panel(parent).body {
        PanelBodyModel::Stack { children, .. } => {
            lemma_without_child(children, child);
        },
        PanelBodyModel::Tabs { .. } => {},
    }
    assert forall|i: int| 0 <= i < after.len() implies #[trigger] panel_wf(after, i) by {
        assert(panel_wf(m.panels, i));
    }
}

/// Removing a panel keeps the structure, whatever collapses with it.
pub proof fn lemma_detach_wf(m: DockModel, id: PanelId)
    requires
        m.wf(),
    ensures
        m.remove_panel(id).wf(),
        m.remove_panel(id).panels.len() == m.panels.len(),
    decreases id.0,
{
    if id.0 < m.panels.len() {
        match m.panels[id.0 as int].parent {
            Some(parent) => {
                lemma_unlink_wf(m, id, parent);
                let next = DockModel { panels: unlink(m.panels, id, parent), ..m };
                if parent.0 < id.0 && next.panels[parent.0 as int].is_collapsed() {
                    lemma_detach_wf(next, parent);
                }
            },
            None => {},
        }
    }
}

/// Adding an item to a tab container keeps the structure and the active
/// index: the first item inserted is the active one until another is chosen.
pub proof fn lemma_add_tab_wf(m: DockModel, tabs: PanelId, item: TabItemModel)
    requires
        m.wf(),
        m.is_tabs(tabs),
    ensures
        m.add_tab(tabs, item).wf(),
        m.add_tab(tabs, item).panel(tabs).items() == m.panel(tabs).items().push(item),
        m.add_tab(tabs, item).panel(tabs).active() == m.panel(tabs).active(),
        m.panel(tabs).items().len() == 0 ==> m.add_tab(tabs, item).panel(tabs).active() == 0,
{
    let after = m.add_tab(tabs, item);
    assert(panel_wf(m.panels, tabs.0 as int));
    assert forall|i: int| 0 <= i < after.panels.len() implies #[trigger] panel_wf(
        after.panels,
        i,
    ) by {
        lemma_same_links(m, after, tabs, i);
    }
}

/// Switching a tab container to one of its items keeps the structure.
pub proof fn lemma_set_active_wf(m: DockModel, tabs: PanelId, index: int)
    requires
        m.wf(),
        m.is_tabs(tabs),
        0 <= index < m.panel(tabs).items().len(),
    ensures
        m.set_active(tabs, index).wf(),
        m.set_active(tabs, index).panel(tabs).active() == index,
        m.set_active(tabs, index).panel(tabs).items() == m.panel(tabs).items(),
{
    let after = m.set_active(tabs, index);
    assert forall|i: int| 0 <= i < after.panels.len() implies #[trigger] panel_wf(
        after.panels,
        i,
    ) by {
        lemma_same_links(m, after, tabs, i);
    }
}

/// Moving an item from one tab container to another keeps the structure.
pub proof fn lemma_move_tab_wf(m: DockModel, from: PanelId, index: int, to: PanelId)
    requires
        m.wf(),
        m.can_move_tab(from, index, to),
    ensures
        m.move_tab(from, index, to).wf(),
        m.move_tab(from, index, to).panel(from).items() == m.panel(from).items().remove(index),
        m.move_tab(from, index, to).panel(to).items() == m.panel(to).items().push(
            m.panel(from).items()[index],
        ),
        m.move_tab(from, index, to).panel(to).active() == m.panel(to).active(),
{
    let after = m.move_tab(from, index, to);
    let taken = DockModel {
        panels: m.panels.update(from.0 as int, m.panel(from).without_item(index)),
        ..m
    };
    assert(panel_wf(m.panels, from.0 as int));
    assert(panel_wf(m.panels, to.0 as int));
    assert forall|i: int| 0 <= i < taken.panels.len() implies #[trigger] panel_wf(
        taken.panels,
        i,
    ) by {
        lemma_same_links(m, taken, from, i);
    }
    assert forall|i: int| 0 <= i < after.panels.len() implies #[trigger] panel_wf(
        after.panels,
        i,
    ) by {
        lemma_same_links(taken, after, to, i);
    }
}

/// A change to the items or the active index of one tab container leaves
/// every link between panels as it was.
proof fn lemma_same_links(m: DockModel, after: DockModel, tabs: PanelId, i: int)
    requires
        m.wf(),
        m.is_tabs(tabs),
        0 <= i < m.panels.len(),
        after.panels.len() == m.panels.len(),
        forall|j: int| 0 <= j < m.panels.len() && j != tabs.0 ==> after.panels[j] == m.panels[j],
        after.panel(tabs).parent == m.panel(tabs).parent,
        after.panel(tabs).is_tabs(),
        after.panel(tabs).nested_stack() == m.panel(tabs).nested_stack(),
        0 <= after.panel(tabs).active(),
        after.panel(tabs).active() < after.panel(tabs).items().len() || (after.panel(
            tabs,
        ).active() == 0 && after.panel(tabs).items().len() == 0),
    ensures
        panel_wf(after.panels, i),
{
    assert(panel_wf(m.panels, i));
}

} // verus!
