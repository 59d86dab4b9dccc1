//! What holds of the removal of panels, whatever the dock area.

use super::model::{panel_wf, unlink, DockModel, PanelBodyModel, PanelId, PanelModel};
use super::structure::{lemma_unlink_wf, lemma_without_child};
use vstd::prelude::*;

verus! {

/// Removing a panel that has a parent detaches it and takes it out of what
/// its parent holds; the parent is detached too exactly if that left it a
/// stack that holds nothing and has a parent. Panels created after the
/// removed one are not touched, and no panel comes or goes.
pub proof fn lemma_remove_detaches(m: DockModel, id: PanelId, parent: PanelId)
    requires
        m.wf(),
        m.contains(id),
        m.panel(id).parent == Some(parent),
    ensures
        m.remove_panel(id).id == m.id,
        m.remove_panel(id).panels.len() == m.panels.len(),
        m.remove_panel(id).panel(id) == (PanelModel { parent: None, ..m.panel(id) }),
        !m.remove_panel(id).is_attached(id),
        m.remove_panel(id).panel(parent).body == m.panel(parent).without(id).body,
        !m.remove_panel(id).panel(parent).lists(id),
        m.remove_panel(id).panel(parent).parent == if (PanelModel {
            body: m.panel(parent).without(id).body,
            ..m.panel(parent)
        }).is_collapsed() {
            None
        } else {
            m.panel(parent).parent
        },
        forall|i: int|
            id.0 < i < m.panels.len() ==> #[trigger] m.remove_panel(id).panels[i] == m.panels[i],
    decreases id.0,
{
    lemma_unlink_wf(m, id, parent);
    let next = DockModel { panels: unlink(m.panels, id, parent), ..m };
    assert(panel_wf(m.panels, parent.0 as int));
    match m.panel(parent).body {
        PanelBodyModel::Stack { children, .. } => {
            lemma_without_child(children, id);
        },
        PanelBodyModel::Tabs { .. } => {},
    }
    if next.panel(parent).is_collapsed() {
        let above = next.panel(parent).parent->0;
        lemma_remove_detaches(next, parent, above);
    }
}

/// Removing the last child of a nested stack cascades: the stack that it
/// leaves empty is itself detached, and its own parent holds it no more.
pub proof fn lemma_remove_last_child_cascades(m: DockModel, id: PanelId, stack: PanelId)
    requires
        m.wf(),
        m.contains(id),
        m.panel(id).parent == Some(stack),
        m.panel(stack).is_stack(),
        m.panel(stack).children().len() == 1,
        m.panel(stack).parent is Some,
    ensures
        m.remove_panel(id).panel(id).parent is None,
        m.remove_panel(id).panel(stack).parent is None,
        m.remove_panel(id).panel(stack).children().len() == 0,
        !m.remove_panel(id).panel(m.panel(stack).parent->0).lists(stack),
        !m.remove_panel(id).is_attached(stack),
{
    let above = m.panel(stack).parent->0;
    lemma_unlink_wf(m, id, stack);
    let next = DockModel { panels: unlink(m.panels, id, stack), ..m };
    lemma_without_child(m.panel(stack).children(), id);
    lemma_remove_detaches(m, id, stack);
    lemma_remove_detaches(next, stack, above);
}

/// Removal leaves no stack behind that it emptied: a stack that has a
/// parent and holds nothing afterwards held nothing before.
pub proof fn lemma_remove_leaves_no_emptied_stack(m: DockModel, id: PanelId)
    requires
        m.wf(),
    ensures
        forall|s: PanelId|
            m.contains(s) && (#[trigger] m.remove_panel(id).panel(s)).is_collapsed()
                ==> m.panel(s).is_collapsed(),
    decreases id.0,
{
    if id.0 < m.panels.len() {
        match m.panels[id.0 as int].parent {
            Some(parent) => {
                lemma_unlink_wf(m, id, parent);
                let next = DockModel { panels: unlink(m.panels, id, parent), ..m };
                if next.panel(parent).is_collapsed() {
                    let above = next.panel(parent).parent->0;
                    lemma_remove_leaves_no_emptied_stack(next, parent);
                    lemma_remove_detaches(next, parent, above);
                }
            },
            None => {},
        }
    }
}

/// Removal touches the removed panel and panels above it, and no other:
/// every panel that is neither is afterwards what it was.
pub proof fn lemma_remove_touches_ancestors_only(m: DockModel, id: PanelId)
    requires
        m.wf(),
    ensures
        forall|i: int|
            0 <= i < m.panels.len() && i != id.0 && !m.is_ancestor(PanelId(i as usize), id)
                ==> #[trigger] m.remove_panel(id).panels[i] == m.panels[i],
    decreases id.0,
{
    if id.0 < m.panels.len() {
        match m.panels[id.0 as int].parent {
            Some(parent) => {
                lemma_unlink_wf(m, id, parent);
                let next = DockModel { panels: unlink(m.panels, id, parent), ..m };
                if next.panel(parent).is_collapsed() {
                    lemma_remove_touches_ancestors_only(next, parent);
                    assert(m.remove_panel(id).panels == next.remove_panel(parent).panels);
                    assert forall|i: int|
                        0 <= i < m.panels.len() && i != id.0 && !m.is_ancestor(
                            PanelId(i as usize),
                            id,
                        ) implies #[trigger] m.remove_panel(id).panels[i] == m.panels[i] by {
                        lemma_ancestor_links(m, next, PanelId(i as usize), parent);
                    }
                }
            },
            None => {},
        }
    }
}

/// Whether one panel is above another depends on the parents of the
/// panels between them alone.
proof fn lemma_ancestor_links(m: DockModel, other: DockModel, above: PanelId, id: PanelId)
    requires
        m.panels.len() == other.panels.len(),
        m.contains(id),
        forall|i: int|
            0 <= i <= id.0 && i < m.panels.len() && (i == id.0 || m.is_ancestor(
                PanelId(i as usize),
                id,
            )) ==> (#[trigger] other.panels[i]).parent == m.panels[i].parent,
    ensures
        other.is_ancestor(above, id) == m.is_ancestor(above, id),
    decreases id.0,
{
    match m.panel(id).parent {
        Some(p) => {
            if p.0 < id.0 && p != above {
                lemma_ancestor_links(m, other, above, p);
            }
        },
        None => {},
    }
}

} // verus!
