//! How a stack divides the space along its axis among its children: a
//! child with a fixed extent gets it, and the others share equally what
//! the fixed extents leave.

use super::area::DockArea;
use super::model::{DockModel, PanelId, PanelKind, StackChild};
use super::structure::lemma_add_panel_wf;
use vstd::prelude::*;

verus! {

/// The extent that a child claims as fixed: its size, or nothing.
pub open spec fn fixed_part(child: StackChild) -> int {
    match child.size {
        Some(size) => size as int,
        None => 0,
    }
}

/// The sum of the fixed extents among `children`.
pub open spec fn fixed_total(children: Seq<StackChild>) -> int
    decreases children.len(),
{
    if children.len() == 0 {
        0
    } else {
        fixed_total(children.drop_last()) + fixed_part(children.last())
    }
}

/// The number of children without a fixed extent.
pub open spec fn flex_count(children: Seq<StackChild>) -> int
    decreases children.len(),
{
    if children.len() == 0 {
        0
    } else {
        flex_count(children.drop_last()) + if children.last().size is None {
            1int
        } else {
            0int
        }
    }
}

/// The extent of each child without a fixed extent, when `available` is
/// there to divide: an equal part, rounded down, of what the fixed extents
/// leave; nothing if they leave nothing.
pub open spec fn flex_share(children: Seq<StackChild>, available: int) -> int {
    let rest = available - fixed_total(children);
    if flex_count(children) <= 0 || rest <= 0 {
        0
    } else {
        rest / flex_count(children)
    }
}

/// The extent of the child at `k`.
pub open spec fn extent(children: Seq<StackChild>, k: int, available: int) -> int {
    match children[k].size {
        Some(size) => size as int,
        None => flex_share(children, available),
    }
}

/// The sum of the extents of the first `n` children.
pub open spec fn extent_sum(children: Seq<StackChild>, n: int, available: int) -> int
    decreases n,
{
    if n <= 0 {
        0
    } else {
        extent_sum(children, n - 1, available) + extent(children, n - 1, available)
    }
}

proof fn lemma_counts_bounded(children: Seq<StackChild>)
    ensures
        0 <= flex_count(children) <= children.len(),
        0 <= fixed_total(children) <= children.len() * u32::MAX,
    decreases children.len(),
{
    if children.len() > 0 {
        lemma_counts_bounded(children.drop_last());
    }
}

proof fn lemma_counts_push(children: Seq<StackChild>, child: StackChild)
    ensures
        fixed_total(children.push(child)) == fixed_total(children) + fixed_part(child),
        flex_count(children.push(child)) == flex_count(children) + if child.size is None {
            1int
        } else {
            0int
        },
{
    assert(children.push(child).drop_last() =~= children);
}

/// Children that all lack a fixed extent get equal parts of the whole.
pub proof fn lemma_equal_shares(children: Seq<StackChild>, available: int)
    requires
        children.len() > 0,
        available >= 0,
        forall|k: int| 0 <= k < children.len() ==> (#[trigger] children[k]).size is None,
    ensures
        fixed_total(children) == 0,
        flex_count(children) == children.len(),
        forall|k: int|
            0 <= k < children.len() ==> #[trigger] extent(children, k, available) == available
                / (children.len() as int),
{
    lemma_all_flexible(children);
}

proof fn lemma_all_flexible(children: Seq<StackChild>)
    requires
        forall|k: int| 0 <= k < children.len() ==> (#[trigger] children[k]).size is None,
    ensures
        fixed_total(children) == 0,
        flex_count(children) == children.len(),
    decreases children.len(),
{
    if children.len() > 0 {
        lemma_all_flexible(children.drop_last());
    }
}

/// A further child with a fixed extent gets that extent, and the children
/// without one share only what is left after it.
pub proof fn lemma_fixed_child_takes_from_the_rest(
    children: Seq<StackChild>,
    panel: PanelId,
    size: u32,
    available: int,
)
    ensures
        extent(
            children.push(StackChild { panel, size: Some(size) }),
            children.len() as int,
            available,
        ) == size,
        flex_count(children.push(StackChild { panel, size: Some(size) })) == flex_count(children),
        flex_share(children.push(StackChild { panel, size: Some(size) }), available) == flex_share(
            children,
            available - size,
        ),
        forall|k: int|
            0 <= k < children.len() ==> #[trigger] extent(
                children.push(StackChild { panel, size: Some(size) }),
                k,
                available,
            ) == extent(children, k, available - size),
{
    lemma_counts_push(children, StackChild { panel, size: Some(size) });
}

/// A further child without a fixed extent makes one more to share with.
pub proof fn lemma_flexible_child_shares(
    children: Seq<StackChild>,
    panel: PanelId,
    available: int,
)
    ensures
        fixed_total(children.push(StackChild { panel, size: None })) == fixed_total(children),
        flex_count(children.push(StackChild { panel, size: None })) == flex_count(children) + 1,
        extent(
            children.push(StackChild { panel, size: None }),
            children.len() as int,
            available,
        ) == flex_share(children.push(StackChild { panel, size: None }), available),
{
    lemma_counts_push(children, StackChild { panel, size: None });
}

/// Adding a panel without a fixed extent to a stack whose children all
/// lack one leaves every child, the new one among them, with the same
/// share: what is available divided by their number.
pub proof fn lemma_added_panels_share_equally(
    m: DockModel,
    kind: PanelKind,
    target: PanelId,
    dock_area: Seq<char>,
    available: int,
)
    requires
        m.wf(),
        m.is_stack(target),
        m.panels.len() + DockModel::created_by(kind) <= usize::MAX,
        forall|k: int|
            0 <= k < m.panel(target).children().len() ==> (#[trigger] m.panel(
                target,
            ).children()[k]).size is None,
        available >= 0,
    ensures
        m.add_panel(kind, target, None, dock_area).panel(target).children().len() == m.panel(
            target,
        ).children().len() + 1,
        forall|k: int|
            0 <= k <= m.panel(target).children().len() ==> #[trigger] extent(
                m.add_panel(kind, target, None, dock_area).panel(target).children(),
                k,
                available,
            ) == available / ((m.panel(target).children().len() + 1) as int),
{
    lemma_add_panel_wf(m, kind, target, None, dock_area);
    lemma_equal_shares(
        m.add_panel(kind, target, None, dock_area).panel(target).children(),
        available,
    );
}

/// Adding a panel with a fixed extent to a stack gives it that extent and
/// leaves the children that were there to divide what is available less
/// that extent.
pub proof fn lemma_added_fixed_panel_takes_from_the_rest(
    m: DockModel,
    kind: PanelKind,
    target: PanelId,
    size: u32,
    dock_area: Seq<char>,
    available: int,
)
    requires
        m.wf(),
        m.is_stack(target),
        m.panels.len() + DockModel::created_by(kind) <= usize::MAX,
    ensures
        extent(
            m.add_panel(kind, target, Some(size), dock_area).panel(target).children(),
            m.panel(target).children().len() as int,
            available,
        ) == size,
        forall|k: int|
            0 <= k < m.panel(target).children().len() ==> #[trigger] extent(
                m.add_panel(kind, target, Some(size), dock_area).panel(target).children(),
                k,
                available,
            ) == extent(m.panel(target).children(), k, available - size),
{
    lemma_add_panel_wf(m, kind, target, Some(size), dock_area);
    lemma_fixed_child_takes_from_the_rest(
        m.panel(target).children(),
        m.next_id(),
        size,
        available,
    );
}

proof fn lemma_extent_sum(children: Seq<StackChild>, n: int, available: int)
    requires
        0 <= n <= children.len(),
    ensures
        extent_sum(children, n, available) == fixed_total(children.take(n)) + flex_count(
            children.take(n),
        ) * flex_share(children, available),
    decreases n,
{
    if n > 0 {
        lemma_extent_sum(children, n - 1, available);
        assert(children.take(n).drop_last() =~= children.take(n - 1));
        let share = flex_share(children, available);
        let count = flex_count(children.take(n - 1));
        assert((count + 1) * share == count * share + share) by (nonlinear_arith);
    }
}

/// Where the fixed extents fit into what is available, all the children
/// together take no more than that.
pub proof fn lemma_extents_fit(children: Seq<StackChild>, available: int)
    requires
        fixed_total(children) <= available,
    ensures
        extent_sum(children, children.len() as int, available) <= available,
        extent_sum(children, children.len() as int, available) == fixed_total(children)
            + flex_count(children) * flex_share(children, available),
{
    lemma_extent_sum(children, children.len() as int, available);
    assert(children.take(children.len() as int) =~= children);
    lemma_counts_bounded(children);
    let count = flex_count(children);
    let rest = available - fixed_total(children);
    let share = flex_share(children, available);
    if count <= 0 || rest <= 0 {
        assert(count * share == 0) by (nonlinear_arith)
            requires
                share == 0,
        ;
    } else {
        assert(count * (rest / count) <= rest) by (nonlinear_arith)
            requires
                count > 0,
                rest > 0,
        ;
    }
}

impl DockArea {
    /// The extent of each child of the stack `stack`, in their order, when
    /// `available` is there to divide along the stack's axis. Empty if
    /// `stack` names no stack.
    pub fn child_extents(&self, stack: PanelId, available: u32) -> (res: Vec<u32>)
        ensures
            res@.len() == if self@.contains(stack) {
                self@.panel(stack).children().len()
            } else {
                0
            },
            forall|k: int|
                0 <= k < res@.len() ==> #[trigger] res@[k] == extent(
                    self@.panel(stack).children(),
                    k,
                    available as int,
                ),
    {
        let children = self.children(stack);
        let mut fixed: u128 = 0;
        let mut flexible: usize = 0;
        let mut k: usize = 0;
        while k < children.len()
            invariant
                k <= children.len(),
                fixed == fixed_total(children@.take(k as int)),
                flexible == flex_count(children@.take(k as int)),
                fixed <= k * u32::MAX,
                flexible <= k,
            decreases children.len() - k,
        {
            proof {
                assert(children@.take(k + 1).drop_last() =~= children@.take(k as int));
                assert(k * u32::MAX <= usize::MAX * u32::MAX) by (nonlinear_arith)
                    requires
                        k <= usize::MAX,
                ;
            }
            match children[k].size {
                Some(size) => {
                    fixed = fixed + size as u128;
                },
                None => {
                    flexible = flexible + 1;
                },
            }
            k = k + 1;
        }
        assert(children@.take(k as int) =~= children@);
        let share: u32 = if flexible == 0 || fixed >= available as u128 {
            0
        } else {
            ((available as u128 - fixed) / flexible as u128) as u32
        };
        assert(share == flex_share(children@, available as int)) by {
            if !(flexible == 0 || fixed >= available as u128) {
                let rest = available as int - fixed as int;
                let count = flexible as int;
                assert(0 <= rest / count <= rest) by (nonlinear_arith)
                    requires
                        rest > 0,
                        count > 0,
                ;
            }
        }
        let mut res: Vec<u32> = Vec::new();
        let mut k: usize = 0;
        while k < children.len()
            invariant
                k <= children.len(),
                res@.len() == k,
                share == flex_share(children@, available as int),
                forall|j: int|
                    0 <= j < k ==> #[trigger] res@[j] == extent(children@, j, available as int),
            decreases children.len() - k,
        {
            let size = match children[k].size {
                Some(size) => size,
                None => share,
            };
            res.push(size);
            k = k + 1;
        }
        res
    }
}

} // verus!
