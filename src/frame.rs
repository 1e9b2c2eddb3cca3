//! The per-frame pass: recompute a tree, then reconcile only the anchors bound to it
//! that a change concerns.
use vstd::prelude::*;
use crate::anchor::{reconcile, reconciled, Reconciled, Transform, VisualAnchor};
use crate::geometry::Rect;
use crate::tree::{bumped, window_rect, window_root, LayoutTree};

verus! {

/// The generations of a tree and of an anchor at a reconciliation.
#[derive(Clone, Copy, Debug, PartialEq, Eq, Structural)]
pub struct Seen {
    pub tree: u64,
    pub anchor: u64,
}

/// What the library writes of a rendered entity, and the generations it last saw.
#[derive(Clone, Copy, Debug, PartialEq, Eq, Structural)]
pub struct EntityState {
    pub transform: Transform,
    pub visible: bool,
    /// Set once the entity's owner has gone; a removed entity is never touched again.
    pub removed: bool,
    /// The tree's and the anchor's generation at the last reconciliation, if any.
    pub seen: Option<Seen>,
}

/// The entity after `r` is applied: hiding keeps the last transform.
pub open spec fn applied(e: EntityState, r: Reconciled) -> EntityState {
    match r {
        Reconciled::Remove => EntityState { removed: true, ..e },
        Reconciled::Hide => EntityState { visible: false, ..e },
        Reconciled::Show(t) => EntityState { transform: t, visible: true, ..e },
    }
}

/// Whether the entity of `a` must be reconciled against a tree at generation `g`: it never
/// was, or the tree or the anchor changed since.
pub open spec fn due(e: EntityState, a: &VisualAnchor, g: u64) -> bool {
    match e.seen {
        None => true,
        Some(s) => s.tree != g || s.anchor != a.generation,
    }
}

/// One entity after a frame of tree `id`.
pub open spec fn stepped(e: EntityState, a: &VisualAnchor, t: &LayoutTree, id: usize) -> EntityState {
    if a.tree != id || e.removed || !due(e, a, t.generation) {
        e
    } else {
        EntityState {
            seen: Some(Seen { tree: t.generation, anchor: a.generation }),
            ..applied(e, reconciled(t, a))
        }
    }
}

impl EntityState {
    /// A new entity: visible, at the origin, unit scale, never reconciled.
    pub fn new() -> (e: EntityState)
        ensures
            e.visible,
            !e.removed,
            e.seen is None,
            e.transform == (Transform { x: 0, y: 0, z: 0, scale_x: crate::geometry::ONE, scale_y: crate::geometry::ONE }),
    {
        EntityState {
            transform: Transform { x: 0, y: 0, z: 0, scale_x: crate::geometry::ONE, scale_y: crate::geometry::ONE },
            visible: true,
            removed: false,
            seen: None,
        }
    }
}

/// Applies what reconciliation asked to an entity.
pub fn apply(e: &mut EntityState, r: Reconciled)
    ensures
        *final(e) == applied(*old(e), r),
{
    match r {
        Reconciled::Remove => {
            e.removed = true;
        },
        Reconciled::Hide => {
            e.visible = false;
        },
        Reconciled::Show(t) => {
            e.transform = t;
            e.visible = true;
        },
    }
}

/// Takes tree `t`'s root rectangle from a window of the given size, centred on the
/// origin.
pub fn tree_pull_window(t: &mut LayoutTree, width: i64, height: i64)
    requires
        old(t).wf(),
    ensures
        final(t).wf(),
        final(t).root_rect == window_rect(width as int, height as int),
        final(t).root_depth == old(t).root_depth,
        final(t).same_nodes_but_root(old(t)),
        final(t).rects@ == old(t).rects@,
        final(t).depth_index@ == old(t).depth_index@,
        final(t).generation == if final(t).root_rect == old(t).root_rect {
            old(t).generation
        } else {
            bumped(old(t).generation)
        },
{
    let r = window_root(width, height);
    t.set_root_rect(r);
}

/// Sets tree `t`'s root rectangle, then resolves every node's rectangle and rank.
pub fn tree_compute(t: &mut LayoutTree, root: Rect)
    requires
        old(t).wf(),
        root.wf(),
    ensures
        final(t).wf(),
        final(t).root_rect == root,
        final(t).root_depth == old(t).root_depth,
        final(t).same_nodes_but_root(old(t)),
        final(t).resolved(),
        final(t).ranked(),
        final(t).generation == if root == old(t).root_rect {
            old(t).generation
        } else {
            bumped(old(t).generation)
        },
{
    t.set_root_rect(root);
    t.recompute();
}

/// Reconciles, against tree `id`, each live entity whose anchor binds to that tree and is
/// due, each exactly once. Every other entity is left as it was. The tree must have been
/// recomputed first.
pub fn element_update(
    t: &LayoutTree,
    id: usize,
    anchors: &Vec<VisualAnchor>,
    entities: &mut Vec<EntityState>,
)
    requires
        t.wf(),
        t.resolved(),
        t.ranked(),
        anchors@.len() == old(entities)@.len(),
        forall|k: int| 0 <= k < anchors@.len() ==> (#[trigger] anchors@[k]).wf(),
    ensures
        final(entities)@.len() == old(entities)@.len(),
        forall|k: int|
            0 <= k < anchors@.len() ==> #[trigger] final(entities)@[k] == stepped(
                old(entities)@[k],
                &anchors@[k],
                t,
                id,
            ),
{
    let n = entities.len();
    let mut k: usize = 0;
    while k < n
        invariant
            t.wf(),
            n == entities@.len(),
            n == anchors@.len(),
            0 <= k <= n,
            forall|m: int| 0 <= m < anchors@.len() ==> (#[trigger] anchors@[m]).wf(),
            forall|m: int| 0 <= m < k ==> #[trigger] entities@[m] == stepped(
                old(entities)@[m],
                &anchors@[m],
                t,
                id,
            ),
            forall|m: int| k <= m < n ==> #[trigger] entities@[m] == old(entities)@[m],
        decreases n - k,
    {
        let a = &anchors[k];
        let e = entities[k];
        let is_due = match e.seen {
            None => true,
            Some(s) => s.tree != t.generation || s.anchor != a.generation,
        };
        if a.tree == id && !e.removed && is_due {
            let r = reconcile(t, a);
            let mut ne = e;
            apply(&mut ne, r);
            ne.seen = Some(Seen { tree: t.generation, anchor: a.generation });
            entities.set(k, ne);
        }
        k = k + 1;
    }
}

} // verus!
