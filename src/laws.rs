//! Properties that relate the library's functions, proved over their models.
use vstd::prelude::*;
use crate::anchor::{placed, reconciled, Reconciled, SizeMode, VisualAnchor};
use crate::frame::{applied, stepped, EntityState};
use crate::geometry::Rect;
use crate::tree::{lemma_depth_bounded, DepthRule, LayoutTree, LEVEL_DEPTH_STEP};

verus! {

/// Two resolved trees with the same root rectangle, the same parent links and the same
/// rules hold the same rectangles: recomputation is a function of those alone.
pub proof fn lemma_recompute_deterministic(t1: &LayoutTree, t2: &LayoutTree)
    requires
        t1.wf(),
        t2.wf(),
        t1.resolved(),
        t2.resolved(),
        t1.root_rect == t2.root_rect,
        t1.parents@ == t2.parents@,
        t1.rules@ == t2.rules@,
    ensures
        t1.rects@ == t2.rects@,
{
    let n = t1.len();
    assert forall|i: int| 0 <= i < n implies t1.rects[i] == t2.rects[i] by {
        lemma_rects_agree_upto(t1, t2, i);
    }
    assert(t1.rects@ =~= t2.rects@);
}

proof fn lemma_rects_agree_upto(t1: &LayoutTree, t2: &LayoutTree, i: int)
    requires
        t1.wf(),
        t2.wf(),
        t1.resolved(),
        t2.resolved(),
        t1.root_rect == t2.root_rect,
        t1.parents@ == t2.parents@,
        t1.rules@ == t2.rules@,
        0 <= i < t1.len(),
    ensures
        t1.rects[i] == t2.rects[i],
    decreases i,
{
    if i > 0 {
        assert(t1.parents[i] == t2.parents[i]);
        assert(t1.rules[i] == t2.rules[i]);
        lemma_rects_agree_upto(t1, t2, t1.parents[i] as int);
    }
}

/// The node reached from `i` by `k` steps up the parent links.
pub open spec fn ancestor(t: &LayoutTree, i: int, k: nat) -> int
    decreases k,
{
    if k == 0 {
        i
    } else {
        ancestor(t, t.parents[i] as int, (k - 1) as nat)
    }
}

proof fn lemma_ancestor_range(t: &LayoutTree, i: int, k: nat)
    requires
        t.wf(),
        0 <= i < t.len(),
    ensures
        0 <= ancestor(t, i, k) <= i,
        k >= i ==> ancestor(t, i, k) == 0,
    decreases k,
{
    if k > 0 {
        if i == 0 {
            lemma_ancestor_range(t, 0, (k - 1) as nat);
        } else {
            lemma_ancestor_range(t, t.parents[i] as int, (k - 1) as nat);
        }
    }
}

/// A node is effectively visible exactly when it and every one of its ancestors has
/// its visibility flag set.
pub proof fn lemma_visibility_is_and_over_ancestors(t: &LayoutTree, i: int)
    requires
        t.wf(),
        0 <= i < t.len(),
    ensures
        t.effective_visible(i) <==> forall|k: nat| #[trigger] t.visible[ancestor(t, i, k)],
    decreases i,
{
    if i == 0 {
        assert forall|k: nat| #[trigger] t.visible[ancestor(t, 0, k)] == t.visible[0] by {
            lemma_ancestor_range(t, 0, k);
        }
        assert(ancestor(t, 0, 0) == 0);
    } else {
        let p = t.parents[i] as int;
        lemma_visibility_is_and_over_ancestors(t, p);
        assert(ancestor(t, i, 0) == i);
        if t.effective_visible(i) {
            assert forall|k: nat| #[trigger] t.visible[ancestor(t, i, k)] by {
                if k > 0 {
                    assert(ancestor(t, i, k) == ancestor(t, p, (k - 1) as nat));
                    assert(t.visible[ancestor(t, p, (k - 1) as nat)]);
                }
            }
        }
        if forall|k: nat| #[trigger] t.visible[ancestor(t, i, k)] {
            assert(t.visible[ancestor(t, i, 0)]);
            assert forall|k: nat| #[trigger] t.visible[ancestor(t, p, k)] by {
                assert(ancestor(t, i, k + 1) == ancestor(t, p, k));
                assert(t.visible[ancestor(t, i, k + 1)]);
            }
        }
    }
}

/// A node whose depth rule is `Fixed(v)` sits at depth `v`, whatever its ancestors'
/// depths: two trees that give the node the same fixed rule give it the same depth.
pub proof fn lemma_fixed_depth_ignores_ancestors(t1: &LayoutTree, t2: &LayoutTree, i: int, v: i64)
    requires
        t1.wf(),
        t2.wf(),
        0 <= i < t1.len(),
        0 <= i < t2.len(),
        t1.depth_rules[i] == DepthRule::Fixed(v),
        t2.depth_rules[i] == DepthRule::Fixed(v),
    ensures
        t1.depth(i) == v,
        t1.depth(i) == t2.depth(i),
{
}

/// A node whose depth rule is `Add(v)` sits at `v`, plus its rank among its siblings
/// times the level step, plus its parent's depth.
pub proof fn lemma_add_depth_accumulates(t: &LayoutTree, i: int, v: i64)
    requires
        t.wf(),
        0 <= i < t.len(),
        t.depth_rules[i] == DepthRule::Add(v),
    ensures
        t.depth(i) == v + t.depth_index[i] * LEVEL_DEPTH_STEP + t.depth(t.parents[i] as int),
{
}

/// Applying the same reconciliation twice leaves the entity as applying it once does.
pub proof fn lemma_reconcile_idempotent(t: &LayoutTree, a: &VisualAnchor, e: EntityState)
    ensures
        applied(applied(e, reconciled(t, a)), reconciled(t, a)) == applied(e, reconciled(t, a)),
{
}

/// A second frame with no change in between leaves every entity as the first left it.
pub proof fn lemma_frame_idempotent(e: EntityState, a: &VisualAnchor, t: &LayoutTree, id: usize)
    ensures
        stepped(stepped(e, a, t, id), a, t, id) == stepped(e, a, t, id),
{
}

/// The fit-smaller-axis mode scales both axes alike.
pub proof fn lemma_fit_is_uniform(rect: Rect, depth: int, root_depth: int, a: &VisualAnchor)
    requires
        a.size_mode == SizeMode::FitSmaller,
    ensures
        placed(rect, depth, root_depth, a).scale_x == placed(rect, depth, root_depth, a).scale_y,
{
}

proof fn lemma_find_child_in_range(t: &LayoutTree, parent: int, name: Seq<u8>, j: int)
    requires
        t.wf(),
    ensures
        t.find_child_from(parent, name, j) matches Some(c) ==> 1 <= c < t.len(),
    decreases t.len() - j,
{
    if 1 <= j < t.len() {
        lemma_find_child_in_range(t, parent, name, j + 1);
    }
}

proof fn lemma_follow_in_range(t: &LayoutTree, node: int, segs: Seq<Seq<u8>>)
    requires
        t.wf(),
        0 <= node < t.len(),
    ensures
        t.follow(node, segs) matches Some(c) ==> 0 <= c < t.len(),
    decreases segs.len(),
{
    if segs.len() > 0 {
        lemma_find_child_in_range(t, node, segs[0], 1);
        if let Some(c) = t.find_child(node, segs[0]) {
            lemma_follow_in_range(t, c, segs.drop_first());
        }
    }
}

/// An anchor whose owner is shown and has the depth rule `Fixed(v)` is placed at depth
/// `v` plus its own offset plus the tree's root depth, whatever the owner's rank and its
/// ancestors' depths.
pub proof fn lemma_fixed_owner_depth(t: &LayoutTree, a: &VisualAnchor, n: int, v: i64)
    requires
        t.wf(),
        a.wf(),
        t.resolve(a.owner_path@) == Some(n),
        t.effective_visible(n),
        t.depth_rules[n] == DepthRule::Fixed(v),
    ensures
        reconciled(t, a) is Show,
        reconciled(t, a)->Show_0.z == v + a.depth_offset + t.root_depth,
{
    lemma_follow_in_range(t, 0, crate::tree::split_path(a.owner_path@));
}

/// An anchor whose owner is shown and has the depth rule `Add(v)` is placed at depth `v`,
/// plus the owner's rank among its siblings times the level step, plus the parent's depth,
/// plus its own offset and the tree's root depth.
pub proof fn lemma_add_owner_depth(t: &LayoutTree, a: &VisualAnchor, n: int, v: i64)
    requires
        t.wf(),
        a.wf(),
        t.resolve(a.owner_path@) == Some(n),
        t.effective_visible(n),
        t.depth_rules[n] == DepthRule::Add(v),
    ensures
        reconciled(t, a) is Show,
        reconciled(t, a)->Show_0.z == v + t.depth_index[n] * LEVEL_DEPTH_STEP + t.depth(
            t.parents[n] as int,
        ) + a.depth_offset + t.root_depth,
{
    lemma_follow_in_range(t, 0, crate::tree::split_path(a.owner_path@));
    lemma_depth_bounded(t, n);
}

} // verus!
