//! The layout tree: an arena of named nodes addressed by slash-separated paths.
//!
//! Node 0 is the root. Every other node names a parent with a smaller index, so the
//! index order visits each parent before its children. A node that has been removed
//! stays in the arena but is detached: no path reaches it or anything below it.
use vstd::prelude::*;
use crate::geometry::{clamp_len, place, resolve_rect, PositionRule, Rect, MAX_FRAC, MAX_LEN, MAX_POS};

verus! {

/// Largest number of nodes a tree holds, the root included.
pub const MAX_NODES: usize = 65536;

/// Largest absolute value of a depth rule's own value.
pub const MAX_DEPTH_VALUE: i64 = 1073741824;

/// Largest absolute value of a tree's root depth.
pub const MAX_ROOT_DEPTH: i64 = 1152921504606846976;

/// The stacking depth that separates one sibling from the next.
pub const LEVEL_DEPTH_STEP: i64 = 10;

/// How a node's stacking depth relates to its ancestors' depth.
#[derive(Clone, Copy, Debug, PartialEq, Eq, Structural)]
pub enum DepthRule {
    /// Own value, plus the sibling offset, plus the parent's depth.
    Add(i64),
    /// Own value alone, whatever the ancestors' depth.
    Fixed(i64),
}

/// Why a path does not name a node.
#[derive(Clone, Copy, Debug, PartialEq, Eq, Structural)]
pub enum LookupError {
    NotFound,
}

/// Why a node could not be inserted.
#[derive(Clone, Copy, Debug, PartialEq, Eq, Structural)]
pub enum InsertError {
    /// The parent path names no node.
    ParentNotFound,
    /// The name is empty or holds a `/`.
    InvalidName,
    /// The parent already has a child of that name.
    DuplicateName,
    /// A value of the positioning or depth rule lies outside its range.
    RuleOutOfRange,
    /// The tree holds `MAX_NODES` nodes and no free slot can take the new one.
    Full,
}

/// Why a node's positioning rule could not be replaced.
#[derive(Clone, Copy, Debug, PartialEq, Eq, Structural)]
pub enum RuleError {
    /// The path names no node, or names the root, whose rectangle is the root rectangle
    /// and whose depth is 0.
    NotFound,
    /// A value of the rule lies outside its range.
    RuleOutOfRange,
}

/// What a lookup reports of a node.
#[derive(Clone, Copy, Debug, PartialEq, Eq, Structural)]
pub struct NodeView {
    pub index: usize,
    /// Whether the node and all its ancestors are visible.
    pub visible: bool,
    pub rect: Rect,
    /// The node's absolute stacking depth.
    pub depth: i64,
}

/// A tree of layout nodes, stored as parallel vectors indexed by node.
pub struct LayoutTree {
    pub root_rect: Rect,
    /// The depth added to every anchor placed against this tree, so that trees can be
    /// layered.
    pub root_depth: i64,
    pub names: Vec<Vec<u8>>,
    pub parents: Vec<usize>,
    pub attached: Vec<bool>,
    pub rules: Vec<PositionRule>,
    pub depth_rules: Vec<DepthRule>,
    pub visible: Vec<bool>,
    /// Written by `recompute`: each node's rectangle.
    pub rects: Vec<Rect>,
    /// Written by `recompute`: each node's rank among its attached siblings.
    pub depth_index: Vec<u64>,
    /// Bumped by every change of the root rectangle or of the nodes.
    pub generation: u64,
}

pub open spec fn depth_rule_ok(r: DepthRule) -> bool {
    match r {
        DepthRule::Add(v) => -MAX_DEPTH_VALUE <= v <= MAX_DEPTH_VALUE,
        DepthRule::Fixed(v) => -MAX_DEPTH_VALUE <= v <= MAX_DEPTH_VALUE,
    }
}

/// A node name: not empty, and without a `/`.
pub open spec fn name_ok(name: Seq<u8>) -> bool {
    name.len() > 0 && forall|k: int| 0 <= k < name.len() ==> name[k] != 47u8
}

/// The segments of a non-empty path read from `start`, the current segment having been
/// scanned up to `i`.
pub open spec fn split_from(p: Seq<u8>, start: int, i: int) -> Seq<Seq<u8>>
    decreases p.len() - i,
{
    if i >= p.len() {
        seq![p.subrange(start, p.len() as int)]
    } else if p[i] == 47u8 {
        seq![p.subrange(start, i)].add(split_from(p, i + 1, i + 1))
    } else {
        split_from(p, start, i + 1)
    }
}

/// The segments of a path: none for the empty path, else the pieces between slashes.
pub open spec fn split_path(p: Seq<u8>) -> Seq<Seq<u8>> {
    if p.len() == 0 {
        seq![]
    } else {
        split_from(p, 0, 0)
    }
}

/// The number of attached nodes in `[1, j)` whose parent is `parent`.
pub open spec fn siblings_before(parents: Seq<usize>, attached: Seq<bool>, parent: int, j: int) -> int
    decreases j,
{
    if j <= 1 {
        0
    } else {
        siblings_before(parents, attached, parent, j - 1) + if attached[j - 1] && parents[j - 1]
            == parent {
            1int
        } else {
            0int
        }
    }
}

impl LayoutTree {
    pub open spec fn len(&self) -> int {
        self.names.len() as int
    }

    /// The arena's shape and every rule are in order.
    pub open spec fn wf(&self) -> bool {
        let n = self.names.len();
        &&& 1 <= n <= MAX_NODES
        &&& self.parents.len() == n && self.attached.len() == n && self.rules.len() == n
        &&& self.depth_rules.len() == n && self.visible.len() == n && self.rects.len() == n
        &&& self.depth_index.len() == n
        &&& self.root_rect.wf()
        &&& -MAX_ROOT_DEPTH <= self.root_depth <= MAX_ROOT_DEPTH
        &&& self.parents[0] == 0
        &&& self.depth_rules[0] == DepthRule::Add(0)
        &&& self.depth_index[0] == 0
        &&& forall|i: int| 1 <= i < n ==> #[trigger] self.parents[i] < i
        &&& forall|i: int| 0 <= i < n ==> (#[trigger] self.rules[i]).wf()
        &&& forall|i: int| 0 <= i < n ==> depth_rule_ok(#[trigger] self.depth_rules[i])
        &&& forall|i: int| 0 <= i < n ==> (#[trigger] self.rects[i]).wf()
        &&& forall|i: int| 0 <= i < n ==> #[trigger] self.depth_index[i] < MAX_NODES
    }

    /// The first attached node at or after `j` whose parent is `parent` and whose name is
    /// `name`.
    pub open spec fn find_child_from(&self, parent: int, name: Seq<u8>, j: int) -> Option<int>
        decreases self.len() - j,
    {
        if j >= self.len() || j < 1 {
            None
        } else if self.attached[j] && self.parents[j] == parent && self.names[j]@ == name {
            Some(j)
        } else {
            self.find_child_from(parent, name, j + 1)
        }
    }

    /// The attached child of `parent` named `name`.
    pub open spec fn find_child(&self, parent: int, name: Seq<u8>) -> Option<int> {
        self.find_child_from(parent, name, 1)
    }

    /// The node reached from `node` by following `segs`, one child per segment.
    pub open spec fn follow(&self, node: int, segs: Seq<Seq<u8>>) -> Option<int>
        decreases segs.len(),
    {
        if segs.len() == 0 {
            Some(node)
        } else {
            match self.find_child(node, segs[0]) {
                Some(c) => self.follow(c, segs.drop_first()),
                None => None,
            }
        }
    }

    /// The node that the path `p` names: the root for the empty path.
    pub open spec fn resolve(&self, p: Seq<u8>) -> Option<int> {
        self.follow(0, split_path(p))
    }

    /// The node is visible, and so is each of its ancestors.
    pub open spec fn effective_visible(&self, i: int) -> bool
        decreases i,
    {
        if i <= 0 {
            self.visible[0]
        } else if self.parents[i] < i {
            self.visible[i] && self.effective_visible(self.parents[i] as int)
        } else {
            self.visible[i]
        }
    }

    /// The node's absolute stacking depth: 0 at the root; `Fixed(v)` gives `v`; `Add(v)`
    /// gives `v`, plus the sibling offset, plus the parent's depth.
    pub open spec fn depth(&self, i: int) -> int
        decreases i,
    {
        if i <= 0 {
            0
        } else {
            match self.depth_rules[i] {
                DepthRule::Fixed(v) => v as int,
                DepthRule::Add(v) => v + self.depth_index[i] * LEVEL_DEPTH_STEP + (
                if self.parents[i] < i {
                    self.depth(self.parents[i] as int)
                } else {
                    0
                }),
            }
        }
    }

    /// Every rectangle follows from the root rectangle and the rules.
    pub open spec fn resolved(&self) -> bool {
        &&& self.rects[0] == self.root_rect
        &&& forall|i: int|
            1 <= i < self.len() ==> #[trigger] self.rects[i] == resolve_rect(
                self.rules[i],
                self.rects[self.parents[i] as int],
            )
    }

    /// Every attached node's depth index is its rank among its attached siblings.
    pub open spec fn ranked(&self) -> bool {
        forall|i: int|
            1 <= i < self.len() && #[trigger] self.attached[i] ==> self.depth_index[i]
                == siblings_before(self.parents@, self.attached@, self.parents[i] as int, i)
    }
}


/// Counters saturate at the largest `u64`.
pub open spec fn bumped(g: u64) -> u64 {
    if g == u64::MAX {
        g
    } else {
        (g + 1) as u64
    }
}

pub(crate) fn bump(g: u64) -> (r: u64)
    ensures
        r == bumped(g),
{
    if g == u64::MAX {
        g
    } else {
        g + 1
    }
}

/// Whether `p[start..end]` spells `name`.
fn segment_eq(p: &[u8], start: usize, end: usize, name: &Vec<u8>) -> (r: bool)
    requires
        start <= end <= p@.len(),
    ensures
        r == (p@.subrange(start as int, end as int) == name@),
{
    if end - start != name.len() {
        proof {
            assert(p@.subrange(start as int, end as int).len() != name@.len());
        }
        return false;
    }
    let mut k: usize = 0;
    while k < name.len()
        invariant
            start <= end <= p@.len(),
            end - start == name@.len(),
            0 <= k <= name@.len(),
            forall|m: int| 0 <= m < k ==> p@[start + m] == name@[m],
        decreases name@.len() - k,
    {
        if p[start + k] != name[k] {
            proof {
                assert(p@.subrange(start as int, end as int)[k as int] != name@[k as int]);
            }
            return false;
        }
        k = k + 1;
    }
    proof {
        assert(p@.subrange(start as int, end as int) =~= name@);
    }
    true
}

/// Copies a byte slice into a vector.
pub(crate) fn bytes_to_vec(b: &[u8]) -> (r: Vec<u8>)
    ensures
        r@ == b@,
{
    let mut r: Vec<u8> = Vec::new();
    let mut k: usize = 0;
    while k < b.len()
        invariant
            0 <= k <= b@.len(),
            r@ == b@.subrange(0, k as int),
        decreases b@.len() - k,
    {
        r.push(b[k]);
        k = k + 1;
        proof {
            assert(r@ =~= b@.subrange(0, k as int));
        }
    }
    proof {
        assert(r@ =~= b@);
    }
    r
}

fn check_name(name: &[u8]) -> (r: bool)
    ensures
        r == name_ok(name@),
{
    if name.len() == 0 {
        return false;
    }
    let mut k: usize = 0;
    while k < name.len()
        invariant
            0 <= k <= name@.len(),
            forall|m: int| 0 <= m < k ==> name@[m] != 47u8,
        decreases name@.len() - k,
    {
        if name[k] == 47u8 {
            return false;
        }
        k = k + 1;
    }
    true
}

fn check_depth_rule(r: &DepthRule) -> (b: bool)
    ensures
        b == depth_rule_ok(*r),
{
    match *r {
        DepthRule::Add(v) => -MAX_DEPTH_VALUE <= v && v <= MAX_DEPTH_VALUE,
        DepthRule::Fixed(v) => -MAX_DEPTH_VALUE <= v && v <= MAX_DEPTH_VALUE,
    }
}

/// Whether every value of `rule` lies in the range of its kind.
pub fn check_rule(rule: &PositionRule) -> (b: bool)
    ensures
        b == rule.wf(),
{
    match *rule {
        PositionRule::Relative { x, y, width, height } => -MAX_FRAC <= x && x <= MAX_FRAC
            && -MAX_FRAC <= y && y <= MAX_FRAC && -MAX_FRAC <= width && width <= MAX_FRAC
            && -MAX_FRAC <= height && height <= MAX_FRAC,
        PositionRule::Absolute { x, y, width, height } => -MAX_POS <= x && x <= MAX_POS
            && -MAX_POS <= y && y <= MAX_POS && -MAX_LEN <= width && width <= MAX_LEN && -MAX_LEN <= height
            && height <= MAX_LEN,
        PositionRule::Centered { width, height } => -MAX_FRAC <= width && width <= MAX_FRAC
            && -MAX_FRAC <= height && height <= MAX_FRAC,
    }
}

/// The bound on the size of a stacking depth per node on the way to the root.
pub open spec fn depth_bound() -> int {
    MAX_DEPTH_VALUE + MAX_NODES * LEVEL_DEPTH_STEP
}

/// The bound on the size of any node's stacking depth.
pub open spec fn max_depth() -> int {
    (MAX_NODES as int) * depth_bound()
}

/// A node's depth is bounded by its index: each step up the parent links adds at most
/// `depth_bound()`.
pub proof fn lemma_depth_bounded(t: &LayoutTree, i: int)
    requires
        t.wf(),
        0 <= i < t.len(),
    ensures
        -max_depth() <= t.depth(i) <= max_depth(),
        -(i + 1) * depth_bound() <= t.depth(i) <= (i + 1) * depth_bound(),
    decreases i,
{
    assert(max_depth() == 70411693850624);
    assert((i + 1) * depth_bound() <= max_depth()) by (nonlinear_arith)
        requires i + 1 <= MAX_NODES, depth_bound() > 0;
    assert(-(i + 1) * depth_bound() == -((i + 1) * depth_bound())) by (nonlinear_arith);
    assert((i + 1) * depth_bound() >= depth_bound()) by (nonlinear_arith)
        requires i >= 0, depth_bound() > 0;
    if i > 0 {
        let p = t.parents[i] as int;
        lemma_depth_bounded(t, p);
        let di = t.depth_index[i] as int;
        assert((p + 1) * depth_bound() <= i * depth_bound()) by (nonlinear_arith)
            requires p + 1 <= i, depth_bound() > 0;
        assert(-(p + 1) * depth_bound() == -((p + 1) * depth_bound())) by (nonlinear_arith);
        assert(-(i + 1) * depth_bound() == -(i * depth_bound()) - depth_bound()) by (nonlinear_arith);
        assert((i + 1) * depth_bound() == i * depth_bound() + depth_bound()) by (nonlinear_arith);
        assert(0 <= di * LEVEL_DEPTH_STEP <= MAX_NODES * LEVEL_DEPTH_STEP) by (nonlinear_arith)
            requires 0 <= di < MAX_NODES;
    }
}

impl LayoutTree {
    /// A tree holding the root alone, visible, over `root_rect`.
    pub fn new(root_rect: Rect) -> (t: LayoutTree)
        requires
            root_rect.wf(),
        ensures
            t.wf(),
            t.len() == 1,
            t.root_rect == root_rect,
            t.root_depth == 0,
            t.visible[0],
            t.resolved(),
            t.generation == 0,
    {
        let mut names: Vec<Vec<u8>> = Vec::new();
        names.push(Vec::new());
        let mut parents: Vec<usize> = Vec::new();
        parents.push(0);
        let mut attached: Vec<bool> = Vec::new();
        attached.push(true);
        let mut rules: Vec<PositionRule> = Vec::new();
        rules.push(PositionRule::Absolute { x: 0, y: 0, width: 0, height: 0 });
        let mut depth_rules: Vec<DepthRule> = Vec::new();
        depth_rules.push(DepthRule::Add(0));
        let mut visible: Vec<bool> = Vec::new();
        visible.push(true);
        let mut rects: Vec<Rect> = Vec::new();
        rects.push(root_rect);
        let mut depth_index: Vec<u64> = Vec::new();
        depth_index.push(0);
        LayoutTree {
            root_rect,
            root_depth: 0,
            names,
            parents,
            attached,
            rules,
            depth_rules,
            visible,
            rects,
            depth_index,
            generation: 0,
        }
    }

    /// The first attached child of `parent` named `p[start..end]`.
    fn child_named(&self, parent: usize, p: &[u8], start: usize, end: usize) -> (r: Option<usize>)
        requires
            self.wf(),
            start <= end <= p@.len(),
        ensures
            match r {
                Some(c) => self.find_child(parent as int, p@.subrange(start as int, end as int))
                    == Some(c as int) && 1 <= c < self.len(),
                None => self.find_child(parent as int, p@.subrange(start as int, end as int))
                    is None,
            },
    {
        let ghost name = p@.subrange(start as int, end as int);
        let mut j: usize = 1;
        while j < self.names.len()
            invariant
                self.wf(),
                1 <= j <= self.len(),
                start <= end <= p@.len(),
                name == p@.subrange(start as int, end as int),
                self.find_child(parent as int, name) == self.find_child_from(
                    parent as int,
                    name,
                    j as int,
                ),
            decreases self.len() - j,
        {
            if self.attached[j] && self.parents[j] == parent && segment_eq(
                p,
                start,
                end,
                &self.names[j],
            ) {
                return Some(j);
            }
            j = j + 1;
        }
        None
    }

    /// The node that `path` names, the root for the empty path.
    pub fn lookup(&self, path: &[u8]) -> (r: Option<usize>)
        requires
            self.wf(),
        ensures
            match r {
                Some(i) => self.resolve(path@) == Some(i as int) && i < self.len(),
                None => self.resolve(path@) is None,
            },
    {
        if path.len() == 0 {
            return Some(0);
        }
        let mut cur: usize = 0;
        let mut start: usize = 0;
        let mut i: usize = 0;
        while i < path.len()
            invariant
                self.wf(),
                path@.len() > 0,
                0 <= start <= i <= path@.len(),
                cur < self.len(),
                self.resolve(path@) == self.follow(cur as int, split_from(path@, start as int, i as int)),
            decreases path@.len() - i,
        {
            if path[i] == 47u8 {
                let ghost seg = path@.subrange(start as int, i as int);
                let ghost rest = split_from(path@, i + 1, i + 1);
                proof {
                    assert((seq![seg] + rest)[0] == seg);
                    assert((seq![seg] + rest).drop_first() =~= rest);
                }
                match self.child_named(cur, path, start, i) {
                    Some(c) => {
                        cur = c;
                        start = i + 1;
                        i = i + 1;
                    },
                    None => {
                        return None;
                    },
                }
            } else {
                i = i + 1;
            }
        }
        let ghost seg = path@.subrange(start as int, path@.len() as int);
        proof {
            assert(split_from(path@, start as int, path@.len() as int) == seq![seg]);
            assert(seq![seg].drop_first() =~= Seq::<Seq<u8>>::empty());
            assert(seq![seg][0] == seg);
        }
        let r = self.child_named(cur, path, start, path.len());
        proof {
            if let Some(c) = r {
                assert(self.follow(c as int, Seq::<Seq<u8>>::empty()) == Some(c as int));
            }
        }
        r
    }

    /// Whether node `i` and all its ancestors are visible.
    pub fn is_visible(&self, i: usize) -> (r: bool)
        requires
            self.wf(),
            i < self.len(),
        ensures
            r == self.effective_visible(i as int),
        decreases i,
    {
        if i == 0 {
            self.visible[0]
        } else {
            self.visible[i] && self.is_visible(self.parents[i])
        }
    }

    /// Node `i`'s absolute stacking depth.
    pub fn depth_of(&self, i: usize) -> (r: i64)
        requires
            self.wf(),
            i < self.len(),
        ensures
            r == self.depth(i as int),
            -max_depth() <= r <= max_depth(),
        decreases i,
    {
        proof {
            lemma_depth_bounded(self, i as int);
        }
        if i == 0 {
            0
        } else {
            match self.depth_rules[i] {
                DepthRule::Fixed(v) => v,
                DepthRule::Add(v) => {
                    let p = self.parents[i];
                    let pd = self.depth_of(p);
                    let di = self.depth_index[i];
                    proof {
                        assert(0 <= di * LEVEL_DEPTH_STEP <= MAX_NODES * LEVEL_DEPTH_STEP) by (nonlinear_arith)
                            requires di < MAX_NODES;
                    }
                    v + (di as i64) * LEVEL_DEPTH_STEP + pd
                },
            }
        }
    }

    /// What a lookup of `path` reports: the node's effective visibility, rectangle and
    /// depth, or `NotFound` when a segment names no node.
    pub fn fetch(&self, path: &[u8]) -> (r: Result<NodeView, LookupError>)
        requires
            self.wf(),
        ensures
            match self.resolve(path@) {
                None => r == Err::<NodeView, LookupError>(LookupError::NotFound),
                Some(i) => r is Ok && 0 <= i < self.len() && r->Ok_0.index == i
                    && r->Ok_0.visible == self.effective_visible(i) && r->Ok_0.rect
                    == self.rects[i] && r->Ok_0.depth == self.depth(i) && -max_depth()
                    <= r->Ok_0.depth <= max_depth(),
            },
    {
        match self.lookup(path) {
            None => Err(LookupError::NotFound),
            Some(i) => {
                let d = self.depth_of(i);
                Ok(
                NodeView {
                    index: i,
                    visible: self.is_visible(i),
                    rect: self.rects[i],
                    depth: d,
                },
            )
            },
        }
    }

    /// The arena's vectors other than `rects` and `depth_index` are those of `o`.
    pub open spec fn same_nodes(&self, o: &LayoutTree) -> bool {
        &&& self.root_rect == o.root_rect
        &&& self.root_depth == o.root_depth
        &&& self.names@ == o.names@
        &&& self.parents@ == o.parents@
        &&& self.attached@ == o.attached@
        &&& self.rules@ == o.rules@
        &&& self.depth_rules@ == o.depth_rules@
        &&& self.visible@ == o.visible@
    }

    /// Resolves every node's rectangle from the root rectangle and the rules, parent
    /// before child, and ranks every attached node among its siblings.
    pub fn recompute(&mut self)
        requires
            old(self).wf(),
        ensures
            final(self).wf(),
            final(self).same_nodes(old(self)),
            final(self).generation == old(self).generation,
            final(self).resolved(),
            final(self).ranked(),
    {
        let n = self.names.len();
        let root = self.root_rect;
        self.rects.set(0, root);
        let mut i: usize = 1;
        while i < n
            invariant
                self.wf(),
                self.same_nodes(old(self)),
                self.generation == old(self).generation,
                n == self.len(),
                1 <= i <= n,
                self.rects[0] == self.root_rect,
                forall|k: int|
                    1 <= k < i ==> #[trigger] self.rects[k] == resolve_rect(
                        self.rules[k],
                        self.rects[self.parents[k] as int],
                    ),
            decreases n - i,
        {
            let p = self.parents[i];
            let r = place(&self.rules[i], &self.rects[p]);
            self.rects.set(i, r);
            i = i + 1;
        }
        let mut counts: Vec<u64> = Vec::new();
        let mut k: usize = 0;
        while k < n
            invariant
                0 <= k <= n,
                counts@.len() == k,
                forall|m: int| 0 <= m < k ==> counts@[m] == 0,
            decreases n - k,
        {
            counts.push(0);
            k = k + 1;
        }
        let mut j: usize = 1;
        while j < n
            invariant
                self.wf(),
                self.same_nodes(old(self)),
                self.generation == old(self).generation,
                self.resolved(),
                n == self.len(),
                1 <= j <= n,
                counts@.len() == n,
                forall|m: int|
                    0 <= m < n ==> #[trigger] counts@[m] == siblings_before(self.parents@, self.attached@, m, j as int),
                forall|m: int| 0 <= m < n ==> #[trigger] counts@[m] < j,
                forall|m: int|
                    1 <= m < j && #[trigger] self.attached[m] ==> self.depth_index[m]
                        == siblings_before(self.parents@, self.attached@, self.parents[m] as int, m),
            decreases n - j,
        {
            let ghost prev = *self;
            if self.attached[j] {
                let p = self.parents[j];
                let c = counts[p];
                self.depth_index.set(j, c);
                counts.set(p, c + 1);
            }
            proof {
                assert forall|m: int| 0 <= m < n implies #[trigger] counts@[m]
                    == siblings_before(self.parents@, self.attached@, m, j + 1) by {
                    assert(siblings_before(self.parents@, self.attached@, m, j + 1) == siblings_before(self.parents@, self.attached@, m, j as int) + if self.attached[j as int]
                        && self.parents[j as int] == m {
                        1int
                    } else {
                        0int
                    });
                }
                assert forall|m: int|
                    1 <= m < j + 1 && #[trigger] self.attached[m] implies self.depth_index[m]
                        == siblings_before(self.parents@, self.attached@, self.parents[m] as int, m) by {
                    if m < j {
                        assert(self.depth_index[m] == prev.depth_index[m]);
                    }
                }
                assert forall|m: int| 0 <= m < n implies (#[trigger] self.depth_index[m]) < MAX_NODES by {
                    if m != j {
                        assert(self.depth_index[m] == prev.depth_index[m]);
                    }
                }
            }
            j = j + 1;
        }
    }

    /// Replaces the root rectangle.
    pub fn set_root_rect(&mut self, r: Rect)
        requires
            old(self).wf(),
            r.wf(),
        ensures
            final(self).wf(),
            final(self).root_rect == r,
            final(self).root_depth == old(self).root_depth,
            final(self).names@ == old(self).names@,
            final(self).parents@ == old(self).parents@,
            final(self).attached@ == old(self).attached@,
            final(self).rules@ == old(self).rules@,
            final(self).depth_rules@ == old(self).depth_rules@,
            final(self).visible@ == old(self).visible@,
            final(self).rects@ == old(self).rects@,
            final(self).depth_index@ == old(self).depth_index@,
            final(self).generation == if r == old(self).root_rect {
                old(self).generation
            } else {
                bumped(old(self).generation)
            },
    {
        if r != self.root_rect {
            self.root_rect = r;
            self.generation = bump(self.generation);
        }
    }

    /// No field has changed.
    pub open spec fn unchanged(&self, o: &LayoutTree) -> bool {
        &&& self.same_nodes(o)
        &&& self.rects@ == o.rects@
        &&& self.depth_index@ == o.depth_index@
        &&& self.generation == o.generation
    }

    /// `self` is `o` with one more node, attached and visible, at the end of the arena.
    pub open spec fn added(
        &self,
        o: &LayoutTree,
        parent: int,
        name: Seq<u8>,
        rule: PositionRule,
        depth_rule: DepthRule,
    ) -> bool {
        &&& self.len() == o.len() + 1
        &&& self.root_rect == o.root_rect
        &&& self.root_depth == o.root_depth
        &&& self.names[o.len()]@ == name
        &&& forall|k: int| 0 <= k < o.len() ==> #[trigger] self.names[k] == o.names[k]
        &&& self.parents@ == o.parents@.push(parent as usize)
        &&& self.attached@ == o.attached@.push(true)
        &&& self.rules@ == o.rules@.push(rule)
        &&& self.depth_rules@ == o.depth_rules@.push(depth_rule)
        &&& self.visible@ == o.visible@.push(true)
        &&& self.rects@ == o.rects@.push(Rect { x: 0, y: 0, width: 0, height: 0 })
        &&& self.depth_index@ == o.depth_index@.push(0)
        &&& self.generation == bumped(o.generation)
    }

    /// Whether some node names `j` as its parent.
    pub open spec fn has_children(&self, j: int) -> bool {
        exists|k: int| 1 <= k < self.len() && #[trigger] self.parents[k] == j
    }

    /// The first slot at or after `j` that a new child of `parent` can take: detached, after
    /// the parent, and named as parent by no node, so that nothing removed comes back.
    pub open spec fn free_slot_from(&self, parent: int, j: int) -> Option<int>
        decreases self.len() - j,
    {
        if j >= self.len() || j <= parent {
            None
        } else if !self.attached[j] && !self.has_children(j) {
            Some(j)
        } else {
            self.free_slot_from(parent, j + 1)
        }
    }

    /// `self` is `o` with slot `j` taken by a new node, attached and visible.
    pub open spec fn reused(
        &self,
        o: &LayoutTree,
        j: int,
        parent: int,
        name: Seq<u8>,
        rule: PositionRule,
        depth_rule: DepthRule,
    ) -> bool {
        &&& self.len() == o.len()
        &&& self.root_rect == o.root_rect
        &&& self.root_depth == o.root_depth
        &&& self.names[j]@ == name
        &&& forall|k: int| 0 <= k < o.len() && k != j ==> #[trigger] self.names[k] == o.names[k]
        &&& self.parents@ == o.parents@.update(j, parent as usize)
        &&& self.attached@ == o.attached@.update(j, true)
        &&& self.rules@ == o.rules@.update(j, rule)
        &&& self.depth_rules@ == o.depth_rules@.update(j, depth_rule)
        &&& self.visible@ == o.visible@.update(j, true)
        &&& self.rects@ == o.rects@.update(j, Rect { x: 0, y: 0, width: 0, height: 0 })
        &&& self.depth_index@ == o.depth_index@.update(j, 0)
        &&& self.generation == bumped(o.generation)
    }

    fn is_parent(&self, j: usize) -> (r: bool)
        requires
            self.wf(),
        ensures
            r == self.has_children(j as int),
    {
        let mut k: usize = 1;
        while k < self.parents.len()
            invariant
                self.wf(),
                1 <= k <= self.len(),
                forall|m: int| 1 <= m < k ==> self.parents[m] != j,
            decreases self.len() - k,
        {
            if self.parents[k] == j {
                return true;
            }
            k = k + 1;
        }
        false
    }

    fn free_slot(&self, parent: usize) -> (r: Option<usize>)
        requires
            self.wf(),
            parent < self.len(),
        ensures
            match r {
                Some(j) => self.free_slot_from(parent as int, parent + 1) == Some(j as int)
                    && parent < j < self.len(),
                None => self.free_slot_from(parent as int, parent + 1) is None,
            },
    {
        let mut j: usize = parent + 1;
        while j < self.names.len()
            invariant
                self.wf(),
                parent < j <= self.len(),
                self.free_slot_from(parent as int, parent + 1) == self.free_slot_from(
                    parent as int,
                    j as int,
                ),
            decreases self.len() - j,
        {
            if !self.attached[j] && !self.is_parent(j) {
                return Some(j);
            }
            j = j + 1;
        }
        None
    }

    /// Adds a node named `name` under the node that `parent_path` names. Its rectangle is
    /// valid after the next `recompute`. It takes a new slot at the end of the arena; once
    /// the arena holds `MAX_NODES` slots, the first free slot after the parent.
    pub fn insert(
        &mut self,
        parent_path: &[u8],
        name: &[u8],
        rule: PositionRule,
        depth_rule: DepthRule,
    ) -> (r: Result<usize, InsertError>)
        requires
            old(self).wf(),
        ensures
            final(self).wf(),
            r is Err ==> final(self).unchanged(old(self)),
            match old(self).resolve(parent_path@) {
                None => r == Err::<usize, InsertError>(InsertError::ParentNotFound),
                Some(p) => if !name_ok(name@) {
                    r == Err::<usize, InsertError>(InsertError::InvalidName)
                } else if !(rule.wf() && depth_rule_ok(depth_rule)) {
                    r == Err::<usize, InsertError>(InsertError::RuleOutOfRange)
                } else if old(self).find_child(p, name@) is Some {
                    r == Err::<usize, InsertError>(InsertError::DuplicateName)
                } else if old(self).len() == MAX_NODES {
                    match old(self).free_slot_from(p, p + 1) {
                        None => r == Err::<usize, InsertError>(InsertError::Full),
                        Some(j) => r == Ok::<usize, InsertError>(j as usize)
                            && final(self).reused(old(self), j, p, name@, rule, depth_rule),
                    }
                } else {
                    r == Ok::<usize, InsertError>(old(self).len() as usize) && final(self).added(
                        old(self),
                        p,
                        name@,
                        rule,
                        depth_rule,
                    )
                },
            },
    {
        let p = match self.lookup(parent_path) {
            None => {
                return Err(InsertError::ParentNotFound);
            },
            Some(p) => p,
        };
        if !check_name(name) {
            return Err(InsertError::InvalidName);
        }
        if !(check_rule(&rule) && check_depth_rule(&depth_rule)) {
            return Err(InsertError::RuleOutOfRange);
        }
        proof {
            assert(name@.subrange(0, name@.len() as int) =~= name@);
        }
        if self.child_named(p, name, 0, name.len()).is_some() {
            return Err(InsertError::DuplicateName);
        }
        if self.names.len() == MAX_NODES {
            let j = match self.free_slot(p) {
                None => {
                    return Err(InsertError::Full);
                },
                Some(j) => j,
            };
            let ghost o = *self;
            self.names.set(j, bytes_to_vec(name));
            self.parents.set(j, p);
            self.attached.set(j, true);
            self.rules.set(j, rule);
            self.depth_rules.set(j, depth_rule);
            self.visible.set(j, true);
            self.rects.set(j, Rect { x: 0, y: 0, width: 0, height: 0 });
            self.depth_index.set(j, 0);
            self.generation = bump(self.generation);
            proof {
                assert forall|k: int| 0 <= k < o.len() && k != j implies #[trigger] self.names[k]
                    == o.names[k] by {
                    assert(self.names@[k] == o.names@[k]);
                }
                assert forall|k: int| 1 <= k < self.len() implies #[trigger] self.parents[k] < k by {
                    if k != j {
                        assert(self.parents[k] == o.parents[k]);
                    }
                }
                assert forall|k: int| 0 <= k < self.len() implies (#[trigger] self.rules[k]).wf() by {
                    if k != j {
                        assert(self.rules[k] == o.rules[k]);
                    }
                }
                assert forall|k: int| 0 <= k < self.len() implies depth_rule_ok(
                    #[trigger] self.depth_rules[k],
                ) by {
                    if k != j {
                        assert(self.depth_rules[k] == o.depth_rules[k]);
                    }
                }
                assert forall|k: int| 0 <= k < self.len() implies (#[trigger] self.rects[k]).wf() by {
                    if k != j {
                        assert(self.rects[k] == o.rects[k]);
                    }
                }
                assert forall|k: int| 0 <= k < self.len() implies #[trigger] self.depth_index[k]
                    < MAX_NODES by {
                    if k != j {
                        assert(self.depth_index[k] == o.depth_index[k]);
                    }
                }
            }
            return Ok(j);
        }
        let ghost o = *self;
        let i = self.names.len();
        self.names.push(bytes_to_vec(name));
        self.parents.push(p);
        self.attached.push(true);
        self.rules.push(rule);
        self.depth_rules.push(depth_rule);
        self.visible.push(true);
        self.rects.push(Rect { x: 0, y: 0, width: 0, height: 0 });
        self.depth_index.push(0);
        self.generation = bump(self.generation);
        proof {
            assert forall|k: int| 0 <= k < o.len() implies #[trigger] self.names[k] == o.names[k] by {
                assert(self.names@[k] == o.names@[k]);
            }
            assert(self.parents[i as int] == p);
            assert(self.rules[i as int] == rule);
            assert(self.depth_rules[i as int] == depth_rule);
        }
        Ok(i)
    }

    /// Detaches the node that `path` names, and with it everything below it. The root
    /// cannot be removed.
    pub fn remove(&mut self, path: &[u8]) -> (r: Result<usize, LookupError>)
        requires
            old(self).wf(),
        ensures
            final(self).wf(),
            match old(self).resolve(path@) {
                Some(i) if i != 0 => {
                    &&& r == Ok::<usize, LookupError>(i as usize)
                    &&& final(self).root_rect == old(self).root_rect
                    &&& final(self).root_depth == old(self).root_depth
                    &&& final(self).names@ == old(self).names@
                    &&& final(self).parents@ == old(self).parents@
                    &&& final(self).attached@ == old(self).attached@.update(i, false)
                    &&& final(self).rules@ == old(self).rules@
                    &&& final(self).depth_rules@ == old(self).depth_rules@
                    &&& final(self).visible@ == old(self).visible@
                    &&& final(self).rects@ == old(self).rects@
                    &&& final(self).depth_index@ == old(self).depth_index@
                    &&& final(self).generation == bumped(old(self).generation)
                },
                _ => r == Err::<usize, LookupError>(LookupError::NotFound)
                    && final(self).unchanged(old(self)),
            },
    {
        match self.lookup(path) {
            Some(i) => {
                if i == 0 {
                    return Err(LookupError::NotFound);
                }
                self.attached.set(i, false);
                self.generation = bump(self.generation);
                Ok(i)
            },
            None => Err(LookupError::NotFound),
        }
    }

    /// Replaces the positioning rule of the node that `path` names. Its rectangle follows
    /// at the next `recompute`.
    pub fn set_rule(&mut self, path: &[u8], rule: PositionRule) -> (r: Result<usize, RuleError>)
        requires
            old(self).wf(),
        ensures
            final(self).wf(),
            match old(self).resolve(path@) {
                Some(i) if i != 0 => if rule.wf() {
                    &&& r == Ok::<usize, RuleError>(i as usize)
                    &&& final(self).root_rect == old(self).root_rect
                    &&& final(self).root_depth == old(self).root_depth
                    &&& final(self).names@ == old(self).names@
                    &&& final(self).parents@ == old(self).parents@
                    &&& final(self).attached@ == old(self).attached@
                    &&& final(self).rules@ == old(self).rules@.update(i, rule)
                    &&& final(self).depth_rules@ == old(self).depth_rules@
                    &&& final(self).visible@ == old(self).visible@
                    &&& final(self).rects@ == old(self).rects@
                    &&& final(self).depth_index@ == old(self).depth_index@
                    &&& final(self).generation == bumped(old(self).generation)
                } else {
                    r == Err::<usize, RuleError>(RuleError::RuleOutOfRange)
                        && final(self).unchanged(old(self))
                },
                _ => r == Err::<usize, RuleError>(RuleError::NotFound)
                    && final(self).unchanged(old(self)),
            },
    {
        match self.lookup(path) {
            Some(i) => {
                if i == 0 {
                    return Err(RuleError::NotFound);
                }
                if !check_rule(&rule) {
                    return Err(RuleError::RuleOutOfRange);
                }
                self.rules.set(i, rule);
                self.generation = bump(self.generation);
                proof {
                    assert forall|k: int| 0 <= k < self.len() implies (#[trigger] self.rules[k]).wf() by {
                        if k != i {
                            assert(self.rules[k] == old(self).rules[k]);
                        }
                    }
                }
                Ok(i)
            },
            None => Err(RuleError::NotFound),
        }
    }

    /// Replaces the depth rule of the node that `path` names. The root stays at depth 0.
    pub fn set_depth_rule(&mut self, path: &[u8], rule: DepthRule) -> (r: Result<usize, RuleError>)
        requires
            old(self).wf(),
        ensures
            final(self).wf(),
            match old(self).resolve(path@) {
                Some(i) if i != 0 => if depth_rule_ok(rule) {
                    &&& r == Ok::<usize, RuleError>(i as usize)
                    &&& final(self).root_rect == old(self).root_rect
                    &&& final(self).root_depth == old(self).root_depth
                    &&& final(self).names@ == old(self).names@
                    &&& final(self).parents@ == old(self).parents@
                    &&& final(self).attached@ == old(self).attached@
                    &&& final(self).rules@ == old(self).rules@
                    &&& final(self).depth_rules@ == old(self).depth_rules@.update(i, rule)
                    &&& final(self).visible@ == old(self).visible@
                    &&& final(self).rects@ == old(self).rects@
                    &&& final(self).depth_index@ == old(self).depth_index@
                    &&& final(self).generation == bumped(old(self).generation)
                } else {
                    r == Err::<usize, RuleError>(RuleError::RuleOutOfRange)
                        && final(self).unchanged(old(self))
                },
                _ => r == Err::<usize, RuleError>(RuleError::NotFound)
                    && final(self).unchanged(old(self)),
            },
    {
        match self.lookup(path) {
            Some(i) => {
                if i == 0 {
                    return Err(RuleError::NotFound);
                }
                if !check_depth_rule(&rule) {
                    return Err(RuleError::RuleOutOfRange);
                }
                self.depth_rules.set(i, rule);
                self.generation = bump(self.generation);
                proof {
                    assert forall|k: int| 0 <= k < self.len() implies depth_rule_ok(
                        #[trigger] self.depth_rules[k],
                    ) by {
                        if k != i {
                            assert(self.depth_rules[k] == old(self).depth_rules[k]);
                        }
                    }
                }
                Ok(i)
            },
            None => Err(RuleError::NotFound),
        }
    }

    /// Sets the visibility flag of the node that `path` names.
    pub fn set_visible(&mut self, path: &[u8], visible: bool) -> (r: Result<usize, LookupError>)
        requires
            old(self).wf(),
        ensures
            final(self).wf(),
            match old(self).resolve(path@) {
                Some(i) => {
                    &&& r == Ok::<usize, LookupError>(i as usize)
                    &&& final(self).root_rect == old(self).root_rect
                    &&& final(self).root_depth == old(self).root_depth
                    &&& final(self).names@ == old(self).names@
                    &&& final(self).parents@ == old(self).parents@
                    &&& final(self).attached@ == old(self).attached@
                    &&& final(self).rules@ == old(self).rules@
                    &&& final(self).depth_rules@ == old(self).depth_rules@
                    &&& final(self).visible@ == old(self).visible@.update(i, visible)
                    &&& final(self).rects@ == old(self).rects@
                    &&& final(self).depth_index@ == old(self).depth_index@
                    &&& final(self).generation == bumped(old(self).generation)
                },
                None => r == Err::<usize, LookupError>(LookupError::NotFound)
                    && final(self).unchanged(old(self)),
            },
    {
        match self.lookup(path) {
            Some(i) => {
                self.visible.set(i, visible);
                self.generation = bump(self.generation);
                Ok(i)
            },
            None => Err(LookupError::NotFound),
        }
    }

    /// Replaces the root depth.
    pub fn set_root_depth(&mut self, z: i64)
        requires
            old(self).wf(),
            -MAX_ROOT_DEPTH <= z <= MAX_ROOT_DEPTH,
        ensures
            final(self).wf(),
            final(self).root_depth == z,
            final(self).root_rect == old(self).root_rect,
            final(self).names@ == old(self).names@,
            final(self).parents@ == old(self).parents@,
            final(self).attached@ == old(self).attached@,
            final(self).rules@ == old(self).rules@,
            final(self).depth_rules@ == old(self).depth_rules@,
            final(self).visible@ == old(self).visible@,
            final(self).rects@ == old(self).rects@,
            final(self).depth_index@ == old(self).depth_index@,
            final(self).generation == if z == old(self).root_depth {
                old(self).generation
            } else {
                bumped(old(self).generation)
            },
    {
        if z != self.root_depth {
            self.root_depth = z;
            self.generation = bump(self.generation);
        }
    }

    /// The vectors of nodes are those of `o`.
    pub open spec fn same_nodes_but_root(&self, o: &LayoutTree) -> bool {
        &&& self.names@ == o.names@
        &&& self.parents@ == o.parents@
        &&& self.attached@ == o.attached@
        &&& self.rules@ == o.rules@
        &&& self.depth_rules@ == o.depth_rules@
        &&& self.visible@ == o.visible@
    }
}

/// The root rectangle of a window: its size saturated into the layout space, its
/// origin half a size below and left of the origin.
pub open spec fn window_rect(width: int, height: int) -> Rect {
    let w = clamp_len(width);
    let h = clamp_len(height);
    Rect { x: (-(w / 2)) as i64, y: (-(h / 2)) as i64, width: w as i64, height: h as i64 }
}

/// The root rectangle of a window of the given size.
pub fn window_root(width: i64, height: i64) -> (r: Rect)
    ensures
        r == window_rect(width as int, height as int),
        r.wf(),
{
    let w: i64 = if width < 0 {
        0
    } else if width > MAX_LEN {
        MAX_LEN
    } else {
        width
    };
    let h: i64 = if height < 0 {
        0
    } else if height > MAX_LEN {
        MAX_LEN
    } else {
        height
    };
    Rect { x: -(w / 2), y: -(h / 2), width: w, height: h }
}

} // verus!
