//! Visual anchors, and the reconciliation of one anchor against its tree.
use vstd::prelude::*;
use crate::geometry::{frac_ok, len_ok, part, Rect, MAX_FRAC, MAX_LEN, ONE};
use crate::tree::{bump, bumped, LayoutTree, MAX_DEPTH_VALUE, MAX_ROOT_DEPTH, max_depth};

verus! {

/// How an anchor's scale follows its owner's rectangle. Fractions are in units of
/// `1 / ONE`.
#[derive(Clone, Copy, Debug, PartialEq, Eq, Structural)]
pub enum SizeMode {
    /// Each axis scales to its own fraction of the rectangle.
    BothAxes { width: i64, height: i64 },
    /// The width scales to a fraction of the rectangle's width; the height keeps the
    /// aspect ratio.
    WidthOnly { width: i64 },
    /// The height scales to a fraction of the rectangle's height; the width keeps the
    /// aspect ratio.
    HeightOnly { height: i64 },
    /// Uniform scale by the axis that fits tighter.
    FitSmaller,
}

/// Binds a rendered entity to a node of a tree, with its placement inside the node.
#[derive(Clone, Debug)]
pub struct VisualAnchor {
    /// Which tree the anchor binds to.
    pub tree: usize,
    /// The path of the owning node in that tree.
    pub owner_path: Vec<u8>,
    /// Position inside the owner's rectangle, as fractions of its size.
    pub relative_x: i64,
    pub relative_y: i64,
    pub size_mode: SizeMode,
    /// The entity's natural size, in layout units.
    pub boundary_width: i64,
    pub boundary_height: i64,
    /// A final uniform factor, as a fraction.
    pub extra_scale: i64,
    /// Added to the owner's stacking depth.
    pub depth_offset: i64,
    /// Bumped by every change of the anchor's fields.
    pub generation: u64,
}

/// Every field of an anchor but its generation, over plain values.
pub struct AnchorModel {
    pub tree: usize,
    pub owner_path: Seq<u8>,
    pub relative_x: i64,
    pub relative_y: i64,
    pub size_mode: SizeMode,
    pub boundary_width: i64,
    pub boundary_height: i64,
    pub extra_scale: i64,
    pub depth_offset: i64,
}

/// A rendered entity's translation and scale; scales are in units of `1 / ONE`.
#[derive(Clone, Copy, Debug, PartialEq, Eq, Structural)]
pub struct Transform {
    pub x: i64,
    pub y: i64,
    pub z: i64,
    pub scale_x: i64,
    pub scale_y: i64,
}

/// What reconciling an anchor asks of its entity.
#[derive(Clone, Copy, Debug, PartialEq, Eq, Structural)]
pub enum Reconciled {
    /// The owner path names no node: the entity goes.
    Remove,
    /// The owner is not effectively visible: the entity is hidden, its transform kept.
    Hide,
    /// The entity is shown with this transform.
    Show(Transform),
}

pub open spec fn size_mode_ok(m: SizeMode) -> bool {
    match m {
        SizeMode::BothAxes { width, height } => frac_ok(width as int) && frac_ok(height as int),
        SizeMode::WidthOnly { width } => frac_ok(width as int),
        SizeMode::HeightOnly { height } => frac_ok(height as int),
        SizeMode::FitSmaller => true,
    }
}

impl VisualAnchor {
    /// Every value lies in its range and the boundary is not empty.
    pub open spec fn wf(&self) -> bool {
        &&& frac_ok(self.relative_x as int)
        &&& frac_ok(self.relative_y as int)
        &&& size_mode_ok(self.size_mode)
        &&& 1 <= self.boundary_width <= MAX_LEN
        &&& 1 <= self.boundary_height <= MAX_LEN
        &&& frac_ok(self.extra_scale as int)
        &&& -MAX_DEPTH_VALUE <= self.depth_offset <= MAX_DEPTH_VALUE
    }
}

/// `n / d` for a positive `d`, rounded toward zero.
pub open spec fn div_toward_zero(n: int, d: int) -> int {
    if n >= 0 {
        n / d
    } else {
        -((-n) / d)
    }
}

/// The scale, in units of `1 / ONE`, that takes `boundary` to the fraction `frac` of
/// `len`, times the fraction `extra`: `(len / boundary) * frac * extra / ONE`, rounded
/// toward zero.
pub open spec fn axis_scale(len: int, boundary: int, frac: int, extra: int) -> int {
    div_toward_zero(len * frac * extra, boundary * ONE)
}

/// The scale, in units of `1 / ONE`, that takes `boundary` to `len`, times the fraction
/// `extra`: `(len / boundary) * extra`, rounded toward zero.
pub open spec fn fit_scale(len: int, boundary: int, extra: int) -> int {
    div_toward_zero(len * extra, boundary)
}

/// The width is the tighter-fitting axis: `w / bw <= h / bh`.
pub open spec fn width_is_tighter(w: int, h: int, bw: int, bh: int) -> bool {
    w * bh <= h * bw
}

/// The scales `(x, y)` that `a` takes in `rect`.
pub open spec fn scales(rect: Rect, a: &VisualAnchor) -> (int, int) {
    let (w, h) = (rect.width as int, rect.height as int);
    let (bw, bh) = (a.boundary_width as int, a.boundary_height as int);
    let e = a.extra_scale as int;
    match a.size_mode {
        SizeMode::BothAxes { width, height } => (
            axis_scale(w, bw, width as int, e),
            axis_scale(h, bh, height as int, e),
        ),
        SizeMode::WidthOnly { width } => {
            let s = axis_scale(w, bw, width as int, e);
            (s, s)
        },
        SizeMode::HeightOnly { height } => {
            let s = axis_scale(h, bh, height as int, e);
            (s, s)
        },
        SizeMode::FitSmaller => {
            let s = if width_is_tighter(w, h, bw, bh) {
                fit_scale(w, bw, e)
            } else {
                fit_scale(h, bh, e)
            };
            (s, s)
        },
    }
}

/// The transform of `a` inside `rect`, for an owner at stacking depth `depth` in a tree
/// at root depth `root_depth`. The anchor point is flipped on the y axis.
pub open spec fn placed(rect: Rect, depth: int, root_depth: int, a: &VisualAnchor) -> Transform {
    Transform {
        x: (rect.x + part(rect.width as int, a.relative_x as int)) as i64,
        y: (-(rect.y + part(rect.height as int, a.relative_y as int))) as i64,
        z: (depth + a.depth_offset + root_depth) as i64,
        scale_x: scales(rect, a).0 as i64,
        scale_y: scales(rect, a).1 as i64,
    }
}

/// What reconciling `a` against `t` asks of its entity.
pub open spec fn reconciled(t: &LayoutTree, a: &VisualAnchor) -> Reconciled {
    match t.resolve(a.owner_path@) {
        None => Reconciled::Remove,
        Some(i) => if !t.effective_visible(i) {
            Reconciled::Hide
        } else {
            Reconciled::Show(placed(t.rects[i], t.depth(i), t.root_depth as int, a))
        },
    }
}

fn exec_div_toward_zero(n: i128, d: i128) -> (r: i128)
    requires
        d >= 1,
        -0x10000000000000000000 <= n <= 0x10000000000000000000,
    ensures
        r == div_toward_zero(n as int, d as int),
        -n <= r <= n || n <= r <= -n,
{
    if n >= 0 {
        proof {
            assert((n as int) / (d as int) <= n) by (nonlinear_arith)
                requires n >= 0, d >= 1;
        }
        n / d
    } else {
        proof {
            assert((-n as int) / (d as int) <= -n) by (nonlinear_arith)
                requires -n >= 0, d >= 1;
        }
        -((-n) / d)
    }
}

fn exec_axis_scale(len: i64, boundary: i64, frac: i64, extra: i64) -> (r: i64)
    requires
        len_ok(len as int),
        1 <= boundary <= MAX_LEN,
        frac_ok(frac as int),
        frac_ok(extra as int),
    ensures
        r == axis_scale(len as int, boundary as int, frac as int, extra as int),
{
    proof {
        assert(-MAX_LEN * MAX_FRAC <= len * frac <= MAX_LEN * MAX_FRAC) by (nonlinear_arith)
            requires len_ok(len as int), frac_ok(frac as int);
        assert(-(MAX_LEN * MAX_FRAC) * MAX_FRAC <= (len * frac) * extra <= (MAX_LEN * MAX_FRAC)
            * MAX_FRAC) by (nonlinear_arith)
            requires -MAX_LEN * MAX_FRAC <= len * frac <= MAX_LEN * MAX_FRAC, frac_ok(extra as int);
        assert(boundary * ONE >= ONE) by (nonlinear_arith) requires boundary >= 1;
        assert(boundary * ONE <= MAX_LEN * ONE) by (nonlinear_arith) requires boundary <= MAX_LEN;
    }
    let n = (len as i128) * (frac as i128) * (extra as i128);
    let d = (boundary as i128) * (ONE as i128);
    let q = exec_div_toward_zero(n, d);
    proof {
        let m: int = if n >= 0 { n as int } else { -n };
        assert(m / (d as int) <= m / (ONE as int)) by (nonlinear_arith)
            requires m >= 0, d >= ONE;
        assert(m / (ONE as int) <= 0x1000000000000000) by (nonlinear_arith)
            requires 0 <= m <= 0x800000000000000000;
    }
    q as i64
}

fn exec_fit_scale(len: i64, boundary: i64, extra: i64) -> (r: i64)
    requires
        len_ok(len as int),
        1 <= boundary <= MAX_LEN,
        frac_ok(extra as int),
    ensures
        r == fit_scale(len as int, boundary as int, extra as int),
{
    proof {
        assert(-MAX_LEN * MAX_FRAC <= len * extra <= MAX_LEN * MAX_FRAC) by (nonlinear_arith)
            requires len_ok(len as int), frac_ok(extra as int);
    }
    let n = (len as i128) * (extra as i128);
    exec_div_toward_zero(n, boundary as i128) as i64
}

/// The transform of `a` inside `rect`, for an owner at stacking depth `depth` in a tree
/// at root depth `root_depth`.
pub fn place_anchor(rect: &Rect, depth: i64, root_depth: i64, a: &VisualAnchor) -> (t: Transform)
    requires
        rect.wf(),
        a.wf(),
        -max_depth() <= depth <= max_depth(),
        -MAX_ROOT_DEPTH <= root_depth <= MAX_ROOT_DEPTH,
    ensures
        t == placed(*rect, depth as int, root_depth as int, a),
{
    proof {
        assert(max_depth() == 70411693850624);
    }
    let dx = crate::geometry::exec_part(rect.width, a.relative_x);
    let dy = crate::geometry::exec_part(rect.height, a.relative_y);
    let x = (rect.x as i128 + dx) as i64;
    let y = (-(rect.y as i128 + dy)) as i64;
    let z = depth + a.depth_offset + root_depth;
    let e = a.extra_scale;
    let (sx, sy) = match a.size_mode {
        SizeMode::BothAxes { width, height } => (
            exec_axis_scale(rect.width, a.boundary_width, width, e),
            exec_axis_scale(rect.height, a.boundary_height, height, e),
        ),
        SizeMode::WidthOnly { width } => {
            let s = exec_axis_scale(rect.width, a.boundary_width, width, e);
            (s, s)
        },
        SizeMode::HeightOnly { height } => {
            let s = exec_axis_scale(rect.height, a.boundary_height, height, e);
            (s, s)
        },
        SizeMode::FitSmaller => {
            proof {
                assert(0 <= rect.width * a.boundary_height <= MAX_LEN * MAX_LEN) by (nonlinear_arith)
                    requires len_ok(rect.width as int), 1 <= a.boundary_height <= MAX_LEN;
                assert(0 <= rect.height * a.boundary_width <= MAX_LEN * MAX_LEN) by (nonlinear_arith)
                    requires len_ok(rect.height as int), 1 <= a.boundary_width <= MAX_LEN;
            }
            let s = if (rect.width as i128) * (a.boundary_height as i128) <= (rect.height as i128)
                * (a.boundary_width as i128) {
                exec_fit_scale(rect.width, a.boundary_width, e)
            } else {
                exec_fit_scale(rect.height, a.boundary_height, e)
            };
            (s, s)
        },
    };
    Transform { x, y, z, scale_x: sx, scale_y: sy }
}

/// What reconciling `a` against `t` asks of its entity: removal when the owner path
/// names no node, hiding when the owner is not effectively visible, else the transform.
pub fn reconcile(t: &LayoutTree, a: &VisualAnchor) -> (r: Reconciled)
    requires
        t.wf(),
        a.wf(),
    ensures
        r == reconciled(t, a),
{
    match t.fetch(a.owner_path.as_slice()) {
        Err(_) => Reconciled::Remove,
        Ok(view) => {
            if !view.visible {
                Reconciled::Hide
            } else {
                Reconciled::Show(place_anchor(&view.rect, view.depth, t.root_depth, a))
            }
        },
    }
}

impl VisualAnchor {
    /// An anchor at generation 0 with the given values, or `None` when one lies outside
    /// its range or the boundary is empty.
    pub fn new(
        tree: usize,
        owner_path: &[u8],
        relative_x: i64,
        relative_y: i64,
        size_mode: SizeMode,
        boundary_width: i64,
        boundary_height: i64,
        extra_scale: i64,
        depth_offset: i64,
    ) -> (r: Option<VisualAnchor>)
        ensures
            match r {
                Some(a) => {
                    &&& a.wf()
                    &&& a.tree == tree
                    &&& a.owner_path@ == owner_path@
                    &&& a.relative_x == relative_x
                    &&& a.relative_y == relative_y
                    &&& a.size_mode == size_mode
                    &&& a.boundary_width == boundary_width
                    &&& a.boundary_height == boundary_height
                    &&& a.extra_scale == extra_scale
                    &&& a.depth_offset == depth_offset
                    &&& a.generation == 0
                },
                None => !(frac_ok(relative_x as int) && frac_ok(relative_y as int)
                    && size_mode_ok(size_mode) && 1 <= boundary_width <= MAX_LEN && 1
                    <= boundary_height <= MAX_LEN && frac_ok(extra_scale as int)
                    && -MAX_DEPTH_VALUE <= depth_offset <= MAX_DEPTH_VALUE),
            },
    {
        let mode_ok = match size_mode {
            SizeMode::BothAxes { width, height } => -MAX_FRAC <= width && width <= MAX_FRAC
                && -MAX_FRAC <= height && height <= MAX_FRAC,
            SizeMode::WidthOnly { width } => -MAX_FRAC <= width && width <= MAX_FRAC,
            SizeMode::HeightOnly { height } => -MAX_FRAC <= height && height <= MAX_FRAC,
            SizeMode::FitSmaller => true,
        };
        if !(-MAX_FRAC <= relative_x && relative_x <= MAX_FRAC && -MAX_FRAC <= relative_y
            && relative_y <= MAX_FRAC && mode_ok && 1 <= boundary_width && boundary_width
            <= MAX_LEN && 1 <= boundary_height && boundary_height <= MAX_LEN && -MAX_FRAC <= extra_scale
            && extra_scale <= MAX_FRAC && -MAX_DEPTH_VALUE <= depth_offset && depth_offset
            <= MAX_DEPTH_VALUE) {
            return None;
        }
        Some(
            VisualAnchor {
                tree,
                owner_path: crate::tree::bytes_to_vec(owner_path),
                relative_x,
                relative_y,
                size_mode,
                boundary_width,
                boundary_height,
                extra_scale,
                depth_offset,
                generation: 0,
            },
        )
    }
}

impl VisualAnchor {
    /// The anchor's fields but its generation.
    pub open spec fn model(&self) -> AnchorModel {
        AnchorModel {
            tree: self.tree,
            owner_path: self.owner_path@,
            relative_x: self.relative_x,
            relative_y: self.relative_y,
            size_mode: self.size_mode,
            boundary_width: self.boundary_width,
            boundary_height: self.boundary_height,
            extra_scale: self.extra_scale,
            depth_offset: self.depth_offset,
        }
    }

    /// Whether every value lies in its range and the boundary is not empty.
    pub fn is_valid(&self) -> (r: bool)
        ensures
            r == self.wf(),
    {
        let mode_ok = match self.size_mode {
            SizeMode::BothAxes { width, height } => -MAX_FRAC <= width && width <= MAX_FRAC
                && -MAX_FRAC <= height && height <= MAX_FRAC,
            SizeMode::WidthOnly { width } => -MAX_FRAC <= width && width <= MAX_FRAC,
            SizeMode::HeightOnly { height } => -MAX_FRAC <= height && height <= MAX_FRAC,
            SizeMode::FitSmaller => true,
        };
        -MAX_FRAC <= self.relative_x && self.relative_x <= MAX_FRAC && -MAX_FRAC
            <= self.relative_y && self.relative_y <= MAX_FRAC && mode_ok && 1
            <= self.boundary_width && self.boundary_width <= MAX_LEN && 1 <= self.boundary_height
            && self.boundary_height <= MAX_LEN && -MAX_FRAC <= self.extra_scale
            && self.extra_scale <= MAX_FRAC && -MAX_DEPTH_VALUE <= self.depth_offset
            && self.depth_offset <= MAX_DEPTH_VALUE
    }

    /// Binds the anchor to another tree.
    pub fn set_tree(&mut self, tree: usize)
        requires
            old(self).wf(),
        ensures
            final(self).wf(),
            final(self).model() == (AnchorModel { tree: tree, ..old(self).model() }),
            final(self).generation == bumped(old(self).generation),
    {
        self.tree = tree;
        self.generation = bump(self.generation);
    }

    /// Binds the anchor to the node at another path.
    pub fn set_owner_path(&mut self, path: &[u8])
        requires
            old(self).wf(),
        ensures
            final(self).wf(),
            final(self).model() == (AnchorModel { owner_path: path@, ..old(self).model() }),
            final(self).generation == bumped(old(self).generation),
    {
        self.owner_path = crate::tree::bytes_to_vec(path);
        self.generation = bump(self.generation);
    }

    /// Moves the anchor point inside the owner's rectangle.
    pub fn set_relative(&mut self, x: i64, y: i64)
        requires
            old(self).wf(),
            frac_ok(x as int),
            frac_ok(y as int),
        ensures
            final(self).wf(),
            final(self).model() == (AnchorModel { relative_x: x, relative_y: y, ..old(self).model() }),
            final(self).generation == bumped(old(self).generation),
    {
        self.relative_x = x;
        self.relative_y = y;
        self.generation = bump(self.generation);
    }

    /// Replaces the size mode.
    pub fn set_size_mode(&mut self, mode: SizeMode)
        requires
            old(self).wf(),
            size_mode_ok(mode),
        ensures
            final(self).wf(),
            final(self).model() == (AnchorModel { size_mode: mode, ..old(self).model() }),
            final(self).generation == bumped(old(self).generation),
    {
        self.size_mode = mode;
        self.generation = bump(self.generation);
    }

    /// Replaces the natural size.
    pub fn set_boundary(&mut self, width: i64, height: i64)
        requires
            old(self).wf(),
            1 <= width <= MAX_LEN,
            1 <= height <= MAX_LEN,
        ensures
            final(self).wf(),
            final(self).model() == (AnchorModel { boundary_width: width, boundary_height: height, ..old(self).model() }),
            final(self).generation == bumped(old(self).generation),
    {
        self.boundary_width = width;
        self.boundary_height = height;
        self.generation = bump(self.generation);
    }

    /// Replaces the final uniform factor.
    pub fn set_extra_scale(&mut self, extra: i64)
        requires
            old(self).wf(),
            frac_ok(extra as int),
        ensures
            final(self).wf(),
            final(self).model() == (AnchorModel { extra_scale: extra, ..old(self).model() }),
            final(self).generation == bumped(old(self).generation),
    {
        self.extra_scale = extra;
        self.generation = bump(self.generation);
    }

    /// Replaces the offset added to the owner's depth.
    pub fn set_depth_offset(&mut self, offset: i64)
        requires
            old(self).wf(),
            -MAX_DEPTH_VALUE <= offset <= MAX_DEPTH_VALUE,
        ensures
            final(self).wf(),
            final(self).model() == (AnchorModel { depth_offset: offset, ..old(self).model() }),
            final(self).generation == bumped(old(self).generation),
    {
        self.depth_offset = offset;
        self.generation = bump(self.generation);
    }
}

} // verus!
