//! Fixed-point rectangles and the rules that place a rectangle inside its parent.
//!
//! Every length and coordinate is an integer number of layout units. A fraction is an
//! integer in units of `1 / ONE`, so `ONE` is 100% and `ONE / 2` is 50%.
use vstd::prelude::*;

verus! {

/// The fixed-point unit of fractions and scales: `ONE` stands for 1.0 (100%).
pub const ONE: i64 = 10000;

/// Largest width or height of a rectangle, in layout units.
pub const MAX_LEN: i64 = 2147483648;

/// Largest absolute value of a rectangle's x or y coordinate, in layout units.
pub const MAX_POS: i64 = 1099511627776;

/// Largest absolute value of a fraction (about 10485%).
pub const MAX_FRAC: i64 = 1048576;

/// An axis-aligned rectangle: `(x, y)` is its origin corner, in layout units.
#[derive(Clone, Copy, Debug, PartialEq, Eq, Structural)]
pub struct Rect {
    pub x: i64,
    pub y: i64,
    pub width: i64,
    pub height: i64,
}

/// How a node's rectangle derives from its parent's rectangle.
#[derive(Clone, Copy, Debug, PartialEq, Eq, Structural)]
pub enum PositionRule {
    /// Origin and size as fractions of the parent's size, the origin measured from the
    /// parent's origin.
    Relative { x: i64, y: i64, width: i64, height: i64 },
    /// Origin as an offset from the parent's origin and size, both in layout units.
    Absolute { x: i64, y: i64, width: i64, height: i64 },
    /// Size as fractions of the parent's size, centred in the parent.
    Centered { width: i64, height: i64 },
}

pub open spec fn pos_ok(v: int) -> bool {
    -MAX_POS <= v <= MAX_POS
}

pub open spec fn len_ok(v: int) -> bool {
    0 <= v <= MAX_LEN
}

pub open spec fn frac_ok(v: int) -> bool {
    -MAX_FRAC <= v <= MAX_FRAC
}

impl Rect {
    /// The rectangle lies within the bounded layout space.
    pub open spec fn wf(&self) -> bool {
        pos_ok(self.x as int) && pos_ok(self.y as int) && len_ok(self.width as int)
            && len_ok(self.height as int)
    }

    /// A rectangle with the given origin and size, each value saturated into the layout
    /// space.
    pub fn new(x: i64, y: i64, width: i64, height: i64) -> (r: Rect)
        ensures
            r.wf(),
            r.x == clamp_pos(x as int),
            r.y == clamp_pos(y as int),
            r.width == clamp_len(width as int),
            r.height == clamp_len(height as int),
    {
        Rect {
            x: exec_clamp_pos(x as i128),
            y: exec_clamp_pos(y as i128),
            width: exec_clamp_len(width as i128),
            height: exec_clamp_len(height as i128),
        }
    }
}

impl PositionRule {
    /// Every value of the rule lies in the range of its kind. A negative size is in range:
    /// it collapses to zero.
    pub open spec fn wf(&self) -> bool {
        match *self {
            PositionRule::Relative { x, y, width, height } => frac_ok(x as int) && frac_ok(
                y as int,
            ) && frac_ok(width as int) && frac_ok(height as int),
            PositionRule::Absolute { x, y, width, height } => pos_ok(x as int) && pos_ok(
                y as int,
            ) && -MAX_LEN <= width <= MAX_LEN && -MAX_LEN <= height <= MAX_LEN,
            PositionRule::Centered { width, height } => frac_ok(width as int) && frac_ok(
                height as int,
            ),
        }
    }
}

/// `v` saturated into `[-MAX_POS, MAX_POS]`.
pub open spec fn clamp_pos(v: int) -> int {
    if v < -MAX_POS {
        -MAX_POS as int
    } else if v > MAX_POS {
        MAX_POS as int
    } else {
        v
    }
}

/// `v` saturated into `[0, MAX_LEN]`.
pub open spec fn clamp_len(v: int) -> int {
    if v < 0 {
        0
    } else if v > MAX_LEN {
        MAX_LEN as int
    } else {
        v
    }
}

/// The fraction `f` of the length `len`, rounded toward zero.
pub open spec fn part(len: int, f: int) -> int {
    if f >= 0 {
        len * f / (ONE as int)
    } else {
        -(len * (-f) / (ONE as int))
    }
}

/// Half of `v`, rounded toward zero.
pub open spec fn half(v: int) -> int {
    if v >= 0 {
        v / 2
    } else {
        -((-v) / 2)
    }
}

/// The rectangle that `rule` gives inside `parent`.
pub open spec fn resolve_rect(rule: PositionRule, parent: Rect) -> Rect {
    let (px, py, pw, ph) = (parent.x as int, parent.y as int, parent.width as int, parent.height as int);
    match rule {
        PositionRule::Relative { x, y, width, height } => Rect {
            x: clamp_pos(px + part(pw, x as int)) as i64,
            y: clamp_pos(py + part(ph, y as int)) as i64,
            width: clamp_len(part(pw, width as int)) as i64,
            height: clamp_len(part(ph, height as int)) as i64,
        },
        PositionRule::Absolute { x, y, width, height } => Rect {
            x: clamp_pos(px + x) as i64,
            y: clamp_pos(py + y) as i64,
            width: clamp_len(width as int) as i64,
            height: clamp_len(height as int) as i64,
        },
        PositionRule::Centered { width, height } => {
            let w = clamp_len(part(pw, width as int));
            let h = clamp_len(part(ph, height as int));
            Rect {
                x: clamp_pos(px + half(pw - w)) as i64,
                y: clamp_pos(py + half(ph - h)) as i64,
                width: w as i64,
                height: h as i64,
            }
        },
    }
}

fn exec_clamp_pos(v: i128) -> (r: i64)
    ensures
        r == clamp_pos(v as int),
{
    if v < -(MAX_POS as i128) {
        -MAX_POS
    } else if v > MAX_POS as i128 {
        MAX_POS
    } else {
        v as i64
    }
}

fn exec_clamp_len(v: i128) -> (r: i64)
    ensures
        r == clamp_len(v as int),
{
    if v < 0 {
        0
    } else if v > MAX_LEN as i128 {
        MAX_LEN
    } else {
        v as i64
    }
}

pub(crate) fn exec_part(len: i64, f: i64) -> (r: i128)
    requires
        len_ok(len as int),
        frac_ok(f as int),
    ensures
        r == part(len as int, f as int),
        -MAX_LEN * MAX_FRAC <= r <= MAX_LEN * MAX_FRAC,
{
    proof {
        assert(-MAX_LEN * MAX_FRAC <= len * f <= MAX_LEN * MAX_FRAC) by (nonlinear_arith)
            requires
                len_ok(len as int),
                frac_ok(f as int),
        ;
    }
    let l = len as i128;
    if f >= 0 {
        proof {
            assert(0 <= (len * f) / (ONE as int) <= len * f) by (nonlinear_arith)
                requires len * f >= 0;
        }
        l * (f as i128) / (ONE as i128)
    } else {
        proof {
            assert(0 <= (len * (-f)) / (ONE as int) <= len * (-f)) by (nonlinear_arith)
                requires len * (-f) >= 0;
            assert(len * (-f) == -(len * f)) by (nonlinear_arith);
        }
        -(l * (-(f as i128)) / (ONE as i128))
    }
}

fn exec_half(v: i128) -> (r: i128)
    requires
        -4 * MAX_POS <= v <= 4 * MAX_POS,
    ensures
        r == half(v as int),
{
    if v >= 0 {
        v / 2
    } else {
        -((-v) / 2)
    }
}

/// The rectangle that `rule` gives inside `parent`.
pub fn place(rule: &PositionRule, parent: &Rect) -> (r: Rect)
    requires
        rule.wf(),
        parent.wf(),
    ensures
        r == resolve_rect(*rule, *parent),
        r.wf(),
{
    match *rule {
        PositionRule::Relative { x, y, width, height } => {
            let dx = exec_part(parent.width, x);
            let dy = exec_part(parent.height, y);
            let w = exec_part(parent.width, width);
            let h = exec_part(parent.height, height);
            Rect {
                x: exec_clamp_pos(parent.x as i128 + dx),
                y: exec_clamp_pos(parent.y as i128 + dy),
                width: exec_clamp_len(w),
                height: exec_clamp_len(h),
            }
        },
        PositionRule::Absolute { x, y, width, height } => Rect {
            x: exec_clamp_pos(parent.x as i128 + x as i128),
            y: exec_clamp_pos(parent.y as i128 + y as i128),
            width: exec_clamp_len(width as i128),
            height: exec_clamp_len(height as i128),
        },
        PositionRule::Centered { width, height } => {
            let w = exec_clamp_len(exec_part(parent.width, width));
            let h = exec_clamp_len(exec_part(parent.height, height));
            let hx = exec_half(parent.width as i128 - w as i128);
            let hy = exec_half(parent.height as i128 - h as i128);
            Rect {
                x: exec_clamp_pos(parent.x as i128 + hx),
                y: exec_clamp_pos(parent.y as i128 + hy),
                width: w,
                height: h,
            }
        },
    }
}

} // verus!
