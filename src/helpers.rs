use vstd::prelude::*;
use crate::custom_shape::{Construction, PathBuilder};
use crate::tools::ToolChanged;
use crate::geometry::{within, div_floor, Frame, Point, COORD_LIMIT, FRAME_ONE};

verus! {

/// Largest magnitude of a vector component that `global_vec_to_local` takes.
pub const VEC_LIMIT: i64 = 17_592_186_044_416;

/// `v` turned by the opposite of the frame's angle, in exact arithmetic
/// and before rounding.
pub open spec fn local_x(v: Point, f: Frame) -> int {
    f.cos * v.x + f.sin * v.y
}

pub open spec fn local_y(v: Point, f: Frame) -> int {
    f.cos * v.y - f.sin * v.x
}

/// `mouse` relative to `origin`.
pub fn point_from_positions(mouse: Point, origin: Point) -> (r: Point)
    requires
        mouse.bounded(),
        origin.bounded(),
    ensures
        r.x == mouse.x - origin.x,
        r.y == mouse.y - origin.y,
        r.within(2 * COORD_LIMIT),
{
    Point { x: mouse.x - origin.x, y: mouse.y - origin.y }
}

/// The reflection of `mouse` through `pivot`, relative to `origin`.
pub fn rotate_around_pivot(mouse: Point, origin: Point, pivot: Point) -> (r: Point)
    requires
        mouse.bounded(),
        origin.bounded(),
        pivot.bounded(),
    ensures
        r.x == 2 * pivot.x - mouse.x - origin.x,
        r.y == 2 * pivot.y - mouse.y - origin.y,
        r.within(4 * COORD_LIMIT),
{
    Point { x: 2 * pivot.x - mouse.x - origin.x, y: 2 * pivot.y - mouse.y - origin.y }
}

/// The larger magnitude of the two components of `v`.
pub open spec fn mag(v: Point) -> int {
    let ax = if v.x < 0 { -v.x } else { v.x as int };
    let ay = if v.y < 0 { -v.y } else { v.y as int };
    if ax < ay { ay } else { ax }
}

proof fn lemma_turn_bounds(c: int, s: int, x: int, y: int, b: int)
    requires
        within(c, FRAME_ONE as int),
        within(s, FRAME_ONE as int),
        within(x, b),
        within(y, b),
        0 <= b <= VEC_LIMIT,
    ensures
        within(c * x, 65536 * b),
        within(s * y, 65536 * b),
        within(c * y, 65536 * b),
        within(s * x, 65536 * b),
        within((c * x + s * y) / (FRAME_ONE as int), 2 * b),
        within((c * y - s * x) / (FRAME_ONE as int), 2 * b),
        within((c * x - s * y) / (FRAME_ONE as int), 2 * b),
        within((c * y + s * x) / (FRAME_ONE as int), 2 * b),
{
    assert(within(c * x, 65536 * b)) by (nonlinear_arith)
        requires
            within(c, FRAME_ONE as int),
            within(x, b),
    ;
    assert(within(s * y, 65536 * b)) by (nonlinear_arith)
        requires
            within(s, FRAME_ONE as int),
            within(y, b),
    ;
    assert(within(c * y, 65536 * b)) by (nonlinear_arith)
        requires
            within(c, FRAME_ONE as int),
            within(y, b),
    ;
    assert(within(s * x, 65536 * b)) by (nonlinear_arith)
        requires
            within(s, FRAME_ONE as int),
            within(x, b),
    ;
    assert(within(c * x + s * y, 131072 * b));
    lemma_div_within(c * x + s * y, b);
    assert(within(c * y - s * x, 131072 * b));
    lemma_div_within(c * y - s * x, b);
    assert(within(c * x - s * y, 131072 * b));
    lemma_div_within(c * x - s * y, b);
    assert(within(c * y + s * x, 131072 * b));
    lemma_div_within(c * y + s * x, b);
}

proof fn lemma_div_within(a: int, b: int)
    requires
        within(a, 131072 * b),
        0 <= b,
    ensures
        within(a / (FRAME_ONE as int), 2 * b),
{
    let d = FRAME_ONE as int;
    vstd::arithmetic::div_mod::lemma_fundamental_div_mod(a, d);
    let q = a / d;
    let r = a % d;
    assert(within(q, 2 * b)) by (nonlinear_arith)
        requires
            a == d * q + r,
            0 <= r < d,
            d == FRAME_ONE,
            within(a, 131072 * b),
    ;
}

/// Expresses a world-space vector in the local axes of a shape whose
/// rotation has the frame `frame`, rounding each component down. In integer
/// arithmetic no component can be non-finite: the zero vector maps to zero.
pub fn global_vec_to_local(vec: Point, frame: Frame) -> (r: Point)
    requires
        vec.within(VEC_LIMIT as int),
        frame.wf(),
    ensures
        r.x == local_x(vec, frame) / (FRAME_ONE as int),
        r.y == local_y(vec, frame) / (FRAME_ONE as int),
        r.within(2 * mag(vec)),
{
    proof {
        lemma_turn_bounds(frame.cos as int, frame.sin as int, vec.x as int, vec.y as int, mag(vec));
    }
    let lx = frame.cos * vec.x + frame.sin * vec.y;
    let ly = frame.cos * vec.y - frame.sin * vec.x;
    Point { x: div_floor(lx, FRAME_ONE), y: div_floor(ly, FRAME_ONE) }
}

/// On a change of tool (any event this frame), the path under construction stops being built: it
/// is handed back as it stands, open, and nothing is under construction.
pub fn handle_tool_change(builder: &mut PathBuilder, events: &Vec<ToolChanged>) -> (r: Option<
    Construction,
>)
    requires
        old(builder).wf(),
    ensures
        final(builder).wf(),
        events@.len() == 0 ==> r is None && *final(builder) == *old(builder),
        events@.len() > 0 ==> r == old(builder).active && final(builder).active is None
            && final(builder).drag_start == old(builder).drag_start,
{
    if events.len() > 0 {
        builder.active.take()
    } else {
        None
    }
}

} // verus!
