use vstd::prelude::*;

verus! {

/// Largest magnitude of a world coordinate that the editor accepts.
pub const COORD_LIMIT: i64 = 1_099_511_627_776;

/// The fixed-point value that stands for 1.0 in a `Frame`.
pub const FRAME_ONE: i64 = 65536;

/// One full turn, in binary angle units.
pub const FULL_TURN: i64 = 4_294_967_296;

pub open spec fn within(v: int, limit: int) -> bool {
    -limit <= v <= limit
}

/// A point, or a vector, in world units.
#[derive(Clone, Copy, Debug, PartialEq, Eq, Structural)]
pub struct Point {
    pub x: i64,
    pub y: i64,
}

impl Point {
    /// Both coordinates lie in the editor's coordinate range.
    pub open spec fn bounded(self) -> bool {
        within(self.x as int, COORD_LIMIT as int) && within(self.y as int, COORD_LIMIT as int)
    }

    /// Both coordinates lie within `limit`.
    pub open spec fn within(self, limit: int) -> bool {
        within(self.x as int, limit) && within(self.y as int, limit)
    }

    pub fn new(x: i64, y: i64) -> (r: Point)
        ensures
            r.x == x && r.y == y,
    {
        Point { x, y }
    }

    pub open spec fn zero_spec() -> Point {
        Point { x: 0, y: 0 }
    }

    pub fn zero() -> (r: Point)
        ensures
            r == Point::zero_spec(),
    {
        Point { x: 0, y: 0 }
    }
}

/// Fixed-point cosine and sine of an angle, `FRAME_ONE` standing for 1.0.
#[derive(Clone, Copy, Debug, PartialEq, Eq, Structural)]
pub struct Frame {
    pub cos: i64,
    pub sin: i64,
}

impl Frame {
    /// A rotation: each component at most `FRAME_ONE` in magnitude, and
    /// `cos² + sin²` equal to `FRAME_ONE²` up to the rounding of each
    /// component to an integer.
    pub open spec fn wf(self) -> bool {
        &&& within(self.cos as int, FRAME_ONE as int)
        &&& within(self.sin as int, FRAME_ONE as int)
        &&& within(
            self.cos * self.cos + self.sin * self.sin - FRAME_ONE * FRAME_ONE,
            2 * FRAME_ONE as int,
        )
    }

    /// The frame of angle zero.
    pub fn identity() -> (r: Frame)
        ensures
            r.wf(),
            r.cos == FRAME_ONE && r.sin == 0,
    {
        Frame { cos: FRAME_ONE, sin: 0 }
    }

    /// The frame of the opposite angle.
    pub fn inverse(self) -> (r: Frame)
        requires
            self.wf(),
        ensures
            r.wf(),
            r.cos == self.cos && r.sin == -self.sin,
    {
        proof {
            let s = self.sin as int;
            assert((-s) * (-s) == s * s) by (nonlinear_arith);
        }
        Frame { cos: self.cos, sin: -self.sin }
    }
}

/// Rounds `a / b` down, for a positive `b`.
pub fn div_floor(a: i64, b: i64) -> (r: i64)
    requires
        0 < b <= 0x1_0000_0000,
        within(a as int, 0x4000_0000_0000_0000),
    ensures
        r == a / b,
{
    if a >= 0 {
        a / b
    } else {
        let n: i64 = -a + b - 1;
        let q: i64 = n / b;
        proof {
            let qq = (a as int) / (b as int);
            let rr = (a as int) % (b as int);
            assert(a == qq * b + rr && 0 <= rr < b) by {
                vstd::arithmetic::div_mod::lemma_fundamental_div_mod(a as int, b as int);
            }
            assert(n == (-qq) * b + (b - 1 - rr)) by (nonlinear_arith)
                requires
                    a == qq * b + rr,
                    n == -a + b - 1,
            ;
            assert(n / b == -qq) by {
                vstd::arithmetic::div_mod::lemma_fundamental_div_mod_converse(
                    n as int,
                    b as int,
                    -qq,
                    b - 1 - rr,
                );
            }
        }
        -q
    }
}

/// An axis-aligned box, given by its lower and upper corners.
#[derive(Clone, Copy, Debug, PartialEq, Eq, Structural)]
pub struct BoundingBox {
    pub min: Point,
    pub max: Point,
}

impl BoundingBox {
    pub open spec fn wf(self) -> bool {
        self.min.bounded() && self.max.bounded() && self.min.x <= self.max.x && self.min.y
            <= self.max.y
    }

    /// The center, rounded down on each axis.
    pub open spec fn center_spec(self) -> (int, int) {
        ((self.min.x + self.max.x) / 2, (self.min.y + self.max.y) / 2)
    }

    /// The same box moved by `(dx, dy)`.
    pub open spec fn shifted(self, dx: int, dy: int) -> BoundingBox {
        BoundingBox {
            min: Point { x: (self.min.x + dx) as i64, y: (self.min.y + dy) as i64 },
            max: Point { x: (self.max.x + dx) as i64, y: (self.max.y + dy) as i64 },
        }
    }

    pub fn center(&self) -> (r: Point)
        requires
            self.wf(),
        ensures
            (r.x as int, r.y as int) == self.center_spec(),
            r.bounded(),
    {
        let x = div_floor(self.min.x + self.max.x, 2);
        let y = div_floor(self.min.y + self.max.y, 2);
        Point { x, y }
    }
}

} // verus!
