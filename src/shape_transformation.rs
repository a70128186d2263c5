use vstd::prelude::*;
use crate::editor::ShapeHandle;
use crate::custom_shape::CustomShapeRaw;
use crate::geometry::{within, div_floor, BoundingBox, Frame, Point, COORD_LIMIT, FRAME_ONE, FULL_TURN};
use crate::helpers::{global_vec_to_local, local_x, local_y, mag, point_from_positions};

verus! {

/// A non-uniform scale: on each axis, the shape's current half-extent over
/// its half-extent at unit scale. Nothing here divides by the base; a shape
/// that is flat on an axis has base 0 there, and the host that turns the
/// ratio into a number decides what that axis's scale is.
#[derive(Clone, Copy, Debug, PartialEq, Eq, Structural)]
pub struct Scale {
    pub extent: Point,
    pub base: Point,
}

impl Scale {
    pub open spec fn wf(self) -> bool {
        self.extent.bounded() && self.base.bounded()
    }
}

/// Where a shape is, how it is scaled, and how far it is turned (in
/// binary angle units, below `FULL_TURN`).
#[derive(Clone, Copy, Debug, PartialEq, Eq, Structural)]
pub struct Affine {
    pub translation: Point,
    pub scale: Scale,
    pub rotation: u32,
}

impl Affine {
    pub open spec fn wf(self) -> bool {
        self.translation.bounded() && self.scale.wf()
    }
}

/// A direction on each axis, each of -1, 0 and 1, not both 0.
#[derive(Clone, Copy, Debug, PartialEq, Eq, Structural)]
pub struct Direction {
    pub x: i64,
    pub y: i64,
}

impl Direction {
    pub open spec fn wf(self) -> bool {
        -1 <= self.x <= 1 && -1 <= self.y <= 1 && !(self.x == 0 && self.y == 0)
    }
}

/// A handle at one of the eight corners and edge midpoints of the selected
/// shape; dragging it scales the shape.
#[derive(Clone, Copy, Debug, PartialEq, Eq, Structural)]
pub struct TransformScalePick {
    pub location: Direction,
    pub entity: Option<ShapeHandle>,
}

/// A handle beside one of the scale handles; dragging it turns the shape.
#[derive(Clone, Copy, Debug, PartialEq, Eq, Structural)]
pub struct TransformRotationPick {
    pub location: Direction,
    pub entity: Option<ShapeHandle>,
}

/// What the pointer was over when the button went down.
#[derive(Clone, Copy, Debug, PartialEq, Eq, Structural)]
pub enum PressTarget {
    Body(ShapeHandle),
    ScaleHandle(TransformScalePick),
    RotateHandle(TransformRotationPick),
}

impl PressTarget {
    pub open spec fn wf(self) -> bool {
        match self {
            PressTarget::ScaleHandle(p) => p.location.wf(),
            PressTarget::RotateHandle(p) => p.location.wf(),
            PressTarget::Body(_) => true,
        }
    }
}

/// The shape that a session works on, where the button went down, and the
/// shape's transform at that moment.
#[derive(Clone, Copy, Debug, PartialEq, Eq, Structural)]
pub struct Grab {
    pub shape: ShapeHandle,
    pub pressed: Point,
    pub start: Affine,
}

impl Grab {
    pub open spec fn wf(self) -> bool {
        self.pressed.bounded() && self.start.wf()
    }
}

/// The state of direct manipulation: at most one session at a time.
#[derive(Clone, Copy, Debug, PartialEq, Eq, Structural)]
pub enum ManipulationSession {
    Idle,
    Moving(Grab),
    Scaling { grab: Grab, direction: Direction, frame: Frame },
    Rotating(Grab),
}

/// The pointer's movement since the press.
pub open spec fn delta(g: Grab, cursor: Point) -> Point {
    Point { x: (cursor.x - g.pressed.x) as i64, y: (cursor.y - g.pressed.y) as i64 }
}

/// The movement since the press in the shape's own axes, rounded down.
pub open spec fn local_delta(g: Grab, f: Frame, cursor: Point) -> (int, int) {
    (
        local_x(delta(g, cursor), f) / (FRAME_ONE as int),
        local_y(delta(g, cursor), f) / (FRAME_ONE as int),
    )
}

/// The translation while moving: the cursor less the offset it was grabbed at.
pub open spec fn moved_translation(g: Grab, cursor: Point) -> (int, int) {
    (
        cursor.x - (g.pressed.x - g.start.translation.x),
        cursor.y - (g.pressed.y - g.start.translation.y),
    )
}

/// The half-extent while scaling: the half-extent at the press plus the
/// local movement, signed by the handle's direction.
pub open spec fn scaled_extent(g: Grab, dir: Direction, f: Frame, cursor: Point) -> (int, int) {
    let l = local_delta(g, f, cursor);
    (g.start.scale.extent.x + l.0 * dir.x, g.start.scale.extent.y + l.1 * dir.y)
}

/// The local movement kept on the axes that the handle acts on, turned
/// back into world axes (rounded down): how far the grabbed side moved.
pub open spec fn scaled_offset(g: Grab, dir: Direction, f: Frame, cursor: Point) -> (int, int) {
    let l = local_delta(g, f, cursor);
    let kept = Point {
        x: (l.0 * (if dir.x == 0 { 0int } else { 1int })) as i64,
        y: (l.1 * (if dir.y == 0 { 0int } else { 1int })) as i64,
    };
    let back = Frame { cos: f.cos, sin: (-f.sin) as i64 };
    (local_x(kept, back) / (FRAME_ONE as int), local_y(kept, back) / (FRAME_ONE as int))
}

/// The translation while scaling: half of the offset is added, so that the
/// opposite side stays in place.
pub open spec fn scaled_translation(g: Grab, dir: Direction, f: Frame, cursor: Point) -> (int, int) {
    let o = scaled_offset(g, dir, f, cursor);
    (g.start.translation.x + o.0 / 2, g.start.translation.y + o.1 / 2)
}

/// A rotation turned by `turn`, as a binary angle.
pub open spec fn turned(rotation: int, turn: int) -> int {
    (rotation + turn) % (FULL_TURN as int)
}

/// Both coordinates lie in the editor's coordinate range.
pub open spec fn in_range(p: (int, int)) -> bool {
    within(p.0, COORD_LIMIT as int) && within(p.1, COORD_LIMIT as int)
}

/// The point with coordinates `p`.
pub open spec fn to_point(p: (int, int)) -> Point {
    Point { x: p.0 as i64, y: p.1 as i64 }
}

/// The transform after moving to `cursor`, where it stays in range.
pub open spec fn move_result(g: Grab, cursor: Point) -> Option<Affine> {
    let t = moved_translation(g, cursor);
    if in_range(t) {
        Some(Affine { translation: to_point(t), ..g.start })
    } else {
        None
    }
}

/// The transform after scaling to `cursor`, where it stays in range.
pub open spec fn scale_result(g: Grab, dir: Direction, f: Frame, cursor: Point) -> Option<Affine> {
    let t = scaled_translation(g, dir, f, cursor);
    let e = scaled_extent(g, dir, f, cursor);
    if in_range(t) && in_range(e) {
        Some(
            Affine {
                translation: to_point(t),
                scale: Scale { extent: to_point(e), base: g.start.scale.base },
                rotation: g.start.rotation,
            },
        )
    } else {
        None
    }
}

/// The transform after turning by `turn` from the press.
pub open spec fn rotate_result(g: Grab, turn: int) -> Affine {
    Affine { rotation: turned(g.start.rotation as int, turn) as u32, ..g.start }
}

/// Where the scale handle at `location` sits, relative to the selected
/// shape's center and in its axes: at the corner or edge midpoint of its
/// current half-extent.
pub fn scale_handle_position(location: Direction, scale: Scale) -> (r: Point)
    requires
        location.wf(),
        scale.wf(),
    ensures
        r.x == location.x * scale.extent.x,
        r.y == location.y * scale.extent.y,
{
    proof {
        lemma_mul_unit(scale.extent.x as int, location.x as int);
        lemma_mul_unit(scale.extent.y as int, location.y as int);
    }
    let x: i64 = if location.x == 0 { 0 } else if location.x == 1 { scale.extent.x } else { -scale.extent.x };
    let y: i64 = if location.y == 0 { 0 } else if location.y == 1 { scale.extent.y } else { -scale.extent.y };
    Point { x, y }
}

/// An eighth of a turn, in binary angle units.
pub const EIGHTH_TURN: i64 = 536_870_912;

/// `a` turned by an eighth of a turn.
pub open spec fn eighth_turned(a: Affine) -> Affine {
    Affine { rotation: turned(a.rotation as int, EIGHTH_TURN as int) as u32, ..a }
}

/// A secondary-button press turns every shape by an eighth of a turn.
pub fn debug_scale(secondary_pressed: bool, transforms: &mut Vec<Affine>)
    ensures
        final(transforms)@.len() == old(transforms)@.len(),
        forall|i: int|
            0 <= i < old(transforms)@.len() ==> #[trigger] final(transforms)@[i] == if secondary_pressed {
                eighth_turned(old(transforms)@[i])
            } else {
                old(transforms)@[i]
            },
{
    if !secondary_pressed {
        return;
    }
    let mut i: usize = 0;
    while i < transforms.len()
        invariant
            i <= transforms@.len(),
            transforms@.len() == old(transforms)@.len(),
            forall|k: int| i <= k < transforms@.len() ==> transforms@[k] == old(transforms)@[k],
            forall|k: int|
                0 <= k < i ==> #[trigger] transforms@[k] == eighth_turned(old(transforms)@[k]),
        decreases transforms@.len() - i,
    {
        let a = transforms[i];
        let r = (a.rotation as i64 + EIGHTH_TURN) % FULL_TURN;
        transforms.set(i, Affine { rotation: r as u32, ..a });
        i = i + 1;
    }
}

/// The shape that a press on `t` would work on.
pub open spec fn target_shape(t: PressTarget) -> Option<ShapeHandle> {
    match t {
        PressTarget::Body(h) => Some(h),
        PressTarget::ScaleHandle(p) => p.entity,
        PressTarget::RotateHandle(p) => p.entity,
    }
}

/// The session that a press on `t` at `cursor` starts.
pub open spec fn started(t: PressTarget, cursor: Point, shape: Affine, frame: Frame) -> ManipulationSession {
    let g = Grab { shape: target_shape(t).unwrap(), pressed: cursor, start: shape };
    match t {
        PressTarget::Body(_) => ManipulationSession::Moving(g),
        PressTarget::ScaleHandle(p) => ManipulationSession::Scaling {
            grab: g,
            direction: p.location,
            frame,
        },
        PressTarget::RotateHandle(_) => ManipulationSession::Rotating(g),
    }
}

/// Tags a transform with its shape.
pub open spec fn for_shape(h: ShapeHandle, a: Option<Affine>) -> Option<(ShapeHandle, Affine)> {
    match a {
        Some(x) => Some((h, x)),
        None => None,
    }
}

/// Turns pointer presses, drags and releases into moves, scales and
/// rotations of one shape at a time.
#[derive(Clone, Copy, Debug)]
pub struct TransformController {
    pub session: ManipulationSession,
}

impl TransformController {
    pub open spec fn wf(&self) -> bool {
        match self.session {
            ManipulationSession::Idle => true,
            ManipulationSession::Moving(g) => g.wf(),
            ManipulationSession::Scaling { grab, direction, frame } => grab.wf() && direction.wf()
                && frame.wf(),
            ManipulationSession::Rotating(g) => g.wf(),
        }
    }

    pub fn new() -> (r: TransformController)
        ensures
            r.wf(),
            r.session is Idle,
    {
        TransformController { session: ManipulationSession::Idle }
    }

    /// The button went down at `cursor` over `target` (if anything), whose
    /// shape has transform `shape`. The host computes `frame` from
    /// `shape.rotation` (cosine and sine of that angle); scaling measures the
    /// pointer's movement in it. Starts a session when none is active and
    /// the target names a shape.
    pub fn press(&mut self, target: Option<PressTarget>, cursor: Point, shape: Affine, frame: Frame) -> (r:
        bool)
        requires
            old(self).wf(),
            cursor.bounded(),
            shape.wf(),
            frame.wf(),
            target is Some ==> target.unwrap().wf(),
        ensures
            final(self).wf(),
            r == (old(self).session is Idle && target is Some && target_shape(target.unwrap()) is Some),
            r ==> final(self).session == started(target.unwrap(), cursor, shape, frame),
            !r ==> *final(self) == *old(self),
    {
        match self.session {
            ManipulationSession::Idle => {},
            _ => {
                return false;
            },
        }
        match target {
            None => false,
            Some(PressTarget::Body(h)) => {
                self.session = ManipulationSession::Moving(Grab { shape: h, pressed: cursor, start: shape });
                true
            },
            Some(PressTarget::ScaleHandle(p)) => match p.entity {
                Some(h) => {
                    self.session = ManipulationSession::Scaling {
                        grab: Grab { shape: h, pressed: cursor, start: shape },
                        direction: p.location,
                        frame,
                    };
                    true
                },
                None => false,
            },
            Some(PressTarget::RotateHandle(p)) => match p.entity {
                Some(h) => {
                    self.session = ManipulationSession::Rotating(Grab { shape: h, pressed: cursor, start: shape });
                    true
                },
                None => false,
            },
        }
    }

    /// The transform of the session's shape with the pointer at `cursor`.
    /// While rotating, `turn` is the angle swept from the press vector to the
    /// cursor vector, both taken from the shape's translation (see
    /// `rotation_arms`). `None` when idle, or when the result would leave the
    /// coordinate range.
    pub fn drag(&self, cursor: Point, turn: i64) -> (r: Option<(ShapeHandle, Affine)>)
        requires
            self.wf(),
            cursor.bounded(),
            within(turn as int, FULL_TURN as int),
        ensures
            match self.session {
                ManipulationSession::Idle => r is None,
                ManipulationSession::Moving(g) => r == for_shape(g.shape, move_result(g, cursor)),
                ManipulationSession::Scaling { grab, direction, frame } => r == for_shape(
                    grab.shape,
                    scale_result(grab, direction, frame, cursor),
                ),
                ManipulationSession::Rotating(g) => r == Some((g.shape, rotate_result(g, turn as int))),
            },
    {
        match self.session {
            ManipulationSession::Idle => None,
            ManipulationSession::Moving(g) => {
                let offset = point_from_positions(g.pressed, g.start.translation);
                let tx = cursor.x - offset.x;
                let ty = cursor.y - offset.y;
                if -COORD_LIMIT <= tx && tx <= COORD_LIMIT && -COORD_LIMIT <= ty && ty <= COORD_LIMIT {
                    Some((g.shape, Affine { translation: Point { x: tx, y: ty }, ..g.start }))
                } else {
                    None
                }
            },
            ManipulationSession::Scaling { grab, direction, frame } => {
                match scale_drag(grab, direction, frame, cursor) {
                    Some(a) => Some((grab.shape, a)),
                    None => None,
                }
            },
            ManipulationSession::Rotating(g) => {
                let sum = g.start.rotation as i64 + turn + FULL_TURN;
                let r = sum % FULL_TURN;
                proof {
                    vstd::arithmetic::div_mod::lemma_mod_add_multiples_vanish(
                        g.start.rotation + turn,
                        FULL_TURN as int,
                    );
                }
                Some((g.shape, Affine { rotation: r as u32, ..g.start }))
            },
        }
    }

    /// While rotating: the vectors from the shape's translation to the press
    /// and to `cursor`, whose angle the host measures for `drag`.
    pub fn rotation_arms(&self, cursor: Point) -> (r: Option<(Point, Point)>)
        requires
            self.wf(),
            cursor.bounded(),
        ensures
            match self.session {
                ManipulationSession::Rotating(g) => r == Some(
                    (
                        Point {
                            x: (g.pressed.x - g.start.translation.x) as i64,
                            y: (g.pressed.y - g.start.translation.y) as i64,
                        },
                        Point {
                            x: (cursor.x - g.start.translation.x) as i64,
                            y: (cursor.y - g.start.translation.y) as i64,
                        },
                    ),
                ),
                _ => r is None,
            },
    {
        match self.session {
            ManipulationSession::Rotating(g) => Some(
                (
                    point_from_positions(g.pressed, g.start.translation),
                    point_from_positions(cursor, g.start.translation),
                ),
            ),
            _ => None,
        }
    }

    /// The button went up: whatever the session, it ends. Gives the shape it
    /// worked on, if any, so that its origin can be recentered.
    pub fn release(&mut self) -> (r: Option<ShapeHandle>)
        requires
            old(self).wf(),
        ensures
            final(self).wf(),
            final(self).session is Idle,
            r == match old(self).session {
                ManipulationSession::Idle => None,
                ManipulationSession::Moving(g) => Some(g.shape),
                ManipulationSession::Scaling { grab, .. } => Some(grab.shape),
                ManipulationSession::Rotating(g) => Some(g.shape),
            },
    {
        let r = match self.session {
            ManipulationSession::Idle => None,
            ManipulationSession::Moving(g) => Some(g.shape),
            ManipulationSession::Scaling { grab, .. } => Some(grab.shape),
            ManipulationSession::Rotating(g) => Some(g.shape),
        };
        self.session = ManipulationSession::Idle;
        r
    }
}

proof fn lemma_mul_unit(v: int, u: int)
    requires
        -1 <= u <= 1,
    ensures
        v * u == if u == 0 { 0 } else if u == 1 { v } else { -v },
{
    if u == -1 {
        assert(v * u == -v) by (nonlinear_arith)
            requires
                u == -1,
        ;
    }
}

fn in_limit(v: i64) -> (r: bool)
    ensures
        r == within(v as int, COORD_LIMIT as int),
{
    -COORD_LIMIT <= v && v <= COORD_LIMIT
}

/// The transform while a scale handle with direction `dir` is dragged to
/// `cursor`, as `scale_result` states it.
fn scale_drag(g: Grab, dir: Direction, frame: Frame, cursor: Point) -> (r: Option<Affine>)
    requires
        g.wf(),
        dir.wf(),
        frame.wf(),
        cursor.bounded(),
    ensures
        r == scale_result(g, dir, frame, cursor),
{
    let d = point_from_positions(cursor, g.pressed);
    assert(mag(d) <= 2 * COORD_LIMIT);
    let l = global_vec_to_local(d, frame);
    let mx: i64 = if dir.x == 0 { 0 } else if dir.x == 1 { l.x } else { -l.x };
    let my: i64 = if dir.y == 0 { 0 } else if dir.y == 1 { l.y } else { -l.y };
    proof {
        lemma_mul_unit(l.x as int, dir.x as int);
        lemma_mul_unit(l.y as int, dir.y as int);
    }
    let ex = g.start.scale.extent.x + mx;
    let ey = g.start.scale.extent.y + my;
    let kept = Point { x: if dir.x == 0 { 0 } else { l.x }, y: if dir.y == 0 { 0 } else { l.y } };
    assert(mag(kept) <= 4 * COORD_LIMIT);
    let back = frame.inverse();
    let o = global_vec_to_local(kept, back);
    let tx = g.start.translation.x + div_floor(o.x, 2);
    let ty = g.start.translation.y + div_floor(o.y, 2);
    if in_limit(tx) && in_limit(ty) && in_limit(ex) && in_limit(ey) {
        let a = Affine {
            translation: Point { x: tx, y: ty },
            scale: Scale { extent: Point { x: ex, y: ey }, base: g.start.scale.base },
            rotation: g.start.rotation,
        };
        proof {
            let l2 = local_delta(g, frame, cursor);
            assert(kept == Point {
                x: (l2.0 * (if dir.x == 0 { 0int } else { 1int })) as i64,
                y: (l2.1 * (if dir.y == 0 { 0int } else { 1int })) as i64,
            });
        }
        Some(a)
    } else {
        None
    }
}

/// Scaling by the handle at (1, 1) and then by the handle at (-1, -1),
/// with the same pointer movement and rotation in both drags, gives back
/// the half-extent that the shape started with, and so its scale; the
/// rotation is untouched.
pub proof fn lemma_scale_round_trip(
    h: ShapeHandle,
    a: Affine,
    f: Frame,
    p1: Point,
    c1: Point,
    p2: Point,
    c2: Point,
)
    requires
        a.wf(),
        f.wf(),
        p1.bounded(),
        c1.bounded(),
        p2.bounded(),
        c2.bounded(),
        c2.x - p2.x == c1.x - p1.x,
        c2.y - p2.y == c1.y - p1.y,
    ensures
        ({
            let up = Direction { x: 1, y: 1 };
            let down = Direction { x: -1i64, y: -1i64 };
            match scale_result(Grab { shape: h, pressed: p1, start: a }, up, f, c1) {
                Some(a1) => {
                    let g2 = Grab { shape: h, pressed: p2, start: a1 };
                    &&& scaled_extent(g2, down, f, c2) == (
                        a.scale.extent.x as int,
                        a.scale.extent.y as int,
                    )
                    &&& match scale_result(g2, down, f, c2) {
                        Some(a2) => a2.scale == a.scale && a2.rotation == a.rotation,
                        None => true,
                    }
                },
                None => true,
            }
        }),
{
    let g1 = Grab { shape: h, pressed: p1, start: a };
    assert(delta(g1, c1) == delta(Grab { shape: h, pressed: p2, start: a }, c2));
    let up = Direction { x: 1, y: 1 };
    let down = Direction { x: -1i64, y: -1i64 };
    match scale_result(g1, up, f, c1) {
        Some(a1) => {
            let g2 = Grab { shape: h, pressed: p2, start: a1 };
            assert(delta(g2, c2) == delta(g1, c1));
            assert(local_delta(g2, f, c2) == local_delta(g1, f, c1));
        },
        None => {},
    }
}

/// Turning by an angle and then by its opposite gives back the rotation.
pub proof fn lemma_rotation_round_trip(h: ShapeHandle, a: Affine, p1: Point, p2: Point, theta: int)
    requires
        within(theta, FULL_TURN as int),
    ensures
        ({
            let a1 = rotate_result(Grab { shape: h, pressed: p1, start: a }, theta);
            rotate_result(Grab { shape: h, pressed: p2, start: a1 }, -theta).rotation == a.rotation
        }),
{
    let t = FULL_TURN as int;
    let r = a.rotation as int;
    let r1 = turned(r, theta);
    vstd::arithmetic::div_mod::lemma_mod_bound(r + theta, t);
    assert((r1 as u32) as int == r1);
    vstd::arithmetic::div_mod::lemma_add_mod_noop_right(-theta, r + theta, t);
    assert(-theta + (r + theta) == r);
    vstd::arithmetic::div_mod::lemma_small_mod(r as nat, t as nat);
    assert(turned(r1, -theta) == r);
}

/// The path origin and translation after recentering on `bbox`, the box of
/// the drawn path in the shape's local coordinates: the origin moves by
/// minus the box center and the translation by the center, so the shape
/// stays where it is on screen. `None` where either would leave the range.
pub open spec fn recentered(origin: Point, translation: Point, bbox: BoundingBox) -> Option<
    (Point, Point),
> {
    let c = bbox.center_spec();
    let o = (origin.x - c.0, origin.y - c.1);
    let t = (translation.x + c.0, translation.y + c.1);
    if in_range(o) && in_range(t) {
        Some((to_point(o), to_point(t)))
    } else {
        None
    }
}

/// Moves the path's origin to the center of its drawn box `bbox` (given in
/// the shape's local coordinates) and moves the translation the other way.
/// Gives the change of the origin, or `None`, with nothing changed, where
/// the result would leave the coordinate range.
pub fn update_origin(shape: &mut CustomShapeRaw, transform: &mut Affine, bbox: &BoundingBox) -> (r:
    Option<Point>)
    requires
        old(shape).origin.bounded(),
        old(transform).wf(),
        bbox.wf(),
    ensures
        match recentered(old(shape).origin, old(transform).translation, *bbox) {
            Some((o, t)) => {
                &&& r == Some(
                    Point { x: (o.x - old(shape).origin.x) as i64, y: (o.y - old(shape).origin.y) as i64 },
                )
                &&& final(shape).origin == o
                &&& final(shape).segments@ == old(shape).segments@
                &&& final(shape).closed == old(shape).closed
                &&& *final(transform) == Affine { translation: t, ..*old(transform) }
                &&& final(transform).wf()
            },
            None => r is None && final(shape).origin == old(shape).origin && final(shape).segments@
                == old(shape).segments@ && final(shape).closed == old(shape).closed
                && *final(transform) == *old(transform),
        },
{
    let c = bbox.center();
    let ox = shape.origin.x - c.x;
    let oy = shape.origin.y - c.y;
    let tx = transform.translation.x + c.x;
    let ty = transform.translation.y + c.y;
    if in_limit(ox) && in_limit(oy) && in_limit(tx) && in_limit(ty) {
        shape.origin = Point { x: ox, y: oy };
        transform.translation = Point { x: tx, y: ty };
        Some(Point { x: -c.x, y: -c.y })
    } else {
        None
    }
}

/// Recentering a second time, on the box as the first recentering moved
/// it, changes nothing: the box is centered on the origin already.
pub proof fn lemma_recenter_idempotent(origin: Point, translation: Point, bbox: BoundingBox)
    requires
        bbox.wf(),
    ensures
        match recentered(origin, translation, bbox) {
            Some((o, t)) => {
                let moved = bbox.shifted(o.x - origin.x, o.y - origin.y);
                &&& moved.center_spec() == (0int, 0int)
                &&& recentered(o, t, moved) == Some((o, t))
            },
            None => true,
        },
{
    match recentered(origin, translation, bbox) {
        Some((o, t)) => {
            let c = bbox.center_spec();
            let moved = bbox.shifted(o.x - origin.x, o.y - origin.y);
            lemma_half_shift(bbox.min.x + bbox.max.x, c.0);
            lemma_half_shift(bbox.min.y + bbox.max.y, c.1);
            assert(moved.center_spec() == (0int, 0int));
        },
        None => {},
    }
}

proof fn lemma_half_shift(s: int, c: int)
    requires
        c == s / 2,
    ensures
        (s - 2 * c) / 2 == 0,
{
    vstd::arithmetic::div_mod::lemma_fundamental_div_mod(s, 2);
}

} // verus!
