use vstd::prelude::*;
use crate::editor::{MouseButtons, MouseMovement};
use crate::geometry::{Point, COORD_LIMIT};
use crate::helpers::{point_from_positions, rotate_around_pivot};

verus! {

/// A release this close to where a path began closes the path.
pub const CLOSE_DISTANCE: i64 = 10;

/// One piece of a path; its points are relative to the path's start.
#[derive(Clone, Copy, Debug, PartialEq, Eq, Structural)]
pub enum ShapeSegment {
    Line(Point),
    QuadraticBezier { ctrl: Point, to: Point },
    CubicBezier { ctrl: Point, ctrl2: Point, to: Point },
}

/// A vector path: its segments in drawing order, whether it is closed, and
/// the offset added to every segment point when it is drawn.
#[derive(Clone, Debug)]
pub struct CustomShapeRaw {
    pub segments: Vec<ShapeSegment>,
    pub closed: bool,
    pub origin: Point,
}

/// Every point of `seg` lies within `limit` on both axes.
pub open spec fn seg_within(seg: ShapeSegment, limit: int) -> bool {
    match seg {
        ShapeSegment::Line(p) => p.within(limit),
        ShapeSegment::QuadraticBezier { ctrl, to } => ctrl.within(limit) && to.within(limit),
        ShapeSegment::CubicBezier { ctrl, ctrl2, to } => ctrl.within(limit) && ctrl2.within(limit)
            && to.within(limit),
    }
}

/// How far from a path's start its segment points may lie.
pub open spec fn segment_limit() -> int {
    4 * COORD_LIMIT
}

/// One drawing instruction for a renderer's path builder, in the shape's
/// local coordinates.
#[derive(Clone, Copy, Debug, PartialEq, Eq, Structural)]
pub enum PathCommand {
    Begin(Point),
    LineTo(Point),
    QuadraticTo { ctrl: Point, to: Point },
    CubicTo { ctrl: Point, ctrl2: Point, to: Point },
    End { close: bool },
}

/// `p` moved by `o`.
pub open spec fn offset(p: Point, o: Point) -> Point {
    Point { x: (p.x + o.x) as i64, y: (p.y + o.y) as i64 }
}

/// The drawing instruction for `seg` on a path drawn from `o`.
pub open spec fn command_of(seg: ShapeSegment, o: Point) -> PathCommand {
    match seg {
        ShapeSegment::Line(p) => PathCommand::LineTo(offset(p, o)),
        ShapeSegment::QuadraticBezier { ctrl, to } => PathCommand::QuadraticTo {
            ctrl: offset(ctrl, o),
            to: offset(to, o),
        },
        ShapeSegment::CubicBezier { ctrl, ctrl2, to } => PathCommand::CubicTo {
            ctrl: offset(ctrl, o),
            ctrl2: offset(ctrl2, o),
            to: offset(to, o),
        },
    }
}

fn shifted_by(p: Point, o: Point) -> (r: Point)
    requires
        p.within(segment_limit()),
        o.bounded(),
    ensures
        r == offset(p, o),
{
    Point { x: p.x + o.x, y: p.y + o.y }
}

impl CustomShapeRaw {
    pub open spec fn wf(&self) -> bool {
        &&& self.origin.bounded()
        &&& forall|i: int|
            0 <= i < self.segments@.len() ==> seg_within(#[trigger] self.segments@[i], segment_limit())
    }

    /// The path as drawing instructions: it begins at the origin, each
    /// segment follows moved by the origin, and it ends closed or open.
    pub fn add_geometry(&self) -> (r: Vec<PathCommand>)
        requires
            self.wf(),
        ensures
            r@.len() == self.segments@.len() + 2,
            r@[0] == PathCommand::Begin(self.origin),
            forall|i: int|
                0 <= i < self.segments@.len() ==> r@[i + 1] == command_of(
                    #[trigger] self.segments@[i],
                    self.origin,
                ),
            r@.last() == (PathCommand::End { close: self.closed }),
    {
        let o = self.origin;
        let mut out: Vec<PathCommand> = Vec::new();
        out.push(PathCommand::Begin(o));
        let mut i: usize = 0;
        while i < self.segments.len()
            invariant
                self.wf(),
                o == self.origin,
                i <= self.segments@.len(),
                out@.len() == i + 1,
                out@[0] == PathCommand::Begin(o),
                forall|k: int| 0 <= k < i ==> out@[k + 1] == command_of(#[trigger] self.segments@[k], o),
            decreases self.segments@.len() - i,
        {
            let seg = self.segments[i];
            let cmd = match seg {
                ShapeSegment::Line(p) => PathCommand::LineTo(shifted_by(p, o)),
                ShapeSegment::QuadraticBezier { ctrl, to } => PathCommand::QuadraticTo {
                    ctrl: shifted_by(ctrl, o),
                    to: shifted_by(to, o),
                },
                ShapeSegment::CubicBezier { ctrl, ctrl2, to } => PathCommand::CubicTo {
                    ctrl: shifted_by(ctrl, o),
                    ctrl2: shifted_by(ctrl2, o),
                    to: shifted_by(to, o),
                },
            };
            out.push(cmd);
            i = i + 1;
        }
        out.push(PathCommand::End { close: self.closed });
        out
    }
}

/// Marks a path under construction; `origin` is the world point where it began.
#[derive(Clone, Copy, Debug, PartialEq, Eq, Structural)]
pub struct Moving {
    pub origin: Point,
}

/// A path under construction together with the point where it began.
#[derive(Clone, Debug)]
pub struct Construction {
    pub shape: CustomShapeRaw,
    pub moving: Moving,
}

/// One editing step of a path under construction, for stating what a
/// sequence of edits does.
#[derive(Clone, Copy, Debug, PartialEq, Eq, Structural)]
pub enum PathEdit {
    /// A straight segment towards the cursor becomes permanent.
    Commit(Point),
    /// The live segment becomes a straight line to the cursor.
    PreviewLine(Point),
    /// The live segment becomes a curve shaped by the cursor around a drag start.
    PreviewCurve { cursor: Point, pivot: Point },
}

/// The straight segment from the path's start to `cursor`.
pub open spec fn line_to(start: Point, cursor: Point) -> ShapeSegment {
    ShapeSegment::Line(Point { x: (cursor.x - start.x) as i64, y: (cursor.y - start.y) as i64 })
}

/// The curve ending at `pivot`, whose control point mirrors `cursor` through `pivot`.
pub open spec fn curve_to(start: Point, pivot: Point, cursor: Point) -> ShapeSegment {
    ShapeSegment::QuadraticBezier {
        ctrl: Point {
            x: (2 * pivot.x - cursor.x - start.x) as i64,
            y: (2 * pivot.y - cursor.y - start.y) as i64,
        },
        to: Point { x: (pivot.x - start.x) as i64, y: (pivot.y - start.y) as i64 },
    }
}

/// The live segment replaced by `seg`.
pub open spec fn with_live(segs: Seq<ShapeSegment>, seg: ShapeSegment) -> Seq<ShapeSegment> {
    segs.update(segs.len() - 1, seg)
}

/// The segments after one edit of a path that began at `start`.
pub open spec fn edited(segs: Seq<ShapeSegment>, start: Point, e: PathEdit) -> Seq<ShapeSegment> {
    match e {
        PathEdit::Commit(c) => segs.push(line_to(start, c)),
        PathEdit::PreviewLine(c) => with_live(segs, line_to(start, c)),
        PathEdit::PreviewCurve { cursor, pivot } => with_live(segs, curve_to(start, pivot, cursor)),
    }
}

/// The segments after a sequence of edits, applied first to last.
pub open spec fn edited_all(segs: Seq<ShapeSegment>, start: Point, es: Seq<PathEdit>) -> Seq<
    ShapeSegment,
>
    decreases es.len(),
{
    if es.len() == 0 {
        segs
    } else {
        edited(edited_all(segs, start, es.drop_last()), start, es.last())
    }
}

/// How many of the edits are commits.
pub open spec fn commits(es: Seq<PathEdit>) -> nat
    decreases es.len(),
{
    if es.len() == 0 {
        0
    } else {
        commits(es.drop_last()) + if es.last() is Commit {
            1nat
        } else {
            0nat
        }
    }
}

/// `pos` lies within `CLOSE_DISTANCE` of `start`.
pub open spec fn closes(start: Point, pos: Point) -> bool {
    (pos.x - start.x) * (pos.x - start.x) + (pos.y - start.y) * (pos.y - start.y) <= CLOSE_DISTANCE
        * CLOSE_DISTANCE
}

/// The segments of a path just begun: one live segment of length zero.
pub open spec fn fresh_segments() -> Seq<ShapeSegment> {
    seq![ShapeSegment::Line(Point { x: 0, y: 0 })]
}

/// A path has as many permanent segments as commits were made on it, and
/// a preview changes the live segment, which is always the last, and no
/// other.
pub proof fn lemma_commits_make_permanent_segments(start: Point, es: Seq<PathEdit>)
    ensures
        edited_all(fresh_segments(), start, es).len() == 1 + commits(es),
        forall|p: PathEdit|
            #![trigger es.push(p)]
            !(p is Commit) ==> {
                let before = edited_all(fresh_segments(), start, es);
                let after = edited_all(fresh_segments(), start, es.push(p));
                &&& after.len() == before.len()
                &&& after.drop_last() == before.drop_last()
                &&& after.last() == match p {
                    PathEdit::PreviewCurve { cursor, pivot } => curve_to(start, pivot, cursor),
                    PathEdit::PreviewLine(c) => line_to(start, c),
                    PathEdit::Commit(c) => line_to(start, c),
                }
            },
    decreases es.len(),
{
    if es.len() > 0 {
        lemma_commits_make_permanent_segments(start, es.drop_last());
    }
    assert forall|p: PathEdit| #![trigger es.push(p)] !(p is Commit) implies {
        let before = edited_all(fresh_segments(), start, es);
        let after = edited_all(fresh_segments(), start, es.push(p));
        &&& after.len() == before.len()
        &&& after.drop_last() == before.drop_last()
        &&& after.last() == match p {
            PathEdit::PreviewCurve { cursor, pivot } => curve_to(start, pivot, cursor),
            PathEdit::PreviewLine(c) => line_to(start, c),
            PathEdit::Commit(c) => line_to(start, c),
        }
    } by {
        let before = edited_all(fresh_segments(), start, es);
        assert(es.push(p).drop_last() == es);
        let after = edited_all(fresh_segments(), start, es.push(p));
        assert(after.drop_last() =~= before.drop_last());
    }
}

/// What one frame of construction does to a builder with a path under
/// construction: `after` and `r` follow from `before` and the input.
pub open spec fn updated(
    before: PathBuilder,
    after: PathBuilder,
    r: Option<Construction>,
    buttons: MouseButtons,
    mouse: MouseMovement,
) -> bool {
    let pivot = if buttons.just_pressed && !mouse.over_ui {
        mouse.position
    } else {
        before.drag_start
    };
    let pos = mouse.position;
    if buttons.just_released && !mouse.over_ui && closes(before.start(), pos) {
        &&& r is Some
        &&& after.active is None
        &&& after.drag_start == pivot
        &&& r.unwrap().shape.closed
        &&& r.unwrap().shape.segments@ == before.segs()
        &&& r.unwrap().shape.origin == before.active.unwrap().shape.origin
        &&& r.unwrap().moving == before.active.unwrap().moving
    } else {
        let e = if buttons.just_released && !mouse.over_ui {
            PathEdit::Commit(pos)
        } else if buttons.pressed {
            PathEdit::PreviewCurve { cursor: pos, pivot }
        } else {
            PathEdit::PreviewLine(pos)
        };
        &&& r is None
        &&& after.active is Some
        &&& after.segs() == edited(before.segs(), before.start(), e)
        &&& after.start() == before.start()
        &&& after.active.unwrap().shape.closed == before.active.unwrap().shape.closed
        &&& after.active.unwrap().shape.origin == before.active.unwrap().shape.origin
        &&& after.drag_start == pivot
    }
}

/// What the creation step does to a builder with no path under construction.
pub open spec fn created(
    before: PathBuilder,
    after: PathBuilder,
    buttons: MouseButtons,
    mouse: MouseMovement,
) -> bool {
    if buttons.just_released && !mouse.over_ui {
        &&& after.active is Some
        &&& after.segs() == fresh_segments()
        &&& after.start() == mouse.position
        &&& !after.active.unwrap().shape.closed
        &&& after.active.unwrap().shape.origin == Point::zero_spec()
        &&& after.drag_start == before.drag_start
    } else {
        after == before
    }
}

/// Builds at most one path at a time from pointer input.
#[derive(Clone, Debug)]
pub struct PathBuilder {
    /// The path under construction, if any.
    pub active: Option<Construction>,
    /// Where the button last went down during construction; curves pivot on it.
    pub drag_start: Point,
}

impl PathBuilder {
    pub open spec fn wf(&self) -> bool {
        &&& self.drag_start.bounded()
        &&& match self.active {
            Some(c) => c.moving.origin.bounded() && c.shape.segments@.len() >= 1
                && !c.shape.closed && c.shape.wf(),
            None => true,
        }
    }

    /// The segments of the path under construction.
    pub open spec fn segs(&self) -> Seq<ShapeSegment> {
        self.active.unwrap().shape.segments@
    }

    /// Where the path under construction began.
    pub open spec fn start(&self) -> Point {
        self.active.unwrap().moving.origin
    }

    /// `self` is `before` with its segments replaced by `segs`.
    pub open spec fn edited_from(&self, before: &PathBuilder, segs: Seq<ShapeSegment>) -> bool {
        &&& self.active is Some
        &&& before.active is Some
        &&& self.segs() == segs
        &&& self.start() == before.start()
        &&& self.active.unwrap().shape.closed == before.active.unwrap().shape.closed
        &&& self.active.unwrap().shape.origin == before.active.unwrap().shape.origin
        &&& self.drag_start == before.drag_start
    }

    pub fn new() -> (r: PathBuilder)
        ensures
            r.wf(),
            r.active is None,
    {
        PathBuilder { active: None, drag_start: Point::zero() }
    }

    /// Starts a path at `origin`; refused while another one is under construction.
    pub fn begin(&mut self, origin: Point) -> (r: bool)
        requires
            old(self).wf(),
            origin.bounded(),
        ensures
            final(self).wf(),
            r == old(self).active is None,
            r ==> final(self).active is Some && final(self).segs() == fresh_segments()
                && final(self).start() == origin && !final(self).active.unwrap().shape.closed
                && final(self).active.unwrap().shape.origin == Point::zero_spec()
                && final(self).drag_start == old(self).drag_start,
            !r ==> *final(self) == *old(self),
    {
        if self.active.is_some() {
            return false;
        }
        let mut segments: Vec<ShapeSegment> = Vec::new();
        segments.push(ShapeSegment::Line(Point::zero()));
        assert(segments@ =~= fresh_segments());
        self.active = Some(
            Construction {
                shape: CustomShapeRaw { segments, closed: false, origin: Point::zero() },
                moving: Moving { origin },
            },
        );
        true
    }

    /// The button went down at `cursor`: curves drawn while it is held
    /// pivot there. Ignored when no path is under construction.
    pub fn press(&mut self, cursor: Point)
        requires
            old(self).wf(),
            cursor.bounded(),
        ensures
            final(self).wf(),
            old(self).active is None ==> *final(self) == *old(self),
            old(self).active is Some ==> final(self).active == old(self).active
                && final(self).drag_start == cursor,
    {
        if self.active.is_some() {
            self.drag_start = cursor;
        }
    }

    /// Replaces the live segment: a straight line to `cursor` while the button
    /// is up, a curve mirrored through the drag start while it is held.
    pub fn preview(&mut self, cursor: Point, pressed: bool)
        requires
            old(self).wf(),
            cursor.bounded(),
        ensures
            final(self).wf(),
            old(self).active is None ==> *final(self) == *old(self),
            old(self).active is Some ==> final(self).edited_from(
                old(self),
                edited(
                    old(self).segs(),
                    old(self).start(),
                    if pressed {
                        PathEdit::PreviewCurve { cursor, pivot: old(self).drag_start }
                    } else {
                        PathEdit::PreviewLine(cursor)
                    },
                ),
            ),
    {
        let pivot = self.drag_start;
        match &mut self.active {
            Some(c) => {
                let last = c.shape.segments.len() - 1;
                let seg = if pressed {
                    ShapeSegment::QuadraticBezier {
                        ctrl: rotate_around_pivot(cursor, c.moving.origin, pivot),
                        to: point_from_positions(pivot, c.moving.origin),
                    }
                } else {
                    ShapeSegment::Line(point_from_positions(cursor, c.moving.origin))
                };
                c.shape.segments.set(last, seg);
            },
            None => {},
        }
    }

    /// Makes the live segment permanent and starts a new straight live
    /// segment towards `cursor`.
    pub fn commit(&mut self, cursor: Point)
        requires
            old(self).wf(),
            cursor.bounded(),
        ensures
            final(self).wf(),
            old(self).active is None ==> *final(self) == *old(self),
            old(self).active is Some ==> final(self).edited_from(
                old(self),
                edited(old(self).segs(), old(self).start(), PathEdit::Commit(cursor)),
            ),
    {
        match &mut self.active {
            Some(c) => {
                c.shape.segments.push(ShapeSegment::Line(point_from_positions(cursor, c.moving.origin)));
            },
            None => {},
        }
    }

    /// Ends the pointer gesture at `cursor`: within `CLOSE_DISTANCE` of the
    /// path's start the path closes and is handed back with its segments as
    /// they are; otherwise a new segment is committed and construction goes on.
    pub fn release(&mut self, cursor: Point) -> (r: Option<Construction>)
        requires
            old(self).wf(),
            cursor.bounded(),
        ensures
            final(self).wf(),
            old(self).active is None ==> r is None && *final(self) == *old(self),
            old(self).active is Some && closes(old(self).start(), cursor) ==> {
                &&& r is Some
                &&& final(self).active is None
                &&& final(self).drag_start == old(self).drag_start
                &&& r.unwrap().shape.closed
                &&& r.unwrap().shape.wf()
                &&& r.unwrap().shape.segments@ == old(self).segs()
                &&& r.unwrap().shape.origin == old(self).active.unwrap().shape.origin
                &&& r.unwrap().moving == old(self).active.unwrap().moving
            },
            old(self).active is Some && !closes(old(self).start(), cursor) ==> r is None
                && final(self).edited_from(
                old(self),
                edited(old(self).segs(), old(self).start(), PathEdit::Commit(cursor)),
            ),
    {
        let near = match &self.active {
            Some(c) => {
                let dx = cursor.x as i128 - c.moving.origin.x as i128;
                let dy = cursor.y as i128 - c.moving.origin.y as i128;
                proof {
                    assert(0 <= dx * dx <= 0x40_0000_0000_0000_0000_0000) by (nonlinear_arith)
                        requires
                            -0x200_0000_0000 <= dx <= 0x200_0000_0000,
                    ;
                    assert(0 <= dy * dy <= 0x40_0000_0000_0000_0000_0000) by (nonlinear_arith)
                        requires
                            -0x200_0000_0000 <= dy <= 0x200_0000_0000,
                    ;
                }
                let limit = (CLOSE_DISTANCE * CLOSE_DISTANCE) as i128;
                Some(dx * dx + dy * dy <= limit)
            },
            None => None,
        };
        match near {
            None => None,
            Some(true) => {
                let mut c = self.active.take().unwrap();
                c.shape.closed = true;
                Some(c)
            },
            Some(false) => {
                self.commit(cursor);
                None
            },
        }
    }

    /// Discards the path under construction; says whether there was one.
    pub fn cancel(&mut self) -> (r: bool)
        requires
            old(self).wf(),
        ensures
            final(self).wf(),
            r == old(self).active is Some,
            final(self).active is None,
            final(self).drag_start == old(self).drag_start,
    {
        let r = self.active.is_some();
        self.active = None;
        r
    }

    /// Starts a path where the button was released over the canvas, when no
    /// path is under construction. Says whether it started one.
    pub fn custom_shape_handle_creation(&mut self, buttons: MouseButtons, mouse: MouseMovement) -> (r:
        bool)
        requires
            old(self).wf(),
            mouse.wf(),
        ensures
            final(self).wf(),
            r == (buttons.just_released && !mouse.over_ui && old(self).active is None),
            old(self).active is None ==> created(*old(self), *final(self), buttons, mouse),
            old(self).active is Some ==> *final(self) == *old(self),
    {
        if buttons.just_released && !mouse.over_ui {
            self.begin(mouse.position)
        } else {
            false
        }
    }

    /// One frame of construction: a press over the canvas sets the drag
    /// start; a release over the canvas closes the path or commits a segment;
    /// otherwise the live segment follows the pointer. Hands back the path
    /// when it closed.
    pub fn custom_shape_handle_update(&mut self, buttons: MouseButtons, mouse: MouseMovement) -> (r:
        Option<Construction>)
        requires
            old(self).wf(),
            mouse.wf(),
        ensures
            final(self).wf(),
            old(self).active is None ==> r is None && *final(self) == *old(self),
            old(self).active is Some ==> updated(*old(self), *final(self), r, buttons, mouse),
    {
        if self.active.is_none() {
            return None;
        }
        if buttons.just_pressed && !mouse.over_ui {
            self.press(mouse.position);
        }
        if buttons.just_released && !mouse.over_ui {
            self.release(mouse.position)
        } else {
            self.preview(mouse.position, buttons.pressed);
            None
        }
    }

    /// One frame of the custom-shape tool: the path under construction is
    /// updated, or, when there is none, a new one may start. A path that
    /// closes in this frame leaves room for a new one only from the next.
    pub fn tick(&mut self, buttons: MouseButtons, mouse: MouseMovement) -> (r: Option<Construction>)
        requires
            old(self).wf(),
            mouse.wf(),
        ensures
            final(self).wf(),
            old(self).active is Some ==> updated(*old(self), *final(self), r, buttons, mouse),
            old(self).active is None ==> r is None && created(*old(self), *final(self), buttons, mouse),
    {
        if self.active.is_some() {
            self.custom_shape_handle_update(buttons, mouse)
        } else {
            self.custom_shape_handle_creation(buttons, mouse);
            None
        }
    }
}

} // verus!
