use vstd::prelude::*;
use crate::editor::ShapeHandle;

verus! {

/// A shape that the order names is not known.
#[derive(Clone, Copy, Debug, PartialEq, Eq, Structural)]
pub enum OrderError {
    NotFound(ShapeHandle),
}

/// A request to move a shape one step in the order, or to drop it.
#[derive(Clone, Copy, Debug, PartialEq, Eq, Structural)]
pub struct ChangedOrderEvent {
    pub entity: ShapeHandle,
    /// Towards the top; otherwise towards the bottom.
    pub change_up: bool,
    /// The shape is gone; the direction does not matter.
    pub removed: bool,
}

/// `s` with the entries at `i` and `j` exchanged.
pub open spec fn swapped(s: Seq<ShapeHandle>, i: int, j: int) -> Seq<ShapeHandle> {
    s.update(i, s[j]).update(j, s[i])
}

/// `s` with `h` on top, unless it is there already.
pub open spec fn pushed(s: Seq<ShapeHandle>, h: ShapeHandle) -> Seq<ShapeHandle> {
    if s.contains(h) {
        s
    } else {
        s.push(h)
    }
}

/// `s` with `h` exchanged with its neighbour above (or below); unchanged
/// where there is no such neighbour.
pub open spec fn stepped(s: Seq<ShapeHandle>, h: ShapeHandle, up: bool) -> Seq<ShapeHandle> {
    let i = s.index_of(h);
    if up {
        if i + 1 < s.len() {
            swapped(s, i, i + 1)
        } else {
            s
        }
    } else {
        if i >= 1 {
            swapped(s, i - 1, i)
        } else {
            s
        }
    }
}

/// `s` without `h`.
pub open spec fn removed(s: Seq<ShapeHandle>, h: ShapeHandle) -> Seq<ShapeHandle> {
    s.remove(s.index_of(h))
}

/// The order after one event, or `None` where its shape is not in it.
pub open spec fn changed(s: Seq<ShapeHandle>, e: ChangedOrderEvent) -> Option<Seq<ShapeHandle>> {
    if !s.contains(e.entity) {
        None
    } else if e.removed {
        Some(removed(s, e.entity))
    } else {
        Some(stepped(s, e.entity, e.change_up))
    }
}

/// The order after the events, first to last, or `None` where one of them
/// names a shape that is not in the order at its turn.
pub open spec fn changed_all(s: Seq<ShapeHandle>, es: Seq<ChangedOrderEvent>) -> Option<
    Seq<ShapeHandle>,
>
    decreases es.len(),
{
    if es.len() == 0 {
        Some(s)
    } else {
        match changed_all(s, es.drop_last()) {
            Some(t) => changed(t, es.last()),
            None => None,
        }
    }
}

/// The order after registering each of `hs`, first to last.
pub open spec fn pushed_all(s: Seq<ShapeHandle>, hs: Seq<ShapeHandle>) -> Seq<ShapeHandle>
    decreases hs.len(),
{
    if hs.len() == 0 {
        s
    } else {
        pushed(pushed_all(s, hs.drop_last()), hs.last())
    }
}

proof fn lemma_unique_index(s: Seq<ShapeHandle>, i: int, h: ShapeHandle)
    requires
        s.no_duplicates(),
        0 <= i < s.len(),
        s[i] == h,
    ensures
        s.contains(h),
        s.index_of(h) == i,
{
    assert(s.contains(h));
}

proof fn lemma_swapped(s: Seq<ShapeHandle>, i: int, j: int)
    requires
        s.no_duplicates(),
        0 <= i < j < s.len(),
    ensures
        swapped(s, i, j).no_duplicates(),
        swapped(s, i, j).len() == s.len(),
        forall|x: ShapeHandle| #[trigger] swapped(s, i, j).contains(x) <==> s.contains(x),
{
    let t = swapped(s, i, j);
    assert forall|x: int, y: int| 0 <= x < y < t.len() implies t[x] != t[y] by {
        let px = if x == i { j } else if x == j { i } else { x };
        let py = if y == i { j } else if y == j { i } else { y };
        assert(t[x] == s[px]);
        assert(t[y] == s[py]);
    }
    assert forall|x: ShapeHandle| #[trigger] t.contains(x) <==> s.contains(x) by {
        if t.contains(x) {
            let k = choose|k: int| 0 <= k < t.len() && t[k] == x;
            let pk = if k == i { j } else if k == j { i } else { k };
            assert(s[pk] == x);
        }
        if s.contains(x) {
            let k = choose|k: int| 0 <= k < s.len() && s[k] == x;
            let pk = if k == i { j } else if k == j { i } else { k };
            assert(t[pk] == x);
        }
    }
}

proof fn lemma_removed(s: Seq<ShapeHandle>, h: ShapeHandle)
    requires
        s.no_duplicates(),
        s.contains(h),
    ensures
        removed(s, h).no_duplicates(),
        removed(s, h).len() == s.len() - 1,
        forall|x: ShapeHandle| #[trigger] removed(s, h).contains(x) <==> (s.contains(x) && x != h),
{
    let i = s.index_of(h);
    let t = removed(s, h);
    s.remove_ensures(i);
    assert forall|x: int, y: int| 0 <= x < y < t.len() implies t[x] != t[y] by {
        let px = if x < i { x } else { x + 1 };
        let py = if y < i { y } else { y + 1 };
        assert(t[x] == s[px]);
        assert(t[y] == s[py]);
    }
    assert forall|x: ShapeHandle| #[trigger] t.contains(x) <==> (s.contains(x) && x != h) by {
        if t.contains(x) {
            let k = choose|k: int| 0 <= k < t.len() && t[k] == x;
            let pk = if k < i { k } else { k + 1 };
            assert(s[pk] == x);
        }
        if s.contains(x) && x != h {
            let k = choose|k: int| 0 <= k < s.len() && s[k] == x;
            assert(k != i);
            let pk = if k < i { k } else { k - 1 };
            assert(t[pk] == x);
        }
    }
}

proof fn lemma_pushed(s: Seq<ShapeHandle>, h: ShapeHandle)
    requires
        s.no_duplicates(),
    ensures
        pushed(s, h).no_duplicates(),
        forall|x: ShapeHandle| #[trigger] pushed(s, h).contains(x) <==> (s.contains(x) || x == h),
{
    if !s.contains(h) {
        let t = s.push(h);
        assert forall|a: int, b: int| 0 <= a < b < t.len() implies t[a] != t[b] by {
            if b == t.len() - 1 {
                assert(s[a] == t[a]);
            }
        }
        assert forall|x: ShapeHandle| #[trigger] t.contains(x) <==> (s.contains(x) || x == h) by {
            if t.contains(x) && x != h {
                let k = choose|k: int| 0 <= k < t.len() && t[k] == x;
                assert(s[k] == x);
            }
            if s.contains(x) {
                let k = choose|k: int| 0 <= k < s.len() && s[k] == x;
                assert(t[k] == x);
            }
            if x == h {
                assert(t[t.len() - 1] == x);
            }
        }
    }
}

proof fn lemma_stepped(s: Seq<ShapeHandle>, h: ShapeHandle, up: bool)
    requires
        s.no_duplicates(),
        s.contains(h),
    ensures
        stepped(s, h, up).no_duplicates(),
        forall|x: ShapeHandle| #[trigger] stepped(s, h, up).contains(x) <==> s.contains(x),
{
    let i = s.index_of(h);
    if up && i + 1 < s.len() {
        lemma_swapped(s, i, i + 1);
    } else if !up && i >= 1 {
        lemma_swapped(s, i - 1, i);
    }
}

/// The back-to-front order of the shapes: index 0 is drawn first. Each
/// shape appears at most once.
#[derive(Debug)]
pub struct OrderedShapes {
    order: Vec<ShapeHandle>,
}

impl View for OrderedShapes {
    type V = Seq<ShapeHandle>;

    closed spec fn view(&self) -> Seq<ShapeHandle> {
        self.order@
    }
}

impl OrderedShapes {
    pub open spec fn wf(&self) -> bool {
        self@.no_duplicates()
    }

    pub fn new() -> (r: OrderedShapes)
        ensures
            r.wf(),
            r@ == Seq::<ShapeHandle>::empty(),
    {
        OrderedShapes { order: Vec::new() }
    }

    pub fn len(&self) -> (r: usize)
        ensures
            r == self@.len(),
    {
        self.order.len()
    }

    /// The shapes from bottom to top.
    pub fn handles(&self) -> (r: &Vec<ShapeHandle>)
        ensures
            r@ == self@,
    {
        &self.order
    }

    /// Where `h` stands in the order, counted from the bottom.
    pub fn position(&self, h: ShapeHandle) -> (r: Option<usize>)
        requires
            self.wf(),
        ensures
            r is None <==> !self@.contains(h),
            r is Some ==> r.unwrap() < self@.len() && r.unwrap() == self@.index_of(h) && self@[r.unwrap() as int] == h,
    {
        let mut i: usize = 0;
        while i < self.order.len()
            invariant
                self.wf(),
                i <= self.order.len(),
                forall|k: int| 0 <= k < i ==> self.order@[k] != h,
            decreases self.order.len() - i,
        {
            if self.order[i] == h {
                proof {
                    lemma_unique_index(self@, i as int, h);
                }
                return Some(i);
            }
            i = i + 1;
        }
        None
    }

    /// Puts `h` on top of the order. A shape that is there already stays
    /// where it is; the result says whether `h` was added.
    pub fn push_top(&mut self, h: ShapeHandle) -> (r: bool)
        requires
            old(self).wf(),
        ensures
            final(self).wf(),
            r == !old(self)@.contains(h),
            final(self)@ == pushed(old(self)@, h),
    {
        match self.position(h) {
            Some(_) => false,
            None => {
                self.order.push(h);
                proof {
                    lemma_pushed(old(self)@, h);
                }
                true
            },
        }
    }

    /// Exchanges `h` with its neighbour above (`up`) or below. At the top
    /// (or bottom) nothing changes.
    pub fn move_step(&mut self, h: ShapeHandle, up: bool) -> (r: Result<(), OrderError>)
        requires
            old(self).wf(),
        ensures
            final(self).wf(),
            r is Err <==> !old(self)@.contains(h),
            r is Err ==> r == Err::<(), OrderError>(OrderError::NotFound(h)) && final(self)@
                == old(self)@,
            r is Ok ==> final(self)@ == stepped(old(self)@, h, up),
    {
        match self.position(h) {
            None => Err(OrderError::NotFound(h)),
            Some(i) => {
                let n = self.order.len();
                if up {
                    if i + 1 < n {
                        self.swap(i, i + 1);
                    }
                } else if i >= 1 {
                    self.swap(i - 1, i);
                }
                Ok(())
            },
        }
    }

    fn swap(&mut self, i: usize, j: usize)
        requires
            old(self).wf(),
            i < j < old(self)@.len(),
        ensures
            final(self).wf(),
            final(self)@ == swapped(old(self)@, i as int, j as int),
    {
        let a = self.order[i];
        let b = self.order[j];
        self.order.set(i, b);
        self.order.set(j, a);
        proof {
            assert(self@ =~= swapped(old(self)@, i as int, j as int));
            lemma_swapped(old(self)@, i as int, j as int);
        }
    }

    /// Takes `h` out of the order; the others keep their relative order.
    pub fn remove(&mut self, h: ShapeHandle) -> (r: Result<(), OrderError>)
        requires
            old(self).wf(),
        ensures
            final(self).wf(),
            r is Err <==> !old(self)@.contains(h),
            r is Err ==> r == Err::<(), OrderError>(OrderError::NotFound(h)) && final(self)@
                == old(self)@,
            r is Ok ==> final(self)@ == removed(old(self)@, h),
    {
        match self.position(h) {
            None => Err(OrderError::NotFound(h)),
            Some(i) => {
                self.order.remove(i);
                proof {
                    let s = old(self)@;
                    s.remove_ensures(i as int);
                    assert(self@ =~= s.remove(i as int));
                    lemma_removed(s, h);
                }
                Ok(())
            },
        }
    }
}

/// A shape of the scene and the depth it is drawn at.
#[derive(Clone, Copy, Debug, PartialEq, Eq, Structural)]
pub struct ShapeBase {
    pub handle: ShapeHandle,
    pub depth: usize,
}

/// Some shape of `shapes` has handle `h`.
pub open spec fn has_shape(shapes: Seq<ShapeBase>, h: ShapeHandle) -> bool {
    exists|j: int| 0 <= j < shapes.len() && #[trigger] shapes[j].handle == h
}

/// Registers the shapes created this frame on top of the order, then
/// applies this frame's order changes, first to last. Where a change names
/// a shape that is not in the order at its turn, no change of this frame
/// is applied and the error names that shape; the new shapes stay registered.
pub fn calculate_overlap_order(
    ordered: &mut OrderedShapes,
    new_objects: &Vec<ShapeHandle>,
    changes: &Vec<ChangedOrderEvent>,
) -> (r: Result<(), OrderError>)
    requires
        old(ordered).wf(),
    ensures
        final(ordered).wf(),
        ({
            let base = pushed_all(old(ordered)@, new_objects@);
            match changed_all(base, changes@) {
                Some(t) => r is Ok && final(ordered)@ == t,
                None => r is Err && final(ordered)@ == base,
            }
        }),
{
    let mut k: usize = 0;
    while k < new_objects.len()
        invariant
            k <= new_objects@.len(),
            ordered.wf(),
            ordered@ == pushed_all(old(ordered)@, new_objects@.take(k as int)),
        decreases new_objects@.len() - k,
    {
        ordered.push_top(new_objects[k]);
        assert(new_objects@.take(k + 1).drop_last() =~= new_objects@.take(k as int));
        k = k + 1;
    }
    assert(new_objects@.take(k as int) =~= new_objects@);
    let ghost base = ordered@;
    let mut work = OrderedShapes { order: Vec::new() };
    let mut c: usize = 0;
    while c < ordered.order.len()
        invariant
            c <= ordered.order@.len(),
            work.order@ == ordered.order@.take(c as int),
        decreases ordered.order@.len() - c,
    {
        work.order.push(ordered.order[c]);
        assert(ordered.order@.take(c + 1) =~= ordered.order@.take(c as int).push(ordered.order@[c as int]));
        c = c + 1;
    }
    assert(work@ =~= base);
    let mut e: usize = 0;
    while e < changes.len()
        invariant
            e <= changes@.len(),
            work.wf(),
            ordered@ == base,
            ordered.wf(),
            base == pushed_all(old(ordered)@, new_objects@),
            changed_all(base, changes@.take(e as int)) == Some(work@),
        decreases changes@.len() - e,
    {
        let ev = changes[e];
        assert(changes@.take(e + 1).drop_last() =~= changes@.take(e as int));
        let step = if ev.removed {
            work.remove(ev.entity)
        } else {
            work.move_step(ev.entity, ev.change_up)
        };
        match step {
            Err(err) => {
                proof {
                    lemma_changed_all_fails(base, changes@, (e + 1) as int);
                }
                return Err(err);
            },
            Ok(()) => {},
        }
        e = e + 1;
    }
    assert(changes@.take(e as int) =~= changes@);
    *ordered = work;
    Ok(())
}

proof fn lemma_changed_all_fails(s: Seq<ShapeHandle>, es: Seq<ChangedOrderEvent>, n: int)
    requires
        0 <= n <= es.len(),
        changed_all(s, es.take(n)) is None,
    ensures
        changed_all(s, es) is None,
    decreases es.len() - n,
{
    if n < es.len() {
        assert(es.take(n + 1).drop_last() =~= es.take(n));
        lemma_changed_all_fails(s, es, n + 1);
    } else {
        assert(es.take(n) =~= es);
    }
}

/// Gives each shape the depth of its place in the order (0 at the bottom);
/// shapes that the order does not name keep theirs. Where the order names a
/// shape that `shapes` lacks, nothing changes and the error names it.
pub fn apply_overlap_order(ordered: &OrderedShapes, shapes: &mut Vec<ShapeBase>) -> (r: Result<
    (),
    OrderError,
>)
    requires
        ordered.wf(),
    ensures
        r is Ok <==> (forall|k: int|
            0 <= k < ordered@.len() ==> has_shape(old(shapes)@, #[trigger] ordered@[k])),
        r is Err ==> *final(shapes) == *old(shapes) && (match r {
            Err(OrderError::NotFound(h)) => ordered@.contains(h) && !has_shape(old(shapes)@, h),
            _ => true,
        }),
        r is Ok ==> final(shapes)@.len() == old(shapes)@.len() && forall|j: int|
            0 <= j < old(shapes)@.len() ==> {
                let before = #[trigger] old(shapes)@[j];
                let after = final(shapes)@[j];
                &&& after.handle == before.handle
                &&& after.depth == if ordered@.contains(before.handle) {
                    ordered@.index_of(before.handle)
                } else {
                    before.depth as int
                }
            },
{
    let order = ordered.handles();
    let mut k: usize = 0;
    while k < order.len()
        invariant
            k <= order@.len(),
            order@ == ordered@,
            forall|i: int| 0 <= i < k ==> has_shape(shapes@, #[trigger] order@[i]),
        decreases order@.len() - k,
    {
        let h = order[k];
        let mut j: usize = 0;
        let mut found = false;
        while j < shapes.len() && !found
            invariant
                j <= shapes@.len(),
                found ==> has_shape(shapes@, h),
                !found ==> forall|i: int| 0 <= i < j ==> shapes@[i].handle != h,
            decreases shapes@.len() - j,
        {
            if shapes[j].handle == h {
                found = true;
            }
            j = j + 1;
        }
        if !found {
            proof {
                assert(order@.contains(h)) by {
                    assert(order@[k as int] == h);
                }
            }
            return Err(OrderError::NotFound(h));
        }
        k = k + 1;
    }
    let ghost before = shapes@;
    let mut j: usize = 0;
    while j < shapes.len()
        invariant
            ordered.wf(),
            j <= shapes@.len(),
            shapes@.len() == before.len(),
            forall|i: int| j <= i < before.len() ==> shapes@[i] == before[i],
            forall|i: int|
                0 <= i < j ==> {
                    let b = #[trigger] before[i];
                    let a = shapes@[i];
                    &&& a.handle == b.handle
                    &&& a.depth == if ordered@.contains(b.handle) {
                        ordered@.index_of(b.handle)
                    } else {
                        b.depth as int
                    }
                },
        decreases shapes@.len() - j,
    {
        let s = shapes[j];
        match ordered.position(s.handle) {
            Some(i) => {
                shapes.set(j, ShapeBase { handle: s.handle, depth: i });
            },
            None => {},
        }
        j = j + 1;
    }
    Ok(())
}

/// One operation on the order, for stating what a sequence of them does.
#[derive(Clone, Copy, Debug, PartialEq, Eq, Structural)]
pub enum OrderOp {
    Push(ShapeHandle),
    Change(ChangedOrderEvent),
}

/// The order after one operation; a change that names a missing shape
/// leaves it as it was.
pub open spec fn applied(s: Seq<ShapeHandle>, op: OrderOp) -> Seq<ShapeHandle> {
    match op {
        OrderOp::Push(h) => pushed(s, h),
        OrderOp::Change(e) => match changed(s, e) {
            Some(t) => t,
            None => s,
        },
    }
}

/// The order after the operations, first to last.
pub open spec fn applied_all(s: Seq<ShapeHandle>, ops: Seq<OrderOp>) -> Seq<ShapeHandle>
    decreases ops.len(),
{
    if ops.len() == 0 {
        s
    } else {
        applied(applied_all(s, ops.drop_last()), ops.last())
    }
}

/// `h` was pushed by one of the operations and not removed after that.
pub open spec fn live_after(ops: Seq<OrderOp>, h: ShapeHandle) -> bool
    decreases ops.len(),
{
    if ops.len() == 0 {
        false
    } else {
        match ops.last() {
            OrderOp::Push(x) => x == h || live_after(ops.drop_last(), h),
            OrderOp::Change(e) => if e.entity == h && e.removed {
                false
            } else {
                live_after(ops.drop_last(), h)
            },
        }
    }
}

/// Starting from an empty order, any sequence of pushes, steps and removals
/// leaves each shape that was pushed and not removed since in the order
/// exactly once, and no other shape.
pub proof fn lemma_order_holds_live_shapes_once(ops: Seq<OrderOp>)
    ensures
        applied_all(Seq::empty(), ops).no_duplicates(),
        forall|h: ShapeHandle|
            #[trigger] applied_all(Seq::empty(), ops).contains(h) <==> live_after(ops, h),
    decreases ops.len(),
{
    if ops.len() > 0 {
        lemma_order_holds_live_shapes_once(ops.drop_last());
        let s = applied_all(Seq::<ShapeHandle>::empty(), ops.drop_last());
        match ops.last() {
            OrderOp::Push(x) => {
                lemma_pushed(s, x);
            },
            OrderOp::Change(e) => {
                if s.contains(e.entity) {
                    if e.removed {
                        lemma_removed(s, e.entity);
                    } else {
                        lemma_stepped(s, e.entity, e.change_up);
                    }
                }
            },
        }
    }
}

/// A step towards a boundary that the shape already occupies changes nothing.
pub proof fn lemma_step_at_boundary_is_noop(s: Seq<ShapeHandle>)
    requires
        s.no_duplicates(),
        s.len() > 0,
    ensures
        stepped(s, s.last(), true) == s,
        stepped(s, s[0], false) == s,
{
    lemma_unique_index(s, s.len() - 1, s.last());
    lemma_unique_index(s, 0, s[0]);
}

/// The operations that one frame of `calculate_overlap_order` stands for:
/// the new shapes pushed, then the changes.
pub open spec fn frame_ops(hs: Seq<ShapeHandle>, es: Seq<ChangedOrderEvent>) -> Seq<OrderOp> {
    hs.map_values(|h: ShapeHandle| OrderOp::Push(h)) + es.map_values(
        |e: ChangedOrderEvent| OrderOp::Change(e),
    )
}

/// The operations of a run of frames, first to last.
pub open spec fn frames_ops(frames: Seq<(Seq<ShapeHandle>, Seq<ChangedOrderEvent>)>) -> Seq<OrderOp>
    decreases frames.len(),
{
    if frames.len() == 0 {
        Seq::empty()
    } else {
        frames_ops(frames.drop_last()) + frame_ops(frames.last().0, frames.last().1)
    }
}

/// The order after a run of frames of `calculate_overlap_order`, or `None`
/// where one of them ends in an error.
pub open spec fn framed_all(
    s: Seq<ShapeHandle>,
    frames: Seq<(Seq<ShapeHandle>, Seq<ChangedOrderEvent>)>,
) -> Option<Seq<ShapeHandle>>
    decreases frames.len(),
{
    if frames.len() == 0 {
        Some(s)
    } else {
        match framed_all(s, frames.drop_last()) {
            Some(t) => changed_all(pushed_all(t, frames.last().0), frames.last().1),
            None => None,
        }
    }
}

proof fn lemma_applied_all_concat(s: Seq<ShapeHandle>, a: Seq<OrderOp>, b: Seq<OrderOp>)
    ensures
        applied_all(s, a + b) == applied_all(applied_all(s, a), b),
    decreases b.len(),
{
    if b.len() == 0 {
        assert(a + b =~= a);
    } else {
        assert((a + b).drop_last() =~= a + b.drop_last());
        lemma_applied_all_concat(s, a, b.drop_last());
    }
}

proof fn lemma_pushed_all_as_ops(s: Seq<ShapeHandle>, hs: Seq<ShapeHandle>)
    ensures
        pushed_all(s, hs) == applied_all(s, hs.map_values(|h: ShapeHandle| OrderOp::Push(h))),
    decreases hs.len(),
{
    if hs.len() > 0 {
        lemma_pushed_all_as_ops(s, hs.drop_last());
        assert(hs.map_values(|h: ShapeHandle| OrderOp::Push(h)).drop_last() =~= hs.drop_last().map_values(
            |h: ShapeHandle| OrderOp::Push(h),
        ));
    }
}

proof fn lemma_changed_all_as_ops(s: Seq<ShapeHandle>, es: Seq<ChangedOrderEvent>)
    ensures
        changed_all(s, es) matches Some(t) ==> t == applied_all(
            s,
            es.map_values(|e: ChangedOrderEvent| OrderOp::Change(e)),
        ),
    decreases es.len(),
{
    if es.len() > 0 {
        lemma_changed_all_as_ops(s, es.drop_last());
        assert(es.map_values(|e: ChangedOrderEvent| OrderOp::Change(e)).drop_last()
            =~= es.drop_last().map_values(|e: ChangedOrderEvent| OrderOp::Change(e)));
    }
}

proof fn lemma_framed_all_as_ops(
    s: Seq<ShapeHandle>,
    frames: Seq<(Seq<ShapeHandle>, Seq<ChangedOrderEvent>)>,
)
    ensures
        framed_all(s, frames) matches Some(t) ==> t == applied_all(s, frames_ops(frames)),
    decreases frames.len(),
{
    if frames.len() > 0 {
        lemma_framed_all_as_ops(s, frames.drop_last());
        match framed_all(s, frames.drop_last()) {
            Some(t0) => {
                let (hs, es) = frames.last();
                let pushes = hs.map_values(|h: ShapeHandle| OrderOp::Push(h));
                let changes = es.map_values(|e: ChangedOrderEvent| OrderOp::Change(e));
                lemma_pushed_all_as_ops(t0, hs);
                lemma_changed_all_as_ops(pushed_all(t0, hs), es);
                lemma_applied_all_concat(s, frames_ops(frames.drop_last()), pushes + changes);
                lemma_applied_all_concat(t0, pushes, changes);
            },
            None => {},
        }
    }
}

/// Over any run of frames of `calculate_overlap_order` from an empty order
/// in which no frame ends in an error, the order holds each shape that was
/// registered and not removed since exactly once, and no other shape.
pub proof fn lemma_frames_hold_live_shapes_once(
    frames: Seq<(Seq<ShapeHandle>, Seq<ChangedOrderEvent>)>,
)
    ensures
        framed_all(Seq::empty(), frames) matches Some(t) ==> {
            &&& t.no_duplicates()
            &&& forall|h: ShapeHandle| #[trigger] t.contains(h) <==> live_after(frames_ops(frames), h)
        },
{
    lemma_framed_all_as_ops(Seq::empty(), frames);
    lemma_order_holds_live_shapes_once(frames_ops(frames));
}

} // verus!
