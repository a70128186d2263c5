use shape_editor::custom_shape::CustomShapeRaw;
use shape_editor::editor::ShapeHandle;
use shape_editor::geometry::{BoundingBox, Frame, Point, FRAME_ONE, FULL_TURN};
use shape_editor::helpers::global_vec_to_local;
use shape_editor::shape_transformation::{
    debug_scale, scale_handle_position, update_origin, Affine, Direction, ManipulationSession, PressTarget, Scale, TransformController,
    TransformRotationPick, TransformScalePick, EIGHTH_TURN,
};

fn p(x: i64, y: i64) -> Point {
    Point::new(x, y)
}

fn square() -> Affine {
    Affine {
        translation: p(0, 0),
        scale: Scale { extent: p(50, 50), base: p(50, 50) },
        rotation: 0,
    }
}

fn scale_handle(x: i64, y: i64) -> Option<PressTarget> {
    Some(PressTarget::ScaleHandle(TransformScalePick {
        location: Direction { x, y },
        entity: Some(ShapeHandle { id: 1 }),
    }))
}

fn rotate_handle() -> Option<PressTarget> {
    Some(PressTarget::RotateHandle(TransformRotationPick {
        location: Direction { x: 1, y: 1 },
        entity: Some(ShapeHandle { id: 1 }),
    }))
}

#[test]
fn local_frame_turns_vectors() {
    let quarter = Frame { cos: 0, sin: FRAME_ONE };
    assert_eq!(global_vec_to_local(p(10, 0), quarter), p(0, -10));
    assert_eq!(global_vec_to_local(p(0, 10), quarter), p(10, 0));
    assert_eq!(global_vec_to_local(p(7, -3), Frame::identity()), p(7, -3));
    assert_eq!(global_vec_to_local(p(0, 0), quarter), p(0, 0));
}

#[test]
fn moving_keeps_the_grab_offset() {
    let mut c = TransformController::new();
    let mut a = square();
    a.translation = p(10, 10);
    assert!(c.press(Some(PressTarget::Body(ShapeHandle { id: 4 })), p(15, 12), a, Frame::identity()));
    let (h, moved) = c.drag(p(40, 30), 0).unwrap();
    assert_eq!(h, ShapeHandle { id: 4 });
    assert_eq!(moved.translation, p(35, 28));
    assert_eq!(moved.scale, a.scale);
    assert_eq!(moved.rotation, a.rotation);
}

#[test]
fn scaling_scenario_from_corner_handle() {
    let mut c = TransformController::new();
    assert!(c.press(scale_handle(1, 1), p(60, 60), square(), Frame::identity()));
    let (_, a) = c.drag(p(80, 90), 0).unwrap();
    assert_eq!(a.scale.extent, p(70, 80));
    assert_eq!(a.scale.extent.x * 10, 14 * a.scale.base.x);
    assert_eq!(a.scale.extent.y * 10, 16 * a.scale.base.y);
    assert_eq!(a.translation, p(10, 15));
}

#[test]
fn edge_handle_scales_one_axis() {
    let mut c = TransformController::new();
    assert!(c.press(scale_handle(-1, 0), p(-50, 0), square(), Frame::identity()));
    let (_, a) = c.drag(p(-70, 33), 0).unwrap();
    assert_eq!(a.scale.extent, p(70, 50));
    assert_eq!(a.translation, p(-10, 0));
}

#[test]
fn scaling_there_and_back_restores_scale() {
    let mut c = TransformController::new();
    c.press(scale_handle(1, 1), p(50, 50), square(), Frame::identity());
    let (_, a1) = c.drag(p(70, 80), 0).unwrap();
    assert_eq!(c.release(), Some(ShapeHandle { id: 1 }));
    c.press(scale_handle(-1, -1), p(-70, -80), a1, Frame::identity());
    let (_, a2) = c.drag(p(-50, -50), 0).unwrap();
    assert_eq!(a2.scale, square().scale);
}

#[test]
fn rotation_there_and_back_restores_rotation() {
    let theta: i64 = FULL_TURN / 8 * 3;
    let mut c = TransformController::new();
    let mut a = square();
    a.rotation = 4_000_000_000;
    c.press(rotate_handle(), p(60, 60), a, Frame::identity());
    let (_, a1) = c.drag(p(0, 90), theta).unwrap();
    assert_eq!(a1.rotation as i64, (4_000_000_000 + theta) % FULL_TURN);
    c.release();
    c.press(rotate_handle(), p(0, 90), a1, Frame::identity());
    let (_, a2) = c.drag(p(60, 60), -theta).unwrap();
    assert_eq!(a2.rotation, a.rotation);
}

#[test]
fn rotation_arms_start_at_the_translation() {
    let mut c = TransformController::new();
    let mut a = square();
    a.translation = p(5, 5);
    c.press(rotate_handle(), p(15, 5), a, Frame::identity());
    assert_eq!(c.rotation_arms(p(5, 25)), Some((p(10, 0), p(0, 20))));
}

#[test]
fn one_session_at_a_time_and_release_ends_it() {
    let mut c = TransformController::new();
    assert!(c.drag(p(1, 1), 0).is_none());
    assert!(c.press(scale_handle(1, 0), p(0, 0), square(), Frame::identity()));
    assert!(!c.press(Some(PressTarget::Body(ShapeHandle { id: 2 })), p(0, 0), square(), Frame::identity()));
    assert_eq!(c.release(), Some(ShapeHandle { id: 1 }));
    assert_eq!(c.session, ManipulationSession::Idle);
    assert_eq!(c.release(), None);
    let orphan = Some(PressTarget::ScaleHandle(TransformScalePick {
        location: Direction { x: 1, y: 0 },
        entity: None,
    }));
    assert!(!c.press(orphan, p(0, 0), square(), Frame::identity()));
    assert!(!c.press(None, p(0, 0), square(), Frame::identity()));
}

#[test]
fn recentering_twice_moves_nothing_the_second_time() {
    let mut shape = CustomShapeRaw { segments: vec![], closed: true, origin: p(0, 0) };
    let mut a = square();
    a.translation = p(100, 100);
    let bbox = BoundingBox { min: p(0, 0), max: p(100, 41) };
    let d = update_origin(&mut shape, &mut a, &bbox).unwrap();
    assert_eq!(d, p(-50, -20));
    assert_eq!(shape.origin, p(-50, -20));
    assert_eq!(a.translation, p(150, 120));
    let moved = BoundingBox { min: p(-50, -20), max: p(50, 21) };
    let d2 = update_origin(&mut shape, &mut a, &moved).unwrap();
    assert_eq!(d2, p(0, 0));
    assert_eq!(shape.origin, p(-50, -20));
    assert_eq!(a.translation, p(150, 120));
}

#[test]
fn recentering_a_negative_box_rounds_down() {
    let mut shape = CustomShapeRaw { segments: vec![], closed: false, origin: p(0, 0) };
    let mut a = square();
    let bbox = BoundingBox { min: p(-9, -4), max: p(0, 1) };
    assert_eq!(update_origin(&mut shape, &mut a, &bbox), Some(p(5, 2)));
    assert_eq!(a.translation, p(-5, -2));
}

#[test]
fn scale_handles_sit_on_corners_and_edges() {
    let s = Scale { extent: p(70, -20), base: p(50, 50) };
    assert_eq!(scale_handle_position(Direction { x: 1, y: 1 }, s), p(70, -20));
    assert_eq!(scale_handle_position(Direction { x: -1, y: 0 }, s), p(-70, 0));
    assert_eq!(scale_handle_position(Direction { x: 0, y: -1 }, s), p(0, 20));
}

#[test]
fn secondary_press_turns_every_shape_an_eighth() {
    let mut a = square();
    a.rotation = (FULL_TURN - EIGHTH_TURN) as u32;
    let mut all = vec![square(), a];
    debug_scale(false, &mut all);
    assert_eq!(all[0].rotation, 0);
    debug_scale(true, &mut all);
    assert_eq!(all[0].rotation as i64, EIGHTH_TURN);
    assert_eq!(all[1].rotation, 0);
    assert_eq!(all[1].translation, a.translation);
}

#[test]
fn flat_shape_can_be_moved_and_scaled() {
    let flat = Affine {
        translation: p(0, 0),
        scale: Scale { extent: p(40, 0), base: p(40, 0) },
        rotation: 0,
    };
    let mut c = TransformController::new();
    assert!(c.press(Some(PressTarget::Body(ShapeHandle { id: 3 })), p(5, 0), flat, Frame::identity()));
    let (_, moved) = c.drag(p(15, 7), 0).unwrap();
    assert_eq!(moved.translation, p(10, 7));
    c.release();
    assert!(c.press(scale_handle(1, 0), p(40, 0), flat, Frame::identity()));
    let (_, wider) = c.drag(p(60, 9), 0).unwrap();
    assert_eq!(wider.scale.extent, p(60, 0));
    assert_eq!(wider.scale.base, p(40, 0));
    assert_eq!(wider.translation, p(10, 0));
}
